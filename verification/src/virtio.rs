//! The virtio transport over PCI: capability discovery, the device
//! handshake, and a model of each virtqueue's shared memory with the
//! driver-side protocol on it.

use crate::pci::{Bar, Pci};
use vstd::prelude::*;

verus! {

/// Most virtqueues a device record keeps track of.
pub const MAX_NUM_QUEUE: usize = 256;

/// Descriptor flag: the chain continues in `next`.
pub const VIRTQ_DESC_F_NEXT: u16 = 1;

/// Descriptor flag: the device writes to the buffer.
pub const VIRTQ_DESC_F_WRITE: u16 = 2;

/// Descriptor flag: the buffer holds a table of descriptors.
pub const VIRTQ_DESC_F_INDIRECT: u16 = 4;

/// Size in bytes of the buffer behind each descriptor.
pub const BUFFER_SIZE: u32 = 4096;

/// `next` value of a descriptor that ends a chain.
pub const NO_NEXT: u16 = 0xffff;

/// The pool of free descriptor ids of one virtqueue, a stack: the id freed
/// last is handed out first. Ids of the queue that are not in the pool are
/// in flight.
pub struct QueueFreeDescs {
    free: Vec<u16>,
    queue_size: u16,
}

impl View for QueueFreeDescs {
    type V = Seq<u16>;

    /// The free ids, the next one to hand out last.
    closed spec fn view(&self) -> Seq<u16> {
        self.free@
    }
}

impl QueueFreeDescs {
    /// Number of descriptors of the queue.
    pub closed spec fn size(&self) -> nat {
        self.queue_size as nat
    }

    /// No id is free twice, and every free id belongs to the queue.
    pub open spec fn wf(&self) -> bool {
        &&& self@.no_duplicates()
        &&& forall|i: int| 0 <= i < self@.len() ==> self@[i] < self.size()
    }

    /// The ids in the pool.
    pub open spec fn free_set(&self) -> Set<u16> {
        self@.to_set()
    }

    /// The ids of the queue that are handed out.
    pub open spec fn in_flight(&self) -> Set<u16> {
        Set::new(|d: u16| d < self.size() && !self@.contains(d))
    }

    /// A pool holding every id of a queue of `queue_size` descriptors, in
    /// rising order, so that the highest id is handed out first.
    pub fn new(queue_size: u16) -> (r: Self)
        ensures
            r@ == Seq::new(queue_size as nat, |i: int| i as u16),
            r.size() == queue_size,
            r.wf(),
            r.in_flight() == Set::<u16>::empty(),
    {
        let mut free: Vec<u16> = Vec::with_capacity(queue_size as usize);
        let mut i: u16 = 0;
        while i < queue_size
            invariant
                i <= queue_size,
                free@ == Seq::new(i as nat, |j: int| j as u16),
            decreases queue_size - i,
        {
            free.push(i);
            i += 1;
            assert(free@ =~= Seq::new(i as nat, |j: int| j as u16));
        }
        let r = Self { free, queue_size };
        assert(r.in_flight() =~= Set::<u16>::empty()) by {
            assert forall|d: u16| d < r.size() implies r@.contains(d) by {
                assert(r@[d as int] == d);
            }
        }
        r
    }

    /// Hands out the id on top of the pool, if there is one.
    pub fn get_free(&mut self) -> (r: Option<u16>)
        ensures
            final(self).size() == old(self).size(),
            match r {
                Some(d) => old(self)@.len() > 0 && d == old(self)@.last() && final(self)@ == old(self)@.drop_last(),
                None => old(self)@.len() == 0 && final(self)@ == old(self)@,
            },
            old(self).wf() ==> final(self).wf(),
            old(self).wf() && r is Some ==> final(self).in_flight() == old(self).in_flight().insert(
                r->0,
            ) && !old(self).in_flight().contains(r->0),
    {
        let r = self.free.pop();
        proof {
            if old(self).wf() && r is Some {
                let d = r->0;
                let s = old(self)@;
                assert(s[s.len() - 1] == d);
                assert(s.contains(d));
                assert forall|x: u16| final(self)@.contains(x) <==> (s.contains(x) && x != d) by {
                    if s.contains(x) && x != d {
                        let k = choose|k: int| 0 <= k < s.len() && s[k] == x;
                        assert(final(self)@[k] == x);
                    }
                }
                assert(final(self).in_flight() =~= old(self).in_flight().insert(d));
            }
        }
        r
    }

    /// Hands out the two ids on top of the pool, the topmost first, if the
    /// pool holds at least two; otherwise leaves the pool as it is.
    pub fn get_free_twice(&mut self) -> (r: Option<(u16, u16)>)
        ensures
            final(self).size() == old(self).size(),
            match r {
                Some((head, next)) => old(self)@.len() >= 2 && head == old(self)@.last() && next
                    == old(self)@[old(self)@.len() - 2] && final(self)@ == old(self)@.subrange(
                    0,
                    old(self)@.len() - 2,
                ),
                None => old(self)@.len() < 2 && final(self)@ == old(self)@,
            },
            old(self).wf() ==> final(self).wf(),
            old(self).wf() && r is Some ==> (r->0).0 != (r->0).1 && final(self).in_flight() == old(self).in_flight().insert((r->0).0).insert((r->0).1),
    {
        if self.free.len() >= 2 {
            let head = self.get_free();
            let next = self.get_free();
            assert(final(self)@ =~= old(self)@.subrange(0, old(self)@.len() - 2));
            Some((head.unwrap(), next.unwrap()))
        } else {
            None
        }
    }

    /// Puts `desc_id` on top of the pool.
    pub fn set_free(&mut self, desc_id: u16)
        ensures
            final(self).size() == old(self).size(),
            final(self)@ == old(self)@.push(desc_id),
            old(self).wf() && old(self).in_flight().contains(desc_id) ==> final(self).wf()
                && final(self).in_flight() == old(self).in_flight().remove(desc_id),
    {
        self.free.push(desc_id);
        proof {
            if old(self).wf() && old(self).in_flight().contains(desc_id) {
                let s = old(self)@;
                assert forall|x: u16| final(self)@.contains(x) <==> (s.contains(x) || x
                    == desc_id) by {
                    if s.contains(x) {
                        let k = choose|k: int| 0 <= k < s.len() && s[k] == x;
                        assert(final(self)@[k] == x);
                    }
                    if x == desc_id {
                        assert(final(self)@[s.len() as int] == x);
                    }
                }
                assert(final(self).in_flight() =~= old(self).in_flight().remove(desc_id));
            }
        }
    }

    /// Number of free ids.
    pub fn free_count(&self) -> (n: usize)
        ensures
            n == self@.len(),
    {
        self.free.len()
    }
}

/// In a well-formed pool every id of the queue is either free or in
/// flight, and none is both.
pub proof fn lemma_pool_partition(pool: QueueFreeDescs)
    requires
        pool.wf(),
    ensures
        pool.free_set().union(pool.in_flight()) == Set::new(|d: u16| d < pool.size()),
        pool.free_set().intersect(pool.in_flight()) == Set::<u16>::empty(),
{
    assert(pool.free_set().union(pool.in_flight()) =~= Set::new(|d: u16| d < pool.size())) by {
        assert forall|d: u16| pool.free_set().contains(d) implies d < pool.size() by {
            let k = choose|k: int| 0 <= k < pool@.len() && pool@[k] == d;
        }
    }
    assert(pool.free_set().intersect(pool.in_flight()) =~= Set::<u16>::empty());
}

/// The ids of a request come back: when the two ids on top of a
/// well-formed pool are taken and later freed, the first taken first,
/// the pool is well-formed again and holds the ids it held, as many as
/// before, and the ids in flight are those that were in flight before.
pub proof fn lemma_request_returns_ids(
    before: QueueFreeDescs,
    during: QueueFreeDescs,
    after: QueueFreeDescs,
    head: u16,
    next: u16,
)
    requires
        before.wf(),
        before@.len() >= 2,
        head == before@.last(),
        next == before@[before@.len() - 2],
        during.size() == before.size(),
        during@ == before@.subrange(0, before@.len() - 2),
        after.size() == before.size(),
        after@ == during@.push(head).push(next),
    ensures
        after.wf(),
        after@.len() == before@.len(),
        after.free_set() == before.free_set(),
        after.in_flight() == before.in_flight(),
        after.free_set().union(after.in_flight()) == Set::new(|d: u16| d < before.size()),
        after.free_set().intersect(after.in_flight()) == Set::<u16>::empty(),
{
    let b = before@;
    let a = after@;
    let n = b.len() as int;
    assert(a.len() == n);
    assert forall|i: int| 0 <= i < n implies a[i] == b[if i == n - 2 {
        n - 1
    } else if i == n - 1 {
        n - 2
    } else {
        i
    }] by {}
    assert forall|x: u16| a.contains(x) <==> b.contains(x) by {
        if a.contains(x) {
            let i = choose|i: int| 0 <= i < n && a[i] == x;
            let j = if i == n - 2 {
                n - 1
            } else if i == n - 1 {
                n - 2
            } else {
                i
            };
            assert(b[j] == x);
        }
        if b.contains(x) {
            let j = choose|j: int| 0 <= j < n && b[j] == x;
            let i = if j == n - 2 {
                n - 1
            } else if j == n - 1 {
                n - 2
            } else {
                j
            };
            assert(a[i] == x);
        }
    }
    assert(after.free_set() =~= before.free_set());
    assert(after.in_flight() =~= before.in_flight());
    lemma_pool_partition(after);
}

/// The kinds of virtio device the kernel drives.
#[derive(Clone, Copy, Debug, PartialEq, Eq, Structural)]
pub enum DeviceType {
    Input,
    Gpu,
}

/// Device id, counted from 0x1040, of an input device.
pub const DEVICE_ID_INPUT: isize = 18;

/// Device id, counted from 0x1040, of a GPU.
pub const DEVICE_ID_GPU: isize = 16;

/// The kind of device behind a device id counted from 0x1040, if the
/// kernel drives it.
pub fn device_id_to_type(id: isize) -> (r: Option<DeviceType>)
    ensures
        id == 18 ==> r == Some(DeviceType::Input),
        id == 16 ==> r == Some(DeviceType::Gpu),
        id != 18 && id != 16 ==> r is None,
{
    if id == DEVICE_ID_INPUT {
        Some(DeviceType::Input)
    } else if id == DEVICE_ID_GPU {
        Some(DeviceType::Gpu)
    } else {
        None
    }
}

/// The common configuration registers of a virtio PCI device, in the
/// order the device lays them out.
#[derive(Clone, Copy, Debug, PartialEq, Eq, Structural)]
pub struct VirtioPciCommonCfg {
    pub device_feature_select: u32,
    pub device_feature: u32,
    pub driver_feature_select: u32,
    pub driver_feature: u32,
    pub msix_config: u16,
    pub num_queues: u16,
    pub device_status: u8,
    pub config_generation: u8,
    pub queue_select: u16,
    pub queue_size: u16,
    pub queue_msix_vector: u16,
    pub queue_enable: u16,
    pub queue_notify_off: u16,
    pub queue_desc: u64,
    pub queue_driver: u64,
    pub queue_device: u64,
}

/// One parsed virtio capability: what it carries, and the window of the
/// BAR it lies in.
#[derive(Debug)]
pub struct VirtioCap<T> {
    pub cap: T,
    pub bar: Bar,
    pub offset: u32,
    pub length: u32,
}

impl<T> VirtioCap<T> {
    /// A capability that carries `t` and lies `offset` bytes into `bar`.
    pub fn new(t: T, bar: Bar, offset: u32, length: u32) -> (r: Self)
        ensures
            r.cap == t,
            r.bar == bar,
            r.offset == offset,
            r.length == length,
    {
        Self { cap: t, bar, offset, length }
    }
}

/// One entry of a descriptor table.
#[derive(Clone, Copy, Debug, PartialEq, Eq, Structural)]
pub struct Desc {
    pub addr: u64,
    pub len: u32,
    pub flags: u16,
    pub next: u16,
}

/// One entry of the device ring: the head of a finished chain and the
/// number of bytes the device wrote.
#[derive(Clone, Copy, Debug, PartialEq, Eq, Structural)]
pub struct UsedElem {
    pub id: u32,
    pub len: u32,
}

/// The descriptor `d` reset to a device-writable buffer of full size.
pub open spec fn writable(d: Desc) -> Desc {
    Desc { addr: d.addr, len: 4096, flags: 2, next: d.next }
}

/// The descriptor `d` made the head of a request of `len` bytes that
/// continues in `next`.
pub open spec fn request_head(d: Desc, len: nat, next: u16) -> Desc {
    Desc { addr: d.addr, len: len as u32, flags: 1, next }
}

/// A ring index one further, wrapping at 2^16.
pub open spec fn bump(idx: u16) -> u16 {
    ((idx + 1) % 0x1_0000) as u16
}

/// The memory that driver and device share for one virtqueue: descriptor
/// table, the buffer behind each descriptor, driver ring and device ring.
#[verifier::ext_equal]
pub struct QueueState {
    pub descs: Seq<Desc>,
    pub buffers: Seq<Seq<u8>>,
    pub driver_idx: u16,
    pub driver_ring: Seq<u16>,
    pub device_idx: u16,
    pub device_ring: Seq<UsedElem>,
}

impl QueueState {
    /// Number of descriptors of the queue.
    pub open spec fn size(self) -> int {
        self.descs.len() as int
    }

    /// Descriptor `id` reset to a device-writable buffer of full size.
    pub open spec fn set_writable(self, id: u16) -> QueueState {
        QueueState { descs: self.descs.update(id as int, writable(self.descs[id as int])), ..self }
    }

    /// `id` written to the next slot of the driver ring, and the ring's
    /// index advanced.
    pub open spec fn set_available(self, id: u16) -> QueueState {
        QueueState {
            driver_ring: self.driver_ring.update(self.driver_idx as int % self.size(), id),
            driver_idx: bump(self.driver_idx),
            ..self
        }
    }

    /// `data` placed at the start of the buffer of `head`, `head` made a
    /// request that continues in `next`, `next` made writable, and
    /// `head` made available.
    pub open spec fn add_request(self, head: u16, next: u16, data: Seq<u8>) -> QueueState {
        let filled = QueueState {
            descs: self.descs.update(
                head as int,
                request_head(self.descs[head as int], data.len(), next),
            ),
            buffers: self.buffers.update(
                head as int,
                data + self.buffers[head as int].subrange(data.len() as int, 4096),
            ),
            ..self
        };
        filled.set_writable(next).set_available(head)
    }

    /// What the device does when it finishes a chain: `elem` written to
    /// the next slot of the device ring, and the ring's index advanced.
    pub open spec fn publish(self, elem: UsedElem) -> QueueState {
        QueueState {
            device_ring: self.device_ring.update(self.device_idx as int % self.size(), elem),
            device_idx: bump(self.device_idx),
            ..self
        }
    }

    /// The device publishing `elems` one after the other.
    pub open spec fn publish_all(self, elems: Seq<UsedElem>) -> QueueState
        decreases elems.len(),
    {
        if elems.len() == 0 {
            self
        } else {
            self.publish_all(elems.drop_last()).publish(elems.last())
        }
    }

    /// Number of entries the device has published since the driver last
    /// took one, when the last one taken was at ring index `last`.
    pub open spec fn pending(self, last: u16) -> int {
        (self.device_idx - last - 1) % 0x1_0000
    }

    /// The `j`-th entry after the one at ring index `last`.
    pub open spec fn used_at(self, last: u16, j: int) -> UsedElem {
        self.device_ring[((last + 1 + j) % 0x1_0000) % self.size()]
    }
}

/// The queue after the last `n` descriptors of `free` have been reset
/// and offered to the device, the last of `free` first.
pub open spec fn offered(q: QueueState, free: Seq<u16>, n: nat) -> QueueState
    decreases n,
{
    if n == 0 || free.len() == 0 {
        q
    } else {
        offered(
            q.set_writable(free.last()).set_available(free.last()),
            free.drop_last(),
            (n - 1) as nat,
        )
    }
}

/// One virtqueue: its size, where its three regions lie, and their
/// contents.
pub struct Virtqueue {
    pub size: u16,
    pub notify_off: u16,
    pub desc_addr: u64,
    pub driver_addr: u64,
    pub device_addr: u64,
    pub descs: Vec<Desc>,
    pub buffers: Vec<Vec<u8>>,
    pub driver_flags: u16,
    pub driver_idx: u16,
    pub driver_ring: Vec<u16>,
    pub device_flags: u16,
    pub device_idx: u16,
    pub device_ring: Vec<UsedElem>,
}

impl View for Virtqueue {
    type V = QueueState;

    open spec fn view(&self) -> QueueState {
        QueueState {
            descs: self.descs@,
            buffers: Seq::new(self.buffers@.len(), |i: int| self.buffers@[i]@),
            driver_idx: self.driver_idx,
            driver_ring: self.driver_ring@,
            device_idx: self.device_idx,
            device_ring: self.device_ring@,
        }
    }
}

impl Virtqueue {
    /// The queue has at least one descriptor, each region has one entry
    /// per descriptor, and each buffer is one page.
    pub open spec fn wf(&self) -> bool {
        &&& self.size > 0
        &&& self.descs@.len() == self.size
        &&& self.buffers@.len() == self.size
        &&& self.driver_ring@.len() == self.size
        &&& self.device_ring@.len() == self.size
        &&& forall|i: int| 0 <= i < self.size ==> (#[trigger] self.buffers@[i])@.len() == 4096
    }

    /// Size, placement and ring flags are those of `other`.
    pub open spec fn same_frame(&self, other: &Virtqueue) -> bool {
        &&& self.size == other.size
        &&& self.notify_off == other.notify_off
        &&& self.desc_addr == other.desc_addr
        &&& self.driver_addr == other.driver_addr
        &&& self.device_addr == other.device_addr
        &&& self.driver_flags == other.driver_flags
        &&& self.device_flags == other.device_flags
    }

    /// A queue of `buffer_addrs.len()` descriptors whose table, driver
    /// ring and device ring lie at the given addresses. Descriptor `i`
    /// points at `buffer_addrs[i]` and is writable, of full size and
    /// unchained. The buffers and both rings are zeroed, and the driver
    /// ring's flags word is 1, which tells the device not to interrupt.
    /// A queue without descriptors can be kept but not used.
    pub fn new(
        notify_off: u16,
        desc_addr: u64,
        buffer_addrs: &Vec<u64>,
        driver_addr: u64,
        device_addr: u64,
    ) -> (q: Self)
        requires
            buffer_addrs.len() <= u16::MAX,
        ensures
            q.wf() <==> buffer_addrs.len() > 0,
            q.size == buffer_addrs.len(),
            q.notify_off == notify_off,
            q.desc_addr == desc_addr,
            q.driver_addr == driver_addr,
            q.device_addr == device_addr,
            q.driver_flags == 1,
            q.device_flags == 0,
            q.driver_idx == 0,
            q.device_idx == 0,
            forall|i: int|
                0 <= i < q.size ==> q.descs@[i] == (Desc {
                    addr: buffer_addrs@[i],
                    len: 4096,
                    flags: 2,
                    next: 0xffff,
                }),
            forall|i: int| 0 <= i < q.size ==> q.driver_ring@[i] == 0,
            forall|i: int| 0 <= i < q.size ==> q.device_ring@[i] == (UsedElem { id: 0, len: 0 }),
            forall|i: int| 0 <= i < q.size ==> is_zeroed_page(#[trigger] q@.buffers[i]),
    {
        let size: usize = buffer_addrs.len();
        let mut descs: Vec<Desc> = Vec::with_capacity(size);
        let mut buffers: Vec<Vec<u8>> = Vec::with_capacity(size);
        let mut driver_ring: Vec<u16> = Vec::with_capacity(size);
        let mut device_ring: Vec<UsedElem> = Vec::with_capacity(size);
        let mut i: usize = 0;
        while i < size
            invariant
                i <= size,
                size == buffer_addrs.len(),
                descs@.len() == i,
                buffers@.len() == i,
                driver_ring@.len() == i,
                device_ring@.len() == i,
                forall|k: int|
                    0 <= k < i ==> descs@[k] == (Desc {
                        addr: buffer_addrs@[k],
                        len: 4096,
                        flags: 2,
                        next: 0xffff,
                    }),
                forall|k: int| 0 <= k < i ==> driver_ring@[k] == 0,
                forall|k: int| 0 <= k < i ==> device_ring@[k] == (UsedElem { id: 0, len: 0 }),
                forall|k: int| 0 <= k < i ==> is_zeroed_page((#[trigger] buffers@[k])@),
            decreases size - i,
        {
            descs.push(
                Desc {
                    addr: buffer_addrs[i],
                    len: BUFFER_SIZE,
                    flags: VIRTQ_DESC_F_WRITE,
                    next: NO_NEXT,
                },
            );
            buffers.push(zeroed_page());
            driver_ring.push(0);
            device_ring.push(UsedElem { id: 0, len: 0 });
            i += 1;
        }
        Virtqueue {
            size: size as u16,
            notify_off,
            desc_addr,
            driver_addr,
            device_addr,
            descs,
            buffers,
            driver_flags: 1,
            driver_idx: 0,
            driver_ring,
            device_flags: 0,
            device_idx: 0,
            device_ring,
        }
    }

    /// Resets descriptor `desc_id` to a device-writable buffer of full
    /// size.
    pub fn set_writable(&mut self, desc_id: u16)
        requires
            old(self).wf(),
            desc_id < old(self).size,
        ensures
            final(self)@ == old(self)@.set_writable(desc_id),
            final(self).wf(),
            final(self).same_frame(old(self)),
    {
        let mut desc: Desc = self.descs[desc_id as usize];
        desc.flags = VIRTQ_DESC_F_WRITE;
        desc.len = BUFFER_SIZE;
        self.descs.set(desc_id as usize, desc);
        assert(final(self)@.buffers =~= old(self)@.buffers);
    }

    /// Offers the chain that starts at `desc_id` to the device: writes the
    /// id to the driver ring at the ring index modulo the queue size, and
    /// advances the index.
    pub fn set_available(&mut self, desc_id: u16)
        requires
            old(self).wf(),
        ensures
            final(self)@ == old(self)@.set_available(desc_id),
            final(self).wf(),
            final(self).same_frame(old(self)),
    {
        let idx: u16 = self.driver_idx;
        self.driver_ring.set((idx % self.size) as usize, desc_id);
        self.driver_idx = idx.wrapping_add(1);
        assert(final(self)@.buffers =~= old(self)@.buffers);
    }

    /// Resets descriptor `desc_id` and offers it to the device.
    pub fn set_writable_available(&mut self, desc_id: u16)
        requires
            old(self).wf(),
            desc_id < old(self).size,
        ensures
            final(self)@ == old(self)@.set_writable(desc_id).set_available(desc_id),
            final(self).wf(),
            final(self).same_frame(old(self)),
    {
        self.set_writable(desc_id);
        self.set_available(desc_id);
    }

    /// Submits a request: copies `data` to the start of the buffer of
    /// `desc_id`, chains `desc_id` to `desc_next_id`, makes the latter
    /// writable for the reply, and offers `desc_id` to the device.
    pub fn add_request(&mut self, desc_id: u16, desc_next_id: u16, data: &[u8])
        requires
            old(self).wf(),
            desc_id < old(self).size,
            desc_next_id < old(self).size,
            data@.len() <= 4096,
        ensures
            final(self)@ == old(self)@.add_request(desc_id, desc_next_id, data@),
            final(self).wf(),
            final(self).same_frame(old(self)),
    {
        let mut desc: Desc = self.descs[desc_id as usize];
        desc.len = data.len() as u32;
        let page: Vec<u8> = overlay(&self.buffers[desc_id as usize], data);
        self.buffers.set(desc_id as usize, page);
        desc.flags = VIRTQ_DESC_F_NEXT;
        desc.next = desc_next_id;
        self.descs.set(desc_id as usize, desc);
        proof {
            let filled = QueueState {
                descs: old(self)@.descs.update(
                    desc_id as int,
                    request_head(old(self)@.descs[desc_id as int], data@.len(), desc_next_id),
                ),
                buffers: old(self)@.buffers.update(
                    desc_id as int,
                    data@ + old(self)@.buffers[desc_id as int].subrange(data@.len() as int, 4096),
                ),
                ..old(self)@
            };
            assert(self@.buffers =~= filled.buffers);
            assert(self@ =~= filled);
        }
        self.set_writable(desc_next_id);
        self.set_available(desc_id);
    }

    /// Takes the next entry of the device ring, if the device has
    /// published one since the entry at ring index `last_used_idx` was
    /// taken; `last_used_idx` then moves on by one.
    pub fn next_used(&self, last_used_idx: &mut u16) -> (r: Option<UsedElem>)
        requires
            self.wf(),
        ensures
            match r {
                Some(elem) => self@.pending(*old(last_used_idx)) > 0 && elem == self@.used_at(
                    *old(last_used_idx),
                    0,
                ) && *final(last_used_idx) == bump(*old(last_used_idx)),
                None => self@.pending(*old(last_used_idx)) == 0 && *final(last_used_idx) == *old(last_used_idx),
            },
            r is Some ==> self@.pending(*final(last_used_idx)) == self@.pending(*old(last_used_idx))
                - 1,
    {
        let idx_next: u16 = self.device_idx;
        if last_used_idx.wrapping_add(1) != idx_next {
            *last_used_idx = last_used_idx.wrapping_add(1);
            let slot: usize = (*last_used_idx % self.size) as usize;
            Some(self.device_ring[slot])
        } else {
            None
        }
    }

    /// Takes every entry that the device has published since the entry
    /// at ring index `last_used_idx` was taken, oldest first.
    pub fn drain_used(&self, last_used_idx: &mut u16) -> (r: Vec<UsedElem>)
        requires
            self.wf(),
        ensures
            r@.len() == self@.pending(*old(last_used_idx)),
            forall|j: int|
                0 <= j < r@.len() ==> r@[j] == self@.used_at(*old(last_used_idx), j),
            self@.pending(*final(last_used_idx)) == 0,
            *final(last_used_idx) == (*old(last_used_idx) + r@.len()) % 0x1_0000,
    {
        let mut r: Vec<UsedElem> = Vec::new();
        loop
            invariant
                self.wf(),
                r@.len() <= self@.pending(*old(last_used_idx)),
                *last_used_idx == (*old(last_used_idx) + r@.len()) % 0x1_0000,
                self@.pending(*last_used_idx) == self@.pending(*old(last_used_idx)) - r@.len(),
                forall|j: int|
                    0 <= j < r@.len() ==> r@[j] == self@.used_at(*old(last_used_idx), j),
            decreases self@.pending(*last_used_idx),
        {
            let next = self.next_used(last_used_idx);
            match next {
                Some(elem) => {
                    r.push(elem);
                },
                None => {
                    return r;
                },
            }
        }
    }

    /// Descriptor `desc_id` as the table holds it.
    pub fn read_desc(&self, desc_id: u16) -> (d: Desc)
        requires
            self.wf(),
            desc_id < self.size,
        ensures
            d == self@.descs[desc_id as int],
    {
        self.descs[desc_id as usize]
    }

    /// The buffer behind descriptor `desc_id`.
    pub fn read_buffer(&self, desc_id: u16) -> (page: &Vec<u8>)
        requires
            self.wf(),
            desc_id < self.size,
        ensures
            page@ == self@.buffers[desc_id as int],
            page@.len() == 4096,
    {
        &self.buffers[desc_id as usize]
    }
}

/// Ring positions do not depend on how often the index has wrapped, as
/// long as the queue size divides 2^16.
pub proof fn lemma_ring_slot(x: int, size: int)
    requires
        size > 0,
        0x1_0000int % size == 0,
    ensures
        (x % 0x1_0000) % size == x % size,
{
    let k = 0x1_0000int / size;
    assert(0x1_0000 == size * k) by {
        vstd::arithmetic::div_mod::lemma_fundamental_div_mod(0x1_0000, size);
    }
    assert(k > 0) by (nonlinear_arith)
        requires
            0x1_0000 == size * k,
            size > 0,
    ;
    vstd::arithmetic::div_mod::lemma_mod_mod(x, size, k);
}

/// What the device publishes comes out in the order it was published:
/// when the driver has taken everything, and the device then publishes
/// `elems`, no more of them than the queue has descriptors, the driver
/// finds exactly `elems` pending, in that order.
pub proof fn lemma_used_in_order(q: QueueState, last: u16, elems: Seq<UsedElem>)
    requires
        q.size() > 0,
        q.device_ring.len() == q.size(),
        0x1_0000int % q.size() == 0,
        q.size() < 0x1_0000,
        q.pending(last) == 0,
        elems.len() <= q.size(),
    ensures
        q.publish_all(elems).pending(last) == elems.len(),
        q.publish_all(elems).device_idx == (q.device_idx + elems.len()) % 0x1_0000,
        q.publish_all(elems).device_ring.len() == q.size(),
        q.publish_all(elems).descs == q.descs,
        forall|j: int|
            0 <= j < elems.len() ==> q.publish_all(elems).used_at(last, j) == elems[j],
    decreases elems.len(),
{
    if elems.len() > 0 {
        let before = elems.drop_last();
        let n = before.len() as int;
        lemma_used_in_order(q, last, before);
        let mid = q.publish_all(before);
        let after = mid.publish(elems.last());
        assert(q.publish_all(elems) == after);
        let size = q.size();
        assert(mid.size() == size);
        let d = q.device_idx as int;
        assert(d == (last + 1) % 0x1_0000);
        assert(mid.device_idx as int == (last + 1 + n) % 0x1_0000);
        let slot = mid.device_idx as int % size;
        lemma_ring_slot(last + 1 + n, size);
        assert(slot == (last + 1 + n) % size);
        assert forall|j: int| 0 <= j < elems.len() implies after.used_at(last, j) == elems[j] by {
            lemma_ring_slot(last + 1 + j, size);
            if j < n {
                assert(mid.used_at(last, j) == before[j]);
                let a = last + 1 + j;
                let b = last + 1 + n;
                if a % size == b % size {
                    vstd::arithmetic::div_mod::lemma_mod_equivalence(b, a, size);
                    vstd::arithmetic::div_mod::lemma_small_mod((n - j) as nat, size as nat);
                }
            }
        }
    }
}

/// Recycling a descriptor leaves the queue as it was. When the id on top
/// of the pool names a descriptor in its reset form, then taking it,
/// making it writable and available, the device finishing it, and
/// freeing it again restores the pool, the descriptor table and the
/// buffers; the two ring indices have each moved on by one.
pub proof fn lemma_recycle_restores(q: QueueState, free: Seq<u16>, written: u32)
    requires
        free.len() > 0,
        free.last() < q.size(),
        q.descs[free.last() as int] == writable(q.descs[free.last() as int]),
    ensures
        ({
            let id = free.last();
            let end = q.set_writable(id).set_available(id).publish(
                UsedElem { id: id as u32, len: written },
            );
            &&& free.drop_last().push(id) == free
            &&& end.descs == q.descs
            &&& end.buffers == q.buffers
            &&& end.driver_idx == bump(q.driver_idx)
            &&& end.device_idx == bump(q.device_idx)
        }),
{
    let id = free.last();
    assert(free.drop_last().push(id) =~= free);
    assert(q.set_writable(id).descs =~= q.descs);
}

/// `page` is 4096 zero bytes.
pub open spec fn is_zeroed_page(page: Seq<u8>) -> bool {
    page.len() == 4096 && forall|j: int| 0 <= j < 4096 ==> page[j] == 0
}

/// A page of zero bytes.
pub fn zeroed_page() -> (page: Vec<u8>)
    ensures
        is_zeroed_page(page@),
{
    let mut page: Vec<u8> = Vec::with_capacity(4096);
    let mut j: usize = 0;
    while j < 4096
        invariant
            j <= 4096,
            page@.len() == j,
            forall|k: int| 0 <= k < j ==> page@[k] == 0,
        decreases 4096 - j,
    {
        page.push(0);
        j += 1;
    }
    page
}

/// A copy of `page` whose first bytes are replaced by `data`.
pub fn overlay(page: &Vec<u8>, data: &[u8]) -> (r: Vec<u8>)
    requires
        data@.len() <= page@.len(),
    ensures
        r@ == data@ + page@.subrange(data@.len() as int, page@.len() as int),
{
    let mut r: Vec<u8> = Vec::with_capacity(page.len());
    let mut j: usize = 0;
    while j < page.len()
        invariant
            j <= page@.len(),
            data@.len() <= page@.len(),
            r@.len() == j,
            forall|k: int| 0 <= k < j ==> r@[k] == if k < data@.len() {
                data@[k]
            } else {
                page@[k]
            },
        decreases page@.len() - j,
    {
        if j < data.len() {
            r.push(data[j]);
        } else {
            r.push(page[j]);
        }
        j += 1;
    }
    assert(r@ =~= data@ + page@.subrange(data@.len() as int, page@.len() as int));
    r
}

/// Capability id of a vendor-specific capability, which is what virtio
/// uses.
pub const PCI_CAP_VENDOR: u8 = 0x9;

/// Virtio capability type: common configuration.
pub const VIRTIO_PCI_CAP_COMMON_CFG: u8 = 1;

/// Virtio capability type: notifications.
pub const VIRTIO_PCI_CAP_NOTIFY_CFG: u8 = 2;

/// Virtio capability type: interrupt status.
pub const VIRTIO_PCI_CAP_ISR_CFG: u8 = 3;

/// Virtio capability type: device-specific configuration.
pub const VIRTIO_PCI_CAP_DEVICE_CFG: u8 = 4;

/// Virtio capability type: PCI configuration access.
pub const VIRTIO_PCI_CAP_PCI_CFG: u8 = 5;

/// Most capabilities a chain can have without visiting an offset twice.
pub const MAX_CAPS: usize = 256;

/// The offsets of the capabilities chained from `at`, in chain order.
/// Each capability holds the offset of the next in its second byte, and
/// an offset of zero ends the chain. There is no chain when a capability
/// starts at the last byte of the space or when more than `fuel`
/// capabilities are linked, which happens only if the links form a loop.
pub open spec fn cap_chain(bytes: Seq<u8>, at: u8, fuel: nat) -> Option<Seq<u8>>
    decreases fuel,
{
    if fuel == 0 || at == 255 {
        None
    } else {
        let next = bytes[at + 1];
        if next == 0 {
            Some(seq![at])
        } else {
            match cap_chain(bytes, next, (fuel - 1) as nat) {
                Some(rest) => Some(seq![at] + rest),
                None => None,
            }
        }
    }
}

/// `front` followed by the chain `rest`, if there is one.
pub open spec fn chain_after(front: Seq<u8>, rest: Option<Seq<u8>>) -> Option<Seq<u8>> {
    match rest {
        Some(r) => Some(front + r),
        None => None,
    }
}

/// The offset, rounded down to a dword boundary, of the field `delta`
/// bytes into the capability at `at`.
pub open spec fn field_at(at: u8, delta: int) -> int {
    (at + delta) - (at + delta) % 4
}

/// The start of a BAR's range, zero if it is not a memory BAR.
pub open spec fn bar_base(bar: Bar) -> u64 {
    match bar {
        Bar::Mm(p) => p,
        _ => 0,
    }
}

/// The capability at `at` can be read: if it is a virtio capability, its
/// fields lie inside the configuration space, and if it is of a type the
/// driver uses, it names one of the six BARs, and the structure it points
/// at (for all but PCI configuration access) ends below 2^52.
pub open spec fn entry_ok(pci: Pci, bars: Seq<Bar>, at: u8) -> bool {
    let bytes = pci.config.bytes();
    bytes[at as int] == 9 ==> {
        &&& at <= 243
        &&& ({
            let t = bytes[at + 3];
            let b = bytes[at + 4];
            (t == 1 || t == 2 || t == 4 || t == 5) ==> {
                &&& b < 6
                &&& (t == 2 ==> at <= 239)
                &&& (t == 5 ==> at <= 236)
                &&& (t != 5 ==> bar_base(bars[b as int]) + pci.config.u32_at(field_at(at, 8))
                    < 0x10_0000_0000_0000)
            }
        })
    }
}

/// The capability at `at` is a virtio capability of type `t` that the
/// driver can use: the common and the device configuration must lie in a
/// memory BAR.
pub open spec fn selected(pci: Pci, bars: Seq<Bar>, at: u8, t: u8) -> bool {
    let bytes = pci.config.bytes();
    &&& bytes[at as int] == 9
    &&& bytes[at + 3] == t
    &&& (t == 1 || t == 4 ==> bars[bytes[at + 4] as int] is Mm)
}

/// The last capability among `offs` that is usable for type `t`.
pub open spec fn winner(pci: Pci, bars: Seq<Bar>, offs: Seq<u8>, t: u8) -> Option<u8>
    decreases offs.len(),
{
    if offs.len() == 0 {
        None
    } else if selected(pci, bars, offs.last(), t) {
        Some(offs.last())
    } else {
        winner(pci, bars, offs.drop_last(), t)
    }
}

/// Where the four capabilities that the driver needs were found.
pub struct CapOffsets {
    pub common: u8,
    pub device: u8,
    pub notify: u8,
    pub pci_conf: u8,
}

/// The capabilities that the driver needs, if the chain starting at
/// `start` is readable and holds a usable one of each of the four types.
/// Where a type occurs twice, the later one counts.
pub open spec fn located(pci: Pci, bars: Seq<Bar>, start: u8) -> Option<CapOffsets> {
    match cap_chain(pci.config.bytes(), start, 256) {
        None => None,
        Some(offs) => {
            if !(forall|k: int| 0 <= k < offs.len() ==> entry_ok(pci, bars, #[trigger] offs[k])) {
                None
            } else {
                match (
                    winner(pci, bars, offs, 1),
                    winner(pci, bars, offs, 4),
                    winner(pci, bars, offs, 2),
                    winner(pci, bars, offs, 5),
                ) {
                    (Some(common), Some(device), Some(notify), Some(pci_conf)) => Some(
                        CapOffsets { common, device, notify, pci_conf },
                    ),
                    _ => None,
                }
            }
        },
    }
}

/// The BAR, the offset and the length of `cap` are those that the
/// capability at `at` names.
pub open spec fn placed_from<T>(cap: VirtioCap<T>, pci: Pci, bars: Seq<Bar>, at: u8) -> bool {
    &&& cap.bar == bars[pci.config.bytes()[at + 4] as int]
    &&& cap.offset == pci.config.u32_at(field_at(at, 8))
    &&& cap.length == pci.config.u32_at(field_at(at, 12))
}

/// The four capabilities that the driver needs. The common and the device
/// capability carry the physical address of their structure, the notify
/// capability its offset multiplier, and the PCI configuration capability
/// its four data bytes.
#[derive(Debug)]
pub struct VirtioCaps {
    pub common: VirtioCap<u64>,
    pub device: VirtioCap<u64>,
    pub notify: VirtioCap<u32>,
    pub pci_conf: VirtioCap<[u8; 4]>,
}

impl VirtioCaps {
    /// Each capability holds what the configuration space says at its
    /// offset.
    pub open spec fn read_from(&self, pci: Pci, bars: Seq<Bar>, at: CapOffsets) -> bool {
        &&& placed_from(self.common, pci, bars, at.common)
        &&& self.common.cap == bar_base(self.common.bar) + self.common.offset
        &&& placed_from(self.device, pci, bars, at.device)
        &&& self.device.cap == bar_base(self.device.bar) + self.device.offset
        &&& placed_from(self.notify, pci, bars, at.notify)
        &&& self.notify.cap == pci.config.u32_at(field_at(at.notify, 16))
        &&& bar_base(self.notify.bar) + self.notify.offset < 0x10_0000_0000_0000
        &&& placed_from(self.pci_conf, pci, bars, at.pci_conf)
        &&& self.pci_conf.cap@ == pci.config.bytes().subrange(at.pci_conf + 16, at.pci_conf + 20)
    }

    /// Follows the capability chain from `start` and lists the offsets of
    /// its capabilities, if the chain ends.
    pub fn chain(pci: &Pci, start: u8) -> (r: Option<Vec<u8>>)
        ensures
            match cap_chain(pci.config.bytes(), start, 256) {
                Some(offs) => r is Some && r->0@ == offs,
                None => r is None,
            },
    {
        let mut offs: Vec<u8> = Vec::new();
        let mut cur: u8 = start;
        let mut fuel: usize = MAX_CAPS;
        loop
            invariant
                cap_chain(pci.config.bytes(), start, 256) == chain_after(
                    offs@,
                    cap_chain(pci.config.bytes(), cur, fuel as nat),
                ),
            decreases fuel,
        {
            if fuel == 0 || cur == 255 {
                return None;
            }
            let next: u8 = pci.config_read_u8(cur + 1);
            let ghost before = offs@;
            offs.push(cur);
            if next == 0 {
                assert(before + seq![cur] =~= offs@);
                return Some(offs);
            }
            proof {
                let rest = cap_chain(pci.config.bytes(), next, (fuel - 1) as nat);
                if rest is Some {
                    assert(before + (seq![cur] + rest->0) =~= offs@ + rest->0);
                }
            }
            cur = next;
            fuel -= 1;
        }
    }

    /// Examines the capability at `at`. Says whether it can be read and,
    /// if so, for which of the four types the driver can use it.
    pub fn classify(pci: &Pci, bars: &[Bar; 6], at: u8) -> (r: Option<Option<u8>>)
        ensures
            r is Some <==> entry_ok(*pci, bars@, at),
            r is Some ==> (forall|t: u8|
                (t == 1 || t == 2 || t == 4 || t == 5) ==> (#[trigger] selected(*pci, bars@, at, t)
                    <==> r->0 == Some(t))),
    {
        let cap: u8 = pci.config_read_u8(at);
        if cap != PCI_CAP_VENDOR {
            return Some(None);
        }
        if at > 243 {
            return None;
        }
        let cfg_type: u8 = pci.config_read_u8(at + 3);
        let bar: u8 = pci.config_read_u8(at + 4);
        let offset: u32 = pci.config_read_u32(at + 8);
        if !(cfg_type == VIRTIO_PCI_CAP_COMMON_CFG || cfg_type == VIRTIO_PCI_CAP_NOTIFY_CFG
            || cfg_type == VIRTIO_PCI_CAP_DEVICE_CFG || cfg_type == VIRTIO_PCI_CAP_PCI_CFG) {
            return Some(None);
        }
        if bar >= 6 || (cfg_type == VIRTIO_PCI_CAP_NOTIFY_CFG && at > 239) || (cfg_type
            == VIRTIO_PCI_CAP_PCI_CFG && at > 236) {
            return None;
        }
        let (base, in_memory): (u64, bool) = match bars[bar as usize] {
            Bar::Mm(p) => (p, true),
            _ => (0, false),
        };
        if cfg_type != VIRTIO_PCI_CAP_PCI_CFG && (base >= 0x10_0000_0000_0000 || base + (
        offset as u64) >= 0x10_0000_0000_0000) {
            return None;
        }
        if (cfg_type == VIRTIO_PCI_CAP_COMMON_CFG || cfg_type == VIRTIO_PCI_CAP_DEVICE_CFG)
            && !in_memory {
            return Some(None);
        }
        Some(Some(cfg_type))
    }

    /// Finds, among the capabilities at `offs`, the last usable one of
    /// each of the four types.
    pub fn locate(pci: &Pci, bars: &[Bar; 6], offs: &Vec<u8>) -> (r: Option<CapOffsets>)
        ensures
            r is Some <==> (forall|k: int|
                0 <= k < offs@.len() ==> entry_ok(*pci, bars@, #[trigger] offs@[k])) && winner(
                *pci,
                bars@,
                offs@,
                1,
            ) is Some && winner(*pci, bars@, offs@, 4) is Some && winner(*pci, bars@, offs@, 2)
                is Some && winner(*pci, bars@, offs@, 5) is Some,
            r is Some ==> Some((r->0).common) == winner(*pci, bars@, offs@, 1) && Some(
                (r->0).device,
            ) == winner(*pci, bars@, offs@, 4) && Some((r->0).notify) == winner(
                *pci,
                bars@,
                offs@,
                2,
            ) && Some((r->0).pci_conf) == winner(*pci, bars@, offs@, 5),
            r is Some ==> entry_ok(*pci, bars@, (r->0).common) && entry_ok(
                *pci,
                bars@,
                (r->0).device,
            ) && entry_ok(*pci, bars@, (r->0).notify) && entry_ok(*pci, bars@, (r->0).pci_conf),
            r is Some ==> selected(*pci, bars@, (r->0).common, 1) && selected(
                *pci,
                bars@,
                (r->0).device,
                4,
            ) && selected(*pci, bars@, (r->0).notify, 2) && selected(
                *pci,
                bars@,
                (r->0).pci_conf,
                5,
            ),
    {
        let mut common: Option<u8> = None;
        let mut device: Option<u8> = None;
        let mut notify: Option<u8> = None;
        let mut pci_conf: Option<u8> = None;
        let mut i: usize = 0;
        while i < offs.len()
            invariant
                i <= offs@.len(),
                forall|k: int| 0 <= k < i ==> entry_ok(*pci, bars@, #[trigger] offs@[k]),
                common == winner(*pci, bars@, offs@.take(i as int), 1),
                device == winner(*pci, bars@, offs@.take(i as int), 4),
                notify == winner(*pci, bars@, offs@.take(i as int), 2),
                pci_conf == winner(*pci, bars@, offs@.take(i as int), 5),
                common is Some ==> entry_ok(*pci, bars@, common->0) && selected(
                    *pci,
                    bars@,
                    common->0,
                    1,
                ),
                device is Some ==> entry_ok(*pci, bars@, device->0) && selected(
                    *pci,
                    bars@,
                    device->0,
                    4,
                ),
                notify is Some ==> entry_ok(*pci, bars@, notify->0) && selected(
                    *pci,
                    bars@,
                    notify->0,
                    2,
                ),
                pci_conf is Some ==> entry_ok(*pci, bars@, pci_conf->0) && selected(
                    *pci,
                    bars@,
                    pci_conf->0,
                    5,
                ),
            decreases offs@.len() - i,
        {
            let at: u8 = offs[i];
            assert(offs@.take(i + 1).drop_last() =~= offs@.take(i as int));
            assert(offs@.take(i + 1).last() == at);
            match Self::classify(pci, bars, at) {
                None => {
                    assert(!entry_ok(*pci, bars@, offs@[i as int]));
                    return None;
                },
                Some(kind) => {
                    assert(selected(*pci, bars@, at, 1) <==> kind == Some(1u8));
                    assert(selected(*pci, bars@, at, 2) <==> kind == Some(2u8));
                    assert(selected(*pci, bars@, at, 4) <==> kind == Some(4u8));
                    assert(selected(*pci, bars@, at, 5) <==> kind == Some(5u8));
                    match kind {
                        Some(1) => {
                            common = Some(at);
                        },
                        Some(2) => {
                            notify = Some(at);
                        },
                        Some(4) => {
                            device = Some(at);
                        },
                        Some(5) => {
                            pci_conf = Some(at);
                        },
                        _ => {},
                    }
                },
            }
            i += 1;
        }
        assert(offs@.take(i as int) =~= offs@);
        match (common, device, notify, pci_conf) {
            (Some(c), Some(d), Some(n), Some(p)) => Some(
                CapOffsets { common: c, device: d, notify: n, pci_conf: p },
            ),
            _ => None,
        }
    }

    /// Reads a capability whose structure lies in a BAR: it carries the
    /// address of the structure.
    pub fn read_structure(pci: &Pci, bars: &[Bar; 6], at: u8, kind: u8) -> (r: VirtioCap<u64>)
        requires
            kind == 1 || kind == 4,
            entry_ok(*pci, bars@, at),
            selected(*pci, bars@, at, kind),
        ensures
            placed_from(r, *pci, bars@, at),
            r.cap == bar_base(r.bar) + r.offset,
    {
        let bar: Bar = bars[pci.config_read_u8(at + 4) as usize];
        let offset: u32 = pci.config_read_u32(at + 8);
        let base: u64 = match bar {
            Bar::Mm(p) => p,
            _ => 0,
        };
        VirtioCap::new(base + offset as u64, bar, offset, pci.config_read_u32(at + 12))
    }

    /// Reads the notification capability: it carries the multiplier of
    /// the queues' notification offsets.
    pub fn read_notify(pci: &Pci, bars: &[Bar; 6], at: u8) -> (r: VirtioCap<u32>)
        requires
            entry_ok(*pci, bars@, at),
            selected(*pci, bars@, at, 2),
        ensures
            placed_from(r, *pci, bars@, at),
            r.cap == pci.config.u32_at(field_at(at, 16)),
            bar_base(r.bar) + r.offset < 0x10_0000_0000_0000,
    {
        VirtioCap::new(
            pci.config_read_u32(at + 16),
            bars[pci.config_read_u8(at + 4) as usize],
            pci.config_read_u32(at + 8),
            pci.config_read_u32(at + 12),
        )
    }

    /// Reads the capability for access through configuration space: it
    /// carries its four data bytes.
    pub fn read_pci_conf(pci: &Pci, bars: &[Bar; 6], at: u8) -> (r: VirtioCap<[u8; 4]>)
        requires
            entry_ok(*pci, bars@, at),
            selected(*pci, bars@, at, 5),
        ensures
            placed_from(r, *pci, bars@, at),
            r.cap@ == pci.config.bytes().subrange(at + 16, at + 20),
    {
        let data: [u8; 4] = [
            pci.config_read_u8(at + 16),
            pci.config_read_u8(at + 17),
            pci.config_read_u8(at + 18),
            pci.config_read_u8(at + 19),
        ];
        assert(data@ =~= pci.config.bytes().subrange(at + 16, at + 20));
        VirtioCap::new(
            data,
            bars[pci.config_read_u8(at + 4) as usize],
            pci.config_read_u32(at + 8),
            pci.config_read_u32(at + 12),
        )
    }

    /// Reads the four capabilities at the given offsets.
    pub fn read(pci: &Pci, bars: &[Bar; 6], at: &CapOffsets) -> (r: Self)
        requires
            entry_ok(*pci, bars@, at.common),
            entry_ok(*pci, bars@, at.device),
            entry_ok(*pci, bars@, at.notify),
            entry_ok(*pci, bars@, at.pci_conf),
            selected(*pci, bars@, at.common, 1),
            selected(*pci, bars@, at.device, 4),
            selected(*pci, bars@, at.notify, 2),
            selected(*pci, bars@, at.pci_conf, 5),
        ensures
            r.read_from(*pci, bars@, *at),
    {
        VirtioCaps {
            common: Self::read_structure(pci, bars, at.common, VIRTIO_PCI_CAP_COMMON_CFG),
            device: Self::read_structure(pci, bars, at.device, VIRTIO_PCI_CAP_DEVICE_CFG),
            notify: Self::read_notify(pci, bars, at.notify),
            pci_conf: Self::read_pci_conf(pci, bars, at.pci_conf),
        }
    }

    /// Reads the virtio capabilities of a function whose BARs are `bars`.
    /// Succeeds when the chain is readable and holds a usable capability
    /// of each of the four types.
    pub fn parse(pci: &Pci, bars: &[Bar; 6]) -> (r: Option<Self>)
        ensures
            match located(*pci, bars@, pci.config.bytes()[0x34]) {
                Some(at) => r is Some && (r->0).read_from(*pci, bars@, at),
                None => r is None,
            },
    {
        let start: u8 = pci.config_read_u8(0x34);
        let offs: Vec<u8> = match Self::chain(pci, start) {
            Some(offs) => offs,
            None => {
                return None;
            },
        };
        match Self::locate(pci, bars, &offs) {
            Some(at) => Some(Self::read(pci, bars, &at)),
            None => None,
        }
    }
}

/// Status bit: the driver has noticed the device.
pub const VIRTIO_STATUS_ACKNOWLEDGE: u8 = 1;

/// Status bit: the driver knows how to drive the device.
pub const VIRTIO_STATUS_DRIVER: u8 = 2;

/// Status bit: the driver is set up and the device may run.
pub const VIRTIO_STATUS_DRIVER_OK: u8 = 4;

/// Status bit: the driver has chosen its features.
pub const VIRTIO_STATUS_FEATURES_OK: u8 = 8;

/// Status bit: the device has hit an error it cannot recover from.
pub const VIRTIO_STATUS_NEEDS_RESET: u8 = 64;

/// Status bit: the driver has given up on the device.
pub const VIRTIO_STATUS_FAILED: u8 = 128;

/// The feature bits the driver asks for: bits 0 and 1 for a GPU, none for
/// other devices.
pub open spec fn features_of(device_type: DeviceType) -> u32 {
    match device_type {
        DeviceType::Gpu => 3,
        DeviceType::Input => 0,
    }
}

/// The feature bits the driver asks for.
pub fn driver_features(device_type: DeviceType) -> (r: u32)
    ensures
        r == features_of(device_type),
{
    match device_type {
        DeviceType::Gpu => 0b11,
        DeviceType::Input => 0,
    }
}

/// Where the driver stands in bringing a device up.
#[derive(Clone, Copy, Debug, PartialEq, Eq, Structural)]
pub enum InitStep {
    Reset,
    Acknowledge,
    Driver,
    Features,
    FeaturesOk,
    Verify,
    Queues,
    DriverOk,
    Ready,
    Failed,
}

/// What the driver does to the device in one step of bringing it up.
#[derive(Clone, Copy, Debug, PartialEq, Eq, Structural)]
pub enum InitAction {
    /// Write the value to the device status register.
    WriteStatus(u8),
    /// Write the value to the driver feature register.
    WriteDriverFeature(u32),
    /// Set up every virtqueue.
    SetupQueues,
    /// Nothing to write.
    Nothing,
}

/// The action of one step of bringing a device up, and the step that
/// follows it, given the device status read just before the step. The
/// status is reset, then `ACKNOWLEDGE` and `DRIVER` are set, the features
/// are written, `FEATURES_OK` is set and read back, the queues are set
/// up, and `DRIVER_OK` is set. If the device has dropped `FEATURES_OK`
/// the bring-up has failed.
pub open spec fn init_transition(step: InitStep, device_type: DeviceType, status: u8) -> (
    InitAction,
    InitStep,
) {
    match step {
        InitStep::Reset => (InitAction::WriteStatus(0), InitStep::Acknowledge),
        InitStep::Acknowledge => (InitAction::WriteStatus(status | 1), InitStep::Driver),
        InitStep::Driver => (InitAction::WriteStatus(status | 2), InitStep::Features),
        InitStep::Features => (
            InitAction::WriteDriverFeature(features_of(device_type)),
            InitStep::FeaturesOk,
        ),
        InitStep::FeaturesOk => (InitAction::WriteStatus(status | 8), InitStep::Verify),
        InitStep::Verify => if status & 8 == 0 {
            (InitAction::Nothing, InitStep::Failed)
        } else {
            (InitAction::Nothing, InitStep::Queues)
        },
        InitStep::Queues => (InitAction::SetupQueues, InitStep::DriverOk),
        InitStep::DriverOk => (InitAction::WriteStatus(status | 4), InitStep::Ready),
        InitStep::Ready => (InitAction::Nothing, InitStep::Ready),
        InitStep::Failed => (InitAction::Nothing, InitStep::Failed),
    }
}

/// Decides one step of bringing a device up. `status` is the device
/// status register as read just before.
pub fn init_step(step: InitStep, device_type: DeviceType, status: u8) -> (r: (InitAction, InitStep))
    ensures
        r == init_transition(step, device_type, status),
{
    match step {
        InitStep::Reset => (InitAction::WriteStatus(0), InitStep::Acknowledge),
        InitStep::Acknowledge => (
            InitAction::WriteStatus(status | VIRTIO_STATUS_ACKNOWLEDGE),
            InitStep::Driver,
        ),
        InitStep::Driver => (
            InitAction::WriteStatus(status | VIRTIO_STATUS_DRIVER),
            InitStep::Features,
        ),
        InitStep::Features => (
            InitAction::WriteDriverFeature(driver_features(device_type)),
            InitStep::FeaturesOk,
        ),
        InitStep::FeaturesOk => (
            InitAction::WriteStatus(status | VIRTIO_STATUS_FEATURES_OK),
            InitStep::Verify,
        ),
        InitStep::Verify => if status & VIRTIO_STATUS_FEATURES_OK == 0 {
            (InitAction::Nothing, InitStep::Failed)
        } else {
            (InitAction::Nothing, InitStep::Queues)
        },
        InitStep::Queues => (InitAction::SetupQueues, InitStep::DriverOk),
        InitStep::DriverOk => (
            InitAction::WriteStatus(status | VIRTIO_STATUS_DRIVER_OK),
            InitStep::Ready,
        ),
        InitStep::Ready => (InitAction::Nothing, InitStep::Ready),
        InitStep::Failed => (InitAction::Nothing, InitStep::Failed),
    }
}

/// One virtio device: where it sits, its parsed capabilities, and the
/// state of each of its virtqueues.
pub struct Virtio {
    pub pci: Pci,
    pub common: VirtioCap<VirtioPciCommonCfg>,
    pub device: VirtioCap<u64>,
    pub notify: VirtioCap<u32>,
    pub pci_conf: VirtioCap<[u8; 4]>,
    pub step: usize,
    pub last_used_idx: [u16; 256],
    pub device_type: DeviceType,
    pub queues_free: Vec<QueueFreeDescs>,
    pub queue_select: u16,
    pub queues: Vec<Virtqueue>,
}

/// A write of a queue index to a notification address.
#[derive(Clone, Copy, Debug, PartialEq, Eq, Structural)]
pub struct Notification {
    /// Physical address to write to.
    pub addr: u64,
    /// The 16-bit value to write.
    pub value: u16,
}

impl Virtio {
    /// The selected queue exists, is one of the 256 whose progress the
    /// record tracks, and is well-formed; every pool is of the size of
    /// its queue; and the notification window starts below 2^52.
    pub open spec fn wf(&self) -> bool {
        &&& self.queues@.len() == self.queues_free@.len()
        &&& self.queue_select < self.queues@.len()
        &&& self.queue_select < 256
        &&& self.queue().wf()
        &&& forall|q: int|
            0 <= q < self.queues@.len() ==> (#[trigger] self.queues_free@[q]).size()
                == self.queues@[q].size
        &&& bar_base(self.notify.bar) + self.notify.offset < 0x10_0000_0000_0000
    }

    /// The selected queue.
    pub open spec fn queue(&self) -> Virtqueue {
        self.queues@[self.queue_select as int]
    }

    /// The free pool of the selected queue.
    pub open spec fn pool(&self) -> QueueFreeDescs {
        self.queues_free@[self.queue_select as int]
    }

    /// The ring index of the entry last taken from the selected queue.
    pub open spec fn last_used(&self) -> u16 {
        self.last_used_idx[self.queue_select as int]
    }

    /// Where the device sits, its capabilities with the register copy,
    /// its kind, its step counter and the selected queue are as in
    /// `other`.
    pub open spec fn same_device(&self, other: &Virtio) -> bool {
        &&& self.pci == other.pci
        &&& self.common == other.common
        &&& self.device == other.device
        &&& self.notify == other.notify
        &&& self.pci_conf == other.pci_conf
        &&& self.step == other.step
        &&& self.device_type == other.device_type
        &&& self.queue_select == other.queue_select
    }

    /// The device is as in `other`, and so is every queue with its pool
    /// and its progress but the selected one, which has kept its size and
    /// placement.
    pub open spec fn same_elsewhere(&self, other: &Virtio) -> bool {
        &&& self.same_device(other)
        &&& self.queues@.len() == other.queues@.len()
        &&& self.queues_free@.len() == other.queues_free@.len()
        &&& self.queue().same_frame(&other.queue())
        &&& self.pool().size() == other.pool().size()
        &&& forall|q: int|
            0 <= q < self.queues@.len() && q != self.queue_select ==> #[trigger] self.queues@[q]
                == other.queues@[q]
        &&& forall|q: int|
            0 <= q < self.queues_free@.len() && q != self.queue_select
                ==> #[trigger] self.queues_free@[q] == other.queues_free@[q]
        &&& forall|q: int|
            0 <= q < 256 && q != self.queue_select ==> #[trigger] self.last_used_idx[q]
                == other.last_used_idx[q]
    }

    /// Everything but the free pool of the selected queue is as in `other`.
    pub open spec fn same_but_pool(&self, other: &Virtio) -> bool {
        &&& self.pci == other.pci
        &&& self.common == other.common
        &&& self.device == other.device
        &&& self.notify == other.notify
        &&& self.pci_conf == other.pci_conf
        &&& self.step == other.step
        &&& self.last_used_idx == other.last_used_idx
        &&& self.device_type == other.device_type
        &&& self.queue_select == other.queue_select
        &&& self.queues == other.queues
        &&& self.queues_free@.len() == other.queues_free@.len()
        &&& forall|q: int|
            0 <= q < self.queues_free@.len() && q != self.queue_select ==> self.queues_free@[q]
                == other.queues_free@[q]
    }

    /// Everything but the memory of the selected queue is as in `other`,
    /// and the selected queue has kept its size and placement.
    pub open spec fn same_but_queue(&self, other: &Virtio) -> bool {
        &&& self.pci == other.pci
        &&& self.common == other.common
        &&& self.device == other.device
        &&& self.notify == other.notify
        &&& self.pci_conf == other.pci_conf
        &&& self.step == other.step
        &&& self.last_used_idx == other.last_used_idx
        &&& self.device_type == other.device_type
        &&& self.queue_select == other.queue_select
        &&& self.queues_free == other.queues_free
        &&& self.queues@.len() == other.queues@.len()
        &&& self.queue().same_frame(&other.queue())
        &&& forall|q: int|
            0 <= q < self.queues@.len() && q != self.queue_select ==> self.queues@[q]
                == other.queues@[q]
    }

    /// The capabilities of the device as they were parsed.
    pub open spec fn caps(&self) -> VirtioCaps {
        VirtioCaps {
            common: VirtioCap {
                cap: (bar_base(self.common.bar) + self.common.offset) as u64,
                bar: self.common.bar,
                offset: self.common.offset,
                length: self.common.length,
            },
            device: self.device,
            notify: self.notify,
            pci_conf: self.pci_conf,
        }
    }

    /// The kind of device, if the kernel drives it: the device id counted
    /// from 0x1040 tells.
    pub open spec fn kind_of(pci: Pci) -> Option<DeviceType> {
        if pci.device_id() - 0x1040 == 18 {
            Some(DeviceType::Input)
        } else if pci.device_id() - 0x1040 == 16 {
            Some(DeviceType::Gpu)
        } else {
            None
        }
    }

    /// The record is that of a device that was just brought up with the
    /// given queues: nothing taken from any queue yet, every descriptor
    /// free, queue 0 selected, and the register copy as the caller read
    /// it, with queue 0 selected.
    pub open spec fn fresh(&self, registers: VirtioPciCommonCfg, queues: Seq<Virtqueue>) -> bool {
        &&& self.queues@ == queues
        &&& self.queues_free@.len() == queues.len()
        &&& forall|q: int|
            0 <= q < queues.len() ==> (#[trigger] self.queues_free@[q])@ == Seq::new(
                queues[q].size as nat,
                |i: int| i as u16,
            ) && self.queues_free@[q].size() == queues[q].size && self.queues_free@[q].wf()
        &&& forall|q: int| 0 <= q < 256 ==> self.last_used_idx[q] == 0xffff
        &&& self.queue_select == 0
        &&& self.step == 0
        &&& self.common.cap == (VirtioPciCommonCfg { queue_select: 0, ..registers })
    }

    /// Builds the record of a virtio device that has been brought up:
    /// from its configuration space, the common registers as they were
    /// read after the last step, and its queues as they were set up.
    /// `step` is the step that the bring-up has reached, which must be
    /// the last: there is no record of a device that refused the
    /// driver's features. There is a record when the device id is one
    /// the kernel drives and the function has a usable capability of
    /// each of the four types.
    pub fn init(pci: &Pci, step: InitStep, registers: VirtioPciCommonCfg, queues: Vec<Virtqueue>)
        -> (r: Option<Self>)
        requires
            step == InitStep::Ready,
        ensures
            match (Self::kind_of(*pci), located(*pci, pci.bars(), pci.config.bytes()[0x34])) {
                (Some(kind), Some(at)) => {
                    &&& r is Some
                    &&& (r->0).pci == *pci
                    &&& (r->0).device_type == kind
                    &&& (r->0).fresh(registers, queues@)
                    &&& (r->0).caps().read_from(*pci, pci.bars(), at)
                    &&& (queues@.len() > 0 && queues@[0].wf() ==> (r->0).wf())
                },
                _ => r is None,
            },
    {
        let device_id: isize = pci.config_read_u16(2) as isize - 0x1040;
        let device_type: DeviceType = match device_id_to_type(device_id) {
            Some(t) => t,
            None => {
                return None;
            },
        };
        let bars: [Bar; 6] = pci.get_bars();
        let caps: VirtioCaps = match VirtioCaps::parse(pci, &bars) {
            Some(c) => c,
            None => {
                return None;
            },
        };
        let mut queues_free: Vec<QueueFreeDescs> = Vec::with_capacity(queues.len());
        let mut q: usize = 0;
        while q < queues.len()
            invariant
                q <= queues@.len(),
                queues_free@.len() == q,
                forall|k: int|
                    0 <= k < q ==> (#[trigger] queues_free@[k])@ == Seq::new(
                        queues@[k].size as nat,
                        |i: int| i as u16,
                    ) && queues_free@[k].size() == queues@[k].size && queues_free@[k].wf(),
            decreases queues@.len() - q,
        {
            queues_free.push(QueueFreeDescs::new(queues[q].size));
            q += 1;
        }
        let mut copy: VirtioPciCommonCfg = registers;
        copy.queue_select = 0;
        let VirtioCaps { common, device, notify, pci_conf } = caps;
        let this = Self {
            pci: *pci,
            common: VirtioCap::new(copy, common.bar, common.offset, common.length),
            device,
            notify,
            pci_conf,
            step: 0,
            last_used_idx: [u16::MAX;256],
            device_type,
            queues_free,
            queue_select: 0,
            queues,
        };
        Some(this)
    }

    /// Number of free descriptors of the selected queue.
    pub fn free_count(&self) -> (n: usize)
        requires
            self.queue_select < self.queues_free@.len(),
        ensures
            n == self.pool()@.len(),
    {
        self.queues_free[self.queue_select as usize].free_count()
    }

    /// Takes a free descriptor of the selected queue, if there is one.
    pub fn get_free_desc_id(&mut self) -> (r: Option<u16>)
        requires
            old(self).wf(),
        ensures
            final(self).wf(),
            final(self).same_but_pool(old(self)),
            match r {
                Some(d) => old(self).pool()@.len() > 0 && d == old(self).pool()@.last()
                    && final(self).pool()@ == old(self).pool()@.drop_last(),
                None => old(self).pool()@.len() == 0 && final(self).pool()@ == old(self).pool()@,
            },
            old(self).pool().wf() ==> final(self).pool().wf(),
            old(self).pool().wf() && r is Some ==> r->0 < old(self).queue().size,
    {
        let r = self.queues_free[self.queue_select as usize].get_free();
        r
    }

    /// Takes two free descriptors of the selected queue, if it has two.
    pub fn get_free_twice_desc_id(&mut self) -> (r: Option<(u16, u16)>)
        requires
            old(self).wf(),
        ensures
            final(self).wf(),
            final(self).same_but_pool(old(self)),
            match r {
                Some((head, next)) => old(self).pool()@.len() >= 2 && head == old(self).pool()@.last() && next == old(self).pool()@[old(self).pool()@.len() - 2]
                    && final(self).pool()@ == old(self).pool()@.subrange(
                    0,
                    old(self).pool()@.len() - 2,
                ),
                None => old(self).pool()@.len() < 2 && final(self).pool()@ == old(self).pool()@,
            },
            old(self).pool().wf() ==> final(self).pool().wf(),
            old(self).pool().wf() && r is Some ==> (r->0).0 < old(self).queue().size && (r->0).1
                < old(self).queue().size && (r->0).0 != (r->0).1 && final(self).pool().in_flight()
                == old(self).pool().in_flight().insert((r->0).0).insert((r->0).1),
    {
        let r = self.queues_free[self.queue_select as usize].get_free_twice();
        r
    }

    /// Returns descriptor `desc_id` to the pool of the selected queue.
    pub fn set_free_desc_id(&mut self, desc_id: u16)
        requires
            old(self).wf(),
        ensures
            final(self).wf(),
            final(self).same_but_pool(old(self)),
            final(self).pool()@ == old(self).pool()@.push(desc_id),
            old(self).pool().wf() && old(self).pool().in_flight().contains(desc_id) ==> final(self).pool().wf() && final(self).pool().in_flight() == old(self).pool().in_flight().remove(
                desc_id,
            ),
    {
        self.queues_free[self.queue_select as usize].set_free(desc_id);
    }

    /// Takes up to `limit` free descriptors of the selected queue, resets
    /// each to a writable buffer and offers it to the device. Returns
    /// how many were offered: `limit`, or all there were.
    pub fn offer_free(&mut self, limit: usize) -> (count: usize)
        requires
            old(self).wf(),
            old(self).pool().wf(),
        ensures
            final(self).wf(),
            final(self).pool().wf(),
            count == if limit <= old(self).pool()@.len() {
                limit as int
            } else {
                old(self).pool()@.len() as int
            },
            final(self).pool()@ == old(self).pool()@.take(old(self).pool()@.len() - count),
            final(self).same_elsewhere(old(self)),
            final(self).last_used_idx == old(self).last_used_idx,
            final(self).queue()@ == offered(old(self).queue()@, old(self).pool()@, count as nat),
            final(self).queue()@.driver_idx == (old(self).queue()@.driver_idx + count) % 0x1_0000,
    {
        let mut count: usize = 0;
        while count < limit
            invariant
                count <= limit,
                self.wf(),
                self.pool().wf(),
                self.same_elsewhere(old(self)),
                self.last_used_idx == old(self).last_used_idx,
                self.queue_select == old(self).queue_select,
                self.queues@.len() == old(self).queues@.len(),
                self.queue().same_frame(&old(self).queue()),
                count <= old(self).pool()@.len(),
                self.pool()@ == old(self).pool()@.take(old(self).pool()@.len() - count),
                self.queue()@.driver_idx == (old(self).queue()@.driver_idx + count) % 0x1_0000,
                forall|n: nat|
                    n >= count ==> #[trigger] offered(old(self).queue()@, old(self).pool()@, n)
                        == offered(self.queue()@, self.pool()@, (n - count) as nat),
            decreases limit - count,
        {
            let ghost q_before = self.queue()@;
            let ghost pool_before = self.pool()@;
            match self.get_free_desc_id() {
                Some(desc_id) => {
                    self.set_writable_available(desc_id);
                    proof {
                        assert(self.pool()@ =~= old(self).pool()@.take(
                            old(self).pool()@.len() - count - 1,
                        ));
                        assert forall|n: nat| n >= count + 1 implies #[trigger] offered(
                            old(self).queue()@,
                            old(self).pool()@,
                            n,
                        ) == offered(self.queue()@, self.pool()@, (n - count - 1) as nat) by {
                            assert(offered(old(self).queue()@, old(self).pool()@, n) == offered(
                                q_before,
                                pool_before,
                                (n - count) as nat,
                            ));
                        }
                    }
                    count += 1;
                },
                None => {
                    proof {
                        assert(self.pool()@.len() == 0);
                        assert(offered(old(self).queue()@, old(self).pool()@, count as nat)
                            == offered(self.queue()@, self.pool()@, 0));
                    }
                    return count;
                },
            }
        }
        proof {
            assert(offered(old(self).queue()@, old(self).pool()@, count as nat) == offered(
                self.queue()@,
                self.pool()@,
                0,
            ));
        }
        count
    }

    /// Selects queue `q`: the per-queue registers then show that queue.
    pub fn queue_select(&mut self, q: u16)
        requires
            q < old(self).queues@.len(),
        ensures
            final(self).queue_select == q,
            final(self).common.cap == (VirtioPciCommonCfg {
                queue_select: q,
                queue_size: old(self).queues@[q as int].size,
                queue_notify_off: old(self).queues@[q as int].notify_off,
                queue_desc: old(self).queues@[q as int].desc_addr,
                queue_driver: old(self).queues@[q as int].driver_addr,
                queue_device: old(self).queues@[q as int].device_addr,
                ..old(self).common.cap
            }),
            final(self).common.bar == old(self).common.bar,
            final(self).common.offset == old(self).common.offset,
            final(self).common.length == old(self).common.length,
            final(self).pci == old(self).pci,
            final(self).device == old(self).device,
            final(self).notify == old(self).notify,
            final(self).pci_conf == old(self).pci_conf,
            final(self).step == old(self).step,
            final(self).last_used_idx == old(self).last_used_idx,
            final(self).device_type == old(self).device_type,
            final(self).queues_free == old(self).queues_free,
            final(self).queues == old(self).queues,
            old(self).wf() && q < 256 && old(self).queues@[q as int].wf() ==> final(self).wf(),
    {
        self.queue_select = q;
        self.common.cap.queue_select = q;
        self.common.cap.queue_size = self.queues[q as usize].size;
        self.common.cap.queue_notify_off = self.queues[q as usize].notify_off;
        self.common.cap.queue_desc = self.queues[q as usize].desc_addr;
        self.common.cap.queue_driver = self.queues[q as usize].driver_addr;
        self.common.cap.queue_device = self.queues[q as usize].device_addr;
    }

    /// Offers the chain that starts at `desc_id` to the device on the
    /// selected queue.
    pub fn set_available(&mut self, desc_id: u16)
        requires
            old(self).wf(),
        ensures
            final(self).wf(),
            final(self).same_but_queue(old(self)),
            final(self).queue()@ == old(self).queue()@.set_available(desc_id),
    {
        self.queues[self.queue_select as usize].set_available(desc_id);
    }

    /// Resets descriptor `desc_id` of the selected queue to a writable
    /// buffer of full size.
    pub fn set_writable(&mut self, desc_id: u16)
        requires
            old(self).wf(),
            desc_id < old(self).queue().size,
        ensures
            final(self).wf(),
            final(self).same_but_queue(old(self)),
            final(self).queue()@ == old(self).queue()@.set_writable(desc_id),
    {
        self.queues[self.queue_select as usize].set_writable(desc_id);
    }

    /// Resets descriptor `desc_id` of the selected queue and offers it to
    /// the device.
    pub fn set_writable_available(&mut self, desc_id: u16)
        requires
            old(self).wf(),
            desc_id < old(self).queue().size,
        ensures
            final(self).wf(),
            final(self).same_but_queue(old(self)),
            final(self).queue()@ == old(self).queue()@.set_writable(desc_id).set_available(desc_id),
    {
        self.queues[self.queue_select as usize].set_writable_available(desc_id);
    }

    /// Submits a request of two descriptors on the selected queue: `data`
    /// goes into the buffer of `desc_id`, the reply will come in the
    /// buffer of `desc_next_id`.
    pub fn add_request(&mut self, desc_id: u16, desc_next_id: u16, data: &[u8])
        requires
            old(self).wf(),
            desc_id < old(self).queue().size,
            desc_next_id < old(self).queue().size,
            data@.len() <= 4096,
        ensures
            final(self).wf(),
            final(self).same_but_queue(old(self)),
            final(self).queue()@ == old(self).queue()@.add_request(desc_id, desc_next_id, data@),
    {
        self.queues[self.queue_select as usize].add_request(desc_id, desc_next_id, data);
    }

    /// The address that notifies the device about the selected queue:
    /// the start of the notification window plus the queue's notify
    /// offset times the multiplier.
    pub open spec fn notify_address(&self) -> int {
        bar_base(self.notify.bar) + self.notify.offset + self.notify.cap * self.queue().notify_off
    }

    /// The write that tells the device to look at a queue: the value
    /// `queue_select`, to the notification address of the selected queue.
    /// There is nothing to write if the notification window is not in
    /// memory.
    pub fn kick(&self, queue_select: u16) -> (r: Option<Notification>)
        requires
            self.wf(),
        ensures
            self.notify.bar is Mm ==> r == Some(
                Notification { addr: self.notify_address() as u64, value: queue_select },
            ),
            self.notify.bar is Mm ==> self.notify_address() < 0x20_0000_0000_0000,
            !(self.notify.bar is Mm) ==> r is None,
    {
        match self.notify.bar {
            Bar::Mm(addr) => {
                let multiplier: u64 = self.notify.cap as u64;
                let notify_off: u64 = self.queues[self.queue_select as usize].notify_off as u64;
                assert(multiplier * notify_off <= 0xffff_ffff * 0xffff) by (nonlinear_arith)
                    requires
                        multiplier <= 0xffff_ffff,
                        notify_off <= 0xffff,
                ;
                let step: u64 = multiplier * notify_off;
                Some(
                    Notification {
                        addr: addr + (self.notify.offset as u64) + step,
                        value: queue_select,
                    },
                )
            },
            _ => None,
        }
    }

    /// Takes the next entry that the device has published on the selected
    /// queue, if there is one. Nothing changes but the ring index of the
    /// entry last taken from that queue.
    pub fn next_used(&mut self) -> (r: Option<UsedElem>)
        requires
            old(self).wf(),
        ensures
            final(self).wf(),
            final(self).same_elsewhere(old(self)),
            final(self).queues == old(self).queues,
            final(self).queues_free == old(self).queues_free,
            final(self).last_used_idx@ == old(self).last_used_idx@.update(
                old(self).queue_select as int,
                final(self).last_used(),
            ),
            match r {
                Some(elem) => old(self).queue()@.pending(old(self).last_used()) > 0 && elem == old(self).queue()@.used_at(old(self).last_used(), 0) && final(self).last_used() == bump(
                    old(self).last_used(),
                ) && final(self).queue()@.pending(final(self).last_used()) == old(self).queue()@.pending(old(self).last_used()) - 1,
                None => old(self).queue()@.pending(old(self).last_used()) == 0 && final(self).last_used() == old(self).last_used(),
            },
    {
        let sel: usize = self.queue_select as usize;
        let mut last: u16 = self.last_used_idx[sel];
        let r = self.queues[sel].next_used(&mut last);
        self.last_used_idx[sel] = last;
        r
    }

    /// Descriptor `desc_id` of the selected queue.
    pub fn read_desc(&self, desc_id: u16) -> (d: Desc)
        requires
            self.wf(),
            desc_id < self.queue().size,
        ensures
            d == self.queue()@.descs[desc_id as int],
    {
        self.queues[self.queue_select as usize].read_desc(desc_id)
    }

    /// The buffer behind descriptor `desc_id` of the selected queue.
    pub fn read_buffer(&self, desc_id: u16) -> (page: &Vec<u8>)
        requires
            self.wf(),
            desc_id < self.queue().size,
        ensures
            page@ == self.queue()@.buffers[desc_id as int],
            page@.len() == 4096,
    {
        self.queues[self.queue_select as usize].read_buffer(desc_id)
    }
}

} // verus!
