//! The virtio input driver: turns the events that the device delivers
//! into changes of the input snapshot.

use crate::globals::{Input, InputState};
use crate::virtio::{UsedElem, Virtio};
use vstd::prelude::*;

verus! {

/// Event type of a synchronisation marker.
pub const EV_SYN: u16 = 0;

/// Event type of a key press or release.
pub const EV_KEY: u16 = 1;

/// Event type of a relative pointer movement.
pub const EV_REL: u16 = 2;

/// Axis code of horizontal movement.
pub const REL_X: u16 = 0;

/// Axis code of vertical movement.
pub const REL_Y: u16 = 1;

/// One event as the device writes it: eight bytes, little-endian.
#[derive(Clone, Copy, Debug, PartialEq, Eq, Structural)]
pub struct VirtioInputEvent {
    pub type_: u16,
    pub code: u16,
    pub value: u32,
}

/// The 32-bit value read as a signed number.
pub open spec fn signed(value: u32) -> int {
    if value < 0x8000_0000 {
        value as int
    } else {
        value as int - 0x1_0000_0000
    }
}

/// The 32-bit value read as a signed number.
pub fn as_signed(value: u32) -> (r: i32)
    ensures
        r == signed(value),
{
    if value < 0x8000_0000 {
        value as i32
    } else {
        ((value - 0x8000_0000) as i32) - 0x4000_0000 - 0x4000_0000
    }
}

impl VirtioInputEvent {
    /// The event in the first eight bytes of a buffer.
    pub open spec fn decoded(bytes: Seq<u8>) -> VirtioInputEvent {
        VirtioInputEvent {
            type_: crate::bytes::le_u16(bytes, 0) as u16,
            code: crate::bytes::le_u16(bytes, 2) as u16,
            value: crate::bytes::le_u32(bytes, 4) as u32,
        }
    }

    /// Reads the event at the start of a buffer.
    pub fn decode(bytes: &[u8]) -> (r: Self)
        requires
            bytes@.len() >= 8,
        ensures
            r == Self::decoded(bytes@),
    {
        VirtioInputEvent {
            type_: crate::bytes::read_u16(bytes, 0),
            code: crate::bytes::read_u16(bytes, 2),
            value: crate::bytes::read_u32(bytes, 4),
        }
    }

    /// The event changes the snapshot: it is a key event for one of the
    /// 1024 keys, or a movement along one of the two axes.
    pub open spec fn is_known(self) -> bool {
        (self.type_ == 1 && self.code < 1024) || (self.type_ == 2 && self.code < 2)
    }

    /// The snapshot can take the event: the event counter and the
    /// pointer position stay in range.
    pub open spec fn fits(self, input: InputState) -> bool {
        &&& self.type_ == 1 && self.code < 1024 ==> input.history_last_index < usize::MAX
        &&& self.type_ == 2 && self.code == 0 ==> input.mouse_x + signed(self.value) <= usize::MAX
        &&& self.type_ == 2 && self.code == 1 ==> input.mouse_y + signed(self.value) <= usize::MAX
    }

    /// The snapshot after the event. A key event with a code below 1024
    /// is a press if its value is not zero, a release otherwise. A
    /// movement adds its value, read as a signed number, to the pointer
    /// position on its axis, which does not go below zero. Anything else
    /// leaves the snapshot as it is.
    pub open spec fn applied(self, input: InputState) -> InputState {
        if self.type_ == 1 && self.code < 1024 {
            input.pressed(self.code as usize, self.value != 0)
        } else if self.type_ == 2 && self.code == 0 {
            input.moved_x(signed(self.value) as i32)
        } else if self.type_ == 2 && self.code == 1 {
            input.moved_y(signed(self.value) as i32)
        } else {
            input
        }
    }

    /// Whether the snapshot can take the event.
    pub fn can_apply(&self, input: &Input) -> (r: bool)
        ensures
            r == self.fits(input@),
    {
        if self.type_ == EV_KEY && self.code < 1024 {
            input.history_last_index < usize::MAX
        } else if self.type_ == EV_REL && self.code < 2 {
            let delta: i32 = as_signed(self.value);
            let pos: usize = if self.code == REL_X {
                input.mouse_x
            } else {
                input.mouse_y
            };
            delta <= 0 || pos <= usize::MAX - (delta as usize)
        } else {
            true
        }
    }

    /// Applies the event to the snapshot. A key event with a code below
    /// 1024 is recorded as a press if its value is not zero, as a release
    /// otherwise. A movement adds its value, read as a signed number, to
    /// the pointer position on its axis, which does not go below zero.
    /// Anything else leaves the snapshot as it is. Returns whether the
    /// event was one of those that change the snapshot.
    pub fn apply(&self, input: &mut Input) -> (known: bool)
        requires
            self.fits(old(input)@),
        ensures
            known == self.is_known(),
            final(input)@ == self.applied(old(input)@),
            !known ==> *final(input) == *old(input),
            self.type_ == 1 && self.code < 1024 ==> {
                &&& final(input).history_last_index == old(input).history_last_index + 1
                &&& final(input).history_ring@ == old(input).history_ring@.update(
                    final(input).last_slot(),
                    crate::globals::InputEvent { trigger: self.value != 0, key: self.code as usize },
                )
                &&& final(input).keys@ == old(input).keys@.update(
                    self.code as int,
                    old(input).keys[self.code as int].after_event(self.value != 0),
                )
                &&& final(input).mouse_x == old(input).mouse_x
                &&& final(input).mouse_y == old(input).mouse_y
                &&& final(input).last_event_consistent()
            },
            self.type_ == 2 && self.code < 2 ==> {
                &&& final(input).keys == old(input).keys
                &&& final(input).history_last_index == old(input).history_last_index
                &&& final(input).history_ring == old(input).history_ring
                &&& final(input).mouse_x == if self.code == 0 {
                    crate::globals::moved(old(input).mouse_x, signed(self.value) as i32)
                } else {
                    old(input).mouse_x as int
                }
                &&& final(input).mouse_y == if self.code == 1 {
                    crate::globals::moved(old(input).mouse_y, signed(self.value) as i32)
                } else {
                    old(input).mouse_y as int
                }
            },
    {
        if self.type_ == EV_KEY {
            if self.code < 1024 {
                input.handle_incoming_state(self.code as usize, self.value != 0);
                true
            } else {
                false
            }
        } else if self.type_ == EV_REL {
            let delta: i32 = as_signed(self.value);
            if self.code == REL_X {
                input.move_x(delta);
                true
            } else if self.code == REL_Y {
                input.move_y(delta);
                true
            } else {
                false
            }
        } else {
            false
        }
    }
}

/// Offers every free descriptor of the selected queue to the device, so
/// that the device has buffers to write events to. Returns how many were
/// offered.
pub fn prime(virtio: &mut Virtio) -> (count: usize)
    requires
        old(virtio).wf(),
        old(virtio).pool().wf(),
    ensures
        final(virtio).wf(),
        final(virtio).pool().wf(),
        final(virtio).pool()@.len() == 0,
        count == old(virtio).pool()@.len(),
        final(virtio).same_elsewhere(old(virtio)),
        final(virtio).last_used_idx == old(virtio).last_used_idx,
        final(virtio).queue()@ == crate::virtio::offered(
            old(virtio).queue()@,
            old(virtio).pool()@,
            old(virtio).pool()@.len(),
        ),
        final(virtio).queue()@.driver_idx == (old(virtio).queue()@.driver_idx + count) % 0x1_0000,
{
    let total: usize = virtio.queues_free[virtio.queue_select as usize].free_count();
    virtio.offer_free(total)
}

/// Handles one finished buffer of the input queue: reads the event in
/// it, applies it to the snapshot, and gives the buffer back to the
/// device. Returns whether the event was one that changes the snapshot.
pub fn handle_used(virtio: &mut Virtio, used: UsedElem, input: &mut Input) -> (known: bool)
    requires
        old(virtio).wf(),
        used.id < old(virtio).queue().size,
        VirtioInputEvent::decoded(old(virtio).queue()@.buffers[used.id as int]).fits(
            old(input)@,
        ),
    ensures
        final(input)@ == VirtioInputEvent::decoded(
            old(virtio).queue()@.buffers[used.id as int],
        ).applied(old(input)@),
        final(virtio).wf(),
        final(virtio).same_but_queue(old(virtio)),
        final(virtio).queue()@ == old(virtio).queue()@.set_writable(used.id as u16).set_available(
            used.id as u16,
        ),
        known == VirtioInputEvent::decoded(
            old(virtio).queue()@.buffers[used.id as int],
        ).is_known(),
        !known ==> *final(input) == *old(input),
{
    let desc_id: u16 = used.id as u16;
    let evt: VirtioInputEvent = VirtioInputEvent::decode(virtio.read_buffer(desc_id).as_slice());
    let known: bool = evt.apply(input);
    virtio.set_writable_available(desc_id);
    known
}

/// What handling the finished buffers of the input queue came to.
#[derive(Clone, Copy, Debug, PartialEq, Eq, Structural)]
pub struct Handled {
    /// Number of events that changed the snapshot.
    pub applied: usize,
    /// Number of events that the snapshot could not take.
    pub unfit: usize,
    /// Number of finished buffers whose id is not one of the queue.
    pub out_of_range: usize,
}

/// The queue, the snapshot and the three counts after `n` finished
/// buffers.
#[verifier::ext_equal]
pub struct Driven {
    pub queue: crate::virtio::QueueState,
    pub input: InputState,
    pub applied: nat,
    pub unfit: nat,
    pub out_of_range: nat,
}

/// The state after one more finished buffer with id `id` has been
/// handled, `size` being the number of descriptors of the queue and
/// `buffer` what the device wrote to the buffer. The event in the buffer
/// is applied to the snapshot, unless the snapshot cannot take it, and
/// the buffer is given back to the device. The event is counted as
/// applied if it is one of those that change the snapshot, and as unfit
/// if the snapshot cannot take it. A buffer whose id is not one of the
/// queue is only counted.
pub open spec fn handled_one(before: Driven, size: int, buffer: Seq<u8>, id: u32) -> Driven {
    let evt = VirtioInputEvent::decoded(buffer);
    if id >= size {
        Driven { out_of_range: before.out_of_range + 1, ..before }
    } else if !evt.fits(before.input) {
        Driven {
            queue: before.queue.set_writable(id as u16).set_available(id as u16),
            unfit: before.unfit + 1,
            ..before
        }
    } else {
        Driven {
            queue: before.queue.set_writable(id as u16).set_available(id as u16),
            input: evt.applied(before.input),
            applied: if evt.is_known() {
                before.applied + 1
            } else {
                before.applied
            },
            ..before
        }
    }
}

/// A key event that the device delivers is recorded as a press or a
/// release of its key, and the ring and the keys agree afterwards: when
/// a finished buffer of the queue holds a key event for one of the 1024
/// keys and the event counter has room, handling it presses the key if
/// the value is not zero and releases it otherwise, and gives the buffer
/// back to the device.
pub proof fn lemma_key_event_recorded(before: Driven, size: int, buffer: Seq<u8>, id: u32)
    requires
        before.input.sized(),
        id < size,
        VirtioInputEvent::decoded(buffer).type_ == 1,
        VirtioInputEvent::decoded(buffer).code < 1024,
        before.input.history_last_index < usize::MAX,
    ensures
        ({
            let evt = VirtioInputEvent::decoded(buffer);
            let after = handled_one(before, size, buffer, id);
            &&& after.input == before.input.pressed(evt.code as usize, evt.value != 0)
            &&& after.input.consistent()
            &&& after.queue == before.queue.set_writable(id as u16).set_available(id as u16)
            &&& after.applied == before.applied + 1
        }),
{
    let evt = VirtioInputEvent::decoded(buffer);
    crate::globals::lemma_pressed_consistent(before.input, evt.code as usize, evt.value != 0);
}

/// The state after the first `n` finished buffers that follow the one at
/// ring index `last` have been handled, oldest first.
pub open spec fn driven(q: crate::virtio::QueueState, last: u16, input: InputState, n: nat) -> Driven
    decreases n,
{
    if n == 0 {
        Driven { queue: q, input, applied: 0, unfit: 0, out_of_range: 0 }
    } else {
        let id = q.used_at(last, n - 1).id;
        handled_one(driven(q, last, input, (n - 1) as nat), q.size(), q.buffers[id as int], id)
    }
}

/// The state that the device record, the snapshot and the counts stand
/// for.
pub open spec fn state_of(virtio: Virtio, input: Input, counts: Handled) -> Driven {
    Driven {
        queue: virtio.queue()@,
        input: input@,
        applied: counts.applied as nat,
        unfit: counts.unfit as nat,
        out_of_range: counts.out_of_range as nat,
    }
}

/// Handles one finished buffer of the input queue and counts it.
pub fn handle_one(virtio: &mut Virtio, used: UsedElem, input: &mut Input, counts: Handled) -> (r:
    Handled)
    requires
        old(virtio).wf(),
        counts.applied + counts.unfit + counts.out_of_range < usize::MAX,
    ensures
        final(virtio).wf(),
        final(virtio).same_but_queue(old(virtio)),
        state_of(*final(virtio), *final(input), r) == handled_one(
            state_of(*old(virtio), *old(input), counts),
            old(virtio).queue()@.size(),
            old(virtio).queue()@.buffers[used.id as int],
            used.id,
        ),
{
    let mut r: Handled = counts;
    let size: u16 = virtio.queues[virtio.queue_select as usize].size;
    if used.id < size as u32 {
        let evt: VirtioInputEvent = VirtioInputEvent::decode(
            virtio.read_buffer(used.id as u16).as_slice(),
        );
        if evt.can_apply(input) {
            let known: bool = handle_used(virtio, used, input);
            if known {
                r.applied += 1;
            }
        } else {
            virtio.set_writable_available(used.id as u16);
            r.unfit += 1;
        }
    } else {
        r.out_of_range += 1;
    }
    r
}

/// Handling finished buffers changes neither what the device has
/// written nor the size of the queue, and counts no more buffers than
/// were handled.
pub proof fn lemma_driven_keeps(q: crate::virtio::QueueState, last: u16, input: InputState, n: nat)
    ensures
        driven(q, last, input, n).queue.buffers == q.buffers,
        driven(q, last, input, n).queue.device_ring == q.device_ring,
        driven(q, last, input, n).queue.device_idx == q.device_idx,
        driven(q, last, input, n).queue.size() == q.size(),
        driven(q, last, input, n).applied + driven(q, last, input, n).unfit + driven(
            q,
            last,
            input,
            n,
        ).out_of_range <= n,
    decreases n,
{
    if n > 0 {
        lemma_driven_keeps(q, last, input, (n - 1) as nat);
    }
}

/// Handles every buffer that the device has finished on the selected
/// queue, oldest first. The event in a buffer is applied to the
/// snapshot, unless the snapshot cannot take it, and the buffer is given
/// back to the device. A finished buffer whose id is not one of the
/// queue is passed over. Returns how many events changed the snapshot,
/// how many the snapshot could not take, and how many buffers were
/// passed over. Nothing of the device record changes but the selected
/// queue and the ring index of the buffer last taken from it.
pub fn drive(virtio: &mut Virtio, input: &mut Input) -> (r: Handled)
    requires
        old(virtio).wf(),
    ensures
        final(virtio).wf(),
        final(virtio).same_elsewhere(old(virtio)),
        final(virtio).queues_free == old(virtio).queues_free,
        final(virtio).queue()@.pending(final(virtio).last_used()) == 0,
        final(virtio).last_used() == (old(virtio).last_used() + old(virtio).queue()@.pending(
            old(virtio).last_used(),
        )) % 0x1_0000,
        state_of(*final(virtio), *final(input), r) == driven(
            old(virtio).queue()@,
            old(virtio).last_used(),
            old(input)@,
            old(virtio).queue()@.pending(old(virtio).last_used()) as nat,
        ),
{
    let mut r = Handled { applied: 0, unfit: 0, out_of_range: 0 };
    let ghost mut taken: nat = 0;
    loop
        invariant
            virtio.wf(),
            virtio.same_elsewhere(old(virtio)),
            virtio.queues_free == old(virtio).queues_free,
            taken + virtio.queue()@.pending(virtio.last_used()) == old(virtio).queue()@.pending(
                old(virtio).last_used(),
            ),
            virtio.last_used() == (old(virtio).last_used() + taken) % 0x1_0000,
            state_of(*virtio, *input, r) == driven(
                old(virtio).queue()@,
                old(virtio).last_used(),
                old(input)@,
                taken,
            ),
        decreases virtio.queue()@.pending(virtio.last_used()),
    {
        proof {
            lemma_driven_keeps(old(virtio).queue()@, old(virtio).last_used(), old(input)@, taken);
        }
        match virtio.next_used() {
            None => {
                return r;
            },
            Some(used) => {
                proof {
                    assert(used == old(virtio).queue()@.used_at(
                        old(virtio).last_used(),
                        taken as int,
                    ));
                }
                r = handle_one(virtio, used, input, r);
                proof {
                    taken = taken + 1;
                }
            },
        }
    }
}

} // verus!
