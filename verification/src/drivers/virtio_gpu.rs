//! The virtio GPU driver: the table of waiters, the commands and their
//! wire form, the request primitive and the order of bring-up.

use crate::bytes::{le32, le64, push_u32, push_u64, push_words, words_wire};
use crate::task::executor::Poll;
use crate::virtio::{Notification, Virtio};
use vstd::prelude::*;

verus! {

/// Number of slots in the table of waiters, one per descriptor id.
pub const WAITER_COUNT: usize = 256;

/// One slot of the table of waiters. The number in `Waker` names the
/// task to wake.
#[derive(Clone, Copy, Debug, PartialEq, Eq, Structural)]
pub enum IdWaker {
    /// Nobody waits and nothing has arrived.
    Idle,
    /// The awaited reply has arrived.
    Done,
    /// A task waits for the reply.
    Waker(u64),
}

impl IdWaker {
    /// Marks the slot as done. Returns the task to wake, if one was
    /// waiting.
    pub fn wake(&mut self) -> (woken: Option<u64>)
        ensures
            *final(self) == IdWaker::Done,
            match *old(self) {
                IdWaker::Waker(task) => woken == Some(task),
                _ => woken is None,
            },
    {
        let old: IdWaker = *self;
        *self = IdWaker::Done;
        match old {
            IdWaker::Waker(task) => Some(task),
            _ => None,
        }
    }
}

/// The table of waiters: one slot per descriptor id.
pub struct WaitTable {
    pub slots: [IdWaker; 256],
}

impl WaitTable {
    /// A table in which nobody waits.
    pub fn new() -> (r: Self)
        ensures
            forall|i: int| 0 <= i < 256 ==> r.slots[i] == IdWaker::Idle,
    {
        WaitTable { slots: [IdWaker::Idle;256] }
    }

    /// Records that the reply for descriptor `id` has arrived. Returns
    /// the task to wake, if one was waiting for it.
    pub fn wake(&mut self, id: usize) -> (woken: Option<u64>)
        requires
            id < 256,
        ensures
            final(self).slots@ == old(self).slots@.update(id as int, IdWaker::Done),
            match old(self).slots[id as int] {
                IdWaker::Waker(task) => woken == Some(task),
                _ => woken is None,
            },
    {
        let mut slot: IdWaker = self.slots[id];
        let woken: Option<u64> = slot.wake();
        self.slots[id] = slot;
        woken
    }
}

/// A wait for the reply to the request whose head descriptor is `id`.
#[derive(Clone, Copy, Debug, PartialEq, Eq, Structural)]
pub struct IdWait {
    id: usize,
}

impl IdWait {
    /// The descriptor id waited for.
    pub closed spec fn id(&self) -> usize {
        self.id
    }

    /// A wait for the reply to the request whose head descriptor is `id`.
    pub fn new(id: usize) -> (r: Self)
        ensures
            r.id() == id,
    {
        IdWait { id }
    }

    /// The descriptor id waited for.
    pub fn descriptor(&self) -> (id: usize)
        ensures
            id == self.id(),
    {
        self.id
    }

    /// Polls the wait on behalf of task `task`. If the reply has arrived
    /// the slot is cleared and the wait is over. Otherwise the task is
    /// entered in the slot, replacing any task that was there, and the
    /// wait goes on.
    pub fn poll(&self, table: &mut WaitTable, task: u64) -> (r: Poll)
        requires
            self.id() < 256,
        ensures
            old(table).slots[self.id() as int] == IdWaker::Done ==> r == Poll::Ready && final(table).slots@ == old(table).slots@.update(self.id() as int, IdWaker::Idle),
            old(table).slots[self.id() as int] != IdWaker::Done ==> r == Poll::Pending && final(table).slots@ == old(table).slots@.update(self.id() as int, IdWaker::Waker(task)),
    {
        match table.slots[self.id] {
            IdWaker::Done => {
                table.slots[self.id] = IdWaker::Idle;
                Poll::Ready
            },
            _ => {
                table.slots[self.id] = IdWaker::Waker(task);
                Poll::Pending
            },
        }
    }
}

/// A wait for the reply to the request whose head descriptor is `id`.
pub fn wait_for(id: usize) -> (r: IdWait)
    ensures
        r.id() == id,
{
    IdWait::new(id)
}

/// The types of control messages: commands and the replies to them.
#[derive(Clone, Copy, Debug, PartialEq, Eq, Structural)]
pub enum VirtioGpuCtrlType {
    VirtioGpuCmdGetDisplayInfo,
    VirtioGpuCmdResourceCreate2d,
    VirtioGpuCmdResourceUnref,
    VirtioGpuCmdSetScanout,
    VirtioGpuCmdResourceFlush,
    VirtioGpuCmdTransferToHost2d,
    VirtioGpuCmdResourceAttachBacking,
    VirtioGpuCmdResourceDetachBacking,
    VirtioGpuCmdGetCapsetInfo,
    VirtioGpuCmdGetCapset,
    VirtioGpuCmdGetEdid,
    VirtioGpuCmdResourceAssignUuid,
    VirtioGpuCmdResourceCreateBlob,
    VirtioGpuCmdSetScanoutBlob,
    VirtioGpuCmdCtxCreate,
    VirtioGpuCmdCtxDestroy,
    VirtioGpuCmdCtxAttachResource,
    VirtioGpuCmdCtxDetachResource,
    VirtioGpuCmdResourceCreate3d,
    VirtioGpuCmdTransferToHost3d,
    VirtioGpuCmdTransferFromHost3d,
    VirtioGpuCmdSubmit3d,
    VirtioGpuCmdResourceMapBlob,
    VirtioGpuCmdResourceUnmapBlob,
    VirtioGpuCmdUpdateCursor,
    VirtioGpuCmdMoveCursor,
    VirtioGpuRespOkNoData,
    VirtioGpuRespOkDisplayInfo,
    VirtioGpuRespOkCapsetInfo,
    VirtioGpuRespOkCapset,
    VirtioGpuRespOkEdid,
    VirtioGpuRespOkResourceUuid,
    VirtioGpuRespOkMapInfo,
    VirtioGpuRespErrUnspec,
    VirtioGpuRespErrOutOfMemory,
    VirtioGpuRespErrInvalidScanoutId,
    VirtioGpuRespErrInvalidResourceId,
    VirtioGpuRespErrInvalidContextId,
    VirtioGpuRespErrInvalidParameter,
}

impl VirtioGpuCtrlType {
    /// The number that stands for the type on the wire.
    pub open spec fn spec_code(self) -> u32 {
        match self {
            VirtioGpuCtrlType::VirtioGpuCmdGetDisplayInfo => 0x0100,
            VirtioGpuCtrlType::VirtioGpuCmdResourceCreate2d => 0x0101,
            VirtioGpuCtrlType::VirtioGpuCmdResourceUnref => 0x0102,
            VirtioGpuCtrlType::VirtioGpuCmdSetScanout => 0x0103,
            VirtioGpuCtrlType::VirtioGpuCmdResourceFlush => 0x0104,
            VirtioGpuCtrlType::VirtioGpuCmdTransferToHost2d => 0x0105,
            VirtioGpuCtrlType::VirtioGpuCmdResourceAttachBacking => 0x0106,
            VirtioGpuCtrlType::VirtioGpuCmdResourceDetachBacking => 0x0107,
            VirtioGpuCtrlType::VirtioGpuCmdGetCapsetInfo => 0x0108,
            VirtioGpuCtrlType::VirtioGpuCmdGetCapset => 0x0109,
            VirtioGpuCtrlType::VirtioGpuCmdGetEdid => 0x010a,
            VirtioGpuCtrlType::VirtioGpuCmdResourceAssignUuid => 0x010b,
            VirtioGpuCtrlType::VirtioGpuCmdResourceCreateBlob => 0x010c,
            VirtioGpuCtrlType::VirtioGpuCmdSetScanoutBlob => 0x010d,
            VirtioGpuCtrlType::VirtioGpuCmdCtxCreate => 0x0200,
            VirtioGpuCtrlType::VirtioGpuCmdCtxDestroy => 0x0201,
            VirtioGpuCtrlType::VirtioGpuCmdCtxAttachResource => 0x0202,
            VirtioGpuCtrlType::VirtioGpuCmdCtxDetachResource => 0x0203,
            VirtioGpuCtrlType::VirtioGpuCmdResourceCreate3d => 0x0204,
            VirtioGpuCtrlType::VirtioGpuCmdTransferToHost3d => 0x0205,
            VirtioGpuCtrlType::VirtioGpuCmdTransferFromHost3d => 0x0206,
            VirtioGpuCtrlType::VirtioGpuCmdSubmit3d => 0x0207,
            VirtioGpuCtrlType::VirtioGpuCmdResourceMapBlob => 0x0208,
            VirtioGpuCtrlType::VirtioGpuCmdResourceUnmapBlob => 0x0209,
            VirtioGpuCtrlType::VirtioGpuCmdUpdateCursor => 0x0300,
            VirtioGpuCtrlType::VirtioGpuCmdMoveCursor => 0x0301,
            VirtioGpuCtrlType::VirtioGpuRespOkNoData => 0x1100,
            VirtioGpuCtrlType::VirtioGpuRespOkDisplayInfo => 0x1101,
            VirtioGpuCtrlType::VirtioGpuRespOkCapsetInfo => 0x1102,
            VirtioGpuCtrlType::VirtioGpuRespOkCapset => 0x1103,
            VirtioGpuCtrlType::VirtioGpuRespOkEdid => 0x1104,
            VirtioGpuCtrlType::VirtioGpuRespOkResourceUuid => 0x1105,
            VirtioGpuCtrlType::VirtioGpuRespOkMapInfo => 0x1106,
            VirtioGpuCtrlType::VirtioGpuRespErrUnspec => 0x1200,
            VirtioGpuCtrlType::VirtioGpuRespErrOutOfMemory => 0x1201,
            VirtioGpuCtrlType::VirtioGpuRespErrInvalidScanoutId => 0x1202,
            VirtioGpuCtrlType::VirtioGpuRespErrInvalidResourceId => 0x1203,
            VirtioGpuCtrlType::VirtioGpuRespErrInvalidContextId => 0x1204,
            VirtioGpuCtrlType::VirtioGpuRespErrInvalidParameter => 0x1205,
        }
    }

    /// The number that stands for the type on the wire.
    #[verifier::when_used_as_spec(spec_code)]
    pub fn code(self) -> (r: u32)
        ensures
            r == self.spec_code(),
    {
        match self {
            VirtioGpuCtrlType::VirtioGpuCmdGetDisplayInfo => 0x0100,
            VirtioGpuCtrlType::VirtioGpuCmdResourceCreate2d => 0x0101,
            VirtioGpuCtrlType::VirtioGpuCmdResourceUnref => 0x0102,
            VirtioGpuCtrlType::VirtioGpuCmdSetScanout => 0x0103,
            VirtioGpuCtrlType::VirtioGpuCmdResourceFlush => 0x0104,
            VirtioGpuCtrlType::VirtioGpuCmdTransferToHost2d => 0x0105,
            VirtioGpuCtrlType::VirtioGpuCmdResourceAttachBacking => 0x0106,
            VirtioGpuCtrlType::VirtioGpuCmdResourceDetachBacking => 0x0107,
            VirtioGpuCtrlType::VirtioGpuCmdGetCapsetInfo => 0x0108,
            VirtioGpuCtrlType::VirtioGpuCmdGetCapset => 0x0109,
            VirtioGpuCtrlType::VirtioGpuCmdGetEdid => 0x010a,
            VirtioGpuCtrlType::VirtioGpuCmdResourceAssignUuid => 0x010b,
            VirtioGpuCtrlType::VirtioGpuCmdResourceCreateBlob => 0x010c,
            VirtioGpuCtrlType::VirtioGpuCmdSetScanoutBlob => 0x010d,
            VirtioGpuCtrlType::VirtioGpuCmdCtxCreate => 0x0200,
            VirtioGpuCtrlType::VirtioGpuCmdCtxDestroy => 0x0201,
            VirtioGpuCtrlType::VirtioGpuCmdCtxAttachResource => 0x0202,
            VirtioGpuCtrlType::VirtioGpuCmdCtxDetachResource => 0x0203,
            VirtioGpuCtrlType::VirtioGpuCmdResourceCreate3d => 0x0204,
            VirtioGpuCtrlType::VirtioGpuCmdTransferToHost3d => 0x0205,
            VirtioGpuCtrlType::VirtioGpuCmdTransferFromHost3d => 0x0206,
            VirtioGpuCtrlType::VirtioGpuCmdSubmit3d => 0x0207,
            VirtioGpuCtrlType::VirtioGpuCmdResourceMapBlob => 0x0208,
            VirtioGpuCtrlType::VirtioGpuCmdResourceUnmapBlob => 0x0209,
            VirtioGpuCtrlType::VirtioGpuCmdUpdateCursor => 0x0300,
            VirtioGpuCtrlType::VirtioGpuCmdMoveCursor => 0x0301,
            VirtioGpuCtrlType::VirtioGpuRespOkNoData => 0x1100,
            VirtioGpuCtrlType::VirtioGpuRespOkDisplayInfo => 0x1101,
            VirtioGpuCtrlType::VirtioGpuRespOkCapsetInfo => 0x1102,
            VirtioGpuCtrlType::VirtioGpuRespOkCapset => 0x1103,
            VirtioGpuCtrlType::VirtioGpuRespOkEdid => 0x1104,
            VirtioGpuCtrlType::VirtioGpuRespOkResourceUuid => 0x1105,
            VirtioGpuCtrlType::VirtioGpuRespOkMapInfo => 0x1106,
            VirtioGpuCtrlType::VirtioGpuRespErrUnspec => 0x1200,
            VirtioGpuCtrlType::VirtioGpuRespErrOutOfMemory => 0x1201,
            VirtioGpuCtrlType::VirtioGpuRespErrInvalidScanoutId => 0x1202,
            VirtioGpuCtrlType::VirtioGpuRespErrInvalidResourceId => 0x1203,
            VirtioGpuCtrlType::VirtioGpuRespErrInvalidContextId => 0x1204,
            VirtioGpuCtrlType::VirtioGpuRespErrInvalidParameter => 0x1205,
        }
    }

    /// The type is one of the success replies.
    pub open spec fn is_ok_code(code: u32) -> bool {
        0x1100 <= code <= 0x1106
    }

    /// Whether a reply of the type with number `code` reports success.
    pub fn is_ok(code: u32) -> (r: bool)
        ensures
            r == Self::is_ok_code(code),
    {
        0x1100 <= code && code <= 0x1106
    }
}

/// The header that starts every control message.
#[derive(Clone, Copy, Debug)]
pub struct VirtioGpuCtrlHdr {
    pub type_: VirtioGpuCtrlType,
    pub flags: u32,
    pub fence_id: u64,
    pub ctx_id: u32,
    pub ring_idx: u8,
    pub padding: [u8; 3],
}

impl Default for VirtioGpuCtrlHdr {
    /// A header of a request for display information, with everything
    /// else zero.
    fn default() -> (r: Self)
        ensures
            r.type_ == VirtioGpuCtrlType::VirtioGpuCmdGetDisplayInfo,
            r.flags == 0,
            r.fence_id == 0,
            r.ctx_id == 0,
            r.ring_idx == 0,
            r.padding@ == seq![0u8, 0u8, 0u8],
    {
        let r = Self {
            type_: VirtioGpuCtrlType::VirtioGpuCmdGetDisplayInfo,
            flags: 0,
            fence_id: 0,
            ctx_id: 0,
            ring_idx: 0,
            padding: [0, 0, 0],
        };
        assert(r.padding@ =~= seq![0u8, 0u8, 0u8]);
        r
    }
}

impl VirtioGpuCtrlHdr {
    /// The 24 bytes of the header.
    pub open spec fn wire(self) -> Seq<u8> {
        le32(self.type_.spec_code()) + le32(self.flags) + le64(self.fence_id) + le32(self.ctx_id)
            + seq![self.ring_idx] + self.padding@
    }

    /// A header of the given type for rendering context `ctx_id`, with
    /// everything else zero.
    pub fn of(type_: VirtioGpuCtrlType, ctx_id: u32) -> (r: Self)
        ensures
            r.type_ == type_,
            r.flags == 0,
            r.fence_id == 0,
            r.ctx_id == ctx_id,
            r.ring_idx == 0,
            r.padding@ == seq![0u8, 0u8, 0u8],
    {
        let r = Self { type_, flags: 0, fence_id: 0, ctx_id, ring_idx: 0, padding: [0, 0, 0] };
        assert(r.padding@ =~= seq![0u8, 0u8, 0u8]);
        r
    }

    /// Appends the 24 bytes of the header.
    pub fn encode(&self, buf: &mut Vec<u8>)
        ensures
            final(buf)@ == old(buf)@ + self.wire(),
    {
        push_u32(buf, self.type_.code());
        push_u32(buf, self.flags);
        push_u64(buf, self.fence_id);
        push_u32(buf, self.ctx_id);
        buf.push(self.ring_idx);
        buf.push(self.padding[0]);
        buf.push(self.padding[1]);
        buf.push(self.padding[2]);
        assert(buf@ =~= old(buf)@ + self.wire());
    }
}

/// A rectangle of a scanout or a resource.
#[derive(Clone, Copy, Debug, PartialEq, Eq, Structural)]
pub struct VirtioGpuRect {
    pub x: u32,
    pub y: u32,
    pub w: u32,
    pub h: u32,
}

impl VirtioGpuRect {
    /// The 16 bytes of the rectangle.
    pub open spec fn wire(self) -> Seq<u8> {
        le32(self.x) + le32(self.y) + le32(self.w) + le32(self.h)
    }

    /// The 16 bytes of the rectangle.
    pub fn bytes(&self) -> (part: Vec<u8>)
        ensures
            part@ == self.wire(),
            part@.len() == 16,
    {
        let mut part: Vec<u8> = Vec::new();
        self.encode(&mut part);
        assert(part@ =~= self.wire());
        part
    }

    /// Appends the 16 bytes of the rectangle.
    pub fn encode(&self, buf: &mut Vec<u8>)
        ensures
            final(buf)@ == old(buf)@ + self.wire(),
    {
        push_u32(buf, self.x);
        push_u32(buf, self.y);
        push_u32(buf, self.w);
        push_u32(buf, self.h);
        assert(buf@ =~= old(buf)@ + self.wire());
    }
}

/// Pixel format: one byte each of red, green, blue and alpha.
pub const VIRTIO_GPU_FORMAT_R8G8B8A8_UNORM: u32 = 67;

/// The same pixel format, as the 3D renderer numbers it.
pub const VIRGL_FORMAT_R8G8B8A8_UNORM: u32 = 67;

/// Texture target: a two-dimensional texture.
pub const PIPE_TEXTURE_2D: u32 = 2;

/// Binding: the resource can be rendered to.
pub const PIPE_BIND_RENDER_TARGET: u32 = 2;

/// Binding: the resource can be sampled from.
pub const PIPE_BIND_SAMPLER_VIEW: u32 = 8;

/// Clear flags: every colour buffer that is bound.
pub const PIPE_CLEAR_COLOR: u32 = 0x3fc;

/// 3D command: create an object.
pub const VIRGL_CCMD_CREATE_OBJECT: u32 = 1;

/// 3D command: set the framebuffer state.
pub const VIRGL_CCMD_SET_FRAMEBUFFER_STATE: u32 = 5;

/// 3D command: clear.
pub const VIRGL_CCMD_CLEAR: u32 = 7;

/// 3D object type: a surface.
pub const VIRGL_OBJECT_SURFACE: u32 = 8;

/// Number of words in a 3D command buffer as it is submitted.
pub const SUBMIT_WORDS: usize = 512;

/// Width in pixels of the display that the driver sets up.
pub const DISPLAY_WIDTH: u32 = 1600;

/// Height in pixels of the display that the driver sets up.
pub const DISPLAY_HEIGHT: u32 = 900;

/// Resource id of the framebuffer.
pub const FRAMEBUFFER_RESOURCE: u32 = 1;

/// Resource id of the texture of the 3D bring-up.
pub const TEXTURE_RESOURCE: u32 = 2;

/// Id of the rendering context.
pub const RENDER_CONTEXT: u32 = 1;

/// Width and height in pixels of the texture of the 3D bring-up.
pub const TEXTURE_SIDE: u32 = 256;

/// What the renderer needs to know to create a 3D resource.
#[derive(Clone, Copy, Debug, PartialEq, Eq, Structural)]
pub struct VirglRendererResourceCreateArgs {
    pub handle: u32,
    pub target: u32,
    pub format: u32,
    pub bind: u32,
    pub width: u32,
    pub height: u32,
    pub depth: u32,
    pub array_size: u32,
    pub last_level: u32,
    pub nr_samples: u32,
    pub flags: u32,
}

impl Default for VirglRendererResourceCreateArgs {
    /// A 128 by 128 two-dimensional render target of four bytes a pixel.
    fn default() -> (r: Self)
        ensures
            r == (VirglRendererResourceCreateArgs {
                handle: 0,
                target: 2,
                format: 67,
                bind: 2,
                width: 128,
                height: 128,
                depth: 1,
                array_size: 1,
                last_level: 0,
                nr_samples: 0,
                flags: 0,
            }),
    {
        Self {
            handle: 0,
            target: PIPE_TEXTURE_2D,
            format: VIRGL_FORMAT_R8G8B8A8_UNORM,
            bind: PIPE_BIND_RENDER_TARGET,
            width: 128,
            height: 128,
            depth: 1,
            array_size: 1,
            last_level: 0,
            nr_samples: 0,
            flags: 0,
        }
    }
}

impl VirglRendererResourceCreateArgs {
    /// The 44 bytes of the arguments.
    pub open spec fn wire(self) -> Seq<u8> {
        le32(self.handle) + le32(self.target) + le32(self.format) + le32(self.bind) + le32(
            self.width,
        ) + le32(self.height) + le32(self.depth) + le32(self.array_size) + le32(self.last_level)
            + le32(self.nr_samples) + le32(self.flags)
    }

    /// Appends the 44 bytes of the arguments.
    pub fn encode(&self, buf: &mut Vec<u8>)
        ensures
            final(buf)@ == old(buf)@ + self.wire(),
    {
        push_u32(buf, self.handle);
        push_u32(buf, self.target);
        push_u32(buf, self.format);
        push_u32(buf, self.bind);
        push_u32(buf, self.width);
        push_u32(buf, self.height);
        push_u32(buf, self.depth);
        push_u32(buf, self.array_size);
        push_u32(buf, self.last_level);
        push_u32(buf, self.nr_samples);
        push_u32(buf, self.flags);
        assert(buf@ =~= old(buf)@ + self.wire());
    }
}

/// The bytes of two words.
pub fn bytes_of_two(a: u32, b: u32) -> (part: Vec<u8>)
    ensures
        part@ == le32(a) + le32(b),
        part@.len() == 8,
{
    let mut part: Vec<u8> = Vec::new();
    push_u32(&mut part, a);
    push_u32(&mut part, b);
    assert(part@ =~= le32(a) + le32(b));
    part
}

/// What follows the header of a command that creates a 2D resource.
pub open spec fn create_2d_wire(resource_id: u32, format: u32, width: u32, height: u32) -> Seq<u8> {
    le32(resource_id) + le32(format) + le32(width) + le32(height)
}

/// The bytes that follow the header of a command that creates a 2D
/// resource.
pub fn create_2d_bytes(resource_id: u32, format: u32, width: u32, height: u32) -> (part: Vec<u8>)
    ensures
        part@ == create_2d_wire(resource_id, format, width, height),
        part@.len() == 16,
{
    let mut part: Vec<u8> = bytes_of_two(resource_id, format);
    let mut rest: Vec<u8> = bytes_of_two(width, height);
    part.append(&mut rest);
    assert(part@ =~= create_2d_wire(resource_id, format, width, height));
    part
}

/// What follows the header of a command that attaches one range of
/// memory to a resource.
pub open spec fn backing_wire(resource_id: u32, addr: u64, length: u32) -> Seq<u8> {
    le32(resource_id) + le32(1) + le64(addr) + le32(length) + le32(0)
}

/// The bytes that follow the header of a command that attaches one range
/// of memory to a resource.
pub fn backing_bytes(resource_id: u32, addr: u64, length: u32) -> (part: Vec<u8>)
    ensures
        part@ == backing_wire(resource_id, addr, length),
        part@.len() == 24,
{
    let mut part: Vec<u8> = bytes_of_two(resource_id, 1);
    push_u64(&mut part, addr);
    let mut rest: Vec<u8> = bytes_of_two(length, 0);
    part.append(&mut rest);
    assert(part@ =~= backing_wire(resource_id, addr, length));
    part
}

/// What follows the header of a command that sets a scanout.
pub open spec fn scanout_wire(r: VirtioGpuRect, scanout_id: u32, resource_id: u32) -> Seq<u8> {
    r.wire() + le32(scanout_id) + le32(resource_id)
}

/// The bytes that follow the header of a command that sets a scanout.
pub fn scanout_bytes(r: &VirtioGpuRect, scanout_id: u32, resource_id: u32) -> (part: Vec<u8>)
    ensures
        part@ == scanout_wire(*r, scanout_id, resource_id),
        part@.len() == 24,
{
    let mut part: Vec<u8> = r.bytes();
    let mut rest: Vec<u8> = bytes_of_two(scanout_id, resource_id);
    part.append(&mut rest);
    assert(part@ =~= scanout_wire(*r, scanout_id, resource_id));
    part
}

/// What follows the header of a command that transfers a rectangle to
/// the host.
pub open spec fn transfer_wire(r: VirtioGpuRect, offset: u64, resource_id: u32) -> Seq<u8> {
    r.wire() + le64(offset) + le32(resource_id) + le32(0)
}

/// The bytes that follow the header of a command that transfers a
/// rectangle to the host.
pub fn transfer_bytes(r: &VirtioGpuRect, offset: u64, resource_id: u32) -> (part: Vec<u8>)
    ensures
        part@ == transfer_wire(*r, offset, resource_id),
        part@.len() == 32,
{
    let mut part: Vec<u8> = r.bytes();
    push_u64(&mut part, offset);
    let mut rest: Vec<u8> = bytes_of_two(resource_id, 0);
    part.append(&mut rest);
    assert(part@ =~= transfer_wire(*r, offset, resource_id));
    part
}

/// What follows the header of a command that flushes a rectangle.
pub open spec fn flush_wire(r: VirtioGpuRect, resource_id: u32) -> Seq<u8> {
    r.wire() + le32(resource_id) + le32(0)
}

/// The bytes that follow the header of a command that flushes a
/// rectangle.
pub fn flush_bytes(r: &VirtioGpuRect, resource_id: u32) -> (part: Vec<u8>)
    ensures
        part@ == flush_wire(*r, resource_id),
        part@.len() == 24,
{
    let mut part: Vec<u8> = r.bytes();
    let mut rest: Vec<u8> = bytes_of_two(resource_id, 0);
    part.append(&mut rest);
    assert(part@ =~= flush_wire(*r, resource_id));
    part
}

/// The bytes of a count, of a zero word if `padded`, and of the words
/// that follow them.
pub fn counted_words_bytes(count: u32, padded: bool, words: &[u32]) -> (part: Vec<u8>)
    requires
        words@.len() <= 512,
    ensures
        padded ==> part@ == le32(count) + le32(0) + words_wire(words@),
        !padded ==> part@ == le32(count) + words_wire(words@),
        part@.len() == 4 * words@.len() + if padded {
            8int
        } else {
            4int
        },
{
    let mut part: Vec<u8> = Vec::new();
    push_u32(&mut part, count);
    assert(part@ =~= le32(count));
    if padded {
        push_u32(&mut part, 0);
    }
    push_words(&mut part, words);
    part
}

/// The bytes that follow the header of a command that creates a 3D
/// resource.
pub fn create_3d_bytes(args: &VirglRendererResourceCreateArgs) -> (part: Vec<u8>)
    ensures
        part@ == args.wire() + le32(0),
        part@.len() == 48,
{
    let mut part: Vec<u8> = Vec::new();
    args.encode(&mut part);
    assert(part@ =~= args.wire());
    push_u32(&mut part, 0);
    part
}

/// The header of a command of the type with number `code` for rendering
/// context `ctx_id`: no flags, no fence, ring 0.
pub open spec fn header_wire(code: u32, ctx_id: u32) -> Seq<u8> {
    le32(code) + le32(0) + le64(0) + le32(ctx_id) + seq![0u8, 0u8, 0u8, 0u8]
}

/// The commands that the driver sends.
#[derive(Clone, Copy, Debug)]
pub enum GpuCommand {
    GetDisplayInfo,
    GetCapsetInfo { capset_index: u32 },
    GetEdid { scanout: u32 },
    ResourceCreate2d { resource_id: u32, format: u32, width: u32, height: u32 },
    ResourceAttachBacking { ctx_id: u32, resource_id: u32, addr: u64, length: u32 },
    SetScanout { r: VirtioGpuRect, scanout_id: u32, resource_id: u32 },
    TransferToHost2d { r: VirtioGpuRect, offset: u64, resource_id: u32 },
    ResourceFlush { r: VirtioGpuRect, resource_id: u32 },
    CtxCreate { ctx_id: u32, nlen: u32, debug_name: [u32; 64] },
    ResourceCreate3d { ctx_id: u32, args: VirglRendererResourceCreateArgs },
    CtxAttachResource { ctx_id: u32, handle: u32 },
    Submit3d { ctx_id: u32, len: u32, buffer: [u32; 512] },
}

impl GpuCommand {
    /// The type of the command.
    pub open spec fn kind(self) -> VirtioGpuCtrlType {
        match self {
            GpuCommand::GetDisplayInfo => VirtioGpuCtrlType::VirtioGpuCmdGetDisplayInfo,
            GpuCommand::GetCapsetInfo { .. } => VirtioGpuCtrlType::VirtioGpuCmdGetCapsetInfo,
            GpuCommand::GetEdid { .. } => VirtioGpuCtrlType::VirtioGpuCmdGetEdid,
            GpuCommand::ResourceCreate2d { .. } => VirtioGpuCtrlType::VirtioGpuCmdResourceCreate2d,
            GpuCommand::ResourceAttachBacking {
                ..
            } => VirtioGpuCtrlType::VirtioGpuCmdResourceAttachBacking,
            GpuCommand::SetScanout { .. } => VirtioGpuCtrlType::VirtioGpuCmdSetScanout,
            GpuCommand::TransferToHost2d { .. } => VirtioGpuCtrlType::VirtioGpuCmdTransferToHost2d,
            GpuCommand::ResourceFlush { .. } => VirtioGpuCtrlType::VirtioGpuCmdResourceFlush,
            GpuCommand::CtxCreate { .. } => VirtioGpuCtrlType::VirtioGpuCmdCtxCreate,
            GpuCommand::ResourceCreate3d { .. } => VirtioGpuCtrlType::VirtioGpuCmdResourceCreate3d,
            GpuCommand::CtxAttachResource {
                ..
            } => VirtioGpuCtrlType::VirtioGpuCmdCtxAttachResource,
            GpuCommand::Submit3d { .. } => VirtioGpuCtrlType::VirtioGpuCmdSubmit3d,
        }
    }

    /// The rendering context that the command addresses, zero for the
    /// commands that address none.
    pub open spec fn context(self) -> u32 {
        match self {
            GpuCommand::ResourceAttachBacking { ctx_id, .. } => ctx_id,
            GpuCommand::CtxCreate { ctx_id, .. } => ctx_id,
            GpuCommand::ResourceCreate3d { ctx_id, .. } => ctx_id,
            GpuCommand::CtxAttachResource { ctx_id, .. } => ctx_id,
            GpuCommand::Submit3d { ctx_id, .. } => ctx_id,
            _ => 0,
        }
    }

    /// What follows the header.
    pub open spec fn body(self) -> Seq<u8> {
        match self {
            GpuCommand::GetDisplayInfo => Seq::empty(),
            GpuCommand::GetCapsetInfo { capset_index } => le32(capset_index) + le32(0),
            GpuCommand::GetEdid { scanout } => le32(scanout) + le32(0),
            GpuCommand::ResourceCreate2d { resource_id, format, width, height } => create_2d_wire(
                resource_id,
                format,
                width,
                height,
            ),
            GpuCommand::ResourceAttachBacking {
                ctx_id,
                resource_id,
                addr,
                length,
            } => backing_wire(resource_id, addr, length),
            GpuCommand::SetScanout { r, scanout_id, resource_id } => scanout_wire(
                r,
                scanout_id,
                resource_id,
            ),
            GpuCommand::TransferToHost2d { r, offset, resource_id } => transfer_wire(
                r,
                offset,
                resource_id,
            ),
            GpuCommand::ResourceFlush { r, resource_id } => flush_wire(r, resource_id),
            GpuCommand::CtxCreate { ctx_id, nlen, debug_name } => le32(nlen) + le32(0)
                + words_wire(debug_name@),
            GpuCommand::ResourceCreate3d { ctx_id, args } => args.wire() + le32(0),
            GpuCommand::CtxAttachResource { ctx_id, handle } => le32(handle) + le32(0),
            GpuCommand::Submit3d { ctx_id, len, buffer } => le32(len) + words_wire(buffer@),
        }
    }

    /// The bytes of the command as the device reads them: the header,
    /// then the body, every number least significant byte first.
    pub open spec fn wire(self) -> Seq<u8> {
        header_wire(self.kind().spec_code(), self.context()) + self.body()
    }

    /// The bytes that follow the header.
    pub fn encode_body(&self) -> (part: Vec<u8>)
        ensures
            part@ == self.body(),
            part@.len() <= 2052,
    {
        match self {
            GpuCommand::GetDisplayInfo => Vec::new(),
            GpuCommand::GetCapsetInfo { capset_index } => bytes_of_two(*capset_index, 0),
            GpuCommand::GetEdid { scanout } => bytes_of_two(*scanout, 0),
            GpuCommand::ResourceCreate2d { resource_id, format, width, height } => create_2d_bytes(
                *resource_id,
                *format,
                *width,
                *height,
            ),
            GpuCommand::ResourceAttachBacking {
                ctx_id,
                resource_id,
                addr,
                length,
            } => backing_bytes(*resource_id, *addr, *length),
            GpuCommand::SetScanout { r, scanout_id, resource_id } => scanout_bytes(
                r,
                *scanout_id,
                *resource_id,
            ),
            GpuCommand::TransferToHost2d { r, offset, resource_id } => transfer_bytes(
                r,
                *offset,
                *resource_id,
            ),
            GpuCommand::ResourceFlush { r, resource_id } => flush_bytes(r, *resource_id),
            GpuCommand::CtxCreate { ctx_id, nlen, debug_name } => counted_words_bytes(
                *nlen,
                true,
                debug_name.as_slice(),
            ),
            GpuCommand::ResourceCreate3d { ctx_id, args } => create_3d_bytes(args),
            GpuCommand::CtxAttachResource { ctx_id, handle } => bytes_of_two(*handle, 0),
            GpuCommand::Submit3d { ctx_id, len, buffer } => counted_words_bytes(
                *len,
                false,
                buffer.as_slice(),
            ),
        }
    }

    /// The bytes of the command as the device reads them.
    pub fn encode(&self) -> (bytes: Vec<u8>)
        ensures
            bytes@ == self.wire(),
            24 <= bytes@.len() <= 4096,
    {
        let (type_, ctx_id): (VirtioGpuCtrlType, u32) = match self {
            GpuCommand::GetDisplayInfo => (VirtioGpuCtrlType::VirtioGpuCmdGetDisplayInfo, 0),
            GpuCommand::GetCapsetInfo { .. } => (VirtioGpuCtrlType::VirtioGpuCmdGetCapsetInfo, 0),
            GpuCommand::GetEdid { .. } => (VirtioGpuCtrlType::VirtioGpuCmdGetEdid, 0),
            GpuCommand::ResourceCreate2d {
                ..
            } => (VirtioGpuCtrlType::VirtioGpuCmdResourceCreate2d, 0),
            GpuCommand::ResourceAttachBacking { ctx_id, .. } => (
                VirtioGpuCtrlType::VirtioGpuCmdResourceAttachBacking,
                *ctx_id,
            ),
            GpuCommand::SetScanout { .. } => (VirtioGpuCtrlType::VirtioGpuCmdSetScanout, 0),
            GpuCommand::TransferToHost2d {
                ..
            } => (VirtioGpuCtrlType::VirtioGpuCmdTransferToHost2d, 0),
            GpuCommand::ResourceFlush { .. } => (VirtioGpuCtrlType::VirtioGpuCmdResourceFlush, 0),
            GpuCommand::CtxCreate { ctx_id, .. } => (
                VirtioGpuCtrlType::VirtioGpuCmdCtxCreate,
                *ctx_id,
            ),
            GpuCommand::ResourceCreate3d { ctx_id, .. } => (
                VirtioGpuCtrlType::VirtioGpuCmdResourceCreate3d,
                *ctx_id,
            ),
            GpuCommand::CtxAttachResource { ctx_id, .. } => (
                VirtioGpuCtrlType::VirtioGpuCmdCtxAttachResource,
                *ctx_id,
            ),
            GpuCommand::Submit3d { ctx_id, .. } => (
                VirtioGpuCtrlType::VirtioGpuCmdSubmit3d,
                *ctx_id,
            ),
        };
        let mut bytes: Vec<u8> = Vec::new();
        let header: VirtioGpuCtrlHdr = VirtioGpuCtrlHdr::of(type_, ctx_id);
        header.encode(&mut bytes);
        assert(bytes@ =~= header_wire(self.kind().spec_code(), self.context()));
        let mut part: Vec<u8> = self.encode_body();
        bytes.append(&mut part);
        bytes
    }
}

/// The words of a command that clears the colour buffers selected by
/// `buffers` to `rgba`, and depth and stencil to zero.
pub open spec fn clear_words(buffers: u32, rgba: Seq<u8>) -> Seq<u32> {
    seq![
        0x8_0007u32,
        buffers,
        rgba[0] as u32,
        rgba[1] as u32,
        rgba[2] as u32,
        rgba[3] as u32,
        0u32,
        0u32,
        0u32,
    ]
}

/// Appends a clear command.
pub fn cmd_clear(buffer: &mut Vec<u32>, buffers: u32, rgba: [u8; 4])
    ensures
        final(buffer)@ == old(buffer)@ + clear_words(buffers, rgba@),
{
    let len: u32 = 8;
    buffer.push(len * 0x1_0000 + VIRGL_CCMD_CLEAR);
    buffer.push(buffers);
    buffer.push(rgba[0] as u32);
    buffer.push(rgba[1] as u32);
    buffer.push(rgba[2] as u32);
    buffer.push(rgba[3] as u32);
    buffer.push(0);
    buffer.push(0);
    buffer.push(0);
    assert(buffer@ =~= old(buffer)@ + clear_words(buffers, rgba@));
}

/// The words of a command that makes the surfaces `handles` the colour
/// buffers, with no depth buffer.
pub open spec fn framebuffer_state_words(handles: Seq<u32>) -> Seq<u32> {
    seq![((handles.len() + 2) * 0x1_0000 + 5) as u32, handles.len() as u32, 0u32] + handles
}

/// Appends a command that sets the framebuffer state.
pub fn cmd_set_framebuffer_state(buffer: &mut Vec<u32>, handles: &[u32])
    requires
        handles@.len() + 2 <= 0xffff,
    ensures
        final(buffer)@ == old(buffer)@ + framebuffer_state_words(handles@),
{
    let len: u32 = handles.len() as u32 + 2;
    buffer.push(len * 0x1_0000 + VIRGL_CCMD_SET_FRAMEBUFFER_STATE);
    buffer.push(handles.len() as u32);
    buffer.push(0);
    let ghost front = buffer@;
    let mut i: usize = 0;
    while i < handles.len()
        invariant
            i <= handles@.len(),
            buffer@ == front + handles@.take(i as int),
        decreases handles@.len() - i,
    {
        buffer.push(handles[i]);
        i += 1;
        assert(buffer@ =~= front + handles@.take(i as int));
    }
    assert(handles@.take(i as int) =~= handles@);
    assert(buffer@ =~= old(buffer)@ + framebuffer_state_words(handles@));
}

/// The words of a command that creates a surface object `handle` on the
/// resource of the same number.
pub open spec fn create_surface_words(handle: u32, format: u32) -> Seq<u32> {
    seq![0x5_0801u32, handle, handle, format, 0u32, 0u32]
}

/// Appends a command that creates a surface.
pub fn cmd_create_surface(buffer: &mut Vec<u32>, handle: u32, format: u32)
    ensures
        final(buffer)@ == old(buffer)@ + create_surface_words(handle, format),
{
    let len: u32 = 5;
    buffer.push(len * 0x1_0000 + VIRGL_OBJECT_SURFACE * 0x100 + VIRGL_CCMD_CREATE_OBJECT);
    buffer.push(handle);
    buffer.push(handle);
    buffer.push(format);
    buffer.push(0);
    buffer.push(0);
    assert(buffer@ =~= old(buffer)@ + create_surface_words(handle, format));
}

/// The commands of the first 3D submission: create a surface on the
/// texture, make it the framebuffer, clear it to opaque red.
pub open spec fn first_commands() -> Seq<u32> {
    create_surface_words(2, 67) + framebuffer_state_words(seq![2u32]) + clear_words(
        0x3fc,
        seq![255u8, 0u8, 0u8, 255u8],
    )
}

/// `words` followed by zeros up to 512 words.
pub open spec fn padded(words: Seq<u32>) -> Seq<u32> {
    Seq::new(
        512,
        |i: int|
            if i < words.len() {
                words[i]
            } else {
                0u32
            },
    )
}

/// Builds the first 3D submission: its length in words before padding,
/// and the command buffer padded to 512 words.
pub fn first_submission() -> (r: (u32, [u32; 512]))
    ensures
        r.0 == 19,
        r.1@ == padded(first_commands()),
{
    let mut words: Vec<u32> = Vec::with_capacity(512);
    cmd_create_surface(&mut words, TEXTURE_RESOURCE, VIRGL_FORMAT_R8G8B8A8_UNORM);
    let handles: [u32; 1] = [TEXTURE_RESOURCE];
    assert(handles@ =~= seq![2u32]);
    cmd_set_framebuffer_state(&mut words, handles.as_slice());
    let red: [u8; 4] = [255, 0, 0, 255];
    assert(red@ =~= seq![255u8, 0u8, 0u8, 255u8]);
    cmd_clear(&mut words, PIPE_CLEAR_COLOR, red);
    assert(words@ =~= first_commands());
    let len: u32 = words.len() as u32;
    let mut buffer: [u32; 512] = [0u32;512];
    let mut i: usize = 0;
    while i < words.len()
        invariant
            i <= words@.len(),
            words@.len() == 19,
            forall|k: int| 0 <= k < i ==> buffer@[k] == words@[k],
            forall|k: int| i <= k < 512 ==> buffer@[k] == 0,
        decreases words@.len() - i,
    {
        buffer[i] = words[i];
        i += 1;
    }
    assert(buffer@ =~= padded(first_commands()));
    (len, buffer)
}

/// The name of the rendering context, one word per character: `Debug`,
/// a zero, and the digit 1 in every word after that.
pub open spec fn debug_name_words() -> Seq<u32> {
    Seq::new(
        64,
        |i: int|
            if i == 0 {
                0x44u32
            } else if i == 1 {
                0x65u32
            } else if i == 2 {
                0x62u32
            } else if i == 3 {
                0x75u32
            } else if i == 4 {
                0x67u32
            } else if i == 5 {
                0u32
            } else {
                0x31u32
            },
    )
}

/// Builds the name of the rendering context.
pub fn debug_name() -> (name: [u32; 64])
    ensures
        name@ == debug_name_words(),
{
    let mut name: [u32; 64] = [0x31u32;64];
    name[0] = 0x44;
    name[1] = 0x65;
    name[2] = 0x62;
    name[3] = 0x75;
    name[4] = 0x67;
    name[5] = 0;
    assert(name@ =~= debug_name_words());
    name
}

/// Number of pages that the driver reserves for a buffer of `bytes`
/// bytes: one more than the whole pages in it.
pub open spec fn pages_for(bytes: nat) -> nat {
    1 + bytes / 4096
}

/// Number of pages to reserve for a buffer of `bytes` bytes.
pub fn pages_needed(bytes: usize) -> (pages: usize)
    ensures
        pages == pages_for(bytes as nat),
        pages * 4096 > bytes,
{
    1 + bytes / 4096
}

/// A request that is with the device: the descriptor that heads it, the
/// descriptor that takes the reply, and the write that notifies the
/// device.
#[derive(Clone, Copy, Debug)]
pub struct Request {
    pub head: u16,
    pub next: u16,
    pub kick: Option<Notification>,
}

impl Request {
    /// The wait for the reply: it is on the head descriptor, which is the
    /// id that the device reports when it has finished the request.
    pub fn waiter(&self) -> (w: IdWait)
        ensures
            w.id() == self.head,
    {
        wait_for(self.head as usize)
    }
}

/// Sends `data` as a request on the selected queue: takes the two free
/// descriptors on top of the pool, puts `data` in the buffer of the
/// first, chains the second for the reply, offers the chain to the
/// device and says how to notify it. Nothing else of the device record
/// changes.
pub fn request(virtio: &mut Virtio, data: &[u8]) -> (req: Request)
    requires
        old(virtio).wf(),
        old(virtio).pool().wf(),
        old(virtio).pool()@.len() >= 2,
        data@.len() <= 4096,
    ensures
        final(virtio).wf(),
        final(virtio).pool().wf(),
        final(virtio).same_elsewhere(old(virtio)),
        final(virtio).last_used_idx == old(virtio).last_used_idx,
        req.head == old(virtio).pool()@.last(),
        req.next == old(virtio).pool()@[old(virtio).pool()@.len() - 2],
        req.head != req.next,
        req.head < old(virtio).queue().size,
        req.next < old(virtio).queue().size,
        final(virtio).pool()@ == old(virtio).pool()@.subrange(0, old(virtio).pool()@.len() - 2),
        final(virtio).pool().in_flight() == old(virtio).pool().in_flight().insert(req.head).insert(
            req.next,
        ),
        final(virtio).queue()@ == old(virtio).queue()@.add_request(req.head, req.next, data@),
        final(virtio).queue()@.driver_ring[old(virtio).queue()@.driver_idx as int % old(
            virtio,
        ).queue()@.size()] == req.head,
        final(virtio).queue()@.descs[req.head as int].next == req.next,
        final(virtio).queue()@.descs[req.head as int].flags == 1,
        final(virtio).queue()@.descs[req.head as int].len == data@.len(),
        final(virtio).queue()@.buffers[req.head as int].subrange(0, data@.len() as int) == data@,
        old(virtio).notify.bar is Mm ==> req.kick == Some(
            Notification { addr: old(virtio).notify_address() as u64, value: 0 },
        ),
        !(old(virtio).notify.bar is Mm) ==> req.kick is None,
{
    let (desc_id, desc_next_id): (u16, u16) = virtio.get_free_twice_desc_id().unwrap();
    virtio.add_request(desc_id, desc_next_id, data);
    let kick: Option<Notification> = virtio.kick(0);
    proof {
        assert(virtio.queue()@.buffers[desc_id as int].subrange(0, data@.len() as int) =~= data@);
    }
    Request { head: desc_id, next: desc_next_id, kick }
}

/// Ends a request whose reply has arrived: frees both descriptors, the
/// head first, and returns the descriptor that holds the reply.
pub fn finish(virtio: &mut Virtio, req: &Request) -> (reply: crate::virtio::Desc)
    requires
        old(virtio).wf(),
        req.next < old(virtio).queue().size,
    ensures
        final(virtio).wf(),
        final(virtio).same_but_pool(old(virtio)),
        final(virtio).pool()@ == old(virtio).pool()@.push(req.head).push(req.next),
        reply == old(virtio).queue()@.descs[req.next as int],
        old(virtio).pool().wf() && req.head != req.next && old(virtio).pool().in_flight().contains(
            req.head,
        ) && old(virtio).pool().in_flight().contains(req.next) ==> final(virtio).pool().wf()
            && final(virtio).pool().in_flight() == old(virtio).pool().in_flight().remove(
            req.head,
        ).remove(req.next),
{
    virtio.set_free_desc_id(req.head);
    virtio.set_free_desc_id(req.next);
    virtio.read_desc(req.next)
}

/// What the driver reads of a reply: the type in its header, and the
/// rectangle that follows the header in a display information reply.
#[derive(Clone, Copy, Debug, PartialEq, Eq, Structural)]
pub struct ReplyInfo {
    pub type_code: u32,
    pub rect: VirtioGpuRect,
}

impl ReplyInfo {
    /// What the first 40 bytes of a reply buffer say.
    pub open spec fn decoded(bytes: Seq<u8>) -> ReplyInfo {
        ReplyInfo {
            type_code: crate::bytes::le_u32(bytes, 0) as u32,
            rect: VirtioGpuRect {
                x: crate::bytes::le_u32(bytes, 24) as u32,
                y: crate::bytes::le_u32(bytes, 28) as u32,
                w: crate::bytes::le_u32(bytes, 32) as u32,
                h: crate::bytes::le_u32(bytes, 36) as u32,
            },
        }
    }

    /// Reads the start of a reply buffer.
    pub fn decode(bytes: &[u8]) -> (r: Self)
        requires
            bytes@.len() >= 40,
        ensures
            r == Self::decoded(bytes@),
    {
        ReplyInfo {
            type_code: crate::bytes::read_u32(bytes, 0),
            rect: VirtioGpuRect {
                x: crate::bytes::read_u32(bytes, 24),
                y: crate::bytes::read_u32(bytes, 28),
                w: crate::bytes::read_u32(bytes, 32),
                h: crate::bytes::read_u32(bytes, 36),
            },
        }
    }
}

/// Where the driver stands. Each phase but the first and the last is
/// named after what the driver is waiting for.
#[derive(Clone, Copy, Debug, PartialEq, Eq, Structural)]
pub enum Phase {
    Start,
    DisplayInfo,
    CapsetInfo(u32),
    Edid,
    Create2d,
    AllocFramebuffer,
    AttachBacking,
    SetScanout,
    FirstTransfer,
    FirstFlush,
    CtxCreate,
    Create3d,
    CtxAttach,
    AllocTexture,
    AttachTexture,
    Submit3d,
    Steady,
}

/// What happened that the driver has to react to.
#[derive(Clone, Copy, Debug, PartialEq, Eq, Structural)]
pub enum GpuEvent {
    /// The driver task starts.
    Begin,
    /// The reply to the last request has arrived.
    Reply(ReplyInfo),
    /// The pages asked for are reserved, starting at the given address.
    Allocated(u64),
}

/// What the driver wants done next.
#[derive(Clone, Copy, Debug)]
pub enum GpuAction {
    /// Send the command and wait for the reply.
    Request(GpuCommand),
    /// Reserve this many contiguous pages.
    Allocate(usize),
    /// Nothing: the event was not the one awaited, or bring-up is over.
    Wait,
}

/// The state of the GPU driver during bring-up and after.
#[derive(Clone, Copy, Debug, PartialEq, Eq, Structural)]
pub struct GpuDriver {
    pub phase: Phase,
    pub num_capsets: u32,
    pub origin_x: u32,
    pub origin_y: u32,
    pub framebuffer: u64,
    pub texture: u64,
}

/// Number of bytes of the framebuffer: four for each pixel of the display.
pub const FRAMEBUFFER_BYTES: u32 = 1600 * 900 * 4;

/// Number of bytes of the texture of the 3D bring-up.
pub const TEXTURE_BYTES: u32 = 256 * 256 * 4;

impl GpuDriver {
    /// The rectangle of the display: where the device put it, but always
    /// 1600 by 900 pixels, whatever size the device reported.
    pub open spec fn rect(self) -> VirtioGpuRect {
        VirtioGpuRect { x: self.origin_x, y: self.origin_y, w: 1600, h: 900 }
    }

    /// The phase that follows when `event` arrives. An event that the
    /// phase does not await changes nothing. Replies are not examined:
    /// the bring-up goes on whatever the device answered.
    pub open spec fn next_phase(self, event: GpuEvent) -> Phase {
        match (self.phase, event) {
            (Phase::Start, GpuEvent::Begin) => Phase::DisplayInfo,
            (Phase::DisplayInfo, GpuEvent::Reply(_)) => if self.num_capsets > 0 {
                Phase::CapsetInfo(0)
            } else {
                Phase::Edid
            },
            (Phase::CapsetInfo(i), GpuEvent::Reply(_)) => if i + 1 < self.num_capsets {
                Phase::CapsetInfo((i + 1) as u32)
            } else {
                Phase::Edid
            },
            (Phase::Edid, GpuEvent::Reply(_)) => Phase::Create2d,
            (Phase::Create2d, GpuEvent::Reply(_)) => Phase::AllocFramebuffer,
            (Phase::AllocFramebuffer, GpuEvent::Allocated(_)) => Phase::AttachBacking,
            (Phase::AttachBacking, GpuEvent::Reply(_)) => Phase::SetScanout,
            (Phase::SetScanout, GpuEvent::Reply(_)) => Phase::FirstTransfer,
            (Phase::FirstTransfer, GpuEvent::Reply(_)) => Phase::FirstFlush,
            (Phase::FirstFlush, GpuEvent::Reply(_)) => Phase::CtxCreate,
            (Phase::CtxCreate, GpuEvent::Reply(_)) => Phase::Create3d,
            (Phase::Create3d, GpuEvent::Reply(_)) => Phase::CtxAttach,
            (Phase::CtxAttach, GpuEvent::Reply(_)) => Phase::AllocTexture,
            (Phase::AllocTexture, GpuEvent::Allocated(_)) => Phase::AttachTexture,
            (Phase::AttachTexture, GpuEvent::Reply(_)) => Phase::Submit3d,
            (Phase::Submit3d, GpuEvent::Reply(_)) => Phase::Steady,
            (phase, _) => phase,
        }
    }

    /// The state after `event`. The reply with the display information
    /// sets the origin of the display, and the two reservations set the
    /// addresses of the framebuffer and of the texture.
    pub open spec fn after(self, event: GpuEvent) -> GpuDriver {
        let phase = self.next_phase(event);
        match (self.phase, event) {
            (Phase::DisplayInfo, GpuEvent::Reply(info)) => GpuDriver {
                phase,
                origin_x: info.rect.x,
                origin_y: info.rect.y,
                ..self
            },
            (Phase::AllocFramebuffer, GpuEvent::Allocated(addr)) => GpuDriver {
                phase,
                framebuffer: addr,
                ..self
            },
            (Phase::AllocTexture, GpuEvent::Allocated(addr)) => GpuDriver {
                phase,
                texture: addr,
                ..self
            },
            _ => GpuDriver { phase, ..self },
        }
    }

    /// The bytes of the command that the driver sends on entering its
    /// phase, if it sends one then.
    pub open spec fn sends(self) -> Option<Seq<u8>> {
        match self.phase {
            Phase::DisplayInfo => Some(GpuCommand::GetDisplayInfo.wire()),
            Phase::CapsetInfo(i) => Some((GpuCommand::GetCapsetInfo { capset_index: i }).wire()),
            Phase::Edid => Some((GpuCommand::GetEdid { scanout: 0 }).wire()),
            Phase::Create2d => Some(
                (GpuCommand::ResourceCreate2d {
                    resource_id: 1,
                    format: 67,
                    width: 1600,
                    height: 900,
                }).wire(),
            ),
            Phase::AttachBacking => Some(
                (GpuCommand::ResourceAttachBacking {
                    ctx_id: 0,
                    resource_id: 1,
                    addr: self.framebuffer,
                    length: 5_760_000,
                }).wire(),
            ),
            Phase::SetScanout => Some(
                (GpuCommand::SetScanout { r: self.rect(), scanout_id: 0, resource_id: 1 }).wire(),
            ),
            Phase::FirstTransfer => Some(
                (GpuCommand::TransferToHost2d { r: self.rect(), offset: 0, resource_id: 1 }).wire(),
            ),
            Phase::FirstFlush => Some(
                (GpuCommand::ResourceFlush { r: self.rect(), resource_id: 1 }).wire(),
            ),
            Phase::CtxCreate => Some(
                header_wire(0x200, 1) + (le32(6) + le32(0) + words_wire(debug_name_words())),
            ),
            Phase::Create3d => Some(
                (GpuCommand::ResourceCreate3d {
                    ctx_id: 1,
                    args: VirglRendererResourceCreateArgs {
                        handle: 2,
                        target: 2,
                        format: 67,
                        bind: 8,
                        width: 256,
                        height: 256,
                        depth: 1,
                        array_size: 1,
                        last_level: 0,
                        nr_samples: 0,
                        flags: 0,
                    },
                }).wire(),
            ),
            Phase::CtxAttach => Some((GpuCommand::CtxAttachResource { ctx_id: 1, handle: 2 }).wire()),
            Phase::AttachTexture => Some(
                (GpuCommand::ResourceAttachBacking {
                    ctx_id: 1,
                    resource_id: 2,
                    addr: self.texture,
                    length: 262_144,
                }).wire(),
            ),
            Phase::Submit3d => Some(
                header_wire(0x207, 1) + (le32(19) + words_wire(padded(first_commands()))),
            ),
            _ => None,
        }
    }

    /// The number of pages that the driver asks for on entering its
    /// phase, if it asks for any then.
    pub open spec fn reserves(self) -> Option<nat> {
        match self.phase {
            Phase::AllocFramebuffer => Some(pages_for(5_760_000)),
            Phase::AllocTexture => Some(pages_for(262_144)),
            _ => None,
        }
    }

    /// A driver that has not started, for a device with `num_capsets`
    /// capability sets.
    pub fn new(num_capsets: u32) -> (r: Self)
        ensures
            r == (GpuDriver {
                phase: Phase::Start,
                num_capsets,
                origin_x: 0,
                origin_y: 0,
                framebuffer: 0,
                texture: 0,
            }),
    {
        GpuDriver {
            phase: Phase::Start,
            num_capsets,
            origin_x: 0,
            origin_y: 0,
            framebuffer: 0,
            texture: 0,
        }
    }

    /// The rectangle of the display.
    pub fn display(&self) -> (r: VirtioGpuRect)
        ensures
            r == self.rect(),
    {
        VirtioGpuRect {
            x: self.origin_x,
            y: self.origin_y,
            w: DISPLAY_WIDTH,
            h: DISPLAY_HEIGHT,
        }
    }

    /// The command that the driver sends on entering its phase.
    pub fn command(&self) -> (r: Option<GpuCommand>)
        ensures
            match self.sends() {
                Some(bytes) => r is Some && (r->0).wire() == bytes,
                None => r is None,
            },
    {
        match self.phase {
            Phase::DisplayInfo => Some(GpuCommand::GetDisplayInfo),
            Phase::CapsetInfo(i) => Some(GpuCommand::GetCapsetInfo { capset_index: i }),
            Phase::Edid => Some(GpuCommand::GetEdid { scanout: 0 }),
            Phase::Create2d => Some(
                GpuCommand::ResourceCreate2d {
                    resource_id: FRAMEBUFFER_RESOURCE,
                    format: VIRTIO_GPU_FORMAT_R8G8B8A8_UNORM,
                    width: DISPLAY_WIDTH,
                    height: DISPLAY_HEIGHT,
                },
            ),
            Phase::AttachBacking => Some(
                GpuCommand::ResourceAttachBacking {
                    ctx_id: 0,
                    resource_id: FRAMEBUFFER_RESOURCE,
                    addr: self.framebuffer,
                    length: FRAMEBUFFER_BYTES,
                },
            ),
            Phase::SetScanout => Some(
                GpuCommand::SetScanout {
                    r: self.display(),
                    scanout_id: 0,
                    resource_id: FRAMEBUFFER_RESOURCE,
                },
            ),
            Phase::FirstTransfer => Some(self.transfer()),
            Phase::FirstFlush => Some(self.flush()),
            Phase::CtxCreate => Some(
                GpuCommand::CtxCreate { ctx_id: RENDER_CONTEXT, nlen: 6, debug_name: debug_name() },
            ),
            Phase::Create3d => {
                let mut args = VirglRendererResourceCreateArgs::default();
                args.width = TEXTURE_SIDE;
                args.height = TEXTURE_SIDE;
                args.handle = TEXTURE_RESOURCE;
                args.bind = PIPE_BIND_SAMPLER_VIEW;
                Some(GpuCommand::ResourceCreate3d { ctx_id: RENDER_CONTEXT, args })
            },
            Phase::CtxAttach => Some(
                GpuCommand::CtxAttachResource { ctx_id: RENDER_CONTEXT, handle: TEXTURE_RESOURCE },
            ),
            Phase::AttachTexture => Some(
                GpuCommand::ResourceAttachBacking {
                    ctx_id: RENDER_CONTEXT,
                    resource_id: TEXTURE_RESOURCE,
                    addr: self.texture,
                    length: TEXTURE_BYTES,
                },
            ),
            Phase::Submit3d => {
                let (len, buffer): (u32, [u32; 512]) = first_submission();
                Some(GpuCommand::Submit3d { ctx_id: RENDER_CONTEXT, len, buffer })
            },
            _ => None,
        }
    }

    /// The command of the transfer loop: copy the whole display from the
    /// framebuffer to the host.
    pub fn transfer(&self) -> (r: GpuCommand)
        ensures
            r.wire() == (GpuCommand::TransferToHost2d {
                r: self.rect(),
                offset: 0,
                resource_id: 1,
            }).wire(),
    {
        GpuCommand::TransferToHost2d {
            r: self.display(),
            offset: 0,
            resource_id: FRAMEBUFFER_RESOURCE,
        }
    }

    /// The command of the flush loop: show the whole display.
    pub fn flush(&self) -> (r: GpuCommand)
        ensures
            r.wire() == (GpuCommand::ResourceFlush { r: self.rect(), resource_id: 1 }).wire(),
    {
        GpuCommand::ResourceFlush { r: self.display(), resource_id: FRAMEBUFFER_RESOURCE }
    }

    /// Where the framebuffer that applications draw to lies and how many
    /// pixels wide and high it is, once the driver has reserved it.
    pub fn retarget(&self) -> (r: Option<(u64, usize, usize)>)
        ensures
            r is Some <==> !(self.phase == Phase::Start || self.phase == Phase::DisplayInfo
                || self.phase is CapsetInfo || self.phase == Phase::Edid || self.phase
                == Phase::Create2d || self.phase == Phase::AllocFramebuffer),
            r is Some ==> r->0 == (self.framebuffer, 1600usize, 900usize),
    {
        match self.phase {
            Phase::Start | Phase::DisplayInfo | Phase::CapsetInfo(_) | Phase::Edid
            | Phase::Create2d | Phase::AllocFramebuffer => None,
            _ => Some((self.framebuffer, DISPLAY_WIDTH as usize, DISPLAY_HEIGHT as usize)),
        }
    }
}

/// Moves the driver on by one event and says what to do next. When the
/// event is the one that the driver is waiting for, the driver enters
/// its next phase, and the action is the request or the reservation
/// that belongs to that phase. Otherwise the driver stays as it is and
/// there is nothing to do.
pub fn drive(driver: &mut GpuDriver, event: GpuEvent) -> (action: GpuAction)
    ensures
        *final(driver) == old(driver).after(event),
        final(driver).phase == old(driver).phase ==> action is Wait,
        final(driver).phase != old(driver).phase ==> match action {
            GpuAction::Request(cmd) => final(driver).sends() == Some(cmd.wire()),
            GpuAction::Allocate(pages) => final(driver).sends() is None && final(driver).reserves()
                == Some(pages as nat),
            GpuAction::Wait => final(driver).sends() is None && final(driver).reserves() is None,
        },
{
    let phase: Phase = match (driver.phase, event) {
        (Phase::Start, GpuEvent::Begin) => Phase::DisplayInfo,
        (Phase::DisplayInfo, GpuEvent::Reply(info)) => {
            driver.origin_x = info.rect.x;
            driver.origin_y = info.rect.y;
            if driver.num_capsets > 0 {
                Phase::CapsetInfo(0)
            } else {
                Phase::Edid
            }
        },
        (Phase::CapsetInfo(i), GpuEvent::Reply(_)) => if i < driver.num_capsets && i + 1
            < driver.num_capsets {
            Phase::CapsetInfo(i + 1)
        } else {
            Phase::Edid
        },
        (Phase::Edid, GpuEvent::Reply(_)) => Phase::Create2d,
        (Phase::Create2d, GpuEvent::Reply(_)) => Phase::AllocFramebuffer,
        (Phase::AllocFramebuffer, GpuEvent::Allocated(addr)) => {
            driver.framebuffer = addr;
            Phase::AttachBacking
        },
        (Phase::AttachBacking, GpuEvent::Reply(_)) => Phase::SetScanout,
        (Phase::SetScanout, GpuEvent::Reply(_)) => Phase::FirstTransfer,
        (Phase::FirstTransfer, GpuEvent::Reply(_)) => Phase::FirstFlush,
        (Phase::FirstFlush, GpuEvent::Reply(_)) => Phase::CtxCreate,
        (Phase::CtxCreate, GpuEvent::Reply(_)) => Phase::Create3d,
        (Phase::Create3d, GpuEvent::Reply(_)) => Phase::CtxAttach,
        (Phase::CtxAttach, GpuEvent::Reply(_)) => Phase::AllocTexture,
        (Phase::AllocTexture, GpuEvent::Allocated(addr)) => {
            driver.texture = addr;
            Phase::AttachTexture
        },
        (Phase::AttachTexture, GpuEvent::Reply(_)) => Phase::Submit3d,
        (Phase::Submit3d, GpuEvent::Reply(_)) => Phase::Steady,
        (phase, _) => phase,
    };
    if phase == driver.phase {
        return GpuAction::Wait;
    }
    driver.phase = phase;
    match driver.command() {
        Some(cmd) => GpuAction::Request(cmd),
        None => match phase {
            Phase::AllocFramebuffer => GpuAction::Allocate(pages_needed(FRAMEBUFFER_BYTES as usize)),
            Phase::AllocTexture => GpuAction::Allocate(pages_needed(TEXTURE_BYTES as usize)),
            _ => GpuAction::Wait,
        },
    }
}

/// What taking the finished replies from a queue came to.
pub struct Pumped {
    /// The tasks to wake, in the order of their replies.
    pub woken: Vec<u64>,
    /// Number of replies whose id has no slot in the table of waiters.
    pub out_of_range: usize,
}

/// The table of waiters, the tasks to wake, and the number of replies
/// without a slot, after the first `n` replies that follow the one at
/// ring index `last` have been taken, oldest first. Each reply marks the
/// slot of its id as done, and wakes the task that waited in the slot,
/// if one did. A reply whose id has no slot is only counted.
pub open spec fn pumped(
    slots: Seq<IdWaker>,
    q: crate::virtio::QueueState,
    last: u16,
    n: nat,
) -> (Seq<IdWaker>, Seq<u64>, nat)
    decreases n,
{
    if n == 0 {
        (slots, Seq::empty(), 0)
    } else {
        let (before, woken, strays) = pumped(slots, q, last, (n - 1) as nat);
        let id = q.used_at(last, n - 1).id as int;
        if id < 256 {
            (
                before.update(id, IdWaker::Done),
                match before[id] {
                    IdWaker::Waker(task) => woken.push(task),
                    _ => woken,
                },
                strays,
            )
        } else {
            (before, woken, strays + 1)
        }
    }
}

/// No more replies are without a slot than were taken.
pub proof fn lemma_pumped_strays(
    slots: Seq<IdWaker>,
    q: crate::virtio::QueueState,
    last: u16,
    n: nat,
)
    ensures
        pumped(slots, q, last, n).2 <= n,
    decreases n,
{
    if n > 0 {
        lemma_pumped_strays(slots, q, last, (n - 1) as nat);
    }
}

/// Takes every reply that the device has finished on the selected queue,
/// oldest first, marks the slot of each in the table of waiters as
/// done, and returns the tasks to wake, in that order, and the number of
/// replies whose id has no slot in the table. Nothing of the device
/// record changes but the ring index of the reply last taken.
pub fn pump(virtio: &mut Virtio, table: &mut WaitTable) -> (r: Pumped)
    requires
        old(virtio).wf(),
    ensures
        final(virtio).wf(),
        final(virtio).same_elsewhere(old(virtio)),
        final(virtio).queues == old(virtio).queues,
        final(virtio).queues_free == old(virtio).queues_free,
        final(virtio).queue()@.pending(final(virtio).last_used()) == 0,
        final(virtio).last_used() == (old(virtio).last_used() + old(virtio).queue()@.pending(
            old(virtio).last_used(),
        )) % 0x1_0000,
        (final(table).slots@, r.woken@, r.out_of_range as nat) == pumped(
            old(table).slots@,
            old(virtio).queue()@,
            old(virtio).last_used(),
            old(virtio).queue()@.pending(old(virtio).last_used()) as nat,
        ),
{
    let mut woken: Vec<u64> = Vec::new();
    let mut out_of_range: usize = 0;
    let ghost mut taken: nat = 0;
    loop
        invariant
            virtio.wf(),
            virtio.same_elsewhere(old(virtio)),
            virtio.queues == old(virtio).queues,
            virtio.queues_free == old(virtio).queues_free,
            taken + virtio.queue()@.pending(virtio.last_used()) == old(virtio).queue()@.pending(
                old(virtio).last_used(),
            ),
            virtio.last_used() == (old(virtio).last_used() + taken) % 0x1_0000,
            (table.slots@, woken@, out_of_range as nat) == pumped(
                old(table).slots@,
                old(virtio).queue()@,
                old(virtio).last_used(),
                taken,
            ),
        decreases virtio.queue()@.pending(virtio.last_used()),
    {
        proof {
            lemma_pumped_strays(
                old(table).slots@,
                old(virtio).queue()@,
                old(virtio).last_used(),
                taken,
            );
        }
        match virtio.next_used() {
            None => {
                return Pumped { woken, out_of_range };
            },
            Some(used) => {
                proof {
                    assert(used == old(virtio).queue()@.used_at(
                        old(virtio).last_used(),
                        taken as int,
                    ));
                }
                if used.id < 256 {
                    match table.wake(used.id as usize) {
                        Some(task) => {
                            woken.push(task);
                        },
                        None => {},
                    }
                } else {
                    out_of_range += 1;
                }
                proof {
                    taken = taken + 1;
                }
            },
        }
    }
}

} // verus!
