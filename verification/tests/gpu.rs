use kernel_core::drivers::virtio_gpu::{
    cmd_clear, cmd_create_surface, cmd_set_framebuffer_state, debug_name, drive, finish,
    first_submission, pages_needed, request, wait_for, GpuAction, GpuCommand, GpuDriver, GpuEvent,
    IdWait, IdWaker, Phase, ReplyInfo, VirglRendererResourceCreateArgs, VirtioGpuCtrlHdr,
    VirtioGpuCtrlType, VirtioGpuRect, WaitTable,
};
use kernel_core::framebuffer::{initial_fill, FB, RGBA};
use kernel_core::pci::{ConfigSpace, Pci};
use kernel_core::task::executor::Poll;
use kernel_core::virtio::{InitStep, UsedElem, Virtio, VirtioPciCommonCfg, Virtqueue};

fn put_u8(dwords: &mut [u32; 64], at: usize, v: u8) {
    let shift = (at % 4) * 8;
    dwords[at / 4] = (dwords[at / 4] & !(0xffu32 << shift)) | ((v as u32) << shift);
}

fn put_cap(dwords: &mut [u32; 64], at: usize, next: u8, kind: u8, offset: u32) {
    put_u8(dwords, at, 0x09);
    put_u8(dwords, at + 1, next);
    put_u8(dwords, at + 3, kind);
    put_u8(dwords, at + 4, 0);
    dwords[(at + 8) / 4] = offset;
    dwords[(at + 12) / 4] = 0x1000;
}

fn gpu_device(size: u16) -> Virtio {
    let mut d = [0u32; 64];
    d[0] = (0x1050u32 << 16) | 0x1af4;
    d[4] = 0xfd00_0000;
    put_u8(&mut d, 0x34, 0x40);
    put_cap(&mut d, 0x40, 0x50, 1, 0);
    put_cap(&mut d, 0x50, 0x70, 2, 0x3000);
    d[0x60 / 4] = 2;
    put_cap(&mut d, 0x70, 0x80, 4, 0x2000);
    put_cap(&mut d, 0x80, 0x00, 5, 0);
    let pci = Pci { bus: 0, slot: 1, func: 0, config: ConfigSpace::new(d) };
    let buffers: Vec<u64> = (0..size as u64).map(|i| 0x20_0000 + 4096 * i).collect();
    let queue = Virtqueue::new(0, 0x1000, &buffers, 0x2000, 0x3000);
    let registers = VirtioPciCommonCfg {
        device_feature_select: 0,
        device_feature: 3,
        driver_feature_select: 0,
        driver_feature: 3,
        msix_config: 0,
        num_queues: 1,
        device_status: 15,
        config_generation: 0,
        queue_select: 0,
        queue_size: size,
        queue_msix_vector: 0,
        queue_enable: 1,
        queue_notify_off: 0,
        queue_desc: 0x1000,
        queue_driver: 0x2000,
        queue_device: 0x3000,
    };
    Virtio::init(&pci, InitStep::Ready, registers, vec![queue]).unwrap()
}

fn header(code: u32, ctx: u32) -> Vec<u8> {
    let mut h = Vec::new();
    h.extend_from_slice(&code.to_le_bytes());
    h.extend_from_slice(&0u32.to_le_bytes());
    h.extend_from_slice(&0u64.to_le_bytes());
    h.extend_from_slice(&ctx.to_le_bytes());
    h.extend_from_slice(&[0, 0, 0, 0]);
    h
}

fn words(ws: &[u32]) -> Vec<u8> {
    ws.iter().flat_map(|w| w.to_le_bytes()).collect()
}

#[test]
fn waker_slot_wakes_once() {
    let mut slot = IdWaker::Waker(9);
    assert_eq!(slot.wake(), Some(9));
    assert_eq!(slot, IdWaker::Done);
    assert_eq!(slot.wake(), None);
    assert_eq!(slot, IdWaker::Done);
    let mut slot = IdWaker::Idle;
    assert_eq!(slot.wake(), None);
    assert_eq!(slot, IdWaker::Done);
}

#[test]
fn wait_registers_then_completes() {
    let mut table = WaitTable::new();
    assert!(table.slots.iter().all(|s| *s == IdWaker::Idle));
    let wait = IdWait::new(5);
    assert_eq!(wait.descriptor(), 5);
    assert_eq!(wait_for(7).descriptor(), 7);
    assert_eq!(wait.poll(&mut table, 42), Poll::Pending);
    assert_eq!(table.slots[5], IdWaker::Waker(42));
    assert_eq!(wait.poll(&mut table, 43), Poll::Pending);
    assert_eq!(table.slots[5], IdWaker::Waker(43));
    assert_eq!(table.wake(5), Some(43));
    assert_eq!(table.slots[5], IdWaker::Done);
    assert_eq!(wait.poll(&mut table, 43), Poll::Ready);
    assert_eq!(table.slots[5], IdWaker::Idle);
    assert!(table.slots.iter().all(|s| *s == IdWaker::Idle));
}

#[test]
fn reply_before_wait_is_not_lost() {
    let mut table = WaitTable::new();
    assert_eq!(table.wake(255), None);
    assert_eq!(table.slots[255], IdWaker::Done);
    assert_eq!(IdWait::new(255).poll(&mut table, 1), Poll::Ready);
    assert_eq!(table.slots[255], IdWaker::Idle);
    assert_eq!(IdWait::new(255).poll(&mut table, 1), Poll::Pending);
}

#[test]
fn control_type_codes() {
    assert_eq!(VirtioGpuCtrlType::VirtioGpuCmdGetDisplayInfo.code(), 0x0100);
    assert_eq!(VirtioGpuCtrlType::VirtioGpuCmdSetScanoutBlob.code(), 0x010d);
    assert_eq!(VirtioGpuCtrlType::VirtioGpuCmdCtxCreate.code(), 0x0200);
    assert_eq!(VirtioGpuCtrlType::VirtioGpuCmdResourceUnmapBlob.code(), 0x0209);
    assert_eq!(VirtioGpuCtrlType::VirtioGpuCmdMoveCursor.code(), 0x0301);
    assert_eq!(VirtioGpuCtrlType::VirtioGpuRespOkNoData.code(), 0x1100);
    assert_eq!(VirtioGpuCtrlType::VirtioGpuRespOkMapInfo.code(), 0x1106);
    assert_eq!(VirtioGpuCtrlType::VirtioGpuRespErrInvalidParameter.code(), 0x1205);
    assert!(VirtioGpuCtrlType::is_ok(0x1100));
    assert!(VirtioGpuCtrlType::is_ok(0x1106));
    assert!(!VirtioGpuCtrlType::is_ok(0x1200));
    assert!(!VirtioGpuCtrlType::is_ok(0x0100));
}

#[test]
fn header_wire_form() {
    let h = VirtioGpuCtrlHdr::default();
    assert_eq!(h.type_, VirtioGpuCtrlType::VirtioGpuCmdGetDisplayInfo);
    assert_eq!((h.flags, h.fence_id, h.ctx_id, h.ring_idx, h.padding), (0, 0, 0, 0, [0, 0, 0]));
    let mut h = VirtioGpuCtrlHdr::of(VirtioGpuCtrlType::VirtioGpuCmdSubmit3d, 1);
    h.flags = 0x0102_0304;
    h.fence_id = 0x1112_1314_1516_1718;
    h.ring_idx = 9;
    h.padding = [7, 8, 9];
    let mut buf = vec![0xee];
    h.encode(&mut buf);
    assert_eq!(
        buf,
        vec![
            0xee, 0x07, 0x02, 0, 0, 4, 3, 2, 1, 0x18, 0x17, 0x16, 0x15, 0x14, 0x13, 0x12, 0x11, 1,
            0, 0, 0, 9, 7, 8, 9
        ]
    );
}

#[test]
fn commands_wire_form() {
    let rect = VirtioGpuRect { x: 1, y: 2, w: 1600, h: 900 };
    assert_eq!(GpuCommand::GetDisplayInfo.encode(), header(0x100, 0));
    assert_eq!(
        GpuCommand::GetCapsetInfo { capset_index: 3 }.encode(),
        [header(0x108, 0), words(&[3, 0])].concat()
    );
    assert_eq!(
        GpuCommand::GetEdid { scanout: 0 }.encode(),
        [header(0x10a, 0), words(&[0, 0])].concat()
    );
    assert_eq!(
        GpuCommand::ResourceCreate2d { resource_id: 1, format: 67, width: 1600, height: 900 }
            .encode(),
        [header(0x101, 0), words(&[1, 67, 1600, 900])].concat()
    );
    assert_eq!(
        GpuCommand::ResourceAttachBacking {
            ctx_id: 1,
            resource_id: 2,
            addr: 0x1122_3344_5566_7788,
            length: 0x4_0000,
        }
        .encode(),
        [header(0x106, 1), words(&[2, 1, 0x5566_7788, 0x1122_3344, 0x4_0000, 0])].concat()
    );
    assert_eq!(
        GpuCommand::SetScanout { r: rect, scanout_id: 0, resource_id: 1 }.encode(),
        [header(0x103, 0), words(&[1, 2, 1600, 900, 0, 1])].concat()
    );
    assert_eq!(
        GpuCommand::TransferToHost2d { r: rect, offset: 0x1_0000_0002, resource_id: 1 }.encode(),
        [header(0x105, 0), words(&[1, 2, 1600, 900, 2, 1, 1, 0])].concat()
    );
    assert_eq!(
        GpuCommand::ResourceFlush { r: rect, resource_id: 1 }.encode(),
        [header(0x104, 0), words(&[1, 2, 1600, 900, 1, 0])].concat()
    );
    assert_eq!(
        GpuCommand::CtxAttachResource { ctx_id: 1, handle: 2 }.encode(),
        [header(0x202, 1), words(&[2, 0])].concat()
    );
    let args = VirglRendererResourceCreateArgs::default();
    assert_eq!(
        GpuCommand::ResourceCreate3d { ctx_id: 1, args }.encode(),
        [header(0x204, 1), words(&[0, 2, 67, 2, 128, 128, 1, 1, 0, 0, 0, 0])].concat()
    );
    let name = debug_name();
    let sent = GpuCommand::CtxCreate { ctx_id: 1, nlen: 6, debug_name: name }.encode();
    assert_eq!(sent.len(), 24 + 8 + 256);
    assert_eq!(sent[..32], [header(0x200, 1), words(&[6, 0])].concat()[..]);
    assert_eq!(sent[32..], words(&name)[..]);
    let (len, buffer) = first_submission();
    let sent = GpuCommand::Submit3d { ctx_id: 1, len, buffer }.encode();
    assert_eq!(sent.len(), 24 + 4 + 2048);
    assert_eq!(sent[..28], [header(0x207, 1), words(&[19])].concat()[..]);
    assert_eq!(sent[28..], words(&buffer)[..]);
}

#[test]
fn context_name_is_debug() {
    let name = debug_name();
    assert_eq!(name[..6], ['D' as u32, 'e' as u32, 'b' as u32, 'u' as u32, 'g' as u32, 0]);
    assert!(name[6..].iter().all(|c| *c == '1' as u32));
}

#[test]
fn render_commands() {
    let mut buf = vec![5];
    cmd_create_surface(&mut buf, 2, 67);
    assert_eq!(buf, vec![5, 0x0005_0801, 2, 2, 67, 0, 0]);
    let mut buf = Vec::new();
    cmd_set_framebuffer_state(&mut buf, &[2, 9]);
    assert_eq!(buf, vec![0x0004_0005, 2, 0, 2, 9]);
    let mut buf = Vec::new();
    cmd_set_framebuffer_state(&mut buf, &[]);
    assert_eq!(buf, vec![0x0002_0005, 0, 0]);
    let mut buf = Vec::new();
    cmd_clear(&mut buf, 0x3fc, [255, 0, 0, 255]);
    assert_eq!(buf, vec![0x0008_0007, 0x3fc, 255, 0, 0, 255, 0, 0, 0]);
    let (len, buffer) = first_submission();
    assert_eq!(len, 19);
    assert_eq!(
        buffer[..19],
        [
            0x0005_0801, 2, 2, 67, 0, 0, 0x0003_0005, 1, 0, 2, 0x0008_0007, 0x3fc, 255, 0, 0, 255,
            0, 0, 0
        ]
    );
    assert!(buffer[19..].iter().all(|w| *w == 0));
}

#[test]
fn default_resource_arguments() {
    assert_eq!(
        VirglRendererResourceCreateArgs::default(),
        VirglRendererResourceCreateArgs {
            handle: 0,
            target: 2,
            format: 67,
            bind: 2,
            width: 128,
            height: 128,
            depth: 1,
            array_size: 1,
            last_level: 0,
            nr_samples: 0,
            flags: 0,
        }
    );
}

#[test]
fn pages_for_buffers() {
    assert_eq!(pages_needed(0), 1);
    assert_eq!(pages_needed(4095), 1);
    assert_eq!(pages_needed(4096), 2);
    assert_eq!(pages_needed(1600 * 900 * 4), 1407);
    assert_eq!(pages_needed(256 * 256 * 4), 65);
}

#[test]
fn reply_decoding() {
    let mut reply = vec![0u8; 4096];
    reply[..4].copy_from_slice(&0x1101u32.to_le_bytes());
    reply[24..40].copy_from_slice(&words(&[3, 4, 1024, 768]));
    assert_eq!(
        ReplyInfo::decode(&reply),
        ReplyInfo { type_code: 0x1101, rect: VirtioGpuRect { x: 3, y: 4, w: 1024, h: 768 } }
    );
}

#[test]
fn gpu_init() {
    let mut virtio = gpu_device(8);
    let mut driver = GpuDriver::new(0);
    let mut fb = FB::new(4, 3);
    let mut round_trips = 0;
    let mut sent_types = Vec::new();
    let mut next_page = 0x4000_0000u64;
    let mut allocations = Vec::new();
    let mut action = drive(&mut driver, GpuEvent::Begin);
    loop {
        match action {
            GpuAction::Request(cmd) => {
                let bytes = cmd.encode();
                assert!(virtio.free_count() >= 2);
                let req = request(&mut virtio, &bytes);
                let q = &mut virtio.queues[0];
                let head = q.driver_ring[(q.driver_idx.wrapping_sub(1) % q.size) as usize];
                assert_eq!(head, req.head);
                let sent = q.buffers[head as usize][..q.descs[head as usize].len as usize].to_vec();
                assert_eq!(sent, bytes);
                sent_types.push(u32::from_le_bytes([sent[0], sent[1], sent[2], sent[3]]));
                let reply = q.descs[head as usize].next;
                assert_eq!(reply, req.next);
                q.buffers[reply as usize][..4].copy_from_slice(&0x1100u32.to_le_bytes());
                let slot = (q.device_idx % q.size) as usize;
                q.device_ring[slot] = UsedElem { id: head as u32, len: 24 };
                q.device_idx = q.device_idx.wrapping_add(1);
                let used = virtio.next_used().unwrap();
                assert_eq!(used.id, req.head as u32);
                finish(&mut virtio, &req);
                let info = ReplyInfo::decode(virtio.read_buffer(req.next));
                assert_eq!(info.type_code, 0x1100);
                round_trips += 1;
                action = drive(&mut driver, GpuEvent::Reply(info));
            }
            GpuAction::Allocate(pages) => {
                allocations.push(pages);
                let addr = next_page;
                next_page += pages as u64 * 4096;
                action = drive(&mut driver, GpuEvent::Allocated(addr));
                if let Some((target, w, h)) = driver.retarget() {
                    if allocations.len() == 1 {
                        assert_eq!((target, w, h), (0x4000_0000, 1600, 900));
                        fb.update(vec![initial_fill(); w * h], w, h);
                    }
                }
            }
            GpuAction::Wait => break,
        }
    }
    assert_eq!(driver.phase, Phase::Steady);
    assert_eq!(round_trips, 12);
    assert_eq!(
        sent_types,
        vec![0x100, 0x10a, 0x101, 0x106, 0x103, 0x105, 0x104, 0x200, 0x204, 0x202, 0x106, 0x207]
    );
    assert_eq!(allocations, vec![1407, 65]);
    assert_eq!(driver.retarget(), Some((0x4000_0000, 1600, 900)));
    assert_eq!(driver.framebuffer, 0x4000_0000);
    assert_eq!(driver.texture, 0x4000_0000 + 1407 * 4096);
    assert_eq!((fb.w, fb.h, fb.pixels.len()), (1600, 900, 1600 * 900));
    assert!(fb.pixels.iter().all(|p| *p == RGBA { r: 100, g: 120, b: 140, a: 125 }));
    assert_eq!(virtio.queues_free[0].free_count(), 8);
    assert_eq!(
        driver.transfer().encode(),
        [header(0x105, 0), words(&[0, 0, 1600, 900, 0, 0, 1, 0])].concat()
    );
    assert_eq!(
        driver.flush().encode(),
        [header(0x104, 0), words(&[0, 0, 1600, 900, 1, 0])].concat()
    );
    assert!(matches!(drive(&mut driver, GpuEvent::Begin), GpuAction::Wait));
    assert_eq!(driver.phase, Phase::Steady);
}

#[test]
fn bring_up_asks_for_every_capset() {
    let mut driver = GpuDriver::new(2);
    assert!(driver.command().is_none());
    assert!(driver.retarget().is_none());
    let info = ReplyInfo { type_code: 0x1101, rect: VirtioGpuRect { x: 5, y: 6, w: 640, h: 480 } };
    assert!(matches!(
        drive(&mut driver, GpuEvent::Begin),
        GpuAction::Request(GpuCommand::GetDisplayInfo)
    ));
    assert!(matches!(
        drive(&mut driver, GpuEvent::Reply(info)),
        GpuAction::Request(GpuCommand::GetCapsetInfo { capset_index: 0 })
    ));
    assert_eq!(driver.display(), VirtioGpuRect { x: 5, y: 6, w: 1600, h: 900 });
    assert!(matches!(
        drive(&mut driver, GpuEvent::Reply(info)),
        GpuAction::Request(GpuCommand::GetCapsetInfo { capset_index: 1 })
    ));
    assert!(matches!(
        drive(&mut driver, GpuEvent::Reply(info)),
        GpuAction::Request(GpuCommand::GetEdid { scanout: 0 })
    ));
    assert!(matches!(
        drive(&mut driver, GpuEvent::Reply(info)),
        GpuAction::Request(GpuCommand::ResourceCreate2d {
            resource_id: 1,
            format: 67,
            width: 1600,
            height: 900
        })
    ));
    assert!(matches!(drive(&mut driver, GpuEvent::Reply(info)), GpuAction::Allocate(1407)));
    assert!(matches!(drive(&mut driver, GpuEvent::Reply(info)), GpuAction::Wait));
    assert!(matches!(drive(&mut driver, GpuEvent::Begin), GpuAction::Wait));
    assert_eq!(driver.phase, Phase::AllocFramebuffer);
    assert_eq!(driver.display(), VirtioGpuRect { x: 5, y: 6, w: 1600, h: 900 });
    assert!(matches!(
        drive(&mut driver, GpuEvent::Allocated(0x7000)),
        GpuAction::Request(GpuCommand::ResourceAttachBacking {
            ctx_id: 0,
            resource_id: 1,
            addr: 0x7000,
            length: 5_760_000
        })
    ));
    assert!(matches!(drive(&mut driver, GpuEvent::Allocated(0x9000)), GpuAction::Wait));
    assert_eq!(driver.framebuffer, 0x7000);
    assert!(matches!(
        drive(&mut driver, GpuEvent::Reply(info)),
        GpuAction::Request(GpuCommand::SetScanout {
            r: VirtioGpuRect { x: 5, y: 6, w: 1600, h: 900 },
            scanout_id: 0,
            resource_id: 1
        })
    ));
}

#[test]
fn failed_replies_do_not_stop_bring_up() {
    let mut driver = GpuDriver::new(0);
    drive(&mut driver, GpuEvent::Begin);
    let error = ReplyInfo { type_code: 0x1200, rect: VirtioGpuRect { x: 0, y: 0, w: 0, h: 0 } };
    assert!(matches!(
        drive(&mut driver, GpuEvent::Reply(error)),
        GpuAction::Request(GpuCommand::GetEdid { scanout: 0 })
    ));
    assert_eq!(driver.phase, Phase::Edid);
}
