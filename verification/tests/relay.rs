use adwaita_bridge::frame::FrameDescriptor;
use adwaita_bridge::registry::ViewRegistry;
use adwaita_bridge::slot::FrameSlot;
use adwaita_bridge::window::AdwaitaWindow;
use adwaita_bridge::window::CameraTarget;
use adwaita_bridge::window::PollOutcome;

fn descriptor(width: u32, height: u32, fd: i32, view: u64) -> FrameDescriptor {
    FrameDescriptor { width, height, memory_fd: fd, texture_view: view }
}

#[test]
fn latest_store_wins() {
    let mut slot = FrameSlot::new();
    slot.store(descriptor(1, 1, 3, 7));
    slot.store(descriptor(2, 2, 4, 8));
    slot.store(descriptor(3, 3, 5, 9));
    assert_eq!(slot.take(), Some(descriptor(3, 3, 5, 9)));
}

#[test]
fn take_on_empty_reports_empty() {
    let mut slot = FrameSlot::new();
    assert_eq!(slot.take(), None);
    assert_eq!(slot.take(), None);
    slot.store(descriptor(1, 1, 3, 7));
    assert_eq!(slot.take(), Some(descriptor(1, 1, 3, 7)));
    assert_eq!(slot.take(), None);
}

#[test]
fn repeated_size_reports_export_once() {
    let mut views = ViewRegistry::new();
    let mut window = AdwaitaWindow::open(&mut views);
    let mut exports: u32 = 0;

    for _ in 0..3 {
        match window.poll(false, 800, 600, 1) {
            PollOutcome::Resize(extent) => {
                assert_eq!((extent.width, extent.height), (800, 600));
                exports += 1;
                window.install_frame(&mut views, 11, 21);
            }
            PollOutcome::Unchanged => {}
            other => panic!("unexpected poll outcome {other:?}"),
        }
    }
    assert_eq!(exports, 1);

    // A genuinely new pixel size exports again; repeating it does not.
    assert_eq!(
        window.poll(false, 800, 600, 2),
        PollOutcome::Resize(adwaita_bridge::frame::Extent2 { width: 1600, height: 1200 })
    );
    assert_eq!(window.poll(false, 800, 600, 2), PollOutcome::Unchanged);
}

#[test]
fn one_pass_delivers_frame_exactly_once() {
    let mut views = ViewRegistry::new();
    let mut window = AdwaitaWindow::open(&mut views);

    let outcome = window.poll(false, 640, 480, 1);
    match outcome {
        PollOutcome::Resize(extent) => {
            assert_eq!((extent.width, extent.height), (640, 480));
        }
        other => panic!("unexpected poll outcome {other:?}"),
    }
    let frame = window.install_frame(&mut views, 5, 9);
    assert_eq!(frame, descriptor(640, 480, 5, 9));

    window.extract_next_frame();
    window.send_frame();
    window.put_back_next_frame_if_not_sent();

    assert_eq!(window.take_shared_frame(), Some(frame));
    assert_eq!(window.take_shared_frame(), None);
}

#[test]
fn unsent_frame_is_put_back_not_lost() {
    let mut views = ViewRegistry::new();
    let mut window = AdwaitaWindow::open(&mut views);

    assert!(matches!(window.poll(false, 320, 200, 1), PollOutcome::Resize(_)));
    let frame = window.install_frame(&mut views, 6, 10);

    // The pass carries the frame into extraction but the send phase is
    // skipped; reconciliation must put it back for the next pass.
    window.extract_next_frame();
    window.put_back_next_frame_if_not_sent();
    assert_eq!(window.take_shared_frame(), None);

    window.extract_next_frame();
    window.send_frame();
    assert_eq!(window.take_shared_frame(), Some(frame));
}

#[test]
fn reconciliation_fabricates_nothing() {
    let mut views = ViewRegistry::new();
    let mut window = AdwaitaWindow::open(&mut views);

    window.extract_next_frame();
    window.send_frame();
    window.put_back_next_frame_if_not_sent();
    assert_eq!(window.take_shared_frame(), None);
}

#[test]
fn closed_window_polls_closed_and_frame_outlives_it() {
    let mut views = ViewRegistry::new();
    let mut window = AdwaitaWindow::open(&mut views);

    assert!(matches!(window.poll(false, 100, 100, 1), PollOutcome::Resize(_)));
    let frame = window.install_frame(&mut views, 7, 11);
    window.extract_next_frame();
    window.send_frame();
    let held = window.take_shared_frame().expect("frame was relayed");

    // The UI thread reports the window closed: the next poll says so and the
    // caller drops the state; the descriptor already handed to the UI side
    // stays usable.
    assert_eq!(window.poll(true, 100, 100, 1), PollOutcome::Closed);
    drop(window);
    assert_eq!(held, frame);
    assert_eq!((held.width, held.height, held.memory_fd, held.texture_view), (100, 100, 7, 11));
}

#[test]
fn sentinel_reports_are_not_ready() {
    let mut views = ViewRegistry::new();
    let mut window = AdwaitaWindow::open(&mut views);
    assert_eq!(window.poll(false, -1, -1, -1), PollOutcome::NotReady);
    assert_eq!(window.poll(false, 640, 480, -1), PollOutcome::NotReady);
    assert_eq!(window.poll(false, -1, 480, 1), PollOutcome::NotReady);
}

#[test]
fn zero_reports_clamp_to_one_pixel() {
    let mut views = ViewRegistry::new();
    let mut window = AdwaitaWindow::open(&mut views);
    match window.poll(false, 0, 0, 1) {
        PollOutcome::Resize(extent) => assert_eq!((extent.width, extent.height), (1, 1)),
        other => panic!("unexpected poll outcome {other:?}"),
    }
    // A zero scale also resolves to the clamped minimum, and is applied once.
    match window.poll(false, 800, 600, 0) {
        PollOutcome::Unchanged => {}
        other => panic!("unexpected poll outcome {other:?}"),
    }
}

#[test]
fn oversized_reports_clamp_to_the_extent_range() {
    let mut views = ViewRegistry::new();
    let mut window = AdwaitaWindow::open(&mut views);
    match window.poll(false, i32::MAX, 2, i32::MAX) {
        PollOutcome::Resize(extent) => {
            // The width would be (2^31 - 1)^2 and saturates; the height,
            // 2 * (2^31 - 1), still fits a u32.
            assert_eq!((extent.width, extent.height), (u32::MAX, 4_294_967_294));
        }
        other => panic!("unexpected poll outcome {other:?}"),
    }
    match window.poll(false, 100, 200, 3) {
        PollOutcome::Resize(extent) => assert_eq!((extent.width, extent.height), (300, 600)),
        other => panic!("unexpected poll outcome {other:?}"),
    }
}

#[test]
fn two_windows_never_collide_on_handles() {
    let mut views = ViewRegistry::new();
    let first = AdwaitaWindow::open(&mut views);
    let second = AdwaitaWindow::open(&mut views);
    assert_ne!(first.render_target_handle(), second.render_target_handle());

    let mut more = Vec::new();
    for _ in 0..32 {
        more.push(AdwaitaWindow::open(&mut views).render_target_handle());
    }
    more.push(first.render_target_handle());
    more.push(second.render_target_handle());
    more.sort_unstable();
    more.dedup();
    assert_eq!(more.len(), 34);
}

#[test]
fn cameras_on_the_primary_window_are_retargeted() {
    let mut views = ViewRegistry::new();
    let window = AdwaitaWindow::open(&mut views);
    let handle = window.render_target_handle();

    assert_eq!(window.render_target(), CameraTarget::TextureView(handle));
    assert_eq!(
        window.retarget_camera(CameraTarget::PrimaryWindow),
        CameraTarget::TextureView(handle)
    );
    assert_eq!(window.retarget_camera(CameraTarget::Window(4)), CameraTarget::Window(4));
    assert_eq!(
        window.retarget_camera(CameraTarget::TextureView(2)),
        CameraTarget::TextureView(2)
    );
}
