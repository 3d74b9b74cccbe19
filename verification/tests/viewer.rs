use xcbshow::event::{Event, InteractDevice, InteractKind, Mouse, RawEvent};
use xcbshow::pixels::FillOp;
use xcbshow::viewer::{BackendCall, MockBackend, XcbShow};

#[test]
fn construction_creates_window_then_image() {
    let viewer = XcbShow::new(MockBackend::new(), 4, 2);
    assert_eq!(viewer.width(), 4);
    assert_eq!(viewer.height(), 2);
    assert_eq!(viewer.pixels().as_slice(), &[0u32; 8]);
    let backend = viewer.teardown();
    let log = backend.log();
    assert!(matches!(log[0], BackendCall::CreateWindow { width: 4, height: 2 }));
    assert!(matches!(log[1], BackendCall::CreateImage { width: 4, height: 2, .. }));
}

#[test]
fn teardown_destroys_image_strictly_before_window_exactly_once() {
    let mut backend = MockBackend::new();
    backend.queue_event(RawEvent { kind: 1, width: 0, height: 0, x: 0, y: 0, state: 0, detail: 0 });
    let mut viewer = XcbShow::new(backend, 3, 3);
    viewer.resize_image(5, 2);
    viewer.modify_image(FillOp { color: 7 });
    viewer.show_image();
    let _ = viewer.events();
    let backend = viewer.teardown();
    let log = backend.log();

    let image_destroys: Vec<usize> = log
        .iter()
        .enumerate()
        .filter(|(_, c)| matches!(c, BackendCall::DestroyImage { .. }))
        .map(|(i, _)| i)
        .collect();
    let window_destroys: Vec<usize> = log
        .iter()
        .enumerate()
        .filter(|(_, c)| matches!(c, BackendCall::DestroyWindow { .. }))
        .map(|(i, _)| i)
        .collect();
    assert_eq!(image_destroys.len(), 1);
    assert_eq!(window_destroys.len(), 1);
    assert!(image_destroys[0] < window_destroys[0]);
    assert_eq!(window_destroys[0], log.len() - 1);
}

#[test]
fn teardown_destroys_the_resources_it_created() {
    let viewer = XcbShow::new(MockBackend::new(), 1, 1);
    let backend = viewer.teardown();
    let log = backend.log();
    assert_eq!(log.len(), 4);
    let image = match log[1] {
        BackendCall::CreateImage { window, .. } => {
            assert!(matches!(log[0], BackendCall::CreateWindow { .. }));
            window
        }
        _ => panic!("expected a create-image call"),
    };
    // The image is bound to the window the backend handed out first; the
    // destroy calls must name the created handles.
    match (&log[2], &log[3]) {
        (BackendCall::DestroyImage { .. }, BackendCall::DestroyWindow { window }) => {
            assert_eq!(*window, image);
        }
        other => panic!("unexpected teardown calls: {:?}", other),
    }
}

#[test]
fn resize_delegates_to_backend_and_clears_the_buffer() {
    let mut viewer = XcbShow::new(MockBackend::new(), 2, 2);
    viewer.modify_image(FillOp { color: 0xffffffff });
    viewer.resize_image(3, 2);
    assert_eq!(viewer.width(), 3);
    assert_eq!(viewer.height(), 2);
    assert_eq!(viewer.pixels().as_slice(), &[0u32; 6]);
    let backend = viewer.teardown();
    let log = backend.log();
    assert!(matches!(log[2], BackendCall::ResizeImage { width: 3, height: 2, .. }));
}

#[test]
fn show_image_blits_through_the_backend() {
    let mut viewer = XcbShow::new(MockBackend::new(), 2, 2);
    viewer.show_image();
    let backend = viewer.teardown();
    let log = backend.log();
    assert!(matches!(log[2], BackendCall::ShowImage { .. }));
}

#[test]
fn modify_image_applies_the_operation_to_every_pixel() {
    let mut viewer = XcbShow::new(MockBackend::new(), 4, 3);
    viewer.modify_image(FillOp { color: 0x112233 });
    assert_eq!(viewer.pixels().as_slice(), &[0x112233u32; 12]);
    // The backend is not involved in a pixel pass.
    let backend = viewer.teardown();
    assert_eq!(backend.log().len(), 4);
}

#[test]
fn events_translates_what_the_backend_delivers() {
    let mut backend = MockBackend::new();
    backend.queue_event(RawEvent { kind: 3, width: 0, height: 0, x: 10, y: 20, state: 256, detail: 0 });
    backend.queue_event(RawEvent { kind: 6, width: 0, height: 0, x: 0, y: 0, state: 9, detail: 65 });
    backend.queue_event(RawEvent { kind: 2, width: 640, height: 480, x: 0, y: 0, state: 0, detail: 0 });
    let mut viewer = XcbShow::new(backend, 2, 2);

    let ev = viewer.events();
    assert!(matches!(
        ev,
        Event::Interact(InteractKind::Move { state: InteractDevice::Mouse(Mouse::Left), pos: (10, 20) })
    ));
    let ev = viewer.events();
    assert!(matches!(
        ev,
        Event::Interact(InteractKind::KeyPress { state: InteractDevice::KeyBoard(9), key: 65 })
    ));
    let ev = viewer.events();
    assert!(matches!(ev, Event::Expose { width: 640, height: 480 }));
    // The queue is exhausted: the mock serves a kind-zero record, a no-op.
    let ev = viewer.events();
    assert!(matches!(ev, Event::Noop));

    let backend = viewer.teardown();
    let waits = backend
        .log()
        .iter()
        .filter(|c| matches!(c, BackendCall::WaitForEvent { .. }))
        .count();
    assert_eq!(waits, 4);
}
