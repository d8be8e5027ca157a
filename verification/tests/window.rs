use bi_turbo::device::{choose_memory_location, MemoryLocation};
use bi_turbo::event::Event;
use bi_turbo::render_pass::{image_aspect_for_format, ImageAspect};
use bi_turbo::swapchain::Format;
use bi_turbo::window::{KeyAction, RawWindowEvent, Window, KEY_ESCAPE};

#[test]
fn events_translate_in_order() {
    let mut w = Window::new(1080, 720, String::from("BiTurbo x Chronlicle"));
    let out = w.poll_events(vec![
        RawWindowEvent::Key(65, KeyAction::Press),
        RawWindowEvent::Key(65, KeyAction::Repeat),
        RawWindowEvent::Key(65, KeyAction::Release),
        RawWindowEvent::MouseButton(1, KeyAction::Press),
        RawWindowEvent::MouseButton(1, KeyAction::Release),
        RawWindowEvent::Scroll(0, -2),
        RawWindowEvent::CursorPos(10, 20),
        RawWindowEvent::Close,
    ]);
    assert!(matches!(out[0], Event::KeyPressed(65, 0)));
    assert!(matches!(out[1], Event::KeyPressed(65, 1)));
    assert!(matches!(out[2], Event::KeyReleased(65)));
    assert!(matches!(out[3], Event::MouseButtonPressed(1)));
    assert!(matches!(out[4], Event::MouseButtonReleased(1)));
    assert!(matches!(out[5], Event::MouseScrolled(0, -2)));
    assert!(matches!(out[6], Event::MouseMoved(10, 20)));
    assert!(matches!(out[7], Event::WindowClose));
    assert_eq!(out.len(), 8);
    assert!(!w.should_close());
    assert!(!w.resized);
}

#[test]
fn size_events_resize_the_window() {
    let mut w = Window::new(1080, 720, String::from("main"));
    let out = w.poll_events(vec![
        RawWindowEvent::Size(640, 480),
        RawWindowEvent::Size(800, 600),
    ]);
    assert!(matches!(out[0], Event::WindowResize(640, 480)));
    assert!(matches!(out[1], Event::WindowResize(800, 600)));
    assert_eq!((w.width, w.height), (800, 600));
    assert!(w.resized);
}

#[test]
fn escape_press_requests_close_without_an_event() {
    let mut w = Window::new(100, 100, String::from("main"));
    let out = w.poll_events(vec![RawWindowEvent::Key(KEY_ESCAPE, KeyAction::Press)]);
    assert!(out.is_empty());
    assert!(w.should_close());
    // Releasing escape is an ordinary key event.
    let out = w.poll_events(vec![RawWindowEvent::Key(KEY_ESCAPE, KeyAction::Release)]);
    assert_eq!(out.len(), 1);
    assert!(matches!(out[0], Event::KeyReleased(k) if k == KEY_ESCAPE));
}

#[test]
fn dropped_files_carry_their_paths() {
    let mut w = Window::new(100, 100, String::from("main"));
    let out = w.poll_events(vec![RawWindowEvent::FileDrop(vec![
        String::from("assets/a.vert"),
        String::from("assets/a.frag"),
    ])]);
    match &out[0] {
        Event::FileDropped(paths) => {
            assert_eq!(paths, &vec![String::from("assets/a.vert"), String::from("assets/a.frag")]);
        }
        other => panic!("unexpected event {other:?}"),
    }
}

#[test]
fn memory_location_follows_device_local_bit() {
    assert_eq!(choose_memory_location(0x1), MemoryLocation::GpuOnly);
    assert_eq!(choose_memory_location(0x3), MemoryLocation::GpuOnly);
    assert_eq!(choose_memory_location(0x6), MemoryLocation::CpuToGpu);
}

#[test]
fn depth_formats_expose_the_depth_aspect() {
    assert_eq!(image_aspect_for_format(Format::D32Sfloat), ImageAspect::Depth);
    assert_eq!(image_aspect_for_format(Format::D32SfloatS8Uint), ImageAspect::Depth);
    assert_eq!(image_aspect_for_format(Format::D24UnormS8Uint), ImageAspect::Depth);
    assert_eq!(image_aspect_for_format(Format::B8G8R8A8Srgb), ImageAspect::Color);
    assert_eq!(image_aspect_for_format(Format::Other(44)), ImageAspect::Color);
}
