use bi_turbo::cmd_queue::{command_type_for, join_args, CommandType};
use bi_turbo::event::{Event, EventCategory, EventDispatcher};
use bi_turbo::util::{copy_vec, sort_indices, str_eq, vec_remove_multiple};

#[test]
fn remove_multiple_keeps_the_rest_in_order() {
    let mut v = vec![10, 20, 30, 40, 50];
    let mut indices: Vec<usize> = vec![3, 0];
    vec_remove_multiple(&mut v, &mut indices);
    assert_eq!(v, vec![20, 30, 50]);
    // The index list comes back sorted.
    assert_eq!(indices, vec![0, 3]);
}

#[test]
fn remove_multiple_edge_cases() {
    // No indices: nothing changes.
    let mut v = vec![1, 2, 3];
    let mut none: Vec<usize> = Vec::new();
    vec_remove_multiple(&mut v, &mut none);
    assert_eq!(v, vec![1, 2, 3]);
    // All indices: everything goes.
    let mut v = vec![1, 2, 3];
    let mut all: Vec<usize> = vec![2, 0, 1];
    vec_remove_multiple(&mut v, &mut all);
    assert_eq!(v, Vec::<i32>::new());
    assert_eq!(all, vec![0, 1, 2]);
}

#[test]
fn sort_indices_orders_ascending() {
    let mut v: Vec<usize> = vec![5, 1, 4, 1, 3];
    sort_indices(&mut v);
    assert_eq!(v, vec![1, 1, 3, 4, 5]);
}

#[test]
fn string_equality_is_exact() {
    assert!(str_eq("VK_KHR_swapchain", "VK_KHR_swapchain"));
    assert!(!str_eq("VK_KHR_swapchain", "VK_KHR_swapchained"));
    assert!(!str_eq("vert", "frag"));
    assert!(str_eq("", ""));
}

#[test]
fn copy_vec_duplicates_contents() {
    let v = vec![3u32, 1, 4];
    assert_eq!(copy_vec(&v), v);
}

#[test]
fn event_category_flags_are_exact() {
    assert_eq!(Event::WindowClose.get_category_flags(), 1);
    assert_eq!(Event::WindowResize(800, 600).get_category_flags(), 1);
    assert_eq!(Event::KeyPressed(32, 0).get_category_flags(), 6);
    assert_eq!(Event::KeyReleased(32).get_category_flags(), 6);
    assert_eq!(Event::MouseButtonPressed(0).get_category_flags(), 26);
    assert_eq!(Event::MouseMoved(10, 20).get_category_flags(), 10);
    assert_eq!(Event::MouseScrolled(0, -1).get_category_flags(), 10);
    assert_eq!(Event::WindowMoved.get_category_flags(), 0);
    assert_eq!(Event::Handled.get_category_flags(), 0);
}

#[test]
fn event_category_membership() {
    assert!(Event::KeyPressed(65, 0).is_in_category(EventCategory::Keyboard));
    assert!(Event::KeyPressed(65, 0).is_in_category(EventCategory::Input));
    assert!(!Event::KeyPressed(65, 0).is_in_category(EventCategory::Mouse));
    assert!(Event::MouseButtonPressed(1).is_in_category(EventCategory::MouseButton));
    assert!(!Event::WindowClose.is_in_category(EventCategory::Input));
    assert!(!Event::Handled.is_in_category(EventCategory::Application));
}

#[test]
fn dispatcher_hands_the_event_out_once() {
    let mut d = EventDispatcher::new(Event::WindowResize(640, 480));
    assert!(!d.is_handled());
    let first = d.dispatch();
    assert!(matches!(first, Some(Event::WindowResize(640, 480))));
    assert!(d.is_handled());
    assert!(d.dispatch().is_none());
}

#[test]
fn command_words_classify_exactly() {
    assert_eq!(command_type_for("close"), CommandType::Close);
    assert_eq!(command_type_for("exit"), CommandType::Close);
    assert_eq!(command_type_for("help"), CommandType::Other);
    assert_eq!(command_type_for(""), CommandType::Other);
}

#[test]
fn argument_joining_uses_single_spaces() {
    let args = vec![
        String::from("get"),
        String::from("-from_server"),
        String::from("127.0.0.1:7878"),
        String::from("shaders/a.vert"),
    ];
    assert_eq!(join_args(&args, 1), "-from_server 127.0.0.1:7878 shaders/a.vert");
    assert_eq!(join_args(&args, 3), "shaders/a.vert");
    assert_eq!(join_args(&args, 4), "");
}
