use sub_window_manager::commands::{Command, NodeId, Payload, Point, StackChildPosition, Target};
use sub_window_manager::decoration::{MouseEvent, SubWindow, SubWindowTitlebar};
use sub_window_manager::manager::SubWindowManagerId;
use sub_window_manager::proxy::SubWindowConfig;

fn id(raw: u64) -> NodeId {
    NodeId { raw }
}

#[test]
fn untitled_window_raises_on_press() {
    let config = SubWindowConfig::new();
    let mut deco = SubWindow::new(&config, SubWindowManagerId(id(1)), id(10));
    assert!(deco.titlebar.is_none());
    assert_eq!(deco.border_width, 0);
    let mut out: Vec<Command<u64>> = Vec::new();
    deco.event(MouseEvent::Down { pos: Point { x: 1, y: 1 }, window_pos: Point { x: 1, y: 1 } }, false, &mut out);
    assert_eq!(out.len(), 1);
    assert_eq!(out[0].target, Target::Widget(id(1)));
    assert!(matches!(out[0].payload, Payload::RaiseWindow(h) if h == id(10)));
    deco.event(MouseEvent::Move { window_pos: Point { x: 9, y: 9 } }, false, &mut out);
    deco.event(MouseEvent::Up { window_pos: Point { x: 9, y: 9 } }, false, &mut out);
    assert_eq!(out.len(), 1);
}

#[test]
fn press_raises_titled_window() {
    let config = SubWindowConfig::new().title("T".to_string());
    let mut deco = SubWindow::new(&config, SubWindowManagerId(id(1)), id(10));
    assert_eq!(deco.title, Some("T".to_string()));
    let mut out: Vec<Command<u64>> = Vec::new();
    deco.event(MouseEvent::Down { pos: Point { x: 1, y: 1 }, window_pos: Point { x: 1, y: 1 } }, true, &mut out);
    assert_eq!(out.len(), 1);
    assert_eq!(out[0].target, Target::Widget(id(1)));
    assert!(matches!(out[0].payload, Payload::RaiseWindow(h) if h == id(10)));
}

#[test]
fn moves_without_press_do_not_drag() {
    let mut bar = SubWindowTitlebar::new(SubWindowManagerId(id(1)), id(10));
    let mut out: Vec<Command<u64>> = Vec::new();
    bar.event(MouseEvent::Move { window_pos: Point { x: 30, y: 30 } }, &mut out);
    assert!(out.is_empty());
    bar.event(MouseEvent::Down { pos: Point { x: 4, y: 2 }, window_pos: Point { x: 30, y: 30 } }, &mut out);
    bar.event(MouseEvent::Move { window_pos: Point { x: 40, y: 20 } }, &mut out);
    assert_eq!(out.len(), 1);
    match &mut out[0].payload {
        Payload::MoveWindow(p) => assert_eq!(p.take(), Some((id(10), Point { x: 36, y: 18 }))),
        _ => panic!("expected a move"),
    }
    bar.event(MouseEvent::Up { window_pos: Point { x: 40, y: 20 } }, &mut out);
    bar.event(MouseEvent::Move { window_pos: Point { x: 50, y: 20 } }, &mut out);
    assert_eq!(out.len(), 1);
}

#[test]
fn drag_outside_coordinate_range_is_dropped() {
    let mut bar = SubWindowTitlebar::new(SubWindowManagerId(id(1)), id(10));
    let mut out: Vec<Command<u64>> = Vec::new();
    bar.event(MouseEvent::Down { pos: Point { x: 1, y: 0 }, window_pos: Point { x: 0, y: 0 } }, &mut out);
    bar.event(MouseEvent::Move { window_pos: Point { x: i32::MIN, y: 0 } }, &mut out);
    assert!(out.is_empty());
}

#[test]
fn close_button_bubbles_up() {
    let config = SubWindowConfig::new().title("T".to_string());
    let deco = SubWindow::new(&config, SubWindowManagerId(id(1)), id(10));
    let mut out: Vec<Command<u64>> = Vec::new();
    deco.close_clicked(&mut out);
    assert_eq!(out[0].target, Target::Auto);
    match &mut out[0].payload {
        Payload::CloseWindow(p) => {
            assert!(!p.is_taken());
            assert_eq!(p.take(), Some(None));
            assert!(p.is_taken());
            assert_eq!(p.take(), None);
        }
        _ => panic!("expected a close notification"),
    }
}

#[test]
fn config_builders_keep_other_fields() {
    let c = SubWindowConfig::new()
        .modal(true)
        .title("x".to_string())
        .position(StackChildPosition::at(3, 4));
    assert!(c.modal);
    assert_eq!(c.title, Some("x".to_string()));
    assert_eq!(c.position, StackChildPosition::Fixed { top: Some(3), left: Some(4), right: None, bottom: None });
}

#[test]
fn press_on_body_raises_without_dragging() {
    let config = SubWindowConfig::new().title("T".to_string());
    let mut deco = SubWindow::new(&config, SubWindowManagerId(id(1)), id(10));
    let mut out: Vec<Command<u64>> = Vec::new();
    deco.event(MouseEvent::Down { pos: Point { x: 9, y: 40 }, window_pos: Point { x: 9, y: 40 } }, false, &mut out);
    assert_eq!(out.len(), 1);
    deco.event(MouseEvent::Move { window_pos: Point { x: 30, y: 60 } }, false, &mut out);
    assert_eq!(out.len(), 1);
    assert!(!deco.titlebar.as_ref().unwrap().drag);
}
