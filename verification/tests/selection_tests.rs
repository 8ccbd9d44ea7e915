//! The selection state machine: interpreting pointer and keyboard
//! events.

use peashot::event::Event;
use peashot::event::PointerButton;
use peashot::geometry::Corner;
use peashot::geometry::Point;
use peashot::geometry::Rectangle;
use peashot::geometry::SideOrCorner;
use peashot::image_action;
use peashot::message::Message;
use peashot::selection::Selection;
use peashot::selection::SelectionKeysState;
use peashot::selection::SelectionStatus;
use peashot::selection::Speed;

fn rect(x: i64, y: i64, width: i64, height: i64) -> Rectangle {
    Rectangle { x, y, width, height }
}

fn idle_selection(r: Rectangle) -> Selection {
    Selection::initial(r, None)
}

fn left_press() -> Event {
    Event::PointerPressed { button: PointerButton::Left }
}

#[test]
fn left_press_outside_creates_selection() {
    let sel = idle_selection(rect(100, 100, 200, 150));
    let mut state = SelectionKeysState::default();
    let cursor = Some(Point::new(700, 700));
    let out = sel.update(&mut state, &left_press(), cursor);
    assert!(state.is_left_down);
    match out {
        Some(Message::Selection(peashot::selection::Message::CreateSelection(p))) => {
            assert_eq!(p, Point::new(700, 700));
        }
        other => panic!("expected a create message, got {:?}", other),
    }
}

#[test]
fn left_press_inside_starts_move() {
    let sel = idle_selection(rect(100, 100, 200, 150));
    let mut state = SelectionKeysState::default();
    let cursor = Some(Point::new(200, 170));
    let out = sel.update(&mut state, &left_press(), cursor);
    match out {
        Some(Message::Selection(peashot::selection::Message::UpdateStatus(status, _))) => {
            match status {
                SelectionStatus::Move { initial_rect_pos, initial_cursor_pos } => {
                    assert_eq!(initial_rect_pos, Point::new(100, 100));
                    assert_eq!(initial_cursor_pos, Point::new(200, 170));
                }
                other => panic!("expected a move status, got {:?}", other),
            }
        }
        other => panic!("expected a status update, got {:?}", other),
    }
}

#[test]
fn left_press_on_corner_starts_resize() {
    let sel = idle_selection(rect(100, 100, 200, 150));
    let mut state = SelectionKeysState::default();
    let cursor = Some(Point::new(100, 100));
    let out = sel.update(&mut state, &left_press(), cursor);
    match out {
        Some(Message::Selection(peashot::selection::Message::UpdateStatus(status, _))) => {
            match status {
                SelectionStatus::Resize { initial_rect, initial_cursor_pos, resize_side } => {
                    assert_eq!(initial_rect, rect(100, 100, 200, 150));
                    assert_eq!(initial_cursor_pos, Point::new(100, 100));
                    assert_eq!(resize_side, SideOrCorner::Corner(Corner::TopLeft));
                }
                other => panic!("expected a resize status, got {:?}", other),
            }
        }
        other => panic!("expected a status update, got {:?}", other),
    }
}

#[test]
fn left_release_dispatches_accept_on_first_selection() {
    let mut sel = idle_selection(rect(0, 0, 50, 50));
    sel.accept_on_select = Some(image_action::Command::CopyToClipboard);
    let mut state = SelectionKeysState::default();
    let out = sel.update(
        &mut state,
        &Event::PointerReleased { button: PointerButton::Left },
        None,
    );
    assert!(!state.is_left_down);
    match out {
        Some(Message::Command { action, count }) => {
            assert_eq!(
                action,
                peashot::commands::Command::ImageUpload(image_action::Command::CopyToClipboard)
            );
            assert_eq!(count, 1);
        }
        other => panic!("expected a command, got {:?}", other),
    }
}

#[test]
fn left_release_with_ctrl_held_goes_idle() {
    let mut sel = idle_selection(rect(0, 0, 50, 50));
    sel.accept_on_select = Some(image_action::Command::CopyToClipboard);
    let mut state = SelectionKeysState { is_ctrl_down: true, ..Default::default() };
    let out = sel.update(
        &mut state,
        &Event::PointerReleased { button: PointerButton::Left },
        None,
    );
    assert!(matches!(
        out,
        Some(Message::Selection(peashot::selection::Message::EnterIdle))
    ));
}

#[test]
fn pointer_move_while_creating_extends() {
    let sel = idle_selection(rect(10, 10, 0, 0)).with_status(SelectionStatus::Create);
    let mut state = SelectionKeysState::default();
    let out = sel.update(
        &mut state,
        &Event::PointerMoved { position: Point::new(60, 90) },
        Some(Point::new(60, 90)),
    );
    assert!(matches!(
        out,
        Some(Message::Selection(peashot::selection::Message::ExtendNewSelection(p)))
            if p == Point::new(60, 90)
    ));
}

#[test]
fn pointer_move_while_resizing_reports_resize() {
    let status = SelectionStatus::Resize {
        initial_rect: rect(10, 10, 100, 100),
        initial_cursor_pos: Point::new(10, 10),
        resize_side: SideOrCorner::Corner(Corner::TopLeft),
    };
    let sel = idle_selection(rect(10, 10, 100, 100)).with_status(status);
    let mut state = SelectionKeysState::default();
    let out = sel.update(
        &mut state,
        &Event::PointerMoved { position: Point::new(5, 7) },
        Some(Point::new(5, 7)),
    );
    match out {
        Some(Message::Selection(peashot::selection::Message::Resize {
            current_cursor_pos,
            initial_cursor_pos,
            resize_side,
            initial_rect,
            speed,
            ..
        })) => {
            assert_eq!(current_cursor_pos, Point::new(5, 7));
            assert_eq!(initial_cursor_pos, Point::new(10, 10));
            assert_eq!(resize_side, SideOrCorner::Corner(Corner::TopLeft));
            assert_eq!(initial_rect, rect(10, 10, 100, 100));
            assert_eq!(speed, Speed::Regular);
        }
        other => panic!("expected a resize message, got {:?}", other),
    }
}

#[test]
fn right_press_snaps_nearest_corner() {
    let sel = idle_selection(rect(100, 100, 200, 150));
    let mut state = SelectionKeysState::default();
    let out = sel.update(
        &mut state,
        &Event::PointerPressed { button: PointerButton::Right },
        Some(Point::new(310, 260)),
    );
    assert!(state.is_right_down);
    match out {
        Some(Message::Selection(peashot::selection::Message::ResizeToCursor {
            cursor_pos,
            selection,
            ..
        })) => {
            assert_eq!(cursor_pos, Point::new(310, 260));
            assert_eq!(selection.rect, rect(100, 100, 200, 150));
        }
        other => panic!("expected a snap message, got {:?}", other),
    }
}

#[test]
fn speed_divisor_values() {
    assert_eq!(Speed::Regular.divisor(), 1);
    assert_eq!(Speed::Slow { has_speed_changed: false }.divisor(), 10);
    assert_eq!(Speed::Slow { has_speed_changed: true }.divisor(), 10);
}

#[test]
fn selection_constructors_and_norm() {
    let s = Selection::new(Point::new(5, 6), true, None);
    assert_eq!(s.rect, rect(5, 6, 0, 0));
    assert!(s.is_first);

    let denorm = idle_selection(rect(50, 60, -40, -50));
    let n = denorm.norm();
    assert_eq!(n.rect, rect(10, 10, 40, 50));

    let inside = idle_selection(rect(0, 0, 100, 100));
    assert!(inside.cursor_in_selection(Some(Point::new(50, 50))).is_some());
    assert!(inside.cursor_in_selection(Some(Point::new(150, 50))).is_none());
    assert!(inside.cursor_in_selection(None).is_none());
}

#[test]
fn status_predicates() {
    assert!(SelectionStatus::Idle.is_idle());
    assert!(SelectionStatus::Create.is_create());
    let mv = SelectionStatus::Move {
        initial_rect_pos: Point::new(0, 0),
        initial_cursor_pos: Point::new(0, 0),
    };
    assert!(mv.is_move());
    let rs = SelectionStatus::Resize {
        initial_rect: rect(0, 0, 1, 1),
        initial_cursor_pos: Point::new(0, 0),
        resize_side: SideOrCorner::Corner(Corner::TopLeft),
    };
    assert!(rs.is_resize());
}
