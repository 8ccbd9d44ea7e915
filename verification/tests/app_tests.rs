//! Application state: commands, message handlers and event routing.

use peashot::app::App;
use peashot::app::AppKeysState;
use peashot::app::Effect;
use peashot::color::ColorValue;
use peashot::commands::Command;
use peashot::errors::Errors;
use peashot::event::Event;
use peashot::geometry::Direction;
use peashot::geometry::Point;
use peashot::geometry::Rectangle;
use peashot::image_action;
use peashot::key::Key;
use peashot::key::KeyMods;
use peashot::key::KeySequence;
use peashot::key::NamedKey;
use peashot::key_map::KeyMap;
use peashot::key_map::KeymappableCommand;
use peashot::lazy_rect::LazyRectangle;
use peashot::letters;
use peashot::letters::PickCorner;
use peashot::message::Message;
use peashot::popup::Popup;
use peashot::selection::Place;
use peashot::selection::Selection;
use peashot::selection::SelectionKeysState;
use peashot::size_indicator;
use peashot::toggle::Toggle;
use peashot::toggle::ToggleProxy;
use peashot::upload::ImageUploadService;

fn rect(x: i64, y: i64, width: i64, height: i64) -> Rectangle {
    Rectangle { x, y, width, height }
}

fn app_with_selection(r: Rectangle) -> App {
    let mut app = App::new(1920, 1080, None, false, KeyMap::new());
    app.selection = Some(Selection::initial(r, None));
    app
}

#[test]
fn move_left_from_origin_stays_put() {
    // moving a selection with its top-left at the origin further left,
    // by any amount, leaves it exactly where it is
    for amount in [1u32, 5, 100, 10_000, u32::MAX] {
        let mut app = app_with_selection(rect(0, 0, 100, 100));
        let effect = Command::Move { direction: Direction::Left, amount }.handle(&mut app, 1, 0);
        assert_eq!(effect, Effect::Nothing);
        assert_eq!(app.selection.unwrap().rect, rect(0, 0, 100, 100));
    }
}

#[test]
fn move_right_clamps_at_image_edge() {
    let mut app = app_with_selection(rect(1800, 0, 100, 100));
    Command::Move { direction: Direction::Right, amount: 500 }.handle(&mut app, 1, 0);
    assert_eq!(app.selection.unwrap().rect, rect(1820, 0, 100, 100));
}

#[test]
fn move_down_with_count_multiplies_amount() {
    let mut app = app_with_selection(rect(0, 0, 100, 100));
    Command::Move { direction: Direction::Down, amount: 10 }.handle(&mut app, 3, 0);
    assert_eq!(app.selection.unwrap().rect, rect(0, 30, 100, 100));
}

#[test]
fn extend_and_shrink() {
    let mut app = app_with_selection(rect(100, 100, 50, 50));
    Command::Extend { direction: Direction::Right, amount: 30 }.handle(&mut app, 1, 0);
    assert_eq!(app.selection.unwrap().rect, rect(100, 100, 80, 50));

    Command::Extend { direction: Direction::Up, amount: 40 }.handle(&mut app, 1, 0);
    assert_eq!(app.selection.unwrap().rect, rect(100, 60, 80, 90));

    Command::Shrink { direction: Direction::Down, amount: 10 }.handle(&mut app, 1, 0);
    assert_eq!(app.selection.unwrap().rect, rect(100, 60, 80, 80));

    // shrinking by more than the extent stops at zero
    Command::Shrink { direction: Direction::Right, amount: 500 }.handle(&mut app, 1, 0);
    assert_eq!(app.selection.unwrap().rect.width, 0);
}

#[test]
fn goto_places_selection() {
    let mut app = app_with_selection(rect(5, 5, 100, 80));
    Command::Goto { place: Place::Center }.handle(&mut app, 1, 0);
    assert_eq!(app.selection.unwrap().rect, rect(910, 500, 100, 80));

    Command::Goto { place: Place::BottomRight }.handle(&mut app, 1, 0);
    assert_eq!(app.selection.unwrap().rect, rect(1820, 1000, 100, 80));

    Command::Goto { place: Place::TopLeft }.handle(&mut app, 1, 0);
    assert_eq!(app.selection.unwrap().rect, rect(0, 0, 100, 80));
}

#[test]
fn set_width_caps_at_image_edge() {
    let mut app = app_with_selection(rect(1900, 0, 10, 10));
    Command::SetWidth.handle(&mut app, 500, 0);
    assert_eq!(app.selection.unwrap().rect, rect(1900, 0, 20, 10));

    let mut app = app_with_selection(rect(0, 0, 10, 10));
    Command::SetHeight.handle(&mut app, 500, 0);
    assert_eq!(app.selection.unwrap().rect, rect(0, 0, 10, 500));
}

#[test]
fn select_region_resolves_against_image() {
    let mut app = App::new(1920, 1080, None, false, KeyMap::new());
    let region = LazyRectangle::from_str("100x200+10+20").unwrap();
    Command::SelectRegion { selection: region }.handle(&mut app, 1, 0);
    let sel = app.selection.unwrap();
    assert_eq!(sel.rect, rect(10, 20, 100, 200));
    assert!(sel.is_first);
    assert_eq!(app.selections_created, 1);
}

#[test]
fn commands_without_selection_report_error() {
    let mut app = App::new(1920, 1080, None, false, KeyMap::new());
    let effect = Command::Move { direction: Direction::Up, amount: 1 }.handle(&mut app, 1, 7);
    assert_eq!(effect, Effect::Nothing);
    assert_eq!(app.errors.errors.len(), 1);
    assert_eq!(app.errors.errors[0].message, "Nothing is selected.");
    assert_eq!(app.errors.errors[0].timestamp, 7);

    let effect = Command::ImageUpload(image_action::Command::CopyToClipboard)
        .handle(&mut app, 1, 8);
    assert_eq!(effect, Effect::Nothing);
    assert_eq!(app.errors.errors[1].message, "There is no selection to copy");
}

#[test]
fn image_upload_captures_normalized_region() {
    let mut app = app_with_selection(rect(110, 120, -100, -100));
    let effect = Command::ImageUpload(image_action::Command::UploadScreenshot)
        .handle(&mut app, 1, 0);
    assert_eq!(
        effect,
        Effect::CaptureImage {
            action: image_action::Command::UploadScreenshot,
            rect: rect(10, 20, 100, 100),
        }
    );
    assert!(app.is_uploading_image);
}

#[test]
fn popup_and_toggle_commands() {
    let mut app = App::new(100, 100, None, false, KeyMap::new());
    Command::ToggleDebugOverlay.handle(&mut app, 1, 0);
    assert!(app.show_debug_overlay);
    Command::OpenKeybindingsCheatsheet.handle(&mut app, 1, 0);
    assert_eq!(app.popup, Some(Popup::KeyCheatsheet));
    Command::PickTopLeftCorner.handle(&mut app, 1, 0);
    assert!(matches!(app.popup, Some(Popup::Letters(state))
        if state.picking_corner == PickCorner::TopLeft));
    assert_eq!(Command::Exit.handle(&mut app, 1, 0), Effect::ExitApp);
    Command::ClearSelection.handle(&mut app, 1, 0);
    assert!(app.selection.is_none());
}

#[test]
fn move_selection_message_clamps_at_origin() {
    // dragging a selection at the origin further left leaves it at the
    // origin and re-anchors the drag
    let mut app = app_with_selection(rect(0, 0, 100, 100));
    let sel = app.selection.unwrap();
    let msg = peashot::selection::Message::MoveSelection {
        current_cursor_pos: Point::new(100, 200),
        initial_cursor_pos: Point::new(400, 200),
        current_selection: sel,
        initial_rect_pos: Point::new(0, 0),
        speed: peashot::selection::Speed::Regular,
    };
    app.handle_selection_message(msg);
    assert_eq!(app.selection.unwrap().rect, rect(0, 0, 100, 100));
}

#[test]
fn resize_message_slow_speed_divides_and_reanchors() {
    let mut app = app_with_selection(rect(100, 100, 100, 100));
    let msg = peashot::selection::Message::Resize {
        current_cursor_pos: Point::new(240, 100),
        initial_cursor_pos: Point::new(200, 100),
        resize_side: peashot::geometry::SideOrCorner::Side(peashot::geometry::Side::Right),
        initial_rect: rect(100, 100, 100, 100),
        sel_is_some: app.get_selection().unwrap().1,
        speed: peashot::selection::Speed::Slow { has_speed_changed: true },
    };
    app.handle_selection_message(msg);
    let sel = app.selection.unwrap();
    // the 40 px cursor travel resizes by 4 px in slow mode
    assert_eq!(sel.rect, rect(100, 100, 104, 100));
    assert!(matches!(sel.status,
        peashot::selection::SelectionStatus::Resize { initial_rect, .. }
            if initial_rect == rect(100, 100, 104, 100)));
}

#[test]
fn extend_new_selection_message_follows_cursor() {
    let mut app = app_with_selection(rect(10, 10, 0, 0));
    app.handle_selection_message(peashot::selection::Message::ExtendNewSelection(Point::new(
        60, 90,
    )));
    assert_eq!(app.selection.unwrap().rect, rect(10, 10, 50, 80));
}

#[test]
fn size_indicator_keeps_far_edge() {
    let mut app = app_with_selection(rect(100, 100, 50, 50));
    let key = app.get_selection().unwrap().1;
    size_indicator::Message::ResizeVertically { new_height: 80, sel_is_some: key }
        .handle(&mut app);
    assert_eq!(app.selection.unwrap().rect, rect(100, 70, 50, 80));

    let key = app.get_selection().unwrap().1;
    size_indicator::Message::ResizeHorizontally { new_width: 20, sel_is_some: key }
        .handle(&mut app);
    assert_eq!(app.selection.unwrap().rect, rect(130, 70, 20, 80));
}

#[test]
fn letters_pick_sets_corners() {
    let mut app = app_with_selection(rect(100, 100, 200, 200));
    let out = letters::Message::Pick { point: Point::new(50, 60), corner: PickCorner::TopLeft }
        .handle(&mut app);
    assert!(out.is_none());
    assert_eq!(app.selection.unwrap().rect, rect(50, 60, 200, 200));
    assert!(app.popup.is_none());

    let out = letters::Message::Pick {
        point: Point::new(500, 700),
        corner: PickCorner::BottomRight,
    }
    .handle(&mut app);
    assert!(out.is_none());
    assert_eq!(app.selection.unwrap().rect, rect(50, 60, 450, 640));
}

#[test]
fn letters_pick_dispatches_accept_on_first_selection() {
    let mut app = App::new(1920, 1080, Some(image_action::Command::SaveScreenshot), false,
        KeyMap::new());
    let out = letters::Message::Pick {
        point: Point::new(300, 400),
        corner: PickCorner::BottomRight,
    }
    .handle(&mut app);
    assert_eq!(
        out,
        Some(Command::ImageUpload(image_action::Command::SaveScreenshot))
    );
}

#[test]
fn update_dispatches_messages() {
    let mut app = App::new(100, 100, None, false, KeyMap::new());
    assert_eq!(app.update(Message::Exit, 0), Effect::ExitApp);
    app.popup = Some(Popup::KeyCheatsheet);
    assert_eq!(app.update(Message::ClosePopup, 0), Effect::Nothing);
    assert!(app.popup.is_none());
    assert_eq!(app.update(Message::NoOp, 0), Effect::Nothing);
    app.update(Message::Error("boom".to_string()), 5);
    assert_eq!(app.errors.errors[0].message, "boom");
}

fn binding(text: &str, mods: &str, command: Command) -> KeymappableCommand {
    KeymappableCommand {
        command,
        keys: KeySequence::parse(text).unwrap(),
        mods: KeyMods::parse(mods).unwrap(),
    }
}

#[test]
fn keymap_lookup_later_binding_wins() {
    let mut map = KeyMap::new();
    map.insert(binding("x", "", Command::Exit));
    map.insert(binding("x", "", Command::NoOp));
    assert_eq!(
        map.get(Key::Character('x'), None, KeyMods::parse("").unwrap()),
        Some(Command::NoOp)
    );
    assert_eq!(
        map.get(Key::Character('y'), None, KeyMods::parse("").unwrap()),
        None
    );
}

#[test]
fn keymap_resolve_prefers_two_key_chord_and_masks_shift() {
    let mut map = KeyMap::new();
    map.insert(binding("gg", "", Command::Goto { place: Place::TopLeft }));
    map.insert(binding("g", "", Command::NoOp));
    let g = Key::Character('g');
    let shift = KeyMods { shift: true, ..KeyMods::parse("").unwrap() };

    // with a previous g, the chord gg wins; shift is ignored for
    // ordinary keys
    assert_eq!(
        map.resolve(Some(g), g, g, shift),
        Some(Command::Goto { place: Place::TopLeft })
    );
    // with no previous key, the single-key binding is found
    assert_eq!(map.resolve(None, g, g, shift), Some(Command::NoOp));

    // for arrow keys, shift stays significant
    let up = Key::Named(NamedKey::ArrowUp);
    let mut arrows = KeyMap::new();
    arrows.insert(binding("<up>", "shift", Command::Exit));
    assert_eq!(arrows.resolve(None, up, up, shift), Some(Command::Exit));
    assert_eq!(arrows.resolve(None, up, up, KeyMods::parse("").unwrap()), None);
    // the same binding on an ordinary key would never fire without
    // shift in the comparison
    let mut plain = KeyMap::new();
    plain.insert(binding("x", "shift", Command::Exit));
    assert_eq!(
        plain.resolve(None, Key::Character('x'), Key::Character('x'), shift),
        None
    );
}

#[test]
fn process_event_routes_keybindings_with_count() {
    let mut map = KeyMap::new();
    map.insert(binding("j", "", Command::Move { direction: Direction::Down, amount: 1 }));
    let app = App::new(1920, 1080, None, false, map);
    let mut keys_state = AppKeysState::default();
    let mut sel_state = SelectionKeysState::default();

    let digit = Event::KeyPressed {
        key: Key::Character('2'),
        modified_key: Key::Character('2'),
        mods: KeyMods::parse("").unwrap(),
    };
    assert!(app.process_event(&mut keys_state, &mut sel_state, &digit, None).is_none());
    assert_eq!(keys_state.motion_count, Some(2));

    let digit5 = Event::KeyPressed {
        key: Key::Character('5'),
        modified_key: Key::Character('5'),
        mods: KeyMods::parse("").unwrap(),
    };
    assert!(app.process_event(&mut keys_state, &mut sel_state, &digit5, None).is_none());
    assert_eq!(keys_state.motion_count, Some(25));

    let j = Event::KeyPressed {
        key: Key::Character('j'),
        modified_key: Key::Character('j'),
        mods: KeyMods::parse("").unwrap(),
    };
    let out = app.process_event(&mut keys_state, &mut sel_state, &j, None);
    assert_eq!(
        out,
        Some(Message::Command {
            action: Command::Move { direction: Direction::Down, amount: 1 },
            count: 25,
        })
    );
    assert_eq!(keys_state.motion_count, None);
    assert_eq!(keys_state.last_key_pressed, None);
}

#[test]
fn process_event_popup_blocks_everything_but_escape() {
    let mut app = App::new(100, 100, None, false, KeyMap::new());
    app.popup = Some(Popup::KeyCheatsheet);
    let mut keys_state = AppKeysState::default();
    let mut sel_state = SelectionKeysState::default();
    let esc = Event::KeyPressed {
        key: Key::Named(NamedKey::Escape),
        modified_key: Key::Named(NamedKey::Escape),
        mods: KeyMods::parse("").unwrap(),
    };
    assert_eq!(
        app.process_event(&mut keys_state, &mut sel_state, &esc, None),
        Some(Message::ClosePopup)
    );
    let other = Event::PointerPressed { button: peashot::event::PointerButton::Left };
    assert!(app.process_event(&mut keys_state, &mut sel_state, &other, None).is_none());
    assert!(!keys_state.is_left_down);
}

#[test]
fn process_event_creates_selection_when_none() {
    let app = App::new(1920, 1080, None, false, KeyMap::new());
    let mut keys_state = AppKeysState::default();
    let mut sel_state = SelectionKeysState::default();
    let press = Event::PointerPressed { button: peashot::event::PointerButton::Left };
    let out = app.process_event(
        &mut keys_state,
        &mut sel_state,
        &press,
        Some(Point::new(40, 50)),
    );
    assert_eq!(
        out,
        Some(Message::Selection(peashot::selection::Message::CreateSelection(Point::new(
            40, 50
        ))))
    );
    assert!(keys_state.is_left_down);
}

#[test]
fn errors_store_and_expire() {
    let mut errors = Errors::new();
    errors.push("first".to_string(), 1000);
    errors.push("second".to_string(), 2000);
    assert_eq!(errors.errors.len(), 2);
    assert!(errors.is_visible(0, 1000));
    assert!(errors.is_visible(0, 4999));
    assert!(!errors.is_visible(0, 5000));
    assert!(!errors.is_visible(1, 500));
}

#[test]
fn error_message_new_keeps_fields() {
    let m = peashot::errors::ErrorMessage::new("oops".to_string(), 42);
    assert_eq!(m.message, "oops");
    assert_eq!(m.timestamp, 42);
}

#[test]
fn toggle_round_trip() {
    let on = ToggleProxy { raw: "on".to_string() };
    let off = ToggleProxy { raw: "off".to_string() };
    let bad = ToggleProxy { raw: "maybe".to_string() };
    assert_eq!(Toggle::from_proxy(&on), Ok(Toggle::On));
    assert_eq!(Toggle::from_proxy(&off), Ok(Toggle::Off));
    assert_eq!(Toggle::from_proxy(&bad), Err("invalid value".to_string()));
    assert_eq!(Toggle::On.to_proxy().raw, "on");
    assert_eq!(Toggle::Off.to_proxy().raw, "off");
}

#[test]
fn upload_service_constants() {
    assert_eq!(ImageUploadService::Litterbox.expires_in(), "3 days");
    assert_eq!(ImageUploadService::Catbox.expires_in(), "2 weeks");
    assert_eq!(ImageUploadService::TheNullPointer.expires_in(), "30 days");
    assert_eq!(ImageUploadService::Uguu.expires_in(), "3 hours");
    assert_eq!(ImageUploadService::TheNullPointer.post_url(), "https://0x0.st");
    assert_eq!(ImageUploadService::Uguu.post_url(), "https://uguu.se/upload");
    assert_eq!(
        ImageUploadService::Catbox.post_url(),
        "https://catbox.moe/user/api.php"
    );
    assert_eq!(
        ImageUploadService::Litterbox.post_url(),
        "https://litterbox.catbox.moe/resources/internals/api.php"
    );
}

#[test]
fn image_action_into_key_action() {
    assert_eq!(
        image_action::Command::CopyToClipboard.into_key_action(),
        Command::ImageUpload(image_action::Command::CopyToClipboard)
    );
    assert_eq!(
        image_action::Command::SaveScreenshot.into_key_action(),
        Command::ImageUpload(image_action::Command::SaveScreenshot)
    );
    assert_eq!(
        image_action::Command::UploadScreenshot.into_key_action(),
        Command::ImageUpload(image_action::Command::UploadScreenshot)
    );
}

#[test]
fn color_values() {
    assert_eq!(ColorValue::Hex(0xff0000).as_hex(), Some(0xff0000));
    assert_eq!(ColorValue::Palette("accent".to_string()).as_hex(), None);
}
