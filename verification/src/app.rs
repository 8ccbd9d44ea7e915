//! The application state and everything that mutates it: commands,
//! selection messages, and raw input events.
//!
//! The state is toolkit-neutral: the image is present only as its pixel
//! bounds, time enters as a millisecond stamp, and whatever must happen
//! outside (capturing, exiting) is handed back as an [`Effect`].

use vstd::prelude::*;

use crate::commands::Command;
use crate::errors::Errors;
use crate::event::{Event, PointerButton};
use crate::geometry::{
    clamp_int, max_int, min_int, Direction, in_range, Point, PointV, Rectangle, RectV,
    SideOrCorner, MAX_COORD,
};
use crate::key::{Key, NamedKey};
use crate::key_map::KeyMap;
use crate::letters::{LettersState, PickCorner};
use crate::message::Message;
use crate::popup::Popup;
use crate::selection::{
    Selection, SelectionIsSome, SelectionKeysState, SelectionStatus, Speed,
};

verus! {

/// What the surrounding program must do after a state change.
#[derive(Clone, Copy, Debug, PartialEq, Eq, Structural)]
pub enum Effect {
    /// Nothing; keep running.
    Nothing,
    /// Close the application.
    ExitApp,
    /// Capture the image region and perform the action on it.
    CaptureImage {
        /// What to do with the captured region.
        action: crate::image_action::Command,
        /// The region, normalized.
        rect: Rectangle,
    },
}

/// Keyboard state the event router keeps between key presses.
#[derive(Clone, Copy, Debug, Default, PartialEq, Eq, Structural)]
pub struct AppKeysState {
    /// The left button is held.
    pub is_left_down: bool,
    /// Digits typed so far, multiplying the next motion.
    pub motion_count: Option<u32>,
    /// The last key pressed, remembered for two-key chords.
    pub last_key_pressed: Option<Key>,
}

/// The application state the selection engine works on.
pub struct App {
    /// The current selection, if one exists.
    pub selection: Option<Selection>,
    /// How many selections were created in this session.
    pub selections_created: u64,
    /// Errors to show to the user.
    pub errors: Errors,
    /// Width of the captured image, in pixels.
    pub image_width: i64,
    /// Height of the captured image, in pixels.
    pub image_height: i64,
    /// The action to dispatch as soon as the first selection is
    /// released, when one is configured.
    pub accept_on_select: Option<crate::image_action::Command>,
    /// The debug overlay is shown.
    pub show_debug_overlay: bool,
    /// The currently open popup, if any.
    pub popup: Option<Popup>,
    /// An image upload is in flight.
    pub is_uploading_image: bool,
    /// The keybinding table.
    pub keys: KeyMap,
}

/// The point's coordinates are within twice the library range; every
/// cursor point carried in a message satisfies this.
pub open spec fn pt_ok(p: Point) -> bool {
    -(2 * MAX_COORD as int) <= p.x as int <= 2 * MAX_COORD as int && -(2 * MAX_COORD as int)
        <= p.y as int <= 2 * MAX_COORD as int
}

/// The rectangle's fields are within four times the library range;
/// every rectangle carried in a message satisfies this.
pub open spec fn rect_ok(r: Rectangle) -> bool {
    &&& -(4 * MAX_COORD as int) <= r.x as int <= 4 * MAX_COORD as int
    &&& -(4 * MAX_COORD as int) <= r.y as int <= 4 * MAX_COORD as int
    &&& -(4 * MAX_COORD as int) <= r.width as int <= 4 * MAX_COORD as int
    &&& -(4 * MAX_COORD as int) <= r.height as int <= 4 * MAX_COORD as int
}

/// The bounds a selection status must keep for the handlers to accept
/// it.
pub open spec fn status_ok(st: SelectionStatus) -> bool {
    match st {
        SelectionStatus::Resize { initial_rect, initial_cursor_pos, .. } => rect_ok(initial_rect)
            && pt_ok(initial_cursor_pos),
        SelectionStatus::Move { initial_rect_pos, initial_cursor_pos } => pt_ok(initial_rect_pos)
            && pt_ok(initial_cursor_pos),
        SelectionStatus::Create => true,
        SelectionStatus::Idle => true,
    }
}

/// The bounds a selection message must keep for the handlers to accept
/// it; every message the event interpreter builds from a well-formed
/// application state keeps them.
pub open spec fn msg_ok(m: crate::selection::Message) -> bool {
    match m {
        crate::selection::Message::Resize {
            current_cursor_pos,
            initial_cursor_pos,
            initial_rect,
            ..
        } => pt_ok(current_cursor_pos) && pt_ok(initial_cursor_pos) && rect_ok(initial_rect),
        crate::selection::Message::UpdateStatus(st, _) => status_ok(st),
        crate::selection::Message::CreateSelection(p) => p.wf(),
        crate::selection::Message::MoveSelection {
            current_cursor_pos,
            initial_cursor_pos,
            current_selection,
            initial_rect_pos,
            ..
        } => pt_ok(current_cursor_pos) && pt_ok(initial_cursor_pos) && pt_ok(initial_rect_pos)
            && pt_ok(Point { x: current_selection.rect.x, y: current_selection.rect.y }) && pt_ok(
            Point { x: current_selection.rect.width, y: current_selection.rect.height },
        ) && status_ok(current_selection.status),
        crate::selection::Message::EnterIdle => true,
        crate::selection::Message::ExtendNewSelection(p) => pt_ok(p),
        crate::selection::Message::ResizeToCursor { cursor_pos, selection, .. } => pt_ok(
            cursor_pos,
        ) && -(2 * MAX_COORD as int) <= selection.rect.x as int <= 2 * MAX_COORD as int && -(2
            * MAX_COORD as int) <= selection.rect.y as int <= 2 * MAX_COORD as int && -(2
            * MAX_COORD as int) <= selection.rect.width as int <= 2 * MAX_COORD as int && -(2
            * MAX_COORD as int) <= selection.rect.height as int <= 2 * MAX_COORD as int,
    }
}

impl App {
    /// The invariant the handlers keep: image bounds are non-negative
    /// and in range, the selection rectangle is in range, and the
    /// interaction status is within its bounds.
    pub open spec fn wf(self) -> bool {
        &&& 0 <= self.image_width as int <= MAX_COORD as int
        &&& 0 <= self.image_height as int <= MAX_COORD as int
        &&& match self.selection {
            Some(s) => s.rect.wf() && status_ok(s.status),
            None => true,
        }
    }

    /// A fresh application state over an image of the given pixel
    /// bounds, with no selection and no popup.
    pub fn new(
        image_width: i64,
        image_height: i64,
        accept_on_select: Option<crate::image_action::Command>,
        show_debug_overlay: bool,
        keys: KeyMap,
    ) -> (r: App)
        requires
            0 <= image_width <= MAX_COORD,
            0 <= image_height <= MAX_COORD,
        ensures
            r.wf(),
            r.selection is None,
            r.selections_created == 0,
            r.image_width == image_width,
            r.image_height == image_height,
            r.accept_on_select == accept_on_select,
            r.show_debug_overlay == show_debug_overlay,
            r.popup is None,
            !r.is_uploading_image,
            r.keys == keys,
    {
        App {
            selection: None,
            selections_created: 0,
            errors: Errors::new(),
            image_width,
            image_height,
            accept_on_select,
            show_debug_overlay,
            popup: None,
            is_uploading_image: false,
            keys,
        }
    }

    /// The image bounds as a rectangle anchored at the origin.
    pub fn image_bounds(&self) -> (r: Rectangle)
        ensures
            r@ == (RectV {
                x: 0,
                y: 0,
                w: self.image_width as int,
                h: self.image_height as int,
            }),
    {
        Rectangle { x: 0, y: 0, width: self.image_width, height: self.image_height }
    }

    /// The current selection together with a witness that it exists.
    pub fn get_selection(&self) -> (r: Option<(Selection, SelectionIsSome)>)
        ensures
            match self.selection {
                Some(s) => r matches Some((sel, _)) && sel == s,
                None => r is None,
            },
    {
        match self.selection {
            Some(s) => Some((s, SelectionIsSome::new())),
            None => None,
        }
    }
}

/// `v` limited to the library's coordinate range.
pub open spec fn clamp_px(v: int) -> int {
    clamp_int(v, -(MAX_COORD as int), MAX_COORD as int)
}

/// Each field limited to the library's coordinate range.
pub open spec fn clamp_rect_v(r: RectV) -> RectV {
    RectV { x: clamp_px(r.x), y: clamp_px(r.y), w: clamp_px(r.w), h: clamp_px(r.h) }
}

/// `v` limited to the library's coordinate range.
fn clamp_px_exec(v: i64) -> (r: i64)
    ensures
        r as int == clamp_px(v as int),
        in_range(r as int),
{
    if v < -MAX_COORD {
        -MAX_COORD
    } else if v > MAX_COORD {
        MAX_COORD
    } else {
        v
    }
}

/// Each field limited to the library's coordinate range; the identity
/// on every rectangle whose values are in range already.
fn clamp_rect(r: Rectangle) -> (out: Rectangle)
    ensures
        out@ == clamp_rect_v(r@),
        out.wf(),
{
    Rectangle {
        x: clamp_px_exec(r.x),
        y: clamp_px_exec(r.y),
        width: clamp_px_exec(r.width),
        height: clamp_px_exec(r.height),
    }
}

/// `max(v - amount, lo)`, safe for any unsigned amount.
fn sub_clamped(v: i64, amount: u64, lo: i64) -> (r: i64)
    requires
        crate::geometry::loose(v as int),
        crate::geometry::loose(lo as int),
    ensures
        r as int == max_int(v as int - amount as int, lo as int),
{
    let res: i128 = (v as i128) - (amount as i128);
    let lo128: i128 = lo as i128;
    if res >= lo128 {
        res as i64
    } else {
        lo
    }
}

/// `min(v + amount, hi)`, safe for any unsigned amount.
fn add_clamped(v: i64, amount: u64, hi: i64) -> (r: i64)
    requires
        crate::geometry::loose(v as int),
        crate::geometry::loose(hi as int),
    ensures
        r as int == min_int(v as int + amount as int, hi as int),
{
    let res: i128 = (v as i128) + (amount as i128);
    let hi128: i128 = hi as i128;
    if res <= hi128 {
        res as i64
    } else {
        hi
    }
}

/// A normalized rectangle moved by `total` pixels in a direction,
/// clamped so the position stays within `[0, image - extent]`: moving
/// up or left stops at zero, down or right at the far edge.
pub open spec fn spec_move_rect(
    r: RectV,
    direction: Direction,
    total: int,
    imgw: int,
    imgh: int,
) -> RectV {
    match direction {
        Direction::Up => RectV { y: max_int(r.y - total, 0), ..r },
        Direction::Down => RectV { y: min_int(r.y + total, imgh - r.h), ..r },
        Direction::Left => RectV { x: max_int(r.x - total, 0), ..r },
        Direction::Right => RectV { x: min_int(r.x + total, imgw - r.w), ..r },
    }
}

/// A normalized rectangle grown towards a direction by `total` pixels:
/// growing up or left moves the near edge (clamped at zero) and grows
/// the extent up to the fixed far edge; growing down or right grows the
/// extent up to the image edge.
pub open spec fn spec_extend_rect(
    r: RectV,
    direction: Direction,
    total: int,
    imgw: int,
    imgh: int,
) -> RectV {
    match direction {
        Direction::Up => RectV {
            y: max_int(r.y - total, 0),
            h: min_int(r.h + total, r.y + r.h),
            ..r
        },
        Direction::Down => RectV { h: min_int(r.h + total, imgh - r.y), ..r },
        Direction::Left => RectV {
            x: max_int(r.x - total, 0),
            w: min_int(r.w + total, r.x + r.w),
            ..r
        },
        Direction::Right => RectV { w: min_int(r.w + total, imgw - r.x), ..r },
    }
}

/// A normalized rectangle shrunk away from a direction by `total`
/// pixels: the near edge moves inward, never past the far edge, and the
/// extent never drops below zero.
pub open spec fn spec_shrink_rect(r: RectV, direction: Direction, total: int) -> RectV {
    match direction {
        Direction::Up => RectV {
            y: min_int(r.y + total, r.y + r.h),
            h: max_int(r.h - total, 0),
            ..r
        },
        Direction::Down => RectV { h: max_int(r.h - total, 0), ..r },
        Direction::Left => RectV {
            x: min_int(r.x + total, r.x + r.w),
            w: max_int(r.w - total, 0),
            ..r
        },
        Direction::Right => RectV { w: max_int(r.w - total, 0), ..r },
    }
}

/// A rectangle moved to a named place of the image: centered on an
/// axis, or flush against an edge or corner.
pub open spec fn spec_goto_rect(
    r: RectV,
    place: crate::selection::Place,
    imgw: int,
    imgh: int,
) -> RectV {
    let cx = crate::geometry::half_toward_zero(imgw - r.w);
    let cy = crate::geometry::half_toward_zero(imgh - r.h);
    match place {
        crate::selection::Place::Center => RectV { x: cx, y: cy, ..r },
        crate::selection::Place::XCenter => RectV { x: cx, ..r },
        crate::selection::Place::YCenter => RectV { y: cy, ..r },
        crate::selection::Place::TopLeft => RectV { x: 0, y: 0, ..r },
        crate::selection::Place::TopRight => RectV { x: imgw - r.w, y: 0, ..r },
        crate::selection::Place::BottomLeft => RectV { x: 0, y: imgh - r.h, ..r },
        crate::selection::Place::BottomRight => RectV { x: imgw - r.w, y: imgh - r.h, ..r },
        crate::selection::Place::Top => RectV { y: 0, ..r },
        crate::selection::Place::Bottom => RectV { y: imgh - r.h, ..r },
        crate::selection::Place::Left => RectV { x: 0, ..r },
        crate::selection::Place::Right => RectV { x: imgw - r.w, ..r },
    }
}

/// `b` extends `a` by exactly one error message with this text and
/// moment; the earlier messages are untouched.
pub open spec fn errors_extended(
    a: Seq<crate::errors::ErrorMessage>,
    b: Seq<crate::errors::ErrorMessage>,
    text: Seq<char>,
    now: u64,
) -> bool {
    &&& b.len() == a.len() + 1
    &&& b.last().message@ == text
    &&& b.last().timestamp == now
    &&& forall|i: int| 0 <= i < a.len() ==> b[i] == a[i]
}

/// The handler refused for want of a selection: everything is untouched
/// except one new error message with this text.
pub open spec fn reported_no_selection(app0: App, app1: App, text: Seq<char>, now: u64) -> bool {
    &&& app1 == (App { errors: app1.errors, ..app0 })
    &&& errors_extended(app0.errors.errors@, app1.errors.errors@, text, now)
}

/// What applying a command does to the application state, and the
/// effect handed back: the complete transition relation of
/// [`Command::handle`], one case per command. Each case also pins every
/// field the command does not touch.
pub open spec fn spec_command_applied(
    app0: App,
    app1: App,
    cmd: Command,
    count: u32,
    now: u64,
    r: Effect,
) -> bool {
    let imgw = app0.image_width as int;
    let imgh = app0.image_height as int;
    match cmd {
        Command::NoOp => app1 == app0 && r == Effect::Nothing,
        Command::Exit => app1 == app0 && r == Effect::ExitApp,
        Command::ToggleDebugOverlay => app1 == (App {
            show_debug_overlay: !app0.show_debug_overlay,
            ..app0
        }) && r == Effect::Nothing,
        Command::OpenKeybindingsCheatsheet => app1 == (App {
            popup: Some(Popup::KeyCheatsheet),
            ..app0
        }) && r == Effect::Nothing,
        Command::PickTopLeftCorner => app1 == (App {
            popup: Some(Popup::Letters(LettersState { picking_corner: PickCorner::TopLeft })),
            ..app0
        }) && r == Effect::Nothing,
        Command::PickBottomRightCorner => app1 == (App {
            popup: Some(Popup::Letters(LettersState { picking_corner: PickCorner::BottomRight })),
            ..app0
        }) && r == Effect::Nothing,
        Command::ImageUpload(action) => match app0.selection {
            Some(sel) => {
                &&& app1 == (App { is_uploading_image: app1.is_uploading_image, ..app0 })
                &&& app1.is_uploading_image == (action
                    == crate::image_action::Command::UploadScreenshot || app0.is_uploading_image)
                &&& r matches Effect::CaptureImage { action: a, rect } && a == action && rect@
                    == sel.rect@.norm()
            },
            None => r == Effect::Nothing && reported_no_selection(
                app0,
                app1,
                match action {
                    crate::image_action::Command::CopyToClipboard => "There is no selection to copy"@,
                    crate::image_action::Command::UploadScreenshot => "There is no selection to upload"@,
                    crate::image_action::Command::SaveScreenshot => "There is no selection to save"@,
                },
                now,
            ),
        },
        Command::ClearSelection => app1 == (App { selection: None, ..app0 }) && r
            == Effect::Nothing,
        Command::SetWidth => match app0.selection {
            Some(sel) => r == Effect::Nothing && app1 == (App {
                selection: app1.selection,
                ..app0
            }) && (app1.selection matches Some(s) && s.rect@ == clamp_rect_v(
                RectV { w: min_int(count as int, imgw - sel.rect@.norm().x), ..sel.rect@.norm() },
            ) && s.status == sel.status && s.is_first == sel.is_first && s.accept_on_select
                == sel.accept_on_select),
            None => r == Effect::Nothing && reported_no_selection(
                app0,
                app1,
                "Nothing is selected."@,
                now,
            ),
        },
        Command::SetHeight => match app0.selection {
            Some(sel) => r == Effect::Nothing && app1 == (App {
                selection: app1.selection,
                ..app0
            }) && (app1.selection matches Some(s) && s.rect@ == clamp_rect_v(
                RectV { h: min_int(count as int, imgh - sel.rect@.norm().y), ..sel.rect@.norm() },
            ) && s.status == sel.status && s.is_first == sel.is_first && s.accept_on_select
                == sel.accept_on_select),
            None => r == Effect::Nothing && reported_no_selection(
                app0,
                app1,
                "Nothing is selected."@,
                now,
            ),
        },
        Command::SelectRegion { selection } => {
            &&& r == Effect::Nothing
            &&& app1 == (App {
                selection: app1.selection,
                selections_created: app1.selections_created,
                ..app0
            })
            &&& app1.selection matches Some(s) && s.rect@ == selection.spec_init(
                RectV { x: 0, y: 0, w: imgw, h: imgh },
            ) && s.status is Idle && s.is_first == (app0.selections_created == 0)
                && s.accept_on_select == app0.accept_on_select
            &&& app1.selections_created as int == if app0.selections_created < u64::MAX {
                app0.selections_created + 1
            } else {
                app0.selections_created as int
            }
        },
        Command::Move { direction, amount } => match app0.selection {
            Some(sel) => r == Effect::Nothing && app1 == (App {
                selection: app1.selection,
                ..app0
            }) && (app1.selection matches Some(s) && s.rect@ == clamp_rect_v(
                spec_move_rect(
                    sel.rect@.norm(),
                    direction,
                    amount as int * count as int,
                    imgw,
                    imgh,
                ),
            ) && s.status == sel.status && s.is_first == sel.is_first && s.accept_on_select
                == sel.accept_on_select),
            None => r == Effect::Nothing && reported_no_selection(
                app0,
                app1,
                "Nothing is selected."@,
                now,
            ),
        },
        Command::Extend { direction, amount } => match app0.selection {
            Some(sel) => r == Effect::Nothing && app1 == (App {
                selection: app1.selection,
                ..app0
            }) && (app1.selection matches Some(s) && s.rect@ == clamp_rect_v(
                spec_extend_rect(
                    sel.rect@.norm(),
                    direction,
                    amount as int * count as int,
                    imgw,
                    imgh,
                ),
            ) && s.status == sel.status && s.is_first == sel.is_first && s.accept_on_select
                == sel.accept_on_select),
            None => r == Effect::Nothing && reported_no_selection(
                app0,
                app1,
                "Nothing is selected."@,
                now,
            ),
        },
        Command::Shrink { direction, amount } => match app0.selection {
            Some(sel) => r == Effect::Nothing && app1 == (App {
                selection: app1.selection,
                ..app0
            }) && (app1.selection matches Some(s) && s.rect@ == clamp_rect_v(
                spec_shrink_rect(sel.rect@.norm(), direction, amount as int * count as int),
            ) && s.status == sel.status && s.is_first == sel.is_first && s.accept_on_select
                == sel.accept_on_select),
            None => r == Effect::Nothing && reported_no_selection(
                app0,
                app1,
                "Nothing is selected."@,
                now,
            ),
        },
        Command::Goto { place } => match app0.selection {
            Some(sel) => r == Effect::Nothing && app1 == (App {
                selection: app1.selection,
                ..app0
            }) && (app1.selection matches Some(s) && s.rect@ == clamp_rect_v(
                spec_goto_rect(sel.rect@, place, imgw, imgh),
            ) && s.status == sel.status && s.is_first == sel.is_first && s.accept_on_select
                == sel.accept_on_select),
            None => r == Effect::Nothing && reported_no_selection(
                app0,
                app1,
                "Nothing is selected."@,
                now,
            ),
        },
    }
}

impl Command {
    /// Apply this command to the application state, `count` times where
    /// that makes sense; `now` stamps any error message. Returns what
    /// the surrounding program must do. The complete per-command
    /// transition is [`spec_command_applied`].
    pub fn handle(self, app: &mut App, count: u32, now: u64) -> (r: Effect)
        requires
            old(app).wf(),
            self matches Command::SelectRegion { selection } ==> selection.wf(),
        ensures
            final(app).wf(),
            spec_command_applied(*old(app), *final(app), self, count, now, r),
    {
        match self {
            Command::NoOp => Effect::Nothing,
            Command::Exit => Effect::ExitApp,
            Command::ToggleDebugOverlay => {
                app.show_debug_overlay = !app.show_debug_overlay;
                Effect::Nothing
            },
            Command::OpenKeybindingsCheatsheet => {
                app.popup = Some(Popup::KeyCheatsheet);
                Effect::Nothing
            },
            Command::PickTopLeftCorner => {
                app.popup = Some(Popup::Letters(LettersState { picking_corner: PickCorner::TopLeft }));
                Effect::Nothing
            },
            Command::PickBottomRightCorner => {
                app.popup = Some(
                    Popup::Letters(LettersState { picking_corner: PickCorner::BottomRight }),
                );
                Effect::Nothing
            },
            Command::ImageUpload(action) => {
                let sel = match app.selection {
                    Some(sel) => sel,
                    None => {
                        let msg = match action {
                            crate::image_action::Command::CopyToClipboard => "There is no selection to copy",
                            crate::image_action::Command::UploadScreenshot => "There is no selection to upload",
                            crate::image_action::Command::SaveScreenshot => "There is no selection to save",
                        };
                        let mut text = String::new();
                        text.append(msg);
                        assert(text@ =~= msg@);
                        app.errors.push(text, now);
                        return Effect::Nothing;
                    },
                };
                if matches!(action, crate::image_action::Command::UploadScreenshot) {
                    app.is_uploading_image = true;
                }
                Effect::CaptureImage { action, rect: sel.rect.norm() }
            },
            Command::ClearSelection => {
                app.selection = None;
                Effect::Nothing
            },
            Command::SetWidth => {
                let sel = match app.selection {
                    Some(sel) => sel,
                    None => {
                        return nothing_selected(app, now);
                    },
                };
                let sel = sel.norm();
                let new_w = min_i64(count as i64, app.image_width - sel.rect.x);
                app.selection = Some(
                    Selection { rect: clamp_rect(sel.rect.with_width(new_w)), ..sel },
                );
                Effect::Nothing
            },
            Command::SetHeight => {
                let sel = match app.selection {
                    Some(sel) => sel,
                    None => {
                        return nothing_selected(app, now);
                    },
                };
                let sel = sel.norm();
                let new_h = min_i64(count as i64, app.image_height - sel.rect.y);
                app.selection = Some(
                    Selection { rect: clamp_rect(sel.rect.with_height(new_h)), ..sel },
                );
                Effect::Nothing
            },
            Command::SelectRegion { selection } => {
                let rect = selection.init(app.image_bounds());
                app.selection = Some(
                    Selection {
                        rect,
                        status: SelectionStatus::Idle,
                        is_first: app.selections_created == 0,
                        accept_on_select: app.accept_on_select,
                    },
                );
                if app.selections_created < u64::MAX {
                    app.selections_created = app.selections_created + 1;
                }
                Effect::Nothing
            },
            Command::Move { direction, amount } => {
                let sel = match app.selection {
                    Some(sel) => sel,
                    None => {
                        return nothing_selected(app, now);
                    },
                };
                let sel = sel.norm();
                let total: u64 = mul_u32(amount, count);
                let rect = match direction {
                    Direction::Up => sel.rect.with_y(sub_clamped(sel.rect.y, total, 0)),
                    Direction::Down => sel.rect.with_y(
                        add_clamped(sel.rect.y, total, app.image_height - sel.rect.height),
                    ),
                    Direction::Left => sel.rect.with_x(sub_clamped(sel.rect.x, total, 0)),
                    Direction::Right => sel.rect.with_x(
                        add_clamped(sel.rect.x, total, app.image_width - sel.rect.width),
                    ),
                };
                app.selection = Some(Selection { rect: clamp_rect(rect), ..sel });
                Effect::Nothing
            },
            Command::Extend { direction, amount } => {
                let sel = match app.selection {
                    Some(sel) => sel,
                    None => {
                        return nothing_selected(app, now);
                    },
                };
                let sel = sel.norm();
                let total: u64 = mul_u32(amount, count);
                let rect = match direction {
                    Direction::Up => sel
                        .rect
                        .with_y(sub_clamped(sel.rect.y, total, 0))
                        .with_height(
                            add_clamped(sel.rect.height, total, sel.rect.y + sel.rect.height),
                        ),
                    Direction::Down => sel.rect.with_height(
                        add_clamped(sel.rect.height, total, app.image_height - sel.rect.y),
                    ),
                    Direction::Left => sel
                        .rect
                        .with_x(sub_clamped(sel.rect.x, total, 0))
                        .with_width(
                            add_clamped(sel.rect.width, total, sel.rect.x + sel.rect.width),
                        ),
                    Direction::Right => sel.rect.with_width(
                        add_clamped(sel.rect.width, total, app.image_width - sel.rect.x),
                    ),
                };
                app.selection = Some(Selection { rect: clamp_rect(rect), ..sel });
                Effect::Nothing
            },
            Command::Shrink { direction, amount } => {
                let sel = match app.selection {
                    Some(sel) => sel,
                    None => {
                        return nothing_selected(app, now);
                    },
                };
                let sel = sel.norm();
                let total: u64 = mul_u32(amount, count);
                let rect = match direction {
                    Direction::Up => sel
                        .rect
                        .with_y(add_clamped(sel.rect.y, total, sel.rect.y + sel.rect.height))
                        .with_height(sub_clamped(sel.rect.height, total, 0)),
                    Direction::Down => sel.rect.with_height(
                        sub_clamped(sel.rect.height, total, 0),
                    ),
                    Direction::Left => sel
                        .rect
                        .with_x(add_clamped(sel.rect.x, total, sel.rect.x + sel.rect.width))
                        .with_width(sub_clamped(sel.rect.width, total, 0)),
                    Direction::Right => sel.rect.with_width(sub_clamped(sel.rect.width, total, 0)),
                };
                app.selection = Some(Selection { rect: clamp_rect(rect), ..sel });
                Effect::Nothing
            },
            Command::Goto { place } => {
                let sel = match app.selection {
                    Some(sel) => sel,
                    None => {
                        return nothing_selected(app, now);
                    },
                };
                let cx = crate::geometry::half_i64(app.image_width - sel.rect.width);
                let cy = crate::geometry::half_i64(app.image_height - sel.rect.height);
                let rect = match place {
                    crate::selection::Place::Center => sel.rect.with_x(cx).with_y(cy),
                    crate::selection::Place::XCenter => sel.rect.with_x(cx),
                    crate::selection::Place::YCenter => sel.rect.with_y(cy),
                    crate::selection::Place::TopLeft => sel.rect.with_x(0).with_y(0),
                    crate::selection::Place::TopRight => sel
                        .rect
                        .with_x(app.image_width - sel.rect.width)
                        .with_y(0),
                    crate::selection::Place::BottomLeft => sel
                        .rect
                        .with_x(0)
                        .with_y(app.image_height - sel.rect.height),
                    crate::selection::Place::BottomRight => sel
                        .rect
                        .with_x(app.image_width - sel.rect.width)
                        .with_y(app.image_height - sel.rect.height),
                    crate::selection::Place::Top => sel.rect.with_y(0),
                    crate::selection::Place::Bottom => sel.rect.with_y(
                        app.image_height - sel.rect.height,
                    ),
                    crate::selection::Place::Left => sel.rect.with_x(0),
                    crate::selection::Place::Right => sel.rect.with_x(
                        app.image_width - sel.rect.width,
                    ),
                };
                app.selection = Some(Selection { rect: clamp_rect(rect), ..sel });
                Effect::Nothing
            },
        }
    }
}

/// A rectangle with one side or corner dragged by `(dx, dy)`: a side
/// moves only its own edge; a corner moves its two adjacent edges.
pub open spec fn spec_side_resize(side: SideOrCorner, r: RectV, dy: int, dx: int) -> RectV {
    match side {
        SideOrCorner::Side(s) => match s {
            crate::geometry::Side::Top => RectV { y: r.y + dy, h: r.h - dy, ..r },
            crate::geometry::Side::Right => RectV { w: r.w + dx, ..r },
            crate::geometry::Side::Bottom => RectV { h: r.h + dy, ..r },
            crate::geometry::Side::Left => RectV { x: r.x + dx, w: r.w - dx, ..r },
        },
        SideOrCorner::Corner(c) => crate::geometry::spec_resize(c, r, dy, dx),
    }
}

/// The new top-left position of a dragged selection before clamping:
/// the position it had when the drag began, shifted by the scaled
/// cursor displacement.
pub open spec fn spec_drag_pos(
    initial_rect_pos: Point,
    initial_cursor: Point,
    current_cursor: Point,
    speed: Speed,
) -> PointV {
    PointV {
        x: initial_rect_pos.x + crate::selection::scaled_delta(
            current_cursor.x as int,
            initial_cursor.x as int,
            speed,
        ),
        y: initial_rect_pos.y + crate::selection::scaled_delta(
            current_cursor.y as int,
            initial_cursor.y as int,
            speed,
        ),
    }
}

/// A dragged position clamped so the rectangle stays inside the image:
/// each coordinate is limited to `[0, image - extent]`, the upper limit
/// applied first so zero wins when the rectangle is larger than the
/// image.
pub open spec fn spec_clamp_pos(p: PointV, w: int, h: int, imgw: int, imgh: int) -> PointV {
    PointV { x: max_int(min_int(p.x, imgw - w), 0), y: max_int(min_int(p.y, imgh - h), 0) }
}

/// What applying a selection message does to the application state:
/// the complete transition relation of
/// [`App::handle_selection_message`], one case per message. Every field
/// other than the selection and the session counter is untouched, and
/// the counter moves only when a selection is created.
pub open spec fn spec_selection_message_applied(
    app0: App,
    app1: App,
    msg: crate::selection::Message,
) -> bool {
    let imgw = app0.image_width as int;
    let imgh = app0.image_height as int;
    &&& app1 == (App {
        selection: app1.selection,
        selections_created: app1.selections_created,
        ..app0
    })
    &&& app1.selections_created as int == (match msg {
        crate::selection::Message::CreateSelection(_) => if app0.selections_created < u64::MAX {
            app0.selections_created + 1
        } else {
            app0.selections_created as int
        },
        _ => app0.selections_created as int,
    })
    &&& (match msg {
                crate::selection::Message::CreateSelection(p) => {
                    &&& app1.selection matches Some(s) && s.rect@ == (RectV {
                        x: p@.x,
                        y: p@.y,
                        w: 0,
                        h: 0,
                    }) && s.status is Create && s.is_first == (app0.selections_created == 0)
                        && s.accept_on_select == app0.accept_on_select
                },
                crate::selection::Message::UpdateStatus(st, _) => app1.selection
                    matches Some(s) && s.status == st && s.rect
                    == app0.selection.unwrap().rect,
                crate::selection::Message::EnterIdle => match app0.selection {
                    Some(s0) => app1.selection == Some(
                        Selection { status: SelectionStatus::Idle, ..s0 },
                    ),
                    None => app1.selection is None,
                },
                crate::selection::Message::ExtendNewSelection(p) => match app0.selection {
                    Some(s0) => app1.selection matches Some(s) && s.rect@
                        == clamp_rect_v(
                        RectV {
                            w: p@.x - s0.rect@.x,
                            h: p@.y - s0.rect@.y,
                            ..s0.rect@
                        },
                    ) && s.status == s0.status,
                    None => app1.selection is None,
                },
                crate::selection::Message::ResizeToCursor { cursor_pos, selection, .. } => {
                    let corner = selection.rect@.nearest_hit(cursor_pos@);
                    let cp = selection.rect@.corner_point(corner);
                    let resized = crate::geometry::spec_resize(
                        corner,
                        selection.rect@,
                        cursor_pos@.y - cp.y,
                        cursor_pos@.x - cp.x,
                    );
                    app1.selection matches Some(s) && s.rect@ == clamp_rect_v(resized)
                        && (s.status matches SelectionStatus::Resize {
                        initial_rect,
                        initial_cursor_pos,
                        resize_side,
                    } && initial_rect == s.rect && initial_cursor_pos == cursor_pos
                        && resize_side == SideOrCorner::Corner(corner))
                },
                crate::selection::Message::Resize {
                    current_cursor_pos,
                    initial_cursor_pos,
                    resize_side,
                    initial_rect,
                    speed,
                    ..
                } => {
                    let dy = crate::selection::scaled_delta(
                        current_cursor_pos.y as int,
                        initial_cursor_pos.y as int,
                        speed,
                    );
                    let dx = crate::selection::scaled_delta(
                        current_cursor_pos.x as int,
                        initial_cursor_pos.x as int,
                        speed,
                    );
                    app1.selection matches Some(s) && s.rect@ == clamp_rect_v(
                        spec_side_resize(resize_side, initial_rect@, dy, dx),
                    ) && s.status == if speed == (Speed::Slow { has_speed_changed: true }) {
                        SelectionStatus::Resize {
                            initial_rect: s.rect,
                            initial_cursor_pos: current_cursor_pos,
                            resize_side,
                        }
                    } else {
                        app0.selection.unwrap().status
                    }
                },
                crate::selection::Message::MoveSelection {
                    current_cursor_pos,
                    initial_cursor_pos,
                    current_selection,
                    initial_rect_pos,
                    speed,
                } => {
                    let raw = spec_drag_pos(
                        initial_rect_pos,
                        initial_cursor_pos,
                        current_cursor_pos,
                        speed,
                    );
                    let fin = spec_clamp_pos(
                        raw,
                        current_selection.rect.width as int,
                        current_selection.rect.height as int,
                        imgw,
                        imgh,
                    );
                    app1.selection matches Some(s) && s.rect@ == clamp_rect_v(
                        RectV { x: fin.x, y: fin.y, ..current_selection.rect@ },
                    ) && s.status == if speed == (Speed::Slow { has_speed_changed: true }) {
                        SelectionStatus::Move {
                            initial_rect_pos: Point {
                                x: current_selection.rect.x,
                                y: current_selection.rect.y,
                            },
                            initial_cursor_pos: current_cursor_pos,
                        }
                    } else if fin != raw {
                        SelectionStatus::Move {
                            initial_rect_pos: Point { x: s.rect.x, y: s.rect.y },
                            initial_cursor_pos: current_cursor_pos,
                        }
                    } else {
                        current_selection.status
                    }
                },
            })
}

impl App {
    /// Apply a selection message, as produced by
    /// [`Selection::update`](crate::selection::Selection::update), to
    /// the application state.
    pub fn handle_selection_message(&mut self, msg: crate::selection::Message)
        requires
            old(self).wf(),
            msg_ok(msg),
            msg.needs_selection() ==> old(self).selection is Some,
        ensures
            final(self).wf(),
            spec_selection_message_applied(*old(self), *final(self), msg),
    {
        match msg {
            crate::selection::Message::CreateSelection(p) => {
                self.selection = Some(
                    Selection::new(p, self.selections_created == 0, self.accept_on_select)
                        .with_status(SelectionStatus::Create),
                );
                if self.selections_created < u64::MAX {
                    self.selections_created = self.selections_created + 1;
                }
            },
            crate::selection::Message::UpdateStatus(st, _) => {
                let sel = self.selection.unwrap();
                self.selection = Some(Selection { status: st, ..sel });
            },
            crate::selection::Message::EnterIdle => {
                match self.selection {
                    Some(sel) => {
                        self.selection = Some(
                            Selection { status: SelectionStatus::Idle, ..sel },
                        );
                    },
                    None => {},
                }
            },
            crate::selection::Message::ExtendNewSelection(p) => {
                match self.selection {
                    Some(sel) => {
                        let rect = sel
                            .rect
                            .with_width(p.x - sel.rect.x)
                            .with_height(p.y - sel.rect.y);
                        self.selection = Some(Selection { rect: clamp_rect(rect), ..sel });
                    },
                    None => {},
                }
            },
            crate::selection::Message::ResizeToCursor { cursor_pos, selection, .. } => {
                let cs = selection.rect.corners();
                let (corner_point, corner) = cs.nearest_corner(cursor_pos);
                proof {
                    assert(cs.spec_nearest(cursor_pos@) == selection.rect@.nearest_hit(
                        cursor_pos@,
                    ));
                    assert(cs.of(corner) == selection.rect@.corner_point(corner));
                }
                let new_rect = clamp_rect(
                    corner.resize_rect(
                        selection.rect,
                        cursor_pos.y - corner_point.y,
                        cursor_pos.x - corner_point.x,
                    ),
                );
                let sel = self.selection.unwrap();
                self.selection = Some(
                    Selection {
                        rect: new_rect,
                        status: SelectionStatus::Resize {
                            initial_rect: new_rect,
                            initial_cursor_pos: cursor_pos,
                            resize_side: SideOrCorner::Corner(corner),
                        },
                        ..sel
                    },
                );
            },
            crate::selection::Message::Resize {
                current_cursor_pos,
                initial_cursor_pos,
                resize_side,
                initial_rect,
                speed,
                ..
            } => {
                let d = speed.divisor();
                let dy = crate::selection::div_i64_toward_zero(
                    current_cursor_pos.y - initial_cursor_pos.y,
                    d,
                );
                let dx = crate::selection::div_i64_toward_zero(
                    current_cursor_pos.x - initial_cursor_pos.x,
                    d,
                );
                let rect = match resize_side {
                    SideOrCorner::Side(side) => match side {
                        crate::geometry::Side::Top => initial_rect
                            .with_height(initial_rect.height - dy)
                            .with_y(initial_rect.y + dy),
                        crate::geometry::Side::Right => initial_rect.with_width(
                            initial_rect.width + dx,
                        ),
                        crate::geometry::Side::Bottom => initial_rect.with_height(
                            initial_rect.height + dy,
                        ),
                        crate::geometry::Side::Left => initial_rect
                            .with_width(initial_rect.width - dx)
                            .with_x(initial_rect.x + dx),
                    },
                    SideOrCorner::Corner(corner) => corner.resize_rect(initial_rect, dy, dx),
                };
                let new_rect = clamp_rect(rect);
                let sel = self.selection.unwrap();
                let status = if matches!(speed, Speed::Slow { has_speed_changed: true }) {
                    SelectionStatus::Resize {
                        initial_rect: new_rect,
                        initial_cursor_pos: current_cursor_pos,
                        resize_side,
                    }
                } else {
                    sel.status
                };
                self.selection = Some(Selection { rect: new_rect, status, ..sel });
            },
            crate::selection::Message::MoveSelection {
                current_cursor_pos,
                initial_cursor_pos,
                current_selection,
                initial_rect_pos,
                speed,
            } => {
                let d = speed.divisor();
                let ddx = crate::selection::div_i64_toward_zero(
                    current_cursor_pos.x - initial_cursor_pos.x,
                    d,
                );
                let ddy = crate::selection::div_i64_toward_zero(
                    current_cursor_pos.y - initial_cursor_pos.y,
                    d,
                );
                let nx = initial_rect_pos.x + ddx;
                let ny = initial_rect_pos.y + ddy;
                let cx = max_i64(
                    min_i64(nx, self.image_width - current_selection.rect.width),
                    0,
                );
                let cy = max_i64(
                    min_i64(ny, self.image_height - current_selection.rect.height),
                    0,
                );
                let mut new_selection = Selection {
                    rect: clamp_rect(current_selection.rect.with_x(cx).with_y(cy)),
                    ..current_selection
                };
                if cx != nx || cy != ny {
                    new_selection.status =
                    SelectionStatus::Move {
                        initial_rect_pos: Point { x: new_selection.rect.x, y: new_selection.rect.y },
                        initial_cursor_pos: current_cursor_pos,
                    };
                }
                if matches!(speed, Speed::Slow { has_speed_changed: true }) {
                    new_selection.status =
                    SelectionStatus::Move {
                        initial_rect_pos: Point {
                            x: current_selection.rect.x,
                            y: current_selection.rect.y,
                        },
                        initial_cursor_pos: current_cursor_pos,
                    };
                }
                self.selection = Some(new_selection);
            },
        }
    }
}

/// The larger of two values.
fn max_i64(a: i64, b: i64) -> (r: i64)
    ensures
        r as int == max_int(a as int, b as int),
{
    if a >= b {
        a
    } else {
        b
    }
}

/// The product of two 32-bit counts, exact in 64 bits.
fn mul_u32(a: u32, b: u32) -> (r: u64)
    ensures
        r as int == a as int * b as int,
{
    proof {
        assert(a as int * b as int <= 0xFFFF_FFFF * 0xFFFF_FFFF) by (nonlinear_arith)
            requires
                0 <= a <= 0xFFFF_FFFFu32,
                0 <= b <= 0xFFFF_FFFFu32,
        ;
        assert(a as int * b as int >= 0) by (nonlinear_arith)
            requires
                0 <= a && 0 <= b,
        ;
    }
    (a as u64) * (b as u64)
}

/// The smaller of two values.
fn min_i64(a: i64, b: i64) -> (r: i64)
    ensures
        r as int == min_int(a as int, b as int),
{
    if a <= b {
        a
    } else {
        b
    }
}

/// Report that a selection-demanding command found no selection.
fn nothing_selected(app: &mut App, now: u64) -> (r: Effect)
    requires
        old(app).wf(),
    ensures
        final(app).wf(),
        r == Effect::Nothing,
        reported_no_selection(*old(app), *final(app), "Nothing is selected."@, now),
{
    let mut text = String::new();
    text.append("Nothing is selected.");
    assert(text@ =~= "Nothing is selected."@);
    app.errors.push(text, now);
    Effect::Nothing
}

/// The cap a typed dimension may not exceed: the matching coordinate of
/// the bottom-right corner, read as a non-negative 32-bit value.
pub open spec fn spec_dim_cap(edge: int) -> int {
    crate::lazy_rect::clamp_u32(edge)
}

/// What a typed dimension change does to the application state: the
/// complete transition relation of the size-indicator handler.
/// Meaningful when a selection exists, as the handler demands; nothing
/// but the selection is touched, and its status, first-selection flag
/// and accept action stay.
pub open spec fn spec_size_indicator_applied(
    app0: App,
    app1: App,
    msg: crate::size_indicator::Message,
) -> bool {
    let sel0 = app0.selection.unwrap();
    let n = sel0.rect@.norm();
    &&& app1 == (App { selection: app1.selection, ..app0 })
    &&& match msg {
        crate::size_indicator::Message::ResizeVertically { new_height, .. } => {
            let nh = min_int(new_height as int, spec_dim_cap(n.y + n.h));
            app1.selection matches Some(s) && s.rect@ == clamp_rect_v(
                RectV { y: n.y + n.h - nh, h: nh, ..n },
            ) && s.status == sel0.status && s.is_first == sel0.is_first && s.accept_on_select
                == sel0.accept_on_select
        },
        crate::size_indicator::Message::ResizeHorizontally { new_width, .. } => {
            let nw = min_int(new_width as int, spec_dim_cap(n.x + n.w));
            app1.selection matches Some(s) && s.rect@ == clamp_rect_v(
                RectV { x: n.x + n.w - nw, w: nw, ..n },
            ) && s.status == sel0.status && s.is_first == sel0.is_first && s.accept_on_select
                == sel0.accept_on_select
        },
    }
}

impl crate::size_indicator::Message {
    /// Apply a typed dimension change: the new extent is capped so the
    /// selection cannot overflow the image, and the far edge stays put.
    pub fn handle(self, app: &mut App)
        requires
            old(app).wf(),
            old(app).selection is Some,
        ensures
            final(app).wf(),
            spec_size_indicator_applied(*old(app), *final(app), self),
    {
        let sel = normalized_selection(app);
        match self {
            crate::size_indicator::Message::ResizeVertically { new_height, .. } => {
                let bottom = sel.rect.y + sel.rect.height;
                let cap: u32 = clamp_to_u32(bottom);
                let nh = if new_height <= cap {
                    new_height
                } else {
                    cap
                };
                let rect = sel.rect.with_height(nh as i64).with_y(bottom - nh as i64);
                app.selection = Some(Selection { rect: clamp_rect(rect), ..sel });
            },
            crate::size_indicator::Message::ResizeHorizontally { new_width, .. } => {
                let right = sel.rect.x + sel.rect.width;
                let cap: u32 = clamp_to_u32(right);
                let nw = if new_width <= cap {
                    new_width
                } else {
                    cap
                };
                let rect = sel.rect.with_width(nw as i64).with_x(right - nw as i64);
                app.selection = Some(Selection { rect: clamp_rect(rect), ..sel });
            },
        }
    }
}

/// The application's selection, normalized.
fn normalized_selection(app: &App) -> (r: Selection)
    requires
        app.wf(),
        app.selection is Some,
    ensures
        r.rect@ == app.selection.unwrap().rect@.norm(),
        r.status == app.selection.unwrap().status,
        r.is_first == app.selection.unwrap().is_first,
        r.accept_on_select == app.selection.unwrap().accept_on_select,
{
    app.selection.unwrap().norm()
}

/// `v` limited to the `u32` range.
fn clamp_to_u32(v: i64) -> (r: u32)
    ensures
        r as int == crate::lazy_rect::clamp_u32(v as int),
{
    if v < 0 {
        0
    } else if v > u32::MAX as i64 {
        u32::MAX
    } else {
        v as u32
    }
}

/// What a letter-grid pick does to the application state, and the
/// command it may dispatch: the complete transition relation of the
/// letters handler. Only the selection, the popup and the session
/// counter move; the resulting selection keeps the status, flag and
/// accept action of the one it grew from (a fresh, resting,
/// not-first selection when none existed).
pub open spec fn spec_letters_applied(
    app0: App,
    app1: App,
    msg: crate::letters::Message,
    r: Option<Command>,
) -> bool {
    let imgw = app0.image_width as int;
    let imgh = app0.image_height as int;
    let crate::letters::Message::Pick { point, corner } = msg;
    let base = match app0.selection {
        Some(s0) => s0.rect@.norm(),
        None => RectV { x: 0, y: 0, w: 0, h: 0 },
    };
    let picked = match corner {
        PickCorner::TopLeft => RectV {
            x: point@.x,
            y: point@.y,
            w: min_int(base.w, imgw - point@.x),
            h: min_int(base.h, imgh - point@.y),
        },
        PickCorner::BottomRight => RectV { w: point@.x - base.x, h: point@.y - base.y, ..base },
    };
    &&& app1 == (App {
        selection: app1.selection,
        popup: app1.popup,
        selections_created: app1.selections_created,
        ..app0
    })
    &&& app1.selection matches Some(s) && s.rect@ == clamp_rect_v(picked) && (
    match app0.selection {
        Some(s0) => s.status == s0.status && s.is_first == s0.is_first && s.accept_on_select
            == s0.accept_on_select,
        None => s.status is Idle && !s.is_first && s.accept_on_select == app0.accept_on_select,
    })
    &&& match app0.accept_on_select {
        Some(a) => if !(picked.w == 0 && picked.h == 0) && app0.selections_created == 0 {
            r == Some(Command::ImageUpload(a)) && app1.popup == app0.popup
                && app1.selections_created == app0.selections_created
        } else {
            &&& r is None
            &&& app1.popup is None
            &&& app1.selections_created as int == if !(picked.w == 0 && picked.h == 0)
                && app0.selections_created < u64::MAX {
                app0.selections_created + 1
            } else {
                app0.selections_created as int
            }
        },
        None => r is None && app1.popup is None && app1.selections_created
            == app0.selections_created,
    }
}

impl crate::letters::Message {
    /// Apply a letter-grid pick: set the chosen corner of the selection
    /// to the picked point (creating a zero-size selection when none
    /// exists), never letting it overflow the image. When an
    /// accept-on-select action is configured, a first, non-empty pick
    /// dispatches it at once; otherwise the popup closes.
    pub fn handle(self, app: &mut App) -> (r: Option<Command>)
        requires
            old(app).wf(),
            ({
                let crate::letters::Message::Pick { point, .. } = self;
                point.wf()
            }),
        ensures
            final(app).wf(),
            spec_letters_applied(*old(app), *final(app), self, r),
    {
        let crate::letters::Message::Pick { point, corner } = self;
        let sel = match app.selection {
            Some(_) => normalized_selection(app),
            None => Selection::new(Point { x: 0, y: 0 }, false, app.accept_on_select),
        };
        let rect = match corner {
            PickCorner::TopLeft => sel
                .rect
                .with_x(point.x)
                .with_y(point.y)
                .with_width(min_i64(sel.rect.width, app.image_width - point.x))
                .with_height(min_i64(sel.rect.height, app.image_height - point.y)),
            PickCorner::BottomRight => sel
                .rect
                .with_height(point.y - sel.rect.y)
                .with_width(point.x - sel.rect.x),
        };
        let new_sel = Selection { rect: clamp_rect(rect), ..sel };
        app.selection = Some(new_sel);
        match app.accept_on_select {
            Some(on_select) => {
                if !(rect.width == 0 && rect.height == 0) {
                    if app.selections_created == 0 {
                        proof {
                            assert(rect.width == 0 <==> new_sel.rect.width == 0);
                            assert(rect.height == 0 <==> new_sel.rect.height == 0);
                        }
                        return Some(on_select.into_key_action());
                    }
                    if app.selections_created < u64::MAX {
                        app.selections_created = app.selections_created + 1;
                    }
                }
                app.popup = None;
                None
            },
            None => {
                app.popup = None;
                None
            },
        }
    }
}


/// The conditions a message must meet before [`App::update`] applies
/// it: carried values within bounds, and a selection present where the
/// message assumes one.
pub open spec fn app_msg_ok(app: App, m: Message) -> bool {
    match m {
        Message::Selection(sm) => msg_ok(sm) && (sm.needs_selection() ==> app.selection is Some),
        Message::SizeIndicator(_) => app.selection is Some,
        Message::Letters(crate::letters::Message::Pick { point, .. }) => point.wf(),
        Message::Command { action, .. } => action matches Command::SelectRegion { selection }
            ==> selection.wf(),
        _ => true,
    }
}

impl App {
    /// Apply one message to the application state; `now` stamps any
    /// error message. Returns what the surrounding program must do.
    pub fn update(&mut self, message: Message, now: u64) -> (r: Effect)
        requires
            old(self).wf(),
            app_msg_ok(*old(self), message),
        ensures
            final(self).wf(),
            ({
                let app0 = *old(self);
                match message {
                    Message::Exit => r == Effect::ExitApp && *final(self) == app0,
                    Message::ClosePopup => r == Effect::Nothing && *final(self) == (App {
                        popup: None,
                        ..app0
                    }),
                    Message::NoOp => r == Effect::Nothing && *final(self) == app0,
                    Message::Error(e) => r == Effect::Nothing && *final(self) == (App {
                        errors: final(self).errors,
                        ..app0
                    }) && errors_extended(
                        app0.errors.errors@,
                        final(self).errors.errors@,
                        e@,
                        now,
                    ),
                    Message::Selection(m) => r == Effect::Nothing
                        && spec_selection_message_applied(app0, *final(self), m),
                    Message::SizeIndicator(m) => r == Effect::Nothing
                        && spec_size_indicator_applied(app0, *final(self), m),
                    Message::Command { action, count } => spec_command_applied(
                        app0,
                        *final(self),
                        action,
                        count,
                        now,
                        r,
                    ),
                    Message::Letters(m) => exists|mid: App, out: Option<Command>|
                        #[trigger] spec_letters_applied(app0, mid, m, out) && (match out {
                            None => *final(self) == mid && r == Effect::Nothing,
                            Some(cmd) => spec_command_applied(mid, *final(self), cmd, 1, now, r),
                        }),
                }
            }),
    {
        match message {
            Message::Exit => Effect::ExitApp,
            Message::ClosePopup => {
                self.popup = None;
                Effect::Nothing
            },
            Message::Letters(m) => {
                let out = m.handle(self);
                let ghost mid = *self;
                let eff = match out {
                    Some(cmd) => cmd.handle(self, 1, now),
                    None => Effect::Nothing,
                };
                proof {
                    assert(spec_letters_applied(*old(self), mid, m, out));
                }
                eff
            },
            Message::SizeIndicator(m) => {
                m.handle(self);
                Effect::Nothing
            },
            Message::Selection(m) => {
                self.handle_selection_message(m);
                Effect::Nothing
            },
            Message::Error(e) => {
                self.errors.push(e, now);
                Effect::Nothing
            },
            Message::NoOp => Effect::Nothing,
            Message::Command { action, count } => action.handle(self, count, now),
        }
    }
}

/// The typed digit count after one more digit: the running count times
/// ten plus the digit, wrapping as a 32-bit value.
pub open spec fn spec_next_count(old_count: Option<u32>, d: int) -> u32 {
    let base = match old_count {
        Some(n) => n as int,
        None => 0,
    };
    (((base * 10 + d) % 0x1_0000_0000)) as u32
}

/// The motion count after a key press: a digit key folds into the
/// running count, any other key leaves it alone.
pub open spec fn spec_motion_after(old_count: Option<u32>, key: Key) -> Option<u32> {
    match key {
        Key::Character(c) => if crate::text::is_digit(c) {
            Some(spec_next_count(old_count, crate::text::digit_val(c)))
        } else {
            old_count
        },
        _ => old_count,
    }
}

impl App {
    /// Route one raw input event. While a popup is open, only escape
    /// does anything and closes it. Otherwise the selection interprets
    /// the event first; an event it leaves alone feeds the typed count
    /// (digits) and the keybinding lookup, and a left press with no
    /// selection creates one at the cursor.
    pub fn process_event(
        &self,
        state: &mut AppKeysState,
        sel_state: &mut SelectionKeysState,
        event: &Event,
        cursor: Option<Point>,
    ) -> (r: Option<Message>)
        requires
            self.wf(),
            cursor matches Some(p) ==> p.wf(),
            *event matches Event::PointerMoved { position } ==> position.wf(),
        ensures
            r matches Some(Message::Selection(m)) ==> msg_ok(m) && (m.needs_selection()
                ==> self.selection is Some),
            self.popup is Some ==> *final(state) == *old(state) && *final(sel_state) == *old(
                sel_state,
            ) && if *event matches Event::KeyPressed { key: Key::Named(NamedKey::Escape), .. } {
                r == Some(Message::ClosePopup)
            } else {
                r is None
            },
            self.popup is None && self.selection is Some ==> *final(sel_state)
                == crate::selection::spec_keys_next(*old(sel_state), *event),
            self.popup is None && self.selection is None ==> *final(sel_state) == *old(sel_state),
            ({
                let st0 = *old(state);
                let taken = match self.selection {
                    Some(sel) => crate::selection::spec_update_msg(
                        sel,
                        *old(sel_state),
                        *event,
                        cursor,
                    ),
                    None => None,
                };
                self.popup is None ==> {
                    &&& (taken matches Some(m) ==> r == Some(m) && *final(state) == st0)
                    &&& (taken is None ==> match *event {
                        Event::KeyPressed { key, modified_key, mods } => {
                            let motion = spec_motion_after(st0.motion_count, key);
                            match crate::key_map::spec_resolve(
                                self.keys.entries@,
                                st0.last_key_pressed,
                                key,
                                modified_key,
                                mods,
                            ) {
                                Some(cmd) => r == Some(
                                    Message::Command {
                                        action: cmd,
                                        count: match motion {
                                            Some(n) => n,
                                            None => 1,
                                        },
                                    },
                                ) && *final(state) == (AppKeysState {
                                    motion_count: None,
                                    last_key_pressed: None,
                                    ..st0
                                }),
                                None => r is None && *final(state) == (AppKeysState {
                                    motion_count: motion,
                                    last_key_pressed: if modified_key != Key::Named(
                                        NamedKey::Shift,
                                    ) {
                                        Some(modified_key)
                                    } else {
                                        st0.last_key_pressed
                                    },
                                    ..st0
                                }),
                            }
                        },
                        Event::PointerPressed { button: PointerButton::Left } => *final(state)
                            == (AppKeysState { is_left_down: true, ..st0 }) && (match cursor {
                            Some(p) => r == Some(
                                Message::Selection(crate::selection::Message::CreateSelection(p)),
                            ),
                            None => r is None,
                        }),
                        Event::PointerReleased { button: PointerButton::Left } => *final(state)
                            == (AppKeysState { is_left_down: false, ..st0 }) && r == Some(
                            Message::NoOp,
                        ),
                        _ => r is None && *final(state) == st0,
                    })
                }
            }),
    {
        if matches!(self.popup, Some(_)) {
            if matches!(
                *event,
                Event::KeyPressed { key: Key::Named(NamedKey::Escape), .. }
            ) {
                return Some(Message::ClosePopup);
            }
            return None;
        }
        match self.selection {
            Some(sel) => {
                let out = sel.update(sel_state, event, cursor);
                match out {
                    Some(m) => {
                        return Some(m);
                    },
                    None => {},
                }
            },
            None => {},
        }
        match *event {
            Event::KeyPressed { key, modified_key, mods } => {
                match key {
                    Key::Character(c) => {
                        if '0' <= c && c <= '9' {
                            let d: u64 = (c as u32 as u64) - 48;
                            let base: u64 = match state.motion_count {
                                Some(n) => n as u64,
                                None => 0,
                            };
                            let next = (base * 10 + d) % 0x1_0000_0000;
                            state.motion_count = Some(next as u32);
                        }
                    },
                    _ => {},
                }
                let resolved = self.keys.resolve(
                    state.last_key_pressed,
                    key,
                    modified_key,
                    mods,
                );
                match resolved {
                    Some(cmd) => {
                        state.last_key_pressed = None;
                        let count = match state.motion_count {
                            Some(n) => n,
                            None => 1,
                        };
                        state.motion_count = None;
                        Some(Message::Command { action: cmd, count })
                    },
                    None => {
                        if !matches!(modified_key, Key::Named(NamedKey::Shift)) {
                            state.last_key_pressed = Some(modified_key);
                        }
                        None
                    },
                }
            },
            Event::PointerPressed { button: PointerButton::Left } => {
                state.is_left_down = true;
                match cursor {
                    Some(p) => Some(
                        Message::Selection(crate::selection::Message::CreateSelection(p)),
                    ),
                    None => None,
                }
            },
            Event::PointerReleased { button: PointerButton::Left } => {
                state.is_left_down = false;
                Some(Message::NoOp)
            },
            _ => None,
        }
    }
}

/// Moving a selection whose top-left is at the origin any further left
/// leaves it exactly where it is: the position clamp stops at zero.
pub proof fn lemma_move_left_stays_at_origin(total: int, imgw: int, imgh: int)
    requires
        total >= 0,
    ensures
        ({
            let r = RectV { x: 0, y: 0, w: 100, h: 100 };
            clamp_rect_v(spec_move_rect(r, Direction::Left, total, imgw, imgh)) == r
        }),
{
}

} // verus!
