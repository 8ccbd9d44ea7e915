//! The selection: the selected area of the image, its interaction
//! status, and the state machine that turns pointer and keyboard events
//! into selection messages.

use vstd::prelude::*;

use crate::event::{Event, PointerButton};
use crate::geometry::{Corner, Point, PointV, Rectangle, RectV, SideOrCorner};
use crate::key::{Key, NamedKey};

verus! {

/// A named place of the image a selection can be sent to.
#[derive(Clone, Copy, Debug, PartialEq, Eq, Structural)]
pub enum Place {
    /// Center.
    Center,
    /// Center on the x-axis.
    XCenter,
    /// Center on the y-axis.
    YCenter,
    /// Top-left corner.
    TopLeft,
    /// Bottom-left corner.
    BottomLeft,
    /// Bottom-right corner.
    BottomRight,
    /// Top-right corner.
    TopRight,
    /// Left side.
    Left,
    /// Right side.
    Right,
    /// Top side.
    Top,
    /// Bottom side.
    Bottom,
}

/// How fast the selection follows the cursor.
#[derive(Clone, Copy, Debug, PartialEq, Eq, Structural)]
pub enum Speed {
    /// The selection follows the cursor pixel for pixel.
    Regular,
    /// The selection moves a tenth of the cursor's motion.
    Slow {
        /// The speed just changed, so the interaction must re-anchor to
        /// the current moment to avoid a positional jump.
        has_speed_changed: bool,
    },
}

impl Speed {
    /// How many pixels the cursor moves for each pixel of selection
    /// motion: one when regular, ten when slow.
    pub fn divisor(self) -> (r: i64)
        ensures
            r == spec_divisor(self),
    {
        match self {
            Speed::Regular => 1,
            Speed::Slow { .. } => 10,
        }
    }
}

/// Cursor pixels per selection pixel for each speed.
pub open spec fn spec_divisor(speed: Speed) -> i64 {
    match speed {
        Speed::Regular => 1,
        Speed::Slow { .. } => 10,
    }
}

/// A cursor displacement scaled down by the speed's divisor, rounded
/// toward zero.
pub open spec fn scaled_delta(cur: int, initial: int, speed: Speed) -> int {
    crate::lazy_rect::div_toward_zero(cur - initial, spec_divisor(speed) as int)
}

/// `v / d` rounded toward zero, for positive `d`.
pub fn div_i64_toward_zero(v: i64, d: i64) -> (r: i64)
    requires
        0 < d,
        i64::MIN < v,
    ensures
        r as int == crate::lazy_rect::div_toward_zero(v as int, d as int),
        v >= 0 ==> 0 <= r <= v,
        v < 0 ==> v <= r <= 0,
{
    if v >= 0 {
        let q = v / d;
        proof {
            vstd::arithmetic::div_mod::lemma_div_nonincreasing(v as int, d as int);
            vstd::arithmetic::div_mod::lemma_div_pos_is_pos(v as int, d as int);
        }
        q
    } else {
        let q = (-v) / d;
        proof {
            vstd::arithmetic::div_mod::lemma_div_nonincreasing(-v as int, d as int);
            vstd::arithmetic::div_mod::lemma_div_pos_is_pos(-v as int, d as int);
        }
        -q
    }
}

/// What the selection is doing at the moment; the sole source of truth
/// for how pointer-moved events are interpreted.
#[derive(Clone, Copy, Debug, PartialEq, Eq, Structural)]
pub enum SelectionStatus {
    /// The selection is being resized from a side or corner.
    Resize {
        /// The rectangle as it was when resizing began.
        initial_rect: Rectangle,
        /// The cursor position when resizing began.
        initial_cursor_pos: Point,
        /// The side or corner being dragged.
        resize_side: SideOrCorner,
    },
    /// The whole selection is being dragged.
    Move {
        /// Top-left point of the rectangle when the drag began.
        initial_rect_pos: Point,
        /// The cursor position when the drag began.
        initial_cursor_pos: Point,
    },
    /// The very first drag is establishing the rectangle.
    Create,
    /// The selection is resting.
    Idle,
}

impl SelectionStatus {
    /// The selection is being dragged as a whole.
    pub fn is_move(self) -> (r: bool)
        ensures
            r == (self is Move),
    {
        matches!(self, SelectionStatus::Move { .. })
    }

    /// The selection is resting.
    pub fn is_idle(self) -> (r: bool)
        ensures
            r == (self is Idle),
    {
        matches!(self, SelectionStatus::Idle)
    }

    /// The selection is being resized.
    pub fn is_resize(self) -> (r: bool)
        ensures
            r == (self is Resize),
    {
        matches!(self, SelectionStatus::Resize { .. })
    }

    /// The selection is being created.
    pub fn is_create(self) -> (r: bool)
        ensures
            r == (self is Create),
    {
        matches!(self, SelectionStatus::Create)
    }
}

/// The selected area of the image.
#[derive(Clone, Copy, Debug, PartialEq, Eq, Structural)]
pub struct Selection {
    /// This selection is the first one made in the session.
    pub is_first: bool,
    /// The action to dispatch as soon as the first selection is
    /// released, when one is configured.
    pub accept_on_select: Option<crate::image_action::Command>,
    /// The selected area; extents may be negative mid-drag.
    pub rect: Rectangle,
    /// What the selection is doing at the moment.
    pub status: SelectionStatus,
}

/// A token passed along with messages that reach into an existing
/// selection, marking that the sender saw one. The guarantee itself is
/// carried by the handlers' preconditions, which demand the selection's
/// presence; the token documents the obligation at the place the
/// message is built.
#[derive(Clone, Copy, Debug, PartialEq, Eq, Structural)]
pub struct SelectionIsSome {
    /// Nothing; the type marks an obligation.
    pub witness: bool,
}

impl SelectionIsSome {
    /// The token the selection getters hand out when they find a
    /// selection present.
    pub fn new() -> (r: SelectionIsSome)
        ensures
            r == (SelectionIsSome { witness: true }),
    {
        SelectionIsSome { witness: true }
    }
}

/// Which buttons and modifier keys are currently held, as the event
/// interpreter tracks them.
#[derive(Clone, Copy, Debug, Default, PartialEq, Eq, Structural)]
pub struct SelectionKeysState {
    /// The left mouse button is held.
    pub is_left_down: bool,
    /// The right mouse button is held.
    pub is_right_down: bool,
    /// The shift key is held.
    pub is_shift_down: bool,
    /// The control key is held.
    pub is_ctrl_down: bool,
}

/// The held-buttons state after an event: presses and releases of the
/// two pointer buttons and of control and shift are tracked, everything
/// else leaves the state alone.
pub open spec fn spec_keys_next(st: SelectionKeysState, event: Event) -> SelectionKeysState {
    match event {
        Event::PointerPressed { button: PointerButton::Left } => SelectionKeysState {
            is_left_down: true,
            ..st
        },
        Event::PointerReleased { button: PointerButton::Left } => SelectionKeysState {
            is_left_down: false,
            ..st
        },
        Event::PointerPressed { button: PointerButton::Right } => SelectionKeysState {
            is_right_down: true,
            ..st
        },
        Event::PointerReleased { button: PointerButton::Right } => SelectionKeysState {
            is_right_down: false,
            ..st
        },
        Event::KeyPressed { key: Key::Named(NamedKey::Control), .. } => SelectionKeysState {
            is_ctrl_down: true,
            ..st
        },
        Event::KeyReleased { key: Key::Named(NamedKey::Control) } => SelectionKeysState {
            is_ctrl_down: false,
            ..st
        },
        Event::KeyPressed { key: Key::Named(NamedKey::Shift), .. } => SelectionKeysState {
            is_shift_down: true,
            ..st
        },
        Event::KeyReleased { key: Key::Named(NamedKey::Shift) } => SelectionKeysState {
            is_shift_down: false,
            ..st
        },
        _ => st,
    }
}

/// A message about the selection, produced by the event interpreter and
/// consumed by the application state.
#[derive(Clone, Copy, Debug, PartialEq, Eq, Structural)]
pub enum Message {
    /// The selection is being resized.
    Resize {
        /// Current cursor position.
        current_cursor_pos: Point,
        /// Cursor position when resizing began.
        initial_cursor_pos: Point,
        /// The side or corner being dragged.
        resize_side: SideOrCorner,
        /// The rectangle as it was when resizing began.
        initial_rect: Rectangle,
        /// Witness that a selection is present.
        sel_is_some: SelectionIsSome,
        /// How fast the resize follows the cursor.
        speed: Speed,
    },
    /// Replace the status of the existing selection.
    UpdateStatus(SelectionStatus, SelectionIsSome),
    /// Create a zero-size selection at a point.
    CreateSelection(Point),
    /// The selection is being dragged as a whole.
    MoveSelection {
        /// Current cursor position.
        current_cursor_pos: Point,
        /// Cursor position when the drag began.
        initial_cursor_pos: Point,
        /// The selection when the drag began.
        current_selection: Selection,
        /// Top-left point of the rectangle when the drag began.
        initial_rect_pos: Point,
        /// How fast the drag follows the cursor.
        speed: Speed,
    },
    /// Enter the resting status.
    EnterIdle,
    /// The first drag extends the new selection to the cursor.
    ExtendNewSelection(Point),
    /// Snap the nearest corner to the cursor and resize from there.
    ResizeToCursor {
        /// Current cursor position.
        cursor_pos: Point,
        /// The current selection, normalized.
        selection: Selection,
        /// Witness that a selection is present.
        sel_is_some: SelectionIsSome,
    },
}

impl Message {
    /// The message's handler reaches into an existing selection through
    /// a witness.
    pub open spec fn needs_selection(self) -> bool {
        match self {
            Message::Resize { .. } => true,
            Message::UpdateStatus(..) => true,
            Message::ResizeToCursor { .. } => true,
            Message::CreateSelection(..) => false,
            Message::MoveSelection { .. } => false,
            Message::EnterIdle => false,
            Message::ExtendNewSelection(..) => false,
        }
    }
}


/// The message one input event turns into, given the selection and the
/// held-buttons state before the event: the full transition function of
/// the event interpreter. `None` means the event is left for the
/// surrounding router (typed counts, keybindings, creating the very
/// first selection).
pub open spec fn spec_update_msg(
    sel: Selection,
    st0: SelectionKeysState,
    event: Event,
    cursor: Option<Point>,
) -> Option<crate::message::Message> {
    match event {
        Event::PointerPressed { button: PointerButton::Left } => match cursor {
            Some(p) => match sel.rect@.side_hit(p@) {
                Some(side) => Some(
                    crate::message::Message::Selection(
                        Message::UpdateStatus(
                            SelectionStatus::Resize {
                                initial_rect: sel.rect.spec_norm(),
                                initial_cursor_pos: p,
                                resize_side: side,
                            },
                            SelectionIsSome { witness: true },
                        ),
                    ),
                ),
                None => {
                    if sel.rect@.norm().holds_point(p@) {
                        Some(
                            crate::message::Message::Selection(
                                Message::UpdateStatus(
                                    SelectionStatus::Move {
                                        initial_rect_pos: Point {
                                            x: sel.rect.spec_norm().x,
                                            y: sel.rect.spec_norm().y,
                                        },
                                        initial_cursor_pos: p,
                                    },
                                    SelectionIsSome { witness: true },
                                ),
                            ),
                        )
                    } else {
                        Some(
                            crate::message::Message::Selection(Message::CreateSelection(p)),
                        )
                    }
                },
            },
            None => None,
        },
        Event::PointerReleased { button: PointerButton::Left } => match sel.accept_on_select {
            Some(on_select) => {
                if sel.is_first && !st0.is_ctrl_down {
                    Some(
                        crate::message::Message::Command {
                            action: crate::commands::Command::ImageUpload(on_select),
                            count: 1,
                        },
                    )
                } else {
                    Some(crate::message::Message::Selection(Message::EnterIdle))
                }
            },
            None => Some(crate::message::Message::Selection(Message::EnterIdle)),
        },
        Event::PointerPressed { button: PointerButton::Right } => match cursor {
            Some(p) => Some(
                crate::message::Message::Selection(
                    Message::ResizeToCursor {
                        cursor_pos: p,
                        selection: sel.spec_norm(),
                        sel_is_some: SelectionIsSome { witness: true },
                    },
                ),
            ),
            None => None,
        },
        Event::PointerReleased { button: PointerButton::Right } => Some(
            crate::message::Message::Selection(Message::EnterIdle),
        ),
        Event::KeyPressed { key: Key::Named(NamedKey::Shift), .. } => match cursor {
            Some(p) => match sel.status {
                SelectionStatus::Resize { resize_side, .. } => Some(
                    crate::message::Message::Selection(
                        Message::Resize {
                            current_cursor_pos: p,
                            initial_cursor_pos: p,
                            resize_side,
                            initial_rect: sel.rect,
                            sel_is_some: SelectionIsSome { witness: true },
                            speed: Speed::Slow { has_speed_changed: true },
                        },
                    ),
                ),
                SelectionStatus::Move { .. } => Some(
                    crate::message::Message::Selection(
                        Message::MoveSelection {
                            current_cursor_pos: p,
                            initial_cursor_pos: p,
                            current_selection: sel,
                            initial_rect_pos: Point { x: sel.rect.x, y: sel.rect.y },
                            speed: Speed::Slow { has_speed_changed: true },
                        },
                    ),
                ),
                _ => None,
            },
            None => None,
        },
        Event::KeyPressed { .. } => None,
        Event::KeyReleased { .. } => None,
        Event::PointerMoved { position } => match sel.status {
            SelectionStatus::Resize { initial_rect, initial_cursor_pos, resize_side } => Some(
                crate::message::Message::Selection(
                    Message::Resize {
                        current_cursor_pos: position,
                        initial_cursor_pos,
                        resize_side,
                        initial_rect,
                        sel_is_some: SelectionIsSome { witness: true },
                        speed: if st0.is_shift_down {
                            Speed::Slow { has_speed_changed: false }
                        } else {
                            Speed::Regular
                        },
                    },
                ),
            ),
            SelectionStatus::Move { initial_rect_pos, initial_cursor_pos } => Some(
                crate::message::Message::Selection(
                    Message::MoveSelection {
                        current_cursor_pos: position,
                        initial_cursor_pos,
                        current_selection: sel.spec_norm(),
                        initial_rect_pos,
                        speed: if st0.is_shift_down {
                            Speed::Slow { has_speed_changed: false }
                        } else {
                            Speed::Regular
                        },
                    },
                ),
            ),
            SelectionStatus::Create => Some(
                crate::message::Message::Selection(Message::ExtendNewSelection(position)),
            ),
            SelectionStatus::Idle => None,
        },
    }
}

impl Selection {
    /// A selection at a point, with zero size, resting.
    pub fn new(
        point: Point,
        is_first: bool,
        accept_on_select: Option<crate::image_action::Command>,
    ) -> (r: Selection)
        ensures
            r.rect@ == (RectV { x: point@.x, y: point@.y, w: 0, h: 0 }),
            r.status is Idle,
            r.is_first == is_first,
            r.accept_on_select == accept_on_select,
    {
        Selection {
            rect: Rectangle { x: point.x, y: point.y, width: 0, height: 0 },
            status: SelectionStatus::Idle,
            is_first,
            accept_on_select,
        }
    }

    /// The initial selection: a given rectangle, resting, marked as the
    /// session's first.
    pub fn initial(
        rect: Rectangle,
        accept_on_select: Option<crate::image_action::Command>,
    ) -> (r: Selection)
        ensures
            r.rect == rect,
            r.status is Idle,
            r.is_first,
            r.accept_on_select == accept_on_select,
    {
        Selection { is_first: true, accept_on_select, rect, status: SelectionStatus::Idle }
    }

    /// The selection with another status.
    pub fn with_status(self, status: SelectionStatus) -> (r: Selection)
        ensures
            r == (Selection { status, ..self }),
    {
        Selection { status, ..self }
    }

    /// The selection with its rectangle normalized.
    pub fn norm(self) -> (r: Selection)
        requires
            self.rect.loose_wf(),
        ensures
            r.rect@ == self.rect@.norm(),
            r.status == self.status,
            r.is_first == self.is_first,
            r.accept_on_select == self.accept_on_select,
    {
        Selection { rect: self.rect.norm(), ..self }
    }

    /// The selection with its rectangle normalized, field for field.
    pub open spec fn spec_norm(self) -> Selection {
        Selection {
            rect: Rectangle {
                x: self.rect@.norm().x as i64,
                y: self.rect@.norm().y as i64,
                width: self.rect@.norm().w as i64,
                height: self.rect@.norm().h as i64,
            },
            ..self
        }
    }

    /// When the cursor is inside the normalized selection, the cursor
    /// position and the selection itself.
    /// Interpret one input event. Pointer-down starts a resize when a
    /// side or corner zone is hit, a move when the cursor is inside the
    /// rectangle, a create otherwise; pointer-up either dispatches the
    /// configured accept action (first selection only, unless control
    /// is held) or goes idle; a right press snaps the nearest corner to
    /// the cursor; shift toggles slow speed and re-anchors the current
    /// interaction; pointer motion recomputes the rectangle according
    /// to the current status. Returns the message to apply, if any, and
    /// tracks which buttons and modifiers are held in `state`.
    pub fn update(
        &self,
        state: &mut SelectionKeysState,
        event: &Event,
        cursor: Option<Point>,
    ) -> (r: Option<crate::message::Message>)
        requires
            self.rect.loose_wf(),
            cursor matches Some(p) ==> p.loose_wf(),
            *event matches Event::PointerMoved { position } ==> position.wf(),
        ensures
            *final(state) == spec_keys_next(*old(state), *event),
            self.rect.wf() && crate::app::status_ok(self.status) && (cursor matches Some(p)
                ==> p.wf()) ==> match r {
                Some(crate::message::Message::Selection(m)) => crate::app::msg_ok(m),
                _ => true,
            },
            r == spec_update_msg(*self, *old(state), *event, cursor),
    {
        match *event {
            Event::PointerPressed { button: PointerButton::Left } => {
                state.is_left_down = true;
                match cursor {
                    Some(p) => {
                        let cs = self.rect.corners();
                        let hit = cs.side_at(p);
                        proof {
                            assert(cs.spec_side_at(p@) == self.rect@.side_hit(p@));
                        }
                        match hit {
                            Some(side) => Some(
                                crate::message::Message::Selection(
                                    Message::UpdateStatus(
                                        SelectionStatus::Resize {
                                            initial_rect: self.rect.norm(),
                                            initial_cursor_pos: p,
                                            resize_side: side,
                                        },
                                        SelectionIsSome::new(),
                                    ),
                                ),
                            ),
                            None => {
                                if self.norm().rect.contains(p) {
                                    Some(
                                        crate::message::Message::Selection(
                                            Message::UpdateStatus(
                                                SelectionStatus::Move {
                                                    initial_rect_pos: self.norm().rect.pos(),
                                                    initial_cursor_pos: p,
                                                },
                                                SelectionIsSome::new(),
                                            ),
                                        ),
                                    )
                                } else {
                                    Some(
                                        crate::message::Message::Selection(
                                            Message::CreateSelection(p),
                                        ),
                                    )
                                }
                            },
                        }
                    },
                    None => None,
                }
            },
            Event::PointerReleased { button: PointerButton::Left } => {
                let was_ctrl_down = state.is_ctrl_down;
                state.is_left_down = false;
                match self.accept_on_select {
                    Some(on_select) => {
                        if self.is_first && !was_ctrl_down {
                            Some(
                                crate::message::Message::Command {
                                    action: on_select.into_key_action(),
                                    count: 1,
                                },
                            )
                        } else {
                            Some(crate::message::Message::Selection(Message::EnterIdle))
                        }
                    },
                    None => Some(crate::message::Message::Selection(Message::EnterIdle)),
                }
            },
            Event::PointerPressed { button: PointerButton::Right } => {
                state.is_right_down = true;
                match cursor {
                    Some(p) => Some(
                        crate::message::Message::Selection(
                            Message::ResizeToCursor {
                                cursor_pos: p,
                                selection: self.norm(),
                                sel_is_some: SelectionIsSome::new(),
                            },
                        ),
                    ),
                    None => None,
                }
            },
            Event::PointerReleased { button: PointerButton::Right } => {
                state.is_right_down = false;
                Some(crate::message::Message::Selection(Message::EnterIdle))
            },
            Event::KeyPressed { key: Key::Named(NamedKey::Control), .. } => {
                state.is_ctrl_down = true;
                None
            },
            Event::KeyReleased { key: Key::Named(NamedKey::Control) } => {
                state.is_ctrl_down = false;
                None
            },
            Event::KeyReleased { .. } => {
                if matches!(event, Event::KeyReleased { key: Key::Named(NamedKey::Shift) }) {
                    state.is_shift_down = false;
                }
                None
            },
            Event::KeyPressed { key: Key::Named(NamedKey::Shift), .. } => {
                state.is_shift_down = true;
                match cursor {
                    Some(p) => match self.status {
                        SelectionStatus::Resize { resize_side, .. } => Some(
                            crate::message::Message::Selection(
                                Message::Resize {
                                    resize_side,
                                    current_cursor_pos: p,
                                    initial_cursor_pos: p,
                                    initial_rect: self.rect,
                                    sel_is_some: SelectionIsSome::new(),
                                    speed: Speed::Slow { has_speed_changed: true },
                                },
                            ),
                        ),
                        SelectionStatus::Move { .. } => Some(
                            crate::message::Message::Selection(
                                Message::MoveSelection {
                                    current_cursor_pos: p,
                                    initial_cursor_pos: p,
                                    current_selection: *self,
                                    initial_rect_pos: self.rect.pos(),
                                    speed: Speed::Slow { has_speed_changed: true },
                                },
                            ),
                        ),
                        _ => None,
                    },
                    None => None,
                }
            },
            Event::KeyPressed { .. } => None,
            Event::PointerMoved { position } => match self.status {
                SelectionStatus::Resize { resize_side, initial_rect, initial_cursor_pos } => Some(
                    crate::message::Message::Selection(
                        Message::Resize {
                            current_cursor_pos: position,
                            resize_side,
                            initial_cursor_pos,
                            initial_rect,
                            sel_is_some: SelectionIsSome::new(),
                            speed: if state.is_shift_down {
                                Speed::Slow { has_speed_changed: false }
                            } else {
                                Speed::Regular
                            },
                        },
                    ),
                ),
                SelectionStatus::Move { initial_rect_pos, initial_cursor_pos } => Some(
                    crate::message::Message::Selection(
                        Message::MoveSelection {
                            current_cursor_pos: position,
                            initial_cursor_pos,
                            current_selection: self.norm(),
                            initial_rect_pos,
                            speed: if state.is_shift_down {
                                Speed::Slow { has_speed_changed: false }
                            } else {
                                Speed::Regular
                            },
                        },
                    ),
                ),
                SelectionStatus::Create => Some(
                    crate::message::Message::Selection(Message::ExtendNewSelection(position)),
                ),
                SelectionStatus::Idle => None,
            },
        }
    }

    pub fn cursor_in_selection(self, cursor: Option<Point>) -> (r: Option<(Point, Selection)>)
        requires
            self.rect.loose_wf(),
            cursor matches Some(p) ==> p.loose_wf(),
        ensures
            match cursor {
                Some(p) => if self.rect@.norm().holds_point(p@) {
                    r == Some((p, self))
                } else {
                    r is None
                },
                None => r is None,
            },
    {
        match cursor {
            Some(p) => {
                if self.norm().rect.contains(p) {
                    Some((p, self))
                } else {
                    None
                }
            },
            None => None,
        }
    }
}

} // verus!
