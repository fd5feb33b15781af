//! The per-frame input model: the fixed logical-key table, the classified
//! platform events, and the input snapshot that a frame hands to the GUI
//! context.

use vstd::prelude::*;

verus! {

/// How many logical keys the fixed table maps.
pub const KEY_COUNT: usize = 19;

/// The logical keys the GUI context tracks, fixed at initialization; the
/// modifier flags are tracked separately.
#[derive(Clone, Copy, PartialEq, Eq, Debug)]
pub enum LogicalKey {
    Tab,
    LeftArrow,
    RightArrow,
    UpArrow,
    DownArrow,
    PageUp,
    PageDown,
    Home,
    End,
    Delete,
    Backspace,
    Enter,
    Escape,
    A,
    C,
    V,
    X,
    Y,
    Z,
}

/// The fixed table from logical key to the small index the GUI context uses.
pub open spec fn key_index_spec(k: LogicalKey) -> u8 {
    match k {
        LogicalKey::Tab => 0,
        LogicalKey::LeftArrow => 1,
        LogicalKey::RightArrow => 2,
        LogicalKey::UpArrow => 3,
        LogicalKey::DownArrow => 4,
        LogicalKey::PageUp => 5,
        LogicalKey::PageDown => 6,
        LogicalKey::Home => 7,
        LogicalKey::End => 8,
        LogicalKey::Delete => 9,
        LogicalKey::Backspace => 10,
        LogicalKey::Enter => 11,
        LogicalKey::Escape => 12,
        LogicalKey::A => 13,
        LogicalKey::C => 14,
        LogicalKey::V => 15,
        LogicalKey::X => 16,
        LogicalKey::Y => 17,
        LogicalKey::Z => 18,
    }
}

/// The index of a logical key in the fixed table: a static lookup with no
/// runtime reconfiguration, always below `KEY_COUNT`.
pub fn key_index(k: &LogicalKey) -> (i: u8)
    ensures
        i == key_index_spec(*k),
        (i as usize) < KEY_COUNT,
{
    match k {
        LogicalKey::Tab => 0,
        LogicalKey::LeftArrow => 1,
        LogicalKey::RightArrow => 2,
        LogicalKey::UpArrow => 3,
        LogicalKey::DownArrow => 4,
        LogicalKey::PageUp => 5,
        LogicalKey::PageDown => 6,
        LogicalKey::Home => 7,
        LogicalKey::End => 8,
        LogicalKey::Delete => 9,
        LogicalKey::Backspace => 10,
        LogicalKey::Enter => 11,
        LogicalKey::Escape => 12,
        LogicalKey::A => 13,
        LogicalKey::C => 14,
        LogicalKey::V => 15,
        LogicalKey::X => 16,
        LogicalKey::Y => 17,
        LogicalKey::Z => 18,
    }
}

/// The mouse buttons whose pressed state the snapshot tracks.
#[derive(Clone, Copy, PartialEq, Eq, Debug)]
pub enum PointerButton {
    Left,
    Right,
    Middle,
}

/// The modifier flags tracked beside the key table.
#[derive(Clone, Copy, PartialEq, Eq, Debug)]
pub enum ModifierKey {
    Ctrl,
    Shift,
    Alt,
    Super,
}

/// One platform event, classified into the plain values the snapshot reads.
/// Text input composed for the GUI's text fields is forwarded verbatim
/// outside the library and never touches the snapshot; the scroll-wheel
/// delta, a fractional value, is likewise handled outside.
#[derive(Clone, Copy, PartialEq, Eq, Debug)]
pub enum InputEvent {
    CloseRequested,
    Key { key: LogicalKey, pressed: bool },
    Modifier { key: ModifierKey, pressed: bool },
    CursorMoved { x: i32, y: i32 },
    Pointer { button: PointerButton, pressed: bool },
}

/// The input state one frame hands to the GUI context. Cursor position, key
/// and button state persist across frames; a close request, once observed,
/// stays observed for the rest of the iteration.
pub struct InputSnapshot {
    pub cursor_x: i32,
    pub cursor_y: i32,
    pub left_pressed: bool,
    pub right_pressed: bool,
    pub middle_pressed: bool,
    pub keys_down: Vec<bool>,
    pub ctrl: bool,
    pub shift: bool,
    pub alt: bool,
    pub super_key: bool,
    pub close_requested: bool,
}

/// The mathematical shape of the snapshot.
#[verifier::ext_equal]
pub struct SnapshotView {
    pub cursor_x: int,
    pub cursor_y: int,
    pub left_pressed: bool,
    pub right_pressed: bool,
    pub middle_pressed: bool,
    pub keys_down: Seq<bool>,
    pub ctrl: bool,
    pub shift: bool,
    pub alt: bool,
    pub super_key: bool,
    pub close_requested: bool,
}

impl View for InputSnapshot {
    type V = SnapshotView;

    open spec fn view(&self) -> SnapshotView {
        SnapshotView {
            cursor_x: self.cursor_x as int,
            cursor_y: self.cursor_y as int,
            left_pressed: self.left_pressed,
            right_pressed: self.right_pressed,
            middle_pressed: self.middle_pressed,
            keys_down: self.keys_down@,
            ctrl: self.ctrl,
            shift: self.shift,
            alt: self.alt,
            super_key: self.super_key,
            close_requested: self.close_requested,
        }
    }
}

/// The snapshot before any event: cursor at the origin, nothing pressed, no
/// close observed.
pub open spec fn initial_snapshot() -> SnapshotView {
    SnapshotView {
        cursor_x: 0,
        cursor_y: 0,
        left_pressed: false,
        right_pressed: false,
        middle_pressed: false,
        keys_down: Seq::new(KEY_COUNT as nat, |i: int| false),
        ctrl: false,
        shift: false,
        alt: false,
        super_key: false,
        close_requested: false,
    }
}

/// What one classified event changes in the snapshot: exactly the field it
/// speaks of, and nothing else.
pub open spec fn event_step(pre: SnapshotView, ev: InputEvent) -> SnapshotView {
    match ev {
        InputEvent::CloseRequested => SnapshotView { close_requested: true, ..pre },
        InputEvent::Key { key, pressed } => SnapshotView {
            keys_down: pre.keys_down.update(key_index_spec(key) as int, pressed),
            ..pre
        },
        InputEvent::Modifier { key, pressed } => match key {
            ModifierKey::Ctrl => SnapshotView { ctrl: pressed, ..pre },
            ModifierKey::Shift => SnapshotView { shift: pressed, ..pre },
            ModifierKey::Alt => SnapshotView { alt: pressed, ..pre },
            ModifierKey::Super => SnapshotView { super_key: pressed, ..pre },
        },
        InputEvent::CursorMoved { x, y } => SnapshotView {
            cursor_x: x as int,
            cursor_y: y as int,
            ..pre
        },
        InputEvent::Pointer { button, pressed } => match button {
            PointerButton::Left => SnapshotView { left_pressed: pressed, ..pre },
            PointerButton::Right => SnapshotView { right_pressed: pressed, ..pre },
            PointerButton::Middle => SnapshotView { middle_pressed: pressed, ..pre },
        },
    }
}

/// The snapshot after a frame's events, folded in arrival order.
pub open spec fn events_step(pre: SnapshotView, evs: Seq<InputEvent>) -> SnapshotView
    decreases evs.len(),
{
    if evs.len() == 0 {
        pre
    } else {
        event_step(events_step(pre, evs.drop_last()), evs.last())
    }
}

/// Law: once a window-close event stands among a frame's events, or the close
/// was already observed, the snapshot the frame ends with records the close,
/// whatever the other events were.
pub proof fn lemma_close_is_recorded(pre: SnapshotView, evs: Seq<InputEvent>)
    requires
        pre.close_requested || exists|i: int|
            0 <= i < evs.len() && (#[trigger] evs[i]) is CloseRequested,
    ensures
        events_step(pre, evs).close_requested,
    decreases evs.len(),
{
    if evs.len() > 0 {
        let head = evs.drop_last();
        if evs.last() is CloseRequested {
            assert(events_step(pre, evs).close_requested);
        } else {
            if !pre.close_requested {
                let i = choose|i: int|
                    0 <= i < evs.len() && (#[trigger] evs[i]) is CloseRequested;
                assert(i < evs.len() - 1);
                assert(head[i] is CloseRequested);
            }
            lemma_close_is_recorded(pre, head);
            assert(events_step(pre, evs).close_requested);
        }
    }
}

impl InputSnapshot {
    /// Every index of the fixed key table has a slot.
    pub open spec fn well_formed(&self) -> bool {
        self.keys_down@.len() == KEY_COUNT
    }

    /// The snapshot at startup.
    pub fn new() -> (s: InputSnapshot)
        ensures
            s.well_formed(),
            s@ == initial_snapshot(),
    {
        let mut keys: Vec<bool> = Vec::new();
        let mut i: usize = 0;
        while i < KEY_COUNT
            invariant
                i <= KEY_COUNT,
                keys@.len() == i,
                forall|j: int| 0 <= j < i ==> !(#[trigger] keys@[j]),
            decreases KEY_COUNT - i,
        {
            keys.push(false);
            i = i + 1;
        }
        let s = InputSnapshot {
            cursor_x: 0,
            cursor_y: 0,
            left_pressed: false,
            right_pressed: false,
            middle_pressed: false,
            keys_down: keys,
            ctrl: false,
            shift: false,
            alt: false,
            super_key: false,
            close_requested: false,
        };
        proof {
            assert(s@ =~= initial_snapshot());
        }
        s
    }

    /// Fold one classified event into the snapshot.
    pub fn apply_event(&mut self, ev: &InputEvent)
        requires
            old(self).well_formed(),
        ensures
            final(self).well_formed(),
            final(self)@ == event_step(old(self)@, *ev),
    {
        match ev {
            InputEvent::CloseRequested => {
                self.close_requested = true;
            },
            InputEvent::Key { key, pressed } => {
                let idx = key_index(key);
                self.keys_down.set(idx as usize, *pressed);
            },
            InputEvent::Modifier { key, pressed } => {
                match key {
                    ModifierKey::Ctrl => {
                        self.ctrl = *pressed;
                    },
                    ModifierKey::Shift => {
                        self.shift = *pressed;
                    },
                    ModifierKey::Alt => {
                        self.alt = *pressed;
                    },
                    ModifierKey::Super => {
                        self.super_key = *pressed;
                    },
                }
            },
            InputEvent::CursorMoved { x, y } => {
                self.cursor_x = *x;
                self.cursor_y = *y;
            },
            InputEvent::Pointer { button, pressed } => {
                match button {
                    PointerButton::Left => {
                        self.left_pressed = *pressed;
                    },
                    PointerButton::Right => {
                        self.right_pressed = *pressed;
                    },
                    PointerButton::Middle => {
                        self.middle_pressed = *pressed;
                    },
                }
            },
        }
        proof {
            assert(self@ =~= event_step(old(self)@, *ev));
        }
    }

    /// Fold a frame's classified events into the snapshot, in arrival order.
    pub fn apply_events(&mut self, events: &Vec<InputEvent>)
        requires
            old(self).well_formed(),
        ensures
            final(self).well_formed(),
            final(self)@ == events_step(old(self)@, events@),
    {
        let mut i: usize = 0;
        while i < events.len()
            invariant
                i <= events@.len(),
                self.well_formed(),
                self@ == events_step(old(self)@, events@.take(i as int)),
            decreases events@.len() - i,
        {
            let ev = events[i];
            self.apply_event(&ev);
            proof {
                assert(events@.take(i as int + 1).drop_last() =~= events@.take(i as int));
                assert(events@.take(i as int + 1).last() == events@[i as int]);
            }
            i = i + 1;
        }
        proof {
            assert(events@.take(events@.len() as int) =~= events@);
        }
    }
}

} // verus!
