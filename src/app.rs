use vstd::prelude::*;

use crate::title::{Align, Title, TypeMode};

verus! {

/// The modifier set that holds the Control key alone, in the bit numbering
/// terminals use for key modifiers (Shift is bit 0, Control bit 1, Alt bit 2).
pub const CONTROL: u8 = 0b0000_0010;

/// The key of a key event, as far as the bindings tell keys apart.
#[derive(Debug, Clone, Copy, PartialEq, Eq, Structural)]
pub enum KeyCode {
    Char(char),
    Left,
    Right,
    Up,
    /// Any other key.
    Other,
}

/// A key press: the key and the set of modifiers held with it.
#[derive(Debug, Clone, Copy, PartialEq, Eq, Structural)]
pub struct KeyEvent {
    pub code: KeyCode,
    pub modifiers: u8,
}

/// One input event.
#[derive(Debug, Clone, Copy, PartialEq, Eq, Structural)]
pub enum Event {
    Key(KeyEvent),
    /// Anything that is not a key press: mouse, resize, focus, paste.
    Other,
}

/// The application's state: the active key bindings and the title.
#[derive(Debug, Clone)]
pub struct App {
    pub mode: TypeMode,
    pub title: Title,
}

/// `q` with any modifiers, or Control-`c`, asks to quit.
pub open spec fn is_quit_key(k: KeyEvent) -> bool {
    k.code == KeyCode::Char('q') || (k.code == KeyCode::Char('c') && k.modifiers == CONTROL)
}

/// The signal that `event` gives in `mode`: `Some(true)` to quit, `None` to
/// go on.
pub open spec fn event_signal(mode: TypeMode, event: Event) -> Option<bool> {
    match (mode, event) {
        (TypeMode::Normal, Event::Key(k)) => if is_quit_key(k) {
            Some(true)
        } else {
            None
        },
        _ => None,
    }
}

/// The title's alignment after `event` in `mode`: in normal mode the right,
/// left and up arrows choose right, left and centred; nothing else changes it.
pub open spec fn next_align(mode: TypeMode, align: Align, event: Event) -> Align {
    match (mode, event) {
        (TypeMode::Normal, Event::Key(k)) => if is_quit_key(k) {
            align
        } else {
            match k.code {
                KeyCode::Right => Align::Right,
                KeyCode::Left => Align::Left,
                KeyCode::Up => Align::Middle,
                _ => align,
            }
        },
        _ => align,
    }
}

/// The alignment after feeding `events`, first to last, from `align`.
pub open spec fn align_after(mode: TypeMode, align: Align, events: Seq<Event>) -> Align
    decreases events.len(),
{
    if events.len() == 0 {
        align
    } else {
        next_align(mode, align_after(mode, align, events.drop_last()), events.last())
    }
}

impl App {
    /// Normal mode with an empty, left-aligned title.
    pub fn new() -> (r: App)
        ensures
            r.mode == TypeMode::Normal,
            r.title.text@ == Seq::<char>::empty(),
            r.title.align == Align::Left,
    {
        App { mode: TypeMode::Normal, title: Title::new() }
    }

    /// Handles one event: returns `Some(true)` when it asks to quit and
    /// `None` otherwise, and moves the title as the bindings of the current
    /// mode say. The mode and the title's text never change.
    pub fn match_event(&mut self, event: Event) -> (r: Option<bool>)
        ensures
            r == event_signal(old(self).mode, event),
            final(self).mode == old(self).mode,
            final(self).title.text == old(self).title.text,
            final(self).title.align == next_align(old(self).mode, old(self).title.align, event),
    {
        match self.mode {
            TypeMode::Normal => match event {
                Event::Key(k) => {
                    let quit = match k.code {
                        KeyCode::Char(c) => c == 'q' || (c == 'c' && k.modifiers == CONTROL),
                        _ => false,
                    };
                    if quit {
                        Some(true)
                    } else {
                        match k.code {
                            KeyCode::Right => self.title.set_align(Align::Right),
                            KeyCode::Left => self.title.set_align(Align::Left),
                            KeyCode::Up => self.title.set_align(Align::Middle),
                            _ => {},
                        }
                        None
                    }
                },
                Event::Other => None,
            },
            TypeMode::Insert => None,
            TypeMode::Select => None,
            TypeMode::Command => None,
        }
    }
}

/// The row on which to echo the last event: five rows above the bottom of a
/// screen `rows` high, or the first row of a smaller one.
pub fn echo_row(rows: u16) -> (r: u16)
    ensures
        r == if rows >= 5 {
            rows - 5
        } else {
            0
        },
{
    if rows >= 5 {
        rows - 5
    } else {
        0
    }
}

/// In normal mode, whatever events came before, `q` (with any modifiers)
/// or Control-`c` gives the quit signal and leaves the title where it was.
pub proof fn lemma_quit_at_any_point(align: Align, before: Seq<Event>, quit: KeyEvent)
    requires
        is_quit_key(quit),
    ensures
        event_signal(TypeMode::Normal, Event::Key(quit)) == Some(true),
        next_align(TypeMode::Normal, align_after(TypeMode::Normal, align, before), Event::Key(quit))
            == align_after(TypeMode::Normal, align, before),
        align_after(TypeMode::Normal, align, before.push(Event::Key(quit))) == align_after(
            TypeMode::Normal,
            align,
            before,
        ),
{
    assert(before.push(Event::Key(quit)).drop_last() =~= before);
}

/// Outside normal mode every event is ignored: the signal is to go on and
/// the alignment stays.
pub proof fn lemma_other_modes_ignore(mode: TypeMode, align: Align, events: Seq<Event>)
    requires
        mode != TypeMode::Normal,
    ensures
        align_after(mode, align, events) == align,
        forall|e: Event| #[trigger] event_signal(mode, e) == None::<bool>,
    decreases events.len(),
{
    if events.len() > 0 {
        lemma_other_modes_ignore(mode, align, events.drop_last());
    }
}

} // verus!
