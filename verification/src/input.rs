use vstd::prelude::*;

verus! {

/// The normalized input events the library hands to its consumers: a closed
/// taxonomy, independent of any display driver's raw codes.
#[derive(Clone, Copy, PartialEq, Eq, Structural, Debug)]
pub enum TermInput {
    Mouse(i32, i32),
    Character(char),
    Left,
    Right,
    Up,
    Down,
    SpaceBar,
    BackSpace,
    Enter,
    Tab,
    Escape,
    Home,
    End,
    Insert,
    Delete,
    PageUp,
    PageDown,
    F1,
    F2,
    F3,
    F4,
    F5,
    F6,
    F7,
    F8,
    F9,
    F10,
    F11,
    F12,
}

/// A raw code read from the display driver, settled to plain values: a typed
/// character, a named key, a mouse report with its position already queried,
/// a window resize, or something the driver knows and this library does not.
#[derive(Clone, Copy, PartialEq, Eq, Structural, Debug)]
pub enum RawInput {
    Character(char),
    BackSpace,
    Left,
    Right,
    Up,
    Down,
    Home,
    End,
    Insert,
    Delete,
    PageUp,
    PageDown,
    F1,
    F2,
    F3,
    F4,
    F5,
    F6,
    F7,
    F8,
    F9,
    F10,
    F11,
    F12,
    Mouse(i32, i32),
    Resize,
    Unknown,
}

/// What one raw code amounts to: a normalized event to enqueue, a resize to
/// handle inside the render subsystem (no event is emitted for it), or
/// nothing, for a code the taxonomy does not cover (dropped with a
/// diagnostic, never an error).
#[derive(Clone, Copy, PartialEq, Eq, Structural, Debug)]
pub enum InputOutcome {
    Event(TermInput),
    Resize,
    Dropped,
}

/// The normalization mapping.  The space, newline, tab and escape characters
/// have named events of their own; every other typed character passes
/// through as `Character`.
pub open spec fn spec_normalize(raw: RawInput) -> InputOutcome {
    match raw {
        RawInput::Character(c) => InputOutcome::Event(
            if c == ' ' {
                TermInput::SpaceBar
            } else if c == '\n' {
                TermInput::Enter
            } else if c == '\t' {
                TermInput::Tab
            } else if c == '\u{1b}' {
                TermInput::Escape
            } else {
                TermInput::Character(c)
            },
        ),
        RawInput::BackSpace => InputOutcome::Event(TermInput::BackSpace),
        RawInput::Left => InputOutcome::Event(TermInput::Left),
        RawInput::Right => InputOutcome::Event(TermInput::Right),
        RawInput::Up => InputOutcome::Event(TermInput::Up),
        RawInput::Down => InputOutcome::Event(TermInput::Down),
        RawInput::Home => InputOutcome::Event(TermInput::Home),
        RawInput::End => InputOutcome::Event(TermInput::End),
        RawInput::Insert => InputOutcome::Event(TermInput::Insert),
        RawInput::Delete => InputOutcome::Event(TermInput::Delete),
        RawInput::PageUp => InputOutcome::Event(TermInput::PageUp),
        RawInput::PageDown => InputOutcome::Event(TermInput::PageDown),
        RawInput::F1 => InputOutcome::Event(TermInput::F1),
        RawInput::F2 => InputOutcome::Event(TermInput::F2),
        RawInput::F3 => InputOutcome::Event(TermInput::F3),
        RawInput::F4 => InputOutcome::Event(TermInput::F4),
        RawInput::F5 => InputOutcome::Event(TermInput::F5),
        RawInput::F6 => InputOutcome::Event(TermInput::F6),
        RawInput::F7 => InputOutcome::Event(TermInput::F7),
        RawInput::F8 => InputOutcome::Event(TermInput::F8),
        RawInput::F9 => InputOutcome::Event(TermInput::F9),
        RawInput::F10 => InputOutcome::Event(TermInput::F10),
        RawInput::F11 => InputOutcome::Event(TermInput::F11),
        RawInput::F12 => InputOutcome::Event(TermInput::F12),
        RawInput::Mouse(x, y) => InputOutcome::Event(TermInput::Mouse(x, y)),
        RawInput::Resize => InputOutcome::Resize,
        RawInput::Unknown => InputOutcome::Dropped,
    }
}

/// Normalize one raw driver code, exactly as `spec_normalize` says: each
/// recognized code maps to exactly one event, a resize only raises the
/// resize handling, and an unrecognized code is dropped.
pub fn normalize_input(raw: RawInput) -> (out: InputOutcome)
    ensures
        out == spec_normalize(raw),
{
    match raw {
        RawInput::Character(c) => InputOutcome::Event(
            if c == ' ' {
                TermInput::SpaceBar
            } else if c == '\n' {
                TermInput::Enter
            } else if c == '\t' {
                TermInput::Tab
            } else if c == '\u{1b}' {
                TermInput::Escape
            } else {
                TermInput::Character(c)
            },
        ),
        RawInput::BackSpace => InputOutcome::Event(TermInput::BackSpace),
        RawInput::Left => InputOutcome::Event(TermInput::Left),
        RawInput::Right => InputOutcome::Event(TermInput::Right),
        RawInput::Up => InputOutcome::Event(TermInput::Up),
        RawInput::Down => InputOutcome::Event(TermInput::Down),
        RawInput::Home => InputOutcome::Event(TermInput::Home),
        RawInput::End => InputOutcome::Event(TermInput::End),
        RawInput::Insert => InputOutcome::Event(TermInput::Insert),
        RawInput::Delete => InputOutcome::Event(TermInput::Delete),
        RawInput::PageUp => InputOutcome::Event(TermInput::PageUp),
        RawInput::PageDown => InputOutcome::Event(TermInput::PageDown),
        RawInput::F1 => InputOutcome::Event(TermInput::F1),
        RawInput::F2 => InputOutcome::Event(TermInput::F2),
        RawInput::F3 => InputOutcome::Event(TermInput::F3),
        RawInput::F4 => InputOutcome::Event(TermInput::F4),
        RawInput::F5 => InputOutcome::Event(TermInput::F5),
        RawInput::F6 => InputOutcome::Event(TermInput::F6),
        RawInput::F7 => InputOutcome::Event(TermInput::F7),
        RawInput::F8 => InputOutcome::Event(TermInput::F8),
        RawInput::F9 => InputOutcome::Event(TermInput::F9),
        RawInput::F10 => InputOutcome::Event(TermInput::F10),
        RawInput::F11 => InputOutcome::Event(TermInput::F11),
        RawInput::F12 => InputOutcome::Event(TermInput::F12),
        RawInput::Mouse(x, y) => InputOutcome::Event(TermInput::Mouse(x, y)),
        RawInput::Resize => InputOutcome::Resize,
        RawInput::Unknown => InputOutcome::Dropped,
    }
}

/// The command a consumer sends the library: tear the display down and leave.
#[derive(Clone, Copy, PartialEq, Eq, Structural, Debug)]
pub enum TermCommand {
    Exit,
}

/// Consume the tick's command queue.  Only the first queued command is
/// honored; however many shutdown commands a tick queued, at most one exit
/// signal comes back, and one does if and only if the queue is non-empty.
pub fn process_commands(commands: &Vec<TermCommand>) -> (exit: bool)
    ensures
        exit == (commands@.len() > 0 && commands@[0] is Exit),
{
    if commands.len() > 0 {
        match commands[0] {
            TermCommand::Exit => true,
        }
    } else {
        false
    }
}

} // verus!
