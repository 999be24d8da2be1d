//! State of the match-timer editor of the field control screen: a duration
//! shown as `MM:SS` whose digits are typed in one at a time.
use vstd::prelude::*;

verus! {

/// The duration, in seconds, after typing `digit` at display position `pos`
/// (0 and 1 are the minute digits, 2 and 3 the second digits) of `secs`.
/// The tens of seconds stop at 5.
pub open spec fn duration_with_digit(digit: u64, pos: nat, secs: u64) -> nat {
    if pos == 0 {
        (digit * 600 + secs % 600) as nat
    } else if pos == 1 {
        (digit * 60 + secs % 60 + (secs / 600) * 600) as nat
    } else if pos == 2 {
        ((if digit < 5 { digit } else { 5 }) * 10 + secs % 10 + (secs / 60) * 60) as nat
    } else {
        (digit + (secs / 10) * 10) as nat
    }
}

/// Replaces the digit at display position `pos` of `duration_secs`, shown as
/// `MM:SS`, by `digit`.
pub fn set_duration_digit(digit: u8, pos: usize, duration_secs: u64) -> (r: u64)
    requires
        digit <= 9,
        pos <= 3,
        duration_secs <= u64::MAX - 600,
    ensures
        r == duration_with_digit(digit as u64, pos as nat, duration_secs),
        duration_secs < 6000 ==> r < 6000,
{
    let digit = digit as u64;
    let current = duration_secs;
    if pos == 0 {
        digit * 600 + current % 600
    } else if pos == 1 {
        assert((current / 600) * 600 <= current) by (nonlinear_arith);
        assert(current < 6000 ==> (current / 600) * 600 <= 5400) by (nonlinear_arith);
        digit * 60 + current % 60 + (current / 600) * 600
    } else if pos == 2 {
        assert((current / 60) * 60 <= current) by (nonlinear_arith);
        assert(current < 6000 ==> (current / 60) * 60 <= 5940) by (nonlinear_arith);
        let tens = if digit < 5 {
            digit
        } else {
            5
        };
        tens * 10 + current % 10 + (current / 60) * 60
    } else {
        assert((current / 10) * 10 <= current) by (nonlinear_arith);
        assert(current < 6000 ==> (current / 10) * 10 <= 5990) by (nonlinear_arith);
        digit + (current / 10) * 10
    }
}

/// A cursor over the four digits of a duration.
#[derive(Clone, Copy, Debug, PartialEq, Eq, Structural)]
pub struct CursorPos(pub usize);

impl CursorPos {
    /// Moves one digit left, stopping at the first.
    pub fn move_left(&mut self)
        ensures
            final(self).0 == if old(self).0 > 0 { (old(self).0 - 1) as usize } else { old(self).0 },
    {
        if self.0 > 0 {
            self.0 = self.0 - 1;
        }
    }

    /// Moves one digit right, stopping at the last.
    pub fn move_right(&mut self)
        ensures
            final(self).0 == if old(self).0 < 3 { (old(self).0 + 1) as usize } else { old(self).0 },
    {
        if self.0 < 3 {
            self.0 = self.0 + 1;
        }
    }
}

/// An editable duration with a cursor on one of its digits.
#[derive(Clone, Copy, Debug, PartialEq, Eq, Structural)]
pub struct DurationInput {
    pub duration_secs: u64,
    pub cursor_position: usize,
    pub selected: bool,
}

impl DurationInput {
    /// The cursor stands on one of the four digits.
    pub open spec fn wf(&self) -> bool {
        self.cursor_position <= 3
    }

    /// An unselected input with the cursor on the first digit.
    pub fn new(duration_secs: u64) -> (r: Self)
        ensures
            r.wf(),
            r.duration_secs == duration_secs,
            r.cursor_position == 0,
            !r.selected,
    {
        DurationInput { duration_secs, cursor_position: 0, selected: false }
    }

    /// Puts the cursor on digit `cursor_position`.
    pub fn set_cursor_position(&mut self, cursor_position: usize)
        requires
            cursor_position <= 3,
        ensures
            final(self).cursor_position == cursor_position,
            final(self).duration_secs == old(self).duration_secs,
            final(self).selected == old(self).selected,
            final(self).wf(),
    {
        self.cursor_position = cursor_position;
    }

    /// The column of the cursor in the `MM:SS` text: the colon is skipped.
    pub fn cursor_column(&self) -> (r: usize)
        requires
            self.wf(),
        ensures
            r == if self.cursor_position > 1 { self.cursor_position + 1 } else { self.cursor_position as int },
    {
        if self.cursor_position > 1 {
            self.cursor_position + 1
        } else {
            self.cursor_position
        }
    }
}

/// A match mode with its name, its timer input and its highlight flags.
#[derive(Clone, Debug)]
pub struct Mode {
    pub name: String,
    pub selected: bool,
    pub current: bool,
    pub input: DurationInput,
}

impl Mode {
    /// The timer input is well formed.
    pub open spec fn wf(&self) -> bool {
        self.input.wf()
    }

    /// An unselected, inactive mode with a fresh timer input.
    pub fn new(name: String, duration_secs: u64) -> (r: Self)
        ensures
            r.wf(),
            r.name@ == name@,
            !r.selected,
            !r.current,
            r.input.duration_secs == duration_secs,
            r.input.cursor_position == 0,
            !r.input.selected,
    {
        Mode { name, selected: false, current: false, input: DurationInput::new(duration_secs) }
    }

    /// Puts the timer's cursor on digit `cursor_position`.
    pub fn set_cursor_position(&mut self, cursor_position: usize)
        requires
            cursor_position <= 3,
        ensures
            final(self).wf(),
            final(self).input.cursor_position == cursor_position,
            final(self).input.duration_secs == old(self).input.duration_secs,
            final(self).input.selected == old(self).input.selected,
            final(self).name@ == old(self).name@,
            final(self).selected == old(self).selected,
            final(self).current == old(self).current,
    {
        self.input.set_cursor_position(cursor_position);
    }

    /// Marks the mode and its timer input as selected.
    pub fn select(&mut self)
        ensures
            final(self).selected,
            final(self).input.selected,
            final(self).input.duration_secs == old(self).input.duration_secs,
            final(self).input.cursor_position == old(self).input.cursor_position,
            final(self).name@ == old(self).name@,
            final(self).current == old(self).current,
    {
        self.selected = true;
        self.input.selected = true;
    }
}

/// The key help shown over the field control screen.
pub struct HelpPopup;

impl HelpPopup {
    pub const HELP_TEXT: &'static str = "'q', 'esc' - Quit app or help
        'h', 'left' - Move cursor left
        'l', 'right' - Move cursor right
        'j', 'down' - Move focus down
        'k', 'up' - Move focus up
        'space', 'enter' - Select
        '0'-'9' - Set digit in mode duration input
        '?' - Show this help";

    /// Height of the popup, in lines.
    pub const LINES: u16 = 9;
}

} // verus!
