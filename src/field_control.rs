//! The field control screen's state machine: match mode, focus, the three
//! editable mode timers and the running countdown, driven by key presses and
//! clock ticks.
use vstd::prelude::*;

use crate::widgets::{duration_with_digit, set_duration_digit, CursorPos};

verus! {

/// The competition mode the controller is told to run.
#[derive(Clone, Copy, Debug, PartialEq, Eq, Structural)]
pub enum MatchMode {
    Auto,
    Driver,
    Disabled,
}

/// A part of the screen that can hold the focus.
#[derive(Clone, Copy, Debug, PartialEq, Eq, Structural)]
pub enum Panel {
    /// The timer of one match mode.
    Mode(MatchMode),
    /// The countdown.
    Countdown,
}

/// Where the focus is: on a panel, or on the help popup, which remembers
/// the panel it returns to.
#[derive(Clone, Copy, Debug, PartialEq, Eq, Structural)]
pub enum Focus {
    Panel(Panel),
    Help(Panel),
}

/// A key press, as the screen tells them apart.
#[derive(Clone, Copy, Debug, PartialEq, Eq, Structural)]
pub enum Key {
    /// `q` or escape.
    Quit,
    /// Control-C.
    Interrupt,
    /// `?`.
    Help,
    /// `j` or down.
    Down,
    /// `k` or up.
    Up,
    /// Space or enter.
    Select,
    /// `h` or left.
    Left,
    /// `l` or right.
    Right,
    /// A decimal digit.
    Digit(u8),
    /// Anything else.
    Other,
}

/// What the screen's owner must do after an event.
#[derive(Clone, Copy, Debug, PartialEq, Eq, Structural)]
pub enum Control {
    /// Nothing.
    Continue,
    /// Leave the screen.
    Exit,
    /// Tell the controller to switch to this mode.
    ChangeMode(MatchMode),
}

/// The panel below `p`, wrapping around.
pub open spec fn panel_below(p: Panel) -> Panel {
    match p {
        Panel::Countdown => Panel::Mode(MatchMode::Driver),
        Panel::Mode(MatchMode::Driver) => Panel::Mode(MatchMode::Auto),
        Panel::Mode(MatchMode::Auto) => Panel::Mode(MatchMode::Disabled),
        Panel::Mode(MatchMode::Disabled) => Panel::Countdown,
    }
}

/// The panel above `p`, wrapping around.
pub open spec fn panel_above(p: Panel) -> Panel {
    match p {
        Panel::Countdown => Panel::Mode(MatchMode::Disabled),
        Panel::Mode(MatchMode::Driver) => Panel::Countdown,
        Panel::Mode(MatchMode::Auto) => Panel::Mode(MatchMode::Driver),
        Panel::Mode(MatchMode::Disabled) => Panel::Mode(MatchMode::Auto),
    }
}

/// The mode that follows `m` when its time runs out.
pub open spec fn mode_after(m: MatchMode) -> MatchMode {
    match m {
        MatchMode::Auto => MatchMode::Driver,
        MatchMode::Driver => MatchMode::Disabled,
        MatchMode::Disabled => MatchMode::Auto,
    }
}

/// The timer and digit cursor of one match mode.
#[derive(Clone, Copy, Debug, PartialEq, Eq, Structural)]
pub struct ModeTimer {
    pub set_secs: u64,
    pub cursor: CursorPos,
}

impl ModeTimer {
    /// The time fits `MM:SS` with at most 99 minutes shown as typed, and the
    /// cursor stands on one of the four digits.
    pub open spec fn wf(&self) -> bool {
        self.set_secs < 6000 && self.cursor.0 <= 3
    }
}

/// The whole state of the field control screen.
#[derive(Clone, Copy, Debug, PartialEq, Eq, Structural)]
pub struct FieldControl {
    pub current_mode: MatchMode,
    pub focus: Focus,
    pub auto: ModeTimer,
    pub driver: ModeTimer,
    pub disabled: ModeTimer,
    /// Remaining time shown, in milliseconds.
    pub current_ms: u64,
    pub running: bool,
}

/// The timer of mode `m` in `s`.
pub open spec fn timer_of(s: FieldControl, m: MatchMode) -> ModeTimer {
    match m {
        MatchMode::Auto => s.auto,
        MatchMode::Driver => s.driver,
        MatchMode::Disabled => s.disabled,
    }
}

/// `s` with the timer of mode `m` replaced by `t`.
pub open spec fn with_timer(s: FieldControl, m: MatchMode, t: ModeTimer) -> FieldControl {
    match m {
        MatchMode::Auto => FieldControl { auto: t, ..s },
        MatchMode::Driver => FieldControl { driver: t, ..s },
        MatchMode::Disabled => FieldControl { disabled: t, ..s },
    }
}

/// The timer after typing digit `d` at its cursor: the digit is set and the
/// cursor moves right.
pub open spec fn typed(t: ModeTimer, d: u8) -> ModeTimer {
    ModeTimer {
        set_secs: duration_with_digit(d as u64, t.cursor.0 as nat, t.set_secs) as u64,
        cursor: CursorPos(if t.cursor.0 < 3 { (t.cursor.0 + 1) as usize } else { t.cursor.0 }),
    }
}

/// The timer with its cursor moved left.
pub open spec fn moved_left(t: ModeTimer) -> ModeTimer {
    ModeTimer { cursor: CursorPos(if t.cursor.0 > 0 { (t.cursor.0 - 1) as usize } else { t.cursor.0 }), ..t }
}

/// The timer with its cursor moved right.
pub open spec fn moved_right(t: ModeTimer) -> ModeTimer {
    ModeTimer { cursor: CursorPos(if t.cursor.0 < 3 { (t.cursor.0 + 1) as usize } else { t.cursor.0 }), ..t }
}

/// The state after key `k` in `s`, with the control it asks for.
pub open spec fn after_key(s: FieldControl, k: Key) -> (FieldControl, Control) {
    match k {
        Key::Quit => match s.focus {
            Focus::Help(p) => (FieldControl { focus: Focus::Panel(p), ..s }, Control::Continue),
            Focus::Panel(_) => (s, Control::Exit),
        },
        Key::Interrupt => (s, Control::Exit),
        Key::Help => match s.focus {
            Focus::Help(_) => (s, Control::Continue),
            Focus::Panel(p) => (FieldControl { focus: Focus::Help(p), ..s }, Control::Continue),
        },
        Key::Down => match s.focus {
            Focus::Panel(p) => (FieldControl { focus: Focus::Panel(panel_below(p)), ..s }, Control::Continue),
            Focus::Help(_) => (s, Control::Continue),
        },
        Key::Up => match s.focus {
            Focus::Panel(p) => (FieldControl { focus: Focus::Panel(panel_above(p)), ..s }, Control::Continue),
            Focus::Help(_) => (s, Control::Continue),
        },
        Key::Select => match s.focus {
            Focus::Panel(Panel::Countdown) => (
                FieldControl { running: !s.running, ..s },
                Control::ChangeMode(s.current_mode),
            ),
            Focus::Panel(Panel::Mode(m)) => (FieldControl { current_mode: m, ..s }, Control::ChangeMode(m)),
            Focus::Help(_) => (s, Control::ChangeMode(s.current_mode)),
        },
        Key::Left => match s.focus {
            Focus::Panel(Panel::Mode(m)) => (with_timer(s, m, moved_left(timer_of(s, m))), Control::Continue),
            _ => (s, Control::Continue),
        },
        Key::Right => match s.focus {
            Focus::Panel(Panel::Mode(m)) => (with_timer(s, m, moved_right(timer_of(s, m))), Control::Continue),
            _ => (s, Control::Continue),
        },
        Key::Digit(d) => match s.focus {
            Focus::Panel(Panel::Mode(m)) => (with_timer(s, m, typed(timer_of(s, m), d)), Control::Continue),
            _ => (s, Control::Continue),
        },
        Key::Other => (s, Control::Continue),
    }
}

/// What a clock tick asks of the screen's owner.
#[derive(Clone, Copy, Debug, PartialEq, Eq, Structural)]
pub struct Tick {
    pub control: Control,
    /// Restart the countdown's clock from now.
    pub restart_clock: bool,
}

impl FieldControl {
    /// Every timer is well formed.
    pub open spec fn wf(&self) -> bool {
        self.auto.wf() && self.driver.wf() && self.disabled.wf()
    }

    /// The screen as it opens: disabled, focus on the driver timer, 15 s of
    /// autonomous and 1:45 of driver control.
    pub fn new() -> (r: Self)
        ensures
            r.wf(),
            r.current_mode == MatchMode::Disabled,
            r.focus == Focus::Panel(Panel::Mode(MatchMode::Driver)),
            r.auto == (ModeTimer { set_secs: 15, cursor: CursorPos(0) }),
            r.driver == (ModeTimer { set_secs: 105, cursor: CursorPos(0) }),
            r.disabled == (ModeTimer { set_secs: 0, cursor: CursorPos(0) }),
            r.current_ms == 0,
            !r.running,
    {
        FieldControl {
            current_mode: MatchMode::Disabled,
            focus: Focus::Panel(Panel::Mode(MatchMode::Driver)),
            auto: ModeTimer { set_secs: 15, cursor: CursorPos(0) },
            driver: ModeTimer { set_secs: 105, cursor: CursorPos(0) },
            disabled: ModeTimer { set_secs: 0, cursor: CursorPos(0) },
            current_ms: 0,
            running: false,
        }
    }

    /// The set time of mode `m`, in seconds.
    pub fn set_time(&self, m: MatchMode) -> (r: u64)
        ensures
            r == timer_of(*self, m).set_secs,
    {
        match m {
            MatchMode::Auto => self.auto.set_secs,
            MatchMode::Driver => self.driver.set_secs,
            MatchMode::Disabled => self.disabled.set_secs,
        }
    }

    fn timer_mut(&mut self, m: MatchMode) -> (r: &mut ModeTimer)
        ensures
            *r == timer_of(*old(self), m),
            *final(self) == with_timer(*old(self), m, *final(r)),
    {
        match m {
            MatchMode::Auto => &mut self.auto,
            MatchMode::Driver => &mut self.driver,
            MatchMode::Disabled => &mut self.disabled,
        }
    }

    /// Handles one key press.
    pub fn handle_key(&mut self, key: Key) -> (r: Control)
        requires
            old(self).wf(),
            key matches Key::Digit(d) ==> d <= 9,
        ensures
            final(self).wf(),
            (*final(self), r) == after_key(*old(self), key),
    {
        match key {
            Key::Quit => match self.focus {
                Focus::Help(p) => {
                    self.focus = Focus::Panel(p);
                    Control::Continue
                },
                Focus::Panel(_) => Control::Exit,
            },
            Key::Interrupt => Control::Exit,
            Key::Help => match self.focus {
                Focus::Help(_) => Control::Continue,
                Focus::Panel(p) => {
                    self.focus = Focus::Help(p);
                    Control::Continue
                },
            },
            Key::Down => {
                if let Focus::Panel(p) = self.focus {
                    self.focus = Focus::Panel(
                        match p {
                            Panel::Countdown => Panel::Mode(MatchMode::Driver),
                            Panel::Mode(MatchMode::Driver) => Panel::Mode(MatchMode::Auto),
                            Panel::Mode(MatchMode::Auto) => Panel::Mode(MatchMode::Disabled),
                            Panel::Mode(MatchMode::Disabled) => Panel::Countdown,
                        },
                    );
                }
                Control::Continue
            },
            Key::Up => {
                if let Focus::Panel(p) = self.focus {
                    self.focus = Focus::Panel(
                        match p {
                            Panel::Countdown => Panel::Mode(MatchMode::Disabled),
                            Panel::Mode(MatchMode::Driver) => Panel::Countdown,
                            Panel::Mode(MatchMode::Auto) => Panel::Mode(MatchMode::Driver),
                            Panel::Mode(MatchMode::Disabled) => Panel::Mode(MatchMode::Auto),
                        },
                    );
                }
                Control::Continue
            },
            Key::Select => {
                match self.focus {
                    Focus::Panel(Panel::Countdown) => {
                        self.running = !self.running;
                    },
                    Focus::Panel(Panel::Mode(m)) => {
                        self.current_mode = m;
                    },
                    Focus::Help(_) => {},
                }
                Control::ChangeMode(self.current_mode)
            },
            Key::Left => {
                if let Focus::Panel(Panel::Mode(m)) = self.focus {
                    let t = self.timer_mut(m);
                    t.cursor.move_left();
                }
                Control::Continue
            },
            Key::Right => {
                if let Focus::Panel(Panel::Mode(m)) = self.focus {
                    let t = self.timer_mut(m);
                    t.cursor.move_right();
                }
                Control::Continue
            },
            Key::Digit(d) => {
                if let Focus::Panel(Panel::Mode(m)) = self.focus {
                    let t = self.timer_mut(m);
                    t.set_secs = set_duration_digit(d, t.cursor.0, t.set_secs);
                    t.cursor.move_right();
                }
                Control::Continue
            },
            Key::Other => Control::Continue,
        }
    }

    /// Advances the countdown. `elapsed_ms` is the time since the clock was
    /// last restarted. A running countdown shows the current mode's set time
    /// less the elapsed time; once under a second remains, the next mode
    /// starts (driver control ends the run) and the clock restarts. A stopped
    /// countdown shows the current mode's set time and keeps its clock at zero.
    pub fn tick(&mut self, elapsed_ms: u64) -> (r: Tick)
        requires
            old(self).wf(),
        ensures
            final(self).wf(),
            final(self).focus == old(self).focus,
            final(self).auto == old(self).auto && final(self).driver == old(self).driver
                && final(self).disabled == old(self).disabled,
            ({
                let set_ms = timer_of(*old(self), old(self).current_mode).set_secs * 1000;
                let left = if elapsed_ms < set_ms { set_ms - elapsed_ms } else { 0 };
                if !old(self).running {
                    &&& final(self).current_ms == set_ms
                    &&& final(self).current_mode == old(self).current_mode
                    &&& !final(self).running
                    &&& r == (Tick { control: Control::Continue, restart_clock: true })
                } else if left >= 1000 {
                    &&& final(self).current_ms == left
                    &&& final(self).current_mode == old(self).current_mode
                    &&& final(self).running
                    &&& r == (Tick { control: Control::Continue, restart_clock: false })
                } else {
                    let next = mode_after(old(self).current_mode);
                    &&& final(self).current_ms == left
                    &&& final(self).current_mode == next
                    &&& final(self).running == (old(self).current_mode != MatchMode::Driver)
                    &&& r == (Tick { control: Control::ChangeMode(next), restart_clock: true })
                }
            }),
    {
        let set_ms = self.set_time(self.current_mode) * 1000;
        if !self.running {
            self.current_ms = set_ms;
            return Tick { control: Control::Continue, restart_clock: true };
        }
        self.current_ms = if elapsed_ms < set_ms {
            set_ms - elapsed_ms
        } else {
            0
        };
        if self.current_ms >= 1000 {
            return Tick { control: Control::Continue, restart_clock: false };
        }
        let next = match self.current_mode {
            MatchMode::Auto => MatchMode::Driver,
            MatchMode::Driver => {
                self.running = false;
                MatchMode::Disabled
            },
            MatchMode::Disabled => MatchMode::Auto,
        };
        self.current_mode = next;
        Tick { control: Control::ChangeMode(next), restart_clock: true }
    }
}

} // verus!
