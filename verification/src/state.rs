//! The answers that a process works out once and then keeps.
//!
//! A [`TerminalState`] holds five cells: whether color is forced on, the
//! use-color flag, the color level, and whether standard output and
//! standard error are terminals. Every cell starts empty. The first call
//! that asks for an answer fills its cell from what the caller hands in; from
//! then on the cell decides and the input is ignored. Only the use-color flag
//! can be overwritten, by [`set_use_color`].
//!
//! A process keeps one such value for its lifetime, behind whatever lock or
//! cell its threading needs.

use crate::colors::level::color_level_of;
use crate::colors::level::default_use_color;
use crate::colors::level::force_enabled;
use crate::colors::level::resolve_color_level;
use crate::colors::level::resolve_use_color;
use crate::colors::level::ColorLevel;
use crate::env::EnvSignals;
use crate::env::Signals;
use crate::env::Target;
use vstd::prelude::*;

verus! {

/// The cells of a [`TerminalState`]; an empty cell is `None`.
pub struct Memo {
    pub force_color: Option<bool>,
    pub use_color: Option<bool>,
    pub color_level: Option<ColorLevel>,
    pub stdout_tty: Option<bool>,
    pub stderr_tty: Option<bool>,
}

/// What a cell answers: its content, or `fresh` while it is empty.
pub open spec fn recall<T>(cell: Option<T>, fresh: T) -> T {
    match cell {
        Some(kept) => kept,
        None => fresh,
    }
}

impl Memo {
    /// The state in which nothing has been asked yet.
    pub open spec fn empty() -> Memo {
        Memo {
            force_color: None,
            use_color: None,
            color_level: None,
            stdout_tty: None,
            stderr_tty: None,
        }
    }

    /// Every answer that `earlier` holds is still held, unchanged; the
    /// use-color flag aside, which can be set anew.
    pub open spec fn keeps(self, earlier: Memo) -> bool {
        &&& earlier.force_color is Some ==> self.force_color == earlier.force_color
        &&& earlier.color_level is Some ==> self.color_level == earlier.color_level
        &&& earlier.stdout_tty is Some ==> self.stdout_tty == earlier.stdout_tty
        &&& earlier.stderr_tty is Some ==> self.stderr_tty == earlier.stderr_tty
        &&& earlier.use_color is Some ==> self.use_color is Some
    }

    /// What [`force_color`] answers in this state.
    pub open spec fn force_color_in(self, env: Signals) -> bool {
        recall(self.force_color, force_enabled(env))
    }

    /// The state that [`force_color`] leaves behind.
    pub open spec fn after_force_color(self, env: Signals) -> Memo {
        Memo { force_color: Some(self.force_color_in(env)), ..self }
    }

    /// What [`get_color_level`] answers in this state.
    pub open spec fn color_level_in(self, env: Signals) -> ColorLevel {
        recall(self.color_level, color_level_of(self.force_color_in(env), env))
    }

    /// The state that [`get_color_level`] leaves behind. Resolving the level
    /// asks whether color is forced on, except on a WebAssembly target.
    pub open spec fn after_get_color_level(self, env: Signals) -> Memo {
        if self.color_level is Some {
            self
        } else if env.target is Wasm {
            Memo { color_level: Some(ColorLevel::NoColor), ..self }
        } else {
            Memo {
                color_level: Some(self.color_level_in(env)),
                force_color: Some(self.force_color_in(env)),
                ..self
            }
        }
    }

    /// What [`use_color`] answers in this state.
    pub open spec fn use_color_in(self, env: Signals) -> bool {
        recall(self.use_color, default_use_color(self.force_color_in(env), env))
    }

    /// The state that [`use_color`] leaves behind. Initializing the flag asks
    /// whether color is forced on, except on a WebAssembly target.
    pub open spec fn after_use_color(self, env: Signals) -> Memo {
        if self.use_color is Some {
            self
        } else if env.target is Wasm {
            Memo { use_color: Some(false), ..self }
        } else {
            Memo {
                use_color: Some(self.use_color_in(env)),
                force_color: Some(self.force_color_in(env)),
                ..self
            }
        }
    }

    /// The state that [`set_use_color`] leaves behind.
    pub open spec fn after_set_use_color(self, use_color: bool) -> Memo {
        Memo { use_color: Some(use_color), ..self }
    }

    /// The state that [`is_stdout_tty`] leaves behind.
    pub open spec fn after_is_stdout_tty(self, attached: bool) -> Memo {
        Memo { stdout_tty: Some(recall(self.stdout_tty, attached)), ..self }
    }

    /// The state that [`is_stderr_tty`] leaves behind.
    pub open spec fn after_is_stderr_tty(self, attached: bool) -> Memo {
        Memo { stderr_tty: Some(recall(self.stderr_tty, attached)), ..self }
    }
}

/// The memoized answers of one process.
#[derive(Debug)]
pub struct TerminalState {
    force_color: Option<bool>,
    use_color: Option<bool>,
    color_level: Option<ColorLevel>,
    stdout_tty: Option<bool>,
    stderr_tty: Option<bool>,
}

impl View for TerminalState {
    type V = Memo;

    closed spec fn view(&self) -> Memo {
        Memo {
            force_color: self.force_color,
            use_color: self.use_color,
            color_level: self.color_level,
            stdout_tty: self.stdout_tty,
            stderr_tty: self.stderr_tty,
        }
    }
}

impl TerminalState {
    /// The state of a process that has not asked anything yet.
    pub fn new() -> (state: TerminalState)
        ensures
            state@ == Memo::empty(),
    {
        TerminalState {
            force_color: None,
            use_color: None,
            color_level: None,
            stdout_tty: None,
            stderr_tty: None,
        }
    }
}

/// Whether the environment forces color on: `FORCE_COLOR` is set to a value
/// that is not empty.
///
/// The first call decides from `env`; later calls repeat its answer.
pub fn force_color(state: &mut TerminalState, env: &EnvSignals) -> (force: bool)
    ensures
        force == old(state)@.force_color_in(env@),
        final(state)@ == old(state)@.after_force_color(env@),
{
    match state.force_color {
        Some(force) => force,
        None => {
            let force = env.force_color.is_set();
            state.force_color = Some(force);
            force
        },
    }
}

/// The color level of the terminal.
///
/// The first call resolves the level from `env`; later calls repeat its
/// answer, whatever they are given.
pub fn get_color_level(state: &mut TerminalState, env: &EnvSignals) -> (level: ColorLevel)
    ensures
        level == old(state)@.color_level_in(env@),
        final(state)@ == old(state)@.after_get_color_level(env@),
{
    match state.color_level {
        Some(level) => level,
        None => {
            let level = if let Target::Wasm = env.target {
                ColorLevel::NoColor
            } else {
                let force = force_color(state, env);
                resolve_color_level(force, env)
            };
            state.color_level = Some(level);
            level
        },
    }
}

/// Whether color is to be used in the output.
///
/// Until the flag is set or read, it stands as `env` has it: set where
/// `FORCE_COLOR` is set, else cleared where `NO_COLOR` is set, else set. The
/// first read keeps that value. On a WebAssembly target the flag starts out
/// cleared, and [`set_use_color`] is the way to switch color on.
pub fn use_color(state: &mut TerminalState, env: &EnvSignals) -> (flag: bool)
    ensures
        flag == old(state)@.use_color_in(env@),
        final(state)@ == old(state)@.after_use_color(env@),
{
    match state.use_color {
        Some(flag) => flag,
        None => {
            let flag = if let Target::Wasm = env.target {
                false
            } else {
                let force = force_color(state, env);
                resolve_use_color(force, env)
            };
            state.use_color = Some(flag);
            flag
        },
    }
}

/// Sets whether color is to be used in the output, whatever the environment
/// says. The value holds until the flag is set again.
pub fn set_use_color(state: &mut TerminalState, use_color: bool)
    ensures
        final(state)@ == old(state)@.after_set_use_color(use_color),
{
    state.use_color = Some(use_color);
}

/// Whether standard output is a terminal, where `attached` is what the
/// platform answers now.
///
/// The first call keeps `attached`; later calls repeat it.
pub fn is_stdout_tty(state: &mut TerminalState, attached: bool) -> (tty: bool)
    ensures
        tty == recall(old(state)@.stdout_tty, attached),
        final(state)@ == old(state)@.after_is_stdout_tty(attached),
{
    match state.stdout_tty {
        Some(tty) => tty,
        None => {
            state.stdout_tty = Some(attached);
            attached
        },
    }
}

/// Whether standard error is a terminal, where `attached` is what the
/// platform answers now.
///
/// The first call keeps `attached`; later calls repeat it.
pub fn is_stderr_tty(state: &mut TerminalState, attached: bool) -> (tty: bool)
    ensures
        tty == recall(old(state)@.stderr_tty, attached),
        final(state)@ == old(state)@.after_is_stderr_tty(attached),
{
    match state.stderr_tty {
        Some(tty) => tty,
        None => {
            state.stderr_tty = Some(attached);
            attached
        },
    }
}

} // verus!
