//! A snapshot of the environment signals that drive color detection.
//!
//! The library never reads the process environment. A caller hands over the
//! variables it has read, and the kind of target it was built for, and
//! [`EnvSignals::from_vars`] picks out the six that detection looks at.

use crate::strings::str_ends_with;
use crate::strings::str_eq;
use vstd::prelude::*;

verus! {

/// The value of one environment variable, as far as detection looks at it.
#[derive(Debug, PartialEq, Eq)]
pub enum EnvVar {
    /// The variable is not set.
    Unset,
    /// The variable is set to this text, which may be empty.
    Text(String),
    /// The variable is set, but its value is not valid Unicode.
    /// Such a value is never empty.
    NotUnicode,
}

/// Mathematical model of an [`EnvVar`].
pub enum Signal {
    Unset,
    Text(Seq<char>),
    NotUnicode,
}

impl Signal {
    /// The variable is set, to whatever value.
    pub open spec fn is_present(self) -> bool {
        !(self is Unset)
    }

    /// The variable is set to a non-empty value.
    pub open spec fn is_set(self) -> bool {
        match self {
            Signal::Unset => false,
            Signal::Text(text) => text.len() > 0,
            Signal::NotUnicode => true,
        }
    }

    /// The variable is set to exactly `text`.
    pub open spec fn is_text(self, text: Seq<char>) -> bool {
        self == Signal::Text(text)
    }

    /// The variable is set to a text that ends with `suffix`.
    pub open spec fn ends_with(self, suffix: Seq<char>) -> bool {
        self matches Signal::Text(text) && suffix.is_suffix_of(text)
    }
}

impl View for EnvVar {
    type V = Signal;

    open spec fn view(&self) -> Signal {
        match self {
            EnvVar::Unset => Signal::Unset,
            EnvVar::Text(text) => Signal::Text(text@),
            EnvVar::NotUnicode => Signal::NotUnicode,
        }
    }
}

impl EnvVar {
    /// Whether the variable is set, to whatever value.
    pub fn is_present(&self) -> (present: bool)
        ensures
            present == self@.is_present(),
    {
        match self {
            EnvVar::Unset => false,
            _ => true,
        }
    }

    /// Whether the variable is set to a non-empty value.
    pub fn is_set(&self) -> (set: bool)
        ensures
            set == self@.is_set(),
    {
        match self {
            EnvVar::Unset => false,
            EnvVar::Text(text) => !text.as_str().is_empty(),
            EnvVar::NotUnicode => true,
        }
    }

    /// Whether the variable is set to exactly `text`.
    pub fn is_text(&self, text: &str) -> (same: bool)
        ensures
            same == self@.is_text(text@),
    {
        match self {
            EnvVar::Text(value) => str_eq(value.as_str(), text),
            _ => false,
        }
    }

    /// Whether the variable is set to a text that ends with `suffix`.
    pub fn ends_with(&self, suffix: &str) -> (ends: bool)
        ensures
            ends == self@.ends_with(suffix@),
    {
        match self {
            EnvVar::Text(value) => str_ends_with(value.as_str(), suffix),
            _ => false,
        }
    }
}

/// The kind of target the program runs on.
#[derive(Clone, Copy, Debug, PartialEq, Eq, Structural)]
pub enum Target {
    /// An ordinary target, whose terminal is judged by the environment.
    Native,
    /// Windows, whose console handles full color.
    Windows,
    /// A WebAssembly target, where the environment may be out of reach.
    Wasm,
}

/// The signals that color detection consults.
#[derive(Debug, PartialEq, Eq)]
pub struct EnvSignals {
    /// `FORCE_COLOR`: a non-empty value switches color on.
    pub force_color: EnvVar,
    /// `NO_COLOR`: a non-empty value switches color off.
    pub no_color: EnvVar,
    /// `TERM`: the terminal type.
    pub term: EnvVar,
    /// `TMUX`: set inside a tmux session.
    pub tmux: EnvVar,
    /// `CI`: the name of a continuous-integration vendor.
    pub ci: EnvVar,
    /// `COLORTERM`: the color capability that the terminal announces.
    pub colorterm: EnvVar,
    /// The target the program was built for.
    pub target: Target,
}

/// Mathematical model of an [`EnvSignals`].
pub struct Signals {
    pub force_color: Signal,
    pub no_color: Signal,
    pub term: Signal,
    pub tmux: Signal,
    pub ci: Signal,
    pub colorterm: Signal,
    pub target: Target,
}

impl Signals {
    /// The signals of an environment in which none of the variables is set.
    pub open spec fn unset(target: Target) -> Signals {
        Signals {
            force_color: Signal::Unset,
            no_color: Signal::Unset,
            term: Signal::Unset,
            tmux: Signal::Unset,
            ci: Signal::Unset,
            colorterm: Signal::Unset,
            target,
        }
    }
}

impl View for EnvSignals {
    type V = Signals;

    open spec fn view(&self) -> Signals {
        Signals {
            force_color: self.force_color@,
            no_color: self.no_color@,
            term: self.term@,
            tmux: self.tmux@,
            ci: self.ci@,
            colorterm: self.colorterm@,
            target: self.target,
        }
    }
}

/// The value that a list of variables gives to `name`: that of the first
/// entry of that name, or `otherwise` where there is none.
pub open spec fn lookup_or(vars: Seq<(Seq<char>, Signal)>, name: Seq<char>, otherwise: Signal)
    -> Signal
    decreases vars.len(),
{
    if vars.len() == 0 {
        otherwise
    } else if vars[0].0 == name {
        vars[0].1
    } else {
        lookup_or(vars.drop_first(), name, otherwise)
    }
}

/// The value that a list of variables gives to `name`; a name that does not
/// occur is not set.
pub open spec fn lookup(vars: Seq<(Seq<char>, Signal)>, name: Seq<char>) -> Signal {
    lookup_or(vars, name, Signal::Unset)
}

/// Whether `name` is one of the variables that detection looks at.
pub open spec fn is_signal_name(name: Seq<char>) -> bool {
    ||| name == "FORCE_COLOR"@
    ||| name == "NO_COLOR"@
    ||| name == "TERM"@
    ||| name == "TMUX"@
    ||| name == "CI"@
    ||| name == "COLORTERM"@
}

/// The signals that a list of variables shows.
pub open spec fn signals_of(vars: Seq<(Seq<char>, Signal)>, target: Target) -> Signals {
    Signals {
        force_color: lookup(vars, "FORCE_COLOR"@),
        no_color: lookup(vars, "NO_COLOR"@),
        term: lookup(vars, "TERM"@),
        tmux: lookup(vars, "TMUX"@),
        ci: lookup(vars, "CI"@),
        colorterm: lookup(vars, "COLORTERM"@),
        target,
    }
}

/// Mathematical model of a list of variables: names and values by their
/// views.
pub open spec fn vars_view(vars: Seq<(String, EnvVar)>) -> Seq<(Seq<char>, Signal)> {
    vars.map_values(|var: (String, EnvVar)| (var.0@, var.1@))
}

/// An entry at the end of the list decides only where no earlier entry has
/// the name.
pub proof fn lemma_lookup_last(
    vars: Seq<(Seq<char>, Signal)>,
    last: (Seq<char>, Signal),
    name: Seq<char>,
    otherwise: Signal,
)
    ensures
        lookup_or(vars.push(last), name, otherwise) == lookup_or(
            vars,
            name,
            if last.0 == name {
                last.1
            } else {
                otherwise
            },
        ),
    decreases vars.len(),
{
    if vars.len() == 0 {
        assert(vars.push(last).drop_first() =~= vars);
    } else {
        assert(vars.push(last).drop_first() =~= vars.drop_first().push(last));
        lemma_lookup_last(vars.drop_first(), last, name, otherwise);
    }
}

/// The six names are six different texts.
proof fn lemma_names_differ()
    ensures
        "FORCE_COLOR"@ != "NO_COLOR"@,
        "FORCE_COLOR"@ != "TERM"@,
        "FORCE_COLOR"@ != "TMUX"@,
        "FORCE_COLOR"@ != "CI"@,
        "FORCE_COLOR"@ != "COLORTERM"@,
        "NO_COLOR"@ != "TERM"@,
        "NO_COLOR"@ != "TMUX"@,
        "NO_COLOR"@ != "CI"@,
        "NO_COLOR"@ != "COLORTERM"@,
        "TERM"@ != "TMUX"@,
        "TERM"@ != "CI"@,
        "TERM"@ != "COLORTERM"@,
        "TMUX"@ != "CI"@,
        "TMUX"@ != "COLORTERM"@,
        "CI"@ != "COLORTERM"@,
{
    reveal_strlit("FORCE_COLOR");
    reveal_strlit("NO_COLOR");
    reveal_strlit("TERM");
    reveal_strlit("TMUX");
    reveal_strlit("CI");
    reveal_strlit("COLORTERM");
    assert("FORCE_COLOR"@.len() == 11);
    assert("NO_COLOR"@.len() == 8);
    assert("TERM"@.len() == 4);
    assert("TMUX"@.len() == 4);
    assert("CI"@.len() == 2);
    assert("COLORTERM"@.len() == 9);
    assert("TERM"@[1] != "TMUX"@[1]);
}

impl EnvSignals {
    /// The snapshot of an environment in which none of the variables is set.
    pub fn new(target: Target) -> (env: EnvSignals)
        ensures
            env@ == Signals::unset(target),
    {
        EnvSignals {
            force_color: EnvVar::Unset,
            no_color: EnvVar::Unset,
            term: EnvVar::Unset,
            tmux: EnvVar::Unset,
            ci: EnvVar::Unset,
            colorterm: EnvVar::Unset,
            target,
        }
    }

    /// The snapshot of an environment that holds the variables `vars`, each
    /// a name with its value. Where a name occurs twice, the first entry
    /// counts, as it does when the platform looks a variable up. Variables
    /// that detection does not look at are passed over.
    pub fn from_vars(vars: Vec<(String, EnvVar)>, target: Target) -> (env: EnvSignals)
        ensures
            env@ == signals_of(vars_view(vars@), target),
    {
        let ghost all = vars_view(vars@);
        let mut rest = vars;
        let mut env = EnvSignals::new(target);
        while rest.len() > 0
            invariant
                env.target == target,
                lookup(all, "FORCE_COLOR"@) == lookup_or(
                    vars_view(rest@),
                    "FORCE_COLOR"@,
                    env.force_color@,
                ),
                lookup(all, "NO_COLOR"@) == lookup_or(
                    vars_view(rest@),
                    "NO_COLOR"@,
                    env.no_color@,
                ),
                lookup(all, "TERM"@) == lookup_or(vars_view(rest@), "TERM"@, env.term@),
                lookup(all, "TMUX"@) == lookup_or(vars_view(rest@), "TMUX"@, env.tmux@),
                lookup(all, "CI"@) == lookup_or(vars_view(rest@), "CI"@, env.ci@),
                lookup(all, "COLORTERM"@) == lookup_or(
                    vars_view(rest@),
                    "COLORTERM"@,
                    env.colorterm@,
                ),
            decreases rest.len(),
        {
            let ghost before = vars_view(rest@);
            if let Some((name, value)) = rest.pop() {
                proof {
                    let shorter = vars_view(rest@);
                    let last = (name@, value@);
                    assert(before =~= shorter.push(last));
                    lemma_names_differ();
                    lemma_lookup_last(shorter, last, "FORCE_COLOR"@, env.force_color@);
                    lemma_lookup_last(shorter, last, "NO_COLOR"@, env.no_color@);
                    lemma_lookup_last(shorter, last, "TERM"@, env.term@);
                    lemma_lookup_last(shorter, last, "TMUX"@, env.tmux@);
                    lemma_lookup_last(shorter, last, "CI"@, env.ci@);
                    lemma_lookup_last(shorter, last, "COLORTERM"@, env.colorterm@);
                }
                if str_eq(name.as_str(), "FORCE_COLOR") {
                    env.force_color = value;
                } else if str_eq(name.as_str(), "NO_COLOR") {
                    env.no_color = value;
                } else if str_eq(name.as_str(), "TERM") {
                    env.term = value;
                } else if str_eq(name.as_str(), "TMUX") {
                    env.tmux = value;
                } else if str_eq(name.as_str(), "CI") {
                    env.ci = value;
                } else if str_eq(name.as_str(), "COLORTERM") {
                    env.colorterm = value;
                }
            }
        }
        env
    }
}

} // verus!
