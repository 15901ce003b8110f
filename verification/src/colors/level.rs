//! The color capability of the terminal, resolved from the environment.

use crate::env::EnvSignals;
use crate::env::EnvVar;
use crate::env::Signal;
use crate::env::Signals;
use crate::env::Target;
use vstd::prelude::*;

verus! {

/// The palette that the terminal is taken to support.
#[derive(Clone, Copy, Debug, PartialEq, Eq, Structural)]
pub enum ColorLevel {
    /// No color at all.
    NoColor,
    /// The 16 ANSI colors.
    Ansi,
    /// The 256-color palette.
    Ansi256,
    /// 24-bit color.
    TrueColor,
}

/// The continuous-integration vendors that are known to show 256 colors.
pub open spec fn is_known_ci(ci: Signal) -> bool {
    ||| ci.is_text("TRAVIS"@)
    ||| ci.is_text("CIRCLECI"@)
    ||| ci.is_text("APPVEYOR"@)
    ||| ci.is_text("GITLAB_CI"@)
    ||| ci.is_text("GITHUB_ACTIONS"@)
    ||| ci.is_text("BUILDKITE"@)
    ||| ci.is_text("DRONE"@)
}

/// Whether the environment forces color on.
pub open spec fn force_enabled(env: Signals) -> bool {
    env.force_color.is_set()
}

/// The color level that the signals in `env` resolve to, where `force` says
/// whether color is forced on. The rules are tried from the top, and the
/// first one that applies decides.
pub open spec fn color_level_of(force: bool, env: Signals) -> ColorLevel {
    if env.target is Wasm {
        ColorLevel::NoColor
    } else if !force && env.no_color.is_set() {
        ColorLevel::NoColor
    } else if !force && env.term.is_text("dumb"@) {
        ColorLevel::NoColor
    } else if env.target is Windows {
        ColorLevel::TrueColor
    } else if env.tmux.is_present() {
        ColorLevel::Ansi
    } else if is_known_ci(env.ci) {
        ColorLevel::Ansi256
    } else if env.ci is NotUnicode {
        ColorLevel::Ansi
    } else if env.colorterm.is_text("truecolor"@) || env.colorterm.is_text("24bit"@) {
        ColorLevel::TrueColor
    } else if env.term.ends_with("-256color"@) || env.term.ends_with("256"@) {
        ColorLevel::Ansi256
    } else {
        ColorLevel::Ansi
    }
}

/// Whether color is in use before anyone has set the flag: never on a
/// WebAssembly target, always where color is forced on, and otherwise
/// unless the environment switches color off.
pub open spec fn default_use_color(force: bool, env: Signals) -> bool {
    if env.target is Wasm {
        false
    } else if force {
        true
    } else {
        !env.no_color.is_set()
    }
}

/// Whether `ci` names one of the known continuous-integration vendors.
fn known_ci(ci: &EnvVar) -> (known: bool)
    ensures
        known == is_known_ci(ci@),
{
    ci.is_text("TRAVIS") || ci.is_text("CIRCLECI") || ci.is_text("APPVEYOR") || ci.is_text(
        "GITLAB_CI",
    ) || ci.is_text("GITHUB_ACTIONS") || ci.is_text("BUILDKITE") || ci.is_text("DRONE")
}

/// Resolves the color level from a snapshot of the environment.
pub fn resolve_color_level(force: bool, env: &EnvSignals) -> (level: ColorLevel)
    ensures
        level == color_level_of(force, env@),
{
    if let Target::Wasm = env.target {
        return ColorLevel::NoColor;
    }
    if !force {
        if env.no_color.is_set() {
            return ColorLevel::NoColor;
        }
        if env.term.is_text("dumb") {
            return ColorLevel::NoColor;
        }
    }
    if let Target::Windows = env.target {
        return ColorLevel::TrueColor;
    }
    if env.tmux.is_present() {
        return ColorLevel::Ansi;
    }
    match &env.ci {
        EnvVar::Unset => {},
        EnvVar::Text(_) => {
            if known_ci(&env.ci) {
                return ColorLevel::Ansi256;
            }
        },
        EnvVar::NotUnicode => {
            return ColorLevel::Ansi;
        },
    }
    if env.colorterm.is_text("truecolor") || env.colorterm.is_text("24bit") {
        return ColorLevel::TrueColor;
    }
    if env.term.ends_with("-256color") || env.term.ends_with("256") {
        return ColorLevel::Ansi256;
    }
    ColorLevel::Ansi
}

/// Resolves the initial value of the use-color flag from a snapshot of the
/// environment.
pub fn resolve_use_color(force: bool, env: &EnvSignals) -> (flag: bool)
    ensures
        flag == default_use_color(force, env@),
{
    if let Target::Wasm = env.target {
        return false;
    }
    if force {
        return true;
    }
    !env.no_color.is_set()
}

} // verus!
