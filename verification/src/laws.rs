//! What holds across calls: memoization, precedence, and the effect of the
//! use-color flag on rendering.

use crate::colors::level::color_level_of;
use crate::colors::level::default_use_color;
use crate::colors::level::force_enabled;
use crate::colors::level::ColorLevel;
use crate::colors::style::StyleSpec;
use crate::colors::text::rendered;
use crate::colors::text::reset_text;
use crate::colors::text::start_text;
use crate::env::is_signal_name;
use crate::env::lookup_or;
use crate::env::signals_of;
use crate::env::EnvSignals;
use crate::env::Signal;
use crate::env::Signals;
use crate::env::Target;
use crate::state::recall;
use crate::state::Memo;
use vstd::prelude::*;

verus! {

/// The color level is a function of the signals: two snapshots that show the
/// same signals resolve to the same level, in whatever way they are held, and
/// from equal states they leave equal states behind.
pub proof fn lemma_level_is_function_of_signals(memo: Memo, a: EnvSignals, b: EnvSignals)
    requires
        a@ == b@,
    ensures
        color_level_of(force_enabled(a@), a@) == color_level_of(force_enabled(b@), b@),
        memo.color_level_in(a@) == memo.color_level_in(b@),
        memo.after_get_color_level(a@) == memo.after_get_color_level(b@),
{
}

/// An entry of another name, put anywhere into a list of variables, leaves
/// the value of `name` as it was.
pub proof fn lemma_lookup_ignores_other_names(
    vars: Seq<(Seq<char>, Signal)>,
    at: int,
    entry: (Seq<char>, Signal),
    name: Seq<char>,
    otherwise: Signal,
)
    requires
        0 <= at <= vars.len(),
        entry.0 != name,
    ensures
        lookup_or(vars.insert(at, entry), name, otherwise) == lookup_or(vars, name, otherwise),
    decreases at,
{
    let longer = vars.insert(at, entry);
    if at == 0 {
        assert(longer.drop_first() =~= vars);
    } else {
        assert(longer.drop_first() =~= vars.drop_first().insert(at - 1, entry));
        lemma_lookup_ignores_other_names(vars.drop_first(), at - 1, entry, name, otherwise);
    }
}

/// Two neighbors can change places without changing the value of `name`,
/// unless both of them bear that name.
pub proof fn lemma_lookup_ignores_order(
    vars: Seq<(Seq<char>, Signal)>,
    at: int,
    name: Seq<char>,
    otherwise: Signal,
)
    requires
        0 <= at,
        at + 1 < vars.len(),
        vars[at].0 != name || vars[at + 1].0 != name,
    ensures
        lookup_or(vars.update(at, vars[at + 1]).update(at + 1, vars[at]), name, otherwise)
            == lookup_or(vars, name, otherwise),
    decreases at,
{
    let swapped = vars.update(at, vars[at + 1]).update(at + 1, vars[at]);
    if at == 0 {
        reveal_with_fuel(lookup_or, 3);
        assert(swapped.drop_first().drop_first() =~= vars.drop_first().drop_first());
        assert(swapped[0] == vars[1]);
        assert(swapped.drop_first()[0] == vars[0]);
        assert(vars.drop_first()[0] == vars[1]);
    } else {
        let tail = vars.drop_first();
        assert(swapped[0] == vars[0]);
        assert(swapped.drop_first() =~= tail.update(at - 1, tail[at]).update(at, tail[at - 1]));
        lemma_lookup_ignores_order(tail, at - 1, name, otherwise);
    }
}

/// A variable that detection does not look at changes nothing: with it or
/// without it, wherever it stands in the list, the signals and so the color
/// level and the initial flag are the same.
pub proof fn lemma_unrelated_variable_is_ignored(
    vars: Seq<(Seq<char>, Signal)>,
    at: int,
    name: Seq<char>,
    value: Signal,
    target: Target,
)
    requires
        0 <= at <= vars.len(),
        !is_signal_name(name),
    ensures
        signals_of(vars.insert(at, (name, value)), target) == signals_of(vars, target),
{
    let entry = (name, value);
    lemma_lookup_ignores_other_names(vars, at, entry, "FORCE_COLOR"@, Signal::Unset);
    lemma_lookup_ignores_other_names(vars, at, entry, "NO_COLOR"@, Signal::Unset);
    lemma_lookup_ignores_other_names(vars, at, entry, "TERM"@, Signal::Unset);
    lemma_lookup_ignores_other_names(vars, at, entry, "TMUX"@, Signal::Unset);
    lemma_lookup_ignores_other_names(vars, at, entry, "CI"@, Signal::Unset);
    lemma_lookup_ignores_other_names(vars, at, entry, "COLORTERM"@, Signal::Unset);
}

/// The order in which the variables are listed changes nothing: two
/// neighbors can change places, and the signals are the same. Only two
/// entries for one variable that detection looks at must keep their order,
/// since the first of them is the one that counts.
pub proof fn lemma_order_of_variables_is_irrelevant(
    vars: Seq<(Seq<char>, Signal)>,
    at: int,
    target: Target,
)
    requires
        0 <= at,
        at + 1 < vars.len(),
        vars[at].0 != vars[at + 1].0 || !is_signal_name(vars[at].0),
    ensures
        signals_of(vars.update(at, vars[at + 1]).update(at + 1, vars[at]), target) == signals_of(
            vars,
            target,
        ),
{
    lemma_lookup_ignores_order(vars, at, "FORCE_COLOR"@, Signal::Unset);
    lemma_lookup_ignores_order(vars, at, "NO_COLOR"@, Signal::Unset);
    lemma_lookup_ignores_order(vars, at, "TERM"@, Signal::Unset);
    lemma_lookup_ignores_order(vars, at, "TMUX"@, Signal::Unset);
    lemma_lookup_ignores_order(vars, at, "CI"@, Signal::Unset);
    lemma_lookup_ignores_order(vars, at, "COLORTERM"@, Signal::Unset);
}

/// In a state where nothing has been asked yet, the color level is the one
/// that the precedence of the signals gives.
pub proof fn lemma_first_level_is_resolved(env: Signals)
    ensures
        Memo::empty().color_level_in(env) == color_level_of(force_enabled(env), env),
        Memo::empty().use_color_in(env) == default_use_color(force_enabled(env), env),
{
}

/// Forcing color on overrules what switches it off: off a WebAssembly
/// target, a forced environment never resolves to no color, and its flag
/// starts out set.
pub proof fn lemma_forced_color_wins(env: Signals)
    requires
        !(env.target is Wasm),
    ensures
        color_level_of(true, env) != ColorLevel::NoColor,
        default_use_color(true, env),
{
}

/// Where color is off by default, the level is no color.
pub proof fn lemma_off_by_default_has_no_level(force: bool, env: Signals)
    requires
        !default_use_color(force, env),
    ensures
        color_level_of(force, env) == ColorLevel::NoColor,
{
}

/// Asking for the color level again gives the same level and changes
/// nothing, whatever environment the later call is shown.
pub proof fn lemma_get_color_level_is_idempotent(memo: Memo, first: Signals, later: Signals)
    ensures
        memo.after_get_color_level(first).color_level_in(later) == memo.color_level_in(first),
        memo.after_get_color_level(first).after_get_color_level(later)
            == memo.after_get_color_level(first),
{
}

/// Asking again whether a standard stream is a terminal gives the same
/// answer and changes nothing, whatever the platform says by then.
pub proof fn lemma_tty_is_idempotent(memo: Memo, first: bool, later: bool)
    ensures
        recall(memo.after_is_stdout_tty(first).stdout_tty, later) == recall(
            memo.stdout_tty,
            first,
        ),
        memo.after_is_stdout_tty(first).after_is_stdout_tty(later) == memo.after_is_stdout_tty(
            first,
        ),
        recall(memo.after_is_stderr_tty(first).stderr_tty, later) == recall(
            memo.stderr_tty,
            first,
        ),
        memo.after_is_stderr_tty(first).after_is_stderr_tty(later) == memo.after_is_stderr_tty(
            first,
        ),
{
}

/// Asking whether color is forced on, or for the use-color flag, again
/// gives the same answer and changes nothing.
pub proof fn lemma_flags_are_idempotent(memo: Memo, first: Signals, later: Signals)
    ensures
        memo.after_force_color(first).force_color_in(later) == memo.force_color_in(first),
        memo.after_force_color(first).after_force_color(later) == memo.after_force_color(first),
        memo.after_use_color(first).use_color_in(later) == memo.use_color_in(first),
        memo.after_use_color(first).after_use_color(later) == memo.after_use_color(first),
{
}

/// No call empties or changes a cell that holds an answer, but for
/// `set_use_color`, which overwrites the use-color flag and nothing else.
pub proof fn lemma_answers_are_kept(memo: Memo, env: Signals, flag: bool, attached: bool)
    ensures
        memo.after_force_color(env).keeps(memo),
        memo.after_get_color_level(env).keeps(memo),
        memo.after_use_color(env).keeps(memo),
        memo.after_is_stdout_tty(attached).keeps(memo),
        memo.after_is_stderr_tty(attached).keeps(memo),
        memo.use_color is Some ==> memo.after_force_color(env).use_color == memo.use_color,
        memo.use_color is Some ==> memo.after_get_color_level(env).use_color == memo.use_color,
        memo.use_color is Some ==> memo.after_use_color(env).use_color == memo.use_color,
        memo.after_is_stdout_tty(attached).use_color == memo.use_color,
        memo.after_is_stderr_tty(attached).use_color == memo.use_color,
        memo.after_set_use_color(flag).keeps(memo),
{
}

/// Once the flag has been set, it alone decides how a span renders, whatever
/// the environment says: set, the span is wrapped in its escape sequences;
/// cleared, the span is its plain text.
pub proof fn lemma_set_use_color_decides_rendering(
    memo: Memo,
    env: Signals,
    spec: StyleSpec,
    text: Seq<char>,
)
    ensures
        memo.after_set_use_color(true).use_color_in(env),
        rendered(spec, text, memo.after_set_use_color(true).use_color_in(env)) == start_text(spec)
            + text + reset_text(),
        !memo.after_set_use_color(false).use_color_in(env),
        rendered(spec, text, memo.after_set_use_color(false).use_color_in(env)) == text,
{
}

/// A span that is rendered in color begins with the start sequence of its
/// style and ends with the reset sequence, so that no style reaches beyond
/// the span.
pub proof fn lemma_colored_span_is_closed(spec: StyleSpec, text: Seq<char>)
    ensures
        start_text(spec).is_prefix_of(rendered(spec, text, true)),
        reset_text().is_suffix_of(rendered(spec, text, true)),
        rendered(spec, text, true).len() == start_text(spec).len() + text.len() + 4,
{
    let start = start_text(spec);
    let span = rendered(spec, text, true);
    assert(span.subrange(0, start.len() as int) =~= start);
    assert(span.subrange(span.len() - 4, span.len() as int) =~= reset_text());
}

/// With color off, a span renders to the text of its payload, whatever its
/// style.
pub proof fn lemma_plain_without_color(spec: StyleSpec, other: StyleSpec, text: Seq<char>)
    ensures
        rendered(spec, text, false) == text,
        rendered(spec, text, false) == rendered(other, text, false),
{
}

} // verus!
