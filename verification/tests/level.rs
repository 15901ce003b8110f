use deno_terminal::colors::resolve_color_level;
use deno_terminal::colors::resolve_use_color;
use deno_terminal::colors::ColorLevel;
use deno_terminal::env::EnvSignals;
use deno_terminal::env::EnvVar;
use deno_terminal::env::Target;

fn text(value: &str) -> EnvVar {
    EnvVar::Text(value.to_string())
}

fn level(env: &EnvSignals) -> ColorLevel {
    resolve_color_level(env.force_color.is_set(), env)
}

#[test]
fn empty_environment_is_basic() {
    let env = EnvSignals::new(Target::Native);
    assert_eq!(level(&env), ColorLevel::Ansi);
    assert!(resolve_use_color(false, &env));
}

#[test]
fn no_color_disables_level() {
    let mut env = EnvSignals::new(Target::Native);
    env.no_color = text("1");
    env.term = text("xterm-256color");
    env.colorterm = text("truecolor");
    assert_eq!(level(&env), ColorLevel::NoColor);
}

#[test]
fn empty_no_color_is_ignored() {
    let mut env = EnvSignals::new(Target::Native);
    env.no_color = text("");
    assert_eq!(level(&env), ColorLevel::Ansi);
    assert!(resolve_use_color(false, &env));
}

#[test]
fn no_color_that_is_not_unicode_counts_as_set() {
    let mut env = EnvSignals::new(Target::Native);
    env.no_color = EnvVar::NotUnicode;
    assert_eq!(level(&env), ColorLevel::NoColor);
    assert!(!resolve_use_color(false, &env));
}

#[test]
fn force_color_overrules_no_color() {
    let mut env = EnvSignals::new(Target::Native);
    env.force_color = text("1");
    env.no_color = text("1");
    assert_eq!(level(&env), ColorLevel::Ansi);
    env.term = text("xterm-256color");
    assert_eq!(level(&env), ColorLevel::Ansi256);
}

#[test]
fn empty_force_color_is_ignored() {
    let mut env = EnvSignals::new(Target::Native);
    env.force_color = text("");
    env.no_color = text("1");
    assert!(!env.force_color.is_set());
    assert!(env.force_color.is_present());
    assert_eq!(level(&env), ColorLevel::NoColor);
}

#[test]
fn dumb_terminal_has_no_color() {
    let mut env = EnvSignals::new(Target::Native);
    env.term = text("dumb");
    env.colorterm = text("truecolor");
    env.tmux = text("/tmp/tmux-1000/default,1,0");
    assert_eq!(level(&env), ColorLevel::NoColor);
}

#[test]
fn force_color_ignores_dumb_terminal() {
    let mut env = EnvSignals::new(Target::Native);
    env.term = text("dumb");
    env.force_color = text("1");
    assert_eq!(level(&env), ColorLevel::Ansi);
    env.colorterm = text("truecolor");
    assert_eq!(level(&env), ColorLevel::TrueColor);
}

#[test]
fn windows_is_true_color() {
    let mut env = EnvSignals::new(Target::Windows);
    assert_eq!(level(&env), ColorLevel::TrueColor);
    env.tmux = text("1");
    env.ci = text("TRAVIS");
    assert_eq!(level(&env), ColorLevel::TrueColor);
}

#[test]
fn windows_still_honors_no_color_and_dumb() {
    let mut env = EnvSignals::new(Target::Windows);
    env.no_color = text("1");
    assert_eq!(level(&env), ColorLevel::NoColor);
    let mut env = EnvSignals::new(Target::Windows);
    env.term = text("dumb");
    assert_eq!(level(&env), ColorLevel::NoColor);
}

#[test]
fn wasm_has_no_color_whatever_the_environment() {
    let mut env = EnvSignals::new(Target::Wasm);
    assert_eq!(level(&env), ColorLevel::NoColor);
    env.force_color = text("1");
    env.colorterm = text("truecolor");
    assert_eq!(level(&env), ColorLevel::NoColor);
    assert!(!resolve_use_color(true, &env));
    assert!(!resolve_use_color(false, &env));
}

#[test]
fn tmux_is_basic_even_when_empty() {
    let mut env = EnvSignals::new(Target::Native);
    env.tmux = text("");
    env.colorterm = text("truecolor");
    env.term = text("xterm-256color");
    env.ci = text("GITHUB_ACTIONS");
    assert_eq!(level(&env), ColorLevel::Ansi);
    env.tmux = EnvVar::NotUnicode;
    assert_eq!(level(&env), ColorLevel::Ansi);
}

#[test]
fn known_ci_vendors_are_extended() {
    let vendors = [
        "TRAVIS",
        "CIRCLECI",
        "APPVEYOR",
        "GITLAB_CI",
        "GITHUB_ACTIONS",
        "BUILDKITE",
        "DRONE",
    ];
    for vendor in vendors {
        let mut env = EnvSignals::new(Target::Native);
        env.ci = text(vendor);
        env.colorterm = text("truecolor");
        assert_eq!(level(&env), ColorLevel::Ansi256);
    }
}

#[test]
fn github_actions_is_extended() {
    let mut env = EnvSignals::new(Target::Native);
    env.ci = text("GITHUB_ACTIONS");
    assert_eq!(level(&env), ColorLevel::Ansi256);
}

#[test]
fn unknown_ci_text_falls_through() {
    let mut env = EnvSignals::new(Target::Native);
    env.ci = text("true");
    assert_eq!(level(&env), ColorLevel::Ansi);
    env.colorterm = text("24bit");
    assert_eq!(level(&env), ColorLevel::TrueColor);
    env.ci = text("github_actions");
    assert_eq!(level(&env), ColorLevel::TrueColor);
    env.ci = text("");
    assert_eq!(level(&env), ColorLevel::TrueColor);
}

#[test]
fn ci_that_is_not_unicode_is_basic() {
    let mut env = EnvSignals::new(Target::Native);
    env.ci = EnvVar::NotUnicode;
    env.colorterm = text("truecolor");
    env.term = text("xterm-256color");
    assert_eq!(level(&env), ColorLevel::Ansi);
}

#[test]
fn colorterm_announces_true_color() {
    let mut env = EnvSignals::new(Target::Native);
    env.colorterm = text("truecolor");
    assert_eq!(level(&env), ColorLevel::TrueColor);
    env.colorterm = text("24bit");
    assert_eq!(level(&env), ColorLevel::TrueColor);
    env.colorterm = text("TRUECOLOR");
    assert_eq!(level(&env), ColorLevel::Ansi);
    env.colorterm = text("truecolor ");
    assert_eq!(level(&env), ColorLevel::Ansi);
    env.colorterm = EnvVar::NotUnicode;
    assert_eq!(level(&env), ColorLevel::Ansi);
}

#[test]
fn xterm_256color_is_extended() {
    let mut env = EnvSignals::new(Target::Native);
    env.term = text("xterm-256color");
    assert_eq!(level(&env), ColorLevel::Ansi256);
}

#[test]
fn term_suffixes() {
    let mut env = EnvSignals::new(Target::Native);
    env.term = text("-256color");
    assert_eq!(level(&env), ColorLevel::Ansi256);
    env.term = text("xterm256");
    assert_eq!(level(&env), ColorLevel::Ansi256);
    env.term = text("256");
    assert_eq!(level(&env), ColorLevel::Ansi256);
    env.term = text("xterm-256colors");
    assert_eq!(level(&env), ColorLevel::Ansi);
    env.term = text("xterm");
    assert_eq!(level(&env), ColorLevel::Ansi);
    env.term = text("56");
    assert_eq!(level(&env), ColorLevel::Ansi);
    env.term = text("");
    assert_eq!(level(&env), ColorLevel::Ansi);
    env.term = text("t\u{e9}rm-256color");
    assert_eq!(level(&env), ColorLevel::Ansi256);
}

#[test]
fn term_that_is_not_unicode_is_basic() {
    let mut env = EnvSignals::new(Target::Native);
    env.term = EnvVar::NotUnicode;
    assert_eq!(level(&env), ColorLevel::Ansi);
}

#[test]
fn level_depends_on_the_signals_alone() {
    let mut a = EnvSignals::new(Target::Native);
    a.term = text("screen-256color");
    a.ci = text("DRONE");
    let mut b = EnvSignals::new(Target::Native);
    b.ci = EnvVar::Text(String::from("DRONE"));
    b.term = EnvVar::Text(String::from("screen-256color"));
    assert_eq!(a, b);
    assert_eq!(level(&a), level(&b));
    assert_eq!(level(&a), ColorLevel::Ansi256);
}

#[test]
fn default_flag_follows_no_color_and_force_color() {
    let mut env = EnvSignals::new(Target::Native);
    assert!(resolve_use_color(false, &env));
    env.no_color = text("1");
    assert!(!resolve_use_color(false, &env));
    assert!(resolve_use_color(true, &env));
    env.term = text("dumb");
    env.no_color = EnvVar::Unset;
    assert!(resolve_use_color(false, &env));
}

#[test]
fn off_by_default_means_no_level() {
    let mut env = EnvSignals::new(Target::Native);
    env.no_color = text("yes");
    env.colorterm = text("truecolor");
    assert!(!resolve_use_color(false, &env));
    assert_eq!(resolve_color_level(false, &env), ColorLevel::NoColor);
}

#[test]
fn env_var_queries() {
    assert!(!EnvVar::Unset.is_present());
    assert!(!EnvVar::Unset.is_set());
    assert!(!EnvVar::Unset.is_text(""));
    assert!(!EnvVar::Unset.ends_with(""));
    assert!(text("").is_present());
    assert!(!text("").is_set());
    assert!(text("").is_text(""));
    assert!(text("").ends_with(""));
    assert!(text("abc").is_set());
    assert!(text("abc").is_text("abc"));
    assert!(!text("abc").is_text("ab"));
    assert!(!text("abc").is_text("abd"));
    assert!(text("abc").ends_with("bc"));
    assert!(text("abc").ends_with("abc"));
    assert!(!text("abc").ends_with("xabc"));
    assert!(!text("abc").ends_with("ab"));
    assert!(EnvVar::NotUnicode.is_present());
    assert!(EnvVar::NotUnicode.is_set());
    assert!(!EnvVar::NotUnicode.is_text(""));
    assert!(!EnvVar::NotUnicode.ends_with(""));
}

fn var(name: &str, value: &str) -> (String, EnvVar) {
    (name.to_string(), text(value))
}

#[test]
fn from_vars_picks_the_six_signals() {
    let env = EnvSignals::from_vars(
        vec![
            var("PATH", "/usr/bin"),
            var("FORCE_COLOR", "1"),
            var("NO_COLOR", "2"),
            var("TERM", "xterm"),
            var("TMUX", "3"),
            var("CI", "DRONE"),
            ("COLORTERM".to_string(), EnvVar::NotUnicode),
            var("HOME", "/root"),
        ],
        Target::Windows,
    );
    let mut expected = EnvSignals::new(Target::Windows);
    expected.force_color = text("1");
    expected.no_color = text("2");
    expected.term = text("xterm");
    expected.tmux = text("3");
    expected.ci = text("DRONE");
    expected.colorterm = EnvVar::NotUnicode;
    assert_eq!(env, expected);
}

#[test]
fn from_vars_of_nothing_is_unset() {
    assert_eq!(EnvSignals::from_vars(Vec::new(), Target::Native), EnvSignals::new(Target::Native));
    assert_eq!(
        EnvSignals::from_vars(vec![var("PATH", "/bin"), var("term", "dumb")], Target::Wasm),
        EnvSignals::new(Target::Wasm)
    );
}

#[test]
fn from_vars_takes_the_first_of_two_entries() {
    let env = EnvSignals::from_vars(
        vec![var("TERM", "dumb"), var("SHELL", "sh"), var("TERM", "xterm-256color")],
        Target::Native,
    );
    assert_eq!(env.term, text("dumb"));
    assert_eq!(level(&env), ColorLevel::NoColor);
}

#[test]
fn unrelated_variables_and_order_do_not_matter() {
    let a = EnvSignals::from_vars(
        vec![var("TERM", "xterm-256color"), var("COLORTERM", "truecolor")],
        Target::Native,
    );
    let b = EnvSignals::from_vars(
        vec![
            var("LANG", "C"),
            var("COLORTERM", "truecolor"),
            var("EDITOR", "vi"),
            var("TERM", "xterm-256color"),
            var("TERMINAL", "dumb"),
            var("NO_COLORS", "1"),
        ],
        Target::Native,
    );
    assert_eq!(a, b);
    assert_eq!(level(&a), ColorLevel::TrueColor);
    assert_eq!(level(&b), ColorLevel::TrueColor);
}

#[test]
fn names_are_matched_exactly() {
    let env = EnvSignals::from_vars(
        vec![
            var("no_color", "1"),
            var("NO_COLOR ", "1"),
            var("XNO_COLOR", "1"),
            var("TER", "dumb"),
            var("", "1"),
            var("C", "TRAVIS"),
            var("CI", "TRAVIS"),
        ],
        Target::Native,
    );
    assert_eq!(env.no_color, EnvVar::Unset);
    assert_eq!(env.term, EnvVar::Unset);
    assert_eq!(env.ci, text("TRAVIS"));
    assert_eq!(level(&env), ColorLevel::Ansi256);
}
