use tex_fmt::logging::Log;
use tex_fmt::logging::Severity;
use tex_fmt::wrap::apply_wrap;
use tex_fmt::wrap::find_wrap_point;
use tex_fmt::wrap::needs_wrap;
use tex_fmt::Cli;
use tex_fmt::State;

fn args() -> Cli {
    Cli { wrap: 80, wrap_min: 70, tab: 2, keep: false, trace: false }
}

#[test]
fn needs_wrap_on_width() {
    let state = State::new();
    let args = args();
    let short = "a".repeat(80);
    let long = "a".repeat(81);
    // Wrapping is idempotent: at or under the budget nothing happens.
    assert!(!needs_wrap(&short, &state, &args));
    assert!(needs_wrap(&long, &state, &args));
}

#[test]
fn needs_wrap_respects_keep_and_verbatim() {
    let mut state = State::new();
    let mut args = args();
    let long = "a".repeat(100);
    args.keep = true;
    assert!(!needs_wrap(&long, &state, &args));
    args.keep = false;
    state.verbatim.visual = true;
    assert!(!needs_wrap(&long, &state, &args));
    state.verbatim.visual = false;
    state.ignore.visual = true;
    assert!(!needs_wrap(&long, &state, &args));
}

#[test]
fn wrap_at_space_past_soft_minimum() {
    // A 90-character line with a space at position 75: the wrapper
    // breaks there, giving a 75-character head and a non-empty tail.
    let mut line = "x".repeat(75);
    line.push(' ');
    line.push_str(&"y".repeat(14));
    assert_eq!(line.chars().count(), 90);
    let args = args();
    let state = State::new();
    let p = find_wrap_point(&line, &args);
    assert_eq!(p, Some(75));

    let mut logs: Vec<Log> = Vec::new();
    let parts = apply_wrap(&line, &state, "f.tex", &args, &mut logs).unwrap();
    assert_eq!(parts[0].chars().count(), 75);
    assert_eq!(parts[0], "x".repeat(75));
    assert_eq!(parts[1], "");
    assert_eq!(parts[2], "y".repeat(14));
    assert!(logs.is_empty());
}

#[test]
fn wrap_round_trip() {
    // Head + " " + tail reconstructs the original line exactly.
    let mut line = "word ".repeat(14);
    line.push_str("and more words beyond the budget");
    let args = args();
    let state = State::new();
    let mut logs: Vec<Log> = Vec::new();
    let parts = apply_wrap(&line, &state, "f.tex", &args, &mut logs).unwrap();
    let rebuilt = format!("{} {}", parts[0], parts[2]);
    assert_eq!(rebuilt, line);
}

#[test]
fn wrap_inside_comment_gets_comment_prefix() {
    let mut line = "text % ".to_string();
    line.push_str(&"c ".repeat(45));
    let args = args();
    let state = State::new();
    let mut logs: Vec<Log> = Vec::new();
    let parts = apply_wrap(&line, &state, "f.tex", &args, &mut logs).unwrap();
    assert_eq!(parts[1], "% ");
}

#[test]
fn unwrappable_line_logged() {
    let line = "z".repeat(95);
    let args = args();
    let state = State::new();
    let mut logs: Vec<Log> = Vec::new();
    let parts = apply_wrap(&line, &state, "f.tex", &args, &mut logs);
    assert!(parts.is_none());
    assert_eq!(logs.len(), 1);
    assert_eq!(logs[0].severity, Severity::Warn);
    assert_eq!(logs[0].message, "Line cannot be wrapped.");
}

#[test]
fn breakpoint_beyond_budget_leaves_line() {
    // When the only breakpoint lies past the hard budget, the line is
    // logged as unwrappable and left unmodified.
    let mut line = "a".repeat(85);
    line.push(' ');
    line.push_str(&"b".repeat(10));
    let args = args();
    let state = State::new();
    let mut logs: Vec<Log> = Vec::new();
    let parts = apply_wrap(&line, &state, "f.tex", &args, &mut logs);
    assert!(parts.is_none());
    assert_eq!(logs.len(), 1);
    assert_eq!(logs[0].severity, Severity::Warn);
    assert_eq!(logs[0].message, "Line cannot be wrapped.");
}

#[test]
fn escaped_space_is_not_a_breakpoint() {
    // Only spaces not preceded by a backslash are candidates.
    let mut line = "a".repeat(71);
    line.push_str("\\ ");
    line.push_str(&"b".repeat(20));
    let args = args();
    let p = find_wrap_point(&line, &args);
    assert_eq!(p, None);
}

#[test]
fn wide_characters_use_display_width() {
    // Six ideographs are twelve columns wide, so the scan passes the
    // soft minimum right after the first space and keeps that
    // breakpoint; counting characters instead would reach the later
    // space at index 9 first.
    let mut line = "\u{4f60}".repeat(6);
    line.push(' ');
    line.push_str("ab ");
    line.push_str("cdefg");
    let args = Cli { wrap: 20, wrap_min: 10, tab: 2, keep: false, trace: false };
    let p = find_wrap_point(&line, &args);
    assert_eq!(p, Some(6));
}
