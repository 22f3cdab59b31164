use tex_fmt::logging::Log;
use tex_fmt::logging::Severity;
use tex_fmt::verbatim::get_verbatim;
use tex_fmt::verbatim::get_verbatim_diff;
use tex_fmt::wrap::needs_wrap;
use tex_fmt::Cli;
use tex_fmt::State;

fn args() -> Cli {
    Cli { wrap: 80, wrap_min: 70, tab: 2, keep: false, trace: false }
}

#[test]
fn verbatim_region_suppresses_middle_line_only() {
    // The line that opens the region and the line that closes it are
    // still formatted; only the lines strictly inside are suppressed.
    let mut state = State::new();
    let mut logs: Vec<Log> = Vec::new();

    let v1 = get_verbatim("\\begin{verbatim}", &state, &mut logs, "f.tex", true);
    assert_eq!(v1.actual, 1);
    assert!(!v1.visual);
    state.verbatim = v1;

    let v2 = get_verbatim("indented code", &state, &mut logs, "f.tex", true);
    assert_eq!(v2.actual, 1);
    assert!(v2.visual);
    state.verbatim = v2;

    // A long line inside the region is not wrapped.
    let long = "a".repeat(100);
    assert!(!needs_wrap(&long, &state, &args()));

    let v3 = get_verbatim("\\end{verbatim}", &state, &mut logs, "f.tex", true);
    assert_eq!(v3.actual, 0);
    assert!(!v3.visual);
    assert!(logs.is_empty());
}

#[test]
fn verbatim_diff_by_family() {
    assert_eq!(get_verbatim_diff("\\begin{verbatim}"), 1);
    assert_eq!(get_verbatim_diff("\\begin{lstlisting}"), 1);
    assert_eq!(get_verbatim_diff("\\begin{minted}"), 1);
    assert_eq!(get_verbatim_diff("\\end{Verbatim}"), -1);
    assert_eq!(get_verbatim_diff("\\end{comment}"), -1);
    assert_eq!(get_verbatim_diff("\\begin{itemize}"), 0);
    assert_eq!(get_verbatim_diff("plain text"), 0);
}

#[test]
fn unbalanced_verbatim_logged_not_clamped() {
    // A negative depth is logged but deliberately kept, unlike indent.
    let state = State::new();
    let mut logs: Vec<Log> = Vec::new();
    let v = get_verbatim("\\end{verbatim}", &state, &mut logs, "f.tex", true);
    assert_eq!(v.actual, -1);
    assert!(!v.visual);
    assert_eq!(logs.len(), 1);
    assert_eq!(logs[0].severity, Severity::Warn);
    assert_eq!(logs[0].message, "Verbatim count is negative.");
}

#[test]
fn unbalanced_verbatim_silent_without_warn() {
    let state = State::new();
    let mut logs: Vec<Log> = Vec::new();
    let v = get_verbatim("\\end{verbatim}", &state, &mut logs, "f.tex", false);
    assert_eq!(v.actual, -1);
    assert!(logs.is_empty());
}
