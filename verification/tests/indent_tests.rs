use tex_fmt::indent::apply_indent;
use tex_fmt::indent::get_back;
use tex_fmt::indent::get_diff;
use tex_fmt::indent::get_indent;
use tex_fmt::indent::Indent;
use tex_fmt::logging::Log;
use tex_fmt::logging::Severity;
use tex_fmt::pattern::Pattern;
use tex_fmt::Cli;
use tex_fmt::State;

fn args() -> Cli {
    Cli { wrap: 80, wrap_min: 70, tab: 2, keep: false, trace: false }
}

#[test]
fn plain_line_keeps_depth() {
    // A line with no structural marker and no delimiter leaves the
    // carried depth unchanged and renders at the previous depth.
    let pattern = Pattern::new("just some prose");
    let prev = Indent { actual: 3, visual: 0 };
    let ind = get_indent("just some prose", &prev, &pattern);
    assert_eq!(ind.actual, 3);
    assert_eq!(ind.visual, 3);
}

#[test]
fn env_pair_round_trip() {
    // Opening then closing the same environment returns the carried
    // depth to its pre-opening value.
    let open_line = "\\begin{quote}";
    let close_line = "\\end{quote}";
    let p1 = Pattern::new(open_line);
    let p2 = Pattern::new(close_line);
    let prev = Indent { actual: 1, visual: 0 };
    let after_open = get_indent(open_line, &prev, &p1);
    assert_eq!(after_open.actual, 2);
    let after_close = get_indent(close_line, &after_open, &p2);
    assert_eq!(after_close.actual, 1);
}

#[test]
fn list_pair_depth_two() {
    // A list environment contributes two levels each way.
    let p1 = Pattern::new("\\begin{itemize}");
    let p2 = Pattern::new("\\end{itemize}");
    assert_eq!(get_diff("\\begin{itemize}", &p1), 2);
    assert_eq!(get_diff("\\end{itemize}", &p2), -2);
    assert_eq!(get_back("\\begin{itemize}", &p1), 0);
    assert_eq!(get_back("\\end{itemize}", &p2), 2);
}

#[test]
fn item_renders_one_deeper() {
    // After `\begin{itemize}` the carried depth is 2; an `\item` line
    // dedents by one, so it renders one level deeper than the list's
    // boundary lines and one shallower than the raw nesting.
    let mut state = State::new();
    let mut logs: Vec<Log> = Vec::new();
    let args = args();

    let line1 = apply_indent("\\begin{itemize}", &mut state, &mut logs, "f.tex", &args, &Pattern::new("\\begin{itemize}"), " ");
    assert_eq!(line1, "\\begin{itemize}");
    assert_eq!(state.indent.actual, 2);
    assert_eq!(state.indent.visual, 0);

    let line2 = apply_indent("\\item first", &mut state, &mut logs, "f.tex", &args, &Pattern::new("\\item first"), " ");
    assert_eq!(state.indent.actual, 2);
    assert_eq!(state.indent.visual, 1);
    assert_eq!(line2, "  \\item first");

    let line3 = apply_indent("\\end{itemize}", &mut state, &mut logs, "f.tex", &args, &Pattern::new("\\end{itemize}"), " ");
    assert_eq!(state.indent.actual, 0);
    assert_eq!(state.indent.visual, 0);
    assert_eq!(line3, "\\end{itemize}");
    assert!(logs.is_empty());
}

#[test]
fn document_env_not_indented() {
    let p = Pattern::new("\\begin{document}");
    assert_eq!(get_diff("\\begin{document}", &p), 0);
    let q = Pattern::new("\\end{document}");
    assert_eq!(get_diff("\\end{document}", &q), 0);
    assert_eq!(get_back("\\end{document}", &q), 0);
}

#[test]
fn document_line_keeps_delimiter_balance() {
    // The document environment contributes no level of its own, but
    // the delimiter balance still counts on its lines.
    let line = "\\begin{document} {";
    let p = Pattern::new(line);
    assert_eq!(get_diff(line, &p), 1);
    let line2 = "\\end{document} }";
    let q = Pattern::new(line2);
    assert_eq!(get_diff(line2, &q), -1);
}

#[test]
fn unicode_whitespace_trimmed() {
    // A no-break space leads the line: re-indentation trims it like
    // any other whitespace, and a line of only such characters is
    // blank.
    let mut state = State::new();
    state.indent.actual = 1;
    let mut logs: Vec<Log> = Vec::new();
    let args = args();
    let line = "\u{a0}\u{2003}text";
    let rendered = apply_indent(line, &mut state, &mut logs, "f.tex", &args, &Pattern::new(line), " ");
    assert_eq!(rendered, "  text");
    let blank = "\u{2003}\u{a0}";
    let rendered2 = apply_indent(blank, &mut state, &mut logs, "f.tex", &args, &Pattern::new(blank), " ");
    assert_eq!(rendered2, "");
}

#[test]
fn delimiters_count_toward_depth() {
    let p = Pattern::new("f(x, {y: [1]}");
    assert_eq!(get_diff("f(x, {y: [1]}", &p), 1);
    // A line that closes a group before opening another renders one
    // level shallower.
    let q = Pattern::new("}, {");
    assert_eq!(get_diff("}, {", &q), 0);
    assert_eq!(get_back("}, {", &q), 1);
}

#[test]
fn comment_content_does_not_indent() {
    // Delimiters inside a comment are ignored for depth computation.
    let mut state = State::new();
    let mut logs: Vec<Log> = Vec::new();
    let args = args();
    let line = "text % opens {{{";
    apply_indent(line, &mut state, &mut logs, "f.tex", &args, &Pattern::new(line), " ");
    assert_eq!(state.indent.actual, 0);
}

#[test]
fn negative_indent_clamped_and_logged() {
    let mut state = State::new();
    let mut logs: Vec<Log> = Vec::new();
    let args = args();
    let rendered = apply_indent("}", &mut state, &mut logs, "f.tex", &args, &Pattern::new("}"), " ");
    assert_eq!(state.indent.actual, 0);
    assert_eq!(state.indent.visual, 0);
    assert_eq!(rendered, "}");
    assert_eq!(logs.len(), 1);
    assert_eq!(logs[0].severity, Severity::Warn);
    assert_eq!(logs[0].message, "Indent is negative.");
    assert_eq!(logs[0].line, "}");
}

#[test]
fn blank_line_renders_empty() {
    let mut state = State::new();
    state.indent.actual = 3;
    let mut logs: Vec<Log> = Vec::new();
    let args = args();
    let rendered = apply_indent("   ", &mut state, &mut logs, "f.tex", &args, &Pattern::new("   "), " ");
    assert_eq!(rendered, "");
}

#[test]
fn trace_entries_recorded() {
    let mut state = State::new();
    let mut logs: Vec<Log> = Vec::new();
    let mut args = args();
    args.trace = true;
    apply_indent("hello", &mut state, &mut logs, "f.tex", &args, &Pattern::new("hello"), " ");
    assert_eq!(logs.len(), 1);
    assert_eq!(logs[0].severity, Severity::Trace);
    assert_eq!(logs[0].message, "Calculated indent.");
}
