use tex_fmt::comments::find_comment_index;
use tex_fmt::comments::remove_comment;
use tex_fmt::logging::Log;
use tex_fmt::pattern::Pattern;
use tex_fmt::subs::needs_env_new_line;
use tex_fmt::subs::put_env_new_line;
use tex_fmt::subs::remove_extra_newlines;
use tex_fmt::subs::remove_tabs;
use tex_fmt::subs::remove_trailing_spaces;
use tex_fmt::Cli;
use tex_fmt::State;

fn args() -> Cli {
    Cli { wrap: 80, wrap_min: 70, tab: 4, keep: false, trace: false }
}

#[test]
fn extra_newlines_collapsed() {
    assert_eq!(remove_extra_newlines("a\n\n\n\nb"), "a\n\nb");
    assert_eq!(remove_extra_newlines("a\n\nb"), "a\n\nb");
    assert_eq!(remove_extra_newlines("a\nb"), "a\nb");
    assert_eq!(remove_extra_newlines("\n\n\n\n\n"), "\n\n");
    assert_eq!(remove_extra_newlines(""), "");
}

#[test]
fn tabs_expanded() {
    assert_eq!(remove_tabs("a\tb", &args()), "a    b");
    assert_eq!(remove_tabs("\t\t", &args()), "        ");
    assert_eq!(remove_tabs("no tabs", &args()), "no tabs");
}

#[test]
fn trailing_spaces_stripped() {
    assert_eq!(remove_trailing_spaces("ab  \ncd \n"), "ab\ncd\n");
    assert_eq!(remove_trailing_spaces("a b\n"), "a b\n");
    // Spaces at the end of the text, before no line break, stay.
    assert_eq!(remove_trailing_spaces("ab  "), "ab  ");
}

#[test]
fn comment_index_found() {
    assert_eq!(find_comment_index("ab%c"), Some(2));
    assert_eq!(find_comment_index("a\\%b%c"), Some(4));
    assert_eq!(find_comment_index("\\\\%x"), Some(2));
    assert_eq!(find_comment_index("no comment"), None);
    assert_eq!(find_comment_index("escaped \\% only"), None);
}

#[test]
fn comment_stripped() {
    let line = "content % comment";
    let ci = find_comment_index(line);
    assert_eq!(remove_comment(line, ci), "content ");
    let plain = "content only";
    assert_eq!(remove_comment(plain, find_comment_index(plain)), "content only");
}

#[test]
fn env_split_needed_with_content_before() {
    let state = State::new();
    let line = "text \\begin{center}";
    assert!(needs_env_new_line(line, &state, &Pattern::new(line)));

    let alone = "\\begin{center} text";
    assert!(!needs_env_new_line(alone, &state, &Pattern::new(alone)));

    let prose = "no markers here";
    assert!(!needs_env_new_line(prose, &state, &Pattern::new(prose)));
}

#[test]
fn env_split_suppressed_in_verbatim() {
    let mut state = State::new();
    state.verbatim.visual = true;
    let line = "text \\begin{center}";
    assert!(!needs_env_new_line(line, &state, &Pattern::new(line)));
}

#[test]
fn env_put_on_new_line() {
    let state = State::new();
    let mut logs: Vec<Log> = Vec::new();
    let (prev, rest) = put_env_new_line("text \\begin{center}", &state, "f.tex", &args(), &mut logs);
    assert_eq!(prev, "text ");
    assert_eq!(rest, Some("\\begin{center}"));
}

#[test]
fn env_split_item_lines() {
    let state = State::new();
    let mut logs: Vec<Log> = Vec::new();
    let line = "\\item one \\item two";
    assert!(needs_env_new_line(line, &state, &Pattern::new(line)));
    let (prev, rest) = put_env_new_line(line, &state, "f.tex", &args(), &mut logs);
    assert_eq!(prev, "\\item one ");
    assert_eq!(rest, Some("\\item two"));
}

#[test]
fn commented_marker_not_split() {
    let state = State::new();
    let mut logs: Vec<Log> = Vec::new();
    let line = "text % \\begin{center}";
    assert!(needs_env_new_line(line, &state, &Pattern::new(line)));
    let (prev, rest) = put_env_new_line(line, &state, "f.tex", &args(), &mut logs);
    assert_eq!(prev, line);
    assert_eq!(rest, None);
}
