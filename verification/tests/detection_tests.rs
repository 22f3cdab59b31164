use tex_fmt::markers::contains_preamble;
use tex_fmt::pattern::Pattern;

#[test]
fn new_pattern() {
    // Testing splitting patterns
    let pattern = Pattern::new("\\begin{enumerate} \\end{enumerate} \\item ");
    assert!(pattern.contains_env_begin);
    assert!(pattern.contains_env_end);
    assert!(pattern.contains_item);
    assert!(pattern.contains_splitting);

    // --- Testing math patterns

    // Opening macros for inline or display math must start the line (maybe
    // with whitespace) and can have math after the macro on the same line,
    // but no text before
    assert!(Pattern::new("\\( math after").opens_math_environment);
    assert!(Pattern::new("    \\( math after").opens_math_environment);
    assert!(Pattern::new("\\[ math after").opens_math_environment);
    assert!(Pattern::new("    \\[ math after").opens_math_environment);
    assert!(!Pattern::new("text before \\(").opens_math_environment);
    assert!(!Pattern::new("text before \\[").opens_math_environment);
    assert!(!Pattern::new("text before \\)").closes_math_environment);
    assert!(!Pattern::new("text before \\]").closes_math_environment);

    // Closing macros for inline or display math must start the line (maybe
    // with whitespace) and can have text after the macro on the same line,
    // but no math before
    assert!(Pattern::new("\\) text after").closes_math_environment);
    assert!(Pattern::new("    \\) text after").closes_math_environment);
    assert!(Pattern::new("\\] text after").closes_math_environment);
    assert!(Pattern::new("    \\] text after").closes_math_environment);
    assert!(!Pattern::new("math before \\)").closes_math_environment);
    assert!(!Pattern::new("math before \\)").closes_math_environment);
    assert!(!Pattern::new("math before \\]").closes_math_environment);
    assert!(!Pattern::new("math before \\]").closes_math_environment);

    // Math environment names within `\begin{}` and `\end{}` should start
    // and end math mode respectively.
    assert!(Pattern::new("\\begin{equation}").opens_math_environment);
    assert!(Pattern::new("\\end{equation}").closes_math_environment);
    assert!(Pattern::new("\\begin{equation*}").opens_math_environment);
    assert!(Pattern::new("\\end{equation*}").closes_math_environment);

    // Other environment names should not start math mode
    assert!(!Pattern::new("\\begin{document}").opens_math_environment);
    assert!(!Pattern::new("\\begin{definition}").opens_math_environment);
    assert!(!Pattern::new("\\begin{theorem}").opens_math_environment);
    assert!(!Pattern::new("\\begin{quote}").opens_math_environment);
}

#[test]
fn preamble() {
    assert!(contains_preamble(
        "Preamble text.\n\\begin{document}\nText goes here.\\end{document}"
    ));
    assert!(contains_preamble(
        "%! tex-fmt: preamble\n\\documentclass{article}\n\\usepackage{}"
    ));
}
