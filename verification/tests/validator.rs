use vssh::{
    background_process, validate, verify_pipeline, verify_redirection, SyntaxError, Verdict,
};

#[test]
fn lone_ampersand_is_invalid() {
    let mut line = vec!["&"];
    assert_eq!(background_process(&mut line), Verdict::Invalid(SyntaxError::Background));
    assert_eq!(line, vec!["&"]);
}

#[test]
fn ampersand_before_the_end_is_invalid() {
    let mut line = vec!["sleep", "&", "5"];
    assert_eq!(background_process(&mut line), Verdict::Invalid(SyntaxError::Background));
    assert_eq!(line, vec!["sleep", "&", "5"]);

    let mut first = vec!["&", "sleep", "5"];
    assert_eq!(background_process(&mut first), Verdict::Invalid(SyntaxError::Background));
    assert_eq!(first, vec!["&", "sleep", "5"]);

    let mut twice = vec!["sleep", "5", "&", "&"];
    assert_eq!(background_process(&mut twice), Verdict::Invalid(SyntaxError::Background));
    assert_eq!(twice, vec!["sleep", "5", "&", "&"]);
}

#[test]
fn trailing_ampersand_is_accepted_and_removed() {
    let mut line = vec!["sleep", "5", "&"];
    assert_eq!(background_process(&mut line), Verdict::Present);
    assert_eq!(line, vec!["sleep", "5"]);
}

#[test]
fn line_without_ampersand_is_left_alone() {
    let mut line = vec!["ls", "-la"];
    assert_eq!(background_process(&mut line), Verdict::Absent);
    assert_eq!(line, vec!["ls", "-la"]);

    let mut one = vec!["ls"];
    assert_eq!(background_process(&mut one), Verdict::Absent);
    assert_eq!(one, vec!["ls"]);
}

#[test]
fn empty_line_passes_every_check() {
    let mut line: Vec<&str> = Vec::new();
    assert_eq!(background_process(&mut line), Verdict::Absent);
    assert!(line.is_empty());
    assert_eq!(verify_redirection(&line), Verdict::Absent);
    assert_eq!(verify_pipeline(&line), Verdict::Absent);
}

#[test]
fn words_that_only_contain_a_metacharacter_are_words() {
    let mut line = vec!["a&", "&&", "||", "<<", "x>y"];
    assert_eq!(background_process(&mut line), Verdict::Absent);
    assert_eq!(verify_redirection(&line), Verdict::Absent);
    assert_eq!(verify_pipeline(&line), Verdict::Absent);
}

#[test]
fn stripped_line_is_not_background_again() {
    let mut line = vec!["sleep", "5", "&"];
    assert_eq!(background_process(&mut line), Verdict::Present);
    assert_eq!(background_process(&mut line), Verdict::Absent);
    assert_eq!(line, vec!["sleep", "5"]);
    assert_eq!(background_process(&mut line), Verdict::Absent);
    assert_eq!(line, vec!["sleep", "5"]);
}

#[test]
fn verdict_codes() {
    assert_eq!(Verdict::Invalid(SyntaxError::Pipe).code(), -1);
    assert_eq!(Verdict::Absent.code(), 0);
    assert_eq!(Verdict::Present.code(), 1);
    let mut line = vec!["sleep", "5", "&"];
    assert_eq!(background_process(&mut line).code(), 1);
    assert_eq!(verify_redirection(&["cat", "<"]).code(), -1);
    assert_eq!(verify_pipeline(&["ls"]).code(), 0);
}

#[test]
fn leading_redirection_is_invalid() {
    assert_eq!(
        verify_redirection(&["<", "in.txt"]),
        Verdict::Invalid(SyntaxError::Redirection("<"))
    );
    assert_eq!(
        verify_redirection(&[">", "out.txt", "cat"]),
        Verdict::Invalid(SyntaxError::Redirection(">"))
    );
    assert_eq!(verify_redirection(&[">"]), Verdict::Invalid(SyntaxError::Redirection(">")));
}

#[test]
fn trailing_redirection_is_invalid() {
    assert_eq!(
        verify_redirection(&["cat", "<"]),
        Verdict::Invalid(SyntaxError::Redirection("<"))
    );
    assert_eq!(
        verify_redirection(&["cat", "<", "a.txt", ">"]),
        Verdict::Invalid(SyntaxError::Redirection(">"))
    );
}

#[test]
fn leading_operator_is_named_before_trailing_one() {
    assert_eq!(
        verify_redirection(&["<", "a", ">"]),
        Verdict::Invalid(SyntaxError::Redirection("<"))
    );
}

#[test]
fn adjacent_redirections_are_invalid() {
    assert_eq!(
        verify_redirection(&["cat", "<", ">", "out.txt"]),
        Verdict::Invalid(SyntaxError::Redirection(">"))
    );
    assert_eq!(
        verify_redirection(&["cat", ">", "<", "in.txt"]),
        Verdict::Invalid(SyntaxError::Redirection("<"))
    );
}

#[test]
fn adjacent_redirections_are_found_after_a_good_one() {
    assert_eq!(
        verify_redirection(&["cat", "<", "a.txt", ">", ">", "b.txt"]),
        Verdict::Invalid(SyntaxError::Redirection(">"))
    );
    assert_eq!(
        verify_redirection(&["cat", ">", "a.txt", "x", "<", "<", "b.txt"]),
        Verdict::Invalid(SyntaxError::Redirection("<"))
    );
}

#[test]
fn well_placed_redirection_is_present() {
    assert_eq!(verify_redirection(&["cat", "<", "a.txt"]), Verdict::Present);
    assert_eq!(verify_redirection(&["cat", "<", "a.txt", ">", "b.txt"]), Verdict::Present);
    assert_eq!(verify_redirection(&["ls", "-la"]), Verdict::Absent);
    assert_eq!(verify_redirection(&["ls"]), Verdict::Absent);
}

#[test]
fn leading_pipe_is_invalid() {
    let verdict = verify_pipeline(&["|", "ls"]);
    assert_eq!(verdict, Verdict::Invalid(SyntaxError::Pipe));
    match verdict {
        Verdict::Invalid(error) => assert!(error.message().contains("|")),
        _ => panic!("a leading pipe must be rejected"),
    }
}

#[test]
fn trailing_pipe_is_invalid() {
    assert_eq!(verify_pipeline(&["ls", "|"]), Verdict::Invalid(SyntaxError::Pipe));
    assert_eq!(verify_pipeline(&["|"]), Verdict::Invalid(SyntaxError::Pipe));
}

#[test]
fn double_pipe_is_invalid() {
    assert_eq!(
        verify_pipeline(&["ls", "|", "|", "wc"]),
        Verdict::Invalid(SyntaxError::DoublePipe)
    );
    assert_eq!(
        verify_pipeline(&["a", "|", "b", "|", "|", "c"]),
        Verdict::Invalid(SyntaxError::DoublePipe)
    );
}

#[test]
fn pipe_at_the_edge_is_named_before_a_double_pipe() {
    assert_eq!(
        verify_pipeline(&["|", "|", "ls"]),
        Verdict::Invalid(SyntaxError::Pipe)
    );
}

#[test]
fn well_placed_pipe_is_present() {
    assert_eq!(verify_pipeline(&["echo", "hi", "|", "wc", "-c"]), Verdict::Present);
    assert_eq!(verify_pipeline(&["a", "|", "b", "|", "c"]), Verdict::Present);
    assert_eq!(verify_pipeline(&["ls", "-la"]), Verdict::Absent);
}

#[test]
fn syntax_messages() {
    assert_eq!(
        SyntaxError::Background.message(),
        "Error: syntax error near unexpected token `&'"
    );
    assert_eq!(
        SyntaxError::Redirection(">").message(),
        "Error: syntax error near unexpected token `>`"
    );
    assert_eq!(
        SyntaxError::Redirection("<").message(),
        "Error: syntax error near unexpected token `<`"
    );
    assert_eq!(SyntaxError::Pipe.message(), "Error: syntax error near unexpected token `|'");
    assert_eq!(
        SyntaxError::DoublePipe.message(),
        "Error: syntax error near unexpected token `||'"
    );
}

#[test]
fn background_is_checked_first_and_the_rest_sees_what_is_left() {
    let mut line = vec!["cat", "<", "&"];
    let checked = validate(&mut line);
    assert_eq!(checked.background, Verdict::Present);
    assert_eq!(checked.redirection, Verdict::Invalid(SyntaxError::Redirection("<")));
    assert_eq!(checked.pipeline, Verdict::Absent);
    assert!(!checked.is_valid());
    assert_eq!(checked.errors(), vec![SyntaxError::Redirection("<")]);
    assert_eq!(line, vec!["cat", "<"]);

    let mut piped = vec!["ls", "|", "&"];
    let checked = validate(&mut piped);
    assert_eq!(checked.background, Verdict::Present);
    assert_eq!(checked.pipeline, Verdict::Invalid(SyntaxError::Pipe));
    assert_eq!(piped, vec!["ls", "|"]);
}

#[test]
fn every_failed_check_is_reported_in_order() {
    let mut line = vec!["|", "&", "<"];
    let checked = validate(&mut line);
    assert!(!checked.is_valid());
    assert_eq!(
        checked.errors(),
        vec![SyntaxError::Background, SyntaxError::Redirection("<"), SyntaxError::Pipe]
    );
    assert_eq!(line, vec!["|", "&", "<"]);
}

#[test]
fn valid_line_has_no_errors() {
    let mut line = vec!["cat", "<", "a.txt", "|", "wc", "&"];
    let checked = validate(&mut line);
    assert!(checked.is_valid());
    assert!(checked.errors().is_empty());
    assert_eq!(checked.background, Verdict::Present);
    assert_eq!(checked.redirection, Verdict::Present);
    assert_eq!(checked.pipeline, Verdict::Present);
    assert_eq!(line, vec!["cat", "<", "a.txt", "|", "wc"]);
}
