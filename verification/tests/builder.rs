use vssh::{handle_pipeline, split_at_pipes, strip_output, Pipeline, Sink, Source, Wiring};

#[test]
fn three_commands_come_out_in_order() {
    let pipeline = handle_pipeline(vec!["a", "|", "b", "|", "c"]);
    assert_eq!(pipeline.commands.len(), 3);
    assert_eq!(pipeline.commands, vec![vec!["a"], vec!["b"], vec!["c"]]);
    assert!(pipeline.commands.iter().all(|command| !command.is_empty()));
    assert_eq!(pipeline.output_file, None);
    assert_eq!(pipeline.stage_count(), 3);
}

#[test]
fn arguments_stay_with_their_command() {
    let pipeline = handle_pipeline(vec!["echo", "hi", "|", "wc", "-c"]);
    assert_eq!(pipeline.commands, vec![vec!["echo", "hi"], vec!["wc", "-c"]]);
    assert_eq!(pipeline.output_file, None);
}

#[test]
fn trailing_output_file_is_captured() {
    let pipeline = handle_pipeline(vec!["ls", "-la", "|", "sort", ">", "out.txt"]);
    assert_eq!(pipeline.commands, vec![vec!["ls", "-la"], vec!["sort"]]);
    assert_eq!(pipeline.output_file, Some("out.txt"));
}

#[test]
fn last_output_file_wins() {
    let pipeline = handle_pipeline(vec!["a", ">", "one", "|", "b", ">", "two"]);
    assert_eq!(pipeline.commands, vec![vec!["a"], vec!["b"]]);
    assert_eq!(pipeline.output_file, Some("two"));
}

#[test]
fn input_operator_is_a_word_in_a_pipeline() {
    let pipeline = handle_pipeline(vec!["cat", "<", "in.txt", "|", "wc"]);
    assert_eq!(pipeline.commands, vec![vec!["cat", "<", "in.txt"], vec!["wc"]]);
    assert_eq!(pipeline.output_file, None);
}

#[test]
fn empty_pieces_are_dropped() {
    let pipeline = handle_pipeline(vec!["|", "a", "|", "|", "b", "|"]);
    assert_eq!(pipeline.commands, vec![vec!["a"], vec!["b"]]);
    let only_file = handle_pipeline(vec!["a", "|", ">", "f"]);
    assert_eq!(only_file.commands, vec![vec!["a"]]);
    assert_eq!(only_file.output_file, Some("f"));
    let none = handle_pipeline(Vec::new());
    assert!(none.commands.is_empty());
    assert_eq!(none.output_file, None);
}

#[test]
fn output_operator_at_the_end_is_dropped() {
    let (words, output) = strip_output(&vec!["a", "|", "b", ">"]);
    assert_eq!(words, vec!["a", "|", "b"]);
    assert_eq!(output, None);
}

#[test]
fn output_operator_takes_the_next_token_whatever_it_is() {
    let (words, output) = strip_output(&vec!["a", ">", "|", "b"]);
    assert_eq!(words, vec!["a", "b"]);
    assert_eq!(output, Some("|"));
    let pipeline = handle_pipeline(vec!["a", ">", "|", "b"]);
    assert_eq!(pipeline.commands, vec![vec!["a", "b"]]);
}

#[test]
fn splitting_a_line_without_pipes_gives_one_command() {
    assert_eq!(split_at_pipes(&vec!["ls", "-la"]), vec![vec!["ls", "-la"]]);
    assert!(split_at_pipes(&Vec::new()).is_empty());
    assert!(split_at_pipes(&vec!["|"]).is_empty());
}

#[test]
fn stages_are_wired_in_a_chain() {
    let pipeline = handle_pipeline(vec!["a", "|", "b", "|", "c"]);
    assert_eq!(
        pipeline.wiring(0),
        Some(Wiring { input: Source::Inherited, output: Sink::Pipe, awaited: false })
    );
    assert_eq!(
        pipeline.wiring(1),
        Some(Wiring { input: Source::Pipe, output: Sink::Pipe, awaited: false })
    );
    assert_eq!(
        pipeline.wiring(2),
        Some(Wiring { input: Source::Pipe, output: Sink::Inherited, awaited: true })
    );
    assert_eq!(pipeline.wiring(3), None);
}

#[test]
fn last_stage_writes_to_the_output_file() {
    let pipeline = handle_pipeline(vec!["ls", "|", "sort", ">", "out.txt"]);
    assert_eq!(
        pipeline.wiring(0),
        Some(Wiring { input: Source::Inherited, output: Sink::Pipe, awaited: false })
    );
    assert_eq!(
        pipeline.wiring(1),
        Some(Wiring { input: Source::Pipe, output: Sink::File("out.txt"), awaited: true })
    );
}

#[test]
fn single_stage_reads_and_writes_what_the_controller_does() {
    let pipeline = Pipeline { commands: vec![vec!["ls"]], output_file: None };
    assert_eq!(
        pipeline.wiring(0),
        Some(Wiring { input: Source::Inherited, output: Sink::Inherited, awaited: true })
    );
    let empty = Pipeline { commands: Vec::new(), output_file: Some("f") };
    assert_eq!(empty.wiring(0), None);
    assert_eq!(empty.stage_count(), 0);
}
