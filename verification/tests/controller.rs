use vssh::{
    announcement, contains_nul, external_command, externalize, is_background_marker,
    is_input_operator, is_output_operator, is_pipe_operator, is_redirection_operator, is_single,
    launch_failure, route, same_text, shell_command, verdict_event, Direction, Dispatch, Failure,
    FailureKind, JobAction, JobEvent, JobState, Pipeline, Redirection, Route, Sink, Source,
    SyntaxError, Topology, Wiring,
};

fn run(dispatch: &Dispatch, created: Option<i32>) -> Vec<JobAction> {
    let mut actions = Vec::new();
    let mut state = JobState::new();
    let mut event = JobEvent::Line;
    while let Some((next, action)) = state.step(event) {
        actions.push(action);
        state = next;
        event = match action {
            JobAction::Validate => verdict_event(dispatch),
            JobAction::Create => match created {
                Some(handle) => JobEvent::Created { handle },
                None => JobEvent::CreationFailed,
            },
            JobAction::Wait { .. } => JobEvent::Exited,
            JobAction::Announce { .. } => JobEvent::Reported,
            JobAction::Report => JobEvent::Reported,
            JobAction::Prompt => break,
        };
    }
    assert_eq!(state, JobState::Idle);
    actions
}

#[test]
fn simple_command_runs_in_the_foreground() {
    let dispatch = external_command(vec!["ls", "-la"]);
    assert_eq!(
        dispatch,
        Dispatch::Single { command: vec!["ls", "-la"], redirections: Vec::new(), background: false }
    );
    assert_eq!(dispatch.topology(), Topology::Simple);
    assert!(!dispatch.detached());
    assert_eq!(
        run(&dispatch, Some(4242)),
        vec![
            JobAction::Validate,
            JobAction::Create,
            JobAction::Wait { handle: 4242 },
            JobAction::Prompt,
        ]
    );
}

#[test]
fn background_command_is_announced_and_not_waited_for() {
    let dispatch = external_command(vec!["sleep", "5", "&"]);
    assert_eq!(
        dispatch,
        Dispatch::Single { command: vec!["sleep", "5"], redirections: Vec::new(), background: true }
    );
    assert_eq!(dispatch.topology(), Topology::Background);
    assert!(dispatch.detached());
    let actions = run(&dispatch, Some(77));
    assert_eq!(
        actions,
        vec![
            JobAction::Validate,
            JobAction::Create,
            JobAction::Announce { handle: 77 },
            JobAction::Prompt,
        ]
    );
    assert!(!actions.iter().any(|action| matches!(action, JobAction::Wait { .. })));
    assert_eq!(announcement(77), "Starting background process 77");
}

#[test]
fn redirected_command_carries_its_requests() {
    let dispatch = external_command(vec!["cat", "<", "a.txt", ">", "b.txt"]);
    assert_eq!(
        dispatch,
        Dispatch::Single {
            command: vec!["cat"],
            redirections: vec![
                Redirection { direction: Direction::Input, path: "a.txt" },
                Redirection { direction: Direction::Output, path: "b.txt" },
            ],
            background: false,
        }
    );
    assert_eq!(dispatch.topology(), Topology::Redirected);
}

#[test]
fn redirected_command_may_run_in_the_background() {
    let dispatch = external_command(vec!["cat", "<", "a.txt", "&"]);
    assert_eq!(
        dispatch,
        Dispatch::Single {
            command: vec!["cat"],
            redirections: vec![Redirection { direction: Direction::Input, path: "a.txt" }],
            background: true,
        }
    );
    assert_eq!(dispatch.topology(), Topology::Redirected);
    assert!(dispatch.detached());
}

#[test]
fn piped_command_waits_for_its_last_stage_only() {
    let dispatch = external_command(vec!["echo", "hi", "|", "wc", "-c"]);
    assert_eq!(
        dispatch,
        Dispatch::Piped {
            pipeline: Pipeline {
                commands: vec![vec!["echo", "hi"], vec!["wc", "-c"]],
                output_file: None,
            },
            background: false,
        }
    );
    assert_eq!(dispatch.topology(), Topology::Piped);
    match &dispatch {
        Dispatch::Piped { pipeline, .. } => {
            assert_eq!(
                pipeline.wiring(0),
                Some(Wiring { input: Source::Inherited, output: Sink::Pipe, awaited: false })
            );
            assert_eq!(
                pipeline.wiring(1),
                Some(Wiring { input: Source::Pipe, output: Sink::Inherited, awaited: true })
            );
        }
        _ => panic!("a line with a pipe must be piped"),
    }
    assert_eq!(
        run(&dispatch, Some(9)),
        vec![
            JobAction::Validate,
            JobAction::Create,
            JobAction::Wait { handle: 9 },
            JobAction::Prompt,
        ]
    );
}

#[test]
fn piped_command_with_output_file() {
    let dispatch = external_command(vec!["ls", "|", "sort", ">", "out.txt", "&"]);
    assert_eq!(
        dispatch,
        Dispatch::Piped {
            pipeline: Pipeline {
                commands: vec![vec!["ls"], vec!["sort"]],
                output_file: Some("out.txt"),
            },
            background: true,
        }
    );
    assert!(dispatch.detached());
}

#[test]
fn leading_pipe_creates_no_process() {
    let dispatch = external_command(vec!["|", "ls"]);
    assert_eq!(dispatch, Dispatch::Invalid { errors: vec![SyntaxError::Pipe] });
    assert_eq!(dispatch.topology(), Topology::Invalid);
    assert!(!dispatch.detached());
    let actions = run(&dispatch, Some(1));
    assert_eq!(actions, vec![JobAction::Validate, JobAction::Report, JobAction::Prompt]);
    assert!(!actions.contains(&JobAction::Create));
    match dispatch {
        Dispatch::Invalid { errors } => {
            assert_eq!(errors.len(), 1);
            assert!(errors[0].message().contains("|"));
            assert!(Failure::Syntax(errors[0]).message().contains("|"));
        }
        _ => panic!("a leading pipe must be rejected"),
    }
}

#[test]
fn invalid_lines_are_rejected_with_their_errors() {
    assert_eq!(
        external_command(vec!["&"]),
        Dispatch::Invalid { errors: vec![SyntaxError::Background] }
    );
    assert_eq!(
        external_command(vec!["a", "&", "b"]),
        Dispatch::Invalid { errors: vec![SyntaxError::Background] }
    );
    assert_eq!(
        external_command(vec!["cat", "<"]),
        Dispatch::Invalid { errors: vec![SyntaxError::Redirection("<")] }
    );
    assert_eq!(
        external_command(vec!["cat", "<", ">", "f"]),
        Dispatch::Invalid { errors: vec![SyntaxError::Redirection(">")] }
    );
    assert_eq!(
        external_command(vec!["a", "|", "|", "b"]),
        Dispatch::Invalid { errors: vec![SyntaxError::DoublePipe] }
    );
    assert_eq!(
        external_command(vec!["a", "|", "&"]),
        Dispatch::Invalid { errors: vec![SyntaxError::Pipe] }
    );
    assert_eq!(
        external_command(vec![">", "|"]),
        Dispatch::Invalid { errors: vec![SyntaxError::Redirection(">"), SyntaxError::Pipe] }
    );
}

#[test]
fn failed_creation_is_reported_and_the_controller_goes_on() {
    let dispatch = external_command(vec!["ls"]);
    assert_eq!(
        run(&dispatch, None),
        vec![JobAction::Validate, JobAction::Create, JobAction::Report, JobAction::Prompt]
    );
}

#[test]
fn every_move_of_the_controller() {
    let idle = JobState::Idle;
    let validating = JobState::Validating;
    let foreground = JobState::Dispatching { background: false };
    let background = JobState::Dispatching { background: true };
    assert_eq!(idle.step(JobEvent::Line), Some((validating, JobAction::Validate)));
    assert_eq!(validating.step(JobEvent::Rejected), Some((JobState::Error, JobAction::Report)));
    assert_eq!(
        validating.step(JobEvent::Accepted { background: false }),
        Some((foreground, JobAction::Create))
    );
    assert_eq!(
        validating.step(JobEvent::Accepted { background: true }),
        Some((background, JobAction::Create))
    );
    assert_eq!(
        foreground.step(JobEvent::Created { handle: 5 }),
        Some((JobState::ForegroundWait { handle: 5 }, JobAction::Wait { handle: 5 }))
    );
    assert_eq!(
        background.step(JobEvent::Created { handle: 6 }),
        Some((JobState::BackgroundDetached { handle: 6 }, JobAction::Announce { handle: 6 }))
    );
    assert_eq!(
        foreground.step(JobEvent::CreationFailed),
        Some((JobState::Error, JobAction::Report))
    );
    assert_eq!(
        background.step(JobEvent::CreationFailed),
        Some((JobState::Error, JobAction::Report))
    );
    assert_eq!(
        JobState::ForegroundWait { handle: 5 }.step(JobEvent::Exited),
        Some((idle, JobAction::Prompt))
    );
    assert_eq!(
        JobState::BackgroundDetached { handle: 6 }.step(JobEvent::Reported),
        Some((idle, JobAction::Prompt))
    );
    assert_eq!(JobState::Error.step(JobEvent::Reported), Some((idle, JobAction::Prompt)));
}

#[test]
fn events_out_of_place_move_nothing() {
    assert_eq!(JobState::Idle.step(JobEvent::Exited), None);
    assert_eq!(JobState::Idle.step(JobEvent::Created { handle: 1 }), None);
    assert_eq!(JobState::Validating.step(JobEvent::Line), None);
    assert_eq!(JobState::Validating.step(JobEvent::Created { handle: 1 }), None);
    assert_eq!(JobState::Dispatching { background: true }.step(JobEvent::Rejected), None);
    assert_eq!(JobState::ForegroundWait { handle: 1 }.step(JobEvent::Reported), None);
    assert_eq!(JobState::BackgroundDetached { handle: 1 }.step(JobEvent::Exited), None);
    assert_eq!(JobState::Error.step(JobEvent::Line), None);
}

#[test]
fn announcements() {
    assert_eq!(announcement(0), "Starting background process 0");
    assert_eq!(announcement(7), "Starting background process 7");
    assert_eq!(announcement(10), "Starting background process 10");
    assert_eq!(announcement(31337), "Starting background process 31337");
    assert_eq!(announcement(2147483647), "Starting background process 2147483647");
    assert_eq!(announcement(-1), "Starting background process -1");
    assert_eq!(announcement(-2147483648), "Starting background process -2147483648");
}

#[test]
fn failure_messages() {
    assert_eq!(
        Failure::Syntax(SyntaxError::Pipe).message(),
        "Error: syntax error near unexpected token `|'"
    );
    assert_eq!(
        Failure::MissingPath(">").message(),
        "Error: missing file path for redirection `>`"
    );
    assert_eq!(
        Failure::File("No such file or directory (os error 2)").message(),
        "Error: No such file or directory (os error 2)"
    );
    assert_eq!(Failure::Descriptor.message(), "Error: failed to duplicate file descriptor");
    assert_eq!(Failure::NotFound("frobnicate").message(), "frobnicate not found");
    assert_eq!(Failure::Fork("EAGAIN").message(), "Fork failed: EAGAIN");
    assert_eq!(Failure::Stage("Broken pipe").message(), "Broken pipe");
}

#[test]
fn failure_kinds_and_exit_statuses() {
    assert_eq!(Failure::Syntax(SyntaxError::Background).kind(), FailureKind::Syntax);
    assert_eq!(Failure::MissingPath("<").kind(), FailureKind::Resource);
    assert_eq!(Failure::File("x").kind(), FailureKind::Resource);
    assert_eq!(Failure::Descriptor.kind(), FailureKind::Resource);
    assert_eq!(Failure::NotFound("x").kind(), FailureKind::Launch);
    assert_eq!(Failure::Fork("x").kind(), FailureKind::System);
    assert_eq!(Failure::Stage("x").kind(), FailureKind::System);

    assert_eq!(Failure::Syntax(SyntaxError::Background).exit_status(), None);
    assert_eq!(Failure::MissingPath("<").exit_status(), Some(1));
    assert_eq!(Failure::File("x").exit_status(), Some(1));
    assert_eq!(Failure::Descriptor.exit_status(), Some(1));
    assert_eq!(Failure::NotFound("x").exit_status(), Some(1));
    assert_eq!(Failure::Fork("x").exit_status(), None);
    assert_eq!(Failure::Stage("x").exit_status(), None);
}

#[test]
fn arguments_are_passed_on_as_bytes() {
    assert_eq!(
        externalize(vec!["ls", "-la", "/tmp"]),
        Some(vec![b"ls".to_vec(), b"-la".to_vec(), b"/tmp".to_vec()])
    );
    assert_eq!(externalize(vec!["é"]), Some(vec![vec![0xc3, 0xa9]]));
    assert_eq!(externalize(Vec::new()), Some(Vec::new()));
}

#[test]
fn argument_with_a_zero_byte_cannot_be_passed_on() {
    assert_eq!(externalize(vec!["ls", "a\0b"]), None);
    assert_eq!(externalize(vec!["\0"]), None);
    assert!(contains_nul(&vec![1, 0, 2]));
    assert!(!contains_nul(&vec![1, 2]));
    assert!(!contains_nul(&Vec::new()));
}

#[test]
fn launch_failure_names_the_program() {
    let failure = launch_failure(&vec!["frobnicate", "-x"]);
    assert_eq!(failure, Some(Failure::NotFound("frobnicate")));
    assert_eq!(failure.map(|f| f.message()), Some("frobnicate not found".to_string()));
    assert_eq!(launch_failure(&Vec::new()), None);
}

#[test]
fn first_token_decides_who_handles_the_line() {
    assert_eq!(route(&Vec::new()), Route::Nothing);
    assert_eq!(route(&vec![""]), Route::Nothing);
    assert_eq!(route(&vec!["exit"]), Route::Exit);
    assert_eq!(route(&vec!["exit", "now"]), Route::Exit);
    assert_eq!(route(&vec!["cd", "/tmp"]), Route::ChangeDirectory);
    assert_eq!(route(&vec!["cd"]), Route::ChangeDirectory);
    assert_eq!(route(&vec!["ls", "-la"]), Route::External);
    assert_eq!(route(&vec!["exits"]), Route::External);
    assert_eq!(route(&vec!["c"]), Route::External);
    assert_eq!(route(&vec!["|", "ls"]), Route::External);
}

#[test]
fn cd_takes_the_second_token() {
    assert_eq!(shell_command(vec!["cd", "/tmp"]), Ok("/tmp"));
    assert_eq!(shell_command(vec!["cd", "a", "b"]), Ok("a"));
    assert_eq!(shell_command(vec!["cd"]), Err("cd needs an argument".to_string()));
    assert_eq!(shell_command(Vec::new()), Err("cd needs an argument".to_string()));
}

#[test]
fn metacharacters_are_single_character_tokens() {
    assert!(is_background_marker("&"));
    assert!(!is_background_marker("&&"));
    assert!(!is_background_marker(""));
    assert!(is_input_operator("<"));
    assert!(!is_input_operator(">"));
    assert!(is_output_operator(">"));
    assert!(!is_output_operator(">>"));
    assert!(is_redirection_operator("<"));
    assert!(is_redirection_operator(">"));
    assert!(!is_redirection_operator("|"));
    assert!(is_pipe_operator("|"));
    assert!(!is_pipe_operator("||"));
    assert!(is_single("é", 'é'));
    assert!(!is_single("e", 'é'));
}

#[test]
fn texts_are_compared_character_by_character() {
    assert!(same_text("exit", "exit"));
    assert!(!same_text("exit", "exi"));
    assert!(!same_text("exit", "exiT"));
    assert!(same_text("", ""));
    assert!(!same_text("", "x"));
    assert!(same_text("héllo", "héllo"));
}
