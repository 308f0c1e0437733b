//! The command-execution engine of a small interactive shell.
//!
//! The engine receives one command line as a sequence of whitespace-delimited
//! tokens. It checks where the metacharacters `&`, `<`, `>` and `|` stand,
//! decides how the line is to be run (one process, one process in the
//! background, or a chain of processes joined by pipes) and tells its caller,
//! step by step, which process to create and what to wait for. Creating
//! processes and opening files is the caller's part; every decision is made
//! here, and each is proved to be the one that its contract states.

pub mod token;
pub mod syntax;
pub mod redirect;
pub mod pipeline;
pub mod failure;
pub mod launch;
pub mod job;
pub mod builtin;

pub use builtin::{route, shell_command, Route};
pub use failure::{Failure, FailureKind};
pub use job::{
    announcement, external_command, verdict_event, Dispatch, JobAction, JobEvent, JobState,
    Topology,
};
pub use launch::{contains_nul, externalize, launch_failure};
pub use pipeline::{handle_pipeline, split_at_pipes, strip_output, Pipeline, Sink, Source, Wiring};
pub use redirect::{handle_redirection, Direction, Redirection, RedirectionPlan};
pub use syntax::{
    background_process, validate, verify_pipeline, verify_redirection, SyntaxError, Validation,
    Verdict,
};
pub use token::{
    is_background_marker, is_input_operator, is_output_operator, is_pipe_operator,
    is_redirection_operator, is_single, same_text,
};
