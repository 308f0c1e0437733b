//! The job controller.
//!
//! The controller takes one line at a time. It has the line validated, and
//! on a valid line decides what is to be run: one process, with or without
//! redirection, or a pipeline; in the foreground, where it waits for the
//! process, or in the background, where it prints the handle of the process
//! and goes on. [`external_command`] makes that decision for a line, and
//! [`JobState::step`] says, event by event, what the controller does next.
//! The caller creates the processes, waits, prints, and reports back.

use vstd::prelude::*;
use vstd::string::*;
use crate::pipeline::{
    handle_pipeline, lemma_first_segment_starts_line, pipeline_output, pipeline_words, segments,
    Pipeline,
};
use crate::redirect::{
    handle_redirection, lemma_accepted_line_redirects_cleanly, lemma_requests_where_operators,
    remainder_of, requests_of, Redirection,
};
use crate::syntax::{
    background_verdict, validate, validation_of, without_background, SyntaxError, Verdict,
};
use crate::token::{output_operator, redirection_operator};

verus! {

/// The shape in which a line is run.
#[derive(Clone, Copy, Debug, PartialEq, Eq, Structural)]
pub enum Topology {
    /// The line is rejected; nothing is run.
    Invalid,
    /// One process, in the foreground, on the streams of the controller.
    Simple,
    /// One process, in the background, on the streams of the controller.
    Background,
    /// One process with its input or its output bound to a file.
    Redirected,
    /// A chain of processes joined by pipes.
    Piped,
}

/// What is to be done with a line.
#[derive(Debug, PartialEq, Eq)]
pub enum Dispatch<'a> {
    /// The line is rejected. No process is created; one diagnostic is owed
    /// for each error, in this order.
    Invalid {
        /// The errors, in the order of the checks.
        errors: Vec<SyntaxError<'a>>,
    },
    /// The line is one command.
    Single {
        /// The program and its arguments, all metacharacters taken off.
        command: Vec<&'a str>,
        /// The redirections that the child carries out, in this order,
        /// before it becomes the program.
        redirections: Vec<Redirection<'a>>,
        /// Whether the line ended in `&`.
        background: bool,
    },
    /// The line is a pipeline.
    Piped {
        /// The stages and the output file.
        pipeline: Pipeline<'a>,
        /// Whether the line ended in `&`.
        background: bool,
    },
}

/// The shape in which a line is run: invalid if any check rejects it; else
/// piped if it holds a `|`; else redirected if it holds `<` or `>`; else
/// background if it ended in `&`; else simple.
pub open spec fn topology_of(tokens: Seq<&str>) -> Topology {
    let checked = validation_of(tokens);
    if !checked.valid() {
        Topology::Invalid
    } else if checked.pipeline is Present {
        Topology::Piped
    } else if checked.redirection is Present {
        Topology::Redirected
    } else if checked.background is Present {
        Topology::Background
    } else {
        Topology::Simple
    }
}

impl<'a> Dispatch<'a> {
    /// This is the decision that the line calls for.
    pub open spec fn decides(self, tokens: Seq<&'a str>) -> bool {
        let checked = validation_of(tokens);
        let line = without_background(tokens);
        match self {
            Dispatch::Invalid { errors } => {
                &&& !checked.valid()
                &&& errors@ == checked.faults()
            },
            Dispatch::Single { command, redirections, background } => {
                &&& checked.valid()
                &&& !(checked.pipeline is Present)
                &&& command@ == remainder_of(line)
                &&& redirections@ == requests_of(line)
                &&& background == (checked.background is Present)
            },
            Dispatch::Piped { pipeline, background } => {
                &&& checked.valid()
                &&& checked.pipeline is Present
                &&& pipeline.stages() == segments(pipeline_words(line))
                &&& pipeline.output_file == pipeline_output(line)
                &&& pipeline.wf()
                &&& background == (checked.background is Present)
            },
        }
    }

    /// The shape of the decision.
    pub open spec fn spec_topology(self) -> Topology {
        match self {
            Dispatch::Invalid { .. } => Topology::Invalid,
            Dispatch::Piped { .. } => Topology::Piped,
            Dispatch::Single { redirections, background, .. } => if redirections@.len() > 0 {
                Topology::Redirected
            } else if background {
                Topology::Background
            } else {
                Topology::Simple
            },
        }
    }

    /// Whether the controller goes on without waiting for the process.
    pub open spec fn spec_detached(self) -> bool {
        match self {
            Dispatch::Invalid { .. } => false,
            Dispatch::Single { background, .. } => background,
            Dispatch::Piped { background, .. } => background,
        }
    }

    /// The shape of the decision.
    pub fn topology(&self) -> (shape: Topology)
        ensures
            shape == self.spec_topology(),
    {
        match self {
            Dispatch::Invalid { .. } => Topology::Invalid,
            Dispatch::Piped { .. } => Topology::Piped,
            Dispatch::Single { redirections, background, .. } => if redirections.len() > 0 {
                Topology::Redirected
            } else if *background {
                Topology::Background
            } else {
                Topology::Simple
            },
        }
    }

    /// Whether the line ended in an accepted `&`, so that the controller
    /// prints the handle of the process and does not wait for it.
    pub fn detached(&self) -> (detached: bool)
        ensures
            detached == self.spec_detached(),
    {
        match self {
            Dispatch::Invalid { .. } => false,
            Dispatch::Single { background, .. } => *background,
            Dispatch::Piped { background, .. } => *background,
        }
    }
}

/// Decides what is to be done with a line that names an external command.
///
/// The three checks run in their order; the first takes an accepted `&` off
/// the line. If any check fails the line is rejected, with every error that
/// was found. Otherwise a line with `|` goes to the pipeline builder, and
/// any other line is one command, from which the redirector takes its
/// operators and paths.
pub fn external_command<'a>(arguments: Vec<&'a str>) -> (dispatch: Dispatch<'a>)
    ensures
        dispatch.decides(arguments@),
        dispatch.spec_topology() == topology_of(arguments@),
        dispatch.spec_detached() == (validation_of(arguments@).valid() && background_verdict(
            arguments@,
        ) is Present),
{
    let ghost tokens = arguments@;
    let mut arguments = arguments;
    let checked = validate(&mut arguments);
    if !checked.is_valid() {
        return Dispatch::Invalid { errors: checked.errors() };
    }
    let background: bool = match checked.background {
        Verdict::Present => true,
        _ => false,
    };
    let piped: bool = match checked.pipeline {
        Verdict::Present => true,
        _ => false,
    };
    if piped {
        let pipeline = handle_pipeline(arguments);
        return Dispatch::Piped { pipeline, background };
    }
    let redirected: bool = match checked.redirection {
        Verdict::Present => true,
        _ => false,
    };
    let ghost line = arguments@;
    proof {
        lemma_requests_where_operators(line);
        lemma_accepted_line_redirects_cleanly(line);
    }
    let redirections = if redirected {
        handle_redirection(&mut arguments).requests
    } else {
        assert(requests_of(line) =~= Seq::empty());
        Vec::new()
    };
    assert(arguments@ == remainder_of(line));
    assert(redirections@ == requests_of(line));
    assert(redirections@.len() > 0 <==> redirected);
    Dispatch::Single { command: arguments, redirections, background }
}

// ---------------------------------------------------------------------------
// The controller as a state machine
// ---------------------------------------------------------------------------

/// Where the controller stands with the current line.
#[derive(Clone, Copy, Debug, PartialEq, Eq, Structural)]
pub enum JobState {
    /// No line is being worked on.
    Idle,
    /// A line has come in and is with the validator.
    Validating,
    /// The line is valid and its processes are being created.
    Dispatching {
        /// Whether the validator took a `&` off the line.
        background: bool,
    },
    /// The controller is blocked until the child with this handle ends.
    ForegroundWait {
        /// The last stage of the pipeline, or the only child.
        handle: i32,
    },
    /// The child with this handle runs on its own; its handle is being
    /// printed.
    BackgroundDetached {
        /// The last stage of the pipeline, or the only child.
        handle: i32,
    },
    /// The line has failed and the failure is being reported.
    Error,
}

/// What the caller reports to the controller.
#[derive(Clone, Copy, Debug, PartialEq, Eq, Structural)]
pub enum JobEvent {
    /// A new line has been read.
    Line,
    /// The validator has rejected the line.
    Rejected,
    /// The validator has accepted the line.
    Accepted {
        /// Whether it took a `&` off the line.
        background: bool,
    },
    /// The processes of the line exist.
    Created {
        /// The handle of the last stage, or of the only child.
        handle: i32,
    },
    /// No process could be created for the line.
    CreationFailed,
    /// The child that the controller waited for has ended.
    Exited,
    /// What was to be printed has been printed.
    Reported,
}

/// What the controller asks the caller to do next.
#[derive(Clone, Copy, Debug, PartialEq, Eq, Structural)]
pub enum JobAction {
    /// Have the line validated.
    Validate,
    /// Create the processes of the line.
    Create,
    /// Block until the child with this handle ends.
    Wait {
        /// The child to wait for.
        handle: i32,
    },
    /// Print the handle, and do not wait.
    Announce {
        /// The child that was sent to the background.
        handle: i32,
    },
    /// Print the diagnostics of the failure.
    Report,
    /// Ask for the next line.
    Prompt,
}

/// The move that the controller makes in `state` on `event`: the state it
/// goes to and what it asks for. `None` where the event cannot occur in
/// that state.
pub open spec fn transition(state: JobState, event: JobEvent) -> Option<(JobState, JobAction)> {
    match (state, event) {
        (JobState::Idle, JobEvent::Line) => Some((JobState::Validating, JobAction::Validate)),
        (JobState::Validating, JobEvent::Rejected) => Some((JobState::Error, JobAction::Report)),
        (JobState::Validating, JobEvent::Accepted { background }) => Some(
            (JobState::Dispatching { background }, JobAction::Create),
        ),
        (JobState::Dispatching { background }, JobEvent::Created { handle }) => if background {
            Some((JobState::BackgroundDetached { handle }, JobAction::Announce { handle }))
        } else {
            Some((JobState::ForegroundWait { handle }, JobAction::Wait { handle }))
        },
        (JobState::Dispatching { .. }, JobEvent::CreationFailed) => Some(
            (JobState::Error, JobAction::Report),
        ),
        (JobState::ForegroundWait { .. }, JobEvent::Exited) => Some(
            (JobState::Idle, JobAction::Prompt),
        ),
        (JobState::BackgroundDetached { .. }, JobEvent::Reported) => Some(
            (JobState::Idle, JobAction::Prompt),
        ),
        (JobState::Error, JobEvent::Reported) => Some((JobState::Idle, JobAction::Prompt)),
        _ => None,
    }
}

/// How many moves a state is from `Idle` at most.
pub open spec fn moves_left(state: JobState) -> nat {
    match state {
        JobState::Idle => 0,
        JobState::Error => 1,
        JobState::ForegroundWait { .. } => 1,
        JobState::BackgroundDetached { .. } => 1,
        JobState::Dispatching { .. } => 2,
        JobState::Validating => 3,
    }
}

impl JobState {
    /// The state of a controller that has no line yet.
    pub fn new() -> (state: JobState)
        ensures
            state == JobState::Idle,
    {
        JobState::Idle
    }

    /// Makes the controller's move on an event: the state it goes to and
    /// what the caller is to do next, or `None` if the event cannot occur
    /// in this state.
    pub fn step(self, event: JobEvent) -> (moved: Option<(JobState, JobAction)>)
        ensures
            moved == transition(self, event),
    {
        match self {
            JobState::Idle => match event {
                JobEvent::Line => Some((JobState::Validating, JobAction::Validate)),
                _ => None,
            },
            JobState::Validating => match event {
                JobEvent::Rejected => Some((JobState::Error, JobAction::Report)),
                JobEvent::Accepted { background } => Some(
                    (JobState::Dispatching { background }, JobAction::Create),
                ),
                _ => None,
            },
            JobState::Dispatching { background } => match event {
                JobEvent::Created { handle } => if background {
                    Some((JobState::BackgroundDetached { handle }, JobAction::Announce { handle }))
                } else {
                    Some((JobState::ForegroundWait { handle }, JobAction::Wait { handle }))
                },
                JobEvent::CreationFailed => Some((JobState::Error, JobAction::Report)),
                _ => None,
            },
            JobState::ForegroundWait { .. } => match event {
                JobEvent::Exited => Some((JobState::Idle, JobAction::Prompt)),
                _ => None,
            },
            JobState::BackgroundDetached { .. } => match event {
                JobEvent::Reported => Some((JobState::Idle, JobAction::Prompt)),
                _ => None,
            },
            JobState::Error => match event {
                JobEvent::Reported => Some((JobState::Idle, JobAction::Prompt)),
                _ => None,
            },
        }
    }
}

/// The event that tells the controller what the validator found: the line
/// is rejected, or accepted with or without a `&` taken off it.
pub fn verdict_event<'a>(dispatch: &Dispatch<'a>) -> (event: JobEvent)
    ensures
        dispatch is Invalid ==> event == JobEvent::Rejected,
        !(dispatch is Invalid) ==> event == (JobEvent::Accepted {
            background: dispatch.spec_detached(),
        }),
{
    match dispatch {
        Dispatch::Invalid { .. } => JobEvent::Rejected,
        Dispatch::Single { background, .. } => JobEvent::Accepted { background: *background },
        Dispatch::Piped { background, .. } => JobEvent::Accepted { background: *background },
    }
}

// ---------------------------------------------------------------------------
// The handle of a background process, in words
// ---------------------------------------------------------------------------

/// The character for a digit.
pub open spec fn digit(d: int) -> char {
    if d == 0 {
        '0'
    } else if d == 1 {
        '1'
    } else if d == 2 {
        '2'
    } else if d == 3 {
        '3'
    } else if d == 4 {
        '4'
    } else if d == 5 {
        '5'
    } else if d == 6 {
        '6'
    } else if d == 7 {
        '7'
    } else if d == 8 {
        '8'
    } else {
        '9'
    }
}

/// A natural number in decimal digits, without leading zeros.
pub open spec fn decimal(n: nat) -> Seq<char>
    decreases n,
{
    if n < 10 {
        seq![digit(n as int)]
    } else {
        decimal(n / 10).push(digit((n % 10) as int))
    }
}

/// An integer in decimal digits, with `-` before a negative one.
pub open spec fn signed_decimal(n: int) -> Seq<char> {
    if n < 0 {
        seq!['-'] + decimal((-n) as nat)
    } else {
        decimal(n as nat)
    }
}

/// The line that tells the user of a process sent to the background.
pub open spec fn announcement_text(handle: int) -> Seq<char> {
    "Starting background process "@ + signed_decimal(handle)
}

fn digit_text(d: u64) -> (text: &'static str)
    requires
        d < 10,
    ensures
        text@ == seq![digit(d as int)],
{
    proof {
        reveal_strlit("0");
        reveal_strlit("1");
        reveal_strlit("2");
        reveal_strlit("3");
        reveal_strlit("4");
        reveal_strlit("5");
        reveal_strlit("6");
        reveal_strlit("7");
        reveal_strlit("8");
        reveal_strlit("9");
    }
    if d == 0 {
        "0"
    } else if d == 1 {
        "1"
    } else if d == 2 {
        "2"
    } else if d == 3 {
        "3"
    } else if d == 4 {
        "4"
    } else if d == 5 {
        "5"
    } else if d == 6 {
        "6"
    } else if d == 7 {
        "7"
    } else if d == 8 {
        "8"
    } else {
        "9"
    }
}

/// Renders the line that is printed when a process is sent to the
/// background: the words `Starting background process` and the handle in
/// decimal.
pub fn announcement(handle: i32) -> (line: String)
    ensures
        line@ == announcement_text(handle as int),
{
    let wide: i64 = handle as i64;
    let magnitude: u64 = if wide < 0 {
        (-wide) as u64
    } else {
        wide as u64
    };
    let mut digits: String = digit_text(magnitude % 10).to_owned();
    let mut rest: u64 = magnitude / 10;
    while rest > 0
        invariant
            decimal(magnitude as nat) == if rest > 0 {
                decimal(rest as nat) + digits@
            } else {
                digits@
            },
        decreases rest,
    {
        let mut longer: String = digit_text(rest % 10).to_owned();
        longer.append(digits.as_str());
        assert(decimal(rest as nat) + digits@ =~= if rest / 10 > 0 {
            decimal((rest / 10) as nat) + longer@
        } else {
            longer@
        });
        digits = longer;
        rest = rest / 10;
    }
    let mut line: String = "Starting background process ".to_owned();
    if wide < 0 {
        proof {
            reveal_strlit("-");
        }
        line.append("-");
    }
    line.append(digits.as_str());
    assert(line@ =~= announcement_text(handle as int));
    line
}

// ---------------------------------------------------------------------------
// Laws
// ---------------------------------------------------------------------------

/// A process is created only for a line that the validator has accepted:
/// the controller asks for it in no other state and on no other event. A
/// rejected line leads to a report and to nothing else.
pub proof fn lemma_no_process_without_acceptance(state: JobState, event: JobEvent)
    ensures
        transition(state, event) matches Some((_, JobAction::Create)) <==> state
            == JobState::Validating && event is Accepted,
        state == JobState::Validating && event == JobEvent::Rejected ==> transition(state, event)
            == Some((JobState::Error, JobAction::Report)),
{
}

/// The controller waits exactly when the line had no `&`, and for the
/// child that was created; it announces exactly when the line had one, and
/// then does not wait.
pub proof fn lemma_wait_or_announce(state: JobState, event: JobEvent, handle: i32)
    ensures
        transition(state, event) matches Some((_, JobAction::Wait { handle: h })) && h == handle
            <==> state == (JobState::Dispatching { background: false }) && event
            == (JobEvent::Created { handle }),
        transition(state, event) matches Some((_, JobAction::Announce { handle: h })) && h
            == handle <==> state == (JobState::Dispatching { background: true }) && event
            == (JobEvent::Created { handle }),
        transition(state, event) == Some(
            (JobState::ForegroundWait { handle }, JobAction::Wait { handle }),
        ) || transition(state, event) == Some(
            (JobState::BackgroundDetached { handle }, JobAction::Announce { handle }),
        ) <==> state is Dispatching && event == (JobEvent::Created { handle }),
{
}

/// Every move brings the controller nearer to `Idle`, so a line is done
/// with after four moves at most, whatever has failed; the controller asks
/// for the next line exactly when it gets there. In every state some event
/// lets it move.
pub proof fn lemma_controller_returns_to_idle(state: JobState, event: JobEvent)
    ensures
        transition(state, event) matches Some((next, action)) ==> {
            &&& state != JobState::Idle ==> moves_left(next) < moves_left(state)
            &&& state == JobState::Idle ==> moves_left(next) == 3
            &&& action == JobAction::Prompt <==> next == JobState::Idle
        },
        exists|e: JobEvent| (#[trigger] transition(state, e)) is Some,
{
    match state {
        JobState::Idle => {
            assert(transition(state, JobEvent::Line) is Some);
        },
        JobState::Validating => {
            assert(transition(state, JobEvent::Rejected) is Some);
        },
        JobState::Dispatching { .. } => {
            assert(transition(state, JobEvent::CreationFailed) is Some);
        },
        JobState::ForegroundWait { .. } => {
            assert(transition(state, JobEvent::Exited) is Some);
        },
        JobState::BackgroundDetached { .. } => {
            assert(transition(state, JobEvent::Reported) is Some);
        },
        JobState::Error => {
            assert(transition(state, JobEvent::Reported) is Some);
        },
    }
}

/// On a line that is accepted, the program to run is the first token of
/// the line: that of the only command, or that of the first stage. No
/// command is empty, so the launcher always has a program to name.
pub proof fn lemma_accepted_line_names_program<'a>(dispatch: Dispatch<'a>, tokens: Seq<&'a str>)
    requires
        tokens.len() > 0,
        dispatch.decides(tokens),
    ensures
        dispatch matches Dispatch::Single { command, .. } ==> command@.len() > 0 && command@[0]
            == tokens[0],
        dispatch matches Dispatch::Piped { pipeline, .. } ==> pipeline.stages().len() > 0
            && pipeline.stages()[0].len() > 0 && pipeline.stages()[0][0] == tokens[0],
{
    let line = without_background(tokens);
    if validation_of(tokens).valid() {
        assert(line.len() > 0 && line[0] == tokens[0]);
        lemma_accepted_line_redirects_cleanly(line);
        if dispatch is Piped {
            assert(!redirection_operator(line[0]));
            assert(!output_operator(line[0]));
            let words = pipeline_words(line);
            assert(words[0] == line[0]);
            lemma_first_segment_starts_line(words);
        }
    }
}

} // verus!
