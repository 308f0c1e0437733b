//! The token validator.
//!
//! Three grammars are checked, each on its own: the background marker, the
//! redirection operators and the pipe. Each check answers with a [`Verdict`]:
//! the metacharacter is misplaced, absent, or present and well placed. Only
//! the background check changes the line: it removes an accepted trailing
//! `&`, so the two later checks see the line without it.

use vstd::prelude::*;
use vstd::string::*;
use crate::token::{
    background_marker, is_background_marker, is_pipe_operator, is_redirection_operator,
    pipe_operator, redirection_operator,
};

verus! {

/// The reason why a line is rejected.
#[derive(Clone, Copy, Debug, PartialEq, Eq)]
pub enum SyntaxError<'a> {
    /// `&` stands alone or before the end of the line.
    Background,
    /// A redirection operator opens the line, closes it, or is followed by
    /// another one. The token is the one that the diagnostic names.
    Redirection(&'a str),
    /// `|` opens or closes the line.
    Pipe,
    /// Two `|` stand next to each other.
    DoublePipe,
}

/// What one grammar has to say of a line.
#[derive(Clone, Copy, Debug, PartialEq, Eq)]
pub enum Verdict<'a> {
    /// The metacharacter is misplaced; no process may be created.
    Invalid(SyntaxError<'a>),
    /// The line does not use the metacharacter.
    Absent,
    /// The line uses the metacharacter, and correctly.
    Present,
}

impl<'a> SyntaxError<'a> {
    /// The diagnostic for this error.
    pub open spec fn text(self) -> Seq<char> {
        match self {
            SyntaxError::Background => "Error: syntax error near unexpected token `&'"@,
            SyntaxError::Redirection(token) => "Error: syntax error near unexpected token `"@
                + token@ + "`"@,
            SyntaxError::Pipe => "Error: syntax error near unexpected token `|'"@,
            SyntaxError::DoublePipe => "Error: syntax error near unexpected token `||'"@,
        }
    }

    /// Renders the diagnostic that goes to the error stream.
    pub fn message(&self) -> (m: String)
        ensures
            m@ == self.text(),
    {
        match self {
            SyntaxError::Background => "Error: syntax error near unexpected token `&'".to_owned(),
            SyntaxError::Redirection(token) => {
                let mut m = "Error: syntax error near unexpected token `".to_owned();
                m.append(token);
                m.append("`");
                m
            },
            SyntaxError::Pipe => "Error: syntax error near unexpected token `|'".to_owned(),
            SyntaxError::DoublePipe => "Error: syntax error near unexpected token `||'".to_owned(),
        }
    }
}

impl<'a> Verdict<'a> {
    /// The verdict as a number: -1 for invalid, 0 for absent, 1 for present.
    pub open spec fn spec_code(self) -> int {
        match self {
            Verdict::Invalid(_) => -1,
            Verdict::Absent => 0,
            Verdict::Present => 1,
        }
    }

    /// The verdict as a number: -1 for invalid, 0 for absent, 1 for present.
    pub fn code(&self) -> (c: i32)
        ensures
            c == self.spec_code(),
    {
        match self {
            Verdict::Invalid(_) => -1,
            Verdict::Absent => 0,
            Verdict::Present => 1,
        }
    }
}

// ---------------------------------------------------------------------------
// The background marker
// ---------------------------------------------------------------------------

/// `&` stands where it may not: alone on the line, or before the last token.
pub open spec fn background_misplaced(tokens: Seq<&str>) -> bool {
    ||| tokens.len() == 1 && background_marker(tokens[0])
    ||| exists|i: int| 0 <= i < tokens.len() - 1 && background_marker(#[trigger] tokens[i])
}

/// What the background grammar says of a line.
pub open spec fn background_verdict<'a>(tokens: Seq<&'a str>) -> Verdict<'a> {
    if background_misplaced(tokens) {
        Verdict::Invalid(SyntaxError::Background)
    } else if tokens.len() > 0 && background_marker(tokens.last()) {
        Verdict::Present
    } else {
        Verdict::Absent
    }
}

/// The line as the background check leaves it: without its last token where
/// that is an accepted `&`, unchanged otherwise.
pub open spec fn without_background<'a>(tokens: Seq<&'a str>) -> Seq<&'a str> {
    if background_verdict(tokens) is Present {
        tokens.drop_last()
    } else {
        tokens
    }
}

/// Checks the background marker and removes an accepted one from the line.
///
/// A lone `&`, and a `&` anywhere but at the end, make the line invalid and
/// leave it as it is. A trailing `&` is accepted and popped.
pub fn background_process<'a>(arguments: &mut Vec<&'a str>) -> (verdict: Verdict<'a>)
    ensures
        verdict == background_verdict(old(arguments)@),
        verdict is Invalid <==> background_misplaced(old(arguments)@),
        final(arguments)@ == without_background(old(arguments)@),
{
    let n: usize = arguments.len();
    if n == 0 {
        return Verdict::Absent;
    }
    if n == 1 && is_background_marker(arguments[0]) {
        return Verdict::Invalid(SyntaxError::Background);
    }
    let mut i: usize = 0;
    while i < n - 1
        invariant
            n == arguments@.len(),
            n > 0,
            i <= n - 1,
            arguments@ == old(arguments)@,
            forall|j: int| 0 <= j < i ==> !background_marker(#[trigger] arguments@[j]),
        decreases n - i,
    {
        if is_background_marker(arguments[i]) {
            return Verdict::Invalid(SyntaxError::Background);
        }
        i += 1;
    }
    if is_background_marker(arguments[n - 1]) {
        arguments.pop();
        Verdict::Present
    } else {
        Verdict::Absent
    }
}

// ---------------------------------------------------------------------------
// Redirection
// ---------------------------------------------------------------------------

/// A redirection operator stands at `i` and another one right after it.
pub open spec fn redirection_pair_at(tokens: Seq<&str>, i: int) -> bool {
    &&& 0 <= i < tokens.len() - 1
    &&& redirection_operator(tokens[i])
    &&& redirection_operator(tokens[i + 1])
}

/// A redirection operator stands where no path can follow it: it opens the
/// line, closes it, or is followed by another operator.
pub open spec fn redirection_misplaced(tokens: Seq<&str>) -> bool {
    ||| tokens.len() > 0 && redirection_operator(tokens[0])
    ||| tokens.len() > 0 && redirection_operator(tokens.last())
    ||| exists|i: int| redirection_pair_at(tokens, i)
}

/// The place of the first redirection operator that is followed by another.
pub open spec fn first_redirection_pair(tokens: Seq<&str>) -> int {
    choose|i: int|
        redirection_pair_at(tokens, i) && forall|j: int|
            redirection_pair_at(tokens, j) ==> i <= j
}

/// The token that the diagnostic names on a line with a misplaced operator:
/// the first token if it is an operator; else the last if that is one; else
/// the second operator of the first pair.
pub open spec fn redirection_culprit<'a>(tokens: Seq<&'a str>) -> &'a str {
    if redirection_operator(tokens[0]) {
        tokens[0]
    } else if redirection_operator(tokens.last()) {
        tokens.last()
    } else {
        tokens[first_redirection_pair(tokens) + 1]
    }
}

/// Some token of the line is a redirection operator.
pub open spec fn has_redirection(tokens: Seq<&str>) -> bool {
    exists|i: int| 0 <= i < tokens.len() && redirection_operator(#[trigger] tokens[i])
}

/// What the redirection grammar says of a line.
pub open spec fn redirection_verdict<'a>(tokens: Seq<&'a str>) -> Verdict<'a> {
    if redirection_misplaced(tokens) {
        Verdict::Invalid(SyntaxError::Redirection(redirection_culprit(tokens)))
    } else if has_redirection(tokens) {
        Verdict::Present
    } else {
        Verdict::Absent
    }
}

/// Checks the redirection operators of a line. The line is left as it is:
/// the operators and their paths are consumed later.
///
/// The line is invalid if `<` or `>` is its first token, its last token, or
/// is followed by another `<` or `>`, wherever on the line that happens.
pub fn verify_redirection<'a>(arguments: &[&'a str]) -> (verdict: Verdict<'a>)
    ensures
        verdict == redirection_verdict(arguments@),
        verdict is Invalid <==> redirection_misplaced(arguments@),
{
    let n: usize = arguments.len();
    if n == 0 {
        return Verdict::Absent;
    }
    if is_redirection_operator(arguments[0]) {
        return Verdict::Invalid(SyntaxError::Redirection(arguments[0]));
    }
    if is_redirection_operator(arguments[n - 1]) {
        return Verdict::Invalid(SyntaxError::Redirection(arguments[n - 1]));
    }
    let mut found: bool = false;
    let mut i: usize = 0;
    while i < n - 1
        invariant
            n == arguments@.len(),
            n > 0,
            i <= n - 1,
            !redirection_operator(arguments@[0]),
            !redirection_operator(arguments@.last()),
            forall|j: int| 0 <= j < i ==> !redirection_pair_at(arguments@, j),
            found <==> exists|j: int| 0 <= j < i && redirection_operator(#[trigger] arguments@[j]),
        decreases n - i,
    {
        if is_redirection_operator(arguments[i]) {
            if is_redirection_operator(arguments[i + 1]) {
                assert(redirection_pair_at(arguments@, i as int));
                return Verdict::Invalid(SyntaxError::Redirection(arguments[i + 1]));
            }
            found = true;
        }
        i += 1;
    }
    if found {
        Verdict::Present
    } else {
        Verdict::Absent
    }
}

// ---------------------------------------------------------------------------
// The pipe
// ---------------------------------------------------------------------------

/// `|` opens or closes the line.
pub open spec fn pipe_at_edge(tokens: Seq<&str>) -> bool {
    tokens.len() > 0 && (pipe_operator(tokens[0]) || pipe_operator(tokens.last()))
}

/// `|` stands at `i` and another one right after it.
pub open spec fn pipe_pair_at(tokens: Seq<&str>, i: int) -> bool {
    &&& 0 <= i < tokens.len() - 1
    &&& pipe_operator(tokens[i])
    &&& pipe_operator(tokens[i + 1])
}

/// Two `|` stand next to each other somewhere on the line.
pub open spec fn has_pipe_pair(tokens: Seq<&str>) -> bool {
    exists|i: int| pipe_pair_at(tokens, i)
}

/// `|` stands where no command can stand before or after it.
pub open spec fn pipe_misplaced(tokens: Seq<&str>) -> bool {
    pipe_at_edge(tokens) || has_pipe_pair(tokens)
}

/// Some token of the line is `|`.
pub open spec fn has_pipe(tokens: Seq<&str>) -> bool {
    exists|i: int| 0 <= i < tokens.len() && pipe_operator(#[trigger] tokens[i])
}

/// What the pipeline grammar says of a line.
pub open spec fn pipeline_verdict<'a>(tokens: Seq<&'a str>) -> Verdict<'a> {
    if pipe_at_edge(tokens) {
        Verdict::Invalid(SyntaxError::Pipe)
    } else if has_pipe_pair(tokens) {
        Verdict::Invalid(SyntaxError::DoublePipe)
    } else if has_pipe(tokens) {
        Verdict::Present
    } else {
        Verdict::Absent
    }
}

/// Checks the pipes of a line. The line is left as it is.
///
/// The line is invalid if `|` is its first or its last token, or if two `|`
/// follow each other.
pub fn verify_pipeline<'a>(arguments: &[&'a str]) -> (verdict: Verdict<'a>)
    ensures
        verdict == pipeline_verdict(arguments@),
        verdict is Invalid <==> pipe_misplaced(arguments@),
{
    let n: usize = arguments.len();
    if n == 0 {
        return Verdict::Absent;
    }
    if is_pipe_operator(arguments[0]) || is_pipe_operator(arguments[n - 1]) {
        return Verdict::Invalid(SyntaxError::Pipe);
    }
    let mut found: bool = false;
    let mut i: usize = 0;
    while i < n - 1
        invariant
            n == arguments@.len(),
            n > 0,
            i <= n - 1,
            !pipe_at_edge(arguments@),
            forall|j: int| 0 <= j < i ==> !pipe_pair_at(arguments@, j),
            found <==> exists|j: int| 0 <= j < i && pipe_operator(#[trigger] arguments@[j]),
        decreases n - i,
    {
        if is_pipe_operator(arguments[i]) {
            if is_pipe_operator(arguments[i + 1]) {
                assert(pipe_pair_at(arguments@, i as int));
                return Verdict::Invalid(SyntaxError::DoublePipe);
            }
            found = true;
        }
        i += 1;
    }
    if found {
        Verdict::Present
    } else {
        Verdict::Absent
    }
}

// ---------------------------------------------------------------------------
// The three checks in their order
// ---------------------------------------------------------------------------

/// The verdicts of the three grammars on one line.
#[derive(Clone, Copy, Debug, PartialEq, Eq)]
pub struct Validation<'a> {
    /// The background grammar, on the line as it was read.
    pub background: Verdict<'a>,
    /// The redirection grammar, on the line without an accepted `&`.
    pub redirection: Verdict<'a>,
    /// The pipeline grammar, on the line without an accepted `&`.
    pub pipeline: Verdict<'a>,
}

/// The three verdicts on a line. The background check comes first and the
/// other two see what it leaves.
pub open spec fn validation_of<'a>(tokens: Seq<&'a str>) -> Validation<'a> {
    Validation {
        background: background_verdict(tokens),
        redirection: redirection_verdict(without_background(tokens)),
        pipeline: pipeline_verdict(without_background(tokens)),
    }
}

/// The error of a verdict, if it has one, as a sequence of at most one.
pub open spec fn fault_of<'a>(verdict: Verdict<'a>) -> Seq<SyntaxError<'a>> {
    match verdict {
        Verdict::Invalid(e) => seq![e],
        _ => Seq::empty(),
    }
}

impl<'a> Validation<'a> {
    /// No grammar rejects the line.
    pub open spec fn valid(self) -> bool {
        &&& !(self.background is Invalid)
        &&& !(self.redirection is Invalid)
        &&& !(self.pipeline is Invalid)
    }

    /// The errors found, in the order of the checks.
    pub open spec fn faults(self) -> Seq<SyntaxError<'a>> {
        fault_of(self.background) + fault_of(self.redirection) + fault_of(self.pipeline)
    }

    /// Tells whether the line may be run.
    pub fn is_valid(&self) -> (r: bool)
        ensures
            r == self.valid(),
            r <==> self.faults().len() == 0,
    {
        let b: bool = match self.background {
            Verdict::Invalid(_) => false,
            _ => true,
        };
        let r: bool = match self.redirection {
            Verdict::Invalid(_) => false,
            _ => true,
        };
        let p: bool = match self.pipeline {
            Verdict::Invalid(_) => false,
            _ => true,
        };
        b && r && p
    }

    /// The errors found, in the order of the checks: one diagnostic is owed
    /// for each.
    pub fn errors(&self) -> (found: Vec<SyntaxError<'a>>)
        ensures
            found@ == self.faults(),
    {
        let mut found: Vec<SyntaxError<'a>> = Vec::new();
        if let Verdict::Invalid(e) = self.background {
            found.push(e);
        }
        if let Verdict::Invalid(e) = self.redirection {
            found.push(e);
        }
        if let Verdict::Invalid(e) = self.pipeline {
            found.push(e);
        }
        found
    }
}

/// Runs the three checks in their order: the background marker first, which
/// removes an accepted `&`, then redirection and pipeline on what is left.
pub fn validate<'a>(arguments: &mut Vec<&'a str>) -> (validation: Validation<'a>)
    ensures
        validation == validation_of(old(arguments)@),
        final(arguments)@ == without_background(old(arguments)@),
{
    let background = background_process(arguments);
    let redirection = verify_redirection(arguments.as_slice());
    let pipeline = verify_pipeline(arguments.as_slice());
    Validation { background, redirection, pipeline }
}

// ---------------------------------------------------------------------------
// Laws
// ---------------------------------------------------------------------------

/// An accepted `&` is removed once and for all: the line without it holds
/// no `&`, so checking it again finds no background marker and removes
/// nothing.
pub proof fn lemma_background_removed_once(tokens: Seq<&str>)
    requires
        background_verdict(tokens) is Present,
    ensures
        without_background(tokens) == tokens.drop_last(),
        forall|i: int|
            0 <= i < without_background(tokens).len() ==> !background_marker(
                #[trigger] without_background(tokens)[i],
            ),
        background_verdict(without_background(tokens)) is Absent,
        without_background(without_background(tokens)) == without_background(tokens),
{
    let rest = tokens.drop_last();
    assert forall|i: int| 0 <= i < rest.len() implies !background_marker(#[trigger] rest[i]) by {
        assert(rest[i] == tokens[i]);
    }
}

/// Whatever the line, the background check never finds a marker on what it
/// has left.
pub proof fn lemma_background_never_found_twice(tokens: Seq<&str>)
    ensures
        !(background_verdict(without_background(tokens)) is Present),
{
    if background_verdict(tokens) is Present {
        lemma_background_removed_once(tokens);
    }
}

/// A line on which `&` stands alone or before the last token is rejected.
pub proof fn lemma_misplaced_background_rejected(tokens: Seq<&str>, i: int)
    requires
        0 <= i < tokens.len(),
        background_marker(tokens[i]),
        i < tokens.len() - 1 || tokens.len() == 1,
    ensures
        background_verdict(tokens) is Invalid,
        !validation_of(tokens).valid(),
{
}

/// A line on which `<` or `>` comes first, comes last or is followed by
/// another `<` or `>` is rejected, with or without a trailing `&`.
pub proof fn lemma_misplaced_redirection_rejected(tokens: Seq<&str>)
    requires
        redirection_misplaced(tokens),
    ensures
        redirection_verdict(tokens) is Invalid,
        !validation_of(tokens).valid(),
{
    if background_verdict(tokens) is Present {
        let rest = tokens.drop_last();
        assert(!redirection_operator(tokens.last()));
        if redirection_operator(tokens[0]) {
            assert(rest[0] == tokens[0]);
        } else {
            let i = choose|i: int| redirection_pair_at(tokens, i);
            assert(rest[i] == tokens[i]);
            assert(rest[i + 1] == tokens[i + 1]);
            assert(redirection_pair_at(rest, i));
        }
    }
}

/// A line on which `|` comes first, comes last or is followed by another
/// `|` is rejected, with or without a trailing `&`.
pub proof fn lemma_misplaced_pipe_rejected(tokens: Seq<&str>)
    requires
        pipe_misplaced(tokens),
    ensures
        pipeline_verdict(tokens) is Invalid,
        !validation_of(tokens).valid(),
{
    if background_verdict(tokens) is Present {
        let rest = tokens.drop_last();
        assert(!pipe_operator(tokens.last()));
        if pipe_operator(tokens[0]) {
            assert(rest[0] == tokens[0]);
            assert(pipe_at_edge(rest));
        } else {
            let i = choose|i: int| pipe_pair_at(tokens, i);
            assert(rest[i] == tokens[i]);
            assert(rest[i + 1] == tokens[i + 1]);
            assert(pipe_pair_at(rest, i));
        }
    }
}

} // verus!
