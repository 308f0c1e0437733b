//! The descriptor redirector.
//!
//! For a command that is not a pipeline, every `<` and `>` on the line binds
//! the file named by the next token to the standard input or the standard
//! output of the process. This module reads the line from left to right,
//! takes each operator and its path out of it, and hands back the requests
//! in the order in which the files are to be opened and bound. Opening and
//! binding is the caller's part.

use vstd::prelude::*;
use crate::token::{
    input_operator, is_input_operator, is_redirection_operator, redirection_operator,
};
use crate::failure::Failure;
use crate::syntax::{has_redirection, redirection_misplaced, redirection_pair_at};

verus! {

/// Which standard stream a redirection rebinds.
#[derive(Clone, Copy, Debug, PartialEq, Eq, Structural)]
pub enum Direction {
    /// `<`: the file is opened for reading and becomes the standard input.
    Input,
    /// `>`: the file is created, or truncated, for writing and becomes the
    /// standard output.
    Output,
}

impl Direction {
    /// The number of the descriptor that is rebound: 0 or 1.
    pub open spec fn spec_descriptor(self) -> int {
        match self {
            Direction::Input => 0,
            Direction::Output => 1,
        }
    }

    /// The number of the descriptor that is rebound: 0 for the standard
    /// input, 1 for the standard output.
    pub fn descriptor(&self) -> (fd: i32)
        ensures
            fd == self.spec_descriptor(),
    {
        match self {
            Direction::Input => 0,
            Direction::Output => 1,
        }
    }
}

/// One redirection: an operator and the path that followed it.
#[derive(Clone, Copy, Debug, PartialEq, Eq)]
pub struct Redirection<'a> {
    /// The stream to rebind.
    pub direction: Direction,
    /// The file to bind it to.
    pub path: &'a str,
}

/// What the redirector found on a line.
#[derive(Debug, PartialEq, Eq)]
pub struct RedirectionPlan<'a> {
    /// The redirections, in the order in which they are to be carried out.
    pub requests: Vec<Redirection<'a>>,
    /// An operator that closes the line, so that no path follows it. The
    /// requests before it are still to be carried out; then the command
    /// fails for want of a path.
    pub dangling: Option<&'a str>,
}

/// The direction that a redirection operator stands for.
pub open spec fn direction_of(operator: &str) -> Direction {
    if input_operator(operator) {
        Direction::Input
    } else {
        Direction::Output
    }
}

/// The redirections of a line, from left to right. An operator takes the
/// token after it as its path, whatever that token is.
pub open spec fn requests_of<'a>(tokens: Seq<&'a str>) -> Seq<Redirection<'a>>
    decreases tokens.len(),
{
    if tokens.len() == 0 {
        Seq::empty()
    } else if !redirection_operator(tokens[0]) {
        requests_of(tokens.skip(1))
    } else if tokens.len() == 1 {
        Seq::empty()
    } else {
        seq![Redirection { direction: direction_of(tokens[0]), path: tokens[1] }] + requests_of(
            tokens.skip(2),
        )
    }
}

/// The line without its redirections: every operator is gone together with
/// its path. An operator that closes the line has no path and stays.
pub open spec fn remainder_of<'a>(tokens: Seq<&'a str>) -> Seq<&'a str>
    decreases tokens.len(),
{
    if tokens.len() == 0 {
        Seq::empty()
    } else if !redirection_operator(tokens[0]) {
        seq![tokens[0]] + remainder_of(tokens.skip(1))
    } else if tokens.len() == 1 {
        tokens
    } else {
        remainder_of(tokens.skip(2))
    }
}

/// The operator that reading from left to right meets as the last token of
/// the line, if there is one.
pub open spec fn dangling_of<'a>(tokens: Seq<&'a str>) -> Option<&'a str>
    decreases tokens.len(),
{
    if tokens.len() == 0 {
        None
    } else if !redirection_operator(tokens[0]) {
        dangling_of(tokens.skip(1))
    } else if tokens.len() == 1 {
        Some(tokens[0])
    } else {
        dangling_of(tokens.skip(2))
    }
}

/// The path that ends up bound to a stream: that of the last request for
/// it, since each binding replaces the one before.
pub open spec fn bound_path<'a>(requests: Seq<Redirection<'a>>, direction: Direction) -> Option<
    &'a str,
>
    decreases requests.len(),
{
    if requests.len() == 0 {
        None
    } else if requests.last().direction == direction {
        Some(requests.last().path)
    } else {
        bound_path(requests.drop_last(), direction)
    }
}

impl<'a> RedirectionPlan<'a> {
    /// The failure that ends the command once the requests have been
    /// carried out: a dangling operator has no path. `None` if nothing
    /// dangles.
    pub fn missing_path(&self) -> (failure: Option<Failure<'a>>)
        ensures
            failure == match self.dangling {
                Some(operator) => Some(Failure::MissingPath(operator)),
                None => None,
            },
    {
        match self.dangling {
            Some(operator) => Some(Failure::MissingPath(operator)),
            None => None,
        }
    }

    /// The file that the stream is bound to once every request has been
    /// carried out, or `None` if the stream stays as it was.
    pub fn bound(&self, direction: Direction) -> (path: Option<&'a str>)
        ensures
            path == bound_path(self.requests@, direction),
    {
        let mut i: usize = self.requests.len();
        assert(self.requests@.take(i as int) =~= self.requests@);
        while i > 0
            invariant
                i <= self.requests@.len(),
                bound_path(self.requests@, direction) == bound_path(
                    self.requests@.take(i as int),
                    direction,
                ),
            decreases i,
        {
            let request = self.requests[i - 1];
            assert(self.requests@.take(i as int).last() == request);
            assert(self.requests@.take(i as int).drop_last() =~= self.requests@.take(i - 1));
            if request.direction == direction {
                return Some(request.path);
            }
            i -= 1;
        }
        assert(self.requests@.take(0).len() == 0);
        None
    }
}

/// Takes the redirections out of a line.
///
/// The line is read from left to right. Each `<` or `>` is removed together
/// with the token after it, and the pair becomes a request: `<` for the
/// standard input, `>` for the standard output. An operator that closes the
/// line is reported as dangling and stays on the line; the requests before
/// it are still handed back, in order.
pub fn handle_redirection<'a>(arguments: &mut Vec<&'a str>) -> (plan: RedirectionPlan<'a>)
    ensures
        plan.requests@ == requests_of(old(arguments)@),
        plan.dangling == dangling_of(old(arguments)@),
        final(arguments)@ == remainder_of(old(arguments)@),
{
    let n: usize = arguments.len();
    let mut kept: Vec<&'a str> = Vec::new();
    let mut requests: Vec<Redirection<'a>> = Vec::new();
    let mut dangling: Option<&'a str> = None;
    let mut i: usize = 0;
    assert(arguments@.skip(0) =~= arguments@);
    while i < n
        invariant
            n == arguments@.len(),
            arguments@ == old(arguments)@,
            i <= n,
            requests_of(arguments@) == requests@ + requests_of(arguments@.skip(i as int)),
            remainder_of(arguments@) == kept@ + remainder_of(arguments@.skip(i as int)),
            dangling is None ==> dangling_of(arguments@) == dangling_of(arguments@.skip(i as int)),
            dangling is Some ==> dangling_of(arguments@) == dangling && i == n,
        decreases n - i,
    {
        let token = arguments[i];
        let ghost rest = arguments@.skip(i as int);
        assert(rest[0] == token);
        if is_redirection_operator(token) {
            if i + 1 < n {
                let direction = if is_input_operator(token) {
                    Direction::Input
                } else {
                    Direction::Output
                };
                let request = Redirection { direction, path: arguments[i + 1] };
                assert(rest[1] == arguments@[i + 1]);
                assert(rest.skip(2) =~= arguments@.skip(i + 2));
                assert(requests@.push(request) + requests_of(rest.skip(2)) =~= requests@ + (
                    seq![request] + requests_of(rest.skip(2))));
                requests.push(request);
                i += 2;
            } else {
                assert(rest.len() == 1);
                assert(arguments@.skip(i + 1).len() == 0);
                assert(kept@.push(token) + remainder_of(arguments@.skip(i + 1)) =~= kept@ + rest);
                dangling = Some(token);
                kept.push(token);
                i += 1;
            }
        } else {
            assert(rest.skip(1) =~= arguments@.skip(i + 1));
            assert(kept@.push(token) + remainder_of(rest.skip(1)) =~= kept@ + (seq![token]
                + remainder_of(rest.skip(1))));
            kept.push(token);
            i += 1;
        }
    }
    assert(arguments@.skip(n as int).len() == 0);
    *arguments = kept;
    RedirectionPlan { requests, dangling }
}

// ---------------------------------------------------------------------------
// Laws
// ---------------------------------------------------------------------------

/// No redirection operator closes the line and none is followed by another:
/// every operator has a path.
pub open spec fn every_operator_has_path(tokens: Seq<&str>) -> bool {
    &&& tokens.len() > 0 ==> !redirection_operator(tokens.last())
    &&& forall|i: int| !redirection_pair_at(tokens, i)
}

/// On a line where every operator has a path, nothing dangles, no operator
/// is left behind, no path is itself an operator, and each request accounts
/// for exactly two tokens.
pub proof fn lemma_paired_operators_are_consumed(tokens: Seq<&str>)
    requires
        every_operator_has_path(tokens),
    ensures
        dangling_of(tokens) is None,
        !has_redirection(remainder_of(tokens)),
        forall|k: int|
            0 <= k < requests_of(tokens).len() ==> !redirection_operator(
                (#[trigger] requests_of(tokens)[k]).path,
            ),
        remainder_of(tokens).len() + 2 * requests_of(tokens).len() == tokens.len(),
    decreases tokens.len(),
{
    if tokens.len() == 0 {
    } else if !redirection_operator(tokens[0]) {
        let sub = tokens.skip(1);
        assert forall|i: int| !redirection_pair_at(sub, i) by {
            if redirection_pair_at(sub, i) {
                assert(redirection_pair_at(tokens, i + 1));
            }
        }
        lemma_paired_operators_are_consumed(sub);
        let left = remainder_of(tokens);
        assert forall|i: int| 0 <= i < left.len() implies !redirection_operator(
            #[trigger] left[i],
        ) by {
            if i > 0 {
                assert(left[i] == remainder_of(sub)[i - 1]);
            }
        }
    } else {
        assert(tokens.len() >= 2);
        assert(!redirection_pair_at(tokens, 0));
        let sub = tokens.skip(2);
        assert(sub.len() > 0 ==> sub.last() == tokens.last());
        assert forall|i: int| !redirection_pair_at(sub, i) by {
            if redirection_pair_at(sub, i) {
                assert(redirection_pair_at(tokens, i + 2));
            }
        }
        lemma_paired_operators_are_consumed(sub);
        let all = requests_of(tokens);
        assert forall|k: int| 0 <= k < all.len() implies !redirection_operator(
            (#[trigger] all[k]).path,
        ) by {
            if k > 0 {
                assert(all[k] == requests_of(sub)[k - 1]);
            }
        }
    }
}

/// On a line that the redirection check accepts, the redirector never
/// fails for want of a path; what it leaves holds no operator and still
/// starts with the line's first token, the name of the program.
pub proof fn lemma_accepted_line_redirects_cleanly(tokens: Seq<&str>)
    requires
        !redirection_misplaced(tokens),
    ensures
        dangling_of(tokens) is None,
        !has_redirection(remainder_of(tokens)),
        forall|k: int|
            0 <= k < requests_of(tokens).len() ==> !redirection_operator(
                (#[trigger] requests_of(tokens)[k]).path,
            ),
        remainder_of(tokens).len() + 2 * requests_of(tokens).len() == tokens.len(),
        tokens.len() > 0 ==> remainder_of(tokens).len() > 0 && remainder_of(tokens)[0]
            == tokens[0],
{
    lemma_paired_operators_are_consumed(tokens);
}

/// A line holds a redirection operator exactly when the redirector finds a
/// request or a dangling operator on it.
pub proof fn lemma_requests_where_operators(tokens: Seq<&str>)
    ensures
        has_redirection(tokens) <==> requests_of(tokens).len() > 0 || dangling_of(tokens) is Some,
        !has_redirection(tokens) ==> remainder_of(tokens) == tokens,
    decreases tokens.len(),
{
    if tokens.len() == 0 {
    } else if !redirection_operator(tokens[0]) {
        let sub = tokens.skip(1);
        lemma_requests_where_operators(sub);
        if has_redirection(sub) {
            let i = choose|i: int| 0 <= i < sub.len() && redirection_operator(#[trigger] sub[i]);
            assert(redirection_operator(tokens[i + 1]));
        }
        if has_redirection(tokens) {
            let i = choose|i: int|
                0 <= i < tokens.len() && redirection_operator(#[trigger] tokens[i]);
            assert(redirection_operator(sub[i - 1]));
        } else {
            assert(seq![tokens[0]] + sub =~= tokens);
        }
    } else {
        assert(redirection_operator(tokens[0]));
    }
}

} // verus!
