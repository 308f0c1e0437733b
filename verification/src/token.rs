//! Tokens and the four metacharacters.
//!
//! A token is a `&str`; a command line is a `Vec<&str>` whose view, a
//! `Seq<&str>`, is what the contracts of this crate speak of.

use vstd::prelude::*;
use vstd::string::*;

verus! {

/// The token consists of the single character `c`.
pub open spec fn single(token: &str, c: char) -> bool {
    token@.len() == 1 && token@[0] == c
}

/// The token is the background marker `&`.
pub open spec fn background_marker(token: &str) -> bool {
    single(token, '&')
}

/// The token is the input redirection operator `<`.
pub open spec fn input_operator(token: &str) -> bool {
    single(token, '<')
}

/// The token is the output redirection operator `>`.
pub open spec fn output_operator(token: &str) -> bool {
    single(token, '>')
}

/// The token is one of the two redirection operators.
pub open spec fn redirection_operator(token: &str) -> bool {
    input_operator(token) || output_operator(token)
}

/// The token is the pipe operator `|`.
pub open spec fn pipe_operator(token: &str) -> bool {
    single(token, '|')
}

/// Tells whether the token consists of the single character `c`.
pub fn is_single(token: &str, c: char) -> (r: bool)
    ensures
        r == single(token, c),
{
    token.unicode_len() == 1 && token.get_char(0) == c
}

/// Tells whether the token is `&`.
pub fn is_background_marker(token: &str) -> (r: bool)
    ensures
        r == background_marker(token),
{
    is_single(token, '&')
}

/// Tells whether the token is `<`.
pub fn is_input_operator(token: &str) -> (r: bool)
    ensures
        r == input_operator(token),
{
    is_single(token, '<')
}

/// Tells whether the token is `>`.
pub fn is_output_operator(token: &str) -> (r: bool)
    ensures
        r == output_operator(token),
{
    is_single(token, '>')
}

/// Tells whether the token is `<` or `>`.
pub fn is_redirection_operator(token: &str) -> (r: bool)
    ensures
        r == redirection_operator(token),
{
    is_input_operator(token) || is_output_operator(token)
}

/// Tells whether the token is `|`.
pub fn is_pipe_operator(token: &str) -> (r: bool)
    ensures
        r == pipe_operator(token),
{
    is_single(token, '|')
}

/// Tells whether two tokens read the same, character by character.
pub fn same_text(a: &str, b: &str) -> (same: bool)
    ensures
        same == (a@ == b@),
{
    let n: usize = a.unicode_len();
    if n != b.unicode_len() {
        return false;
    }
    let mut i: usize = 0;
    while i < n
        invariant
            n == a@.len(),
            n == b@.len(),
            i <= n,
            forall|j: int| 0 <= j < i ==> a@[j] == b@[j],
        decreases n - i,
    {
        if a.get_char(i) != b.get_char(i) {
            return false;
        }
        i += 1;
    }
    assert(a@ =~= b@);
    true
}

} // verus!
