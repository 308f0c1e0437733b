//! The process launcher.
//!
//! A sub-command is the name of a program followed by its arguments, with
//! no metacharacter left in it. The child that is to run it replaces its
//! own image with that program and passes every token on as it stands, the
//! name first. Process replacement takes byte strings that end at the first
//! zero byte, so a token with a zero byte in it cannot be passed on. If the
//! replacement fails, the child says that the program was not found and
//! ends at once with a non-zero status.

use vstd::prelude::*;
use vstd::string::*;
use crate::failure::Failure;

verus! {

/// The byte string holds a zero byte.
pub open spec fn has_nul(bytes: Seq<u8>) -> bool {
    exists|i: int| 0 <= i < bytes.len() && #[trigger] bytes[i] == 0
}

/// Some token of the sub-command holds a zero byte.
pub open spec fn any_has_nul(arguments: Seq<&str>) -> bool {
    exists|k: int| 0 <= k < arguments.len() && has_nul((#[trigger] arguments[k]).spec_bytes())
}

/// Tells whether the byte string holds a zero byte.
pub fn contains_nul(bytes: &Vec<u8>) -> (found: bool)
    ensures
        found == has_nul(bytes@),
{
    let mut i: usize = 0;
    while i < bytes.len()
        invariant
            i <= bytes@.len(),
            forall|j: int| 0 <= j < i ==> #[trigger] bytes@[j] != 0,
        decreases bytes@.len() - i,
    {
        if bytes[i] == 0 {
            return true;
        }
        i += 1;
    }
    false
}

/// Turns the tokens of a sub-command into the byte strings that process
/// replacement takes: the UTF-8 bytes of each token, in the same order, the
/// program's name first. The answer is `None` if a token holds a zero
/// byte, since such a token cannot be handed to a program.
pub fn externalize(arguments: Vec<&str>) -> (argv: Option<Vec<Vec<u8>>>)
    ensures
        argv is None <==> any_has_nul(arguments@),
        argv matches Some(list) ==> {
            &&& list@.len() == arguments@.len()
            &&& forall|k: int|
                0 <= k < list@.len() ==> (#[trigger] list@[k])@ == arguments@[k].spec_bytes()
        },
{
    let mut list: Vec<Vec<u8>> = Vec::new();
    let mut k: usize = 0;
    while k < arguments.len()
        invariant
            k <= arguments@.len(),
            list@.len() == k,
            forall|j: int| 0 <= j < k ==> (#[trigger] list@[j])@ == arguments@[j].spec_bytes(),
            forall|j: int| 0 <= j < k ==> !has_nul((#[trigger] arguments@[j]).spec_bytes()),
        decreases arguments@.len() - k,
    {
        let bytes = arguments[k].as_bytes_vec();
        if contains_nul(&bytes) {
            return None;
        }
        list.push(bytes);
        k += 1;
    }
    Some(list)
}

/// The failure of a child that could not replace its image with the
/// program of the sub-command: the program, which is the first token, was
/// not found. An empty sub-command names no program and gives `None`.
pub fn launch_failure<'a>(command: &Vec<&'a str>) -> (failure: Option<Failure<'a>>)
    ensures
        command@.len() > 0 ==> failure == Some(Failure::NotFound(command@[0])),
        command@.len() == 0 ==> failure is None,
{
    if command.len() > 0 {
        Some(Failure::NotFound(command[0]))
    } else {
        None
    }
}

} // verus!
