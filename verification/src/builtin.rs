//! The built-in commands, as far as the engine has to know them.
//!
//! The first token of a line says who handles it: `exit` ends the shell,
//! `cd` changes its working directory, and every other word names an
//! external command, which goes to the job controller. Changing the
//! directory is the caller's part; which directory is meant is decided
//! here.

use vstd::prelude::*;
use vstd::string::*;
use crate::token::same_text;

verus! {

/// Who handles a line.
#[derive(Clone, Copy, Debug, PartialEq, Eq, Structural)]
pub enum Route {
    /// The line is empty: there is nothing to do.
    Nothing,
    /// `exit`: the shell ends.
    Exit,
    /// `cd`: the working directory changes.
    ChangeDirectory,
    /// Any other word: an external command.
    External,
}

/// Who handles a line, by its first token.
pub open spec fn route_of(tokens: Seq<&str>) -> Route {
    if tokens.len() == 0 || tokens[0]@.len() == 0 {
        Route::Nothing
    } else if tokens[0]@ == "exit"@ {
        Route::Exit
    } else if tokens[0]@ == "cd"@ {
        Route::ChangeDirectory
    } else {
        Route::External
    }
}

/// Tells who handles a line: nobody if it is empty, the shell itself for
/// `exit` and `cd`, the job controller for everything else.
pub fn route(arguments: &Vec<&str>) -> (route: Route)
    ensures
        route == route_of(arguments@),
{
    if arguments.len() == 0 {
        return Route::Nothing;
    }
    let first = arguments[0];
    if first.unicode_len() == 0 {
        Route::Nothing
    } else if same_text(first, "exit") {
        Route::Exit
    } else if same_text(first, "cd") {
        Route::ChangeDirectory
    } else {
        Route::External
    }
}

/// What `cd` says when it is given no directory.
pub open spec fn cd_usage() -> Seq<char> {
    "cd needs an argument"@
}

/// Handles `cd`: picks the directory to change to, which is the token
/// after the command's name. Without such a token the answer is the
/// complaint to print.
pub fn shell_command<'a>(arguments: Vec<&'a str>) -> (target: Result<&'a str, String>)
    ensures
        arguments@.len() >= 2 ==> target == Ok::<&'a str, String>(arguments@[1]),
        arguments@.len() < 2 ==> target is Err && target->Err_0@ == cd_usage(),
{
    if arguments.len() >= 2 {
        Ok(arguments[1])
    } else {
        Err("cd needs an argument".to_owned())
    }
}

} // verus!
