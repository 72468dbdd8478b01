//! Command lines entered by the user: extra borg arguments and the shell
//! commands run before and after a backup.

use vstd::prelude::*;
use crate::error::{message_view, Error, ErrorView, Message};
use crate::text::{join, joined};

verus! {

/// The parse error of the `shell-words` crate.
#[verifier::external_type_specification]
#[verifier::external_body]
pub struct ExShellParseError(shell_words::ParseError);

/// The words `shell_words::split` reads from `text` as a POSIX shell would,
/// or `None` when `text` is not a valid command line: it ends within single
/// or double quotes. (A backslash ending the text outside quotes is kept as
/// part of the last word.)
pub uninterp spec fn shell_split(text: Seq<char>) -> Option<Seq<Seq<char>>>;

/// `shell_words::split`: splits a command line into words as a POSIX shell
/// would. Its result is named by [`shell_split`], a function of the text
/// alone.
#[verifier::external_body]
fn split_words(text: &str) -> (r: Result<Vec<String>, shell_words::ParseError>)
    ensures
        match r {
            Ok(v) => shell_split(text@) == Some(v@.map_values(|s: String| s@)),
            Err(_) => shell_split(text@) is None,
        },
{
    shell_words::split(text)
}

/// The view of a list of words.
pub open spec fn words_view(v: Vec<String>) -> Seq<Seq<char>> {
    v@.map_values(|s: String| s@)
}

/// The view of a list-of-words result.
pub open spec fn words_result_view(r: Result<Vec<String>, Error>) -> Result<Seq<Seq<char>>, ErrorView> {
    match r {
        Ok(v) => Ok(words_view(v)),
        Err(e) => Err(e@),
    }
}

/// What the extra borg arguments read as: the words of a valid command line,
/// else the error that the arguments are invalid.
pub open spec fn command_line_args_outcome(split: Option<Seq<Seq<char>>>) -> Result<Seq<Seq<char>>, ErrorView> {
    match split {
        Some(words) => Ok(words),
        None => Err(ErrorView::Message(message_view(
            "Additional command line arguments invalid"@,
            "Please check for missing closing quotes."@,
        ))),
    }
}

/// The extra borg arguments, from the words the text splits into, if it
/// does.
pub fn command_line_args_from_split(split: Option<Vec<String>>) -> (r: Result<Vec<String>, Error>)
    ensures
        words_result_view(r) == command_line_args_outcome(match split {
            Some(v) => Some(words_view(v)),
            None => None,
        }),
{
    match split {
        Some(args) => Ok(args),
        None => Err(Error::Message(Message::new(
            "Additional command line arguments invalid",
            "Please check for missing closing quotes.",
        ))),
    }
}

/// Checks whether extra borg command line arguments are valid, and splits
/// them into words.
pub fn parse_borg_command_line_args(text: &str) -> (r: Result<Vec<String>, Error>)
    ensures
        words_result_view(r) == command_line_args_outcome(shell_split(text@)),
{
    let split = match split_words(text) {
        Ok(args) => Some(args),
        Err(_) => None,
    };
    command_line_args_from_split(split)
}

/// Checks that a shell command is a valid command line.
pub fn validate_shell_command<'a>(command: &'a str) -> (r: Result<&'a str, Error>)
    ensures
        r is Ok <==> shell_split(command@) is Some,
        r matches Ok(c) ==> c@ == command@,
        r matches Err(e) ==> e@ == ErrorView::Message(message_view(
            "Shell command invalid"@,
            "Please check for missing closing quotes."@,
        )),
{
    match split_words(command) {
        Ok(_) => Ok(command),
        Err(_) => Err(Error::Message(Message::new("Shell command invalid", "Please check for missing closing quotes."))),
    }
}

/// The extra borg arguments as the preferences show them: joined by spaces,
/// or nothing.
pub fn command_line_args_text(args: &Option<Vec<String>>) -> (r: String)
    ensures
        match args {
            Some(v) => r@ == joined(words_view(*v), " "@),
            None => r@ == Seq::<char>::empty(),
        },
{
    match args {
        Some(v) => join(v, " "),
        None => String::new(),
    }
}

} // verus!
