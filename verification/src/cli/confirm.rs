//! Asking the operator before something is destroyed.

use vstd::prelude::*;
use vstd::string::*;

use crate::text;

verus! {

/// What became of a question to the operator.
#[derive(Clone, Copy, Debug, PartialEq, Eq, Structural)]
pub enum Confirmation {
    Confirmed,
    Declined,
    NonInteractive,
}

/// What is written before an answer is read: the preview on lines of its own, and the question where
/// there is somebody to ask.
pub open spec fn question(interactive: bool, prompt: Seq<char>, preview: Seq<char>) -> Seq<char> {
    let shown = if preview.len() > 0 && preview.last() != '\n' {
        preview.push('\n')
    } else {
        preview
    };
    if interactive {
        shown + prompt + " [y/N]: "@
    } else {
        shown
    }
}

/// What is written before an answer is read. It is meant for the error stream.
pub fn confirmation_text(interactive: bool, prompt: &str, preview: &str) -> (result: String)
    ensures
        result@ == question(interactive, prompt@, preview@),
{
    let mut result = preview.to_owned();
    let source = text::chars(preview);
    if source.len() > 0 && source[source.len() - 1] != '\n' {
        result.push('\n');
    }
    if interactive {
        result.push_str(prompt);
        result.push_str(" [y/N]: ");
    }
    result
}

/// Whether an answer is a yes.
pub open spec fn is_yes(answer: Seq<char>) -> bool {
    let trimmed = text::trim(answer);
    ||| text::same_ignoring_ascii_case(trimmed, "y"@)
    ||| text::same_ignoring_ascii_case(trimmed, "yes"@)
    ||| text::same_ignoring_ascii_case(trimmed, "д"@)
    ||| text::same_ignoring_ascii_case(trimmed, "да"@)
}

/// What an answer means; `None` stands for an input that has ended. Nothing is read where there is
/// nobody to ask.
pub open spec fn meaning(interactive: bool, answer: Option<Seq<char>>) -> Confirmation {
    if !interactive {
        Confirmation::NonInteractive
    } else {
        match answer {
            Some(answer) if is_yes(answer) => Confirmation::Confirmed,
            _ => Confirmation::Declined,
        }
    }
}

/// What an answer means; `None` stands for an input that has ended.
pub fn confirmation_from(interactive: bool, answer: Option<&str>) -> (result: Confirmation)
    ensures
        result == meaning(interactive, crate::outcome::option_view(answer)),
{
    if !interactive {
        return Confirmation::NonInteractive;
    }
    match answer {
        Some(answer) => {
            let trimmed = text::trim_text(answer);
            if text::eq_ignore_ascii_case(trimmed.as_str(), "y") || text::eq_ignore_ascii_case(
                trimmed.as_str(),
                "yes",
            ) || text::eq_ignore_ascii_case(trimmed.as_str(), "д") || text::eq_ignore_ascii_case(
                trimmed.as_str(),
                "да",
            ) {
                Confirmation::Confirmed
            } else {
                Confirmation::Declined
            }
        },
        None => Confirmation::Declined,
    }
}

/// Nothing is confirmed but by an explicit yes of somebody who could be asked.
pub proof fn law_only_a_yes_confirms(interactive: bool, answer: Option<Seq<char>>)
    ensures
        meaning(interactive, answer) == Confirmation::Confirmed <==> interactive && answer is Some
            && is_yes(answer->0),
{
}

/// Whether a request for confirmation ends as what was written and read leads to.
pub open spec fn answered(
    interactive: bool,
    written: Result<(), String>,
    line: Result<Option<String>, String>,
    result: Result<Confirmation, String>,
) -> bool {
    match written {
        Err(reason) => result == Err::<Confirmation, String>(reason),
        Ok(()) => if interactive {
            match line {
                Err(reason) => result == Err::<Confirmation, String>(reason),
                Ok(answer) => result == Ok::<_, String>(
                    meaning(true, crate::outcome::option_view(answer)),
                ),
            }
        } else {
            result == Ok::<_, String>(Confirmation::NonInteractive)
        },
    }
}

/// What is written and read for a confirmation, as far as the calls tell.
pub open spec fn took_place<
    W: FnOnce(&str) -> Result<(), String>,
    R: FnOnce() -> Result<Option<String>, String>,
>(
    write: W,
    read_line: R,
    interactive: bool,
    shown: &str,
    written: Result<(), String>,
    line: Result<Option<String>, String>,
) -> bool {
    &&& call_ensures(write, (shown,), written)
    &&& interactive && written is Ok ==> call_ensures(read_line, (), line)
}

/// Asks for a confirmation. The question is written before anything is read, and nothing is read where
/// there is nobody to ask.
pub fn confirm_with_io<
    W: FnOnce(&str) -> Result<(), String>,
    R: FnOnce() -> Result<Option<String>, String>,
>(write: W, read_line: R, interactive: bool, prompt: &str, preview: &str) -> (result: Result<
    Confirmation,
    String,
>)
    requires
        forall|shown: &str|
            shown@ == question(interactive, prompt@, preview@) ==> #[trigger] call_requires(
                write,
                (shown,),
            ),
        interactive ==> call_requires(read_line, ()),
    ensures
        exists|shown: &str, written: Result<(), String>, line: Result<Option<String>, String>|
            {
                &&& shown@ == question(interactive, prompt@, preview@)
                &&& #[trigger] took_place(write, read_line, interactive, shown, written, line)
                &&& answered(interactive, written, line, result)
            },
{
    let text = confirmation_text(interactive, prompt, preview);
    let shown = text.as_str();
    let written = write(shown);
    let ghost told = written;
    let ghost unread = Ok::<Option<String>, String>(None);
    match written {
        Err(reason) => {
            assert(took_place(write, read_line, interactive, shown, told, unread));
            return Err(reason);
        },
        Ok(()) => {},
    }
    if !interactive {
        assert(took_place(write, read_line, interactive, shown, told, unread));
        return Ok(Confirmation::NonInteractive);
    }
    let line = read_line();
    assert(took_place(write, read_line, interactive, shown, told, line));
    match line {
        Err(reason) => Err(reason),
        Ok(None) => Ok(confirmation_from(interactive, None)),
        Ok(Some(answer)) => Ok(confirmation_from(interactive, Some(answer.as_str()))),
    }
}

} // verus!
