//! What the program does with its command line.

use vstd::prelude::*;
use crate::engine::{engine_reads, is_readable};

verus! {

/// What a start of the program is for.
#[derive(Clone, Copy, Debug, PartialEq, Eq, Structural)]
pub enum Launch {
    /// No argument: the interactive calculator.
    Interactive,
    /// One argument: evaluate it, print what comes out, and stop.
    OneShot,
    /// More than one argument: a mistake, to be reported.
    Usage,
}

/// What a start with `arguments` arguments after the program's name is for.
pub fn launch_for(arguments: usize) -> (launch: Launch)
    ensures
        launch == (if arguments == 0 {
            Launch::Interactive
        } else if arguments == 1 {
            Launch::OneShot
        } else {
            Launch::Usage
        }),
{
    if arguments == 0 {
        Launch::Interactive
    } else if arguments == 1 {
        Launch::OneShot
    } else {
        Launch::Usage
    }
}

/// The line to print for the engine's answer `answer`: a value as it is, an
/// error behind the words `Error - `.
pub open spec fn report_line(answer: Result<Seq<char>, Seq<char>>) -> Seq<char> {
    match answer {
        Ok(value) => value,
        Err(message) => seq!['E', 'r', 'r', 'o', 'r', ' ', '-', ' '] + message,
    }
}

/// What `answer` stands for.
pub open spec fn answer_view(answer: Result<String, String>) -> Result<Seq<char>, Seq<char>> {
    match answer {
        Ok(value) => Ok(value@),
        Err(message) => Err(message@),
    }
}

/// `num_parser::eval`, which evaluates in a context of the engine's own
/// making, with the value or the error it returns turned into text by
/// `to_string`. Nothing is claimed of which comes. The lines on which the
/// engine panics are left out.
#[verifier::external_body]
fn eval_alone(input: &str) -> Result<String, String>
    requires
        engine_reads(input@),
{
    match num_parser::eval(input) {
        Ok(value) => Ok(value.to_string()),
        Err(error) => Err(error.to_string()),
    }
}

/// The line to print for the engine's answer.
pub fn report(answer: Result<String, String>) -> (line: String)
    ensures
        line@ == report_line(answer_view(answer)),
{
    match answer {
        Ok(value) => value,
        Err(message) => {
            let mut line = String::new();
            line.push('E');
            line.push('r');
            line.push('r');
            line.push('o');
            line.push('r');
            line.push(' ');
            line.push('-');
            line.push(' ');
            line.append(message.as_str());
            assert(line@ =~= report_line(Err(message@)));
            line
        },
    }
}

/// Evaluates `input` once, with nothing defined, and gives the line to print:
/// what `report` makes of the engine's answer. Which answer comes is the
/// engine's business, so nothing is promised of the line. There is a line
/// exactly where the engine can be handed `input`.
pub fn run_once(input: &str) -> (line: Option<String>)
    ensures
        line is Some <==> engine_reads(input@),
{
    if is_readable(input) {
        Some(report(eval_alone(input)))
    } else {
        None
    }
}

} // verus!
