//! The errors that the command line and the tools answer with.

use vstd::prelude::*;
use vstd::string::*;

verus! {

/// Why a tool call was not answered.
#[derive(Debug, Clone, Copy, PartialEq, Eq, Structural)]
pub enum ErrorKind {
    /// The caller asked for something that cannot be asked.
    InvalidParams,
    /// The request was sound and an operation failed.
    InternalError,
}

/// The error answer of a tool.
#[derive(Debug)]
pub struct ToolError {
    pub kind: ErrorKind,
    pub message: String,
}

impl View for ToolError {
    type V = (ErrorKind, Seq<char>);

    open spec fn view(&self) -> (ErrorKind, Seq<char>) {
        (self.kind, self.message@)
    }
}

impl ToolError {
    /// An error of the caller.
    pub fn invalid_params(message: String) -> (r: ToolError)
        ensures
            r.kind == ErrorKind::InvalidParams,
            r.message == message,
    {
        ToolError { kind: ErrorKind::InvalidParams, message }
    }

    /// A failure on the way.
    pub fn internal_error(message: String) -> (r: ToolError)
        ensures
            r.kind == ErrorKind::InternalError,
            r.message == message,
    {
        ToolError { kind: ErrorKind::InternalError, message }
    }
}

/// An error of the command line: what went wrong and, where there is one, the error below it.
#[derive(Debug)]
pub struct CliError {
    pub message: String,
    pub cause: Option<String>,
}

impl View for CliError {
    type V = (Seq<char>, Option<Seq<char>>);

    open spec fn view(&self) -> (Seq<char>, Option<Seq<char>>) {
        (
            self.message@,
            match self.cause {
                Some(cause) => Some(cause@),
                None => None,
            },
        )
    }
}

/// What a step of the command line comes to: its result, or its error.
pub open spec fn cli_outcome<T>(r: Result<T, CliError>) -> Result<
    T,
    (Seq<char>, Option<Seq<char>>),
> {
    match r {
        Ok(value) => Ok(value),
        Err(e) => Err(e@),
    }
}

/// What a step of a tool call comes to: its result, or the error that the call answers with.
pub open spec fn outcome<T>(r: Result<T, ToolError>) -> Result<T, (ErrorKind, Seq<char>)> {
    match r {
        Ok(value) => Ok(value),
        Err(e) => Err(e@),
    }
}

/// What a tool call comes to: the text of its answer, or its error.
pub open spec fn answer(r: Result<String, ToolError>) -> Result<Seq<char>, (ErrorKind, Seq<char>)> {
    match r {
        Ok(text) => Ok(text@),
        Err(e) => Err(e@),
    }
}

/// The error of an operation that failed with the error text `cause`.
pub open spec fn failure(what: Seq<char>, cause: Seq<char>) -> (ErrorKind, Seq<char>) {
    (ErrorKind::InternalError, what + cause)
}

/// Reports that an operation failed: `what`, then the text of the error.
pub fn operation_failed(what: &str, cause: &str) -> (r: ToolError)
    ensures
        r@ == failure(what@, cause@),
{
    let mut message = String::from_str(what);
    message.append(cause);
    ToolError::internal_error(message)
}

/// Nothing of an error is lost on the way: its kind, its message and its cause are told, and a
/// result that is no error is told as it is.
pub proof fn law_errors_are_told<T>(value: T, text: String, error: ToolError, cli: CliError)
    ensures
        outcome(Ok(value)) == Ok::<T, (ErrorKind, Seq<char>)>(value),
        outcome(Err::<T, ToolError>(error)) == Err::<T, _>((error.kind, error.message@)),
        answer(Ok(text)) == Ok::<_, (ErrorKind, Seq<char>)>(text@),
        answer(Err(error)) == Err::<Seq<char>, _>((error.kind, error.message@)),
        error@ == (error.kind, error.message@),
        cli_outcome(Ok(value)) == Ok::<T, (Seq<char>, Option<Seq<char>>)>(value),
        cli_outcome(Err::<T, CliError>(cli)) is Err,
        cli_outcome(Err::<T, CliError>(cli))->Err_0 == cli@,
        cli@.0 == cli.message@,
        cli@.1 is Some <==> cli.cause is Some,
        cli.cause matches Some(cause) ==> cli@.1 == Some(cause@),
{
}

/// A failed operation is an internal error, and says what failed and then why.
pub proof fn law_failures_say_why(what: Seq<char>, cause: Seq<char>)
    ensures
        failure(what, cause).0 == ErrorKind::InternalError,
        failure(what, cause).1.len() == what.len() + cause.len(),
        failure(what, cause).1.take(what.len() as int) == what,
        failure(what, cause).1.skip(what.len() as int) == cause,
{
    assert(failure(what, cause).1.take(what.len() as int) =~= what);
    assert(failure(what, cause).1.skip(what.len() as int) =~= cause);
}

} // verus!
