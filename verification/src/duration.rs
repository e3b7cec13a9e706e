//! Spans of time and their human-readable form.

use vstd::prelude::*;
use vstd::string::*;

use crate::error;
use crate::error::{CliError, ErrorKind, ToolError};
use crate::overrun;

verus! {

/// A span of time: whole seconds, and nanoseconds of the next one.
#[derive(Debug, Clone, Copy, PartialEq, Eq, Structural)]
pub struct Span {
    pub secs: u64,
    pub nanos: u32,
}

impl Span {
    /// A span of whole seconds.
    pub open spec fn of_secs(secs: u64) -> Span {
        Span { secs, nanos: 0 }
    }

    /// A span of whole seconds.
    pub fn from_secs(secs: u64) -> (r: Span)
        ensures
            r == Span::of_secs(secs),
    {
        Span { secs, nanos: 0 }
    }
}

/// The texts whose sum does not run over the end of the representable time.
pub open spec fn bounded(t: Seq<char>) -> bool {
    !overrun::overruns(t)
}

/// Says whether a text is within [`bounded`].
pub fn is_bounded(t: &str) -> (r: bool)
    ensures
        r == bounded(t@),
{
    !overrun::does_overrun(t)
}

/// The duration that a text denotes, or the text of the error that explains why it denotes
/// none.
pub uninterp spec fn human_duration(t: Seq<char>) -> Result<Span, Seq<char>>;

/// A duration that was read, or the text of the error.
pub open spec fn reading(r: Result<Span, String>) -> Result<Span, Seq<char>> {
    match r {
        Ok(span) => Ok(span),
        Err(cause) => Err(cause@),
    }
}

/// Reads a human-readable duration such as `1m 30s`. The call is `humantime::parse_duration`:
/// what it accepts, what that denotes and how its error reads is a function of the text alone,
/// and is left to it. A `Duration` has less than a second of nanoseconds. The call panics where
/// the seconds come to their maximum and the nanoseconds to a full second, which is where a text
/// is not within [`bounded`]: [`overrun`] follows its sums as far as it reads a text.
#[verifier::external_body]
fn read_duration(t: &str) -> (r: Result<Span, String>)
    requires
        bounded(t@),
    ensures
        reading(r) == human_duration(t@),
        r matches Ok(span) ==> span.nanos < 1_000_000_000,
{
    match humantime::parse_duration(t) {
        Ok(duration) => Ok(Span { secs: duration.as_secs(), nanos: duration.subsec_nanos() }),
        Err(err) => Err(err.to_string()),
    }
}

/// What the command line makes of a reading of the text `t`.
pub open spec fn cli_duration(
    t: Seq<char>,
    read: Result<Span, Seq<char>>,
) -> Result<Span, (Seq<char>, Option<Seq<char>>)> {
    match read {
        Ok(span) => Ok(span),
        Err(cause) => Err(("invalid duration: "@ + t, Some(cause))),
    }
}

/// What the command line makes of a reading of the text `t`: an error names the text and keeps
/// the cause.
pub fn checked_cli_duration(t: &str, read: Result<Span, String>) -> (r: Result<Span, CliError>)
    ensures
        error::cli_outcome(r) == cli_duration(t@, reading(read)),
{
    match read {
        Ok(span) => Ok(span),
        Err(cause) => {
            let mut message = String::from_str("invalid duration: ");
            message.append(t);
            Err(CliError { message, cause: Some(cause) })
        },
    }
}

/// Parse a time duration from a string formatted as a human-readable duration.
pub fn parse_duration(t: &str) -> (r: Result<Span, CliError>)
    requires
        bounded(t@),
    ensures
        error::cli_outcome(r) == cli_duration(t@, human_duration(t@)),
{
    let read = read_duration(t);
    checked_cli_duration(t, read)
}

/// What a tool makes of a reading of the text `t`.
pub open spec fn tool_duration(
    t: Seq<char>,
    read: Result<Span, Seq<char>>,
) -> Result<Span, (ErrorKind, Seq<char>)> {
    match read {
        Ok(span) => Ok(span),
        Err(cause) => Err(
            (ErrorKind::InvalidParams, "Invalid duration '"@ + t + "': "@ + cause),
        ),
    }
}

/// What a tool makes of a reading of the text `t`: an error is the caller's.
pub fn checked_tool_duration(t: &str, read: Result<Span, String>) -> (r: Result<Span, ToolError>)
    ensures
        error::outcome(r) == tool_duration(t@, reading(read)),
{
    match read {
        Ok(span) => Ok(span),
        Err(cause) => {
            let mut message = String::from_str("Invalid duration '");
            message.append(t);
            message.append("': ");
            message.append(cause.as_str());
            Err(ToolError::invalid_params(message))
        },
    }
}

/// Parse a required human-readable duration string.
pub fn parse_duration_str(t: &str) -> (r: Result<Span, ToolError>)
    requires
        bounded(t@),
    ensures
        error::outcome(r) == tool_duration(t@, human_duration(t@)),
{
    let read = read_duration(t);
    checked_tool_duration(t, read)
}

/// What a tool makes of an optional text, given a reading of it.
pub open spec fn optional_duration(
    t: Option<Seq<char>>,
    read: Result<Span, Seq<char>>,
) -> Result<Option<Span>, (ErrorKind, Seq<char>)> {
    match t {
        None => Ok(None),
        Some(t) => match tool_duration(t, read) {
            Ok(span) => Ok(Some(span)),
            Err(e) => Err(e),
        },
    }
}

/// Parse an optional human-readable duration string (e.g. "10s", "1m30s").
pub fn parse_duration_opt(t: Option<&str>) -> (r: Result<Option<Span>, ToolError>)
    requires
        t matches Some(t) ==> bounded(t@),
    ensures
        error::outcome(r) == match t {
            None => Ok(None),
            Some(t) => optional_duration(Some(t@), human_duration(t@)),
        },
        (r is Ok && r->Ok_0 is None) <==> t is None,
{
    match t {
        Some(t) => match parse_duration_str(t) {
            Ok(span) => Ok(Some(span)),
            Err(e) => Err(e),
        },
        None => Ok(None),
    }
}

/// A span of whole seconds has these seconds, and no nanoseconds.
pub proof fn law_seconds_are_whole(secs: u64)
    ensures
        Span::of_secs(secs).secs == secs,
        Span::of_secs(secs).nanos == 0,
{
}

/// What was read stays as it was read: the span, or the text of the error.
pub proof fn law_readings_are_kept(span: Span, cause: String)
    ensures
        reading(Ok(span)) == Ok::<Span, Seq<char>>(span),
        reading(Err(cause)) == Err::<Span, _>(cause@),
{
}

/// A text that can be read is taken for what it denotes, on the command line and by tools. One
/// that cannot is refused with an error that quotes it and gives the cause.
pub proof fn law_durations_are_taken_as_read(t: Seq<char>, span: Span, cause: Seq<char>)
    ensures
        cli_duration(t, Ok(span)) == Ok::<_, (Seq<char>, Option<Seq<char>>)>(span),
        cli_duration(t, Err(cause)) == Err::<Span, _>(("invalid duration: "@ + t, Some(cause))),
        tool_duration(t, Ok(span)) == Ok::<_, (ErrorKind, Seq<char>)>(span),
        tool_duration(t, Err(cause)) == Err::<Span, _>(
            (ErrorKind::InvalidParams, "Invalid duration '"@ + t + "': "@ + cause),
        ),
        optional_duration(Some(t), Ok(span)) == Ok::<_, (ErrorKind, Seq<char>)>(Some(span)),
{
}

/// The optional and the required parser agree on every text, whatever its reading: a text that
/// can be read gives its duration, one that cannot gives the same error of the caller, and no
/// text is taken for a missing one.
pub proof fn law_optional_duration_reads_alike(t: Seq<char>, read: Result<Span, Seq<char>>)
    ensures
        optional_duration(Some(t), read) == match tool_duration(t, read) {
            Ok(span) => Ok(Some(span)),
            Err(e) => Err(e),
        },
        optional_duration(Some(t), read) != Ok::<Option<Span>, (ErrorKind, Seq<char>)>(None),
        read matches Err(cause) ==> optional_duration(Some(t), read) == Err::<Option<Span>, _>(
            (ErrorKind::InvalidParams, "Invalid duration '"@ + t + "': "@ + cause),
        ),
        optional_duration(None, read) == Ok::<Option<Span>, (ErrorKind, Seq<char>)>(None),
{
}

} // verus!
