//! Errors raised while identifying miners and talking to their RPC APIs.
use vstd::prelude::*;

verus! {

/// The error `serde_json` reports when a response does not parse.
#[verifier::external_type_specification]
#[verifier::external_body]
pub struct ExJsonError(serde_json::Error);

/// Why the model of a miner could not be determined.
#[derive(Debug, Clone, Copy, PartialEq, Eq, Structural)]
pub enum ModelSelectionError {
    NoModelResponse,
    UnexpectedModelResponse,
}

impl ModelSelectionError {
    /// The human-readable description of this error.
    pub open spec fn message_text(self) -> Seq<char> {
        match self {
            ModelSelectionError::NoModelResponse => "No response when querying model"@,
            ModelSelectionError::UnexpectedModelResponse => "Response to model query was formatted unexpectedly"@,
        }
    }

    /// The human-readable description of this error.
    pub fn message(&self) -> (r: String)
        ensures
            r@ == self.message_text(),
    {
        match self {
            ModelSelectionError::NoModelResponse => String::from_str(
                "No response when querying model",
            ),
            ModelSelectionError::UnexpectedModelResponse => String::from_str(
                "Response to model query was formatted unexpectedly",
            ),
        }
    }
}

/// A failure of an RPC exchange with a miner.
#[derive(Debug)]
pub enum RPCError {
    StatusCheckFailed(String),
    DeserializationFailed(serde_json::Error),
    ConnectionFailed,
    ConnectionTimeout,
    ReadTimeout,
    WriteTimeout,
    ConnectionReset,
    BrokenPipe,
}

/// The kinds of I/O failure that the RPC layer tells apart.
#[derive(Debug, Clone, Copy, PartialEq, Eq, Structural)]
pub enum IoFailure {
    ConnectionReset,
    BrokenPipe,
    Other,
}

/// The text `serde_json` gives for one of its errors (its `Display`).
///
/// Nothing is stated of the text: it depends on the error's inner position
/// and message, which this library does not see.
#[verifier::external_body]
fn json_error_text(err: &serde_json::Error) -> String {
    err.to_string()
}

impl RPCError {
    /// Whether this error is an expected transient failure of a privileged
    /// write: a timeout or a dropped connection.
    pub open spec fn spec_is_transient(&self) -> bool {
        match self {
            RPCError::ConnectionTimeout | RPCError::ReadTimeout | RPCError::WriteTimeout
            | RPCError::ConnectionReset | RPCError::BrokenPipe => true,
            _ => false,
        }
    }

    /// Returns true if this error represents an expected transient failure
    /// from a privileged write command (timeout or connection drop).
    #[verifier::when_used_as_spec(spec_is_transient)]
    pub fn is_transient(&self) -> (r: bool)
        ensures
            r == self.spec_is_transient(),
    {
        match self {
            RPCError::ConnectionTimeout | RPCError::ReadTimeout | RPCError::WriteTimeout
            | RPCError::ConnectionReset | RPCError::BrokenPipe => true,
            _ => false,
        }
    }

    /// The error an I/O failure of the given kind becomes.
    pub fn from_io_failure(kind: IoFailure) -> (r: RPCError)
        ensures
            kind == IoFailure::ConnectionReset ==> r is ConnectionReset,
            kind == IoFailure::BrokenPipe ==> r is BrokenPipe,
            kind == IoFailure::Other ==> r is ConnectionFailed,
    {
        match kind {
            IoFailure::ConnectionReset => RPCError::ConnectionReset,
            IoFailure::BrokenPipe => RPCError::BrokenPipe,
            IoFailure::Other => RPCError::ConnectionFailed,
        }
    }

    /// The fixed prefix of the description of a deserialization failure.
    pub open spec fn deserialization_prefix() -> Seq<char> {
        "Failed to deserialize result: "@
    }

    /// The description of every variant but `DeserializationFailed`, whose
    /// description starts with `deserialization_prefix` and goes on with
    /// the parser's own message.
    pub open spec fn message_text(&self) -> Seq<char> {
        match self {
            RPCError::StatusCheckFailed(m) => "Command returned with error status: "@ + m@,
            RPCError::DeserializationFailed(_) => Self::deserialization_prefix(),
            RPCError::ConnectionFailed => "Failed to connect to RPC API"@,
            RPCError::ConnectionTimeout => "RPC connect timed out"@,
            RPCError::ReadTimeout => "RPC read timed out"@,
            RPCError::WriteTimeout => "RPC write timed out"@,
            RPCError::ConnectionReset => "Connection reset by miner"@,
            RPCError::BrokenPipe => "Broken pipe (miner closed connection)"@,
        }
    }

    /// The human-readable description of this error.
    pub fn message(&self) -> (r: String)
        ensures
            self is DeserializationFailed ==> r@.len() >= Self::deserialization_prefix().len()
                && r@.subrange(0, Self::deserialization_prefix().len() as int)
                == Self::deserialization_prefix(),
            !(self is DeserializationFailed) ==> r@ == self.message_text(),
    {
        match self {
            RPCError::StatusCheckFailed(message) => {
                let mut s = String::from_str("Command returned with error status: ");
                s.append(message.as_str());
                s
            },
            RPCError::DeserializationFailed(error) => {
                let mut s = String::from_str("Failed to deserialize result: ");
                let detail = json_error_text(error);
                s.append(detail.as_str());
                assert(s@.subrange(0, Self::deserialization_prefix().len() as int)
                    =~= Self::deserialization_prefix());
                s
            },
            RPCError::ConnectionFailed => String::from_str("Failed to connect to RPC API"),
            RPCError::ConnectionTimeout => String::from_str("RPC connect timed out"),
            RPCError::ReadTimeout => String::from_str("RPC read timed out"),
            RPCError::WriteTimeout => String::from_str("RPC write timed out"),
            RPCError::ConnectionReset => String::from_str("Connection reset by miner"),
            RPCError::BrokenPipe => String::from_str("Broken pipe (miner closed connection)"),
        }
    }
}

impl From<serde_json::Error> for RPCError {
    fn from(value: serde_json::Error) -> (r: Self) {
        RPCError::DeserializationFailed(value)
    }
}

impl vstd::std_specs::convert::FromSpecImpl<serde_json::Error> for RPCError {
    open spec fn obeys_from_spec() -> bool {
        true
    }

    open spec fn from_spec(v: serde_json::Error) -> Self {
        RPCError::DeserializationFailed(v)
    }
}

/// Returns true if the error is an expected transient failure from a
/// privileged write: timeout or connection drop. `err` is the RPC error that
/// the failure carries, if it carries one; any other failure is not expected.
pub fn is_expected_write_error(err: Option<&RPCError>) -> (r: bool)
    ensures
        r == (match err {
            Some(e) => e.spec_is_transient(),
            None => false,
        }),
{
    match err {
        Some(e) => e.is_transient(),
        None => false,
    }
}

/// Timeouts and dropped connections are the transient failures; a failed
/// status, a reply that does not parse and a failed connection are not.
/// A failed status is described by the miner's own message after a fixed
/// prefix, and each model-selection error has its own description.
pub proof fn lemma_error_kinds(m: String, e: serde_json::Error)
    ensures
        RPCError::ConnectionTimeout.spec_is_transient(),
        RPCError::ReadTimeout.spec_is_transient(),
        RPCError::WriteTimeout.spec_is_transient(),
        RPCError::ConnectionReset.spec_is_transient(),
        RPCError::BrokenPipe.spec_is_transient(),
        !RPCError::ConnectionFailed.spec_is_transient(),
        !RPCError::StatusCheckFailed(m).spec_is_transient(),
        !RPCError::DeserializationFailed(e).spec_is_transient(),
        RPCError::StatusCheckFailed(m).message_text() == "Command returned with error status: "@
            + m@,
        ModelSelectionError::NoModelResponse.message_text() == "No response when querying model"@,
        ModelSelectionError::UnexpectedModelResponse.message_text()
            == "Response to model query was formatted unexpectedly"@,
{
}

} // verus!
