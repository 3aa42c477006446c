//! The error classifier.
//!
//! Engine status codes are mapped to a closed error taxonomy, and every
//! failure carries the operation that raised it, so both adapters report
//! failures uniformly.

use crate::engine::EngineStatus;
use vstd::prelude::*;
use vstd::string::StringExecFns;

verus! {

/// Which direction of transcoding raised a failure.
#[derive(Clone, Copy, PartialEq, Eq, Structural, Debug)]
pub enum Operation {
    Inflating,
    Deflating,
}

/// The closed taxonomy that every engine failure is classified into.
#[derive(Clone, Copy, PartialEq, Eq, Structural, Debug)]
pub enum ErrorKind {
    /// No progress was possible with the buffers given.
    BufferExhausted,
    /// The engine could not obtain memory.
    MemoryError,
    /// The session was driven against its state discipline.
    StreamStateError,
    /// The stream asks for a preset dictionary.
    DictionaryRequired,
    /// The input is not a valid stream.
    DataCorruption,
    /// Any other engine code, carried verbatim.
    Unknown(i32),
}

/// What a read or finish call can fail with.
#[derive(Clone, PartialEq, Debug)]
pub enum CodecError {
    /// The engine reported a failure while inflating or deflating.
    Engine(Operation, ErrorKind),
    /// The source's own failure, handed through unchanged.
    Source(String),
}

/// The classification table: a failure status maps to its kind, a status
/// that lets the stream go on maps to nothing.
pub open spec fn classify_spec(status: EngineStatus) -> Option<ErrorKind> {
    match status {
        EngineStatus::Working => None,
        EngineStatus::StreamEnd => None,
        EngineStatus::NeedDict => Some(ErrorKind::DictionaryRequired),
        EngineStatus::StreamErr => Some(ErrorKind::StreamStateError),
        EngineStatus::DataErr => Some(ErrorKind::DataCorruption),
        EngineStatus::MemErr => Some(ErrorKind::MemoryError),
        EngineStatus::BufErr => Some(ErrorKind::BufferExhausted),
        EngineStatus::OtherErr(code) => Some(ErrorKind::Unknown(code)),
    }
}

/// Classify one engine status: `None` means the stream may go on, `Some`
/// carries the kind of the failure.
pub fn classify(status: EngineStatus) -> (r: Option<ErrorKind>)
    ensures
        r == classify_spec(status),
{
    match status {
        EngineStatus::Working => None,
        EngineStatus::StreamEnd => None,
        EngineStatus::NeedDict => Some(ErrorKind::DictionaryRequired),
        EngineStatus::StreamErr => Some(ErrorKind::StreamStateError),
        EngineStatus::DataErr => Some(ErrorKind::DataCorruption),
        EngineStatus::MemErr => Some(ErrorKind::MemoryError),
        EngineStatus::BufErr => Some(ErrorKind::BufferExhausted),
        EngineStatus::OtherErr(code) => Some(ErrorKind::Unknown(code)),
    }
}

impl Operation {
    /// The operation's name as it appears in diagnostics.
    pub open spec fn label_spec(self) -> Seq<char> {
        match self {
            Operation::Inflating => "inflating"@,
            Operation::Deflating => "deflating"@,
        }
    }

    /// The operation's name as it appears in diagnostics.
    pub fn label(&self) -> (r: &'static str)
        ensures
            r@ == self.label_spec(),
    {
        match self {
            Operation::Inflating => "inflating",
            Operation::Deflating => "deflating",
        }
    }
}

impl ErrorKind {
    /// The kind's name as it appears in diagnostics.
    pub open spec fn label_spec(self) -> Seq<char> {
        match self {
            ErrorKind::BufferExhausted => "Z_BUF_ERROR"@,
            ErrorKind::MemoryError => "Z_MEM_ERROR"@,
            ErrorKind::StreamStateError => "Z_STREAM_ERROR"@,
            ErrorKind::DictionaryRequired => "Z_NEED_DICT"@,
            ErrorKind::DataCorruption => "Z_DATA_ERROR"@,
            ErrorKind::Unknown(_) => "UNKNOWN"@,
        }
    }

    /// The kind's name as it appears in diagnostics.
    pub fn label(&self) -> (r: &'static str)
        ensures
            r@ == self.label_spec(),
    {
        match self {
            ErrorKind::BufferExhausted => "Z_BUF_ERROR",
            ErrorKind::MemoryError => "Z_MEM_ERROR",
            ErrorKind::StreamStateError => "Z_STREAM_ERROR",
            ErrorKind::DictionaryRequired => "Z_NEED_DICT",
            ErrorKind::DataCorruption => "Z_DATA_ERROR",
            ErrorKind::Unknown(_) => "UNKNOWN",
        }
    }
}

impl CodecError {
    /// The uniform diagnostic line for this failure: the operation that
    /// raised it together with the classified kind; a source failure is its
    /// own message, handed through unchanged.
    pub open spec fn message_spec(self) -> Seq<char> {
        match self {
            CodecError::Engine(operation, kind) => "Failed "@ + operation.label_spec() + ": "@
                + kind.label_spec(),
            CodecError::Source(m) => m@,
        }
    }

    /// The uniform diagnostic line for this failure.
    pub fn message(&self) -> (r: String)
        ensures
            r@ == self.message_spec(),
    {
        match self {
            CodecError::Engine(operation, kind) => {
                let mut m = String::from_str("Failed ");
                m.append(operation.label());
                m.append(": ");
                m.append(kind.label());
                m
            },
            CodecError::Source(m) => m.clone(),
        }
    }
}

} // verus!
