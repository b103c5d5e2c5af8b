use vstd::prelude::*;
use vstd::string::StringExecFns;

use crate::attrs::AttrId;

verus! {

/// The failure categories that the client engine reports. Each payload is the
/// engine's own description of the cause, already rendered as text.
#[derive(Debug)]
pub enum NativeError {
    Connection(String),
    ReadMessage(String),
    SendMessage(String),
    Permission(String),
    ReplyDenied(String),
    EmptyReplyBody,
    NFSStatError(String),
    InnerError(String),
    OperationError(String),
}

/// Errors raised by this layer: engine failures, failures of the call into the
/// host runtime, and the layer's own validation failures.
#[derive(Debug)]
pub enum NfscrsJniError {
    /// A failure reported by the client engine.
    NFSCRSError(NativeError),
    /// The call into the host runtime itself failed; the text is passed on.
    JNIError(String),
    /// A remote address that does not parse, with the parser's explanation.
    InvalidAddress(String),
    /// A failure of this layer, with its message.
    NFSCRSJNIError(String),
    /// The engine's response lacks an attribute that was requested.
    AttributeMissing(AttrId),
    /// A timestamp whose millisecond count does not fit in 64 bits.
    TimeOutOfRange(AttrId),
    /// A malformed argument, such as a path that is not absolute.
    InvalidArgument(String),
    /// A handle that names no live object.
    InvalidHandle,
    /// A file handle used with a session other than the one that opened it.
    CrossSessionHandle,
    /// A handle whose object is in use by another call.
    HandleBusy,
    /// The registry has no room for another handle.
    HandlesExhausted,
}

/// The failure categories visible to the host.
#[derive(Clone, Copy, Debug, PartialEq, Eq, Structural)]
pub enum HostCategory {
    InvalidArgument,
    InvalidAddress,
    ConnectFailure,
    IOFailure,
    SecurityFailure,
    EndOfStreamFailure,
    InternalFailure,
}

/// A failure as the host sees it: a category and a message.
#[derive(Debug)]
pub struct HostFailure {
    pub category: HostCategory,
    pub message: String,
}

pub open spec fn native_category(e: NativeError) -> HostCategory {
    match e {
        NativeError::Connection(_) => HostCategory::ConnectFailure,
        NativeError::ReadMessage(_) => HostCategory::IOFailure,
        NativeError::SendMessage(_) => HostCategory::IOFailure,
        NativeError::Permission(_) => HostCategory::SecurityFailure,
        NativeError::ReplyDenied(_) => HostCategory::IOFailure,
        NativeError::EmptyReplyBody => HostCategory::EndOfStreamFailure,
        NativeError::NFSStatError(_) => HostCategory::IOFailure,
        NativeError::InnerError(_) => HostCategory::InternalFailure,
        NativeError::OperationError(_) => HostCategory::InternalFailure,
    }
}

pub open spec fn native_message(e: NativeError) -> Seq<char> {
    match e {
        NativeError::Connection(s) => "Failed to connect: "@ + s@,
        NativeError::ReadMessage(s) => "Failed to read message: "@ + s@,
        NativeError::SendMessage(s) => "Failed to send message: "@ + s@,
        NativeError::Permission(s) => "Permission denied: "@ + s@,
        NativeError::ReplyDenied(s) => "RPC reply denied: "@ + s@,
        NativeError::EmptyReplyBody => "Empty reply body"@,
        NativeError::NFSStatError(s) => "NFS stat error: "@ + s@,
        NativeError::InnerError(s) => "Inner error: "@ + s@,
        NativeError::OperationError(s) => "Operation error: "@ + s@,
    }
}

pub open spec fn bridge_category(e: NfscrsJniError) -> HostCategory {
    match e {
        NfscrsJniError::NFSCRSError(n) => native_category(n),
        NfscrsJniError::JNIError(_) => HostCategory::InternalFailure,
        NfscrsJniError::InvalidAddress(_) => HostCategory::InvalidAddress,
        NfscrsJniError::InvalidArgument(_) => HostCategory::InvalidArgument,
        NfscrsJniError::InvalidHandle => HostCategory::InvalidArgument,
        NfscrsJniError::CrossSessionHandle => HostCategory::InvalidArgument,
        _ => HostCategory::InternalFailure,
    }
}

pub open spec fn bridge_message(e: NfscrsJniError) -> Seq<char> {
    match e {
        NfscrsJniError::NFSCRSError(n) => native_message(n),
        NfscrsJniError::JNIError(s) => s@,
        NfscrsJniError::InvalidAddress(s) => "Invalid address: "@ + s@,
        NfscrsJniError::NFSCRSJNIError(s) => s@,
        NfscrsJniError::AttributeMissing(_) => "cannot fetch attribute"@,
        NfscrsJniError::TimeOutOfRange(_) => "attribute time out of range"@,
        NfscrsJniError::InvalidArgument(s) => s@,
        NfscrsJniError::InvalidHandle => "invalid handle"@,
        NfscrsJniError::CrossSessionHandle => "file handle belongs to another session"@,
        NfscrsJniError::HandleBusy => "handle is in use"@,
        NfscrsJniError::HandlesExhausted => "no handle available"@,
    }
}

fn prefixed(prefix: &str, s: &String) -> (r: String)
    ensures
        r@ == prefix@ + s@,
{
    String::from_str(prefix).concat(s.as_str())
}

/// Maps an engine failure to the host category and message of the fixed
/// translation table.
pub fn throw_nfs_error(err: &NativeError) -> (r: HostFailure)
    ensures
        r.category == native_category(*err),
        r.message@ == native_message(*err),
{
    match err {
        NativeError::Connection(e) => HostFailure {
            category: HostCategory::ConnectFailure,
            message: prefixed("Failed to connect: ", e),
        },
        NativeError::ReadMessage(e) => HostFailure {
            category: HostCategory::IOFailure,
            message: prefixed("Failed to read message: ", e),
        },
        NativeError::SendMessage(s) => HostFailure {
            category: HostCategory::IOFailure,
            message: prefixed("Failed to send message: ", s),
        },
        NativeError::Permission(s) => HostFailure {
            category: HostCategory::SecurityFailure,
            message: prefixed("Permission denied: ", s),
        },
        NativeError::ReplyDenied(s) => HostFailure {
            category: HostCategory::IOFailure,
            message: prefixed("RPC reply denied: ", s),
        },
        NativeError::EmptyReplyBody => HostFailure {
            category: HostCategory::EndOfStreamFailure,
            message: String::from_str("Empty reply body"),
        },
        NativeError::NFSStatError(stat) => HostFailure {
            category: HostCategory::IOFailure,
            message: prefixed("NFS stat error: ", stat),
        },
        NativeError::InnerError(e) => HostFailure {
            category: HostCategory::InternalFailure,
            message: prefixed("Inner error: ", e),
        },
        NativeError::OperationError(s) => HostFailure {
            category: HostCategory::InternalFailure,
            message: prefixed("Operation error: ", s),
        },
    }
}

/// Maps any error of this layer to exactly one host category and message.
pub fn handle_error(e: &NfscrsJniError) -> (r: HostFailure)
    ensures
        r.category == bridge_category(*e),
        r.message@ == bridge_message(*e),
{
    match e {
        NfscrsJniError::NFSCRSError(n) => throw_nfs_error(n),
        NfscrsJniError::JNIError(s) => HostFailure {
            category: HostCategory::InternalFailure,
            message: s.clone(),
        },
        NfscrsJniError::InvalidAddress(s) => HostFailure {
            category: HostCategory::InvalidAddress,
            message: prefixed("Invalid address: ", s),
        },
        NfscrsJniError::NFSCRSJNIError(s) => HostFailure {
            category: HostCategory::InternalFailure,
            message: s.clone(),
        },
        NfscrsJniError::AttributeMissing(_) => HostFailure {
            category: HostCategory::InternalFailure,
            message: String::from_str("cannot fetch attribute"),
        },
        NfscrsJniError::TimeOutOfRange(_) => HostFailure {
            category: HostCategory::InternalFailure,
            message: String::from_str("attribute time out of range"),
        },
        NfscrsJniError::InvalidArgument(s) => HostFailure {
            category: HostCategory::InvalidArgument,
            message: s.clone(),
        },
        NfscrsJniError::InvalidHandle => HostFailure {
            category: HostCategory::InvalidArgument,
            message: String::from_str("invalid handle"),
        },
        NfscrsJniError::CrossSessionHandle => HostFailure {
            category: HostCategory::InvalidArgument,
            message: String::from_str("file handle belongs to another session"),
        },
        NfscrsJniError::HandleBusy => HostFailure {
            category: HostCategory::InternalFailure,
            message: String::from_str("handle is in use"),
        },
        NfscrsJniError::HandlesExhausted => HostFailure {
            category: HostCategory::InternalFailure,
            message: String::from_str("no handle available"),
        },
    }
}

} // verus!
