//! Errors produced by the `AVPlayer` / `AVAssetReader` bridge, and the mapping
//! from the bridge's integer status codes to them.

use vstd::prelude::*;

use crate::status;
use crate::text::{decimal, decimal_spec};

verus! {

/// Top-level error type returned by fallible APIs in this crate.
#[derive(Debug, Clone, PartialEq, Eq)]
#[non_exhaustive]
pub enum AVPlayerError {
    /// Invalid caller input (UTF-8 / NUL / unsupported configuration).
    InvalidArgument(String),
    /// Asset or URL-asset construction failed.
    AssetCreateFailed(String),
    /// Player or player-item creation failed.
    PlayerCreateFailed(String),
    /// Asset-reader construction failed.
    ReaderCreateFailed(String),
    /// An operation on an existing object failed.
    OperationFailed(String),
    /// Observer registration failed.
    ObserverFailed(String),
    /// Asynchronous key loading failed or timed out.
    LoadFailed(String),
}

impl AVPlayerError {
    /// The message carried by the error, whatever its kind.
    pub open spec fn message_of(self) -> Seq<char> {
        match self {
            AVPlayerError::InvalidArgument(m) => m@,
            AVPlayerError::AssetCreateFailed(m) => m@,
            AVPlayerError::PlayerCreateFailed(m) => m@,
            AVPlayerError::ReaderCreateFailed(m) => m@,
            AVPlayerError::OperationFailed(m) => m@,
            AVPlayerError::ObserverFailed(m) => m@,
            AVPlayerError::LoadFailed(m) => m@,
        }
    }

    /// The prefix that the human-readable description puts before the message.
    pub open spec fn description_prefix(self) -> Seq<char> {
        match self {
            AVPlayerError::InvalidArgument(_) => "invalid argument: "@,
            AVPlayerError::AssetCreateFailed(_) => "asset creation failed: "@,
            AVPlayerError::PlayerCreateFailed(_) => "player creation failed: "@,
            AVPlayerError::ReaderCreateFailed(_) => "asset reader creation failed: "@,
            AVPlayerError::OperationFailed(_) => "operation failed: "@,
            AVPlayerError::ObserverFailed(_) => "observer registration failed: "@,
            AVPlayerError::LoadFailed(_) => "load failed: "@,
        }
    }

    /// Human-readable description of the error (the text that `Display` shows).
    pub fn describe(&self) -> (r: String)
        ensures
            r@ == self.description_prefix() + self.message_of(),
    {
        match self {
            AVPlayerError::InvalidArgument(m) => "invalid argument: ".to_owned().concat(m.as_str()),
            AVPlayerError::AssetCreateFailed(m) => "asset creation failed: ".to_owned().concat(
                m.as_str(),
            ),
            AVPlayerError::PlayerCreateFailed(m) => "player creation failed: ".to_owned().concat(
                m.as_str(),
            ),
            AVPlayerError::ReaderCreateFailed(m) => "asset reader creation failed: ".to_owned().concat(
                m.as_str(),
            ),
            AVPlayerError::OperationFailed(m) => "operation failed: ".to_owned().concat(m.as_str()),
            AVPlayerError::ObserverFailed(m) => "observer registration failed: ".to_owned().concat(
                m.as_str(),
            ),
            AVPlayerError::LoadFailed(m) => "load failed: ".to_owned().concat(m.as_str()),
        }
    }
}

/// The error kind and message that a bridge status code stands for.
pub open spec fn status_error_spec(status: int, message: Seq<char>, e: AVPlayerError) -> bool {
    if status == status::INVALID_ARGUMENT {
        e is InvalidArgument && e.message_of() == message
    } else if status == status::ASSET_CREATE_FAILED {
        e is AssetCreateFailed && e.message_of() == message
    } else if status == status::PLAYER_CREATE_FAILED {
        e is PlayerCreateFailed && e.message_of() == message
    } else if status == status::READER_CREATE_FAILED {
        e is ReaderCreateFailed && e.message_of() == message
    } else if status == status::OPERATION_FAILED {
        e is OperationFailed && e.message_of() == message
    } else if status == status::OBSERVER_FAILED {
        e is ObserverFailed && e.message_of() == message
    } else if status == status::LOAD_FAILED {
        e is LoadFailed && e.message_of() == message
    } else {
        e is OperationFailed && e.message_of() == "unknown status "@ + decimal_spec(status) + ": "@
            + message
    }
}

/// Builds the error for a failed bridge call from its status code and the
/// message that the bridge handed back (empty when it gave none).
pub fn from_status(status: i32, message: String) -> (e: AVPlayerError)
    ensures
        status_error_spec(status as int, message@, e),
{
    if status == status::INVALID_ARGUMENT {
        AVPlayerError::InvalidArgument(message)
    } else if status == status::ASSET_CREATE_FAILED {
        AVPlayerError::AssetCreateFailed(message)
    } else if status == status::PLAYER_CREATE_FAILED {
        AVPlayerError::PlayerCreateFailed(message)
    } else if status == status::READER_CREATE_FAILED {
        AVPlayerError::ReaderCreateFailed(message)
    } else if status == status::OPERATION_FAILED {
        AVPlayerError::OperationFailed(message)
    } else if status == status::OBSERVER_FAILED {
        AVPlayerError::ObserverFailed(message)
    } else if status == status::LOAD_FAILED {
        AVPlayerError::LoadFailed(message)
    } else {
        let code = decimal(status as i64);
        let text = "unknown status ".to_owned().concat(code.as_str()).concat(": ").concat(
            message.as_str(),
        );
        AVPlayerError::OperationFailed(text)
    }
}

/// The error that reports a bridge property missing on the running OS release:
/// `"<symbol> requires macOS <version>+"`.
pub fn availability_error(symbol: &str, macos_version: &str) -> (e: AVPlayerError)
    ensures
        e is OperationFailed,
        e.message_of() == symbol@ + " requires macOS "@ + macos_version@ + "+"@,
{
    AVPlayerError::OperationFailed(
        symbol.to_owned().concat(" requires macOS ").concat(macos_version).concat("+"),
    )
}

/// The outcome of a bridge call that returns a status code: `OK` succeeds, and
/// any other status is the error [`from_status`] builds from it and the
/// message the bridge handed back.
pub fn check_status(status: i32, message: String) -> (r: Result<(), AVPlayerError>)
    ensures
        status == status::OK ==> r is Ok,
        status != status::OK ==> (match r {
            Err(e) => status_error_spec(status as int, message@, e),
            Ok(_) => false,
        }),
{
    if status == status::OK {
        Ok(())
    } else {
        Err(from_status(status, message))
    }
}

/// Maps the message of a failed asynchronous completion to an error.
pub fn bridge_err(msg: String) -> (e: AVPlayerError)
    ensures
        e is LoadFailed,
        e.message_of() == msg@,
{
    AVPlayerError::LoadFailed(msg)
}

} // verus!
