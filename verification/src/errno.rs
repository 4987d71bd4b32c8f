//! The codes in which the host is told how a call ended.

use vstd::prelude::*;

use crate::error::{Error, ErrorKind};

verus! {

/// No error.
pub const ERR_OK: i32 = 0;

/// Config path error.
pub const ERR_CONFIG_PATH: i32 = 1;

/// Config parsing error.
pub const ERR_CONFIG: i32 = 2;

/// IO error.
pub const ERR_IO: i32 = 3;

/// Config file watcher error.
pub const ERR_WATCHER: i32 = 4;

/// Async channel send error.
pub const ERR_ASYNC_CHANNEL_SEND: i32 = 5;

/// Sync channel receive error.
pub const ERR_SYNC_CHANNEL_RECV: i32 = 6;

/// Runtime manager error.
pub const ERR_RUNTIME_MANAGER: i32 = 7;

/// No associated config file.
pub const ERR_NO_CONFIG_FILE: i32 = 8;

/// No data found.
pub const ERR_NO_DATA: i32 = 9;

/// Invalid argument.
pub const ERR_INVALID_ARGUMENT: i32 = 10;

/// Resource already exists.
pub const ERR_ALREADY_EXISTS: i32 = 11;

/// Resource not found.
pub const ERR_NOT_FOUND: i32 = 12;

/// Provided buffer is too small.
pub const ERR_BUFFER_TOO_SMALL: i32 = 13;

/// Packet queue is full, caller must retry or drop according to its policy.
pub const ERR_QUEUE_FULL: i32 = 14;

/// The code of an error of the runtime.
pub open spec fn errno(e: Error) -> i32 {
    match e {
        Error::Config => ERR_CONFIG,
        Error::NoConfigFile => ERR_NO_CONFIG_FILE,
        Error::Io => ERR_IO,
        Error::Watcher => ERR_WATCHER,
        Error::AsyncChannelSend => ERR_ASYNC_CHANNEL_SEND,
        Error::SyncChannelRecv => ERR_SYNC_CHANNEL_RECV,
        Error::RuntimeManager => ERR_RUNTIME_MANAGER,
    }
}

/// The code of an I/O error.
pub open spec fn io_errno(kind: ErrorKind) -> i32 {
    match kind {
        ErrorKind::InvalidInput => ERR_INVALID_ARGUMENT,
        ErrorKind::AlreadyExists => ERR_ALREADY_EXISTS,
        ErrorKind::NotFound => ERR_NOT_FOUND,
        ErrorKind::WouldBlock => ERR_QUEUE_FULL,
        _ => ERR_IO,
    }
}

/// The code of an outcome that carries nothing but an error of the runtime.
pub open spec fn outcome_errno(outcome: Result<(), Error>) -> i32 {
    match outcome {
        Ok(_) => ERR_OK,
        Err(e) => errno(e),
    }
}

/// Returns the code of an error of the runtime.
pub fn to_errno(e: Error) -> (code: i32)
    ensures
        code == errno(e),
{
    match e {
        Error::Config => ERR_CONFIG,
        Error::NoConfigFile => ERR_NO_CONFIG_FILE,
        Error::Io => ERR_IO,
        Error::Watcher => ERR_WATCHER,
        Error::AsyncChannelSend => ERR_ASYNC_CHANNEL_SEND,
        Error::SyncChannelRecv => ERR_SYNC_CHANNEL_RECV,
        Error::RuntimeManager => ERR_RUNTIME_MANAGER,
    }
}

/// Returns the code of an I/O error.
pub fn io_to_errno(kind: ErrorKind) -> (code: i32)
    ensures
        code == io_errno(kind),
{
    match kind {
        ErrorKind::InvalidInput => ERR_INVALID_ARGUMENT,
        ErrorKind::AlreadyExists => ERR_ALREADY_EXISTS,
        ErrorKind::NotFound => ERR_NOT_FOUND,
        ErrorKind::WouldBlock => ERR_QUEUE_FULL,
        _ => ERR_IO,
    }
}

/// Returns the code of an outcome that carries nothing but an error of the runtime.
pub fn outcome_to_errno(outcome: Result<(), Error>) -> (code: i32)
    ensures
        code == outcome_errno(outcome),
{
    match outcome {
        Ok(_) => ERR_OK,
        Err(e) => to_errno(e),
    }
}

/// The codes are the numbers that hosts are built against.
pub proof fn law_numbers_of_the_codes()
    ensures
        ERR_OK == 0,
        ERR_CONFIG_PATH == 1,
        ERR_CONFIG == 2,
        ERR_IO == 3,
        ERR_WATCHER == 4,
        ERR_ASYNC_CHANNEL_SEND == 5,
        ERR_SYNC_CHANNEL_RECV == 6,
        ERR_RUNTIME_MANAGER == 7,
        ERR_NO_CONFIG_FILE == 8,
        ERR_NO_DATA == 9,
        ERR_INVALID_ARGUMENT == 10,
        ERR_ALREADY_EXISTS == 11,
        ERR_NOT_FOUND == 12,
        ERR_BUFFER_TOO_SMALL == 13,
        ERR_QUEUE_FULL == 14,
{
}

/// Each error of the runtime is reported under its own number, and an outcome under that of its
/// error or as a success.
pub proof fn law_each_error_has_its_number(e: Error, code: i32, ok: i32, failed: i32)
    requires
        call_ensures(to_errno, (e,), code),
        call_ensures(outcome_to_errno, (Ok::<(), Error>(()),), ok),
        call_ensures(outcome_to_errno, (Err::<(), Error>(e),), failed),
    ensures
        e is Config <==> code == 2,
        e is Io <==> code == 3,
        e is Watcher <==> code == 4,
        e is AsyncChannelSend <==> code == 5,
        e is SyncChannelRecv <==> code == 6,
        e is RuntimeManager <==> code == 7,
        e is NoConfigFile <==> code == 8,
        ok == 0,
        failed == code,
{
}

/// An I/O error that says what is wrong is reported as that, and every other as an I/O error.
pub proof fn law_each_io_error_has_its_number(kind: ErrorKind, code: i32)
    requires
        call_ensures(io_to_errno, (kind,), code),
    ensures
        kind is InvalidInput <==> code == 10,
        kind is AlreadyExists <==> code == 11,
        kind is NotFound <==> code == 12,
        kind is WouldBlock <==> code == 14,
        kind is BrokenPipe || kind is Other <==> code == 3,
{
}

/// A failure of the runtime is never reported as a success, and no two failures are reported
/// alike.
pub proof fn law_errno_tells_errors_apart(a: Error, b: Error)
    ensures
        errno(a) != ERR_OK,
        errno(a) == errno(b) ==> a == b,
{
}

/// A failed I/O operation is never reported as a success.
pub proof fn law_io_errno_is_no_success(kind: ErrorKind)
    ensures
        io_errno(kind) != ERR_OK,
{
}

} // verus!
