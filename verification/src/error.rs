//! Errors of the tunnel operations and of the runtime.

use vstd::prelude::*;

use crate::packet_io::registry_model::MAX_PACKET_TUNNEL_QUEUE_SIZE;
use crate::text::{decimal, decimal_value, lemma_decimal_value, to_decimal};

verus! {

/// The category of an I/O error, as far as the error codes tell them apart.
#[derive(Clone, Copy, Debug, PartialEq, Eq, Structural)]
pub enum ErrorKind {
    NotFound,
    AlreadyExists,
    InvalidInput,
    WouldBlock,
    BrokenPipe,
    /// Any other category.
    Other,
}

/// Why a tunnel operation was refused.
#[derive(Clone, Copy, Debug, PartialEq, Eq, Structural)]
pub enum TunnelError {
    /// The tunnel has been closed.
    Closed,
    /// The input queue holds as many packets as it may.
    InputQueueFull,
    /// The packet would take the input queue over its byte limit.
    InputByteLimitExceeded,
    /// The output queue holds as many packets as it may.
    OutputQueueFull,
    /// The packet would take the output queue over its byte limit.
    OutputByteLimitExceeded,
    /// The transport of the tunnel has been taken before.
    AlreadyConnected,
    /// No tunnel is registered for the runtime.
    NotInitialized,
    /// The runtime is up, so its tunnel can no longer be set up.
    AlreadyRunning,
    /// The runtime has a tunnel already.
    AlreadyInitialized,
    /// The requested queue size (the payload) is larger than the maximum.
    QueueSizeExceedsMaximum(usize),
}

impl TunnelError {
    /// The category of this error.
    pub open spec fn spec_kind(self) -> ErrorKind {
        match self {
            TunnelError::Closed => ErrorKind::BrokenPipe,
            TunnelError::InputQueueFull => ErrorKind::WouldBlock,
            TunnelError::InputByteLimitExceeded => ErrorKind::WouldBlock,
            TunnelError::OutputQueueFull => ErrorKind::WouldBlock,
            TunnelError::OutputByteLimitExceeded => ErrorKind::WouldBlock,
            TunnelError::AlreadyConnected => ErrorKind::AlreadyExists,
            TunnelError::NotInitialized => ErrorKind::NotFound,
            TunnelError::AlreadyRunning => ErrorKind::AlreadyExists,
            TunnelError::AlreadyInitialized => ErrorKind::AlreadyExists,
            TunnelError::QueueSizeExceedsMaximum(_) => ErrorKind::InvalidInput,
        }
    }

    /// Returns the category of this error.
    pub fn kind(&self) -> (kind: ErrorKind)
        ensures
            kind == self.spec_kind(),
    {
        match self {
            TunnelError::Closed => ErrorKind::BrokenPipe,
            TunnelError::InputQueueFull => ErrorKind::WouldBlock,
            TunnelError::InputByteLimitExceeded => ErrorKind::WouldBlock,
            TunnelError::OutputQueueFull => ErrorKind::WouldBlock,
            TunnelError::OutputByteLimitExceeded => ErrorKind::WouldBlock,
            TunnelError::AlreadyConnected => ErrorKind::AlreadyExists,
            TunnelError::NotInitialized => ErrorKind::NotFound,
            TunnelError::AlreadyRunning => ErrorKind::AlreadyExists,
            TunnelError::AlreadyInitialized => ErrorKind::AlreadyExists,
            TunnelError::QueueSizeExceedsMaximum(_) => ErrorKind::InvalidInput,
        }
    }

    /// The text of this error.
    pub open spec fn spec_message(self) -> Seq<char> {
        match self {
            TunnelError::Closed => "packet tunnel is closed"@,
            TunnelError::InputQueueFull => "packet tunnel input queue is full"@,
            TunnelError::InputByteLimitExceeded => "packet tunnel input byte limit exceeded"@,
            TunnelError::OutputQueueFull => "packet tunnel output queue is full"@,
            TunnelError::OutputByteLimitExceeded => "packet tunnel output byte limit exceeded"@,
            TunnelError::AlreadyConnected => "packet tunnel is already connected"@,
            TunnelError::NotInitialized => "packet tunnel not initialized"@,
            TunnelError::AlreadyRunning => "runtime is already running"@,
            TunnelError::AlreadyInitialized => "packet tunnel is already initialized"@,
            TunnelError::QueueSizeExceedsMaximum(queue_size) => "packet tunnel queue size "@
                + decimal(queue_size as nat) + " exceeds maximum "@ + decimal(
                MAX_PACKET_TUNNEL_QUEUE_SIZE as nat,
            ),
        }
    }

    /// Returns the text of this error.
    pub fn message(&self) -> (message: String)
        ensures
            message@ == self.spec_message(),
    {
        match self {
            TunnelError::Closed => "packet tunnel is closed".to_owned(),
            TunnelError::InputQueueFull => "packet tunnel input queue is full".to_owned(),
            TunnelError::InputByteLimitExceeded => {
                "packet tunnel input byte limit exceeded".to_owned()
            },
            TunnelError::OutputQueueFull => "packet tunnel output queue is full".to_owned(),
            TunnelError::OutputByteLimitExceeded => {
                "packet tunnel output byte limit exceeded".to_owned()
            },
            TunnelError::AlreadyConnected => "packet tunnel is already connected".to_owned(),
            TunnelError::NotInitialized => "packet tunnel not initialized".to_owned(),
            TunnelError::AlreadyRunning => "runtime is already running".to_owned(),
            TunnelError::AlreadyInitialized => "packet tunnel is already initialized".to_owned(),
            TunnelError::QueueSizeExceedsMaximum(queue_size) => {
                let mut message = "packet tunnel queue size ".to_owned();
                message.append(to_decimal(*queue_size).as_str());
                message.append(" exceeds maximum ");
                message.append(to_decimal(MAX_PACKET_TUNNEL_QUEUE_SIZE).as_str());
                message
            },
        }
    }
}

/// A refusal for want of room is one to try again later, a closed tunnel is a broken pipe, a
/// missing one is not found, what is there already exists, and a queue size is bad input.
pub proof fn law_kinds_of_the_errors(e: TunnelError, kind: ErrorKind)
    requires
        call_ensures(TunnelError::kind, (&e,), kind),
    ensures
        kind is WouldBlock <==> e is InputQueueFull || e is InputByteLimitExceeded
            || e is OutputQueueFull || e is OutputByteLimitExceeded,
        kind is BrokenPipe <==> e is Closed,
        kind is NotFound <==> e is NotInitialized,
        kind is AlreadyExists <==> e is AlreadyConnected || e is AlreadyRunning
            || e is AlreadyInitialized,
        kind is InvalidInput <==> e is QueueSizeExceedsMaximum,
        !(kind is Other),
{
}

/// The text of each error, which for a queue size names the size and the maximum.
pub proof fn law_texts_of_the_errors(e: TunnelError, message: String)
    requires
        call_ensures(TunnelError::message, (&e,), message),
    ensures
        e is Closed ==> message@ == "packet tunnel is closed"@,
        e is InputQueueFull ==> message@ == "packet tunnel input queue is full"@,
        e is InputByteLimitExceeded ==> message@ == "packet tunnel input byte limit exceeded"@,
        e is OutputQueueFull ==> message@ == "packet tunnel output queue is full"@,
        e is OutputByteLimitExceeded ==> message@ == "packet tunnel output byte limit exceeded"@,
        e is AlreadyConnected ==> message@ == "packet tunnel is already connected"@,
        e is NotInitialized ==> message@ == "packet tunnel not initialized"@,
        e is AlreadyRunning ==> message@ == "runtime is already running"@,
        e is AlreadyInitialized ==> message@ == "packet tunnel is already initialized"@,
        e matches TunnelError::QueueSizeExceedsMaximum(queue_size) ==> {
            let before = "packet tunnel queue size "@;
            let between = " exceeds maximum "@;
            exists|size: Seq<char>, maximum: Seq<char>|
                {
                    &&& #[trigger] (before + size + between + maximum) == message@
                    &&& decimal_value(size) == Some(queue_size as nat)
                    &&& decimal_value(maximum) == Some(4_096nat)
                }
        },
{
    if let TunnelError::QueueSizeExceedsMaximum(queue_size) = e {
        lemma_decimal_value(queue_size as nat);
        lemma_decimal_value(4_096);
        assert("packet tunnel queue size "@ + decimal(queue_size as nat) + " exceeds maximum "@
            + decimal(4_096) == message@);
    }
}

/// Why the runtime could not do what it was asked to.
#[derive(Clone, Copy, Debug, PartialEq, Eq, Structural)]
pub enum Error {
    /// The configuration is not valid.
    Config,
    /// The runtime has no configuration file.
    NoConfigFile,
    /// An I/O operation failed.
    Io,
    /// The configuration file could not be watched.
    Watcher,
    /// The runtime could not be sent a message.
    AsyncChannelSend,
    /// The runtime did not answer a message.
    SyncChannelRecv,
    /// The runtime is not known.
    RuntimeManager,
}

} // verus!
