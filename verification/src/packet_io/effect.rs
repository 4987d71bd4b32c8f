//! What a transition asks the caller to do outside of the library.

use vstd::prelude::*;

verus! {

/// The number that a host gives to one of its runtimes.
pub type RuntimeId = u16;

/// The number of a tunnel in the registry.
pub type HandleId = usize;

/// A callback of the host, with the values that it is called with.
///
/// Both `context` and `callback` belong to the host: the library only stores them
/// and hands them back.
#[derive(Clone, Copy, Debug, PartialEq, Eq, Structural)]
pub struct PacketTunnelNotifier {
    pub rt_id: RuntimeId,
    /// The context pointer that the host wants back, as an address.
    pub context: usize,
    /// The function that the host wants called, as an address.
    pub callback: usize,
}

impl PacketTunnelNotifier {
    /// Makes the notifier that calls `callback` with `rt_id` and `context`.
    pub fn new(rt_id: RuntimeId, context: usize, callback: usize) -> (notifier: Self)
        ensures
            notifier == (PacketTunnelNotifier { rt_id, context, callback }),
    {
        PacketTunnelNotifier { rt_id, context, callback }
    }
}

/// The right to run one callback of a tunnel.
///
/// The tunnel counts the guards it has given out; each is handed back with
/// `finish_callback` once the callback has returned.
#[derive(Debug, PartialEq, Eq, Structural)]
pub struct CallbackGuard {
    pub handle: HandleId,
}

/// Something to be done outside of the library, in the order of the list.
#[derive(Debug, PartialEq, Eq, Structural)]
pub enum Effect {
    /// Wake the task that waits for input packets of the tunnel.
    WakeInput(HandleId),
    /// Wake the task that waits for room in the output queue of the tunnel.
    WakeOutput(HandleId),
    /// Call the notifier, then hand the guard back.
    Notify { notifier: PacketTunnelNotifier, guard: CallbackGuard },
    /// Block until no callback of the tunnel is running.
    WaitForCallbacks(HandleId),
    /// Wake those that block until no callback of the tunnel is running.
    CallbacksDrained(HandleId),
}

} // verus!
