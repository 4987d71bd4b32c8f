//! The listener of the TUN inbound.

use std::sync::Arc;

use vstd::prelude::*;

use crate::packet_io::effect::RuntimeId;

verus! {

/// `Arc::clone` gives another pointer to the same value.
#[verifier::external_body]
fn share<T>(shared: &Arc<T>) -> (pointer: Arc<T>)
    ensures
        pointer == *shared,
{
    Arc::clone(shared)
}

/// The TUN inbound of a runtime: its configuration, and what its traffic is handed on to.
pub struct TunInboundListener<I, D, N> {
    pub rt_id: RuntimeId,
    pub inbound: I,
    pub dispatcher: Arc<D>,
    pub nat_manager: Arc<N>,
}

impl<I: Clone, D, N> TunInboundListener<I, D, N> {
    /// Sets the inbound up with `new_inbound` and returns what that gives back.
    pub fn listen<R, F: FnOnce(RuntimeId, I, Arc<D>, Arc<N>) -> R>(&self, new_inbound: F) -> (result:
        R)
        requires
            forall|inbound: I| #[trigger]
                cloned(self.inbound, inbound) ==> call_requires(
                    new_inbound,
                    (self.rt_id, inbound, self.dispatcher, self.nat_manager),
                ),
        ensures
            exists|inbound: I| #[trigger]
                cloned(self.inbound, inbound) && call_ensures(
                    new_inbound,
                    (self.rt_id, inbound, self.dispatcher, self.nat_manager),
                    result,
                ),
    {
        let inbound = self.inbound.clone();
        assert(cloned(self.inbound, inbound));
        new_inbound(self.rt_id, inbound, share(&self.dispatcher), share(&self.nat_manager))
    }
}

/// What a listener gives back is what the constructor gives for the listener's own runtime, a copy
/// of its configuration, and its own dispatcher and address table.
pub proof fn law_listener_hands_its_parts_on<
    I: Clone,
    D,
    N,
    R,
    F: FnOnce(RuntimeId, I, Arc<D>, Arc<N>) -> R,
>(
    listener: TunInboundListener<I, D, N>,
    new_inbound: F,
    result: R,
    fits: spec_fn(RuntimeId, I, Arc<D>, Arc<N>, R) -> bool,
)
    requires
        call_ensures(
            TunInboundListener::<I, D, N>::listen::<R, F>,
            (&listener, new_inbound),
            result,
        ),
        forall|rt_id: RuntimeId, inbound: I, dispatcher: Arc<D>, nat_manager: Arc<N>, given: R|
            call_ensures(new_inbound, (rt_id, inbound, dispatcher, nat_manager), given) ==> fits(
                rt_id,
                inbound,
                dispatcher,
                nat_manager,
                given,
            ),
    ensures
        exists|inbound: I| #[trigger]
            cloned(listener.inbound, inbound) && fits(
                listener.rt_id,
                inbound,
                listener.dispatcher,
                listener.nat_manager,
                result,
            ),
{
}

} // verus!
