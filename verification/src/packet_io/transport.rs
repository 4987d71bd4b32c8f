//! The side of a tunnel that the network stack holds.

use vstd::prelude::*;

use crate::error::TunnelError;
use crate::packet_io::effect::{Effect, HandleId};
use crate::packet_io::handle::PacketTunnelHandle;

verus! {

/// The transport of a tunnel: a stream of input packets and a sink of output packets.
#[derive(Debug, PartialEq, Eq, Structural)]
pub struct PacketTunnelTransport {
    pub handle: HandleId,
}

/// How far a task has come in polling.
#[derive(Clone, Copy, Debug, PartialEq, Eq, Structural)]
pub enum PollPhase {
    /// Nothing has been registered to wake the task.
    Initial,
    /// The task's waker has been registered, so that it can be told to wait.
    Registered,
}

/// What one step of polling came to.
#[derive(Debug, PartialEq, Eq, Structural)]
pub enum PollStep<T> {
    /// The poll is over, with this outcome.
    Ready(T),
    /// The task's waker has to be registered before the next step.
    Register,
    /// The task has to wait to be woken.
    Pending,
}

impl PacketTunnelHandle {
    /// Polls for the next input packet. A closed tunnel first hands out what it still holds.
    pub fn poll_next(&mut self, phase: PollPhase, effects: &mut Vec<Effect>) -> (step: PollStep<
        Option<Vec<u8>>,
    >)
        requires
            old(self).wf(),
            old(self)@.pop_input_notifier() is Some ==> old(self)@.callback_room(),
        ensures
            final(self).wf(),
            final(self)@ == old(self)@.after_pop_input(),
            final(effects)@ == old(effects)@ + old(self)@.pop_input_effects(),
            match step {
                PollStep::Ready(Some(packet)) => old(self)@.poll_next_step(phase)
                    == PollStep::Ready(Some(packet@)),
                PollStep::Ready(None) => old(self)@.poll_next_step(phase) == PollStep::Ready(
                    None::<Seq<u8>>,
                ),
                PollStep::Register => old(self)@.poll_next_step(phase) is Register,
                PollStep::Pending => old(self)@.poll_next_step(phase) is Pending,
            },
    {
        if let Some(packet) = self.pop_input_packet(effects) {
            return PollStep::Ready(Some(packet));
        }
        if self.is_closed() {
            return PollStep::Ready(None);
        }
        match phase {
            PollPhase::Initial => PollStep::Register,
            PollPhase::Registered => PollStep::Pending,
        }
    }

    /// Polls for room in the output queue.
    pub fn poll_ready(&self, phase: PollPhase) -> (step: PollStep<Result<(), TunnelError>>)
        requires
            self.wf(),
        ensures
            step == self@.poll_ready_step(phase),
    {
        match phase {
            PollPhase::Initial => {
                if self.is_closed() {
                    return PollStep::Ready(Err(TunnelError::Closed));
                }
                if self.output_has_capacity() {
                    return PollStep::Ready(Ok(()));
                }
                PollStep::Register
            },
            PollPhase::Registered => {
                if self.output_has_capacity() {
                    return PollStep::Ready(Ok(()));
                }
                if self.is_closed() {
                    return PollStep::Ready(Err(TunnelError::Closed));
                }
                PollStep::Pending
            },
        }
    }

    /// Sends a packet to the host; an empty one is dropped.
    pub fn start_send(&mut self, item: Vec<u8>, effects: &mut Vec<Effect>) -> (result: Result<
        (),
        TunnelError,
    >)
        requires
            old(self).wf(),
            old(self)@.send_notifier(item@) is Some ==> old(self)@.callback_room(),
        ensures
            final(self).wf(),
            final(self)@ == old(self)@.after_send(item@),
            final(effects)@ == old(effects)@ + old(self)@.send_effects(item@),
            match result {
                Ok(_) => old(self)@.send_refusal(item@) is None,
                Err(e) => old(self)@.send_refusal(item@) == Some(e),
            },
    {
        if item.is_empty() {
            return Ok(());
        }
        self.push_output_packet(item, effects)
    }

    /// Polls until everything sent has been passed on: a packet is passed on as it is sent.
    pub fn poll_flush(&self) -> (step: PollStep<Result<(), TunnelError>>)
        ensures
            step == PollStep::Ready(Ok::<(), TunnelError>(())),
    {
        PollStep::Ready(Ok(()))
    }

    /// Closes the tunnel from the side of the transport.
    pub fn poll_close(&mut self, effects: &mut Vec<Effect>) -> (step: PollStep<
        Result<(), TunnelError>,
    >)
        requires
            old(self).wf(),
        ensures
            final(self).wf(),
            final(self)@ == old(self)@.after_close(),
            final(effects)@ == old(effects)@ + old(self)@.close_effects(),
            step == PollStep::Ready(Ok::<(), TunnelError>(())),
    {
        self.close(effects);
        PollStep::Ready(Ok(()))
    }
}

} // verus!
