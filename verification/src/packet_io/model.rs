//! The mathematical model of one tunnel.

use vstd::prelude::*;

use crate::error::TunnelError;
use crate::packet_io::effect::{CallbackGuard, Effect, HandleId, PacketTunnelNotifier};
use crate::packet_io::transport::{PollPhase, PollStep};

verus! {

/// The size of the largest IP packet.
pub const MAX_IP_PACKET_SIZE: usize = 65_535;

/// What one call to read an output packet came to.
#[derive(Clone, Copy, Debug, PartialEq, Eq, Structural)]
pub enum RuntimePacketRead {
    /// No packet is waiting.
    NoData,
    /// The waiting packet has the given size, which the buffer falls short of.
    BufferTooSmall(usize),
    /// A packet of the given size was copied into the buffer.
    Packet(usize),
}

/// The number of bytes in all the packets together.
pub open spec fn total_bytes(packets: Seq<Seq<u8>>) -> nat
    decreases packets.len(),
{
    if packets.len() == 0 {
        0
    } else {
        total_bytes(packets.drop_last()) + packets.last().len()
    }
}

/// The state of one tunnel.
#[verifier::ext_equal]
pub struct TunnelView {
    /// The number that the effects of this tunnel carry.
    pub id: HandleId,
    /// The packets that the host has written and the transport has not taken, oldest first.
    pub input: Seq<Seq<u8>>,
    pub input_queue_limit: nat,
    pub input_byte_limit: nat,
    pub input_ready_notifier: Option<PacketTunnelNotifier>,
    /// Whether the host was refused a packet because of those that are queued, and the queue has
    /// not regained room since. When it does, the callback for input is run, if there is one.
    pub input_refused: bool,
    /// The packets that the transport has sent and the host has not read, oldest first.
    pub output: Seq<Seq<u8>>,
    pub output_queue_limit: nat,
    pub output_byte_limit: nat,
    pub output_ready_notifier: Option<PacketTunnelNotifier>,
    /// The number of guards that have not been handed back.
    pub callbacks_in_flight: nat,
    /// Whether the transport has been taken.
    pub connected: bool,
    pub closed: bool,
}

impl TunnelView {
    /// A tunnel as it is set up: open, unconnected, with empty queues.
    pub open spec fn initial(
        id: HandleId,
        input_queue_limit: nat,
        output_queue_limit: nat,
        input_byte_limit: nat,
        output_byte_limit: nat,
    ) -> TunnelView {
        TunnelView {
            id,
            input: Seq::empty(),
            input_queue_limit,
            input_byte_limit,
            input_ready_notifier: None,
            input_refused: false,
            output: Seq::empty(),
            output_queue_limit,
            output_byte_limit: if output_byte_limit < MAX_IP_PACKET_SIZE {
                MAX_IP_PACKET_SIZE as nat
            } else {
                output_byte_limit
            },
            output_ready_notifier: None,
            callbacks_in_flight: 0,
            connected: false,
            closed: false,
        }
    }

    /// Neither queue is over one of its limits.
    pub open spec fn within_limits(self) -> bool {
        &&& self.input.len() <= self.input_queue_limit
        &&& total_bytes(self.input) <= self.input_byte_limit
        &&& self.output.len() <= self.output_queue_limit
        &&& total_bytes(self.output) <= self.output_byte_limit
    }

    /// `next` may be this tunnel at a later time: it has the same number and limits, and
    /// neither opens again nor gives its transport out again.
    pub open spec fn continues_as(self, next: TunnelView) -> bool {
        &&& next.id == self.id
        &&& next.input_queue_limit == self.input_queue_limit
        &&& next.input_byte_limit == self.input_byte_limit
        &&& next.output_queue_limit == self.output_queue_limit
        &&& next.output_byte_limit == self.output_byte_limit
        &&& self.closed ==> next.closed
        &&& self.connected ==> next.connected
    }

    /// The effect of running a callback of this tunnel.
    pub open spec fn notify(self, notifier: PacketTunnelNotifier) -> Effect {
        Effect::Notify { notifier, guard: CallbackGuard { handle: self.id } }
    }

    /// The effects of running a callback, if there is one.
    pub open spec fn notify_effects(self, notifier: Option<PacketTunnelNotifier>) -> Seq<Effect> {
        match notifier {
            Some(notifier) => seq![self.notify(notifier)],
            None => Seq::empty(),
        }
    }

    /// This tunnel with the guard for a callback given out, if there is one to run.
    pub open spec fn with_callback(self, notifier: Option<PacketTunnelNotifier>) -> TunnelView {
        match notifier {
            Some(_) => TunnelView {
                callbacks_in_flight: self.callbacks_in_flight + 1,
                ..self
            },
            None => self,
        }
    }

    // ---- Input: from the host to the transport ----

    /// The input queue is at one of its limits.
    pub open spec fn input_full(self) -> bool {
        ||| self.input.len() >= self.input_queue_limit
        ||| total_bytes(self.input) >= self.input_byte_limit
    }

    /// Why `packet` is not taken into the input queue; `None` where it is taken.
    pub open spec fn input_refusal(self, packet: Seq<u8>) -> Option<TunnelError> {
        if self.closed {
            Some(TunnelError::Closed)
        } else if self.input.len() >= self.input_queue_limit {
            Some(TunnelError::InputQueueFull)
        } else if total_bytes(self.input) + packet.len() > self.input_byte_limit {
            Some(TunnelError::InputByteLimitExceeded)
        } else {
            None
        }
    }

    /// The tunnel once it was asked to take `packet` into the input queue. That it was refused
    /// for want of room is remembered, unless nothing is queued that could make room.
    pub open spec fn after_push_input(self, packet: Seq<u8>) -> TunnelView {
        match self.input_refusal(packet) {
            None => TunnelView { input: self.input.push(packet), ..self },
            Some(TunnelError::Closed) => self,
            Some(_) => TunnelView {
                input_refused: self.input_refused || self.input.len() > 0,
                ..self
            },
        }
    }

    pub open spec fn push_input_effects(self, packet: Seq<u8>) -> Seq<Effect> {
        if self.input_refusal(packet) is None {
            seq![Effect::WakeInput(self.id)]
        } else {
            Seq::empty()
        }
    }

    /// This tunnel without its oldest input packet.
    pub open spec fn without_first_input(self) -> TunnelView {
        TunnelView { input: self.input.drop_first(), ..self }
    }

    /// The host is to be told that there is room again when the oldest input packet leaves: the
    /// queue was at a limit or too full for a packet of the host, then is at no limit, and the
    /// tunnel is open.
    pub open spec fn pop_regains_room(self) -> bool {
        &&& self.input.len() > 0
        &&& self.input_full() || self.input_refused
        &&& !self.without_first_input().input_full()
        &&& !self.closed
    }

    /// The callback to run when the oldest input packet leaves.
    pub open spec fn pop_input_notifier(self) -> Option<PacketTunnelNotifier> {
        if self.pop_regains_room() {
            self.input_ready_notifier
        } else {
            None
        }
    }

    /// What asking the transport for the next input packet comes to.
    pub open spec fn poll_next_step(self, phase: PollPhase) -> PollStep<Option<Seq<u8>>> {
        if self.input.len() > 0 {
            PollStep::Ready(Some(self.input[0]))
        } else if self.closed {
            PollStep::Ready(None)
        } else {
            match phase {
                PollPhase::Initial => PollStep::Register,
                PollPhase::Registered => PollStep::Pending,
            }
        }
    }

    /// The tunnel once it was asked for its oldest input packet.
    pub open spec fn after_pop_input(self) -> TunnelView {
        if self.input.len() == 0 {
            self
        } else {
            TunnelView {
                input_refused: self.input_refused && !self.pop_regains_room(),
                ..self.without_first_input()
            }.with_callback(self.pop_input_notifier())
        }
    }

    pub open spec fn pop_input_effects(self) -> Seq<Effect> {
        self.notify_effects(self.pop_input_notifier())
    }

    // ---- Output: from the transport to the host ----

    /// The output queue has room for one more packet of any size.
    pub open spec fn output_has_capacity(self) -> bool {
        &&& self.output.len() < self.output_queue_limit
        &&& total_bytes(self.output) + MAX_IP_PACKET_SIZE <= self.output_byte_limit
    }

    /// Why `packet` is not taken into the output queue; `None` where it is taken.
    pub open spec fn output_refusal(self, packet: Seq<u8>) -> Option<TunnelError> {
        if self.closed {
            Some(TunnelError::Closed)
        } else if self.output.len() >= self.output_queue_limit {
            Some(TunnelError::OutputQueueFull)
        } else if total_bytes(self.output) + packet.len() > self.output_byte_limit {
            Some(TunnelError::OutputByteLimitExceeded)
        } else {
            None
        }
    }

    /// The callback to run when `packet` is pushed: the one for output, where the packet is
    /// taken and the queue was empty.
    pub open spec fn push_output_notifier(self, packet: Seq<u8>) -> Option<PacketTunnelNotifier> {
        if self.output_refusal(packet) is None && self.output.len() == 0 {
            self.output_ready_notifier
        } else {
            None
        }
    }

    /// The tunnel once it was asked to take `packet` into the output queue.
    pub open spec fn after_push_output(self, packet: Seq<u8>) -> TunnelView {
        if self.output_refusal(packet) is None {
            TunnelView { output: self.output.push(packet), ..self }.with_callback(
                self.push_output_notifier(packet),
            )
        } else {
            self
        }
    }

    pub open spec fn push_output_effects(self, packet: Seq<u8>) -> Seq<Effect> {
        self.notify_effects(self.push_output_notifier(packet))
    }

    /// Whether a buffer of `capacity` bytes gets the oldest output packet.
    pub open spec fn read_delivers(self, capacity: nat) -> bool {
        self.output.len() > 0 && self.output[0].len() <= capacity
    }

    /// What reading into a buffer of `capacity` bytes comes to.
    pub open spec fn read_result(self, capacity: nat) -> RuntimePacketRead {
        if self.output.len() == 0 {
            RuntimePacketRead::NoData
        } else if self.output[0].len() <= capacity {
            RuntimePacketRead::Packet(self.output[0].len() as usize)
        } else {
            RuntimePacketRead::BufferTooSmall(self.output[0].len() as usize)
        }
    }

    /// What a buffer holds after the read.
    pub open spec fn buffer_after_read(self, buffer: Seq<u8>) -> Seq<u8> {
        if self.read_delivers(buffer.len()) {
            self.output[0] + buffer.skip(self.output[0].len() as int)
        } else {
            buffer
        }
    }

    /// The tunnel after reading into a buffer of `capacity` bytes.
    pub open spec fn after_read_output(self, capacity: nat) -> TunnelView {
        if self.read_delivers(capacity) {
            TunnelView { output: self.output.drop_first(), ..self }
        } else {
            self
        }
    }

    pub open spec fn read_output_effects(self, capacity: nat) -> Seq<Effect> {
        if self.read_delivers(capacity) {
            seq![Effect::WakeOutput(self.id)]
        } else {
            Seq::empty()
        }
    }

    // ---- The transport ----

    /// What asking the transport whether it takes another packet comes to.
    pub open spec fn poll_ready_step(self, phase: PollPhase) -> PollStep<Result<(), TunnelError>> {
        match phase {
            PollPhase::Initial => if self.closed {
                PollStep::Ready(Err(TunnelError::Closed))
            } else if self.output_has_capacity() {
                PollStep::Ready(Ok(()))
            } else {
                PollStep::Register
            },
            PollPhase::Registered => if self.output_has_capacity() {
                PollStep::Ready(Ok(()))
            } else if self.closed {
                PollStep::Ready(Err(TunnelError::Closed))
            } else {
                PollStep::Pending
            },
        }
    }

    /// Why the transport does not send `packet`; an empty one it drops without a word.
    pub open spec fn send_refusal(self, packet: Seq<u8>) -> Option<TunnelError> {
        if packet.len() == 0 {
            None
        } else {
            self.output_refusal(packet)
        }
    }

    /// The tunnel once its transport was asked to send `packet`.
    pub open spec fn after_send(self, packet: Seq<u8>) -> TunnelView {
        if packet.len() == 0 {
            self
        } else {
            self.after_push_output(packet)
        }
    }

    pub open spec fn send_effects(self, packet: Seq<u8>) -> Seq<Effect> {
        if packet.len() == 0 {
            Seq::empty()
        } else {
            self.push_output_effects(packet)
        }
    }

    // ---- Callbacks ----

    /// The callback to run when the transport sends `packet`.
    pub open spec fn send_notifier(self, packet: Seq<u8>) -> Option<PacketTunnelNotifier> {
        if packet.len() == 0 {
            None
        } else {
            self.push_output_notifier(packet)
        }
    }

    /// One more guard can be counted.
    pub open spec fn callback_room(self) -> bool {
        self.callbacks_in_flight < usize::MAX
    }

    /// The tunnel after one guard was handed back.
    pub open spec fn after_finish_callback(self) -> TunnelView {
        TunnelView { callbacks_in_flight: (self.callbacks_in_flight - 1) as nat, ..self }
    }

    pub open spec fn finish_callback_effects(self) -> Seq<Effect> {
        if self.callbacks_in_flight == 1 {
            seq![Effect::CallbacksDrained(self.id)]
        } else {
            Seq::empty()
        }
    }

    pub open spec fn after_set_input_notifier(
        self,
        notifier: Option<PacketTunnelNotifier>,
    ) -> TunnelView {
        TunnelView { input_ready_notifier: notifier, ..self }
    }

    /// The callback to run when the output callback is set: the new one, where packets are
    /// waiting already and the tunnel is open.
    pub open spec fn set_output_notifier_now(
        self,
        notifier: Option<PacketTunnelNotifier>,
    ) -> Option<PacketTunnelNotifier> {
        if self.output.len() > 0 && !self.closed {
            notifier
        } else {
            None
        }
    }

    pub open spec fn after_set_output_notifier(
        self,
        notifier: Option<PacketTunnelNotifier>,
    ) -> TunnelView {
        TunnelView { output_ready_notifier: notifier, ..self }.with_callback(
            self.set_output_notifier_now(notifier),
        )
    }

    pub open spec fn set_output_notifier_effects(
        self,
        notifier: Option<PacketTunnelNotifier>,
    ) -> Seq<Effect> {
        self.notify_effects(self.set_output_notifier_now(notifier))
    }

    // ---- Life cycle ----

    /// The tunnel after its transport was taken.
    pub open spec fn after_connect(self) -> TunnelView {
        TunnelView { connected: true, ..self }
    }

    /// The tunnel after it was closed: the packets stay, the callbacks are forgotten.
    pub open spec fn after_close(self) -> TunnelView {
        TunnelView {
            closed: true,
            input_ready_notifier: None,
            output_ready_notifier: None,
            ..self
        }
    }

    pub open spec fn close_effects(self) -> Seq<Effect> {
        seq![
            Effect::WaitForCallbacks(self.id),
            Effect::WakeInput(self.id),
            Effect::WakeOutput(self.id),
        ]
    }
}

/// Removing the first packet takes its bytes off the total.
pub proof fn lemma_total_bytes_drop_first(packets: Seq<Seq<u8>>)
    requires
        packets.len() > 0,
    ensures
        total_bytes(packets) == packets[0].len() + total_bytes(packets.drop_first()),
    decreases packets.len(),
{
    if packets.len() > 1 {
        lemma_total_bytes_drop_first(packets.drop_last());
        assert(packets.drop_last().drop_first() =~= packets.drop_first().drop_last());
        assert(packets.drop_first().last() == packets.last());
    } else {
        assert(packets.drop_first() =~= Seq::empty());
        assert(packets.drop_last() =~= Seq::empty());
    }
}

/// Adding a packet at the end adds its bytes to the total.
pub proof fn lemma_total_bytes_push(packets: Seq<Seq<u8>>, packet: Seq<u8>)
    ensures
        total_bytes(packets.push(packet)) == total_bytes(packets) + packet.len(),
{
    assert(packets.push(packet).drop_last() =~= packets);
}

} // verus!
