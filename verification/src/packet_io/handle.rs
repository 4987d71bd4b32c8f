//! One tunnel: two bounded packet queues and the callbacks of the host.

use std::collections::VecDeque;

use vstd::prelude::*;

use crate::error::TunnelError;
use crate::packet_io::effect::{CallbackGuard, Effect, HandleId, PacketTunnelNotifier};
use crate::packet_io::model::{
    lemma_total_bytes_drop_first, lemma_total_bytes_push, total_bytes, RuntimePacketRead,
    TunnelView, MAX_IP_PACKET_SIZE,
};
use crate::packet_io::transport::PacketTunnelTransport;

verus! {

/// The packets for the host. The oldest may have been moved to `pending` by a read whose
/// buffer was too small for it.
struct OutputState {
    queue: VecDeque<Vec<u8>>,
    pending: Option<Vec<u8>>,
}

/// The contents of the packets.
spec fn packets(queue: Seq<Vec<u8>>) -> Seq<Seq<u8>> {
    queue.map_values(|packet: Vec<u8>| packet@)
}

impl OutputState {
    /// The packets in the order in which the host reads them.
    spec fn packets(self) -> Seq<Seq<u8>> {
        match self.pending {
            Some(packet) => seq![packet@] + packets(self.queue@),
            None => packets(self.queue@),
        }
    }
}

/// One tunnel.
pub struct PacketTunnelHandle {
    id: HandleId,
    input_queue: VecDeque<Vec<u8>>,
    input_ready_notifier: Option<PacketTunnelNotifier>,
    input_refused: bool,
    input_queue_limit: usize,
    input_queued_bytes: usize,
    input_byte_limit: usize,
    output_state: OutputState,
    output_ready_notifier: Option<PacketTunnelNotifier>,
    output_queue_limit: usize,
    output_queued_bytes: usize,
    output_byte_limit: usize,
    callbacks_in_flight: usize,
    connected: bool,
    closed: bool,
}

impl View for PacketTunnelHandle {
    type V = TunnelView;

    closed spec fn view(&self) -> TunnelView {
        TunnelView {
            id: self.id,
            input: packets(self.input_queue@),
            input_queue_limit: self.input_queue_limit as nat,
            input_byte_limit: self.input_byte_limit as nat,
            input_ready_notifier: self.input_ready_notifier,
            input_refused: self.input_refused,
            output: self.output_state.packets(),
            output_queue_limit: self.output_queue_limit as nat,
            output_byte_limit: self.output_byte_limit as nat,
            output_ready_notifier: self.output_ready_notifier,
            callbacks_in_flight: self.callbacks_in_flight as nat,
            connected: self.connected,
            closed: self.closed,
        }
    }
}

impl PacketTunnelHandle {
    /// The byte counters are exact, and neither queue is over one of its limits.
    pub closed spec fn wf(&self) -> bool {
        &&& self.input_queued_bytes == total_bytes(self@.input)
        &&& self.output_queued_bytes == total_bytes(self@.output)
        &&& self@.within_limits()
    }

    /// The limits, as far as the invariant speaks of them, and that they are machine numbers.
    pub proof fn lemma_within_limits(&self)
        requires
            self.wf(),
        ensures
            self@.within_limits(),
            self@.input_queue_limit <= usize::MAX,
            self@.input_byte_limit <= usize::MAX,
            self@.output_queue_limit <= usize::MAX,
            self@.output_byte_limit <= usize::MAX,
    {
    }

    /// Sets up a tunnel. The output queue always has room for one packet of the largest size.
    pub fn new(
        input_queue_limit: usize,
        output_queue_limit: usize,
        input_byte_limit: usize,
        output_byte_limit: usize,
    ) -> (handle: Self)
        ensures
            handle.wf(),
            handle@ == TunnelView::initial(
                0,
                input_queue_limit as nat,
                output_queue_limit as nat,
                input_byte_limit as nat,
                output_byte_limit as nat,
            ),
    {
        let handle = PacketTunnelHandle {
            id: 0,
            input_queue: VecDeque::new(),
            input_ready_notifier: None,
            input_refused: false,
            input_queue_limit,
            input_queued_bytes: 0,
            input_byte_limit,
            output_state: OutputState { queue: VecDeque::new(), pending: None },
            output_ready_notifier: None,
            output_queue_limit,
            output_queued_bytes: 0,
            output_byte_limit: if output_byte_limit < MAX_IP_PACKET_SIZE {
                MAX_IP_PACKET_SIZE
            } else {
                output_byte_limit
            },
            callbacks_in_flight: 0,
            connected: false,
            closed: false,
        };
        assert(handle@.input =~= Seq::empty());
        assert(handle@.output =~= Seq::empty());
        handle
    }

    /// Gives the tunnel the number that its effects carry.
    pub(crate) fn with_id(self, id: HandleId) -> (handle: Self)
        requires
            self.wf(),
        ensures
            handle.wf(),
            handle@ == (TunnelView { id, ..self@ }),
    {
        PacketTunnelHandle { id, ..self }
    }

    /// Takes the transport, which a tunnel has only one of.
    pub fn take_transport(&mut self) -> (result: Result<PacketTunnelTransport, TunnelError>)
        requires
            old(self).wf(),
        ensures
            final(self).wf(),
            final(self)@ == old(self)@.after_connect(),
            match result {
                Ok(transport) => !old(self)@.connected && transport.handle == old(self)@.id,
                Err(e) => old(self)@.connected && e == TunnelError::AlreadyConnected,
            },
    {
        if self.connected {
            return Err(TunnelError::AlreadyConnected);
        }
        self.connected = true;
        Ok(PacketTunnelTransport { handle: self.id })
    }

    /// Whether the tunnel has been closed.
    pub fn is_closed(&self) -> (closed: bool)
        ensures
            closed == self@.closed,
    {
        self.closed
    }

    /// The number of callbacks that have not returned.
    pub fn callbacks_in_flight(&self) -> (count: usize)
        ensures
            count == self@.callbacks_in_flight,
    {
        self.callbacks_in_flight
    }

    /// Gives out the guard for one callback; a closed tunnel gives out none.
    pub fn begin_callback(&mut self) -> (guard: Option<CallbackGuard>)
        requires
            old(self).wf(),
            !old(self)@.closed ==> old(self)@.callback_room(),
        ensures
            final(self).wf(),
            match guard {
                Some(guard) => {
                    &&& !old(self)@.closed
                    &&& guard == (CallbackGuard { handle: old(self)@.id })
                    &&& final(self)@ == (TunnelView {
                        callbacks_in_flight: old(self)@.callbacks_in_flight + 1,
                        ..old(self)@
                    })
                },
                None => old(self)@.closed && final(self)@ == old(self)@,
            },
    {
        if self.closed {
            return None;
        }
        self.callbacks_in_flight = self.callbacks_in_flight + 1;
        Some(CallbackGuard { handle: self.id })
    }

    /// Takes a guard back. With the last one, those that wait for the callbacks go on.
    pub fn finish_callback(&mut self, guard: CallbackGuard, effects: &mut Vec<Effect>)
        requires
            old(self).wf(),
            old(self)@.callbacks_in_flight > 0,
            guard.handle == old(self)@.id,
        ensures
            final(self).wf(),
            final(self)@ == old(self)@.after_finish_callback(),
            final(effects)@ == old(effects)@ + old(self)@.finish_callback_effects(),
    {
        self.callbacks_in_flight = self.callbacks_in_flight - 1;
        if self.callbacks_in_flight == 0 {
            effects.push(Effect::CallbacksDrained(guard.handle));
        }
    }

    /// Takes the oldest input packet. Where the queue was at a limit, or the host was refused a
    /// packet because of those that are queued, and the queue is at no limit then, the host is
    /// called back, if it has set a callback.
    pub fn pop_input_packet(&mut self, effects: &mut Vec<Effect>) -> (packet: Option<Vec<u8>>)
        requires
            old(self).wf(),
            old(self)@.pop_input_notifier() is Some ==> old(self)@.callback_room(),
        ensures
            final(self).wf(),
            final(self)@ == old(self)@.after_pop_input(),
            final(effects)@ == old(effects)@ + old(self)@.pop_input_effects(),
            match packet {
                Some(packet) => old(self)@.input.len() > 0 && packet@ == old(self)@.input[0],
                None => old(self)@.input.len() == 0,
            },
    {
        let was_count_full = self.input_queue.len() >= self.input_queue_limit;
        let was_byte_full = self.input_queued_bytes >= self.input_byte_limit;
        let was_full = was_count_full || was_byte_full || self.input_refused;
        let packet = match self.input_queue.pop_front() {
            None => {
                return None;
            },
            Some(packet) => packet,
        };
        proof {
            lemma_total_bytes_drop_first(old(self)@.input);
            assert(packets(self.input_queue@) =~= old(self)@.input.drop_first());
        }
        self.input_queued_bytes = self.input_queued_bytes - packet.len();
        let now_count_full = self.input_queue.len() >= self.input_queue_limit;
        let now_byte_full = self.input_queued_bytes >= self.input_byte_limit;
        if was_full && !(now_count_full || now_byte_full) && !self.closed {
            self.input_refused = false;
            if let Some(notifier) = self.input_ready_notifier {
                if let Some(guard) = self.begin_callback() {
                    effects.push(Effect::Notify { notifier, guard });
                }
            }
        }
        Some(packet)
    }

    /// Takes a packet of the host into the input queue and wakes the task that waits for it. A
    /// refusal for want of room is remembered until the queue regains room, unless nothing is
    /// queued.
    pub fn push_input_packet(
        &mut self,
        packet: Vec<u8>,
        effects: &mut Vec<Effect>,
    ) -> (result: Result<(), TunnelError>)
        requires
            old(self).wf(),
        ensures
            final(self).wf(),
            final(self)@ == old(self)@.after_push_input(packet@),
            final(effects)@ == old(effects)@ + old(self)@.push_input_effects(packet@),
            match result {
                Ok(_) => old(self)@.input_refusal(packet@) is None,
                Err(e) => old(self)@.input_refusal(packet@) == Some(e),
            },
    {
        if self.closed {
            return Err(TunnelError::Closed);
        }
        if self.input_queue.len() >= self.input_queue_limit {
            self.input_refused = self.input_refused || self.input_queue.len() > 0;
            return Err(TunnelError::InputQueueFull);
        }
        if packet.len() > self.input_byte_limit - self.input_queued_bytes {
            self.input_refused = self.input_refused || self.input_queue.len() > 0;
            return Err(TunnelError::InputByteLimitExceeded);
        }
        self.input_queued_bytes = self.input_queued_bytes + packet.len();
        self.input_queue.push_back(packet);
        proof {
            lemma_total_bytes_push(old(self)@.input, packet@);
            assert(packets(self.input_queue@) =~= old(self)@.input.push(packet@));
        }
        effects.push(Effect::WakeInput(self.id));
        Ok(())
    }

    /// Sets or clears the callback for room in the input queue.
    pub fn set_input_ready_notifier(&mut self, notifier: Option<PacketTunnelNotifier>)
        requires
            old(self).wf(),
        ensures
            final(self).wf(),
            final(self)@ == old(self)@.after_set_input_notifier(notifier),
    {
        self.input_ready_notifier = notifier;
    }

    /// The number of packets that wait for the host.
    fn output_len(&self) -> (len: usize)
        requires
            self.wf(),
        ensures
            len == self@.output.len(),
    {
        if self.output_state.pending.is_some() {
            self.output_state.queue.len() + 1
        } else {
            self.output_state.queue.len()
        }
    }

    /// Whether the output queue takes one more packet, whatever its size as an IP packet.
    pub fn output_has_capacity(&self) -> (ready: bool)
        requires
            self.wf(),
        ensures
            ready == self@.output_has_capacity(),
    {
        let count_ok = self.output_len() < self.output_queue_limit;
        let byte_ok = self.output_byte_limit - self.output_queued_bytes >= MAX_IP_PACKET_SIZE;
        count_ok && byte_ok
    }

    /// Takes a packet of the transport into the output queue. Where the queue was empty, the
    /// host is called back.
    pub fn push_output_packet(
        &mut self,
        item: Vec<u8>,
        effects: &mut Vec<Effect>,
    ) -> (result: Result<(), TunnelError>)
        requires
            old(self).wf(),
            old(self)@.push_output_notifier(item@) is Some ==> old(self)@.callback_room(),
        ensures
            final(self).wf(),
            final(self)@ == old(self)@.after_push_output(item@),
            final(effects)@ == old(effects)@ + old(self)@.push_output_effects(item@),
            match result {
                Ok(_) => old(self)@.output_refusal(item@) is None,
                Err(e) => old(self)@.output_refusal(item@) == Some(e),
            },
    {
        if self.closed {
            return Err(TunnelError::Closed);
        }
        let queued = self.output_len();
        if queued >= self.output_queue_limit {
            return Err(TunnelError::OutputQueueFull);
        }
        if item.len() > self.output_byte_limit - self.output_queued_bytes {
            return Err(TunnelError::OutputByteLimitExceeded);
        }
        self.output_queued_bytes = self.output_queued_bytes + item.len();
        self.output_state.queue.push_back(item);
        proof {
            lemma_total_bytes_push(old(self)@.output, item@);
            assert(self.output_state.packets() =~= old(self)@.output.push(item@));
        }
        if queued == 0 {
            if let Some(notifier) = self.output_ready_notifier {
                if let Some(guard) = self.begin_callback() {
                    effects.push(Effect::Notify { notifier, guard });
                }
            }
        }
        Ok(())
    }

    /// Sets or clears the callback for waiting output packets. Where packets are waiting
    /// already, the new callback is run at once.
    pub fn set_output_ready_notifier(
        &mut self,
        notifier: Option<PacketTunnelNotifier>,
        effects: &mut Vec<Effect>,
    )
        requires
            old(self).wf(),
            old(self)@.set_output_notifier_now(notifier) is Some ==> old(self)@.callback_room(),
        ensures
            final(self).wf(),
            final(self)@ == old(self)@.after_set_output_notifier(notifier),
            final(effects)@ == old(effects)@ + old(self)@.set_output_notifier_effects(notifier),
    {
        self.output_ready_notifier = notifier;
        if let Some(notifier) = notifier {
            if self.has_output_ready() {
                if let Some(guard) = self.begin_callback() {
                    effects.push(Effect::Notify { notifier, guard });
                }
            }
        }
    }

    /// Whether a packet waits for the host.
    pub fn has_output_ready(&self) -> (ready: bool)
        requires
            self.wf(),
        ensures
            ready == (self@.output.len() > 0),
    {
        self.output_len() > 0
    }

    /// Copies the oldest output packet to the front of `buffer` and removes it; a packet that
    /// does not fit stays where it is.
    pub fn read_output_packet(
        &mut self,
        buffer: &mut [u8],
        effects: &mut Vec<Effect>,
    ) -> (result: Result<RuntimePacketRead, TunnelError>)
        requires
            old(self).wf(),
        ensures
            final(self).wf(),
            result == Ok::<_, TunnelError>(old(self)@.read_result(old(buffer)@.len())),
            final(self)@ == old(self)@.after_read_output(old(buffer)@.len()),
            final(buffer)@ == old(self)@.buffer_after_read(old(buffer)@),
            final(effects)@ == old(effects)@ + old(self)@.read_output_effects(old(buffer)@.len()),
    {
        if self.output_state.pending.is_none() {
            self.output_state.pending = self.output_state.queue.pop_front();
        }
        proof {
            assert(self.output_state.packets() =~= old(self)@.output);
        }
        let packet = match self.output_state.pending.take() {
            None => {
                return Ok(RuntimePacketRead::NoData);
            },
            Some(packet) => packet,
        };
        let len = packet.len();
        if buffer.len() < len {
            self.output_state.pending = Some(packet);
            return Ok(RuntimePacketRead::BufferTooSmall(len));
        }
        copy_to_front(packet.as_slice(), buffer);
        proof {
            lemma_total_bytes_drop_first(old(self)@.output);
            assert(self.output_state.packets() =~= old(self)@.output.drop_first());
        }
        self.output_queued_bytes = self.output_queued_bytes - len;
        effects.push(Effect::WakeOutput(self.id));
        Ok(RuntimePacketRead::Packet(len))
    }

    /// Closes the tunnel: no packet is taken any more, the callbacks are forgotten, and once
    /// those under way have returned both tasks of the transport are woken.
    pub fn close(&mut self, effects: &mut Vec<Effect>)
        requires
            old(self).wf(),
        ensures
            final(self).wf(),
            final(self)@ == old(self)@.after_close(),
            final(effects)@ == old(effects)@ + old(self)@.close_effects(),
    {
        self.closed = true;
        self.input_ready_notifier = None;
        self.output_ready_notifier = None;
        effects.push(Effect::WaitForCallbacks(self.id));
        effects.push(Effect::WakeInput(self.id));
        effects.push(Effect::WakeOutput(self.id));
    }
}

/// Copies `source` to the front of `target`.
fn copy_to_front(source: &[u8], target: &mut [u8])
    requires
        source@.len() <= old(target)@.len(),
    ensures
        final(target)@ == source@ + old(target)@.skip(source@.len() as int),
{
    let mut i: usize = 0;
    while i < source.len()
        invariant
            i <= source@.len() <= old(target)@.len(),
            target@ == source@.take(i as int) + old(target)@.skip(i as int),
        decreases source@.len() - i,
    {
        target[i] = source[i];
        i = i + 1;
        assert(target@ =~= source@.take(i as int) + old(target)@.skip(i as int));
    }
}

} // verus!
