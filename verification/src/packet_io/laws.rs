//! What holds of a tunnel whatever is done to it, and in whatever order.

use vstd::prelude::*;

use crate::error::TunnelError;
use crate::packet_io::effect::{Effect, PacketTunnelNotifier};
use crate::packet_io::model::{
    lemma_total_bytes_drop_first, lemma_total_bytes_push, total_bytes, RuntimePacketRead,
    TunnelView, MAX_IP_PACKET_SIZE,
};
use crate::packet_io::transport::{PollPhase, PollStep};

verus! {

/// One thing that the host or the transport does to a tunnel.
pub enum TunnelOp {
    /// The host writes a packet.
    Write(Seq<u8>),
    /// The transport takes the oldest input packet.
    Next,
    /// The transport sends a packet.
    Send(Seq<u8>),
    /// The host reads into a buffer of this size.
    Read(nat),
    SetInputNotifier(Option<PacketTunnelNotifier>),
    SetOutputNotifier(Option<PacketTunnelNotifier>),
    /// A callback has returned.
    FinishCallback,
    Connect,
    Close,
}

/// The number of callbacks that the effects ask for.
pub open spec fn notify_count(effects: Seq<Effect>) -> nat
    decreases effects.len(),
{
    if effects.len() == 0 {
        0
    } else {
        notify_count(effects.drop_last()) + if effects.last() is Notify {
            1nat
        } else {
            0nat
        }
    }
}

impl TunnelView {
    /// The tunnel after `op`.
    pub open spec fn step(self, op: TunnelOp) -> TunnelView {
        match op {
            TunnelOp::Write(packet) => self.after_push_input(packet),
            TunnelOp::Next => self.after_pop_input(),
            TunnelOp::Send(packet) => self.after_send(packet),
            TunnelOp::Read(capacity) => self.after_read_output(capacity),
            TunnelOp::SetInputNotifier(notifier) => self.after_set_input_notifier(notifier),
            TunnelOp::SetOutputNotifier(notifier) => self.after_set_output_notifier(notifier),
            TunnelOp::FinishCallback => if self.callbacks_in_flight > 0 {
                self.after_finish_callback()
            } else {
                self
            },
            TunnelOp::Connect => self.after_connect(),
            TunnelOp::Close => self.after_close(),
        }
    }

    /// The effects of `op`.
    pub open spec fn step_effects(self, op: TunnelOp) -> Seq<Effect> {
        match op {
            TunnelOp::Write(packet) => self.push_input_effects(packet),
            TunnelOp::Next => self.pop_input_effects(),
            TunnelOp::Send(packet) => self.send_effects(packet),
            TunnelOp::Read(capacity) => self.read_output_effects(capacity),
            TunnelOp::SetInputNotifier(_) => Seq::empty(),
            TunnelOp::SetOutputNotifier(notifier) => self.set_output_notifier_effects(notifier),
            TunnelOp::FinishCallback => if self.callbacks_in_flight > 0 {
                self.finish_callback_effects()
            } else {
                Seq::empty()
            },
            TunnelOp::Connect => Seq::empty(),
            TunnelOp::Close => self.close_effects(),
        }
    }

    /// The tunnel after all of `ops`.
    pub open spec fn run(self, ops: Seq<TunnelOp>) -> TunnelView
        decreases ops.len(),
    {
        if ops.len() == 0 {
            self
        } else {
            self.step(ops[0]).run(ops.drop_first())
        }
    }

    /// The effects of all of `ops`.
    pub open spec fn run_effects(self, ops: Seq<TunnelOp>) -> Seq<Effect>
        decreases ops.len(),
    {
        if ops.len() == 0 {
            Seq::empty()
        } else {
            self.step_effects(ops[0]) + self.step(ops[0]).run_effects(ops.drop_first())
        }
    }

    /// The packets of the host that were taken in the course of `ops`.
    pub open spec fn accepted_input(self, ops: Seq<TunnelOp>) -> Seq<Seq<u8>>
        decreases ops.len(),
    {
        if ops.len() == 0 {
            Seq::empty()
        } else {
            let first: Seq<Seq<u8>> = match ops[0] {
                TunnelOp::Write(packet) => if self.input_refusal(packet) is None {
                    seq![packet]
                } else {
                    Seq::empty()
                },
                _ => Seq::empty(),
            };
            first + self.step(ops[0]).accepted_input(ops.drop_first())
        }
    }

    /// The packets that the transport got in the course of `ops`.
    pub open spec fn delivered_input(self, ops: Seq<TunnelOp>) -> Seq<Seq<u8>>
        decreases ops.len(),
    {
        if ops.len() == 0 {
            Seq::empty()
        } else {
            let first: Seq<Seq<u8>> = if ops[0] is Next && self.input.len() > 0 {
                seq![self.input[0]]
            } else {
                Seq::empty()
            };
            first + self.step(ops[0]).delivered_input(ops.drop_first())
        }
    }

    /// The packets of the transport that were taken in the course of `ops`. An empty packet is
    /// never taken.
    pub open spec fn accepted_output(self, ops: Seq<TunnelOp>) -> Seq<Seq<u8>>
        decreases ops.len(),
    {
        if ops.len() == 0 {
            Seq::empty()
        } else {
            let first: Seq<Seq<u8>> = match ops[0] {
                TunnelOp::Send(packet) => if packet.len() > 0 && self.output_refusal(
                    packet,
                ) is None {
                    seq![packet]
                } else {
                    Seq::empty()
                },
                _ => Seq::empty(),
            };
            first + self.step(ops[0]).accepted_output(ops.drop_first())
        }
    }

    /// The packets that the host got in the course of `ops`.
    pub open spec fn delivered_output(self, ops: Seq<TunnelOp>) -> Seq<Seq<u8>>
        decreases ops.len(),
    {
        if ops.len() == 0 {
            Seq::empty()
        } else {
            let first: Seq<Seq<u8>> = match ops[0] {
                TunnelOp::Read(capacity) => if self.read_delivers(capacity) {
                    seq![self.output[0]]
                } else {
                    Seq::empty()
                },
                _ => Seq::empty(),
            };
            first + self.step(ops[0]).delivered_output(ops.drop_first())
        }
    }

    /// The number of callbacks that returned in the course of `ops`.
    pub open spec fn finished_callbacks(self, ops: Seq<TunnelOp>) -> nat
        decreases ops.len(),
    {
        if ops.len() == 0 {
            0
        } else {
            (if ops[0] is FinishCallback && self.callbacks_in_flight > 0 {
                1nat
            } else {
                0nat
            }) + self.step(ops[0]).finished_callbacks(ops.drop_first())
        }
    }

    /// Each packet for the host is an IP packet in size.
    pub open spec fn output_fits_ip(self) -> bool {
        forall|i: int|
            0 <= i < self.output.len() ==> 0 < #[trigger] self.output[i].len() <= MAX_IP_PACKET_SIZE
    }
}

/// The transport gets the packets that were taken from the host, each once, unchanged and in
/// the order in which they were written; those it has not got yet are still queued.
pub proof fn law_input_is_delivered_in_order(tunnel: TunnelView, ops: Seq<TunnelOp>)
    ensures
        tunnel.input + tunnel.accepted_input(ops) == tunnel.delivered_input(ops) + tunnel.run(
            ops,
        ).input,
    decreases ops.len(),
{
    if ops.len() > 0 {
        let next = tunnel.step(ops[0]);
        law_input_is_delivered_in_order(next, ops.drop_first());
        let rest_in = next.accepted_input(ops.drop_first());
        let rest_out = next.delivered_input(ops.drop_first());
        let end = tunnel.run(ops).input;
        assert(next.input + rest_in == rest_out + end);
        match ops[0] {
            TunnelOp::Write(packet) => {
                if tunnel.input_refusal(packet) is None {
                    assert(tunnel.input + (seq![packet] + rest_in) =~= next.input + rest_in);
                }
            },
            TunnelOp::Next => {
                if tunnel.input.len() > 0 {
                    assert(tunnel.input =~= seq![tunnel.input[0]] + next.input);
                    assert(tunnel.input + rest_in =~= seq![tunnel.input[0]] + (next.input
                        + rest_in));
                    assert((seq![tunnel.input[0]] + rest_out) + end =~= seq![tunnel.input[0]] + (
                    rest_out + end));
                }
            },
            _ => {},
        }
    }
}

/// The host gets the packets that were taken from the transport, each once, unchanged and in
/// the order in which they were sent; those it has not got yet are still queued.
pub proof fn law_output_is_delivered_in_order(tunnel: TunnelView, ops: Seq<TunnelOp>)
    ensures
        tunnel.output + tunnel.accepted_output(ops) == tunnel.delivered_output(ops) + tunnel.run(
            ops,
        ).output,
    decreases ops.len(),
{
    if ops.len() > 0 {
        let next = tunnel.step(ops[0]);
        law_output_is_delivered_in_order(next, ops.drop_first());
        let rest_in = next.accepted_output(ops.drop_first());
        let rest_out = next.delivered_output(ops.drop_first());
        let end = tunnel.run(ops).output;
        assert(next.output + rest_in == rest_out + end);
        match ops[0] {
            TunnelOp::Send(packet) => {
                if packet.len() > 0 && tunnel.output_refusal(packet) is None {
                    assert(tunnel.output + (seq![packet] + rest_in) =~= next.output + rest_in);
                }
            },
            TunnelOp::Read(capacity) => {
                if tunnel.read_delivers(capacity) {
                    assert(tunnel.output =~= seq![tunnel.output[0]] + next.output);
                    assert(tunnel.output + rest_in =~= seq![tunnel.output[0]] + (next.output
                        + rest_in));
                    assert((seq![tunnel.output[0]] + rest_out) + end =~= seq![tunnel.output[0]] + (
                    rest_out + end));
                }
            },
            _ => {},
        }
    }
}

/// One operation keeps the queues within their limits.
pub(crate) proof fn lemma_step_within_limits(tunnel: TunnelView, op: TunnelOp)
    requires
        tunnel.within_limits(),
    ensures
        tunnel.step(op).within_limits(),
{
    match op {
        TunnelOp::Write(packet) => lemma_total_bytes_push(tunnel.input, packet),
        TunnelOp::Next => if tunnel.input.len() > 0 {
            lemma_total_bytes_drop_first(tunnel.input);
        },
        TunnelOp::Send(packet) => lemma_total_bytes_push(tunnel.output, packet),
        TunnelOp::Read(_) => if tunnel.output.len() > 0 {
            lemma_total_bytes_drop_first(tunnel.output);
        },
        _ => {},
    }
}

/// What polling for the next input packet gives, after whatever was done to the tunnel: the
/// oldest of the packets that were taken from the host and not yet given out, also from a closed
/// tunnel; with none left, the end of the stream where the tunnel is closed; and otherwise the
/// task has to wait, and is woken by the next packet that is taken from the host and by a close.
pub proof fn law_poll_gives_the_oldest_packet(
    tunnel: TunnelView,
    ops: Seq<TunnelOp>,
    phase: PollPhase,
    packet: Seq<u8>,
)
    ensures
        ({
            let end = tunnel.run(ops);
            let written = tunnel.input + tunnel.accepted_input(ops);
            let given = tunnel.delivered_input(ops).len() as int;
            let step = end.poll_next_step(phase);
            &&& given <= written.len()
            &&& end.input == written.skip(given)
            &&& given < written.len() ==> {
                &&& step == PollStep::Ready(Some(written[given]))
                &&& end.after_pop_input().input == written.skip(given + 1)
            }
            &&& given == written.len() && end.closed ==> step == PollStep::Ready(None::<Seq<u8>>)
            &&& given == written.len() && !end.closed ==> {
                &&& step is Register || step is Pending
                &&& end.input_refusal(packet) is None ==> end.push_input_effects(packet).contains(
                    Effect::WakeInput(end.id),
                )
                &&& end.close_effects().contains(Effect::WakeInput(end.id))
            }
        }),
{
    law_input_is_delivered_in_order(tunnel, ops);
    let end = tunnel.run(ops);
    let written = tunnel.input + tunnel.accepted_input(ops);
    let given = tunnel.delivered_input(ops).len() as int;
    assert(end.input =~= written.skip(given));
    if given < written.len() {
        assert(end.input.drop_first() =~= written.skip(given + 1));
    }
    if end.input_refusal(packet) is None {
        assert(end.push_input_effects(packet)[0] == Effect::WakeInput(end.id));
    }
    assert(end.close_effects()[1] == Effect::WakeInput(end.id));
}

/// Neither queue ever goes over its limits, in packets or in bytes.
pub proof fn law_queues_are_bounded(tunnel: TunnelView, ops: Seq<TunnelOp>)
    requires
        tunnel.within_limits(),
    ensures
        tunnel.run(ops).within_limits(),
    decreases ops.len(),
{
    if ops.len() > 0 {
        lemma_step_within_limits(tunnel, ops[0]);
        law_queues_are_bounded(tunnel.step(ops[0]), ops.drop_first());
    }
}

/// A tunnel keeps its number and its limits, is never opened again, and never forgets that its
/// transport was taken.
pub proof fn law_tunnel_continues(tunnel: TunnelView, ops: Seq<TunnelOp>)
    ensures
        tunnel.continues_as(tunnel.run(ops)),
    decreases ops.len(),
{
    if ops.len() > 0 {
        law_tunnel_continues(tunnel.step(ops[0]), ops.drop_first());
    }
}

/// A host writing packets one after the other.
pub open spec fn writes(packets: Seq<Seq<u8>>) -> Seq<TunnelOp> {
    packets.map_values(|packet: Seq<u8>| TunnelOp::Write(packet))
}

/// An input queue takes as many packets as its limit says, as long as they stay within its bytes:
/// they are all queued, in order, and once the limit is reached the next packet is refused as one
/// too many.
pub proof fn law_queue_takes_as_many_as_its_limit(
    tunnel: TunnelView,
    packets: Seq<Seq<u8>>,
    next: Seq<u8>,
)
    requires
        !tunnel.closed,
        tunnel.input.len() + packets.len() <= tunnel.input_queue_limit,
        total_bytes(tunnel.input) + total_bytes(packets) <= tunnel.input_byte_limit,
    ensures
        tunnel.accepted_input(writes(packets)) == packets,
        tunnel.run(writes(packets)).input == tunnel.input + packets,
        tunnel.input.len() + packets.len() == tunnel.input_queue_limit ==> tunnel.run(
            writes(packets),
        ).input_refusal(next) == Some(TunnelError::InputQueueFull),
    decreases packets.len(),
{
    if packets.len() == 0 {
        assert(tunnel.input + packets =~= tunnel.input);
        assert(tunnel.accepted_input(writes(packets)) =~= packets);
    } else {
        let ops = writes(packets);
        assert(ops[0] == TunnelOp::Write(packets[0]));
        assert(ops.drop_first() =~= writes(packets.drop_first()));
        lemma_total_bytes_drop_first(packets);
        lemma_total_bytes_push(tunnel.input, packets[0]);
        law_queue_takes_as_many_as_its_limit(tunnel.step(ops[0]), packets.drop_first(), next);
        assert(tunnel.input.push(packets[0]) + packets.drop_first() =~= tunnel.input + packets);
        assert(seq![packets[0]] + packets.drop_first() =~= packets);
    }
}

/// The callbacks of two lists of effects add up.
proof fn lemma_notify_count_add(a: Seq<Effect>, b: Seq<Effect>)
    ensures
        notify_count(a + b) == notify_count(a) + notify_count(b),
    decreases b.len(),
{
    if b.len() == 0 {
        assert(a + b =~= a);
    } else {
        assert((a + b).drop_last() =~= a + b.drop_last());
        lemma_notify_count_add(a, b.drop_last());
    }
}

/// How often one operation asks for a callback.
proof fn lemma_step_notify_count(tunnel: TunnelView, op: TunnelOp)
    ensures
        notify_count(tunnel.step_effects(op)) == match op {
            TunnelOp::Next => if tunnel.pop_input_notifier() is Some {
                1nat
            } else {
                0nat
            },
            TunnelOp::Send(packet) => if packet.len() > 0 && tunnel.push_output_notifier(
                packet,
            ) is Some {
                1nat
            } else {
                0nat
            },
            TunnelOp::SetOutputNotifier(notifier) => if tunnel.set_output_notifier_now(
                notifier,
            ) is Some {
                1nat
            } else {
                0nat
            },
            _ => 0nat,
        },
{
    reveal_with_fuel(notify_count, 4);
    let effects = tunnel.step_effects(op);
    if effects.len() > 0 {
        assert(effects.drop_last() =~= effects.take(effects.len() - 1));
    }
    if op is Close {
        assert(effects.drop_last() =~= seq![effects[0], effects[1]]);
        assert(effects.drop_last().drop_last() =~= seq![effects[0]]);
        assert(effects.drop_last().drop_last().drop_last() =~= Seq::empty());
    } else if effects.len() == 1 {
        assert(effects.drop_last() =~= Seq::empty());
    }
}

/// Once a tunnel is closed, no callback is asked for and no packet is taken any more.
pub proof fn law_closed_is_final(tunnel: TunnelView, ops: Seq<TunnelOp>)
    requires
        tunnel.closed,
    ensures
        notify_count(tunnel.run_effects(ops)) == 0,
        tunnel.accepted_input(ops) == Seq::<Seq<u8>>::empty(),
        tunnel.accepted_output(ops) == Seq::<Seq<u8>>::empty(),
    decreases ops.len(),
{
    if ops.len() > 0 {
        let next = tunnel.step(ops[0]);
        law_closed_is_final(next, ops.drop_first());
        lemma_step_notify_count(tunnel, ops[0]);
        lemma_notify_count_add(tunnel.step_effects(ops[0]), next.run_effects(ops.drop_first()));
    }
}

/// The callbacks that are running are those that were asked for and have not returned.
pub proof fn law_callbacks_are_counted(tunnel: TunnelView, ops: Seq<TunnelOp>)
    ensures
        tunnel.run(ops).callbacks_in_flight + tunnel.finished_callbacks(ops)
            == tunnel.callbacks_in_flight + notify_count(tunnel.run_effects(ops)),
    decreases ops.len(),
{
    if ops.len() > 0 {
        let next = tunnel.step(ops[0]);
        law_callbacks_are_counted(next, ops.drop_first());
        lemma_step_notify_count(tunnel, ops[0]);
        lemma_notify_count_add(tunnel.step_effects(ops[0]), next.run_effects(ops.drop_first()));
    }
}

/// Closing a tunnel again changes nothing.
pub proof fn law_close_is_idempotent(tunnel: TunnelView)
    ensures
        tunnel.after_close().after_close() == tunnel.after_close(),
{
}

/// A closed tunnel keeps its packets, which can still be taken and read.
pub proof fn law_close_keeps_packets(tunnel: TunnelView)
    ensures
        tunnel.after_close().input == tunnel.input,
        tunnel.after_close().output == tunnel.output,
{
}

/// A packet that is refused has no effect and leaves the tunnel as it was, queues, limits and
/// callbacks, but for that an open tunnel with packets queued remembers that its host was
/// refused.
pub proof fn law_refused_packet_changes_nothing(tunnel: TunnelView, packet: Seq<u8>)
    ensures
        tunnel.input_refusal(packet) is Some ==> {
            &&& tunnel.after_push_input(packet) == (TunnelView {
                input_refused: tunnel.input_refused || (!tunnel.closed && tunnel.input.len() > 0),
                ..tunnel
            })
            &&& tunnel.push_input_effects(packet) == Seq::<Effect>::empty()
        },
        tunnel.send_refusal(packet) is Some ==> {
            &&& tunnel.after_send(packet) == tunnel
            &&& tunnel.send_effects(packet) == Seq::<Effect>::empty()
        },
{
}

/// A packet that the host writes into an empty queue is the next one that the transport gets.
pub proof fn law_input_roundtrip(tunnel: TunnelView, packet: Seq<u8>)
    requires
        tunnel.input.len() == 0,
        tunnel.input_refusal(packet) is None,
    ensures
        tunnel.after_push_input(packet).input == seq![packet],
        tunnel.after_push_input(packet).after_pop_input().input == tunnel.input,
{
    assert(tunnel.input.push(packet) =~= seq![packet]);
    assert(seq![packet].drop_first() =~= tunnel.input);
}

/// A packet that the transport sends into an empty queue is the next one that the host reads,
/// at the front of a buffer that is large enough.
pub proof fn law_output_roundtrip(tunnel: TunnelView, packet: Seq<u8>, buffer: Seq<u8>)
    requires
        tunnel.output.len() == 0,
        0 < packet.len() <= buffer.len(),
        tunnel.send_refusal(packet) is None,
    ensures
        ({
            let sent = tunnel.after_send(packet);
            &&& sent.read_result(buffer.len()) == RuntimePacketRead::Packet(packet.len() as usize)
            &&& sent.buffer_after_read(buffer) == packet + buffer.skip(packet.len() as int)
            &&& sent.buffer_after_read(buffer).take(packet.len() as int) == packet
            &&& sent.after_read_output(buffer.len()).output == tunnel.output
        }),
{
    let sent = tunnel.after_send(packet);
    assert(sent.output =~= seq![packet]);
    assert(sent.buffer_after_read(buffer).take(packet.len() as int) =~= packet);
    assert(sent.output.drop_first() =~= tunnel.output);
}

/// A read whose buffer is too small leaves the packet where it is: the host is told its size,
/// and a later read with that much room gets it.
pub proof fn law_short_read_keeps_packet(tunnel: TunnelView, short: nat, enough: nat)
    requires
        tunnel.output.len() > 0,
        short < tunnel.output[0].len() <= enough,
    ensures
        tunnel.read_result(short) == RuntimePacketRead::BufferTooSmall(
            tunnel.output[0].len() as usize,
        ),
        tunnel.after_read_output(short) == tunnel,
        tunnel.after_read_output(short).read_result(enough) == RuntimePacketRead::Packet(
            tunnel.output[0].len() as usize,
        ),
{
}

/// Once the transport was told that it may send, an IP packet that it sends is refused only if
/// the tunnel has been closed, whatever happens in between but another send.
pub proof fn law_ready_transport_can_send(
    tunnel: TunnelView,
    phase: PollPhase,
    ops: Seq<TunnelOp>,
    packet: Seq<u8>,
)
    requires
        tunnel.poll_ready_step(phase) == PollStep::Ready(Ok::<(), TunnelError>(())),
        forall|i: int| 0 <= i < ops.len() ==> !(#[trigger] ops[i] is Send),
        packet.len() <= MAX_IP_PACKET_SIZE,
    ensures
        tunnel.run(ops).output_has_capacity(),
        tunnel.run(ops).send_refusal(packet) is Some ==> tunnel.run(ops).closed,
{
    lemma_capacity_lasts(tunnel, ops);
}

/// Room in the output queue lasts until the transport sends.
proof fn lemma_capacity_lasts(tunnel: TunnelView, ops: Seq<TunnelOp>)
    requires
        tunnel.output_has_capacity(),
        forall|i: int| 0 <= i < ops.len() ==> !(#[trigger] ops[i] is Send),
    ensures
        tunnel.run(ops).output_has_capacity(),
    decreases ops.len(),
{
    if ops.len() > 0 {
        assert(!(ops[0] is Send));
        if ops[0] is Read && tunnel.output.len() > 0 {
            lemma_total_bytes_drop_first(tunnel.output);
        }
        assert forall|i: int| 0 <= i < ops.drop_first().len() implies !(
        #[trigger] ops.drop_first()[i] is Send) by {
            assert(!(ops[i + 1] is Send));
        }
        lemma_capacity_lasts(tunnel.step(ops[0]), ops.drop_first());
    }
}

/// A run of takes by the transport, one after the other.
pub open spec fn takes(n: nat) -> Seq<TunnelOp> {
    Seq::new(n, |i: int| TunnelOp::Next)
}

/// The callback for input is run on the edge: of an open tunnel with such a callback, taking
/// packets runs it once where the queue was at a limit, or the host was refused a packet because
/// of those that were queued, and the queue is at no limit in the end, and otherwise not at all.
pub proof fn law_input_callback_runs_on_the_edge(tunnel: TunnelView, n: nat)
    requires
        !tunnel.closed,
        tunnel.input_ready_notifier is Some,
        n <= tunnel.input.len(),
    ensures
        notify_count(tunnel.run_effects(takes(n))) == if n > 0 && (tunnel.input_full()
            || tunnel.input_refused) && !tunnel.run(takes(n)).input_full() {
            1nat
        } else {
            0nat
        },
    decreases n,
{
    if n > 0 {
        let next = tunnel.step(TunnelOp::Next);
        assert(takes(n)[0] == TunnelOp::Next);
        assert(takes(n).drop_first() =~= takes((n - 1) as nat));
        law_input_callback_runs_on_the_edge(next, (n - 1) as nat);
        lemma_step_notify_count(tunnel, TunnelOp::Next);
        lemma_notify_count_add(
            tunnel.step_effects(TunnelOp::Next),
            next.run_effects(takes((n - 1) as nat)),
        );
        lemma_total_bytes_drop_first(tunnel.input);
        if !next.input_full() {
            lemma_takes_keep_room(next, (n - 1) as nat);
        }
    }
}

/// Taking packets does not fill the queue.
proof fn lemma_takes_keep_room(tunnel: TunnelView, n: nat)
    requires
        !tunnel.input_full(),
        n <= tunnel.input.len(),
    ensures
        !tunnel.run(takes(n)).input_full(),
    decreases n,
{
    if n > 0 {
        assert(takes(n)[0] == TunnelOp::Next);
        assert(takes(n).drop_first() =~= takes((n - 1) as nat));
        lemma_total_bytes_drop_first(tunnel.input);
        lemma_takes_keep_room(tunnel.step(TunnelOp::Next), (n - 1) as nat);
    }
}

/// A host that was refused a packet for want of room is called back: of an open tunnel with a
/// callback for input and something to take, by the time the transport has taken everything the
/// callback has run once, whichever limit the packet was refused for.
pub proof fn law_refused_host_is_called_back(tunnel: TunnelView, packet: Seq<u8>)
    requires
        tunnel.input_refusal(packet) is Some,
        tunnel.input.len() > 0,
        !tunnel.closed,
        tunnel.input_ready_notifier is Some,
        tunnel.input_queue_limit > 0,
        tunnel.input_byte_limit > 0,
    ensures
        notify_count(
            tunnel.after_push_input(packet).run_effects(takes(tunnel.input.len())),
        ) == 1,
{
    let refused = tunnel.after_push_input(packet);
    law_input_callback_runs_on_the_edge(refused, refused.input.len());
    lemma_takes_empty(refused, refused.input.len());
}

/// A refusal is not forgotten: as long as the tunnel is open and has a callback for input, that
/// the host was refused a packet is still remembered or it was called back, whatever happens in
/// the meantime.
pub proof fn law_refusal_is_kept_until_told(tunnel: TunnelView, ops: Seq<TunnelOp>)
    requires
        tunnel.input_refused,
        !tunnel.closed,
        tunnel.input_ready_notifier is Some,
        forall|i: int|
            0 <= i < ops.len() ==> !(#[trigger] ops[i] is Close) && ops[i]
                != TunnelOp::SetInputNotifier(None),
    ensures
        tunnel.run(ops).input_refused || notify_count(tunnel.run_effects(ops)) > 0,
    decreases ops.len(),
{
    if ops.len() > 0 {
        let next = tunnel.step(ops[0]);
        lemma_step_notify_count(tunnel, ops[0]);
        lemma_notify_count_add(tunnel.step_effects(ops[0]), next.run_effects(ops.drop_first()));
        assert(!(ops[0] is Close) && ops[0] != TunnelOp::SetInputNotifier(None));
        if next.input_refused {
            assert forall|i: int| 0 <= i < ops.drop_first().len() implies !(
            #[trigger] ops.drop_first()[i] is Close) && ops.drop_first()[i]
                != TunnelOp::SetInputNotifier(None) by {
                assert(ops.drop_first()[i] == ops[i + 1]);
            }
            law_refusal_is_kept_until_told(next, ops.drop_first());
        }
    }
}

/// Taking as many packets as there are leaves none.
proof fn lemma_takes_empty(tunnel: TunnelView, n: nat)
    requires
        n == tunnel.input.len(),
    ensures
        tunnel.run(takes(n)).input.len() == 0,
        tunnel.run(takes(n)).input_queue_limit == tunnel.input_queue_limit,
        tunnel.run(takes(n)).input_byte_limit == tunnel.input_byte_limit,
    decreases n,
{
    if n > 0 {
        assert(takes(n)[0] == TunnelOp::Next);
        assert(takes(n).drop_first() =~= takes((n - 1) as nat));
        lemma_takes_empty(tunnel.step(TunnelOp::Next), (n - 1) as nat);
    }
}

/// The callback for output is run on the edge: a packet that is taken runs it exactly where the
/// queue was empty. So a host that reads until nothing is left is called back for what comes
/// after that.
pub proof fn law_output_callback_runs_on_the_edge(tunnel: TunnelView, packet: Seq<u8>)
    requires
        packet.len() > 0,
        tunnel.output_refusal(packet) is None,
        tunnel.output_ready_notifier is Some,
    ensures
        notify_count(tunnel.send_effects(packet)) == if tunnel.output.len() == 0 {
            1nat
        } else {
            0nat
        },
{
    lemma_step_notify_count(tunnel, TunnelOp::Send(packet));
}

/// A burst of packets calls the host back once: of an open tunnel with a callback for output,
/// sending packets without a read in between runs it once where it takes the queue from empty to
/// not empty, and otherwise not at all.
pub proof fn law_burst_calls_back_once(tunnel: TunnelView, ops: Seq<TunnelOp>)
    requires
        !tunnel.closed,
        tunnel.output_ready_notifier is Some,
        forall|i: int| 0 <= i < ops.len() ==> #[trigger] ops[i] is Send,
    ensures
        tunnel.output.len() <= tunnel.run(ops).output.len(),
        notify_count(tunnel.run_effects(ops)) == if tunnel.output.len() == 0 && tunnel.run(
            ops,
        ).output.len() > 0 {
            1nat
        } else {
            0nat
        },
    decreases ops.len(),
{
    if ops.len() > 0 {
        let next = tunnel.step(ops[0]);
        assert(ops[0] is Send);
        assert forall|i: int| 0 <= i < ops.drop_first().len() implies (
        #[trigger] ops.drop_first()[i] is Send) by {
            assert(ops[i + 1] is Send);
        }
        law_burst_calls_back_once(next, ops.drop_first());
        lemma_step_notify_count(tunnel, ops[0]);
        lemma_notify_count_add(tunnel.step_effects(ops[0]), next.run_effects(ops.drop_first()));
    }
}

/// Setting a callback for output runs it at once exactly where packets are waiting.
pub proof fn law_late_output_callback_runs_at_once(
    tunnel: TunnelView,
    notifier: PacketTunnelNotifier,
)
    requires
        !tunnel.closed,
    ensures
        tunnel.set_output_notifier_effects(Some(notifier)) == if tunnel.output.len() > 0 {
            seq![tunnel.notify(notifier)]
        } else {
            Seq::<Effect>::empty()
        },
{
}

/// A buffer of the size of the largest IP packet is enough for every read, as long as the
/// transport sends only IP packets. A read without room then tells the size of the oldest
/// packet and leaves it.
pub proof fn law_scratch_buffer_suffices(tunnel: TunnelView, ops: Seq<TunnelOp>)
    requires
        tunnel.output_fits_ip(),
        forall|i: int|
            0 <= i < ops.len() ==> (#[trigger] ops[i] matches TunnelOp::Send(packet)
                ==> packet.len() <= MAX_IP_PACKET_SIZE),
    ensures
        ({
            let end = tunnel.run(ops);
            &&& end.output_fits_ip()
            &&& !(end.read_result(MAX_IP_PACKET_SIZE as nat) is BufferTooSmall)
            &&& end.output.len() > 0 ==> {
                &&& end.read_result(0) == RuntimePacketRead::BufferTooSmall(
                    end.output[0].len() as usize,
                )
                &&& end.after_read_output(0) == end
            }
        }),
    decreases ops.len(),
{
    if ops.len() > 0 {
        let next = tunnel.step(ops[0]);
        assert(next.output_fits_ip());
        assert forall|i: int| 0 <= i < ops.drop_first().len() implies (
        #[trigger] ops.drop_first()[i] matches TunnelOp::Send(packet) ==> packet.len()
            <= MAX_IP_PACKET_SIZE) by {
            assert(ops.drop_first()[i] == ops[i + 1]);
        }
        law_scratch_buffer_suffices(next, ops.drop_first());
    }
}

/// A run of reads by the host, one after the other, into buffers of the same size.
pub open spec fn reads(n: nat, capacity: nat) -> Seq<TunnelOp> {
    Seq::new(n, |i: int| TunnelOp::Read(capacity))
}

/// A host that reads until it is told that nothing is left has got every packet that was
/// waiting, in order.
pub proof fn law_draining_empties_the_output(tunnel: TunnelView, capacity: nat)
    requires
        forall|i: int|
            0 <= i < tunnel.output.len() ==> #[trigger] tunnel.output[i].len() <= capacity,
    ensures
        ({
            let drain = reads(tunnel.output.len(), capacity);
            &&& tunnel.delivered_output(drain) == tunnel.output
            &&& tunnel.run(drain).read_result(capacity) == RuntimePacketRead::NoData
        }),
    decreases tunnel.output.len(),
{
    let drain = reads(tunnel.output.len(), capacity);
    if tunnel.output.len() > 0 {
        let next = tunnel.step(TunnelOp::Read(capacity));
        assert(drain[0] == TunnelOp::Read(capacity));
        assert(drain.drop_first() =~= reads(next.output.len(), capacity));
        law_draining_empties_the_output(next, capacity);
        assert(tunnel.output =~= seq![tunnel.output[0]] + next.output);
    }
}

} // verus!
