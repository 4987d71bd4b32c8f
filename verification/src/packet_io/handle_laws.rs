//! What each call on one tunnel does, from what it is given to what it hands back.

use vstd::prelude::*;

use crate::error::TunnelError;
use crate::packet_io::effect::{CallbackGuard, Effect, PacketTunnelNotifier, RuntimeId};
use crate::packet_io::handle::PacketTunnelHandle;
use crate::packet_io::model::{
    lemma_total_bytes_drop_first, lemma_total_bytes_push, total_bytes, RuntimePacketRead,
    TunnelView, MAX_IP_PACKET_SIZE,
};
use crate::packet_io::transport::{PacketTunnelTransport, PollPhase, PollStep};

verus! {

/// An IP packet has at most 65535 bytes: what a field of 16 bits can say.
pub proof fn law_largest_packet()
    ensures
        MAX_IP_PACKET_SIZE == u16::MAX,
{
}

/// The size of a queue in bytes is nothing for an empty queue, and each packet adds its own size,
/// at whichever end it is.
pub proof fn law_bytes_add_up(packets: Seq<Seq<u8>>, packet: Seq<u8>)
    ensures
        total_bytes(Seq::empty()) == 0,
        total_bytes(packets.push(packet)) == total_bytes(packets) + packet.len(),
        total_bytes(seq![packet] + packets) == total_bytes(packets) + packet.len(),
{
    lemma_total_bytes_push(packets, packet);
    lemma_total_bytes_drop_first(seq![packet] + packets);
    assert((seq![packet] + packets).drop_first() =~= packets);
}

/// A notifier carries what the host gave.
pub proof fn law_notifier_carries_the_host_values(
    rt_id: RuntimeId,
    context: usize,
    callback: usize,
    notifier: PacketTunnelNotifier,
)
    requires
        call_ensures(PacketTunnelNotifier::new, (rt_id, context, callback), notifier),
    ensures
        notifier.rt_id == rt_id,
        notifier.context == context,
        notifier.callback == callback,
{
}

/// A new tunnel is open, empty and unconnected, and has the limits it was asked to have; only an
/// output byte limit below the largest packet is raised to that.
pub proof fn law_new_tunnel_has_the_limits_asked_for(
    input_queue_limit: usize,
    output_queue_limit: usize,
    input_byte_limit: usize,
    output_byte_limit: usize,
    handle: PacketTunnelHandle,
)
    requires
        call_ensures(
            PacketTunnelHandle::new,
            (input_queue_limit, output_queue_limit, input_byte_limit, output_byte_limit),
            handle,
        ),
    ensures
        handle.wf(),
        handle@.id == 0,
        handle@.input_queue_limit == input_queue_limit,
        handle@.output_queue_limit == output_queue_limit,
        handle@.input_byte_limit == input_byte_limit,
        output_byte_limit >= 65_535 ==> handle@.output_byte_limit == output_byte_limit,
        output_byte_limit < 65_535 ==> handle@.output_byte_limit == 65_535,
        handle@.input.len() == 0,
        handle@.output.len() == 0,
        handle@.input_ready_notifier is None,
        handle@.output_ready_notifier is None,
        handle@.callbacks_in_flight == 0,
        !handle@.input_refused,
        !handle@.connected,
        !handle@.closed,
{
}

/// A tunnel gives its transport out once, under its own number, and nothing else changes.
pub proof fn law_transport_is_given_out_once(
    handle: &mut PacketTunnelHandle,
    result: Result<PacketTunnelTransport, TunnelError>,
)
    requires
        call_ensures(PacketTunnelHandle::take_transport, (handle,), result),
    ensures
        final(handle).wf(),
        result is Ok <==> !old(handle)@.connected,
        result matches Ok(transport) ==> transport.handle == old(handle)@.id,
        result matches Err(e) ==> e == TunnelError::AlreadyConnected,
        final(handle)@ == (TunnelView { connected: true, ..old(handle)@ }),
{
}

/// A tunnel tells whether it is closed, how many of its callbacks are running, and whether a
/// packet waits for the host.
pub proof fn law_tunnel_tells_its_state(
    handle: PacketTunnelHandle,
    closed: bool,
    count: usize,
    ready: bool,
)
    requires
        call_ensures(PacketTunnelHandle::is_closed, (&handle,), closed),
        call_ensures(PacketTunnelHandle::callbacks_in_flight, (&handle,), count),
        call_ensures(PacketTunnelHandle::has_output_ready, (&handle,), ready),
    ensures
        closed == handle@.closed,
        count == handle@.callbacks_in_flight,
        ready <==> handle@.output != Seq::<Seq<u8>>::empty(),
{
    if handle@.output.len() == 0 {
        assert(handle@.output =~= Seq::<Seq<u8>>::empty());
    }
}

/// An open tunnel gives out a guard and counts it; a closed one does neither.
pub proof fn law_guards_are_counted_when_given(
    handle: &mut PacketTunnelHandle,
    guard: Option<CallbackGuard>,
)
    requires
        call_ensures(PacketTunnelHandle::begin_callback, (handle,), guard),
    ensures
        final(handle).wf(),
        guard is Some <==> !old(handle)@.closed,
        guard matches Some(guard) ==> guard.handle == old(handle)@.id,
        final(handle)@ == (TunnelView {
            callbacks_in_flight: old(handle)@.callbacks_in_flight + if guard is Some {
                1nat
            } else {
                0nat
            },
            ..old(handle)@
        }),
{
}

/// A guard that comes back is no longer counted, and with the last one those that wait for the
/// callbacks are told; nothing else changes.
pub proof fn law_guards_are_counted_when_back(
    handle: &mut PacketTunnelHandle,
    guard: CallbackGuard,
    effects: &mut Vec<Effect>,
)
    requires
        old(handle)@.callbacks_in_flight > 0,
        call_ensures(PacketTunnelHandle::finish_callback, (handle, guard, effects), ()),
    ensures
        final(handle).wf(),
        final(handle)@.callbacks_in_flight + 1 == old(handle)@.callbacks_in_flight,
        final(handle)@ == (TunnelView {
            callbacks_in_flight: final(handle)@.callbacks_in_flight,
            ..old(handle)@
        }),
        final(handle)@.callbacks_in_flight == 0 ==> final(effects)@ == old(effects)@.push(
            Effect::CallbacksDrained(old(handle)@.id),
        ),
        final(handle)@.callbacks_in_flight > 0 ==> final(effects)@ == old(effects)@,
{
}

/// Taking an input packet gives the oldest and leaves the others in order, and nothing is taken
/// only where nothing is queued. The host is called back exactly where it set a callback, the
/// tunnel is open, the queue was at a limit or the host had been refused, and the queue is now
/// below both limits.
pub proof fn law_pop_takes_the_oldest_and_tells_of_room(
    handle: &mut PacketTunnelHandle,
    effects: &mut Vec<Effect>,
    packet: Option<Vec<u8>>,
)
    requires
        call_ensures(PacketTunnelHandle::pop_input_packet, (handle, effects), packet),
    ensures
        final(handle).wf(),
        ({
            let before = old(handle)@;
            let after = final(handle)@;
            let was_short = before.input.len() >= before.input_queue_limit || total_bytes(
                before.input,
            ) >= before.input_byte_limit || before.input_refused;
            let has_room = after.input.len() < after.input_queue_limit && total_bytes(after.input)
                < after.input_byte_limit;
            let regained = packet is Some && was_short && has_room && !before.closed;
            &&& packet is None <==> before.input.len() == 0
            &&& packet is None ==> after.input == before.input
            &&& packet matches Some(packet) ==> before.input == seq![packet@] + after.input
            &&& after == (TunnelView {
                input: after.input,
                input_refused: before.input_refused && !regained,
                callbacks_in_flight: before.callbacks_in_flight + if regained
                    && before.input_ready_notifier is Some {
                    1nat
                } else {
                    0nat
                },
                ..before
            })
            &&& regained && before.input_ready_notifier is Some ==> final(effects)@ == old(
                effects,
            )@.push(
                Effect::Notify {
                    notifier: before.input_ready_notifier->0,
                    guard: CallbackGuard { handle: before.id },
                },
            )
            &&& !regained || before.input_ready_notifier is None ==> final(effects)@ == old(
                effects,
            )@
        }),
{
    if old(handle)@.input.len() > 0 {
        assert(old(handle)@.input =~= seq![old(handle)@.input[0]] + old(handle)@.input.drop_first());
    }
}

/// An input packet is taken exactly where the tunnel is open, holds fewer packets than its limit
/// and the packet keeps it within its bytes; then it stands last in the queue and the waiting task
/// is woken. Otherwise no queue changes, nobody is woken, and the reason is told.
pub proof fn law_push_takes_what_fits(
    handle: &mut PacketTunnelHandle,
    packet: Vec<u8>,
    effects: &mut Vec<Effect>,
    result: Result<(), TunnelError>,
)
    requires
        call_ensures(PacketTunnelHandle::push_input_packet, (handle, packet, effects), result),
    ensures
        final(handle).wf(),
        ({
            let before = old(handle)@;
            let count_ok = before.input.len() < before.input_queue_limit;
            let bytes_ok = total_bytes(before.input.push(packet@)) <= before.input_byte_limit;
            &&& result is Ok <==> !before.closed && count_ok && bytes_ok
            &&& result is Ok ==> {
                &&& final(handle)@ == (TunnelView { input: before.input.push(packet@), ..before })
                &&& final(effects)@ == old(effects)@.push(Effect::WakeInput(before.id))
            }
            &&& result is Err ==> {
                &&& final(handle)@ == (TunnelView {
                    input_refused: before.input_refused || (!before.closed && before.input.len()
                        > 0),
                    ..before
                })
                &&& final(effects)@ == old(effects)@
            }
            &&& before.closed ==> result == Err::<(), _>(TunnelError::Closed)
            &&& !before.closed && !count_ok ==> result == Err::<(), _>(TunnelError::InputQueueFull)
            &&& !before.closed && count_ok && !bytes_ok ==> result == Err::<(), _>(
                TunnelError::InputByteLimitExceeded,
            )
        }),
{
    lemma_total_bytes_push(old(handle)@.input, packet@);
}

/// Setting the callback for input sets it, runs nothing and changes nothing else.
pub proof fn law_input_callback_is_set(
    handle: &mut PacketTunnelHandle,
    notifier: Option<PacketTunnelNotifier>,
)
    requires
        call_ensures(PacketTunnelHandle::set_input_ready_notifier, (handle, notifier), ()),
    ensures
        final(handle).wf(),
        final(handle)@ == (TunnelView { input_ready_notifier: notifier, ..old(handle)@ }),
{
}

/// Setting the callback for output sets it, and runs it exactly where one was given, the tunnel is
/// open and packets are waiting.
pub proof fn law_output_callback_is_set(
    handle: &mut PacketTunnelHandle,
    notifier: Option<PacketTunnelNotifier>,
    effects: &mut Vec<Effect>,
)
    requires
        call_ensures(PacketTunnelHandle::set_output_ready_notifier, (handle, notifier, effects), ()),
    ensures
        final(handle).wf(),
        ({
            let before = old(handle)@;
            let now = notifier is Some && !before.closed && before.output.len() > 0;
            &&& final(handle)@ == (TunnelView {
                output_ready_notifier: notifier,
                callbacks_in_flight: before.callbacks_in_flight + if now {
                    1nat
                } else {
                    0nat
                },
                ..before
            })
            &&& now ==> final(effects)@ == old(effects)@.push(
                Effect::Notify {
                    notifier: notifier->0,
                    guard: CallbackGuard { handle: before.id },
                },
            )
            &&& !now ==> final(effects)@ == old(effects)@
        }),
{
}

/// There is capacity exactly where the tunnel holds fewer output packets than its limit and has
/// room for 65535 more bytes.
pub proof fn law_capacity_is_room_for_any_packet(handle: PacketTunnelHandle, ready: bool)
    requires
        call_ensures(PacketTunnelHandle::output_has_capacity, (&handle,), ready),
    ensures
        ready <==> handle@.output.len() + 1 <= handle@.output_queue_limit && total_bytes(
            handle@.output,
        ) + 65_535 <= handle@.output_byte_limit,
{
}

/// An open tunnel that holds fewer output packets than its limit and has 65535 bytes left is ready
/// to send, however far the poll has come. Without that room the task registers and then waits. A
/// closed tunnel says so, unless room came up after the task registered.
pub proof fn law_tunnel_with_room_is_ready(
    handle: PacketTunnelHandle,
    phase: PollPhase,
    step: PollStep<Result<(), TunnelError>>,
)
    requires
        call_ensures(PacketTunnelHandle::poll_ready, (&handle, phase), step),
    ensures
        ({
            let room = handle@.output.len() < handle@.output_queue_limit && handle@.output_byte_limit
                - total_bytes(handle@.output) >= 65_535;
            &&& room && !handle@.closed ==> step == PollStep::Ready(Ok::<(), TunnelError>(()))
            &&& !room && !handle@.closed && phase is Initial ==> step is Register
            &&& !room && !handle@.closed && phase is Registered ==> step is Pending
            &&& handle@.closed && (phase is Initial || !room) ==> step == PollStep::Ready(
                Err::<(), TunnelError>(TunnelError::Closed),
            )
            &&& handle@.closed && phase is Registered && room ==> step == PollStep::Ready(
                Ok::<(), TunnelError>(()),
            )
        }),
{
}

/// A tunnel that was just set up for one output packet or more is ready to send.
pub proof fn law_new_tunnel_is_ready(
    input_queue_limit: usize,
    output_queue_limit: usize,
    input_byte_limit: usize,
    output_byte_limit: usize,
    handle: PacketTunnelHandle,
    phase: PollPhase,
    step: PollStep<Result<(), TunnelError>>,
)
    requires
        output_queue_limit > 0,
        call_ensures(
            PacketTunnelHandle::new,
            (input_queue_limit, output_queue_limit, input_byte_limit, output_byte_limit),
            handle,
        ),
        call_ensures(PacketTunnelHandle::poll_ready, (&handle, phase), step),
    ensures
        step == PollStep::Ready(Ok::<(), TunnelError>(())),
{
}

/// An output packet is taken exactly where the tunnel is open, holds fewer packets than its limit
/// and the packet keeps it within its bytes; then it stands last in the queue, and the host is
/// called back exactly where it set a callback and the queue was empty. Otherwise nothing changes
/// and the reason is told.
pub proof fn law_push_output_takes_what_fits(
    handle: &mut PacketTunnelHandle,
    item: Vec<u8>,
    effects: &mut Vec<Effect>,
    result: Result<(), TunnelError>,
)
    requires
        call_ensures(PacketTunnelHandle::push_output_packet, (handle, item, effects), result),
    ensures
        final(handle).wf(),
        ({
            let before = old(handle)@;
            let count_ok = before.output.len() < before.output_queue_limit;
            let bytes_ok = total_bytes(before.output.push(item@)) <= before.output_byte_limit;
            let told = result is Ok && before.output.len() == 0
                && before.output_ready_notifier is Some;
            &&& result is Ok <==> !before.closed && count_ok && bytes_ok
            &&& result is Ok ==> final(handle)@ == (TunnelView {
                output: before.output.push(item@),
                callbacks_in_flight: before.callbacks_in_flight + if told {
                    1nat
                } else {
                    0nat
                },
                ..before
            })
            &&& result is Err ==> final(handle)@ == before
            &&& told ==> final(effects)@ == old(effects)@.push(
                Effect::Notify {
                    notifier: before.output_ready_notifier->0,
                    guard: CallbackGuard { handle: before.id },
                },
            )
            &&& !told ==> final(effects)@ == old(effects)@
            &&& before.closed ==> result == Err::<(), _>(TunnelError::Closed)
            &&& !before.closed && !count_ok ==> result == Err::<(), _>(TunnelError::OutputQueueFull)
            &&& !before.closed && count_ok && !bytes_ok ==> result == Err::<(), _>(
                TunnelError::OutputByteLimitExceeded,
            )
        }),
{
    lemma_total_bytes_push(old(handle)@.output, item@);
}

/// Sending a packet does what pushing it into the output queue does; sending an empty one succeeds
/// and does nothing.
pub proof fn law_send_pushes_all_but_empty_packets(
    handle: &mut PacketTunnelHandle,
    item: Vec<u8>,
    effects: &mut Vec<Effect>,
    result: Result<(), TunnelError>,
    twin: &mut PacketTunnelHandle,
    twin_effects: &mut Vec<Effect>,
    pushed: Result<(), TunnelError>,
)
    requires
        call_ensures(PacketTunnelHandle::start_send, (handle, item, effects), result),
        call_ensures(PacketTunnelHandle::push_output_packet, (twin, item, twin_effects), pushed),
        old(twin)@ == old(handle)@,
        old(twin_effects)@ == old(effects)@,
    ensures
        final(handle).wf(),
        item@.len() == 0 ==> {
            &&& result is Ok
            &&& final(handle)@ == old(handle)@
            &&& final(effects)@ == old(effects)@
        },
        item@.len() > 0 ==> {
            &&& result is Ok <==> pushed is Ok
            &&& result is Err ==> result->Err_0 == pushed->Err_0
            &&& final(handle)@ == final(twin)@
            &&& final(effects)@ == final(twin_effects)@
        },
{
}

/// A read gives the oldest output packet, however many are waiting: where the buffer has room for
/// it, the buffer begins with exactly its bytes and is otherwise as before, the packet is gone, the
/// others stay in order and the task that waits for room is woken. Where the buffer is too small
/// the size is told, and where nothing is waiting that is told; then nothing changes.
pub proof fn law_read_gives_the_oldest_packet(
    handle: &mut PacketTunnelHandle,
    buffer: &mut [u8],
    effects: &mut Vec<Effect>,
    result: Result<RuntimePacketRead, TunnelError>,
)
    requires
        old(handle).wf(),
        call_ensures(PacketTunnelHandle::read_output_packet, (handle, buffer, effects), result),
    ensures
        final(handle).wf(),
        final(buffer)@.len() == old(buffer)@.len(),
        ({
            let before = old(handle)@;
            let after = final(handle)@;
            &&& before.output.len() == 0 ==> result == Ok::<_, TunnelError>(
                RuntimePacketRead::NoData,
            )
            &&& before.output.len() > 0 && before.output[0].len() > old(buffer)@.len() ==> (result
                matches Ok(RuntimePacketRead::BufferTooSmall(size)) && size
                == before.output[0].len())
            &&& before.output.len() > 0 && before.output[0].len() <= old(buffer)@.len() ==> {
                let size = before.output[0].len() as int;
                &&& result matches Ok(RuntimePacketRead::Packet(told)) && told == size
                &&& forall|i: int|
                    0 <= i < size ==> #[trigger] final(buffer)@[i] == before.output[0][i]
                &&& forall|i: int|
                    size <= i < old(buffer)@.len() ==> #[trigger] final(buffer)@[i] == old(
                        buffer,
                    )@[i]
                &&& before.output == seq![before.output[0]] + after.output
                &&& after == (TunnelView { output: after.output, ..before })
                &&& final(effects)@ == old(effects)@.push(Effect::WakeOutput(before.id))
            }
            &&& before.output.len() == 0 || before.output[0].len() > old(buffer)@.len() ==> {
                &&& after == before
                &&& final(buffer)@ == old(buffer)@
                &&& final(effects)@ == old(effects)@
            }
        }),
{
    old(handle).lemma_within_limits();
    let before = old(handle)@;
    if before.output.len() > 0 {
        lemma_total_bytes_drop_first(before.output);
        assert(before.output =~= seq![before.output[0]] + before.output.drop_first());
    }
}

/// Closing marks the tunnel closed and forgets its callbacks, and nothing else of it changes. The
/// caller is to wait for the running callbacks, and then both waiting tasks are woken.
pub proof fn law_close_wakes_everyone(handle: &mut PacketTunnelHandle, effects: &mut Vec<Effect>)
    requires
        call_ensures(PacketTunnelHandle::close, (handle, effects), ()),
    ensures
        final(handle).wf(),
        final(handle)@ == (TunnelView {
            closed: true,
            input_ready_notifier: None,
            output_ready_notifier: None,
            ..old(handle)@
        }),
        final(effects)@ == old(effects)@.push(Effect::WaitForCallbacks(old(handle)@.id)).push(
            Effect::WakeInput(old(handle)@.id),
        ).push(Effect::WakeOutput(old(handle)@.id)),
{
}

/// Closing through the transport does what closing does, and is over at once; so is flushing.
pub proof fn law_transport_closes_and_flushes(
    handle: &mut PacketTunnelHandle,
    effects: &mut Vec<Effect>,
    step: PollStep<Result<(), TunnelError>>,
    twin: &mut PacketTunnelHandle,
    twin_effects: &mut Vec<Effect>,
    flushed: PollStep<Result<(), TunnelError>>,
)
    requires
        call_ensures(PacketTunnelHandle::poll_close, (handle, effects), step),
        call_ensures(PacketTunnelHandle::close, (twin, twin_effects), ()),
        old(twin)@ == old(handle)@,
        old(twin_effects)@ == old(effects)@,
        call_ensures(PacketTunnelHandle::poll_flush, (&*old(handle),), flushed),
    ensures
        final(handle).wf(),
        step == PollStep::Ready(Ok::<(), TunnelError>(())),
        flushed == PollStep::Ready(Ok::<(), TunnelError>(())),
        final(handle)@ == final(twin)@,
        final(effects)@ == final(twin_effects)@,
{
}

/// Polling for input gives the packet that a take gives, with what it does. With none queued a
/// closed tunnel ends the stream, and an open one has the task register and then wait.
pub proof fn law_poll_takes_or_waits(
    handle: &mut PacketTunnelHandle,
    phase: PollPhase,
    effects: &mut Vec<Effect>,
    step: PollStep<Option<Vec<u8>>>,
    twin: &mut PacketTunnelHandle,
    twin_effects: &mut Vec<Effect>,
    packet: Option<Vec<u8>>,
)
    requires
        call_ensures(PacketTunnelHandle::poll_next, (handle, phase, effects), step),
        call_ensures(PacketTunnelHandle::pop_input_packet, (twin, twin_effects), packet),
        old(twin)@ == old(handle)@,
        old(twin_effects)@ == old(effects)@,
    ensures
        final(handle).wf(),
        final(handle)@ == final(twin)@,
        final(effects)@ == final(twin_effects)@,
        packet is Some <==> step is Ready && step->0 is Some,
        packet matches Some(packet) ==> step->0->0@ == packet@,
        old(handle)@.input.len() > 0 ==> step is Ready && step->0 is Some && step->0->0@ == old(
            handle,
        )@.input[0],
        old(handle)@.input.len() == 0 && old(handle)@.closed ==> step is Ready && step->0 is None,
        old(handle)@.input.len() == 0 && !old(handle)@.closed && phase is Initial
            ==> step is Register,
        old(handle)@.input.len() == 0 && !old(handle)@.closed && phase is Registered
            ==> step is Pending,
{
}

/// A tunnel of any state and with any limits can be used in every way; only where a callback may
/// have to be run must one more be countable, and only a guard that was given out comes back.
pub proof fn law_tunnel_calls_can_be_made(
    handle: &mut PacketTunnelHandle,
    limit: usize,
    packet: Vec<u8>,
    notifier: Option<PacketTunnelNotifier>,
    buffer: &mut [u8],
    phase: PollPhase,
    effects: &mut Vec<Effect>,
)
    requires
        old(handle).wf(),
        old(handle)@.callbacks_in_flight < usize::MAX,
    ensures
        call_requires(PacketTunnelHandle::new, (limit, limit, limit, limit)),
        call_requires(PacketTunnelHandle::take_transport, (handle,)),
        call_requires(PacketTunnelHandle::begin_callback, (handle,)),
        old(handle)@.callbacks_in_flight > 0 ==> call_requires(
            PacketTunnelHandle::finish_callback,
            (handle, CallbackGuard { handle: old(handle)@.id }, effects),
        ),
        call_requires(PacketTunnelHandle::pop_input_packet, (handle, effects)),
        call_requires(PacketTunnelHandle::push_input_packet, (handle, packet, effects)),
        call_requires(PacketTunnelHandle::set_input_ready_notifier, (handle, notifier)),
        call_requires(PacketTunnelHandle::output_has_capacity, (&*old(handle),)),
        call_requires(PacketTunnelHandle::has_output_ready, (&*old(handle),)),
        call_requires(PacketTunnelHandle::push_output_packet, (handle, packet, effects)),
        call_requires(PacketTunnelHandle::set_output_ready_notifier, (handle, notifier, effects)),
        call_requires(PacketTunnelHandle::read_output_packet, (handle, buffer, effects)),
        call_requires(PacketTunnelHandle::close, (handle, effects)),
        call_requires(PacketTunnelHandle::poll_next, (handle, phase, effects)),
        call_requires(PacketTunnelHandle::poll_ready, (&*old(handle), phase)),
        call_requires(PacketTunnelHandle::start_send, (handle, packet, effects)),
        call_requires(PacketTunnelHandle::poll_flush, (&*old(handle),)),
        call_requires(PacketTunnelHandle::poll_close, (handle, effects)),
{
}

} // verus!
