//! What each call on the tunnels of all runtimes does, from what it is given to what it hands
//! back.

use vstd::prelude::*;

use crate::error::TunnelError;
use crate::packet_io::effect::{
    CallbackGuard, Effect, HandleId, PacketTunnelNotifier, RuntimeId,
};
use crate::packet_io::handle::PacketTunnelHandle;
use crate::packet_io::model::{
    lemma_total_bytes_drop_first, lemma_total_bytes_push, total_bytes, RuntimePacketRead,
    TunnelView,
};
use crate::packet_io::registry::{
    finish_callback, has_runtime_packet_tunnel, init_runtime_packet_tunnel,
    normalize_packet_queue_size, packet_queue_size, read_runtime_packet,
    remove_runtime_packet_tunnel, set_runtime_packet_input_callback,
    set_runtime_packet_output_callback, take_runtime_packet_tunnel, write_runtime_packet,
    PacketTunnels,
};
use crate::packet_io::registry_model::{
    lemma_maps_to_remove, RegistryView, DEFAULT_INPUT_BYTE_LIMIT, DEFAULT_OUTPUT_BYTE_LIMIT,
    MAX_PACKET_TUNNEL_QUEUE_SIZE,
};
use crate::packet_io::transport::{PacketTunnelTransport, PollPhase, PollStep};

verus! {

/// A queue of a runtime holds at most 4096 packets, and 1 MB on the way in or 2 MB on the way out.
pub proof fn law_limits_of_the_queues()
    ensures
        MAX_PACKET_TUNNEL_QUEUE_SIZE == 4_096,
        DEFAULT_INPUT_BYTE_LIMIT == 1024 * 1024,
        DEFAULT_OUTPUT_BYTE_LIMIT == 2 * 1024 * 1024,
{
}

/// A new registry is empty, has given nothing up, and keeps the default sizes it was given.
pub proof fn law_new_registry_is_empty(input: usize, output: usize, tunnels: PacketTunnels)
    requires
        call_ensures(PacketTunnels::new, (input, output), tunnels),
    ensures
        tunnels.wf(),
        tunnels@.default_input_queue_size == input,
        tunnels@.default_output_queue_size == output,
        forall|rt_id: RuntimeId|
            !(#[trigger] tunnels@.registered.contains_key(rt_id)) && !tunnels@.given_up.contains(
                rt_id,
            ),
        forall|id: HandleId|
            !(#[trigger] tunnels@.handles.contains_key(id)) && !tunnels@.transports.contains(id),
{
}

/// Setting the default sizes sets them and changes nothing else.
pub proof fn law_default_sizes_are_set(tunnels: &mut PacketTunnels, input: usize, output: usize)
    requires
        call_ensures(PacketTunnels::set_default_queue_sizes, (tunnels, input, output), ()),
    ensures
        final(tunnels).wf(),
        final(tunnels)@ == (RegistryView {
            default_input_queue_size: input,
            default_output_queue_size: output,
            ..old(tunnels)@
        }),
{
}

/// The questions that can be put to the registry are answered from its state.
pub proof fn law_registry_tells_its_state(
    tunnels: PacketTunnels,
    rt_id: RuntimeId,
    found: Result<HandleId, TunnelError>,
    has: bool,
    id: HandleId,
    in_use: bool,
    count: usize,
)
    requires
        call_ensures(PacketTunnels::get_handle, (&tunnels, rt_id), found),
        call_ensures(has_runtime_packet_tunnel, (&tunnels, rt_id), has),
        call_ensures(PacketTunnels::has_handle, (&tunnels, id), in_use),
        call_ensures(PacketTunnels::callbacks_in_flight, (&tunnels, id), count),
    ensures
        has <==> tunnels@.registered.contains_key(rt_id),
        found is Ok <==> has,
        found matches Ok(found) ==> tunnels@.registered[rt_id] == found,
        found matches Err(e) ==> e == TunnelError::NotInitialized,
        in_use <==> tunnels@.handles.contains_key(id),
        in_use ==> count == tunnels@.handles[id].callbacks_in_flight,
        !in_use ==> count == 0,
{
}

/// A queue size of nothing becomes one, and every other stays. An explicit size up to 4096 is
/// kept, a larger one is refused by name, and with 0 the default counts, brought between 1 and
/// 4096.
pub proof fn law_queue_size_is_kept(
    queue_size: usize,
    default_size: usize,
    size: usize,
    result: Result<usize, TunnelError>,
)
    requires
        call_ensures(packet_queue_size, (queue_size,), size),
        call_ensures(normalize_packet_queue_size, (queue_size, default_size), result),
    ensures
        queue_size == 0 ==> size == 1,
        queue_size > 0 ==> size == queue_size,
        1 <= queue_size <= 4_096 ==> result == Ok::<_, TunnelError>(queue_size),
        queue_size > 4_096 ==> result == Err::<usize, _>(
            TunnelError::QueueSizeExceedsMaximum(queue_size),
        ),
        queue_size == 0 && 1 <= default_size <= 4_096 ==> result == Ok::<_, TunnelError>(
            default_size,
        ),
        queue_size == 0 && default_size == 0 ==> result == Ok::<_, TunnelError>(1usize),
        queue_size == 0 && default_size > 4_096 ==> result == Ok::<_, TunnelError>(4_096usize),
{
}

/// A runtime that is not running and has no tunnel gets one for all queue sizes up to 4096. Its
/// queues hold exactly as many packets as were asked for, or the default where none were; the
/// tunnel is open and empty, and its transport can be taken. Every other tunnel stays as it was. A
/// refusal changes nothing and tells the reason.
pub proof fn law_tunnel_is_set_up_as_asked(
    tunnels: &mut PacketTunnels,
    rt_id: RuntimeId,
    running: bool,
    input: usize,
    output: usize,
    result: Result<(), TunnelError>,
)
    requires
        old(tunnels).wf(),
        call_ensures(init_runtime_packet_tunnel, (tunnels, rt_id, running, input, output), result),
    ensures
        final(tunnels).wf(),
        ({
            let before = old(tunnels)@;
            let after = final(tunnels)@;
            let known = before.registered.contains_key(rt_id);
            &&& result is Ok <==> !running && input <= 4_096 && output <= 4_096 && !known
            &&& result is Err ==> after == before
            &&& running ==> result == Err::<(), _>(TunnelError::AlreadyRunning)
            &&& !running && input > 4_096 ==> result == Err::<(), _>(
                TunnelError::QueueSizeExceedsMaximum(input),
            )
            &&& !running && input <= 4_096 && output > 4_096 ==> result == Err::<(), _>(
                TunnelError::QueueSizeExceedsMaximum(output),
            )
            &&& !running && input <= 4_096 && output <= 4_096 && known ==> result == Err::<(), _>(
                TunnelError::AlreadyInitialized,
            )
            &&& result is Ok ==> {
                let id = after.registered[rt_id];
                let tunnel = after.handles[id];
                &&& after.registered == before.registered.insert(rt_id, id)
                &&& !before.handles.contains_key(id)
                &&& after.handles == before.handles.insert(id, tunnel)
                &&& after.transports == before.transports
                &&& after.given_up == before.given_up.remove(rt_id)
                &&& after.default_input_queue_size == before.default_input_queue_size
                &&& after.default_output_queue_size == before.default_output_queue_size
                &&& tunnel.id == id
                &&& input > 0 ==> tunnel.input_queue_limit == input
                &&& output > 0 ==> tunnel.output_queue_limit == output
                &&& input == 0 && 1 <= before.default_input_queue_size <= 4_096
                    ==> tunnel.input_queue_limit == before.default_input_queue_size
                &&& output == 0 && 1 <= before.default_output_queue_size <= 4_096
                    ==> tunnel.output_queue_limit == before.default_output_queue_size
                &&& input == 0 && before.default_input_queue_size == 0
                    ==> tunnel.input_queue_limit == 1
                &&& output == 0 && before.default_output_queue_size == 0
                    ==> tunnel.output_queue_limit == 1
                &&& input == 0 && before.default_input_queue_size > 4_096
                    ==> tunnel.input_queue_limit == 4_096
                &&& output == 0 && before.default_output_queue_size > 4_096
                    ==> tunnel.output_queue_limit == 4_096
                &&& tunnel.input_byte_limit == 1024 * 1024
                &&& tunnel.output_byte_limit == 2 * 1024 * 1024
                &&& tunnel.input.len() == 0 && tunnel.output.len() == 0
                &&& tunnel.input_ready_notifier is None && tunnel.output_ready_notifier is None
                &&& tunnel.callbacks_in_flight == 0
                &&& !tunnel.input_refused && !tunnel.connected && !tunnel.closed
            }
        }),
{
}

/// The transport of a runtime's tunnel is given out exactly where there is a tunnel and it was not
/// given out before. It is the transport of that tunnel, and nothing else changes.
pub proof fn law_transport_of_a_runtime_is_given_out(
    tunnels: &mut PacketTunnels,
    rt_id: RuntimeId,
    result: Result<Option<PacketTunnelTransport>, TunnelError>,
)
    requires
        old(tunnels).wf(),
        call_ensures(take_runtime_packet_tunnel, (tunnels, rt_id), result),
    ensures
        final(tunnels).wf(),
        ({
            let before = old(tunnels)@;
            let after = final(tunnels)@;
            let known = before.registered.contains_key(rt_id);
            let id = before.registered[rt_id];
            &&& !known ==> result == Ok::<_, TunnelError>(None::<PacketTunnelTransport>)
            &&& known && before.handles[id].connected ==> result == Err::<
                Option<PacketTunnelTransport>,
                _,
            >(TunnelError::AlreadyConnected)
            &&& known && !before.handles[id].connected ==> {
                &&& result == Ok::<_, TunnelError>(Some(PacketTunnelTransport { handle: id }))
                &&& after == (RegistryView {
                    transports: before.transports.insert(id),
                    handles: before.handles.insert(
                        id,
                        TunnelView { connected: true, ..before.handles[id] },
                    ),
                    ..before
                })
            }
            &&& !known || before.handles[id].connected ==> after == before
        }),
{
}

/// Giving a tunnel up ends its registration, closes it and has the host remembered as closed.
/// Running callbacks are waited for and both waiting tasks are woken. The tunnel keeps its packets
/// while its transport is held or a callback is running, and is dropped otherwise. Every other
/// tunnel stays as it was, and without a tunnel nothing happens.
pub proof fn law_removal_closes_and_gives_up(
    tunnels: &mut PacketTunnels,
    rt_id: RuntimeId,
    effects: &mut Vec<Effect>,
)
    requires
        old(tunnels).wf(),
        call_ensures(remove_runtime_packet_tunnel, (tunnels, rt_id, effects), ()),
    ensures
        final(tunnels).wf(),
        ({
            let before = old(tunnels)@;
            let after = final(tunnels)@;
            let known = before.registered.contains_key(rt_id);
            let id = before.registered[rt_id];
            &&& !known ==> after == before && final(effects)@ == old(effects)@
            &&& known ==> {
                &&& after.registered == before.registered.remove(rt_id)
                &&& after.given_up == before.given_up.insert(rt_id)
                &&& after.transports == before.transports
                &&& after.default_input_queue_size == before.default_input_queue_size
                &&& after.default_output_queue_size == before.default_output_queue_size
                &&& before.transports.contains(id) || before.handles[id].callbacks_in_flight > 0
                    ==> after.handles == before.handles.insert(
                    id,
                    TunnelView {
                        closed: true,
                        input_ready_notifier: None,
                        output_ready_notifier: None,
                        ..before.handles[id]
                    },
                )
                &&& !before.transports.contains(id) && before.handles[id].callbacks_in_flight == 0
                    ==> after.handles == before.handles.remove(id)
                &&& final(effects)@ == old(effects)@ + seq![
                    Effect::WaitForCallbacks(id),
                    Effect::WakeInput(id),
                    Effect::WakeOutput(id),
                ]
            }
        }),
{
    old(tunnels).lemma_well_formed();
    let before = old(tunnels)@;
    if before.registered.contains_key(rt_id) {
        let id = before.registered[rt_id];
        assert(before.handle_well_formed(id));
        lemma_maps_to_remove(before.registered, rt_id);
        assert(before.handles.insert(id, before.handles[id].after_close()).remove(id)
            =~= before.handles.remove(id));
    }
}

/// Setting the callback of a runtime for input does to its tunnel what it does to a tunnel alone;
/// without a tunnel nothing changes and that is told.
pub proof fn law_input_callback_of_a_runtime_is_set(
    tunnels: &mut PacketTunnels,
    rt_id: RuntimeId,
    notifier: Option<PacketTunnelNotifier>,
    result: Result<(), TunnelError>,
)
    requires
        call_ensures(set_runtime_packet_input_callback, (tunnels, rt_id, notifier), result),
    ensures
        final(tunnels).wf(),
        ({
            let before = old(tunnels)@;
            let known = before.registered.contains_key(rt_id);
            let id = before.registered[rt_id];
            &&& result is Ok <==> known
            &&& result matches Err(e) ==> e == TunnelError::NotInitialized
            &&& known ==> final(tunnels)@ == (RegistryView {
                handles: before.handles.insert(
                    id,
                    TunnelView { input_ready_notifier: notifier, ..before.handles[id] },
                ),
                ..before
            })
            &&& !known ==> final(tunnels)@ == before
        }),
{
}

/// Setting the callback of a runtime for output sets it on its tunnel, and runs it exactly where
/// one was given, the tunnel is open and packets are waiting; without a tunnel nothing changes and
/// that is told.
pub proof fn law_output_callback_of_a_runtime_is_set(
    tunnels: &mut PacketTunnels,
    rt_id: RuntimeId,
    notifier: Option<PacketTunnelNotifier>,
    effects: &mut Vec<Effect>,
    result: Result<(), TunnelError>,
)
    requires
        old(tunnels).wf(),
        call_ensures(
            set_runtime_packet_output_callback,
            (tunnels, rt_id, notifier, effects),
            result,
        ),
    ensures
        final(tunnels).wf(),
        ({
            let before = old(tunnels)@;
            let known = before.registered.contains_key(rt_id);
            let id = before.registered[rt_id];
            let tunnel = before.handles[id];
            let now = known && notifier is Some && !tunnel.closed && tunnel.output.len() > 0;
            &&& result is Ok <==> known
            &&& result matches Err(e) ==> e == TunnelError::NotInitialized
            &&& known ==> final(tunnels)@ == (RegistryView {
                handles: before.handles.insert(
                    id,
                    TunnelView {
                        output_ready_notifier: notifier,
                        callbacks_in_flight: tunnel.callbacks_in_flight + if now {
                            1nat
                        } else {
                            0nat
                        },
                        ..tunnel
                    },
                ),
                ..before
            })
            &&& !known ==> final(tunnels)@ == before
            &&& now ==> final(effects)@ == old(effects)@.push(
                Effect::Notify { notifier: notifier->0, guard: CallbackGuard { handle: id } },
            )
            &&& !now ==> final(effects)@ == old(effects)@
        }),
{
    old(tunnels).lemma_well_formed();
    if old(tunnels)@.registered.contains_key(rt_id) {
        assert(old(tunnels)@.handle_well_formed(old(tunnels)@.registered[rt_id]));
    }
}

/// A non-empty packet of a host is taken exactly where its runtime has an open tunnel that holds
/// fewer packets than its limit and stays within its bytes. Then the packet stands last in the
/// input queue of that tunnel, nothing else changes, and the transport of the tunnel is woken.
/// Otherwise no queue changes, nobody is woken, and the reason is told. An empty packet is dropped.
pub proof fn law_write_wakes_the_transport(
    tunnels: &mut PacketTunnels,
    rt_id: RuntimeId,
    packet: &[u8],
    effects: &mut Vec<Effect>,
    result: Result<(), TunnelError>,
)
    requires
        old(tunnels).wf(),
        call_ensures(write_runtime_packet, (tunnels, rt_id, packet, effects), result),
    ensures
        final(tunnels).wf(),
        ({
            let before = old(tunnels)@;
            let after = final(tunnels)@;
            let known = before.registered.contains_key(rt_id);
            let id = before.registered[rt_id];
            let tunnel = before.handles[id];
            let count_ok = tunnel.input.len() < tunnel.input_queue_limit;
            let bytes_ok = total_bytes(tunnel.input.push(packet@)) <= tunnel.input_byte_limit;
            let taken = packet@.len() > 0 && known && !tunnel.closed && count_ok && bytes_ok;
            let full = packet@.len() > 0 && known && !tunnel.closed && !(count_ok && bytes_ok);
            &&& result is Ok <==> packet@.len() == 0 || taken
            &&& taken ==> {
                &&& after == (RegistryView {
                    handles: before.handles.insert(
                        id,
                        TunnelView { input: tunnel.input.push(packet@), ..tunnel },
                    ),
                    ..before
                })
                &&& final(effects)@ == old(effects)@.push(Effect::WakeInput(id))
            }
            &&& !taken ==> final(effects)@ == old(effects)@
            &&& !taken && !full ==> after == before
            &&& full ==> after == (RegistryView {
                handles: before.handles.insert(
                    id,
                    TunnelView {
                        input_refused: tunnel.input_refused || tunnel.input.len() > 0,
                        ..tunnel
                    },
                ),
                ..before
            })
            &&& full && !count_ok ==> result == Err::<(), _>(TunnelError::InputQueueFull)
            &&& full && count_ok ==> result == Err::<(), _>(TunnelError::InputByteLimitExceeded)
            &&& packet@.len() > 0 && known && tunnel.closed ==> result == Err::<(), _>(
                TunnelError::Closed,
            )
            &&& packet@.len() > 0 && !known && before.given_up.contains(rt_id) ==> result == Err::<
                (),
                _,
            >(TunnelError::Closed)
            &&& packet@.len() > 0 && !known && !before.given_up.contains(rt_id) ==> result == Err::<
                (),
                _,
            >(TunnelError::NotInitialized)
        }),
{
    old(tunnels).lemma_well_formed();
    let before = old(tunnels)@;
    if before.registered.contains_key(rt_id) {
        let id = before.registered[rt_id];
        assert(before.handle_well_formed(id));
        lemma_total_bytes_push(before.handles[id].input, packet@);
        assert(before.handles.insert(id, before.handles[id]) =~= before.handles);
    }
}

/// A host that reads gets the oldest output packet of its runtime's tunnel, however many are
/// waiting: where the buffer has room for it, the buffer begins with exactly its bytes and is
/// otherwise as before, the packet is gone, the others stay in order, and the transport is woken.
/// Otherwise nothing changes, and the size is told, or that nothing is waiting, or that there is no
/// tunnel.
pub proof fn law_host_reads_the_oldest_packet(
    tunnels: &mut PacketTunnels,
    rt_id: RuntimeId,
    buffer: &mut [u8],
    effects: &mut Vec<Effect>,
    result: Result<RuntimePacketRead, TunnelError>,
)
    requires
        old(tunnels).wf(),
        call_ensures(read_runtime_packet, (tunnels, rt_id, buffer, effects), result),
    ensures
        final(tunnels).wf(),
        final(buffer)@.len() == old(buffer)@.len(),
        ({
            let before = old(tunnels)@;
            let known = before.registered.contains_key(rt_id);
            let id = before.registered[rt_id];
            let tunnel = before.handles[id];
            let oldest = tunnel.output[0];
            let waiting = known && tunnel.output.len() > 0;
            let fits = oldest.len() <= old(buffer)@.len();
            &&& !known ==> result == Err::<RuntimePacketRead, _>(TunnelError::NotInitialized)
            &&& known && !waiting ==> result == Ok::<_, TunnelError>(RuntimePacketRead::NoData)
            &&& waiting && !fits ==> (result matches Ok(RuntimePacketRead::BufferTooSmall(size))
                && size == oldest.len())
            &&& waiting && fits ==> {
                &&& result matches Ok(RuntimePacketRead::Packet(size)) && size == oldest.len()
                &&& forall|i: int|
                    0 <= i < oldest.len() ==> #[trigger] final(buffer)@[i] == oldest[i]
                &&& forall|i: int|
                    oldest.len() <= i < old(buffer)@.len() ==> #[trigger] final(buffer)@[i] == old(
                        buffer,
                    )@[i]
                &&& final(tunnels)@ == (RegistryView {
                    handles: before.handles.insert(
                        id,
                        TunnelView {
                            output: tunnel.output.subrange(1, tunnel.output.len() as int),
                            ..tunnel
                        },
                    ),
                    ..before
                })
                &&& final(effects)@ == old(effects)@.push(Effect::WakeOutput(id))
            }
            &&& !(waiting && fits) ==> {
                &&& final(tunnels)@ == before
                &&& final(buffer)@ == old(buffer)@
                &&& final(effects)@ == old(effects)@
            }
        }),
{
    old(tunnels).lemma_well_formed();
    let before = old(tunnels)@;
    if before.registered.contains_key(rt_id) {
        let id = before.registered[rt_id];
        let tunnel = before.handles[id];
        assert(before.handle_well_formed(id));
        assert(before.handles.insert(id, tunnel) =~= before.handles);
        if tunnel.output.len() > 0 {
            lemma_total_bytes_drop_first(tunnel.output);
            assert(tunnel.output.drop_first() =~= tunnel.output.subrange(
                1,
                tunnel.output.len() as int,
            ));
        }
    }
}

/// A guard that comes back is no longer counted on its tunnel, and with the last one those that
/// wait are told. A tunnel that nobody refers to any more is dropped then; nothing else changes.
pub proof fn law_finished_callback_is_counted(
    tunnels: &mut PacketTunnels,
    guard: CallbackGuard,
    effects: &mut Vec<Effect>,
)
    requires
        old(tunnels).wf(),
        old(tunnels)@.handles.contains_key(guard.handle),
        old(tunnels)@.handles[guard.handle].callbacks_in_flight > 0,
        call_ensures(finish_callback, (tunnels, guard, effects), ()),
    ensures
        final(tunnels).wf(),
        ({
            let before = old(tunnels)@;
            let after = final(tunnels)@;
            let id = guard.handle;
            let left = (before.handles[id].callbacks_in_flight - 1) as nat;
            let needed = left > 0 || before.transports.contains(id) || exists|rt_id: RuntimeId|
                #[trigger] before.registered.contains_key(rt_id) && before.registered[rt_id] == id;
            &&& needed ==> after == (RegistryView {
                handles: before.handles.insert(
                    id,
                    TunnelView { callbacks_in_flight: left, ..before.handles[id] },
                ),
                ..before
            })
            &&& !needed ==> after == (RegistryView { handles: before.handles.remove(id), ..before })
            &&& left == 0 ==> final(effects)@ == old(effects)@.push(Effect::CallbacksDrained(id))
            &&& left > 0 ==> final(effects)@ == old(effects)@
        }),
{
    old(tunnels).lemma_well_formed();
    let before = old(tunnels)@;
    let id = guard.handle;
    assert(before.handle_well_formed(id));
    assert(before.handles.insert(id, before.handles[id].after_finish_callback()).remove(id)
        =~= before.handles.remove(id));
}

/// A transport that polls for input does to its tunnel what polling does to a tunnel alone, and
/// gets the same; every other tunnel stays as it was.
pub proof fn law_transport_polls_its_tunnel(
    transport: PacketTunnelTransport,
    tunnels: &mut PacketTunnels,
    phase: PollPhase,
    effects: &mut Vec<Effect>,
    step: PollStep<Option<Vec<u8>>>,
    twin: &mut PacketTunnelHandle,
    twin_effects: &mut Vec<Effect>,
    twin_step: PollStep<Option<Vec<u8>>>,
)
    requires
        call_ensures(
            PacketTunnelTransport::poll_next,
            (&transport, tunnels, phase, effects),
            step,
        ),
        call_ensures(PacketTunnelHandle::poll_next, (twin, phase, twin_effects), twin_step),
        old(twin)@ == old(tunnels)@.handles[transport.handle],
        old(twin_effects)@ == old(effects)@,
    ensures
        final(tunnels).wf(),
        final(tunnels)@ == (RegistryView {
            handles: old(tunnels)@.handles.insert(transport.handle, final(twin)@),
            ..old(tunnels)@
        }),
        final(effects)@ == final(twin_effects)@,
        step is Register <==> twin_step is Register,
        step is Pending <==> twin_step is Pending,
        step is Ready && step->0 is None <==> twin_step is Ready && twin_step->0 is None,
        step is Ready && step->0 is Some ==> step->0->0@ == twin_step->0->0@,
        ({
            let queued = old(tunnels)@.handles[transport.handle].input;
            &&& queued.len() > 0 ==> step is Ready && step->0 is Some && step->0->0@ == queued[0]
            &&& queued.len() > 0 ==> final(tunnels)@.handles[transport.handle].input
                == queued.subrange(1, queued.len() as int)
        }),
{
    let queued = old(tunnels)@.handles[transport.handle].input;
    if queued.len() > 0 {
        assert(queued.drop_first() =~= queued.subrange(1, queued.len() as int));
    }
}

/// A transport is ready to send exactly where its tunnel alone would be.
pub proof fn law_transport_readiness_is_that_of_its_tunnel(
    transport: PacketTunnelTransport,
    tunnels: PacketTunnels,
    phase: PollPhase,
    step: PollStep<Result<(), TunnelError>>,
)
    requires
        call_ensures(PacketTunnelTransport::poll_ready, (&transport, &tunnels, phase), step),
    ensures
        ({
            let tunnel = tunnels@.handles[transport.handle];
            let room = tunnel.output.len() < tunnel.output_queue_limit && tunnel.output_byte_limit
                - total_bytes(tunnel.output) >= 65_535;
            &&& room && !tunnel.closed ==> step == PollStep::Ready(Ok::<(), TunnelError>(()))
            &&& !room && !tunnel.closed && phase is Initial ==> step is Register
            &&& !room && !tunnel.closed && phase is Registered ==> step is Pending
            &&& tunnel.closed && (phase is Initial || !room) ==> step == PollStep::Ready(
                Err::<(), TunnelError>(TunnelError::Closed),
            )
            &&& tunnel.closed && phase is Registered && room ==> step == PollStep::Ready(
                Ok::<(), TunnelError>(()),
            )
        }),
{
}

/// The transport of a tunnel that was just set up is ready to send.
pub proof fn law_transport_of_a_new_tunnel_is_ready(
    tunnels: &mut PacketTunnels,
    rt_id: RuntimeId,
    input: usize,
    output: usize,
    taken_from: &mut PacketTunnels,
    transport: PacketTunnelTransport,
    asked: PacketTunnels,
    phase: PollPhase,
    step: PollStep<Result<(), TunnelError>>,
)
    requires
        old(tunnels).wf(),
        call_ensures(
            init_runtime_packet_tunnel,
            (tunnels, rt_id, false, input, output),
            Ok::<(), TunnelError>(()),
        ),
        old(taken_from)@ == final(tunnels)@,
        call_ensures(
            take_runtime_packet_tunnel,
            (taken_from, rt_id),
            Ok::<_, TunnelError>(Some(transport)),
        ),
        asked@ == final(taken_from)@,
        call_ensures(PacketTunnelTransport::poll_ready, (&transport, &asked, phase), step),
    ensures
        step == PollStep::Ready(Ok::<(), TunnelError>(())),
{
    reveal_with_fuel(total_bytes, 1);
}

/// A transport that sends does to its tunnel what sending does to a tunnel alone, and gets the same
/// answer; every other tunnel stays as it was.
pub proof fn law_transport_sends_through_its_tunnel(
    transport: PacketTunnelTransport,
    tunnels: &mut PacketTunnels,
    item: Vec<u8>,
    effects: &mut Vec<Effect>,
    result: Result<(), TunnelError>,
    twin: &mut PacketTunnelHandle,
    twin_effects: &mut Vec<Effect>,
    twin_result: Result<(), TunnelError>,
)
    requires
        call_ensures(
            PacketTunnelTransport::start_send,
            (&transport, tunnels, item, effects),
            result,
        ),
        call_ensures(PacketTunnelHandle::start_send, (twin, item, twin_effects), twin_result),
        old(twin)@ == old(tunnels)@.handles[transport.handle],
        old(twin_effects)@ == old(effects)@,
    ensures
        final(tunnels).wf(),
        final(tunnels)@ == (RegistryView {
            handles: old(tunnels)@.handles.insert(transport.handle, final(twin)@),
            ..old(tunnels)@
        }),
        final(effects)@ == final(twin_effects)@,
        result is Ok <==> twin_result is Ok,
        result is Err ==> result->Err_0 == twin_result->Err_0,
{
}

/// A transport that closes its tunnel does to it what closing does to a tunnel alone; every other
/// tunnel stays as it was. Closing and flushing are over at once.
pub proof fn law_transport_closes_its_tunnel(
    transport: PacketTunnelTransport,
    tunnels: &mut PacketTunnels,
    effects: &mut Vec<Effect>,
    step: PollStep<Result<(), TunnelError>>,
    flushed: PollStep<Result<(), TunnelError>>,
)
    requires
        old(tunnels).wf(),
        transport.belongs_to(old(tunnels)@),
        call_ensures(PacketTunnelTransport::poll_close, (&transport, tunnels, effects), step),
        call_ensures(PacketTunnelTransport::poll_flush, (&transport,), flushed),
    ensures
        final(tunnels).wf(),
        step == PollStep::Ready(Ok::<(), TunnelError>(())),
        flushed == PollStep::Ready(Ok::<(), TunnelError>(())),
        final(tunnels)@ == (RegistryView {
            handles: old(tunnels)@.handles.insert(
                transport.handle,
                TunnelView {
                    closed: true,
                    input_ready_notifier: None,
                    output_ready_notifier: None,
                    ..old(tunnels)@.handles[transport.handle]
                },
            ),
            ..old(tunnels)@
        }),
        final(effects)@ == old(effects)@ + seq![
            Effect::WaitForCallbacks(transport.handle),
            Effect::WakeInput(transport.handle),
            Effect::WakeOutput(transport.handle),
        ],
{
    old(tunnels).lemma_well_formed();
    assert(old(tunnels)@.handle_well_formed(transport.handle));
}

/// A transport belongs to a registry exactly where it was given out and is still held.
pub proof fn law_transport_belongs_while_held(
    transport: PacketTunnelTransport,
    registry: RegistryView,
)
    ensures
        transport.belongs_to(registry) <==> registry.transports.contains(transport.handle),
{
}

/// A transport that is dropped is held no more, and its tunnel goes with it where no runtime has it
/// and no callback of it is running; nothing else changes.
pub proof fn law_dropped_transport_lets_its_tunnel_go(
    transport: PacketTunnelTransport,
    tunnels: &mut PacketTunnels,
)
    requires
        call_ensures(PacketTunnelTransport::release, (transport, tunnels), ()),
    ensures
        final(tunnels).wf(),
        ({
            let before = old(tunnels)@;
            let id = transport.handle;
            let needed = before.handles[id].callbacks_in_flight > 0 || exists|rt_id: RuntimeId|
                #[trigger] before.registered.contains_key(rt_id) && before.registered[rt_id] == id;
            &&& needed ==> final(tunnels)@ == (RegistryView {
                transports: before.transports.remove(id),
                ..before
            })
            &&& !needed ==> final(tunnels)@ == (RegistryView {
                transports: before.transports.remove(id),
                handles: before.handles.remove(id),
                ..before
            })
        }),
{
}

/// The calls on the tunnels can be made in every state of them, and those of a transport as long as
/// it is held; only where a callback may have to be run must one more be countable, and only a
/// guard that was given out comes back.
pub proof fn law_registry_calls_can_be_made(
    tunnels: &mut PacketTunnels,
    rt_id: RuntimeId,
    running: bool,
    size: usize,
    notifier: Option<PacketTunnelNotifier>,
    packet: &[u8],
    item: Vec<u8>,
    buffer: &mut [u8],
    transport: PacketTunnelTransport,
    guard: CallbackGuard,
    phase: PollPhase,
    effects: &mut Vec<Effect>,
)
    requires
        old(tunnels).wf(),
        forall|id: HandleId| #[trigger]
            old(tunnels)@.handles.contains_key(id) ==> old(tunnels)@.handles[id].callbacks_in_flight
                < usize::MAX,
    ensures
        call_requires(PacketTunnels::new, (size, size)),
        call_requires(PacketTunnels::set_default_queue_sizes, (tunnels, size, size)),
        call_requires(normalize_packet_queue_size, (size, size)),
        call_requires(init_runtime_packet_tunnel, (tunnels, rt_id, running, size, size)),
        call_requires(has_runtime_packet_tunnel, (&*old(tunnels), rt_id)),
        call_requires(take_runtime_packet_tunnel, (tunnels, rt_id)),
        call_requires(remove_runtime_packet_tunnel, (tunnels, rt_id, effects)),
        call_requires(set_runtime_packet_input_callback, (tunnels, rt_id, notifier)),
        call_requires(set_runtime_packet_output_callback, (tunnels, rt_id, notifier, effects)),
        call_requires(write_runtime_packet, (tunnels, rt_id, packet, effects)),
        call_requires(read_runtime_packet, (tunnels, rt_id, buffer, effects)),
        old(tunnels)@.handles.contains_key(guard.handle)
            && old(tunnels)@.handles[guard.handle].callbacks_in_flight > 0 ==> call_requires(
            finish_callback,
            (tunnels, guard, effects),
        ),
        old(tunnels)@.transports.contains(transport.handle) ==> {
            &&& call_requires(
                PacketTunnelTransport::poll_next,
                (&transport, tunnels, phase, effects),
            )
            &&& call_requires(
                PacketTunnelTransport::poll_ready,
                (&transport, &*old(tunnels), phase),
            )
            &&& call_requires(
                PacketTunnelTransport::start_send,
                (&transport, tunnels, item, effects),
            )
            &&& call_requires(PacketTunnelTransport::poll_close, (&transport, tunnels, effects))
            &&& call_requires(PacketTunnelTransport::release, (transport, tunnels))
        },
        call_requires(PacketTunnelTransport::poll_flush, (&transport,)),
{
    old(tunnels).lemma_well_formed();
}

} // verus!
