//! What each call of the host for its packet tunnels does, from what it is given to what it hands
//! back.

use vstd::prelude::*;

use crate::error::TunnelError;
use crate::ffi::tunnel::{
    leaf_packet_tunnel_close, leaf_packet_tunnel_init, leaf_packet_tunnel_init_with_options,
    leaf_packet_tunnel_read, leaf_packet_tunnel_set_input_ready_callback,
    leaf_packet_tunnel_set_output_callback, leaf_packet_tunnel_write,
};
use crate::packet_io::effect::{Effect, PacketTunnelNotifier, RuntimeId};
use crate::packet_io::model::{
    lemma_total_bytes_drop_first, lemma_total_bytes_push, total_bytes, TunnelView,
};
use crate::packet_io::registry::{
    remove_runtime_packet_tunnel, set_runtime_packet_input_callback,
    set_runtime_packet_output_callback, PacketTunnels,
};
use crate::packet_io::registry_model::RegistryView;

verus! {

/// On a registry that was set up and used as it is meant to be, the host can make each of its calls
/// at any time; for setting a callback that is to be run at once, one more callback must be
/// countable.
pub proof fn law_host_calls_can_be_made(
    tunnels: &mut PacketTunnels,
    rt_id: RuntimeId,
    running: bool,
    input: usize,
    output: usize,
    context: usize,
    callback: Option<usize>,
    packet: &[u8],
    buffer: &mut [u8],
    packet_len: &mut usize,
    effects: &mut Vec<Effect>,
)
    requires
        old(tunnels).wf(),
        packet@.len() <= usize::MAX,
        old(buffer)@.len() <= usize::MAX,
    ensures
        call_requires(
            leaf_packet_tunnel_init_with_options,
            (tunnels, rt_id, running, input, output),
        ),
        call_requires(leaf_packet_tunnel_init, (tunnels, rt_id, running, output)),
        call_requires(
            leaf_packet_tunnel_set_input_ready_callback,
            (tunnels, rt_id, context, callback),
        ),
        !old(tunnels)@.registered.contains_key(rt_id)
            || old(tunnels)@.handles[old(tunnels)@.registered[rt_id]].callbacks_in_flight
            < usize::MAX ==> call_requires(
            leaf_packet_tunnel_set_output_callback,
            (tunnels, rt_id, context, callback, effects),
        ),
        call_requires(
            leaf_packet_tunnel_write,
            (tunnels, rt_id, Some(packet), packet@.len() as usize, effects),
        ),
        call_requires(
            leaf_packet_tunnel_write,
            (tunnels, rt_id, None::<&[u8]>, input, effects),
        ),
        call_requires(
            leaf_packet_tunnel_read,
            (
                tunnels,
                rt_id,
                Some(buffer),
                old(buffer)@.len() as usize,
                Some(packet_len),
                effects,
            ),
        ),
        call_requires(
            leaf_packet_tunnel_read,
            (tunnels, rt_id, None::<&mut [u8]>, input, Some(packet_len), effects),
        ),
        call_requires(leaf_packet_tunnel_close, (tunnels, rt_id, effects)),
{
}

/// The host gets a tunnel exactly where the runtime is not running, has none, and neither queue
/// size is above 4096. The queues hold exactly as many packets as it asked for, or the default for
/// 0. A size above 4096 is an invalid argument; otherwise a refusal says that it exists already,
/// and changes nothing.
pub proof fn law_host_gets_the_tunnel_asked_for(
    tunnels: &mut PacketTunnels,
    rt_id: RuntimeId,
    running: bool,
    input: usize,
    output: usize,
    code: i32,
)
    requires
        call_ensures(
            leaf_packet_tunnel_init_with_options,
            (tunnels, rt_id, running, input, output),
            code,
        ),
    ensures
        final(tunnels).wf(),
        ({
            let before = old(tunnels)@;
            let after = final(tunnels)@;
            let sized = input <= 4_096 && output <= 4_096;
            &&& code == 0 <==> !running && sized && !before.registered.contains_key(rt_id)
            &&& code == 10 <==> !running && !sized
            &&& code == 11 <==> running || (sized && before.registered.contains_key(rt_id))
            &&& code != 0 ==> after == before
            &&& code == 0 ==> {
                let id = after.registered[rt_id];
                let tunnel = after.handles[id];
                &&& after.registered == before.registered.insert(rt_id, id)
                &&& !before.handles.contains_key(id)
                &&& after.handles == before.handles.insert(id, tunnel)
                &&& after.transports == before.transports
                &&& after.given_up == before.given_up.remove(rt_id)
                &&& after.default_input_queue_size == before.default_input_queue_size
                &&& after.default_output_queue_size == before.default_output_queue_size
                &&& tunnel.id == id
                &&& input > 0 ==> tunnel.input_queue_limit == input
                &&& output > 0 ==> tunnel.output_queue_limit == output
                &&& input == 0 && 1 <= before.default_input_queue_size <= 4_096
                    ==> tunnel.input_queue_limit == before.default_input_queue_size
                &&& output == 0 && 1 <= before.default_output_queue_size <= 4_096
                    ==> tunnel.output_queue_limit == before.default_output_queue_size
                &&& input == 0 && before.default_input_queue_size == 0
                    ==> tunnel.input_queue_limit == 1
                &&& output == 0 && before.default_output_queue_size == 0
                    ==> tunnel.output_queue_limit == 1
                &&& input == 0 && before.default_input_queue_size > 4_096
                    ==> tunnel.input_queue_limit == 4_096
                &&& output == 0 && before.default_output_queue_size > 4_096
                    ==> tunnel.output_queue_limit == 4_096
                &&& tunnel.input_byte_limit == 1024 * 1024
                &&& tunnel.output_byte_limit == 2 * 1024 * 1024
                &&& tunnel.input.len() == 0 && tunnel.output.len() == 0
                &&& tunnel.input_ready_notifier is None && tunnel.output_ready_notifier is None
                &&& tunnel.callbacks_in_flight == 0
                &&& !tunnel.input_refused && !tunnel.connected && !tunnel.closed
            }
        }),
{
}

/// Setting a tunnel up without a size for the input queue is setting it up with a size of 0: the
/// same code, and a tunnel with the same limits.
pub proof fn law_short_set_up_uses_the_default(
    tunnels: &mut PacketTunnels,
    rt_id: RuntimeId,
    running: bool,
    output: usize,
    code: i32,
    twin: &mut PacketTunnels,
    twin_code: i32,
)
    requires
        call_ensures(leaf_packet_tunnel_init, (tunnels, rt_id, running, output), code),
        call_ensures(
            leaf_packet_tunnel_init_with_options,
            (twin, rt_id, running, 0, output),
            twin_code,
        ),
        old(twin)@ == old(tunnels)@,
    ensures
        final(tunnels).wf(),
        code == twin_code,
        code != 0 ==> final(tunnels)@ == old(tunnels)@,
        code == 0 ==> {
            let id = final(tunnels)@.registered[rt_id];
            let twin_id = final(twin)@.registered[rt_id];
            &&& final(tunnels)@ == (RegistryView {
                registered: old(tunnels)@.registered.insert(rt_id, id),
                handles: old(tunnels)@.handles.insert(
                    id,
                    TunnelView { id, ..final(twin)@.handles[twin_id] },
                ),
                ..final(twin)@
            })
            &&& !old(tunnels)@.handles.contains_key(id)
        },
{
}

/// What the host gives as its callback is what its tunnel gets: the same function and context, for
/// the runtime that was named, or none. The calls do what they do in the registry, and without a
/// tunnel they are answered as not found.
pub proof fn law_host_callbacks_are_passed_on(
    tunnels: &mut PacketTunnels,
    rt_id: RuntimeId,
    context: usize,
    callback: Option<usize>,
    code: i32,
    twin: &mut PacketTunnels,
    twin_result: Result<(), TunnelError>,
)
    requires
        call_ensures(
            leaf_packet_tunnel_set_input_ready_callback,
            (tunnels, rt_id, context, callback),
            code,
        ),
        call_ensures(
            set_runtime_packet_input_callback,
            (
                twin,
                rt_id,
                if callback is Some {
                    Some(PacketTunnelNotifier { rt_id, context, callback: callback->0 })
                } else {
                    None
                },
            ),
            twin_result,
        ),
        old(twin)@ == old(tunnels)@,
    ensures
        final(tunnels).wf(),
        final(tunnels)@ == final(twin)@,
        code == 0 <==> twin_result is Ok,
        code == 0 <==> old(tunnels)@.registered.contains_key(rt_id),
        code != 0 ==> code == 12,
{
}

/// The same of the callback for output, which may be run at once.
pub proof fn law_host_output_callbacks_are_passed_on(
    tunnels: &mut PacketTunnels,
    rt_id: RuntimeId,
    context: usize,
    callback: Option<usize>,
    effects: &mut Vec<Effect>,
    code: i32,
    twin: &mut PacketTunnels,
    twin_effects: &mut Vec<Effect>,
    twin_result: Result<(), TunnelError>,
)
    requires
        call_ensures(
            leaf_packet_tunnel_set_output_callback,
            (tunnels, rt_id, context, callback, effects),
            code,
        ),
        call_ensures(
            set_runtime_packet_output_callback,
            (
                twin,
                rt_id,
                if callback is Some {
                    Some(PacketTunnelNotifier { rt_id, context, callback: callback->0 })
                } else {
                    None
                },
                twin_effects,
            ),
            twin_result,
        ),
        old(twin)@ == old(tunnels)@,
        old(twin_effects)@ == old(effects)@,
    ensures
        final(tunnels).wf(),
        final(tunnels)@ == final(twin)@,
        final(effects)@ == final(twin_effects)@,
        code == 0 <==> twin_result is Ok,
        code == 0 <==> old(tunnels)@.registered.contains_key(rt_id),
        code != 0 ==> code == 12,
{
}

/// A packet of the host is taken exactly where its runtime has an open tunnel with room for it;
/// then it stands last in that tunnel's input queue, and the transport of the tunnel is woken.
/// Without room the host is told that the queue is full, after a close that there is an I/O error,
/// and without a tunnel ever that none is found. An empty packet is fine and does nothing, and a
/// null pointer with a length is an invalid argument.
pub proof fn law_host_write_is_taken_and_wakes(
    tunnels: &mut PacketTunnels,
    rt_id: RuntimeId,
    packet: Option<&[u8]>,
    packet_len: usize,
    effects: &mut Vec<Effect>,
    code: i32,
)
    requires
        old(tunnels).wf(),
        packet is Some ==> packet->0@.len() == packet_len,
        call_ensures(
            leaf_packet_tunnel_write,
            (tunnels, rt_id, packet, packet_len, effects),
            code,
        ),
    ensures
        final(tunnels).wf(),
        ({
            let before = old(tunnels)@;
            let after = final(tunnels)@;
            let bytes = packet->0@;
            let sent = packet is Some && packet_len > 0;
            let known = before.registered.contains_key(rt_id);
            let id = before.registered[rt_id];
            let tunnel = before.handles[id];
            let room = tunnel.input.len() < tunnel.input_queue_limit && total_bytes(
                tunnel.input.push(bytes),
            ) <= tunnel.input_byte_limit;
            let taken = sent && known && !tunnel.closed && room;
            let full = sent && known && !tunnel.closed && !room;
            &&& code == 0 <==> packet_len == 0 || taken
            &&& code == 10 <==> packet is None && packet_len > 0
            &&& code == 14 <==> full
            &&& code == 3 <==> sent && if known {
                tunnel.closed
            } else {
                before.given_up.contains(rt_id)
            }
            &&& code == 12 <==> sent && !known && !before.given_up.contains(rt_id)
            &&& taken ==> {
                &&& after == (RegistryView {
                    handles: before.handles.insert(
                        id,
                        TunnelView { input: tunnel.input.push(bytes), ..tunnel },
                    ),
                    ..before
                })
                &&& final(effects)@ == old(effects)@.push(Effect::WakeInput(id))
            }
            &&& full ==> after == (RegistryView {
                handles: before.handles.insert(
                    id,
                    TunnelView {
                        input_refused: tunnel.input_refused || tunnel.input.len() > 0,
                        ..tunnel
                    },
                ),
                ..before
            })
            &&& !taken && !full ==> after == before
            &&& !taken ==> final(effects)@ == old(effects)@
        }),
{
    old(tunnels).lemma_well_formed();
    let before = old(tunnels)@;
    if before.registered.contains_key(rt_id) {
        let id = before.registered[rt_id];
        assert(before.handle_well_formed(id));
        lemma_total_bytes_push(before.handles[id].input, packet->0@);
        assert(before.handles.insert(id, before.handles[id]) =~= before.handles);
    }
}

/// A host that reads into a buffer gets the oldest packet of its runtime, however many are waiting.
/// With room for it, the buffer begins with exactly its bytes and is otherwise as before, its size
/// is told, it is gone from the queue, the others stay in order, and the transport is woken.
/// Without room, or without a buffer, only its size is told. Where nothing is waiting the size told
/// is 0, and where there is no tunnel or the arguments are invalid none is told; in none of these
/// does anything change.
pub proof fn law_host_read_gets_the_oldest_packet(
    tunnels: &mut PacketTunnels,
    rt_id: RuntimeId,
    buffer: &mut [u8],
    buffer_len: usize,
    packet_len: &mut usize,
    effects: &mut Vec<Effect>,
    code: i32,
)
    requires
        old(tunnels).wf(),
        old(buffer)@.len() == buffer_len,
        call_ensures(
            leaf_packet_tunnel_read,
            (tunnels, rt_id, Some(buffer), buffer_len, Some(packet_len), effects),
            code,
        ),
    ensures
        final(tunnels).wf(),
        final(buffer)@.len() == old(buffer)@.len(),
        ({
            let before = old(tunnels)@;
            let known = before.registered.contains_key(rt_id);
            let id = before.registered[rt_id];
            let tunnel = before.handles[id];
            let oldest = tunnel.output[0];
            let waiting = known && tunnel.output.len() > 0;
            let fits = oldest.len() <= buffer_len;
            &&& code == 12 <==> !known
            &&& code == 9 <==> known && !waiting
            &&& code == 13 <==> waiting && !fits
            &&& code == 0 <==> waiting && fits
            &&& code == 12 ==> *final(packet_len) == *old(packet_len)
            &&& code == 9 ==> *final(packet_len) == 0
            &&& waiting ==> *final(packet_len) == oldest.len()
            &&& code == 0 ==> {
                &&& forall|i: int|
                    0 <= i < oldest.len() ==> #[trigger] final(buffer)@[i] == oldest[i]
                &&& forall|i: int|
                    oldest.len() <= i < buffer_len ==> #[trigger] final(buffer)@[i] == old(
                        buffer,
                    )@[i]
                &&& final(tunnels)@ == (RegistryView {
                    handles: before.handles.insert(
                        id,
                        TunnelView {
                            output: tunnel.output.subrange(1, tunnel.output.len() as int),
                            ..tunnel
                        },
                    ),
                    ..before
                })
                &&& final(effects)@ == old(effects)@.push(Effect::WakeOutput(id))
            }
            &&& code != 0 ==> {
                &&& final(tunnels)@ == before
                &&& final(buffer)@ == old(buffer)@
                &&& final(effects)@ == old(effects)@
            }
        }),
{
    old(tunnels).lemma_well_formed();
    let before = old(tunnels)@;
    if before.registered.contains_key(rt_id) {
        let id = before.registered[rt_id];
        let tunnel = before.handles[id];
        assert(before.handle_well_formed(id));
        assert(before.handles.insert(id, tunnel) =~= before.handles);
        if tunnel.output.len() > 0 {
            lemma_total_bytes_drop_first(tunnel.output);
            assert(tunnel.output.drop_first() =~= tunnel.output.subrange(
                1,
                tunnel.output.len() as int,
            ));
        }
    }
}

/// A host that reads without a buffer is told the size of the oldest packet, and the packet stays,
/// unless it is empty and so needs no room. A length without a buffer is an invalid argument.
pub proof fn law_host_probe_leaves_the_packet(
    tunnels: &mut PacketTunnels,
    rt_id: RuntimeId,
    buffer_len: usize,
    packet_len: &mut usize,
    effects: &mut Vec<Effect>,
    code: i32,
)
    requires
        old(tunnels).wf(),
        call_ensures(
            leaf_packet_tunnel_read,
            (tunnels, rt_id, None::<&mut [u8]>, buffer_len, Some(packet_len), effects),
            code,
        ),
    ensures
        final(tunnels).wf(),
        ({
            let before = old(tunnels)@;
            let known = before.registered.contains_key(rt_id);
            let id = before.registered[rt_id];
            let tunnel = before.handles[id];
            let waiting = buffer_len == 0 && known && tunnel.output.len() > 0;
            let oldest = tunnel.output[0];
            &&& code == 10 <==> buffer_len > 0
            &&& code == 12 <==> buffer_len == 0 && !known
            &&& code == 9 <==> buffer_len == 0 && known && tunnel.output.len() == 0
            &&& code == 13 <==> waiting && oldest.len() > 0
            &&& code == 0 <==> waiting && oldest.len() == 0
            &&& waiting ==> *final(packet_len) == oldest.len()
            &&& code == 9 ==> *final(packet_len) == 0
            &&& code == 10 || code == 12 ==> *final(packet_len) == *old(packet_len)
            &&& code != 0 ==> final(tunnels)@ == before && final(effects)@ == old(effects)@
            &&& code == 0 ==> {
                &&& final(tunnels)@ == (RegistryView {
                    handles: before.handles.insert(
                        id,
                        TunnelView {
                            output: tunnel.output.subrange(1, tunnel.output.len() as int),
                            ..tunnel
                        },
                    ),
                    ..before
                })
                &&& final(effects)@ == old(effects)@.push(Effect::WakeOutput(id))
            }
        }),
{
    old(tunnels).lemma_well_formed();
    let before = old(tunnels)@;
    if before.registered.contains_key(rt_id) {
        let id = before.registered[rt_id];
        let tunnel = before.handles[id];
        assert(before.handle_well_formed(id));
        assert(before.handles.insert(id, tunnel) =~= before.handles);
        if tunnel.output.len() > 0 {
            lemma_total_bytes_drop_first(tunnel.output);
            assert(tunnel.output.drop_first() =~= tunnel.output.subrange(
                1,
                tunnel.output.len() as int,
            ));
        }
    }
}

/// A host that reads without a place for the size is told that the argument is invalid, and
/// nothing changes.
pub proof fn law_host_read_needs_a_place_for_the_size(
    tunnels: &mut PacketTunnels,
    rt_id: RuntimeId,
    buffer: &mut [u8],
    effects: &mut Vec<Effect>,
    code: i32,
    unbuffered: &mut PacketTunnels,
    buffer_len: usize,
    unbuffered_effects: &mut Vec<Effect>,
    unbuffered_code: i32,
)
    requires
        call_ensures(
            leaf_packet_tunnel_read,
            (
                tunnels,
                rt_id,
                Some(buffer),
                old(buffer)@.len() as usize,
                None::<&mut usize>,
                effects,
            ),
            code,
        ),
        call_ensures(
            leaf_packet_tunnel_read,
            (
                unbuffered,
                rt_id,
                None::<&mut [u8]>,
                buffer_len,
                None::<&mut usize>,
                unbuffered_effects,
            ),
            unbuffered_code,
        ),
    ensures
        code == 10,
        unbuffered_code == 10,
        final(tunnels)@ == old(tunnels)@,
        final(buffer)@ == old(buffer)@,
        final(effects)@ == old(effects)@,
        final(unbuffered)@ == old(unbuffered)@,
        final(unbuffered_effects)@ == old(unbuffered_effects)@,
{
}

/// Closing always succeeds and does what giving the tunnel up does: with a tunnel, the callbacks
/// are waited for and both tasks are woken; without one, nothing happens.
pub proof fn law_host_close_gives_the_tunnel_up(
    tunnels: &mut PacketTunnels,
    rt_id: RuntimeId,
    effects: &mut Vec<Effect>,
    code: i32,
    twin: &mut PacketTunnels,
    twin_effects: &mut Vec<Effect>,
)
    requires
        old(tunnels).wf(),
        call_ensures(leaf_packet_tunnel_close, (tunnels, rt_id, effects), code),
        call_ensures(remove_runtime_packet_tunnel, (twin, rt_id, twin_effects), ()),
        old(twin)@ == old(tunnels)@,
        old(twin_effects)@ == old(effects)@,
    ensures
        final(tunnels).wf(),
        code == 0,
        final(tunnels)@ == final(twin)@,
        final(effects)@ == final(twin_effects)@,
        !final(tunnels)@.registered.contains_key(rt_id),
        old(tunnels)@.registered.contains_key(rt_id) ==> {
            let id = old(tunnels)@.registered[rt_id];
            &&& final(tunnels)@.given_up.contains(rt_id)
            &&& final(effects)@ == old(effects)@ + seq![
                Effect::WaitForCallbacks(id),
                Effect::WakeInput(id),
                Effect::WakeOutput(id),
            ]
        },
        !old(tunnels)@.registered.contains_key(rt_id) ==> {
            &&& final(tunnels)@ == old(tunnels)@
            &&& final(effects)@ == old(effects)@
        },
{
    old(tunnels).lemma_well_formed();
    if old(tunnels)@.registered.contains_key(rt_id) {
        assert(old(tunnels)@.handle_well_formed(old(tunnels)@.registered[rt_id]));
    }
}

} // verus!
