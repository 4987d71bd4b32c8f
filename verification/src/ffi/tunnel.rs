//! The functions of the host for its packet tunnels.

use vstd::prelude::*;

use crate::errno::{
    io_errno, io_to_errno, ERR_ALREADY_EXISTS, ERR_BUFFER_TOO_SMALL, ERR_INVALID_ARGUMENT, ERR_IO,
    ERR_NOT_FOUND, ERR_NO_DATA, ERR_OK, ERR_QUEUE_FULL,
};
use crate::error::TunnelError;
use crate::packet_io::effect::{Effect, PacketTunnelNotifier, RuntimeId};
use crate::packet_io::model::{lemma_total_bytes_drop_first, total_bytes, RuntimePacketRead};
use crate::packet_io::registry::{
    init_runtime_packet_tunnel, read_runtime_packet, remove_runtime_packet_tunnel,
    set_runtime_packet_input_callback, set_runtime_packet_output_callback, write_runtime_packet,
    PacketTunnels,
};
use crate::packet_io::registry_model::RegistryView;

verus! {

/// Maximum accepted size for either packet tunnel queue.
pub const MAX_PACKET_TUNNEL_QUEUE_SIZE: usize = 4_096;

/// The maximum that the host is told is the one that the tunnels go by.
pub proof fn assert_max_packet_tunnel_queue_size_matches_runtime()
    ensures
        MAX_PACKET_TUNNEL_QUEUE_SIZE
            == crate::packet_io::registry_model::MAX_PACKET_TUNNEL_QUEUE_SIZE,
{
}

/// The code for what a tunnel operation was refused for, if it was.
pub open spec fn refusal_errno(refusal: Option<TunnelError>) -> i32 {
    match refusal {
        None => ERR_OK,
        Some(e) => io_errno(e.spec_kind()),
    }
}

/// The code for what reading a packet came to.
pub open spec fn read_errno(result: Result<RuntimePacketRead, TunnelError>) -> i32 {
    match result {
        Ok(RuntimePacketRead::Packet(_)) => ERR_OK,
        Ok(RuntimePacketRead::NoData) => ERR_NO_DATA,
        Ok(RuntimePacketRead::BufferTooSmall(_)) => ERR_BUFFER_TOO_SMALL,
        Err(e) => io_errno(e.spec_kind()),
    }
}

/// The size that the host is told when it reads a packet; `before` where it is told none.
pub open spec fn read_packet_len(
    result: Result<RuntimePacketRead, TunnelError>,
    before: usize,
) -> usize {
    match result {
        Ok(RuntimePacketRead::Packet(len)) => len,
        Ok(RuntimePacketRead::NoData) => 0,
        Ok(RuntimePacketRead::BufferTooSmall(len)) => len,
        Err(_) => before,
    }
}

/// The notifier for a callback of the host, if it passed one.
pub open spec fn host_notifier(rt_id: RuntimeId, context: usize, callback: Option<usize>) -> Option<
    PacketTunnelNotifier,
> {
    match callback {
        Some(callback) => Some(PacketTunnelNotifier { rt_id, context, callback }),
        None => None,
    }
}

/// The code for a tunnel operation on a runtime that must have a tunnel.
pub open spec fn registered_errno(registry: RegistryView, rt_id: RuntimeId) -> i32 {
    if registry.registered.contains_key(rt_id) {
        ERR_OK
    } else {
        refusal_errno(Some(TunnelError::NotInitialized))
    }
}

/// Returns the code of a tunnel operation that gives nothing back.
fn result_code(result: Result<(), TunnelError>) -> (code: i32)
    ensures
        code == match result {
            Ok(_) => ERR_OK,
            Err(e) => refusal_errno(Some(e)),
        },
{
    match result {
        Ok(_) => ERR_OK,
        Err(e) => io_to_errno(e.kind()),
    }
}

/// Makes the notifier for a callback of the host, if it passed one.
fn notifier_of(rt_id: RuntimeId, context: usize, callback: Option<usize>) -> (notifier: Option<
    PacketTunnelNotifier,
>)
    ensures
        notifier == host_notifier(rt_id, context, callback),
{
    match callback {
        Some(callback) => Some(PacketTunnelNotifier::new(rt_id, context, callback)),
        None => None,
    }
}

/// Sets up the tunnel of a runtime that has not been started. A queue size of 0 stands for the
/// default size.
pub fn leaf_packet_tunnel_init_with_options(
    tunnels: &mut PacketTunnels,
    rt_id: RuntimeId,
    running: bool,
    input_queue_size: usize,
    output_queue_size: usize,
) -> (code: i32)
    requires
        old(tunnels).wf(),
    ensures
        final(tunnels).wf(),
        code == refusal_errno(
            old(tunnels)@.init_refusal(rt_id, running, input_queue_size, output_queue_size),
        ),
        match old(tunnels)@.init_refusal(rt_id, running, input_queue_size, output_queue_size) {
            None => {
                let id = final(tunnels)@.registered[rt_id];
                &&& !old(tunnels)@.handles.contains_key(id)
                &&& final(tunnels)@ == old(tunnels)@.after_init(
                    rt_id,
                    id,
                    input_queue_size,
                    output_queue_size,
                )
            },
            Some(_) => final(tunnels)@ == old(tunnels)@,
        },
{
    result_code(
        init_runtime_packet_tunnel(tunnels, rt_id, running, input_queue_size, output_queue_size),
    )
}

/// Sets up the tunnel of a runtime with an input queue of the default size.
pub fn leaf_packet_tunnel_init(
    tunnels: &mut PacketTunnels,
    rt_id: RuntimeId,
    running: bool,
    output_queue_size: usize,
) -> (code: i32)
    requires
        old(tunnels).wf(),
    ensures
        final(tunnels).wf(),
        code == refusal_errno(old(tunnels)@.init_refusal(rt_id, running, 0, output_queue_size)),
        match old(tunnels)@.init_refusal(rt_id, running, 0, output_queue_size) {
            None => {
                let id = final(tunnels)@.registered[rt_id];
                &&& !old(tunnels)@.handles.contains_key(id)
                &&& final(tunnels)@ == old(tunnels)@.after_init(rt_id, id, 0, output_queue_size)
            },
            Some(_) => final(tunnels)@ == old(tunnels)@,
        },
{
    leaf_packet_tunnel_init_with_options(tunnels, rt_id, running, 0, output_queue_size)
}

/// Sets or clears the callback that tells the host that the input queue has room again, once it
/// was full or the host was refused a packet with `ERR_QUEUE_FULL` because of those queued.
pub fn leaf_packet_tunnel_set_input_ready_callback(
    tunnels: &mut PacketTunnels,
    rt_id: RuntimeId,
    context: usize,
    callback: Option<usize>,
) -> (code: i32)
    requires
        old(tunnels).wf(),
    ensures
        final(tunnels).wf(),
        code == registered_errno(old(tunnels)@, rt_id),
        final(tunnels)@ == old(tunnels)@.after_set_input(
            rt_id,
            host_notifier(rt_id, context, callback),
        ),
{
    result_code(
        set_runtime_packet_input_callback(tunnels, rt_id, notifier_of(rt_id, context, callback)),
    )
}

/// Sets or clears the callback that tells the host that output packets are waiting. Where some
/// are waiting already, it is run at once.
pub fn leaf_packet_tunnel_set_output_callback(
    tunnels: &mut PacketTunnels,
    rt_id: RuntimeId,
    context: usize,
    callback: Option<usize>,
    effects: &mut Vec<Effect>,
) -> (code: i32)
    requires
        old(tunnels).wf(),
        old(tunnels)@.registered.contains_key(rt_id) && old(tunnels)@.tunnel(
            rt_id,
        ).set_output_notifier_now(host_notifier(rt_id, context, callback)) is Some
            ==> old(tunnels)@.tunnel(rt_id).callback_room(),
    ensures
        final(tunnels).wf(),
        code == registered_errno(old(tunnels)@, rt_id),
        final(tunnels)@ == old(tunnels)@.after_set_output(
            rt_id,
            host_notifier(rt_id, context, callback),
        ),
        final(effects)@ == old(effects)@ + old(tunnels)@.set_output_effects(
            rt_id,
            host_notifier(rt_id, context, callback),
        ),
{
    result_code(
        set_runtime_packet_output_callback(
            tunnels,
            rt_id,
            notifier_of(rt_id, context, callback),
            effects,
        ),
    )
}

/// Takes one packet of the host into the tunnel of the runtime. The host is told
/// `ERR_QUEUE_FULL` where the packet would take the input queue over a limit, and `ERR_IO` once
/// the tunnel has been closed, by its transport or by the host.
pub fn leaf_packet_tunnel_write(
    tunnels: &mut PacketTunnels,
    rt_id: RuntimeId,
    packet: Option<&[u8]>,
    packet_len: usize,
    effects: &mut Vec<Effect>,
) -> (code: i32)
    requires
        old(tunnels).wf(),
        packet matches Some(bytes) ==> bytes@.len() == packet_len,
    ensures
        final(tunnels).wf(),
        match packet {
            Some(bytes) => {
                &&& code == refusal_errno(old(tunnels)@.write_refusal(rt_id, bytes@))
                &&& final(tunnels)@ == old(tunnels)@.after_write(rt_id, bytes@)
                &&& final(effects)@ == old(effects)@ + old(tunnels)@.write_effects(rt_id, bytes@)
            },
            None => {
                &&& code == if packet_len == 0 {
                    ERR_OK
                } else {
                    ERR_INVALID_ARGUMENT
                }
                &&& final(tunnels)@ == old(tunnels)@
                &&& final(effects)@ == old(effects)@
            },
        },
{
    if packet_len == 0 {
        return ERR_OK;
    }
    match packet {
        None => ERR_INVALID_ARGUMENT,
        Some(packet) => result_code(write_runtime_packet(tunnels, rt_id, packet, effects)),
    }
}

/// Reads one packet for the host. The size of the packet is stored in `packet_len`, also
/// where the buffer is too small for it; then the packet stays for the next read. A read
/// without a buffer asks for the size alone.
pub fn leaf_packet_tunnel_read(
    tunnels: &mut PacketTunnels,
    rt_id: RuntimeId,
    buffer: Option<&mut [u8]>,
    buffer_len: usize,
    packet_len: Option<&mut usize>,
    effects: &mut Vec<Effect>,
) -> (code: i32)
    requires
        old(tunnels).wf(),
        buffer matches Some(bytes) ==> bytes@.len() == buffer_len,
    ensures
        final(tunnels).wf(),
        packet_len is None || (buffer is None && buffer_len > 0) ==> {
            &&& code == ERR_INVALID_ARGUMENT
            &&& final(tunnels)@ == old(tunnels)@
            &&& final(effects)@ == old(effects)@
            &&& buffer matches Some(bytes) ==> final(bytes)@ == bytes@
            &&& packet_len matches Some(len) ==> *final(len) == *len
        },
        packet_len is Some && !(buffer is None && buffer_len > 0) ==> {
            let result = old(tunnels)@.read_result(rt_id, buffer_len as nat);
            &&& code == read_errno(result)
            &&& final(tunnels)@ == old(tunnels)@.after_read(rt_id, buffer_len as nat)
            &&& final(effects)@ == old(effects)@ + old(tunnels)@.read_effects(
                rt_id,
                buffer_len as nat,
            )
            &&& buffer matches Some(bytes) ==> final(bytes)@ == old(tunnels)@.buffer_after_read(
                rt_id,
                bytes@,
            )
            &&& packet_len matches Some(len) ==> *final(len) == read_packet_len(result, *len)
        },
{
    let packet_len = match packet_len {
        None => return ERR_INVALID_ARGUMENT,
        Some(packet_len) => packet_len,
    };
    let result = match buffer {
        Some(buffer) => read_runtime_packet(tunnels, rt_id, buffer, effects),
        None => {
            if buffer_len > 0 {
                return ERR_INVALID_ARGUMENT;
            }
            let mut none: [u8; 0] = [];
            read_runtime_packet(tunnels, rt_id, &mut none, effects)
        },
    };
    match result {
        Ok(RuntimePacketRead::Packet(len)) => {
            *packet_len = len;
            ERR_OK
        },
        Ok(RuntimePacketRead::NoData) => {
            *packet_len = 0;
            ERR_NO_DATA
        },
        Ok(RuntimePacketRead::BufferTooSmall(len)) => {
            *packet_len = len;
            ERR_BUFFER_TOO_SMALL
        },
        Err(e) => io_to_errno(e.kind()),
    }
}

/// Closes the tunnel of the runtime and gives it up, if the runtime has one.
pub fn leaf_packet_tunnel_close(
    tunnels: &mut PacketTunnels,
    rt_id: RuntimeId,
    effects: &mut Vec<Effect>,
) -> (code: i32)
    requires
        old(tunnels).wf(),
    ensures
        final(tunnels).wf(),
        code == ERR_OK,
        final(tunnels)@ == old(tunnels)@.after_remove(rt_id),
        final(effects)@ == old(effects)@ + old(tunnels)@.remove_effects(rt_id),
{
    remove_runtime_packet_tunnel(tunnels, rt_id, effects);
    ERR_OK
}

/// What the host is told of a packet that it writes: that the queue is full where the tunnel is
/// open and the packet is over a limit, an I/O error where the tunnel was closed, also once it is
/// given up, that there is no tunnel where there never was one, and otherwise that it was taken.
pub proof fn law_write_codes(registry: RegistryView, rt_id: RuntimeId, packet: Seq<u8>)
    requires
        packet.len() > 0,
    ensures
        ({
            let code = refusal_errno(registry.write_refusal(rt_id, packet));
            let has_tunnel = registry.registered.contains_key(rt_id);
            let tunnel = registry.tunnel(rt_id);
            let over_limit = tunnel.input.len() >= tunnel.input_queue_limit || total_bytes(
                tunnel.input,
            ) + packet.len() > tunnel.input_byte_limit;
            &&& code == ERR_QUEUE_FULL <==> has_tunnel && !tunnel.closed && over_limit
            &&& code == ERR_IO <==> if has_tunnel {
                tunnel.closed
            } else {
                registry.given_up.contains(rt_id)
            }
            &&& code == ERR_NOT_FOUND <==> !has_tunnel && !registry.given_up.contains(rt_id)
            &&& code == ERR_OK <==> has_tunnel && !tunnel.closed && !over_limit
        }),
{
}

/// What the host is told when it reads into a buffer of `capacity` bytes: that there is nothing
/// to read exactly where its queue is empty, that the buffer is too small exactly where the oldest
/// packet is larger, that there is no tunnel where there is none, and otherwise that it got the
/// packet. Only then is a packet gone.
pub proof fn law_read_codes(registry: RegistryView, rt_id: RuntimeId, capacity: nat)
    ensures
        ({
            let code = read_errno(registry.read_result(rt_id, capacity));
            let has_tunnel = registry.registered.contains_key(rt_id);
            let output = registry.tunnel(rt_id).output;
            &&& code == ERR_NOT_FOUND <==> !has_tunnel
            &&& code == ERR_NO_DATA <==> has_tunnel && output.len() == 0
            &&& code == ERR_BUFFER_TOO_SMALL <==> has_tunnel && output.len() > 0 && output[0].len()
                > capacity
            &&& code == ERR_OK <==> has_tunnel && output.len() > 0 && output[0].len() <= capacity
            &&& code == ERR_OK ==> registry.after_read(rt_id, capacity).tunnel(rt_id).output
                == output.drop_first()
            &&& code != ERR_OK && registry.well_formed() ==> registry.after_read(rt_id, capacity)
                == registry
        }),
{
    if registry.well_formed() {
        assert(registry.registered.contains_key(rt_id) ==> registry.handles.contains_key(
            registry.registered[rt_id],
        ));
        assert(read_errno(registry.read_result(rt_id, capacity)) != ERR_OK
            ==> registry.after_read(rt_id, capacity) =~= registry);
    }
}

/// What the host is told when it asks for a tunnel: an invalid argument for a queue size above
/// the maximum, that the tunnel exists where it does, and the same where the runtime runs.
pub proof fn law_init_codes(
    registry: RegistryView,
    rt_id: RuntimeId,
    running: bool,
    input_queue_size: usize,
    output_queue_size: usize,
)
    ensures
        ({
            let code = refusal_errno(
                registry.init_refusal(rt_id, running, input_queue_size, output_queue_size),
            );
            let too_large = input_queue_size > MAX_PACKET_TUNNEL_QUEUE_SIZE || output_queue_size
                > MAX_PACKET_TUNNEL_QUEUE_SIZE;
            &&& code == ERR_INVALID_ARGUMENT <==> !running && too_large
            &&& code == ERR_ALREADY_EXISTS <==> running || (!too_large
                && registry.registered.contains_key(rt_id))
            &&& code == ERR_OK <==> !running && !too_large && !registry.registered.contains_key(
                rt_id,
            )
        }),
{
}

/// A host that reads without room is told the size of the oldest packet, which it then gets with
/// a buffer of that size.
pub proof fn law_probe_tells_the_size(registry: RegistryView, rt_id: RuntimeId, before: usize)
    requires
        registry.well_formed(),
        registry.registered.contains_key(rt_id),
        registry.tunnel(rt_id).output.len() > 0,
        registry.tunnel(rt_id).output[0].len() > 0,
    ensures
        ({
            let size = registry.tunnel(rt_id).output[0].len();
            let probe = registry.read_result(rt_id, 0);
            let after = registry.after_read(rt_id, 0);
            &&& read_errno(probe) == ERR_BUFFER_TOO_SMALL
            &&& read_packet_len(probe, before) == size
            &&& after == registry
            &&& read_errno(after.read_result(rt_id, size)) == ERR_OK
            &&& read_packet_len(after.read_result(rt_id, size), before) == size
        }),
{
    let tunnel = registry.tunnel(rt_id);
    assert(registry.handle_well_formed(registry.registered[rt_id]));
    lemma_total_bytes_drop_first(tunnel.output);
    assert(registry.after_read(rt_id, 0) =~= registry);
}

} // verus!
