//! What holds of the tunnels of all runtimes together.

use vstd::prelude::*;

use crate::error::TunnelError;
use crate::packet_io::effect::{Effect, HandleId, PacketTunnelNotifier, RuntimeId};
use crate::packet_io::laws::{
    law_callbacks_are_counted, law_closed_is_final, law_input_is_delivered_in_order,
    law_output_is_delivered_in_order, lemma_step_within_limits, notify_count, TunnelOp,
};
use crate::packet_io::model::TunnelView;
use crate::packet_io::registry_model::{
    lemma_after_init, lemma_after_release, lemma_after_remove, lemma_after_take,
    lemma_maps_to_remove, lemma_with_default_queue_sizes, lemma_with_handle, maps_to,
    normalized_queue_size, RegistryView, DEFAULT_INPUT_BYTE_LIMIT, MAX_PACKET_TUNNEL_QUEUE_SIZE,
};
use crate::packet_io::transport::{PollPhase, PollStep};

verus! {

/// A queue size that is accepted is between 1 and the maximum, and an explicit size is kept as
/// it is.
pub proof fn law_queue_sizes_are_in_range(queue_size: usize, default_size: usize)
    ensures
        match normalized_queue_size(queue_size, default_size) {
            Ok(size) => {
                &&& 1 <= size <= MAX_PACKET_TUNNEL_QUEUE_SIZE
                &&& queue_size != 0 ==> size == queue_size
            },
            Err(_) => queue_size > MAX_PACKET_TUNNEL_QUEUE_SIZE,
        },
{
}

/// A runtime gets a second tunnel only after the first was given up: until then it is refused
/// one, and afterwards it gets one where it got the first. The transport of a new tunnel can be
/// taken.
pub proof fn law_init_is_refused_until_removed(
    registry: RegistryView,
    rt_id: RuntimeId,
    id: HandleId,
    input_queue_size: usize,
    output_queue_size: usize,
)
    requires
        registry.init_refusal(rt_id, false, input_queue_size, output_queue_size) is None,
    ensures
        ({
            let up = registry.after_init(rt_id, id, input_queue_size, output_queue_size);
            &&& up.registered.contains_key(rt_id)
            &&& up.take_refusal(rt_id) is None
            &&& up.init_refusal(rt_id, false, input_queue_size, output_queue_size) == Some(
                TunnelError::AlreadyInitialized,
            )
            &&& !up.after_remove(rt_id).registered.contains_key(rt_id)
            &&& up.after_remove(rt_id).init_refusal(
                rt_id,
                false,
                input_queue_size,
                output_queue_size,
            ) is None
        }),
{
}

/// A running runtime gets no tunnel.
pub proof fn law_running_runtime_gets_no_tunnel(
    registry: RegistryView,
    rt_id: RuntimeId,
    input_queue_size: usize,
    output_queue_size: usize,
)
    ensures
        registry.init_refusal(rt_id, true, input_queue_size, output_queue_size) == Some(
            TunnelError::AlreadyRunning,
        ),
{
}

/// Giving a tunnel up that was given up before changes nothing and has no effect.
pub proof fn law_remove_is_idempotent(registry: RegistryView, rt_id: RuntimeId)
    ensures
        registry.after_remove(rt_id).after_remove(rt_id) == registry.after_remove(rt_id),
        registry.after_remove(rt_id).remove_effects(rt_id) == Seq::<Effect>::empty(),
{
}

/// The transport of a tunnel is given out once.
pub proof fn law_transport_is_taken_once(registry: RegistryView, rt_id: RuntimeId)
    requires
        registry.registered.contains_key(rt_id),
    ensures
        registry.after_take(rt_id).take_refusal(rt_id) == Some(TunnelError::AlreadyConnected),
        registry.after_take(rt_id).transports.contains(registry.registered[rt_id]),
{
}

/// A host that writes after its tunnel was closed is told so, whether the transport closed it or
/// the tunnel was given up, and the write changes nothing. Once the runtime has another tunnel,
/// the packet is taken.
pub proof fn law_write_after_close_is_refused(
    registry: RegistryView,
    rt_id: RuntimeId,
    packet: Seq<u8>,
    id: HandleId,
    input_queue_size: usize,
    output_queue_size: usize,
)
    requires
        registry.registered.contains_key(rt_id),
        packet.len() > 0,
    ensures
        registry.with_tunnel(rt_id, registry.tunnel(rt_id).after_close()).write_refusal(
            rt_id,
            packet,
        ) == Some(TunnelError::Closed),
        registry.after_remove(rt_id).write_refusal(rt_id, packet) == Some(TunnelError::Closed),
        registry.after_remove(rt_id).after_write(rt_id, packet) == registry.after_remove(rt_id),
        packet.len() <= DEFAULT_INPUT_BYTE_LIMIT && registry.after_remove(rt_id).init_refusal(
            rt_id,
            false,
            input_queue_size,
            output_queue_size,
        ) is None ==> registry.after_remove(rt_id).after_init(
            rt_id,
            id,
            input_queue_size,
            output_queue_size,
        ).write_refusal(rt_id, packet) is None,
{
}

/// A transport that is held when its tunnel is given up can still take the input packets that
/// are left, and nobody is called back for it.
pub proof fn law_packets_outlive_registration(registry: RegistryView, rt_id: RuntimeId)
    requires
        registry.registered.contains_key(rt_id),
        registry.transports.contains(registry.registered[rt_id]),
    ensures
        ({
            let id = registry.registered[rt_id];
            let after = registry.after_remove(rt_id);
            &&& after.transports.contains(id)
            &&& after.handles.contains_key(id)
            &&& after.handles[id] == registry.handles[id].after_close()
            &&& after.handles[id].input == registry.handles[id].input
            &&& after.handles[id].pop_input_effects() == Seq::<Effect>::empty()
        }),
{
}

/// Once a tunnel has been given up no callback of it is started, whatever still happens to it,
/// and closing it has the caller wait first for those that are running.
pub proof fn law_no_callback_after_remove(
    registry: RegistryView,
    rt_id: RuntimeId,
    ops: Seq<TunnelOp>,
)
    requires
        registry.registered.contains_key(rt_id),
    ensures
        ({
            let id = registry.registered[rt_id];
            let after = registry.after_remove(rt_id);
            &&& registry.remove_effects(rt_id)[0] == Effect::WaitForCallbacks(
                registry.tunnel(rt_id).id,
            )
            &&& after.handles.contains_key(id) ==> {
                &&& notify_count(after.handles[id].run_effects(ops)) == 0
                &&& after.handles[id].run(ops).callbacks_in_flight
                    <= registry.handles[id].callbacks_in_flight
            }
        }),
{
    let after = registry.after_remove(rt_id);
    let id = registry.registered[rt_id];
    if after.handles.contains_key(id) {
        law_closed_is_final(after.handles[id], ops);
        law_callbacks_are_counted(after.handles[id], ops);
    }
}

/// `after` has the same tunnel for the runtime as `before`, in the same state, or none like it.
pub open spec fn same_tunnel(before: RegistryView, after: RegistryView, rt_id: RuntimeId) -> bool {
    &&& after.registered.contains_key(rt_id) == before.registered.contains_key(rt_id)
    &&& after.given_up.contains(rt_id) == before.given_up.contains(rt_id)
    &&& before.registered.contains_key(rt_id) ==> {
        &&& after.registered[rt_id] == before.registered[rt_id]
        &&& after.handles.contains_key(after.registered[rt_id])
        &&& after.tunnel(rt_id) == before.tunnel(rt_id)
    }
}

/// What is done for one runtime leaves the tunnel of every other as it was.
pub proof fn law_runtimes_do_not_interfere(
    registry: RegistryView,
    rt_id: RuntimeId,
    other: RuntimeId,
    packet: Seq<u8>,
    capacity: nat,
    notifier: Option<PacketTunnelNotifier>,
)
    requires
        registry.well_formed(),
        rt_id != other,
    ensures
        same_tunnel(registry, registry.after_write(rt_id, packet), other),
        same_tunnel(registry, registry.after_read(rt_id, capacity), other),
        same_tunnel(registry, registry.after_set_input(rt_id, notifier), other),
        same_tunnel(registry, registry.after_set_output(rt_id, notifier), other),
        same_tunnel(registry, registry.after_remove(rt_id), other),
        registry.registered.contains_key(rt_id) ==> same_tunnel(
            registry,
            registry.after_take(rt_id),
            other,
        ),
        forall|id: HandleId, input_queue_size: usize, output_queue_size: usize|
            !registry.handles.contains_key(id) ==> same_tunnel(
                registry,
                #[trigger] registry.after_init(rt_id, id, input_queue_size, output_queue_size),
                other,
            ),
{
    if registry.registered.contains_key(rt_id) && registry.registered.contains_key(other) {
        assert(registry.registered[rt_id] != registry.registered[other]);
    }
}

/// What is done through the transport of one tunnel, and what its callbacks do, leaves every
/// other tunnel as it was.
pub proof fn law_transports_do_not_interfere(
    registry: RegistryView,
    id: HandleId,
    other: HandleId,
    tunnel: TunnelView,
)
    requires
        id != other,
        registry.handles.contains_key(other),
    ensures
        registry.with_handle(id, tunnel).handles.contains_key(other),
        registry.with_handle(id, tunnel).handles[other] == registry.handles[other],
        registry.after_release(id).handles.contains_key(other),
        registry.after_release(id).handles[other] == registry.handles[other],
        registry.after_finish_callback(id).handles.contains_key(other),
        registry.after_finish_callback(id).handles[other] == registry.handles[other],
{
}

/// No tunnel is kept for nothing: with no runtime registered, no transport held and no callback
/// running, the registry is empty.
pub proof fn law_nothing_is_kept_for_nothing(registry: RegistryView)
    requires
        registry.well_formed(),
        registry.registered == Map::<RuntimeId, HandleId>::empty(),
        registry.transports == Set::<HandleId>::empty(),
        forall|id: HandleId| #[trigger]
            registry.handles.contains_key(id) ==> registry.handles[id].callbacks_in_flight == 0,
    ensures
        registry.handles == Map::<HandleId, TunnelView>::empty(),
{
    assert forall|id: HandleId| !registry.handles.contains_key(id) by {
        if registry.handles.contains_key(id) {
            assert(registry.in_use(id));
            assert(!maps_to(registry.registered, id));
        }
    }
    assert(registry.handles =~= Map::<HandleId, TunnelView>::empty());
}

/// One thing that a host, a transport or a callback does to the tunnels.
pub enum RegistryOp {
    /// A runtime asks for a tunnel, which gets the number `id`.
    Init {
        rt_id: RuntimeId,
        running: bool,
        input_queue_size: usize,
        output_queue_size: usize,
        id: HandleId,
    },
    /// The default sizes of the queues are set.
    SetDefaultQueueSizes(usize, usize),
    /// The transport of a runtime is asked for.
    Take(RuntimeId),
    /// The tunnel of a runtime is closed and given up.
    Remove(RuntimeId),
    /// The host writes a packet.
    Write(RuntimeId, Seq<u8>),
    /// The host reads into a buffer of this size.
    Read(RuntimeId, nat),
    SetInputNotifier(RuntimeId, Option<PacketTunnelNotifier>),
    SetOutputNotifier(RuntimeId, Option<PacketTunnelNotifier>),
    /// A transport takes the oldest input packet.
    Next(HandleId),
    /// A transport sends a packet.
    Send(HandleId, Seq<u8>),
    /// A transport closes its tunnel.
    Close(HandleId),
    /// A transport is dropped.
    Release(HandleId),
    /// A callback has returned.
    FinishCallback(HandleId),
}

impl RegistryView {
    /// The registry after something was done through the transport of the tunnel `id`.
    pub open spec fn transport_step(self, id: HandleId, op: TunnelOp) -> RegistryView {
        if self.transports.contains(id) {
            self.with_handle(id, self.handles[id].step(op))
        } else {
            self
        }
    }

    /// The registry after `op`.
    pub open spec fn step(self, op: RegistryOp) -> RegistryView {
        match op {
            RegistryOp::Init { rt_id, running, input_queue_size, output_queue_size, id } => {
                if self.init_refusal(rt_id, running, input_queue_size, output_queue_size) is None
                    && !self.handles.contains_key(id) {
                    self.after_init(rt_id, id, input_queue_size, output_queue_size)
                } else {
                    self
                }
            },
            RegistryOp::SetDefaultQueueSizes(input_queue_size, output_queue_size) => {
                self.with_default_queue_sizes(input_queue_size, output_queue_size)
            },
            RegistryOp::Take(rt_id) => {
                if self.registered.contains_key(rt_id) && self.take_refusal(rt_id) is None {
                    self.after_take(rt_id)
                } else {
                    self
                }
            },
            RegistryOp::Remove(rt_id) => self.after_remove(rt_id),
            RegistryOp::Write(rt_id, packet) => self.after_write(rt_id, packet),
            RegistryOp::Read(rt_id, capacity) => self.after_read(rt_id, capacity),
            RegistryOp::SetInputNotifier(rt_id, notifier) => self.after_set_input(rt_id, notifier),
            RegistryOp::SetOutputNotifier(rt_id, notifier) => self.after_set_output(
                rt_id,
                notifier,
            ),
            RegistryOp::Next(id) => self.transport_step(id, TunnelOp::Next),
            RegistryOp::Send(id, packet) => self.transport_step(id, TunnelOp::Send(packet)),
            RegistryOp::Close(id) => self.transport_step(id, TunnelOp::Close),
            RegistryOp::Release(id) => {
                if self.transports.contains(id) {
                    self.after_release(id)
                } else {
                    self
                }
            },
            RegistryOp::FinishCallback(id) => {
                if self.handles.contains_key(id) && self.handles[id].callbacks_in_flight > 0 {
                    self.after_finish_callback(id)
                } else {
                    self
                }
            },
        }
    }

    /// The registry after all of `ops`.
    pub open spec fn run(self, ops: Seq<RegistryOp>) -> RegistryView
        decreases ops.len(),
    {
        if ops.len() == 0 {
            self
        } else {
            self.step(ops[0]).run(ops.drop_first())
        }
    }
}

/// Something done to one tunnel that is still in use keeps the registry well-formed.
proof fn lemma_handle_step(registry: RegistryView, id: HandleId, op: TunnelOp)
    requires
        registry.well_formed(),
        registry.handles.contains_key(id),
        registry.is_registered(id) || registry.transports.contains(id),
    ensures
        registry.with_handle(id, registry.handles[id].step(op)).well_formed(),
{
    let tunnel = registry.handles[id].step(op);
    assert(registry.handle_well_formed(id));
    lemma_step_within_limits(registry.handles[id], op);
    lemma_with_handle(registry, id, tunnel);
    assert(registry.with_handle(id, tunnel).registered == registry.registered);
}

/// One operation keeps the registry well-formed.
proof fn lemma_registry_step(registry: RegistryView, op: RegistryOp)
    requires
        registry.well_formed(),
    ensures
        registry.step(op).well_formed(),
{
    match op {
        RegistryOp::Init { rt_id, running, input_queue_size, output_queue_size, id } => {
            if registry.init_refusal(rt_id, running, input_queue_size, output_queue_size) is None
                && !registry.handles.contains_key(id) {
                lemma_after_init(registry, rt_id, id, input_queue_size, output_queue_size);
            }
        },
        RegistryOp::SetDefaultQueueSizes(input_queue_size, output_queue_size) => {
            lemma_with_default_queue_sizes(registry, input_queue_size, output_queue_size);
        },
        RegistryOp::Take(rt_id) => {
            if registry.registered.contains_key(rt_id) {
                lemma_after_take(registry, rt_id);
            }
        },
        RegistryOp::Remove(rt_id) => lemma_after_remove(registry, rt_id),
        RegistryOp::Write(rt_id, packet) => {
            if registry.registered.contains_key(rt_id) {
                lemma_handle_step(registry, registry.registered[rt_id], TunnelOp::Write(packet));
            }
        },
        RegistryOp::Read(rt_id, capacity) => {
            if registry.registered.contains_key(rt_id) {
                lemma_handle_step(registry, registry.registered[rt_id], TunnelOp::Read(capacity));
            }
        },
        RegistryOp::SetInputNotifier(rt_id, notifier) => {
            if registry.registered.contains_key(rt_id) {
                lemma_handle_step(
                    registry,
                    registry.registered[rt_id],
                    TunnelOp::SetInputNotifier(notifier),
                );
            }
        },
        RegistryOp::SetOutputNotifier(rt_id, notifier) => {
            if registry.registered.contains_key(rt_id) {
                lemma_handle_step(
                    registry,
                    registry.registered[rt_id],
                    TunnelOp::SetOutputNotifier(notifier),
                );
            }
        },
        RegistryOp::Next(id) => {
            if registry.transports.contains(id) {
                lemma_handle_step(registry, id, TunnelOp::Next);
            }
        },
        RegistryOp::Send(id, packet) => {
            if registry.transports.contains(id) {
                lemma_handle_step(registry, id, TunnelOp::Send(packet));
            }
        },
        RegistryOp::Close(id) => {
            if registry.transports.contains(id) {
                lemma_handle_step(registry, id, TunnelOp::Close);
            }
        },
        RegistryOp::Release(id) => lemma_after_release(registry, id),
        RegistryOp::FinishCallback(id) => {
            if registry.handles.contains_key(id) {
                assert(registry.handle_well_formed(id));
                lemma_with_handle(registry, id, registry.handles[id].after_finish_callback());
            }
        },
    }
}

/// Whatever is done to the tunnels, each runtime has a tunnel of its own, every tunnel is within
/// its limits, and none is kept that nobody refers to.
pub proof fn law_registry_stays_well_formed(registry: RegistryView, ops: Seq<RegistryOp>)
    requires
        registry.well_formed(),
    ensures
        registry.run(ops).well_formed(),
    decreases ops.len(),
{
    if ops.len() > 0 {
        lemma_registry_step(registry, ops[0]);
        law_registry_stays_well_formed(registry.step(ops[0]), ops.drop_first());
    }
}

/// A runtime keeps its tunnel until it is given up, whatever else is done to the tunnels.
pub proof fn law_tunnel_lasts_until_removed(
    registry: RegistryView,
    rt_id: RuntimeId,
    ops: Seq<RegistryOp>,
)
    requires
        registry.well_formed(),
        registry.registered.contains_key(rt_id),
        forall|i: int| 0 <= i < ops.len() ==> #[trigger] ops[i] != RegistryOp::Remove(rt_id),
    ensures
        ({
            let end = registry.run(ops);
            &&& end.registered.contains_key(rt_id)
            &&& end.registered[rt_id] == registry.registered[rt_id]
            &&& registry.tunnel(rt_id).continues_as(end.tunnel(rt_id))
        }),
    decreases ops.len(),
{
    if ops.len() > 0 {
        let next = registry.step(ops[0]);
        let id = registry.registered[rt_id];
        assert(ops[0] != RegistryOp::Remove(rt_id));
        assert(registry.handles.contains_key(id));
        assert(registry.is_registered(id));
        lemma_registry_step(registry, ops[0]);
        assert(next.registered.contains_key(rt_id) && next.registered[rt_id] == id);
        assert(registry.handles[id].continues_as(next.handles[id]));
        assert forall|i: int| 0 <= i < ops.drop_first().len() implies #[trigger] ops.drop_first()[i]
            != RegistryOp::Remove(rt_id) by {
            assert(ops.drop_first()[i] == ops[i + 1]);
        }
        law_tunnel_lasts_until_removed(next, rt_id, ops.drop_first());
    }
}

impl RegistryView {
    /// The runtime has the tunnel `id`.
    pub open spec fn has_tunnel(self, rt_id: RuntimeId, id: HandleId) -> bool {
        self.registered.contains_key(rt_id) && self.registered[rt_id] == id
    }

    /// What `op` comes to for the tunnel `id`: one operation on it, or none.
    pub open spec fn handle_op(self, id: HandleId, op: RegistryOp) -> Seq<TunnelOp> {
        match op {
            RegistryOp::Take(rt_id) if self.has_tunnel(rt_id, id) && self.take_refusal(
                rt_id,
            ) is None => seq![TunnelOp::Connect],
            RegistryOp::Remove(rt_id) if self.has_tunnel(rt_id, id) => seq![TunnelOp::Close],
            RegistryOp::Write(rt_id, packet) if self.has_tunnel(rt_id, id) && packet.len() > 0 => {
                seq![TunnelOp::Write(packet)]
            },
            RegistryOp::Read(rt_id, capacity) if self.has_tunnel(rt_id, id) => {
                seq![TunnelOp::Read(capacity)]
            },
            RegistryOp::SetInputNotifier(rt_id, notifier) if self.has_tunnel(rt_id, id) => {
                seq![TunnelOp::SetInputNotifier(notifier)]
            },
            RegistryOp::SetOutputNotifier(rt_id, notifier) if self.has_tunnel(rt_id, id) => {
                seq![TunnelOp::SetOutputNotifier(notifier)]
            },
            RegistryOp::Next(other) if other == id && self.transports.contains(id) => {
                seq![TunnelOp::Next]
            },
            RegistryOp::Send(other, packet) if other == id && self.transports.contains(id) => {
                seq![TunnelOp::Send(packet)]
            },
            RegistryOp::Close(other) if other == id && self.transports.contains(id) => {
                seq![TunnelOp::Close]
            },
            RegistryOp::FinishCallback(other) if other == id
                && self.handles[id].callbacks_in_flight > 0 => seq![TunnelOp::FinishCallback],
            _ => Seq::empty(),
        }
    }

    /// What `ops` come to for the tunnel `id`.
    pub open spec fn handle_ops(self, id: HandleId, ops: Seq<RegistryOp>) -> Seq<TunnelOp>
        decreases ops.len(),
    {
        if ops.len() == 0 {
            Seq::empty()
        } else {
            self.handle_op(id, ops[0]) + self.step(ops[0]).handle_ops(id, ops.drop_first())
        }
    }

    /// The tunnel `id` is in use all through `ops`.
    pub open spec fn keeps(self, id: HandleId, ops: Seq<RegistryOp>) -> bool
        decreases ops.len(),
    {
        self.handles.contains_key(id) && (ops.len() > 0 ==> self.step(ops[0]).keeps(
            id,
            ops.drop_first(),
        ))
    }

    /// The packets that the host wrote to the tunnel `id` in the course of `ops` and that were
    /// taken. An empty one is never taken.
    pub open spec fn written(self, id: HandleId, ops: Seq<RegistryOp>) -> Seq<Seq<u8>>
        decreases ops.len(),
    {
        if ops.len() == 0 {
            Seq::empty()
        } else {
            let first: Seq<Seq<u8>> = match ops[0] {
                RegistryOp::Write(rt_id, packet) if self.has_tunnel(rt_id, id) && packet.len() > 0
                    && self.write_refusal(rt_id, packet) is None => seq![packet],
                _ => Seq::empty(),
            };
            first + self.step(ops[0]).written(id, ops.drop_first())
        }
    }

    /// The packets that the transport of the tunnel `id` got in the course of `ops`.
    pub open spec fn taken(self, id: HandleId, ops: Seq<RegistryOp>) -> Seq<Seq<u8>>
        decreases ops.len(),
    {
        if ops.len() == 0 {
            Seq::empty()
        } else {
            let first: Seq<Seq<u8>> = match ops[0] {
                RegistryOp::Next(other) if other == id && self.transports.contains(id)
                    && self.handles[id].input.len() > 0 => seq![self.handles[id].input[0]],
                _ => Seq::empty(),
            };
            first + self.step(ops[0]).taken(id, ops.drop_first())
        }
    }

    /// The packets that the transport of the tunnel `id` sent in the course of `ops` and that
    /// were taken. An empty one is never taken.
    pub open spec fn sent(self, id: HandleId, ops: Seq<RegistryOp>) -> Seq<Seq<u8>>
        decreases ops.len(),
    {
        if ops.len() == 0 {
            Seq::empty()
        } else {
            let first: Seq<Seq<u8>> = match ops[0] {
                RegistryOp::Send(other, packet) if other == id && self.transports.contains(id)
                    && packet.len() > 0 && self.handles[id].send_refusal(packet) is None => {
                    seq![packet]
                },
                _ => Seq::empty(),
            };
            first + self.step(ops[0]).sent(id, ops.drop_first())
        }
    }

    /// The packets that the host read from the tunnel `id` in the course of `ops`.
    pub open spec fn received(self, id: HandleId, ops: Seq<RegistryOp>) -> Seq<Seq<u8>>
        decreases ops.len(),
    {
        if ops.len() == 0 {
            Seq::empty()
        } else {
            let first: Seq<Seq<u8>> = match ops[0] {
                RegistryOp::Read(rt_id, capacity) if self.has_tunnel(rt_id, id)
                    && self.handles[id].read_delivers(capacity) => {
                    seq![self.handles[id].output[0]]
                },
                _ => Seq::empty(),
            };
            first + self.step(ops[0]).received(id, ops.drop_first())
        }
    }
}

/// What `ops` come to for the tunnel of a runtime.
pub open spec fn tunnel_ops(
    registry: RegistryView,
    rt_id: RuntimeId,
    ops: Seq<RegistryOp>,
) -> Seq<TunnelOp> {
    registry.handle_ops(registry.registered[rt_id], ops)
}

/// One operation changes a tunnel as it does for the tunnel alone.
proof fn lemma_step_of_handle(registry: RegistryView, id: HandleId, op: RegistryOp)
    requires
        registry.well_formed(),
        registry.handles.contains_key(id),
        registry.step(op).handles.contains_key(id),
    ensures
        registry.step(op).handles[id] == registry.handles[id].run(registry.handle_op(id, op)),
{
    reveal_with_fuel(TunnelView::run, 2);
    let mine = registry.handle_op(id, op);
    if mine.len() > 0 {
        assert(mine.drop_first() =~= Seq::empty());
    }
}

/// A tunnel that is in use all through a run of the registry goes through a run of its own, and
/// what is written, taken, sent and received is the same in both.
proof fn lemma_run_of_handle(registry: RegistryView, id: HandleId, ops: Seq<RegistryOp>)
    requires
        registry.well_formed(),
        registry.keeps(id, ops),
    ensures
        registry.run(ops).handles.contains_key(id),
        registry.run(ops).handles[id] == registry.handles[id].run(registry.handle_ops(id, ops)),
        registry.written(id, ops) == registry.handles[id].accepted_input(
            registry.handle_ops(id, ops),
        ),
        registry.taken(id, ops) == registry.handles[id].delivered_input(
            registry.handle_ops(id, ops),
        ),
        registry.sent(id, ops) == registry.handles[id].accepted_output(
            registry.handle_ops(id, ops),
        ),
        registry.received(id, ops) == registry.handles[id].delivered_output(
            registry.handle_ops(id, ops),
        ),
    decreases ops.len(),
{
    if ops.len() > 0 {
        let next = registry.step(ops[0]);
        let rest = ops.drop_first();
        let mine = registry.handle_op(id, ops[0]);
        let tunnel = registry.handles[id];
        assert(next.keeps(id, rest));
        lemma_registry_step(registry, ops[0]);
        lemma_step_of_handle(registry, id, ops[0]);
        lemma_run_of_handle(next, id, rest);
        let all = registry.handle_ops(id, ops);
        if mine.len() == 0 {
            assert(all =~= next.handle_ops(id, rest));
        } else {
            assert(mine.len() == 1);
            assert(all[0] == mine[0]);
            assert(all.drop_first() =~= next.handle_ops(id, rest));
            assert(mine.drop_first() =~= Seq::empty());
            reveal_with_fuel(TunnelView::run, 2);
            assert(next.handles[id] == tunnel.step(mine[0]));
        }
        assert(registry.written(id, ops) =~= tunnel.accepted_input(all));
        assert(registry.taken(id, ops) =~= tunnel.delivered_input(all));
        assert(registry.sent(id, ops) =~= tunnel.accepted_output(all));
        assert(registry.received(id, ops) =~= tunnel.delivered_output(all));
    }
}

/// The tunnel of a runtime is in use until it is given up.
proof fn lemma_registered_is_kept(registry: RegistryView, rt_id: RuntimeId, ops: Seq<RegistryOp>)
    requires
        registry.well_formed(),
        registry.registered.contains_key(rt_id),
        forall|i: int| 0 <= i < ops.len() ==> #[trigger] ops[i] != RegistryOp::Remove(rt_id),
    ensures
        registry.keeps(registry.registered[rt_id], ops),
    decreases ops.len(),
{
    if ops.len() > 0 {
        let one = seq![ops[0]];
        assert(one.drop_first() =~= Seq::empty());
        reveal_with_fuel(RegistryView::run, 2);
        assert(ops[0] != RegistryOp::Remove(rt_id));
        law_tunnel_lasts_until_removed(registry, rt_id, one);
        lemma_registry_step(registry, ops[0]);
        assert forall|i: int| 0 <= i < ops.drop_first().len() implies #[trigger] ops.drop_first()[i]
            != RegistryOp::Remove(rt_id) by {
            assert(ops.drop_first()[i] == ops[i + 1]);
        }
        lemma_registered_is_kept(registry.step(ops[0]), rt_id, ops.drop_first());
    }
}

/// A tunnel is in use until its transport is dropped.
proof fn lemma_attached_is_kept(registry: RegistryView, id: HandleId, ops: Seq<RegistryOp>)
    requires
        registry.well_formed(),
        registry.transports.contains(id),
        forall|i: int| 0 <= i < ops.len() ==> #[trigger] ops[i] != RegistryOp::Release(id),
    ensures
        registry.keeps(id, ops),
    decreases ops.len(),
{
    if ops.len() > 0 {
        let next = registry.step(ops[0]);
        assert(ops[0] != RegistryOp::Release(id));
        lemma_registry_step(registry, ops[0]);
        assert(next.transports.contains(id));
        assert forall|i: int| 0 <= i < ops.drop_first().len() implies #[trigger] ops.drop_first()[i]
            != RegistryOp::Release(id) by {
            assert(ops.drop_first()[i] == ops[i + 1]);
        }
        lemma_attached_is_kept(next, id, ops.drop_first());
    }
}

/// As long as a runtime has its tunnel, the tunnel goes through what is done to it and nothing
/// else, whatever is done to other tunnels in between.
pub proof fn law_run_of_registry_runs_the_tunnel(
    registry: RegistryView,
    rt_id: RuntimeId,
    ops: Seq<RegistryOp>,
)
    requires
        registry.well_formed(),
        registry.registered.contains_key(rt_id),
        forall|i: int| 0 <= i < ops.len() ==> #[trigger] ops[i] != RegistryOp::Remove(rt_id),
    ensures
        registry.run(ops).tunnel(rt_id) == registry.tunnel(rt_id).run(
            tunnel_ops(registry, rt_id, ops),
        ),
{
    lemma_registered_is_kept(registry, rt_id, ops);
    lemma_run_of_handle(registry, registry.registered[rt_id], ops);
    law_tunnel_lasts_until_removed(registry, rt_id, ops);
}

/// What the host writes under the number of its runtime comes to the transport, and what the
/// transport sends comes to the host, each packet once, unchanged and in order, whatever other
/// calls are made and whatever other runtimes do; what has not come through is still queued.
pub proof fn law_packets_of_a_runtime_arrive_in_order(
    registry: RegistryView,
    rt_id: RuntimeId,
    ops: Seq<RegistryOp>,
)
    requires
        registry.well_formed(),
        registry.registered.contains_key(rt_id),
        forall|i: int| 0 <= i < ops.len() ==> #[trigger] ops[i] != RegistryOp::Remove(rt_id),
    ensures
        ({
            let id = registry.registered[rt_id];
            let end = registry.run(ops).tunnel(rt_id);
            &&& registry.tunnel(rt_id).input + registry.written(id, ops) == registry.taken(id, ops)
                + end.input
            &&& registry.tunnel(rt_id).output + registry.sent(id, ops) == registry.received(id, ops)
                + end.output
        }),
{
    let id = registry.registered[rt_id];
    lemma_registered_is_kept(registry, rt_id, ops);
    lemma_run_of_handle(registry, id, ops);
    law_tunnel_lasts_until_removed(registry, rt_id, ops);
    law_input_is_delivered_in_order(registry.handles[id], registry.handle_ops(id, ops));
    law_output_is_delivered_in_order(registry.handles[id], registry.handle_ops(id, ops));
}

/// As long as a transport is held, it gets what the host wrote, each packet once, unchanged and
/// in order, also once the tunnel has been given up; what it has not got is still queued. When it
/// polls, it gets the oldest packet that it has not got yet, and where there is none, the end of
/// the stream if the tunnel is closed, or else it has to wait.
pub proof fn law_transport_gets_what_was_written(
    registry: RegistryView,
    id: HandleId,
    ops: Seq<RegistryOp>,
    phase: PollPhase,
)
    requires
        registry.well_formed(),
        registry.transports.contains(id),
        forall|i: int| 0 <= i < ops.len() ==> #[trigger] ops[i] != RegistryOp::Release(id),
    ensures
        ({
            let end = registry.run(ops).handles[id];
            let written = registry.handles[id].input + registry.written(id, ops);
            let taken = registry.taken(id, ops);
            let step = end.poll_next_step(phase);
            &&& registry.run(ops).handles.contains_key(id)
            &&& written == taken + end.input
            &&& taken.len() < written.len() ==> step == PollStep::Ready(
                Some(written[taken.len() as int]),
            )
            &&& taken.len() == written.len() && end.closed ==> step == PollStep::Ready(
                None::<Seq<u8>>,
            )
            &&& taken.len() == written.len() && !end.closed ==> step is Register || step is Pending
        }),
{
    lemma_attached_is_kept(registry, id, ops);
    lemma_run_of_handle(registry, id, ops);
    law_input_is_delivered_in_order(registry.handles[id], registry.handle_ops(id, ops));
}

/// The first one to take the transport of a tunnel gets it, whatever else was done before.
pub proof fn law_first_take_succeeds(
    registry: RegistryView,
    rt_id: RuntimeId,
    ops: Seq<RegistryOp>,
)
    requires
        registry.well_formed(),
        registry.registered.contains_key(rt_id),
        !registry.tunnel(rt_id).connected,
        forall|i: int|
            0 <= i < ops.len() ==> #[trigger] ops[i] != RegistryOp::Remove(rt_id) && ops[i]
                != RegistryOp::Take(rt_id),
    ensures
        registry.run(ops).registered.contains_key(rt_id),
        registry.run(ops).take_refusal(rt_id) is None,
    decreases ops.len(),
{
    if ops.len() > 0 {
        let id = registry.registered[rt_id];
        let next = registry.step(ops[0]);
        let one = seq![ops[0]];
        assert(one.drop_first() =~= Seq::empty());
        reveal_with_fuel(RegistryView::run, 2);
        assert(ops[0] != RegistryOp::Remove(rt_id) && ops[0] != RegistryOp::Take(rt_id));
        law_tunnel_lasts_until_removed(registry, rt_id, one);
        lemma_registry_step(registry, ops[0]);
        lemma_step_of_handle(registry, id, ops[0]);
        let mine = registry.handle_op(id, ops[0]);
        reveal_with_fuel(TunnelView::run, 2);
        if mine.len() > 0 {
            assert(mine.drop_first() =~= Seq::empty());
            assert(!(mine[0] is Connect));
        }
        assert forall|i: int| 0 <= i < ops.drop_first().len() implies #[trigger] ops.drop_first()[i]
            != RegistryOp::Remove(rt_id) && ops.drop_first()[i] != RegistryOp::Take(rt_id) by {
            assert(ops.drop_first()[i] == ops[i + 1]);
        }
        law_first_take_succeeds(next, rt_id, ops.drop_first());
    }
}

/// A runtime without a tunnel gets none unless one is set up for it, and until then a host that
/// writes is told the same as before: that the tunnel is closed, or that there never was one.
pub proof fn law_no_tunnel_without_init(
    registry: RegistryView,
    rt_id: RuntimeId,
    ops: Seq<RegistryOp>,
    packet: Seq<u8>,
)
    requires
        !registry.registered.contains_key(rt_id),
        forall|i: int|
            0 <= i < ops.len() ==> (#[trigger] ops[i] matches RegistryOp::Init { rt_id: other, .. }
                ==> other != rt_id),
    ensures
        !registry.run(ops).registered.contains_key(rt_id),
        registry.run(ops).write_refusal(rt_id, packet) == registry.write_refusal(rt_id, packet),
    decreases ops.len(),
{
    if ops.len() > 0 {
        let next = registry.step(ops[0]);
        assert(ops[0] matches RegistryOp::Init { rt_id: other, .. } ==> other != rt_id);
        assert forall|i: int| 0 <= i < ops.drop_first().len() implies (
        #[trigger] ops.drop_first()[i] matches RegistryOp::Init { rt_id: other, .. } ==> other
            != rt_id) by {
            assert(ops.drop_first()[i] == ops[i + 1]);
        }
        law_no_tunnel_without_init(next, rt_id, ops.drop_first(), packet);
    }
}

/// A tunnel that is given up while nobody holds its transport and no callback of it is running
/// is dropped at once, with its packets.
pub proof fn law_idle_tunnel_is_dropped(registry: RegistryView, rt_id: RuntimeId)
    requires
        registry.well_formed(),
        registry.registered.contains_key(rt_id),
        !registry.transports.contains(registry.registered[rt_id]),
        registry.tunnel(rt_id).callbacks_in_flight == 0,
    ensures
        !registry.after_remove(rt_id).handles.contains_key(registry.registered[rt_id]),
{
    lemma_maps_to_remove(registry.registered, rt_id);
}

} // verus!
