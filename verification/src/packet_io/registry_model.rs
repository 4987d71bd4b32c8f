//! The mathematical model of all tunnels together.

use vstd::prelude::*;

use crate::error::TunnelError;
use crate::packet_io::effect::{Effect, HandleId, PacketTunnelNotifier, RuntimeId};
use crate::packet_io::model::{RuntimePacketRead, TunnelView};

verus! {

/// The largest size that a queue of a tunnel may be given.
pub const MAX_PACKET_TUNNEL_QUEUE_SIZE: usize = 4_096;

/// The number of bytes that the input queue of a tunnel may hold: 1 MB.
pub const DEFAULT_INPUT_BYTE_LIMIT: usize = 1_048_576;

/// The number of bytes that the output queue of a tunnel may hold: 2 MB.
pub const DEFAULT_OUTPUT_BYTE_LIMIT: usize = 2_097_152;

/// Some runtime is mapped to the tunnel `id`.
pub open spec fn maps_to(registered: Map<RuntimeId, HandleId>, id: HandleId) -> bool {
    exists|rt_id: RuntimeId| #[trigger] registered.contains_key(rt_id) && registered[rt_id] == id
}

/// The state of all tunnels.
#[verifier::ext_equal]
pub struct RegistryView {
    /// The tunnel of each runtime that has one.
    pub registered: Map<RuntimeId, HandleId>,
    /// The tunnels that are still in use, registered or not.
    pub handles: Map<HandleId, TunnelView>,
    /// The tunnels whose transport is held by someone.
    pub transports: Set<HandleId>,
    /// The runtimes whose last tunnel was closed and given up.
    pub given_up: Set<RuntimeId>,
    pub default_input_queue_size: usize,
    pub default_output_queue_size: usize,
}

impl RegistryView {
    /// Some runtime has the tunnel `id`.
    pub open spec fn is_registered(self, id: HandleId) -> bool {
        maps_to(self.registered, id)
    }

    /// Someone still refers to the tunnel `id`.
    pub open spec fn in_use(self, id: HandleId) -> bool {
        ||| self.is_registered(id)
        ||| self.transports.contains(id)
        ||| self.handles[id].callbacks_in_flight > 0
    }

    /// What holds of each tunnel in the registry: it is bounded as its runtime was promised.
    pub open spec fn handle_well_formed(self, id: HandleId) -> bool {
        let tunnel = self.handles[id];
        &&& tunnel.id == id
        &&& tunnel.within_limits()
        &&& 1 <= tunnel.input_queue_limit <= MAX_PACKET_TUNNEL_QUEUE_SIZE
        &&& 1 <= tunnel.output_queue_limit <= MAX_PACKET_TUNNEL_QUEUE_SIZE
        &&& tunnel.input_byte_limit == DEFAULT_INPUT_BYTE_LIMIT
        &&& tunnel.output_byte_limit == DEFAULT_OUTPUT_BYTE_LIMIT
    }

    /// Each runtime has a tunnel of its own, and each transport belongs to a tunnel.
    pub open spec fn consistent(self) -> bool {
        &&& forall|rt_id: RuntimeId| #[trigger]
            self.registered.contains_key(rt_id) ==> self.handles.contains_key(
                self.registered[rt_id],
            )
        &&& forall|a: RuntimeId, b: RuntimeId|
            #![trigger self.registered.contains_key(a), self.registered.contains_key(b)]
            self.registered.contains_key(a) && self.registered.contains_key(b)
                && self.registered[a] == self.registered[b] ==> a == b
        &&& forall|id: HandleId| #[trigger]
            self.handles.contains_key(id) ==> self.handle_well_formed(id)
        &&& forall|id: HandleId| #[trigger]
            self.transports.contains(id) ==> self.handles.contains_key(id)
                && self.handles[id].connected
    }

    /// The registry is consistent, and keeps no tunnel that nobody refers to.
    pub open spec fn well_formed(self) -> bool {
        &&& self.consistent()
        &&& forall|id: HandleId| #[trigger] self.handles.contains_key(id) ==> self.in_use(id)
    }

    /// The tunnel of a runtime that has one.
    pub open spec fn tunnel(self, rt_id: RuntimeId) -> TunnelView {
        self.handles[self.registered[rt_id]]
    }

    /// This registry with the tunnel `id` replaced.
    pub open spec fn with_handle(self, id: HandleId, tunnel: TunnelView) -> RegistryView {
        RegistryView { handles: self.handles.insert(id, tunnel), ..self }
    }

    /// This registry with the tunnel of a runtime replaced.
    pub open spec fn with_tunnel(self, rt_id: RuntimeId, tunnel: TunnelView) -> RegistryView {
        self.with_handle(self.registered[rt_id], tunnel)
    }

    /// This registry with other sizes for the queues for which none is asked.
    pub open spec fn with_default_queue_sizes(
        self,
        input_queue_size: usize,
        output_queue_size: usize,
    ) -> RegistryView {
        RegistryView {
            default_input_queue_size: input_queue_size,
            default_output_queue_size: output_queue_size,
            ..self
        }
    }

    /// This registry without the tunnel `id`, if nobody refers to it.
    pub open spec fn reclaimed(self, id: HandleId) -> RegistryView {
        if self.in_use(id) {
            self
        } else {
            RegistryView { handles: self.handles.remove(id), ..self }
        }
    }
}

impl RegistryView {
    /// Why a runtime gets no tunnel with queues of the given sizes; `None` where it gets one.
    pub open spec fn init_refusal(
        self,
        rt_id: RuntimeId,
        running: bool,
        input_queue_size: usize,
        output_queue_size: usize,
    ) -> Option<TunnelError> {
        if running {
            Some(TunnelError::AlreadyRunning)
        } else {
            match normalized_queue_size(input_queue_size, self.default_input_queue_size) {
                Err(e) => Some(e),
                Ok(_) => match normalized_queue_size(
                    output_queue_size,
                    self.default_output_queue_size,
                ) {
                    Err(e) => Some(e),
                    Ok(_) => if self.registered.contains_key(rt_id) {
                        Some(TunnelError::AlreadyInitialized)
                    } else {
                        None
                    },
                },
            }
        }
    }

    /// The registry after the runtime got the tunnel `id`.
    pub open spec fn after_init(
        self,
        rt_id: RuntimeId,
        id: HandleId,
        input_queue_size: usize,
        output_queue_size: usize,
    ) -> RegistryView {
        RegistryView {
            registered: self.registered.insert(rt_id, id),
            handles: self.handles.insert(
                id,
                TunnelView::initial(
                    id,
                    normalized_queue_size(input_queue_size, self.default_input_queue_size)->Ok_0
                        as nat,
                    normalized_queue_size(output_queue_size, self.default_output_queue_size)->Ok_0
                        as nat,
                    DEFAULT_INPUT_BYTE_LIMIT as nat,
                    DEFAULT_OUTPUT_BYTE_LIMIT as nat,
                ),
            ),
            given_up: self.given_up.remove(rt_id),
            ..self
        }
    }

    /// Why the transport of a runtime is not given out; `None` where it is, or where the
    /// runtime has no tunnel.
    pub open spec fn take_refusal(self, rt_id: RuntimeId) -> Option<TunnelError> {
        if self.registered.contains_key(rt_id) && self.tunnel(rt_id).connected {
            Some(TunnelError::AlreadyConnected)
        } else {
            None
        }
    }

    /// The registry after the transport of the runtime was given out.
    pub open spec fn after_take(self, rt_id: RuntimeId) -> RegistryView {
        RegistryView {
            transports: self.transports.insert(self.registered[rt_id]),
            ..self.with_tunnel(rt_id, self.tunnel(rt_id).after_connect())
        }
    }

    /// The registry after the tunnel of the runtime was closed and given up, if it had one.
    pub open spec fn after_remove(self, rt_id: RuntimeId) -> RegistryView {
        if self.registered.contains_key(rt_id) {
            let id = self.registered[rt_id];
            RegistryView {
                registered: self.registered.remove(rt_id),
                given_up: self.given_up.insert(rt_id),
                ..self.with_handle(id, self.handles[id].after_close())
            }.reclaimed(id)
        } else {
            self
        }
    }

    pub open spec fn remove_effects(self, rt_id: RuntimeId) -> Seq<Effect> {
        if self.registered.contains_key(rt_id) {
            self.tunnel(rt_id).close_effects()
        } else {
            Seq::empty()
        }
    }

    /// The registry after a transport was dropped.
    pub open spec fn after_release(self, id: HandleId) -> RegistryView {
        RegistryView { transports: self.transports.remove(id), ..self }.reclaimed(id)
    }

    /// The registry after a guard was handed back.
    pub open spec fn after_finish_callback(self, id: HandleId) -> RegistryView {
        self.with_handle(id, self.handles[id].after_finish_callback()).reclaimed(id)
    }

    /// Why the packet of the host is not taken; an empty one is dropped without a word.
    pub open spec fn write_refusal(self, rt_id: RuntimeId, packet: Seq<u8>) -> Option<TunnelError> {
        if packet.len() == 0 {
            None
        } else if self.registered.contains_key(rt_id) {
            self.tunnel(rt_id).input_refusal(packet)
        } else if self.given_up.contains(rt_id) {
            Some(TunnelError::Closed)
        } else {
            Some(TunnelError::NotInitialized)
        }
    }

    /// The registry once the host wrote the packet.
    pub open spec fn after_write(self, rt_id: RuntimeId, packet: Seq<u8>) -> RegistryView {
        if packet.len() > 0 && self.registered.contains_key(rt_id) {
            self.with_tunnel(rt_id, self.tunnel(rt_id).after_push_input(packet))
        } else {
            self
        }
    }

    pub open spec fn write_effects(self, rt_id: RuntimeId, packet: Seq<u8>) -> Seq<Effect> {
        if packet.len() > 0 && self.registered.contains_key(rt_id) {
            self.tunnel(rt_id).push_input_effects(packet)
        } else {
            Seq::empty()
        }
    }

    /// What reading into a buffer of `capacity` bytes comes to.
    pub open spec fn read_result(self, rt_id: RuntimeId, capacity: nat) -> Result<
        RuntimePacketRead,
        TunnelError,
    > {
        if self.registered.contains_key(rt_id) {
            Ok(self.tunnel(rt_id).read_result(capacity))
        } else {
            Err(TunnelError::NotInitialized)
        }
    }

    /// The registry once the host read into a buffer of `capacity` bytes.
    pub open spec fn after_read(self, rt_id: RuntimeId, capacity: nat) -> RegistryView {
        if self.registered.contains_key(rt_id) {
            self.with_tunnel(rt_id, self.tunnel(rt_id).after_read_output(capacity))
        } else {
            self
        }
    }

    /// What a buffer holds once the host read into it.
    pub open spec fn buffer_after_read(self, rt_id: RuntimeId, buffer: Seq<u8>) -> Seq<u8> {
        if self.registered.contains_key(rt_id) {
            self.tunnel(rt_id).buffer_after_read(buffer)
        } else {
            buffer
        }
    }

    pub open spec fn read_effects(self, rt_id: RuntimeId, capacity: nat) -> Seq<Effect> {
        if self.registered.contains_key(rt_id) {
            self.tunnel(rt_id).read_output_effects(capacity)
        } else {
            Seq::empty()
        }
    }

    /// The registry once the host set its callback for input.
    pub open spec fn after_set_input(
        self,
        rt_id: RuntimeId,
        notifier: Option<PacketTunnelNotifier>,
    ) -> RegistryView {
        if self.registered.contains_key(rt_id) {
            self.with_tunnel(rt_id, self.tunnel(rt_id).after_set_input_notifier(notifier))
        } else {
            self
        }
    }

    /// The registry once the host set its callback for output.
    pub open spec fn after_set_output(
        self,
        rt_id: RuntimeId,
        notifier: Option<PacketTunnelNotifier>,
    ) -> RegistryView {
        if self.registered.contains_key(rt_id) {
            self.with_tunnel(rt_id, self.tunnel(rt_id).after_set_output_notifier(notifier))
        } else {
            self
        }
    }

    pub open spec fn set_output_effects(
        self,
        rt_id: RuntimeId,
        notifier: Option<PacketTunnelNotifier>,
    ) -> Seq<Effect> {
        if self.registered.contains_key(rt_id) {
            self.tunnel(rt_id).set_output_notifier_effects(notifier)
        } else {
            Seq::empty()
        }
    }
}

/// The size of a queue for which `queue_size` was asked: the default, brought into range,
/// where that is 0; otherwise the size itself, unless it is too large.
pub open spec fn normalized_queue_size(queue_size: usize, default_size: usize) -> Result<
    usize,
    TunnelError,
> {
    if queue_size == 0 {
        if default_size == 0 {
            Ok(1)
        } else if default_size > MAX_PACKET_TUNNEL_QUEUE_SIZE {
            Ok(MAX_PACKET_TUNNEL_QUEUE_SIZE)
        } else {
            Ok(default_size)
        }
    } else if queue_size > MAX_PACKET_TUNNEL_QUEUE_SIZE {
        Err(TunnelError::QueueSizeExceedsMaximum(queue_size))
    } else {
        Ok(queue_size)
    }
}

/// Registering a runtime adds its tunnel to those that some runtime has.
pub(crate) proof fn lemma_maps_to_insert(
    registered: Map<RuntimeId, HandleId>,
    rt_id: RuntimeId,
    id: HandleId,
)
    requires
        !registered.contains_key(rt_id),
    ensures
        forall|other: HandleId| #[trigger]
            maps_to(registered.insert(rt_id, id), other) == (other == id || maps_to(
                registered,
                other,
            )),
{
    let next = registered.insert(rt_id, id);
    assert forall|other: HandleId| #[trigger] maps_to(next, other) == (other == id || maps_to(
        registered,
        other,
    )) by {
        if maps_to(registered, other) {
            let key = choose|key: RuntimeId| #[trigger]
                registered.contains_key(key) && registered[key] == other;
            assert(next.contains_key(key));
        }
        assert(next.contains_key(rt_id));
        if maps_to(next, other) && other != id {
            let key = choose|key: RuntimeId| #[trigger]
                next.contains_key(key) && next[key] == other;
            assert(registered.contains_key(key));
        }
    }
}

/// Unregistering a runtime takes its tunnel from those that some runtime has.
pub(crate) proof fn lemma_maps_to_remove(
    registered: Map<RuntimeId, HandleId>,
    rt_id: RuntimeId,
)
    requires
        registered.contains_key(rt_id),
        forall|a: RuntimeId, b: RuntimeId|
            #![trigger registered.contains_key(a), registered.contains_key(b)]
            registered.contains_key(a) && registered.contains_key(b) && registered[a]
                == registered[b] ==> a == b,
    ensures
        forall|other: HandleId| #[trigger]
            maps_to(registered.remove(rt_id), other) == (other != registered[rt_id] && maps_to(
                registered,
                other,
            )),
{
    let next = registered.remove(rt_id);
    assert forall|other: HandleId| #[trigger] maps_to(next, other) == (other != registered[rt_id]
        && maps_to(registered, other)) by {
        if maps_to(registered, other) && other != registered[rt_id] {
            let key = choose|key: RuntimeId| #[trigger]
                registered.contains_key(key) && registered[key] == other;
            assert(next.contains_key(key));
        }
        if maps_to(next, other) {
            let key = choose|key: RuntimeId| #[trigger]
                next.contains_key(key) && next[key] == other;
            assert(registered.contains_key(key));
        }
    }
}

/// Setting up a tunnel keeps the registry well-formed.
pub(crate) proof fn lemma_after_init(
    registry: RegistryView,
    rt_id: RuntimeId,
    id: HandleId,
    input_queue_size: usize,
    output_queue_size: usize,
)
    requires
        registry.well_formed(),
        registry.init_refusal(rt_id, false, input_queue_size, output_queue_size) is None,
        !registry.handles.contains_key(id),
    ensures
        registry.after_init(rt_id, id, input_queue_size, output_queue_size).well_formed(),
{
    let next = registry.after_init(rt_id, id, input_queue_size, output_queue_size);
    lemma_maps_to_insert(registry.registered, rt_id, id);
    assert forall|other: HandleId| #[trigger] next.handles.contains_key(other) implies {
        &&& next.handle_well_formed(other)
        &&& next.in_use(other)
    } by {
        if other != id {
            assert(registry.handles.contains_key(other));
        }
    }
    assert forall|a: RuntimeId, b: RuntimeId|
        #![trigger next.registered.contains_key(a), next.registered.contains_key(b)]
        next.registered.contains_key(a) && next.registered.contains_key(b) && next.registered[a]
            == next.registered[b] implies a == b by {
        if a != rt_id {
            assert(registry.registered.contains_key(a));
        }
        if b != rt_id {
            assert(registry.registered.contains_key(b));
        }
    }
    assert forall|key: RuntimeId| #[trigger]
        next.registered.contains_key(key) implies next.handles.contains_key(
        next.registered[key],
    ) by {
        if key != rt_id {
            assert(registry.registered.contains_key(key));
        }
    }
}

/// Other default sizes keep the registry well-formed.
pub(crate) proof fn lemma_with_default_queue_sizes(
    registry: RegistryView,
    input_queue_size: usize,
    output_queue_size: usize,
)
    requires
        registry.well_formed(),
    ensures
        registry.with_default_queue_sizes(input_queue_size, output_queue_size).well_formed(),
{
    let next = registry.with_default_queue_sizes(input_queue_size, output_queue_size);
    assert forall|id: HandleId| #[trigger] next.handles.contains_key(id) implies {
        &&& next.handle_well_formed(id)
        &&& next.in_use(id)
    } by {
        assert(registry.handles.contains_key(id));
    }
}

/// Giving out the transport of a runtime keeps the registry well-formed.
pub(crate) proof fn lemma_after_take(registry: RegistryView, rt_id: RuntimeId)
    requires
        registry.well_formed(),
        registry.registered.contains_key(rt_id),
    ensures
        registry.after_take(rt_id).well_formed(),
{
    let id = registry.registered[rt_id];
    let connected = registry.with_handle(id, registry.handles[id].after_connect());
    let next = registry.after_take(rt_id);
    assert(registry.handles.contains_key(id));
    lemma_with_handle(registry, id, registry.handles[id].after_connect());
    assert forall|other: HandleId| #[trigger] next.handles.contains_key(other) implies {
        &&& next.handle_well_formed(other)
        &&& next.in_use(other)
    } by {
        assert(connected.handles.contains_key(other));
    }
    assert forall|other: HandleId| #[trigger] next.transports.contains(other) implies {
        &&& next.handles.contains_key(other)
        &&& next.handles[other].connected
    } by {
        if other != id {
            assert(registry.transports.contains(other));
        }
    }
}

/// Giving up the tunnel of a runtime keeps the registry well-formed.
pub(crate) proof fn lemma_after_remove(registry: RegistryView, rt_id: RuntimeId)
    requires
        registry.well_formed(),
    ensures
        registry.after_remove(rt_id).well_formed(),
{
    if registry.registered.contains_key(rt_id) {
        let id = registry.registered[rt_id];
        lemma_maps_to_remove(registry.registered, rt_id);
        let closed = registry.with_handle(id, registry.handles[id].after_close());
        let next = RegistryView {
            registered: registry.registered.remove(rt_id),
            given_up: registry.given_up.insert(rt_id),
            ..closed
        };
        lemma_with_handle(registry, id, registry.handles[id].after_close());
        assert forall|key: RuntimeId| #[trigger]
            next.registered.contains_key(key) implies next.handles.contains_key(
            next.registered[key],
        ) by {
            assert(registry.registered.contains_key(key));
        }
        assert forall|other: HandleId| #[trigger] next.handles.contains_key(other) implies {
            &&& next.handle_well_formed(other)
            &&& other != id ==> next.in_use(other)
        } by {
            assert(closed.handles.contains_key(other));
        }
        assert(forall|a: RuntimeId| #[trigger]
            next.registered.contains_key(a) ==> registry.registered.contains_key(a));
        lemma_reclaimed(next, id);
    }
}

/// Dropping a transport keeps the registry well-formed.
pub(crate) proof fn lemma_after_release(registry: RegistryView, id: HandleId)
    requires
        registry.well_formed(),
    ensures
        registry.after_release(id).well_formed(),
{
    let next = RegistryView { transports: registry.transports.remove(id), ..registry };
    assert forall|other: HandleId| #[trigger] next.handles.contains_key(other) implies {
        &&& next.handle_well_formed(other)
        &&& other != id ==> next.in_use(other)
    } by {
        assert(registry.handles.contains_key(other));
    }
    assert(forall|other: HandleId| #[trigger]
        next.transports.contains(other) ==> registry.transports.contains(other));
    lemma_reclaimed(next, id);
}

/// Replacing a tunnel by itself at a later time keeps the registry well-formed, as long as
/// somebody still refers to it.
pub(crate) proof fn lemma_with_handle(registry: RegistryView, id: HandleId, tunnel: TunnelView)
    requires
        registry.well_formed(),
        registry.handles.contains_key(id),
        registry.handles[id].continues_as(tunnel),
        tunnel.within_limits(),
    ensures
        registry.with_handle(id, tunnel).consistent(),
        registry.with_handle(id, tunnel).in_use(id) ==> registry.with_handle(
            id,
            tunnel,
        ).well_formed(),
        registry.with_handle(id, tunnel).reclaimed(id).well_formed(),
{
    let next = registry.with_handle(id, tunnel);
    assert forall|other: HandleId| #[trigger] next.handles.contains_key(other) implies {
        &&& next.handle_well_formed(other)
        &&& other != id ==> next.in_use(other)
    } by {
        assert(registry.handles.contains_key(other));
    }
    lemma_reclaimed(next, id);
}

/// Dropping a tunnel that nobody refers to makes the registry well-formed, if it was that but
/// for this tunnel.
pub(crate) proof fn lemma_reclaimed(registry: RegistryView, id: HandleId)
    requires
        registry.consistent(),
        forall|other: HandleId|
            #[trigger] registry.handles.contains_key(other) && other != id ==> registry.in_use(
                other,
            ),
    ensures
        registry.reclaimed(id).well_formed(),
{
    let next = registry.reclaimed(id);
    assert forall|other: HandleId| #[trigger] next.handles.contains_key(other) implies {
        &&& next.handle_well_formed(other)
        &&& next.in_use(other)
    } by {
        assert(registry.handles.contains_key(other));
    }
}

} // verus!
