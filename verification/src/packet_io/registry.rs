//! The tunnels of all runtimes.

use std::collections::{HashMap, HashSet};

use vstd::prelude::*;

use crate::error::TunnelError;
use crate::packet_io::effect::{
    CallbackGuard, Effect, HandleId, PacketTunnelNotifier, RuntimeId,
};
use crate::packet_io::handle::PacketTunnelHandle;
use crate::packet_io::model::{RuntimePacketRead, TunnelView};
use crate::packet_io::registry_model::{
    lemma_after_init, lemma_after_release, lemma_after_remove, lemma_after_take,
    lemma_maps_to_insert, lemma_maps_to_remove, lemma_with_default_queue_sizes, lemma_with_handle,
    maps_to, normalized_queue_size, RegistryView, DEFAULT_INPUT_BYTE_LIMIT,
    DEFAULT_OUTPUT_BYTE_LIMIT, MAX_PACKET_TUNNEL_QUEUE_SIZE,
};
use crate::packet_io::transport::{PacketTunnelTransport, PollPhase, PollStep};

verus! {

/// A tunnel, with what keeps it in use.
struct Slot {
    handle: PacketTunnelHandle,
    /// Some runtime has it.
    registered: bool,
    /// Its transport is held by someone.
    attached: bool,
}

/// The tunnels of all runtimes.
pub struct PacketTunnels {
    tunnels: HashMap<RuntimeId, HandleId>,
    slots: Vec<Option<Slot>>,
    /// The runtimes whose last tunnel was closed and given up.
    given_up: HashSet<RuntimeId>,
    default_input_queue_size: usize,
    default_output_queue_size: usize,
}

impl View for PacketTunnels {
    type V = RegistryView;

    closed spec fn view(&self) -> RegistryView {
        RegistryView {
            registered: self.tunnels@,
            handles: Map::new(
                |id: HandleId| id < self.slots@.len() && self.slots@[id as int] is Some,
                |id: HandleId| self.slots@[id as int]->0.handle@,
            ),
            transports: Set::new(
                |id: HandleId|
                    id < self.slots@.len() && self.slots@[id as int] is Some
                        && self.slots@[id as int]->0.attached,
            ),
            given_up: self.given_up@,
            default_input_queue_size: self.default_input_queue_size,
            default_output_queue_size: self.default_output_queue_size,
        }
    }
}

impl PacketTunnels {
    /// Each tunnel keeps its own invariant, and knows whether some runtime has it.
    closed spec fn slots_wf(&self) -> bool {
        forall|i: int|
            0 <= i < self.slots@.len() && #[trigger] self.slots@[i] is Some ==> {
                &&& self.slots@[i]->0.handle.wf()
                &&& self.slots@[i]->0.registered == maps_to(self.tunnels@, i as HandleId)
            }
    }

    /// The invariant of the registry.
    pub closed spec fn wf(&self) -> bool {
        &&& self.slots_wf()
        &&& self@.well_formed()
    }

    /// The invariant, as far as it can be told from the state.
    pub proof fn lemma_well_formed(&self)
        requires
            self.wf(),
        ensures
            self@.well_formed(),
    {
    }

    /// A registry without tunnels, for queues that have the given sizes where none is asked for.
    pub fn new(
        default_input_queue_size: usize,
        default_output_queue_size: usize,
    ) -> (tunnels: Self)
        ensures
            tunnels.wf(),
            tunnels@.registered == Map::<RuntimeId, HandleId>::empty(),
            tunnels@.handles == Map::<HandleId, TunnelView>::empty(),
            tunnels@.transports == Set::<HandleId>::empty(),
            tunnels@.given_up == Set::<RuntimeId>::empty(),
            tunnels@.default_input_queue_size == default_input_queue_size,
            tunnels@.default_output_queue_size == default_output_queue_size,
    {
        let tunnels = PacketTunnels {
            tunnels: HashMap::new(),
            slots: Vec::new(),
            given_up: HashSet::new(),
            default_input_queue_size,
            default_output_queue_size,
        };
        assert(tunnels@.handles =~= Map::<HandleId, TunnelView>::empty());
        assert(tunnels@.transports =~= Set::<HandleId>::empty());
        tunnels
    }

    /// Lends the tunnel `id` out to be changed.
    fn handle_mut(&mut self, id: HandleId) -> (handle: &mut PacketTunnelHandle)
        requires
            old(self).wf(),
            old(self)@.handles.contains_key(id),
        ensures
            handle.wf(),
            handle@ == old(self)@.handles[id],
            final(handle).wf() ==> final(self).slots_wf(),
            final(self)@ == old(self)@.with_handle(id, final(handle)@),
    {
        match &mut self.slots[id] {
            Some(slot) => &mut slot.handle,
            None => vstd::pervasive::unreached(),
        }
    }

    /// A tunnel that changed into itself at a later time leaves the registry well-formed, but
    /// for that it may no longer be in use.
    proof fn lemma_handle_changed(&self, before: RegistryView, id: HandleId)
        requires
            before.well_formed(),
            before.handles.contains_key(id),
            self.slots_wf(),
            self@ == before.with_handle(id, self@.handles[id]),
            before.handles[id].continues_as(self@.handles[id]),
        ensures
            self@.in_use(id) ==> self.wf(),
            self@.reclaimed(id).well_formed(),
    {
        assert(self@.handles.contains_key(id));
        self.slots@[id as int]->0.handle.lemma_within_limits();
        lemma_with_handle(before, id, self@.handles[id]);
    }

    /// Drops the tunnel `id` if nobody refers to it.
    fn reclaim(&mut self, id: HandleId)
        requires
            old(self).slots_wf(),
            old(self)@.handles.contains_key(id),
        ensures
            final(self).slots_wf(),
            final(self)@ == old(self)@.reclaimed(id),
    {
        if let Some(slot) = &self.slots[id] {
            if !slot.registered && !slot.attached && slot.handle.callbacks_in_flight() == 0 {
                self.slots[id] = None;
            }
        }
    }

    /// Puts a tunnel into a free slot and returns its number.
    fn insert(&mut self, handle: PacketTunnelHandle) -> (id: HandleId)
        requires
            old(self).wf(),
            handle.wf(),
        ensures
            !old(self)@.handles.contains_key(id),
            final(self).tunnels@ == old(self).tunnels@,
            id <= old(self).slots@.len(),
            final(self).slots@.len() == if id == old(self).slots@.len() {
                id + 1
            } else {
                old(self).slots@.len() as int
            },
            final(self).slots@[id as int] matches Some(slot) && slot.handle.wf()
                && slot.registered && !slot.attached,
            forall|i: int|
                0 <= i < old(self).slots@.len() && i != id ==> #[trigger] final(self).slots@[i] == old(
                    self,
                ).slots@[i],
            final(self)@ == old(self)@.with_handle(id, TunnelView { id, ..handle@ }),
    {
        let mut id: usize = 0;
        while id < self.slots.len() && self.slots[id].is_some()
            invariant
                id <= self.slots@.len(),
                *self == *old(self),
            decreases self.slots@.len() - id,
        {
            id = id + 1;
        }
        let slot = Slot { handle: handle.with_id(id), registered: true, attached: false };
        if id < self.slots.len() {
            self.slots[id] = Some(slot);
        } else {
            self.slots.push(Some(slot));
        }
        id
    }

    /// Finds the tunnel of a runtime.
    pub fn get_handle(&self, rt_id: RuntimeId) -> (result: Result<HandleId, TunnelError>)
        ensures
            match result {
                Ok(id) => self@.registered.contains_key(rt_id) && id == self@.registered[rt_id],
                Err(e) => {
                    &&& !self@.registered.contains_key(rt_id)
                    &&& e == TunnelError::NotInitialized
                },
            },
    {
        broadcast use vstd::std_specs::hash::group_hash_axioms;

        match self.tunnels.get(&rt_id) {
            Some(id) => Ok(*id),
            None => Err(TunnelError::NotInitialized),
        }
    }

    /// Sets the sizes of the queues for which none is asked; tunnels that exist keep theirs.
    pub fn set_default_queue_sizes(&mut self, input_queue_size: usize, output_queue_size: usize)
        requires
            old(self).wf(),
        ensures
            final(self).wf(),
            final(self)@ == old(self)@.with_default_queue_sizes(
                input_queue_size,
                output_queue_size,
            ),
    {
        self.default_input_queue_size = input_queue_size;
        self.default_output_queue_size = output_queue_size;
        proof {
            lemma_with_default_queue_sizes(old(self)@, input_queue_size, output_queue_size);
            assert(self@ =~= old(self)@.with_default_queue_sizes(
                input_queue_size,
                output_queue_size,
            ));
        }
    }

    /// Whether the tunnel `id` is still in use.
    pub fn has_handle(&self, id: HandleId) -> (has: bool)
        ensures
            has == self@.handles.contains_key(id),
    {
        id < self.slots.len() && self.slots[id].is_some()
    }

    /// The number of callbacks of a tunnel that have not returned.
    pub fn callbacks_in_flight(&self, id: HandleId) -> (count: usize)
        ensures
            count == if self@.handles.contains_key(id) {
                self@.handles[id].callbacks_in_flight
            } else {
                0
            },
    {
        if id < self.slots.len() {
            if let Some(slot) = &self.slots[id] {
                return slot.handle.callbacks_in_flight();
            }
        }
        0
    }
}

/// A queue holds at least one packet.
pub fn packet_queue_size(queue_size: usize) -> (size: usize)
    ensures
        size == if queue_size == 0 {
            1
        } else {
            queue_size
        },
{
    if queue_size < 1 {
        1
    } else {
        queue_size
    }
}

/// The size that a queue gets when `queue_size` is asked for. With 0 it gets the default size,
/// brought into range; a size above the maximum is refused.
pub fn normalize_packet_queue_size(queue_size: usize, default_size: usize) -> (result: Result<
    usize,
    TunnelError,
>)
    ensures
        result == normalized_queue_size(queue_size, default_size),
{
    if queue_size == 0 {
        let size = packet_queue_size(default_size);
        return Ok(
            if size > MAX_PACKET_TUNNEL_QUEUE_SIZE {
                MAX_PACKET_TUNNEL_QUEUE_SIZE
            } else {
                size
            },
        );
    }
    let queue_size = packet_queue_size(queue_size);
    if queue_size > MAX_PACKET_TUNNEL_QUEUE_SIZE {
        return Err(TunnelError::QueueSizeExceedsMaximum(queue_size));
    }
    Ok(queue_size)
}

/// Sets up the tunnel of a runtime, which must not be running yet nor have a tunnel.
pub fn init_runtime_packet_tunnel(
    tunnels: &mut PacketTunnels,
    rt_id: RuntimeId,
    running: bool,
    input_queue_size: usize,
    output_queue_size: usize,
) -> (result: Result<(), TunnelError>)
    requires
        old(tunnels).wf(),
    ensures
        final(tunnels).wf(),
        match result {
            Ok(_) => {
                let id = final(tunnels)@.registered[rt_id];
                &&& old(tunnels)@.init_refusal(rt_id, running, input_queue_size, output_queue_size) is None
                &&& !old(tunnels)@.handles.contains_key(id)
                &&& final(tunnels)@ == old(tunnels)@.after_init(
                    rt_id,
                    id,
                    input_queue_size,
                    output_queue_size,
                )
            },
            Err(e) => {
                &&& old(tunnels)@.init_refusal(rt_id, running, input_queue_size, output_queue_size)
                    == Some(e)
                &&& final(tunnels)@ == old(tunnels)@
            },
        },
{
    broadcast use vstd::std_specs::hash::group_hash_axioms;

    if running {
        return Err(TunnelError::AlreadyRunning);
    }
    let input_queue_size = match normalize_packet_queue_size(
        input_queue_size,
        tunnels.default_input_queue_size,
    ) {
        Ok(size) => size,
        Err(e) => return Err(e),
    };
    let output_queue_size = match normalize_packet_queue_size(
        output_queue_size,
        tunnels.default_output_queue_size,
    ) {
        Ok(size) => size,
        Err(e) => return Err(e),
    };
    if tunnels.tunnels.contains_key(&rt_id) {
        return Err(TunnelError::AlreadyInitialized);
    }
    let handle = PacketTunnelHandle::new(
        input_queue_size,
        output_queue_size,
        DEFAULT_INPUT_BYTE_LIMIT,
        DEFAULT_OUTPUT_BYTE_LIMIT,
    );
    let id = tunnels.insert(handle);
    tunnels.tunnels.insert(rt_id, id);
    tunnels.given_up.remove(&rt_id);
    proof {
        lemma_maps_to_insert(old(tunnels)@.registered, rt_id, id);
        lemma_after_init(old(tunnels)@, rt_id, id, input_queue_size, output_queue_size);
        assert(tunnels@ =~= old(tunnels)@.after_init(
            rt_id,
            id,
            input_queue_size,
            output_queue_size,
        ));
        assert(tunnels.slots.len() == tunnels.slots@.len());
    }
    Ok(())
}

/// Whether a runtime has a tunnel.
pub fn has_runtime_packet_tunnel(tunnels: &PacketTunnels, rt_id: RuntimeId) -> (has: bool)
    ensures
        has == tunnels@.registered.contains_key(rt_id),
{
    broadcast use vstd::std_specs::hash::group_hash_axioms;

    tunnels.tunnels.contains_key(&rt_id)
}

/// Takes the transport of the tunnel of a runtime, if the runtime has a tunnel.
pub fn take_runtime_packet_tunnel(tunnels: &mut PacketTunnels, rt_id: RuntimeId) -> (result: Result<
    Option<PacketTunnelTransport>,
    TunnelError,
>)
    requires
        old(tunnels).wf(),
    ensures
        final(tunnels).wf(),
        match result {
            Ok(Some(transport)) => {
                &&& old(tunnels)@.registered.contains_key(rt_id)
                &&& old(tunnels)@.take_refusal(rt_id) is None
                &&& transport.handle == old(tunnels)@.registered[rt_id]
                &&& final(tunnels)@ == old(tunnels)@.after_take(rt_id)
            },
            Ok(None) => {
                &&& !old(tunnels)@.registered.contains_key(rt_id)
                &&& final(tunnels)@ == old(tunnels)@
            },
            Err(e) => {
                &&& old(tunnels)@.take_refusal(rt_id) == Some(e)
                &&& final(tunnels)@ == old(tunnels)@
            },
        },
{
    let id = match tunnels.get_handle(rt_id) {
        Ok(id) => id,
        Err(_) => return Ok(None),
    };
    proof {
        lemma_after_take(old(tunnels)@, rt_id);
    }
    let result = match &mut tunnels.slots[id] {
        Some(slot) => {
            match slot.handle.take_transport() {
                Ok(transport) => {
                    slot.attached = true;
                    Ok(Some(transport))
                },
                Err(e) => Err(e),
            }
        },
        None => vstd::pervasive::unreached(),
    };
    assert(result is Ok ==> tunnels@ =~= old(tunnels)@.after_take(rt_id));
    assert(result is Err ==> tunnels@ =~= old(tunnels)@);
    result
}

/// Closes the tunnel of a runtime and gives it up, if the runtime has one. A transport that
/// is held by someone can still take the input packets that are left.
pub fn remove_runtime_packet_tunnel(
    tunnels: &mut PacketTunnels,
    rt_id: RuntimeId,
    effects: &mut Vec<Effect>,
)
    requires
        old(tunnels).wf(),
    ensures
        final(tunnels).wf(),
        final(tunnels)@ == old(tunnels)@.after_remove(rt_id),
        final(effects)@ == old(effects)@ + old(tunnels)@.remove_effects(rt_id),
{
    broadcast use vstd::std_specs::hash::group_hash_axioms;

    proof {
        lemma_after_remove(old(tunnels)@, rt_id);
    }
    if let Some(id) = tunnels.tunnels.remove(&rt_id) {
        tunnels.given_up.insert(rt_id);
        proof {
            lemma_maps_to_remove(old(tunnels)@.registered, rt_id);
            assert(tunnels.slots.len() == tunnels.slots@.len());
        }
        if let Some(slot) = &mut tunnels.slots[id] {
            slot.registered = false;
            slot.handle.close(effects);
        }
        assert(tunnels@ =~= (RegistryView {
            registered: old(tunnels)@.registered.remove(rt_id),
            given_up: old(tunnels)@.given_up.insert(rt_id),
            ..old(tunnels)@.with_handle(id, old(tunnels)@.handles[id].after_close())
        }));
        tunnels.reclaim(id);
    } else {
        assert(tunnels.tunnels@ =~= old(tunnels).tunnels@);
    }
}

/// Sets or clears the callback of the host for room in the input queue.
pub fn set_runtime_packet_input_callback(
    tunnels: &mut PacketTunnels,
    rt_id: RuntimeId,
    notifier: Option<PacketTunnelNotifier>,
) -> (result: Result<(), TunnelError>)
    requires
        old(tunnels).wf(),
    ensures
        final(tunnels).wf(),
        final(tunnels)@ == old(tunnels)@.after_set_input(rt_id, notifier),
        match result {
            Ok(_) => old(tunnels)@.registered.contains_key(rt_id),
            Err(e) => {
                &&& !old(tunnels)@.registered.contains_key(rt_id)
                &&& e == TunnelError::NotInitialized
            },
        },
{
    let id = match tunnels.get_handle(rt_id) {
        Ok(id) => id,
        Err(e) => return Err(e),
    };
    tunnels.handle_mut(id).set_input_ready_notifier(notifier);
    proof {
        tunnels.lemma_handle_changed(old(tunnels)@, id);
    }
    Ok(())
}

/// Sets or clears the callback of the host for waiting output packets.
pub fn set_runtime_packet_output_callback(
    tunnels: &mut PacketTunnels,
    rt_id: RuntimeId,
    notifier: Option<PacketTunnelNotifier>,
    effects: &mut Vec<Effect>,
) -> (result: Result<(), TunnelError>)
    requires
        old(tunnels).wf(),
        old(tunnels)@.registered.contains_key(rt_id) && old(tunnels)@.tunnel(
            rt_id,
        ).set_output_notifier_now(notifier) is Some ==> old(tunnels)@.tunnel(
            rt_id,
        ).callback_room(),
    ensures
        final(tunnels).wf(),
        final(tunnels)@ == old(tunnels)@.after_set_output(rt_id, notifier),
        final(effects)@ == old(effects)@ + old(tunnels)@.set_output_effects(rt_id, notifier),
        match result {
            Ok(_) => old(tunnels)@.registered.contains_key(rt_id),
            Err(e) => {
                &&& !old(tunnels)@.registered.contains_key(rt_id)
                &&& e == TunnelError::NotInitialized
            },
        },
{
    let id = match tunnels.get_handle(rt_id) {
        Ok(id) => id,
        Err(e) => return Err(e),
    };
    tunnels.handle_mut(id).set_output_ready_notifier(notifier, effects);
    proof {
        tunnels.lemma_handle_changed(old(tunnels)@, id);
    }
    Ok(())
}

/// Takes a packet of the host into the input queue of the runtime's tunnel; an empty one is
/// dropped. A host whose tunnel was given up is told that it is closed.
pub fn write_runtime_packet(
    tunnels: &mut PacketTunnels,
    rt_id: RuntimeId,
    packet: &[u8],
    effects: &mut Vec<Effect>,
) -> (result: Result<(), TunnelError>)
    requires
        old(tunnels).wf(),
    ensures
        final(tunnels).wf(),
        final(tunnels)@ == old(tunnels)@.after_write(rt_id, packet@),
        final(effects)@ == old(effects)@ + old(tunnels)@.write_effects(rt_id, packet@),
        match result {
            Ok(_) => old(tunnels)@.write_refusal(rt_id, packet@) is None,
            Err(e) => old(tunnels)@.write_refusal(rt_id, packet@) == Some(e),
        },
{
    broadcast use vstd::std_specs::hash::group_hash_axioms;

    if packet.is_empty() {
        return Ok(());
    }
    let id = match tunnels.get_handle(rt_id) {
        Ok(id) => id,
        Err(e) => {
            return Err(
                if tunnels.given_up.contains(&rt_id) {
                    TunnelError::Closed
                } else {
                    e
                },
            );
        },
    };
    let packet = vstd::slice::slice_to_vec(packet);
    let result = tunnels.handle_mut(id).push_input_packet(packet, effects);
    proof {
        tunnels.lemma_handle_changed(old(tunnels)@, id);
    }
    result
}

/// Copies the oldest output packet of the runtime's tunnel to the front of `buffer` and
/// removes it; a packet that does not fit stays where it is.
pub fn read_runtime_packet(
    tunnels: &mut PacketTunnels,
    rt_id: RuntimeId,
    buffer: &mut [u8],
    effects: &mut Vec<Effect>,
) -> (result: Result<RuntimePacketRead, TunnelError>)
    requires
        old(tunnels).wf(),
    ensures
        final(tunnels).wf(),
        result == old(tunnels)@.read_result(rt_id, old(buffer)@.len()),
        final(tunnels)@ == old(tunnels)@.after_read(rt_id, old(buffer)@.len()),
        final(buffer)@ == old(tunnels)@.buffer_after_read(rt_id, old(buffer)@),
        final(effects)@ == old(effects)@ + old(tunnels)@.read_effects(rt_id, old(buffer)@.len()),
{
    let id = match tunnels.get_handle(rt_id) {
        Ok(id) => id,
        Err(e) => return Err(e),
    };
    let result = tunnels.handle_mut(id).read_output_packet(buffer, effects);
    proof {
        tunnels.lemma_handle_changed(old(tunnels)@, id);
    }
    result
}

/// Takes back the guard of a callback that has returned.
pub fn finish_callback(
    tunnels: &mut PacketTunnels,
    guard: CallbackGuard,
    effects: &mut Vec<Effect>,
)
    requires
        old(tunnels).wf(),
        old(tunnels)@.handles.contains_key(guard.handle),
        old(tunnels)@.handles[guard.handle].callbacks_in_flight > 0,
    ensures
        final(tunnels).wf(),
        final(tunnels)@ == old(tunnels)@.after_finish_callback(guard.handle),
        final(effects)@ == old(effects)@
            + old(tunnels)@.handles[guard.handle].finish_callback_effects(),
{
    let id = guard.handle;
    tunnels.handle_mut(id).finish_callback(guard, effects);
    proof {
        tunnels.lemma_handle_changed(old(tunnels)@, id);
    }
    tunnels.reclaim(id);
}

impl PacketTunnelTransport {
    /// This is the transport of a tunnel in the registry.
    pub open spec fn belongs_to(&self, registry: RegistryView) -> bool {
        registry.transports.contains(self.handle)
    }

    /// Polls for the next input packet. A closed tunnel first hands out what it still holds.
    pub fn poll_next(
        &self,
        tunnels: &mut PacketTunnels,
        phase: PollPhase,
        effects: &mut Vec<Effect>,
    ) -> (step: PollStep<Option<Vec<u8>>>)
        requires
            old(tunnels).wf(),
            self.belongs_to(old(tunnels)@),
            old(tunnels)@.handles[self.handle].pop_input_notifier() is Some
                ==> old(tunnels)@.handles[self.handle].callback_room(),
        ensures
            final(tunnels).wf(),
            final(tunnels)@ == old(tunnels)@.with_handle(
                self.handle,
                old(tunnels)@.handles[self.handle].after_pop_input(),
            ),
            final(effects)@ == old(effects)@
                + old(tunnels)@.handles[self.handle].pop_input_effects(),
            ({
                let tunnel = old(tunnels)@.handles[self.handle];
                match step {
                    PollStep::Ready(Some(packet)) => tunnel.poll_next_step(phase)
                        == PollStep::Ready(Some(packet@)),
                    PollStep::Ready(None) => tunnel.poll_next_step(phase) == PollStep::Ready(
                        None::<Seq<u8>>,
                    ),
                    PollStep::Register => tunnel.poll_next_step(phase) is Register,
                    PollStep::Pending => tunnel.poll_next_step(phase) is Pending,
                }
            }),
    {
        let step = tunnels.handle_mut(self.handle).poll_next(phase, effects);
        proof {
            tunnels.lemma_handle_changed(old(tunnels)@, self.handle);
        }
        step
    }

    /// Polls for room in the output queue.
    pub fn poll_ready(&self, tunnels: &PacketTunnels, phase: PollPhase) -> (step: PollStep<
        Result<(), TunnelError>,
    >)
        requires
            tunnels.wf(),
            self.belongs_to(tunnels@),
        ensures
            step == tunnels@.handles[self.handle].poll_ready_step(phase),
    {
        match &tunnels.slots[self.handle] {
            Some(slot) => slot.handle.poll_ready(phase),
            None => vstd::pervasive::unreached(),
        }
    }

    /// Sends a packet to the host; an empty one is dropped.
    pub fn start_send(
        &self,
        tunnels: &mut PacketTunnels,
        item: Vec<u8>,
        effects: &mut Vec<Effect>,
    ) -> (result: Result<(), TunnelError>)
        requires
            old(tunnels).wf(),
            self.belongs_to(old(tunnels)@),
            old(tunnels)@.handles[self.handle].send_notifier(item@) is Some
                ==> old(tunnels)@.handles[self.handle].callback_room(),
        ensures
            final(tunnels).wf(),
            final(tunnels)@ == old(tunnels)@.with_handle(
                self.handle,
                old(tunnels)@.handles[self.handle].after_send(item@),
            ),
            final(effects)@ == old(effects)@ + old(tunnels)@.handles[self.handle].send_effects(
                item@,
            ),
            match result {
                Ok(_) => old(tunnels)@.handles[self.handle].send_refusal(item@) is None,
                Err(e) => old(tunnels)@.handles[self.handle].send_refusal(item@) == Some(e),
            },
    {
        let result = tunnels.handle_mut(self.handle).start_send(item, effects);
        proof {
            tunnels.lemma_handle_changed(old(tunnels)@, self.handle);
        }
        result
    }

    /// Polls until everything sent has been passed on: a packet is passed on as it is sent.
    pub fn poll_flush(&self) -> (step: PollStep<Result<(), TunnelError>>)
        ensures
            step == PollStep::Ready(Ok::<(), TunnelError>(())),
    {
        PollStep::Ready(Ok(()))
    }

    /// Closes the tunnel from the side of the transport.
    pub fn poll_close(&self, tunnels: &mut PacketTunnels, effects: &mut Vec<Effect>) -> (step:
        PollStep<Result<(), TunnelError>>)
        requires
            old(tunnels).wf(),
            self.belongs_to(old(tunnels)@),
        ensures
            final(tunnels).wf(),
            final(tunnels)@ == old(tunnels)@.with_handle(
                self.handle,
                old(tunnels)@.handles[self.handle].after_close(),
            ),
            final(effects)@ == old(effects)@ + old(tunnels)@.handles[self.handle].close_effects(),
            step == PollStep::Ready(Ok::<(), TunnelError>(())),
    {
        let step = tunnels.handle_mut(self.handle).poll_close(effects);
        proof {
            tunnels.lemma_handle_changed(old(tunnels)@, self.handle);
        }
        step
    }

    /// Gives the transport up. A tunnel that nobody else refers to is dropped with it.
    pub fn release(self, tunnels: &mut PacketTunnels)
        requires
            old(tunnels).wf(),
            self.belongs_to(old(tunnels)@),
        ensures
            final(tunnels).wf(),
            final(tunnels)@ == old(tunnels)@.after_release(self.handle),
    {
        let id = self.handle;
        if let Some(slot) = &mut tunnels.slots[id] {
            slot.attached = false;
        }
        proof {
            lemma_after_release(old(tunnels)@, id);
            assert(tunnels@ =~= (RegistryView {
                transports: old(tunnels)@.transports.remove(id),
                ..old(tunnels)@
            }));
        }
        tunnels.reclaim(id);
    }
}

} // verus!
