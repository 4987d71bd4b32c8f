//! The tunnels: their queues, their callbacks and their registry.

pub mod effect;
pub mod handle;
pub mod handle_laws;
pub mod laws;
pub mod model;
pub mod registry;
pub mod registry_call_laws;
pub mod registry_laws;
pub mod registry_model;
pub mod transport;

pub use effect::{CallbackGuard, Effect, HandleId, PacketTunnelNotifier, RuntimeId};
pub use handle::PacketTunnelHandle;
pub use model::{RuntimePacketRead, MAX_IP_PACKET_SIZE};
pub use registry::{
    finish_callback, has_runtime_packet_tunnel, init_runtime_packet_tunnel,
    normalize_packet_queue_size, packet_queue_size, read_runtime_packet,
    remove_runtime_packet_tunnel, set_runtime_packet_input_callback,
    set_runtime_packet_output_callback, take_runtime_packet_tunnel, write_runtime_packet,
    PacketTunnels,
};
pub use registry_model::{
    DEFAULT_INPUT_BYTE_LIMIT, DEFAULT_OUTPUT_BYTE_LIMIT, MAX_PACKET_TUNNEL_QUEUE_SIZE,
};
pub use transport::{PacketTunnelTransport, PollPhase, PollStep};
