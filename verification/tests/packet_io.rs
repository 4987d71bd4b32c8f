use leaf_tunnel::error::{ErrorKind, TunnelError};
use leaf_tunnel::packet_io::{
    finish_callback, has_runtime_packet_tunnel, init_runtime_packet_tunnel,
    normalize_packet_queue_size, packet_queue_size, read_runtime_packet,
    remove_runtime_packet_tunnel, set_runtime_packet_input_callback,
    set_runtime_packet_output_callback, take_runtime_packet_tunnel, write_runtime_packet, Effect,
    PacketTunnelHandle, PacketTunnelNotifier, PacketTunnelTransport, PacketTunnels, PollPhase,
    PollStep, RuntimePacketRead, DEFAULT_INPUT_BYTE_LIMIT, DEFAULT_OUTPUT_BYTE_LIMIT,
    MAX_IP_PACKET_SIZE, MAX_PACKET_TUNNEL_QUEUE_SIZE,
};

/// A host: the tunnels, and how often it has been called back.
struct Host {
    tunnels: PacketTunnels,
    effects: Vec<Effect>,
    notified: Vec<PacketTunnelNotifier>,
}

impl Host {
    fn new() -> Host {
        Host {
            tunnels: PacketTunnels::new(256, 256),
            effects: Vec::new(),
            notified: Vec::new(),
        }
    }

    /// Carries the effects out and returns all but the callbacks.
    fn carry_out(&mut self) -> Vec<Effect> {
        let mut others = Vec::new();
        for effect in std::mem::take(&mut self.effects) {
            match effect {
                Effect::Notify { notifier, guard } => {
                    self.notified.push(notifier);
                    let mut drained = Vec::new();
                    finish_callback(&mut self.tunnels, guard, &mut drained);
                    others.append(&mut drained);
                }
                other => others.push(other),
            }
        }
        others
    }

    fn init(&mut self, rt_id: u16, input: usize, output: usize) -> Result<(), TunnelError> {
        init_runtime_packet_tunnel(&mut self.tunnels, rt_id, false, input, output)
    }

    fn take(&mut self, rt_id: u16) -> PacketTunnelTransport {
        take_runtime_packet_tunnel(&mut self.tunnels, rt_id).unwrap().unwrap()
    }

    fn write(&mut self, rt_id: u16, packet: &[u8]) -> Result<(), TunnelError> {
        let result = write_runtime_packet(&mut self.tunnels, rt_id, packet, &mut self.effects);
        self.carry_out();
        result
    }

    fn read(&mut self, rt_id: u16, buffer: &mut [u8]) -> RuntimePacketRead {
        let read = read_runtime_packet(&mut self.tunnels, rt_id, buffer, &mut self.effects);
        self.carry_out();
        read.unwrap()
    }

    /// Polls the transport to the end, as a task would.
    fn next(&mut self, transport: &PacketTunnelTransport) -> Option<Vec<u8>> {
        let mut phase = PollPhase::Initial;
        loop {
            let step = transport.poll_next(&mut self.tunnels, phase, &mut self.effects);
            self.carry_out();
            match step {
                PollStep::Ready(item) => return item,
                PollStep::Register => phase = PollPhase::Registered,
                PollStep::Pending => panic!("would wait"),
            }
        }
    }

    fn send(&mut self, transport: &PacketTunnelTransport, item: Vec<u8>) -> Result<(), TunnelError> {
        let mut phase = PollPhase::Initial;
        loop {
            match transport.poll_ready(&self.tunnels, phase) {
                PollStep::Ready(Ok(())) => break,
                PollStep::Ready(Err(e)) => return Err(e),
                PollStep::Register => phase = PollPhase::Registered,
                PollStep::Pending => panic!("would wait"),
            }
        }
        let result = transport.start_send(&mut self.tunnels, item, &mut self.effects);
        self.carry_out();
        assert_eq!(transport.poll_flush(), PollStep::Ready(Ok(())));
        result
    }

    fn remove(&mut self, rt_id: u16) -> Vec<Effect> {
        remove_runtime_packet_tunnel(&mut self.tunnels, rt_id, &mut self.effects);
        self.carry_out()
    }
}

fn notifier(rt_id: u16) -> PacketTunnelNotifier {
    PacketTunnelNotifier::new(rt_id, 7, 9)
}

#[test]
fn packet_tunnel_roundtrip() {
    let rt_id = 50_001;
    let mut host = Host::new();
    host.init(rt_id, 2, 2).unwrap();
    let tunnel = host.take(rt_id);

    host.write(rt_id, &[1, 2, 3]).unwrap();
    let inbound = host.next(&tunnel).unwrap();
    assert_eq!(inbound, vec![1, 2, 3]);

    host.send(&tunnel, vec![4, 5, 6]).unwrap();
    let mut buffer = [0u8; 8];
    let len = match host.read(rt_id, &mut buffer) {
        RuntimePacketRead::Packet(len) => len,
        _ => panic!("expected packet"),
    };
    assert_eq!(&buffer[..len], &[4, 5, 6]);

    host.remove(rt_id);
}

#[test]
fn output_notification_fires_on_empty_to_non_empty_transition() {
    let rt_id = 50_002;
    let mut host = Host::new();
    host.init(rt_id, 4, 4).unwrap();
    set_runtime_packet_output_callback(
        &mut host.tunnels,
        rt_id,
        Some(notifier(rt_id)),
        &mut host.effects,
    )
    .unwrap();
    host.carry_out();
    let tunnel = host.take(rt_id);

    host.send(&tunnel, vec![1]).unwrap();
    host.send(&tunnel, vec![2]).unwrap();

    assert_eq!(host.notified.len(), 1);
    assert_eq!(host.notified[0], notifier(rt_id));

    host.remove(rt_id);
}

#[test]
fn read_keeps_packet_pending_when_buffer_is_too_small() {
    let rt_id = 50_003;
    let mut host = Host::new();
    host.init(rt_id, 2, 2).unwrap();
    let tunnel = host.take(rt_id);

    host.send(&tunnel, vec![9, 8, 7]).unwrap();

    let mut short = [0u8; 2];
    let len = match host.read(rt_id, &mut short) {
        RuntimePacketRead::BufferTooSmall(len) => len,
        _ => panic!("expected buffer-too-small"),
    };
    assert_eq!(len, 3);

    let mut full = [0u8; 8];
    let len = match host.read(rt_id, &mut full) {
        RuntimePacketRead::Packet(len) => len,
        _ => panic!("expected packet"),
    };
    assert_eq!(&full[..len], &[9, 8, 7]);

    host.remove(rt_id);
}

#[test]
fn write_returns_would_block_when_input_queue_is_full() {
    let rt_id = 50_004;
    let mut host = Host::new();
    host.init(rt_id, 1, 2).unwrap();

    host.write(rt_id, &[1, 2, 3]).unwrap();
    let err = host.write(rt_id, &[4, 5, 6]).unwrap_err();
    assert_eq!(err.kind(), ErrorKind::WouldBlock);

    host.remove(rt_id);
}

#[test]
fn input_notification_fires_on_full_to_non_full_transition() {
    let rt_id = 50_005;
    let mut host = Host::new();
    host.init(rt_id, 1, 2).unwrap();
    set_runtime_packet_input_callback(&mut host.tunnels, rt_id, Some(notifier(rt_id))).unwrap();

    host.write(rt_id, &[1]).unwrap();
    let tunnel = host.take(rt_id);
    let inbound = host.next(&tunnel).unwrap();
    assert_eq!(inbound, vec![1]);

    assert_eq!(host.notified.len(), 1);

    host.remove(rt_id);
}

#[test]
fn init_rejects_reinitialization_until_closed() {
    let rt_id = 50_006;
    let mut host = Host::new();
    host.init(rt_id, 1, 1).unwrap();

    let err = host.init(rt_id, 1, 1).unwrap_err();
    assert_eq!(err.kind(), ErrorKind::AlreadyExists);

    host.remove(rt_id);
    host.init(rt_id, 1, 1).unwrap();
    host.remove(rt_id);
}

#[test]
fn init_rejects_queue_sizes_above_maximum() {
    let rt_id = 50_007;
    let mut host = Host::new();
    let err = host.init(rt_id, MAX_PACKET_TUNNEL_QUEUE_SIZE + 1, 1).unwrap_err();
    assert_eq!(err.kind(), ErrorKind::InvalidInput);
    assert_eq!(err.message(), "packet tunnel queue size 4097 exceeds maximum 4096");
}

#[test]
fn zero_queue_size_clamps_large_default() {
    let queue_size = normalize_packet_queue_size(0, MAX_PACKET_TUNNEL_QUEUE_SIZE + 1).unwrap();
    assert_eq!(queue_size, MAX_PACKET_TUNNEL_QUEUE_SIZE);
}

#[test]
fn input_notification_does_not_fire_after_close() {
    let rt_id = 50_008;
    let mut host = Host::new();
    host.init(rt_id, 1, 1).unwrap();
    set_runtime_packet_input_callback(&mut host.tunnels, rt_id, Some(notifier(rt_id))).unwrap();

    host.write(rt_id, &[1]).unwrap();
    let tunnel = host.take(rt_id);
    host.remove(rt_id);
    let inbound = host.next(&tunnel).unwrap();
    assert_eq!(inbound, vec![1]);

    assert_eq!(host.notified.len(), 0);
    assert_eq!(host.next(&tunnel), None);
    tunnel.release(&mut host.tunnels);
}

/// Writing one packet whose size alone exceeds the byte limit must return WouldBlock.
#[test]
fn write_returns_would_block_when_byte_limit_exceeded() {
    let mut handle = PacketTunnelHandle::new(128, 128, 4, DEFAULT_OUTPUT_BYTE_LIMIT);
    let mut effects = Vec::new();

    let large = vec![0u8; 5];
    let err = handle.push_input_packet(large, &mut effects).unwrap_err();
    assert_eq!(err.kind(), ErrorKind::WouldBlock);
    assert_eq!(err, TunnelError::InputByteLimitExceeded);
    assert!(effects.is_empty());
}

/// When the queue is byte-limited (but not count-limited), popping a packet must fire the
/// input-ready notification.
#[test]
fn pop_triggers_notification_when_byte_limit_was_binding() {
    let mut handle = PacketTunnelHandle::new(100, 128, 3, DEFAULT_OUTPUT_BYTE_LIMIT);
    let mut effects = Vec::new();
    handle.set_input_ready_notifier(Some(notifier(0)));

    handle.push_input_packet(vec![1, 2, 3], &mut effects).unwrap();
    assert_eq!(effects, vec![Effect::WakeInput(0)]);

    let err = handle.push_input_packet(vec![4], &mut effects).unwrap_err();
    assert_eq!(err.kind(), ErrorKind::WouldBlock);

    effects.clear();
    let popped = handle.pop_input_packet(&mut effects);
    assert_eq!(popped, Some(vec![1, 2, 3]));

    assert_eq!(effects.len(), 1);
    match effects.pop() {
        Some(Effect::Notify { notifier: called, guard }) => {
            assert_eq!(called, notifier(0));
            assert_eq!(handle.callbacks_in_flight(), 1);
            handle.finish_callback(guard, &mut effects);
        }
        _ => panic!("expected a callback"),
    }
    assert_eq!(effects, vec![Effect::CallbacksDrained(0)]);
    assert_eq!(handle.callbacks_in_flight(), 0);
}

#[test]
fn output_capacity_reserves_space_for_one_max_packet() {
    let mut handle =
        PacketTunnelHandle::new(128, 128, DEFAULT_INPUT_BYTE_LIMIT, MAX_IP_PACKET_SIZE + 10);
    let mut effects = Vec::new();

    assert_eq!(handle.poll_ready(PollPhase::Initial), PollStep::Ready(Ok(())));
    handle.start_send(vec![0u8; 11], &mut effects).unwrap();

    assert!(!handle.output_has_capacity());
    assert_eq!(handle.poll_ready(PollPhase::Initial), PollStep::Register);
    assert_eq!(handle.poll_ready(PollPhase::Registered), PollStep::Pending);

    let mut buffer = vec![0u8; 16];
    match handle.read_output_packet(&mut buffer, &mut effects).unwrap() {
        RuntimePacketRead::Packet(len) => assert_eq!(len, 11),
        _ => panic!("expected packet"),
    }

    assert!(handle.output_has_capacity());
    assert_eq!(effects, vec![Effect::WakeOutput(0)]);
}

#[test]
fn output_byte_limit_is_at_least_one_packet() {
    let mut handle = PacketTunnelHandle::new(1, 2, 0, 0);
    let mut effects = Vec::new();
    assert!(handle.output_has_capacity());
    handle.push_output_packet(vec![0u8; MAX_IP_PACKET_SIZE], &mut effects).unwrap();
    assert_eq!(
        handle.push_output_packet(vec![1], &mut effects),
        Err(TunnelError::OutputByteLimitExceeded)
    );
}

#[test]
fn output_queue_counts_the_pending_packet() {
    let mut handle = PacketTunnelHandle::new(1, 2, 10, 0);
    let mut effects = Vec::new();
    handle.push_output_packet(vec![1, 1], &mut effects).unwrap();
    handle.push_output_packet(vec![2], &mut effects).unwrap();
    let mut short = [0u8; 1];
    assert_eq!(
        handle.read_output_packet(&mut short, &mut effects),
        Ok(RuntimePacketRead::BufferTooSmall(2))
    );
    assert_eq!(
        handle.push_output_packet(vec![3], &mut effects),
        Err(TunnelError::OutputQueueFull)
    );
    let mut buffer = [9u8; 4];
    assert_eq!(
        handle.read_output_packet(&mut buffer, &mut effects),
        Ok(RuntimePacketRead::Packet(2))
    );
    assert_eq!(buffer, [1, 1, 9, 9]);
    assert_eq!(
        handle.read_output_packet(&mut buffer, &mut effects),
        Ok(RuntimePacketRead::Packet(1))
    );
    assert_eq!(buffer, [2, 1, 9, 9]);
    assert_eq!(
        handle.read_output_packet(&mut buffer, &mut effects),
        Ok(RuntimePacketRead::NoData)
    );
}

#[test]
fn packets_keep_their_order_in_both_directions() {
    let mut host = Host::new();
    host.init(1, 8, 8).unwrap();
    let tunnel = host.take(1);
    host.write(1, &[1]).unwrap();
    host.write(1, &[2]).unwrap();
    assert_eq!(host.next(&tunnel), Some(vec![1]));
    host.write(1, &[3]).unwrap();
    assert_eq!(host.next(&tunnel), Some(vec![2]));
    assert_eq!(host.next(&tunnel), Some(vec![3]));

    host.send(&tunnel, vec![4]).unwrap();
    host.send(&tunnel, vec![5, 5]).unwrap();
    let mut buffer = [0u8; 2];
    assert_eq!(host.read(1, &mut buffer), RuntimePacketRead::Packet(1));
    assert_eq!(buffer[0], 4);
    assert_eq!(host.read(1, &mut buffer), RuntimePacketRead::Packet(2));
    assert_eq!(buffer, [5, 5]);
    assert_eq!(host.read(1, &mut buffer), RuntimePacketRead::NoData);
}

#[test]
fn empty_packets_are_dropped() {
    let mut host = Host::new();
    assert_eq!(host.write(3, &[]), Ok(()));
    host.init(3, 1, 1).unwrap();
    let tunnel = host.take(3);
    assert_eq!(host.write(3, &[]), Ok(()));
    host.write(3, &[1]).unwrap();
    assert_eq!(host.next(&tunnel), Some(vec![1]));
    host.send(&tunnel, vec![]).unwrap();
    assert_eq!(host.read(3, &mut [0u8; 4]), RuntimePacketRead::NoData);
}

#[test]
fn refusal_below_the_byte_limit_is_followed_by_a_callback() {
    let mut handle = PacketTunnelHandle::new(100, 128, 4, DEFAULT_OUTPUT_BYTE_LIMIT);
    let mut effects = Vec::new();
    handle.set_input_ready_notifier(Some(notifier(0)));
    handle.push_input_packet(vec![1, 2, 3], &mut effects).unwrap();
    let err = handle.push_input_packet(vec![4, 5], &mut effects).unwrap_err();
    assert_eq!(err, TunnelError::InputByteLimitExceeded);
    assert_eq!(err.kind(), ErrorKind::WouldBlock);
    effects.clear();
    assert_eq!(handle.pop_input_packet(&mut effects), Some(vec![1, 2, 3]));
    assert_eq!(effects.len(), 1);
    match effects.pop() {
        Some(Effect::Notify { notifier: called, guard }) => {
            assert_eq!(called, notifier(0));
            handle.finish_callback(guard, &mut effects);
        }
        _ => panic!("expected a callback"),
    }

    // The host has been told, so the next packet is taken in silence.
    handle.push_input_packet(vec![6], &mut effects).unwrap();
    effects.clear();
    assert_eq!(handle.pop_input_packet(&mut effects), Some(vec![6]));
    assert!(effects.is_empty());
    assert_eq!(handle.pop_input_packet(&mut effects), None);
}

#[test]
fn partly_filled_queue_without_a_refusal_does_not_call_back() {
    let mut handle = PacketTunnelHandle::new(10, 10, 4, 0);
    let mut effects = Vec::new();
    handle.set_input_ready_notifier(Some(notifier(0)));
    handle.push_input_packet(vec![1, 2, 3], &mut effects).unwrap();
    effects.clear();
    assert_eq!(handle.pop_input_packet(&mut effects), Some(vec![1, 2, 3]));
    assert!(effects.is_empty());
}

#[test]
fn refusal_by_an_empty_queue_is_not_followed_by_a_callback() {
    let mut handle = PacketTunnelHandle::new(10, 10, 4, 0);
    let mut effects = Vec::new();
    handle.set_input_ready_notifier(Some(notifier(0)));
    assert_eq!(
        handle.push_input_packet(vec![0; 5], &mut effects),
        Err(TunnelError::InputByteLimitExceeded)
    );
    handle.push_input_packet(vec![1], &mut effects).unwrap();
    effects.clear();
    assert_eq!(handle.pop_input_packet(&mut effects), Some(vec![1]));
    assert!(effects.is_empty());
}

#[test]
fn refusal_without_a_callback_is_forgotten_with_the_room() {
    let mut handle = PacketTunnelHandle::new(10, 10, 4, 0);
    let mut effects = Vec::new();
    handle.push_input_packet(vec![1, 2, 3], &mut effects).unwrap();
    handle.push_input_packet(vec![4, 5], &mut effects).unwrap_err();
    assert_eq!(handle.pop_input_packet(&mut effects), Some(vec![1, 2, 3]));
    handle.set_input_ready_notifier(Some(notifier(0)));
    handle.push_input_packet(vec![6], &mut effects).unwrap();
    effects.clear();
    assert_eq!(handle.pop_input_packet(&mut effects), Some(vec![6]));
    assert!(effects.is_empty());
}

#[test]
fn interleaved_runtimes_get_their_own_packets_in_order() {
    let mut host = Host::new();
    host.init(1, 8, 8).unwrap();
    host.init(2, 8, 8).unwrap();
    let first = host.take(1);
    let second = host.take(2);
    host.write(1, &[1]).unwrap();
    host.write(2, &[2]).unwrap();
    host.write(1, &[3]).unwrap();
    host.send(&second, vec![4]).unwrap();
    assert_eq!(host.next(&first), Some(vec![1]));
    host.remove(2);
    host.write(1, &[5]).unwrap();
    assert_eq!(host.next(&second), Some(vec![2]));
    assert_eq!(host.next(&second), None);
    assert_eq!(host.next(&first), Some(vec![3]));
    host.remove(1);
    assert_eq!(host.next(&first), Some(vec![5]));
    assert_eq!(host.next(&first), None);
}

#[test]
fn first_take_succeeds_after_other_calls() {
    let mut host = Host::new();
    host.init(1, 1, 1).unwrap();
    host.write(1, &[1]).unwrap();
    host.init(2, 1, 1).unwrap();
    let other = host.take(2);
    host.remove(2);
    other.release(&mut host.tunnels);
    host.read(1, &mut [0u8; 1]);
    host.tunnels.set_default_queue_sizes(9, 9);
    let tunnel = host.take(1);
    assert_eq!(host.next(&tunnel), Some(vec![1]));
}

#[test]
fn refusal_is_remembered_until_the_queue_is_off_its_limits() {
    let mut handle = PacketTunnelHandle::new(1, 10, 100, 0);
    let mut effects = Vec::new();
    handle.push_input_packet(vec![1], &mut effects).unwrap();
    assert_eq!(
        handle.push_input_packet(vec![2], &mut effects),
        Err(TunnelError::InputQueueFull)
    );
    // Other operations in between do not forget it.
    handle.push_output_packet(vec![9], &mut effects).unwrap();
    handle.set_input_ready_notifier(Some(notifier(3)));
    effects.clear();
    assert_eq!(handle.pop_input_packet(&mut effects), Some(vec![1]));
    assert!(matches!(effects[..], [Effect::Notify { .. }]));
}

#[test]
fn closed_tunnel_does_not_remember_a_refusal() {
    let mut handle = PacketTunnelHandle::new(10, 10, 4, 0);
    let mut effects = Vec::new();
    handle.set_input_ready_notifier(Some(notifier(0)));
    handle.push_input_packet(vec![1, 2, 3], &mut effects).unwrap();
    handle.close(&mut effects);
    assert_eq!(handle.push_input_packet(vec![4, 5], &mut effects), Err(TunnelError::Closed));
    effects.clear();
    assert_eq!(handle.pop_input_packet(&mut effects), Some(vec![1, 2, 3]));
    assert!(effects.is_empty());
}

#[test]
fn input_callback_runs_once_per_edge() {
    let mut host = Host::new();
    host.init(1, 2, 2).unwrap();
    set_runtime_packet_input_callback(&mut host.tunnels, 1, Some(notifier(1))).unwrap();
    let tunnel = host.take(1);
    host.write(1, &[1]).unwrap();
    host.write(1, &[2]).unwrap();
    assert_eq!(host.write(1, &[3]), Err(TunnelError::InputQueueFull));
    host.next(&tunnel);
    assert_eq!(host.notified.len(), 1);
    host.next(&tunnel);
    assert_eq!(host.notified.len(), 1);
    host.write(1, &[4]).unwrap();
    host.write(1, &[5]).unwrap();
    set_runtime_packet_input_callback(&mut host.tunnels, 1, None).unwrap();
    host.next(&tunnel);
    assert_eq!(host.notified.len(), 1);
}

#[test]
fn output_callback_runs_at_once_when_packets_wait() {
    let mut host = Host::new();
    host.init(1, 2, 2).unwrap();
    let tunnel = host.take(1);
    host.send(&tunnel, vec![1]).unwrap();
    assert_eq!(host.notified.len(), 0);
    set_runtime_packet_output_callback(
        &mut host.tunnels,
        1,
        Some(notifier(1)),
        &mut host.effects,
    )
    .unwrap();
    host.carry_out();
    assert_eq!(host.notified.len(), 1);
    host.read(1, &mut [0u8; 4]);
    host.send(&tunnel, vec![2]).unwrap();
    assert_eq!(host.notified.len(), 2);
}

#[test]
fn closed_tunnel_refuses_packets_and_ends_its_stream() {
    let mut host = Host::new();
    host.init(1, 2, 2).unwrap();
    let tunnel = host.take(1);
    host.write(1, &[1]).unwrap();
    assert_eq!(
        tunnel.poll_close(&mut host.tunnels, &mut host.effects),
        PollStep::Ready(Ok(()))
    );
    let id = tunnel.handle;
    assert_eq!(
        host.carry_out(),
        vec![Effect::WaitForCallbacks(id), Effect::WakeInput(id), Effect::WakeOutput(id)]
    );
    let err = host.write(1, &[2]).unwrap_err();
    assert_eq!(err, TunnelError::Closed);
    assert_eq!(err.kind(), ErrorKind::BrokenPipe);
    assert_eq!(host.send(&tunnel, vec![3]), Err(TunnelError::Closed));
    assert_eq!(
        tunnel.start_send(&mut host.tunnels, vec![3], &mut host.effects),
        Err(TunnelError::Closed)
    );
    assert_eq!(tunnel.poll_ready(&host.tunnels, PollPhase::Registered), PollStep::Ready(Ok(())));
    assert_eq!(host.next(&tunnel), Some(vec![1]));
    assert_eq!(host.next(&tunnel), None);
}

#[test]
fn running_callback_holds_up_the_close() {
    let mut host = Host::new();
    host.init(1, 1, 1).unwrap();
    set_runtime_packet_input_callback(&mut host.tunnels, 1, Some(notifier(1))).unwrap();
    let tunnel = host.take(1);
    let id = tunnel.handle;
    host.write(1, &[1]).unwrap();

    let mut callback = Vec::new();
    tunnel.poll_next(&mut host.tunnels, PollPhase::Initial, &mut callback);
    assert_eq!(host.tunnels.callbacks_in_flight(id), 1);
    host.remove(1);
    tunnel.release(&mut host.tunnels);
    assert_eq!(host.tunnels.callbacks_in_flight(id), 1);
    match callback.pop() {
        Some(Effect::Notify { guard, .. }) => {
            finish_callback(&mut host.tunnels, guard, &mut callback)
        }
        _ => panic!("expected a callback"),
    }
    assert_eq!(callback, vec![Effect::CallbacksDrained(id)]);
    assert_eq!(host.tunnels.callbacks_in_flight(id), 0);
}

#[test]
fn transport_is_given_out_once() {
    let mut host = Host::new();
    assert_eq!(take_runtime_packet_tunnel(&mut host.tunnels, 1), Ok(None));
    host.init(1, 1, 1).unwrap();
    let tunnel = host.take(1);
    let err = take_runtime_packet_tunnel(&mut host.tunnels, 1).unwrap_err();
    assert_eq!(err, TunnelError::AlreadyConnected);
    assert_eq!(err.kind(), ErrorKind::AlreadyExists);
    tunnel.release(&mut host.tunnels);
    assert_eq!(
        take_runtime_packet_tunnel(&mut host.tunnels, 1),
        Err(TunnelError::AlreadyConnected)
    );
}

#[test]
fn runtimes_have_tunnels_of_their_own() {
    let mut host = Host::new();
    host.init(1, 1, 1).unwrap();
    host.init(2, 1, 1).unwrap();
    let first = host.take(1);
    let second = host.take(2);
    host.write(1, &[1]).unwrap();
    host.write(2, &[2]).unwrap();
    host.remove(1);
    assert!(!has_runtime_packet_tunnel(&host.tunnels, 1));
    assert!(has_runtime_packet_tunnel(&host.tunnels, 2));
    // The number of a tunnel that is still in use is not given to another.
    host.init(3, 1, 1).unwrap();
    let third = host.take(3);
    assert_ne!(third.handle, first.handle);
    assert_ne!(third.handle, second.handle);
    assert_eq!(host.next(&first), Some(vec![1]));
    assert_eq!(host.next(&second), Some(vec![2]));
    // Once nobody refers to a tunnel, its number is free.
    let free = first.handle;
    first.release(&mut host.tunnels);
    host.init(4, 1, 1).unwrap();
    assert_eq!(host.take(4).handle, free);
}

#[test]
fn unknown_runtime_is_not_found() {
    let mut host = Host::new();
    let err = host.write(5, &[1]).unwrap_err();
    assert_eq!(err, TunnelError::NotInitialized);
    assert_eq!(err.kind(), ErrorKind::NotFound);
    assert_eq!(
        read_runtime_packet(&mut host.tunnels, 5, &mut [0u8; 4], &mut host.effects),
        Err(TunnelError::NotInitialized)
    );
    assert_eq!(
        set_runtime_packet_input_callback(&mut host.tunnels, 5, None),
        Err(TunnelError::NotInitialized)
    );
    assert_eq!(
        set_runtime_packet_output_callback(&mut host.tunnels, 5, None, &mut host.effects),
        Err(TunnelError::NotInitialized)
    );
    assert!(host.remove(5).is_empty());
    host.init(5, 1, 1).unwrap();
    host.remove(5);
    assert_eq!(
        read_runtime_packet(&mut host.tunnels, 5, &mut [0u8; 4], &mut host.effects),
        Err(TunnelError::NotInitialized)
    );
}

#[test]
fn write_after_removal_reports_a_closed_tunnel() {
    let mut host = Host::new();
    host.init(6, 1, 1).unwrap();
    host.remove(6);
    let err = host.write(6, &[1]).unwrap_err();
    assert_eq!(err, TunnelError::Closed);
    assert_eq!(err.kind(), ErrorKind::BrokenPipe);
    host.remove(6);
    assert_eq!(host.write(6, &[1]), Err(TunnelError::Closed));
    assert_eq!(host.write(7, &[1]), Err(TunnelError::NotInitialized));
    assert_eq!(host.write(6, &[]), Ok(()));
    host.init(6, 1, 1).unwrap();
    assert_eq!(host.write(6, &[1]), Ok(()));
}

#[test]
fn running_runtime_gets_no_tunnel() {
    let mut tunnels = PacketTunnels::new(1, 1);
    assert_eq!(
        init_runtime_packet_tunnel(&mut tunnels, 1, true, 1, 1),
        Err(TunnelError::AlreadyRunning)
    );
    assert!(!has_runtime_packet_tunnel(&tunnels, 1));
}

#[test]
fn queue_sizes_are_brought_into_range() {
    assert_eq!(packet_queue_size(0), 1);
    assert_eq!(packet_queue_size(17), 17);
    assert_eq!(normalize_packet_queue_size(0, 0), Ok(1));
    assert_eq!(normalize_packet_queue_size(0, 300), Ok(300));
    assert_eq!(normalize_packet_queue_size(4_096, 1), Ok(4_096));
    assert_eq!(
        normalize_packet_queue_size(4_097, 1),
        Err(TunnelError::QueueSizeExceedsMaximum(4_097))
    );
}

#[test]
fn default_queue_sizes_apply_to_zero() {
    let mut host = Host::new();
    host.tunnels = PacketTunnels::new(2, 0);
    host.init(1, 0, 0).unwrap();
    let tunnel = host.take(1);
    host.write(1, &[1]).unwrap();
    host.write(1, &[2]).unwrap();
    assert_eq!(host.write(1, &[3]), Err(TunnelError::InputQueueFull));
    host.send(&tunnel, vec![1]).unwrap();
    assert_eq!(
        tunnel.start_send(&mut host.tunnels, vec![2], &mut host.effects),
        Err(TunnelError::OutputQueueFull)
    );
}

#[test]
fn accepted_packet_wakes_the_transport() {
    let mut tunnels = PacketTunnels::new(1, 1);
    let mut effects = Vec::new();
    init_runtime_packet_tunnel(&mut tunnels, 1, false, 1, 1).unwrap();
    let tunnel = take_runtime_packet_tunnel(&mut tunnels, 1).unwrap().unwrap();
    assert_eq!(
        tunnel.poll_next(&mut tunnels, PollPhase::Initial, &mut effects),
        PollStep::Register
    );
    assert_eq!(
        tunnel.poll_next(&mut tunnels, PollPhase::Registered, &mut effects),
        PollStep::Pending
    );
    write_runtime_packet(&mut tunnels, 1, &[1], &mut effects).unwrap();
    assert_eq!(effects, vec![Effect::WakeInput(tunnel.handle)]);
}

#[test]
fn messages_of_the_errors() {
    let messages = [
        (TunnelError::Closed, "packet tunnel is closed"),
        (TunnelError::InputQueueFull, "packet tunnel input queue is full"),
        (TunnelError::InputByteLimitExceeded, "packet tunnel input byte limit exceeded"),
        (TunnelError::OutputQueueFull, "packet tunnel output queue is full"),
        (TunnelError::OutputByteLimitExceeded, "packet tunnel output byte limit exceeded"),
        (TunnelError::AlreadyConnected, "packet tunnel is already connected"),
        (TunnelError::NotInitialized, "packet tunnel not initialized"),
        (TunnelError::AlreadyRunning, "runtime is already running"),
        (TunnelError::AlreadyInitialized, "packet tunnel is already initialized"),
        (
            TunnelError::QueueSizeExceedsMaximum(5_000),
            "packet tunnel queue size 5000 exceeds maximum 4096",
        ),
    ];
    for (error, message) in messages {
        assert_eq!(error.message(), message);
    }
}

#[test]
fn ready_transport_can_send_the_largest_packet() {
    let mut host = Host::new();
    host.init(1, 1, 4).unwrap();
    let tunnel = host.take(1);
    assert_eq!(tunnel.poll_ready(&host.tunnels, PollPhase::Initial), PollStep::Ready(Ok(())));
    let packet = vec![7u8; MAX_IP_PACKET_SIZE];
    assert_eq!(tunnel.start_send(&mut host.tunnels, packet.clone(), &mut host.effects), Ok(()));
    let mut scratch = vec![0u8; MAX_IP_PACKET_SIZE];
    assert_eq!(host.read(1, &mut scratch), RuntimePacketRead::Packet(65_535));
    assert_eq!(scratch, packet);
}

#[test]
fn closing_again_changes_nothing() {
    let mut host = Host::new();
    host.init(1, 1, 2).unwrap();
    let tunnel = host.take(1);
    host.write(1, &[1]).unwrap();
    host.send(&tunnel, vec![2]).unwrap();
    for _ in 0..2 {
        assert_eq!(
            tunnel.poll_close(&mut host.tunnels, &mut host.effects),
            PollStep::Ready(Ok(()))
        );
        assert_eq!(host.carry_out().len(), 3);
    }
    let mut buffer = [0u8; 1];
    assert_eq!(host.read(1, &mut buffer), RuntimePacketRead::Packet(1));
    assert_eq!(buffer, [2]);
    assert_eq!(host.next(&tunnel), Some(vec![1]));
    assert_eq!(host.next(&tunnel), None);
}

#[test]
fn refused_packet_changes_nothing() {
    let mut host = Host::new();
    host.init(1, 1, 1).unwrap();
    let tunnel = host.take(1);
    host.write(1, &[1]).unwrap();
    let mut effects = Vec::new();
    assert_eq!(
        write_runtime_packet(&mut host.tunnels, 1, &[2], &mut effects),
        Err(TunnelError::InputQueueFull)
    );
    host.send(&tunnel, vec![3]).unwrap();
    assert_eq!(
        tunnel.start_send(&mut host.tunnels, vec![4], &mut effects),
        Err(TunnelError::OutputQueueFull)
    );
    assert!(effects.is_empty());
    assert_eq!(host.next(&tunnel), Some(vec![1]));
    let mut buffer = [0u8; 1];
    assert_eq!(host.read(1, &mut buffer), RuntimePacketRead::Packet(1));
    assert_eq!(buffer, [3]);
    assert_eq!(host.read(1, &mut buffer), RuntimePacketRead::NoData);
}

#[test]
fn idle_tunnel_is_dropped_with_its_packets() {
    let mut host = Host::new();
    host.init(1, 1, 1).unwrap();
    let id = host.tunnels.get_handle(1).unwrap();
    host.write(1, &[1]).unwrap();
    host.remove(1);
    assert_eq!(host.tunnels.get_handle(1), Err(TunnelError::NotInitialized));
    host.init(2, 1, 1).unwrap();
    assert_eq!(host.tunnels.get_handle(2), Ok(id));
    let tunnel = host.take(2);
    assert_eq!(
        tunnel.poll_next(&mut host.tunnels, PollPhase::Initial, &mut host.effects),
        PollStep::Register
    );
}

#[test]
fn begin_callback_is_refused_once_closed() {
    let mut handle = PacketTunnelHandle::new(1, 1, 1, 1);
    let mut effects = Vec::new();
    let guard = handle.begin_callback().unwrap();
    handle.close(&mut effects);
    assert!(handle.is_closed());
    assert_eq!(handle.begin_callback(), None);
    assert_eq!(handle.callbacks_in_flight(), 1);
    effects.clear();
    handle.finish_callback(guard, &mut effects);
    assert_eq!(effects, vec![Effect::CallbacksDrained(0)]);
}

#[test]
fn default_queue_sizes_can_be_set_later() {
    let mut host = Host::new();
    host.tunnels = PacketTunnels::new(0, 0);
    host.init(1, 0, 0).unwrap();
    host.tunnels.set_default_queue_sizes(2, 5_000);
    host.init(2, 0, 0).unwrap();
    host.write(1, &[1]).unwrap();
    assert_eq!(host.write(1, &[2]), Err(TunnelError::InputQueueFull));
    host.write(2, &[1]).unwrap();
    host.write(2, &[2]).unwrap();
    assert_eq!(host.write(2, &[3]), Err(TunnelError::InputQueueFull));
}

#[test]
fn tunnel_lasts_until_it_is_removed_and_released() {
    let mut host = Host::new();
    host.init(1, 1, 1).unwrap();
    let id = host.tunnels.get_handle(1).unwrap();
    let tunnel = host.take(1);
    host.init(2, 1, 1).unwrap();
    host.remove(2);
    assert_eq!(host.tunnels.get_handle(1), Ok(id));
    host.remove(1);
    assert!(!has_runtime_packet_tunnel(&host.tunnels, 1));
    assert!(host.tunnels.has_handle(id));
    tunnel.release(&mut host.tunnels);
    assert!(!host.tunnels.has_handle(id));
    assert!(!host.tunnels.has_handle(99));
    // Nothing but a set-up brings the tunnel back.
    host.init(2, 1, 1).unwrap();
    assert!(!has_runtime_packet_tunnel(&host.tunnels, 1));
    assert_eq!(host.write(1, &[1]), Err(TunnelError::Closed));
}
