use std::sync::Arc;

use leaf_tunnel::errno::{
    io_to_errno, outcome_to_errno, to_errno, ERR_ALREADY_EXISTS, ERR_ASYNC_CHANNEL_SEND,
    ERR_BUFFER_TOO_SMALL, ERR_CONFIG, ERR_CONFIG_PATH, ERR_INVALID_ARGUMENT, ERR_IO,
    ERR_NOT_FOUND, ERR_NO_CONFIG_FILE, ERR_NO_DATA, ERR_OK, ERR_QUEUE_FULL, ERR_RUNTIME_MANAGER,
    ERR_SYNC_CHANNEL_RECV, ERR_WATCHER,
};
use leaf_tunnel::error::{Error, ErrorKind};
use leaf_tunnel::ffi::runtime::{
    ffi_boundary, health_check_code, last_active_reply, leaf_get_last_active,
    leaf_get_since_last_active, leaf_health_check, leaf_run, leaf_run_with_config_string,
    leaf_run_with_options, leaf_test_config, leaf_test_outbounds, outbound_report,
    outbounds_test_code, since_last_active_reply, ActivityOutcome, Config, HealthCheckOutcome,
    OutboundsTestOutcome, RuntimeOption,
};
use leaf_tunnel::ffi::tunnel::{
    leaf_packet_tunnel_close, leaf_packet_tunnel_init, leaf_packet_tunnel_init_with_options,
    leaf_packet_tunnel_read, leaf_packet_tunnel_set_input_ready_callback,
    leaf_packet_tunnel_set_output_callback, leaf_packet_tunnel_write,
    MAX_PACKET_TUNNEL_QUEUE_SIZE,
};
use leaf_tunnel::inbound::TunInboundListener;
use leaf_tunnel::packet_io::{
    take_runtime_packet_tunnel, Effect, PacketTunnelNotifier, PacketTunnels, PollPhase, PollStep,
};
use leaf_tunnel::text::{
    callback_cstring, panic_message, parse_string_arg, to_decimal, PanicPayload,
};

#[test]
fn packet_tunnel_write_reports_queue_full() {
    let rt_id = 51_001;
    let packet = [1_u8, 2, 3];
    let mut tunnels = PacketTunnels::new(256, 256);
    let mut effects = Vec::new();

    assert_eq!(leaf_packet_tunnel_init_with_options(&mut tunnels, rt_id, false, 1, 1), ERR_OK);
    assert_eq!(
        leaf_packet_tunnel_write(&mut tunnels, rt_id, Some(&packet), packet.len(), &mut effects),
        ERR_OK
    );
    assert_eq!(
        leaf_packet_tunnel_write(&mut tunnels, rt_id, Some(&packet), packet.len(), &mut effects),
        ERR_QUEUE_FULL
    );

    assert_eq!(leaf_packet_tunnel_close(&mut tunnels, rt_id, &mut effects), ERR_OK);
}

#[test]
fn packet_tunnel_init_rejects_queue_sizes_above_maximum() {
    let mut tunnels = PacketTunnels::new(256, 256);
    assert_eq!(
        leaf_packet_tunnel_init_with_options(
            &mut tunnels,
            51_002,
            false,
            MAX_PACKET_TUNNEL_QUEUE_SIZE + 1,
            1
        ),
        ERR_INVALID_ARGUMENT
    );
}

#[test]
fn outbound_tag_utf8_errors_return_invalid_argument() {
    let invalid = [0xff_u8];
    let tag: Option<&[u8]> = Some(&invalid);

    assert_eq!(leaf_health_check(1, tag, 0).unwrap_err(), ERR_INVALID_ARGUMENT);
    assert_eq!(leaf_get_last_active(1, tag, true).unwrap_err(), ERR_INVALID_ARGUMENT);
    assert_eq!(leaf_get_since_last_active(1, tag, true).unwrap_err(), ERR_INVALID_ARGUMENT);
}

#[test]
fn null_config_arguments_preserve_config_path_error() {
    assert_eq!(leaf_run(1, None).unwrap_err(), ERR_CONFIG_PATH);
    assert_eq!(leaf_run_with_config_string(1, None).unwrap_err(), ERR_CONFIG_PATH);
    assert_eq!(
        leaf_run_with_options(1, None, false, false, false, 0, 0).unwrap_err(),
        ERR_CONFIG_PATH
    );
    assert_eq!(leaf_test_config(None).unwrap_err(), ERR_CONFIG_PATH);
    assert_eq!(leaf_test_outbounds(None, 1, 1).unwrap_err(), ERR_CONFIG_PATH);
    assert_eq!(leaf_health_check(1, None, 0).unwrap_err(), ERR_INVALID_ARGUMENT);
    assert_eq!(leaf_get_last_active(1, None, true).unwrap_err(), ERR_INVALID_ARGUMENT);
    assert_eq!(leaf_get_since_last_active(1, None, true).unwrap_err(), ERR_INVALID_ARGUMENT);
}

#[test]
fn ffi_boundary_converts_panics_to_err_io() {
    let reply = ffi_boundary(Err(PanicPayload::Literal("boom")));
    assert_eq!(reply.code, ERR_IO);
    assert_eq!(reply.panic.as_deref(), Some("boom"));
}

#[test]
fn callback_cstring_replaces_interior_nuls() {
    let value = callback_cstring("ab\0cd").expect("sanitized cstring");
    assert_eq!(value, "ab\u{FFFD}cd");
}

#[test]
fn text_without_nul_is_kept() {
    assert_eq!(callback_cstring("").as_deref(), Some(""));
    assert_eq!(callback_cstring("gr\u{fc}n").as_deref(), Some("gr\u{fc}n"));
    assert_eq!(callback_cstring("\0\0").as_deref(), Some("\u{FFFD}\u{FFFD}"));
}

#[test]
fn boundary_passes_codes_through() {
    let reply = ffi_boundary(Ok(ERR_NO_DATA));
    assert_eq!(reply.code, ERR_NO_DATA);
    assert_eq!(reply.panic, None);
    assert_eq!(panic_message(PanicPayload::Message("put together".to_string())), "put together");
    assert_eq!(panic_message(PanicPayload::Other), "non-string panic payload");
}

#[test]
fn text_arguments_are_decoded() {
    assert_eq!(parse_string_arg(None, 1, 2), Err(1));
    assert_eq!(parse_string_arg(Some(&[0xc3, 0x28]), 1, 2), Err(2));
    assert_eq!(parse_string_arg(Some(&[]), 1, 2), Ok(String::new()));
    assert_eq!(
        parse_string_arg(Some("k\u{e4}se \u{1f9c0}".as_bytes()), 1, 2),
        Ok("k\u{e4}se \u{1f9c0}".to_string())
    );
}

#[test]
fn numbers_are_written_in_decimal() {
    assert_eq!(to_decimal(0), "0");
    assert_eq!(to_decimal(7), "7");
    assert_eq!(to_decimal(10), "10");
    assert_eq!(to_decimal(4_096), "4096");
    assert_eq!(to_decimal(u32::MAX as usize), "4294967295");
}

#[test]
fn error_codes_of_the_runtime() {
    assert_eq!(to_errno(Error::Config), ERR_CONFIG);
    assert_eq!(to_errno(Error::NoConfigFile), ERR_NO_CONFIG_FILE);
    assert_eq!(to_errno(Error::Io), ERR_IO);
    assert_eq!(to_errno(Error::Watcher), ERR_WATCHER);
    assert_eq!(to_errno(Error::AsyncChannelSend), ERR_ASYNC_CHANNEL_SEND);
    assert_eq!(to_errno(Error::SyncChannelRecv), ERR_SYNC_CHANNEL_RECV);
    assert_eq!(to_errno(Error::RuntimeManager), ERR_RUNTIME_MANAGER);
    assert_eq!(outcome_to_errno(Ok(())), 0);
    assert_eq!(outcome_to_errno(Err(Error::RuntimeManager)), 7);
}

#[test]
fn error_codes_of_io() {
    assert_eq!(io_to_errno(ErrorKind::InvalidInput), 10);
    assert_eq!(io_to_errno(ErrorKind::AlreadyExists), 11);
    assert_eq!(io_to_errno(ErrorKind::NotFound), 12);
    assert_eq!(io_to_errno(ErrorKind::WouldBlock), 14);
    assert_eq!(io_to_errno(ErrorKind::BrokenPipe), 3);
    assert_eq!(io_to_errno(ErrorKind::Other), 3);
}

#[test]
fn runs_are_planned_from_their_arguments() {
    let run = leaf_run_with_options(3, Some(b"a.conf"), true, true, false, 4, -1).unwrap();
    assert_eq!(run.rt_id, 3);
    assert_eq!(run.config_path, "a.conf");
    assert!(run.auto_reload);
    assert!(run.multi_thread);
    assert!(!run.auto_threads);
    assert_eq!(run.threads, 4);
    assert_eq!(run.stack_size, -1_i32 as usize);
    let run = leaf_run_with_options(3, Some(b"a"), true, true, false, i32::MIN, 0).unwrap();
    assert_eq!(run.threads, i32::MIN as usize);

    let start = leaf_run(5, Some(b"b.conf")).unwrap();
    assert_eq!(start.rt_id, 5);
    assert!(matches!(start.config, Config::File(path) if path == "b.conf"));
    assert!(!start.auto_reload);
    assert_eq!(start.runtime_opt, RuntimeOption::SingleThread);

    let start = leaf_run_with_config_string(6, Some(b"[General]")).unwrap();
    assert!(matches!(start.config, Config::Str(text) if text == "[General]"));
    assert_eq!(leaf_run_with_config_string(6, Some(&[0xff])).unwrap_err(), ERR_CONFIG_PATH);
    assert_eq!(leaf_test_config(Some(b"c.json")).unwrap(), "c.json");
}

#[test]
fn outbounds_are_tested_and_reported() {
    let test = leaf_test_outbounds(Some(b"cfg"), 8, 5).unwrap();
    assert_eq!(test.config, "cfg");
    assert_eq!(test.concurrency, 8);
    assert_eq!(test.timeout_sec, Some(5));
    assert_eq!(leaf_test_outbounds(Some(b"cfg"), 8, 0).unwrap().timeout_sec, None);

    let report = outbound_report("a\0b", Some(42), None).unwrap();
    assert_eq!(report.tag, "a\u{FFFD}b");
    assert_eq!(report.tcp_latency, 42);
    assert_eq!(report.udp_latency, -1);
    let big = 0x1_8000_0001_u128;
    let report = outbound_report("t", Some(big), Some(i32::MAX as u128)).unwrap();
    assert_eq!(report.tcp_latency, big as i32);
    assert_eq!(report.udp_latency, i32::MAX);

    assert_eq!(outbounds_test_code(OutboundsTestOutcome::ConfigRejected), ERR_CONFIG);
    assert_eq!(
        outbounds_test_code(OutboundsTestOutcome::NoExecutor(ErrorKind::Other)),
        ERR_IO
    );
    assert_eq!(outbounds_test_code(OutboundsTestOutcome::NotStarted), ERR_OK);
    assert_eq!(outbounds_test_code(OutboundsTestOutcome::Completed), ERR_OK);
}

#[test]
fn health_needs_one_protocol() {
    let check = leaf_health_check(1, Some(b"proxy"), 1500).unwrap();
    assert_eq!(check.rt_id, 1);
    assert_eq!(check.outbound_tag, "proxy");
    assert_eq!(check.timeout_ms, Some(1500));
    assert_eq!(leaf_health_check(1, Some(b"proxy"), 0).unwrap().timeout_ms, None);

    let checked = |tcp_ok, udp_ok| HealthCheckOutcome::Checked { tcp_ok, udp_ok };
    assert_eq!(health_check_code(checked(true, true)), ERR_OK);
    assert_eq!(health_check_code(checked(true, false)), ERR_OK);
    assert_eq!(health_check_code(checked(false, true)), ERR_OK);
    assert_eq!(health_check_code(checked(false, false)), ERR_IO);
    assert_eq!(health_check_code(HealthCheckOutcome::NoRuntime), ERR_RUNTIME_MANAGER);
    assert_eq!(health_check_code(HealthCheckOutcome::Failed(Error::Config)), ERR_CONFIG);
    assert_eq!(
        health_check_code(HealthCheckOutcome::NoExecutor(ErrorKind::NotFound)),
        ERR_NOT_FOUND
    );
}

#[test]
fn activity_is_stored_where_there_is_any() {
    assert_eq!(leaf_get_last_active(1, Some(b"x"), false).unwrap_err(), ERR_INVALID_ARGUMENT);
    assert_eq!(leaf_get_since_last_active(1, Some(b"x"), false).unwrap_err(), ERR_INVALID_ARGUMENT);
    assert_eq!(leaf_get_last_active(1, Some(b"x"), true).unwrap().outbound_tag, "x");
    let query = leaf_get_since_last_active(8, Some(b"x"), true).unwrap();
    assert_eq!(query.rt_id, 8);
    assert_eq!(query.outbound_tag, "x");

    let mut place = 77_u32;
    assert_eq!(last_active_reply(ActivityOutcome::NoSession, &mut place), ERR_NO_DATA);
    assert_eq!(last_active_reply(ActivityOutcome::NoRuntime, &mut place), ERR_RUNTIME_MANAGER);
    assert_eq!(
        last_active_reply(ActivityOutcome::NoExecutor(ErrorKind::Other), &mut place),
        ERR_IO
    );
    assert_eq!(
        last_active_reply(ActivityOutcome::Failed(Error::NoConfigFile), &mut place),
        ERR_NO_CONFIG_FILE
    );
    assert_eq!(place, 77);
    assert_eq!(last_active_reply(ActivityOutcome::LastActive(1000), &mut place), ERR_OK);
    assert_eq!(place, 1000);

    let active = ActivityOutcome::LastActive(1000);
    assert_eq!(since_last_active_reply(active, Some(1060), &mut place), ERR_OK);
    assert_eq!(place, 60);
    assert_eq!(since_last_active_reply(active, Some(900), &mut place), ERR_OK);
    assert_eq!(place, 0);
    assert_eq!(since_last_active_reply(active, Some(0x1_0000_0400), &mut place), ERR_OK);
    assert_eq!(place, 24);
    assert_eq!(since_last_active_reply(active, None, &mut place), ERR_OK);
    assert_eq!(place, 0);
    place = 5;
    assert_eq!(
        since_last_active_reply(ActivityOutcome::NoSession, Some(1), &mut place),
        ERR_NO_DATA
    );
    assert_eq!(place, 5);
}

#[test]
fn read_reports_sizes_and_codes() {
    let mut tunnels = PacketTunnels::new(4, 4);
    let mut effects = Vec::new();
    let mut len = 99_usize;
    assert_eq!(
        leaf_packet_tunnel_read(&mut tunnels, 1, None, 0, Some(&mut len), &mut effects),
        ERR_NOT_FOUND
    );
    assert_eq!(len, 99);
    assert_eq!(leaf_packet_tunnel_init(&mut tunnels, 1, false, 4), ERR_OK);
    assert_eq!(
        leaf_packet_tunnel_read(&mut tunnels, 1, None, 0, Some(&mut len), &mut effects),
        ERR_NO_DATA
    );
    assert_eq!(len, 0);
    let transport = take_runtime_packet_tunnel(&mut tunnels, 1).unwrap().unwrap();
    transport.start_send(&mut tunnels, vec![7, 8], &mut effects).unwrap();

    assert_eq!(
        leaf_packet_tunnel_read(&mut tunnels, 1, None, 0, None, &mut effects),
        ERR_INVALID_ARGUMENT
    );
    assert_eq!(
        leaf_packet_tunnel_read(&mut tunnels, 1, None, 3, Some(&mut len), &mut effects),
        ERR_INVALID_ARGUMENT
    );
    assert_eq!(len, 0);
    assert_eq!(
        leaf_packet_tunnel_read(&mut tunnels, 1, None, 0, Some(&mut len), &mut effects),
        ERR_BUFFER_TOO_SMALL
    );
    assert_eq!(len, 2);
    let mut short = [0_u8; 1];
    assert_eq!(
        leaf_packet_tunnel_read(
            &mut tunnels,
            1,
            Some(&mut short),
            1,
            Some(&mut len),
            &mut effects
        ),
        ERR_BUFFER_TOO_SMALL
    );
    let mut buffer = [0_u8; 3];
    assert_eq!(
        leaf_packet_tunnel_read(
            &mut tunnels,
            1,
            Some(&mut buffer),
            3,
            Some(&mut len),
            &mut effects
        ),
        ERR_OK
    );
    assert_eq!(len, 2);
    assert_eq!(buffer, [7, 8, 0]);
}

#[test]
fn write_reports_its_codes() {
    let mut tunnels = PacketTunnels::new(4, 4);
    let mut effects = Vec::new();
    assert_eq!(leaf_packet_tunnel_write(&mut tunnels, 1, None, 0, &mut effects), ERR_OK);
    assert_eq!(
        leaf_packet_tunnel_write(&mut tunnels, 1, None, 4, &mut effects),
        ERR_INVALID_ARGUMENT
    );
    assert_eq!(
        leaf_packet_tunnel_write(&mut tunnels, 1, Some(&[1]), 1, &mut effects),
        ERR_NOT_FOUND
    );
    assert_eq!(leaf_packet_tunnel_init_with_options(&mut tunnels, 1, true, 1, 1), ERR_ALREADY_EXISTS);
    assert_eq!(leaf_packet_tunnel_init_with_options(&mut tunnels, 1, false, 0, 0), ERR_OK);
    assert_eq!(leaf_packet_tunnel_init(&mut tunnels, 1, false, 0), ERR_ALREADY_EXISTS);
    let transport = take_runtime_packet_tunnel(&mut tunnels, 1).unwrap().unwrap();
    transport.poll_close(&mut tunnels, &mut effects);
    assert_eq!(
        leaf_packet_tunnel_write(&mut tunnels, 1, Some(&[1]), 1, &mut effects),
        ERR_IO
    );
    assert_eq!(leaf_packet_tunnel_close(&mut tunnels, 1, &mut effects), ERR_OK);
    assert_eq!(leaf_packet_tunnel_close(&mut tunnels, 1, &mut effects), ERR_OK);
    assert_eq!(
        leaf_packet_tunnel_write(&mut tunnels, 1, Some(&[1]), 1, &mut effects),
        ERR_IO
    );
}

#[test]
fn callbacks_carry_the_values_of_the_host() {
    let mut tunnels = PacketTunnels::new(4, 4);
    let mut effects = Vec::new();
    assert_eq!(
        leaf_packet_tunnel_set_input_ready_callback(&mut tunnels, 1, 10, Some(20)),
        ERR_NOT_FOUND
    );
    assert_eq!(
        leaf_packet_tunnel_set_output_callback(&mut tunnels, 1, 10, Some(20), &mut effects),
        ERR_NOT_FOUND
    );
    leaf_packet_tunnel_init_with_options(&mut tunnels, 1, false, 1, 1);
    assert_eq!(
        leaf_packet_tunnel_set_input_ready_callback(&mut tunnels, 1, 10, Some(20)),
        ERR_OK
    );
    let transport = take_runtime_packet_tunnel(&mut tunnels, 1).unwrap().unwrap();
    leaf_packet_tunnel_write(&mut tunnels, 1, Some(&[1]), 1, &mut effects);
    effects.clear();
    assert_eq!(
        transport.poll_next(&mut tunnels, PollPhase::Initial, &mut effects),
        PollStep::Ready(Some(vec![1]))
    );
    match &effects[0] {
        Effect::Notify { notifier, .. } => {
            assert_eq!(*notifier, PacketTunnelNotifier { rt_id: 1, context: 10, callback: 20 })
        }
        _ => panic!("expected a callback"),
    }
    assert_eq!(
        leaf_packet_tunnel_set_output_callback(&mut tunnels, 1, 0, None, &mut effects),
        ERR_OK
    );
}

#[test]
fn listener_hands_its_parts_on() {
    let listener = TunInboundListener {
        rt_id: 9,
        inbound: "tun".to_string(),
        dispatcher: Arc::new(1_u8),
        nat_manager: Arc::new(2_u8),
    };
    let result: Result<String, u8> = listener.listen(
        |rt_id: u16, inbound: String, dispatcher: Arc<u8>, nat_manager: Arc<u8>| {
            assert_eq!(Arc::strong_count(&dispatcher), 2);
            Ok(format!("{} {} {} {}", rt_id, inbound, dispatcher, nat_manager))
        },
    );
    assert_eq!(result, Ok("9 tun 1 2".to_string()));
    let failed: Result<String, u8> = listener.listen(|_, _, _, _| Err(3));
    assert_eq!(failed, Err(3));
}

#[test]
fn host_told_queue_full_by_bytes_is_called_back() {
    let mut tunnels = PacketTunnels::new(64, 64);
    let mut effects = Vec::new();
    assert_eq!(leaf_packet_tunnel_init(&mut tunnels, 1, false, 0), ERR_OK);
    leaf_packet_tunnel_set_input_ready_callback(&mut tunnels, 1, 10, Some(20));
    let transport = take_runtime_packet_tunnel(&mut tunnels, 1).unwrap().unwrap();
    let large = vec![0_u8; 65_500];
    for _ in 0..16 {
        assert_eq!(
            leaf_packet_tunnel_write(&mut tunnels, 1, Some(&large), 65_500, &mut effects),
            ERR_OK
        );
    }
    // 1,048,000 bytes are queued, fewer than the limit of 1,048,576.
    let packet = vec![0_u8; 1_500];
    assert_eq!(
        leaf_packet_tunnel_write(&mut tunnels, 1, Some(&packet), 1_500, &mut effects),
        ERR_QUEUE_FULL
    );
    effects.clear();
    for _ in 0..16 {
        let step = transport.poll_next(&mut tunnels, PollPhase::Initial, &mut effects);
        assert!(matches!(step, PollStep::Ready(Some(_))));
    }
    assert_eq!(effects.len(), 1);
    match &effects[0] {
        Effect::Notify { notifier, .. } => {
            assert_eq!(*notifier, PacketTunnelNotifier { rt_id: 1, context: 10, callback: 20 })
        }
        _ => panic!("expected a callback"),
    }
}
