//! What each call of the host for its runtimes does, from what it is given to what it hands back.

use vstd::prelude::*;
use vstd::utf8::{decode_utf8_encode_utf8, encode_utf8, valid_utf8};

use crate::error::{Error, ErrorKind};
use crate::ffi::runtime::{
    ffi_boundary, health_check_code, last_active_reply, leaf_get_last_active,
    leaf_get_since_last_active, leaf_health_check, leaf_run, leaf_run_with_config_string,
    leaf_run_with_options, leaf_test_config, leaf_test_outbounds, outbound_report,
    outbounds_test_code, since_last_active_reply, ActivityOutcome, ActivityQuery, BoundaryReply,
    HealthCheck, HealthCheckOutcome, OutboundReport, OutboundsTest, OutboundsTestOutcome,
    RunOptions, StartOptions,
};
use crate::packet_io::effect::RuntimeId;
use crate::text::PanicPayload;

verus! {

/// Brings in that text which was decoded encodes to the same bytes.
proof fn lemma_encodes_back(arg: Option<&[u8]>)
    ensures
        arg is Some && valid_utf8(arg->0@) ==> encode_utf8(vstd::utf8::decode_utf8(arg->0@))
            == arg->0@,
{
    if arg is Some && valid_utf8(arg->0@) {
        decode_utf8_encode_utf8(arg->0@);
    }
}

/// A runtime is started from exactly the path or the text that the host gave, whatever its length,
/// under the host's number, with a single thread and without reloading. The call fails with the
/// code for a config path only where the text is missing or is no valid UTF-8.
pub proof fn law_runtime_is_started_from_what_was_given(
    rt_id: RuntimeId,
    arg: Option<&[u8]>,
    by_path: Result<StartOptions, i32>,
    by_text: Result<StartOptions, i32>,
    tested: Result<String, i32>,
)
    requires
        call_ensures(leaf_run, (rt_id, arg), by_path),
        call_ensures(leaf_run_with_config_string, (rt_id, arg), by_text),
        call_ensures(leaf_test_config, (arg,), tested),
    ensures
        ({
            let readable = arg is Some && valid_utf8(arg->0@);
            &&& by_path is Ok <==> readable
            &&& by_text is Ok <==> readable
            &&& tested is Ok <==> readable
            &&& by_path matches Err(code) ==> code == 1
            &&& by_text matches Err(code) ==> code == 1
            &&& tested matches Err(code) ==> code == 1
            &&& by_path matches Ok(options) ==> {
                &&& options.rt_id == rt_id
                &&& options.config is File
                &&& encode_utf8(options.config->File_0@) == arg->0@
                &&& !options.auto_reload
                &&& options.runtime_opt is SingleThread
            }
            &&& by_text matches Ok(options) ==> {
                &&& options.rt_id == rt_id
                &&& options.config is Str
                &&& encode_utf8(options.config->Str_0@) == arg->0@
                &&& !options.auto_reload
                &&& options.runtime_opt is SingleThread
            }
            &&& tested matches Ok(path) ==> encode_utf8(path@) == arg->0@
        }),
{
    lemma_encodes_back(arg);
}

/// A runtime with options is started from exactly the path that the host gave, with exactly the
/// options it gave. A negative number of threads or bytes of stack is the machine word that is as
/// far below the end of its range.
pub proof fn law_runtime_is_started_with_the_options_given(
    rt_id: RuntimeId,
    arg: Option<&[u8]>,
    auto_reload: bool,
    multi_thread: bool,
    auto_threads: bool,
    threads: i32,
    stack_size: i32,
    result: Result<RunOptions, i32>,
)
    requires
        call_ensures(
            leaf_run_with_options,
            (rt_id, arg, auto_reload, multi_thread, auto_threads, threads, stack_size),
            result,
        ),
    ensures
        result is Ok <==> arg is Some && valid_utf8(arg->0@),
        result matches Err(code) ==> code == 1,
        result matches Ok(options) ==> {
            &&& encode_utf8(options.config_path@) == arg->0@
            &&& options.rt_id == rt_id
            &&& options.auto_reload == auto_reload
            &&& options.multi_thread == multi_thread
            &&& options.auto_threads == auto_threads
            &&& threads >= 0 ==> options.threads == threads
            &&& threads < 0 ==> options.threads - threads == usize::MAX + 1
            &&& stack_size >= 0 ==> options.stack_size == stack_size
            &&& stack_size < 0 ==> options.stack_size - stack_size == usize::MAX + 1
        },
{
    lemma_encodes_back(arg);
}

/// The outbounds of exactly the configuration that the host gave are tested, as many at a time as
/// it asked, each within the seconds it asked, or without a limit for 0.
pub proof fn law_outbounds_are_tested_as_asked(
    arg: Option<&[u8]>,
    concurrency: u32,
    timeout_sec: u32,
    result: Result<OutboundsTest, i32>,
)
    requires
        call_ensures(leaf_test_outbounds, (arg, concurrency, timeout_sec), result),
    ensures
        result is Ok <==> arg is Some && valid_utf8(arg->0@),
        result matches Err(code) ==> code == 1,
        result matches Ok(test) ==> {
            &&& encode_utf8(test.config@) == arg->0@
            &&& test.concurrency == concurrency
            &&& test.timeout_sec is None <==> timeout_sec == 0
            &&& timeout_sec > 0 ==> test.timeout_sec->0 == timeout_sec
        },
{
    lemma_encodes_back(arg);
}

/// Every outbound is reported, under its own tag but for NULs, which become U+FFFD. A latency that
/// was measured and that an `i32` can hold is told as it is, a longer one by its low 32 bits, and a
/// failed test as -1; neither protocol has a say in what is told of the other.
pub proof fn law_outbound_is_reported(
    tag: &str,
    tcp: Option<u128>,
    udp: Option<u128>,
    report: Option<OutboundReport>,
)
    requires
        call_ensures(outbound_report, (tag, tcp, udp), report),
    ensures
        report is Some,
        report->0.tag@.len() == tag@.len(),
        forall|i: int|
            0 <= i < tag@.len() ==> #[trigger] report->0.tag@[i] == if tag@[i] == '\0' {
                '\u{FFFD}'
            } else {
                tag@[i]
            },
        tcp is None ==> report->0.tcp_latency == -1,
        udp is None ==> report->0.udp_latency == -1,
        tcp is Some && tcp->0 <= i32::MAX ==> report->0.tcp_latency == tcp->0,
        udp is Some && udp->0 <= i32::MAX ==> report->0.udp_latency == udp->0,
        tcp is Some ==> (tcp->0 - report->0.tcp_latency) % 0x1_0000_0000 == 0,
        udp is Some ==> (udp->0 - report->0.udp_latency) % 0x1_0000_0000 == 0,
{
}

/// Tests that could not be run for a bad configuration or want of an executor are reported as
/// failed; otherwise the call succeeds, whether the tests could be started or not.
pub proof fn law_outbounds_test_is_reported(outcome: OutboundsTestOutcome, code: i32)
    requires
        call_ensures(outbounds_test_code, (outcome,), code),
    ensures
        code == 0 <==> outcome is NotStarted || outcome is Completed,
        code == 2 <==> outcome is ConfigRejected,
        outcome matches OutboundsTestOutcome::NoExecutor(kind) ==> io_number(kind, code),
{
}

/// The number under which an I/O error is reported.
pub open spec fn io_number(kind: ErrorKind, code: i32) -> bool {
    &&& kind is InvalidInput <==> code == 10
    &&& kind is AlreadyExists <==> code == 11
    &&& kind is NotFound <==> code == 12
    &&& kind is WouldBlock <==> code == 14
    &&& kind is BrokenPipe || kind is Other <==> code == 3
}

/// The number under which an error of the runtime is reported.
pub open spec fn error_number(e: Error, code: i32) -> bool {
    &&& e is Config <==> code == 2
    &&& e is Io <==> code == 3
    &&& e is Watcher <==> code == 4
    &&& e is AsyncChannelSend <==> code == 5
    &&& e is SyncChannelRecv <==> code == 6
    &&& e is RuntimeManager <==> code == 7
    &&& e is NoConfigFile <==> code == 8
}

/// The outbound that is checked is exactly the one that the host named, of the runtime it named,
/// within the milliseconds it asked, or the default for 0. The call fails as an invalid argument
/// only where the tag is missing or is no valid UTF-8.
pub proof fn law_outbound_is_checked_as_asked(
    rt_id: RuntimeId,
    tag: Option<&[u8]>,
    timeout_ms: u64,
    result: Result<HealthCheck, i32>,
)
    requires
        call_ensures(leaf_health_check, (rt_id, tag, timeout_ms), result),
    ensures
        result is Ok <==> tag is Some && valid_utf8(tag->0@),
        result matches Err(code) ==> code == 10,
        result matches Ok(check) ==> {
            &&& check.rt_id == rt_id
            &&& encode_utf8(check.outbound_tag@) == tag->0@
            &&& check.timeout_ms is None <==> timeout_ms == 0
            &&& timeout_ms > 0 ==> check.timeout_ms->0 == timeout_ms
        },
{
    lemma_encodes_back(tag);
}

/// An outbound is healthy exactly where it was checked and one of the two protocols works. One that
/// works over neither is an I/O error, and a check that could not be made is reported for what went
/// wrong.
pub proof fn law_one_protocol_is_enough(outcome: HealthCheckOutcome, code: i32)
    requires
        call_ensures(health_check_code, (outcome,), code),
    ensures
        code == 0 <==> (outcome matches HealthCheckOutcome::Checked { tcp_ok, udp_ok } && (tcp_ok
            || udp_ok)),
        outcome is Checked && code != 0 ==> code == 3,
        outcome is NoRuntime ==> code == 7,
        outcome matches HealthCheckOutcome::Failed(e) ==> error_number(e, code),
        outcome matches HealthCheckOutcome::NoExecutor(kind) ==> io_number(kind, code),
{
}

/// The activity that is asked for is that of exactly the outbound that the host named, of the
/// runtime it named. The call fails as an invalid argument only where there is no place for the
/// answer, or the tag is missing or is no valid UTF-8.
pub proof fn law_activity_is_asked_for(
    rt_id: RuntimeId,
    tag: Option<&[u8]>,
    has_place: bool,
    last: Result<ActivityQuery, i32>,
    since: Result<ActivityQuery, i32>,
)
    requires
        call_ensures(leaf_get_last_active, (rt_id, tag, has_place), last),
        call_ensures(leaf_get_since_last_active, (rt_id, tag, has_place), since),
    ensures
        last is Ok <==> has_place && tag is Some && valid_utf8(tag->0@),
        since is Ok <==> has_place && tag is Some && valid_utf8(tag->0@),
        last matches Err(code) ==> code == 10,
        since matches Err(code) ==> code == 10,
        last matches Ok(query) ==> query.rt_id == rt_id && encode_utf8(query.outbound_tag@)
            == tag->0@,
        since matches Ok(query) ==> query.rt_id == rt_id && encode_utf8(query.outbound_tag@)
            == tag->0@,
{
    lemma_encodes_back(tag);
}

/// The time of last activity is stored as it is, and the seconds since then are those by which the
/// clock, read modulo 32 bits, is later, or none. Without an answer nothing is stored and the code
/// says why.
pub proof fn law_activity_is_told(
    outcome: ActivityOutcome,
    now: Option<u64>,
    timestamp_s: &mut u32,
    last_code: i32,
    since_s: &mut u32,
    since_code: i32,
)
    requires
        call_ensures(last_active_reply, (outcome, timestamp_s), last_code),
        call_ensures(since_last_active_reply, (outcome, now, since_s), since_code),
    ensures
        last_code == since_code,
        last_code == 0 <==> outcome is LastActive,
        last_code == 9 <==> outcome is NoSession,
        outcome is NoRuntime ==> last_code == 7,
        outcome matches ActivityOutcome::Failed(e) ==> error_number(e, last_code),
        outcome matches ActivityOutcome::NoExecutor(kind) ==> io_number(kind, last_code),
        !(outcome is LastActive) ==> {
            &&& *final(timestamp_s) == *old(timestamp_s)
            &&& *final(since_s) == *old(since_s)
        },
        outcome matches ActivityOutcome::LastActive(ts) ==> {
            &&& *final(timestamp_s) == ts
            &&& now is None ==> *final(since_s) == 0
            &&& now is Some && now->0 <= u32::MAX && now->0 >= ts ==> ts + *final(since_s)
                == now->0
            &&& now is Some && now->0 % 0x1_0000_0000 >= ts ==> (now->0 - ts - *final(since_s))
                % 0x1_0000_0000 == 0
            &&& now is Some && now->0 % 0x1_0000_0000 < ts ==> *final(since_s) == 0
        },
{
}

/// A call that ends gives its own code, and one that panics is reported as an I/O error with the
/// message of the panic.
pub proof fn law_panic_becomes_a_code(
    outcome: Result<i32, PanicPayload>,
    reply: BoundaryReply,
)
    requires
        call_ensures(ffi_boundary, (outcome,), reply),
    ensures
        outcome matches Ok(code) ==> reply.code == code && reply.panic is None,
        outcome is Err ==> reply.code == 3 && reply.panic is Some,
        outcome matches Err(PanicPayload::Literal(text)) ==> reply.panic->0@ == text@,
        outcome matches Err(PanicPayload::Message(text)) ==> reply.panic->0@ == text@,
        outcome matches Err(PanicPayload::Other) ==> reply.panic->0@
            == "non-string panic payload"@,
{
}

} // verus!
