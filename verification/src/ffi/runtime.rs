//! The functions of the host for its runtimes.
//!
//! Each call that reaches out to a runtime comes in two parts: one reads the arguments and
//! says what the runtime is to be asked, the other turns its answer into what the host is told.

use vstd::prelude::*;

use crate::errno::{
    errno, io_errno, io_to_errno, to_errno, ERR_CONFIG_PATH, ERR_INVALID_ARGUMENT, ERR_IO,
    ERR_NO_DATA, ERR_OK,
};
use crate::error::{Error, ErrorKind};
use crate::packet_io::effect::RuntimeId;
use crate::text::{
    callback_cstring, panic_message, parse_string_arg, text_arg, without_nul, PanicPayload,
};

verus! {

// ---- Starting a runtime ----

/// Where a configuration comes from.
#[derive(Debug)]
pub enum Config {
    /// The file at this path.
    File(String),
    /// This text.
    Str(String),
}

/// The threads of a runtime.
#[derive(Clone, Copy, Debug, PartialEq, Eq, Structural)]
pub enum RuntimeOption {
    SingleThread,
}

/// How a runtime is started.
#[derive(Debug)]
pub struct StartOptions {
    pub rt_id: RuntimeId,
    pub config: Config,
    pub auto_reload: bool,
    pub runtime_opt: RuntimeOption,
}

/// How a runtime is started when the host chooses its threads.
#[derive(Debug)]
pub struct RunOptions {
    pub rt_id: RuntimeId,
    pub config_path: String,
    pub auto_reload: bool,
    pub multi_thread: bool,
    pub auto_threads: bool,
    pub threads: usize,
    pub stack_size: usize,
}

/// The two's complement of a number in the width of a machine word, as an unsigned number.
pub open spec fn wrapped_usize(n: i32) -> int {
    if n >= 0 {
        n as int
    } else {
        n + usize::MAX + 1
    }
}

/// Reinterprets a number as an unsigned one in the width of a machine word.
fn wrap_usize(n: i32) -> (wrapped: usize)
    ensures
        wrapped == wrapped_usize(n),
{
    if n >= 0 {
        n as usize
    } else {
        usize::MAX - (-(n + 1)) as usize
    }
}

/// Says how to start a runtime from a configuration file, with the threads that the host asks
/// for.
pub fn leaf_run_with_options(
    rt_id: RuntimeId,
    config_path: Option<&[u8]>,
    auto_reload: bool,
    multi_thread: bool,
    auto_threads: bool,
    threads: i32,
    stack_size: i32,
) -> (result: Result<RunOptions, i32>)
    ensures
        match result {
            Ok(options) => {
                &&& text_arg(config_path, ERR_CONFIG_PATH, ERR_CONFIG_PATH) == Ok::<_, i32>(
                    options.config_path@,
                )
                &&& options.rt_id == rt_id
                &&& options.auto_reload == auto_reload
                &&& options.multi_thread == multi_thread
                &&& options.auto_threads == auto_threads
                &&& options.threads == wrapped_usize(threads)
                &&& options.stack_size == wrapped_usize(stack_size)
            },
            Err(code) => text_arg(config_path, ERR_CONFIG_PATH, ERR_CONFIG_PATH) == Err::<
                Seq<char>,
                _,
            >(code),
        },
{
    match parse_string_arg(config_path, ERR_CONFIG_PATH, ERR_CONFIG_PATH) {
        Ok(config_path) => Ok(
            RunOptions {
                rt_id,
                config_path,
                auto_reload,
                multi_thread,
                auto_threads,
                threads: wrap_usize(threads),
                stack_size: wrap_usize(stack_size),
            },
        ),
        Err(code) => Err(code),
    }
}

/// Says how to start a runtime with a single thread from a configuration file.
pub fn leaf_run(rt_id: RuntimeId, config_path: Option<&[u8]>) -> (result: Result<StartOptions, i32>)
    ensures
        match result {
            Ok(options) => {
                &&& options.config matches Config::File(path) && text_arg(
                    config_path,
                    ERR_CONFIG_PATH,
                    ERR_CONFIG_PATH,
                ) == Ok::<_, i32>(path@)
                &&& options.rt_id == rt_id
                &&& !options.auto_reload
                &&& options.runtime_opt == RuntimeOption::SingleThread
            },
            Err(code) => text_arg(config_path, ERR_CONFIG_PATH, ERR_CONFIG_PATH) == Err::<
                Seq<char>,
                _,
            >(code),
        },
{
    match parse_string_arg(config_path, ERR_CONFIG_PATH, ERR_CONFIG_PATH) {
        Ok(config_path) => Ok(
            StartOptions {
                rt_id,
                config: Config::File(config_path),
                auto_reload: false,
                runtime_opt: RuntimeOption::SingleThread,
            },
        ),
        Err(code) => Err(code),
    }
}

/// Says how to start a runtime with a single thread from the text of a configuration. A text
/// that cannot be read is reported as a path that cannot be read.
pub fn leaf_run_with_config_string(rt_id: RuntimeId, config: Option<&[u8]>) -> (result: Result<
    StartOptions,
    i32,
>)
    ensures
        match result {
            Ok(options) => {
                &&& options.config matches Config::Str(text) && text_arg(
                    config,
                    ERR_CONFIG_PATH,
                    ERR_CONFIG_PATH,
                ) == Ok::<_, i32>(text@)
                &&& options.rt_id == rt_id
                &&& !options.auto_reload
                &&& options.runtime_opt == RuntimeOption::SingleThread
            },
            Err(code) => text_arg(config, ERR_CONFIG_PATH, ERR_CONFIG_PATH) == Err::<
                Seq<char>,
                _,
            >(code),
        },
{
    match parse_string_arg(config, ERR_CONFIG_PATH, ERR_CONFIG_PATH) {
        Ok(config) => Ok(
            StartOptions {
                rt_id,
                config: Config::Str(config),
                auto_reload: false,
                runtime_opt: RuntimeOption::SingleThread,
            },
        ),
        Err(code) => Err(code),
    }
}

/// Says which configuration file is to be tested.
pub fn leaf_test_config(config_path: Option<&[u8]>) -> (result: Result<String, i32>)
    ensures
        match result {
            Ok(path) => text_arg(config_path, ERR_CONFIG_PATH, ERR_CONFIG_PATH) == Ok::<_, i32>(
                path@,
            ),
            Err(code) => text_arg(config_path, ERR_CONFIG_PATH, ERR_CONFIG_PATH) == Err::<
                Seq<char>,
                _,
            >(code),
        },
{
    parse_string_arg(config_path, ERR_CONFIG_PATH, ERR_CONFIG_PATH)
}

// ---- Testing the outbounds of a configuration ----

/// A test of all outbounds of a configuration.
#[derive(Debug)]
pub struct OutboundsTest {
    pub config: String,
    pub concurrency: usize,
    /// The seconds that each test may take, if it is limited.
    pub timeout_sec: Option<u64>,
}

/// What the host is told of one outbound.
#[derive(Debug)]
pub struct OutboundReport {
    pub tag: String,
    /// The latency over TCP in milliseconds, or -1 if the test failed.
    pub tcp_latency: i32,
    /// The latency over UDP in milliseconds, or -1 if the test failed.
    pub udp_latency: i32,
}

/// How a test of all outbounds ended.
#[derive(Clone, Copy, Debug, PartialEq, Eq, Structural)]
pub enum OutboundsTestOutcome {
    /// The configuration is not valid.
    ConfigRejected,
    /// There was nothing to run the tests on.
    NoExecutor(ErrorKind),
    /// The tests could not be started.
    NotStarted,
    /// Every outbound has been reported.
    Completed,
}

/// Says which outbounds are to be tested and how.
pub fn leaf_test_outbounds(config: Option<&[u8]>, concurrency: u32, timeout_sec: u32) -> (result:
    Result<OutboundsTest, i32>)
    ensures
        match result {
            Ok(test) => {
                &&& text_arg(config, ERR_CONFIG_PATH, ERR_CONFIG_PATH) == Ok::<_, i32>(
                    test.config@,
                )
                &&& test.concurrency == concurrency
                &&& test.timeout_sec == if timeout_sec > 0 {
                    Some(timeout_sec as u64)
                } else {
                    None
                }
            },
            Err(code) => text_arg(config, ERR_CONFIG_PATH, ERR_CONFIG_PATH) == Err::<
                Seq<char>,
                _,
            >(code),
        },
{
    match parse_string_arg(config, ERR_CONFIG_PATH, ERR_CONFIG_PATH) {
        Ok(config) => Ok(
            OutboundsTest {
                config,
                concurrency: concurrency as usize,
                timeout_sec: if timeout_sec > 0 {
                    Some(timeout_sec as u64)
                } else {
                    None
                },
            },
        ),
        Err(code) => Err(code),
    }
}

/// A latency as the host is told it: the low 32 bits of the milliseconds, read as a signed
/// number, or -1 for a test that failed.
pub open spec fn latency_code(latency_ms: Option<u128>) -> int {
    match latency_ms {
        Some(ms) => {
            let low: u128 = ms % 0x1_0000_0000;
            if low < 0x8000_0000 {
                low as int
            } else {
                low - 0x1_0000_0000
            }
        },
        None => -1,
    }
}

/// Returns a latency as the host is told it.
fn latency_to_code(latency_ms: Option<u128>) -> (code: i32)
    ensures
        code == latency_code(latency_ms),
{
    match latency_ms {
        Some(ms) => {
            let low: i64 = (ms % 0x1_0000_0000) as i64;
            if low < 0x8000_0000 {
                low as i32
            } else {
                (low - 0x1_0000_0000) as i32
            }
        },
        None => -1,
    }
}

/// Reports one outbound to the host. The latencies are in milliseconds, `None` for a test that
/// failed.
pub fn outbound_report(
    tag: &str,
    tcp_latency_ms: Option<u128>,
    udp_latency_ms: Option<u128>,
) -> (report: Option<OutboundReport>)
    ensures
        report matches Some(report) && {
            &&& report.tag@ == without_nul(tag@)
            &&& report.tcp_latency == latency_code(tcp_latency_ms)
            &&& report.udp_latency == latency_code(udp_latency_ms)
        },
{
    match callback_cstring(tag) {
        Some(tag) => Some(
            OutboundReport {
                tag,
                tcp_latency: latency_to_code(tcp_latency_ms),
                udp_latency: latency_to_code(udp_latency_ms),
            },
        ),
        None => None,
    }
}

/// Returns the code for how a test of all outbounds ended. That it could not be started is no
/// error.
pub fn outbounds_test_code(outcome: OutboundsTestOutcome) -> (code: i32)
    ensures
        code == match outcome {
            OutboundsTestOutcome::ConfigRejected => errno(Error::Config),
            OutboundsTestOutcome::NoExecutor(kind) => io_errno(kind),
            OutboundsTestOutcome::NotStarted => ERR_OK,
            OutboundsTestOutcome::Completed => ERR_OK,
        },
{
    match outcome {
        OutboundsTestOutcome::ConfigRejected => to_errno(Error::Config),
        OutboundsTestOutcome::NoExecutor(kind) => io_to_errno(kind),
        OutboundsTestOutcome::NotStarted => ERR_OK,
        OutboundsTestOutcome::Completed => ERR_OK,
    }
}

// ---- Checking an outbound of a runtime ----

/// A health check of one outbound.
#[derive(Debug)]
pub struct HealthCheck {
    pub rt_id: RuntimeId,
    pub outbound_tag: String,
    /// The milliseconds that the check may take, if the host sets them.
    pub timeout_ms: Option<u64>,
}

/// How a health check ended.
#[derive(Clone, Copy, Debug, PartialEq, Eq, Structural)]
pub enum HealthCheckOutcome {
    /// The runtime is not known.
    NoRuntime,
    /// There was nothing to run the check on.
    NoExecutor(ErrorKind),
    /// The check could not be made.
    Failed(Error),
    /// The check was made, over each protocol with or without success.
    Checked { tcp_ok: bool, udp_ok: bool },
}

/// Says which outbound is to be checked and how.
pub fn leaf_health_check(
    rt_id: RuntimeId,
    outbound_tag: Option<&[u8]>,
    timeout_ms: u64,
) -> (result: Result<HealthCheck, i32>)
    ensures
        match result {
            Ok(check) => {
                &&& check.rt_id == rt_id
                &&& text_arg(outbound_tag, ERR_INVALID_ARGUMENT, ERR_INVALID_ARGUMENT) == Ok::<
                    _,
                    i32,
                >(check.outbound_tag@)
                &&& check.timeout_ms == if timeout_ms == 0 {
                    None
                } else {
                    Some(timeout_ms)
                }
            },
            Err(code) => text_arg(outbound_tag, ERR_INVALID_ARGUMENT, ERR_INVALID_ARGUMENT)
                == Err::<Seq<char>, _>(code),
        },
{
    match parse_string_arg(outbound_tag, ERR_INVALID_ARGUMENT, ERR_INVALID_ARGUMENT) {
        Ok(outbound_tag) => Ok(
            HealthCheck {
                rt_id,
                outbound_tag,
                timeout_ms: if timeout_ms == 0 {
                    None
                } else {
                    Some(timeout_ms)
                },
            },
        ),
        Err(code) => Err(code),
    }
}

/// Returns the code for how a health check ended: one protocol that works is enough.
pub fn health_check_code(outcome: HealthCheckOutcome) -> (code: i32)
    ensures
        code == match outcome {
            HealthCheckOutcome::NoRuntime => errno(Error::RuntimeManager),
            HealthCheckOutcome::NoExecutor(kind) => io_errno(kind),
            HealthCheckOutcome::Failed(e) => errno(e),
            HealthCheckOutcome::Checked { tcp_ok, udp_ok } => if tcp_ok || udp_ok {
                ERR_OK
            } else {
                ERR_IO
            },
        },
{
    match outcome {
        HealthCheckOutcome::NoRuntime => to_errno(Error::RuntimeManager),
        HealthCheckOutcome::NoExecutor(kind) => io_to_errno(kind),
        HealthCheckOutcome::Failed(e) => to_errno(e),
        HealthCheckOutcome::Checked { tcp_ok, udp_ok } => {
            if tcp_ok || udp_ok {
                ERR_OK
            } else {
                ERR_IO
            }
        },
    }
}

/// A question for the activity of one outbound.
#[derive(Debug)]
pub struct ActivityQuery {
    pub rt_id: RuntimeId,
    pub outbound_tag: String,
}

/// What a runtime answered when it was asked when an outbound was last active.
#[derive(Clone, Copy, Debug, PartialEq, Eq, Structural)]
pub enum ActivityOutcome {
    /// The runtime is not known.
    NoRuntime,
    /// There was nothing to ask it on.
    NoExecutor(ErrorKind),
    /// The runtime could not tell.
    Failed(Error),
    /// No session of the outbound is open.
    NoSession,
    /// Data came in last at this time, in seconds since the epoch.
    LastActive(u32),
}

/// The code for an answer about the activity of an outbound.
pub open spec fn activity_errno(outcome: ActivityOutcome) -> i32 {
    match outcome {
        ActivityOutcome::NoRuntime => errno(Error::RuntimeManager),
        ActivityOutcome::NoExecutor(kind) => io_errno(kind),
        ActivityOutcome::Failed(e) => errno(e),
        ActivityOutcome::NoSession => ERR_NO_DATA,
        ActivityOutcome::LastActive(_) => ERR_OK,
    }
}

/// The outbound whose activity the host asks for, if it passed a place for the answer.
pub open spec fn activity_arg(outbound_tag: Option<&[u8]>, has_place: bool) -> Result<
    Seq<char>,
    i32,
> {
    if has_place {
        text_arg(outbound_tag, ERR_INVALID_ARGUMENT, ERR_INVALID_ARGUMENT)
    } else {
        Err(ERR_INVALID_ARGUMENT)
    }
}

/// Says which outbound the host asks for the time of last activity of. `has_timestamp` is
/// false where the host passed no place for it.
pub fn leaf_get_last_active(
    rt_id: RuntimeId,
    outbound_tag: Option<&[u8]>,
    has_timestamp: bool,
) -> (result: Result<ActivityQuery, i32>)
    ensures
        match result {
            Ok(query) => {
                &&& query.rt_id == rt_id
                &&& activity_arg(outbound_tag, has_timestamp) == Ok::<_, i32>(query.outbound_tag@)
            },
            Err(code) => activity_arg(outbound_tag, has_timestamp) == Err::<Seq<char>, _>(code),
        },
{
    if !has_timestamp {
        return Err(ERR_INVALID_ARGUMENT);
    }
    match parse_string_arg(outbound_tag, ERR_INVALID_ARGUMENT, ERR_INVALID_ARGUMENT) {
        Ok(outbound_tag) => Ok(ActivityQuery { rt_id, outbound_tag }),
        Err(code) => Err(code),
    }
}

/// Stores the time of last activity, where there is one, and returns the code.
pub fn last_active_reply(outcome: ActivityOutcome, timestamp_s: &mut u32) -> (code: i32)
    ensures
        code == activity_errno(outcome),
        *final(timestamp_s) == match outcome {
            ActivityOutcome::LastActive(ts) => ts,
            _ => *old(timestamp_s),
        },
{
    match outcome {
        ActivityOutcome::NoRuntime => to_errno(Error::RuntimeManager),
        ActivityOutcome::NoExecutor(kind) => io_to_errno(kind),
        ActivityOutcome::Failed(e) => to_errno(e),
        ActivityOutcome::NoSession => ERR_NO_DATA,
        ActivityOutcome::LastActive(ts) => {
            *timestamp_s = ts;
            ERR_OK
        },
    }
}

/// Says which outbound the host asks for the time since last activity of. `has_since` is false
/// where the host passed no place for it.
pub fn leaf_get_since_last_active(
    rt_id: RuntimeId,
    outbound_tag: Option<&[u8]>,
    has_since: bool,
) -> (result: Result<ActivityQuery, i32>)
    ensures
        match result {
            Ok(query) => {
                &&& query.rt_id == rt_id
                &&& activity_arg(outbound_tag, has_since) == Ok::<_, i32>(query.outbound_tag@)
            },
            Err(code) => activity_arg(outbound_tag, has_since) == Err::<Seq<char>, _>(code),
        },
{
    if !has_since {
        return Err(ERR_INVALID_ARGUMENT);
    }
    match parse_string_arg(outbound_tag, ERR_INVALID_ARGUMENT, ERR_INVALID_ARGUMENT) {
        Ok(outbound_tag) => Ok(ActivityQuery { rt_id, outbound_tag }),
        Err(code) => Err(code),
    }
}

/// The seconds from `ts` to `now`: none where `now` is earlier. A clock that is set before the
/// epoch counts as at the epoch; of a later time the low 32 bits count.
pub open spec fn seconds_since(now: Option<u64>, ts: u32) -> int {
    let now_s: int = match now {
        Some(secs) => (secs % 0x1_0000_0000) as int,
        None => 0,
    };
    if now_s >= ts {
        now_s - ts
    } else {
        0
    }
}

/// Stores the seconds since last activity, where there was any, and returns the code. `now` is
/// the clock in seconds since the epoch, `None` where it is set before that.
pub fn since_last_active_reply(
    outcome: ActivityOutcome,
    now: Option<u64>,
    since_s: &mut u32,
) -> (code: i32)
    ensures
        code == activity_errno(outcome),
        match outcome {
            ActivityOutcome::LastActive(ts) => *final(since_s) == seconds_since(now, ts),
            _ => *final(since_s) == *old(since_s),
        },
{
    match outcome {
        ActivityOutcome::NoRuntime => to_errno(Error::RuntimeManager),
        ActivityOutcome::NoExecutor(kind) => io_to_errno(kind),
        ActivityOutcome::Failed(e) => to_errno(e),
        ActivityOutcome::NoSession => ERR_NO_DATA,
        ActivityOutcome::LastActive(ts) => {
            let now_s: u32 = match now {
                Some(secs) => (secs % 0x1_0000_0000) as u32,
                None => 0,
            };
            *since_s = now_s.saturating_sub(ts);
            ERR_OK
        },
    }
}

// ---- Panics ----

/// How a call of the host ended that may have panicked.
pub struct BoundaryReply {
    pub code: i32,
    /// The message of the panic, if there was one.
    pub panic: Option<String>,
}

/// Turns a panic into an error code, so that none gets to the host.
pub fn ffi_boundary(outcome: Result<i32, PanicPayload>) -> (reply: BoundaryReply)
    ensures
        match outcome {
            Ok(code) => reply.code == code && reply.panic is None,
            Err(payload) => {
                &&& reply.code == ERR_IO
                &&& reply.panic matches Some(message) && message@ == payload.spec_message()
            },
        },
{
    match outcome {
        Ok(code) => BoundaryReply { code, panic: None },
        Err(payload) => BoundaryReply { code: ERR_IO, panic: Some(panic_message(payload)) },
    }
}

} // verus!
