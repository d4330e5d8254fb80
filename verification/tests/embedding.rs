//! Tests of the runtime lifecycle: building, starting, and stepping an
//! execution through the engine protocol with the engine's events played
//! by hand.

use php_embed::callbacks::Unregistered;
use php_embed::cell::{ContextCell, EngineStatus};
use php_embed::headers::{dispatch_send_headers, flush_sends_headers, HeaderSendStatus};
use php_embed::io_context::IOContext;
use php_embed::runtime::{
    initial_response_status, placeholder_request_info, thread_resources_started, ExecPhase,
    ExecutionError, InitializationError, Runtime,
};

#[test]
fn test_execution() {
    let runtime =
        IOContext::add_to_builder(Runtime::new("php-test", "PHP Test Runtime", 1))
            .start(true)
            .unwrap();

    let ctx = IOContext {
        body: "hello".to_string().into_bytes(),
        buffer: Vec::with_capacity(1028),
    };

    // The engine's side of one run of a script that emits
    // "php got: " followed by the request body.
    let mut exec = runtime.begin_execution();
    exec.thread_registered();
    exec.script_opened(true);
    let cell = ContextCell::new(runtime.callbacks, ctx);
    exec.request_begun();
    let (cell, status) = cell.dispatch_startup();
    assert_eq!(status, EngineStatus::Success);
    let (cell, input) = cell.dispatch_read(1024);
    let mut emitted = b"php got: ".to_vec();
    emitted.extend_from_slice(&input);
    let (cell, written) = cell.dispatch_write(&emitted);
    assert_eq!(written, emitted.len());
    exec.script_ran();
    let ctx = cell.into_context();
    exec.request_ended();
    let ctx = exec.outcome(Some(ctx)).unwrap();

    assert_eq!(
        String::from_utf8(ctx.buffer.clone()).unwrap(),
        "php got: hello".to_string()
    );
}

#[test]
fn test_script_open_error_leaves_runtime_reusable() {
    let runtime = IOContext::add_to_builder(Runtime::new("php-test", "PHP Test Runtime", 1))
        .start(true)
        .unwrap();

    // The script file does not open: the execution fails before any
    // request state is touched.
    let mut exec = runtime.begin_execution();
    exec.thread_registered();
    exec.script_opened(false);
    assert_eq!(exec.next_op(), php_embed::runtime::EngineOp::Deliver);
    let outcome = exec.outcome::<IOContext>(None);
    assert_eq!(outcome.unwrap_err(), ExecutionError::ScriptOpenError);

    // The runtime is still usable: a full second execution succeeds.
    let mut exec = runtime.begin_execution();
    exec.thread_registered();
    exec.script_opened(true);
    let ctx = IOContext { body: Vec::new(), buffer: Vec::new() };
    let cell = ContextCell::new(runtime.callbacks, ctx);
    exec.request_begun();
    let (cell, _) = cell.dispatch_write(b"ok");
    exec.script_ran();
    let ctx = cell.into_context();
    exec.request_ended();
    let ctx = exec.outcome(Some(ctx)).unwrap();
    assert_eq!(ctx.buffer, b"ok".to_vec());
}

#[test]
fn test_thread_resource_failure_is_fatal() {
    assert_eq!(thread_resources_started(true), Ok(()));
    assert_eq!(
        thread_resources_started(false),
        Err(InitializationError::ThreadResources)
    );
}

#[test]
fn test_module_startup_failure_is_fatal() {
    let builder = Runtime::<IOContext, _, _, _, _>::new("php-test", "PHP Test Runtime", 1);
    let r = builder.start(false);
    assert!(matches!(r, Err(InitializationError::ModuleStartup)));
}

#[test]
fn test_thread_count_coerced_to_at_least_one() {
    let b = Runtime::<u32, _, _, _, _>::new("php-test", "PHP Test Runtime", 0);
    assert_eq!(b.module.threads, 1);
    let b = Runtime::<u32, _, _, _, _>::new("php-test", "PHP Test Runtime", 7);
    assert_eq!(b.module.threads, 7);
}

#[test]
fn test_module_descriptor_names() {
    let b = Runtime::<u32, _, _, _, _>::new("php-test", "PHP Test Runtime", 1);
    assert_eq!(b.module.name, "php-test".to_string());
    assert_eq!(b.module.pretty_name, "PHP Test Runtime".to_string());
}

#[test]
fn test_placeholder_request_info_values() {
    let info = placeholder_request_info();
    assert_eq!(info.request_method, "POST".to_string());
    assert_eq!(info.content_length, 0);
    assert_eq!(info.path_translated, "/some/file".to_string());
    assert_eq!(info.content_type, "text/html".to_string());
    assert_eq!(initial_response_status(), 200);
}

#[test]
fn test_execution_phases_follow_protocol() {
    let rt = Runtime::<u32, _, _, _, _>::new("n", "N", 1).start(true).unwrap();
    let mut exec = rt.begin_execution();
    assert_eq!(exec.phase, ExecPhase::RegisteringThread);
    exec.thread_registered();
    assert_eq!(exec.phase, ExecPhase::OpeningScript);
    exec.script_opened(true);
    assert_eq!(exec.phase, ExecPhase::BeginningRequest);
    exec.request_begun();
    assert_eq!(exec.phase, ExecPhase::RunningScript);
    exec.script_ran();
    assert_eq!(exec.phase, ExecPhase::EndingRequest);
    exec.request_ended();
    assert_eq!(exec.phase, ExecPhase::Succeeded);
    assert_eq!(exec.outcome(Some(9u32)).unwrap(), 9);
}

#[test]
fn test_startup_callback_status_mapping() {
    // A startup callback that succeeds and counts its runs.
    let rt = Runtime::<u32, _, _, _, _>::new("n", "N", 1)
        .startup(|ctx: u32| (ctx + 1, Ok(())))
        .start(true)
        .unwrap();
    let cell = ContextCell::new(rt.callbacks, 0u32);
    let (cell, status) = cell.dispatch_startup();
    assert_eq!(status, EngineStatus::Success);
    assert_eq!(cell.into_context(), 1);

    // A startup callback that fails maps to the failure status.
    let rt = Runtime::<u32, _, _, _, _>::new("n", "N", 1)
        .startup(|ctx: u32| (ctx, Err(())))
        .start(true)
        .unwrap();
    let cell = ContextCell::new(rt.callbacks, 0u32);
    let (cell, status) = cell.dispatch_startup();
    assert_eq!(status, EngineStatus::Failure);
    assert_eq!(cell.into_context(), 0);
}

#[test]
fn test_shutdown_callback_status_mapping() {
    let rt = Runtime::<u32, _, _, _, _>::new("n", "N", 1)
        .shutdown(|ctx: u32| (ctx + 10, Ok(())))
        .start(true)
        .unwrap();
    let cell = ContextCell::new(rt.callbacks, 5u32);
    let (cell, status) = cell.dispatch_shutdown();
    assert_eq!(status, EngineStatus::Success);
    assert_eq!(cell.into_context(), 15);

    let rt = Runtime::<u32, _, _, _, _>::new("n", "N", 1)
        .shutdown(|ctx: u32| (ctx, Err(())))
        .start(true)
        .unwrap();
    let cell = ContextCell::new(rt.callbacks, 5u32);
    let (_, status) = cell.dispatch_shutdown();
    assert_eq!(status, EngineStatus::Failure);
}

#[test]
fn test_registration_last_wins() {
    let rt = Runtime::<u32, _, _, _, _>::new("n", "N", 1)
        .write(|ctx: u32, _data: &[u8]| (ctx + 1, Ok(1usize)))
        .write(|ctx: u32, data: &[u8]| (ctx + 100, Ok(data.len())))
        .start(true)
        .unwrap();
    let cell = ContextCell::new(rt.callbacks, 0u32);
    let (cell, n) = cell.dispatch_write(b"abc");
    assert_eq!(n, 3);
    assert_eq!(cell.into_context(), 100);
}

#[test]
fn test_send_headers_marks_sent_and_flush_defers() {
    let (sent, status) = dispatch_send_headers();
    assert!(sent);
    assert_eq!(status, HeaderSendStatus::SentSuccessfully);
    // Flush delegates to the engine's header send only while the headers
    // have not gone out.
    assert!(flush_sends_headers(false));
    assert!(!flush_sends_headers(sent));
}

#[test]
fn test_unregistered_slots_report_neutral_values() {
    let rt = Runtime::<u32, Unregistered, Unregistered, Unregistered, Unregistered>::new(
        "n", "N", 1,
    )
    .start(true)
    .unwrap();
    let cell = ContextCell::new(rt.callbacks, 42u32);
    let (cell, status) = cell.dispatch_startup();
    assert_eq!(status, EngineStatus::Success);
    let (cell, status) = cell.dispatch_shutdown();
    assert_eq!(status, EngineStatus::Success);
    let (cell, n) = cell.dispatch_write(b"dropped");
    assert_eq!(n, 0);
    let (cell, delivered) = cell.dispatch_read(16);
    assert!(delivered.is_empty());
    assert_eq!(cell.into_context(), 42);
}
