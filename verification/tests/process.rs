use frida_rs::arch::Architecture;
use frida_rs::cpu::CpuContext;
use frida_rs::error::MissingField;
use frida_rs::handle::ForeignHandle;
use frida_rs::interceptor::InvocationContext;
use frida_rs::nativepointer::NativePointer;
use frida_rs::process::{
    enumerate_malloc_ranges, enumerate_modules, enumerate_ranges, enumerate_threads, get_arch,
    get_code_signing_policy, get_module_by_address, get_module_by_name, get_page_size, get_pid,
    get_platform, get_pointer_size, get_range_by_address,
};
use frida_rs::sys;
use frida_rs::thread::{
    backtrace, backtrace_request, Backtracer, ThreadDetails, ThreadError, ThreadState,
};

fn handle(token: u64) -> ForeignHandle {
    ForeignHandle::from_token(token)
}

fn pointer(token: u64) -> NativePointer {
    NativePointer(ForeignHandle::from_token(token))
}

fn raw_context(token: u64, names: &[&str], first: u64) -> sys::CpuContext {
    sys::CpuContext {
        handle: handle(token),
        properties: names
            .iter()
            .enumerate()
            .map(|(i, name)| sys::Property { name: name.to_string(), value: handle(first + i as u64) })
            .collect(),
    }
}

fn raw_thread(id: u32, state: &str, names: &[&str]) -> sys::ThreadDetails {
    sys::ThreadDetails {
        id,
        state: state.to_string(),
        context: raw_context(100 + id as u64, names, 1000 + 100 * id as u64),
    }
}

fn process() -> sys::Process {
    sys::Process {
        id: 4242,
        arch: "x64".to_string(),
        platform: "linux".to_string(),
        page_size: 4096,
        pointer_size: 8,
        code_signing_policy: "optional".to_string(),
    }
}

#[test]
fn process_values_are_reported_as_given() {
    let p = process();
    assert_eq!(get_pid(&p), 4242);
    assert_eq!(get_arch(&p), "x64");
    assert_eq!(get_platform(&p), "linux");
    assert_eq!(get_page_size(&p), 4096);
    assert_eq!(get_pointer_size(&p), 8);
    assert_eq!(get_code_signing_policy(&p), "optional");
}

#[test]
fn reported_architecture_drives_the_decoding() {
    let p = process();
    let names = Architecture::X64.field_names();
    let decoded = CpuContext::from_sys(raw_context(1, &names, 10), get_arch(&p)).unwrap();
    assert_eq!(decoded.architecture(), Architecture::X64);
}

#[test]
fn thread_states_are_read_from_their_words() {
    assert_eq!(ThreadState::from_str("running"), Ok(ThreadState::Running));
    assert_eq!(ThreadState::from_str("stopped"), Ok(ThreadState::Stopped));
    assert_eq!(ThreadState::from_str("waiting"), Ok(ThreadState::Waiting));
    assert_eq!(ThreadState::from_str("uninterruptible"), Ok(ThreadState::Uninterruptible));
    assert_eq!(ThreadState::from_str("halted"), Ok(ThreadState::Halted));
    assert_eq!(
        ThreadState::from_str("Running"),
        Err("'Running' is not a valid value for ThreadState".to_string())
    );
    assert_eq!(
        ThreadState::from_str(""),
        Err("'' is not a valid value for ThreadState".to_string())
    );
}

#[test]
fn thread_states_are_displayed_by_name() {
    assert_eq!(ThreadState::Running.to_string(), "Running");
    assert_eq!(ThreadState::Stopped.to_string(), "Stopped");
    assert_eq!(ThreadState::Waiting.to_string(), "Waiting");
    assert_eq!(ThreadState::Uninterruptible.to_string(), "Uninterruptible");
    assert_eq!(ThreadState::Halted.to_string(), "Halted");
}

#[test]
fn thread_is_decoded() {
    let names = Architecture::Arm.field_names();
    let raw = raw_thread(7, "waiting", &names);
    let context = raw.context.clone();
    let thread = ThreadDetails::from(raw, "arm").unwrap();
    assert_eq!(thread.id, 7);
    assert_eq!(thread.state, ThreadState::Waiting);
    assert_eq!(thread.context.architecture(), Architecture::Arm);
    assert_eq!(thread.context.pc(), pointer(1700));
    assert_eq!(thread.context.into_sys(), context);
}

#[test]
fn thread_with_a_bad_state_is_refused_first() {
    let raw = raw_thread(7, "sleeping", &[]);
    assert_eq!(
        ThreadDetails::from(raw, "arm"),
        Err(ThreadError::InvalidState("'sleeping' is not a valid value for ThreadState".to_string()))
    );
}

#[test]
fn thread_with_a_short_context_is_refused() {
    let raw = raw_thread(7, "halted", &["pc", "sp", "r0"]);
    assert_eq!(
        ThreadDetails::from(raw, "arm"),
        Err(ThreadError::MissingField(MissingField {
            field: "r1".to_string(),
            architecture: Architecture::Arm,
        }))
    );
}

#[test]
fn threads_are_decoded_in_order() {
    let names = Architecture::Mips.field_names();
    let reply = vec![raw_thread(1, "running", &names), raw_thread(2, "stopped", &names)];
    let threads = enumerate_threads(reply, "mips").unwrap();
    assert_eq!(threads.len(), 2);
    assert_eq!(threads[0].id, 1);
    assert_eq!(threads[0].state, ThreadState::Running);
    assert_eq!(threads[0].context.sp(), pointer(1101));
    assert_eq!(threads[1].id, 2);
    assert_eq!(threads[1].state, ThreadState::Stopped);
    assert_eq!(threads[1].context.architecture(), Architecture::Mips);
    assert_eq!(enumerate_threads(Vec::new(), "mips"), Ok(Vec::new()));
}

#[test]
fn first_thread_that_fails_gives_the_error() {
    let names = Architecture::Portable.field_names();
    let reply = vec![
        raw_thread(1, "running", &names),
        raw_thread(2, "running", &["pc"]),
        raw_thread(3, "dancing", &names),
    ];
    assert_eq!(
        enumerate_threads(reply, "other"),
        Err(ThreadError::MissingField(MissingField {
            field: "sp".to_string(),
            architecture: Architecture::Portable,
        }))
    );
}

#[test]
fn modules_are_decoded_in_order() {
    let raw = |token: u64, name: &str| sys::Module {
        handle: handle(token),
        name: name.to_string(),
        base: handle(token + 1),
        size: 100,
        path: name.to_string(),
    };
    let modules = enumerate_modules(vec![raw(10, "a"), raw(20, "b"), raw(30, "c")]);
    assert_eq!(modules.len(), 3);
    assert_eq!(modules[0].name, "a");
    assert_eq!(modules[1].base, pointer(21));
    assert_eq!(modules[2].to_sys(), handle(30));

    assert_eq!(get_module_by_name(raw(10, "a")).unwrap().name, "a");
    assert_eq!(get_module_by_address(raw(20, "b")).unwrap().base, pointer(21));
    let mut none = raw(0, "");
    none.handle = ForeignHandle::null();
    assert_eq!(get_module_by_name(none.clone()), None);
    assert_eq!(get_module_by_address(none), None);
}

#[test]
fn ranges_are_decoded_in_order() {
    let raw = |token: u64, size: usize| sys::RangeDetails {
        handle: handle(token),
        base: handle(token + 1),
        size,
        protection: "rw-".to_string(),
        file: None,
    };
    let ranges = enumerate_ranges(vec![raw(10, 1), raw(20, 2)]);
    assert_eq!(ranges.len(), 2);
    assert_eq!(ranges[0].base, pointer(11));
    assert_eq!(ranges[1].size, 2);
    let ranges = enumerate_malloc_ranges(vec![raw(30, 3)]);
    assert_eq!(ranges[0].base, pointer(31));
    assert_eq!(ranges[0].protection, "rw-");

    assert_eq!(get_range_by_address(raw(40, 4)).unwrap().base, pointer(41));
    let mut none = raw(0, 0);
    none.handle = ForeignHandle::null();
    assert_eq!(get_range_by_address(none), None);
}

#[test]
fn backtrace_hands_the_raw_context_back() {
    let names = Architecture::X64.field_names();
    let raw = raw_context(55, &names, 300);
    let decoded = CpuContext::from_sys(raw.clone(), "x64").unwrap();
    let request = backtrace_request(Some(decoded), Backtracer::FUZZY);
    assert_eq!(request.context, Some(raw));
    assert_eq!(request.backtracer, Backtracer::FUZZY);
    let request = backtrace_request(None, Backtracer::ACCURATE);
    assert_eq!(request.context, None);
    assert_eq!(request.backtracer, Backtracer::ACCURATE);
    assert_eq!(backtrace(vec![handle(9), handle(8)]), vec![pointer(9), pointer(8)]);
}

#[test]
fn invocation_context_is_decoded() {
    let names = Architecture::Arm64.field_names();
    let raw = sys::InvocationContext {
        handle: handle(600),
        return_address: handle(601),
        context: raw_context(602, &names, 700),
        thread_id: 12,
        depth: 3,
    };
    let context = raw.context.clone();
    let decoded = InvocationContext::from(raw, "arm64").unwrap();
    assert_eq!(decoded.return_address, pointer(601));
    assert_eq!(decoded.thread_id, 12);
    assert_eq!(decoded.depth, 3);
    assert_eq!(decoded.to_sys(), handle(600));
    assert_eq!(decoded.context.architecture(), Architecture::Arm64);
    assert_eq!(decoded.context.pc(), pointer(700));
    assert_eq!(decoded.context.into_sys(), context);
}

#[test]
fn invocation_context_with_a_short_cpu_context_is_refused() {
    let raw = sys::InvocationContext {
        handle: handle(600),
        return_address: handle(601),
        context: raw_context(602, &["pc", "sp"], 700),
        thread_id: 12,
        depth: 3,
    };
    assert_eq!(
        InvocationContext::from(raw, "arm64"),
        Err(MissingField { field: "x0".to_string(), architecture: Architecture::Arm64 })
    );
}
