use rustdbg::engine::{help_commands, HitOutcome, Session, SessionState, StopEvent, WaitOutcome};
use rustdbg::regs::RegisterSnapshot;
use rustdbg::table::BreakpointTable;

// A process id that cannot exist: far above the kernel's default pid ceiling,
// so every trace request fails and every wait reports no such child.
const DEAD_PID: i32 = 0x7fff_fffe;

#[test]
fn table_records_and_removes() {
    let mut t = BreakpointTable::new();
    assert_eq!(t.lookup(0x401000), None);
    assert!(!t.contains(0x401000));
    t.record(0x401000, 0x55);
    assert_eq!(t.lookup(0x401000), Some(0x55));
    assert!(t.contains(0x401000));
    // A later record for the same address supersedes the earlier one.
    t.record(0x401000, 0x66);
    assert_eq!(t.lookup(0x401000), Some(0x66));
    t.record(0x402000, 0x77);
    t.remove(0x401000);
    assert_eq!(t.lookup(0x401000), None);
    assert_eq!(t.lookup(0x402000), Some(0x77));
}

#[test]
fn unknown_trap_when_nothing_installed() {
    // Resolving a trap address with no entry never touches the tracee and
    // reports an unknown trap; doing it twice reports the same.
    let mut s = Session::new(DEAD_PID);
    assert_eq!(s.handle_breakpoint(0x401000), HitOutcome::UnknownTrap(0x401000));
    assert_eq!(s.handle_breakpoint(0x401000), HitOutcome::UnknownTrap(0x401000));
}

#[test]
fn failed_install_leaves_table_unchanged() {
    let mut s = Session::new(DEAD_PID);
    let r = s.set_breakpoint(0x401000);
    assert!(r.is_err());
    assert!(!s.table.contains(0x401000));
    let out = s.execute_command("b 0x401000");
    assert!(!out.end_session);
    assert_eq!(out.output.len(), 1);
    assert!(out.output[0].starts_with("Failed to set breakpoint: errno "));
    assert!(!s.table.contains(0x401000));
}

#[test]
fn malformed_arguments_never_touch_the_table() {
    let mut s = Session::new(DEAD_PID);
    for (line, message) in [
        ("b", "Usage: b <address>"),
        ("b 0x1 0x2", "Usage: b <address>"),
        ("b 401000", "Your address should start with 0x !"),
        ("b 0xzz", "Invalid address format"),
        ("b 0x", "Invalid address format"),
        ("m", "Usage: m <address>"),
        ("m 12", "Your address should start with 0x !"),
        ("m 0xqq", "Invalid address format"),
    ] {
        let r = s.execute_command(line);
        assert_eq!(r.output, vec![message.to_string()], "line {:?}", line);
        assert!(!r.end_session);
        assert!(!s.table.contains(0x401000));
        assert!(!s.table.contains(0x1));
    }
}

#[test]
fn memory_read_failure_is_reported() {
    let mut s = Session::new(DEAD_PID);
    let r = s.execute_command("m 0x12345678");
    assert_eq!(
        r.output,
        vec!["Not able to read the content of this address".to_string()]
    );
    assert!(!r.end_session);
}

#[test]
fn registers_failure_is_reported() {
    let mut s = Session::new(DEAD_PID);
    let r = s.execute_command("r");
    assert_eq!(r.output.len(), 2);
    assert_eq!(r.output[0], "Showing register states...");
    assert!(r.output[1].starts_with("Failed to get registers: errno "));
    assert!(!r.end_session);
}

#[test]
fn single_step_failure_is_reported() {
    let mut s = Session::new(DEAD_PID);
    let r = s.execute_command("n");
    assert_eq!(r.output.len(), 2);
    assert_eq!(r.output[0], "Taking a single step...");
    assert!(r.output[1].starts_with("Failed to continue execution: errno "));
    assert!(!r.end_session);
}

#[test]
fn continue_reports_failed_resume() {
    let mut s = Session::new(DEAD_PID);
    let r = s.execute_command("c");
    assert_eq!(r.output[0], "Continuing execution...");
    assert_eq!(r.output.len(), 2);
    assert!(r.output[1].starts_with("Failed to continue execution: errno "));
    assert!(!r.end_session);
}

#[test]
fn wait_on_vanished_child_reports_gone() {
    let mut s = Session::new(DEAD_PID);
    assert_eq!(s.prettier(), WaitOutcome::Gone);
    assert_eq!(s.state, SessionState::Unreachable);
}

#[test]
fn continue_after_tracee_gone_ends_cleanly() {
    // Once the tracee is known to be gone, a further continue does not
    // crash: it prints the termination notice and ends the session, which
    // the shell turns into a clean exit.
    let mut s = Session::new(DEAD_PID);
    assert_eq!(s.prettier(), WaitOutcome::Gone);
    let r = s.execute_command("c");
    assert_eq!(
        r.output,
        vec!["rustdbg> Child process has terminated.".to_string()]
    );
    assert!(r.end_session);
}

#[test]
fn syscall_step_on_vanished_child_ends_cleanly() {
    let mut s = Session::new(DEAD_PID);
    let r = s.execute_command("s");
    assert_eq!(
        r.output,
        vec!["rustdbg> Child process has terminated.".to_string()]
    );
    assert!(r.end_session);
    assert_eq!(s.state, SessionState::Unreachable);
}

#[test]
fn quit_ends_the_session() {
    let mut s = Session::new(DEAD_PID);
    let r = s.execute_command("q");
    assert_eq!(r.output, vec!["Exiting the debugger !".to_string()]);
    assert!(r.end_session);
}

#[test]
fn test_help_command() {
    let mut s = Session::new(DEAD_PID);
    let r = s.execute_command("h");
    let output = r.output.join("\n");
    assert!(
        output.contains("Available commands:"),
        "Debugger failed to display help information"
    );
    assert_eq!(r.output, help_commands());
    assert!(!r.end_session);
}

#[test]
fn test_invalid_commands() {
    let mut s = Session::new(DEAD_PID);
    let r = s.execute_command("invalid");
    let output = r.output.join("\n");
    assert!(
        output.contains("Unknown command"),
        "Debugger failed to handle unknown commands"
    );
    assert_eq!(r.output, vec!["Unknown command: invalid".to_string()]);
}

fn snapshot_with_rip(rip: u64) -> RegisterSnapshot {
    RegisterSnapshot {
        rax: 0,
        rbx: 0,
        rcx: 0,
        rdx: 0,
        rsi: 0,
        rdi: 0,
        rsp: 0,
        rip,
        rbp: 0,
        r8: 0,
        r9: 0,
        r10: 0,
        r11: 0,
        r12: 0,
        r13: 0,
        r14: 0,
        r15: 0,
        orig_rax: 0,
    }
}

#[test]
fn classify_event_transitions() {
    let mut s = Session::new(DEAD_PID);
    assert_eq!(s.classify_event(StopEvent::Exited(3)), WaitOutcome::Exited(3));
    assert_eq!(s.state, SessionState::Exited);

    let mut s = Session::new(DEAD_PID);
    assert_eq!(
        s.classify_event(StopEvent::Terminated(9)),
        WaitOutcome::Terminated(9)
    );
    assert_eq!(s.state, SessionState::Exited);

    let mut s = Session::new(DEAD_PID);
    assert_eq!(s.classify_event(StopEvent::NoSuchChild), WaitOutcome::Gone);
    assert_eq!(s.state, SessionState::Unreachable);

    // A stop on a non-trap signal is reported as such.
    let mut s = Session::new(DEAD_PID);
    assert_eq!(
        s.classify_event(StopEvent::Stopped(17)),
        WaitOutcome::SignalStop(17)
    );
    assert_eq!(s.state, SessionState::Stopped);

    let mut s = Session::new(DEAD_PID);
    assert_eq!(
        s.classify_event(StopEvent::WaitFailed(4)),
        WaitOutcome::WaitFailed(4)
    );
    assert_eq!(s.state, SessionState::Running);

    // A trap-class stop needs the registers; on a dead pid that read fails.
    let mut s = Session::new(DEAD_PID);
    let r = s.classify_event(StopEvent::Stopped(5));
    assert!(matches!(r, WaitOutcome::RegsFailed(_)));
    assert_eq!(s.state, SessionState::Stopped);
}

#[test]
fn trap_lookup_key_is_rip_minus_one() {
    // The reported instruction pointer addresses the byte after the trap
    // instruction, so resolution looks up the address one below it.
    let mut s = Session::new(DEAD_PID);
    let r = s.resolve_trap(&snapshot_with_rip(0x401001));
    assert_eq!(r, HitOutcome::UnknownTrap(0x401000));
}
