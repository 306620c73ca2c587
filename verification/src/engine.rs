//! The trace session: process control and the breakpoint engine.
//!
//! A `Session` owns the identity of one traced child and the breakpoint
//! table.  The operating-system requests go through small trusted wrappers
//! around the `nix` crate; every decision taken on their results — event
//! classification, breakpoint bookkeeping, restoration arithmetic, output —
//! is verified code.

use crate::bits::{low_byte, patch_word, with_low_byte};
use crate::parse::{parse_command, spec_parse, ArgError, Command};
use crate::regs::{format_registers, spec_register_lines, spec_syscall_name, syscall_name, RegisterSnapshot};
use crate::render::{i32_to_dec, spec_dec, spec_dec_i32, spec_hex, spec_hex_pad, u64_to_dec, u64_to_hex, u64_to_hex_pad};
use crate::table::BreakpointTable;
use nix::errno::Errno;
use nix::sys::signal::Signal;
use nix::sys::wait::WaitStatus;
use nix::unistd::Pid;
use vstd::prelude::*;
use vstd::string::*;

verus! {

/// The signal number of the debug trap.
pub const TRAP_SIGNAL: i32 = 5;

/// The engine's view of the tracee.
///
/// `Running` covers every moment at which a stop has not been consumed by a
/// wait; `Exited` and `Unreachable` are terminal.
#[derive(Clone, Copy, PartialEq, Eq, Structural, Debug)]
pub enum SessionState {
    Running,
    Stopped,
    Exited,
    Unreachable,
}

/// The classified outcome of one wait on the tracee.
#[derive(Clone, Copy, PartialEq, Eq, Structural, Debug)]
pub enum StopEvent {
    /// The tracee stopped on delivery of the given signal.
    Stopped(i32),
    /// The tracee exited with the given code.
    Exited(i32),
    /// The tracee was killed by the given signal.
    Terminated(i32),
    /// There is no such child to wait for: it has already been reaped.
    NoSuchChild,
    /// A wait status that cannot arise from a plain blocking wait.
    Unexpected,
    /// The wait itself failed with the given error number.
    WaitFailed(i32),
}

/// How a trap-class stop resolved against the breakpoint table.
#[derive(Clone, Copy, PartialEq, Eq, Structural, Debug)]
pub enum HitOutcome {
    /// An installed breakpoint at this address was hit and removed, and the
    /// original byte was restored.
    Hit(u64),
    /// No breakpoint is installed at this address.
    UnknownTrap(u64),
    /// A breakpoint is installed here, but reading or rewriting the
    /// tracee's memory failed; the entry is kept.
    RestoreFailed(u64, i32),
}

/// What one blocking wait on the tracee came to.
#[derive(Clone, Copy, PartialEq, Eq, Structural, Debug)]
pub enum WaitOutcome {
    /// A trap-class stop, resolved against the breakpoint table.
    Trap(HitOutcome),
    /// A stop on a signal other than the trap signal.
    SignalStop(i32),
    /// The tracee exited with the given code.
    Exited(i32),
    /// The tracee was killed by the given signal.
    Terminated(i32),
    /// The tracee no longer exists.
    Gone,
    /// A trap-class stop whose register read failed.
    RegsFailed(i32),
    /// The wait itself failed.
    WaitFailed(i32),
    /// A wait status that cannot arise from a plain blocking wait.
    Unexpected,
}

/// The breakpoint lookup key for a trap-class stop.
///
/// After a trap instruction fires, the reported instruction pointer
/// addresses the byte immediately following it (instruction pointer
/// overshoot), so the key is the instruction pointer minus one.
pub open spec fn spec_trap_key(rip: u64) -> u64 {
    if rip == 0 {
        0xffff_ffff_ffff_ffff
    } else {
        (rip - 1) as u64
    }
}

/// How resolving a trap at lookup key `key` relates the outcome to the
/// breakpoint table: a hit removes exactly the entry at the key, an unknown
/// trap means no entry stood there, and a failed restoration keeps the
/// entry; nothing else ever changes the table.
pub open spec fn spec_trap_resolution(
    pre: Map<u64, u8>,
    post: Map<u64, u8>,
    r: HitOutcome,
    key: u64,
) -> bool {
    match r {
        HitOutcome::Hit(a) => a == key && pre.contains_key(a) && post == pre.remove(a),
        HitOutcome::UnknownTrap(a) => a == key && !pre.contains_key(a) && post == pre,
        HitOutcome::RestoreFailed(a, _) => a == key && pre.contains_key(a) && post == pre,
    }
}

/// Relies on nix::sys::ptrace::read (PTRACE_PEEKDATA): on success, the word
/// at `addr` in the tracee's memory; the value depends on the tracee's
/// state, so nothing is promised of it.
#[verifier::external_body]
fn ptrace_read_word(pid: i32, addr: u64) -> (r: Result<u64, i32>) {
    match nix::sys::ptrace::read(
        Pid::from_raw(pid),
        addr as nix::sys::ptrace::AddressType,
    ) {
        Ok(w) => Ok(w as u64),
        Err(e) => Err(e as i32),
    }
}

/// Relies on nix::sys::ptrace::write (PTRACE_POKEDATA): on success, the word
/// `word` has been written at `addr` in the tracee's memory.
#[verifier::external_body]
fn ptrace_write_word(pid: i32, addr: u64, word: u64) -> (r: Result<(), i32>) {
    match nix::sys::ptrace::write(
        Pid::from_raw(pid),
        addr as nix::sys::ptrace::AddressType,
        word as i64,
    ) {
        Ok(()) => Ok(()),
        Err(e) => Err(e as i32),
    }
}

/// Relies on nix::sys::ptrace::cont (PTRACE_CONT): resumes the tracee with
/// no signal; whether the request reaches the kernel depends on the
/// tracee's state.
#[verifier::external_body]
fn ptrace_cont(pid: i32) -> (r: Result<(), i32>) {
    match nix::sys::ptrace::cont(Pid::from_raw(pid), None) {
        Ok(()) => Ok(()),
        Err(e) => Err(e as i32),
    }
}

/// Relies on nix::sys::ptrace::step (PTRACE_SINGLESTEP): resumes the tracee
/// for one instruction.
#[verifier::external_body]
fn ptrace_step(pid: i32) -> (r: Result<(), i32>) {
    match nix::sys::ptrace::step(Pid::from_raw(pid), None) {
        Ok(()) => Ok(()),
        Err(e) => Err(e as i32),
    }
}

/// Relies on nix::sys::ptrace::syscall (PTRACE_SYSCALL): resumes the tracee
/// until the next system-call boundary.
#[verifier::external_body]
fn ptrace_resume_syscall(pid: i32) -> (r: Result<(), i32>) {
    match nix::sys::ptrace::syscall(Pid::from_raw(pid), None) {
        Ok(()) => Ok(()),
        Err(e) => Err(e as i32),
    }
}

/// Relies on nix::sys::ptrace::getregs (PTRACE_GETREGS): on success, a copy
/// of the tracee's current registers; the values depend on the tracee's
/// state, so nothing is promised of them.
#[verifier::external_body]
fn ptrace_getregs(pid: i32) -> (r: Result<RegisterSnapshot, i32>) {
    match nix::sys::ptrace::getregs(Pid::from_raw(pid)) {
        Ok(g) => Ok(RegisterSnapshot {
            rax: g.rax, rbx: g.rbx, rcx: g.rcx, rdx: g.rdx,
            rsi: g.rsi, rdi: g.rdi, rsp: g.rsp, rip: g.rip,
            rbp: g.rbp, r8: g.r8, r9: g.r9, r10: g.r10,
            r11: g.r11, r12: g.r12, r13: g.r13, r14: g.r14,
            r15: g.r15, orig_rax: g.orig_rax,
        }),
        Err(e) => Err(e as i32),
    }
}

/// Relies on nix::sys::wait::waitpid with no flags: blocks until the child
/// reports a state change and classifies the result, one arm per wait
/// status; an error other than "no such child" is passed through.
#[verifier::external_body]
fn wait_child(pid: i32) -> (r: StopEvent) {
    match nix::sys::wait::waitpid(Pid::from_raw(pid), None) {
        Ok(WaitStatus::Stopped(_, sig)) => StopEvent::Stopped(sig as i32),
        Ok(WaitStatus::Exited(_, code)) => StopEvent::Exited(code),
        Ok(WaitStatus::Signaled(_, sig, _)) => StopEvent::Terminated(sig as i32),
        Ok(WaitStatus::PtraceEvent(_, sig, _)) => StopEvent::Stopped(sig as i32),
        Ok(WaitStatus::PtraceSyscall(_)) => StopEvent::Stopped(Signal::SIGTRAP as i32),
        Ok(_) => StopEvent::Unexpected,
        Err(Errno::ECHILD) => StopEvent::NoSuchChild,
        Err(e) => StopEvent::WaitFailed(e as i32),
    }
}

/// One debugging session: the traced child and the breakpoints set in it.
pub struct Session {
    pub pid: i32,
    pub state: SessionState,
    pub table: BreakpointTable,
}

impl Session {
    /// A session over a freshly attached child whose first stop has not yet
    /// been consumed.
    pub fn new(pid: i32) -> (r: Session)
        ensures
            r.pid == pid,
            r.state == SessionState::Running,
            r.table@ == Map::<u64, u8>::empty(),
    {
        Session { pid, state: SessionState::Running, table: BreakpointTable::new() }
    }

    /// Installs a one-shot breakpoint at `address`.
    ///
    /// The byte standing at `address` is read and recorded first, then the
    /// trap opcode is patched in; if the patch write fails, the record is
    /// rolled back.  On success the recorded original byte is returned and
    /// the table gains exactly this entry; on failure the table is
    /// unchanged.
    pub fn set_breakpoint(&mut self, address: u64) -> (r: Result<u8, i32>)
        ensures
            final(self).pid == old(self).pid,
            final(self).state == old(self).state,
            r matches Ok(b) ==> final(self).table@ == old(self).table@.insert(address, b),
            r is Err ==> final(self).table@ == old(self).table@,
    {
        let prev = self.table.lookup(address);
        let w = match ptrace_read_word(self.pid, address) {
            Ok(w) => w,
            Err(e) => {
                return Err(e);
            },
        };
        let orig = low_byte(w);
        self.table.record(address, orig);
        match ptrace_write_word(self.pid, address, patch_word(w)) {
            Ok(_) => Ok(orig),
            Err(e) => {
                match prev {
                    Some(b0) => {
                        self.table.record(address, b0);
                        proof {
                            assert(old(self).table@.insert(address, orig).insert(address, b0)
                                =~= old(self).table@);
                        }
                    },
                    None => {
                        self.table.remove(address);
                        proof {
                            assert(old(self).table@.insert(address, orig).remove(address)
                                =~= old(self).table@);
                        }
                    },
                }
                Err(e)
            },
        }
    }

    /// Resolves a trap-class stop whose adjusted address is `address`.
    ///
    /// If a breakpoint is installed there, the original byte is written
    /// back — a read-modify-write that preserves the rest of the word — and
    /// the entry is removed, so a later trap at the same address reports an
    /// unknown trap.  An address with no entry never changes the table.
    pub fn handle_breakpoint(&mut self, address: u64) -> (r: HitOutcome)
        ensures
            final(self).pid == old(self).pid,
            final(self).state == old(self).state,
            spec_trap_resolution(old(self).table@, final(self).table@, r, address),
    {
        match self.table.lookup(address) {
            None => HitOutcome::UnknownTrap(address),
            Some(orig) => {
                let cur = match ptrace_read_word(self.pid, address) {
                    Ok(w) => w,
                    Err(e) => {
                        return HitOutcome::RestoreFailed(address, e);
                    },
                };
                let restored = with_low_byte(cur, orig);
                match ptrace_write_word(self.pid, address, restored) {
                    Ok(_) => {
                        self.table.remove(address);
                        HitOutcome::Hit(address)
                    },
                    Err(e) => HitOutcome::RestoreFailed(address, e),
                }
            },
        }
    }

    /// Blocks until the tracee reports a state change and classifies it.
    ///
    /// A trap-class stop is resolved against the breakpoint table at the
    /// reported instruction pointer minus one — the trap instruction's own
    /// address.  An exit or a vanished child moves the session to its
    /// terminal state; a failed wait leaves the session as it was, and a
    /// stop whose register read fails still marks the session stopped.
    pub fn prettier(&mut self) -> (r: WaitOutcome)
        ensures
            final(self).pid == old(self).pid,
            r matches WaitOutcome::Trap(h) ==> final(self).state == SessionState::Stopped && (
            h matches HitOutcome::Hit(a) ==> old(self).table@.contains_key(a) && final(self).table@ == old(self).table@.remove(a)) && (h matches HitOutcome::UnknownTrap(a)
                ==> !old(self).table@.contains_key(a) && final(self).table@ == old(self).table@)
                && (h matches HitOutcome::RestoreFailed(a, _) ==> old(self).table@.contains_key(a)
                && final(self).table@ == old(self).table@),
            r matches WaitOutcome::SignalStop(_) ==> final(self).state == SessionState::Stopped
                && final(self).table@ == old(self).table@,
            r matches WaitOutcome::Exited(_) ==> final(self).state == SessionState::Exited && final(self).table@ == old(self).table@,
            r matches WaitOutcome::Terminated(_) ==> final(self).state == SessionState::Exited
                && final(self).table@ == old(self).table@,
            r == WaitOutcome::Gone ==> final(self).state == SessionState::Unreachable && final(self).table@ == old(self).table@,
            r matches WaitOutcome::RegsFailed(_) ==> final(self).state == SessionState::Stopped
                && final(self).table@ == old(self).table@,
            r matches WaitOutcome::WaitFailed(_) ==> *final(self) == *old(self),
            r == WaitOutcome::Unexpected ==> *final(self) == *old(self),
    {
        let ev = wait_child(self.pid);
        self.classify_event(ev)
    }

    /// Applies one classified wait event to the session: for each event
    /// value, the outcome reported and the state transition taken, with a
    /// trap-class stop resolved against the breakpoint table.
    pub fn classify_event(&mut self, ev: StopEvent) -> (r: WaitOutcome)
        ensures
            final(self).pid == old(self).pid,
            ev matches StopEvent::Exited(c) ==> r == WaitOutcome::Exited(c) && final(self).state
                == SessionState::Exited && final(self).table@ == old(self).table@,
            ev matches StopEvent::Terminated(s) ==> r == WaitOutcome::Terminated(s) && final(self).state == SessionState::Exited && final(self).table@ == old(self).table@,
            ev == StopEvent::NoSuchChild ==> r == WaitOutcome::Gone && final(self).state
                == SessionState::Unreachable && final(self).table@ == old(self).table@,
            ev == StopEvent::Unexpected ==> r == WaitOutcome::Unexpected && *final(self) == *old(self),
            ev matches StopEvent::WaitFailed(e) ==> r == WaitOutcome::WaitFailed(e) && *final(self)
                == *old(self),
            ev matches StopEvent::Stopped(s) ==> (s != TRAP_SIGNAL ==> r
                == WaitOutcome::SignalStop(s) && final(self).state == SessionState::Stopped
                && final(self).table@ == old(self).table@),
            ev == StopEvent::Stopped(TRAP_SIGNAL) ==> final(self).state == SessionState::Stopped
                && ((r matches WaitOutcome::RegsFailed(_) && final(self).table@ == old(self).table@)
                || (r matches WaitOutcome::Trap(h) && exists|k: u64|
                #[trigger] spec_trap_resolution(old(self).table@, final(self).table@, h, k))),
    {
        match ev {
            StopEvent::Stopped(sig) => {
                self.state = SessionState::Stopped;
                if sig == TRAP_SIGNAL {
                    match ptrace_getregs(self.pid) {
                        Err(e) => WaitOutcome::RegsFailed(e),
                        Ok(regs) => WaitOutcome::Trap(self.resolve_trap(&regs)),
                    }
                } else {
                    WaitOutcome::SignalStop(sig)
                }
            },
            StopEvent::Exited(code) => {
                self.state = SessionState::Exited;
                WaitOutcome::Exited(code)
            },
            StopEvent::Terminated(sig) => {
                self.state = SessionState::Exited;
                WaitOutcome::Terminated(sig)
            },
            StopEvent::NoSuchChild => {
                self.state = SessionState::Unreachable;
                WaitOutcome::Gone
            },
            StopEvent::Unexpected => WaitOutcome::Unexpected,
            StopEvent::WaitFailed(e) => WaitOutcome::WaitFailed(e),
        }
    }

    /// Resolves the trap behind a trap-class stop.
    ///
    /// The reported instruction pointer addresses the byte one past the
    /// trap instruction, so the breakpoint lookup key handed to
    /// `handle_breakpoint` is the instruction pointer minus one.
    pub fn resolve_trap(&mut self, rs: &RegisterSnapshot) -> (r: HitOutcome)
        ensures
            final(self).pid == old(self).pid,
            final(self).state == old(self).state,
            spec_trap_resolution(old(self).table@, final(self).table@, r, spec_trap_key(rs.rip)),
    {
        let key = if rs.rip == 0 {
            u64::MAX
        } else {
            rs.rip - 1
        };
        self.handle_breakpoint(key)
    }

    /// Reads the register set and renders the register display.
    ///
    /// Each call issues a fresh read; on success the lines are exactly the
    /// rendering of the snapshot that the read returned.
    pub fn show_registers(&self) -> (r: Result<Vec<String>, i32>)
        ensures
            r matches Ok(lines) ==> exists|rs: RegisterSnapshot|
                lines.deep_view() == #[trigger] spec_register_lines(rs),
    {
        match ptrace_getregs(self.pid) {
            Ok(regs) => {
                let lines = format_registers(&regs);
                proof {
                    assert(lines.deep_view() == spec_register_lines(regs));
                }
                Ok(lines)
            },
            Err(e) => Err(e),
        }
    }
}

/// The lines of the command summary.
pub open spec fn spec_help_lines() -> Seq<Seq<char>> {
    seq![
        "Available commands:"@,
        "  c or continue: Continue the process until completion (or the next breakpoint)"@,
        "  s or syscall: Continue the process until the next syscall (or end of syscall)"@,
        "  n or next: Make a single step in the process (Continue to next instruction (single-step))"@,
        "  r or registers: Show the register states of the process"@,
        "  m or memory: Show the content of a memory address"@,
        "  h or help: Enter an instruction to get the list of available instructions."@,
    ]
}

/// The command summary, one line per entry.
pub fn help_commands() -> (r: Vec<String>)
    ensures
        r.deep_view() == spec_help_lines(),
{
    let mut r: Vec<String> = Vec::new();
    r.push(String::from_str("Available commands:"));
    r.push(
        String::from_str(
            "  c or continue: Continue the process until completion (or the next breakpoint)",
        ),
    );
    r.push(
        String::from_str(
            "  s or syscall: Continue the process until the next syscall (or end of syscall)",
        ),
    );
    r.push(
        String::from_str(
            "  n or next: Make a single step in the process (Continue to next instruction (single-step))",
        ),
    );
    r.push(String::from_str("  r or registers: Show the register states of the process"));
    r.push(String::from_str("  m or memory: Show the content of a memory address"));
    r.push(
        String::from_str(
            "  h or help: Enter an instruction to get the list of available instructions.",
        ),
    );
    proof {
        assert(r.deep_view() =~= spec_help_lines());
    }
    r
}

/// The notice printed when the tracee is found to be gone, before the
/// debugger session ends.
pub open spec fn spec_terminated_line() -> Seq<char> {
    "rustdbg> Child process has terminated."@
}

/// The exact lines reported for each outcome of one blocking wait.
pub open spec fn spec_wait_lines(w: WaitOutcome) -> Seq<Seq<char>> {
    match w {
        WaitOutcome::Trap(HitOutcome::Hit(a)) => seq![
            "SIGTRAP"@,
            "Hit breakpoint at address 0x"@ + spec_hex(a as nat),
        ],
        WaitOutcome::Trap(HitOutcome::UnknownTrap(a)) => seq![
            "SIGTRAP"@,
            "Hit unknown breakpoint at address 0x"@ + spec_hex(a as nat),
        ],
        WaitOutcome::Trap(HitOutcome::RestoreFailed(a, e)) => seq![
            "SIGTRAP"@,
            "Failed to restore original instruction at address 0x"@ + spec_hex(a as nat)
                + ": errno "@ + spec_dec_i32(e),
        ],
        WaitOutcome::SignalStop(s) => seq!["Stopped by signal "@ + spec_dec_i32(s)],
        WaitOutcome::Exited(_) => seq![spec_terminated_line()],
        WaitOutcome::Terminated(_) => seq![spec_terminated_line()],
        WaitOutcome::Gone => seq![spec_terminated_line()],
        WaitOutcome::RegsFailed(e) => seq![
            "SIGTRAP"@,
            "Failed to get registers: errno "@ + spec_dec_i32(e),
        ],
        WaitOutcome::WaitFailed(e) => seq!["Error: errno "@ + spec_dec_i32(e)],
        WaitOutcome::Unexpected => seq!["Error: unexpected wait status"@],
    }
}

/// Whether a wait outcome means there is nothing left to debug, so the
/// session should end.
pub open spec fn spec_wait_ends(w: WaitOutcome) -> bool {
    w matches WaitOutcome::Exited(_) || w matches WaitOutcome::Terminated(_) || w
        == WaitOutcome::Gone
}

/// Renders one wait outcome as its report lines, and says whether the
/// session is over.
pub fn render_wait_outcome(w: &WaitOutcome) -> (r: (Vec<String>, bool))
    ensures
        r.0.deep_view() == spec_wait_lines(*w),
        r.1 == spec_wait_ends(*w),
{
    let mut out: Vec<String> = Vec::new();
    let mut ends = false;
    match w {
        WaitOutcome::Trap(h) => {
            out.push(String::from_str("SIGTRAP"));
            match h {
                HitOutcome::Hit(a) => {
                    let mut l = String::from_str("Hit breakpoint at address 0x");
                    l.append(u64_to_hex(*a).as_str());
                    out.push(l);
                },
                HitOutcome::UnknownTrap(a) => {
                    let mut l = String::from_str("Hit unknown breakpoint at address 0x");
                    l.append(u64_to_hex(*a).as_str());
                    out.push(l);
                },
                HitOutcome::RestoreFailed(a, e) => {
                    let mut l = String::from_str(
                        "Failed to restore original instruction at address 0x",
                    );
                    l.append(u64_to_hex(*a).as_str());
                    l.append(": errno ");
                    l.append(i32_to_dec(*e).as_str());
                    out.push(l);
                },
            }
        },
        WaitOutcome::SignalStop(s) => {
            let mut l = String::from_str("Stopped by signal ");
            l.append(i32_to_dec(*s).as_str());
            out.push(l);
        },
        WaitOutcome::Exited(_) => {
            out.push(String::from_str("rustdbg> Child process has terminated."));
            ends = true;
        },
        WaitOutcome::Terminated(_) => {
            out.push(String::from_str("rustdbg> Child process has terminated."));
            ends = true;
        },
        WaitOutcome::Gone => {
            out.push(String::from_str("rustdbg> Child process has terminated."));
            ends = true;
        },
        WaitOutcome::RegsFailed(e) => {
            out.push(String::from_str("SIGTRAP"));
            let mut l = String::from_str("Failed to get registers: errno ");
            l.append(i32_to_dec(*e).as_str());
            out.push(l);
        },
        WaitOutcome::WaitFailed(e) => {
            let mut l = String::from_str("Error: errno ");
            l.append(i32_to_dec(*e).as_str());
            out.push(l);
        },
        WaitOutcome::Unexpected => {
            out.push(String::from_str("Error: unexpected wait status"));
        },
    }
    proof {
        assert(out.deep_view() =~= spec_wait_lines(*w));
    }
    (out, ends)
}

/// What one command came to: the lines to print, and whether the debugger
/// session is over.
pub struct CommandResult {
    pub output: Vec<String>,
    pub end_session: bool,
}

/// The usage or error line for a malformed memory-command argument.
pub open spec fn spec_memory_arg_line(e: ArgError) -> Seq<char> {
    match e {
        ArgError::WrongCount => "Usage: m <address>"@,
        ArgError::MissingPrefix => "Your address should start with 0x !"@,
        ArgError::BadHex => "Invalid address format"@,
    }
}

/// The usage or error line for a malformed breakpoint-command argument.
pub open spec fn spec_breakpoint_arg_line(e: ArgError) -> Seq<char> {
    match e {
        ArgError::WrongCount => "Usage: b <address>"@,
        ArgError::MissingPrefix => "Your address should start with 0x !"@,
        ArgError::BadHex => "Invalid address format"@,
    }
}

/// The report printed at a system-call boundary for syscall number `n`.
pub open spec fn spec_syscall_line(n: u64) -> Seq<char> {
    "Entering "@ + spec_syscall_name(n) + " ("@ + spec_dec(n as nat) + ") syscall"@
}

/// Everything a syscall step may come to: the exact report of each
/// outcome, the state it leaves the session in, and when the session ends.
/// The breakpoint table and the traced child are never touched.
pub open spec fn spec_syscall_outcome(pre: Session, post: Session, r: CommandResult) -> bool {
    &&& post.pid == pre.pid
    &&& post.table@ == pre.table@
    &&& {
        ||| (r.output.deep_view() == seq![spec_terminated_line()] && r.end_session
            && post.is_over())
        ||| (exists|e: i32|
            r.output.deep_view() == seq!["Failed to wait: errno "@ + #[trigger] spec_dec_i32(e)]
                && !r.end_session && post == pre)
        ||| (r.output.deep_view() == seq!["Failed to wait: unexpected status"@] && !r.end_session
            && post == pre)
        ||| (exists|e: i32|
            r.output.deep_view() == seq![
                "Could not get child's registers: errno "@ + #[trigger] spec_dec_i32(e),
            ] && !r.end_session && post.state == SessionState::Stopped)
        ||| (exists|n: u64|
            r.output.deep_view() == seq![#[trigger] spec_syscall_line(n)] && !r.end_session
                && post.state == SessionState::Running)
        ||| (exists|n: u64, e: i32|
            r.output.deep_view() == seq![
                #[trigger] spec_syscall_line(n),
                "Failed to use PTRACE_SYSCALL: errno "@ + #[trigger] spec_dec_i32(e),
            ] && !r.end_session && post.state == SessionState::Stopped)
    }
}

/// Everything a resumed continue may come to: when the session is already
/// over only the termination notice; otherwise the header line followed by
/// either the kernel's rejection of the resume — which changes nothing —
/// or the report of the observed wait outcome.  The table loses at most
/// one entry, and only when a hit at that address is reported; the session
/// ends exactly when the tracee is over.
pub open spec fn spec_continue_outcome(pre: Session, post: Session, r: CommandResult) -> bool {
    &&& post.pid == pre.pid
    &&& (pre.is_over() ==> post == pre && r.end_session && r.output.deep_view() == seq![
        spec_terminated_line(),
    ])
    &&& (!pre.is_over() ==> r.output.deep_view().len() >= 1 && r.output.deep_view()[0]
        == "Continuing execution..."@)
    &&& (!pre.is_over() ==> {
        ||| (exists|e: i32|
            r.output.deep_view() == seq![
                "Continuing execution..."@,
                "Failed to continue execution: errno "@ + #[trigger] spec_dec_i32(e),
            ] && post == pre && !r.end_session)
        ||| (exists|w: WaitOutcome|
            r.output.deep_view() == seq!["Continuing execution..."@]
                + #[trigger] spec_wait_lines(w) && r.end_session == spec_wait_ends(w))
    })
    &&& (post.table@ == pre.table@ || exists|a: u64|
        pre.table@.contains_key(a) && post.table@ == #[trigger] pre.table@.remove(a)
            && r.output.deep_view() == seq!["Continuing execution..."@] + spec_wait_lines(
            WaitOutcome::Trap(HitOutcome::Hit(a)),
        ))
    &&& (r.end_session <==> post.is_over())
}

/// The exact lines a single step reports: the header alone, or the header
/// and the kernel's rejection of the step request.
pub open spec fn spec_step_output(out: Seq<Seq<char>>) -> bool {
    out == seq!["Taking a single step..."@] || exists|e: i32|
        out == seq![
            "Taking a single step..."@,
            "Failed to continue execution: errno "@ + #[trigger] spec_dec_i32(e),
        ]
}

/// The exact lines of the register command: the header, then either the
/// full register display of some snapshot or the one-line failure report.
pub open spec fn spec_registers_output(out: Seq<Seq<char>>) -> bool {
    (exists|rs: RegisterSnapshot|
        out == seq!["Showing register states..."@] + #[trigger] spec_register_lines(rs))
        || exists|e: i32|
        out == seq![
            "Showing register states..."@,
            "Failed to get registers: errno "@ + #[trigger] spec_dec_i32(e),
        ]
}

fn memory_arg_line(e: &ArgError) -> (r: String)
    ensures
        r@ == spec_memory_arg_line(*e),
{
    match e {
        ArgError::WrongCount => String::from_str("Usage: m <address>"),
        ArgError::MissingPrefix => String::from_str("Your address should start with 0x !"),
        ArgError::BadHex => String::from_str("Invalid address format"),
    }
}

fn breakpoint_arg_line(e: &ArgError) -> (r: String)
    ensures
        r@ == spec_breakpoint_arg_line(*e),
{
    match e {
        ArgError::WrongCount => String::from_str("Usage: b <address>"),
        ArgError::MissingPrefix => String::from_str("Your address should start with 0x !"),
        ArgError::BadHex => String::from_str("Invalid address format"),
    }
}

impl Session {
    /// Whether the session has reached a terminal state: the tracee exited
    /// or can no longer be found.
    pub open spec fn is_over(&self) -> bool {
        self.state == SessionState::Exited || self.state == SessionState::Unreachable
    }

    /// Resumes the tracee and blocks until it reports a state change; a
    /// trap-class stop is resolved against the breakpoint table.
    ///
    /// When the session is already over, no request is issued: the
    /// termination notice is reported and the session ends.  A resume
    /// request the kernel rejects is reported and changes nothing.
    pub fn continue_execution(&mut self) -> (r: CommandResult)
        ensures
            spec_continue_outcome(*old(self), *final(self), r),
    {
        let mut out: Vec<String> = Vec::new();
        if matches!(self.state, SessionState::Exited | SessionState::Unreachable) {
            out.push(String::from_str("rustdbg> Child process has terminated."));
            proof {
                assert(out.deep_view() =~= seq![spec_terminated_line()]);
            }
            return CommandResult { output: out, end_session: true };
        }
        out.push(String::from_str("Continuing execution..."));
        match ptrace_cont(self.pid) {
            Err(e) => {
                let mut l = String::from_str("Failed to continue execution: errno ");
                l.append(i32_to_dec(e).as_str());
                out.push(l);
                proof {
                    assert(out.deep_view() =~= seq![
                        "Continuing execution..."@,
                        "Failed to continue execution: errno "@ + spec_dec_i32(e),
                    ]);
                }
                CommandResult { output: out, end_session: false }
            },
            Ok(_) => {
                let w = self.prettier();
                let (mut lines, ends) = render_wait_outcome(&w);
                let ghost pre = out@;
                let ghost lines_dv = lines.deep_view();
                let ghost lines_seq = lines@;
                out.append(&mut lines);
                proof {
                    assert forall|q: int| 0 <= q < out@.len() implies out.deep_view()[q] == (
                    seq!["Continuing execution..."@] + lines_dv)[q] by {
                        if q > 0 {
                            assert(out@[q] == lines_seq[q - 1]);
                        }
                    }
                    assert(out.deep_view() =~= seq!["Continuing execution..."@] + lines_dv);
                    match w {
                        WaitOutcome::Trap(HitOutcome::Hit(a)) => {
                            assert(old(self).table@.contains_key(a) && self.table@ == old(self).table@.remove(a));
                            assert(out.deep_view() == seq!["Continuing execution..."@]
                                + spec_wait_lines(WaitOutcome::Trap(HitOutcome::Hit(a))));
                        },
                        _ => {
                            assert(self.table@ == old(self).table@);
                        },
                    }
                }
                CommandResult { output: out, end_session: ends }
            },
        }
    }

    /// Blocks for the pending stop, reports the system call about to be
    /// entered or just exited, then resumes the tracee to the next
    /// system-call boundary.
    ///
    /// The breakpoint table is never touched.  If the wait finds the tracee
    /// exited or gone, the termination notice is reported and the session
    /// ends.
    pub fn step_to_syscall(&mut self) -> (r: CommandResult)
        ensures
            spec_syscall_outcome(*old(self), *final(self), r),
    {
        let mut out: Vec<String> = Vec::new();
        let ev = wait_child(self.pid);
        match ev {
            StopEvent::Stopped(_) => {
                self.state = SessionState::Stopped;
                match ptrace_getregs(self.pid) {
                    Err(e) => {
                        let mut l = String::from_str("Could not get child's registers: errno ");
                        l.append(i32_to_dec(e).as_str());
                        out.push(l);
                        proof {
                            assert(out.deep_view() =~= seq![
                                "Could not get child's registers: errno "@ + spec_dec_i32(e),
                            ]);
                        }
                        CommandResult { output: out, end_session: false }
                    },
                    Ok(regs) => {
                        let mut l = String::from_str("Entering ");
                        l.append(syscall_name(regs.orig_rax).as_str());
                        l.append(" (");
                        l.append(u64_to_dec(regs.orig_rax).as_str());
                        l.append(") syscall");
                        proof {
                            assert(l@ =~= spec_syscall_line(regs.orig_rax));
                        }
                        out.push(l);
                        match ptrace_resume_syscall(self.pid) {
                            Ok(_) => {
                                self.state = SessionState::Running;
                                proof {
                                    assert(out.deep_view() =~= seq![
                                        spec_syscall_line(regs.orig_rax),
                                    ]);
                                }
                                CommandResult { output: out, end_session: false }
                            },
                            Err(e) => {
                                let mut f = String::from_str("Failed to use PTRACE_SYSCALL: errno ");
                                f.append(i32_to_dec(e).as_str());
                                out.push(f);
                                proof {
                                    assert(out.deep_view() =~= seq![
                                        spec_syscall_line(regs.orig_rax),
                                        "Failed to use PTRACE_SYSCALL: errno "@ + spec_dec_i32(e),
                                    ]);
                                }
                                CommandResult { output: out, end_session: false }
                            },
                        }
                    },
                }
            },
            StopEvent::Exited(_) => {
                self.state = SessionState::Exited;
                out.push(String::from_str("rustdbg> Child process has terminated."));
                proof {
                    assert(out.deep_view() =~= seq![spec_terminated_line()]);
                }
                CommandResult { output: out, end_session: true }
            },
            StopEvent::Terminated(_) => {
                self.state = SessionState::Exited;
                out.push(String::from_str("rustdbg> Child process has terminated."));
                proof {
                    assert(out.deep_view() =~= seq![spec_terminated_line()]);
                }
                CommandResult { output: out, end_session: true }
            },
            StopEvent::NoSuchChild => {
                self.state = SessionState::Unreachable;
                out.push(String::from_str("rustdbg> Child process has terminated."));
                proof {
                    assert(out.deep_view() =~= seq![spec_terminated_line()]);
                }
                CommandResult { output: out, end_session: true }
            },
            StopEvent::Unexpected => {
                out.push(String::from_str("Failed to wait: unexpected status"));
                proof {
                    assert(out.deep_view() =~= seq!["Failed to wait: unexpected status"@]);
                }
                CommandResult { output: out, end_session: false }
            },
            StopEvent::WaitFailed(e) => {
                let mut l = String::from_str("Failed to wait: errno ");
                l.append(i32_to_dec(e).as_str());
                out.push(l);
                proof {
                    assert(out.deep_view() =~= seq!["Failed to wait: errno "@ + spec_dec_i32(e)]);
                }
                CommandResult { output: out, end_session: false }
            },
        }
    }

    /// Resumes the tracee for exactly one machine instruction.
    ///
    /// By design no breakpoint resolution happens here, and the pending
    /// stop is left for the next wait to consume; the session itself is
    /// unchanged.
    pub fn single_step(&mut self) -> (r: CommandResult)
        ensures
            *final(self) == *old(self),
            !r.end_session,
            r.output.deep_view().len() >= 1,
            r.output.deep_view()[0] == "Taking a single step..."@,
            spec_step_output(r.output.deep_view()),
    {
        let mut out: Vec<String> = Vec::new();
        out.push(String::from_str("Taking a single step..."));
        proof {
            assert(out.deep_view() =~= seq!["Taking a single step..."@]);
        }
        match ptrace_step(self.pid) {
            Ok(_) => {},
            Err(e) => {
                let mut l = String::from_str("Failed to continue execution: errno ");
                l.append(i32_to_dec(e).as_str());
                out.push(l);
                proof {
                    assert(out.deep_view() =~= seq![
                        "Taking a single step..."@,
                        "Failed to continue execution: errno "@ + spec_dec_i32(e),
                    ]);
                }
            },
        }
        CommandResult { output: out, end_session: false }
    }

    /// Reads and renders the register display.
    fn registers_command(&self) -> (out: Vec<String>)
        ensures
            out.deep_view().len() >= 1,
            out.deep_view()[0] == "Showing register states..."@,
            spec_registers_output(out.deep_view()),
    {
        let mut out: Vec<String> = Vec::new();
        out.push(String::from_str("Showing register states..."));
        match self.show_registers() {
            Ok(mut lines) => {
                let ghost rs = choose|rs: RegisterSnapshot|
                    lines.deep_view() == spec_register_lines(rs);
                let ghost lines_dv = lines.deep_view();
                let ghost lines_seq = lines@;
                out.append(&mut lines);
                proof {
                    assert forall|q: int| 0 <= q < out@.len() implies out.deep_view()[q] == (
                    seq!["Showing register states..."@] + lines_dv)[q] by {
                        if q > 0 {
                            assert(out@[q] == lines_seq[q - 1]);
                        }
                    }
                    assert(out.deep_view() =~= seq!["Showing register states..."@] + lines_dv);
                }
                out
            },
            Err(e) => {
                let mut l = String::from_str("Failed to get registers: errno ");
                l.append(i32_to_dec(e).as_str());
                out.push(l);
                proof {
                    assert(out.deep_view() =~= seq![
                        "Showing register states..."@,
                        "Failed to get registers: errno "@ + spec_dec_i32(e),
                    ]);
                }
                out
            },
        }
    }

    /// Reads one machine word from the tracee and renders it in the full
    /// 16-digit hexadecimal form.
    fn memory_command(&self, address: u64) -> (out: Vec<String>)
        ensures
            out.deep_view().len() == 1,
            (exists|v: u64|
                out.deep_view() == seq!["0x"@ + #[trigger] spec_hex_pad(v as nat, 16)])
                || out.deep_view() == seq!["Not able to read the content of this address"@],
    {
        let mut out: Vec<String> = Vec::new();
        match ptrace_read_word(self.pid, address) {
            Ok(v) => {
                let mut l = String::from_str("0x");
                l.append(u64_to_hex_pad(v, 16).as_str());
                out.push(l);
                proof {
                    assert(out.deep_view() =~= seq!["0x"@ + spec_hex_pad(v as nat, 16)]);
                }
            },
            Err(_) => {
                out.push(String::from_str("Not able to read the content of this address"));
                proof {
                    assert(out.deep_view() =~= seq![
                        "Not able to read the content of this address"@,
                    ]);
                }
            },
        }
        out
    }

    /// Installs a breakpoint and reports a failure to do so.
    fn breakpoint_command(&mut self, address: u64) -> (out: Vec<String>)
        ensures
            final(self).pid == old(self).pid,
            final(self).state == old(self).state,
            (exists|b: u8| final(self).table@ == old(self).table@.insert(address, b))
                && out.deep_view().len() == 0 || final(self).table@ == old(self).table@ && exists|
                e: i32,
            |
                out.deep_view() == seq![
                    "Failed to set breakpoint: errno "@ + #[trigger] spec_dec_i32(e),
                ],
    {
        let mut out: Vec<String> = Vec::new();
        match self.set_breakpoint(address) {
            Ok(_) => out,
            Err(e) => {
                let mut l = String::from_str("Failed to set breakpoint: errno ");
                l.append(i32_to_dec(e).as_str());
                out.push(l);
                proof {
                    assert(out.deep_view() =~= seq![
                        "Failed to set breakpoint: errno "@ + spec_dec_i32(e),
                    ]);
                }
                out
            },
        }
    }

    /// Runs one operator command line against the session.
    ///
    /// The line is parsed by the command grammar; a malformed address
    /// argument or an unknown command yields exactly its message and
    /// changes nothing.  Only the breakpoint command can add a table entry
    /// and only a resumed trap hit can remove one.  The session ends on the
    /// quit command or once the tracee is over.
    pub fn execute_command(&mut self, line: &str) -> (r: CommandResult)
        ensures
            final(self).pid == old(self).pid,
            !(spec_parse(line.spec_bytes()) matches Command::Breakpoint(_)) && spec_parse(line.spec_bytes()) != Command::Continue ==> final(self).table@ == old(self).table@,
            spec_parse(line.spec_bytes()) == Command::Continue ==> spec_continue_outcome(
                *old(self),
                *final(self),
                r,
            ),
            spec_parse(line.spec_bytes()) == Command::Syscall ==> spec_syscall_outcome(
                *old(self),
                *final(self),
                r,
            ),
            spec_parse(line.spec_bytes()) matches Command::Breakpoint(a) ==> final(self).state
                == old(self).state && !r.end_session && ((exists|b: u8|
                final(self).table@ == old(self).table@.insert(a, b))
                && r.output.deep_view() == Seq::<Seq<char>>::empty() || final(self).table@ == old(
                self,
            ).table@ && exists|e: i32|
                r.output.deep_view() == seq![
                    "Failed to set breakpoint: errno "@ + #[trigger] spec_dec_i32(e),
                ]),
            spec_parse(line.spec_bytes()) == Command::Help ==> *final(self) == *old(self)
                && !r.end_session && r.output.deep_view() == spec_help_lines(),
            spec_parse(line.spec_bytes()) == Command::Quit ==> *final(self) == *old(self)
                && r.end_session && r.output.deep_view() == seq!["Exiting the debugger !"@],
            spec_parse(line.spec_bytes()) == Command::Unknown ==> *final(self) == *old(self)
                && !r.end_session && r.output.deep_view() == seq!["Unknown command: "@ + line@],
            spec_parse(line.spec_bytes()) matches Command::MemoryArg(e) ==> *final(self) == *old(self) && !r.end_session && r.output.deep_view() == seq![spec_memory_arg_line(e)],
            spec_parse(line.spec_bytes()) matches Command::BreakpointArg(e) ==> *final(self)
                == *old(self) && !r.end_session && r.output.deep_view() == seq![
                spec_breakpoint_arg_line(e),
            ],
            spec_parse(line.spec_bytes()) == Command::Registers ==> *final(self) == *old(self)
                && !r.end_session && r.output.deep_view().len() >= 1 && r.output.deep_view()[0]
                == "Showing register states..."@ && spec_registers_output(r.output.deep_view()),
            spec_parse(line.spec_bytes()) matches Command::Memory(_) ==> *final(self) == *old(self)
                && !r.end_session && ((exists|v: u64|
                r.output.deep_view() == seq!["0x"@ + #[trigger] spec_hex_pad(v as nat, 16)])
                || r.output.deep_view() == seq![
                "Not able to read the content of this address"@,
            ]),
            spec_parse(line.spec_bytes()) == Command::Next ==> *final(self) == *old(self)
                && !r.end_session && r.output.deep_view()[0] == "Taking a single step..."@
                && spec_step_output(r.output.deep_view()),
            r.end_session ==> spec_parse(line.spec_bytes()) == Command::Quit || final(self).is_over(),
    {
        let cmd = parse_command(line);
        match cmd {
            Command::Continue => self.continue_execution(),
            Command::Syscall => self.step_to_syscall(),
            Command::Next => self.single_step(),
            Command::Registers => CommandResult {
                output: self.registers_command(),
                end_session: false,
            },
            Command::Memory(a) => CommandResult {
                output: self.memory_command(a),
                end_session: false,
            },
            Command::MemoryArg(e) => {
                let mut out: Vec<String> = Vec::new();
                out.push(memory_arg_line(&e));
                proof {
                    assert(out.deep_view() =~= seq![spec_memory_arg_line(e)]);
                }
                CommandResult { output: out, end_session: false }
            },
            Command::Breakpoint(a) => CommandResult {
                output: self.breakpoint_command(a),
                end_session: false,
            },
            Command::BreakpointArg(e) => {
                let mut out: Vec<String> = Vec::new();
                out.push(breakpoint_arg_line(&e));
                proof {
                    assert(out.deep_view() =~= seq![spec_breakpoint_arg_line(e)]);
                }
                CommandResult { output: out, end_session: false }
            },
            Command::Help => CommandResult { output: help_commands(), end_session: false },
            Command::Quit => {
                let mut out: Vec<String> = Vec::new();
                out.push(String::from_str("Exiting the debugger !"));
                proof {
                    assert(out.deep_view() =~= seq!["Exiting the debugger !"@]);
                }
                CommandResult { output: out, end_session: true }
            },
            Command::Unknown => {
                let mut out: Vec<String> = Vec::new();
                let mut l = String::from_str("Unknown command: ");
                l.append(line);
                out.push(l);
                proof {
                    assert(out.deep_view() =~= seq!["Unknown command: "@ + line@]);
                }
                CommandResult { output: out, end_session: false }
            },
        }
    }
}

} // verus!
