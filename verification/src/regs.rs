//! Register snapshots and their rendering.
//!
//! A snapshot is an immutable copy of the tracee's general-purpose register
//! set, materialized on demand by one read; it also carries the system-call
//! number slot used when stepping to a system-call boundary.

use crate::render::spec_hex;
use crate::render::u64_to_hex;
use vstd::prelude::*;
use vstd::string::*;

verus! {

/// All general-purpose registers plus the instruction and stack pointers,
/// and the system-call number slot.
#[derive(Clone, Copy, PartialEq, Eq, Structural, Debug)]
pub struct RegisterSnapshot {
    pub rax: u64,
    pub rbx: u64,
    pub rcx: u64,
    pub rdx: u64,
    pub rsi: u64,
    pub rdi: u64,
    pub rsp: u64,
    pub rip: u64,
    pub rbp: u64,
    pub r8: u64,
    pub r9: u64,
    pub r10: u64,
    pub r11: u64,
    pub r12: u64,
    pub r13: u64,
    pub r14: u64,
    pub r15: u64,
    pub orig_rax: u64,
}

/// One register line: two spaces, the label, a colon, and the value in
/// lowercase hexadecimal.
pub open spec fn spec_reg_line(label: Seq<char>, v: u64) -> Seq<char> {
    label + spec_hex(v as nat)
}

/// The exact lines that the register display shows for a snapshot.
pub open spec fn spec_register_lines(rs: RegisterSnapshot) -> Seq<Seq<char>> {
    seq![
        "Registers:"@,
        spec_reg_line("  rax: 0x"@, rs.rax),
        spec_reg_line("  rbx: 0x"@, rs.rbx),
        spec_reg_line("  rcx: 0x"@, rs.rcx),
        spec_reg_line("  rdx: 0x"@, rs.rdx),
        spec_reg_line("  rsi: 0x"@, rs.rsi),
        spec_reg_line("  rdi: 0x"@, rs.rdi),
        spec_reg_line("  rsp: 0x"@, rs.rsp),
        spec_reg_line("  rip: 0x"@, rs.rip),
        spec_reg_line("  rbp: 0x"@, rs.rbp),
        spec_reg_line("  r8 : 0x"@, rs.r8),
        spec_reg_line("  r9 : 0x"@, rs.r9),
        spec_reg_line("  r10: 0x"@, rs.r10),
        spec_reg_line("  r11: 0x"@, rs.r11),
        spec_reg_line("  r12: 0x"@, rs.r12),
        spec_reg_line("  r13: 0x"@, rs.r13),
        spec_reg_line("  r14: 0x"@, rs.r14),
        spec_reg_line("  r15: 0x"@, rs.r15),
    ]
}

fn reg_line(label: &str, v: u64) -> (r: String)
    ensures
        r@ == spec_reg_line(label@, v),
{
    let mut s = String::from_str(label);
    s.append(u64_to_hex(v).as_str());
    s
}

/// Renders a snapshot as the register display: a header line, then one line
/// per register in lowercase hexadecimal.
pub fn format_registers(rs: &RegisterSnapshot) -> (r: Vec<String>)
    ensures
        r.deep_view() == spec_register_lines(*rs),
{
    let mut r: Vec<String> = Vec::new();
    r.push(String::from_str("Registers:"));
    r.push(reg_line("  rax: 0x", rs.rax));
    r.push(reg_line("  rbx: 0x", rs.rbx));
    r.push(reg_line("  rcx: 0x", rs.rcx));
    r.push(reg_line("  rdx: 0x", rs.rdx));
    r.push(reg_line("  rsi: 0x", rs.rsi));
    r.push(reg_line("  rdi: 0x", rs.rdi));
    r.push(reg_line("  rsp: 0x", rs.rsp));
    r.push(reg_line("  rip: 0x", rs.rip));
    r.push(reg_line("  rbp: 0x", rs.rbp));
    r.push(reg_line("  r8 : 0x", rs.r8));
    r.push(reg_line("  r9 : 0x", rs.r9));
    r.push(reg_line("  r10: 0x", rs.r10));
    r.push(reg_line("  r11: 0x", rs.r11));
    r.push(reg_line("  r12: 0x", rs.r12));
    r.push(reg_line("  r13: 0x", rs.r13));
    r.push(reg_line("  r14: 0x", rs.r14));
    r.push(reg_line("  r15: 0x", rs.r15));
    proof {
        assert(r.deep_view() =~= spec_register_lines(*rs));
    }
    r
}

/// The name reported for a system-call number; numbers outside the table
/// report as `unknown`.
pub open spec fn spec_syscall_name(n: u64) -> Seq<char> {
    if n == 0 {
        "read"@
    } else if n == 1 {
        "write"@
    } else if n == 2 {
        "open"@
    } else if n == 3 {
        "close"@
    } else if n == 9 {
        "mmap"@
    } else if n == 10 {
        "mprotect"@
    } else if n == 11 {
        "munmap"@
    } else if n == 12 {
        "brk"@
    } else if n == 21 {
        "access"@
    } else if n == 39 {
        "getpid"@
    } else if n == 57 {
        "fork"@
    } else if n == 59 {
        "execve"@
    } else if n == 60 {
        "exit"@
    } else if n == 61 {
        "wait4"@
    } else if n == 62 {
        "kill"@
    } else if n == 101 {
        "ptrace"@
    } else if n == 158 {
        "arch_prctl"@
    } else if n == 231 {
        "exit_group"@
    } else if n == 257 {
        "openat"@
    } else {
        "unknown"@
    }
}

/// The name of a system-call number, for the report printed at a
/// system-call boundary.
pub fn syscall_name(n: u64) -> (r: String)
    ensures
        r@ == spec_syscall_name(n),
{
    let s: &str = if n == 0 {
        "read"
    } else if n == 1 {
        "write"
    } else if n == 2 {
        "open"
    } else if n == 3 {
        "close"
    } else if n == 9 {
        "mmap"
    } else if n == 10 {
        "mprotect"
    } else if n == 11 {
        "munmap"
    } else if n == 12 {
        "brk"
    } else if n == 21 {
        "access"
    } else if n == 39 {
        "getpid"
    } else if n == 57 {
        "fork"
    } else if n == 59 {
        "execve"
    } else if n == 60 {
        "exit"
    } else if n == 61 {
        "wait4"
    } else if n == 62 {
        "kill"
    } else if n == 101 {
        "ptrace"
    } else if n == 158 {
        "arch_prctl"
    } else if n == 231 {
        "exit_group"
    } else if n == 257 {
        "openat"
    } else {
        "unknown"
    };
    String::from_str(s)
}

} // verus!
