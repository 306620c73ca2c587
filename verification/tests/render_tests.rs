use rustdbg::bits::{low_byte, patch_word, with_low_byte, TRAP_OPCODE};
use rustdbg::regs::{format_registers, syscall_name, RegisterSnapshot};
use rustdbg::render::{i32_to_dec, u64_to_dec, u64_to_hex, u64_to_hex_pad};

#[test]
fn hex_without_leading_zeros() {
    assert_eq!(u64_to_hex(0), "0");
    assert_eq!(u64_to_hex(0x401000), "401000");
    assert_eq!(u64_to_hex(0xdead_beef), "deadbeef");
    assert_eq!(u64_to_hex(u64::MAX), "ffffffffffffffff");
}

#[test]
fn hex_padded_to_sixteen_digits() {
    assert_eq!(u64_to_hex_pad(0x401000, 16), "0000000000401000");
    assert_eq!(u64_to_hex_pad(0, 16), "0000000000000000");
    assert_eq!(u64_to_hex_pad(u64::MAX, 16), "ffffffffffffffff");
}

#[test]
fn decimal_rendering() {
    assert_eq!(u64_to_dec(0), "0");
    assert_eq!(u64_to_dec(1234), "1234");
    assert_eq!(i32_to_dec(10), "10");
    assert_eq!(i32_to_dec(-5), "-5");
    assert_eq!(i32_to_dec(i32::MIN), "-2147483648");
}

#[test]
fn trap_word_patching() {
    let w: u64 = 0x1122_3344_5566_7788;
    assert_eq!(TRAP_OPCODE, 0xcc);
    assert_eq!(low_byte(w), 0x88);
    // Patching plants the trap in the low byte and keeps the rest.
    assert_eq!(patch_word(w), 0x1122_3344_5566_77cc);
    // Restoring with the recorded byte gives back the original word.
    assert_eq!(with_low_byte(patch_word(w), low_byte(w)), w);
}

fn sample_snapshot() -> RegisterSnapshot {
    RegisterSnapshot {
        rax: 0x1,
        rbx: 0x2,
        rcx: 0x3,
        rdx: 0x4,
        rsi: 0x5,
        rdi: 0x6,
        rsp: 0x7fff_ffff_e000,
        rip: 0x401001,
        rbp: 0x7fff_ffff_e100,
        r8: 0x8,
        r9: 0x9,
        r10: 0xa,
        r11: 0xb,
        r12: 0xc,
        r13: 0xd,
        r14: 0xe,
        r15: 0xf,
        orig_rax: 59,
    }
}

#[test]
fn register_display_lines() {
    let lines = format_registers(&sample_snapshot());
    assert_eq!(lines.len(), 18);
    assert_eq!(lines[0], "Registers:");
    assert_eq!(lines[1], "  rax: 0x1");
    assert_eq!(lines[7], "  rsp: 0x7fffffffe000");
    assert_eq!(lines[8], "  rip: 0x401001");
    assert_eq!(lines[17], "  r15: 0xf");
}

#[test]
fn register_display_is_well_formed_hex() {
    // All sixteen general-purpose registers plus instruction and stack
    // pointers appear, each as a label and nonempty lowercase hex.
    let lines = format_registers(&sample_snapshot());
    for label in [
        "rax", "rbx", "rcx", "rdx", "rsi", "rdi", "rsp", "rip", "rbp", "r8", "r9", "r10", "r11",
        "r12", "r13", "r14", "r15",
    ] {
        let line = lines
            .iter()
            .find(|l| l.trim_start().starts_with(label))
            .unwrap_or_else(|| panic!("no line for {}", label));
        let (_, value) = line.split_once(": 0x").expect("label and value");
        assert!(!value.is_empty());
        assert!(value.chars().all(|c| c.is_ascii_hexdigit() && !c.is_ascii_uppercase()));
    }
}

#[test]
fn syscall_names() {
    assert_eq!(syscall_name(0), "read");
    assert_eq!(syscall_name(1), "write");
    assert_eq!(syscall_name(59), "execve");
    assert_eq!(syscall_name(231), "exit_group");
    assert_eq!(syscall_name(99999), "unknown");
}
