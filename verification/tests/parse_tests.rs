use rustdbg::parse::{parse_command, parse_hex_u64, tokenize, ArgError, Command};

#[test]
fn parse_continue_aliases() {
    assert_eq!(parse_command("c"), Command::Continue);
    assert_eq!(parse_command("continue"), Command::Continue);
    assert_eq!(parse_command("  c  "), Command::Continue);
}

#[test]
fn parse_syscall_aliases() {
    assert_eq!(parse_command("s"), Command::Syscall);
    assert_eq!(parse_command("syscall"), Command::Syscall);
}

#[test]
fn parse_next_aliases() {
    assert_eq!(parse_command("n"), Command::Next);
    assert_eq!(parse_command("next"), Command::Next);
}

#[test]
fn parse_registers_aliases() {
    assert_eq!(parse_command("r"), Command::Registers);
    assert_eq!(parse_command("registers"), Command::Registers);
}

#[test]
fn parse_help_and_quit() {
    assert_eq!(parse_command("h"), Command::Help);
    assert_eq!(parse_command("help"), Command::Help);
    assert_eq!(parse_command("q"), Command::Quit);
    assert_eq!(parse_command("quit"), Command::Quit);
}

#[test]
fn parse_memory_address() {
    assert_eq!(parse_command("m 0x12345678"), Command::Memory(0x12345678));
    assert_eq!(parse_command("memory 0xff"), Command::Memory(0xff));
    assert_eq!(parse_command("m 0xFF"), Command::Memory(0xff));
}

#[test]
fn parse_breakpoint_address() {
    assert_eq!(parse_command("b 0x401000"), Command::Breakpoint(0x401000));
    assert_eq!(parse_command("breakpoint 0x401000"), Command::Breakpoint(0x401000));
    assert_eq!(
        parse_command("b 0xffffffffffffffff"),
        Command::Breakpoint(u64::MAX)
    );
}

#[test]
fn parse_wrong_argument_count() {
    assert_eq!(parse_command("m"), Command::MemoryArg(ArgError::WrongCount));
    assert_eq!(
        parse_command("m 0x1 0x2"),
        Command::MemoryArg(ArgError::WrongCount)
    );
    assert_eq!(
        parse_command("b"),
        Command::BreakpointArg(ArgError::WrongCount)
    );
    assert_eq!(
        parse_command("b 0x1 0x2"),
        Command::BreakpointArg(ArgError::WrongCount)
    );
}

#[test]
fn parse_missing_prefix() {
    assert_eq!(
        parse_command("m 1234"),
        Command::MemoryArg(ArgError::MissingPrefix)
    );
    assert_eq!(
        parse_command("b 401000"),
        Command::BreakpointArg(ArgError::MissingPrefix)
    );
    // The prefix is case-sensitive.
    assert_eq!(
        parse_command("m 0XFF"),
        Command::MemoryArg(ArgError::MissingPrefix)
    );
    assert_eq!(parse_command("m 0"), Command::MemoryArg(ArgError::MissingPrefix));
}

#[test]
fn parse_bad_hex_digits() {
    assert_eq!(parse_command("m 0xzz"), Command::MemoryArg(ArgError::BadHex));
    assert_eq!(parse_command("b 0x12g4"), Command::BreakpointArg(ArgError::BadHex));
    // No digits at all after the prefix.
    assert_eq!(parse_command("m 0x"), Command::MemoryArg(ArgError::BadHex));
}

#[test]
fn parse_hex_overflow() {
    // One digit more than a machine word can hold.
    assert_eq!(
        parse_command("b 0x10000000000000000"),
        Command::BreakpointArg(ArgError::BadHex)
    );
    // Leading zeros do not overflow.
    assert_eq!(parse_command("m 0x000000000000000001"), Command::Memory(1));
}

#[test]
fn parse_unknown_and_empty() {
    assert_eq!(parse_command("invalid"), Command::Unknown);
    assert_eq!(parse_command(""), Command::Unknown);
    assert_eq!(parse_command("   "), Command::Unknown);
    assert_eq!(parse_command("cont"), Command::Unknown);
}

#[test]
fn tokenize_splits_on_whitespace() {
    let toks = tokenize(b"  b \t 0x10 \n");
    assert_eq!(toks.len(), 2);
    assert_eq!(toks[0], b"b".to_vec());
    assert_eq!(toks[1], b"0x10".to_vec());
    assert_eq!(tokenize(b"").len(), 0);
}

#[test]
fn parse_hex_u64_values() {
    assert_eq!(parse_hex_u64(b"ff"), Some(255));
    assert_eq!(parse_hex_u64(b"0"), Some(0));
    assert_eq!(parse_hex_u64(b"DeadBeef"), Some(0xdead_beef));
    assert_eq!(parse_hex_u64(b"ffffffffffffffff"), Some(u64::MAX));
    assert_eq!(parse_hex_u64(b""), None);
    assert_eq!(parse_hex_u64(b"+ff"), None);
    assert_eq!(parse_hex_u64(b"10000000000000000"), None);
}
