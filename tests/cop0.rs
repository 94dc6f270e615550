use psx_cdrom::cop0::{Cop0, Exception};

#[test]
fn test_cache_isolated() {
    let mut cop0 = Cop0::new();
    cop0.write_reg(12, 65536);
    assert_eq!(cop0.cache_isolated(), true);

    cop0.write_reg(12, 0);
    assert_eq!(cop0.cache_isolated(), false);
}

#[test]
fn registers_start_at_zero_and_keep_writes() {
    let mut cop0 = Cop0::new();
    for i in 0..32u8 {
        assert_eq!(cop0.read_reg(i), 0);
    }
    cop0.write_reg(31, 0xDEAD_BEEF);
    assert_eq!(cop0.read_reg(31), 0xDEAD_BEEF);
    assert_eq!(cop0.read_reg(30), 0);
}

#[test]
fn cause_execode_replaces_only_the_code_field() {
    let mut cop0 = Cop0::new();
    cop0.write_reg(13, 0xFFFF_FFFF);
    cop0.set_cause_execode(Exception::Syscall);
    assert_eq!(cop0.read_reg(13), 0xFFFF_FF83 | (0x08 << 2));
    cop0.write_reg(13, 0x0000_0300);
    cop0.set_cause_execode(Exception::ArithmeticOverflow);
    assert_eq!(cop0.read_reg(13), 0x0000_0330);
    assert_eq!(Exception::Breakpoint.code(), 0x09);
}

#[test]
fn register_zero_ignores_writes() {
    let mut cop0 = Cop0::new();
    cop0.write_reg(0, 5);
    assert_eq!(cop0.read_reg(0), 0);
    cop0.write_reg(1, 5);
    assert_eq!(cop0.read_reg(1), 5);
}
