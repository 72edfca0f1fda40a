use gameboy::{get_lsb, get_msb, get_u16, FlagsRegister, Registers};

fn zeroed() -> Registers {
    Registers {
        a: 0,
        b: 0,
        c: 0,
        d: 0,
        e: 0,
        f: FlagsRegister { zero: false, subtract: false, half_carry: false, carry: false },
        h: 0,
        l: 0,
    }
}

#[test]
fn flags_round_trip_every_combination() {
    for bits in 0u8..16 {
        let flags = FlagsRegister {
            zero: bits & 8 != 0,
            subtract: bits & 4 != 0,
            half_carry: bits & 2 != 0,
            carry: bits & 1 != 0,
        };
        let byte = u8::from(flags);
        assert_eq!(byte & 0x0F, 0);
        assert_eq!(byte, bits << 4);
        assert_eq!(FlagsRegister::from(byte), flags);
    }
}

#[test]
fn flags_pack_bit_positions() {
    let zero_only = FlagsRegister { zero: true, subtract: false, half_carry: false, carry: false };
    assert_eq!(u8::from(zero_only), 0x80);
    let carry_only = FlagsRegister { zero: false, subtract: false, half_carry: false, carry: true };
    assert_eq!(u8::from(carry_only), 0x10);
    let half_and_sub = FlagsRegister { zero: false, subtract: true, half_carry: true, carry: false };
    assert_eq!(u8::from(half_and_sub), 0x60);
}

#[test]
fn flags_unpack_ignores_low_nibble() {
    let all = FlagsRegister::from(0xFF);
    assert!(all.zero && all.subtract && all.half_carry && all.carry);
    let none = FlagsRegister::from(0x0F);
    assert!(!none.zero && !none.subtract && !none.half_carry && !none.carry);
    let f = FlagsRegister::from(0xA5);
    assert!(f.zero && !f.subtract && f.half_carry && !f.carry);
    assert_eq!(u8::from(f), 0xA0);
}

#[test]
fn register_pairs_round_trip() {
    for value in [0x0000u16, 0x0001, 0x00FF, 0x0100, 0x1234, 0xBEEF, 0xFF00, 0xFFFF] {
        let mut regs = zeroed();
        regs.set_bc(value);
        assert_eq!(regs.get_bc(), value);
        assert_eq!(regs.get_de(), 0);
        assert_eq!(regs.get_hl(), 0);
        regs.set_de(value);
        assert_eq!(regs.get_de(), value);
        regs.set_hl(value);
        assert_eq!(regs.get_hl(), value);
    }
}

#[test]
fn register_pairs_high_byte_first() {
    let mut regs = zeroed();
    regs.set_bc(0x1234);
    assert_eq!((regs.b, regs.c), (0x12, 0x34));
    regs.set_de(0xABCD);
    assert_eq!((regs.d, regs.e), (0xAB, 0xCD));
    regs.set_hl(0x8001);
    assert_eq!((regs.h, regs.l), (0x80, 0x01));
    regs.b = 0xCA;
    regs.c = 0xFE;
    assert_eq!(regs.get_bc(), 0xCAFE);
    let before = regs;
    regs.set_bc(regs.get_bc());
    assert_eq!(regs, before);
}

#[test]
fn word_bytes() {
    assert_eq!(get_msb(&0xBEEF), 0xBE);
    assert_eq!(get_lsb(&0xBEEF), 0xEF);
    assert_eq!(get_u16(0xBE, 0xEF), 0xBEEF);
    assert_eq!(get_u16(0x00, 0xFF), 0x00FF);
    assert_eq!(get_msb(&0x00FF), 0);
}
