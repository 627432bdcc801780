use gba_core::cpu::{CPUMode, RegisterState, PSR};
use gba_core::memory::{GBAMmio, Region};
use gba_core::Wrappable;

const ALL_MODES: [CPUMode; 7] = [
    CPUMode::Usr,
    CPUMode::Fiq,
    CPUMode::Irq,
    CPUMode::Svc,
    CPUMode::Abt,
    CPUMode::Und,
    CPUMode::Sys,
];

#[test]
fn it_works() {
    let result = 2 + 2;
    assert_eq!(result, 4);
}

#[test]
fn read_after_write_every_register_and_mode() {
    for reg in 0..=17usize {
        for mode in ALL_MODES {
            let st = RegisterState::new().set_reg_for_mode(reg, mode, 0xDEAD_0000 + reg as u32);
            assert_eq!(st.get_reg_for_mode(reg, mode), Some(0xDEAD_0000 + reg as u32));
        }
    }
}

#[test]
fn unbanked_registers_are_shared_by_all_modes() {
    for reg in [0usize, 3, 7, 15, 16] {
        for writer in ALL_MODES {
            let st = RegisterState::new().set_reg_for_mode(reg, writer, 42);
            for reader in ALL_MODES {
                assert_eq!(st.get_reg_for_mode(reg, reader), Some(42));
            }
        }
    }
}

#[test]
fn high_registers_banked_only_for_fiq() {
    let st = RegisterState::new().set_reg_for_mode(10, CPUMode::Fiq, 5);
    assert_eq!(st.get_reg_for_mode(10, CPUMode::Fiq), Some(5));
    assert_eq!(st.get_reg_for_mode(10, CPUMode::Usr), Some(0));
    assert_eq!(st.get_reg_for_mode(10, CPUMode::Irq), Some(0));
    let st = st.set_reg_for_mode(10, CPUMode::Svc, 9);
    assert_eq!(st.get_reg_for_mode(10, CPUMode::Usr), Some(9));
    assert_eq!(st.get_reg_for_mode(10, CPUMode::Abt), Some(9));
    assert_eq!(st.get_reg_for_mode(10, CPUMode::Fiq), Some(5));
}

#[test]
fn stack_link_and_saved_status_banked_per_mode() {
    for reg in [13usize, 14, 17] {
        let st = RegisterState::new().set_reg_for_mode(reg, CPUMode::Irq, 7);
        assert_eq!(st.get_reg_for_mode(reg, CPUMode::Irq), Some(7));
        for other in [CPUMode::Usr, CPUMode::Fiq, CPUMode::Svc, CPUMode::Abt, CPUMode::Und, CPUMode::Sys] {
            assert_eq!(st.get_reg_for_mode(reg, other), Some(0));
        }
        let st = st.set_reg_for_mode(reg, CPUMode::Usr, 11);
        assert_eq!(st.get_reg_for_mode(reg, CPUMode::Sys), Some(11));
        assert_eq!(st.get_reg_for_mode(reg, CPUMode::Irq), Some(7));
    }
}

#[test]
fn saved_status_in_user_mode_leaves_current_status() {
    let st = RegisterState::new().set_reg_for_mode(16, CPUMode::Usr, 0x1F);
    let st = st.set_reg_for_mode(17, CPUMode::Usr, 0x10);
    assert_eq!(st.get_reg_for_mode(16, CPUMode::Usr), Some(0x1F));
    assert_eq!(st.get_reg_for_mode(17, CPUMode::Sys), Some(0x10));
    assert_eq!(st.cpsr, 0x1F);
}

#[test]
fn write_leaves_other_registers() {
    let st = RegisterState::new().set_reg_for_mode(4, CPUMode::Usr, 1);
    let st2 = st.set_reg_for_mode(5, CPUMode::Usr, 2);
    assert_eq!(st2.get_reg_for_mode(4, CPUMode::Usr), Some(1));
    assert_eq!(st2.get_reg_for_mode(5, CPUMode::Usr), Some(2));
    assert_eq!(st2.arm_thumb_registers, [0, 0, 0, 0, 1, 2, 0, 0]);
}

#[test]
fn invalid_register_index_tolerated() {
    let st = RegisterState::new()
        .set_reg_for_mode(2, CPUMode::Svc, 3)
        .set_reg_for_mode(13, CPUMode::Svc, 4);
    for mode in ALL_MODES {
        assert_eq!(st.get_reg_for_mode(99, mode), None);
        assert_eq!(st.get_reg_for_mode(18, mode), None);
        assert_eq!(st.set_reg_for_mode(99, mode, 0xFFFF_FFFF), st);
        assert_eq!(st.set_reg_for_mode(18, mode, 1), st);
    }
}

#[test]
fn reset_state_is_zero() {
    let st = RegisterState::new();
    for reg in 0..=17usize {
        for mode in ALL_MODES {
            assert_eq!(st.get_reg_for_mode(reg, mode), Some(0));
        }
    }
}

#[test]
fn mode_decode_defined_patterns() {
    assert_eq!(CPUMode::from(0b10000u32), CPUMode::Usr);
    assert_eq!(CPUMode::from(0b10001u32), CPUMode::Fiq);
    assert_eq!(CPUMode::from(0b10010u32), CPUMode::Irq);
    assert_eq!(CPUMode::from(0b10011u32), CPUMode::Svc);
    assert_eq!(CPUMode::from(0b10111u32), CPUMode::Abt);
    assert_eq!(CPUMode::from(0b11011u32), CPUMode::Und);
    assert_eq!(CPUMode::from(0b11111u32), CPUMode::Sys);
    for mode in ALL_MODES {
        assert_eq!(CPUMode::from(mode.bits()), mode);
    }
}

#[test]
fn mode_decode_unknown_is_undefined() {
    for val in 0u32..32 {
        let m = CPUMode::from(val);
        if !ALL_MODES.iter().any(|x| x.bits() == val) {
            assert_eq!(m, CPUMode::Und);
        }
    }
    assert_eq!(CPUMode::from(0u32), CPUMode::Und);
    assert_eq!(CPUMode::from(0b10100u32), CPUMode::Und);
}

#[test]
fn mode_bank_indices() {
    assert_eq!(usize::from(CPUMode::Usr), 0);
    assert_eq!(usize::from(CPUMode::Sys), 0);
    assert_eq!(usize::from(CPUMode::Fiq), 1);
    assert_eq!(usize::from(CPUMode::Svc), 2);
    assert_eq!(usize::from(CPUMode::Abt), 3);
    assert_eq!(usize::from(CPUMode::Irq), 4);
    assert_eq!(usize::from(CPUMode::Und), 5);
}

#[test]
fn status_flags_all_set() {
    let w: u32 = 0xF000_00F3;
    assert!(w.n() && w.z() && w.c() && w.v());
    assert!(w.i() && w.f() && w.t() && w.is_thumb());
    assert_eq!(w.mode(), CPUMode::Svc);
}

#[test]
fn status_flags_each_alone() {
    let cases: [(u32, [bool; 7]); 7] = [
        (1 << 31, [true, false, false, false, false, false, false]),
        (1 << 30, [false, true, false, false, false, false, false]),
        (1 << 29, [false, false, true, false, false, false, false]),
        (1 << 28, [false, false, false, true, false, false, false]),
        (1 << 7, [false, false, false, false, true, false, false]),
        (1 << 6, [false, false, false, false, false, true, false]),
        (1 << 5, [false, false, false, false, false, false, true]),
    ];
    for (w, flags) in cases {
        assert_eq!([w.n(), w.z(), w.c(), w.v(), w.i(), w.f(), w.t()], flags);
        let inv = !w;
        assert_eq!([inv.n(), inv.z(), inv.c(), inv.v(), inv.i(), inv.f(), inv.t()], flags.map(|b| !b));
    }
}

#[test]
fn status_mode_ignores_flag_bits() {
    assert_eq!(0x0000_0010u32.mode(), CPUMode::Usr);
    assert_eq!(0xFFFF_FFF1u32.mode(), CPUMode::Fiq);
    assert_eq!(0x6000_00D7u32.mode(), CPUMode::Abt);
    assert_eq!(0x0000_0000u32.mode(), CPUMode::Und);
    assert_eq!(0x0000_00FFu32.mode(), CPUMode::Sys);
}

const WINDOWS: [(usize, usize, Region); 11] = [
    (0x0000_0000, 0x4000, Region::Bios),
    (0x0200_0000, 0x40000, Region::WramSlow),
    (0x0300_0000, 0x8000, Region::WramFast),
    (0x0400_0000, 0x3FF, Region::Io),
    (0x0500_0000, 0x400, Region::Palette),
    (0x0600_0000, 0x18000, Region::Vram),
    (0x0700_0000, 0x400, Region::Oam),
    (0x0800_0000, 0x8000, Region::Cartridge),
    (0x0A00_0000, 0x8000, Region::Cartridge),
    (0x0C00_0000, 0x8000, Region::Cartridge),
    (0x0E00_0000, 0x10000, Region::Sram),
];

#[test]
fn region_containment_every_window() {
    for (base, len, reg) in WINDOWS {
        assert_eq!(reg.size(), len);
        assert_eq!(GBAMmio::translate_address(base, len), Some((reg, 0, len)));
        assert_eq!(GBAMmio::translate_address(base + len, 1), None);
        assert_eq!(GBAMmio::translate_address(base + len, 0), None);
        assert_eq!(GBAMmio::translate_address(base + 1, len), None);
        assert_eq!(GBAMmio::translate_address(base + len - 1, 2), None);
        assert_eq!(GBAMmio::translate_address(base + len - 1, 1), Some((reg, len - 1, len)));
    }
}

#[test]
fn full_region_read_every_window() {
    let m = GBAMmio::new();
    for (base, len, _) in WINDOWS {
        let bytes = m.read(base, len).unwrap();
        assert_eq!(bytes.len(), len);
        assert!(bytes.iter().all(|b| *b == 0));
        assert!(m.read(base + len, 1).is_none());
        assert!(m.read(base + 4, len).is_none());
    }
}

#[test]
fn unmapped_addresses_rejected() {
    let mut m = GBAMmio::new();
    for addr in [0x0000_4000usize, 0x0100_0000, 0x0204_0000, 0x0400_03FF, 0x0E01_0000, 0x0F00_0000, 0xFFFF_FFFF] {
        assert_eq!(GBAMmio::translate_address(addr, 1), None);
        assert!(m.read(addr, 1).is_none());
        assert!(!m.write(addr, &[1]));
    }
}

#[test]
fn translate_gives_local_range() {
    assert_eq!(GBAMmio::translate_address(0x0300_0010, 4), Some((Region::WramFast, 0x10, 0x14)));
    assert_eq!(GBAMmio::translate_address(0x0A00_0100, 2), Some((Region::Cartridge, 0x100, 0x102)));
    assert_eq!(GBAMmio::translate_address(0x0600_0000, 0), Some((Region::Vram, 0, 0)));
}

#[test]
fn write_read_round_trip() {
    let mut m = GBAMmio::new();
    let data = [0xDEu8, 0xAD, 0xBE, 0xEF];
    for (base, len, _) in WINDOWS {
        let addr = base + len - 4;
        assert!(m.write(addr, &data));
        assert_eq!(m.read(addr, 4), Some(&data[..]));
        assert_eq!(m.read(addr - 1, 5), Some(&[0u8, 0xDE, 0xAD, 0xBE, 0xEF][..]));
    }
}

#[test]
fn write_crossing_region_end_changes_nothing() {
    let mut m = GBAMmio::new();
    assert!(!m.write(0x0300_7FFE, &[1, 2, 3]));
    assert_eq!(m.read(0x0300_7FFE, 2), Some(&[0u8, 0][..]));
    assert!(!m.write(0x0400_03FE, &[9, 9]));
    assert_eq!(m.read(0x0400_03FE, 1), Some(&[0u8][..]));
}

#[test]
fn cartridge_windows_alias() {
    let mut m = GBAMmio::new();
    assert!(m.write(0x0800_0000, &[1, 2, 3]));
    assert_eq!(m.read(0x0A00_0000, 3), Some(&[1u8, 2, 3][..]));
    assert_eq!(m.read(0x0C00_0000, 3), Some(&[1u8, 2, 3][..]));
    assert!(m.write(0x0C00_0101, &[7]));
    assert_eq!(m.read(0x0800_0100, 3), Some(&[0u8, 7, 0][..]));
}

#[test]
fn empty_write_succeeds_inside_region() {
    let mut m = GBAMmio::new();
    assert!(m.write(0x0500_0000, &[]));
    assert_eq!(m.read(0x0500_0000, 0), Some(&[][..]));
}

#[test]
fn wrappers_lift_values() {
    assert_eq!(5u32.wrap_some(), Some(5));
    assert_eq!(5u32.wrap_ok::<()>(), Ok(5));
    assert_eq!(5u32.wrap_err::<u8>(), Err(5));
}
