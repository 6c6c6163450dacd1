use egba_core::alu::{barrel_shift, is_single_operand, is_test, ShiftType};
use egba_core::arm::{arm_decode_class, ArmClass};
use egba_core::bios::Bios;
use egba_core::cartridge::Cartridge;
use egba_core::cpu::{BankedRegisters, CPU};
use egba_core::exception::Exception;
use egba_core::gba::GBA;
use egba_core::interrupt::Interrupt;
use egba_core::keypad::Keypad;
use egba_core::psr::{IllegalModeEncoding, OperatingMode, OperatingState, ProgramStatusRegister};
use egba_core::rom::Rom;
use egba_core::thumb::{thumb_decode_class, ThumbClass};

const MODES: [OperatingMode; 7] = [
    OperatingMode::usr,
    OperatingMode::fiq,
    OperatingMode::irq,
    OperatingMode::svc,
    OperatingMode::abt,
    OperatingMode::sys,
    OperatingMode::und,
];

fn psr(mode: OperatingMode, bits: u8) -> ProgramStatusRegister {
    ProgramStatusRegister {
        mode,
        operating_state: if bits & 1 != 0 { OperatingState::THUMB } else { OperatingState::ARM },
        fiq_disable_bit: bits & 2 != 0,
        irq_disable_bit: bits & 4 != 0,
        v_condition_bit: bits & 8 != 0,
        c_condition_bit: bits & 16 != 0,
        z_condition_bit: bits & 32 != 0,
        n_condition_bit: bits & 64 != 0,
    }
}

#[test]
fn psr_round_trip() {
    for m in MODES {
        for bits in 0u8..128 {
            let p = psr(m, bits);
            assert_eq!(ProgramStatusRegister::from_bits(p.to_bits()), Ok(p));
        }
    }
    let p = psr(OperatingMode::sys, 0x7F);
    assert_eq!(p.to_bits(), 0xF000_00FF);
    assert_eq!(ProgramStatusRegister::new().to_bits(), 0xD3);
}

#[test]
fn psr_rejects_illegal_mode() {
    assert_eq!(
        ProgramStatusRegister::from_bits(0xF000_0000),
        Err(IllegalModeEncoding { bits: 0 })
    );
    assert_eq!(
        ProgramStatusRegister::from_bits(0x15),
        Err(IllegalModeEncoding { bits: 0x15 })
    );
    assert_eq!(OperatingMode::from_code(0x1b), Ok(OperatingMode::und));
}

#[test]
fn restore_spsr_with_illegal_mode_changes_nothing() {
    let mut cpu = CPU::new();
    cpu.spsr = 0x0000_0001;
    let before = cpu.cpsr;
    assert!(cpu.restore_spsr().is_err());
    assert_eq!(cpu.cpsr, before);
    cpu.spsr = 0x6000_001F;
    assert!(cpu.restore_spsr().is_ok());
    assert_eq!(cpu.cpsr.mode, OperatingMode::sys);
    assert!(cpu.cpsr.z_condition_bit && cpu.cpsr.c_condition_bit);
}

#[test]
fn bank_index_mapping() {
    let expected = [0usize, 1, 2, 3, 4, 0, 5];
    for (m, e) in MODES.iter().zip(expected) {
        assert_eq!(m.current_bank_index(), e);
    }
}

#[test]
fn bank_consistency_over_mode_changes() {
    let mut cpu = CPU::new();
    cpu.reg[13] = 0x100;
    cpu.reg[14] = 0x200;
    cpu.spsr = 0x13;
    for r in 8..13 {
        cpu.reg[r] = r as u32;
    }
    cpu.set_mode(OperatingMode::irq);
    assert_eq!((cpu.reg[13], cpu.reg[14], cpu.spsr), (0, 0, 0));
    cpu.reg[13] = 0x300;
    cpu.set_mode(OperatingMode::fiq);
    assert_eq!(cpu.reg[8], 0);
    cpu.reg[8] = 0x88;
    cpu.reg[13] = 0x400;
    cpu.set_mode(OperatingMode::usr);
    assert_eq!(cpu.reg[8], 8);
    cpu.reg[13] = 0x500;
    cpu.set_mode(OperatingMode::sys);
    assert_eq!(cpu.reg[13], 0x500);
    cpu.set_mode(OperatingMode::svc);
    assert_eq!((cpu.reg[13], cpu.reg[14], cpu.spsr), (0x100, 0x200, 0x13));
    cpu.set_mode(OperatingMode::irq);
    assert_eq!(cpu.reg[13], 0x300);
    cpu.set_mode(OperatingMode::fiq);
    assert_eq!((cpu.reg[8], cpu.reg[13]), (0x88, 0x400));
    cpu.set_mode(OperatingMode::abt);
    assert_eq!((cpu.reg[8], cpu.reg[13]), (8, 0));
    assert_eq!(cpu.banks[1], BankedRegisters { sp: 0x400, lr: 0, spsr: 0 });
}

#[test]
fn exception_entry_invariant() {
    for (e, mode, vector) in [
        (Exception::FIQ, OperatingMode::fiq, 0x1C),
        (Exception::Reset, OperatingMode::svc, 0x00),
        (Exception::Undefined, OperatingMode::und, 0x04),
        (Exception::DataAbort, OperatingMode::abt, 0x10),
        (Exception::PrefetchAbort, OperatingMode::abt, 0x0C),
        (Exception::IRQ, OperatingMode::irq, 0x18),
    ] {
        let mut cpu = CPU::new();
        cpu.set_mode(OperatingMode::usr);
        cpu.cpsr.operating_state = OperatingState::THUMB;
        cpu.cpsr.fiq_disable_bit = false;
        cpu.cpsr.irq_disable_bit = false;
        cpu.cpsr.n_condition_bit = true;
        let before = cpu.cpsr;
        cpu.enter_exception(e, 0x1234);
        assert_eq!(cpu.spsr, before.to_bits());
        assert_eq!(cpu.reg[14], 0x1234);
        assert_eq!(cpu.cpsr.mode, mode);
        assert_eq!(cpu.cpsr.operating_state, OperatingState::ARM);
        assert!(cpu.cpsr.irq_disable_bit);
        assert_eq!(cpu.cpsr.fiq_disable_bit, e == Exception::FIQ || e == Exception::Reset);
        assert!(cpu.cpsr.n_condition_bit);
        assert_eq!(cpu.reg[15], vector);
        assert_eq!(e.get_vector_address(), vector);
        assert_eq!(e.get_mode(), mode);
    }
}

fn table(c: u32, n: bool, z: bool, cf: bool, v: bool) -> bool {
    match c {
        0 => z,
        1 => !z,
        2 => cf,
        3 => !cf,
        4 => n,
        5 => !n,
        6 => v,
        7 => !v,
        8 => cf && !z,
        9 => !cf || z,
        10 => n == v,
        11 => n != v,
        12 => !z && n == v,
        13 => z || n != v,
        14 => true,
        _ => false,
    }
}

#[test]
fn condition_table_complete() {
    for c in 0u32..16 {
        for f in 0u8..16 {
            let mut cpu = CPU::new();
            cpu.cpsr.n_condition_bit = f & 8 != 0;
            cpu.cpsr.z_condition_bit = f & 4 != 0;
            cpu.cpsr.c_condition_bit = f & 2 != 0;
            cpu.cpsr.v_condition_bit = f & 1 != 0;
            let want = table(c, f & 8 != 0, f & 4 != 0, f & 2 != 0, f & 1 != 0);
            assert_eq!(cpu.condition_check(c), want, "cond {c} flags {f}");
        }
    }
}

#[test]
fn shifter_zero_amount_is_32_for_lsr_asr() {
    let mut cpu = CPU::new();
    assert_eq!(cpu.LSR(0x8000_0001, 0, true), 0);
    assert!(cpu.cpsr.c_condition_bit);
    cpu.cpsr.c_condition_bit = false;
    assert_eq!(cpu.ASR(0x8000_0000, 0, true), 0xFFFF_FFFF);
    assert!(cpu.cpsr.c_condition_bit);
    assert_eq!(cpu.ASR(0x4000_0000, 0, true), 0);
    assert!(!cpu.cpsr.c_condition_bit);
    assert_eq!(barrel_shift(ShiftType::LSR, 0x8000_0000, 0, false), barrel_shift(ShiftType::LSR, 0x8000_0000, 32, false));
}

#[test]
fn shifter_edge_cases() {
    assert_eq!(barrel_shift(ShiftType::LSL, 0x1234, 0, true), (0x1234, true));
    assert_eq!(barrel_shift(ShiftType::LSL, 0x8000_0001, 1, false), (2, true));
    assert_eq!(barrel_shift(ShiftType::LSL, 0x0000_0001, 32, false), (0, true));
    assert_eq!(barrel_shift(ShiftType::LSL, 0xFFFF_FFFF, 33, true), (0, false));
    assert_eq!(barrel_shift(ShiftType::LSR, 0x0000_0003, 1, false), (1, true));
    assert_eq!(barrel_shift(ShiftType::LSR, 0xFFFF_FFFF, 40, true), (0, false));
    assert_eq!(barrel_shift(ShiftType::ASR, 0x8000_0000, 4, false), (0xF800_0000, false));
    assert_eq!(barrel_shift(ShiftType::ASR, 0x8000_0000, 200, false), (0xFFFF_FFFF, true));
    assert_eq!(barrel_shift(ShiftType::ROR, 0x0000_0003, 0, true), (0x8000_0001, true));
    assert_eq!(barrel_shift(ShiftType::ROR, 0x0000_0002, 0, false), (1, false));
    assert_eq!(barrel_shift(ShiftType::ROR, 0x0000_00F1, 4, false), (0x1000_000F, false));
    assert_eq!(barrel_shift(ShiftType::ROR, 0x8000_0001, 32, false), (0x8000_0001, true));
    assert_eq!(barrel_shift(ShiftType::ROR, 0x0000_0001, 33, false), (0x8000_0000, true));
    assert_eq!(ShiftType::from_bits(2), ShiftType::ASR);
    assert_eq!(ShiftType::ROR.name(), "ROR");
}

#[test]
fn alu_flags() {
    let mut cpu = CPU::new();
    assert_eq!(cpu.ADD(0xFFFF_FFFF, 1, true), 0);
    assert!(cpu.cpsr.c_condition_bit && !cpu.cpsr.v_condition_bit);
    assert_eq!(cpu.SUB(5, 3, true), 2);
    assert!(cpu.cpsr.c_condition_bit && !cpu.cpsr.v_condition_bit);
    assert_eq!(cpu.SUB(3, 5, true), 0xFFFF_FFFE);
    assert!(!cpu.cpsr.c_condition_bit);
    assert_eq!(cpu.SUB(0x8000_0000, 1, true), 0x7FFF_FFFF);
    assert!(cpu.cpsr.v_condition_bit && cpu.cpsr.c_condition_bit);
    assert_eq!(cpu.ADC(0x7FFF_FFFF, 0, true, true), 0x8000_0000);
    assert!(cpu.cpsr.v_condition_bit && !cpu.cpsr.c_condition_bit);
    assert_eq!(cpu.SBC(5, 5, true, false), 0xFFFF_FFFF);
    assert!(!cpu.cpsr.c_condition_bit);
    assert_eq!(cpu.SBC(5, 5, true, true), 0);
    assert!(cpu.cpsr.c_condition_bit && !cpu.cpsr.v_condition_bit);
    let flags = cpu.cpsr;
    assert_eq!(cpu.ADD(1, 2, false), 3);
    assert_eq!(cpu.cpsr, flags);
    assert_eq!(cpu.BIC(0xFF, 0x0F), 0xF0);
    assert_eq!(cpu.MVN(0), 0xFFFF_FFFF);
    assert_eq!(cpu.EOR(0xF0, 0xFF), 0x0F);
    assert!(is_test(10) && !is_test(12));
    assert!(is_single_operand(13) && is_single_operand(15) && !is_single_operand(14));
    cpu.set_NZ_64(0x8000_0000_0000_0000);
    assert!(cpu.cpsr.n_condition_bit && !cpu.cpsr.z_condition_bit);
    cpu.set_NZ(0);
    assert!(cpu.cpsr.z_condition_bit && !cpu.cpsr.n_condition_bit);
}

#[test]
fn pipeline_alignment_after_flush() {
    let bios = Bios::new(Rom::new(&vec![0u8; 0x4000])).unwrap();
    let cart = Cartridge::new(Rom::new(&vec![0u8; 4]), None).unwrap();
    let mut gba = GBA::new(bios, cart);
    gba.cpu.reg[15] = 0x0300_0003;
    gba.cpu.flush_pipeline(&gba.memory);
    assert_eq!(gba.cpu.reg[15] % 4, 0);
    assert_eq!(gba.cpu.reg[15], 0x0300_0004);
    gba.cpu.cpsr.operating_state = OperatingState::THUMB;
    gba.cpu.reg[15] = 0x0300_0007;
    gba.cpu.flush_pipeline(&gba.memory);
    assert_eq!(gba.cpu.reg[15], 0x0300_0008);
}

#[test]
fn decoder_priorities() {
    assert_eq!(arm_decode_class(0xE12F_FF10), ArmClass::BranchExchange);
    assert_eq!(arm_decode_class(0xE3A0_0001), ArmClass::DataProcessing);
    assert_eq!(arm_decode_class(0xE10F_0000), ArmClass::StatusRead);
    assert_eq!(arm_decode_class(0xE129_F000), ArmClass::StatusWrite);
    assert_eq!(arm_decode_class(0xE000_0291), ArmClass::Multiply);
    assert_eq!(arm_decode_class(0xE081_0392), ArmClass::MultiplyLong);
    assert_eq!(arm_decode_class(0xE100_0091), ArmClass::Swap);
    assert_eq!(arm_decode_class(0xE1D0_00B0), ArmClass::HalfwordTransfer);
    assert_eq!(arm_decode_class(0xE8BD_8000), ArmClass::BlockTransfer);
    assert_eq!(arm_decode_class(0xE92D_4000), ArmClass::BlockTransfer);
    assert_eq!(arm_decode_class(0xE591_0000), ArmClass::SingleTransfer);
    assert_eq!(arm_decode_class(0xE600_0010), ArmClass::Undefined);
    assert_eq!(arm_decode_class(0xEF00_0000), ArmClass::SoftwareInterrupt);
    assert_eq!(arm_decode_class(0xEE00_0000), ArmClass::Undefined);
    assert_eq!(thumb_decode_class(0x1888), ThumbClass::AddSubtract);
    assert_eq!(thumb_decode_class(0xDF00), ThumbClass::SoftwareInterrupt);
    assert_eq!(thumb_decode_class(0xD0FE), ThumbClass::ConditionalBranch);
    assert_eq!(thumb_decode_class(0xB500), ThumbClass::PushPop);
    assert_eq!(thumb_decode_class(0xE800), ThumbClass::Undefined);
}

fn thumb_machine(code: &[u16]) -> GBA {
    let mut img = vec![0u8; 0x4000];
    for (i, h) in code.iter().enumerate() {
        img[2 * i..2 * i + 2].copy_from_slice(&h.to_le_bytes());
    }
    let bios = Bios::new(Rom::new(&img)).unwrap();
    let cart = Cartridge::new(Rom::new(&vec![0u8; 4]), None).unwrap();
    let mut gba = GBA::new(bios, cart);
    gba.cpu.cpsr.operating_state = OperatingState::THUMB;
    gba.cpu.reg[15] = 0;
    gba.cpu.refill_pipeline(&gba.memory);
    gba
}

#[test]
fn thumb_move_add_and_long_branch() {
    let mut gba = thumb_machine(&[0x2005, 0x3003, 0xF000, 0xF802]);
    gba.step();
    assert_eq!(gba.cpu.reg[0], 5);
    gba.step();
    assert_eq!(gba.cpu.reg[0], 8);
    gba.step();
    gba.step();
    assert_eq!(gba.cpu.reg[14], 0x0000_0009);
    assert_eq!(gba.cpu.thumb_pc(), 0x0000_000C);
}

#[test]
fn multiply_long_signed_and_unsigned() {
    let bios_words = [0xE0C1_0392u32, 0xE081_0392];
    let mut img = vec![0u8; 0x4000];
    for (i, w) in bios_words.iter().enumerate() {
        img[4 * i..4 * i + 4].copy_from_slice(&w.to_le_bytes());
    }
    let bios = Bios::new(Rom::new(&img)).unwrap();
    let cart = Cartridge::new(Rom::new(&vec![0u8; 4]), None).unwrap();
    let mut gba = GBA::new(bios, cart);
    gba.cpu.reg[2] = 0xFFFF_FFFF;
    gba.cpu.reg[3] = 2;
    gba.step();
    assert_eq!((gba.cpu.reg[1], gba.cpu.reg[0]), (0xFFFF_FFFF, 0xFFFF_FFFE));
    gba.step();
    assert_eq!((gba.cpu.reg[1], gba.cpu.reg[0]), (1, 0xFFFF_FFFE));
}

#[test]
fn keypad_and_interrupt_bits() {
    let mut k = Keypad::default();
    assert_eq!(k.to_bits(), 0x3FF);
    k.a = false;
    k.l = false;
    assert_eq!(k.to_bits(), 0x1FE);
    let i = Interrupt {
        VBlank: true,
        HBlank: false,
        VCounter: false,
        Timer0: false,
        Timer1: false,
        Timer2: false,
        Timer3: false,
        Serial: false,
        DMA0: false,
        DMA1: false,
        DMA2: false,
        DMA3: false,
        Keypad: true,
        Cartridge: true,
    };
    assert_eq!(i.to_bits(), 0x3001);
}

#[test]
fn register_read_write() {
    let mut cpu = CPU::new();
    cpu.write(3, 0xCAFE);
    assert_eq!(cpu.read(3), 0xCAFE);
    assert_eq!(cpu.read(4), 0);
    assert_eq!(OperatingMode::irq.name(), "IRQ Mode");
}
