use egba_core::bios::Bios;
use egba_core::bus::{read_word, write_word, Bus};
use egba_core::cartridge::Cartridge;
use egba_core::gba::GBA;
use egba_core::psr::{OperatingMode, OperatingState};
use egba_core::rom::Rom;

fn arm_machine(code: &[u32]) -> GBA {
    let mut img = vec![0u8; 0x4000];
    for (i, w) in code.iter().enumerate() {
        img[4 * i..4 * i + 4].copy_from_slice(&w.to_le_bytes());
    }
    let bios = Bios::new(Rom::new(&img)).unwrap();
    let cart = Cartridge::new(Rom::new(&vec![0u8; 4]), None).unwrap();
    GBA::new(bios, cart)
}

fn thumb_code(code: &[u16]) -> GBA {
    let mut img = vec![0u8; 0x4000];
    for (i, h) in code.iter().enumerate() {
        img[2 * i..2 * i + 2].copy_from_slice(&h.to_le_bytes());
    }
    let bios = Bios::new(Rom::new(&img)).unwrap();
    let cart = Cartridge::new(Rom::new(&vec![0u8; 4]), None).unwrap();
    let mut gba = GBA::new(bios, cart);
    gba.cpu.cpsr.operating_state = OperatingState::THUMB;
    gba.cpu.reg[15] = 0;
    gba.cpu.refill_pipeline(&gba.memory);
    gba
}

#[test]
fn ldr_rotates_unaligned_word() {
    let mut gba = arm_machine(&[0xE591_0000]);
    write_word(&mut gba.memory, 0x0200_0000, 0x1122_3344);
    gba.cpu.reg[1] = 0x0200_0001;
    gba.step();
    assert_eq!(gba.cpu.reg[0], 0x4411_2233);
}

#[test]
fn str_byte_and_post_index_writeback() {
    // STRB r0, [r1], #4
    let mut gba = arm_machine(&[0xE4C1_0004]);
    gba.cpu.reg[0] = 0x1234_56AB;
    gba.cpu.reg[1] = 0x0200_0010;
    gba.step();
    assert_eq!(gba.memory.read_byte(0x0200_0010), 0xAB);
    assert_eq!(gba.memory.read_byte(0x0200_0011), 0);
    assert_eq!(gba.cpu.reg[1], 0x0200_0014);
}

#[test]
fn ldrsh_at_odd_address_sign_extends_byte() {
    let mut gba = arm_machine(&[0xE1D1_00F0, 0xE1D1_20B0]);
    gba.memory.write_byte(0x0200_0000, 0xFF);
    gba.memory.write_byte(0x0200_0001, 0x80);
    gba.cpu.reg[1] = 0x0200_0001;
    gba.step();
    assert_eq!(gba.cpu.reg[0], 0xFFFF_FF80);
    gba.step();
    assert_eq!(gba.cpu.reg[2], 0xFF00_0080);
}

#[test]
fn stm_then_ldm_round_trip() {
    // STMDB sp!, {r0-r3}; LDMIA sp!, {r4-r7}
    let mut gba = arm_machine(&[0xE92D_000F, 0xE8BD_00F0]);
    gba.cpu.reg[13] = 0x0300_0100;
    for r in 0..4 {
        gba.cpu.reg[r] = 0x100 + r as u32;
    }
    gba.step();
    assert_eq!(gba.cpu.reg[13], 0x0300_00F0);
    assert_eq!(read_word(&gba.memory, 0x0300_00F0), 0x100);
    assert_eq!(read_word(&gba.memory, 0x0300_00FC), 0x103);
    gba.step();
    assert_eq!(gba.cpu.reg[13], 0x0300_0100);
    assert_eq!(&gba.cpu.reg[4..8], &[0x100, 0x101, 0x102, 0x103]);
}

#[test]
fn msr_with_illegal_mode_takes_undefined() {
    // MSR CPSR_fc, #0
    let mut gba = arm_machine(&[0xE329_F000]);
    gba.step();
    assert_eq!(gba.cpu.cpsr.mode, OperatingMode::und);
    assert_eq!(gba.cpu.reg[14], 4);
    assert_eq!(gba.cpu.arm_pc(), 0x04);
}

#[test]
fn msr_flags_and_mode_change() {
    // MSR CPSR_f, #0xF0000000 ; MSR CPSR_fc, #0x1F
    let mut gba = arm_machine(&[0xE328_F20F, 0xE329_F01F]);
    gba.cpu.reg[13] = 0x55;
    gba.step();
    assert!(gba.cpu.cpsr.n_condition_bit && gba.cpu.cpsr.z_condition_bit);
    assert!(gba.cpu.cpsr.c_condition_bit && gba.cpu.cpsr.v_condition_bit);
    assert_eq!(gba.cpu.cpsr.mode, OperatingMode::svc);
    gba.step();
    assert_eq!(gba.cpu.cpsr.mode, OperatingMode::sys);
    assert_eq!(gba.cpu.reg[13], 0);
    assert_eq!(gba.cpu.banks[3].sp, 0x55);
}

#[test]
fn movs_pc_lr_restores_status() {
    let mut gba = arm_machine(&[0xE1B0_F00E]);
    gba.cpu.spsr = 0x0000_001F;
    gba.cpu.reg[14] = 0x0200_0000;
    gba.step();
    assert_eq!(gba.cpu.cpsr.mode, OperatingMode::sys);
    assert_eq!(gba.cpu.arm_pc(), 0x0200_0000);
}

#[test]
fn mrs_reads_packed_status() {
    let mut gba = arm_machine(&[0xE10F_0000]);
    gba.step();
    assert_eq!(gba.cpu.reg[0], 0xD3);
}

#[test]
fn failed_condition_is_a_no_op() {
    // MOVEQ r0, #1 with Z clear
    let mut gba = arm_machine(&[0x03A0_0001]);
    gba.step();
    assert_eq!(gba.cpu.reg[0], 0);
    assert_eq!(gba.cpu.reg[15], 12);
}

#[test]
fn bx_switches_to_narrow_state() {
    let mut gba = arm_machine(&[0xE12F_FF10]);
    gba.cpu.reg[0] = 0x0300_0001;
    gba.step();
    assert_eq!(gba.cpu.cpsr.operating_state, OperatingState::THUMB);
    assert_eq!(gba.cpu.thumb_pc(), 0x0300_0000);
}

#[test]
fn thumb_neg_sets_flags() {
    let mut gba = thumb_code(&[0x4248]);
    gba.cpu.reg[1] = 1;
    gba.step();
    assert_eq!(gba.cpu.reg[0], 0xFFFF_FFFF);
    assert!(gba.cpu.cpsr.n_condition_bit);
    assert!(!gba.cpu.cpsr.c_condition_bit);
}

#[test]
fn thumb_push_pop_through_pc() {
    // PUSH {r0, lr}; POP {r1, pc}
    let mut gba = thumb_code(&[0xB501, 0xBD02]);
    gba.cpu.reg[13] = 0x0300_0100;
    gba.cpu.reg[0] = 0x77;
    gba.cpu.reg[14] = 0x0200_0041;
    gba.step();
    assert_eq!(gba.cpu.reg[13], 0x0300_00F8);
    assert_eq!(read_word(&gba.memory, 0x0300_00F8), 0x77);
    assert_eq!(read_word(&gba.memory, 0x0300_00FC), 0x0200_0041);
    gba.step();
    assert_eq!(gba.cpu.reg[1], 0x77);
    assert_eq!(gba.cpu.reg[13], 0x0300_0100);
    assert_eq!(gba.cpu.thumb_pc(), 0x0200_0040);
}

#[test]
fn thumb_conditional_branch_and_swi() {
    // CMP r0, #0 ; BEQ +2 (skip) ; (skipped) ; SWI 0
    let mut gba = thumb_code(&[0x2800, 0xD000, 0x0000, 0xDF00]);
    gba.step();
    assert!(gba.cpu.cpsr.z_condition_bit);
    gba.step();
    assert_eq!(gba.cpu.thumb_pc(), 6);
    gba.step();
    assert_eq!(gba.cpu.cpsr.mode, OperatingMode::svc);
    assert_eq!(gba.cpu.cpsr.operating_state, OperatingState::ARM);
    assert_eq!(gba.cpu.reg[14], 8);
    assert_eq!(gba.cpu.arm_pc(), 0x08);
}

#[test]
fn post_indexed_writeback_transfer_uses_user_registers() {
    // LDRT r13, [r1], #4 in Supervisor mode loads the User-mode SP.
    let mut gba = arm_machine(&[0xE4B1_D004]);
    write_word(&mut gba.memory, 0x0200_0000, 0xABCD_0000);
    gba.cpu.reg[1] = 0x0200_0000;
    gba.cpu.reg[13] = 0x1111;
    gba.step();
    assert_eq!(gba.cpu.cpsr.mode, OperatingMode::svc);
    assert_eq!(gba.cpu.reg[13], 0x1111);
    assert_eq!(gba.cpu.banks[0].sp, 0xABCD_0000);
    assert_eq!(gba.cpu.reg[1], 0x0200_0004);
}

#[test]
fn post_indexed_writeback_store_reads_user_registers() {
    // STRT r14, [r1], #4 in Supervisor mode stores the User-mode LR.
    let mut gba = arm_machine(&[0xE4A1_E004]);
    gba.cpu.banks[0].lr = 0x5555;
    gba.cpu.reg[14] = 0x7777;
    gba.cpu.reg[1] = 0x0200_0000;
    gba.step();
    assert_eq!(read_word(&gba.memory, 0x0200_0000), 0x5555);
    assert_eq!(gba.cpu.reg[14], 0x7777);
    assert_eq!(gba.cpu.reg[1], 0x0200_0004);
}

#[test]
fn stored_pc_reads_eight_ahead() {
    // STR pc, [r1] ; STMIA r2, {pc}
    let mut gba = arm_machine(&[0xE581_F000, 0xE882_8000]);
    gba.cpu.reg[1] = 0x0200_0000;
    gba.cpu.reg[2] = 0x0200_0010;
    gba.step();
    assert_eq!(read_word(&gba.memory, 0x0200_0000), 8);
    gba.step();
    assert_eq!(read_word(&gba.memory, 0x0200_0010), 12);
}

#[test]
fn rotated_immediate_without_rotation_clears_carry() {
    // MOVS r0, #1 with C set: the carry out is bit 31 of the immediate.
    let mut gba = arm_machine(&[0xE3B0_0001]);
    gba.cpu.cpsr.c_condition_bit = true;
    gba.step();
    assert_eq!(gba.cpu.reg[0], 1);
    assert!(!gba.cpu.cpsr.c_condition_bit);
}

#[test]
fn work_ram_is_mirrored() {
    let mut gba = arm_machine(&[]);
    gba.memory.write_byte(0x0204_0003, 0x42);
    assert_eq!(gba.memory.read_byte(0x0200_0003), 0x42);
    gba.memory.write_byte(0x0300_8001, 0x24);
    assert_eq!(gba.memory.read_byte(0x03FF_8001), 0x24);
}
