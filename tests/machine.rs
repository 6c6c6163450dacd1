use egba_core::backup::{BackupBuffer, EEPROM, Flash, SRAM};
use egba_core::bios::Bios;
use egba_core::bus::{read_hword, read_word, write_word, Bus};
use egba_core::cartridge::{BackupMedia, Cartridge};
use egba_core::control::{InterruptType, PowerMode};
use egba_core::exception::Exception;
use egba_core::gba::GBA;
use egba_core::memory::{Memory, HALTCNT, IE, IF, IME, KEYCNT, KEYINPUT};
use egba_core::psr::{OperatingMode, OperatingState, ProgramStatusRegister};
use egba_core::rom::{BackupType, Rom};

fn image(size: usize, words: &[(usize, u32)]) -> Vec<u8> {
    let mut v = vec![0u8; size];
    for &(off, w) in words {
        v[off..off + 4].copy_from_slice(&w.to_le_bytes());
    }
    v
}

fn machine_with_bios(words: &[(usize, u32)]) -> GBA {
    let bios = Bios::new(Rom::new(&image(0x4000, words))).unwrap();
    let cart = Cartridge::new(Rom::new(&vec![0u8; 0x100]), None).unwrap();
    GBA::new(bios, cart)
}

fn machine_with_rom(rom: Vec<u8>) -> GBA {
    let bios = Bios::new(Rom::new(&vec![0u8; 0x4000])).unwrap();
    let cart = Cartridge::new(Rom::new(&rom), None).unwrap();
    GBA::new(bios, cart)
}

fn flags(p: &ProgramStatusRegister) -> (bool, bool, bool, bool) {
    (p.n_condition_bit, p.z_condition_bit, p.c_condition_bit, p.v_condition_bit)
}

#[test]
fn immediate_move() {
    let mut gba = machine_with_bios(&[(0, 0xE3A0_0001)]);
    assert_eq!(gba.cpu.reg[15], 8);
    let before = flags(&gba.cpu.cpsr);
    gba.step();
    assert_eq!(gba.cpu.reg[0], 1);
    assert_eq!(flags(&gba.cpu.cpsr), before);
    assert_eq!(gba.cpu.reg[15], 12);
}

#[test]
fn add_with_overflow() {
    let mut gba = machine_with_bios(&[(0, 0xE090_1002)]);
    gba.cpu.reg[0] = 0x7FFF_FFFF;
    gba.cpu.reg[2] = 1;
    gba.step();
    assert_eq!(gba.cpu.reg[1], 0x8000_0000);
    assert_eq!(flags(&gba.cpu.cpsr), (true, false, false, true));
}

#[test]
fn branch_refills_pipeline() {
    let mut gba = machine_with_rom(image(0x100, &[(0, 0xEA00_0000)]));
    gba.cpu.reg[15] = 0x0800_0000;
    gba.cpu.refill_pipeline(&gba.memory);
    assert_eq!(gba.cpu.arm_pc(), 0x0800_0000);
    assert_eq!(gba.cpu.pipeline[1], 0xEA00_0000);
    gba.step();
    assert_eq!(gba.cpu.reg[15], 0x0800_0010);
    assert_eq!(gba.cpu.arm_pc(), 0x0800_0008);
}

#[test]
fn block_load_into_pc() {
    let mut gba = machine_with_bios(&[(0, 0xE8BD_8000)]);
    gba.cpu.reg[13] = 0x0300_0000;
    write_word(&mut gba.memory, 0x0300_0000, 0x1234_5678);
    gba.step();
    assert_eq!(gba.cpu.arm_pc(), 0x1234_5678 & !3);
    assert_eq!(gba.cpu.reg[13], 0x0300_0004);
    assert_eq!(gba.cpu.pipeline[1], gba.memory.read_byte(0x1234_5678) as u32);
}

fn raise_vblank(gba: &mut GBA) {
    gba.memory.write_io_hword(IME, 1);
    gba.memory.write_io_hword(IE, 1);
    gba.memory.write_io_hword(IF, 1);
}

#[test]
fn irq_injection() {
    let mut gba = machine_with_bios(&[]);
    raise_vblank(&mut gba);
    gba.cpu.set_mode(OperatingMode::sys);
    gba.cpu.reg[15] = 0x0300_0108;
    let prior = gba.cpu.cpsr;
    gba.interrupt.step(&mut gba.cpu, &mut gba.memory, &mut gba.system);
    assert_eq!(gba.cpu.cpsr.mode, OperatingMode::irq);
    assert_eq!(gba.cpu.spsr, prior.to_bits());
    assert_eq!(gba.cpu.reg[14], 0x0300_0104);
    assert_eq!(gba.cpu.arm_pc(), 0x0000_0018);
    assert!(gba.cpu.cpsr.irq_disable_bit);
    assert_eq!(gba.cpu.cpsr.operating_state, OperatingState::ARM);
}

#[test]
fn irq_wakes_halted_machine() {
    let mut gba = machine_with_bios(&[]);
    raise_vblank(&mut gba);
    gba.cpu.set_mode(OperatingMode::sys);
    gba.cpu.reg[15] = 0x0300_0108;
    gba.system.power = PowerMode::Halt;
    gba.step();
    assert_eq!(gba.system.get_power_mode(), PowerMode::Active);
    assert_eq!(gba.cpu.cpsr.mode, OperatingMode::irq);
    assert_eq!(gba.cpu.reg[14], 0x0300_0104);
    assert_eq!(gba.cpu.reg[15], 0x20);
}

#[test]
fn no_irq_without_master_enable() {
    let mut gba = machine_with_bios(&[]);
    gba.memory.write_io_hword(IE, 1);
    gba.memory.write_io_hword(IF, 1);
    gba.system.power = PowerMode::Stop;
    let pc = gba.cpu.reg[15];
    gba.step();
    assert_eq!(gba.cpu.reg[15], pc);
    assert_eq!(gba.system.get_power_mode(), PowerMode::Stop);
}

#[test]
fn backup_detection_flash_128k() {
    let mut rom = vec![0u8; 0x400];
    rom[0x1C0..0x1C0 + 9].copy_from_slice(b"FLASH1M_V");
    let r = Rom::new(&rom);
    assert_eq!(r.get_backup_type(), BackupType::Flash128KB);
    let mut gba = machine_with_rom(rom);
    assert!(matches!(gba.memory.cartridge().backup(), Some(BackupMedia::Flash(f)) if f.data().len() == 0x20000));
    assert_eq!(gba.memory.read_byte(0x0E00_0000), 0);
    gba.memory.write_byte(0x0E00_0000, 0xAB);
    assert_eq!(gba.memory.read_byte(0x0E00_0000), 0xAB);
    assert!(matches!(gba.memory.cartridge().backup(), Some(BackupMedia::Flash(f)) if f.data()[0] == 0xAB));
}

#[test]
fn backup_detection_first_token_wins() {
    let mut rom = vec![0u8; 0x100];
    rom[0x40..0x46].copy_from_slice(b"SRAM_V");
    rom[0x80..0x88].copy_from_slice(b"EEPROM_V");
    assert_eq!(Rom::new(&rom).get_backup_type(), BackupType::Sram32KB);
    let mut misaligned = vec![0u8; 0x100];
    misaligned[0x41..0x47].copy_from_slice(b"SRAM_V");
    assert_eq!(Rom::new(&misaligned).get_backup_type(), BackupType::NoBackup);
    let mut f512 = vec![0u8; 0x100];
    f512[0x10..0x1A].copy_from_slice(b"FLASH512_V");
    assert_eq!(Rom::new(&f512).get_backup_type(), BackupType::Flash64KB);
    assert_eq!(Rom::new(&Vec::new()).get_backup_type(), BackupType::NoBackup);
}

#[test]
fn save_length_overrides_detection() {
    let mut rom = vec![0u8; 0x100];
    rom[0..9].copy_from_slice(b"FLASH1M_V");
    let cart = Cartridge::new(Rom::new(&rom), Some(vec![7u8; 0x8000])).unwrap();
    assert!(matches!(cart.backup(), Some(BackupMedia::Sram(_))));
    assert_eq!(cart.read(0x0E00_8001), 7);
    let cart = Cartridge::new(Rom::new(&rom), Some(vec![0u8; 0x2000])).unwrap();
    assert!(matches!(cart.backup(), Some(BackupMedia::Eeprom(_))));
    let cart = Cartridge::new(Rom::new(&rom), Some(vec![0u8; 123])).unwrap();
    assert!(cart.backup().is_none());
}

#[test]
fn sram_is_mirrored_every_32k() {
    let mut rom = vec![0u8; 0x100];
    rom[0..6].copy_from_slice(b"SRAM_V");
    let mut cart = Cartridge::new(Rom::new(&rom), None).unwrap();
    cart.write(0x0E00_0005, 0x5A);
    assert_eq!(cart.read(0x0E00_8005), 0x5A);
    assert_eq!(cart.read(0x0800_0000), b'S');
    cart.write(0x0800_0000, 0);
    assert_eq!(cart.read(0x0800_0000), b'S');
}

#[test]
fn eeprom_window_small_rom() {
    let mut rom = vec![0u8; 0x100];
    rom[0..8].copy_from_slice(b"EEPROM_V");
    rom[0x10] = 0x99;
    let cart = Cartridge::new(Rom::new(&rom), None).unwrap();
    assert_eq!(cart.read(0x0800_0010), 0x99);
    assert_eq!(cart.read(0x0D00_0010), 0);
    assert_eq!(cart.read(0x0800_0200), 0);
}

#[test]
fn rom_size_limits() {
    assert!(Bios::new(Rom::new(&vec![0u8; 0x3FFF])).is_err());
    assert!(Bios::new(Rom::new(&vec![0u8; 0x4000])).is_ok());
    assert!(Cartridge::new(Rom::new(&vec![0u8; 0x0200_0001]), None).is_err());
    assert!(Cartridge::new(Rom::new(&vec![0u8; 0x0200_0000]), None).is_ok());
}

#[test]
fn memory_map_regions() {
    let mut gba = machine_with_bios(&[(0, 0xDEAD_BEEF)]);
    assert_eq!(read_word(&gba.memory, 0), 0xDEAD_BEEF);
    gba.memory.write_byte(0, 1);
    assert_eq!(read_word(&gba.memory, 0), 0xDEAD_BEEF);
    for base in [0x0200_0000u32, 0x0300_0000, 0x0500_0000, 0x0600_0000, 0x0700_0000] {
        write_word(&mut gba.memory, base + 4, 0x0102_0304);
        assert_eq!(read_word(&gba.memory, base + 4), 0x0102_0304);
        assert_eq!(gba.memory.read_byte(base + 4), 0x04);
        assert_eq!(gba.memory.read_byte(base + 7), 0x01);
    }
    assert_eq!(gba.memory.read_byte(0x0100_0000), 0);
    gba.memory.write_byte(0x0100_0000, 9);
    assert_eq!(gba.memory.read_byte(0x0100_0000), 0);
}

#[test]
fn alignment_masking_of_reads() {
    let mut gba = machine_with_bios(&[]);
    write_word(&mut gba.memory, 0x0200_0010, 0xAABB_CCDD);
    for a in 0x0200_0010u32..0x0200_0014 {
        assert_eq!(read_hword(&gba.memory, a), read_hword(&gba.memory, a & !1));
        assert_eq!(read_word(&gba.memory, a), read_word(&gba.memory, a & !3));
        assert_eq!(read_word(&gba.memory, a), 0xAABB_CCDD);
    }
    assert_eq!(read_hword(&gba.memory, 0x0200_0013), 0xAABB);
}

#[test]
fn haltcnt_write_halts_or_stops() {
    let mut gba = machine_with_bios(&[]);
    gba.memory.write_byte(0x0400_0000 + HALTCNT, 0);
    gba.system.step(&gba.memory);
    assert_eq!(gba.system.get_power_mode(), PowerMode::Halt);
    let mut gba = machine_with_bios(&[]);
    gba.memory.write_byte(0x0400_0000 + HALTCNT, 0x80);
    gba.system.step(&gba.memory);
    assert_eq!(gba.system.get_power_mode(), PowerMode::Stop);
}

#[test]
fn keypad_interrupt_or_and_modes() {
    let mut gba = machine_with_bios(&[]);
    gba.memory.write_io_hword(KEYCNT, 0x4001);
    gba.update_keypad(0x3FF);
    assert_eq!(gba.memory.read_io_hword(KEYINPUT), 0x3FF);
    assert_eq!(gba.memory.read_io_hword(IF) & 0x1000, 0);
    gba.update_keypad(0x3FE);
    assert_eq!(gba.memory.read_io_hword(IF) & 0x1000, 0x1000);

    let mut gba = machine_with_bios(&[]);
    gba.memory.write_io_hword(KEYCNT, 0xC000);
    gba.update_keypad(0x3FF);
    assert_eq!(gba.memory.read_io_hword(IF) & 0x1000, 0x1000);

    let mut gba = machine_with_bios(&[]);
    gba.memory.write_io_hword(KEYCNT, 0xC003);
    gba.update_keypad(0x3FE);
    assert_eq!(gba.memory.read_io_hword(IF) & 0x1000, 0);
    gba.update_keypad(0x3FC);
    assert_eq!(gba.memory.read_io_hword(IF) & 0x1000, 0x1000);
}

#[test]
fn memory_new_is_zeroed() {
    let bios = Bios::new(Rom::new(&vec![0u8; 0x4000])).unwrap();
    let cart = Cartridge::new(Rom::new(&vec![1u8; 4]), None).unwrap();
    let mem = Memory::new(bios, cart);
    assert_eq!(mem.read_byte(0x0203_FFFF), 0);
    assert_eq!(mem.read_byte(0x0800_0003), 1);
    assert_eq!(mem.read_byte(0x0800_0004), 0);
}

#[test]
fn backup_buffers_have_their_sizes() {

    assert_eq!(EEPROM::new(1).data().len(), 512);
    assert_eq!(EEPROM::new(8).data().len(), 0x2000);
    assert_eq!(Flash::new(64).data().len(), 0x10000);
    assert_eq!(SRAM::new().data().len(), 0x8000);
    assert_eq!(<SRAM as BackupBuffer>::init(2), vec![0u8; 2048]);
}

#[test]
fn swi_enters_supervisor() {
    let mut gba = machine_with_bios(&[(0, 0xEF00_0000)]);
    gba.cpu.set_mode(OperatingMode::sys);
    let prior = gba.cpu.cpsr;
    gba.step();
    assert_eq!(gba.cpu.cpsr.mode, OperatingMode::svc);
    assert_eq!(gba.cpu.reg[14], 4);
    assert_eq!(gba.cpu.spsr, prior.to_bits());
    assert_eq!(gba.cpu.arm_pc(), 0x08);
    let _ = Exception::SoftwareInterrupt;
}

#[test]
fn interrupt_request_asserts_if_for_next_step() {
    let mut gba = machine_with_bios(&[]);
    gba.memory.write_io_hword(IME, 1);
    gba.memory.write_io_hword(IE, 1 << 3);
    gba.interrupt.interrupt_request(&mut gba.memory, InterruptType::Timer0);
    assert_eq!(gba.memory.read_io_hword(IF), 1 << 3);
    gba.interrupt.step(&mut gba.cpu, &mut gba.memory, &mut gba.system);
    assert_eq!(gba.cpu.cpsr.mode, OperatingMode::irq);
}

#[test]
fn halted_machine_ignores_pending_haltcnt() {
    let mut gba = machine_with_bios(&[]);
    gba.memory.write_byte(0x0400_0000 + HALTCNT, 0);
    gba.system.step(&gba.memory);
    assert_eq!(gba.system.get_power_mode(), PowerMode::Halt);
    gba.memory.write_byte(0x0400_0000 + HALTCNT, 0x80);
    let cpu_before = gba.cpu.reg;
    gba.step();
    assert_eq!(gba.system.get_power_mode(), PowerMode::Halt);
    assert_eq!(gba.cpu.reg, cpu_before);
}
