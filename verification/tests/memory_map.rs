use gb_core::addr::Addr as PlainAddr;
use gb_core::error::Error;
use gb_core::mapper::mbc1::{Mbc1, Mode};
use gb_core::mapper::{from_rom, Mapper};
use gb_core::memory::{Addr, Location, Memory};
use gb_core::rom::{RamSize, Rom, RomSize, Type};

fn image() -> Vec<u8> {
    let mut data = vec![0u8; 0x8000];
    for (i, byte) in data.iter_mut().enumerate() {
        *byte = (i % 251) as u8;
    }
    data[0x0147] = 0x01;
    data[0x0148] = 0x00;
    data[0x0149] = 0x02;
    data
}

fn memory() -> Memory<Mbc1> {
    Memory::new(Rom { data: image() }).unwrap()
}

#[test]
fn address_arithmetic_wraps() {
    assert_eq!(Addr(0xFFFF) + 1, Addr(0x0000));
    assert_eq!(Addr(0x0000) - 1, Addr(0xFFFF));
    assert_eq!(Addr(0x1234) + 0x0100, Addr(0x1334));
    assert_eq!(Addr(0x0010) - 0x0020, Addr(0xFFF0));
    assert_eq!(*Addr(0x4321), 0x4321);
    assert_eq!(Addr::from(0xC000), Addr(0xC000));
    assert_eq!(Addr::new(0x1_0005), Addr(0x0005));
    assert_eq!(Addr::new(0xFFFF_FFFF), Addr(0xFFFF));
    assert_eq!(PlainAddr(7), Addr(7));
}

#[test]
fn address_range_is_half_open() {
    assert!(Addr(0x4000).in_range(0x4000, 0x8000));
    assert!(Addr(0x7FFF).in_range(0x4000, 0x8000));
    assert!(!Addr(0x8000).in_range(0x4000, 0x8000));
    assert!(!Addr(0x3FFF).in_range(0x4000, 0x8000));
}

#[test]
fn every_region_boundary() {
    assert_eq!(Location::from_addr(0xFFFF), Location::InterruptEnable);
    assert_eq!(Location::from_addr(0xFFFE), Location::InternalRam128(0x7E));
    assert_eq!(Location::from_addr(0xFF80), Location::InternalRam128(0));
    assert_eq!(Location::from_addr(0xFF7F), Location::Empty);
    assert_eq!(Location::from_addr(0xFF4C), Location::Empty);
    assert_eq!(Location::from_addr(0xFF4B), Location::IOStub);
    assert_eq!(Location::from_addr(0xFF02), Location::IOStub);
    assert_eq!(Location::from_addr(0xFF01), Location::SerialPort);
    assert_eq!(Location::from_addr(0xFF00), Location::IOStub);
    assert_eq!(Location::from_addr(0xFEFF), Location::Empty);
    assert_eq!(Location::from_addr(0xFEA0), Location::Empty);
    assert_eq!(Location::from_addr(0xFE9F), Location::OAM(0x9F));
    assert_eq!(Location::from_addr(0xFE00), Location::OAM(0));
    assert_eq!(Location::from_addr(0xFDFF), Location::InternalRam8k(0x1DFF));
    assert_eq!(Location::from_addr(0xE000), Location::InternalRam8k(0));
    assert_eq!(Location::from_addr(0xDFFF), Location::InternalRam8k(0x1FFF));
    assert_eq!(Location::from_addr(0xC000), Location::InternalRam8k(0));
    assert_eq!(Location::from_addr(0xBFFF), Location::SwitchableRam);
    assert_eq!(Location::from_addr(0xA000), Location::SwitchableRam);
    assert_eq!(Location::from_addr(0x9FFF), Location::VRAM(0x1FFF));
    assert_eq!(Location::from_addr(0x8000), Location::VRAM(0));
    assert_eq!(Location::from_addr(0x7FFF), Location::SwitchableRom);
    assert_eq!(Location::from_addr(0x4000), Location::SwitchableRom);
    assert_eq!(Location::from_addr(0x3FFF), Location::ROM0(0x3FFF));
    assert_eq!(Location::from_addr(0x0000), Location::ROM0(0));
}

#[test]
fn rom_is_read_and_not_written() {
    let mut mem = memory();
    assert_eq!(mem.read_u8(Addr(0x0000)), 0);
    assert_eq!(mem.read_u8(Addr(0x0105)), (0x0105 % 251) as u8);
    assert_eq!(mem.read_u8(Addr(0x3FFF)), (0x3FFF % 251) as u8);
    assert_eq!(mem.read_u8(Addr(0x4000)), (0x4000 % 251) as u8);
    assert_eq!(mem.read_u8(Addr(0x7FFF)), (0x7FFF % 251) as u8);
    assert_eq!(mem.write_u8(Addr(0x0105), 0xEE), Ok(()));
    assert_eq!(mem.write_u8(Addr(0x2000), 0x02), Ok(()));
    assert_eq!(mem.read_u8(Addr(0x0105)), (0x0105 % 251) as u8);
}

#[test]
fn work_ram_and_echo_are_the_same_bytes() {
    let mut mem = memory();
    assert_eq!(mem.write_u8(Addr(0xC010), 0x5A), Ok(()));
    assert_eq!(mem.read_u8(Addr(0xE010)), 0x5A);
    assert_eq!(mem.read_u8(Addr(0xC010)), 0x5A);
    assert_eq!(mem.write_u8(Addr(0xE010), 0xA5), Ok(()));
    assert_eq!(mem.read_u8(Addr(0xC010)), 0xA5);
    assert_eq!(mem.write_u8(Addr(0xFDFF), 0x77), Ok(()));
    assert_eq!(mem.read_u8(Addr(0xDDFF)), 0x77);
    assert_eq!(mem.write_u8(Addr(0xDFFF), 0x11), Ok(()));
    assert_eq!(mem.read_u8(Addr(0xDFFF)), 0x11);
    assert_eq!(mem.read_u8(Addr(0xC000)), 0x00);
}

#[test]
fn high_ram_and_interrupt_enable_hold_what_is_written() {
    let mut mem = memory();
    assert_eq!(mem.write_u8(Addr(0xFF80), 0x01), Ok(()));
    assert_eq!(mem.write_u8(Addr(0xFFFE), 0x02), Ok(()));
    assert_eq!(mem.write_u8(Addr(0xFFFF), 0x1F), Ok(()));
    assert_eq!(mem.read_u8(Addr(0xFF80)), 0x01);
    assert_eq!(mem.read_u8(Addr(0xFFFE)), 0x02);
    assert_eq!(mem.read_u8(Addr(0xFFFF)), 0x1F);
}

#[test]
fn stubs_read_zero_and_discard_writes() {
    let mut mem = memory();
    for addr in [0x8000u16, 0x9FFF, 0xFE00, 0xFE9F, 0xFEA0, 0xFEFF, 0xFF00, 0xFF4B, 0xFF4C, 0xFF7F, 0xA000, 0xBFFF] {
        assert_eq!(mem.write_u8(Addr(addr), 0xAB), Ok(()));
        assert_eq!(mem.read_u8(Addr(addr)), 0);
    }
    assert_eq!(mem.read_u8(Addr(0xFF01)), 0);
}

#[test]
fn words_are_little_endian() {
    let mut mem = memory();
    assert_eq!(mem.write_u16(Addr(0xC100), 0x1234), Ok(()));
    assert_eq!(mem.read_u8(Addr(0xC100)), 0x34);
    assert_eq!(mem.read_u8(Addr(0xC101)), 0x12);
    assert_eq!(mem.read_u16(Addr(0xC100)), 0x1234);
    assert_eq!(mem.write_u8(Addr(0xC200), 0xCD), Ok(()));
    assert_eq!(mem.write_u8(Addr(0xC201), 0xAB), Ok(()));
    assert_eq!(mem.read_u16(Addr(0xC200)), 0xABCD);
}

#[test]
fn a_word_may_straddle_two_regions() {
    let mut mem = memory();
    // High RAM ends at 0xFFFE; the interrupt-enable register follows.
    assert_eq!(mem.write_u16(Addr(0xFFFE), 0xBEEF), Ok(()));
    assert_eq!(mem.read_u8(Addr(0xFFFE)), 0xEF);
    assert_eq!(mem.read_u8(Addr(0xFFFF)), 0xBE);
    assert_eq!(mem.read_u16(Addr(0xFFFE)), 0xBEEF);
    // From the last address the word wraps to the first.
    assert_eq!(mem.read_u16(Addr(0xFFFF)), 0x00BE);
    // Unusable range, then high RAM.
    assert_eq!(mem.write_u16(Addr(0xFF7F), 0x1234), Ok(()));
    assert_eq!(mem.read_u16(Addr(0xFF7F)), 0x1200);
}

#[test]
fn a_failed_first_byte_stops_the_word() {
    let mut mem = memory();
    assert_eq!(
        mem.write_u16(Addr(0x4000), 0x1234),
        Err(Error::MapperWrite { addr: 0x4000, value: 0x34 })
    );
    // The low byte goes to the fixed bank, the high byte to the controller.
    assert_eq!(
        mem.write_u16(Addr(0x3FFF), 0x1234),
        Err(Error::MapperWrite { addr: 0x4000, value: 0x12 })
    );
    assert_eq!(mem.write_u16(Addr(0xFFFF), 0x1234), Ok(()));
    assert_eq!(mem.read_u8(Addr(0xFFFF)), 0x34);
}

#[test]
fn serial_port_collects_a_line() {
    let mut mem = memory();
    assert!(mem.serial_line().is_empty());
    assert_eq!(mem.take_flushed_line(), None);
    for byte in "Passed".bytes() {
        assert_eq!(mem.write_u8(Addr(0xFF01), byte), Ok(()));
    }
    assert_eq!(mem.serial_line().as_slice(), "Passed".as_bytes());
    assert_eq!(mem.take_flushed_line(), None);
    assert_eq!(mem.write_u8(Addr(0xFF01), 0x0A), Ok(()));
    assert!(mem.serial_line().is_empty());
    assert_eq!(mem.take_flushed_line(), Some("Passed".as_bytes().to_vec()));
    assert_eq!(mem.take_flushed_line(), None);
    assert_eq!(mem.write_u8(Addr(0xFF01), 0x0A), Ok(()));
    assert_eq!(mem.take_flushed_line(), Some(Vec::new()));
}

#[test]
fn size_is_the_highest_address() {
    assert_eq!(memory().size(), 0xFFFF);
}

#[test]
fn header_codes() {
    let rom = Rom { data: image() };
    assert_eq!(rom.typ(), Type::RomMbc1);
    assert_eq!(rom.rom_size(), RomSize::Kb32);
    assert_eq!(rom.ram_size(), RamSize::Kb8);
    assert_eq!(rom.code_at(0x0147), Some(0x01));

    let mut data = image();
    data[0x0147] = 0x04;
    data[0x0148] = 0x08;
    data[0x0149] = 0x06;
    let rom = Rom { data };
    assert_eq!(rom.typ(), Type::UNKNOWN);
    assert_eq!(rom.rom_size(), RomSize::UNKNOWN);
    assert_eq!(rom.ram_size(), RamSize::UNKNOWN);

    let short = Rom { data: vec![0x01; 0x0147] };
    assert_eq!(short.typ(), Type::UNKNOWN);
    assert_eq!(short.rom_size(), RomSize::UNKNOWN);
    assert_eq!(short.ram_size(), RamSize::UNKNOWN);
    assert_eq!(short.code_at(0x0147), None);
}

#[test]
fn every_header_code_table_entry() {
    let types = [
        (0x00, Type::Rom),
        (0x01, Type::RomMbc1),
        (0x02, Type::RomMbc1_Ram),
        (0x03, Type::RomMbc1RamBatt),
        (0x05, Type::RomMbc2),
        (0x06, Type::RomMbc2Batt),
        (0x08, Type::RomRam),
        (0x09, Type::RomRamBatt),
        (0x0B, Type::RomMmm01),
        (0x0C, Type::RomMmm01Sram),
        (0x0D, Type::RomMmm01SramBatt),
        (0x12, Type::RomMbc3Ram),
        (0x13, Type::RomMbc3RamBatt),
        (0x19, Type::RomMbc5),
        (0x1A, Type::RomMbc5Ram),
        (0x1B, Type::RomMbc5RamBatt),
        (0x1C, Type::RomMbc5Rumble),
        (0x1D, Type::RomMbc5RumbleSram),
        (0x1E, Type::RomMbc5RumbleSramBatt),
        (0x1F, Type::PocketCamera),
        (0xFD, Type::BandaiTAMA5),
        (0xFE, Type::HudsonHuC3),
    ];
    let mut known = 0;
    for code in 0..=255u8 {
        let expected = types.iter().find(|(c, _)| *c == code).map(|(_, t)| *t);
        assert_eq!(Type::try_from(code), expected);
        if expected.is_some() {
            known += 1;
        }
    }
    assert_eq!(known, 22);

    let rom_sizes = [
        (0x00, RomSize::Kb32),
        (0x01, RomSize::Kb64),
        (0x02, RomSize::Kb128),
        (0x03, RomSize::Kb256),
        (0x04, RomSize::Kb512),
        (0x05, RomSize::Mb1),
        (0x06, RomSize::Mb2),
        (0x07, RomSize::Mb4),
        (0x52, RomSize::Mb1_1),
        (0x53, RomSize::Mb1_2),
        (0x54, RomSize::Mb1_5),
    ];
    for code in 0..=255u8 {
        let expected = rom_sizes.iter().find(|(c, _)| *c == code).map(|(_, s)| *s);
        assert_eq!(RomSize::try_from(code), expected);
    }

    let ram_sizes = [
        (0x00, RamSize::NoRam),
        (0x01, RamSize::Kb2),
        (0x02, RamSize::Kb8),
        (0x03, RamSize::Kb32),
        (0x04, RamSize::Kb128),
        (0x05, RamSize::Kb64),
    ];
    for code in 0..=255u8 {
        let expected = ram_sizes.iter().find(|(c, _)| *c == code).map(|(_, s)| *s);
        assert_eq!(RamSize::try_from(code), expected);
    }
}

#[test]
fn header_enums_order_by_code() {
    assert!(Type::Rom < Type::RomMbc1);
    assert!(Type::HudsonHuC3 < Type::UNKNOWN);
    assert!(RomSize::Mb4 < RomSize::Mb1_1);
    assert!(RamSize::Kb128 < RamSize::Kb64);
}

#[test]
fn only_the_bank_switching_controller_is_implemented() {
    let rom = Rom { data: image() };
    let mapper = from_rom(&rom).unwrap();
    assert_eq!(mapper.mode, Mode::Mode16MbitRom8KbyteRam);
    assert_eq!(mapper.rom_bank, 1);

    let mut data = image();
    data[0x0147] = 0x00;
    assert_eq!(
        from_rom(&Rom { data: data.clone() }).err(),
        Some(Error::UnsupportedCartridge { addr: 0x0147, code: Some(0x00) })
    );
    assert_eq!(
        Memory::new(Rom { data }).err(),
        Some(Error::UnsupportedCartridge { addr: 0x0147, code: Some(0x00) })
    );

    let mut data = image();
    data[0x0147] = 0x77;
    assert_eq!(
        from_rom(&Rom { data }).err(),
        Some(Error::UnsupportedCartridge { addr: 0x0147, code: Some(0x77) })
    );
    assert_eq!(
        from_rom(&Rom { data: Vec::new() }).err(),
        Some(Error::UnsupportedCartridge { addr: 0x0147, code: None })
    );
}

#[test]
fn bank_zero_selects_bank_one() {
    let rom = image();
    let mut with_zero = Mbc1::new();
    let mut with_one = Mbc1::new();
    assert_eq!(with_zero.write_u8(&rom, Addr(0x2000), 0x00), Ok(()));
    assert_eq!(with_one.write_u8(&rom, Addr(0x2000), 0x01), Ok(()));
    assert_eq!(with_zero.rom_bank, 1);
    assert_eq!(with_one.rom_bank, 1);
    assert_eq!(with_zero.mode, with_one.mode);
    for addr in [0x4000u16, 0x4001, 0x5ABC, 0x7FFF, 0xA000, 0xBFFF] {
        assert_eq!(with_zero.read_u8(&rom, Addr(addr)), with_one.read_u8(&rom, Addr(addr)));
    }
}

#[test]
fn bank_number_is_masked_to_two_bits() {
    let rom = image();
    let mut mapper = Mbc1::new();
    assert_eq!(mapper.write_u8(&rom, Addr(0x3FFF), 0x02), Ok(()));
    assert_eq!(mapper.rom_bank, 2);
    assert_eq!(mapper.write_u8(&rom, Addr(0x2000), 0xFF), Ok(()));
    assert_eq!(mapper.rom_bank, 3);
    assert_eq!(mapper.write_u8(&rom, Addr(0x2000), 0xFC), Ok(()));
    assert_eq!(mapper.rom_bank, 1);
    mapper.select_rom_bank(0x06);
    assert_eq!(mapper.rom_bank, 2);
}

#[test]
fn mode_register_takes_the_lowest_bit() {
    let rom = image();
    let mut mapper = Mbc1::new();
    assert_eq!(mapper.write_u8(&rom, Addr(0x6000), 0xFE), Ok(()));
    assert_eq!(mapper.mode, Mode::Mode16MbitRom8KbyteRam);
    assert_eq!(mapper.write_u8(&rom, Addr(0x7FFF), 0x01), Ok(()));
    assert_eq!(mapper.mode, Mode::Mode4MbitRom32KbyteRam);
    mapper.select_memory_model(0x02);
    assert_eq!(mapper.mode, Mode::Mode16MbitRom8KbyteRam);
    mapper.select_memory_model(0x03);
    assert_eq!(mapper.mode, Mode::Mode4MbitRom32KbyteRam);
}

#[test]
fn unrecognised_controller_writes_fail_and_change_nothing() {
    let rom = image();
    let mut mapper = Mbc1::new();
    assert_eq!(
        mapper.write_u8(&rom, Addr(0x4000), 0x01),
        Err(Error::MapperWrite { addr: 0x4000, value: 0x01 })
    );
    assert_eq!(
        mapper.write_u8(&rom, Addr(0x0000), 0x0A),
        Err(Error::MapperWrite { addr: 0x0000, value: 0x0A })
    );
    assert_eq!(mapper.rom_bank, 1);
    assert_eq!(mapper.mode, Mode::Mode16MbitRom8KbyteRam);

    assert_eq!(mapper.write_u8(&rom, Addr(0x6000), 0x01), Ok(()));
    assert_eq!(
        mapper.write_u8(&rom, Addr(0x2000), 0x02),
        Err(Error::MapperWrite { addr: 0x2000, value: 0x02 })
    );
    assert_eq!(
        mapper.write_u8(&rom, Addr(0x6000), 0x00),
        Err(Error::MapperWrite { addr: 0x6000, value: 0x00 })
    );
    assert_eq!(mapper.rom_bank, 1);
    assert_eq!(mapper.mode, Mode::Mode4MbitRom32KbyteRam);
    // Cartridge RAM has no backing store: a write to it is discarded in either mode.
    assert_eq!(mapper.write_u8(&rom, Addr(0xA000), 0x55), Ok(()));
    assert_eq!(mapper.read_u8(&rom, Addr(0xA000)), 0);
}

#[test]
fn controller_writes_through_the_address_space() {
    let mut mem = memory();
    assert_eq!(mem.write_u8(Addr(0x6000), 0x00), Ok(()));
    assert_eq!(
        mem.write_u8(Addr(0x5000), 0x01),
        Err(Error::MapperWrite { addr: 0x5000, value: 0x01 })
    );
    assert_eq!(mem.write_u8(Addr(0x6000), 0x01), Ok(()));
    assert_eq!(
        mem.write_u8(Addr(0x6000), 0x00),
        Err(Error::MapperWrite { addr: 0x6000, value: 0x00 })
    );
    assert_eq!(mem.read_u8(Addr(0x4000)), (0x4000 % 251) as u8);
}

#[test]
fn address_space_over_a_given_controller() {
    let mut mapper = Mbc1::new();
    mapper.select_rom_bank(3);
    // The header of this image asks for no controller at all.
    let mut data = image();
    data[0x0147] = 0x00;
    let mut mem = Memory::with_mapper(Rom { data }, mapper);
    assert_eq!(mem.read_u8(Addr(0x4001)), (0x4001 % 251) as u8);
    assert_eq!(mem.read_u8(Addr(0xC000)), 0);
    assert_eq!(mem.write_u8(Addr(0x6000), 0x01), Ok(()));
    assert_eq!(
        mem.write_u8(Addr(0x6000), 0x01),
        Err(Error::MapperWrite { addr: 0x6000, value: 0x01 })
    );
}
