use elf_headers::elf_header::{
    ElfHeader, Endianness, ExecutionClass, IdentifierElfVersion, InstructionSet, ObjectType, OsABI,
};
use elf_headers::program_header::ProgramHeader;
use elf_headers::section_header::SectionHeader;
use std::marker::PhantomData;

const MAGIC: [u8; 4] = [0x7F, 0x45, 0x4C, 0x46];

/// The byte ranges of the fields after the identification block.
fn field_ranges(word: usize) -> Vec<(usize, usize)> {
    let widths = [2, 2, 4, word, word, word, 4, 2, 2, 2, 2, 2, 2];
    let mut ranges = Vec::new();
    let mut start = 16;
    for width in widths {
        ranges.push((start, start + width));
        start += width;
    }
    ranges
}

/// A header with a different value in every field that has a setter.
fn busy_header(class: ExecutionClass, order: Endianness) -> ElfHeader {
    let mut header = ElfHeader::new(class, order);
    header.set_os_abi(OsABI::FreeBSD);
    header.set_abi_version(0x5A);
    header.set_object_type(ObjectType::OS_SPEC);
    header.set_instruction_set(InstructionSet::LoongArch);
    header.set_entry(0x0102_0304_0506_0708);
    header.set_p_table(0x1112_1314_1516_1718);
    header.set_s_table(0x2122_2324_2526_2728);
    header.set_flags(0xA1A2_A3A4);
    header.set_p_len(0xB1B2);
    header.set_s_size(0xC1C2);
    header.set_s_len(0xD1D2);
    header.set_s_idx(0xE1E2);
    header
}

#[test]
fn test_size() {
    let header = ElfHeader::default();
    assert_eq!(header.write_bytes().len(), 64)
}

#[test]
fn lib_test_size() {
    let header = ElfHeader::new(ExecutionClass::Real, Endianness::Little);
    assert_eq!(header.write_bytes().len(), 52)
}

#[test]
fn size_is_fixed_by_class_in_both_byte_orders() {
    for order in [Endianness::Little, Endianness::Big] {
        assert_eq!(ElfHeader::new(ExecutionClass::Long, order).write_bytes().len(), 64);
        assert_eq!(ElfHeader::new(ExecutionClass::Real, order).write_bytes().len(), 52);
        assert_eq!(busy_header(ExecutionClass::Long, order).write_bytes().len(), 64);
        assert_eq!(busy_header(ExecutionClass::Real, order).write_bytes().len(), 52);
    }
}

#[test]
fn default_header_is_64_bit_little_endian() {
    let header = ElfHeader::default();
    assert_eq!(header.execution_class(), ExecutionClass::Long);
    assert_eq!(header.endianness(), Endianness::Little);
    assert_eq!(header.flags(), 0);
    assert_eq!(header.program_size(), 56);
    assert_eq!(header.section_size(), 0);
    let expected: Vec<u8> = vec![
        0x7F, 0x45, 0x4C, 0x46, 0x02, 0x01, 0x01, 0x03, 0x00, 0, 0, 0, 0, 0, 0, 0, // ident
        0x02, 0x00, // executable
        0x3E, 0x00, // x86-64
        0x01, 0x00, 0x00, 0x00, // version
        0, 0, 0, 0, 0, 0, 0, 0, // entry
        0, 0, 0, 0, 0, 0, 0, 0, // program table
        0, 0, 0, 0, 0, 0, 0, 0, // section table
        0, 0, 0, 0, // flags
        0x40, 0x00, // header size
        0x38, 0x00, // program entry size
        0, 0, 0, 0, 0, 0, 0, 0,
    ];
    assert_eq!(header.write_bytes(), expected);
}

#[test]
fn new_32_bit_little_endian_header() {
    let header = ElfHeader::new(ExecutionClass::Real, Endianness::Little);
    assert_eq!(header.program_size(), 32);
    let expected: Vec<u8> = vec![
        0x7F, 0x45, 0x4C, 0x46, 0x01, 0x01, 0x01, 0x03, 0x00, 0, 0, 0, 0, 0, 0, 0, // ident
        0x02, 0x00, // executable
        0x3E, 0x00, // x86-64
        0x01, 0x00, 0x00, 0x00, // version
        0, 0, 0, 0, // entry
        0, 0, 0, 0, // program table
        0, 0, 0, 0, // section table
        0, 0, 0, 0, // flags
        0x34, 0x00, // header size
        0x20, 0x00, // program entry size
        0, 0, 0, 0, 0, 0, 0, 0,
    ];
    assert_eq!(header.write_bytes(), expected);
}

#[test]
fn new_64_bit_big_endian_header() {
    let header = ElfHeader::new(ExecutionClass::Long, Endianness::Big);
    let expected: Vec<u8> = vec![
        0x7F, 0x45, 0x4C, 0x46, 0x02, 0x02, 0x01, 0x03, 0x00, 0, 0, 0, 0, 0, 0, 0, // ident
        0x00, 0x02, // executable
        0x00, 0x3E, // x86-64
        0x00, 0x00, 0x00, 0x01, // version
        0, 0, 0, 0, 0, 0, 0, 0, // entry
        0, 0, 0, 0, 0, 0, 0, 0, // program table
        0, 0, 0, 0, 0, 0, 0, 0, // section table
        0, 0, 0, 0, // flags
        0x00, 0x40, // header size
        0x00, 0x38, // program entry size
        0, 0, 0, 0, 0, 0, 0, 0,
    ];
    assert_eq!(header.write_bytes(), expected);
}

#[test]
fn every_field_at_its_offset_64_bit_little_endian() {
    let bytes = busy_header(ExecutionClass::Long, Endianness::Little).write_bytes();
    let expected: Vec<u8> = vec![
        0x7F, 0x45, 0x4C, 0x46, 0x02, 0x01, 0x01, 0x09, 0x5A, 0, 0, 0, 0, 0, 0, 0, // ident
        0x00, 0xFE, // object type
        0x02, 0x01, // machine
        0x01, 0x00, 0x00, 0x00, // version
        0x08, 0x07, 0x06, 0x05, 0x04, 0x03, 0x02, 0x01, // entry
        0x18, 0x17, 0x16, 0x15, 0x14, 0x13, 0x12, 0x11, // program table
        0x28, 0x27, 0x26, 0x25, 0x24, 0x23, 0x22, 0x21, // section table
        0xA4, 0xA3, 0xA2, 0xA1, // flags
        0x40, 0x00, // header size
        0x38, 0x00, // program entry size
        0xB2, 0xB1, // program entries
        0xC2, 0xC1, // section entry size
        0xD2, 0xD1, // section entries
        0xE2, 0xE1, // section name index
    ];
    assert_eq!(bytes, expected);
}

#[test]
fn every_field_at_its_offset_32_bit_big_endian() {
    let bytes = busy_header(ExecutionClass::Real, Endianness::Big).write_bytes();
    let expected: Vec<u8> = vec![
        0x7F, 0x45, 0x4C, 0x46, 0x01, 0x02, 0x01, 0x09, 0x5A, 0, 0, 0, 0, 0, 0, 0, // ident
        0xFE, 0x00, // object type
        0x01, 0x02, // machine
        0x00, 0x00, 0x00, 0x01, // version
        0x05, 0x06, 0x07, 0x08, // entry, low half
        0x15, 0x16, 0x17, 0x18, // program table, low half
        0x25, 0x26, 0x27, 0x28, // section table, low half
        0xA1, 0xA2, 0xA3, 0xA4, // flags
        0x00, 0x34, // header size
        0x00, 0x20, // program entry size
        0xB1, 0xB2, // program entries
        0xC1, 0xC2, // section entry size
        0xD1, 0xD2, // section entries
        0xE1, 0xE2, // section name index
    ];
    assert_eq!(bytes, expected);
}

#[test]
fn magic_opens_every_header() {
    for class in [ExecutionClass::Real, ExecutionClass::Long] {
        for order in [Endianness::Little, Endianness::Big] {
            assert_eq!(ElfHeader::new(class, order).write_bytes()[..4], MAGIC);
            assert_eq!(busy_header(class, order).write_bytes()[..4], MAGIC);
        }
    }
}

#[test]
fn byte_order_reverses_each_field_and_keeps_the_ident() {
    for (class, word) in [(ExecutionClass::Real, 4), (ExecutionClass::Long, 8)] {
        let little = busy_header(class, Endianness::Little).write_bytes();
        let big = busy_header(class, Endianness::Big).write_bytes();
        assert_eq!(little.len(), big.len());
        for i in 0..16 {
            if i == 5 {
                assert_eq!(little[i], 0x01);
                assert_eq!(big[i], 0x02);
            } else {
                assert_eq!(little[i], big[i]);
            }
        }
        let ranges = field_ranges(word);
        assert_eq!(ranges.len(), 13);
        assert_eq!(ranges[12].1, little.len());
        for (start, end) in ranges {
            let mut reversed = little[start..end].to_vec();
            reversed.reverse();
            assert_eq!(big[start..end].to_vec(), reversed);
        }
    }
}

#[test]
fn flags_are_set_added_and_cleared() {
    let mut header = ElfHeader::default();
    header.set_flags(0x0000_00F0);
    assert_eq!(header.flags(), 0x0000_00F0);
    header.add_flags(0x8000_0011);
    assert_eq!(header.flags(), 0x8000_00F1);
    header.add_flags(0x0000_0001);
    assert_eq!(header.flags(), 0x8000_00F1);
    header.clear_flags();
    assert_eq!(header.flags(), 0);
    header.add_flags(0x0000_0300);
    assert_eq!(header.flags(), 0x0000_0300);
    header.set_flags(0x0000_0004);
    assert_eq!(header.flags(), 0x0000_0004);
    let bytes = header.write_bytes();
    assert_eq!(bytes[48..52], [0x04, 0x00, 0x00, 0x00]);
}

#[test]
fn cleared_flags_are_written_as_zero() {
    let mut header = ElfHeader::new(ExecutionClass::Real, Endianness::Big);
    header.set_flags(0xDEAD_BEEF);
    header.add_flags(0x0000_0010);
    header.clear_flags();
    let bytes = header.write_bytes();
    assert_eq!(bytes[36..40], [0, 0, 0, 0]);
}

#[test]
fn program_entry_size_follows_the_sample() {
    let mut header = ElfHeader::new(ExecutionClass::Long, Endianness::Little);
    header.set_p_size(&ProgramHeader::new(ExecutionClass::Long));
    assert_eq!(header.program_size(), 56);
    assert_eq!(header.write_bytes()[54..56], [0x38, 0x00]);

    let mut header = ElfHeader::new(ExecutionClass::Real, Endianness::Little);
    header.set_p_size(&ProgramHeader::new(ExecutionClass::Real));
    assert_eq!(header.program_size(), 32);
    assert_eq!(header.write_bytes()[42..44], [0x20, 0x00]);

    let mut header = ElfHeader::default();
    header.set_p_size(&ProgramHeader::default());
    assert_eq!(header.program_size(), 56);
}

#[test]
fn section_entry_size_is_set_or_taken_from_a_sample() {
    let mut header = ElfHeader::default();
    assert_eq!(header.section_size(), 0);
    header.set_s_size(0x0040);
    assert_eq!(header.section_size(), 0x0040);
    header.set_s_header_size(&SectionHeader::new(ExecutionClass::Long));
    assert_eq!(header.section_size(), 56);
    header.set_s_header_size(&SectionHeader::new(ExecutionClass::Real));
    assert_eq!(header.section_size(), 36);
    header.set_s_header_size(&SectionHeader::default());
    assert_eq!(header.section_size(), 56);
    assert_eq!(header.write_bytes()[58..60], [0x38, 0x00]);
}

#[test]
fn sample_size_is_the_length_the_sample_is_written_as() {
    for class in [ExecutionClass::Real, ExecutionClass::Long] {
        let mut header = ElfHeader::new(class, Endianness::Little);
        header.set_p_size(&ProgramHeader::new(class));
        header.set_s_header_size(&SectionHeader::new(class));
        assert_eq!(header.program_size() as usize, ProgramHeader::new(class).write_bytes().len());
        assert_eq!(header.section_size() as usize, SectionHeader::new(class).write_bytes().len());
    }
}

#[test]
fn a_32_bit_word_drops_the_high_half() {
    let mut header = ElfHeader::new(ExecutionClass::Real, Endianness::Little);
    header.set_entry(0xFFFF_FFFF_1234_5678);
    header.set_p_table(0x0000_0001_0000_0034);
    header.set_s_table(0x1_0000_0000);
    let bytes = header.write_bytes();
    assert_eq!(bytes[24..28], [0x78, 0x56, 0x34, 0x12]);
    assert_eq!(bytes[28..32], [0x34, 0x00, 0x00, 0x00]);
    assert_eq!(bytes[32..36], [0x00, 0x00, 0x00, 0x00]);
}

#[test]
fn a_64_bit_word_keeps_every_byte() {
    let mut header = ElfHeader::new(ExecutionClass::Long, Endianness::Big);
    header.set_entry(0xFFFF_FFFF_1234_5678);
    header.set_entry(u64::MAX);
    header.set_p_table(0x8000_0000_0000_0001);
    let bytes = header.write_bytes();
    assert_eq!(bytes[24..32], [0xFF; 8]);
    assert_eq!(bytes[32..40], [0x80, 0, 0, 0, 0, 0, 0, 0x01]);
}

#[test]
fn a_later_setter_call_replaces_the_earlier_value() {
    let mut header = ElfHeader::default();
    header.set_entry(0x40_0000);
    header.set_entry(0x40_1000);
    header.set_p_len(3);
    header.set_p_len(2);
    let bytes = header.write_bytes();
    assert_eq!(bytes[24..32], [0x00, 0x10, 0x40, 0, 0, 0, 0, 0]);
    assert_eq!(bytes[56..58], [0x02, 0x00]);
}

#[test]
fn class_constants() {
    assert_eq!(ExecutionClass::Real.code(), 0x01);
    assert_eq!(ExecutionClass::Long.code(), 0x02);
    assert_eq!(ExecutionClass::Real.word_width(), 4);
    assert_eq!(ExecutionClass::Long.word_width(), 8);
    assert_eq!(ExecutionClass::Real.header_size(), 52);
    assert_eq!(ExecutionClass::Long.header_size(), 64);
    assert_eq!(ExecutionClass::Real.program_entry_size(), 32);
    assert_eq!(ExecutionClass::Long.program_entry_size(), 56);
    assert_eq!(ExecutionClass::Real.section_entry_size(), 36);
    assert_eq!(ExecutionClass::Long.section_entry_size(), 56);
    assert_eq!(Endianness::Little.code(), 0x01);
    assert_eq!(Endianness::Big.code(), 0x02);
    assert_eq!(IdentifierElfVersion::V1.code(), 0x01);
}

#[test]
fn os_abi_codes() {
    let table = [
        (OsABI::SystemV, 0x00),
        (OsABI::HPUX, 0x01),
        (OsABI::NetBSD, 0x02),
        (OsABI::Linux, 0x03),
        (OsABI::GNUHurd, 0x04),
        (OsABI::Solaris, 0x05),
        (OsABI::AIX, 0x07),
        (OsABI::IRIX, 0x08),
        (OsABI::FreeBSD, 0x09),
        (OsABI::Tru64, 0x0A),
        (OsABI::NovellModesto, 0x0B),
        (OsABI::OpenBSD, 0x0C),
        (OsABI::OpenVMS, 0x0E),
        (OsABI::AROS, 0x0F),
        (OsABI::FenixOS, 0x10),
        (OsABI::NuxiCloudABI, 0x11),
        (OsABI::StratusTechnologiesOpenVOS, 0x12),
    ];
    for (os_abi, code) in table {
        assert_eq!(os_abi.code(), code);
        let mut header = ElfHeader::default();
        header.set_os_abi(os_abi);
        assert_eq!(header.write_bytes()[7], code);
    }
}

#[test]
fn object_type_codes() {
    let table = [
        (ObjectType::ET_NONE, 0x0000),
        (ObjectType::ET_REL, 0x0001),
        (ObjectType::ET_EXEC, 0x0002),
        (ObjectType::ET_DYN, 0x0003),
        (ObjectType::ET_CORE, 0x0004),
        (ObjectType::OS_SPEC, 0xFE00),
        (ObjectType::PROC_SPEC, 0xFF00),
    ];
    for (object_type, code) in table {
        assert_eq!(object_type.code(), code);
        let mut header = ElfHeader::new(ExecutionClass::Long, Endianness::Big);
        header.set_object_type(object_type);
        assert_eq!(header.write_bytes()[16..18], code.to_be_bytes());
    }
}

#[test]
fn instruction_set_codes() {
    let table = [
        (InstructionSet::NoMachine, 0x00),
        (InstructionSet::ATATWE32100, 0x01),
        (InstructionSet::SPARC, 0x02),
        (InstructionSet::X86, 0x03),
        (InstructionSet::Motorola68000M68k, 0x04),
        (InstructionSet::Motorola88000M88k, 0x05),
        (InstructionSet::IntelMCU, 0x06),
        (InstructionSet::Intel80860, 0x07),
        (InstructionSet::MIPS, 0x08),
        (InstructionSet::IBMSystem370, 0x09),
        (InstructionSet::MIPSRS3000LittleEndian, 0x0A),
        (InstructionSet::HewlettPackardPARISC, 0x0F),
        (InstructionSet::Intel80960, 0x13),
        (InstructionSet::PowerPC, 0x14),
        (InstructionSet::PowerPC64bit, 0x15),
        (InstructionSet::S390X, 0x16),
        (InstructionSet::IBMSPUSPC, 0x17),
        (InstructionSet::NECV800, 0x24),
        (InstructionSet::FujitsuFR20, 0x25),
        (InstructionSet::TRWRH32, 0x26),
        (InstructionSet::MotorolaRCE, 0x27),
        (InstructionSet::Arm, 0x28),
        (InstructionSet::DigitalAlpha, 0x29),
        (InstructionSet::SuperH, 0x2A),
        (InstructionSet::SPARCVersion9, 0x2B),
        (InstructionSet::SiemensTriCoreEmbeddedProcessor, 0x2C),
        (InstructionSet::ArgonautRISCCore, 0x2D),
        (InstructionSet::HitachiH8300, 0x2E),
        (InstructionSet::HitachiH8300H, 0x2F),
        (InstructionSet::HitachiH8S, 0x30),
        (InstructionSet::HitachiH8500, 0x31),
        (InstructionSet::IA64, 0x32),
        (InstructionSet::StanfordMIPSX, 0x33),
        (InstructionSet::MotorolaColdFire, 0x34),
        (InstructionSet::MotorolaM68HC12, 0x35),
        (InstructionSet::FujitsuMMAMultimediaAccelerator, 0x36),
        (InstructionSet::SiemensPCP, 0x37),
        (InstructionSet::SonynCPUEmbeddedRISCProcessor, 0x38),
        (InstructionSet::DensoNDR1microProcessor, 0x39),
        (InstructionSet::MotorolaStarCoreProcessor, 0x3A),
        (InstructionSet::ToyotaME16processor, 0x3B),
        (InstructionSet::STMicroelectronicsST100processor, 0x3C),
        (InstructionSet::AdvancedLogicCorpTinyJEmbeddedProcessorFamily, 0x3D),
        (InstructionSet::AMDx86_64, 0x3E),
        (InstructionSet::SonyDSPProcessor, 0x3F),
        (InstructionSet::DigitalEquipmentCorpPDP10, 0x40),
        (InstructionSet::DigitalEquipmentCorpPDP11, 0x41),
        (InstructionSet::SiemensFX66Microcontroller, 0x42),
        (InstructionSet::STMicroelectronicsST9816bitMicrocontroller, 0x43),
        (InstructionSet::STMicroelectronicsST78bitMicrocontroller, 0x44),
        (InstructionSet::MotorolaMC68HC16Microcontroller, 0x45),
        (InstructionSet::MotorolaMC68HC11Microcontroller, 0x46),
        (InstructionSet::MotorolaMC68HC08Microcontroller, 0x47),
        (InstructionSet::MotorolaMC68HC05Microcontroller, 0x48),
        (InstructionSet::SiliconGraphicsSVx, 0x49),
        (InstructionSet::STMicroElectronicsST198bitMicrocontroller, 0x4A),
        (InstructionSet::DigitalVAX, 0x4B),
        (InstructionSet::AxisCommunications32bitEmbeddedProcessor, 0x4C),
        (InstructionSet::InfineonTechnologies32bitEmbeddedProcessor, 0x4D),
        (InstructionSet::Element1464bitDSPProcessor, 0x4E),
        (InstructionSet::LSILogic16bitDSPProcessor, 0x4F),
        (InstructionSet::TMS320C6000Family, 0x8C),
        (InstructionSet::MCSTElbruse2k, 0xAF),
        (InstructionSet::Arm64bitsArmv8AArch64, 0xB7),
        (InstructionSet::ZilogZ80, 0xDC),
        (InstructionSet::RISCV, 0xF3),
        (InstructionSet::BerkeleyPacketFilter, 0xF7),
        (InstructionSet::WDC65C816, 0x101),
        (InstructionSet::LoongArch, 0x102),
    ];
    assert_eq!(table.len(), 69);
    for (instruction_set, code) in table {
        assert_eq!(instruction_set.code(), code);
        let mut header = ElfHeader::default();
        header.set_instruction_set(instruction_set);
        assert_eq!(header.write_bytes()[18..20], code.to_le_bytes());
    }
}

#[test]
fn abi_version_is_the_ninth_byte() {
    let mut header = ElfHeader::default();
    header.set_abi_version(0x7E);
    let bytes = header.write_bytes();
    assert_eq!(bytes[8], 0x7E);
    assert_eq!(bytes[9..16], [0; 7]);
}

/// Answers whether `T` can be cloned: the inherent method is found first
/// where `T: Clone` holds, the trait's default otherwise.
struct CloneProbe<T>(PhantomData<T>);

trait CannotClone {
    fn can_clone(&self) -> bool {
        false
    }
}

impl<T> CannotClone for CloneProbe<T> {}

impl<T: Clone> CloneProbe<T> {
    fn can_clone(&self) -> bool {
        true
    }
}

#[test]
fn write_bytes_consumes_the_record() {
    // The three encoders take their record by value: these bindings type-check
    // only with `self` as the receiver.
    let file: fn(ElfHeader) -> Vec<u8> = ElfHeader::write_bytes;
    let program: fn(ProgramHeader) -> Vec<u8> = ProgramHeader::write_bytes;
    let section: fn(SectionHeader) -> Vec<u8> = SectionHeader::write_bytes;
    // And no record can be copied or cloned, so none outlives the call.
    assert!(CloneProbe::<u32>(PhantomData).can_clone());
    assert!(!CloneProbe::<ElfHeader>(PhantomData).can_clone());
    assert!(!CloneProbe::<ProgramHeader>(PhantomData).can_clone());
    assert!(!CloneProbe::<SectionHeader>(PhantomData).can_clone());
    assert_eq!(file(ElfHeader::default()).len(), 64);
    assert_eq!(program(ProgramHeader::default()).len(), 56);
    assert_eq!(section(SectionHeader::default()).len(), 56);
}
