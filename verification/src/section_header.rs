//! The section header: one entry of the section header table.

use crate::elf_header::{Endianness, ExecutionClass};
use crate::encoding::{
    host_order, lemma_zero_is_all_zero, ordered_bytes, push_uint, push_word, word_bytes,
};
use vstd::prelude::*;

verus! {

/// What a section header holds: the view of a [`SectionHeader`].
pub struct SectionHeaderRecord {
    pub execution_class: ExecutionClass,
    pub section_name: u32,
    pub section_type: SectionType,
    pub section_flags: u64,
    pub section_address: u64,
    pub section_offset: u64,
    pub section_link: u32,
    pub section_info: u32,
    pub section_alignment: u64,
    pub section_size: u64,
}

impl SectionHeaderRecord {
    /// The record that a section header of class `class` starts as: the null
    /// section, every field zero.
    pub open spec fn initial(class: ExecutionClass) -> SectionHeaderRecord {
        SectionHeaderRecord {
            execution_class: class,
            section_name: 0,
            section_type: SectionType::SHT_NULL,
            section_flags: 0,
            section_address: 0,
            section_offset: 0,
            section_link: 0,
            section_info: 0,
            section_alignment: 0,
            section_size: 0,
        }
    }

    /// The on-disk bytes of the header in the byte order `order`: name
    /// offset, type, flags, address, file offset, link, info, alignment and
    /// size. The name offset, the type, the link and the info take four bytes
    /// in both classes, the others one word.
    pub open spec fn encoded(self, order: Endianness) -> Seq<u8> {
        let class = self.execution_class;
        ordered_bytes(order, self.section_name as nat, 4)
            + ordered_bytes(order, self.section_type.code() as nat, 4)
            + word_bytes(class, order, self.section_flags)
            + word_bytes(class, order, self.section_address)
            + word_bytes(class, order, self.section_offset)
            + ordered_bytes(order, self.section_link as nat, 4)
            + ordered_bytes(order, self.section_info as nat, 4)
            + word_bytes(class, order, self.section_alignment)
            + word_bytes(class, order, self.section_size)
    }
}

/// One section header.
///
/// It is constructed for one execution class, changed through its setters,
/// and consumed by [`SectionHeader::write_bytes`] or
/// [`SectionHeader::write_bytes_ordered`].
pub struct SectionHeader {
    execution_class: ExecutionClass,
    section_name: u32,
    section_type: SectionType,
    section_flags: u64,
    section_address: u64,
    section_offset: u64,
    section_link: u32,
    section_info: u32,
    section_alignment: u64,
    section_size: u64,
}

impl View for SectionHeader {
    type V = SectionHeaderRecord;

    closed spec fn view(&self) -> SectionHeaderRecord {
        SectionHeaderRecord {
            execution_class: self.execution_class,
            section_name: self.section_name,
            section_type: self.section_type,
            section_flags: self.section_flags,
            section_address: self.section_address,
            section_offset: self.section_offset,
            section_link: self.section_link,
            section_info: self.section_info,
            section_alignment: self.section_alignment,
            section_size: self.section_size,
        }
    }
}

impl Default for SectionHeader {
    /// A 64-bit section header.
    fn default() -> (header: SectionHeader)
        ensures
            header@ == SectionHeaderRecord::initial(ExecutionClass::Long),
    {
        SectionHeader::new(ExecutionClass::Long)
    }
}

impl SectionHeader {
    /// A section header of the given class, fixed from here on.
    pub fn new(class: ExecutionClass) -> (header: SectionHeader)
        ensures
            header@ == SectionHeaderRecord::initial(class),
    {
        SectionHeader {
            execution_class: class,
            section_name: 0,
            section_type: SectionType::SHT_NULL,
            section_flags: 0,
            section_address: 0,
            section_offset: 0,
            section_link: 0,
            section_info: 0,
            section_alignment: 0,
            section_size: 0,
        }
    }

    /// The execution class that the header was constructed for.
    pub fn execution_class(&self) -> (class: ExecutionClass)
        ensures
            class == self@.execution_class,
    {
        self.execution_class
    }

    /// The number of bytes that the header is written as.
    pub fn encoded_len(&self) -> (len: u16)
        ensures
            len == self@.execution_class.section_entry_size(),
            forall|order: Endianness| len == (#[trigger] self@.encoded(order)).len(),
    {
        self.execution_class.section_entry_size()
    }

    /// Consumes the header and returns its on-disk bytes in the byte order
    /// `order`.
    pub fn write_bytes_ordered(self, order: Endianness) -> (bytes: Vec<u8>)
        ensures
            bytes@ == self@.encoded(order),
            bytes@.len() == self@.execution_class.section_entry_size(),
    {
        let class = self.execution_class;
        let mut v: Vec<u8> = Vec::new();
        push_uint(&mut v, self.section_name as u64, 4, order);
        push_uint(&mut v, self.section_type.code() as u64, 4, order);
        push_word(&mut v, self.section_flags, class, order);
        push_word(&mut v, self.section_address, class, order);
        push_word(&mut v, self.section_offset, class, order);
        push_uint(&mut v, self.section_link as u64, 4, order);
        push_uint(&mut v, self.section_info as u64, 4, order);
        push_word(&mut v, self.section_alignment, class, order);
        push_word(&mut v, self.section_size, class, order);
        v
    }

    /// Consumes the header and returns its on-disk bytes in the byte order of
    /// the machine that runs this code, whatever the file header's byte order
    /// is.
    pub fn write_bytes(self) -> (bytes: Vec<u8>)
        ensures
            bytes@ == self@.encoded(Endianness::Little) || bytes@ == self@.encoded(Endianness::Big),
            bytes@.len() == self@.execution_class.section_entry_size(),
    {
        let order = host_order();
        self.write_bytes_ordered(order)
    }

    /// Sets the offset of the section name in the section-name string table.
    pub fn set_name(&mut self, section_name: u32)
        ensures
            final(self)@ == (SectionHeaderRecord { section_name, ..old(self)@ }),
    {
        self.section_name = section_name;
    }

    /// Sets the kind of section.
    pub fn set_type(&mut self, section_type: SectionType)
        ensures
            final(self)@ == (SectionHeaderRecord { section_type, ..old(self)@ }),
    {
        self.section_type = section_type;
    }

    /// Sets the section flags.
    pub fn set_flags(&mut self, section_flags: u64)
        ensures
            final(self)@ == (SectionHeaderRecord { section_flags, ..old(self)@ }),
    {
        self.section_flags = section_flags;
    }

    /// Sets the address of the section in memory.
    pub fn set_address(&mut self, section_address: u64)
        ensures
            final(self)@ == (SectionHeaderRecord { section_address, ..old(self)@ }),
    {
        self.section_address = section_address;
    }

    /// Sets the offset of the section in the file.
    pub fn set_offset(&mut self, section_offset: u64)
        ensures
            final(self)@ == (SectionHeaderRecord { section_offset, ..old(self)@ }),
    {
        self.section_offset = section_offset;
    }

    /// Sets the index of the section that this one is linked to.
    pub fn set_link(&mut self, section_link: u32)
        ensures
            final(self)@ == (SectionHeaderRecord { section_link, ..old(self)@ }),
    {
        self.section_link = section_link;
    }

    /// Sets the extra information of the section.
    pub fn set_info(&mut self, section_info: u32)
        ensures
            final(self)@ == (SectionHeaderRecord { section_info, ..old(self)@ }),
    {
        self.section_info = section_info;
    }

    /// Sets the alignment of the section.
    pub fn set_alignment(&mut self, section_alignment: u64)
        ensures
            final(self)@ == (SectionHeaderRecord { section_alignment, ..old(self)@ }),
    {
        self.section_alignment = section_alignment;
    }

    /// Sets the size of the section.
    pub fn set_size(&mut self, section_size: u64)
        ensures
            final(self)@ == (SectionHeaderRecord { section_size, ..old(self)@ }),
    {
        self.section_size = section_size;
    }
}

/// An encoded section header is as long as its class fixes: 56 bytes for the
/// 64-bit class, 36 for the 32-bit class.
pub proof fn lemma_encoded_len(record: SectionHeaderRecord, order: Endianness)
    ensures
        record.encoded(order).len() == record.execution_class.section_entry_size(),
        record.execution_class == ExecutionClass::Long ==> record.encoded(order).len() == 56,
        record.execution_class == ExecutionClass::Real ==> record.encoded(order).len() == 36,
{
}

/// The section header that construction gives is the null section that
/// opens every section header table: it is written as zero bytes only, in
/// both classes and both byte orders.
pub proof fn lemma_null_section_is_zero(class: ExecutionClass, order: Endianness)
    ensures
        SectionHeaderRecord::initial(class).encoded(order) == Seq::new(
            class.section_entry_size() as nat,
            |i: int| 0u8,
        ),
{
    lemma_zero_is_all_zero(order, 4);
    lemma_zero_is_all_zero(order, class.word_width() as nat);
    assert(SectionHeaderRecord::initial(class).encoded(order) =~= Seq::new(
        class.section_entry_size() as nat,
        |i: int| 0u8,
    ));
}

/// Where each field lies in an encoded section header. With `w` the word
/// width: the name offset and the type in the first eight bytes, then the
/// flags, the address and the file offset, one word each, then the link and
/// the info, four bytes each, then the alignment and the size, one word each.
pub proof fn lemma_field_positions(record: SectionHeaderRecord, order: Endianness)
    ensures
        ({
            let bytes = record.encoded(order);
            let class = record.execution_class;
            let w = class.word_width() as int;
            &&& bytes.len() == 16 + 5 * w
            &&& bytes.subrange(0, 4) == ordered_bytes(order, record.section_name as nat, 4)
            &&& bytes.subrange(4, 8) == ordered_bytes(order, record.section_type.code() as nat, 4)
            &&& bytes.subrange(8, 8 + w) == word_bytes(class, order, record.section_flags)
            &&& bytes.subrange(8 + w, 8 + 2 * w) == word_bytes(class, order, record.section_address)
            &&& bytes.subrange(8 + 2 * w, 8 + 3 * w) == word_bytes(
                class,
                order,
                record.section_offset,
            )
            &&& bytes.subrange(8 + 3 * w, 12 + 3 * w) == ordered_bytes(
                order,
                record.section_link as nat,
                4,
            )
            &&& bytes.subrange(12 + 3 * w, 16 + 3 * w) == ordered_bytes(
                order,
                record.section_info as nat,
                4,
            )
            &&& bytes.subrange(16 + 3 * w, 16 + 4 * w) == word_bytes(
                class,
                order,
                record.section_alignment,
            )
            &&& bytes.subrange(16 + 4 * w, 16 + 5 * w) == word_bytes(
                class,
                order,
                record.section_size,
            )
        }),
{
    let bytes = record.encoded(order);
    let class = record.execution_class;
    let w = class.word_width() as int;
    assert(bytes.subrange(0, 4) =~= ordered_bytes(order, record.section_name as nat, 4));
    assert(bytes.subrange(4, 8) =~= ordered_bytes(order, record.section_type.code() as nat, 4));
    assert(bytes.subrange(8, 8 + w) =~= word_bytes(class, order, record.section_flags));
    assert(bytes.subrange(8 + w, 8 + 2 * w) =~= word_bytes(class, order, record.section_address));
    assert(bytes.subrange(8 + 2 * w, 8 + 3 * w) =~= word_bytes(
        class,
        order,
        record.section_offset,
    ));
    assert(bytes.subrange(8 + 3 * w, 12 + 3 * w) =~= ordered_bytes(
        order,
        record.section_link as nat,
        4,
    ));
    assert(bytes.subrange(12 + 3 * w, 16 + 3 * w) =~= ordered_bytes(
        order,
        record.section_info as nat,
        4,
    ));
    assert(bytes.subrange(16 + 3 * w, 16 + 4 * w) =~= word_bytes(
        class,
        order,
        record.section_alignment,
    ));
    assert(bytes.subrange(16 + 4 * w, 16 + 5 * w) =~= word_bytes(
        class,
        order,
        record.section_size,
    ));
}

/// What kind of section a section header describes.
#[allow(non_camel_case_types)]
#[derive(Clone, Copy, Debug, PartialEq, Eq, Structural)]
pub enum SectionType {
    /// An unused entry.
    SHT_NULL,
    /// Program data.
    SHT_PROGBITS,
    /// A symbol table.
    SHT_SYMTAB,
    /// A string table.
    SHT_STRTAB,
    /// Relocation entries with addends.
    SHT_RELA,
    /// A symbol hash table.
    SHT_HASH,
    /// Dynamic linking information.
    SHT_DYNAMIC,
    /// Notes.
    SHT_NOTE,
    /// Space with no data in the file (bss).
    SHT_NOBITS,
    /// Relocation entries without addends.
    SHT_REL,
    /// Reserved.
    SHT_SHLIB,
    /// The dynamic linker symbol table.
    SHT_DYNSYM,
    /// An array of constructors.
    SHT_INIT_ARRAY,
    /// An array of destructors.
    SHT_FINI_ARRAY,
    /// An array of pre-constructors.
    SHT_PREINIT_ARRAY,
    /// A section group.
    SHT_GROUP,
    /// Extended section indices.
    SHT_SYMTAB_SHNDX,
    /// The number of defined types.
    SHT_NUM,
    /// The start of the range reserved for operating systems.
    SHT_LOOS,
}

impl SectionType {
    /// The value of the section-type field.
    pub open spec fn spec_code(self) -> u32 {
        match self {
            SectionType::SHT_NULL => 0x00000000,
            SectionType::SHT_PROGBITS => 0x00000001,
            SectionType::SHT_SYMTAB => 0x00000002,
            SectionType::SHT_STRTAB => 0x00000003,
            SectionType::SHT_RELA => 0x00000004,
            SectionType::SHT_HASH => 0x00000005,
            SectionType::SHT_DYNAMIC => 0x00000006,
            SectionType::SHT_NOTE => 0x00000007,
            SectionType::SHT_NOBITS => 0x00000008,
            SectionType::SHT_REL => 0x00000009,
            SectionType::SHT_SHLIB => 0x0000000A,
            SectionType::SHT_DYNSYM => 0x0000000B,
            SectionType::SHT_INIT_ARRAY => 0x0000000E,
            SectionType::SHT_FINI_ARRAY => 0x0000000F,
            SectionType::SHT_PREINIT_ARRAY => 0x00000010,
            SectionType::SHT_GROUP => 0x00000011,
            SectionType::SHT_SYMTAB_SHNDX => 0x00000012,
            SectionType::SHT_NUM => 0x00000013,
            SectionType::SHT_LOOS => 0x60000000,
        }
    }

    /// The value of the section-type field.
    #[verifier::when_used_as_spec(spec_code)]
    pub fn code(self) -> (c: u32)
        ensures
            c == self.spec_code(),
    {
        match self {
            SectionType::SHT_NULL => 0x00000000,
            SectionType::SHT_PROGBITS => 0x00000001,
            SectionType::SHT_SYMTAB => 0x00000002,
            SectionType::SHT_STRTAB => 0x00000003,
            SectionType::SHT_RELA => 0x00000004,
            SectionType::SHT_HASH => 0x00000005,
            SectionType::SHT_DYNAMIC => 0x00000006,
            SectionType::SHT_NOTE => 0x00000007,
            SectionType::SHT_NOBITS => 0x00000008,
            SectionType::SHT_REL => 0x00000009,
            SectionType::SHT_SHLIB => 0x0000000A,
            SectionType::SHT_DYNSYM => 0x0000000B,
            SectionType::SHT_INIT_ARRAY => 0x0000000E,
            SectionType::SHT_FINI_ARRAY => 0x0000000F,
            SectionType::SHT_PREINIT_ARRAY => 0x00000010,
            SectionType::SHT_GROUP => 0x00000011,
            SectionType::SHT_SYMTAB_SHNDX => 0x00000012,
            SectionType::SHT_NUM => 0x00000013,
            SectionType::SHT_LOOS => 0x60000000,
        }
    }
}

} // verus!
