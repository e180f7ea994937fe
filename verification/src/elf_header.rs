//! The ELF file header and the enumerations it is made of.

use crate::encoding::{
    lemma_big_endian_is_reversed, ordered_bytes, push_uint, push_word, word_bytes, word_value,
};
use crate::program_header::ProgramHeader;
use crate::section_header::SectionHeader;
use vstd::prelude::*;

verus! {

/// The four bytes that open every ELF file: `0x7F`, then `ELF` in ASCII.
pub open spec fn magic() -> Seq<u8> {
    seq![0x7Fu8, 0x45u8, 0x4Cu8, 0x46u8]
}

/// The seven reserved zero bytes that close the identification block.
pub open spec fn padding() -> Seq<u8> {
    Seq::new(7, |i: int| 0u8)
}

/// The object-file version that every header is constructed with.
pub const CURRENT_VERSION: u32 = 1;

/// What a file header holds: the view of an [`ElfHeader`].
///
/// The magic bytes, the padding and the header's own size are no fields: the
/// first two are constants, and the size follows from the execution class.
pub struct FileHeaderRecord {
    pub execution_class: ExecutionClass,
    pub endianness: Endianness,
    pub identifier_elf_version: IdentifierElfVersion,
    pub os_abi: OsABI,
    pub abi_version: u8,
    pub object_type: ObjectType,
    pub instruction_set: InstructionSet,
    pub elf_version: u32,
    pub entry: u64,
    pub program_table: u64,
    pub section_table: u64,
    pub flags: u32,
    pub program_size: u16,
    pub program_entries: u16,
    pub section_size: u16,
    pub section_entries: u16,
    pub section_index: u16,
}

impl FileHeaderRecord {
    /// The record that a header of the given class and byte order starts as:
    /// an executable for Linux on x86-64, with the sizes of its class and with
    /// every address, offset, count and flag zero.
    pub open spec fn initial(class: ExecutionClass, order: Endianness) -> FileHeaderRecord {
        FileHeaderRecord {
            execution_class: class,
            endianness: order,
            identifier_elf_version: IdentifierElfVersion::V1,
            os_abi: OsABI::Linux,
            abi_version: 0,
            object_type: ObjectType::ET_EXEC,
            instruction_set: InstructionSet::AMDx86_64,
            elf_version: CURRENT_VERSION,
            entry: 0,
            program_table: 0,
            section_table: 0,
            flags: 0,
            program_size: class.program_entry_size(),
            program_entries: 0,
            section_size: 0,
            section_entries: 0,
            section_index: 0,
        }
    }

    /// Whether the program-entry size is the one that the execution class
    /// fixes. Construction makes it so and every setter keeps it so. The
    /// header size needs no such rule: it is derived from the class, not
    /// stored.
    pub open spec fn sizes_match_class(self) -> bool {
        self.program_size == self.execution_class.program_entry_size()
    }

    /// The record with its processor flags replaced by `flags`.
    pub open spec fn set_flags(self, flags: u32) -> FileHeaderRecord {
        FileHeaderRecord { flags, ..self }
    }

    /// The record with the bits of `flags` added to its processor flags.
    pub open spec fn add_flags(self, flags: u32) -> FileHeaderRecord {
        FileHeaderRecord { flags: self.flags | flags, ..self }
    }

    /// The record with no processor flag set.
    pub open spec fn clear_flags(self) -> FileHeaderRecord {
        FileHeaderRecord { flags: 0, ..self }
    }

    /// The record with its byte order replaced by `order`.
    pub open spec fn with_endianness(self, order: Endianness) -> FileHeaderRecord {
        FileHeaderRecord { endianness: order, ..self }
    }

    /// The value and the width in bytes of each field that follows the
    /// identification block, in the order in which they are written.
    pub open spec fn fields(self) -> Seq<(nat, nat)> {
        let class = self.execution_class;
        let word = class.word_width() as nat;
        seq![
            (self.object_type.code() as nat, 2nat),
            (self.instruction_set.code() as nat, 2nat),
            (self.elf_version as nat, 4nat),
            (word_value(class, self.entry), word),
            (word_value(class, self.program_table), word),
            (word_value(class, self.section_table), word),
            (self.flags as nat, 4nat),
            (class.header_size() as nat, 2nat),
            (self.program_size as nat, 2nat),
            (self.program_entries as nat, 2nat),
            (self.section_size as nat, 2nat),
            (self.section_entries as nat, 2nat),
            (self.section_index as nat, 2nat),
        ]
    }

    /// The 16-byte identification block. It holds single bytes only, so the
    /// byte order does not change how it is written, only its sixth byte.
    pub open spec fn ident(self) -> Seq<u8> {
        magic() + seq![
            self.execution_class.code(),
            self.endianness.code(),
            self.identifier_elf_version.code(),
            self.os_abi.code(),
            self.abi_version,
        ] + padding()
    }

    /// The on-disk bytes of the header: the identification block, then every
    /// other field in the record's byte order.
    pub open spec fn encoded(self) -> Seq<u8> {
        let order = self.endianness;
        let class = self.execution_class;
        self.ident()
            + ordered_bytes(order, self.object_type.code() as nat, 2)
            + ordered_bytes(order, self.instruction_set.code() as nat, 2)
            + ordered_bytes(order, self.elf_version as nat, 4)
            + word_bytes(class, order, self.entry)
            + word_bytes(class, order, self.program_table)
            + word_bytes(class, order, self.section_table)
            + ordered_bytes(order, self.flags as nat, 4)
            + ordered_bytes(order, class.header_size() as nat, 2)
            + ordered_bytes(order, self.program_size as nat, 2)
            + ordered_bytes(order, self.program_entries as nat, 2)
            + ordered_bytes(order, self.section_size as nat, 2)
            + ordered_bytes(order, self.section_entries as nat, 2)
            + ordered_bytes(order, self.section_index as nat, 2)
    }
}

/// The ELF file header of one object file.
///
/// It is constructed for one execution class and byte order, changed through
/// its setters once the file's layout is known, and consumed by
/// [`ElfHeader::write_bytes`].
pub struct ElfHeader {
    execution_class: ExecutionClass,
    endianness: Endianness,
    identifier_elf_version: IdentifierElfVersion,
    os_abi: OsABI,
    abi_version: u8,
    object_type: ObjectType,
    instruction_set: InstructionSet,
    elf_version: u32,
    entry: u64,
    program_table: u64,
    section_table: u64,
    flags: u32,
    program_size: u16,
    program_entries: u16,
    section_size: u16,
    section_entries: u16,
    section_index: u16,
}

impl View for ElfHeader {
    type V = FileHeaderRecord;

    closed spec fn view(&self) -> FileHeaderRecord {
        FileHeaderRecord {
            execution_class: self.execution_class,
            endianness: self.endianness,
            identifier_elf_version: self.identifier_elf_version,
            os_abi: self.os_abi,
            abi_version: self.abi_version,
            object_type: self.object_type,
            instruction_set: self.instruction_set,
            elf_version: self.elf_version,
            entry: self.entry,
            program_table: self.program_table,
            section_table: self.section_table,
            flags: self.flags,
            program_size: self.program_size,
            program_entries: self.program_entries,
            section_size: self.section_size,
            section_entries: self.section_entries,
            section_index: self.section_index,
        }
    }
}

impl Default for ElfHeader {
    /// A 64-bit little-endian header.
    fn default() -> (header: ElfHeader)
        ensures
            header@ == FileHeaderRecord::initial(ExecutionClass::Long, Endianness::Little),
            header@.sizes_match_class(),
    {
        ElfHeader::new(ExecutionClass::Long, Endianness::Little)
    }
}

impl ElfHeader {
    /// A header of the given class and byte order, both fixed from here on.
    pub fn new(class: ExecutionClass, order: Endianness) -> (header: ElfHeader)
        ensures
            header@ == FileHeaderRecord::initial(class, order),
            header@.sizes_match_class(),
    {
        ElfHeader {
            execution_class: class,
            endianness: order,
            identifier_elf_version: IdentifierElfVersion::V1,
            os_abi: OsABI::Linux,
            abi_version: 0,
            object_type: ObjectType::ET_EXEC,
            instruction_set: InstructionSet::AMDx86_64,
            elf_version: CURRENT_VERSION,
            entry: 0,
            program_table: 0,
            section_table: 0,
            flags: 0,
            program_size: class.program_entry_size(),
            program_entries: 0,
            section_size: 0,
            section_entries: 0,
            section_index: 0,
        }
    }

    /// Appends the identification block to `out`.
    fn write_ident(&self, out: &mut Vec<u8>)
        ensures
            final(out)@ == old(out)@ + self@.ident(),
    {
        out.push(0x7F);
        out.push(0x45);
        out.push(0x4C);
        out.push(0x46);
        out.push(self.execution_class.code());
        out.push(self.endianness.code());
        out.push(self.identifier_elf_version.code());
        out.push(self.os_abi.code());
        out.push(self.abi_version);
        let mut i: usize = 0;
        while i < 7
            invariant
                i <= 7,
                out@ == old(out)@ + magic() + seq![
                    self.execution_class.code(),
                    self.endianness.code(),
                    self.identifier_elf_version.code(),
                    self.os_abi.code(),
                    self.abi_version,
                ] + padding().take(i as int),
            decreases 7 - i,
        {
            out.push(0);
            i += 1;
        }
    }

    /// Consumes the header and returns its on-disk bytes: 64 of them for the
    /// 64-bit class, 52 for the 32-bit class, the magic bytes first.
    pub fn write_bytes(self) -> (bytes: Vec<u8>)
        ensures
            bytes@ == self@.encoded(),
            bytes@.len() == self@.execution_class.header_size(),
            bytes@.subrange(0, 4) == magic(),
    {
        let order = self.endianness;
        let class = self.execution_class;
        let mut v: Vec<u8> = Vec::new();
        self.write_ident(&mut v);
        push_uint(&mut v, self.object_type.code() as u64, 2, order);
        push_uint(&mut v, self.instruction_set.code() as u64, 2, order);
        push_uint(&mut v, self.elf_version as u64, 4, order);
        push_word(&mut v, self.entry, class, order);
        push_word(&mut v, self.program_table, class, order);
        push_word(&mut v, self.section_table, class, order);
        push_uint(&mut v, self.flags as u64, 4, order);
        push_uint(&mut v, class.header_size() as u64, 2, order);
        push_uint(&mut v, self.program_size as u64, 2, order);
        push_uint(&mut v, self.program_entries as u64, 2, order);
        push_uint(&mut v, self.section_size as u64, 2, order);
        push_uint(&mut v, self.section_entries as u64, 2, order);
        push_uint(&mut v, self.section_index as u64, 2, order);
        v
    }

    /// Sets the address at which execution starts.
    pub fn set_entry(&mut self, p_entry: u64)
        ensures
            final(self)@ == (FileHeaderRecord { entry: p_entry, ..old(self)@ }),
            final(self)@.sizes_match_class() == old(self)@.sizes_match_class(),
    {
        self.entry = p_entry;
    }

    /// Sets the file offset of the program header table.
    pub fn set_p_table(&mut self, p_table: u64)
        ensures
            final(self)@ == (FileHeaderRecord { program_table: p_table, ..old(self)@ }),
            final(self)@.sizes_match_class() == old(self)@.sizes_match_class(),
    {
        self.program_table = p_table;
    }

    /// Sets the file offset of the section header table.
    pub fn set_s_table(&mut self, s_table: u64)
        ensures
            final(self)@ == (FileHeaderRecord { section_table: s_table, ..old(self)@ }),
            final(self)@.sizes_match_class() == old(self)@.sizes_match_class(),
    {
        self.section_table = s_table;
    }

    /// Replaces the processor flags by `f`.
    pub fn set_flags(&mut self, f: u32)
        ensures
            final(self)@ == old(self)@.set_flags(f),
            final(self)@.sizes_match_class() == old(self)@.sizes_match_class(),
    {
        self.flags = f;
    }

    /// Adds the bits of `f` to the processor flags.
    pub fn add_flags(&mut self, f: u32)
        ensures
            final(self)@ == old(self)@.add_flags(f),
            final(self)@.sizes_match_class() == old(self)@.sizes_match_class(),
    {
        self.flags = self.flags | f;
    }

    /// Resets the processor flags to zero.
    pub fn clear_flags(&mut self)
        ensures
            final(self)@ == old(self)@.clear_flags(),
            final(self)@.sizes_match_class() == old(self)@.sizes_match_class(),
    {
        self.flags = 0;
    }

    /// Sets the program-entry size to the encoded width of the sample
    /// `p_size`, which is a program header of the header's own class: the
    /// size is never set apart from the class.
    pub fn set_p_size(&mut self, p_size: &ProgramHeader)
        requires
            p_size@.execution_class == old(self)@.execution_class,
        ensures
            final(self)@ == (FileHeaderRecord {
                program_size: old(self)@.execution_class.program_entry_size(),
                ..old(self)@
            }),
            final(self)@.sizes_match_class(),
    {
        self.program_size = p_size.encoded_len();
    }

    /// Sets the number of entries in the program header table.
    pub fn set_p_len(&mut self, p_len: u16)
        ensures
            final(self)@ == (FileHeaderRecord { program_entries: p_len, ..old(self)@ }),
            final(self)@.sizes_match_class() == old(self)@.sizes_match_class(),
    {
        self.program_entries = p_len;
    }

    /// Sets the section-entry size to `s_size`.
    pub fn set_s_size(&mut self, s_size: u16)
        ensures
            final(self)@ == (FileHeaderRecord { section_size: s_size, ..old(self)@ }),
            final(self)@.sizes_match_class() == old(self)@.sizes_match_class(),
    {
        self.section_size = s_size;
    }

    /// Sets the number of entries in the section header table.
    pub fn set_s_len(&mut self, s_len: u16)
        ensures
            final(self)@ == (FileHeaderRecord { section_entries: s_len, ..old(self)@ }),
            final(self)@.sizes_match_class() == old(self)@.sizes_match_class(),
    {
        self.section_entries = s_len;
    }

    /// Sets the index of the section that holds the section names.
    pub fn set_s_idx(&mut self, s_idx: u16)
        ensures
            final(self)@ == (FileHeaderRecord { section_index: s_idx, ..old(self)@ }),
            final(self)@.sizes_match_class() == old(self)@.sizes_match_class(),
    {
        self.section_index = s_idx;
    }

    /// Sets the section-entry size to the encoded width of the sample
    /// `s_header`.
    pub fn set_s_header_size(&mut self, s_header: &SectionHeader)
        ensures
            final(self)@ == (FileHeaderRecord {
                section_size: s_header@.execution_class.section_entry_size(),
                ..old(self)@
            }),
            final(self)@.sizes_match_class() == old(self)@.sizes_match_class(),
    {
        self.section_size = s_header.encoded_len();
    }

    /// Sets the operating system and ABI that the file targets.
    pub fn set_os_abi(&mut self, os_abi: OsABI)
        ensures
            final(self)@ == (FileHeaderRecord { os_abi, ..old(self)@ }),
            final(self)@.sizes_match_class() == old(self)@.sizes_match_class(),
    {
        self.os_abi = os_abi;
    }

    /// Sets the version of the ABI that the file targets.
    pub fn set_abi_version(&mut self, abi_version: u8)
        ensures
            final(self)@ == (FileHeaderRecord { abi_version, ..old(self)@ }),
            final(self)@.sizes_match_class() == old(self)@.sizes_match_class(),
    {
        self.abi_version = abi_version;
    }

    /// Sets the kind of object file.
    pub fn set_object_type(&mut self, object_type: ObjectType)
        ensures
            final(self)@ == (FileHeaderRecord { object_type, ..old(self)@ }),
            final(self)@.sizes_match_class() == old(self)@.sizes_match_class(),
    {
        self.object_type = object_type;
    }

    /// Sets the machine architecture that the file targets.
    pub fn set_instruction_set(&mut self, instruction_set: InstructionSet)
        ensures
            final(self)@ == (FileHeaderRecord { instruction_set, ..old(self)@ }),
            final(self)@.sizes_match_class() == old(self)@.sizes_match_class(),
    {
        self.instruction_set = instruction_set;
    }

    /// The execution class that the header was constructed for.
    pub fn execution_class(&self) -> (class: ExecutionClass)
        ensures
            class == self@.execution_class,
    {
        self.execution_class
    }

    /// The byte order that the header was constructed for.
    pub fn endianness(&self) -> (order: Endianness)
        ensures
            order == self@.endianness,
    {
        self.endianness
    }

    /// The processor flags.
    pub fn flags(&self) -> (flags: u32)
        ensures
            flags == self@.flags,
    {
        self.flags
    }

    /// The size of one program header, as the header will state it.
    pub fn program_size(&self) -> (size: u16)
        ensures
            size == self@.program_size,
    {
        self.program_size
    }

    /// The size of one section header, as the header will state it.
    pub fn section_size(&self) -> (size: u16)
        ensures
            size == self@.section_size,
    {
        self.section_size
    }
}

/// The byte range of each field that follows the identification block, first
/// byte included and last byte excluded, in the order of
/// [`FileHeaderRecord::fields`].
pub open spec fn field_ranges(class: ExecutionClass) -> Seq<(int, int)> {
    let w = class.word_width() as int;
    seq![
        (16, 18),
        (18, 20),
        (20, 24),
        (24, 24 + w),
        (24 + w, 24 + 2 * w),
        (24 + 2 * w, 24 + 3 * w),
        (24 + 3 * w, 28 + 3 * w),
        (28 + 3 * w, 30 + 3 * w),
        (30 + 3 * w, 32 + 3 * w),
        (32 + 3 * w, 34 + 3 * w),
        (34 + 3 * w, 36 + 3 * w),
        (36 + 3 * w, 38 + 3 * w),
        (38 + 3 * w, 40 + 3 * w),
    ]
}

/// An encoded file header is as long as its class fixes: 64 bytes for the
/// 64-bit class, 52 for the 32-bit class.
pub proof fn lemma_encoded_len(record: FileHeaderRecord)
    ensures
        record.encoded().len() == record.execution_class.header_size(),
        record.execution_class == ExecutionClass::Long ==> record.encoded().len() == 64,
        record.execution_class == ExecutionClass::Real ==> record.encoded().len() == 52,
{
}

/// Every encoded file header begins with the four magic bytes.
pub proof fn lemma_encoded_starts_with_magic(record: FileHeaderRecord)
    ensures
        record.encoded().subrange(0, 4) == seq![0x7Fu8, 0x45u8, 0x4Cu8, 0x46u8],
{
    assert(record.encoded().subrange(0, 4) =~= seq![0x7Fu8, 0x45u8, 0x4Cu8, 0x46u8]);
}

/// Where everything lies in an encoded file header: the identification block
/// in its first 16 bytes, then each field in its range, one after the other
/// up to the end, each written in the record's byte order.
pub proof fn lemma_field_positions(record: FileHeaderRecord)
    ensures
        ({
            let bytes = record.encoded();
            let fields = record.fields();
            let ranges = field_ranges(record.execution_class);
            &&& bytes.subrange(0, 16) == record.ident()
            &&& fields.len() == ranges.len()
            &&& ranges[0].0 == 16
            &&& ranges[ranges.len() - 1].1 == bytes.len()
            &&& forall|k: int|
                0 <= k < ranges.len() - 1 ==> (#[trigger] ranges[k]).1 == ranges[k + 1].0
            &&& forall|k: int|
                #![trigger ranges[k]]
                #![trigger fields[k]]
                0 <= k < ranges.len() ==> ranges[k].1 - ranges[k].0 == fields[k].1
            &&& forall|k: int|
                #![trigger ranges[k]]
                #![trigger fields[k]]
                0 <= k < ranges.len() ==> bytes.subrange(ranges[k].0, ranges[k].1)
                    == ordered_bytes(record.endianness, fields[k].0, fields[k].1)
        }),
{
    let bytes = record.encoded();
    let fields = record.fields();
    let ranges = field_ranges(record.execution_class);
    assert(bytes.subrange(0, 16) =~= record.ident());
    assert forall|k: int| 0 <= k < ranges.len() implies #[trigger] bytes.subrange(
        ranges[k].0,
        ranges[k].1,
    ) == ordered_bytes(record.endianness, fields[k].0, fields[k].1) by {
        assert(bytes.subrange(ranges[k].0, ranges[k].1) =~= ordered_bytes(
            record.endianness,
            fields[k].0,
            fields[k].1,
        ));
    }
}

/// The same record written little-endian and big-endian: the two encodings
/// agree in the identification block but for its sixth byte, which names the
/// byte order, and each field after the block has its bytes reversed.
pub proof fn lemma_byte_order_reverses_fields(record: FileHeaderRecord)
    ensures
        ({
            let little = record.with_endianness(Endianness::Little).encoded();
            let big = record.with_endianness(Endianness::Big).encoded();
            let ranges = field_ranges(record.execution_class);
            &&& little.len() == big.len()
            &&& forall|i: int| 0 <= i < 16 && i != 5 ==> little[i] == big[i]
            &&& little[5] == 0x01
            &&& big[5] == 0x02
            &&& forall|k: int|
                0 <= k < ranges.len() ==> big.subrange((#[trigger] ranges[k]).0, ranges[k].1)
                    == little.subrange(ranges[k].0, ranges[k].1).reverse()
        }),
{
    let low = record.with_endianness(Endianness::Little);
    let high = record.with_endianness(Endianness::Big);
    let ranges = field_ranges(record.execution_class);
    lemma_field_positions(low);
    lemma_field_positions(high);
    assert(low.fields() == high.fields());
    assert forall|i: int| 0 <= i < 16 implies low.encoded()[i] == low.ident()[i]
        && high.encoded()[i] == high.ident()[i] by {
        assert(low.encoded().subrange(0, 16)[i] == low.encoded()[i]);
        assert(high.encoded().subrange(0, 16)[i] == high.encoded()[i]);
    }
    assert forall|k: int| 0 <= k < ranges.len() implies high.encoded().subrange(
        (#[trigger] ranges[k]).0,
        ranges[k].1,
    ) == low.encoded().subrange(ranges[k].0, ranges[k].1).reverse() by {
        let field = low.fields()[k];
        lemma_big_endian_is_reversed(field.0, field.1);
    }
}

/// Flags that are set and then added to hold the bits of both patterns, and
/// clearing them afterwards leaves none.
pub proof fn lemma_flags_accumulate(record: FileHeaderRecord, first: u32, second: u32)
    ensures
        record.set_flags(first).add_flags(second).flags == first | second,
        record.set_flags(first).add_flags(second).clear_flags().flags == 0,
        record.set_flags(first).add_flags(second) == record.set_flags(first | second),
        record.set_flags(first).add_flags(second).clear_flags() == record.set_flags(0),
{
}

/// The word width of an object file, which governs the size of every address,
/// offset and size field.
#[derive(Clone, Copy, Debug, PartialEq, Eq, Structural)]
pub enum ExecutionClass {
    /// 32-bit words.
    Real,
    /// 64-bit words.
    Long,
}

impl ExecutionClass {
    /// The class byte of the identification block.
    pub open spec fn spec_code(self) -> u8 {
        match self {
            ExecutionClass::Real => 0x01,
            ExecutionClass::Long => 0x02,
        }
    }

    /// The class byte of the identification block.
    #[verifier::when_used_as_spec(spec_code)]
    pub fn code(self) -> (c: u8)
        ensures
            c == self.spec_code(),
    {
        match self {
            ExecutionClass::Real => 0x01,
            ExecutionClass::Long => 0x02,
        }
    }

    /// The number of bytes in an address, offset or size field.
    pub open spec fn spec_word_width(self) -> usize {
        match self {
            ExecutionClass::Real => 4,
            ExecutionClass::Long => 8,
        }
    }

    /// The number of bytes in an address, offset or size field.
    #[verifier::when_used_as_spec(spec_word_width)]
    pub fn word_width(self) -> (w: usize)
        ensures
            w == self.spec_word_width(),
    {
        match self {
            ExecutionClass::Real => 4,
            ExecutionClass::Long => 8,
        }
    }

    /// The size in bytes of the file header.
    pub open spec fn spec_header_size(self) -> u16 {
        match self {
            ExecutionClass::Real => 52,
            ExecutionClass::Long => 64,
        }
    }

    /// The size in bytes of the file header.
    #[verifier::when_used_as_spec(spec_header_size)]
    pub fn header_size(self) -> (size: u16)
        ensures
            size == self.spec_header_size(),
    {
        match self {
            ExecutionClass::Real => 52,
            ExecutionClass::Long => 64,
        }
    }

    /// The size in bytes of one program header.
    pub open spec fn spec_program_entry_size(self) -> u16 {
        match self {
            ExecutionClass::Real => 32,
            ExecutionClass::Long => 56,
        }
    }

    /// The size in bytes of one program header.
    #[verifier::when_used_as_spec(spec_program_entry_size)]
    pub fn program_entry_size(self) -> (size: u16)
        ensures
            size == self.spec_program_entry_size(),
    {
        match self {
            ExecutionClass::Real => 32,
            ExecutionClass::Long => 56,
        }
    }

    /// The size in bytes of one section header.
    pub open spec fn spec_section_entry_size(self) -> u16 {
        match self {
            ExecutionClass::Real => 36,
            ExecutionClass::Long => 56,
        }
    }

    /// The size in bytes of one section header.
    #[verifier::when_used_as_spec(spec_section_entry_size)]
    pub fn section_entry_size(self) -> (size: u16)
        ensures
            size == self.spec_section_entry_size(),
    {
        match self {
            ExecutionClass::Real => 36,
            ExecutionClass::Long => 56,
        }
    }
}

/// The byte order of every multi-byte field after the identification block.
#[derive(Clone, Copy, Debug, PartialEq, Eq, Structural)]
pub enum Endianness {
    /// Least significant byte first.
    Little,
    /// Most significant byte first.
    Big,
}

impl Endianness {
    /// The data-encoding byte of the identification block.
    pub open spec fn spec_code(self) -> u8 {
        match self {
            Endianness::Little => 0x01,
            Endianness::Big => 0x02,
        }
    }

    /// The data-encoding byte of the identification block.
    #[verifier::when_used_as_spec(spec_code)]
    pub fn code(self) -> (c: u8)
        ensures
            c == self.spec_code(),
    {
        match self {
            Endianness::Little => 0x01,
            Endianness::Big => 0x02,
        }
    }
}

/// The version of the identification block.
#[derive(Clone, Copy, Debug, PartialEq, Eq, Structural)]
pub enum IdentifierElfVersion {
    /// Version 1, the only one defined.
    V1,
}

impl IdentifierElfVersion {
    /// The version byte of the identification block.
    pub open spec fn spec_code(self) -> u8 {
        match self {
            IdentifierElfVersion::V1 => 0x01,
        }
    }

    /// The version byte of the identification block.
    #[verifier::when_used_as_spec(spec_code)]
    pub fn code(self) -> (c: u8)
        ensures
            c == self.spec_code(),
    {
        match self {
            IdentifierElfVersion::V1 => 0x01,
        }
    }
}

/// The operating system and ABI that the object file targets.
#[derive(Clone, Copy, Debug, PartialEq, Eq, Structural)]
pub enum OsABI {
    SystemV,
    HPUX,
    NetBSD,
    Linux,
    GNUHurd,
    Solaris,
    AIX,
    IRIX,
    FreeBSD,
    Tru64,
    NovellModesto,
    OpenBSD,
    OpenVMS,
    AROS,
    FenixOS,
    NuxiCloudABI,
    StratusTechnologiesOpenVOS,
}

impl OsABI {
    /// The OS/ABI byte of the identification block.
    pub open spec fn spec_code(self) -> u8 {
        match self {
            OsABI::SystemV => 0x00,
            OsABI::HPUX => 0x01,
            OsABI::NetBSD => 0x02,
            OsABI::Linux => 0x03,
            OsABI::GNUHurd => 0x04,
            OsABI::Solaris => 0x05,
            OsABI::AIX => 0x07,
            OsABI::IRIX => 0x08,
            OsABI::FreeBSD => 0x09,
            OsABI::Tru64 => 0x0A,
            OsABI::NovellModesto => 0x0B,
            OsABI::OpenBSD => 0x0C,
            OsABI::OpenVMS => 0x0E,
            OsABI::AROS => 0x0F,
            OsABI::FenixOS => 0x10,
            OsABI::NuxiCloudABI => 0x11,
            OsABI::StratusTechnologiesOpenVOS => 0x12,
        }
    }

    /// The OS/ABI byte of the identification block.
    #[verifier::when_used_as_spec(spec_code)]
    pub fn code(self) -> (c: u8)
        ensures
            c == self.spec_code(),
    {
        match self {
            OsABI::SystemV => 0x00,
            OsABI::HPUX => 0x01,
            OsABI::NetBSD => 0x02,
            OsABI::Linux => 0x03,
            OsABI::GNUHurd => 0x04,
            OsABI::Solaris => 0x05,
            OsABI::AIX => 0x07,
            OsABI::IRIX => 0x08,
            OsABI::FreeBSD => 0x09,
            OsABI::Tru64 => 0x0A,
            OsABI::NovellModesto => 0x0B,
            OsABI::OpenBSD => 0x0C,
            OsABI::OpenVMS => 0x0E,
            OsABI::AROS => 0x0F,
            OsABI::FenixOS => 0x10,
            OsABI::NuxiCloudABI => 0x11,
            OsABI::StratusTechnologiesOpenVOS => 0x12,
        }
    }
}

/// What kind of object file this is.
#[allow(non_camel_case_types)]
#[derive(Clone, Copy, Debug, PartialEq, Eq, Structural)]
pub enum ObjectType {
    /// No file type.
    ET_NONE,
    /// A relocatable file.
    ET_REL,
    /// An executable file.
    ET_EXEC,
    /// A shared object.
    ET_DYN,
    /// A core file.
    ET_CORE,
    /// The start of the range reserved for operating systems.
    OS_SPEC,
    /// The start of the range reserved for processors.
    PROC_SPEC,
}

impl ObjectType {
    /// The value of the object-type field.
    pub open spec fn spec_code(self) -> u16 {
        match self {
            ObjectType::ET_NONE => 0x0000,
            ObjectType::ET_REL => 0x0001,
            ObjectType::ET_EXEC => 0x0002,
            ObjectType::ET_DYN => 0x0003,
            ObjectType::ET_CORE => 0x0004,
            ObjectType::OS_SPEC => 0xFE00,
            ObjectType::PROC_SPEC => 0xFF00,
        }
    }

    /// The value of the object-type field.
    #[verifier::when_used_as_spec(spec_code)]
    pub fn code(self) -> (c: u16)
        ensures
            c == self.spec_code(),
    {
        match self {
            ObjectType::ET_NONE => 0x0000,
            ObjectType::ET_REL => 0x0001,
            ObjectType::ET_EXEC => 0x0002,
            ObjectType::ET_DYN => 0x0003,
            ObjectType::ET_CORE => 0x0004,
            ObjectType::OS_SPEC => 0xFE00,
            ObjectType::PROC_SPEC => 0xFF00,
        }
    }
}

/// The machine architecture that the object file targets.
#[allow(non_camel_case_types)]
#[derive(Clone, Copy, Debug, PartialEq, Eq, Structural)]
pub enum InstructionSet {
    NoMachine,
    ATATWE32100,
    SPARC,
    X86,
    Motorola68000M68k,
    Motorola88000M88k,
    IntelMCU,
    Intel80860,
    MIPS,
    IBMSystem370,
    MIPSRS3000LittleEndian,
    HewlettPackardPARISC,
    Intel80960,
    PowerPC,
    PowerPC64bit,
    S390X,
    IBMSPUSPC,
    NECV800,
    FujitsuFR20,
    TRWRH32,
    MotorolaRCE,
    Arm,
    DigitalAlpha,
    SuperH,
    SPARCVersion9,
    SiemensTriCoreEmbeddedProcessor,
    ArgonautRISCCore,
    HitachiH8300,
    HitachiH8300H,
    HitachiH8S,
    HitachiH8500,
    IA64,
    StanfordMIPSX,
    MotorolaColdFire,
    MotorolaM68HC12,
    FujitsuMMAMultimediaAccelerator,
    SiemensPCP,
    SonynCPUEmbeddedRISCProcessor,
    DensoNDR1microProcessor,
    MotorolaStarCoreProcessor,
    ToyotaME16processor,
    STMicroelectronicsST100processor,
    AdvancedLogicCorpTinyJEmbeddedProcessorFamily,
    AMDx86_64,
    SonyDSPProcessor,
    DigitalEquipmentCorpPDP10,
    DigitalEquipmentCorpPDP11,
    SiemensFX66Microcontroller,
    STMicroelectronicsST9816bitMicrocontroller,
    STMicroelectronicsST78bitMicrocontroller,
    MotorolaMC68HC16Microcontroller,
    MotorolaMC68HC11Microcontroller,
    MotorolaMC68HC08Microcontroller,
    MotorolaMC68HC05Microcontroller,
    SiliconGraphicsSVx,
    STMicroElectronicsST198bitMicrocontroller,
    DigitalVAX,
    AxisCommunications32bitEmbeddedProcessor,
    InfineonTechnologies32bitEmbeddedProcessor,
    Element1464bitDSPProcessor,
    LSILogic16bitDSPProcessor,
    TMS320C6000Family,
    MCSTElbruse2k,
    Arm64bitsArmv8AArch64,
    ZilogZ80,
    RISCV,
    BerkeleyPacketFilter,
    WDC65C816,
    LoongArch,
}

impl InstructionSet {
    /// The value of the machine field.
    pub open spec fn spec_code(self) -> u16 {
        match self {
            InstructionSet::NoMachine => 0x0000,
            InstructionSet::ATATWE32100 => 0x0001,
            InstructionSet::SPARC => 0x0002,
            InstructionSet::X86 => 0x0003,
            InstructionSet::Motorola68000M68k => 0x0004,
            InstructionSet::Motorola88000M88k => 0x0005,
            InstructionSet::IntelMCU => 0x0006,
            InstructionSet::Intel80860 => 0x0007,
            InstructionSet::MIPS => 0x0008,
            InstructionSet::IBMSystem370 => 0x0009,
            InstructionSet::MIPSRS3000LittleEndian => 0x000A,
            InstructionSet::HewlettPackardPARISC => 0x000F,
            InstructionSet::Intel80960 => 0x0013,
            InstructionSet::PowerPC => 0x0014,
            InstructionSet::PowerPC64bit => 0x0015,
            InstructionSet::S390X => 0x0016,
            InstructionSet::IBMSPUSPC => 0x0017,
            InstructionSet::NECV800 => 0x0024,
            InstructionSet::FujitsuFR20 => 0x0025,
            InstructionSet::TRWRH32 => 0x0026,
            InstructionSet::MotorolaRCE => 0x0027,
            InstructionSet::Arm => 0x0028,
            InstructionSet::DigitalAlpha => 0x0029,
            InstructionSet::SuperH => 0x002A,
            InstructionSet::SPARCVersion9 => 0x002B,
            InstructionSet::SiemensTriCoreEmbeddedProcessor => 0x002C,
            InstructionSet::ArgonautRISCCore => 0x002D,
            InstructionSet::HitachiH8300 => 0x002E,
            InstructionSet::HitachiH8300H => 0x002F,
            InstructionSet::HitachiH8S => 0x0030,
            InstructionSet::HitachiH8500 => 0x0031,
            InstructionSet::IA64 => 0x0032,
            InstructionSet::StanfordMIPSX => 0x0033,
            InstructionSet::MotorolaColdFire => 0x0034,
            InstructionSet::MotorolaM68HC12 => 0x0035,
            InstructionSet::FujitsuMMAMultimediaAccelerator => 0x0036,
            InstructionSet::SiemensPCP => 0x0037,
            InstructionSet::SonynCPUEmbeddedRISCProcessor => 0x0038,
            InstructionSet::DensoNDR1microProcessor => 0x0039,
            InstructionSet::MotorolaStarCoreProcessor => 0x003A,
            InstructionSet::ToyotaME16processor => 0x003B,
            InstructionSet::STMicroelectronicsST100processor => 0x003C,
            InstructionSet::AdvancedLogicCorpTinyJEmbeddedProcessorFamily => 0x003D,
            InstructionSet::AMDx86_64 => 0x003E,
            InstructionSet::SonyDSPProcessor => 0x003F,
            InstructionSet::DigitalEquipmentCorpPDP10 => 0x0040,
            InstructionSet::DigitalEquipmentCorpPDP11 => 0x0041,
            InstructionSet::SiemensFX66Microcontroller => 0x0042,
            InstructionSet::STMicroelectronicsST9816bitMicrocontroller => 0x0043,
            InstructionSet::STMicroelectronicsST78bitMicrocontroller => 0x0044,
            InstructionSet::MotorolaMC68HC16Microcontroller => 0x0045,
            InstructionSet::MotorolaMC68HC11Microcontroller => 0x0046,
            InstructionSet::MotorolaMC68HC08Microcontroller => 0x0047,
            InstructionSet::MotorolaMC68HC05Microcontroller => 0x0048,
            InstructionSet::SiliconGraphicsSVx => 0x0049,
            InstructionSet::STMicroElectronicsST198bitMicrocontroller => 0x004A,
            InstructionSet::DigitalVAX => 0x004B,
            InstructionSet::AxisCommunications32bitEmbeddedProcessor => 0x004C,
            InstructionSet::InfineonTechnologies32bitEmbeddedProcessor => 0x004D,
            InstructionSet::Element1464bitDSPProcessor => 0x004E,
            InstructionSet::LSILogic16bitDSPProcessor => 0x004F,
            InstructionSet::TMS320C6000Family => 0x008C,
            InstructionSet::MCSTElbruse2k => 0x00AF,
            InstructionSet::Arm64bitsArmv8AArch64 => 0x00B7,
            InstructionSet::ZilogZ80 => 0x00DC,
            InstructionSet::RISCV => 0x00F3,
            InstructionSet::BerkeleyPacketFilter => 0x00F7,
            InstructionSet::WDC65C816 => 0x0101,
            InstructionSet::LoongArch => 0x0102,
        }
    }

    /// The value of the machine field.
    #[verifier::when_used_as_spec(spec_code)]
    pub fn code(self) -> (c: u16)
        ensures
            c == self.spec_code(),
    {
        match self {
            InstructionSet::NoMachine => 0x0000,
            InstructionSet::ATATWE32100 => 0x0001,
            InstructionSet::SPARC => 0x0002,
            InstructionSet::X86 => 0x0003,
            InstructionSet::Motorola68000M68k => 0x0004,
            InstructionSet::Motorola88000M88k => 0x0005,
            InstructionSet::IntelMCU => 0x0006,
            InstructionSet::Intel80860 => 0x0007,
            InstructionSet::MIPS => 0x0008,
            InstructionSet::IBMSystem370 => 0x0009,
            InstructionSet::MIPSRS3000LittleEndian => 0x000A,
            InstructionSet::HewlettPackardPARISC => 0x000F,
            InstructionSet::Intel80960 => 0x0013,
            InstructionSet::PowerPC => 0x0014,
            InstructionSet::PowerPC64bit => 0x0015,
            InstructionSet::S390X => 0x0016,
            InstructionSet::IBMSPUSPC => 0x0017,
            InstructionSet::NECV800 => 0x0024,
            InstructionSet::FujitsuFR20 => 0x0025,
            InstructionSet::TRWRH32 => 0x0026,
            InstructionSet::MotorolaRCE => 0x0027,
            InstructionSet::Arm => 0x0028,
            InstructionSet::DigitalAlpha => 0x0029,
            InstructionSet::SuperH => 0x002A,
            InstructionSet::SPARCVersion9 => 0x002B,
            InstructionSet::SiemensTriCoreEmbeddedProcessor => 0x002C,
            InstructionSet::ArgonautRISCCore => 0x002D,
            InstructionSet::HitachiH8300 => 0x002E,
            InstructionSet::HitachiH8300H => 0x002F,
            InstructionSet::HitachiH8S => 0x0030,
            InstructionSet::HitachiH8500 => 0x0031,
            InstructionSet::IA64 => 0x0032,
            InstructionSet::StanfordMIPSX => 0x0033,
            InstructionSet::MotorolaColdFire => 0x0034,
            InstructionSet::MotorolaM68HC12 => 0x0035,
            InstructionSet::FujitsuMMAMultimediaAccelerator => 0x0036,
            InstructionSet::SiemensPCP => 0x0037,
            InstructionSet::SonynCPUEmbeddedRISCProcessor => 0x0038,
            InstructionSet::DensoNDR1microProcessor => 0x0039,
            InstructionSet::MotorolaStarCoreProcessor => 0x003A,
            InstructionSet::ToyotaME16processor => 0x003B,
            InstructionSet::STMicroelectronicsST100processor => 0x003C,
            InstructionSet::AdvancedLogicCorpTinyJEmbeddedProcessorFamily => 0x003D,
            InstructionSet::AMDx86_64 => 0x003E,
            InstructionSet::SonyDSPProcessor => 0x003F,
            InstructionSet::DigitalEquipmentCorpPDP10 => 0x0040,
            InstructionSet::DigitalEquipmentCorpPDP11 => 0x0041,
            InstructionSet::SiemensFX66Microcontroller => 0x0042,
            InstructionSet::STMicroelectronicsST9816bitMicrocontroller => 0x0043,
            InstructionSet::STMicroelectronicsST78bitMicrocontroller => 0x0044,
            InstructionSet::MotorolaMC68HC16Microcontroller => 0x0045,
            InstructionSet::MotorolaMC68HC11Microcontroller => 0x0046,
            InstructionSet::MotorolaMC68HC08Microcontroller => 0x0047,
            InstructionSet::MotorolaMC68HC05Microcontroller => 0x0048,
            InstructionSet::SiliconGraphicsSVx => 0x0049,
            InstructionSet::STMicroElectronicsST198bitMicrocontroller => 0x004A,
            InstructionSet::DigitalVAX => 0x004B,
            InstructionSet::AxisCommunications32bitEmbeddedProcessor => 0x004C,
            InstructionSet::InfineonTechnologies32bitEmbeddedProcessor => 0x004D,
            InstructionSet::Element1464bitDSPProcessor => 0x004E,
            InstructionSet::LSILogic16bitDSPProcessor => 0x004F,
            InstructionSet::TMS320C6000Family => 0x008C,
            InstructionSet::MCSTElbruse2k => 0x00AF,
            InstructionSet::Arm64bitsArmv8AArch64 => 0x00B7,
            InstructionSet::ZilogZ80 => 0x00DC,
            InstructionSet::RISCV => 0x00F3,
            InstructionSet::BerkeleyPacketFilter => 0x00F7,
            InstructionSet::WDC65C816 => 0x0101,
            InstructionSet::LoongArch => 0x0102,
        }
    }
}

} // verus!
