//! The program (segment) header: one entry of the program header table.

use crate::elf_header::{Endianness, ExecutionClass};
use crate::encoding::{host_order, ordered_bytes, push_uint, push_word, word_bytes};
use vstd::prelude::*;

verus! {

/// What a program header holds: the view of a [`ProgramHeader`].
pub struct ProgramHeaderRecord {
    pub execution_class: ExecutionClass,
    pub segment_type: SegmentType,
    pub segment_flags: u32,
    pub segment_offset: u64,
    pub virtual_address: u64,
    pub physical_address: u64,
    pub file_size: u64,
    pub memory_size: u64,
    pub alignment: u64,
}

impl ProgramHeaderRecord {
    /// The record that a program header of class `class` starts as: a null
    /// segment at no position, with the executable and the readable flag set
    /// and the writable flag clear, which as a bit set is 5.
    pub open spec fn initial(class: ExecutionClass) -> ProgramHeaderRecord {
        ProgramHeaderRecord {
            execution_class: class,
            segment_type: SegmentType::PT_NULL,
            segment_flags: 0x0000_0005,
            segment_offset: 0,
            virtual_address: 0,
            physical_address: 0,
            file_size: 0,
            memory_size: 0,
            alignment: 0,
        }
    }

    /// Whether the bit of `flag` is set in the flags.
    pub open spec fn has_flag(self, flag: SegmentFlag) -> bool {
        self.segment_flags & flag.code() == flag.code()
    }

    /// The on-disk bytes of the header in the byte order `order`.
    ///
    /// The two classes order their fields differently: the 64-bit layout has
    /// the flags right after the type, the 32-bit layout has them after the
    /// memory size, before the alignment. The flags are one 32-bit bit set,
    /// written in the byte order like every other field.
    pub open spec fn encoded(self, order: Endianness) -> Seq<u8> {
        let class = self.execution_class;
        match class {
            ExecutionClass::Long => {
                ordered_bytes(order, self.segment_type.code() as nat, 4)
                    + ordered_bytes(order, self.segment_flags as nat, 4)
                    + word_bytes(class, order, self.segment_offset)
                    + word_bytes(class, order, self.virtual_address)
                    + word_bytes(class, order, self.physical_address)
                    + word_bytes(class, order, self.file_size)
                    + word_bytes(class, order, self.memory_size)
                    + word_bytes(class, order, self.alignment)
            },
            ExecutionClass::Real => {
                ordered_bytes(order, self.segment_type.code() as nat, 4)
                    + word_bytes(class, order, self.segment_offset)
                    + word_bytes(class, order, self.virtual_address)
                    + word_bytes(class, order, self.physical_address)
                    + word_bytes(class, order, self.file_size)
                    + word_bytes(class, order, self.memory_size)
                    + ordered_bytes(order, self.segment_flags as nat, 4)
                    + word_bytes(class, order, self.alignment)
            },
        }
    }
}

/// One program header.
///
/// It is constructed for one execution class, changed through its setters,
/// and consumed by [`ProgramHeader::write_bytes`] or
/// [`ProgramHeader::write_bytes_ordered`].
pub struct ProgramHeader {
    execution_class: ExecutionClass,
    segment_type: SegmentType,
    segment_flags: u32,
    segment_offset: u64,
    virtual_address: u64,
    physical_address: u64,
    file_size: u64,
    memory_size: u64,
    alignment: u64,
}

impl View for ProgramHeader {
    type V = ProgramHeaderRecord;

    closed spec fn view(&self) -> ProgramHeaderRecord {
        ProgramHeaderRecord {
            execution_class: self.execution_class,
            segment_type: self.segment_type,
            segment_flags: self.segment_flags,
            segment_offset: self.segment_offset,
            virtual_address: self.virtual_address,
            physical_address: self.physical_address,
            file_size: self.file_size,
            memory_size: self.memory_size,
            alignment: self.alignment,
        }
    }
}

impl Default for ProgramHeader {
    /// A 64-bit program header.
    fn default() -> (header: ProgramHeader)
        ensures
            header@ == ProgramHeaderRecord::initial(ExecutionClass::Long),
    {
        ProgramHeader::new(ExecutionClass::Long)
    }
}

impl ProgramHeader {
    /// A program header of the given class, fixed from here on.
    pub fn new(class: ExecutionClass) -> (header: ProgramHeader)
        ensures
            header@ == ProgramHeaderRecord::initial(class),
    {
        let flags: u32 = SegmentFlag::Executable.code() | SegmentFlag::Readable.code();
        assert(flags == 0x0000_0005) by (bit_vector)
            requires
                flags == 0x0000_0001u32 | 0x0000_0004u32,
        ;
        ProgramHeader {
            execution_class: class,
            segment_type: SegmentType::PT_NULL,
            segment_flags: flags,
            segment_offset: 0,
            virtual_address: 0,
            physical_address: 0,
            file_size: 0,
            memory_size: 0,
            alignment: 0,
        }
    }

    /// The execution class that the header was constructed for.
    pub fn execution_class(&self) -> (class: ExecutionClass)
        ensures
            class == self@.execution_class,
    {
        self.execution_class
    }

    /// The number of bytes that the header is written as.
    pub fn encoded_len(&self) -> (len: u16)
        ensures
            len == self@.execution_class.program_entry_size(),
            forall|order: Endianness| len == (#[trigger] self@.encoded(order)).len(),
    {
        self.execution_class.program_entry_size()
    }

    /// Consumes the header and returns its on-disk bytes in the byte order
    /// `order`.
    pub fn write_bytes_ordered(self, order: Endianness) -> (bytes: Vec<u8>)
        ensures
            bytes@ == self@.encoded(order),
            bytes@.len() == self@.execution_class.program_entry_size(),
    {
        let class = self.execution_class;
        let mut v: Vec<u8> = Vec::new();
        push_uint(&mut v, self.segment_type.code() as u64, 4, order);
        match class {
            ExecutionClass::Long => {
                push_uint(&mut v, self.segment_flags as u64, 4, order);
            },
            ExecutionClass::Real => {},
        }
        push_word(&mut v, self.segment_offset, class, order);
        push_word(&mut v, self.virtual_address, class, order);
        push_word(&mut v, self.physical_address, class, order);
        push_word(&mut v, self.file_size, class, order);
        push_word(&mut v, self.memory_size, class, order);
        match class {
            ExecutionClass::Long => {},
            ExecutionClass::Real => {
                push_uint(&mut v, self.segment_flags as u64, 4, order);
            },
        }
        push_word(&mut v, self.alignment, class, order);
        v
    }

    /// Consumes the header and returns its on-disk bytes in the byte order of
    /// the machine that runs this code, whatever the file header's byte order
    /// is.
    pub fn write_bytes(self) -> (bytes: Vec<u8>)
        ensures
            bytes@ == self@.encoded(Endianness::Little) || bytes@ == self@.encoded(Endianness::Big),
            bytes@.len() == self@.execution_class.program_entry_size(),
    {
        let order = host_order();
        self.write_bytes_ordered(order)
    }

    /// Sets the kind of segment.
    pub fn set_type(&mut self, segment_type: SegmentType)
        ensures
            final(self)@ == (ProgramHeaderRecord { segment_type, ..old(self)@ }),
    {
        self.segment_type = segment_type;
    }

    /// Replaces the flags by the bit set `segment_flags`.
    pub fn set_flags(&mut self, segment_flags: u32)
        ensures
            final(self)@ == (ProgramHeaderRecord { segment_flags, ..old(self)@ }),
    {
        self.segment_flags = segment_flags;
    }

    /// Sets the offset of the segment in the file.
    pub fn set_offset(&mut self, segment_offset: u64)
        ensures
            final(self)@ == (ProgramHeaderRecord { segment_offset, ..old(self)@ }),
    {
        self.segment_offset = segment_offset;
    }

    /// Sets the virtual address of the segment in memory.
    pub fn set_virtual_address(&mut self, virtual_address: u64)
        ensures
            final(self)@ == (ProgramHeaderRecord { virtual_address, ..old(self)@ }),
    {
        self.virtual_address = virtual_address;
    }

    /// Sets the physical address of the segment.
    pub fn set_physical_address(&mut self, physical_address: u64)
        ensures
            final(self)@ == (ProgramHeaderRecord { physical_address, ..old(self)@ }),
    {
        self.physical_address = physical_address;
    }

    /// Sets the size of the segment in the file.
    pub fn set_file_size(&mut self, file_size: u64)
        ensures
            final(self)@ == (ProgramHeaderRecord { file_size, ..old(self)@ }),
    {
        self.file_size = file_size;
    }

    /// Sets the size of the segment in memory.
    pub fn set_memory_size(&mut self, memory_size: u64)
        ensures
            final(self)@ == (ProgramHeaderRecord { memory_size, ..old(self)@ }),
    {
        self.memory_size = memory_size;
    }

    /// Sets the alignment of the segment.
    pub fn set_alignment(&mut self, alignment: u64)
        ensures
            final(self)@ == (ProgramHeaderRecord { alignment, ..old(self)@ }),
    {
        self.alignment = alignment;
    }
}

/// An encoded program header is as long as its class fixes: 56 bytes for the
/// 64-bit class, 32 for the 32-bit class.
pub proof fn lemma_encoded_len(record: ProgramHeaderRecord, order: Endianness)
    ensures
        record.encoded(order).len() == record.execution_class.program_entry_size(),
        record.execution_class == ExecutionClass::Long ==> record.encoded(order).len() == 56,
        record.execution_class == ExecutionClass::Real ==> record.encoded(order).len() == 32,
{
}

/// The flags that a program header starts with are the executable and the
/// readable bit together, and no other.
pub proof fn lemma_initial_flags(class: ExecutionClass)
    ensures
        ProgramHeaderRecord::initial(class).segment_flags == SegmentFlag::Executable.code()
            | SegmentFlag::Readable.code(),
        ProgramHeaderRecord::initial(class).has_flag(SegmentFlag::Executable),
        ProgramHeaderRecord::initial(class).has_flag(SegmentFlag::Readable),
        !ProgramHeaderRecord::initial(class).has_flag(SegmentFlag::Writeable),
{
    assert(0x0000_0005u32 == 0x0000_0001u32 | 0x0000_0004u32) by (bit_vector);
    assert(0x0000_0005u32 & 0x0000_0001u32 == 0x0000_0001u32) by (bit_vector);
    assert(0x0000_0005u32 & 0x0000_0004u32 == 0x0000_0004u32) by (bit_vector);
    assert(0x0000_0005u32 & 0x0000_0002u32 == 0u32) by (bit_vector);
}

/// Where the flags lie: in a 64-bit program header at byte offset 4, right
/// after the four bytes of the type; in a 32-bit program header in the four
/// bytes before the alignment, which is the last field. In both they are
/// written in the byte order, as the type is.
pub proof fn lemma_flags_position(record: ProgramHeaderRecord, order: Endianness)
    ensures
        ({
            let bytes = record.encoded(order);
            let class = record.execution_class;
            &&& bytes.subrange(0, 4) == ordered_bytes(order, record.segment_type.code() as nat, 4)
            &&& class == ExecutionClass::Long ==> bytes.subrange(4, 8) == ordered_bytes(
                order,
                record.segment_flags as nat,
                4,
            )
            &&& class == ExecutionClass::Real ==> bytes.subrange(24, 28) == ordered_bytes(
                order,
                record.segment_flags as nat,
                4,
            )
            &&& class == ExecutionClass::Real ==> bytes.subrange(28, 32) == word_bytes(
                class,
                order,
                record.alignment,
            )
            &&& class == ExecutionClass::Real ==> bytes.len() == 32
        }),
{
    let bytes = record.encoded(order);
    assert(bytes.subrange(0, 4) =~= ordered_bytes(order, record.segment_type.code() as nat, 4));
    match record.execution_class {
        ExecutionClass::Long => {
            assert(bytes.subrange(4, 8) =~= ordered_bytes(order, record.segment_flags as nat, 4));
        },
        ExecutionClass::Real => {
            assert(bytes.subrange(24, 28) =~= ordered_bytes(
                order,
                record.segment_flags as nat,
                4,
            ));
            assert(bytes.subrange(28, 32) =~= word_bytes(
                record.execution_class,
                order,
                record.alignment,
            ));
        },
    }
}

/// Where the word-sized fields lie. With `w` the word width, the file offset,
/// the two addresses and the two sizes follow one another from byte `first`
/// on, which is 8 in the 64-bit layout and 4 in the 32-bit layout, and the
/// alignment takes the last `w` bytes.
pub proof fn lemma_word_positions(record: ProgramHeaderRecord, order: Endianness)
    ensures
        ({
            let bytes = record.encoded(order);
            let class = record.execution_class;
            let w = class.word_width() as int;
            let first = if class == ExecutionClass::Long {
                8int
            } else {
                4int
            };
            &&& bytes.subrange(first, first + w) == word_bytes(class, order, record.segment_offset)
            &&& bytes.subrange(first + w, first + 2 * w) == word_bytes(
                class,
                order,
                record.virtual_address,
            )
            &&& bytes.subrange(first + 2 * w, first + 3 * w) == word_bytes(
                class,
                order,
                record.physical_address,
            )
            &&& bytes.subrange(first + 3 * w, first + 4 * w) == word_bytes(
                class,
                order,
                record.file_size,
            )
            &&& bytes.subrange(first + 4 * w, first + 5 * w) == word_bytes(
                class,
                order,
                record.memory_size,
            )
            &&& bytes.subrange(bytes.len() - w, bytes.len() as int) == word_bytes(
                class,
                order,
                record.alignment,
            )
        }),
{
    let bytes = record.encoded(order);
    let class = record.execution_class;
    let w = class.word_width() as int;
    let first = if class == ExecutionClass::Long {
        8int
    } else {
        4int
    };
    assert(bytes.subrange(first, first + w) =~= word_bytes(class, order, record.segment_offset));
    assert(bytes.subrange(first + w, first + 2 * w) =~= word_bytes(
        class,
        order,
        record.virtual_address,
    ));
    assert(bytes.subrange(first + 2 * w, first + 3 * w) =~= word_bytes(
        class,
        order,
        record.physical_address,
    ));
    assert(bytes.subrange(first + 3 * w, first + 4 * w) =~= word_bytes(
        class,
        order,
        record.file_size,
    ));
    assert(bytes.subrange(first + 4 * w, first + 5 * w) =~= word_bytes(
        class,
        order,
        record.memory_size,
    ));
    assert(bytes.subrange(bytes.len() - w, bytes.len() as int) =~= word_bytes(
        class,
        order,
        record.alignment,
    ));
}

/// What kind of segment a program header describes.
#[allow(non_camel_case_types)]
#[derive(Clone, Copy, Debug, PartialEq, Eq, Structural)]
pub enum SegmentType {
    /// An unused entry.
    PT_NULL,
    /// A loadable segment.
    PT_LOAD,
    /// Dynamic linking information.
    PT_DYNAMIC,
    /// The path of the interpreter.
    PT_INTERP,
    /// Auxiliary information.
    PT_NOTE,
    /// Reserved.
    PT_SHLIB,
    /// The program header table itself.
    PT_PHDR,
    /// The thread-local storage template.
    PT_TLS,
    /// The start of the range reserved for operating systems.
    PT_LOOS,
    /// The end of the range reserved for operating systems.
    PT_HIOS,
    /// The start of the range reserved for processors.
    PT_LOPROC,
    /// The end of the range reserved for processors.
    PT_HIPROC,
}

impl SegmentType {
    /// The value of the segment-type field.
    pub open spec fn spec_code(self) -> u32 {
        match self {
            SegmentType::PT_NULL => 0x00000000,
            SegmentType::PT_LOAD => 0x00000001,
            SegmentType::PT_DYNAMIC => 0x00000002,
            SegmentType::PT_INTERP => 0x00000003,
            SegmentType::PT_NOTE => 0x00000004,
            SegmentType::PT_SHLIB => 0x00000005,
            SegmentType::PT_PHDR => 0x00000006,
            SegmentType::PT_TLS => 0x00000007,
            SegmentType::PT_LOOS => 0x60000000,
            SegmentType::PT_HIOS => 0x6FFFFFFF,
            SegmentType::PT_LOPROC => 0x70000000,
            SegmentType::PT_HIPROC => 0x7FFFFFFF,
        }
    }

    /// The value of the segment-type field.
    #[verifier::when_used_as_spec(spec_code)]
    pub fn code(self) -> (c: u32)
        ensures
            c == self.spec_code(),
    {
        match self {
            SegmentType::PT_NULL => 0x00000000,
            SegmentType::PT_LOAD => 0x00000001,
            SegmentType::PT_DYNAMIC => 0x00000002,
            SegmentType::PT_INTERP => 0x00000003,
            SegmentType::PT_NOTE => 0x00000004,
            SegmentType::PT_SHLIB => 0x00000005,
            SegmentType::PT_PHDR => 0x00000006,
            SegmentType::PT_TLS => 0x00000007,
            SegmentType::PT_LOOS => 0x60000000,
            SegmentType::PT_HIOS => 0x6FFFFFFF,
            SegmentType::PT_LOPROC => 0x70000000,
            SegmentType::PT_HIPROC => 0x7FFFFFFF,
        }
    }
}

/// One permission of a segment.
#[derive(Clone, Copy, Debug, PartialEq, Eq, Structural)]
pub enum SegmentFlag {
    /// The segment may be executed.
    Executable,
    /// The segment may be written.
    Writeable,
    /// The segment may be read.
    Readable,
}

impl SegmentFlag {
    /// The bit that stands for the permission in the 32-bit flags.
    pub open spec fn spec_code(self) -> u32 {
        match self {
            SegmentFlag::Executable => 0x00000001,
            SegmentFlag::Writeable => 0x00000002,
            SegmentFlag::Readable => 0x00000004,
        }
    }

    /// The bit that stands for the permission in the 32-bit flags.
    #[verifier::when_used_as_spec(spec_code)]
    pub fn code(self) -> (c: u32)
        ensures
            c == self.spec_code(),
    {
        match self {
            SegmentFlag::Executable => 0x00000001,
            SegmentFlag::Writeable => 0x00000002,
            SegmentFlag::Readable => 0x00000004,
        }
    }
}

} // verus!
