//! The eGON.BT0 header.
//!
//! The boot ROM reads this record at the start of the image to recognise
//! the firmware, check it and find its length. Its layout is fixed by the
//! boot ROM: eight magic bytes, eight 32-bit fields and thirteen reserved
//! 32-bit slots, 0x5C bytes in all, numbers stored least significant byte
//! first.

use vstd::prelude::*;
use crate::memory::{le_u32, store_word};

verus! {

/// eGON.BT0 identifying structure.
pub struct EgonHead {
    magic: [u8; 8],
    checksum: u32,
    length: u32,
    _head_size: u32,
    fel_script_address: u32,
    fel_uenv_length: u32,
    dt_name_offset: u32,
    dram_size: u32,
    boot_media: u32,
    string_pool: [u32; 13],
}

/// The 32-bit fields of the header that follow the magic bytes, by name.
#[derive(Clone, Copy, Debug, PartialEq, Eq, Structural)]
pub enum HeadField {
    /// Image checksum, filled in when the image is packed.
    Checksum,
    /// Total image length.
    Length,
    /// Header size; used by the loader.
    HeadSize,
    /// Address of the FEL script.
    FelScriptAddress,
    /// Length of the FEL environment.
    FelUenvLength,
    /// Offset of the device tree name.
    DtNameOffset,
    /// Size of the DRAM.
    DramSize,
    /// Boot medium.
    BootMedia,
}

impl HeadField {
    /// The byte offset of the field from the start of the header.
    pub open spec fn spec_offset(self) -> nat {
        match self {
            HeadField::Checksum => EgonHead::CHECKSUM_OFFSET as nat,
            HeadField::Length => EgonHead::LENGTH_OFFSET as nat,
            HeadField::HeadSize => EgonHead::HEAD_SIZE_OFFSET as nat,
            HeadField::FelScriptAddress => EgonHead::FEL_SCRIPT_ADDRESS_OFFSET as nat,
            HeadField::FelUenvLength => EgonHead::FEL_UENV_LENGTH_OFFSET as nat,
            HeadField::DtNameOffset => EgonHead::DT_NAME_OFFSET_OFFSET as nat,
            HeadField::DramSize => EgonHead::DRAM_SIZE_OFFSET as nat,
            HeadField::BootMedia => EgonHead::BOOT_MEDIA_OFFSET as nat,
        }
    }

    /// The byte offset of the field from the start of the header.
    pub fn offset(self) -> (offset: usize)
        ensures
            offset == self.spec_offset(),
    {
        match self {
            HeadField::Checksum => EgonHead::CHECKSUM_OFFSET,
            HeadField::Length => EgonHead::LENGTH_OFFSET,
            HeadField::HeadSize => EgonHead::HEAD_SIZE_OFFSET,
            HeadField::FelScriptAddress => EgonHead::FEL_SCRIPT_ADDRESS_OFFSET,
            HeadField::FelUenvLength => EgonHead::FEL_UENV_LENGTH_OFFSET,
            HeadField::DtNameOffset => EgonHead::DT_NAME_OFFSET_OFFSET,
            HeadField::DramSize => EgonHead::DRAM_SIZE_OFFSET,
            HeadField::BootMedia => EgonHead::BOOT_MEDIA_OFFSET,
        }
    }

    /// The fields follow the magic bytes one after another, each a whole
    /// word, and the reserved slots follow the last of them.
    pub proof fn lemma_layout(a: HeadField, b: HeadField)
        ensures
            EgonHead::MAGIC_SIZE <= a.spec_offset(),
            a.spec_offset() % 4 == 0,
            a.spec_offset() + 4 <= EgonHead::STRING_POOL_OFFSET,
            a != b ==> a.spec_offset() + 4 <= b.spec_offset() || b.spec_offset() + 4
                <= a.spec_offset(),
    {
    }
}

impl EgonHead {
    /// The number of magic bytes at the start of the header.
    pub const MAGIC_SIZE: usize = 8;

    /// The byte offset of the magic bytes.
    pub const MAGIC_OFFSET: usize = 0x00;

    /// The byte offset of the checksum field.
    pub const CHECKSUM_OFFSET: usize = 0x08;

    /// The byte offset of the length field.
    pub const LENGTH_OFFSET: usize = 0x0C;

    /// The byte offset of the header size field.
    pub const HEAD_SIZE_OFFSET: usize = 0x10;

    /// The byte offset of the FEL script address field.
    pub const FEL_SCRIPT_ADDRESS_OFFSET: usize = 0x14;

    /// The byte offset of the FEL environment length field.
    pub const FEL_UENV_LENGTH_OFFSET: usize = 0x18;

    /// The byte offset of the device tree name offset field.
    pub const DT_NAME_OFFSET_OFFSET: usize = 0x1C;

    /// The byte offset of the DRAM size field.
    pub const DRAM_SIZE_OFFSET: usize = 0x20;

    /// The byte offset of the boot medium field.
    pub const BOOT_MEDIA_OFFSET: usize = 0x24;

    /// The byte offset of the first reserved slot.
    pub const STRING_POOL_OFFSET: usize = 0x28;

    /// The number of reserved slots.
    pub const STRING_POOL_SLOTS: usize = 13;

    /// The size of the header in bytes.
    pub const SIZE: usize = 0x5C;

    /// The checksum that a freshly built image carries until it is packed.
    pub const CHECKSUM_STAMP: u32 = 0x5F0A6C39;

    /// The image length that a freshly built image declares.
    pub const DEFAULT_LENGTH: u32 = 0x8000;

    /// The bytes `eGON.BT0`.
    pub open spec fn spec_egon_magic() -> Seq<u8> {
        seq![0x65u8, 0x47u8, 0x4Fu8, 0x4Eu8, 0x2Eu8, 0x42u8, 0x54u8, 0x30u8]
    }

    /// Every header starts with the magic bytes `eGON.BT0`.
    #[verifier::type_invariant]
    closed spec fn starts_with_magic(&self) -> bool {
        self.magic@ == Self::spec_egon_magic()
    }

    /// The value of the field `field` of this header.
    pub closed spec fn spec_word(&self, field: HeadField) -> u32 {
        match field {
            HeadField::Checksum => self.checksum,
            HeadField::Length => self.length,
            HeadField::HeadSize => self._head_size,
            HeadField::FelScriptAddress => self.fel_script_address,
            HeadField::FelUenvLength => self.fel_uenv_length,
            HeadField::DtNameOffset => self.dt_name_offset,
            HeadField::DramSize => self.dram_size,
            HeadField::BootMedia => self.boot_media,
        }
    }

    /// The reserved slots of this header.
    pub closed spec fn spec_string_pool(&self) -> Seq<u32> {
        self.string_pool@
    }

    /// Every header has `STRING_POOL_SLOTS` reserved slots.
    pub proof fn lemma_string_pool_len(&self)
        ensures
            self.spec_string_pool().len() == Self::STRING_POOL_SLOTS,
    {
    }

    /// The header of a freshly built image: the magic bytes `eGON.BT0`, the
    /// stand-in checksum, the default length, and zero in every other field
    /// and slot.
    pub fn new() -> (head: Self)
        ensures
            forall|field: HeadField| #[trigger]
                head.spec_word(field) == (match field {
                    HeadField::Checksum => Self::CHECKSUM_STAMP,
                    HeadField::Length => Self::DEFAULT_LENGTH,
                    _ => 0u32,
                }),
            head.spec_string_pool().len() == Self::STRING_POOL_SLOTS,
            forall|slot: int|
                0 <= slot < Self::STRING_POOL_SLOTS ==> head.spec_string_pool()[slot] == 0,
    {
        let magic: [u8; 8] = [0x65, 0x47, 0x4F, 0x4E, 0x2E, 0x42, 0x54, 0x30];
        assert(magic@ =~= Self::spec_egon_magic());
        EgonHead {
            magic,
            checksum: Self::CHECKSUM_STAMP,
            length: Self::DEFAULT_LENGTH,
            _head_size: 0,
            fel_script_address: 0,
            fel_uenv_length: 0,
            dt_name_offset: 0,
            dram_size: 0,
            boot_media: 0,
            string_pool: [0, 0, 0, 0, 0, 0, 0, 0, 0, 0, 0, 0, 0],
        }
    }

    /// The image checksum. In a freshly built image it is a stand-in; the
    /// tool that packs the image overwrites it, and the boot ROM checks it.
    pub fn checksum(&self) -> (checksum: u32)
        ensures
            checksum == self.spec_word(HeadField::Checksum),
    {
        self.checksum
    }

    /// The total image length in bytes.
    pub fn length(&self) -> (length: u32)
        ensures
            length == self.spec_word(HeadField::Length),
    {
        self.length
    }

    /// Sets the image checksum; nothing else changes.
    pub fn set_checksum(&mut self, checksum: u32)
        ensures
            forall|field: HeadField| #[trigger]
                final(self).spec_word(field) == (if field == HeadField::Checksum {
                    checksum
                } else {
                    old(self).spec_word(field)
                }),
            final(self).spec_string_pool() == old(self).spec_string_pool(),
    {
        proof {
            use_type_invariant(&*self);
        }
        self.checksum = checksum;
    }

    /// Sets the total image length; nothing else changes.
    pub fn set_length(&mut self, length: u32)
        ensures
            forall|field: HeadField| #[trigger]
                final(self).spec_word(field) == (if field == HeadField::Length {
                    length
                } else {
                    old(self).spec_word(field)
                }),
            final(self).spec_string_pool() == old(self).spec_string_pool(),
    {
        proof {
            use_type_invariant(&*self);
        }
        self.length = length;
    }

    /// The header as the boot ROM reads it.
    ///
    /// The result is `SIZE` bytes long: the magic bytes, then each field at
    /// its offset, then the reserved slots one word apart, every number
    /// least significant byte first.
    pub fn to_bytes(&self) -> (bytes: Vec<u8>)
        ensures
            bytes.len() == Self::SIZE,
            bytes@.subrange(0, Self::MAGIC_SIZE as int) == Self::spec_egon_magic(),
            forall|field: HeadField|
                le_u32(bytes@, #[trigger] field.spec_offset() as int) == self.spec_word(field),
            forall|slot: int|
                0 <= slot < Self::STRING_POOL_SLOTS ==> le_u32(
                    bytes@,
                    Self::STRING_POOL_OFFSET + 4 * slot,
                ) == #[trigger] self.spec_string_pool()[slot],
    {
        proof {
            use_type_invariant(self);
        }
        let mut bytes: Vec<u8> = Vec::new();
        while bytes.len() < Self::SIZE
            invariant
                bytes.len() <= Self::SIZE,
            decreases Self::SIZE - bytes.len(),
        {
            bytes.push(0);
        }
        let mut i: usize = 0;
        while i < Self::MAGIC_SIZE
            invariant
                i <= Self::MAGIC_SIZE,
                bytes.len() == Self::SIZE,
                forall|j: int| 0 <= j < i ==> bytes@[j] == self.magic@[j],
            decreases Self::MAGIC_SIZE - i,
        {
            let byte: u8 = self.magic[i];
            bytes.set(i, byte);
            i = i + 1;
        }
        store_word(&mut bytes, Self::CHECKSUM_OFFSET, self.checksum);
        store_word(&mut bytes, Self::LENGTH_OFFSET, self.length);
        store_word(&mut bytes, Self::HEAD_SIZE_OFFSET, self._head_size);
        store_word(&mut bytes, Self::FEL_SCRIPT_ADDRESS_OFFSET, self.fel_script_address);
        store_word(&mut bytes, Self::FEL_UENV_LENGTH_OFFSET, self.fel_uenv_length);
        store_word(&mut bytes, Self::DT_NAME_OFFSET_OFFSET, self.dt_name_offset);
        store_word(&mut bytes, Self::DRAM_SIZE_OFFSET, self.dram_size);
        store_word(&mut bytes, Self::BOOT_MEDIA_OFFSET, self.boot_media);
        let mut slot: usize = 0;
        while slot < Self::STRING_POOL_SLOTS
            invariant
                slot <= Self::STRING_POOL_SLOTS,
                bytes.len() == Self::SIZE,
                forall|j: int| 0 <= j < Self::MAGIC_SIZE ==> bytes@[j] == self.magic@[j],
                forall|field: HeadField|
                    le_u32(bytes@, #[trigger] field.spec_offset() as int) == self.spec_word(field),
                forall|done: int|
                    0 <= done < slot ==> le_u32(bytes@, Self::STRING_POOL_OFFSET + 4 * done)
                        == #[trigger] self.string_pool@[done],
            decreases Self::STRING_POOL_SLOTS - slot,
        {
            store_word(&mut bytes, Self::STRING_POOL_OFFSET + 4 * slot, self.string_pool[slot]);
            slot = slot + 1;
        }
        bytes
    }
}

} // verus!
