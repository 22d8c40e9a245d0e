//! Direct Memory Access Controller registers.
//!
//! Each register of a DMA channel has a type of its own that wraps the raw
//! 32-bit value and names its bit fields. An accessor returns the number
//! held in its field; a mutator changes its field and no other bit.
//!
//! The registers are gathered in two blocks, [`ChannelRegisterBlock`] for
//! one channel and [`RegisterBlock`] for the controller with its sixteen
//! channels. A block says which registers there are, which of them can be
//! written, and at which byte offset each lies; `load` and `store` move a
//! block between its typed form and the bytes of the address range.

use vstd::prelude::*;
use vstd::arithmetic::power2::{pow2, lemma2_to64};
use crate::access::{RO, RW};
use crate::bits::{
    bit, bit_field, lemma_with_bit_is_mask_op, lemma_with_bit_reads_all, with_bit,
};
use crate::memory::{le_u32, load_word, store_word};

verus! {

/// Direct Memory Access Controller registers.
///
/// The controller's own registers sit in the first 0x100 bytes of its
/// address range, at the offsets that [`ControllerRegister::spec_offset`]
/// gives. Sixteen channel blocks follow from offset 0x100, one directly
/// after another.
pub struct RegisterBlock {
    /// DMAC IRQ Enable Register 0.
    pub irq_enable0: RW<u32>,
    /// DMAC IRQ Enable Register 1.
    pub irq_enable1: RW<u32>,
    /// DMAC IRQ Pending Register 0.
    pub irq_pending0: RW<u32>,
    /// DMAC IRQ Pending Register 1.
    pub irq_pending1: RW<u32>,
    /// DMAC Auto Gating Register.
    pub auto_gating: RW<u32>,
    /// DMAC Status Register.
    pub status: RO<u32>,
    /// DMAC Channels' Registers.
    pub channels: [ChannelRegisterBlock; 16],
}

/// The controller's own registers, by name.
#[derive(Clone, Copy, Debug, PartialEq, Eq, Structural)]
pub enum ControllerRegister {
    /// DMAC IRQ Enable Register 0, read-write.
    IrqEnable0,
    /// DMAC IRQ Enable Register 1, read-write.
    IrqEnable1,
    /// DMAC IRQ Pending Register 0, read-write.
    IrqPending0,
    /// DMAC IRQ Pending Register 1, read-write.
    IrqPending1,
    /// DMAC Auto Gating Register, read-write.
    AutoGating,
    /// DMAC Status Register, read-only.
    Status,
}

/// DMAC channel registers.
///
/// A channel block is 0x40 bytes of the controller's address range. The
/// registers sit at the offsets that [`ChannelRegister::spec_offset`] gives;
/// the bytes between them are reserved and never accessed.
pub struct ChannelRegisterBlock {
    /// DMAC Channel Enable Register.
    pub enable: RW<ChannelEnableRegister>,
    /// DMAC Channel Pause Register.
    pub pause: RW<ChannelPauseRegister>,
    /// DMAC Channel Start Address Register.
    pub start_addr: RW<ChannelStartAddrRegister>,
    /// DMAC Channel Configuration Register.
    pub config: RW<ChannelConfigRegister>,
    /// DMAC Channel Current Source Register.
    pub current_src_addr: RO<ChannelCurrentSrcAddrRegister>,
    /// DMAC Channel Current Destination Register.
    pub current_destination: RO<ChannelCurrentDestAddrRegister>,
    /// DMAC Channel Byte Counter Left Register.
    pub byte_counter_left: RO<ChannelByteCounterLeftRegister>,
    /// DMAC Channel Parameter Register.
    pub parameter: RW<ChannelParameterRegister>,
    /// DMAC Mode Register.
    pub mode: RW<ChannelModeRegister>,
    /// DMAC Former Descriptor Address Register.
    pub former_desc_addr: RO<ChannelFormerDescAddrRegister>,
    /// DMAC Package Number Register.
    pub package_num: RO<ChannelPackageNumRegister>,
}

/// The registers of a channel block, by name.
#[derive(Clone, Copy, Debug, PartialEq, Eq, Structural)]
pub enum ChannelRegister {
    /// DMAC Channel Enable Register, read-write.
    Enable,
    /// DMAC Channel Pause Register, read-write.
    Pause,
    /// DMAC Channel Start Address Register, read-write.
    StartAddr,
    /// DMAC Channel Configuration Register, read-write.
    Config,
    /// DMAC Channel Current Source Register, read-only.
    CurrentSrcAddr,
    /// DMAC Channel Current Destination Register, read-only.
    CurrentDestination,
    /// DMAC Channel Byte Counter Left Register, read-only.
    ByteCounterLeft,
    /// DMAC Channel Parameter Register, read-write.
    Parameter,
    /// DMAC Mode Register, read-write.
    Mode,
    /// DMAC Former Descriptor Address Register, read-only.
    FormerDescAddr,
    /// DMAC Package Number Register, read-only.
    PackageNum,
}

/// DMAC Channel Enable Register.
#[derive(Clone, Copy, Debug, PartialEq, Eq, Structural)]
pub struct ChannelEnableRegister(pub u32);

/// DMAC Channel Pause Register.
#[derive(Clone, Copy, Debug, PartialEq, Eq, Structural)]
pub struct ChannelPauseRegister(pub u32);

/// DMAC Channel Start Address Register.
#[derive(Clone, Copy, Debug, PartialEq, Eq, Structural)]
pub struct ChannelStartAddrRegister(pub u32);

/// DMAC Channel Configuration Register.
#[derive(Clone, Copy, Debug, PartialEq, Eq, Structural)]
pub struct ChannelConfigRegister(pub u32);

/// DMAC Channel Current Source Register.
#[derive(Clone, Copy, Debug, PartialEq, Eq, Structural)]
pub struct ChannelCurrentSrcAddrRegister(pub u32);

/// DMAC Channel Current Destination Register.
#[derive(Clone, Copy, Debug, PartialEq, Eq, Structural)]
pub struct ChannelCurrentDestAddrRegister(pub u32);

/// DMAC Channel Byte Counter Left Register.
#[derive(Clone, Copy, Debug, PartialEq, Eq, Structural)]
pub struct ChannelByteCounterLeftRegister(pub u32);

/// DMAC Channel Parameter Register.
#[derive(Clone, Copy, Debug, PartialEq, Eq, Structural)]
pub struct ChannelParameterRegister(pub u32);

/// DMAC Mode Register.
#[derive(Clone, Copy, Debug, PartialEq, Eq, Structural)]
pub struct ChannelModeRegister(pub u32);

/// DMAC Former Descriptor Address Register.
#[derive(Clone, Copy, Debug, PartialEq, Eq, Structural)]
pub struct ChannelFormerDescAddrRegister(pub u32);

/// DMAC Package Number Register.
#[derive(Clone, Copy, Debug, PartialEq, Eq, Structural)]
pub struct ChannelPackageNumRegister(pub u32);

impl ChannelEnableRegister {
    /// DMA Channel Enable (Bit 0).
    pub const DMA_EN: u32 = 0x1 << 0;

    /// Check if DMA channel is enabled.
    #[inline]
    pub fn is_dma_enabled(self) -> (enabled: bool)
        ensures
            enabled == bit(self.0, 0),
    {
        proof {
            lemma_decode_bit0(self.0);
            lemma2_to64();
        }
        (self.0 & Self::DMA_EN) != 0
    }

    /// Enable DMA channel (set bit 0).
    #[inline]
    pub fn enable_dma(&mut self)
        ensures
            final(self).0 == with_bit(old(self).0, 0, true),
            bit(final(self).0, 0),
            forall|i: nat| 0 < i < 32 ==> bit(final(self).0, i) == bit(old(self).0, i),
    {
        proof {
            lemma_with_bit_is_mask_op(self.0, 0, true);
            lemma_with_bit_reads_all(self.0, 0, true);
        }
        self.0 |= Self::DMA_EN;
    }

    /// Disable DMA channel (clear bit 0).
    #[inline]
    pub fn disable_dma(&mut self)
        ensures
            final(self).0 == with_bit(old(self).0, 0, false),
            !bit(final(self).0, 0),
            forall|i: nat| 0 < i < 32 ==> bit(final(self).0, i) == bit(old(self).0, i),
    {
        proof {
            lemma_with_bit_is_mask_op(self.0, 0, false);
            lemma_with_bit_reads_all(self.0, 0, false);
        }
        self.0 &= !Self::DMA_EN;
    }
}

impl ChannelPauseRegister {
    /// DMA Pause bit (Bit 0).
    pub const DMA_PAUSE: u32 = 0x1 << 0;

    /// Check if DMA transfer is paused.
    #[inline]
    pub fn if_dma_pause(self) -> (paused: bool)
        ensures
            paused == bit(self.0, 0),
    {
        proof {
            lemma_decode_bit0(self.0);
            lemma2_to64();
        }
        (self.0 & Self::DMA_PAUSE) != 0
    }

    /// Pause DMA transfer (set bit 0).
    #[inline]
    pub fn pause_dma(&mut self)
        ensures
            final(self).0 == with_bit(old(self).0, 0, true),
            bit(final(self).0, 0),
            forall|i: nat| 0 < i < 32 ==> bit(final(self).0, i) == bit(old(self).0, i),
    {
        proof {
            lemma_with_bit_is_mask_op(self.0, 0, true);
            lemma_with_bit_reads_all(self.0, 0, true);
        }
        self.0 |= Self::DMA_PAUSE;
    }

    /// Resume DMA transfer (clear bit 0).
    #[inline]
    pub fn resume_dma(&mut self)
        ensures
            final(self).0 == with_bit(old(self).0, 0, false),
            !bit(final(self).0, 0),
            forall|i: nat| 0 < i < 32 ==> bit(final(self).0, i) == bit(old(self).0, i),
    {
        proof {
            lemma_with_bit_is_mask_op(self.0, 0, false);
            lemma_with_bit_reads_all(self.0, 0, false);
        }
        self.0 &= !Self::DMA_PAUSE;
    }
}

impl ChannelStartAddrRegister {
    /// DMA descriptor address lower 30 bits (Bits [31:2]).
    pub const DMA_DESC_ADDR: u32 = 0x3FFFFFFF << 2;

    /// DMA descriptor address higher 2 bits (Bits [1:0]).
    pub const DMA_DESC_HIGH_ADDR: u32 = 0x3 << 0;

    /// The address that [`Self::full_dma_desc_addr`] assembles from `raw`.
    ///
    /// The lower field is put back at bits [31:2] and the higher field is
    /// merged in at bits [31:30]: bits [29:2] are those of `raw`, each of bits
    /// 30 and 31 is set when it is set in `raw` or when the corresponding
    /// bit of the higher field (bit 0 or 1 of `raw`) is, and bits [1:0] are
    /// zero.
    pub open spec fn spec_full_dma_desc_addr(raw: u32) -> nat {
        4 * bit_field(raw, 2, 28) + pow2(30) * (if bit(raw, 30) || bit(raw, 0) {
            1nat
        } else {
            0nat
        }) + pow2(31) * (if bit(raw, 31) || bit(raw, 1) {
            1nat
        } else {
            0nat
        })
    }

    /// Get lower 30 bits of the DMA descriptor address.
    #[inline]
    pub fn dma_desc_addr(self) -> (addr: u32)
        ensures
            addr == bit_field(self.0, 2, 30),
    {
        proof {
            lemma_decode_start_addr(self.0);
            lemma2_to64();
        }
        (self.0 & Self::DMA_DESC_ADDR) >> 2
    }

    /// Get higher 2 bits of the DMA descriptor address.
    #[inline]
    pub fn dma_desc_high_addr(self) -> (high: u32)
        ensures
            high == bit_field(self.0, 0, 2),
    {
        proof {
            lemma_decode_start_addr(self.0);
            lemma2_to64();
        }
        (self.0 & Self::DMA_DESC_HIGH_ADDR) >> 0
    }

    /// Get full 32-bit DMA descriptor address with alignment.
    #[inline]
    pub fn full_dma_desc_addr(self) -> (addr: u32)
        ensures
            addr == Self::spec_full_dma_desc_addr(self.0),
            addr % 4 == 0,
    {
        let high: u32 = self.dma_desc_high_addr();
        let low: u32 = self.dma_desc_addr();
        proof {
            lemma2_to64();
            lemma_compose_start_addr(self.0, high, low);
        }
        (high << 30) | (low << 2)
    }
}

impl ChannelConfigRegister {
    /// BMODE_SEL (Bit 30).
    pub const BMODE_SEL: u32 = 0x1 << 30;

    /// DMA_DEST_DATA_WIDTH (Bits [26:25]).
    pub const DMA_DEST_DATA_WIDTH: u32 = 0x3 << 25;

    /// DMA_ADDR_MODE (Bit 24).
    pub const DMA_ADDR_MODE: u32 = 0x1 << 24;

    /// DMA_DEST_BLOCK_SIZE (Bits [23:22]).
    pub const DMA_DEST_BLOCK_SIZE: u32 = 0x3 << 22;

    /// DMA_DEST_DRQ_TYPE (Bits [21:16]).
    pub const DMA_DEST_DRQ_TYPE: u32 = 0x3F << 16;

    /// DMA_SRC_DATA_WIDTH (Bits [10:9]).
    pub const DMA_SRC_DATA_WIDTH: u32 = 0x3 << 9;

    /// DMA_SRC_ADDR_MODE (Bit 8).
    pub const DMA_SRC_ADDR_MODE: u32 = 0x1 << 8;

    /// DMA_SRC_BLOCK_SIZE (Bits [7:6]).
    pub const DMA_SRC_BLOCK_SIZE: u32 = 0x3 << 6;

    /// DMA_SRC_DRQ_TYPE (Bits [5:0]).
    pub const DMA_SRC_DRQ_TYPE: u32 = 0x3F << 0;

    /// Get the BMODE_SEL bit.
    #[inline]
    pub fn bmode_sel(self) -> (value: u32)
        ensures
            value == bit_field(self.0, 30, 1),
    {
        proof {
            lemma_decode_config(self.0);
            lemma2_to64();
        }
        (self.0 & Self::BMODE_SEL) >> 30
    }

    /// Get the DMA_DEST_DATA_WIDTH bits.
    #[inline]
    pub fn dma_dest_data_width(self) -> (value: u32)
        ensures
            value == bit_field(self.0, 25, 2),
    {
        proof {
            lemma_decode_config(self.0);
            lemma2_to64();
        }
        (self.0 & Self::DMA_DEST_DATA_WIDTH) >> 25
    }

    /// Get the DMA_ADDR_MODE bit.
    #[inline]
    pub fn dma_addr_mode(self) -> (value: u32)
        ensures
            value == bit_field(self.0, 24, 1),
    {
        proof {
            lemma_decode_config(self.0);
            lemma2_to64();
        }
        (self.0 & Self::DMA_ADDR_MODE) >> 24
    }

    /// Get the DMA_DEST_BLOCK_SIZE bits.
    #[inline]
    pub fn dma_dest_block_size(self) -> (value: u32)
        ensures
            value == bit_field(self.0, 22, 2),
    {
        proof {
            lemma_decode_config(self.0);
            lemma2_to64();
        }
        (self.0 & Self::DMA_DEST_BLOCK_SIZE) >> 22
    }

    /// Get the DMA_DEST_DRQ_TYPE bits.
    #[inline]
    pub fn dma_dest_drq_type(self) -> (value: u32)
        ensures
            value == bit_field(self.0, 16, 6),
    {
        proof {
            lemma_decode_config(self.0);
            lemma2_to64();
        }
        (self.0 & Self::DMA_DEST_DRQ_TYPE) >> 16
    }

    /// Get the DMA_SRC_DATA_WIDTH bits.
    #[inline]
    pub fn dma_src_data_width(self) -> (value: u32)
        ensures
            value == bit_field(self.0, 9, 2),
    {
        proof {
            lemma_decode_config(self.0);
            lemma2_to64();
        }
        (self.0 & Self::DMA_SRC_DATA_WIDTH) >> 9
    }

    /// Get the DMA_SRC_ADDR_MODE bit.
    #[inline]
    pub fn dma_src_addr_mode(self) -> (value: u32)
        ensures
            value == bit_field(self.0, 8, 1),
    {
        proof {
            lemma_decode_config(self.0);
            lemma2_to64();
        }
        (self.0 & Self::DMA_SRC_ADDR_MODE) >> 8
    }

    /// Get the DMA_SRC_BLOCK_SIZE bits.
    #[inline]
    pub fn dma_src_block_size(self) -> (value: u32)
        ensures
            value == bit_field(self.0, 6, 2),
    {
        proof {
            lemma_decode_config(self.0);
            lemma2_to64();
        }
        (self.0 & Self::DMA_SRC_BLOCK_SIZE) >> 6
    }

    /// Get the DMA_SRC_DRQ_TYPE bits.
    #[inline]
    pub fn dma_src_drq_type(self) -> (value: u32)
        ensures
            value == bit_field(self.0, 0, 6),
    {
        proof {
            lemma_decode_config(self.0);
            lemma2_to64();
        }
        (self.0 & Self::DMA_SRC_DRQ_TYPE) >> 0
    }
}

impl ChannelCurrentSrcAddrRegister {
    /// DMA Current Source Address (Bits [31:0]).
    pub const DMA_CUR_SRC: u32 = 0xFFFFFFFF;

    /// Get the DMA current source address.
    #[inline]
    pub fn dma_cur_src(self) -> (addr: u32)
        ensures
            addr == bit_field(self.0, 0, 32),
            addr == self.0,
    {
        proof {
            lemma_decode_low_bits(self.0);
            lemma_whole_register(self.0);
        }
        self.0 & Self::DMA_CUR_SRC
    }
}

impl ChannelCurrentDestAddrRegister {
    /// DMA Current Destination Address (Bits [31:0]).
    pub const DMA_CUR_DEST: u32 = 0xFFFFFFFF;

    /// Get the DMA current destination address.
    #[inline]
    pub fn dma_cur_dest(self) -> (addr: u32)
        ensures
            addr == bit_field(self.0, 0, 32),
            addr == self.0,
    {
        proof {
            lemma_decode_low_bits(self.0);
            lemma_whole_register(self.0);
        }
        self.0 & Self::DMA_CUR_DEST
    }
}

impl ChannelByteCounterLeftRegister {
    /// DMA Byte Counter Left (Bits [24:0]).
    pub const DMA_BCNT_LEFT: u32 = 0x1FFFFFF;

    /// Get the DMA byte counter left value.
    #[inline]
    pub fn dma_bcnt_left(self) -> (count: u32)
        ensures
            count == bit_field(self.0, 0, 25),
    {
        proof {
            lemma_decode_low_bits(self.0);
            lemma2_to64();
        }
        self.0 & Self::DMA_BCNT_LEFT
    }
}

impl ChannelParameterRegister {
    /// WAIT_CYC (Bits [7:0]).
    pub const WAIT_CYC: u32 = 0xFF << 0;

    /// Get the WAIT_CYC value.
    #[inline]
    pub fn wait_cyc(self) -> (cycles: u32)
        ensures
            cycles == bit_field(self.0, 0, 8),
    {
        proof {
            lemma_decode_low_bits(self.0);
            lemma2_to64();
        }
        self.0 & Self::WAIT_CYC
    }
}

impl ChannelModeRegister {
    /// DMA_DST_MODE (Bit 3).
    pub const DMA_DST_MODE: u32 = 0x1 << 3;

    /// DMA_SRC_MODE (Bit 2).
    pub const DMA_SRC_MODE: u32 = 0x1 << 2;

    /// Get the DMA destination communication mode.
    #[inline]
    pub fn dma_dst_mode(self) -> (mode: u32)
        ensures
            mode == bit_field(self.0, 3, 1),
    {
        proof {
            lemma_decode_mode(self.0);
            lemma2_to64();
        }
        (self.0 & Self::DMA_DST_MODE) >> 3
    }

    /// Get the DMA source communication mode.
    #[inline]
    pub fn dma_src_mode(self) -> (mode: u32)
        ensures
            mode == bit_field(self.0, 2, 1),
    {
        proof {
            lemma_decode_mode(self.0);
            lemma2_to64();
        }
        (self.0 & Self::DMA_SRC_MODE) >> 2
    }

    /// Set the DMA destination communication mode.
    #[inline]
    pub fn set_dma_dst_mode(&mut self, enable: bool)
        ensures
            final(self).0 == with_bit(old(self).0, 3, enable),
            bit(final(self).0, 3) == enable,
            forall|i: nat| i < 32 && i != 3 ==> bit(final(self).0, i) == bit(old(self).0, i),
    {
        proof {
            lemma_with_bit_is_mask_op(self.0, 3, enable);
            lemma_with_bit_reads_all(self.0, 3, enable);
        }
        if enable {
            self.0 |= Self::DMA_DST_MODE;
        } else {
            self.0 &= !Self::DMA_DST_MODE;
        }
    }
}

impl ChannelFormerDescAddrRegister {
    /// DMA Former Descriptor Address (Bits [31:0]).
    pub const DMA_FDESC_ADDR: u32 = 0xFFFFFFFF;

    /// Get the DMA former descriptor address.
    #[inline]
    pub fn dma_fdesc_addr(self) -> (addr: u32)
        ensures
            addr == bit_field(self.0, 0, 32),
            addr == self.0,
    {
        proof {
            lemma_decode_low_bits(self.0);
            lemma_whole_register(self.0);
        }
        self.0 & Self::DMA_FDESC_ADDR
    }
}

impl ChannelPackageNumRegister {
    /// DMA Package Number (Bits [31:0]).
    pub const DMA_PKG_NUM: u32 = 0xFFFFFFFF;

    /// Get the DMA package number.
    #[inline]
    pub fn dma_pkg_num(self) -> (count: u32)
        ensures
            count == bit_field(self.0, 0, 32),
            count == self.0,
    {
        proof {
            lemma_decode_low_bits(self.0);
            lemma_whole_register(self.0);
        }
        self.0 & Self::DMA_PKG_NUM
    }
}

impl ChannelRegister {
    /// The byte offset of the register from the start of its channel block.
    pub open spec fn spec_offset(self) -> nat {
        match self {
            ChannelRegister::Enable => ChannelRegisterBlock::ENABLE_OFFSET as nat,
            ChannelRegister::Pause => ChannelRegisterBlock::PAUSE_OFFSET as nat,
            ChannelRegister::StartAddr => ChannelRegisterBlock::START_ADDR_OFFSET as nat,
            ChannelRegister::Config => ChannelRegisterBlock::CONFIG_OFFSET as nat,
            ChannelRegister::CurrentSrcAddr => ChannelRegisterBlock::CURRENT_SRC_ADDR_OFFSET as nat,
            ChannelRegister::CurrentDestination => {
                ChannelRegisterBlock::CURRENT_DESTINATION_OFFSET as nat
            },
            ChannelRegister::ByteCounterLeft => {
                ChannelRegisterBlock::BYTE_COUNTER_LEFT_OFFSET as nat
            },
            ChannelRegister::Parameter => ChannelRegisterBlock::PARAMETER_OFFSET as nat,
            ChannelRegister::Mode => ChannelRegisterBlock::MODE_OFFSET as nat,
            ChannelRegister::FormerDescAddr => ChannelRegisterBlock::FORMER_DESC_ADDR_OFFSET as nat,
            ChannelRegister::PackageNum => ChannelRegisterBlock::PACKAGE_NUM_OFFSET as nat,
        }
    }

    /// Whether the register is read-only.
    pub open spec fn spec_read_only(self) -> bool {
        match self {
            ChannelRegister::CurrentSrcAddr
            | ChannelRegister::CurrentDestination
            | ChannelRegister::ByteCounterLeft
            | ChannelRegister::FormerDescAddr
            | ChannelRegister::PackageNum => true,
            _ => false,
        }
    }

    /// Whether the byte at `offset` from the start of the channel block
    /// belongs to the register.
    pub open spec fn spec_covers(self, offset: int) -> bool {
        self.spec_offset() <= offset < self.spec_offset() + 4
    }

    /// The byte offset of the register from the start of its channel block.
    pub fn offset(self) -> (offset: usize)
        ensures
            offset == self.spec_offset(),
    {
        match self {
            ChannelRegister::Enable => ChannelRegisterBlock::ENABLE_OFFSET,
            ChannelRegister::Pause => ChannelRegisterBlock::PAUSE_OFFSET,
            ChannelRegister::StartAddr => ChannelRegisterBlock::START_ADDR_OFFSET,
            ChannelRegister::Config => ChannelRegisterBlock::CONFIG_OFFSET,
            ChannelRegister::CurrentSrcAddr => ChannelRegisterBlock::CURRENT_SRC_ADDR_OFFSET,
            ChannelRegister::CurrentDestination => ChannelRegisterBlock::CURRENT_DESTINATION_OFFSET,
            ChannelRegister::ByteCounterLeft => ChannelRegisterBlock::BYTE_COUNTER_LEFT_OFFSET,
            ChannelRegister::Parameter => ChannelRegisterBlock::PARAMETER_OFFSET,
            ChannelRegister::Mode => ChannelRegisterBlock::MODE_OFFSET,
            ChannelRegister::FormerDescAddr => ChannelRegisterBlock::FORMER_DESC_ADDR_OFFSET,
            ChannelRegister::PackageNum => ChannelRegisterBlock::PACKAGE_NUM_OFFSET,
        }
    }

    /// Whether the register is read-only.
    pub fn is_read_only(self) -> (read_only: bool)
        ensures
            read_only == self.spec_read_only(),
    {
        match self {
            ChannelRegister::CurrentSrcAddr
            | ChannelRegister::CurrentDestination
            | ChannelRegister::ByteCounterLeft
            | ChannelRegister::FormerDescAddr
            | ChannelRegister::PackageNum => true,
            _ => false,
        }
    }

    /// Every register is a whole word inside the channel block, at a
    /// word-aligned offset, and no two registers share a byte.
    pub proof fn lemma_layout(a: ChannelRegister, b: ChannelRegister)
        ensures
            a.spec_offset() % 4 == 0,
            a.spec_offset() + 4 <= ChannelRegisterBlock::SIZE,
            a != b ==> a.spec_offset() + 4 <= b.spec_offset() || b.spec_offset() + 4
                <= a.spec_offset(),
    {
    }
}

impl ChannelRegisterBlock {
    /// The byte offset of the Enable Register.
    pub const ENABLE_OFFSET: usize = 0x00;

    /// The byte offset of the Pause Register.
    pub const PAUSE_OFFSET: usize = 0x04;

    /// The byte offset of the Start Address Register.
    pub const START_ADDR_OFFSET: usize = 0x08;

    /// The byte offset of the Configuration Register.
    pub const CONFIG_OFFSET: usize = 0x0C;

    /// The byte offset of the Current Source Register.
    pub const CURRENT_SRC_ADDR_OFFSET: usize = 0x10;

    /// The byte offset of the Current Destination Register.
    pub const CURRENT_DESTINATION_OFFSET: usize = 0x14;

    /// The byte offset of the Byte Counter Left Register.
    pub const BYTE_COUNTER_LEFT_OFFSET: usize = 0x18;

    /// The byte offset of the Parameter Register.
    pub const PARAMETER_OFFSET: usize = 0x1C;

    /// The byte offset of the Mode Register.
    pub const MODE_OFFSET: usize = 0x28;

    /// The byte offset of the Former Descriptor Address Register.
    pub const FORMER_DESC_ADDR_OFFSET: usize = 0x2C;

    /// The byte offset of the Package Number Register.
    pub const PACKAGE_NUM_OFFSET: usize = 0x30;

    /// The size of a channel block in bytes, which is also the distance from
    /// one channel block to the next.
    pub const SIZE: usize = 0x40;

    /// The raw value of the register `register` of this block.
    pub open spec fn spec_raw(&self, register: ChannelRegister) -> u32 {
        match register {
            ChannelRegister::Enable => self.enable@.0,
            ChannelRegister::Pause => self.pause@.0,
            ChannelRegister::StartAddr => self.start_addr@.0,
            ChannelRegister::Config => self.config@.0,
            ChannelRegister::CurrentSrcAddr => self.current_src_addr@.0,
            ChannelRegister::CurrentDestination => self.current_destination@.0,
            ChannelRegister::ByteCounterLeft => self.byte_counter_left@.0,
            ChannelRegister::Parameter => self.parameter@.0,
            ChannelRegister::Mode => self.mode@.0,
            ChannelRegister::FormerDescAddr => self.former_desc_addr@.0,
            ChannelRegister::PackageNum => self.package_num@.0,
        }
    }

    /// Whether storing a channel block writes the byte at `offset` from its
    /// start: whether the byte belongs to a register that is not read-only.
    pub open spec fn spec_written(offset: int) -> bool {
        exists|register: ChannelRegister|
            !register.spec_read_only() && #[trigger] register.spec_covers(offset)
    }

    /// The bytes that storing a channel block writes are those of the six
    /// read-write registers. No byte of a read-only register is among them,
    /// and no reserved byte.
    pub proof fn lemma_written_bytes(offset: int)
        ensures
            Self::spec_written(offset) <==> (0x00 <= offset < 0x10 || 0x1C <= offset < 0x20 || 0x28
                <= offset < 0x2C),
            forall|register: ChannelRegister|
                register.spec_read_only() && #[trigger] register.spec_covers(offset)
                    ==> !Self::spec_written(offset),
    {
        if 0x00 <= offset < 0x04 {
            assert(ChannelRegister::Enable.spec_covers(offset));
        } else if 0x04 <= offset < 0x08 {
            assert(ChannelRegister::Pause.spec_covers(offset));
        } else if 0x08 <= offset < 0x0C {
            assert(ChannelRegister::StartAddr.spec_covers(offset));
        } else if 0x0C <= offset < 0x10 {
            assert(ChannelRegister::Config.spec_covers(offset));
        } else if 0x1C <= offset < 0x20 {
            assert(ChannelRegister::Parameter.spec_covers(offset));
        } else if 0x28 <= offset < 0x2C {
            assert(ChannelRegister::Mode.spec_covers(offset));
        }
    }

    /// Reads the registers of the channel block that starts at `base`.
    ///
    /// Each register is read as one word from its offset; reserved bytes are
    /// not read. The block that is returned is a snapshot of what the bytes
    /// held.
    pub fn load(memory: &Vec<u8>, base: usize) -> (block: Self)
        requires
            base + Self::SIZE <= memory.len(),
        ensures
            forall|register: ChannelRegister| #[trigger]
                block.spec_raw(register) == le_u32(memory@, base + register.spec_offset()),
    {
        ChannelRegisterBlock {
            enable: RW::new(
                ChannelEnableRegister(load_word(memory, base + Self::ENABLE_OFFSET)),
            ),
            pause: RW::new(ChannelPauseRegister(load_word(memory, base + Self::PAUSE_OFFSET))),
            start_addr: RW::new(
                ChannelStartAddrRegister(load_word(memory, base + Self::START_ADDR_OFFSET)),
            ),
            config: RW::new(ChannelConfigRegister(load_word(memory, base + Self::CONFIG_OFFSET))),
            current_src_addr: RO::new(
                ChannelCurrentSrcAddrRegister(
                    load_word(memory, base + Self::CURRENT_SRC_ADDR_OFFSET),
                ),
            ),
            current_destination: RO::new(
                ChannelCurrentDestAddrRegister(
                    load_word(memory, base + Self::CURRENT_DESTINATION_OFFSET),
                ),
            ),
            byte_counter_left: RO::new(
                ChannelByteCounterLeftRegister(
                    load_word(memory, base + Self::BYTE_COUNTER_LEFT_OFFSET),
                ),
            ),
            parameter: RW::new(
                ChannelParameterRegister(load_word(memory, base + Self::PARAMETER_OFFSET)),
            ),
            mode: RW::new(ChannelModeRegister(load_word(memory, base + Self::MODE_OFFSET))),
            former_desc_addr: RO::new(
                ChannelFormerDescAddrRegister(
                    load_word(memory, base + Self::FORMER_DESC_ADDR_OFFSET),
                ),
            ),
            package_num: RO::new(
                ChannelPackageNumRegister(load_word(memory, base + Self::PACKAGE_NUM_OFFSET)),
            ),
        }
    }

    /// Writes the read-write registers of this block to the channel block
    /// that starts at `base`.
    ///
    /// Each of them is written as one word at its offset. Read-only
    /// registers, reserved bytes and everything outside the block keep what
    /// they held.
    pub fn store(&self, memory: &mut Vec<u8>, base: usize)
        requires
            base + Self::SIZE <= old(memory).len(),
        ensures
            final(memory).len() == old(memory).len(),
            forall|register: ChannelRegister|
                !register.spec_read_only() ==> le_u32(
                    final(memory)@,
                    base + #[trigger] register.spec_offset(),
                ) == self.spec_raw(register),
            forall|i: int|
                0 <= i < old(memory).len() && !Self::spec_written(i - base) ==> final(memory)@[i]
                    == old(memory)@[i],
    {
        let ghost before: Seq<u8> = memory@;
        store_word(memory, base + Self::ENABLE_OFFSET, self.enable.read().0);
        store_word(memory, base + Self::PAUSE_OFFSET, self.pause.read().0);
        store_word(memory, base + Self::START_ADDR_OFFSET, self.start_addr.read().0);
        store_word(memory, base + Self::CONFIG_OFFSET, self.config.read().0);
        store_word(memory, base + Self::PARAMETER_OFFSET, self.parameter.read().0);
        store_word(memory, base + Self::MODE_OFFSET, self.mode.read().0);
        proof {
            assert forall|i: int|
                0 <= i < before.len() && memory@[i] != before[i] implies Self::spec_written(
                i - base,
            ) by {
                let offset: int = i - base;
                if offset < 0x04 {
                    assert(ChannelRegister::Enable.spec_covers(offset));
                } else if offset < 0x08 {
                    assert(ChannelRegister::Pause.spec_covers(offset));
                } else if offset < 0x0C {
                    assert(ChannelRegister::StartAddr.spec_covers(offset));
                } else if offset < 0x10 {
                    assert(ChannelRegister::Config.spec_covers(offset));
                } else if offset < 0x20 {
                    assert(ChannelRegister::Parameter.spec_covers(offset));
                } else {
                    assert(ChannelRegister::Mode.spec_covers(offset));
                }
            }
        }
    }
}

impl ControllerRegister {
    /// The byte offset of the register from the start of the controller.
    pub open spec fn spec_offset(self) -> nat {
        match self {
            ControllerRegister::IrqEnable0 => RegisterBlock::IRQ_ENABLE0_OFFSET as nat,
            ControllerRegister::IrqEnable1 => RegisterBlock::IRQ_ENABLE1_OFFSET as nat,
            ControllerRegister::IrqPending0 => RegisterBlock::IRQ_PENDING0_OFFSET as nat,
            ControllerRegister::IrqPending1 => RegisterBlock::IRQ_PENDING1_OFFSET as nat,
            ControllerRegister::AutoGating => RegisterBlock::AUTO_GATING_OFFSET as nat,
            ControllerRegister::Status => RegisterBlock::STATUS_OFFSET as nat,
        }
    }

    /// Whether the register is read-only.
    pub open spec fn spec_read_only(self) -> bool {
        self == ControllerRegister::Status
    }

    /// Whether the byte at `offset` from the start of the controller belongs
    /// to the register.
    pub open spec fn spec_covers(self, offset: int) -> bool {
        self.spec_offset() <= offset < self.spec_offset() + 4
    }

    /// The byte offset of the register from the start of the controller.
    pub fn offset(self) -> (offset: usize)
        ensures
            offset == self.spec_offset(),
    {
        match self {
            ControllerRegister::IrqEnable0 => RegisterBlock::IRQ_ENABLE0_OFFSET,
            ControllerRegister::IrqEnable1 => RegisterBlock::IRQ_ENABLE1_OFFSET,
            ControllerRegister::IrqPending0 => RegisterBlock::IRQ_PENDING0_OFFSET,
            ControllerRegister::IrqPending1 => RegisterBlock::IRQ_PENDING1_OFFSET,
            ControllerRegister::AutoGating => RegisterBlock::AUTO_GATING_OFFSET,
            ControllerRegister::Status => RegisterBlock::STATUS_OFFSET,
        }
    }

    /// Whether the register is read-only.
    pub fn is_read_only(self) -> (read_only: bool)
        ensures
            read_only == self.spec_read_only(),
    {
        match self {
            ControllerRegister::Status => true,
            _ => false,
        }
    }

    /// Every register is a whole word below the first channel block, at a
    /// word-aligned offset, and no two registers share a byte.
    pub proof fn lemma_layout(a: ControllerRegister, b: ControllerRegister)
        ensures
            a.spec_offset() % 4 == 0,
            a.spec_offset() + 4 <= RegisterBlock::CHANNELS_OFFSET,
            a != b ==> a.spec_offset() + 4 <= b.spec_offset() || b.spec_offset() + 4
                <= a.spec_offset(),
    {
    }
}

impl RegisterBlock {
    /// The byte offset of the IRQ Enable Register 0.
    pub const IRQ_ENABLE0_OFFSET: usize = 0x00;

    /// The byte offset of the IRQ Enable Register 1.
    pub const IRQ_ENABLE1_OFFSET: usize = 0x04;

    /// The byte offset of the IRQ Pending Register 0.
    pub const IRQ_PENDING0_OFFSET: usize = 0x10;

    /// The byte offset of the IRQ Pending Register 1.
    pub const IRQ_PENDING1_OFFSET: usize = 0x14;

    /// The byte offset of the Auto Gating Register.
    pub const AUTO_GATING_OFFSET: usize = 0x28;

    /// The byte offset of the Status Register.
    pub const STATUS_OFFSET: usize = 0x30;

    /// The number of channels.
    pub const CHANNELS: usize = 16;

    /// The byte offset of the first channel block.
    pub const CHANNELS_OFFSET: usize = 0x100;

    /// The size of the controller's register block in bytes.
    pub const SIZE: usize = 0x500;

    /// The byte offset of the block of channel `index`.
    pub open spec fn spec_channel_offset(index: int) -> int {
        0x100 + index * 0x40
    }

    /// The raw value of the controller register `register` of this block.
    pub open spec fn spec_raw(&self, register: ControllerRegister) -> u32 {
        match register {
            ControllerRegister::IrqEnable0 => self.irq_enable0@,
            ControllerRegister::IrqEnable1 => self.irq_enable1@,
            ControllerRegister::IrqPending0 => self.irq_pending0@,
            ControllerRegister::IrqPending1 => self.irq_pending1@,
            ControllerRegister::AutoGating => self.auto_gating@,
            ControllerRegister::Status => self.status@,
        }
    }

    /// Whether the byte at `offset` from the start of the controller lies in
    /// the block of channel `index` and is written when that block is
    /// stored.
    pub open spec fn spec_channel_written(index: int, offset: int) -> bool {
        0 <= index < 16 && ChannelRegisterBlock::spec_written(
            offset - Self::spec_channel_offset(index),
        )
    }

    /// Whether storing the register block writes the byte at `offset` from
    /// its start: whether the byte belongs to a register, of the controller
    /// or of a channel, that is not read-only.
    pub open spec fn spec_written(offset: int) -> bool {
        ||| exists|register: ControllerRegister|
            !register.spec_read_only() && #[trigger] register.spec_covers(offset)
        ||| exists|index: int| #[trigger] Self::spec_channel_written(index, offset)
    }

    /// The byte offset of the block of channel `index`.
    pub fn channel_offset(index: usize) -> (offset: usize)
        requires
            index < Self::CHANNELS,
        ensures
            offset == Self::spec_channel_offset(index as int),
            offset == 0x100 + index * 0x40,
    {
        Self::CHANNELS_OFFSET + index * ChannelRegisterBlock::SIZE
    }

    /// The channel blocks lie one after another from offset 0x100 to the end
    /// of the register block: each is `ChannelRegisterBlock::SIZE` bytes
    /// long, starts where the one before it ends, and the last ends at
    /// `RegisterBlock::SIZE`.
    pub proof fn lemma_channel_layout(index: int)
        requires
            0 <= index < 16,
        ensures
            Self::spec_channel_offset(0) == Self::CHANNELS_OFFSET,
            Self::spec_channel_offset(index + 1) == Self::spec_channel_offset(index)
                + ChannelRegisterBlock::SIZE,
            Self::spec_channel_offset(16) == Self::SIZE,
            Self::CHANNELS_OFFSET <= Self::spec_channel_offset(index),
            Self::spec_channel_offset(index) + ChannelRegisterBlock::SIZE <= Self::SIZE,
    {
    }

    /// The bytes that storing the register block writes are those of the
    /// controller's five read-write registers and, in each channel block,
    /// those that storing the channel block writes. No byte of the status
    /// register is among them, and no reserved byte.
    pub proof fn lemma_written_bytes(offset: int)
        ensures
            Self::spec_written(offset) <==> (0x00 <= offset < 0x08 || 0x10 <= offset < 0x18 || 0x28
                <= offset < 0x2C || (0x100 <= offset < 0x500 && ChannelRegisterBlock::spec_written(
                (offset - 0x100) % 0x40,
            ))),
            ControllerRegister::Status.spec_covers(offset) ==> !Self::spec_written(offset),
    {
        if 0x00 <= offset < 0x04 {
            assert(ControllerRegister::IrqEnable0.spec_covers(offset));
        } else if 0x04 <= offset < 0x08 {
            assert(ControllerRegister::IrqEnable1.spec_covers(offset));
        } else if 0x10 <= offset < 0x14 {
            assert(ControllerRegister::IrqPending0.spec_covers(offset));
        } else if 0x14 <= offset < 0x18 {
            assert(ControllerRegister::IrqPending1.spec_covers(offset));
        } else if 0x28 <= offset < 0x2C {
            assert(ControllerRegister::AutoGating.spec_covers(offset));
        }
        if 0x100 <= offset < 0x500 {
            let index: int = (offset - 0x100) / 0x40;
            assert(offset - Self::spec_channel_offset(index) == (offset - 0x100) % 0x40);
            if ChannelRegisterBlock::spec_written((offset - 0x100) % 0x40) {
                assert(Self::spec_channel_written(index, offset));
            }
        }
        assert forall|index: int| #[trigger]
            Self::spec_channel_written(index, offset) implies 0x100 <= offset < 0x500
            && ChannelRegisterBlock::spec_written((offset - 0x100) % 0x40) by {
            ChannelRegisterBlock::lemma_written_bytes(offset - Self::spec_channel_offset(index));
        }
    }

    /// Reads the registers of the controller whose register block starts at
    /// `base`.
    ///
    /// Each register is read as one word from its offset; reserved bytes are
    /// not read. The block that is returned is a snapshot of what the bytes
    /// held.
    pub fn load(memory: &Vec<u8>, base: usize) -> (block: Self)
        requires
            base + Self::SIZE <= memory.len(),
        ensures
            forall|register: ControllerRegister| #[trigger]
                block.spec_raw(register) == le_u32(memory@, base + register.spec_offset()),
            forall|index: int, register: ChannelRegister|
                0 <= index < 16 ==> #[trigger] block.channels[index].spec_raw(register) == le_u32(
                    memory@,
                    base + Self::spec_channel_offset(index) + register.spec_offset(),
                ),
    {
        RegisterBlock {
            irq_enable0: RW::new(load_word(memory, base + Self::IRQ_ENABLE0_OFFSET)),
            irq_enable1: RW::new(load_word(memory, base + Self::IRQ_ENABLE1_OFFSET)),
            irq_pending0: RW::new(load_word(memory, base + Self::IRQ_PENDING0_OFFSET)),
            irq_pending1: RW::new(load_word(memory, base + Self::IRQ_PENDING1_OFFSET)),
            auto_gating: RW::new(load_word(memory, base + Self::AUTO_GATING_OFFSET)),
            status: RO::new(load_word(memory, base + Self::STATUS_OFFSET)),
            channels: [
                ChannelRegisterBlock::load(memory, base + Self::channel_offset(0)),
                ChannelRegisterBlock::load(memory, base + Self::channel_offset(1)),
                ChannelRegisterBlock::load(memory, base + Self::channel_offset(2)),
                ChannelRegisterBlock::load(memory, base + Self::channel_offset(3)),
                ChannelRegisterBlock::load(memory, base + Self::channel_offset(4)),
                ChannelRegisterBlock::load(memory, base + Self::channel_offset(5)),
                ChannelRegisterBlock::load(memory, base + Self::channel_offset(6)),
                ChannelRegisterBlock::load(memory, base + Self::channel_offset(7)),
                ChannelRegisterBlock::load(memory, base + Self::channel_offset(8)),
                ChannelRegisterBlock::load(memory, base + Self::channel_offset(9)),
                ChannelRegisterBlock::load(memory, base + Self::channel_offset(10)),
                ChannelRegisterBlock::load(memory, base + Self::channel_offset(11)),
                ChannelRegisterBlock::load(memory, base + Self::channel_offset(12)),
                ChannelRegisterBlock::load(memory, base + Self::channel_offset(13)),
                ChannelRegisterBlock::load(memory, base + Self::channel_offset(14)),
                ChannelRegisterBlock::load(memory, base + Self::channel_offset(15)),
            ],
        }
    }

    /// Writes the read-write registers of this block, those of the
    /// controller and those of every channel, to the register block that
    /// starts at `base`.
    ///
    /// Each of them is written as one word at its offset. Read-only
    /// registers, reserved bytes and everything outside the block keep what
    /// they held.
    pub fn store(&self, memory: &mut Vec<u8>, base: usize)
        requires
            base + Self::SIZE <= old(memory).len(),
        ensures
            final(memory).len() == old(memory).len(),
            forall|register: ControllerRegister|
                !register.spec_read_only() ==> le_u32(
                    final(memory)@,
                    base + #[trigger] register.spec_offset(),
                ) == self.spec_raw(register),
            forall|index: int, register: ChannelRegister|
                0 <= index < 16 && !register.spec_read_only() ==> le_u32(
                    final(memory)@,
                    base + Self::spec_channel_offset(index) + register.spec_offset(),
                ) == #[trigger] self.channels[index].spec_raw(register),
            forall|i: int|
                0 <= i < old(memory).len() && !Self::spec_written(i - base) ==> final(memory)@[i]
                    == old(memory)@[i],
    {
        let ghost before: Seq<u8> = memory@;
        store_word(memory, base + Self::IRQ_ENABLE0_OFFSET, self.irq_enable0.read());
        store_word(memory, base + Self::IRQ_ENABLE1_OFFSET, self.irq_enable1.read());
        store_word(memory, base + Self::IRQ_PENDING0_OFFSET, self.irq_pending0.read());
        store_word(memory, base + Self::IRQ_PENDING1_OFFSET, self.irq_pending1.read());
        store_word(memory, base + Self::AUTO_GATING_OFFSET, self.auto_gating.read());
        proof {
            assert forall|i: int|
                0 <= i < before.len() && memory@[i] != before[i] implies Self::spec_written(
                i - base,
            ) by {
                let offset: int = i - base;
                if offset < 0x04 {
                    assert(ControllerRegister::IrqEnable0.spec_covers(offset));
                } else if offset < 0x08 {
                    assert(ControllerRegister::IrqEnable1.spec_covers(offset));
                } else if offset < 0x14 {
                    assert(ControllerRegister::IrqPending0.spec_covers(offset));
                } else if offset < 0x18 {
                    assert(ControllerRegister::IrqPending1.spec_covers(offset));
                } else {
                    assert(ControllerRegister::AutoGating.spec_covers(offset));
                }
            }
        }
        let mut index: usize = 0;
        while index < Self::CHANNELS
            invariant
                index <= Self::CHANNELS,
                memory.len() == before.len(),
                base + Self::SIZE <= memory.len(),
                forall|register: ControllerRegister|
                    !register.spec_read_only() ==> le_u32(
                        memory@,
                        base + #[trigger] register.spec_offset(),
                    ) == self.spec_raw(register),
                forall|done: int, register: ChannelRegister|
                    0 <= done < index && !register.spec_read_only() ==> le_u32(
                        memory@,
                        base + Self::spec_channel_offset(done) + register.spec_offset(),
                    ) == #[trigger] self.channels[done].spec_raw(register),
                forall|i: int|
                    0 <= i < before.len() && !Self::spec_written(i - base) ==> memory@[i]
                        == before[i],
            decreases Self::CHANNELS - index,
        {
            let ghost earlier: Seq<u8> = memory@;
            let channel_base: usize = base + Self::channel_offset(index);
            self.channels[index].store(memory, channel_base);
            proof {
                assert forall|i: int|
                    0 <= i < before.len() && !Self::spec_written(i - base) implies memory@[i]
                    == before[i] by {
                    assert(!Self::spec_channel_written(index as int, i - base));
                }
                assert forall|register: ControllerRegister|
                    !register.spec_read_only() implies le_u32(
                    memory@,
                    base + #[trigger] register.spec_offset(),
                ) == self.spec_raw(register) by {
                    ControllerRegister::lemma_layout(register, register);
                    Self::lemma_store_leaves_word(
                        earlier,
                        memory@,
                        channel_base as int,
                        base + register.spec_offset(),
                    );
                }
                assert forall|done: int, register: ChannelRegister|
                    0 <= done < index + 1 && !register.spec_read_only() implies le_u32(
                    memory@,
                    base + Self::spec_channel_offset(done) + register.spec_offset(),
                ) == #[trigger] self.channels[done].spec_raw(register) by {
                    if done < index {
                        ChannelRegister::lemma_layout(register, register);
                        Self::lemma_store_leaves_word(
                            earlier,
                            memory@,
                            channel_base as int,
                            base + Self::spec_channel_offset(done) + register.spec_offset(),
                        );
                    }
                }
            }
            index = index + 1;
        }
    }

    /// A word that lies wholly outside a channel block is not changed by
    /// storing that channel block.
    proof fn lemma_store_leaves_word(
        earlier: Seq<u8>,
        later: Seq<u8>,
        channel_base: int,
        word: int,
    )
        requires
            0 <= word,
            word + 4 <= earlier.len(),
            later.len() == earlier.len(),
            word + 4 <= channel_base || channel_base + ChannelRegisterBlock::SIZE <= word,
            forall|i: int|
                0 <= i < earlier.len() && !ChannelRegisterBlock::spec_written(i - channel_base)
                    ==> later[i] == earlier[i],
        ensures
            le_u32(later, word) == le_u32(earlier, word),
    {
        assert forall|i: int| word <= i < word + 4 implies later[i] == earlier[i] by {
            assert forall|register: ChannelRegister|
                !(#[trigger] register.spec_covers(i - channel_base)) by {
                ChannelRegister::lemma_layout(register, register);
            }
        }
    }
}

/// Bit 0 by mask, as arithmetic.
proof fn lemma_decode_bit0(raw: u32)
    by (bit_vector)
    ensures
        (raw & (0x1u32 << 0)) != 0 <==> (raw / 1) % 2 == 1,
{
}

/// The fields of the start address register by mask and shift, as
/// arithmetic.
proof fn lemma_decode_start_addr(raw: u32)
    by (bit_vector)
    ensures
        (raw & (0x3FFFFFFFu32 << 2)) >> 2 == (raw / 4) % 0x4000_0000,
        (raw & (0x3u32 << 0)) >> 0 == (raw / 1) % 4,
{
}

/// The two fields of the start address register shifted back and merged, as
/// arithmetic.
proof fn lemma_compose_start_addr(raw: u32, high: u32, low: u32)
    by (bit_vector)
    requires
        high == (raw / 1) % 4,
        low == (raw / 4) % 0x4000_0000,
    ensures
        (high << 30) | (low << 2) == 4 * ((raw / 4) % 0x1000_0000) + 0x4000_0000 * (if (raw
            / 0x4000_0000) % 2 == 1 || (raw / 1) % 2 == 1 {
            1u32
        } else {
            0u32
        }) + 0x8000_0000 * (if (raw / 0x8000_0000) % 2 == 1 || (raw / 2) % 2 == 1 {
            1u32
        } else {
            0u32
        }),
{
}

/// The fields of the configuration register by mask and shift, as
/// arithmetic.
proof fn lemma_decode_config(raw: u32)
    by (bit_vector)
    ensures
        (raw & (0x1u32 << 30)) >> 30 == (raw / 0x4000_0000) % 2,
        (raw & (0x3u32 << 25)) >> 25 == (raw / 0x200_0000) % 4,
        (raw & (0x1u32 << 24)) >> 24 == (raw / 0x100_0000) % 2,
        (raw & (0x3u32 << 22)) >> 22 == (raw / 0x40_0000) % 4,
        (raw & (0x3Fu32 << 16)) >> 16 == (raw / 0x1_0000) % 0x40,
        (raw & (0x3u32 << 9)) >> 9 == (raw / 0x200) % 4,
        (raw & (0x1u32 << 8)) >> 8 == (raw / 0x100) % 2,
        (raw & (0x3u32 << 6)) >> 6 == (raw / 0x40) % 4,
        (raw & (0x3Fu32 << 0)) >> 0 == (raw / 1) % 0x40,
{
}

/// Fields that start at bit 0 by mask, as arithmetic.
proof fn lemma_decode_low_bits(raw: u32)
    by (bit_vector)
    ensures
        raw & 0xFFFFFFFFu32 == raw,
        raw & 0x1FFFFFFu32 == (raw / 1) % 0x200_0000,
        raw & (0xFFu32 << 0) == (raw / 1) % 0x100,
{
}

/// The fields of the mode register by mask and shift, as arithmetic.
proof fn lemma_decode_mode(raw: u32)
    by (bit_vector)
    ensures
        (raw & (0x1u32 << 3)) >> 3 == (raw / 8) % 2,
        (raw & (0x1u32 << 2)) >> 2 == (raw / 4) % 2,
{
}

/// The field of all 32 bits is the register.
proof fn lemma_whole_register(raw: u32)
    ensures
        bit_field(raw, 0, 32) == raw,
{
    lemma2_to64();
}

} // verus!
