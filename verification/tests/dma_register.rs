use allwinner_hal::access::{RO, RW};
use allwinner_hal::dma::register::{
    ChannelByteCounterLeftRegister, ChannelConfigRegister, ChannelCurrentDestAddrRegister,
    ChannelCurrentSrcAddrRegister, ChannelEnableRegister, ChannelFormerDescAddrRegister,
    ChannelModeRegister, ChannelPackageNumRegister, ChannelParameterRegister,
    ChannelPauseRegister, ChannelRegisterBlock, ChannelStartAddrRegister,
};

const SAMPLES: [u32; 8] = [
    0x0000_0000,
    0xFFFF_FFFF,
    0x0000_0001,
    0x8000_0000,
    0xA5A5_A5A5,
    0x5A5A_5A5A,
    0x1234_5678,
    0xFEDC_BA98,
];

#[test]
fn enable_register_reads_bit_0() {
    assert!(!ChannelEnableRegister(0).is_dma_enabled());
    assert!(ChannelEnableRegister(1).is_dma_enabled());
    assert!(!ChannelEnableRegister(0xFFFF_FFFE).is_dma_enabled());
    assert!(ChannelEnableRegister(0xFFFF_FFFF).is_dma_enabled());
}

#[test]
fn enable_and_disable_change_bit_0_only() {
    for raw in SAMPLES {
        let mut register = ChannelEnableRegister(raw);
        register.enable_dma();
        assert_eq!(register.0, raw | 1);
        assert!(register.is_dma_enabled());
        register.disable_dma();
        assert_eq!(register.0, raw & 0xFFFF_FFFE);
        assert!(!register.is_dma_enabled());
    }
}

#[test]
fn pause_register_reads_bit_0() {
    assert!(!ChannelPauseRegister(0).if_dma_pause());
    assert!(ChannelPauseRegister(1).if_dma_pause());
    assert!(!ChannelPauseRegister(0xFFFF_FFFE).if_dma_pause());
}

#[test]
fn pause_and_resume_change_bit_0_only() {
    for raw in SAMPLES {
        let mut register = ChannelPauseRegister(raw);
        register.pause_dma();
        assert_eq!(register.0, raw | 1);
        assert!(register.if_dma_pause());
        register.resume_dma();
        assert_eq!(register.0, raw & 0xFFFF_FFFE);
        assert!(!register.if_dma_pause());
    }
}

#[test]
fn start_address_fields() {
    let register = ChannelStartAddrRegister(0x1234_5679);
    assert_eq!(register.dma_desc_addr(), 0x1234_5679 >> 2);
    assert_eq!(register.dma_desc_addr(), 0x048D_159E);
    assert_eq!(register.dma_desc_high_addr(), 1);
    assert_eq!(register.full_dma_desc_addr(), 0x5234_5678);

    let register = ChannelStartAddrRegister(0x0000_0002);
    assert_eq!(register.dma_desc_addr(), 0);
    assert_eq!(register.dma_desc_high_addr(), 2);
    assert_eq!(register.full_dma_desc_addr(), 0x8000_0000);

    let register = ChannelStartAddrRegister(0);
    assert_eq!(register.dma_desc_addr(), 0);
    assert_eq!(register.dma_desc_high_addr(), 0);
    assert_eq!(register.full_dma_desc_addr(), 0);
}

#[test]
fn full_address_is_word_aligned() {
    for raw in SAMPLES {
        let register = ChannelStartAddrRegister(raw);
        let full = register.full_dma_desc_addr();
        assert_eq!(full % 4, 0);
        // Bits [29:2] are those of the register.
        assert_eq!(full & 0x3FFF_FFFC, raw & 0x3FFF_FFFC);
        // Bits [31:30] merge those of the register with the higher field.
        assert_eq!(full >> 30, (raw >> 30) | (raw & 3));
    }
}

#[test]
fn start_address_scenario_all_ones() {
    let mut block = ChannelRegisterBlock {
        enable: RW::new(ChannelEnableRegister(0)),
        pause: RW::new(ChannelPauseRegister(0)),
        start_addr: RW::new(ChannelStartAddrRegister(0)),
        config: RW::new(ChannelConfigRegister(0)),
        current_src_addr: RO::new(ChannelCurrentSrcAddrRegister(0)),
        current_destination: RO::new(ChannelCurrentDestAddrRegister(0)),
        byte_counter_left: RO::new(ChannelByteCounterLeftRegister(0)),
        parameter: RW::new(ChannelParameterRegister(0)),
        mode: RW::new(ChannelModeRegister(0)),
        former_desc_addr: RO::new(ChannelFormerDescAddrRegister(0)),
        package_num: RO::new(ChannelPackageNumRegister(0)),
    };
    block.start_addr.write(ChannelStartAddrRegister(0xFFFF_FFFF));
    let start = block.start_addr.read();
    assert_eq!(start.dma_desc_addr(), 0x3FFF_FFFF);
    assert_eq!(start.dma_desc_high_addr(), 0x3);
    assert_eq!(start.full_dma_desc_addr(), 0xFFFF_FFFC);
}

#[test]
fn config_fields_one_at_a_time() {
    // Each field filled with ones, all others zero.
    assert_eq!(ChannelConfigRegister(1 << 30).bmode_sel(), 1);
    assert_eq!(ChannelConfigRegister(3 << 25).dma_dest_data_width(), 3);
    assert_eq!(ChannelConfigRegister(1 << 24).dma_addr_mode(), 1);
    assert_eq!(ChannelConfigRegister(3 << 22).dma_dest_block_size(), 3);
    assert_eq!(ChannelConfigRegister(0x3F << 16).dma_dest_drq_type(), 0x3F);
    assert_eq!(ChannelConfigRegister(3 << 9).dma_src_data_width(), 3);
    assert_eq!(ChannelConfigRegister(1 << 8).dma_src_addr_mode(), 1);
    assert_eq!(ChannelConfigRegister(3 << 6).dma_src_block_size(), 3);
    assert_eq!(ChannelConfigRegister(0x3F).dma_src_drq_type(), 0x3F);

    // Each field zero, all others filled with ones.
    assert_eq!(ChannelConfigRegister(!(1 << 30)).bmode_sel(), 0);
    assert_eq!(ChannelConfigRegister(!(3 << 25)).dma_dest_data_width(), 0);
    assert_eq!(ChannelConfigRegister(!(1 << 24)).dma_addr_mode(), 0);
    assert_eq!(ChannelConfigRegister(!(3 << 22)).dma_dest_block_size(), 0);
    assert_eq!(ChannelConfigRegister(!(0x3F << 16)).dma_dest_drq_type(), 0);
    assert_eq!(ChannelConfigRegister(!(3 << 9)).dma_src_data_width(), 0);
    assert_eq!(ChannelConfigRegister(!(1 << 8)).dma_src_addr_mode(), 0);
    assert_eq!(ChannelConfigRegister(!(3 << 6)).dma_src_block_size(), 0);
    assert_eq!(ChannelConfigRegister(!0x3F).dma_src_drq_type(), 0);
}

#[test]
fn config_fields_of_one_value() {
    // 0100_0101_0110_1010_0000_0101_1001_0111
    let register = ChannelConfigRegister(0x456A_0597);
    assert_eq!(register.bmode_sel(), 1);
    assert_eq!(register.dma_dest_data_width(), 2);
    assert_eq!(register.dma_addr_mode(), 1);
    assert_eq!(register.dma_dest_block_size(), 1);
    assert_eq!(register.dma_dest_drq_type(), 0x2A);
    assert_eq!(register.dma_src_data_width(), 2);
    assert_eq!(register.dma_src_addr_mode(), 1);
    assert_eq!(register.dma_src_block_size(), 2);
    assert_eq!(register.dma_src_drq_type(), 0x17);
}

#[test]
fn whole_register_fields() {
    for raw in SAMPLES {
        assert_eq!(ChannelCurrentSrcAddrRegister(raw).dma_cur_src(), raw);
        assert_eq!(ChannelCurrentDestAddrRegister(raw).dma_cur_dest(), raw);
        assert_eq!(ChannelFormerDescAddrRegister(raw).dma_fdesc_addr(), raw);
        assert_eq!(ChannelPackageNumRegister(raw).dma_pkg_num(), raw);
    }
}

#[test]
fn byte_counter_and_wait_cycles() {
    // The byte counter is bits [24:0]: bit 24 belongs to it, bits [31:25] do not.
    assert_eq!(ChannelByteCounterLeftRegister(0xFFFF_FFFF).dma_bcnt_left(), 0x01FF_FFFF);
    assert_eq!(ChannelByteCounterLeftRegister(0xAB12_3456).dma_bcnt_left(), 0x0112_3456);
    assert_eq!(ChannelByteCounterLeftRegister(0x0100_0000).dma_bcnt_left(), 0x0100_0000);
    assert_eq!(ChannelByteCounterLeftRegister(0x0200_0000).dma_bcnt_left(), 0);
    assert_eq!(ChannelByteCounterLeftRegister(0xFE00_0000).dma_bcnt_left(), 0);
    for raw in SAMPLES {
        assert_eq!(ChannelByteCounterLeftRegister(raw).dma_bcnt_left(), raw & 0x01FF_FFFF);
    }
    assert_eq!(ChannelParameterRegister(0xFFFF_FFFF).wait_cyc(), 0xFF);
    assert_eq!(ChannelParameterRegister(0x1234_5678).wait_cyc(), 0x78);
    assert_eq!(ChannelParameterRegister(0xFFFF_FF00).wait_cyc(), 0);
}

#[test]
fn mode_fields() {
    assert_eq!(ChannelModeRegister(0b1000).dma_dst_mode(), 1);
    assert_eq!(ChannelModeRegister(0b1000).dma_src_mode(), 0);
    assert_eq!(ChannelModeRegister(0b0100).dma_dst_mode(), 0);
    assert_eq!(ChannelModeRegister(0b0100).dma_src_mode(), 1);
    assert_eq!(ChannelModeRegister(0xFFFF_FFF3).dma_dst_mode(), 0);
    assert_eq!(ChannelModeRegister(0xFFFF_FFF3).dma_src_mode(), 0);
}

#[test]
fn set_destination_mode_round_trips_and_keeps_other_bits() {
    for raw in SAMPLES {
        for enable in [true, false] {
            let mut register = ChannelModeRegister(raw);
            register.set_dma_dst_mode(enable);
            assert_eq!(register.dma_dst_mode(), enable as u32);
            assert_eq!(register.0 & !0x8, raw & !0x8);
            assert_eq!(register.dma_src_mode(), (raw >> 2) & 1);
        }
    }
    let mut register = ChannelModeRegister(0x4);
    register.set_dma_dst_mode(true);
    assert_eq!(register, ChannelModeRegister(0xC));
    register.set_dma_dst_mode(false);
    assert_eq!(register, ChannelModeRegister(0x4));
}

#[test]
fn mask_constants() {
    assert_eq!(ChannelEnableRegister::DMA_EN, 0x1);
    assert_eq!(ChannelPauseRegister::DMA_PAUSE, 0x1);
    assert_eq!(ChannelStartAddrRegister::DMA_DESC_ADDR, 0xFFFF_FFFC);
    assert_eq!(ChannelStartAddrRegister::DMA_DESC_HIGH_ADDR, 0x3);
    assert_eq!(ChannelConfigRegister::BMODE_SEL, 0x4000_0000);
    assert_eq!(ChannelConfigRegister::DMA_DEST_DATA_WIDTH, 0x0600_0000);
    assert_eq!(ChannelConfigRegister::DMA_ADDR_MODE, 0x0100_0000);
    assert_eq!(ChannelConfigRegister::DMA_DEST_BLOCK_SIZE, 0x00C0_0000);
    assert_eq!(ChannelConfigRegister::DMA_DEST_DRQ_TYPE, 0x003F_0000);
    assert_eq!(ChannelConfigRegister::DMA_SRC_DATA_WIDTH, 0x0000_0600);
    assert_eq!(ChannelConfigRegister::DMA_SRC_ADDR_MODE, 0x0000_0100);
    assert_eq!(ChannelConfigRegister::DMA_SRC_BLOCK_SIZE, 0x0000_00C0);
    assert_eq!(ChannelConfigRegister::DMA_SRC_DRQ_TYPE, 0x0000_003F);
    assert_eq!(ChannelByteCounterLeftRegister::DMA_BCNT_LEFT, 0x01FF_FFFF);
    assert_eq!(ChannelParameterRegister::WAIT_CYC, 0xFF);
    assert_eq!(ChannelModeRegister::DMA_DST_MODE, 0x8);
    assert_eq!(ChannelModeRegister::DMA_SRC_MODE, 0x4);
}

#[test]
fn access_wrappers_read_write_modify() {
    let read_only = RO::new(ChannelPackageNumRegister(7));
    assert_eq!(read_only.read(), ChannelPackageNumRegister(7));

    let mut register = RW::new(ChannelEnableRegister(0xF0));
    assert_eq!(register.read(), ChannelEnableRegister(0xF0));
    register.write(ChannelEnableRegister(0x10));
    assert_eq!(register.read(), ChannelEnableRegister(0x10));
    register.modify(|mut value| {
        value.enable_dma();
        value
    });
    assert_eq!(register.read(), ChannelEnableRegister(0x11));
    register.modify(|value| ChannelEnableRegister(value.0 << 4));
    assert_eq!(register.read(), ChannelEnableRegister(0x110));
}
