use goofy_ahh_os::ahci::{
    check_type, probe_port, start_cmd, stop_cmd, DeviceSignature, HbaCmdHeader, HbaMem, HbaPort,
    HbaPrdtEntry, PortReport, PortSignature, HBA_PXCMD_CR, HBA_PXCMD_FR, HBA_PXCMD_FRE,
    HBA_PXCMD_ST,
};
use goofy_ahh_os::fis::{FisData, FisDmaSetup, FisPioSetup, FisRegD2H, FisRegH2D, FisType};

const ACTIVE: u32 = 0x0103;

fn port(ssts: u32, sig: u32) -> HbaPort {
    let mut p = HbaPort::zeroed();
    p.ssts = ssts;
    p.sig = sig;
    p
}

#[test]
fn absent_device_is_null_whatever_the_signature() {
    for sig in [0u32, 0x0000_0101, 0xEB14_0101, 0xC33C_0101, 0x9669_0101, 0xFFFF_FFFF] {
        assert_eq!(check_type(&port(0x0, sig)), PortSignature::Null);
        assert_eq!(check_type(&port(0x0101, sig)), PortSignature::Null);
        assert_eq!(check_type(&port(0x0100, sig)), PortSignature::Null);
    }
}

#[test]
fn present_but_inactive_link_is_null() {
    for ipm in [0u32, 2, 6, 8, 15] {
        let ssts = (ipm << 8) | 3;
        assert_eq!(check_type(&port(ssts, 0x0000_0101)), PortSignature::Null);
    }
}

#[test]
fn active_link_with_ata_signature_is_a_sata_drive() {
    assert_eq!(check_type(&port(ACTIVE, 0x0000_0101)), PortSignature::Sata);
}

#[test]
fn active_link_with_atapi_signature_is_an_atapi_drive() {
    assert_eq!(check_type(&port(ACTIVE, 0xEB14_0101)), PortSignature::Satapi);
}

#[test]
fn active_link_with_bridge_and_multiplier_signatures() {
    assert_eq!(check_type(&port(ACTIVE, 0xC33C_0101)), PortSignature::Semb);
    assert_eq!(check_type(&port(ACTIVE, 0x9669_0101)), PortSignature::Pm);
}

#[test]
fn active_link_with_unknown_signature_is_null() {
    for sig in [0u32, 1, 4, 0x0000_0100, 0xFFFF_FFFF] {
        assert_eq!(check_type(&port(ACTIVE, sig)), PortSignature::Null);
    }
}

#[test]
fn status_bits_outside_the_two_fields_do_not_count() {
    // speed field and reserved bits set as well
    assert_eq!(check_type(&port(0xFFFF_F1F3 & !0x0E0C, 0x0000_0101)), PortSignature::Sata);
    assert_eq!(check_type(&port(0x0000_0133, 0x0000_0101)), PortSignature::Sata);
    // detect field is 0x7, not 0x3
    assert_eq!(check_type(&port(0x0000_0107, 0x0000_0101)), PortSignature::Null);
}

#[test]
fn device_signature_values() {
    assert_eq!(DeviceSignature::Ata.value(), 0x0000_0101);
    assert_eq!(DeviceSignature::Atapi.value(), 0xEB14_0101);
    assert_eq!(DeviceSignature::Semb.value(), 0xC33C_0101);
    assert_eq!(DeviceSignature::Pm.value(), 0x9669_0101);
    assert_eq!(DeviceSignature::Invalid.value(), 0);
    for d in [
        DeviceSignature::Ata,
        DeviceSignature::Atapi,
        DeviceSignature::Semb,
        DeviceSignature::Pm,
        DeviceSignature::Invalid,
    ] {
        assert_eq!(DeviceSignature::from_register(d.value()), d);
    }
    assert_eq!(DeviceSignature::from_register(0x1234_5678), DeviceSignature::Invalid);
}

#[test]
fn port_signature_numbers() {
    let all = [
        PortSignature::Null,
        PortSignature::Sata,
        PortSignature::Semb,
        PortSignature::Pm,
        PortSignature::Satapi,
    ];
    for (n, p) in all.iter().enumerate() {
        assert_eq!(p.value(), n as u32);
        assert_eq!(PortSignature::from(n as u32), *p);
    }
    assert_eq!(PortSignature::from(5), PortSignature::Null);
    assert_eq!(PortSignature::from(0x0000_0101), PortSignature::Null);
    assert_eq!(PortSignature::of_device(DeviceSignature::Ata), PortSignature::Sata);
    assert_eq!(PortSignature::of_device(DeviceSignature::Atapi), PortSignature::Satapi);
    assert_eq!(PortSignature::of_device(DeviceSignature::Invalid), PortSignature::Null);
}

#[test]
fn probe_reports_implemented_ports_in_order() {
    let mut abar = HbaMem::zeroed();
    abar.pi = (1 << 0) | (1 << 3) | (1 << 4) | (1 << 31);
    abar.ports[0] = port(ACTIVE, 0x0000_0101);
    abar.ports[1] = port(ACTIVE, 0xEB14_0101); // not implemented: not reported
    abar.ports[3] = port(0, 0x0000_0101);
    abar.ports[4] = port(ACTIVE, 0xEB14_0101);
    abar.ports[31] = port(ACTIVE, 0x9669_0101);
    let found = probe_port(&abar);
    assert_eq!(
        found,
        vec![
            PortReport { index: 0, kind: PortSignature::Sata },
            PortReport { index: 3, kind: PortSignature::Null },
            PortReport { index: 4, kind: PortSignature::Satapi },
            PortReport { index: 31, kind: PortSignature::Pm },
        ]
    );
}

#[test]
fn probe_of_no_ports_and_of_all_ports() {
    let mut abar = HbaMem::zeroed();
    assert!(probe_port(&abar).is_empty());
    abar.pi = 0xFFFF_FFFF;
    let found = probe_port(&abar);
    assert_eq!(found.len(), 32);
    for (i, r) in found.iter().enumerate() {
        assert_eq!(r.index, i as u32);
        assert_eq!(r.kind, PortSignature::Null);
    }
}

#[test]
fn start_waits_for_the_command_list_to_stop() {
    let mut p = HbaPort::zeroed();
    p.cmd = HBA_PXCMD_CR | 0x0100;
    assert!(!start_cmd(&mut p));
    assert_eq!(p.cmd, HBA_PXCMD_CR | 0x0100);
    // the engine has stopped meanwhile
    p.cmd = 0x0100;
    assert!(start_cmd(&mut p));
    assert_eq!(p.cmd, 0x0100 | HBA_PXCMD_FRE | HBA_PXCMD_ST);
    assert_eq!(p.cmd, 0x0111);
}

#[test]
fn start_ignores_the_fis_receive_running_bit() {
    let mut p = HbaPort::zeroed();
    p.cmd = HBA_PXCMD_FR;
    assert!(start_cmd(&mut p));
    assert_eq!(p.cmd, 0x4011);
}

#[test]
fn stop_clears_the_start_bit_only() {
    let mut p = HbaPort::zeroed();
    p.cmd = 0xFFFF_FFFF;
    p.sig = 7;
    stop_cmd(&mut p);
    assert_eq!(p.cmd, 0xFFFF_FFFE);
    assert_eq!(p.sig, 7);
    stop_cmd(&mut p);
    assert_eq!(p.cmd, 0xFFFF_FFFE);
}

#[test]
fn port_registers_keep_their_order() {
    let words: Vec<u32> = (0..32u32).map(|i| 0x1000 + i).collect();
    let p = HbaPort::from_words(&words).unwrap();
    assert_eq!(p.clb, 0x1000);
    assert_eq!(p.clbu, 0x1001);
    assert_eq!(p.fb, 0x1002);
    assert_eq!(p.fbu, 0x1003);
    assert_eq!(p.is, 0x1004);
    assert_eq!(p.ie, 0x1005);
    assert_eq!(p.cmd, 0x1006); // 0x18
    assert_eq!(p.rsv0, 0x1007);
    assert_eq!(p.tfd, 0x1008); // 0x20
    assert_eq!(p.sig, 0x1009); // 0x24
    assert_eq!(p.ssts, 0x100A); // 0x28
    assert_eq!(p.sctl, 0x100B);
    assert_eq!(p.serr, 0x100C);
    assert_eq!(p.sact, 0x100D);
    assert_eq!(p.ci, 0x100E);
    assert_eq!(p.sntf, 0x100F);
    assert_eq!(p.fbs, 0x1010); // 0x40
    assert_eq!(p.rsv1[0], 0x1011);
    assert_eq!(p.rsv1[10], 0x101B);
    assert_eq!(p.vendor[0], 0x101C); // 0x70
    assert_eq!(p.vendor[3], 0x101F);
    assert_eq!(p.to_words(), words);
    assert!(HbaPort::from_words(&words[..31]).is_none());
    assert!(HbaPort::from_words(&[]).is_none());
    assert_eq!(HbaPort::zeroed().to_words(), vec![0u32; 32]);
}

#[test]
fn fis_type_codes() {
    let all = [
        (FisType::RegH2D, 0x27u8),
        (FisType::RegD2H, 0x34),
        (FisType::DmaAct, 0x39),
        (FisType::DmaSetup, 0x41),
        (FisType::Data, 0x46),
        (FisType::Bist, 0x58),
        (FisType::PioSetup, 0x5F),
        (FisType::DevBits, 0xA1),
    ];
    for (kind, code) in all {
        assert_eq!(kind.code(), code);
        assert_eq!(FisType::from_code(code), Some(kind));
    }
    assert_eq!(FisType::from_code(0), None);
    assert_eq!(FisType::from_code(0x28), None);
    assert_eq!(FisType::from_code(0xFF), None);
}

#[test]
fn host_to_device_frame_layout() {
    let bytes: Vec<u8> = (1..=20u8).collect();
    let f = FisRegH2D::from_bytes(&bytes).unwrap();
    assert_eq!(f.fis_type, 1);
    assert_eq!(f.pmport_c, 2);
    assert_eq!(f.command, 3);
    assert_eq!(f.featurel, 4);
    assert_eq!(f.lba0, 5);
    assert_eq!(f.lba1, 6);
    assert_eq!(f.lba2, 7);
    assert_eq!(f.device, 8);
    assert_eq!(f.lba3, 9);
    assert_eq!(f.lba4, 10);
    assert_eq!(f.lba5, 11);
    assert_eq!(f.featureh, 12);
    assert_eq!(f.countl, 13);
    assert_eq!(f.counth, 14);
    assert_eq!(f.icc, 15);
    assert_eq!(f.control, 16);
    assert_eq!(f.rsv1, [17, 18, 19, 20]);
    assert_eq!(f.to_bytes(), bytes);
    assert_eq!(FisRegH2D::SIZE, 20);
    assert!(FisRegH2D::from_bytes(&bytes[..19]).is_none());
    assert!(FisRegH2D::from_bytes(&[0u8; 21]).is_none());
}

#[test]
fn device_to_host_frame_layout() {
    let bytes: Vec<u8> = (1..=20u8).collect();
    let f = FisRegD2H::from_bytes(&bytes).unwrap();
    assert_eq!(f.fis_type, 1);
    assert_eq!(f.pmport_i, 2);
    assert_eq!(f.status, 3);
    assert_eq!(f.error, 4);
    assert_eq!(f.device, 8);
    assert_eq!(f.lba5, 11);
    assert_eq!(f.rsv2, 12);
    assert_eq!(f.countl, 13);
    assert_eq!(f.counth, 14);
    assert_eq!(f.rsv3, [15, 16]);
    assert_eq!(f.rsv4, [17, 18, 19, 20]);
    assert_eq!(f.to_bytes(), bytes);
    assert!(FisRegD2H::from_bytes(&bytes[1..]).is_none());
}

#[test]
fn data_frame_layout() {
    let bytes = [0x46u8, 0x10, 0, 0, 0x78, 0x56, 0x34, 0x12];
    let f = FisData::from_bytes(&bytes).unwrap();
    assert_eq!(f.fis_type, 0x46);
    assert_eq!(f.pmport, 0x10);
    assert_eq!(f.rsv1, [0, 0]);
    assert_eq!(f.data, [0x1234_5678]);
    assert_eq!(f.to_bytes(), bytes.to_vec());
    assert_eq!(FisData::SIZE, 8);
    assert!(FisData::from_bytes(&bytes[..4]).is_none());
}

#[test]
fn pio_setup_frame_layout() {
    let mut bytes: Vec<u8> = (1..=20u8).collect();
    bytes[16] = 0xCD;
    bytes[17] = 0xAB;
    let f = FisPioSetup::from_bytes(&bytes).unwrap();
    assert_eq!(f.fis_type, 1);
    assert_eq!(f.pmport_flags, 2);
    assert_eq!(f.status, 3);
    assert_eq!(f.error, 4);
    assert_eq!(f.rsv3, 15);
    assert_eq!(f.e_status, 16);
    assert_eq!(f.tc, 0xABCD);
    assert_eq!(f.rsv4, [19, 20]);
    assert_eq!(f.to_bytes(), bytes);
    assert_eq!(FisPioSetup::SIZE, 20);
    assert!(FisPioSetup::from_bytes(&[]).is_none());
}

#[test]
fn dma_setup_frame_layout() {
    let bytes: Vec<u8> = (1..=28u8).collect();
    let f = FisDmaSetup::from_bytes(&bytes).unwrap();
    assert_eq!(f.fis_type, 1);
    assert_eq!(f.pmport_flags, 2);
    assert_eq!(f.rsved, [3, 4]);
    assert_eq!(f.dma_buffer_id, 0x0C0B_0A09_0807_0605);
    assert_eq!(f.rsvd, 0x100F_0E0D);
    assert_eq!(f.dma_buf_offset, 0x1413_1211);
    assert_eq!(f.transfer_count, 0x1817_1615);
    assert_eq!(f.resvd, 0x1C1B_1A19);
    assert_eq!(f.to_bytes(), bytes);
    assert_eq!(FisDmaSetup::SIZE, 28);
    assert!(FisDmaSetup::from_bytes(&bytes[..27]).is_none());
}

#[test]
fn command_header_layout() {
    let bytes: Vec<u8> = (1..=32u8).collect();
    let h = HbaCmdHeader::from_bytes(&bytes).unwrap();
    assert_eq!(h.flags, 0x0201);
    assert_eq!(h.prdtl, 0x0403);
    assert_eq!(h.prdbc, 0x0807_0605);
    assert_eq!(h.ctba, 0x0C0B_0A09);
    assert_eq!(h.ctbau, 0x100F_0E0D);
    assert_eq!(h.rsv1, [0x1413_1211, 0x1817_1615, 0x1C1B_1A19, 0x201F_1E1D]);
    assert_eq!(h.to_bytes(), bytes);
    assert_eq!(HbaCmdHeader::SIZE, 32);
    assert!(HbaCmdHeader::from_bytes(&bytes[..31]).is_none());
}

#[test]
fn region_descriptor_layout() {
    let e = HbaPrdtEntry { dba: 0x1122_3344, dbau: 0x5566_7788, rsv0: 0, dbc_and_flags: 0x8000_01FF };
    let bytes = e.to_bytes();
    assert_eq!(
        bytes,
        vec![0x44, 0x33, 0x22, 0x11, 0x88, 0x77, 0x66, 0x55, 0, 0, 0, 0, 0xFF, 0x01, 0x00, 0x80]
    );
    let back = HbaPrdtEntry::from_bytes(&bytes).unwrap();
    assert_eq!(back.dba, e.dba);
    assert_eq!(back.dbau, e.dbau);
    assert_eq!(back.rsv0, e.rsv0);
    assert_eq!(back.dbc_and_flags, e.dbc_and_flags);
    assert_eq!(HbaPrdtEntry::SIZE, 16);
    assert!(HbaPrdtEntry::from_bytes(&bytes[..15]).is_none());
}

#[test]
fn received_fis_area_layout() {
    let bytes: Vec<u8> = (0..256u32).map(|i| i as u8).collect();
    let area = goofy_ahh_os::ahci::HbaFis::from_bytes(&bytes).unwrap();
    // 0x00: DMA setup frame
    assert_eq!(area.dsfis.fis_type, 0x00);
    assert_eq!(area.dsfis.resvd, 0x1B1A_1918);
    assert_eq!(area.pad0, [0x1C, 0x1D, 0x1E, 0x1F]);
    // 0x20: PIO setup frame
    assert_eq!(area.psfis.fis_type, 0x20);
    assert_eq!(area.psfis.tc, 0x3130);
    assert_eq!(area.pad1[0], 0x34);
    assert_eq!(area.pad1[11], 0x3F);
    // 0x40: register frame
    assert_eq!(area.rfis.fis_type, 0x40);
    assert_eq!(area.rfis.status, 0x42);
    assert_eq!(area.pad2, [0x54, 0x55, 0x56, 0x57]);
    // 0x58, 0x60, 0xA0
    assert_eq!(area.sdbfis[0], 0x58);
    assert_eq!(area.ufis[0], 0x60);
    assert_eq!(area.ufis[63], 0x9F);
    assert_eq!(area.rsv[0], 0xA0);
    assert_eq!(area.rsv[95], 0xFF);
    assert_eq!(area.to_bytes(), bytes);
    assert!(goofy_ahh_os::ahci::HbaFis::from_bytes(&bytes[..255]).is_none());
}

#[test]
fn command_table_layout() {
    let bytes: Vec<u8> = (0..144u32).map(|i| i as u8).collect();
    let table = goofy_ahh_os::ahci::HbaCmdTbl::from_bytes(&bytes).unwrap();
    assert_eq!(table.cfis[0], 0x00);
    assert_eq!(table.cfis[63], 0x3F);
    assert_eq!(table.acmd[0], 0x40);
    assert_eq!(table.acmd[15], 0x4F);
    assert_eq!(table.rsv[0], 0x50);
    assert_eq!(table.rsv[47], 0x7F);
    assert_eq!(table.prdt_entry[0].dba, 0x8382_8180);
    assert_eq!(table.prdt_entry[0].dbc_and_flags, 0x8F8E_8D8C);
    assert_eq!(table.to_bytes(), bytes);
    assert!(goofy_ahh_os::ahci::HbaCmdTbl::from_bytes(&bytes[..143]).is_none());
    assert!(goofy_ahh_os::ahci::HbaCmdTbl::from_bytes(&[]).is_none());
}

#[test]
fn register_block_layout() {
    let words: Vec<u32> = (0..1088u32).map(|i| 0xAB00_0000 | i).collect();
    let abar = HbaMem::from_words(&words).unwrap();
    assert_eq!(abar.cap, 0xAB00_0000);
    assert_eq!(abar.ghc, 0xAB00_0001);
    assert_eq!(abar.is, 0xAB00_0002);
    assert_eq!(abar.pi, 0xAB00_0003); // 0x0C
    assert_eq!(abar.vs, 0xAB00_0004);
    assert_eq!(abar.ccc_ctl, 0xAB00_0005);
    assert_eq!(abar.ccc_pts, 0xAB00_0006);
    assert_eq!(abar.em_loc, 0xAB00_0007);
    assert_eq!(abar.em_ctl, 0xAB00_0008);
    assert_eq!(abar.cap2, 0xAB00_0009);
    assert_eq!(abar.bohc, 0xAB00_000A); // 0x28
    // 0x2C: reserved bytes, least significant byte of word 11 first
    assert_eq!(abar.rsv[..4], [0x0B, 0x00, 0x00, 0xAB]);
    assert_eq!(abar.rsv[112..], [0x27, 0x00, 0x00, 0xAB]);
    // 0xA0: vendor bytes, word 40 on
    assert_eq!(abar.vendor[..4], [0x28, 0x00, 0x00, 0xAB]);
    assert_eq!(abar.vendor[92..], [0x3F, 0x00, 0x00, 0xAB]);
    // 0x100: ports, 0x80 bytes each
    for i in 0..32usize {
        assert_eq!(abar.ports[i].to_words(), words[64 + 32 * i..96 + 32 * i].to_vec());
    }
    assert_eq!(abar.ports[0].clb, 0xAB00_0040);
    assert_eq!(abar.ports[1].ssts, 0xAB00_0000 | (64 + 32 + 10));
    assert_eq!(abar.ports[31].vendor[3], 0xAB00_043F);
    assert!(HbaMem::from_words(&words[..1087]).is_none());
    assert!(HbaMem::from_words(&[]).is_none());
    assert_eq!(HbaMem::WORDS * 4, 0x1100);
}

#[test]
fn probe_of_a_register_block_read_from_words() {
    let mut words = vec![0u32; 1088];
    words[3] = 0b101;
    // port 0: active link, ATA signature
    words[64 + 9] = 0x0000_0101;
    words[64 + 10] = 0x0000_0113;
    // port 2: active link, ATAPI signature
    words[64 + 2 * 32 + 9] = 0xEB14_0101;
    words[64 + 2 * 32 + 10] = 0x0000_0123;
    let abar = HbaMem::from_words(&words).unwrap();
    assert_eq!(
        probe_port(&abar),
        vec![
            PortReport { index: 0, kind: PortSignature::Sata },
            PortReport { index: 2, kind: PortSignature::Satapi },
        ]
    );
}

#[test]
fn zeroed_register_block_is_all_zero() {
    let abar = HbaMem::zeroed();
    assert_eq!(abar.cap, 0);
    assert_eq!(abar.pi, 0);
    assert_eq!(abar.bohc, 0);
    assert!(abar.rsv.iter().all(|b| *b == 0));
    assert!(abar.vendor.iter().all(|b| *b == 0));
    for p in abar.ports.iter() {
        assert_eq!(p.to_words(), vec![0u32; 32]);
    }
}

#[test]
fn read_array_copies_a_window() {
    let bytes: Vec<u8> = (0..10u8).collect();
    let a: [u8; 4] = goofy_ahh_os::fis::read_array::<4>(&bytes, 3);
    assert_eq!(a, [3, 4, 5, 6]);
    let all: [u8; 10] = goofy_ahh_os::fis::read_array::<10>(&bytes, 0);
    assert_eq!(all.to_vec(), bytes);
    let none: [u8; 0] = goofy_ahh_os::fis::read_array::<0>(&bytes, 10);
    assert_eq!(none, []);
}
