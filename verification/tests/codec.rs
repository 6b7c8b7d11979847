use libtlp::nettlp::{encode_mrd, encode_mwr, max_chunk_len, DmaDirection, NetTlpHdr};
use libtlp::pci::Bdf;
use libtlp::tlp::{
    calc_be, calc_firstbe, calc_lastbe, calc_length, AlignDW, CplStatus, MaxValue, TlpAddr,
    TlpCplHdr, TlpMrHdr, TlpType, To64,
};
use libtlp::wire::{get_be16, get_be32, get_be64, put_be16, put_be32, put_be64};

fn cpl(lowaddr: u8, count: u16, length: u16) -> TlpCplHdr {
    TlpCplHdr {
        fmt_type: 0b0100_1010,
        tclass: 0,
        falen: length,
        completer: 0,
        stcnt: count,
        requester: 0x0100,
        tag: 0,
        lowaddr,
    }
}

#[test]
fn byte_enables_of_an_unaligned_read() {
    // Seven bytes from 0x3: byte 3 of the first doubleword, all of the
    // second, bytes 0 and 1 of the third.
    assert_eq!(calc_firstbe(0x3, 7), 0b1000);
    assert_eq!(calc_lastbe(0x3, 7), 0b0011);
    assert_eq!(calc_be(0x3, 7), 0x38);
    assert_eq!(calc_length(0x3, 7), 3);
}

#[test]
fn byte_enables_within_one_doubleword() {
    assert_eq!(calc_firstbe(0x0, 4), 0b1111);
    assert_eq!(calc_lastbe(0x0, 4), 0);
    assert_eq!(calc_firstbe(0x1, 2), 0b0110);
    assert_eq!(calc_lastbe(0x1, 2), 0);
    assert_eq!(calc_firstbe(0x2, 0), 0);
    assert_eq!(calc_lastbe(0x2, 0), 0);
    assert_eq!(calc_lastbe(0x0, 0), 0);
}

#[test]
fn byte_enables_of_aligned_doublewords() {
    assert_eq!(calc_firstbe(0x1000, 64), 0b1111);
    assert_eq!(calc_lastbe(0x1000, 64), 0b1111);
    assert_eq!(calc_be(0x1000, 64), 0xff);
    assert_eq!(calc_be(0x1000, 5), 0x1f);
}

#[test]
fn byte_enables_cover_the_bytes_asked_for() {
    for addr in 0u64..4 {
        for count in 0u64..4 {
            let first = calc_firstbe(addr, count);
            let last = calc_lastbe(addr, count);
            let length = calc_length(addr, count) as u64;
            for lane in 0u64..4 {
                let in_first = addr <= lane && lane < addr + count;
                assert_eq!((first >> lane) & 1 == 1, in_first);
                let in_last = length > 1 && 4 * (length - 1) + lane < addr + count;
                assert_eq!((last >> lane) & 1 == 1, in_last);
            }
            assert_eq!(first & 0xf0, 0);
            assert_eq!(last & 0xf0, 0);
        }
    }
}

#[test]
fn byte_enables_and_length_give_back_offset_and_count() {
    for addr in 0u64..8 {
        for count in 1u64..12 {
            let first = calc_firstbe(addr, count) as u32;
            let last = calc_lastbe(addr, count) as u32;
            let length = calc_length(addr, count) as u64;
            let offset = first.trailing_zeros() as u64;
            let end = if length <= 1 {
                (32 - first.leading_zeros()) as u64
            } else {
                4 * (length - 1) + (32 - last.leading_zeros()) as u64
            };
            assert_eq!(offset, addr % 4);
            assert_eq!(end - offset, count);
        }
    }
}

#[test]
fn length_is_the_number_of_doublewords_touched() {
    assert_eq!(calc_length(0, 0), 0);
    assert_eq!(calc_length(0, 1), 1);
    assert_eq!(calc_length(0, 4), 1);
    assert_eq!(calc_length(0, 5), 2);
    assert_eq!(calc_length(3, 1), 1);
    assert_eq!(calc_length(3, 2), 2);
    assert_eq!(calc_length(0x1000, 64), 16);
    assert_eq!(calc_length(0x1001, 4096 - 1), 1024);
    for addr in 0u64..16 {
        for count in 0u64..64 {
            let span = (addr + count) - (addr & !0x3);
            assert_eq!(calc_length(addr, count) as u64, (span + 3) / 4);
        }
    }
}

#[test]
fn chunk_stops_at_what_is_left_mrrs_and_the_page() {
    assert_eq!(max_chunk_len(0xFFF, 1, 512), 1);
    assert_eq!(max_chunk_len(0xFFF, 100, 512), 1);
    assert_eq!(max_chunk_len(0x0, 1024, 512), 512);
    assert_eq!(max_chunk_len(0x0, 100, 512), 100);
    assert_eq!(max_chunk_len(0xF00, 1024, 512), 0x100);
    assert_eq!(max_chunk_len(0x1000, 8192, 8192), 4096);
    assert_eq!(max_chunk_len(0x0, 0, 512), 0);
    for addr in [0u64, 1, 0xFFE, 0xFFF, 0x1000, 0x1234, 0xFFFF_FFFF_F801] {
        for remain in [1usize, 3, 256, 512, 4096, 10000] {
            for mrrs in [1usize, 128, 512, 4096] {
                let len = max_chunk_len(addr, remain, mrrs);
                assert!(len >= 1 && len <= remain && len <= mrrs);
                assert_eq!(addr / 0x1000, (addr + len as u64 - 1) / 0x1000);
            }
        }
    }
}

#[test]
fn last_completion_is_told_by_length_offset_and_count() {
    let hdr = cpl(3, 1, 1);
    assert_eq!(hdr.length(), 1);
    assert_eq!(hdr.count(), 1);
    assert!(hdr.is_last_tlp());
    assert!(!cpl(3, 2, 1).is_last_tlp());
    assert!(cpl(3, 7, 3).is_last_tlp());
    assert!(!cpl(3, 7, 2).is_last_tlp());
    assert!(!cpl(0, 512, 64).is_last_tlp());
    assert!(cpl(0, 256, 64).is_last_tlp());
    for lowaddr in 0u8..8 {
        for count in 0u16..20 {
            for length in 0u16..8 {
                let want = length == ((lowaddr as u16 & 3) + count + 3) >> 2;
                assert_eq!(cpl(lowaddr, count, length).is_last_tlp(), want);
            }
        }
    }
}

#[test]
fn completion_fields_are_masked() {
    let mut hdr = cpl(0x7b, 0, 0);
    hdr.falen = 0xFC01;
    hdr.stcnt = 0x2FFF;
    assert_eq!(hdr.length(), 1);
    assert_eq!(hdr.count(), 0xFFF);
    assert_eq!(hdr.status(), CplStatus::Unsupported);
    assert!(!hdr.is_valid_status());
    hdr.stcnt = 0x1004;
    assert_eq!(hdr.count(), 4);
    assert_eq!(hdr.status(), CplStatus::Success);
    assert!(hdr.is_valid_status());
}

#[test]
fn completion_status_values() {
    assert_eq!(CplStatus::from(0x0000), CplStatus::Success);
    assert_eq!(CplStatus::from(0x2000), CplStatus::Unsupported);
    assert_eq!(CplStatus::from(0x4000), CplStatus::ConfigurationRequestStatus);
    assert_eq!(CplStatus::from(0x8000), CplStatus::CompleterAbort);
    assert_eq!(CplStatus::from(0x6000), CplStatus::Unknown);
    assert_eq!(CplStatus::from(0x0001), CplStatus::Unknown);
    let mut hdr = cpl(0, 4, 1);
    hdr.stcnt = 0x8004;
    assert_eq!(hdr.status(), CplStatus::CompleterAbort);
    hdr.stcnt = 0xE004;
    assert_eq!(hdr.status(), CplStatus::Unknown);
}

#[test]
fn completion_kinds() {
    let mut hdr = cpl(0, 4, 1);
    assert!(hdr.is_valid_fmt_type());
    assert!(!hdr.is_completion());
    hdr.fmt_type = 0b0000_1010;
    assert!(!hdr.is_valid_fmt_type());
    assert!(hdr.is_completion());
    hdr.fmt_type = 0b0100_0000;
    assert!(!hdr.is_valid_fmt_type());
    assert!(!hdr.is_completion());
}

#[test]
fn completion_header_on_the_wire() {
    let hdr = TlpCplHdr {
        fmt_type: 0x4a,
        tclass: 0x01,
        falen: 0x0203,
        completer: 0x0405,
        stcnt: 0x0607,
        requester: 0x0809,
        tag: 0x0a,
        lowaddr: 0x0b,
    };
    let bytes = hdr.to_bytes();
    assert_eq!(bytes, vec![0x4a, 1, 2, 3, 4, 5, 6, 7, 8, 9, 10, 11]);
    assert_eq!(TlpCplHdr::parse(&bytes, 0), Some(hdr));
    let mut framed = vec![0xee; 6];
    framed.extend_from_slice(&bytes);
    framed.push(0x55);
    assert_eq!(TlpCplHdr::parse(&framed, 6), Some(hdr));
    assert_eq!(TlpCplHdr::parse(&framed, 8), None);
    assert_eq!(TlpCplHdr::parse(&bytes[..11], 0), None);
    assert_eq!(TlpCplHdr::parse(&bytes, usize::MAX), None);
}

#[test]
fn read_request_round_trip() {
    let packet = encode_mrd(Bdf::new(1, 0, 0), 5, 0x1000, 64);
    let bytes: &[u8] = &packet;
    assert_eq!(
        bytes,
        &[0, 0, 0, 0, 0, 0, 0x00, 0x00, 0x00, 0x10, 0x01, 0x00, 0x05, 0xff, 0x00, 0x00, 0x10, 0x00]
    );
    let hdr = TlpMrHdr::parse(&bytes[6..]).unwrap();
    assert_eq!(hdr.fmt_type, 0b0000_0000);
    assert_eq!(hdr.addr, TlpAddr::Addr32(0x1000));
    assert_eq!(hdr.addr.to_64(), 0x1000);
    assert_eq!(hdr.length() as usize * 4, 64);
    assert_eq!(hdr.tag, 5);
    assert_eq!(hdr.requester, 0x0100);
    assert_eq!(hdr, TlpMrHdr::new(TlpType::Mrd, Bdf::new(1, 0, 0), 5, 0x1000, 64));
}

#[test]
fn request_header_with_a_32_bit_address() {
    let hdr = TlpMrHdr::new(TlpType::Mrd, Bdf::new(0x1a, 3, 2), 0x7f, 0x1234_5677, 7);
    assert_eq!(hdr.fmt_type, 0b0000_0000);
    assert_eq!(hdr.tclass, 0);
    assert_eq!(hdr.falen, 3);
    assert_eq!(hdr.requester, 0x1a1a);
    assert_eq!(hdr.dw, 0x38);
    assert_eq!(hdr.addr, TlpAddr::Addr32(0x1234_5674));
    assert_eq!(
        hdr.to_bytes(),
        vec![0x00, 0x00, 0x00, 0x03, 0x1a, 0x1a, 0x7f, 0x38, 0x12, 0x34, 0x56, 0x74]
    );
    let top = TlpMrHdr::new(TlpType::Mwr, Bdf::new(0, 0, 0), 0, 0xFFFF_FFFF, 1);
    assert_eq!(top.fmt_type, 0b0100_0000);
    assert_eq!(top.addr, TlpAddr::Addr32(0xFFFF_FFFC));
    assert_eq!(top.dw, 0x08);
}

#[test]
fn request_header_with_a_64_bit_address() {
    let hdr = TlpMrHdr::new(TlpType::Mrd, Bdf::new(1, 0, 0), 9, 0x1_0000_0002, 8);
    assert_eq!(hdr.fmt_type, 0b0010_0000);
    assert_eq!(hdr.falen, 3);
    assert_eq!(hdr.dw, 0x3c);
    assert_eq!(hdr.addr, TlpAddr::Addr64(0x1_0000_0000));
    let bytes = hdr.to_bytes();
    assert_eq!(
        bytes,
        vec![0x20, 0x00, 0x00, 0x03, 0x01, 0x00, 0x09, 0x3c, 0, 0, 0, 1, 0, 0, 0, 0]
    );
    assert_eq!(TlpMrHdr::parse(&bytes), Some(hdr));
    assert_eq!(TlpMrHdr::parse(&bytes[..15]), None);
    assert_eq!(TlpMrHdr::parse(&bytes[..11]), None);
    let wr = TlpMrHdr::new(TlpType::Mwr, Bdf::new(1, 0, 0), 9, 0xFEDC_BA98_7654_3210, 4);
    assert_eq!(wr.fmt_type, 0b0110_0000);
    assert_eq!(
        wr.to_bytes(),
        vec![0x60, 0, 0, 1, 1, 0, 9, 0x0f, 0xFE, 0xDC, 0xBA, 0x98, 0x76, 0x54, 0x32, 0x10]
    );
}

#[test]
fn write_request_carries_its_data() {
    let data = [0xde, 0xad, 0xbe, 0xef, 1, 2, 3, 4];
    let packet = encode_mwr(Bdf::new(2, 1, 0), 3, 0x2000, 8, &data);
    let bytes: &[u8] = &packet;
    assert_eq!(
        bytes,
        &[
            0, 0, 0, 0, 0, 0, 0x40, 0x00, 0x00, 0x02, 0x02, 0x08, 0x03, 0xff, 0x00, 0x00, 0x20,
            0x00, 0xde, 0xad, 0xbe, 0xef, 1, 2, 3, 4
        ]
    );
}

#[test]
fn transport_header_is_six_zero_bytes() {
    let hdr = NetTlpHdr::new();
    assert_eq!(hdr.seq, 0);
    assert_eq!(hdr.timestamp, 0);
    assert_eq!(hdr.to_bytes(), vec![0u8; 6]);
    let hdr = NetTlpHdr { seq: 0x0102, timestamp: 0x03040506 };
    assert_eq!(hdr.to_bytes(), vec![1, 2, 3, 4, 5, 6]);
}

#[test]
fn requester_id_packs_bus_device_function() {
    assert_eq!(Bdf::new(0xff, 0x05, 0x1).to_u16(), 0xff29);
    assert_eq!(Bdf::new(1, 0, 0).to_u16(), 0x0100);
    assert_eq!(Bdf::new(0, 31, 7).to_u16(), 0x00ff);
    assert_eq!(Bdf::new(0xff, 0x05, 0x1), Bdf { bus: 0xff, device: 0x05, func: 0x1 });
}

#[test]
fn port_of_a_session() {
    assert_eq!(DmaDirection::DmaIssuedByLibTLP.port(0), 0x3000);
    assert_eq!(DmaDirection::DmaIssuedByLibTLP.port(5), 0x3005);
    assert_eq!(DmaDirection::DmaIssuedByLibTLP.port(0xff), 0x30ff);
    assert_eq!(DmaDirection::DmaIssuedByAdapter.port(0), 0x4000);
    assert_eq!(DmaDirection::DmaIssuedByAdapter.port(0x35), 0x4005);
    assert_eq!(DmaDirection::DmaIssuedByAdapter.port(0xff), 0x400f);
}

#[test]
fn address_widths() {
    assert_eq!(0x1234_5677u32.to_64(), 0x1234_5677u64);
    assert_eq!(0x1_0000_0003u64.to_64(), 0x1_0000_0003u64);
    assert_eq!(0x1234_5677u32.align_dw(), 0x1234_5674u32);
    assert_eq!(0x1_0000_0003u64.align_dw(), 0x1_0000_0000u64);
    assert_eq!(8u64.align_dw(), 8);
    assert_eq!(7u32.max_value(), 0xFFFF_FFFFu64);
    assert_eq!(7u64.max_value(), u64::MAX);
}

#[test]
fn big_endian_numbers() {
    let mut out = Vec::new();
    put_be16(&mut out, 0x0102);
    put_be32(&mut out, 0x03040506);
    put_be64(&mut out, 0x0708090a0b0c0d0e);
    assert_eq!(out, vec![1, 2, 3, 4, 5, 6, 7, 8, 9, 10, 11, 12, 13, 14]);
    assert_eq!(get_be16(&out, 0), 0x0102);
    assert_eq!(get_be32(&out, 2), 0x03040506);
    assert_eq!(get_be64(&out, 6), 0x0708090a0b0c0d0e);
    assert_eq!(get_be16(&out, 12), 0x0d0e);
}
