use radiotap::bytes::IncompleteData;
use radiotap::field::{Flags, Kind, Type, Value, VendorNamespace};
use radiotap::{parse, ErrorKind, Header, Iter, Namespace};

fn capture(words: &[u32], body: &[u8]) -> Vec<u8> {
    let length = 4 + 4 * words.len() + body.len();
    let mut bytes = vec![0, 0];
    bytes.extend_from_slice(&(length as u16).to_le_bytes());
    for word in words {
        bytes.extend_from_slice(&word.to_le_bytes());
    }
    bytes.extend_from_slice(body);
    bytes
}

fn error_kind(bytes: &[u8]) -> ErrorKind {
    parse(bytes).unwrap_err().kind()
}

#[test]
fn lib_basic() {
    // Radiotap Header v0, Length 56
    //     Header version: 0
    //     Header pad: 0
    //     Header length: 56
    //     Present flags
    //         Present flags word: 0xc000086f
    //         Present flags word: 0x40000001
    //     MAC timestamp: 77325725
    //     Flags: 0x12
    //     Data Rate: 24.0 Mb/s
    //     Channel frequency: 2437 [BG 6]
    //     Channel flags: 0x0480, 2 GHz spectrum, Dynamic CCK-OFDM
    //     Antenna signal: -76dBm
    //     Antenna noise: -89dBm
    //     Antenna: 0
    //     Vendor namespace: Broadcom-0
    //         Vendor OUI: 00:10:18 (Broadcom)
    //         Vendor sub namespace: 0
    //         Vendor data length: 3
    //         Vendor data
    //     Vendor namespace: Broadcom-3
    //         Vendor OUI: 00:10:18 (Broadcom)
    //         Vendor sub namespace: 3
    //         Vendor data length: 6
    //         Vendor data
    let capture = hex::decode(
        "000038006f0800c001000040040030309de59b040000000012308509\
         8004b4a7008700101800030002000000001018030600400002000000",
    )
    .unwrap();

    let radiotap = parse(&capture).unwrap();
    assert_eq!(radiotap.length(), 56);
    assert_eq!(radiotap.tsft.unwrap().into_inner(), 77325725);
    assert_eq!(
        radiotap.flags.unwrap(),
        Flags::from_bits_truncate(Flags::PREAMBLE | Flags::FCS)
    );
    assert_eq!(radiotap.rate.unwrap().to_kbps() as f32 / 1000.0, 24.0);

    assert_eq!(radiotap.version(), 0);
    assert_eq!(radiotap.channel.unwrap().freq(), 2437);
    assert_eq!(radiotap.antenna_signal.unwrap().into_inner(), -76);
    assert_eq!(radiotap.antenna_noise.unwrap().into_inner(), -89);
    assert_eq!(radiotap.antenna.unwrap().into_inner(), 0);
    assert_eq!(radiotap.fhss, None);
    assert_eq!(radiotap.mcs, None);
    assert_eq!(radiotap.vht, None);
    assert_eq!(radiotap.timestamp, None);
}

#[test]
fn fixture_0() {
    let bytes = capture(&[0x0000_0001], &[0x11, 0x22, 0x33, 0x44, 0x55, 0x66, 0x77, 0x88]);
    let Header { tsft, .. } = parse(&bytes[..]).unwrap();
    assert_eq!(tsft.unwrap().into_inner(), 0x8877665544332211);
}

#[test]
fn fixture_00() {
    let bytes = capture(
        &[0x8000_0001, 0x0000_0001],
        &[
            0, 0, 0, 0, 0x11, 0x22, 0x33, 0x44, 0x55, 0x66, 0x77, 0x88, 0xaa, 0xbb, 0xcc, 0xdd,
            0xee, 0xff, 0x00, 0x11,
        ],
    );
    let mut tsfts: Vec<u64> = Vec::new();
    let mut iter = Iter::new(&bytes[..]).unwrap().into_default();
    while let Some(kind) = iter.next().unwrap() {
        match kind {
            Type::Tsft => match iter.read(kind).unwrap() {
                Value::Tsft(tsft) => tsfts.push(tsft.into_inner()),
                other => panic!("read {:?} as a TSFT", other),
            },
            kind => iter.skip(kind).unwrap(),
        }
    }
    assert_eq!(tsfts, vec![0x8877665544332211, 0x1100ffeeddccbbaa])
}

#[test]
fn version_gate() {
    assert_eq!(error_kind(&[1]), ErrorKind::UnsupportedVersion(1));
    assert_eq!(
        error_kind(&[3, 0, 0xff, 0xff]),
        ErrorKind::UnsupportedVersion(3)
    );
    let mut bytes = capture(&[0x0000_0001], &[0; 8]);
    bytes[0] = 255;
    assert_eq!(error_kind(&bytes), ErrorKind::UnsupportedVersion(255));
    assert_eq!(
        Iter::new(&bytes).unwrap_err().kind(),
        ErrorKind::UnsupportedVersion(255)
    );
}

#[test]
fn length_gate() {
    assert_eq!(
        error_kind(&[0, 0, 0x10, 0, 1, 0, 0, 0]),
        ErrorKind::InvalidLength(16, 8)
    );
    assert_eq!(
        error_kind(&[0, 0, 0x05, 0x01]),
        ErrorKind::InvalidLength(261, 4)
    );
    // a capture may be longer than its header
    let mut bytes = capture(&[0x0000_0004], &[0x30]);
    bytes.extend_from_slice(&[1, 2, 3, 4]);
    let header = parse(&bytes).unwrap();
    assert_eq!(header.length(), 9);
    assert_eq!(header.rate.unwrap().into_inner(), 0x30);
}

#[test]
fn errors_name_their_cause() {
    let unsupported = parse(&[1]).unwrap_err();
    assert_eq!(unsupported.source(), None);
    let short = parse(&[0, 0, 0x10, 0, 1, 0, 0, 0]).unwrap_err();
    assert_eq!(short.source(), None);
    let header = parse(&[0, 0]).unwrap_err();
    assert_eq!(header.source(), Some(IncompleteData));
    let read = parse(&capture(&[0x0000_0001], &[])).unwrap_err();
    assert_eq!(read.source(), Some(IncompleteData));
    let skip = parse(&capture(&[0x0001_0000], &[])).unwrap_err();
    assert_eq!(skip.source(), Some(IncompleteData));
    let vendor = parse(&capture(&[0x4000_0000], &[0; 5])).unwrap_err();
    assert_eq!(vendor.source(), Some(IncompleteData));
}

#[test]
fn errors_of_incomplete_data() {
    assert!(!ErrorKind::UnsupportedVersion(1).is_incomplete_data());
    assert!(!ErrorKind::InvalidLength(16, 8).is_incomplete_data());
    assert!(ErrorKind::Header.is_incomplete_data());
    assert!(ErrorKind::Skip.is_incomplete_data());
    assert!(ErrorKind::Read("Tsft").is_incomplete_data());
}

#[test]
fn truncated_preamble() {
    assert_eq!(error_kind(&[]), ErrorKind::Header);
    assert_eq!(error_kind(&[0]), ErrorKind::Header);
    assert_eq!(error_kind(&[0, 0, 0]), ErrorKind::Header);
    assert_eq!(error_kind(&[0, 0, 4, 0]), ErrorKind::Header);
    assert_eq!(error_kind(&[0, 0, 4, 0, 0, 0, 0]), ErrorKind::Header);
    // the presence word asks for another one
    assert_eq!(error_kind(&[0, 0, 8, 0, 0, 0, 0, 0x80]), ErrorKind::Header);
}

#[test]
fn no_fields() {
    let header = parse(&[0, 0, 8, 0, 0, 0, 0, 0]).unwrap();
    assert_eq!(header, parse(&capture(&[0], &[])).unwrap());
    assert_eq!(header.length(), 8);
    assert_eq!(header.tsft, None);
    assert_eq!(header.rate, None);
}

#[test]
fn fields_that_run_past_the_end() {
    assert_eq!(error_kind(&capture(&[0x0000_0001], &[])), ErrorKind::Read("Tsft"));
    assert_eq!(
        error_kind(&capture(&[0x0000_0001], &[0; 7])),
        ErrorKind::Read("Tsft")
    );
    assert_eq!(
        error_kind(&capture(&[0x0000_0008], &[0; 3])),
        ErrorKind::Read("Channel")
    );
    assert_eq!(error_kind(&capture(&[0x0001_0000], &[])), ErrorKind::Skip);
    assert_eq!(
        error_kind(&capture(&[0x4000_0000], &[0; 5])),
        ErrorKind::Read("VendorNamespace")
    );
    // a vendor namespace that claims more bytes than there are
    assert_eq!(
        error_kind(&capture(
            &[0xc000_0000, 0x0000_0001],
            &[0, 0x10, 0x18, 0, 4, 0, 1, 2, 3]
        )),
        ErrorKind::Skip
    );
}

#[test]
fn fields_are_aligned() {
    // Flags at 8, Channel at 10, XChannel at 16, Timestamp at 24
    let mut body = vec![0x10, 0xee];
    body.extend_from_slice(&[0x85, 0x09, 0x80, 0x04]);
    body.extend_from_slice(&[0xee, 0xee]);
    body.extend_from_slice(&[0x40, 0x01, 0x02, 0x00, 0x85, 0x09, 0x0b, 0x11]);
    body.extend_from_slice(&[1, 0, 0, 0, 0, 0, 0, 0, 2, 0, 0x12, 0x02]);
    let bytes = capture(&[(1 << 1) | (1 << 3) | (1 << 18) | (1 << 22)], &body);

    let mut iter = Iter::new(&bytes).unwrap().into_default();
    assert_eq!(iter.version(), 0);
    assert_eq!(iter.length(), bytes.len());
    assert_eq!(iter.offset(), 8);
    let mut starts = Vec::new();
    while let Some(kind) = iter.next().unwrap() {
        let value = iter.read(kind).unwrap();
        assert_eq!(value.kind(), kind);
        let start = iter.offset() - kind.size();
        assert_eq!(start % kind.align(), 0);
        starts.push((kind, start));
    }
    assert_eq!(
        starts,
        vec![
            (Type::Flags, 8),
            (Type::Channel, 10),
            (Type::XChannel, 16),
            (Type::Timestamp, 24)
        ]
    );

    let header = parse(&bytes).unwrap();
    assert_eq!(header.flags.unwrap().bits(), Flags::FCS);
    assert_eq!(header.channel.unwrap().freq(), 2437);
    assert_eq!(header.xchannel.unwrap().channel(), 11);
    assert_eq!(header.timestamp.unwrap().ts, 1);
    assert_eq!(header.timestamp.unwrap().accuracy, 2);
}

#[test]
fn unparsed_fields_are_stepped_over() {
    // RtsRetries, DataRetries, then Mcs; He (aligned to 2, 12 bytes), then LSig
    let mut body = vec![7, 8, 0x02, 0x00, 0x05];
    body.push(0xee);
    body.extend_from_slice(&[0xaa; 12]);
    body.extend_from_slice(&[1, 2, 3, 4]);
    let bytes = capture(
        &[(1 << 16) | (1 << 17) | (1 << 19) | (1 << 23) | (1 << 27)],
        &body,
    );
    let header = parse(&bytes).unwrap();
    assert_eq!(header.mcs.unwrap().index(), Some(5));

    let mut iter = Iter::new(&bytes).unwrap().into_default();
    assert_eq!(iter.next().unwrap(), Some(Type::RtsRetries));
    assert_eq!(
        iter.read(Type::RtsRetries).unwrap(),
        Value::Unparsed(Type::RtsRetries)
    );
    assert_eq!(iter.offset(), 9);
    assert_eq!(iter.next().unwrap(), Some(Type::DataRetries));
    iter.skip(Type::DataRetries).unwrap();
    assert_eq!(iter.next().unwrap(), Some(Type::Mcs));
    iter.skip(Type::Mcs).unwrap();
    assert_eq!(iter.offset(), 13);
    assert_eq!(iter.next().unwrap(), Some(Type::He));
    iter.skip(Type::He).unwrap();
    assert_eq!(iter.offset(), 26);
    assert_eq!(iter.next().unwrap(), Some(Type::LSig));
    iter.skip(Type::LSig).unwrap();
    assert_eq!(iter.offset(), 30);
    assert_eq!(iter.next().unwrap(), None);
    assert_eq!(iter.next().unwrap(), None);
}

#[test]
fn unknown_bits_are_passed_over() {
    // bit 28 stands for no type
    let header = parse(&capture(&[(1 << 28) | (1 << 2)], &[0x30])).unwrap();
    assert_eq!(header.rate.unwrap().into_inner(), 0x30);
    // an unknown bit before a known one: the cursor does not move for it
    let bytes = capture(&[(1 << 31) | (1 << 28), 1 << 2], &[0x16]);
    let header = parse(&bytes).unwrap();
    assert_eq!(header.rate.unwrap().into_inner(), 0x16);

    let mut iter = Iter::new(&bytes).unwrap();
    let field = iter.next().unwrap().unwrap();
    assert_eq!(field.bit(), 28);
    assert_eq!(*field.namespace(), Namespace::Default);
    assert_eq!(Type::from_bit(field.bit()), None);
    assert_eq!(iter.offset(), 12);
    let field = iter.next().unwrap().unwrap();
    assert_eq!(field.bit(), 2);
    assert_eq!(Type::from_bit(field.bit()), Some(Type::Rate));
    assert_eq!(iter.offset(), 12);
    assert!(iter.next().unwrap().is_none());

    let mut iter = Iter::new(&bytes).unwrap().into_default();
    assert_eq!(iter.next().unwrap(), Some(Type::Rate));
    assert_eq!(iter.offset(), 12);
}

#[test]
fn vendor_skip() {
    for k in 0..=9u8 {
        // a vendor namespace of k bytes, then back to the default namespace
        // and a rate
        let mut body = vec![0x00, 0x10, 0x18, 0x07, k, 0];
        for i in 0..k {
            body.push(0xe0 | i);
        }
        body.push(0x30 + k);
        let bytes = capture(
            &[(1 << 30) | (1 << 31), (1 << 0) | (1 << 29) | (1 << 31), 1 << 2],
            &body,
        );

        let header = parse(&bytes).unwrap();
        assert_eq!(header.rate.unwrap().into_inner(), 0x30 + k);
        assert_eq!(header.tsft, None);

        let mut iter = Iter::new(&bytes).unwrap();
        assert_eq!(iter.length(), bytes.len());
        assert_eq!(iter.offset(), 16);
        let field = iter.next().unwrap().unwrap();
        assert_eq!(field.bit(), 0);
        let vns = match field.namespace() {
            Namespace::Vendor(vns) => *vns,
            Namespace::Default => panic!("expected a vendor namespace"),
        };
        assert_eq!(vns.oui(), [0x00, 0x10, 0x18]);
        assert_eq!(vns.sub_ns(), 7);
        assert_eq!(vns.skip_length(), k as usize);
        assert_eq!(iter.offset(), 22);
        iter.skip_vns(&vns).unwrap();
        assert_eq!(iter.offset(), 22 + k as usize);
        let field = iter.next().unwrap().unwrap();
        assert_eq!((*field.namespace(), field.bit()), (Namespace::Default, 2));
        assert_eq!(
            iter.read(Type::Rate).unwrap(),
            Value::Rate(radiotap::field::Rate(0x30 + k))
        );
        assert!(iter.next().unwrap().is_none());
    }
}

#[test]
fn vendor_descriptor_is_aligned() {
    // a rate at 8, then the descriptor at 10
    let bytes = capture(
        &[(1 << 2) | (1 << 30)],
        &[0x30, 0xee, 0xaa, 0xbb, 0xcc, 0x01, 0x02, 0x03],
    );
    let mut iter = Iter::new(&bytes).unwrap();
    let field = iter.next().unwrap().unwrap();
    assert_eq!(field.bit(), 2);
    assert_eq!(iter.read(Type::Rate).unwrap().kind(), Type::Rate);
    assert_eq!(iter.offset(), 9);
    assert!(iter.next().unwrap().is_none());
    assert_eq!(iter.offset(), 16);
    assert_eq!(
        VendorNamespace::from_bytes(&bytes[10..16]),
        VendorNamespace {
            oui: (0xaa, 0xbb, 0xcc),
            sub_ns: 1,
            skip_length: 0x0302
        }
    );
}

#[test]
fn failed_reads_leave_the_cursor() {
    // a channel at 9 is aligned to 10, where only one byte is left
    let bytes = capture(&[(1 << 2) | (1 << 3)], &[0x30, 0, 0]);
    let mut iter = Iter::new(&bytes).unwrap().into_default();
    assert_eq!(iter.next().unwrap(), Some(Type::Rate));
    iter.skip(Type::Rate).unwrap();
    assert_eq!(iter.next().unwrap(), Some(Type::Channel));
    assert_eq!(
        iter.read(Type::Channel).unwrap_err().kind(),
        ErrorKind::Read("Channel")
    );
    assert_eq!(iter.offset(), 10);
    assert_eq!(iter.skip(Type::Channel).unwrap_err().kind(), ErrorKind::Skip);
    assert_eq!(iter.offset(), 10);
    // a timestamp would be aligned past the end
    assert_eq!(
        iter.read(Type::Timestamp).unwrap_err().kind(),
        ErrorKind::Read("Timestamp")
    );
    assert_eq!(iter.offset(), 10);
    assert_eq!(iter.next().unwrap(), None);
}

#[test]
fn type_table() {
    let table: [(Type, u32, usize, usize); 28] = [
        (Type::Tsft, 0, 8, 8),
        (Type::Flags, 1, 1, 1),
        (Type::Rate, 2, 1, 1),
        (Type::Channel, 3, 2, 4),
        (Type::Fhss, 4, 2, 2),
        (Type::AntennaSignal, 5, 1, 1),
        (Type::AntennaNoise, 6, 1, 1),
        (Type::LockQuality, 7, 2, 2),
        (Type::TxAttenuation, 8, 2, 2),
        (Type::TxAttenuationDb, 9, 2, 2),
        (Type::TxPower, 10, 1, 1),
        (Type::Antenna, 11, 1, 1),
        (Type::AntennaSignalDb, 12, 1, 1),
        (Type::AntennaNoiseDb, 13, 1, 1),
        (Type::RxFlags, 14, 2, 2),
        (Type::TxFlags, 15, 2, 2),
        (Type::RtsRetries, 16, 1, 1),
        (Type::DataRetries, 17, 1, 1),
        (Type::XChannel, 18, 4, 8),
        (Type::Mcs, 19, 1, 3),
        (Type::AmpduStatus, 20, 4, 8),
        (Type::Vht, 21, 2, 12),
        (Type::Timestamp, 22, 8, 12),
        (Type::He, 23, 2, 12),
        (Type::HeMu, 24, 2, 12),
        (Type::HeMuUser, 25, 2, 6),
        (Type::ZeroLenPsdu, 26, 1, 1),
        (Type::LSig, 27, 2, 4),
    ];
    for (kind, bit, align, size) in table {
        assert_eq!(Type::from_bit(bit), Some(kind));
        assert_eq!(kind.bit(), bit);
        assert_eq!(kind.align(), align);
        assert_eq!(kind.size(), size);
    }
    for bit in 28..40 {
        assert_eq!(Type::from_bit(bit), None);
    }
    assert_eq!(Type::Tsft.name(), "Tsft");
    assert_eq!(Type::AmpduStatus.name(), "AmpduStatus");
    assert!(Type::Timestamp.is_parsed());
    assert!(!Type::RtsRetries.is_parsed());
    assert!(!Type::LSig.is_parsed());
}

#[test]
fn every_slot_is_filled() {
    let mut body = Vec::new();
    let mut put = |align: usize, bytes: &[u8], body: &mut Vec<u8>| {
        while (8 + body.len()) % align != 0 {
            body.push(0xee);
        }
        body.extend_from_slice(bytes);
    };
    put(8, &[1, 0, 0, 0, 0, 0, 0, 0], &mut body); // tsft
    put(1, &[0x10], &mut body); // flags
    put(1, &[2], &mut body); // rate
    put(2, &[0x85, 0x09, 0x80, 0x04], &mut body); // channel
    put(2, &[3, 4], &mut body); // fhss
    put(1, &[0xfb], &mut body); // antenna signal
    put(1, &[0xfa], &mut body); // antenna noise
    put(2, &[6, 0], &mut body); // lock quality
    put(2, &[7, 0], &mut body); // tx attenuation
    put(2, &[8, 0], &mut body); // tx attenuation db
    put(1, &[9], &mut body); // tx power
    put(1, &[10], &mut body); // antenna
    put(1, &[11], &mut body); // antenna signal db
    put(1, &[12], &mut body); // antenna noise db
    put(2, &[0x02, 0], &mut body); // rx flags
    put(2, &[0x01, 0], &mut body); // tx flags
    put(1, &[13], &mut body); // rts retries
    put(1, &[14], &mut body); // data retries
    put(4, &[0, 0, 1, 0, 0x85, 0x09, 6, 20], &mut body); // xchannel
    put(1, &[0x02, 0, 15], &mut body); // mcs
    put(4, &[16, 0, 0, 0, 0, 0, 0, 0], &mut body); // ampdu status
    put(2, &[0x80, 0, 0, 0, 0, 0, 0, 0, 0, 17, 0, 0], &mut body); // vht
    put(8, &[18, 0, 0, 0, 0, 0, 0, 0, 0, 0, 0, 0], &mut body); // timestamp
    let bytes = capture(&[0x007f_ffff], &body);
    let header = parse(&bytes).unwrap();
    assert_eq!(header.tsft.unwrap().into_inner(), 1);
    assert_eq!(header.flags.unwrap().bits(), 0x10);
    assert_eq!(header.rate.unwrap().into_inner(), 2);
    assert_eq!(header.channel.unwrap().freq(), 2437);
    assert_eq!(header.fhss.unwrap().hop_set(), 3);
    assert_eq!(header.fhss.unwrap().hop_pattern(), 4);
    assert_eq!(header.antenna_signal.unwrap().into_inner(), -5);
    assert_eq!(header.antenna_noise.unwrap().into_inner(), -6);
    assert_eq!(header.lock_quality.unwrap().into_inner(), 6);
    assert_eq!(header.tx_attenuation.unwrap().into_inner(), 7);
    assert_eq!(header.tx_attenuation_db.unwrap().into_inner(), 8);
    assert_eq!(header.tx_power.unwrap().into_inner(), 9);
    assert_eq!(header.antenna.unwrap().into_inner(), 10);
    assert_eq!(header.antenna_signal_db.unwrap().into_inner(), 11);
    assert_eq!(header.antenna_noise_db.unwrap().into_inner(), 12);
    assert_eq!(header.rx_flags.unwrap().bits(), 0x0002);
    assert_eq!(header.tx_flags.unwrap().bits(), 0x0001);
    assert_eq!(header.xchannel.unwrap().channel(), 6);
    assert_eq!(header.mcs.unwrap().index(), Some(15));
    assert_eq!(header.ampdu_status.unwrap().reference(), 16);
    assert_eq!(header.vht.unwrap().group_id(), Some(17));
    assert_eq!(header.timestamp.unwrap().ts, 18);
    assert_eq!(
        Header::new(7).store(Value::Tsft(radiotap::field::Tsft(5))).tsft,
        Some(radiotap::field::Tsft(5))
    );
}

#[test]
fn length_locates_the_frame() {
    let capture = &[
        0, 0, 0xd, 0x0, 0x5, 0, 0, 0, 0x78, 0x56, 0x34, 0x12, 0, 0, 0, 0, 0x30,
    ];
    let header = parse(capture).unwrap();
    let length = header.length();
    assert_eq!(length, 13);
    let Header { tsft, rate, .. } = header;
    assert_eq!(tsft.unwrap().into_inner(), 0x12345678);
    assert_eq!(rate.unwrap().to_kbps(), 24_000);
    assert_eq!(&capture[length..], &[0, 0, 0, 0x30]);

    let mut iter = Iter::new(capture).unwrap().into_default();
    assert_eq!(&capture[iter.length()..], &[0, 0, 0, 0x30]);
    let mut rates = Vec::new();
    while let Some(kind) = iter.next().unwrap() {
        match kind {
            Type::Rate => {
                if let Value::Rate(rate) = iter.read(kind).unwrap() {
                    rates.push(rate.into_inner());
                }
            }
            kind => iter.skip(kind).unwrap(),
        }
    }
    assert_eq!(rates, vec![0x30]);
}
