use radiotap::field::ampdu_status;
use radiotap::field::channel;
use radiotap::field::mcs;
use radiotap::field::vht;
use radiotap::field::xchannel;
use radiotap::field::{
    AmpduStatus, Antenna, AntennaNoise, AntennaNoiseDb, AntennaSignal, AntennaSignalDb, Channel,
    Fec, Fhss, Flags, GuardInterval, LockQuality, Mcs, Rate, RxFlags, Timestamp, Tsft,
    TxAttenuation, TxAttenuationDb, TxFlags, TxPower, Vht, XChannel,
};

fn unhex(s: &str) -> Vec<u8> {
    hex::decode(s).unwrap()
}

fn mcs_mbps(mcs: &Mcs) -> f32 {
    mcs.to_kbps().unwrap().unwrap() as f32 / 1000.0
}

#[test]
fn ampdu_status_basic() {
    let ampdu_status = AmpduStatus::from_bytes(&unhex("631d030004000000"));
    assert_eq!(
        ampdu_status,
        AmpduStatus {
            reference: 204131,
            flags: ampdu_status::Flags::from_bits_truncate(ampdu_status::Flags::LAST_KNOWN),
            delim_crc: 0,
        }
    );
    assert_eq!(ampdu_status.is_zero_len(), None);
    assert_eq!(ampdu_status.is_last(), Some(false));
    assert_eq!(ampdu_status.delim_crc(), None);
    assert_eq!(ampdu_status.has_eof(), None);
}

#[test]
fn channel_basic() {
    assert_eq!(
        Channel::from_bytes(&unhex("9e098004")),
        Channel {
            freq: 2462,
            flags: channel::Flags::from_bits_truncate(
                channel::Flags::GHZ2 | channel::Flags::DYNAMIC
            ),
        }
    );
}

#[test]
fn mcs_basic() {
    let mcs = Mcs::from_bytes(&unhex("1f0407"));
    assert_eq!(
        mcs,
        Mcs {
            known: mcs::Known::from_bits_truncate(
                mcs::Known::BW
                    | mcs::Known::INDEX
                    | mcs::Known::GI
                    | mcs::Known::FMT
                    | mcs::Known::FEC
            ),
            flags: mcs::Flags::from_bits_truncate(mcs::Flags::GI),
            index: 7
        }
    );
    assert_eq!(mcs.bandwidth(), Some(mcs::Bandwidth::BW20));
    assert_eq!(mcs.index(), Some(7));
    assert_eq!(mcs.guard_interval(), Some(GuardInterval::Short));
    assert_eq!(mcs.format(), Some(mcs::Format::Mixed));
    assert_eq!(mcs.fec(), Some(Fec::Bcc));
    assert_eq!(mcs.stbc(), None);
    assert_eq!(mcs.ness(), None);
    assert_eq!(mcs_mbps(&mcs), 72.2);
}

#[test]
fn mcs_datarate() {
    let mcs = Mcs::from_bytes(&unhex("1f140f"));
    assert_eq!(mcs_mbps(&mcs), 144.4);
}

#[test]
fn vht_basic() {
    let vht = Vht::from_bytes(&unhex("440004041200000000000000"));
    assert_eq!(
        vht,
        Vht {
            known: vht::Known::from_bits_truncate(vht::Known::BW | vht::Known::GI),
            flags: vht::Flags::from_bits_truncate(vht::Flags::GI),
            bandwidth: 4,
            mcs_nss: (18, 0, 0, 0),
            coding: 0,
            group_id: 0,
            partial_aid: 0,
        }
    );

    assert_eq!(vht.has_stbc(), None);
    assert_eq!(vht.guard_interval(), Some(GuardInterval::Short));
    assert_eq!(vht.is_beamformed(), None);
    assert_eq!(vht.bandwidth().unwrap().unwrap(), vht::Bandwidth::BW80);
    assert_eq!(vht.group_id(), None);
    assert_eq!(vht.partial_aid(), None);
    assert_eq!(
        vht.users(),
        [
            Some(vht::User {
                vht: &vht,
                index: 1,
                nss: 2,
                nsts: 2,
                fec: Fec::Bcc
            }),
            None,
            None,
            None,
        ]
    );
}

fn check_datarate(hex: &str, datarate: f32) {
    let vht = Vht::from_bytes(&unhex(hex));
    let users: Vec<_> = vht.users().into();
    let datarates: Vec<_> = users
        .into_iter()
        .map(|o| {
            o.and_then(|u| u.to_kbps())
                .map(|r| r.unwrap() as f32 / 1000.0)
        })
        .collect();
    assert_eq!(datarates, vec![Some(datarate), None, None, None]);
}

#[test]
fn vht_datarate() {
    check_datarate("440004040200000000000000", 65.0);
    check_datarate("440004041200000000000000", 130.0);
    check_datarate("440004049200000000000000", 866.7);
}

#[test]
fn every() {
    let _ = Tsft::from_bytes(&[0; 8]);
    let _ = Flags::from_bytes(&[0; 1]);
    let _ = Rate::from_bytes(&[0; 1]);
    let _ = Channel::from_bytes(&[0; 4]);
    let _ = Fhss::from_bytes(&[0; 2]);
    let _ = AntennaSignal::from_bytes(&[0; 1]);
    let _ = AntennaNoise::from_bytes(&[0; 1]);
    let _ = LockQuality::from_bytes(&[0; 2]);
    let _ = TxAttenuation::from_bytes(&[0; 2]);
    let _ = TxAttenuationDb::from_bytes(&[0; 2]);
    let _ = TxPower::from_bytes(&[0; 1]);
    let _ = Antenna::from_bytes(&[0; 1]);
    let _ = AntennaSignalDb::from_bytes(&[0; 1]);
    let _ = AntennaNoiseDb::from_bytes(&[0; 1]);
    let _ = RxFlags::from_bytes(&[0; 2]);
    let _ = TxFlags::from_bytes(&[0; 2]);
    let _ = XChannel::from_bytes(&[0; 8]);
    let _ = Mcs::from_bytes(&[0; 3]);
    let _ = AmpduStatus::from_bytes(&[0; 8]);
    let _ = Vht::from_bytes(&[0; 12]);
    let _ = Timestamp::from_bytes(&[0; 12]);
}

#[test]
fn scalars_are_little_endian() {
    assert_eq!(
        Tsft::from_bytes(&unhex("1122334455667788")).into_inner(),
        0x8877665544332211
    );
    assert_eq!(LockQuality::from_bytes(&[0x34, 0x12]).into_inner(), 0x1234);
    assert_eq!(TxAttenuation::from_bytes(&[0xff, 0x00]).0, 255);
    assert_eq!(TxAttenuationDb::from_bytes(&[0x00, 0x01]).0, 256);
    assert_eq!(Antenna::from_bytes(&[7]).0, 7);
    assert_eq!(AntennaSignalDb::from_bytes(&[200]).0, 200);
    assert_eq!(AntennaNoiseDb::from_bytes(&[3]).0, 3);
}

#[test]
fn signed_scalars_are_twos_complement() {
    assert_eq!(AntennaSignal::from_bytes(&[0xb4]).into_inner(), -76);
    assert_eq!(AntennaNoise::from_bytes(&[0xa7]).into_inner(), -89);
    assert_eq!(TxPower::from_bytes(&[0x7f]).into_inner(), 127);
    assert_eq!(TxPower::from_bytes(&[0x80]).into_inner(), -128);
    assert_eq!(TxPower::from_bytes(&[0xff]).into_inner(), -1);
    assert_eq!(TxPower::from_bytes(&[0]).into_inner(), 0);
}

#[test]
fn rate_is_in_half_megabits() {
    let rate = Rate::from_bytes(&[0x30]);
    assert_eq!(rate.into_inner(), 48);
    assert_eq!(rate.to_kbps(), 24_000);
    assert_eq!(Rate(255).to_kbps(), 127_500);
    assert_eq!(Rate(1).to_kbps(), 500);
}

#[test]
fn flags_drop_unknown_bits() {
    assert_eq!(RxFlags::from_bytes(&[0xff, 0xff]).bits(), RxFlags::BAD_PLCP);
    assert_eq!(TxFlags::from_bytes(&[0xff, 0xff]).bits(), 0x001f);
    assert_eq!(Flags::from_bytes(&[0x12]).bits(), Flags::PREAMBLE | Flags::FCS);
    assert_eq!(channel::Flags::from_bits_truncate(0xffff).bits(), 0xfff0);
    assert_eq!(
        xchannel::Flags::from_bits_truncate(0xffff_ffff).bits(),
        0x0007_fff0
    );
    assert_eq!(vht::Known::from_bits_truncate(0xffff).bits(), 0x01ff);
    assert_eq!(vht::Flags::from_bits_truncate(0xff).into_inner(), 0x3f);
    let flags = Flags::from_bits_truncate(Flags::PREAMBLE | Flags::FCS);
    assert!(flags.contains(Flags::PREAMBLE));
    assert!(flags.contains(Flags::PREAMBLE | Flags::FCS));
    assert!(!flags.contains(Flags::PREAMBLE | Flags::WEP));
    assert!(!flags.contains(Flags::CFP));
}

#[test]
fn fhss_fields() {
    let fhss = Fhss::from_bytes(&[3, 9]);
    assert_eq!(fhss.hop_set(), 3);
    assert_eq!(fhss.hop_pattern(), 9);
}

#[test]
fn xchannel_layout() {
    let x = XChannel::from_bytes(&unhex("4001020085090b11"));
    assert_eq!(x.flags().bits(), xchannel::Flags::HT40U | xchannel::Flags::GHZ5 | xchannel::Flags::OFDM);
    assert_eq!(x.freq(), 2437);
    assert_eq!(x.channel(), 11);
    assert_eq!(x.max_power(), 17);
}

#[test]
fn channel_accessors() {
    let channel = Channel::from_bytes(&unhex("85098004"));
    assert_eq!(channel.freq(), 2437);
    assert_eq!(
        channel.flags().bits(),
        channel::Flags::GHZ2 | channel::Flags::DYNAMIC
    );
}

#[test]
fn ampdu_zero_is_not_absent() {
    // delimiter CRC of zero, known
    let a = AmpduStatus::from_bytes(&unhex("0100000020000000"));
    assert_eq!(a.delim_crc(), Some(0));
    assert_eq!(a.reference(), 1);
    assert_eq!(a.flags().bits(), ampdu_status::Flags::DELIM_CRC_KNOWN);
    // a CRC that is there but not known
    let b = AmpduStatus::from_bytes(&unhex("0100000000005a00"));
    assert_eq!(b.delim_crc(), None);
    // every known bit with every value bit
    let c = AmpduStatus::from_bytes(&unhex("00000000ef00a500"));
    assert_eq!(c.is_zero_len(), Some(true));
    assert_eq!(c.is_last(), Some(true));
    assert_eq!(c.delim_crc(), Some(0xa5));
    assert_eq!(c.has_eof(), Some(true));
    // known bits alone
    let d = AmpduStatus::from_bytes(&unhex("00000000a5000000"));
    assert_eq!(d.is_zero_len(), Some(false));
    assert_eq!(d.is_last(), Some(false));
    assert_eq!(d.has_eof(), Some(false));
}

#[test]
fn mcs_known_bit_gating() {
    let mcs = Mcs::from_bytes(&[mcs::Known::GI, 0xff, 0x07]);
    assert_eq!(mcs.bandwidth(), None);
    assert_eq!(mcs.index(), None);
    assert_eq!(mcs.format(), None);
    assert_eq!(mcs.fec(), None);
    assert_eq!(mcs.stbc(), None);
    assert_eq!(mcs.ness(), None);
    assert_eq!(mcs.nss(), None);
    assert_eq!(mcs.to_kbps(), None);
    assert_eq!(mcs.guard_interval(), Some(GuardInterval::Short));
    assert_eq!(mcs.known().bits(), mcs::Known::GI);
    assert_eq!(mcs.flags().bits(), 0xff);
    let long = Mcs::from_bytes(&[mcs::Known::GI, 0x00, 0x07]);
    assert_eq!(long.guard_interval(), Some(GuardInterval::Long));
}

#[test]
fn mcs_subfields() {
    let mcs = Mcs::from_bytes(&[0xff, 0xff, 31]);
    assert_eq!(mcs.bandwidth(), Some(mcs::Bandwidth::BW20U));
    assert_eq!(mcs.format(), Some(mcs::Format::Greenfield));
    assert_eq!(mcs.fec(), Some(Fec::Ldpc));
    assert_eq!(mcs.stbc(), Some(3));
    assert_eq!(mcs.ness(), Some(3));
    assert_eq!(mcs.nss(), Some(4));
    let mcs = Mcs::from_bytes(&[0x7f, 0x21, 8]);
    assert_eq!(mcs.bandwidth(), Some(mcs::Bandwidth::BW40));
    assert_eq!(mcs.stbc(), Some(1));
    assert_eq!(mcs.ness(), Some(0));
    assert_eq!(mcs.nss(), Some(2));
    let mcs = Mcs::from_bytes(&[0xc0, 0x00, 0]);
    assert_eq!(mcs.ness(), Some(2));
    let mcs = Mcs::from_bytes(&[0x40, 0x80, 0]);
    assert_eq!(mcs.ness(), Some(1));
    assert_eq!(mcs::Bandwidth::BW20.to_mhz(), 20);
    assert_eq!(mcs::Bandwidth::BW40.to_mhz(), 40);
    assert_eq!(mcs::Bandwidth::BW20L.to_mhz(), 40);
    assert_eq!(mcs::Bandwidth::BW20U.to_mhz(), 40);
    assert_eq!(mcs::Format::from(true), mcs::Format::Greenfield);
    assert_eq!(mcs::Format::from(false), mcs::Format::Mixed);
}

#[test]
fn mcs_datarate_table_boundary() {
    // index 31, 40 MHz, short guard interval: the last cell of the table
    let mcs = Mcs::from_bytes(&[0x07, 0x05, 31]);
    assert_eq!(mcs.to_kbps(), Some(Ok(600_000)));
    assert_eq!(mcs_mbps(&mcs), 600.0);
    // index 7, 40 MHz, short guard interval
    let mcs = Mcs::from_bytes(&[0x07, 0x05, 7]);
    assert_eq!(mcs_mbps(&mcs), 150.0);
    // index 0, 20 MHz, long guard interval: the first cell
    let mcs = Mcs::from_bytes(&[0x07, 0x00, 0]);
    assert_eq!(mcs.to_kbps(), Some(Ok(6_500)));
    // one past the table
    let mcs = Mcs::from_bytes(&[0x07, 0x05, 32]);
    assert_eq!(mcs.to_kbps(), Some(Err(mcs::InvalidDatarate(32))));
    // an index past the table is an error even where nothing else is known
    let mcs = Mcs::from_bytes(&[0x02, 0x00, 255]);
    assert_eq!(mcs.to_kbps(), Some(Err(mcs::InvalidDatarate(255))));
    // bandwidth or guard interval unknown
    assert_eq!(Mcs::from_bytes(&[0x03, 0x00, 1]).to_kbps(), None);
    assert_eq!(Mcs::from_bytes(&[0x06, 0x00, 1]).to_kbps(), None);
}

#[test]
fn vht_users_and_gating() {
    // STBC known and set, users 0 and 2 in use, coding bit of user 2 set
    let vht = Vht::from_bytes(&unhex("ff0101009300510004153412"));
    assert_eq!(vht.has_stbc(), Some(true));
    assert_eq!(vht.is_beamformed(), Some(false));
    assert_eq!(vht.guard_interval(), Some(GuardInterval::Long));
    assert_eq!(vht.bandwidth(), Some(Ok(vht::Bandwidth::BW20)));
    assert_eq!(vht.group_id(), Some(0x15));
    assert_eq!(vht.partial_aid(), Some(0x1234));
    assert_eq!(vht.known().bits(), 0x01ff);
    assert_eq!(vht.flags().bits(), 0x01);
    let users = vht.users();
    let u0 = users[0].unwrap();
    assert_eq!((u0.index(), u0.nss(), u0.nsts(), u0.fec()), (9, 3, 6, Fec::Bcc));
    assert!(users[1].is_none());
    let u2 = users[2].unwrap();
    assert_eq!((u2.index(), u2.nss(), u2.nsts(), u2.fec()), (5, 1, 2, Fec::Ldpc));
    assert!(users[3].is_none());
    assert_eq!(vht.user(2), users[2]);
}

fn user(vht: &Vht, index: u8, nss: u8) -> vht::User<'_> {
    vht::User {
        vht,
        index,
        nss,
        nsts: nss,
        fec: Fec::Bcc,
    }
}

fn datarate_error(user: vht::User) -> vht::InvalidDatarateKind {
    user.to_kbps().unwrap().unwrap_err().kind
}

#[test]
fn vht_datarate_errors() {
    // 80 MHz, short guard interval
    let vht = Vht::from_bytes(&unhex("440004040200000000000000"));
    assert_eq!(
        datarate_error(user(&vht, 10, 1)),
        vht::InvalidDatarateKind::Index(10)
    );
    assert_eq!(
        datarate_error(user(&vht, 0, 9)),
        vht::InvalidDatarateKind::Nss(9)
    );
    assert_eq!(
        datarate_error(user(&vht, 0, 0)),
        vht::InvalidDatarateKind::Nss(0)
    );
    // with three streams, index 6 does not exist at 80 MHz
    assert_eq!(
        datarate_error(user(&vht, 6, 3)),
        vht::InvalidDatarateKind::Mismatch
    );
    assert_eq!(user(&vht, 9, 8).to_kbps(), Some(Ok(3_466_700)));
    assert_eq!(user(&vht, 0, 1).to_kbps(), Some(Ok(32_500)));
    // bandwidth 26 is not defined
    let bad = Vht::from_bytes(&unhex("4400041a0200000000000000"));
    assert_eq!(bad.bandwidth(), Some(Err(vht::InvalidBandwidth(26))));
    assert_eq!(
        datarate_error(user(&bad, 0, 1)),
        vht::InvalidDatarateKind::Bandwidth(vht::InvalidBandwidth(26))
    );
    // only the low five bits of the bandwidth byte count
    let high = Vht::from_bytes(&unhex("440004e40200000000000000"));
    assert_eq!(high.bandwidth(), Some(Ok(vht::Bandwidth::BW80)));
    // bandwidth or guard interval unknown
    let no_bw = Vht::from_bytes(&unhex("040004040200000000000000"));
    assert_eq!(no_bw.bandwidth(), None);
    assert_eq!(user(&no_bw, 0, 1).to_kbps(), None);
    let no_gi = Vht::from_bytes(&unhex("400004040200000000000000"));
    assert_eq!(no_gi.guard_interval(), None);
    assert_eq!(user(&no_gi, 0, 1).to_kbps(), None);
}

#[test]
fn vht_bandwidth_from_mcs_bandwidth() {
    assert_eq!(vht::Bandwidth::from(mcs::Bandwidth::BW20), vht::Bandwidth::BW20);
    assert_eq!(vht::Bandwidth::from(mcs::Bandwidth::BW40), vht::Bandwidth::BW40);
    assert_eq!(vht::Bandwidth::from(mcs::Bandwidth::BW20L), vht::Bandwidth::BW40L);
    assert_eq!(vht::Bandwidth::from(mcs::Bandwidth::BW20U), vht::Bandwidth::BW20U);
}

#[test]
fn vht_bandwidth_to_mhz() {
    assert_eq!(vht::Bandwidth::BW20.to_mhz(), 20);
    assert_eq!(vht::Bandwidth::BW20U.to_mhz(), 40);
    assert_eq!(vht::Bandwidth::BW80.to_mhz(), 80);
    assert_eq!(vht::Bandwidth::BW20UU.to_mhz(), 80);
    assert_eq!(vht::Bandwidth::BW160.to_mhz(), 160);
    assert_eq!(vht::Bandwidth::BW20UUU.to_mhz(), 160);
}
