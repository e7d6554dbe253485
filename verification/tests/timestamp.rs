use radiotap::field::ext;
use radiotap::field::timestamp::{
    Duration, Flags, InvalidSamplingPosition, InvalidUnit, SamplingPosition, Timestamp, Unit,
};
use radiotap::field::util::{bit_is_set, bits_as_int, flag_is_set};

fn timestamp(ts: u64, accuracy: u16, unit_position: u8, flags: u8) -> Timestamp {
    let mut bytes = Vec::new();
    bytes.extend_from_slice(&ts.to_le_bytes());
    bytes.extend_from_slice(&accuracy.to_le_bytes());
    bytes.push(unit_position);
    bytes.push(flags);
    Timestamp::from_bytes(&bytes)
}

#[test]
fn timestamp_units() {
    let t = timestamp(1_234_567, 5, 0x00, Flags::ACCURACY);
    assert_eq!(t.unit(), Ok(Unit::Millis));
    assert_eq!(t.duration(), Ok(Duration { secs: 1234, nanos: 567_000_000 }));
    assert_eq!(t.accuracy(), Some(Ok(Duration { secs: 0, nanos: 5_000_000 })));
    assert_eq!(t.sampling_position(), Ok(SamplingPosition::StartMpdu));
    assert_eq!(t.flags().bits(), Flags::ACCURACY);

    let t = timestamp(1_234_567, 5, 0x11, 0);
    assert_eq!(t.unit(), Ok(Unit::Micros));
    assert_eq!(t.duration(), Ok(Duration { secs: 1, nanos: 234_567_000 }));
    assert_eq!(t.accuracy(), None);
    assert_eq!(t.sampling_position(), Ok(SamplingPosition::PlcpSigAcq));

    let t = timestamp(u64::MAX, 0, 0xf2, Flags::BIT32);
    assert_eq!(t.unit(), Ok(Unit::Nanos));
    assert_eq!(
        t.duration(),
        Ok(Duration { secs: 18_446_744_073, nanos: 709_551_615 })
    );
    assert_eq!(t.sampling_position(), Ok(SamplingPosition::Unknown));
    assert_eq!(t.duration().unwrap().as_secs(), 18_446_744_073);
    assert_eq!(t.duration().unwrap().subsec_nanos(), 709_551_615);

    let t = timestamp(u64::MAX, 0, 0x20, 0);
    assert_eq!(
        t.duration(),
        Ok(Duration { secs: 18_446_744_073_709_551, nanos: 615_000_000 })
    );
    assert_eq!(t.sampling_position(), Ok(SamplingPosition::EndPpdu));
    assert_eq!(timestamp(0, 0, 0x30, 0).sampling_position(), Ok(SamplingPosition::EndMpdu));
}

#[test]
fn timestamp_invalid_values() {
    let t = timestamp(1, 1, 0x43, Flags::ACCURACY);
    assert_eq!(t.unit(), Err(InvalidUnit(3)));
    assert_eq!(t.duration(), Err(InvalidUnit(3)));
    assert_eq!(t.accuracy(), Some(Err(InvalidUnit(3))));
    assert_eq!(t.sampling_position(), Err(InvalidSamplingPosition(4)));
    assert_eq!(timestamp(1, 1, 0xef, 0).sampling_position(), Err(InvalidSamplingPosition(14)));
    assert_eq!(timestamp(1, 1, 0xef, 0).unit(), Err(InvalidUnit(15)));
}

#[test]
fn unit_durations() {
    assert_eq!(Unit::Millis.duration(1), Duration { secs: 0, nanos: 1_000_000 });
    assert_eq!(Unit::Micros.duration(1), Duration { secs: 0, nanos: 1_000 });
    assert_eq!(Unit::Nanos.duration(1), Duration { secs: 0, nanos: 1 });
    assert_eq!(Unit::Millis.duration(999), Duration { secs: 0, nanos: 999_000_000 });
    assert_eq!(Unit::Millis.duration(1000), Duration { secs: 1, nanos: 0 });
}

#[test]
fn util_bits() {
    assert!(flag_is_set(0b1010, 0b0010));
    assert!(!flag_is_set(0b1010, 0b0101));
    assert!(flag_is_set(0b1010, 0b0110));
    assert!(bit_is_set(0b1010, 1));
    assert!(!bit_is_set(0b1010, 0));
    assert!(bit_is_set(u64::MAX, 63));
    assert_eq!(bits_as_int(0b1101_0110, 1, 3), 0b011);
    assert_eq!(bits_as_int(0xabcd, 4, 8), 0xbc);
    assert_eq!(bits_as_int(0xabcd, 0, 0), 0);
    assert_eq!(bits_as_int(u64::MAX, 1, 63), u64::MAX >> 1);
}

#[test]
fn ext_bandwidth() {
    let bw = ext::Bandwidth::new(0).unwrap();
    assert_eq!((bw.bandwidth, bw.sideband, bw.sideband_index), (20, None, None));
    let bw = ext::Bandwidth::new(3).unwrap();
    assert_eq!((bw.bandwidth, bw.sideband, bw.sideband_index), (40, Some(20), Some(1)));
    let bw = ext::Bandwidth::new(6).unwrap();
    assert_eq!((bw.bandwidth, bw.sideband, bw.sideband_index), (80, Some(40), Some(1)));
    let bw = ext::Bandwidth::new(10).unwrap();
    assert_eq!((bw.bandwidth, bw.sideband, bw.sideband_index), (80, Some(20), Some(3)));
    let bw = ext::Bandwidth::new(11).unwrap();
    assert_eq!((bw.bandwidth, bw.sideband, bw.sideband_index), (160, None, None));
    let bw = ext::Bandwidth::new(13).unwrap();
    assert_eq!((bw.bandwidth, bw.sideband, bw.sideband_index), (160, Some(80), Some(1)));
    let bw = ext::Bandwidth::new(17).unwrap();
    assert_eq!((bw.bandwidth, bw.sideband, bw.sideband_index), (160, Some(40), Some(3)));
    let bw = ext::Bandwidth::new(25).unwrap();
    assert_eq!((bw.bandwidth, bw.sideband, bw.sideband_index), (160, Some(20), Some(7)));
    assert_eq!(ext::Bandwidth::new(26), Err(ext::InvalidFormat));
    assert_eq!(ext::Bandwidth::new(255), Err(ext::InvalidFormat));
}

#[test]
fn ext_enums() {
    assert_eq!(ext::TimeUnit::new(0), Ok(ext::TimeUnit::Milliseconds));
    assert_eq!(ext::TimeUnit::new(1), Ok(ext::TimeUnit::Microseconds));
    assert_eq!(ext::TimeUnit::new(2), Ok(ext::TimeUnit::Nanoseconds));
    assert_eq!(ext::TimeUnit::new(3), Err(ext::InvalidFormat));
    assert_eq!(ext::SamplingPosition::from(0), Ok(ext::SamplingPosition::StartMPDU));
    assert_eq!(ext::SamplingPosition::from(1), Ok(ext::SamplingPosition::StartPLCP));
    assert_eq!(ext::SamplingPosition::from(2), Ok(ext::SamplingPosition::EndPPDU));
    assert_eq!(ext::SamplingPosition::from(3), Ok(ext::SamplingPosition::EndMPDU));
    assert_eq!(ext::SamplingPosition::from(15), Ok(ext::SamplingPosition::Unknown));
    assert_eq!(ext::SamplingPosition::from(4), Err(ext::InvalidFormat));
}

#[test]
fn ext_rates() {
    let bw20 = ext::Bandwidth::new(0).unwrap();
    let bw40 = ext::Bandwidth::new(1).unwrap();
    let bw80 = ext::Bandwidth::new(4).unwrap();
    let bw160 = ext::Bandwidth::new(11).unwrap();
    assert_eq!(ext::ht_rate(7, bw20, ext::GuardInterval::Short), Ok(72_200));
    assert_eq!(ext::ht_rate(15, bw20, ext::GuardInterval::Short), Ok(144_400));
    assert_eq!(ext::ht_rate(31, bw40, ext::GuardInterval::Long), Ok(540_000));
    assert_eq!(ext::ht_rate(32, bw40, ext::GuardInterval::Long), Err(ext::InvalidFormat));
    assert_eq!(ext::ht_rate(0, bw80, ext::GuardInterval::Long), Err(ext::InvalidFormat));
    assert_eq!(ext::vht_rate(0, bw80, ext::GuardInterval::Short, 1), Ok(32_500));
    assert_eq!(ext::vht_rate(9, bw160, ext::GuardInterval::Short, 8), Ok(6_933_300));
    assert_eq!(ext::vht_rate(9, bw20, ext::GuardInterval::Long, 1), Err(ext::InvalidFormat));
    assert_eq!(ext::vht_rate(10, bw20, ext::GuardInterval::Long, 1), Err(ext::InvalidFormat));
    assert_eq!(ext::vht_rate(0, bw20, ext::GuardInterval::Long, 9), Err(ext::InvalidFormat));
    assert_eq!(ext::vht_rate(0, bw20, ext::GuardInterval::Long, 0), Err(ext::InvalidFormat));
    assert_eq!(ext::vht_rate(0, bw20, ext::GuardInterval::Long, 5), Err(ext::InvalidFormat));
}

#[test]
fn ext_channel_flags() {
    let flags = ext::ChannelFlags::from_bits(0x0480);
    assert_eq!(
        flags,
        ext::ChannelFlags {
            turbo: false,
            cck: false,
            ofdm: false,
            ghz2: true,
            ghz5: false,
            passive: false,
            dynamic: true,
            gfsk: false,
        }
    );
    let all = ext::ChannelFlags::from_bits(0xffff);
    assert!(all.turbo && all.cck && all.ofdm && all.ghz2);
    assert!(all.ghz5 && all.passive && all.dynamic && all.gfsk);
    let none = ext::ChannelFlags::from_bits(0xf00f);
    assert!(!(none.turbo || none.cck || none.ofdm || none.ghz2));
    assert!(!(none.ghz5 || none.passive || none.dynamic || none.gfsk));
    assert!(ext::ChannelFlags::from_bits(0x0010).turbo);
    assert!(ext::ChannelFlags::from_bits(0x0020).cck);
    assert!(ext::ChannelFlags::from_bits(0x0040).ofdm);
    assert!(ext::ChannelFlags::from_bits(0x0100).ghz5);
    assert!(ext::ChannelFlags::from_bits(0x0200).passive);
    assert!(ext::ChannelFlags::from_bits(0x0800).gfsk);
}

#[test]
fn ext_xchannel_flags() {
    let flags = ext::XChannelFlags::from_bits(0x0002_0140);
    assert!(flags.ht40u && flags.ghz5 && flags.ofdm);
    assert!(!(flags.turbo || flags.cck || flags.ghz2 || flags.passive || flags.dynamic));
    assert!(!(flags.gfsk || flags.gsm || flags.sturbo || flags.half || flags.quarter));
    assert!(!(flags.ht20 || flags.ht40d));
    assert!(ext::XChannelFlags::from_bits(0x1000).gsm);
    assert!(ext::XChannelFlags::from_bits(0x2000).sturbo);
    assert!(ext::XChannelFlags::from_bits(0x4000).half);
    assert!(ext::XChannelFlags::from_bits(0x8000).quarter);
    assert!(ext::XChannelFlags::from_bits(0x0001_0000).ht20);
    assert!(ext::XChannelFlags::from_bits(0x0004_0000).ht40d);
    assert_eq!(
        ext::XChannelFlags::from_bits(0xfff8_000f),
        ext::XChannelFlags::from_bits(0)
    );
}
