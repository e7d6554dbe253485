//! Data rate tables and the plain values that the fields break down into.

use vstd::prelude::*;

verus! {

/// The error for a value that the format does not define.
#[derive(Debug, Clone, Copy, PartialEq, Eq, Structural)]
pub struct InvalidFormat;

/// The 802.11n data rates of one MCS index in kilobits per second: at 20 MHz
/// with a long and with a short guard interval, then at 40 MHz with a long
/// and with a short guard interval.
pub open spec fn ht_row_spec(index: u8) -> (u32, u32, u32, u32)
    recommends
        index < 32,
{
    match index {
        0u8 => (6500, 7200, 13500, 15000),
        1u8 => (13000, 14400, 27000, 30000),
        2u8 => (19500, 21700, 40500, 45000),
        3u8 => (26000, 28900, 54000, 60000),
        4u8 => (39000, 43300, 81000, 90000),
        5u8 => (52000, 57800, 108000, 120000),
        6u8 => (58500, 65000, 121500, 135000),
        7u8 => (65000, 72200, 135000, 150000),
        8u8 => (13000, 14400, 27000, 30000),
        9u8 => (26000, 28900, 54000, 60000),
        10u8 => (39000, 43300, 81000, 90000),
        11u8 => (52000, 57800, 108000, 120000),
        12u8 => (78000, 86700, 162000, 180000),
        13u8 => (104000, 115600, 216000, 240000),
        14u8 => (117000, 130000, 243000, 270000),
        15u8 => (130000, 144400, 270000, 300000),
        16u8 => (19500, 21700, 40500, 45000),
        17u8 => (39000, 43300, 81000, 90000),
        18u8 => (58500, 65000, 121500, 135000),
        19u8 => (78000, 86700, 162000, 180000),
        20u8 => (117000, 130000, 243000, 270000),
        21u8 => (156000, 173300, 324000, 360000),
        22u8 => (175500, 195000, 364500, 405000),
        23u8 => (195000, 216700, 405000, 450000),
        24u8 => (26000, 28800, 54000, 60000),
        25u8 => (52000, 57600, 108000, 120000),
        26u8 => (78000, 86800, 162000, 180000),
        27u8 => (104000, 115600, 216000, 240000),
        28u8 => (156000, 173200, 324000, 360000),
        29u8 => (208000, 231200, 432000, 480000),
        30u8 => (234000, 260000, 486000, 540000),
        31u8 => (260000, 288800, 540000, 600000),
        _ => (0, 0, 0, 0),
    }
}

/// The 802.11ac data rates of one table row in kilobits per second, where
/// row `10 * (nss - 1) + index` is for MCS index `index` on `nss` spatial
/// streams: at 20, 40, 80 and 160 MHz, each with a long and then with a
/// short guard interval. A rate of zero marks a combination that does not
/// exist.
pub open spec fn vht_row_spec(row: u8) -> (u32, u32, u32, u32, u32, u32, u32, u32)
    recommends
        row < 80,
{
    match row {
        0u8 => (6500, 7200, 13500, 15000, 29300, 32500, 58500, 65000),
        1u8 => (13000, 14400, 27000, 30000, 58500, 65000, 117000, 130000),
        2u8 => (19500, 21700, 40500, 45000, 87800, 97500, 175500, 195000),
        3u8 => (26000, 28900, 54000, 60000, 117000, 130000, 234000, 260000),
        4u8 => (39000, 43300, 81000, 90000, 175500, 195000, 351000, 390000),
        5u8 => (52000, 57800, 108000, 120000, 234000, 260000, 468000, 520000),
        6u8 => (58500, 65000, 121500, 135000, 263300, 292500, 526500, 585000),
        7u8 => (65000, 72200, 135000, 150000, 292500, 325000, 585000, 650000),
        8u8 => (78000, 86700, 162000, 180000, 351000, 390000, 702000, 780000),
        9u8 => (0, 0, 180000, 200000, 390000, 433300, 780000, 866700),
        10u8 => (13000, 14400, 27000, 30000, 58500, 65000, 117000, 130000),
        11u8 => (26000, 28900, 54000, 60000, 117000, 130000, 234000, 260000),
        12u8 => (39000, 43300, 81000, 90000, 175500, 195000, 351000, 390000),
        13u8 => (52000, 57800, 108000, 120000, 234000, 260000, 468000, 520000),
        14u8 => (78000, 86700, 162000, 180000, 351000, 390000, 702000, 780000),
        15u8 => (104000, 115600, 216000, 240000, 468000, 520000, 936000, 1040000),
        16u8 => (117000, 130300, 243000, 270000, 526500, 585000, 1053000, 1170000),
        17u8 => (130000, 144400, 270000, 300000, 585000, 650000, 1170000, 1300000),
        18u8 => (156000, 173300, 324000, 360000, 702000, 780000, 1404000, 1560000),
        19u8 => (0, 0, 360000, 400000, 780000, 866700, 1560000, 1733300),
        20u8 => (19500, 21700, 40500, 45000, 87800, 97500, 175500, 195000),
        21u8 => (39000, 43300, 81000, 90000, 175500, 195000, 351000, 390000),
        22u8 => (58500, 65000, 121500, 135000, 263300, 292500, 526500, 585000),
        23u8 => (78000, 86700, 162000, 180000, 351000, 390000, 702000, 780000),
        24u8 => (117000, 130000, 243000, 270000, 526500, 585000, 1053000, 1170000),
        25u8 => (156000, 173300, 324000, 360000, 702000, 780000, 1404000, 1560000),
        26u8 => (175500, 195000, 364500, 405000, 0, 0, 1579500, 1755000),
        27u8 => (195000, 216700, 405000, 450000, 877500, 975000, 1755000, 1950000),
        28u8 => (234000, 260000, 486000, 540000, 1053000, 1170000, 2106000, 2340000),
        29u8 => (260000, 288900, 540000, 600000, 1170000, 1300000, 0, 0),
        30u8 => (26000, 28900, 54000, 60000, 117000, 130000, 234000, 260000),
        31u8 => (52000, 57800, 108000, 120000, 234000, 260000, 468000, 520000),
        32u8 => (78000, 86700, 162000, 180000, 351000, 390000, 702000, 780000),
        33u8 => (104000, 115600, 216000, 240000, 468000, 520000, 936000, 1040000),
        34u8 => (156000, 173300, 324000, 360000, 702000, 780000, 1404000, 1560000),
        35u8 => (208000, 231100, 432000, 480000, 936000, 1040000, 1872000, 2080000),
        36u8 => (234000, 260000, 486000, 540000, 1053000, 1170000, 2106000, 2340000),
        37u8 => (260000, 288900, 540000, 600000, 1170000, 1300000, 2340000, 2600000),
        38u8 => (312000, 346700, 648000, 720000, 1404000, 1560000, 2808000, 3120000),
        39u8 => (0, 0, 720000, 800000, 1560000, 1733300, 3120000, 3466700),
        40u8 => (0, 0, 0, 0, 146300, 162500, 292500, 325000),
        41u8 => (0, 0, 0, 0, 292500, 325000, 585000, 650000),
        42u8 => (0, 0, 0, 0, 438800, 487500, 877500, 975000),
        43u8 => (0, 0, 0, 0, 585000, 650000, 1170000, 1300000),
        44u8 => (0, 0, 0, 0, 877500, 975000, 1755000, 1950000),
        45u8 => (0, 0, 0, 0, 1170000, 1300000, 2340000, 2600000),
        46u8 => (0, 0, 0, 0, 1316300, 1462500, 2632500, 2925000),
        47u8 => (0, 0, 0, 0, 1462500, 1625000, 2925000, 3250000),
        48u8 => (0, 0, 0, 0, 1755000, 1950000, 3510000, 3900000),
        49u8 => (0, 0, 0, 0, 1950000, 2166700, 3900000, 4333300),
        50u8 => (0, 0, 0, 0, 175500, 195000, 351000, 390000),
        51u8 => (0, 0, 0, 0, 351000, 390000, 702000, 780000),
        52u8 => (0, 0, 0, 0, 526500, 585000, 1053000, 1170000),
        53u8 => (0, 0, 0, 0, 702000, 780000, 1404000, 1560000),
        54u8 => (0, 0, 0, 0, 1053000, 1170000, 2106000, 2340000),
        55u8 => (0, 0, 0, 0, 1404000, 1560000, 2808000, 3120000),
        56u8 => (0, 0, 0, 0, 1579500, 1755000, 3159000, 3510000),
        57u8 => (0, 0, 0, 0, 1755000, 1950000, 3510000, 3900000),
        58u8 => (0, 0, 0, 0, 2106000, 2340000, 4212000, 4680000),
        59u8 => (0, 0, 0, 0, 0, 0, 4680000, 5200000),
        60u8 => (0, 0, 0, 0, 204800, 227500, 409500, 455000),
        61u8 => (0, 0, 0, 0, 409500, 455000, 819000, 910000),
        62u8 => (0, 0, 0, 0, 614300, 682500, 1228500, 1365000),
        63u8 => (0, 0, 0, 0, 819000, 910000, 1638000, 1820000),
        64u8 => (0, 0, 0, 0, 1228500, 1365000, 2457000, 2730000),
        65u8 => (0, 0, 0, 0, 1638000, 1820000, 3276000, 3640000),
        66u8 => (0, 0, 0, 0, 0, 0, 3685500, 4095000),
        67u8 => (0, 0, 0, 0, 2047500, 2275000, 4095000, 4550000),
        68u8 => (0, 0, 0, 0, 2457000, 2730000, 4914000, 5460000),
        69u8 => (0, 0, 0, 0, 2730000, 3033300, 5460000, 6066700),
        70u8 => (0, 0, 0, 0, 234000, 260000, 468000, 520000),
        71u8 => (0, 0, 0, 0, 468000, 520000, 936000, 1040000),
        72u8 => (0, 0, 0, 0, 702000, 780000, 1404000, 1560000),
        73u8 => (0, 0, 0, 0, 936000, 1040000, 1872000, 2080000),
        74u8 => (0, 0, 0, 0, 1404000, 1560000, 2808000, 3120000),
        75u8 => (0, 0, 0, 0, 1872000, 2080000, 3744000, 4160000),
        76u8 => (0, 0, 0, 0, 2106000, 2340000, 4212000, 4680000),
        77u8 => (0, 0, 0, 0, 2340000, 2600000, 4680000, 5200000),
        78u8 => (0, 0, 0, 0, 2808000, 3120000, 5616000, 6240000),
        79u8 => (0, 0, 0, 0, 3120000, 3466700, 6240000, 6933300),
        _ => (0, 0, 0, 0, 0, 0, 0, 0),
    }
}

/// The column of a rate table for a bandwidth in MHz and a guard interval,
/// short or long, where the table has one.
pub open spec fn rate_column(mhz: u8, short_gi: bool) -> Option<u8> {
    let short: u8 = if short_gi {
        1
    } else {
        0
    };
    if mhz == 20 {
        Some(short)
    } else if mhz == 40 {
        Some((2 + short) as u8)
    } else if mhz == 80 {
        Some((4 + short) as u8)
    } else if mhz == 160 {
        Some((6 + short) as u8)
    } else {
        None
    }
}

/// The 802.11n data rate in kilobits per second in a row and column of the
/// table.
pub open spec fn ht_cell(index: u8, column: u8) -> u32
    recommends
        index < 32,
        column < 4,
{
    let row = ht_row_spec(index);
    if column == 0 {
        row.0
    } else if column == 1 {
        row.1
    } else if column == 2 {
        row.2
    } else {
        row.3
    }
}

/// The 802.11ac data rate in kilobits per second in a row and column of the
/// table, zero where the combination does not exist.
pub open spec fn vht_cell(row: u8, column: u8) -> u32
    recommends
        row < 80,
        column < 8,
{
    let r = vht_row_spec(row);
    if column == 0 {
        r.0
    } else if column == 1 {
        r.1
    } else if column == 2 {
        r.2
    } else if column == 3 {
        r.3
    } else if column == 4 {
        r.4
    } else if column == 5 {
        r.5
    } else if column == 6 {
        r.6
    } else {
        r.7
    }
}

/// The 802.11n data rate in kilobits per second, or the error where the
/// index is above 31 or the bandwidth is neither 20 nor 40 MHz.
pub open spec fn ht_rate_spec(index: u8, mhz: u8, gi: GuardInterval) -> Result<u32, InvalidFormat> {
    if index > 31 {
        Err(InvalidFormat)
    } else {
        match rate_column(mhz, gi == GuardInterval::Short) {
            Some(column) => if column < 4 {
                Ok(ht_cell(index, column))
            } else {
                Err(InvalidFormat)
            },
            None => Err(InvalidFormat),
        }
    }
}

/// The 802.11ac data rate in kilobits per second, or the error where the
/// index is above 9, the number of spatial streams is not between 1 and 8,
/// the bandwidth is none of 20, 40, 80 and 160 MHz, or the combination does
/// not exist.
pub open spec fn vht_rate_spec(index: u8, mhz: u8, gi: GuardInterval, nss: u8) -> Result<
    u32,
    InvalidFormat,
> {
    if index > 9 || nss > 8 || nss == 0 {
        Err(InvalidFormat)
    } else {
        match rate_column(mhz, gi == GuardInterval::Short) {
            Some(column) => {
                let rate = vht_cell((index + (nss - 1) * 10) as u8, column);
                if rate == 0 {
                    Err(InvalidFormat)
                } else {
                    Ok(rate)
                }
            },
            None => Err(InvalidFormat),
        }
    }
}

fn ht_row(index: u8) -> (r: (u32, u32, u32, u32))
    ensures
        r == ht_row_spec(index),
{
    match index {
        0 => (6500, 7200, 13500, 15000),
        1 => (13000, 14400, 27000, 30000),
        2 => (19500, 21700, 40500, 45000),
        3 => (26000, 28900, 54000, 60000),
        4 => (39000, 43300, 81000, 90000),
        5 => (52000, 57800, 108000, 120000),
        6 => (58500, 65000, 121500, 135000),
        7 => (65000, 72200, 135000, 150000),
        8 => (13000, 14400, 27000, 30000),
        9 => (26000, 28900, 54000, 60000),
        10 => (39000, 43300, 81000, 90000),
        11 => (52000, 57800, 108000, 120000),
        12 => (78000, 86700, 162000, 180000),
        13 => (104000, 115600, 216000, 240000),
        14 => (117000, 130000, 243000, 270000),
        15 => (130000, 144400, 270000, 300000),
        16 => (19500, 21700, 40500, 45000),
        17 => (39000, 43300, 81000, 90000),
        18 => (58500, 65000, 121500, 135000),
        19 => (78000, 86700, 162000, 180000),
        20 => (117000, 130000, 243000, 270000),
        21 => (156000, 173300, 324000, 360000),
        22 => (175500, 195000, 364500, 405000),
        23 => (195000, 216700, 405000, 450000),
        24 => (26000, 28800, 54000, 60000),
        25 => (52000, 57600, 108000, 120000),
        26 => (78000, 86800, 162000, 180000),
        27 => (104000, 115600, 216000, 240000),
        28 => (156000, 173200, 324000, 360000),
        29 => (208000, 231200, 432000, 480000),
        30 => (234000, 260000, 486000, 540000),
        31 => (260000, 288800, 540000, 600000),
        _ => (0, 0, 0, 0),
    }
}

fn vht_row(row: u8) -> (r: (u32, u32, u32, u32, u32, u32, u32, u32))
    ensures
        r == vht_row_spec(row),
{
    match row {
        0 => (6500, 7200, 13500, 15000, 29300, 32500, 58500, 65000),
        1 => (13000, 14400, 27000, 30000, 58500, 65000, 117000, 130000),
        2 => (19500, 21700, 40500, 45000, 87800, 97500, 175500, 195000),
        3 => (26000, 28900, 54000, 60000, 117000, 130000, 234000, 260000),
        4 => (39000, 43300, 81000, 90000, 175500, 195000, 351000, 390000),
        5 => (52000, 57800, 108000, 120000, 234000, 260000, 468000, 520000),
        6 => (58500, 65000, 121500, 135000, 263300, 292500, 526500, 585000),
        7 => (65000, 72200, 135000, 150000, 292500, 325000, 585000, 650000),
        8 => (78000, 86700, 162000, 180000, 351000, 390000, 702000, 780000),
        9 => (0, 0, 180000, 200000, 390000, 433300, 780000, 866700),
        10 => (13000, 14400, 27000, 30000, 58500, 65000, 117000, 130000),
        11 => (26000, 28900, 54000, 60000, 117000, 130000, 234000, 260000),
        12 => (39000, 43300, 81000, 90000, 175500, 195000, 351000, 390000),
        13 => (52000, 57800, 108000, 120000, 234000, 260000, 468000, 520000),
        14 => (78000, 86700, 162000, 180000, 351000, 390000, 702000, 780000),
        15 => (104000, 115600, 216000, 240000, 468000, 520000, 936000, 1040000),
        16 => (117000, 130300, 243000, 270000, 526500, 585000, 1053000, 1170000),
        17 => (130000, 144400, 270000, 300000, 585000, 650000, 1170000, 1300000),
        18 => (156000, 173300, 324000, 360000, 702000, 780000, 1404000, 1560000),
        19 => (0, 0, 360000, 400000, 780000, 866700, 1560000, 1733300),
        20 => (19500, 21700, 40500, 45000, 87800, 97500, 175500, 195000),
        21 => (39000, 43300, 81000, 90000, 175500, 195000, 351000, 390000),
        22 => (58500, 65000, 121500, 135000, 263300, 292500, 526500, 585000),
        23 => (78000, 86700, 162000, 180000, 351000, 390000, 702000, 780000),
        24 => (117000, 130000, 243000, 270000, 526500, 585000, 1053000, 1170000),
        25 => (156000, 173300, 324000, 360000, 702000, 780000, 1404000, 1560000),
        26 => (175500, 195000, 364500, 405000, 0, 0, 1579500, 1755000),
        27 => (195000, 216700, 405000, 450000, 877500, 975000, 1755000, 1950000),
        28 => (234000, 260000, 486000, 540000, 1053000, 1170000, 2106000, 2340000),
        29 => (260000, 288900, 540000, 600000, 1170000, 1300000, 0, 0),
        30 => (26000, 28900, 54000, 60000, 117000, 130000, 234000, 260000),
        31 => (52000, 57800, 108000, 120000, 234000, 260000, 468000, 520000),
        32 => (78000, 86700, 162000, 180000, 351000, 390000, 702000, 780000),
        33 => (104000, 115600, 216000, 240000, 468000, 520000, 936000, 1040000),
        34 => (156000, 173300, 324000, 360000, 702000, 780000, 1404000, 1560000),
        35 => (208000, 231100, 432000, 480000, 936000, 1040000, 1872000, 2080000),
        36 => (234000, 260000, 486000, 540000, 1053000, 1170000, 2106000, 2340000),
        37 => (260000, 288900, 540000, 600000, 1170000, 1300000, 2340000, 2600000),
        38 => (312000, 346700, 648000, 720000, 1404000, 1560000, 2808000, 3120000),
        39 => (0, 0, 720000, 800000, 1560000, 1733300, 3120000, 3466700),
        40 => (0, 0, 0, 0, 146300, 162500, 292500, 325000),
        41 => (0, 0, 0, 0, 292500, 325000, 585000, 650000),
        42 => (0, 0, 0, 0, 438800, 487500, 877500, 975000),
        43 => (0, 0, 0, 0, 585000, 650000, 1170000, 1300000),
        44 => (0, 0, 0, 0, 877500, 975000, 1755000, 1950000),
        45 => (0, 0, 0, 0, 1170000, 1300000, 2340000, 2600000),
        46 => (0, 0, 0, 0, 1316300, 1462500, 2632500, 2925000),
        47 => (0, 0, 0, 0, 1462500, 1625000, 2925000, 3250000),
        48 => (0, 0, 0, 0, 1755000, 1950000, 3510000, 3900000),
        49 => (0, 0, 0, 0, 1950000, 2166700, 3900000, 4333300),
        50 => (0, 0, 0, 0, 175500, 195000, 351000, 390000),
        51 => (0, 0, 0, 0, 351000, 390000, 702000, 780000),
        52 => (0, 0, 0, 0, 526500, 585000, 1053000, 1170000),
        53 => (0, 0, 0, 0, 702000, 780000, 1404000, 1560000),
        54 => (0, 0, 0, 0, 1053000, 1170000, 2106000, 2340000),
        55 => (0, 0, 0, 0, 1404000, 1560000, 2808000, 3120000),
        56 => (0, 0, 0, 0, 1579500, 1755000, 3159000, 3510000),
        57 => (0, 0, 0, 0, 1755000, 1950000, 3510000, 3900000),
        58 => (0, 0, 0, 0, 2106000, 2340000, 4212000, 4680000),
        59 => (0, 0, 0, 0, 0, 0, 4680000, 5200000),
        60 => (0, 0, 0, 0, 204800, 227500, 409500, 455000),
        61 => (0, 0, 0, 0, 409500, 455000, 819000, 910000),
        62 => (0, 0, 0, 0, 614300, 682500, 1228500, 1365000),
        63 => (0, 0, 0, 0, 819000, 910000, 1638000, 1820000),
        64 => (0, 0, 0, 0, 1228500, 1365000, 2457000, 2730000),
        65 => (0, 0, 0, 0, 1638000, 1820000, 3276000, 3640000),
        66 => (0, 0, 0, 0, 0, 0, 3685500, 4095000),
        67 => (0, 0, 0, 0, 2047500, 2275000, 4095000, 4550000),
        68 => (0, 0, 0, 0, 2457000, 2730000, 4914000, 5460000),
        69 => (0, 0, 0, 0, 2730000, 3033300, 5460000, 6066700),
        70 => (0, 0, 0, 0, 234000, 260000, 468000, 520000),
        71 => (0, 0, 0, 0, 468000, 520000, 936000, 1040000),
        72 => (0, 0, 0, 0, 702000, 780000, 1404000, 1560000),
        73 => (0, 0, 0, 0, 936000, 1040000, 1872000, 2080000),
        74 => (0, 0, 0, 0, 1404000, 1560000, 2808000, 3120000),
        75 => (0, 0, 0, 0, 1872000, 2080000, 3744000, 4160000),
        76 => (0, 0, 0, 0, 2106000, 2340000, 4212000, 4680000),
        77 => (0, 0, 0, 0, 2340000, 2600000, 4680000, 5200000),
        78 => (0, 0, 0, 0, 2808000, 3120000, 5616000, 6240000),
        79 => (0, 0, 0, 0, 3120000, 3466700, 6240000, 6933300),
        _ => (0, 0, 0, 0, 0, 0, 0, 0),
    }
}

/// Returns the column of a rate table for a bandwidth in MHz and a guard
/// interval.
pub(crate) fn column_of(mhz: u8, short_gi: bool) -> (r: Option<u8>)
    ensures
        r == rate_column(mhz, short_gi),
        r matches Some(column) ==> column < 8,
{
    let short: u8 = if short_gi {
        1
    } else {
        0
    };
    match mhz {
        20 => Some(short),
        40 => Some(2 + short),
        80 => Some(4 + short),
        160 => Some(6 + short),
        _ => None,
    }
}

/// Looks up the 802.11n rate table.
pub(crate) fn ht_lookup(index: u8, column: u8) -> (r: u32)
    requires
        index < 32,
        column < 4,
    ensures
        r == ht_cell(index, column),
{
    let row = ht_row(index);
    match column {
        0 => row.0,
        1 => row.1,
        2 => row.2,
        _ => row.3,
    }
}

/// Looks up the 802.11ac rate table.
pub(crate) fn vht_lookup(row: u8, column: u8) -> (r: u32)
    requires
        row < 80,
        column < 8,
    ensures
        r == vht_cell(row, column),
{
    let r = vht_row(row);
    match column {
        0 => r.0,
        1 => r.1,
        2 => r.2,
        3 => r.3,
        4 => r.4,
        5 => r.5,
        6 => r.6,
        _ => r.7,
    }
}

/// Returns the 802.11n data rate in kilobits per second based on the MCS
/// index, bandwidth, and guard interval.
pub fn ht_rate(index: u8, bw: Bandwidth, gi: GuardInterval) -> (r: Result<u32, InvalidFormat>)
    ensures
        r == ht_rate_spec(index, bw.bandwidth, gi),
{
    if index > 31 {
        return Err(InvalidFormat);
    }
    match column_of(bw.bandwidth, gi == GuardInterval::Short) {
        Some(column) => if column < 4 {
            Ok(ht_lookup(index, column))
        } else {
            Err(InvalidFormat)
        },
        None => Err(InvalidFormat),
    }
}

/// Returns the 802.11ac data rate in kilobits per second based on the MCS
/// index, bandwidth, guard interval, and number of spatial streams.
pub fn vht_rate(index: u8, bw: Bandwidth, gi: GuardInterval, nss: u8) -> (r: Result<
    u32,
    InvalidFormat,
>)
    ensures
        r == vht_rate_spec(index, bw.bandwidth, gi, nss),
{
    if index > 9 || nss > 8 || nss == 0 {
        return Err(InvalidFormat);
    }
    match column_of(bw.bandwidth, gi == GuardInterval::Short) {
        Some(column) => {
            let rate = vht_lookup(index + (nss - 1) * 10, column);
            if rate == 0 {
                Err(InvalidFormat)
            } else {
                Ok(rate)
            }
        },
        None => Err(InvalidFormat),
    }
}

/// Flags describing the channel.
#[derive(Clone, Copy, Debug, Eq, Hash, PartialEq, Structural)]
pub struct ChannelFlags {
    /// Turbo channel.
    pub turbo: bool,
    /// Complementary Code Keying (CCK) channel.
    pub cck: bool,
    /// Orthogonal Frequency-Division Multiplexing (OFDM) channel.
    pub ofdm: bool,
    /// 2 GHz spectrum channel.
    pub ghz2: bool,
    /// 5 GHz spectrum channel.
    pub ghz5: bool,
    /// Only passive scan allowed.
    pub passive: bool,
    /// Dynamic CCK-OFDM channel.
    pub dynamic: bool,
    /// Gaussian Frequency Shift Keying (GFSK) channel.
    pub gfsk: bool,
}

impl ChannelFlags {
    /// The properties that the bits of a channel field's flags stand for, each under its own
    /// name: a property holds where its bit is set.
    pub open spec fn of_bits(bits: u16) -> ChannelFlags {
        ChannelFlags {
            turbo: bits & 0x0010 != 0,
            cck: bits & 0x0020 != 0,
            ofdm: bits & 0x0040 != 0,
            ghz2: bits & 0x0080 != 0,
            ghz5: bits & 0x0100 != 0,
            passive: bits & 0x0200 != 0,
            dynamic: bits & 0x0400 != 0,
            gfsk: bits & 0x0800 != 0,
        }
    }

    /// Returns the properties that the bits of a channel field's flags stand for.
    pub fn from_bits(bits: u16) -> (r: ChannelFlags)
        ensures
            r == ChannelFlags::of_bits(bits),
    {
        ChannelFlags {
            turbo: bits & 0x0010 != 0,
            cck: bits & 0x0020 != 0,
            ofdm: bits & 0x0040 != 0,
            ghz2: bits & 0x0080 != 0,
            ghz5: bits & 0x0100 != 0,
            passive: bits & 0x0200 != 0,
            dynamic: bits & 0x0400 != 0,
            gfsk: bits & 0x0800 != 0,
        }
    }
}

/// Extended flags describing the channel.
#[derive(Clone, Copy, Debug, Eq, Hash, PartialEq, Structural)]
pub struct XChannelFlags {
    /// Turbo channel.
    pub turbo: bool,
    /// Complementary Code Keying (CCK) channel.
    pub cck: bool,
    /// Orthogonal Frequency-Division Multiplexing (OFDM) channel.
    pub ofdm: bool,
    /// 2 GHz spectrum channel.
    pub ghz2: bool,
    /// 5 GHz spectrum channel.
    pub ghz5: bool,
    /// Only passive scan allowed.
    pub passive: bool,
    /// Dynamic CCK-OFDM channel.
    pub dynamic: bool,
    /// Gaussian Frequency Shift Keying (GFSK) channel.
    pub gfsk: bool,
    /// GSM channel.
    pub gsm: bool,
    /// Static Turbo channel.
    pub sturbo: bool,
    /// Half rate channel.
    pub half: bool,
    /// Quarter rate channel.
    pub quarter: bool,
    /// HT Channel (20MHz Channel Width).
    pub ht20: bool,
    /// HT Channel (40MHz Channel Width with Extension channel above).
    pub ht40u: bool,
    /// HT Channel (40MHz Channel Width with Extension channel below).
    pub ht40d: bool,
}

impl XChannelFlags {
    /// The properties that the bits of an extended channel field's flags stand for, each under its own
    /// name: a property holds where its bit is set.
    pub open spec fn of_bits(bits: u32) -> XChannelFlags {
        XChannelFlags {
            turbo: bits & 0x0010 != 0,
            cck: bits & 0x0020 != 0,
            ofdm: bits & 0x0040 != 0,
            ghz2: bits & 0x0080 != 0,
            ghz5: bits & 0x0100 != 0,
            passive: bits & 0x0200 != 0,
            dynamic: bits & 0x0400 != 0,
            gfsk: bits & 0x0800 != 0,
            gsm: bits & 0x1000 != 0,
            sturbo: bits & 0x2000 != 0,
            half: bits & 0x4000 != 0,
            quarter: bits & 0x8000 != 0,
            ht20: bits & 0x0001_0000 != 0,
            ht40u: bits & 0x0002_0000 != 0,
            ht40d: bits & 0x0004_0000 != 0,
        }
    }

    /// Returns the properties that the bits of an extended channel field's flags stand for.
    pub fn from_bits(bits: u32) -> (r: XChannelFlags)
        ensures
            r == XChannelFlags::of_bits(bits),
    {
        XChannelFlags {
            turbo: bits & 0x0010 != 0,
            cck: bits & 0x0020 != 0,
            ofdm: bits & 0x0040 != 0,
            ghz2: bits & 0x0080 != 0,
            ghz5: bits & 0x0100 != 0,
            passive: bits & 0x0200 != 0,
            dynamic: bits & 0x0400 != 0,
            gfsk: bits & 0x0800 != 0,
            gsm: bits & 0x1000 != 0,
            sturbo: bits & 0x2000 != 0,
            half: bits & 0x4000 != 0,
            quarter: bits & 0x8000 != 0,
            ht20: bits & 0x0001_0000 != 0,
            ht40u: bits & 0x0002_0000 != 0,
            ht40d: bits & 0x0004_0000 != 0,
        }
    }
}

/// Struct containing the bandwidth, sideband, and sideband index.
#[derive(Clone, Copy, Debug, Eq, Hash, PartialEq)]
pub struct Bandwidth {
    /// The bandwidth in MHz.
    pub bandwidth: u8,
    /// The sideband bandwidth in MHz.
    pub sideband: Option<u8>,
    /// The sideband index.
    pub sideband_index: Option<u8>,
}

impl Bandwidth {
    /// The bandwidth that a number from 0 to 25 encodes. The numbers go
    /// through the channel widths 20, 40, 80 and 160 MHz: first the whole
    /// channel, then its sidebands from the widest to the narrowest, each
    /// width with its sidebands numbered from the lowest up.
    pub open spec fn of_value(value: u8) -> Result<Bandwidth, InvalidFormat> {
        if value == 0 {
            Ok(Bandwidth { bandwidth: 20, sideband: None, sideband_index: None })
        } else if value == 1 {
            Ok(Bandwidth { bandwidth: 40, sideband: None, sideband_index: None })
        } else if value <= 3 {
            Ok(Bandwidth { bandwidth: 40, sideband: Some(20), sideband_index: Some((value - 2) as u8) })
        } else if value == 4 {
            Ok(Bandwidth { bandwidth: 80, sideband: None, sideband_index: None })
        } else if value <= 6 {
            Ok(Bandwidth { bandwidth: 80, sideband: Some(40), sideband_index: Some((value - 5) as u8) })
        } else if value <= 10 {
            Ok(Bandwidth { bandwidth: 80, sideband: Some(20), sideband_index: Some((value - 7) as u8) })
        } else if value == 11 {
            Ok(Bandwidth { bandwidth: 160, sideband: None, sideband_index: None })
        } else if value <= 13 {
            Ok(Bandwidth { bandwidth: 160, sideband: Some(80), sideband_index: Some((value - 12) as u8) })
        } else if value <= 17 {
            Ok(Bandwidth { bandwidth: 160, sideband: Some(40), sideband_index: Some((value - 14) as u8) })
        } else if value <= 25 {
            Ok(Bandwidth { bandwidth: 160, sideband: Some(20), sideband_index: Some((value - 18) as u8) })
        } else {
            Err(InvalidFormat)
        }
    }

    /// Returns the bandwidth that `value` encodes.
    pub fn new(value: u8) -> (r: Result<Bandwidth, InvalidFormat>)
        ensures
            r == Bandwidth::of_value(value),
    {
        let (bandwidth, sideband, sideband_index): (u8, Option<u8>, Option<u8>) = match value {
            0 => (20, None, None),
            1 => (40, None, None),
            2 => (40, Some(20), Some(0)),
            3 => (40, Some(20), Some(1)),
            4 => (80, None, None),
            5 => (80, Some(40), Some(0)),
            6 => (80, Some(40), Some(1)),
            7 => (80, Some(20), Some(0)),
            8 => (80, Some(20), Some(1)),
            9 => (80, Some(20), Some(2)),
            10 => (80, Some(20), Some(3)),
            11 => (160, None, None),
            12 => (160, Some(80), Some(0)),
            13 => (160, Some(80), Some(1)),
            14 => (160, Some(40), Some(0)),
            15 => (160, Some(40), Some(1)),
            16 => (160, Some(40), Some(2)),
            17 => (160, Some(40), Some(3)),
            18 => (160, Some(20), Some(0)),
            19 => (160, Some(20), Some(1)),
            20 => (160, Some(20), Some(2)),
            21 => (160, Some(20), Some(3)),
            22 => (160, Some(20), Some(4)),
            23 => (160, Some(20), Some(5)),
            24 => (160, Some(20), Some(6)),
            25 => (160, Some(20), Some(7)),
            _ => {
                return Err(InvalidFormat);
            },
        };
        Ok(Bandwidth { bandwidth, sideband, sideband_index })
    }
}

/// Represents a VHT user: the VHT field encodes the MCS and NSS for up to
/// four users.
#[derive(Clone, Copy, Debug, PartialEq)]
pub struct VHTUser {
    /// The 802.11ac MCS index.
    pub index: u8,
    /// The FEC type.
    pub fec: FEC,
    /// Number of spatial streams (range 1 - 8).
    pub nss: u8,
    /// Number of space-time streams (range 1 - 16).
    pub nsts: u8,
    /// The datarate in kilobits per second.
    pub datarate: Option<u32>,
}

/// The guard interval.
#[derive(Clone, Copy, Debug, Eq, Hash, PartialEq, Structural)]
pub enum GuardInterval {
    /// 800 ns.
    Long,
    /// 400 ns.
    Short,
}

/// Forward error correction type.
#[derive(Clone, Copy, Debug, Eq, Hash, PartialEq, Structural)]
pub enum FEC {
    /// Binary convolutional coding.
    BCC,
    /// Low-density parity-check.
    LDPC,
}

/// The HT format.
#[derive(Clone, Copy, Debug, Eq, Hash, PartialEq, Structural)]
pub enum HTFormat {
    Mixed,
    Greenfield,
}

/// The time unit of the timestamp.
#[derive(Clone, Copy, Debug, Eq, Hash, PartialEq, Structural)]
pub enum TimeUnit {
    Milliseconds,
    Microseconds,
    Nanoseconds,
}

impl TimeUnit {
    /// The time unit that a number encodes.
    pub open spec fn of_value(value: u8) -> Result<TimeUnit, InvalidFormat> {
        match value {
            0u8 => Ok(TimeUnit::Milliseconds),
            1u8 => Ok(TimeUnit::Microseconds),
            2u8 => Ok(TimeUnit::Nanoseconds),
            _ => Err(InvalidFormat),
        }
    }

    /// Returns the time unit that `value` encodes.
    pub fn new(value: u8) -> (r: Result<TimeUnit, InvalidFormat>)
        ensures
            r == TimeUnit::of_value(value),
    {
        Ok(
            match value {
                0 => TimeUnit::Milliseconds,
                1 => TimeUnit::Microseconds,
                2 => TimeUnit::Nanoseconds,
                _ => {
                    return Err(InvalidFormat);
                },
            },
        )
    }
}

/// The sampling position of the timestamp.
#[derive(Clone, Copy, Debug, Eq, Hash, PartialEq, Structural)]
pub enum SamplingPosition {
    StartMPDU,
    StartPLCP,
    EndPPDU,
    EndMPDU,
    Unknown,
}

impl SamplingPosition {
    /// The sampling position that a number encodes.
    pub open spec fn of_value(value: u8) -> Result<SamplingPosition, InvalidFormat> {
        match value {
            0u8 => Ok(SamplingPosition::StartMPDU),
            1u8 => Ok(SamplingPosition::StartPLCP),
            2u8 => Ok(SamplingPosition::EndPPDU),
            3u8 => Ok(SamplingPosition::EndMPDU),
            15u8 => Ok(SamplingPosition::Unknown),
            _ => Err(InvalidFormat),
        }
    }

    /// Returns the sampling position that `value` encodes.
    pub fn from(value: u8) -> (r: Result<SamplingPosition, InvalidFormat>)
        ensures
            r == SamplingPosition::of_value(value),
    {
        Ok(
            match value {
                0 => SamplingPosition::StartMPDU,
                1 => SamplingPosition::StartPLCP,
                2 => SamplingPosition::EndPPDU,
                3 => SamplingPosition::EndMPDU,
                15 => SamplingPosition::Unknown,
                _ => return Err(InvalidFormat),
            },
        )
    }
}

} // verus!
