//! The master palette: the RGB colour of each of the 64 PPU colour indices.
use vstd::prelude::*;

verus! {

pub const PALETTE_SIZE: usize = 64;

/// The RGB colour of a colour index (taken modulo 64).
pub open spec fn rgb_spec(i: u8) -> (u8, u8, u8) {
    match i % 64 {
        0 => (84, 84, 84),
        1 => (0, 30, 116),
        2 => (8, 16, 144),
        3 => (48, 0, 136),
        4 => (68, 0, 100),
        5 => (92, 0, 48),
        6 => (84, 4, 0),
        7 => (60, 24, 0),
        8 => (32, 42, 0),
        9 => (8, 58, 0),
        10 => (0, 64, 0),
        11 => (0, 60, 0),
        12 => (0, 50, 60),
        13 => (0, 0, 0),
        14 => (0, 0, 0),
        15 => (0, 0, 0),
        16 => (152, 150, 152),
        17 => (8, 76, 196),
        18 => (48, 50, 236),
        19 => (92, 30, 228),
        20 => (136, 20, 176),
        21 => (160, 20, 100),
        22 => (152, 34, 32),
        23 => (120, 60, 0),
        24 => (84, 90, 0),
        25 => (40, 114, 0),
        26 => (8, 124, 0),
        27 => (0, 118, 40),
        28 => (0, 102, 120),
        29 => (0, 0, 0),
        30 => (0, 0, 0),
        31 => (0, 0, 0),
        32 => (236, 238, 236),
        33 => (76, 154, 236),
        34 => (120, 124, 236),
        35 => (176, 98, 236),
        36 => (228, 84, 236),
        37 => (236, 88, 180),
        38 => (236, 106, 100),
        39 => (212, 136, 32),
        40 => (160, 170, 0),
        41 => (116, 196, 0),
        42 => (76, 208, 32),
        43 => (56, 204, 108),
        44 => (56, 180, 204),
        45 => (60, 60, 60),
        46 => (0, 0, 0),
        47 => (0, 0, 0),
        48 => (236, 238, 236),
        49 => (168, 204, 236),
        50 => (188, 188, 236),
        51 => (212, 178, 236),
        52 => (236, 174, 236),
        53 => (236, 174, 212),
        54 => (236, 180, 176),
        55 => (228, 196, 144),
        56 => (204, 210, 120),
        57 => (180, 222, 120),
        58 => (168, 226, 144),
        59 => (152, 226, 180),
        60 => (160, 214, 228),
        61 => (160, 162, 160),
        62 => (0, 0, 0),
        _ => (0, 0, 0),
    }
}

/// Looks up the RGB colour of a colour index (taken modulo 64).
pub fn rgb(i: u8) -> (r: (u8, u8, u8))
    ensures
        r == rgb_spec(i),
{
    match i % 64 {
        0 => (84, 84, 84),
        1 => (0, 30, 116),
        2 => (8, 16, 144),
        3 => (48, 0, 136),
        4 => (68, 0, 100),
        5 => (92, 0, 48),
        6 => (84, 4, 0),
        7 => (60, 24, 0),
        8 => (32, 42, 0),
        9 => (8, 58, 0),
        10 => (0, 64, 0),
        11 => (0, 60, 0),
        12 => (0, 50, 60),
        13 => (0, 0, 0),
        14 => (0, 0, 0),
        15 => (0, 0, 0),
        16 => (152, 150, 152),
        17 => (8, 76, 196),
        18 => (48, 50, 236),
        19 => (92, 30, 228),
        20 => (136, 20, 176),
        21 => (160, 20, 100),
        22 => (152, 34, 32),
        23 => (120, 60, 0),
        24 => (84, 90, 0),
        25 => (40, 114, 0),
        26 => (8, 124, 0),
        27 => (0, 118, 40),
        28 => (0, 102, 120),
        29 => (0, 0, 0),
        30 => (0, 0, 0),
        31 => (0, 0, 0),
        32 => (236, 238, 236),
        33 => (76, 154, 236),
        34 => (120, 124, 236),
        35 => (176, 98, 236),
        36 => (228, 84, 236),
        37 => (236, 88, 180),
        38 => (236, 106, 100),
        39 => (212, 136, 32),
        40 => (160, 170, 0),
        41 => (116, 196, 0),
        42 => (76, 208, 32),
        43 => (56, 204, 108),
        44 => (56, 180, 204),
        45 => (60, 60, 60),
        46 => (0, 0, 0),
        47 => (0, 0, 0),
        48 => (236, 238, 236),
        49 => (168, 204, 236),
        50 => (188, 188, 236),
        51 => (212, 178, 236),
        52 => (236, 174, 236),
        53 => (236, 174, 212),
        54 => (236, 180, 176),
        55 => (228, 196, 144),
        56 => (204, 210, 120),
        57 => (180, 222, 120),
        58 => (168, 226, 144),
        59 => (152, 226, 180),
        60 => (160, 214, 228),
        61 => (160, 162, 160),
        62 => (0, 0, 0),
        _ => (0, 0, 0),
    }
}

} // verus!
