//! The fixed 256-entry colour palette.
//!
//! The first 16 entries are the text colours; the rest are a spread of
//! other colours and three greys.

use vstd::prelude::*;
use crate::colour::{RGBColour, pack_rgb};

verus! {

/// The red, green and blue channels (four bits each) of palette entry
/// `index`.
pub open spec fn palette_rgb(index: u8) -> (int, int, int) {
    match index {
        0 => (0x0, 0x0, 0x0),  // 0x000 (Black)
        1 => (0x8, 0x0, 0x0),  // 0x800 (Dark Red)
        2 => (0x0, 0x8, 0x0),  // 0x080 (Dark Green)
        3 => (0x8, 0x8, 0x0),  // 0x880 (Orange)
        4 => (0x0, 0x0, 0x8),  // 0x008 (Blue)
        5 => (0x8, 0x0, 0x8),  // 0x808 (Dark Magenta)
        6 => (0x0, 0x8, 0x8),  // 0x088 (Dark Cyan)
        7 => (0xc, 0xc, 0x0),  // 0xcc0 (Yellow)
        8 => (0x8, 0x8, 0x8),  // 0x888 (Grey)
        9 => (0xf, 0x0, 0x0),  // 0xf00 (Bright Red)
        10 => (0x0, 0xf, 0x0),  // 0x0f0 (Bright Green)
        11 => (0xf, 0xf, 0x0),  // 0xff0 (Bright Yellow)
        12 => (0x0, 0x0, 0xf),  // 0x00f (Bright Blue)
        13 => (0xf, 0x0, 0xf),  // 0xf0f (Bright Magenta)
        14 => (0x0, 0xf, 0xf),  // 0x0ff (Bright Cyan)
        15 => (0xf, 0xf, 0xf),  // 0xfff (White)
        16 => (0x0, 0x0, 0x3),  // 0x003
        17 => (0x0, 0x0, 0x6),  // 0x006
        18 => (0x0, 0x0, 0xc),  // 0x00c
        19 => (0x0, 0x2, 0x0),  // 0x020
        20 => (0x0, 0x2, 0x3),  // 0x023
        21 => (0x0, 0x2, 0x6),  // 0x026
        22 => (0x0, 0x2, 0x8),  // 0x028
        23 => (0x0, 0x2, 0xc),  // 0x02c
        24 => (0x0, 0x2, 0xf),  // 0x02f
        25 => (0x0, 0x4, 0x0),  // 0x040
        26 => (0x0, 0x4, 0x3),  // 0x043
        27 => (0x0, 0x4, 0x6),  // 0x046
        28 => (0x0, 0x4, 0x8),  // 0x048
        29 => (0x0, 0x4, 0xc),  // 0x04c
        30 => (0x0, 0x4, 0xf),  // 0x04f
        31 => (0x0, 0x8, 0x3),  // 0x083
        32 => (0x0, 0x8, 0x6),  // 0x086
        33 => (0x0, 0x8, 0xc),  // 0x08c
        34 => (0x0, 0x8, 0xf),  // 0x08f
        35 => (0x0, 0xa, 0x0),  // 0x0a0
        36 => (0x0, 0xa, 0x3),  // 0x0a3
        37 => (0x0, 0xa, 0x6),  // 0x0a6
        38 => (0x0, 0xa, 0x8),  // 0x0a8
        39 => (0x0, 0xa, 0xc),  // 0x0ac
        40 => (0x0, 0xa, 0xf),  // 0x0af
        41 => (0x0, 0xe, 0x0),  // 0x0e0
        42 => (0x0, 0xe, 0x3),  // 0x0e3
        43 => (0x0, 0xe, 0x6),  // 0x0e6
        44 => (0x0, 0xe, 0x8),  // 0x0e8
        45 => (0x0, 0xe, 0xc),  // 0x0ec
        46 => (0x0, 0xe, 0xf),  // 0x0ef
        47 => (0x0, 0xf, 0x3),  // 0x0f3
        48 => (0x0, 0xf, 0x6),  // 0x0f6
        49 => (0x0, 0xf, 0x8),  // 0x0f8
        50 => (0x0, 0xf, 0xc),  // 0x0fc
        51 => (0x3, 0x0, 0x0),  // 0x300
        52 => (0x3, 0x0, 0x3),  // 0x303
        53 => (0x3, 0x0, 0x6),  // 0x306
        54 => (0x3, 0x0, 0x8),  // 0x308
        55 => (0x3, 0x0, 0xc),  // 0x30c
        56 => (0x3, 0x0, 0xf),  // 0x30f
        57 => (0x3, 0x2, 0x0),  // 0x320
        58 => (0x3, 0x2, 0x3),  // 0x323
        59 => (0x3, 0x2, 0x6),  // 0x326
        60 => (0x3, 0x2, 0x8),  // 0x328
        61 => (0x3, 0x2, 0xc),  // 0x32c
        62 => (0x3, 0x2, 0xf),  // 0x32f
        63 => (0x3, 0x4, 0x0),  // 0x340
        64 => (0x3, 0x4, 0x3),  // 0x343
        65 => (0x3, 0x4, 0x6),  // 0x346
        66 => (0x3, 0x4, 0x8),  // 0x348
        67 => (0x3, 0x4, 0xc),  // 0x34c
        68 => (0x3, 0x4, 0xf),  // 0x34f
        69 => (0x3, 0x8, 0x0),  // 0x380
        70 => (0x3, 0x8, 0x3),  // 0x383
        71 => (0x3, 0x8, 0x6),  // 0x386
        72 => (0x3, 0x8, 0x8),  // 0x388
        73 => (0x3, 0x8, 0xc),  // 0x38c
        74 => (0x3, 0x8, 0xf),  // 0x38f
        75 => (0x3, 0xa, 0x0),  // 0x3a0
        76 => (0x3, 0xa, 0x3),  // 0x3a3
        77 => (0x3, 0xa, 0x6),  // 0x3a6
        78 => (0x3, 0xa, 0x8),  // 0x3a8
        79 => (0x3, 0xa, 0xc),  // 0x3ac
        80 => (0x3, 0xa, 0xf),  // 0x3af
        81 => (0x3, 0xe, 0x0),  // 0x3e0
        82 => (0x3, 0xe, 0x3),  // 0x3e3
        83 => (0x3, 0xe, 0x6),  // 0x3e6
        84 => (0x3, 0xe, 0x8),  // 0x3e8
        85 => (0x3, 0xe, 0xc),  // 0x3ec
        86 => (0x3, 0xe, 0xf),  // 0x3ef
        87 => (0x3, 0xf, 0x0),  // 0x3f0
        88 => (0x3, 0xf, 0x3),  // 0x3f3
        89 => (0x3, 0xf, 0x6),  // 0x3f6
        90 => (0x3, 0xf, 0x8),  // 0x3f8
        91 => (0x3, 0xf, 0xc),  // 0x3fc
        92 => (0x3, 0xf, 0xf),  // 0x3ff
        93 => (0x6, 0x0, 0x0),  // 0x600
        94 => (0x6, 0x0, 0x3),  // 0x603
        95 => (0x6, 0x0, 0x6),  // 0x606
        96 => (0x6, 0x0, 0x8),  // 0x608
        97 => (0x6, 0x0, 0xc),  // 0x60c
        98 => (0x6, 0x0, 0xf),  // 0x60f
        99 => (0x6, 0x2, 0x0),  // 0x620
        100 => (0x6, 0x2, 0x3),  // 0x623
        101 => (0x6, 0x2, 0x6),  // 0x626
        102 => (0x6, 0x2, 0x8),  // 0x628
        103 => (0x6, 0x2, 0xc),  // 0x62c
        104 => (0x6, 0x2, 0xf),  // 0x62f
        105 => (0x6, 0x4, 0x0),  // 0x640
        106 => (0x6, 0x4, 0x3),  // 0x643
        107 => (0x6, 0x4, 0x6),  // 0x646
        108 => (0x6, 0x4, 0x8),  // 0x648
        109 => (0x6, 0x4, 0xc),  // 0x64c
        110 => (0x6, 0x4, 0xf),  // 0x64f
        111 => (0x6, 0x8, 0x0),  // 0x680
        112 => (0x6, 0x8, 0x3),  // 0x683
        113 => (0x6, 0x8, 0x6),  // 0x686
        114 => (0x6, 0x8, 0x8),  // 0x688
        115 => (0x6, 0x8, 0xc),  // 0x68c
        116 => (0x6, 0x8, 0xf),  // 0x68f
        117 => (0x6, 0xa, 0x0),  // 0x6a0
        118 => (0x6, 0xa, 0x3),  // 0x6a3
        119 => (0x6, 0xa, 0x6),  // 0x6a6
        120 => (0x6, 0xa, 0x8),  // 0x6a8
        121 => (0x6, 0xa, 0xc),  // 0x6ac
        122 => (0x6, 0xa, 0xf),  // 0x6af
        123 => (0x6, 0xe, 0x0),  // 0x6e0
        124 => (0x6, 0xe, 0x3),  // 0x6e3
        125 => (0x6, 0xe, 0x6),  // 0x6e6
        126 => (0x6, 0xe, 0x8),  // 0x6e8
        127 => (0x6, 0xe, 0xc),  // 0x6ec
        128 => (0x6, 0xe, 0xf),  // 0x6ef
        129 => (0x6, 0xf, 0x0),  // 0x6f0
        130 => (0x6, 0xf, 0x3),  // 0x6f3
        131 => (0x6, 0xf, 0x6),  // 0x6f6
        132 => (0x6, 0xf, 0x8),  // 0x6f8
        133 => (0x6, 0xf, 0xc),  // 0x6fc
        134 => (0x6, 0xf, 0xf),  // 0x6ff
        135 => (0x8, 0x0, 0x3),  // 0x803
        136 => (0x8, 0x0, 0x6),  // 0x806
        137 => (0x8, 0x0, 0xc),  // 0x80c
        138 => (0x8, 0x0, 0xf),  // 0x80f
        139 => (0x8, 0x2, 0x0),  // 0x820
        140 => (0x8, 0x2, 0x3),  // 0x823
        141 => (0x8, 0x2, 0x6),  // 0x826
        142 => (0x8, 0x2, 0x8),  // 0x828
        143 => (0x8, 0x2, 0xc),  // 0x82c
        144 => (0x8, 0x2, 0xf),  // 0x82f
        145 => (0x8, 0x4, 0x0),  // 0x840
        146 => (0x8, 0x4, 0x3),  // 0x843
        147 => (0x8, 0x4, 0x6),  // 0x846
        148 => (0x8, 0x4, 0x8),  // 0x848
        149 => (0x8, 0x4, 0xc),  // 0x84c
        150 => (0x8, 0x4, 0xf),  // 0x84f
        151 => (0x8, 0x8, 0x3),  // 0x883
        152 => (0x8, 0x8, 0x6),  // 0x886
        153 => (0x8, 0x8, 0xc),  // 0x88c
        154 => (0x8, 0x8, 0xf),  // 0x88f
        155 => (0x8, 0xa, 0x0),  // 0x8a0
        156 => (0x8, 0xa, 0x3),  // 0x8a3
        157 => (0x8, 0xa, 0x6),  // 0x8a6
        158 => (0x8, 0xa, 0x8),  // 0x8a8
        159 => (0x8, 0xa, 0xc),  // 0x8ac
        160 => (0x8, 0xa, 0xf),  // 0x8af
        161 => (0x8, 0xe, 0x0),  // 0x8e0
        162 => (0x8, 0xe, 0x3),  // 0x8e3
        163 => (0x8, 0xe, 0x6),  // 0x8e6
        164 => (0x8, 0xe, 0x8),  // 0x8e8
        165 => (0x8, 0xe, 0xc),  // 0x8ec
        166 => (0x8, 0xe, 0xf),  // 0x8ef
        167 => (0x8, 0xf, 0x0),  // 0x8f0
        168 => (0x8, 0xf, 0x3),  // 0x8f3
        169 => (0x8, 0xf, 0x6),  // 0x8f6
        170 => (0x8, 0xf, 0x8),  // 0x8f8
        171 => (0x8, 0xf, 0xc),  // 0x8fc
        172 => (0x8, 0xf, 0xf),  // 0x8ff
        173 => (0xc, 0x0, 0x0),  // 0xc00
        174 => (0xc, 0x0, 0x3),  // 0xc03
        175 => (0xc, 0x0, 0x6),  // 0xc06
        176 => (0xc, 0x0, 0x8),  // 0xc08
        177 => (0xc, 0x0, 0xc),  // 0xc0c
        178 => (0xc, 0x0, 0xf),  // 0xc0f
        179 => (0xc, 0x2, 0x0),  // 0xc20
        180 => (0xc, 0x2, 0x3),  // 0xc23
        181 => (0xc, 0x2, 0x6),  // 0xc26
        182 => (0xc, 0x2, 0x8),  // 0xc28
        183 => (0xc, 0x2, 0xc),  // 0xc2c
        184 => (0xc, 0x2, 0xf),  // 0xc2f
        185 => (0xc, 0x4, 0x0),  // 0xc40
        186 => (0xc, 0x4, 0x3),  // 0xc43
        187 => (0xc, 0x4, 0x6),  // 0xc46
        188 => (0xc, 0x4, 0x8),  // 0xc48
        189 => (0xc, 0x4, 0xc),  // 0xc4c
        190 => (0xc, 0x4, 0xf),  // 0xc4f
        191 => (0xc, 0x8, 0x0),  // 0xc80
        192 => (0xc, 0x8, 0x3),  // 0xc83
        193 => (0xc, 0x8, 0x6),  // 0xc86
        194 => (0xc, 0x8, 0x8),  // 0xc88
        195 => (0xc, 0x8, 0xc),  // 0xc8c
        196 => (0xc, 0x8, 0xf),  // 0xc8f
        197 => (0xc, 0xa, 0x0),  // 0xca0
        198 => (0xc, 0xa, 0x3),  // 0xca3
        199 => (0xc, 0xa, 0x6),  // 0xca6
        200 => (0xc, 0xa, 0x8),  // 0xca8
        201 => (0xc, 0xa, 0xc),  // 0xcac
        202 => (0xc, 0xa, 0xf),  // 0xcaf
        203 => (0xc, 0xe, 0x0),  // 0xce0
        204 => (0xc, 0xe, 0x3),  // 0xce3
        205 => (0xc, 0xe, 0x6),  // 0xce6
        206 => (0xc, 0xe, 0x8),  // 0xce8
        207 => (0xc, 0xe, 0xc),  // 0xcec
        208 => (0xc, 0xe, 0xf),  // 0xcef
        209 => (0xc, 0xf, 0x0),  // 0xcf0
        210 => (0xc, 0xf, 0x3),  // 0xcf3
        211 => (0xc, 0xf, 0x6),  // 0xcf6
        212 => (0xc, 0xf, 0x8),  // 0xcf8
        213 => (0xc, 0xf, 0xc),  // 0xcfc
        214 => (0xc, 0xf, 0xf),  // 0xcff
        215 => (0xf, 0x0, 0x3),  // 0xf03
        216 => (0xf, 0x0, 0x6),  // 0xf06
        217 => (0xf, 0x0, 0x8),  // 0xf08
        218 => (0xf, 0x0, 0xc),  // 0xf0c
        219 => (0xf, 0x2, 0x0),  // 0xf20
        220 => (0xf, 0x2, 0x3),  // 0xf23
        221 => (0xf, 0x2, 0x6),  // 0xf26
        222 => (0xf, 0x2, 0x8),  // 0xf28
        223 => (0xf, 0x2, 0xc),  // 0xf2c
        224 => (0xf, 0x2, 0xf),  // 0xf2f
        225 => (0xf, 0x4, 0x0),  // 0xf40
        226 => (0xf, 0x4, 0x3),  // 0xf43
        227 => (0xf, 0x4, 0x6),  // 0xf46
        228 => (0xf, 0x4, 0x8),  // 0xf48
        229 => (0xf, 0x4, 0xc),  // 0xf4c
        230 => (0xf, 0x4, 0xf),  // 0xf4f
        231 => (0xf, 0x8, 0x0),  // 0xf80
        232 => (0xf, 0x8, 0x3),  // 0xf83
        233 => (0xf, 0x8, 0x6),  // 0xf86
        234 => (0xf, 0x8, 0x8),  // 0xf88
        235 => (0xf, 0x8, 0xc),  // 0xf8c
        236 => (0xf, 0x8, 0xf),  // 0xf8f
        237 => (0xf, 0xa, 0x0),  // 0xfa0
        238 => (0xf, 0xa, 0x3),  // 0xfa3
        239 => (0xf, 0xa, 0x6),  // 0xfa6
        240 => (0xf, 0xa, 0x8),  // 0xfa8
        241 => (0xf, 0xa, 0xc),  // 0xfac
        242 => (0xf, 0xa, 0xf),  // 0xfaf
        243 => (0xf, 0xe, 0x0),  // 0xfe0
        244 => (0xf, 0xe, 0x3),  // 0xfe3
        245 => (0xf, 0xe, 0x6),  // 0xfe6
        246 => (0xf, 0xe, 0x8),  // 0xfe8
        247 => (0xf, 0xe, 0xc),  // 0xfec
        248 => (0xf, 0xe, 0xf),  // 0xfef
        249 => (0xf, 0xf, 0x3),  // 0xff3
        250 => (0xf, 0xf, 0x6),  // 0xff6
        251 => (0xf, 0xf, 0x8),  // 0xff8
        252 => (0xf, 0xf, 0xc),  // 0xffc
        253 => (0xb, 0xb, 0xb),  // 0xbbb
        254 => (0x3, 0x3, 0x3),  // 0x333
        _ => (0x7, 0x7, 0x7),  // 0x777
    }
}

/// The packed colour of palette entry `index`.
pub open spec fn palette_value(index: u8) -> int {
    pack_rgb(palette_rgb(index).0, palette_rgb(index).1, palette_rgb(index).2)
}

/// Palette entry `index`.
pub fn palette_entry(index: u8) -> (c: RGBColour)
    ensures
        c.0 == palette_value(index),
{
    match index {
        0 => RGBColour::new4(0x0, 0x0, 0x0),  // 0x000 (Black)
        1 => RGBColour::new4(0x8, 0x0, 0x0),  // 0x800 (Dark Red)
        2 => RGBColour::new4(0x0, 0x8, 0x0),  // 0x080 (Dark Green)
        3 => RGBColour::new4(0x8, 0x8, 0x0),  // 0x880 (Orange)
        4 => RGBColour::new4(0x0, 0x0, 0x8),  // 0x008 (Blue)
        5 => RGBColour::new4(0x8, 0x0, 0x8),  // 0x808 (Dark Magenta)
        6 => RGBColour::new4(0x0, 0x8, 0x8),  // 0x088 (Dark Cyan)
        7 => RGBColour::new4(0xc, 0xc, 0x0),  // 0xcc0 (Yellow)
        8 => RGBColour::new4(0x8, 0x8, 0x8),  // 0x888 (Grey)
        9 => RGBColour::new4(0xf, 0x0, 0x0),  // 0xf00 (Bright Red)
        10 => RGBColour::new4(0x0, 0xf, 0x0),  // 0x0f0 (Bright Green)
        11 => RGBColour::new4(0xf, 0xf, 0x0),  // 0xff0 (Bright Yellow)
        12 => RGBColour::new4(0x0, 0x0, 0xf),  // 0x00f (Bright Blue)
        13 => RGBColour::new4(0xf, 0x0, 0xf),  // 0xf0f (Bright Magenta)
        14 => RGBColour::new4(0x0, 0xf, 0xf),  // 0x0ff (Bright Cyan)
        15 => RGBColour::new4(0xf, 0xf, 0xf),  // 0xfff (White)
        16 => RGBColour::new4(0x0, 0x0, 0x3),  // 0x003
        17 => RGBColour::new4(0x0, 0x0, 0x6),  // 0x006
        18 => RGBColour::new4(0x0, 0x0, 0xc),  // 0x00c
        19 => RGBColour::new4(0x0, 0x2, 0x0),  // 0x020
        20 => RGBColour::new4(0x0, 0x2, 0x3),  // 0x023
        21 => RGBColour::new4(0x0, 0x2, 0x6),  // 0x026
        22 => RGBColour::new4(0x0, 0x2, 0x8),  // 0x028
        23 => RGBColour::new4(0x0, 0x2, 0xc),  // 0x02c
        24 => RGBColour::new4(0x0, 0x2, 0xf),  // 0x02f
        25 => RGBColour::new4(0x0, 0x4, 0x0),  // 0x040
        26 => RGBColour::new4(0x0, 0x4, 0x3),  // 0x043
        27 => RGBColour::new4(0x0, 0x4, 0x6),  // 0x046
        28 => RGBColour::new4(0x0, 0x4, 0x8),  // 0x048
        29 => RGBColour::new4(0x0, 0x4, 0xc),  // 0x04c
        30 => RGBColour::new4(0x0, 0x4, 0xf),  // 0x04f
        31 => RGBColour::new4(0x0, 0x8, 0x3),  // 0x083
        32 => RGBColour::new4(0x0, 0x8, 0x6),  // 0x086
        33 => RGBColour::new4(0x0, 0x8, 0xc),  // 0x08c
        34 => RGBColour::new4(0x0, 0x8, 0xf),  // 0x08f
        35 => RGBColour::new4(0x0, 0xa, 0x0),  // 0x0a0
        36 => RGBColour::new4(0x0, 0xa, 0x3),  // 0x0a3
        37 => RGBColour::new4(0x0, 0xa, 0x6),  // 0x0a6
        38 => RGBColour::new4(0x0, 0xa, 0x8),  // 0x0a8
        39 => RGBColour::new4(0x0, 0xa, 0xc),  // 0x0ac
        40 => RGBColour::new4(0x0, 0xa, 0xf),  // 0x0af
        41 => RGBColour::new4(0x0, 0xe, 0x0),  // 0x0e0
        42 => RGBColour::new4(0x0, 0xe, 0x3),  // 0x0e3
        43 => RGBColour::new4(0x0, 0xe, 0x6),  // 0x0e6
        44 => RGBColour::new4(0x0, 0xe, 0x8),  // 0x0e8
        45 => RGBColour::new4(0x0, 0xe, 0xc),  // 0x0ec
        46 => RGBColour::new4(0x0, 0xe, 0xf),  // 0x0ef
        47 => RGBColour::new4(0x0, 0xf, 0x3),  // 0x0f3
        48 => RGBColour::new4(0x0, 0xf, 0x6),  // 0x0f6
        49 => RGBColour::new4(0x0, 0xf, 0x8),  // 0x0f8
        50 => RGBColour::new4(0x0, 0xf, 0xc),  // 0x0fc
        51 => RGBColour::new4(0x3, 0x0, 0x0),  // 0x300
        52 => RGBColour::new4(0x3, 0x0, 0x3),  // 0x303
        53 => RGBColour::new4(0x3, 0x0, 0x6),  // 0x306
        54 => RGBColour::new4(0x3, 0x0, 0x8),  // 0x308
        55 => RGBColour::new4(0x3, 0x0, 0xc),  // 0x30c
        56 => RGBColour::new4(0x3, 0x0, 0xf),  // 0x30f
        57 => RGBColour::new4(0x3, 0x2, 0x0),  // 0x320
        58 => RGBColour::new4(0x3, 0x2, 0x3),  // 0x323
        59 => RGBColour::new4(0x3, 0x2, 0x6),  // 0x326
        60 => RGBColour::new4(0x3, 0x2, 0x8),  // 0x328
        61 => RGBColour::new4(0x3, 0x2, 0xc),  // 0x32c
        62 => RGBColour::new4(0x3, 0x2, 0xf),  // 0x32f
        63 => RGBColour::new4(0x3, 0x4, 0x0),  // 0x340
        64 => RGBColour::new4(0x3, 0x4, 0x3),  // 0x343
        65 => RGBColour::new4(0x3, 0x4, 0x6),  // 0x346
        66 => RGBColour::new4(0x3, 0x4, 0x8),  // 0x348
        67 => RGBColour::new4(0x3, 0x4, 0xc),  // 0x34c
        68 => RGBColour::new4(0x3, 0x4, 0xf),  // 0x34f
        69 => RGBColour::new4(0x3, 0x8, 0x0),  // 0x380
        70 => RGBColour::new4(0x3, 0x8, 0x3),  // 0x383
        71 => RGBColour::new4(0x3, 0x8, 0x6),  // 0x386
        72 => RGBColour::new4(0x3, 0x8, 0x8),  // 0x388
        73 => RGBColour::new4(0x3, 0x8, 0xc),  // 0x38c
        74 => RGBColour::new4(0x3, 0x8, 0xf),  // 0x38f
        75 => RGBColour::new4(0x3, 0xa, 0x0),  // 0x3a0
        76 => RGBColour::new4(0x3, 0xa, 0x3),  // 0x3a3
        77 => RGBColour::new4(0x3, 0xa, 0x6),  // 0x3a6
        78 => RGBColour::new4(0x3, 0xa, 0x8),  // 0x3a8
        79 => RGBColour::new4(0x3, 0xa, 0xc),  // 0x3ac
        80 => RGBColour::new4(0x3, 0xa, 0xf),  // 0x3af
        81 => RGBColour::new4(0x3, 0xe, 0x0),  // 0x3e0
        82 => RGBColour::new4(0x3, 0xe, 0x3),  // 0x3e3
        83 => RGBColour::new4(0x3, 0xe, 0x6),  // 0x3e6
        84 => RGBColour::new4(0x3, 0xe, 0x8),  // 0x3e8
        85 => RGBColour::new4(0x3, 0xe, 0xc),  // 0x3ec
        86 => RGBColour::new4(0x3, 0xe, 0xf),  // 0x3ef
        87 => RGBColour::new4(0x3, 0xf, 0x0),  // 0x3f0
        88 => RGBColour::new4(0x3, 0xf, 0x3),  // 0x3f3
        89 => RGBColour::new4(0x3, 0xf, 0x6),  // 0x3f6
        90 => RGBColour::new4(0x3, 0xf, 0x8),  // 0x3f8
        91 => RGBColour::new4(0x3, 0xf, 0xc),  // 0x3fc
        92 => RGBColour::new4(0x3, 0xf, 0xf),  // 0x3ff
        93 => RGBColour::new4(0x6, 0x0, 0x0),  // 0x600
        94 => RGBColour::new4(0x6, 0x0, 0x3),  // 0x603
        95 => RGBColour::new4(0x6, 0x0, 0x6),  // 0x606
        96 => RGBColour::new4(0x6, 0x0, 0x8),  // 0x608
        97 => RGBColour::new4(0x6, 0x0, 0xc),  // 0x60c
        98 => RGBColour::new4(0x6, 0x0, 0xf),  // 0x60f
        99 => RGBColour::new4(0x6, 0x2, 0x0),  // 0x620
        100 => RGBColour::new4(0x6, 0x2, 0x3),  // 0x623
        101 => RGBColour::new4(0x6, 0x2, 0x6),  // 0x626
        102 => RGBColour::new4(0x6, 0x2, 0x8),  // 0x628
        103 => RGBColour::new4(0x6, 0x2, 0xc),  // 0x62c
        104 => RGBColour::new4(0x6, 0x2, 0xf),  // 0x62f
        105 => RGBColour::new4(0x6, 0x4, 0x0),  // 0x640
        106 => RGBColour::new4(0x6, 0x4, 0x3),  // 0x643
        107 => RGBColour::new4(0x6, 0x4, 0x6),  // 0x646
        108 => RGBColour::new4(0x6, 0x4, 0x8),  // 0x648
        109 => RGBColour::new4(0x6, 0x4, 0xc),  // 0x64c
        110 => RGBColour::new4(0x6, 0x4, 0xf),  // 0x64f
        111 => RGBColour::new4(0x6, 0x8, 0x0),  // 0x680
        112 => RGBColour::new4(0x6, 0x8, 0x3),  // 0x683
        113 => RGBColour::new4(0x6, 0x8, 0x6),  // 0x686
        114 => RGBColour::new4(0x6, 0x8, 0x8),  // 0x688
        115 => RGBColour::new4(0x6, 0x8, 0xc),  // 0x68c
        116 => RGBColour::new4(0x6, 0x8, 0xf),  // 0x68f
        117 => RGBColour::new4(0x6, 0xa, 0x0),  // 0x6a0
        118 => RGBColour::new4(0x6, 0xa, 0x3),  // 0x6a3
        119 => RGBColour::new4(0x6, 0xa, 0x6),  // 0x6a6
        120 => RGBColour::new4(0x6, 0xa, 0x8),  // 0x6a8
        121 => RGBColour::new4(0x6, 0xa, 0xc),  // 0x6ac
        122 => RGBColour::new4(0x6, 0xa, 0xf),  // 0x6af
        123 => RGBColour::new4(0x6, 0xe, 0x0),  // 0x6e0
        124 => RGBColour::new4(0x6, 0xe, 0x3),  // 0x6e3
        125 => RGBColour::new4(0x6, 0xe, 0x6),  // 0x6e6
        126 => RGBColour::new4(0x6, 0xe, 0x8),  // 0x6e8
        127 => RGBColour::new4(0x6, 0xe, 0xc),  // 0x6ec
        128 => RGBColour::new4(0x6, 0xe, 0xf),  // 0x6ef
        129 => RGBColour::new4(0x6, 0xf, 0x0),  // 0x6f0
        130 => RGBColour::new4(0x6, 0xf, 0x3),  // 0x6f3
        131 => RGBColour::new4(0x6, 0xf, 0x6),  // 0x6f6
        132 => RGBColour::new4(0x6, 0xf, 0x8),  // 0x6f8
        133 => RGBColour::new4(0x6, 0xf, 0xc),  // 0x6fc
        134 => RGBColour::new4(0x6, 0xf, 0xf),  // 0x6ff
        135 => RGBColour::new4(0x8, 0x0, 0x3),  // 0x803
        136 => RGBColour::new4(0x8, 0x0, 0x6),  // 0x806
        137 => RGBColour::new4(0x8, 0x0, 0xc),  // 0x80c
        138 => RGBColour::new4(0x8, 0x0, 0xf),  // 0x80f
        139 => RGBColour::new4(0x8, 0x2, 0x0),  // 0x820
        140 => RGBColour::new4(0x8, 0x2, 0x3),  // 0x823
        141 => RGBColour::new4(0x8, 0x2, 0x6),  // 0x826
        142 => RGBColour::new4(0x8, 0x2, 0x8),  // 0x828
        143 => RGBColour::new4(0x8, 0x2, 0xc),  // 0x82c
        144 => RGBColour::new4(0x8, 0x2, 0xf),  // 0x82f
        145 => RGBColour::new4(0x8, 0x4, 0x0),  // 0x840
        146 => RGBColour::new4(0x8, 0x4, 0x3),  // 0x843
        147 => RGBColour::new4(0x8, 0x4, 0x6),  // 0x846
        148 => RGBColour::new4(0x8, 0x4, 0x8),  // 0x848
        149 => RGBColour::new4(0x8, 0x4, 0xc),  // 0x84c
        150 => RGBColour::new4(0x8, 0x4, 0xf),  // 0x84f
        151 => RGBColour::new4(0x8, 0x8, 0x3),  // 0x883
        152 => RGBColour::new4(0x8, 0x8, 0x6),  // 0x886
        153 => RGBColour::new4(0x8, 0x8, 0xc),  // 0x88c
        154 => RGBColour::new4(0x8, 0x8, 0xf),  // 0x88f
        155 => RGBColour::new4(0x8, 0xa, 0x0),  // 0x8a0
        156 => RGBColour::new4(0x8, 0xa, 0x3),  // 0x8a3
        157 => RGBColour::new4(0x8, 0xa, 0x6),  // 0x8a6
        158 => RGBColour::new4(0x8, 0xa, 0x8),  // 0x8a8
        159 => RGBColour::new4(0x8, 0xa, 0xc),  // 0x8ac
        160 => RGBColour::new4(0x8, 0xa, 0xf),  // 0x8af
        161 => RGBColour::new4(0x8, 0xe, 0x0),  // 0x8e0
        162 => RGBColour::new4(0x8, 0xe, 0x3),  // 0x8e3
        163 => RGBColour::new4(0x8, 0xe, 0x6),  // 0x8e6
        164 => RGBColour::new4(0x8, 0xe, 0x8),  // 0x8e8
        165 => RGBColour::new4(0x8, 0xe, 0xc),  // 0x8ec
        166 => RGBColour::new4(0x8, 0xe, 0xf),  // 0x8ef
        167 => RGBColour::new4(0x8, 0xf, 0x0),  // 0x8f0
        168 => RGBColour::new4(0x8, 0xf, 0x3),  // 0x8f3
        169 => RGBColour::new4(0x8, 0xf, 0x6),  // 0x8f6
        170 => RGBColour::new4(0x8, 0xf, 0x8),  // 0x8f8
        171 => RGBColour::new4(0x8, 0xf, 0xc),  // 0x8fc
        172 => RGBColour::new4(0x8, 0xf, 0xf),  // 0x8ff
        173 => RGBColour::new4(0xc, 0x0, 0x0),  // 0xc00
        174 => RGBColour::new4(0xc, 0x0, 0x3),  // 0xc03
        175 => RGBColour::new4(0xc, 0x0, 0x6),  // 0xc06
        176 => RGBColour::new4(0xc, 0x0, 0x8),  // 0xc08
        177 => RGBColour::new4(0xc, 0x0, 0xc),  // 0xc0c
        178 => RGBColour::new4(0xc, 0x0, 0xf),  // 0xc0f
        179 => RGBColour::new4(0xc, 0x2, 0x0),  // 0xc20
        180 => RGBColour::new4(0xc, 0x2, 0x3),  // 0xc23
        181 => RGBColour::new4(0xc, 0x2, 0x6),  // 0xc26
        182 => RGBColour::new4(0xc, 0x2, 0x8),  // 0xc28
        183 => RGBColour::new4(0xc, 0x2, 0xc),  // 0xc2c
        184 => RGBColour::new4(0xc, 0x2, 0xf),  // 0xc2f
        185 => RGBColour::new4(0xc, 0x4, 0x0),  // 0xc40
        186 => RGBColour::new4(0xc, 0x4, 0x3),  // 0xc43
        187 => RGBColour::new4(0xc, 0x4, 0x6),  // 0xc46
        188 => RGBColour::new4(0xc, 0x4, 0x8),  // 0xc48
        189 => RGBColour::new4(0xc, 0x4, 0xc),  // 0xc4c
        190 => RGBColour::new4(0xc, 0x4, 0xf),  // 0xc4f
        191 => RGBColour::new4(0xc, 0x8, 0x0),  // 0xc80
        192 => RGBColour::new4(0xc, 0x8, 0x3),  // 0xc83
        193 => RGBColour::new4(0xc, 0x8, 0x6),  // 0xc86
        194 => RGBColour::new4(0xc, 0x8, 0x8),  // 0xc88
        195 => RGBColour::new4(0xc, 0x8, 0xc),  // 0xc8c
        196 => RGBColour::new4(0xc, 0x8, 0xf),  // 0xc8f
        197 => RGBColour::new4(0xc, 0xa, 0x0),  // 0xca0
        198 => RGBColour::new4(0xc, 0xa, 0x3),  // 0xca3
        199 => RGBColour::new4(0xc, 0xa, 0x6),  // 0xca6
        200 => RGBColour::new4(0xc, 0xa, 0x8),  // 0xca8
        201 => RGBColour::new4(0xc, 0xa, 0xc),  // 0xcac
        202 => RGBColour::new4(0xc, 0xa, 0xf),  // 0xcaf
        203 => RGBColour::new4(0xc, 0xe, 0x0),  // 0xce0
        204 => RGBColour::new4(0xc, 0xe, 0x3),  // 0xce3
        205 => RGBColour::new4(0xc, 0xe, 0x6),  // 0xce6
        206 => RGBColour::new4(0xc, 0xe, 0x8),  // 0xce8
        207 => RGBColour::new4(0xc, 0xe, 0xc),  // 0xcec
        208 => RGBColour::new4(0xc, 0xe, 0xf),  // 0xcef
        209 => RGBColour::new4(0xc, 0xf, 0x0),  // 0xcf0
        210 => RGBColour::new4(0xc, 0xf, 0x3),  // 0xcf3
        211 => RGBColour::new4(0xc, 0xf, 0x6),  // 0xcf6
        212 => RGBColour::new4(0xc, 0xf, 0x8),  // 0xcf8
        213 => RGBColour::new4(0xc, 0xf, 0xc),  // 0xcfc
        214 => RGBColour::new4(0xc, 0xf, 0xf),  // 0xcff
        215 => RGBColour::new4(0xf, 0x0, 0x3),  // 0xf03
        216 => RGBColour::new4(0xf, 0x0, 0x6),  // 0xf06
        217 => RGBColour::new4(0xf, 0x0, 0x8),  // 0xf08
        218 => RGBColour::new4(0xf, 0x0, 0xc),  // 0xf0c
        219 => RGBColour::new4(0xf, 0x2, 0x0),  // 0xf20
        220 => RGBColour::new4(0xf, 0x2, 0x3),  // 0xf23
        221 => RGBColour::new4(0xf, 0x2, 0x6),  // 0xf26
        222 => RGBColour::new4(0xf, 0x2, 0x8),  // 0xf28
        223 => RGBColour::new4(0xf, 0x2, 0xc),  // 0xf2c
        224 => RGBColour::new4(0xf, 0x2, 0xf),  // 0xf2f
        225 => RGBColour::new4(0xf, 0x4, 0x0),  // 0xf40
        226 => RGBColour::new4(0xf, 0x4, 0x3),  // 0xf43
        227 => RGBColour::new4(0xf, 0x4, 0x6),  // 0xf46
        228 => RGBColour::new4(0xf, 0x4, 0x8),  // 0xf48
        229 => RGBColour::new4(0xf, 0x4, 0xc),  // 0xf4c
        230 => RGBColour::new4(0xf, 0x4, 0xf),  // 0xf4f
        231 => RGBColour::new4(0xf, 0x8, 0x0),  // 0xf80
        232 => RGBColour::new4(0xf, 0x8, 0x3),  // 0xf83
        233 => RGBColour::new4(0xf, 0x8, 0x6),  // 0xf86
        234 => RGBColour::new4(0xf, 0x8, 0x8),  // 0xf88
        235 => RGBColour::new4(0xf, 0x8, 0xc),  // 0xf8c
        236 => RGBColour::new4(0xf, 0x8, 0xf),  // 0xf8f
        237 => RGBColour::new4(0xf, 0xa, 0x0),  // 0xfa0
        238 => RGBColour::new4(0xf, 0xa, 0x3),  // 0xfa3
        239 => RGBColour::new4(0xf, 0xa, 0x6),  // 0xfa6
        240 => RGBColour::new4(0xf, 0xa, 0x8),  // 0xfa8
        241 => RGBColour::new4(0xf, 0xa, 0xc),  // 0xfac
        242 => RGBColour::new4(0xf, 0xa, 0xf),  // 0xfaf
        243 => RGBColour::new4(0xf, 0xe, 0x0),  // 0xfe0
        244 => RGBColour::new4(0xf, 0xe, 0x3),  // 0xfe3
        245 => RGBColour::new4(0xf, 0xe, 0x6),  // 0xfe6
        246 => RGBColour::new4(0xf, 0xe, 0x8),  // 0xfe8
        247 => RGBColour::new4(0xf, 0xe, 0xc),  // 0xfec
        248 => RGBColour::new4(0xf, 0xe, 0xf),  // 0xfef
        249 => RGBColour::new4(0xf, 0xf, 0x3),  // 0xff3
        250 => RGBColour::new4(0xf, 0xf, 0x6),  // 0xff6
        251 => RGBColour::new4(0xf, 0xf, 0x8),  // 0xff8
        252 => RGBColour::new4(0xf, 0xf, 0xc),  // 0xffc
        253 => RGBColour::new4(0xb, 0xb, 0xb),  // 0xbbb
        254 => RGBColour::new4(0x3, 0x3, 0x3),  // 0x333
        255 => RGBColour::new4(0x7, 0x7, 0x7),  // 0x777
    }
}

/// The whole palette, in index order.
pub fn video_palette() -> (p: Vec<RGBColour>)
    ensures
        p@.len() == 256,
        forall|i: int| 0 <= i < 256 ==> #[trigger] p@[i].0 == palette_value(i as u8),
{
    let mut p: Vec<RGBColour> = Vec::new();
    let mut i: u16 = 0;
    while i < 256
        invariant
            i <= 256,
            p@.len() == i,
            forall|j: int| 0 <= j < i ==> #[trigger] p@[j].0 == palette_value(j as u8),
        decreases 256 - i,
    {
        p.push(palette_entry(i as u8));
        i = i + 1;
    }
    p
}

} // verus!
