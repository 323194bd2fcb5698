//! Fonts, and the mapping from characters to the glyphs of Code Page 850.

use vstd::prelude::*;
use crate::text::Glyph;

verus! {

/// A font of 256 glyphs, each 8 pixels wide and 8 or 16 pixels high.
pub struct Font<'a> {
    /// The height of a glyph is `1 << height_shift`.
    pub height_shift: u8,
    /// The rows of pixels, all the row 0s first, then all the row 1s, and
    /// so on. A set bit is a foreground pixel; bit 7 is the leftmost.
    pub data: &'a [u8],
}

/// The glyph of Code Page 850 that shows a character, if it has one.
pub open spec fn cp850_glyph(input: char) -> Option<Glyph> {
    if input as u32 <= 127 {
        Some(Glyph(input as u8))
    } else {
        match input {
        '\u{00A0}' => Some(Glyph(255)),  // NBSP
        '\u{00A1}' => Some(Glyph(173)),  // ¡
        '\u{00A2}' => Some(Glyph(189)),  // ¢
        '\u{00A3}' => Some(Glyph(156)),  // £
        '\u{00A4}' => Some(Glyph(207)),  // ¤
        '\u{00A5}' => Some(Glyph(190)),  // ¥
        '\u{00A6}' => Some(Glyph(221)),  // ¦
        '\u{00A7}' => Some(Glyph(245)),  // §
        '\u{00A8}' => Some(Glyph(249)),  // ¨
        '\u{00A9}' => Some(Glyph(184)),  // ©
        '\u{00AA}' => Some(Glyph(166)),  // ª
        '\u{00AB}' => Some(Glyph(174)),  // «
        '\u{00AC}' => Some(Glyph(170)),  // ¬
        '\u{00AD}' => Some(Glyph(240)),  // SHY
        '\u{00AE}' => Some(Glyph(169)),  // ®
        '\u{00AF}' => Some(Glyph(238)),  // ¯
        '\u{00B0}' => Some(Glyph(248)),  // °
        '\u{00B1}' => Some(Glyph(241)),  // ±
        '\u{00B2}' => Some(Glyph(253)),  // ²
        '\u{00B3}' => Some(Glyph(252)),  // ³
        '\u{00B4}' => Some(Glyph(239)),  // ´
        '\u{00B5}' => Some(Glyph(230)),  // µ
        '\u{00B6}' => Some(Glyph(244)),  // ¶
        '\u{00B7}' => Some(Glyph(250)),  // ·
        '\u{00B8}' => Some(Glyph(247)),  // ¸
        '\u{00B9}' => Some(Glyph(251)),  // ¹
        '\u{00BA}' => Some(Glyph(167)),  // º
        '\u{00BB}' => Some(Glyph(175)),  // »
        '\u{00BC}' => Some(Glyph(172)),  // ¼
        '\u{00BD}' => Some(Glyph(171)),  // ½
        '\u{00BE}' => Some(Glyph(243)),  // ¾
        '\u{00BF}' => Some(Glyph(168)),  // ¿
        '\u{00C0}' => Some(Glyph(183)),  // À
        '\u{00C1}' => Some(Glyph(181)),  // Á
        '\u{00C2}' => Some(Glyph(182)),  // Â
        '\u{00C3}' => Some(Glyph(199)),  // Ã
        '\u{00C4}' => Some(Glyph(142)),  // Ä
        '\u{00C5}' => Some(Glyph(143)),  // Å
        '\u{00C6}' => Some(Glyph(146)),  // Æ
        '\u{00C7}' => Some(Glyph(128)),  // Ç
        '\u{00C8}' => Some(Glyph(212)),  // È
        '\u{00C9}' => Some(Glyph(144)),  // É
        '\u{00CA}' => Some(Glyph(210)),  // Ê
        '\u{00CB}' => Some(Glyph(211)),  // Ë
        '\u{00CC}' => Some(Glyph(222)),  // Ì
        '\u{00CD}' => Some(Glyph(214)),  // Í
        '\u{00CE}' => Some(Glyph(215)),  // Î
        '\u{00CF}' => Some(Glyph(216)),  // Ï
        '\u{00D0}' => Some(Glyph(209)),  // Ð
        '\u{00D1}' => Some(Glyph(165)),  // Ñ
        '\u{00D2}' => Some(Glyph(227)),  // Ò
        '\u{00D3}' => Some(Glyph(224)),  // Ó
        '\u{00D4}' => Some(Glyph(226)),  // Ô
        '\u{00D5}' => Some(Glyph(229)),  // Õ
        '\u{00D6}' => Some(Glyph(153)),  // Ö
        '\u{00D7}' => Some(Glyph(158)),  // ×
        '\u{00D8}' => Some(Glyph(157)),  // Ø
        '\u{00D9}' => Some(Glyph(235)),  // Ù
        '\u{00DA}' => Some(Glyph(233)),  // Ú
        '\u{00DB}' => Some(Glyph(234)),  // Û
        '\u{00DC}' => Some(Glyph(154)),  // Ü
        '\u{00DD}' => Some(Glyph(237)),  // Ý
        '\u{00DE}' => Some(Glyph(232)),  // Þ
        '\u{00DF}' => Some(Glyph(225)),  // ß
        '\u{00E0}' => Some(Glyph(133)),  // à
        '\u{00E1}' => Some(Glyph(160)),  // á
        '\u{00E2}' => Some(Glyph(131)),  // â
        '\u{00E3}' => Some(Glyph(198)),  // ã
        '\u{00E4}' => Some(Glyph(132)),  // ä
        '\u{00E5}' => Some(Glyph(134)),  // å
        '\u{00E6}' => Some(Glyph(145)),  // æ
        '\u{00E7}' => Some(Glyph(135)),  // ç
        '\u{00E8}' => Some(Glyph(138)),  // è
        '\u{00E9}' => Some(Glyph(130)),  // é
        '\u{00EA}' => Some(Glyph(136)),  // ê
        '\u{00EB}' => Some(Glyph(137)),  // ë
        '\u{00EC}' => Some(Glyph(141)),  // ì
        '\u{00ED}' => Some(Glyph(161)),  // í
        '\u{00EE}' => Some(Glyph(140)),  // î
        '\u{00EF}' => Some(Glyph(139)),  // ï
        '\u{00F0}' => Some(Glyph(208)),  // ð
        '\u{00F1}' => Some(Glyph(164)),  // ñ
        '\u{00F2}' => Some(Glyph(149)),  // ò
        '\u{00F3}' => Some(Glyph(162)),  // ó
        '\u{00F4}' => Some(Glyph(147)),  // ô
        '\u{00F5}' => Some(Glyph(228)),  // õ
        '\u{00F6}' => Some(Glyph(148)),  // ö
        '\u{00F7}' => Some(Glyph(246)),  // ÷
        '\u{00F8}' => Some(Glyph(155)),  // ø
        '\u{00F9}' => Some(Glyph(151)),  // ù
        '\u{00FA}' => Some(Glyph(163)),  // ú
        '\u{00FB}' => Some(Glyph(150)),  // û
        '\u{00FC}' => Some(Glyph(129)),  // ü
        '\u{00FD}' => Some(Glyph(236)),  // ý
        '\u{00FE}' => Some(Glyph(231)),  // þ
        '\u{00FF}' => Some(Glyph(152)),  // ÿ
        '\u{0131}' => Some(Glyph(213)),  // ı
        '\u{0192}' => Some(Glyph(159)),  // ƒ
        '\u{2017}' => Some(Glyph(242)),  // ‗
        '\u{2500}' => Some(Glyph(196)),  // ─
        '\u{2502}' => Some(Glyph(179)),  // │
        '\u{250C}' => Some(Glyph(218)),  // ┌
        '\u{2510}' => Some(Glyph(191)),  // ┐
        '\u{2514}' => Some(Glyph(192)),  // └
        '\u{2518}' => Some(Glyph(217)),  // ┘
        '\u{251C}' => Some(Glyph(195)),  // ├
        '\u{2524}' => Some(Glyph(180)),  // ┤
        '\u{252C}' => Some(Glyph(194)),  // ┬
        '\u{2534}' => Some(Glyph(193)),  // ┴
        '\u{253C}' => Some(Glyph(197)),  // ┼
        '\u{2550}' => Some(Glyph(205)),  // ═
        '\u{2551}' => Some(Glyph(186)),  // ║
        '\u{2554}' => Some(Glyph(201)),  // ╔
        '\u{2557}' => Some(Glyph(187)),  // ╗
        '\u{255A}' => Some(Glyph(200)),  // ╚
        '\u{255D}' => Some(Glyph(188)),  // ╝
        '\u{2560}' => Some(Glyph(204)),  // ╠
        '\u{2563}' => Some(Glyph(185)),  // ╣
        '\u{2566}' => Some(Glyph(203)),  // ╦
        '\u{2569}' => Some(Glyph(202)),  // ╩
        '\u{256C}' => Some(Glyph(206)),  // ╬
        '\u{2580}' => Some(Glyph(223)),  // ▀
        '\u{2584}' => Some(Glyph(220)),  // ▄
        '\u{2588}' => Some(Glyph(219)),  // █
        '\u{2591}' => Some(Glyph(176)),  // ░
        '\u{2592}' => Some(Glyph(177)),  // ▒
        '\u{2593}' => Some(Glyph(178)),  // ▓
        '\u{25A0}' => Some(Glyph(254)),  // ■
        _ => None,
        }
    }
}

impl<'a> Font<'a> {
    /// The height of a glyph in pixels.
    pub open spec fn height(&self) -> int {
        if self.height_shift == 3 { 8 } else { 16 }
    }

    /// A font is 8 or 16 pixels high and holds 256 bytes per pixel row.
    pub open spec fn wf(&self) -> bool {
        &&& (self.height_shift == 3 || self.height_shift == 4)
        &&& self.data@.len() == 256 * self.height()
    }

    /// The glyph of Code Page 850 that shows a character, if it has one.
    ///
    /// Zero-width and combining characters are not supported: normalise text
    /// before it gets here.
    pub fn convert_char(input: char) -> (r: Option<Glyph>)
        ensures
            r == cp850_glyph(input),
    {
        if input as u32 <= 127 {
            Some(Glyph(input as u8))
        } else {
            match input {
                '\u{00A0}' => Some(Glyph(255)),  // NBSP
                '\u{00A1}' => Some(Glyph(173)),  // ¡
                '\u{00A2}' => Some(Glyph(189)),  // ¢
                '\u{00A3}' => Some(Glyph(156)),  // £
                '\u{00A4}' => Some(Glyph(207)),  // ¤
                '\u{00A5}' => Some(Glyph(190)),  // ¥
                '\u{00A6}' => Some(Glyph(221)),  // ¦
                '\u{00A7}' => Some(Glyph(245)),  // §
                '\u{00A8}' => Some(Glyph(249)),  // ¨
                '\u{00A9}' => Some(Glyph(184)),  // ©
                '\u{00AA}' => Some(Glyph(166)),  // ª
                '\u{00AB}' => Some(Glyph(174)),  // «
                '\u{00AC}' => Some(Glyph(170)),  // ¬
                '\u{00AD}' => Some(Glyph(240)),  // SHY
                '\u{00AE}' => Some(Glyph(169)),  // ®
                '\u{00AF}' => Some(Glyph(238)),  // ¯
                '\u{00B0}' => Some(Glyph(248)),  // °
                '\u{00B1}' => Some(Glyph(241)),  // ±
                '\u{00B2}' => Some(Glyph(253)),  // ²
                '\u{00B3}' => Some(Glyph(252)),  // ³
                '\u{00B4}' => Some(Glyph(239)),  // ´
                '\u{00B5}' => Some(Glyph(230)),  // µ
                '\u{00B6}' => Some(Glyph(244)),  // ¶
                '\u{00B7}' => Some(Glyph(250)),  // ·
                '\u{00B8}' => Some(Glyph(247)),  // ¸
                '\u{00B9}' => Some(Glyph(251)),  // ¹
                '\u{00BA}' => Some(Glyph(167)),  // º
                '\u{00BB}' => Some(Glyph(175)),  // »
                '\u{00BC}' => Some(Glyph(172)),  // ¼
                '\u{00BD}' => Some(Glyph(171)),  // ½
                '\u{00BE}' => Some(Glyph(243)),  // ¾
                '\u{00BF}' => Some(Glyph(168)),  // ¿
                '\u{00C0}' => Some(Glyph(183)),  // À
                '\u{00C1}' => Some(Glyph(181)),  // Á
                '\u{00C2}' => Some(Glyph(182)),  // Â
                '\u{00C3}' => Some(Glyph(199)),  // Ã
                '\u{00C4}' => Some(Glyph(142)),  // Ä
                '\u{00C5}' => Some(Glyph(143)),  // Å
                '\u{00C6}' => Some(Glyph(146)),  // Æ
                '\u{00C7}' => Some(Glyph(128)),  // Ç
                '\u{00C8}' => Some(Glyph(212)),  // È
                '\u{00C9}' => Some(Glyph(144)),  // É
                '\u{00CA}' => Some(Glyph(210)),  // Ê
                '\u{00CB}' => Some(Glyph(211)),  // Ë
                '\u{00CC}' => Some(Glyph(222)),  // Ì
                '\u{00CD}' => Some(Glyph(214)),  // Í
                '\u{00CE}' => Some(Glyph(215)),  // Î
                '\u{00CF}' => Some(Glyph(216)),  // Ï
                '\u{00D0}' => Some(Glyph(209)),  // Ð
                '\u{00D1}' => Some(Glyph(165)),  // Ñ
                '\u{00D2}' => Some(Glyph(227)),  // Ò
                '\u{00D3}' => Some(Glyph(224)),  // Ó
                '\u{00D4}' => Some(Glyph(226)),  // Ô
                '\u{00D5}' => Some(Glyph(229)),  // Õ
                '\u{00D6}' => Some(Glyph(153)),  // Ö
                '\u{00D7}' => Some(Glyph(158)),  // ×
                '\u{00D8}' => Some(Glyph(157)),  // Ø
                '\u{00D9}' => Some(Glyph(235)),  // Ù
                '\u{00DA}' => Some(Glyph(233)),  // Ú
                '\u{00DB}' => Some(Glyph(234)),  // Û
                '\u{00DC}' => Some(Glyph(154)),  // Ü
                '\u{00DD}' => Some(Glyph(237)),  // Ý
                '\u{00DE}' => Some(Glyph(232)),  // Þ
                '\u{00DF}' => Some(Glyph(225)),  // ß
                '\u{00E0}' => Some(Glyph(133)),  // à
                '\u{00E1}' => Some(Glyph(160)),  // á
                '\u{00E2}' => Some(Glyph(131)),  // â
                '\u{00E3}' => Some(Glyph(198)),  // ã
                '\u{00E4}' => Some(Glyph(132)),  // ä
                '\u{00E5}' => Some(Glyph(134)),  // å
                '\u{00E6}' => Some(Glyph(145)),  // æ
                '\u{00E7}' => Some(Glyph(135)),  // ç
                '\u{00E8}' => Some(Glyph(138)),  // è
                '\u{00E9}' => Some(Glyph(130)),  // é
                '\u{00EA}' => Some(Glyph(136)),  // ê
                '\u{00EB}' => Some(Glyph(137)),  // ë
                '\u{00EC}' => Some(Glyph(141)),  // ì
                '\u{00ED}' => Some(Glyph(161)),  // í
                '\u{00EE}' => Some(Glyph(140)),  // î
                '\u{00EF}' => Some(Glyph(139)),  // ï
                '\u{00F0}' => Some(Glyph(208)),  // ð
                '\u{00F1}' => Some(Glyph(164)),  // ñ
                '\u{00F2}' => Some(Glyph(149)),  // ò
                '\u{00F3}' => Some(Glyph(162)),  // ó
                '\u{00F4}' => Some(Glyph(147)),  // ô
                '\u{00F5}' => Some(Glyph(228)),  // õ
                '\u{00F6}' => Some(Glyph(148)),  // ö
                '\u{00F7}' => Some(Glyph(246)),  // ÷
                '\u{00F8}' => Some(Glyph(155)),  // ø
                '\u{00F9}' => Some(Glyph(151)),  // ù
                '\u{00FA}' => Some(Glyph(163)),  // ú
                '\u{00FB}' => Some(Glyph(150)),  // û
                '\u{00FC}' => Some(Glyph(129)),  // ü
                '\u{00FD}' => Some(Glyph(236)),  // ý
                '\u{00FE}' => Some(Glyph(231)),  // þ
                '\u{00FF}' => Some(Glyph(152)),  // ÿ
                '\u{0131}' => Some(Glyph(213)),  // ı
                '\u{0192}' => Some(Glyph(159)),  // ƒ
                '\u{2017}' => Some(Glyph(242)),  // ‗
                '\u{2500}' => Some(Glyph(196)),  // ─
                '\u{2502}' => Some(Glyph(179)),  // │
                '\u{250C}' => Some(Glyph(218)),  // ┌
                '\u{2510}' => Some(Glyph(191)),  // ┐
                '\u{2514}' => Some(Glyph(192)),  // └
                '\u{2518}' => Some(Glyph(217)),  // ┘
                '\u{251C}' => Some(Glyph(195)),  // ├
                '\u{2524}' => Some(Glyph(180)),  // ┤
                '\u{252C}' => Some(Glyph(194)),  // ┬
                '\u{2534}' => Some(Glyph(193)),  // ┴
                '\u{253C}' => Some(Glyph(197)),  // ┼
                '\u{2550}' => Some(Glyph(205)),  // ═
                '\u{2551}' => Some(Glyph(186)),  // ║
                '\u{2554}' => Some(Glyph(201)),  // ╔
                '\u{2557}' => Some(Glyph(187)),  // ╗
                '\u{255A}' => Some(Glyph(200)),  // ╚
                '\u{255D}' => Some(Glyph(188)),  // ╝
                '\u{2560}' => Some(Glyph(204)),  // ╠
                '\u{2563}' => Some(Glyph(185)),  // ╣
                '\u{2566}' => Some(Glyph(203)),  // ╦
                '\u{2569}' => Some(Glyph(202)),  // ╩
                '\u{256C}' => Some(Glyph(206)),  // ╬
                '\u{2580}' => Some(Glyph(223)),  // ▀
                '\u{2584}' => Some(Glyph(220)),  // ▄
                '\u{2588}' => Some(Glyph(219)),  // █
                '\u{2591}' => Some(Glyph(176)),  // ░
                '\u{2592}' => Some(Glyph(177)),  // ▒
                '\u{2593}' => Some(Glyph(178)),  // ▓
                '\u{25A0}' => Some(Glyph(254)),  // ■
                _ => None,
            }
        }
    }
}

} // verus!
