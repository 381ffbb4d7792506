//! Face names in the wide-character form that the graphics subsystem takes,
//! and the logical font that asks for a face by name.

use vstd::prelude::*;

verus! {

/// First code point that takes two UTF-16 code units.
pub const SUPPLEMENTARY_START: u32 = 0x1_0000;

/// Base of the leading (high) surrogates.
pub const HIGH_SURROGATE_BASE: u32 = 0xD800;

/// Base of the trailing (low) surrogates.
pub const LOW_SURROGATE_BASE: u32 = 0xDC00;

/// Number of code points that share one leading surrogate.
pub const SURROGATE_BLOCK: u32 = 0x400;

/// The UTF-16 code units of one character: the character itself inside the
/// basic plane, a surrogate pair beyond it.
pub open spec fn utf16_of_char(c: char) -> Seq<u16> {
    let v = c as int;
    if v < SUPPLEMENTARY_START {
        seq![v as u16]
    } else {
        let offset = v - SUPPLEMENTARY_START;
        seq![
            (HIGH_SURROGATE_BASE + offset / (SURROGATE_BLOCK as int)) as u16,
            (LOW_SURROGATE_BASE + offset % (SURROGATE_BLOCK as int)) as u16,
        ]
    }
}

/// The UTF-16 code units of a string, character by character.
pub open spec fn utf16_units(s: Seq<char>) -> Seq<u16>
    decreases s.len(),
{
    if s.len() == 0 {
        Seq::<u16>::empty()
    } else {
        utf16_units(s.drop_last()) + utf16_of_char(s.last())
    }
}

/// A face name as the operating system takes it: its UTF-16 code units,
/// closed by a zero.
pub open spec fn wide_name_spec(name: Seq<char>) -> Seq<u16> {
    utf16_units(name).push(0u16)
}

/// Appends the UTF-16 code units of `c` to `out`.
pub fn push_utf16(out: &mut Vec<u16>, c: char)
    ensures
        final(out)@ == old(out)@ + utf16_of_char(c),
{
    let v: u32 = c as u32;
    if v < SUPPLEMENTARY_START {
        out.push(v as u16);
    } else {
        let offset: u32 = v - SUPPLEMENTARY_START;
        let high: u32 = HIGH_SURROGATE_BASE + offset / SURROGATE_BLOCK;
        let low: u32 = LOW_SURROGATE_BASE + offset % SURROGATE_BLOCK;
        out.push(high as u16);
        out.push(low as u16);
    }
}

/// Encodes a face name for the operating system: UTF-16, zero-terminated.
pub fn wide_face_name(name: &str) -> (wide: Vec<u16>)
    ensures
        wide@ == wide_name_spec(name@),
{
    let mut wide: Vec<u16> = Vec::new();
    for c in iter: name.chars()
        invariant
            iter.seq() == name@,
            wide@ == utf16_units(name@.take(iter.index() as int)),
    {
        push_utf16(&mut wide, c);
        assert(name@.take(iter.index() + 1).drop_last() =~= name@.take(iter.index() as int));
    }
    assert(name@.take(name@.len() as int) =~= name@);
    wide.push(0u16);
    wide
}

/// The encoding of a character is one unit outside the surrogate range, or
/// a leading and a trailing surrogate from which the character is read back.
pub proof fn lemma_utf16_of_char_decodes(c: char)
    ensures
        (c as int) < 0x1_0000 ==> {
            &&& utf16_of_char(c).len() == 1
            &&& utf16_of_char(c)[0] as int == c as int
            &&& !(0xD800 <= utf16_of_char(c)[0] <= 0xDFFF)
        },
        (c as int) >= 0x1_0000 ==> {
            &&& utf16_of_char(c).len() == 2
            &&& 0xD800 <= utf16_of_char(c)[0] <= 0xDBFF
            &&& 0xDC00 <= utf16_of_char(c)[1] <= 0xDFFF
            &&& 0x1_0000 + (utf16_of_char(c)[0] - 0xD800) * 0x400 + (utf16_of_char(c)[1] - 0xDC00)
                == c as int
        },
{
}

/// Weight of a font that is neither light nor bold.
pub const FW_NORMAL: i32 = 400;

/// Character set chosen by the system from the face name and the locale.
pub const DEFAULT_CHARSET: u32 = 1;

/// Output precision that leaves the choice of font to the mapper.
pub const OUT_DEFAULT_PRECIS: u32 = 0;

/// Clipping precision that leaves clipping to the system.
pub const CLIP_DEFAULT_PRECIS: u32 = 0;

/// Output quality that does not matter.
pub const DEFAULT_QUALITY: u32 = 0;

/// Pitch that the font itself decides.
pub const DEFAULT_PITCH: u32 = 0;

/// Font family that does not matter.
pub const FF_DONTCARE: u32 = 0;

/// A logical font: the description from which the operating system creates
/// a font object.
#[derive(Clone, Debug, PartialEq, Eq)]
pub struct LogicalFont {
    /// Height of the character cell; zero asks for the default.
    pub height: i32,
    /// Average character width; zero asks for the closest match.
    pub width: i32,
    /// Angle of the baseline, in tenths of a degree.
    pub escapement: i32,
    /// Angle of each character, in tenths of a degree.
    pub orientation: i32,
    /// Weight, from 0 to 1000.
    pub weight: i32,
    /// Non-zero for an italic font.
    pub italic: u32,
    /// Non-zero for an underlined font.
    pub underline: u32,
    /// Non-zero for a struck-out font.
    pub strike_out: u32,
    /// Character set.
    pub charset: u32,
    /// Output precision.
    pub out_precision: u32,
    /// Clipping precision.
    pub clip_precision: u32,
    /// Output quality.
    pub quality: u32,
    /// Pitch and family, combined.
    pub pitch_and_family: u32,
    /// The face name: UTF-16, zero-terminated.
    pub face_name: Vec<u16>,
}

/// A logical font, with its face name as a sequence of code units.
pub struct LogicalFontView {
    pub height: i32,
    pub width: i32,
    pub escapement: i32,
    pub orientation: i32,
    pub weight: i32,
    pub italic: u32,
    pub underline: u32,
    pub strike_out: u32,
    pub charset: u32,
    pub out_precision: u32,
    pub clip_precision: u32,
    pub quality: u32,
    pub pitch_and_family: u32,
    pub face_name: Seq<u16>,
}

impl View for LogicalFont {
    type V = LogicalFontView;

    open spec fn view(&self) -> LogicalFontView {
        LogicalFontView {
            height: self.height,
            width: self.width,
            escapement: self.escapement,
            orientation: self.orientation,
            weight: self.weight,
            italic: self.italic,
            underline: self.underline,
            strike_out: self.strike_out,
            charset: self.charset,
            out_precision: self.out_precision,
            clip_precision: self.clip_precision,
            quality: self.quality,
            pitch_and_family: self.pitch_and_family,
            face_name: self.face_name@,
        }
    }
}

/// The logical font that selects a face by its name alone: normal weight,
/// upright, default size, character set, precision, quality and pitch.
///
/// The font object made from it serves to read the face's data, not to
/// draw with, so nothing but the name is chosen.
pub open spec fn logical_font_for(face_name: Seq<char>) -> LogicalFontView {
    LogicalFontView {
        height: 0,
        width: 0,
        escapement: 0,
        orientation: 0,
        weight: 400,
        italic: 0,
        underline: 0,
        strike_out: 0,
        charset: 1,
        out_precision: 0,
        clip_precision: 0,
        quality: 0,
        pitch_and_family: 0,
        face_name: wide_name_spec(face_name),
    }
}

impl LogicalFont {
    /// The logical font that selects the face `face_name` and leaves
    /// everything else to the system's defaults.
    pub fn for_face(face_name: &str) -> (font: LogicalFont)
        ensures
            font@ == logical_font_for(face_name@),
    {
        assert(0u32 | 0u32 == 0u32) by (bit_vector);
        LogicalFont {
            height: 0,
            width: 0,
            escapement: 0,
            orientation: 0,
            weight: FW_NORMAL,
            italic: 0,
            underline: 0,
            strike_out: 0,
            charset: DEFAULT_CHARSET,
            out_precision: OUT_DEFAULT_PRECIS,
            clip_precision: CLIP_DEFAULT_PRECIS,
            quality: DEFAULT_QUALITY,
            pitch_and_family: DEFAULT_PITCH | FF_DONTCARE,
            face_name: wide_face_name(face_name),
        }
    }
}

} // verus!
