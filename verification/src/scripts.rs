//! The scripts that a shaping buffer can be tagged with, and the numeric codes
//! that the shaping engine knows them by.

use vstd::prelude::*;

verus! {

/// All scripts that the shaping engine distinguishes.
#[derive(Debug, Copy, Clone, PartialEq, Eq, Structural, Hash)]
pub enum Script {
    /// The Common script
    Common,
    /// The Inherited script
    Inherited,
    /// The Unknown script
    Unknown,
    /// The Arabic script
    Arabic,
    /// The Armenian script
    Armenian,
    /// The Bengali script
    Bengali,
    /// The Cyrillic script
    Cyrillic,
    /// The Devanagari script
    Devanagari,
    /// The Georgian script
    Georgian,
    /// The Greek script
    Greek,
    /// The Gujarati script
    Gujarati,
    /// The Gurmukhi script
    Gurmukhi,
    /// The Hangul script
    Hangul,
    /// The Han script
    Han,
    /// The Hebrew script
    Hebrew,
    /// The Hiragana script
    Hiragana,
    /// The Kannada script
    Kannada,
    /// The Katakana script
    Katakana,
    /// The Lao script
    Lao,
    /// The Latin script
    Latin,
    /// The Malayalam script
    Malayalam,
    /// The Oriya script
    Oriya,
    /// The Tamil script
    Tamil,
    /// The Telugu script
    Telugu,
    /// The Thai script
    Thai,
    /// The Tibetan script
    Tibetan,
    /// The Bopomofo script
    Bopomofo,
    /// The Braille script
    Braille,
    /// The Canadian Syllabics script
    CanadianSyllabics,
    /// The Cherokee script
    Cherokee,
    /// The Ethiopic script
    Ethiopic,
    /// The Khmer script
    Khmer,
    /// The Mongolian script
    Mongolian,
    /// The Myanmar script
    Myanmar,
    /// The Ogham script
    Ogham,
    /// The Runic script
    Runic,
    /// The Sinhala script
    Sinhala,
    /// The Syriac script
    Syriac,
    /// The Thaana script
    Thaana,
    /// The Yi script
    Yi,
    /// The Deseret script
    Deseret,
    /// The Gothic script
    Gothic,
    /// The Old Italic script
    OldItalic,
    /// The Buhid script
    Buhid,
    /// The Hanunoo script
    Hanunoo,
    /// The Tagalog script
    Tagalog,
    /// The Tagbanwa script
    Tagbanwa,
    /// The Cypriot script
    Cypriot,
    /// The Limbu script
    Limbu,
    /// The Linear B script
    LinearB,
    /// The Osmanya script
    Osmanya,
    /// The Shavian script
    Shavian,
    /// The Tai Le script
    TaiLe,
    /// The Ugaritic script
    Ugaritic,
    /// The Buginese script
    Buginese,
    /// The Coptic script
    Coptic,
    /// The Glagolitic script
    Glagolitic,
    /// The Kharoshthi script
    Kharoshthi,
    /// The New Tai Lue script
    NewTaiLue,
    /// The Old Persian script
    OldPersian,
    /// The Syloti Nagri script
    SylotiNagri,
    /// The Tifinagh script
    Tifinagh,
    /// The Balinese script
    Balinese,
    /// The Cuneiform script
    Cuneiform,
    /// The Nko script
    Nko,
    /// The Phags Pa script
    PhagsPa,
    /// The Phoenician script
    Phoenician,
    /// The Carian script
    Carian,
    /// The Cham script
    Cham,
    /// The Kayah Li script
    KayahLi,
    /// The Lepcha script
    Lepcha,
    /// The Lycian script
    Lycian,
    /// The Lydian script
    Lydian,
    /// The Ol Chiki script
    OlChiki,
    /// The Rejang script
    Rejang,
    /// The Saurashtra script
    Saurashtra,
    /// The Sundanese script
    Sundanese,
    /// The Vai script
    Vai,
    /// The Avestan script
    Avestan,
    /// The Bamum script
    Bamum,
    /// The Egyptian Hieroglyphs script
    EgyptianHieroglyphs,
    /// The Imperial Aramaic script
    ImperialAramaic,
    /// The Inscriptional Pahlavi script
    InscriptionalPahlavi,
    /// The Inscriptional Parthian script
    InscriptionalParthian,
    /// The Javanese script
    Javanese,
    /// The Kaithi script
    Kaithi,
    /// The Lisu script
    Lisu,
    /// The Meetei Mayek script
    MeeteiMayek,
    /// The Old South Arabian script
    OldSouthArabian,
    /// The Old Turkic script
    OldTurkic,
    /// The Samaritan script
    Samaritan,
    /// The Tai Tham script
    TaiTham,
    /// The Tai Viet script
    TaiViet,
    /// The Batak script
    Batak,
    /// The Brahmi script
    Brahmi,
    /// The Mandaic script
    Mandaic,
    /// The Chakma script
    Chakma,
    /// The Meroitic Cursive script
    MeroiticCursive,
    /// The Meroitic Hieroglyphs script
    MeroiticHieroglyphs,
    /// The Miao script
    Miao,
    /// The Sharada script
    Sharada,
    /// The Sora Sompeng script
    SoraSompeng,
    /// The Takri script
    Takri,
    /// The Bassa Vah script
    BassaVah,
    /// The Caucasian Albanian script
    CaucasianAlbanian,
    /// The Duployan script
    Duployan,
    /// The Elbasan script
    Elbasan,
    /// The Grantha script
    Grantha,
    /// The Khojki script
    Khojki,
    /// The Khudawadi script
    Khudawadi,
    /// The Linear A script
    LinearA,
    /// The Mahajani script
    Mahajani,
    /// The Manichaean script
    Manichaean,
    /// The Mende Kikakui script
    MendeKikakui,
    /// The Modi script
    Modi,
    /// The Mro script
    Mro,
    /// The Nabataean script
    Nabataean,
    /// The Old North Arabian script
    OldNorthArabian,
    /// The Old Permic script
    OldPermic,
    /// The Pahawh Hmong script
    PahawhHmong,
    /// The Palmyrene script
    Palmyrene,
    /// The Pau Cin Hau script
    PauCinHau,
    /// The Psalter Pahlavi script
    PsalterPahlavi,
    /// The Siddham script
    Siddham,
    /// The Tirhuta script
    Tirhuta,
    /// The Warang Citi script
    WarangCiti,
    /// The Ahom script
    Ahom,
    /// The Anatolian Hieroglyphs script
    AnatolianHieroglyphs,
    /// The Hatran script
    Hatran,
    /// The Multani script
    Multani,
    /// The Old Hungarian script
    OldHungarian,
    /// The Signwriting script
    Signwriting,
    /// The Adlam script
    Adlam,
    /// The Bhaiksuki script
    Bhaiksuki,
    /// The Marchen script
    Marchen,
    /// The Osage script
    Osage,
    /// The Tangut script
    Tangut,
    /// The Newa script
    Newa,
    /// The Masaram Gondi script
    MasaramGondi,
    /// The Nushu script
    Nushu,
    /// The Soyombo script
    Soyombo,
    /// The Zanabazar Square script
    ZanabazarSquare,
    /// The Dogra script
    Dogra,
    /// The Gunjala Gondi script
    GunjalaGondi,
    /// The Hanifi Rohingya script
    HanifiRohingya,
    /// The Makasar script
    Makasar,
    /// The Medefaidrin script
    Medefaidrin,
    /// The Old Sogdian script
    OldSogdian,
    /// The Sogdian script
    Sogdian,
    /// The Elymaic script
    Elymaic,
    /// The Nandinagari script
    Nandinagari,
    /// The Nyiakeng Puachue Hmong script
    NyiakengPuachueHmong,
    /// The Wancho script
    Wancho,
    /// Getting the script failed or the script is invalid.
    Invalid,
}

/// The number that four letters pack to, the first letter in the most
/// significant byte.
pub open spec fn letters_code(a: char, b: char, c: char, d: char) -> int {
    a as int * 0x100_0000 + b as int * 0x1_0000 + c as int * 0x100 + d as int
}

impl Script {
    /// The numeric code of a script: its four-letter ISO 15924 name, packed.
    /// `Invalid` has the code zero.
    pub open spec fn code(self) -> int {
        match self {
            Script::Common => letters_code('Z', 'y', 'y', 'y'),
            Script::Inherited => letters_code('Z', 'i', 'n', 'h'),
            Script::Unknown => letters_code('Z', 'z', 'z', 'z'),
            Script::Arabic => letters_code('A', 'r', 'a', 'b'),
            Script::Armenian => letters_code('A', 'r', 'm', 'n'),
            Script::Bengali => letters_code('B', 'e', 'n', 'g'),
            Script::Cyrillic => letters_code('C', 'y', 'r', 'l'),
            Script::Devanagari => letters_code('D', 'e', 'v', 'a'),
            Script::Georgian => letters_code('G', 'e', 'o', 'r'),
            Script::Greek => letters_code('G', 'r', 'e', 'k'),
            Script::Gujarati => letters_code('G', 'u', 'j', 'r'),
            Script::Gurmukhi => letters_code('G', 'u', 'r', 'u'),
            Script::Hangul => letters_code('H', 'a', 'n', 'g'),
            Script::Han => letters_code('H', 'a', 'n', 'i'),
            Script::Hebrew => letters_code('H', 'e', 'b', 'r'),
            Script::Hiragana => letters_code('H', 'i', 'r', 'a'),
            Script::Kannada => letters_code('K', 'n', 'd', 'a'),
            Script::Katakana => letters_code('K', 'a', 'n', 'a'),
            Script::Lao => letters_code('L', 'a', 'o', 'o'),
            Script::Latin => letters_code('L', 'a', 't', 'n'),
            Script::Malayalam => letters_code('M', 'l', 'y', 'm'),
            Script::Oriya => letters_code('O', 'r', 'y', 'a'),
            Script::Tamil => letters_code('T', 'a', 'm', 'l'),
            Script::Telugu => letters_code('T', 'e', 'l', 'u'),
            Script::Thai => letters_code('T', 'h', 'a', 'i'),
            Script::Tibetan => letters_code('T', 'i', 'b', 't'),
            Script::Bopomofo => letters_code('B', 'o', 'p', 'o'),
            Script::Braille => letters_code('B', 'r', 'a', 'i'),
            Script::CanadianSyllabics => letters_code('C', 'a', 'n', 's'),
            Script::Cherokee => letters_code('C', 'h', 'e', 'r'),
            Script::Ethiopic => letters_code('E', 't', 'h', 'i'),
            Script::Khmer => letters_code('K', 'h', 'm', 'r'),
            Script::Mongolian => letters_code('M', 'o', 'n', 'g'),
            Script::Myanmar => letters_code('M', 'y', 'm', 'r'),
            Script::Ogham => letters_code('O', 'g', 'a', 'm'),
            Script::Runic => letters_code('R', 'u', 'n', 'r'),
            Script::Sinhala => letters_code('S', 'i', 'n', 'h'),
            Script::Syriac => letters_code('S', 'y', 'r', 'c'),
            Script::Thaana => letters_code('T', 'h', 'a', 'a'),
            Script::Yi => letters_code('Y', 'i', 'i', 'i'),
            Script::Deseret => letters_code('D', 's', 'r', 't'),
            Script::Gothic => letters_code('G', 'o', 't', 'h'),
            Script::OldItalic => letters_code('I', 't', 'a', 'l'),
            Script::Buhid => letters_code('B', 'u', 'h', 'd'),
            Script::Hanunoo => letters_code('H', 'a', 'n', 'o'),
            Script::Tagalog => letters_code('T', 'g', 'l', 'g'),
            Script::Tagbanwa => letters_code('T', 'a', 'g', 'b'),
            Script::Cypriot => letters_code('C', 'p', 'r', 't'),
            Script::Limbu => letters_code('L', 'i', 'm', 'b'),
            Script::LinearB => letters_code('L', 'i', 'n', 'b'),
            Script::Osmanya => letters_code('O', 's', 'm', 'a'),
            Script::Shavian => letters_code('S', 'h', 'a', 'w'),
            Script::TaiLe => letters_code('T', 'a', 'l', 'e'),
            Script::Ugaritic => letters_code('U', 'g', 'a', 'r'),
            Script::Buginese => letters_code('B', 'u', 'g', 'i'),
            Script::Coptic => letters_code('C', 'o', 'p', 't'),
            Script::Glagolitic => letters_code('G', 'l', 'a', 'g'),
            Script::Kharoshthi => letters_code('K', 'h', 'a', 'r'),
            Script::NewTaiLue => letters_code('T', 'a', 'l', 'u'),
            Script::OldPersian => letters_code('X', 'p', 'e', 'o'),
            Script::SylotiNagri => letters_code('S', 'y', 'l', 'o'),
            Script::Tifinagh => letters_code('T', 'f', 'n', 'g'),
            Script::Balinese => letters_code('B', 'a', 'l', 'i'),
            Script::Cuneiform => letters_code('X', 's', 'u', 'x'),
            Script::Nko => letters_code('N', 'k', 'o', 'o'),
            Script::PhagsPa => letters_code('P', 'h', 'a', 'g'),
            Script::Phoenician => letters_code('P', 'h', 'n', 'x'),
            Script::Carian => letters_code('C', 'a', 'r', 'i'),
            Script::Cham => letters_code('C', 'h', 'a', 'm'),
            Script::KayahLi => letters_code('K', 'a', 'l', 'i'),
            Script::Lepcha => letters_code('L', 'e', 'p', 'c'),
            Script::Lycian => letters_code('L', 'y', 'c', 'i'),
            Script::Lydian => letters_code('L', 'y', 'd', 'i'),
            Script::OlChiki => letters_code('O', 'l', 'c', 'k'),
            Script::Rejang => letters_code('R', 'j', 'n', 'g'),
            Script::Saurashtra => letters_code('S', 'a', 'u', 'r'),
            Script::Sundanese => letters_code('S', 'u', 'n', 'd'),
            Script::Vai => letters_code('V', 'a', 'i', 'i'),
            Script::Avestan => letters_code('A', 'v', 's', 't'),
            Script::Bamum => letters_code('B', 'a', 'm', 'u'),
            Script::EgyptianHieroglyphs => letters_code('E', 'g', 'y', 'p'),
            Script::ImperialAramaic => letters_code('A', 'r', 'm', 'i'),
            Script::InscriptionalPahlavi => letters_code('P', 'h', 'l', 'i'),
            Script::InscriptionalParthian => letters_code('P', 'r', 't', 'i'),
            Script::Javanese => letters_code('J', 'a', 'v', 'a'),
            Script::Kaithi => letters_code('K', 't', 'h', 'i'),
            Script::Lisu => letters_code('L', 'i', 's', 'u'),
            Script::MeeteiMayek => letters_code('M', 't', 'e', 'i'),
            Script::OldSouthArabian => letters_code('S', 'a', 'r', 'b'),
            Script::OldTurkic => letters_code('O', 'r', 'k', 'h'),
            Script::Samaritan => letters_code('S', 'a', 'm', 'r'),
            Script::TaiTham => letters_code('L', 'a', 'n', 'a'),
            Script::TaiViet => letters_code('T', 'a', 'v', 't'),
            Script::Batak => letters_code('B', 'a', 't', 'k'),
            Script::Brahmi => letters_code('B', 'r', 'a', 'h'),
            Script::Mandaic => letters_code('M', 'a', 'n', 'd'),
            Script::Chakma => letters_code('C', 'a', 'k', 'm'),
            Script::MeroiticCursive => letters_code('M', 'e', 'r', 'c'),
            Script::MeroiticHieroglyphs => letters_code('M', 'e', 'r', 'o'),
            Script::Miao => letters_code('P', 'l', 'r', 'd'),
            Script::Sharada => letters_code('S', 'h', 'r', 'd'),
            Script::SoraSompeng => letters_code('S', 'o', 'r', 'a'),
            Script::Takri => letters_code('T', 'a', 'k', 'r'),
            Script::BassaVah => letters_code('B', 'a', 's', 's'),
            Script::CaucasianAlbanian => letters_code('A', 'g', 'h', 'b'),
            Script::Duployan => letters_code('D', 'u', 'p', 'l'),
            Script::Elbasan => letters_code('E', 'l', 'b', 'a'),
            Script::Grantha => letters_code('G', 'r', 'a', 'n'),
            Script::Khojki => letters_code('K', 'h', 'o', 'j'),
            Script::Khudawadi => letters_code('S', 'i', 'n', 'd'),
            Script::LinearA => letters_code('L', 'i', 'n', 'a'),
            Script::Mahajani => letters_code('M', 'a', 'h', 'j'),
            Script::Manichaean => letters_code('M', 'a', 'n', 'i'),
            Script::MendeKikakui => letters_code('M', 'e', 'n', 'd'),
            Script::Modi => letters_code('M', 'o', 'd', 'i'),
            Script::Mro => letters_code('M', 'r', 'o', 'o'),
            Script::Nabataean => letters_code('N', 'b', 'a', 't'),
            Script::OldNorthArabian => letters_code('N', 'a', 'r', 'b'),
            Script::OldPermic => letters_code('P', 'e', 'r', 'm'),
            Script::PahawhHmong => letters_code('H', 'm', 'n', 'g'),
            Script::Palmyrene => letters_code('P', 'a', 'l', 'm'),
            Script::PauCinHau => letters_code('P', 'a', 'u', 'c'),
            Script::PsalterPahlavi => letters_code('P', 'h', 'l', 'p'),
            Script::Siddham => letters_code('S', 'i', 'd', 'd'),
            Script::Tirhuta => letters_code('T', 'i', 'r', 'h'),
            Script::WarangCiti => letters_code('W', 'a', 'r', 'a'),
            Script::Ahom => letters_code('A', 'h', 'o', 'm'),
            Script::AnatolianHieroglyphs => letters_code('H', 'l', 'u', 'w'),
            Script::Hatran => letters_code('H', 'a', 't', 'r'),
            Script::Multani => letters_code('M', 'u', 'l', 't'),
            Script::OldHungarian => letters_code('H', 'u', 'n', 'g'),
            Script::Signwriting => letters_code('S', 'g', 'n', 'w'),
            Script::Adlam => letters_code('A', 'd', 'l', 'm'),
            Script::Bhaiksuki => letters_code('B', 'h', 'k', 's'),
            Script::Marchen => letters_code('M', 'a', 'r', 'c'),
            Script::Osage => letters_code('O', 's', 'g', 'e'),
            Script::Tangut => letters_code('T', 'a', 'n', 'g'),
            Script::Newa => letters_code('N', 'e', 'w', 'a'),
            Script::MasaramGondi => letters_code('G', 'o', 'n', 'm'),
            Script::Nushu => letters_code('N', 's', 'h', 'u'),
            Script::Soyombo => letters_code('S', 'o', 'y', 'o'),
            Script::ZanabazarSquare => letters_code('Z', 'a', 'n', 'b'),
            Script::Dogra => letters_code('D', 'o', 'g', 'r'),
            Script::GunjalaGondi => letters_code('G', 'o', 'n', 'g'),
            Script::HanifiRohingya => letters_code('R', 'o', 'h', 'g'),
            Script::Makasar => letters_code('M', 'a', 'k', 'a'),
            Script::Medefaidrin => letters_code('M', 'e', 'd', 'f'),
            Script::OldSogdian => letters_code('S', 'o', 'g', 'o'),
            Script::Sogdian => letters_code('S', 'o', 'g', 'd'),
            Script::Elymaic => letters_code('E', 'l', 'y', 'm'),
            Script::Nandinagari => letters_code('N', 'a', 'n', 'd'),
            Script::NyiakengPuachueHmong => letters_code('H', 'm', 'n', 'p'),
            Script::Wancho => letters_code('W', 'c', 'h', 'o'),
            Script::Invalid => 0,
        }
    }

    /// Whether a number is the code of some script.
    pub open spec fn recognised(raw: u32) -> bool {
        exists|s: Script| s.code() == raw
    }

    /// The script with the given code, or `None` for a number that is no
    /// script's code.
    pub fn try_from_raw(raw: u32) -> (found: Option<Script>)
        ensures
            found matches Some(s) ==> s.code() == raw,
            found is Some <==> Self::recognised(raw),
    {
        let found = match raw {
            0x5a79_7979 => Some(Script::Common),
            0x5a69_6e68 => Some(Script::Inherited),
            0x5a7a_7a7a => Some(Script::Unknown),
            0x4172_6162 => Some(Script::Arabic),
            0x4172_6d6e => Some(Script::Armenian),
            0x4265_6e67 => Some(Script::Bengali),
            0x4379_726c => Some(Script::Cyrillic),
            0x4465_7661 => Some(Script::Devanagari),
            0x4765_6f72 => Some(Script::Georgian),
            0x4772_656b => Some(Script::Greek),
            0x4775_6a72 => Some(Script::Gujarati),
            0x4775_7275 => Some(Script::Gurmukhi),
            0x4861_6e67 => Some(Script::Hangul),
            0x4861_6e69 => Some(Script::Han),
            0x4865_6272 => Some(Script::Hebrew),
            0x4869_7261 => Some(Script::Hiragana),
            0x4b6e_6461 => Some(Script::Kannada),
            0x4b61_6e61 => Some(Script::Katakana),
            0x4c61_6f6f => Some(Script::Lao),
            0x4c61_746e => Some(Script::Latin),
            0x4d6c_796d => Some(Script::Malayalam),
            0x4f72_7961 => Some(Script::Oriya),
            0x5461_6d6c => Some(Script::Tamil),
            0x5465_6c75 => Some(Script::Telugu),
            0x5468_6169 => Some(Script::Thai),
            0x5469_6274 => Some(Script::Tibetan),
            0x426f_706f => Some(Script::Bopomofo),
            0x4272_6169 => Some(Script::Braille),
            0x4361_6e73 => Some(Script::CanadianSyllabics),
            0x4368_6572 => Some(Script::Cherokee),
            0x4574_6869 => Some(Script::Ethiopic),
            0x4b68_6d72 => Some(Script::Khmer),
            0x4d6f_6e67 => Some(Script::Mongolian),
            0x4d79_6d72 => Some(Script::Myanmar),
            0x4f67_616d => Some(Script::Ogham),
            0x5275_6e72 => Some(Script::Runic),
            0x5369_6e68 => Some(Script::Sinhala),
            0x5379_7263 => Some(Script::Syriac),
            0x5468_6161 => Some(Script::Thaana),
            0x5969_6969 => Some(Script::Yi),
            0x4473_7274 => Some(Script::Deseret),
            0x476f_7468 => Some(Script::Gothic),
            0x4974_616c => Some(Script::OldItalic),
            0x4275_6864 => Some(Script::Buhid),
            0x4861_6e6f => Some(Script::Hanunoo),
            0x5467_6c67 => Some(Script::Tagalog),
            0x5461_6762 => Some(Script::Tagbanwa),
            0x4370_7274 => Some(Script::Cypriot),
            0x4c69_6d62 => Some(Script::Limbu),
            0x4c69_6e62 => Some(Script::LinearB),
            0x4f73_6d61 => Some(Script::Osmanya),
            0x5368_6177 => Some(Script::Shavian),
            0x5461_6c65 => Some(Script::TaiLe),
            0x5567_6172 => Some(Script::Ugaritic),
            0x4275_6769 => Some(Script::Buginese),
            0x436f_7074 => Some(Script::Coptic),
            0x476c_6167 => Some(Script::Glagolitic),
            0x4b68_6172 => Some(Script::Kharoshthi),
            0x5461_6c75 => Some(Script::NewTaiLue),
            0x5870_656f => Some(Script::OldPersian),
            0x5379_6c6f => Some(Script::SylotiNagri),
            0x5466_6e67 => Some(Script::Tifinagh),
            0x4261_6c69 => Some(Script::Balinese),
            0x5873_7578 => Some(Script::Cuneiform),
            0x4e6b_6f6f => Some(Script::Nko),
            0x5068_6167 => Some(Script::PhagsPa),
            0x5068_6e78 => Some(Script::Phoenician),
            0x4361_7269 => Some(Script::Carian),
            0x4368_616d => Some(Script::Cham),
            0x4b61_6c69 => Some(Script::KayahLi),
            0x4c65_7063 => Some(Script::Lepcha),
            0x4c79_6369 => Some(Script::Lycian),
            0x4c79_6469 => Some(Script::Lydian),
            0x4f6c_636b => Some(Script::OlChiki),
            0x526a_6e67 => Some(Script::Rejang),
            0x5361_7572 => Some(Script::Saurashtra),
            0x5375_6e64 => Some(Script::Sundanese),
            0x5661_6969 => Some(Script::Vai),
            0x4176_7374 => Some(Script::Avestan),
            0x4261_6d75 => Some(Script::Bamum),
            0x4567_7970 => Some(Script::EgyptianHieroglyphs),
            0x4172_6d69 => Some(Script::ImperialAramaic),
            0x5068_6c69 => Some(Script::InscriptionalPahlavi),
            0x5072_7469 => Some(Script::InscriptionalParthian),
            0x4a61_7661 => Some(Script::Javanese),
            0x4b74_6869 => Some(Script::Kaithi),
            0x4c69_7375 => Some(Script::Lisu),
            0x4d74_6569 => Some(Script::MeeteiMayek),
            0x5361_7262 => Some(Script::OldSouthArabian),
            0x4f72_6b68 => Some(Script::OldTurkic),
            0x5361_6d72 => Some(Script::Samaritan),
            0x4c61_6e61 => Some(Script::TaiTham),
            0x5461_7674 => Some(Script::TaiViet),
            0x4261_746b => Some(Script::Batak),
            0x4272_6168 => Some(Script::Brahmi),
            0x4d61_6e64 => Some(Script::Mandaic),
            0x4361_6b6d => Some(Script::Chakma),
            0x4d65_7263 => Some(Script::MeroiticCursive),
            0x4d65_726f => Some(Script::MeroiticHieroglyphs),
            0x506c_7264 => Some(Script::Miao),
            0x5368_7264 => Some(Script::Sharada),
            0x536f_7261 => Some(Script::SoraSompeng),
            0x5461_6b72 => Some(Script::Takri),
            0x4261_7373 => Some(Script::BassaVah),
            0x4167_6862 => Some(Script::CaucasianAlbanian),
            0x4475_706c => Some(Script::Duployan),
            0x456c_6261 => Some(Script::Elbasan),
            0x4772_616e => Some(Script::Grantha),
            0x4b68_6f6a => Some(Script::Khojki),
            0x5369_6e64 => Some(Script::Khudawadi),
            0x4c69_6e61 => Some(Script::LinearA),
            0x4d61_686a => Some(Script::Mahajani),
            0x4d61_6e69 => Some(Script::Manichaean),
            0x4d65_6e64 => Some(Script::MendeKikakui),
            0x4d6f_6469 => Some(Script::Modi),
            0x4d72_6f6f => Some(Script::Mro),
            0x4e62_6174 => Some(Script::Nabataean),
            0x4e61_7262 => Some(Script::OldNorthArabian),
            0x5065_726d => Some(Script::OldPermic),
            0x486d_6e67 => Some(Script::PahawhHmong),
            0x5061_6c6d => Some(Script::Palmyrene),
            0x5061_7563 => Some(Script::PauCinHau),
            0x5068_6c70 => Some(Script::PsalterPahlavi),
            0x5369_6464 => Some(Script::Siddham),
            0x5469_7268 => Some(Script::Tirhuta),
            0x5761_7261 => Some(Script::WarangCiti),
            0x4168_6f6d => Some(Script::Ahom),
            0x486c_7577 => Some(Script::AnatolianHieroglyphs),
            0x4861_7472 => Some(Script::Hatran),
            0x4d75_6c74 => Some(Script::Multani),
            0x4875_6e67 => Some(Script::OldHungarian),
            0x5367_6e77 => Some(Script::Signwriting),
            0x4164_6c6d => Some(Script::Adlam),
            0x4268_6b73 => Some(Script::Bhaiksuki),
            0x4d61_7263 => Some(Script::Marchen),
            0x4f73_6765 => Some(Script::Osage),
            0x5461_6e67 => Some(Script::Tangut),
            0x4e65_7761 => Some(Script::Newa),
            0x476f_6e6d => Some(Script::MasaramGondi),
            0x4e73_6875 => Some(Script::Nushu),
            0x536f_796f => Some(Script::Soyombo),
            0x5a61_6e62 => Some(Script::ZanabazarSquare),
            0x446f_6772 => Some(Script::Dogra),
            0x476f_6e67 => Some(Script::GunjalaGondi),
            0x526f_6867 => Some(Script::HanifiRohingya),
            0x4d61_6b61 => Some(Script::Makasar),
            0x4d65_6466 => Some(Script::Medefaidrin),
            0x536f_676f => Some(Script::OldSogdian),
            0x536f_6764 => Some(Script::Sogdian),
            0x456c_796d => Some(Script::Elymaic),
            0x4e61_6e64 => Some(Script::Nandinagari),
            0x486d_6e70 => Some(Script::NyiakengPuachueHmong),
            0x5763_686f => Some(Script::Wancho),
            0 => Some(Script::Invalid),
            _ => None,
        };
        proof {
            match found {
                Some(s) => {
                    assert(s.code() == raw);
                },
                None => {
                    assert forall|s: Script| s.code() != raw by {
                        Self::lemma_codes(s);
                    }
                },
            }
        }
        found
    }

    /// The script with the given code.
    pub fn from_raw(raw: u32) -> (script: Script)
        requires
            Self::recognised(raw),
        ensures
            script.code() == raw,
    {
        match Self::try_from_raw(raw) {
            Some(script) => script,
            None => Script::Invalid,
        }
    }

    /// The code of this script.
    pub fn as_raw(&self) -> (raw: u32)
        ensures
            raw == self.code(),
            Self::recognised(raw),
    {
        let raw: u32 = match self {
            Script::Common => 0x5a79_7979,
            Script::Inherited => 0x5a69_6e68,
            Script::Unknown => 0x5a7a_7a7a,
            Script::Arabic => 0x4172_6162,
            Script::Armenian => 0x4172_6d6e,
            Script::Bengali => 0x4265_6e67,
            Script::Cyrillic => 0x4379_726c,
            Script::Devanagari => 0x4465_7661,
            Script::Georgian => 0x4765_6f72,
            Script::Greek => 0x4772_656b,
            Script::Gujarati => 0x4775_6a72,
            Script::Gurmukhi => 0x4775_7275,
            Script::Hangul => 0x4861_6e67,
            Script::Han => 0x4861_6e69,
            Script::Hebrew => 0x4865_6272,
            Script::Hiragana => 0x4869_7261,
            Script::Kannada => 0x4b6e_6461,
            Script::Katakana => 0x4b61_6e61,
            Script::Lao => 0x4c61_6f6f,
            Script::Latin => 0x4c61_746e,
            Script::Malayalam => 0x4d6c_796d,
            Script::Oriya => 0x4f72_7961,
            Script::Tamil => 0x5461_6d6c,
            Script::Telugu => 0x5465_6c75,
            Script::Thai => 0x5468_6169,
            Script::Tibetan => 0x5469_6274,
            Script::Bopomofo => 0x426f_706f,
            Script::Braille => 0x4272_6169,
            Script::CanadianSyllabics => 0x4361_6e73,
            Script::Cherokee => 0x4368_6572,
            Script::Ethiopic => 0x4574_6869,
            Script::Khmer => 0x4b68_6d72,
            Script::Mongolian => 0x4d6f_6e67,
            Script::Myanmar => 0x4d79_6d72,
            Script::Ogham => 0x4f67_616d,
            Script::Runic => 0x5275_6e72,
            Script::Sinhala => 0x5369_6e68,
            Script::Syriac => 0x5379_7263,
            Script::Thaana => 0x5468_6161,
            Script::Yi => 0x5969_6969,
            Script::Deseret => 0x4473_7274,
            Script::Gothic => 0x476f_7468,
            Script::OldItalic => 0x4974_616c,
            Script::Buhid => 0x4275_6864,
            Script::Hanunoo => 0x4861_6e6f,
            Script::Tagalog => 0x5467_6c67,
            Script::Tagbanwa => 0x5461_6762,
            Script::Cypriot => 0x4370_7274,
            Script::Limbu => 0x4c69_6d62,
            Script::LinearB => 0x4c69_6e62,
            Script::Osmanya => 0x4f73_6d61,
            Script::Shavian => 0x5368_6177,
            Script::TaiLe => 0x5461_6c65,
            Script::Ugaritic => 0x5567_6172,
            Script::Buginese => 0x4275_6769,
            Script::Coptic => 0x436f_7074,
            Script::Glagolitic => 0x476c_6167,
            Script::Kharoshthi => 0x4b68_6172,
            Script::NewTaiLue => 0x5461_6c75,
            Script::OldPersian => 0x5870_656f,
            Script::SylotiNagri => 0x5379_6c6f,
            Script::Tifinagh => 0x5466_6e67,
            Script::Balinese => 0x4261_6c69,
            Script::Cuneiform => 0x5873_7578,
            Script::Nko => 0x4e6b_6f6f,
            Script::PhagsPa => 0x5068_6167,
            Script::Phoenician => 0x5068_6e78,
            Script::Carian => 0x4361_7269,
            Script::Cham => 0x4368_616d,
            Script::KayahLi => 0x4b61_6c69,
            Script::Lepcha => 0x4c65_7063,
            Script::Lycian => 0x4c79_6369,
            Script::Lydian => 0x4c79_6469,
            Script::OlChiki => 0x4f6c_636b,
            Script::Rejang => 0x526a_6e67,
            Script::Saurashtra => 0x5361_7572,
            Script::Sundanese => 0x5375_6e64,
            Script::Vai => 0x5661_6969,
            Script::Avestan => 0x4176_7374,
            Script::Bamum => 0x4261_6d75,
            Script::EgyptianHieroglyphs => 0x4567_7970,
            Script::ImperialAramaic => 0x4172_6d69,
            Script::InscriptionalPahlavi => 0x5068_6c69,
            Script::InscriptionalParthian => 0x5072_7469,
            Script::Javanese => 0x4a61_7661,
            Script::Kaithi => 0x4b74_6869,
            Script::Lisu => 0x4c69_7375,
            Script::MeeteiMayek => 0x4d74_6569,
            Script::OldSouthArabian => 0x5361_7262,
            Script::OldTurkic => 0x4f72_6b68,
            Script::Samaritan => 0x5361_6d72,
            Script::TaiTham => 0x4c61_6e61,
            Script::TaiViet => 0x5461_7674,
            Script::Batak => 0x4261_746b,
            Script::Brahmi => 0x4272_6168,
            Script::Mandaic => 0x4d61_6e64,
            Script::Chakma => 0x4361_6b6d,
            Script::MeroiticCursive => 0x4d65_7263,
            Script::MeroiticHieroglyphs => 0x4d65_726f,
            Script::Miao => 0x506c_7264,
            Script::Sharada => 0x5368_7264,
            Script::SoraSompeng => 0x536f_7261,
            Script::Takri => 0x5461_6b72,
            Script::BassaVah => 0x4261_7373,
            Script::CaucasianAlbanian => 0x4167_6862,
            Script::Duployan => 0x4475_706c,
            Script::Elbasan => 0x456c_6261,
            Script::Grantha => 0x4772_616e,
            Script::Khojki => 0x4b68_6f6a,
            Script::Khudawadi => 0x5369_6e64,
            Script::LinearA => 0x4c69_6e61,
            Script::Mahajani => 0x4d61_686a,
            Script::Manichaean => 0x4d61_6e69,
            Script::MendeKikakui => 0x4d65_6e64,
            Script::Modi => 0x4d6f_6469,
            Script::Mro => 0x4d72_6f6f,
            Script::Nabataean => 0x4e62_6174,
            Script::OldNorthArabian => 0x4e61_7262,
            Script::OldPermic => 0x5065_726d,
            Script::PahawhHmong => 0x486d_6e67,
            Script::Palmyrene => 0x5061_6c6d,
            Script::PauCinHau => 0x5061_7563,
            Script::PsalterPahlavi => 0x5068_6c70,
            Script::Siddham => 0x5369_6464,
            Script::Tirhuta => 0x5469_7268,
            Script::WarangCiti => 0x5761_7261,
            Script::Ahom => 0x4168_6f6d,
            Script::AnatolianHieroglyphs => 0x486c_7577,
            Script::Hatran => 0x4861_7472,
            Script::Multani => 0x4d75_6c74,
            Script::OldHungarian => 0x4875_6e67,
            Script::Signwriting => 0x5367_6e77,
            Script::Adlam => 0x4164_6c6d,
            Script::Bhaiksuki => 0x4268_6b73,
            Script::Marchen => 0x4d61_7263,
            Script::Osage => 0x4f73_6765,
            Script::Tangut => 0x5461_6e67,
            Script::Newa => 0x4e65_7761,
            Script::MasaramGondi => 0x476f_6e6d,
            Script::Nushu => 0x4e73_6875,
            Script::Soyombo => 0x536f_796f,
            Script::ZanabazarSquare => 0x5a61_6e62,
            Script::Dogra => 0x446f_6772,
            Script::GunjalaGondi => 0x476f_6e67,
            Script::HanifiRohingya => 0x526f_6867,
            Script::Makasar => 0x4d61_6b61,
            Script::Medefaidrin => 0x4d65_6466,
            Script::OldSogdian => 0x536f_676f,
            Script::Sogdian => 0x536f_6764,
            Script::Elymaic => 0x456c_796d,
            Script::Nandinagari => 0x4e61_6e64,
            Script::NyiakengPuachueHmong => 0x486d_6e70,
            Script::Wancho => 0x5763_686f,
            Script::Invalid => 0,
        };
        assert(self.code() == raw);
        raw
    }

    /// Every script's code, written out as a number.
    proof fn lemma_codes(s: Script)
        ensures
            s.code() == match s {
                Script::Common => 0x5a79_7979int,
                Script::Inherited => 0x5a69_6e68int,
                Script::Unknown => 0x5a7a_7a7aint,
                Script::Arabic => 0x4172_6162int,
                Script::Armenian => 0x4172_6d6eint,
                Script::Bengali => 0x4265_6e67int,
                Script::Cyrillic => 0x4379_726cint,
                Script::Devanagari => 0x4465_7661int,
                Script::Georgian => 0x4765_6f72int,
                Script::Greek => 0x4772_656bint,
                Script::Gujarati => 0x4775_6a72int,
                Script::Gurmukhi => 0x4775_7275int,
                Script::Hangul => 0x4861_6e67int,
                Script::Han => 0x4861_6e69int,
                Script::Hebrew => 0x4865_6272int,
                Script::Hiragana => 0x4869_7261int,
                Script::Kannada => 0x4b6e_6461int,
                Script::Katakana => 0x4b61_6e61int,
                Script::Lao => 0x4c61_6f6fint,
                Script::Latin => 0x4c61_746eint,
                Script::Malayalam => 0x4d6c_796dint,
                Script::Oriya => 0x4f72_7961int,
                Script::Tamil => 0x5461_6d6cint,
                Script::Telugu => 0x5465_6c75int,
                Script::Thai => 0x5468_6169int,
                Script::Tibetan => 0x5469_6274int,
                Script::Bopomofo => 0x426f_706fint,
                Script::Braille => 0x4272_6169int,
                Script::CanadianSyllabics => 0x4361_6e73int,
                Script::Cherokee => 0x4368_6572int,
                Script::Ethiopic => 0x4574_6869int,
                Script::Khmer => 0x4b68_6d72int,
                Script::Mongolian => 0x4d6f_6e67int,
                Script::Myanmar => 0x4d79_6d72int,
                Script::Ogham => 0x4f67_616dint,
                Script::Runic => 0x5275_6e72int,
                Script::Sinhala => 0x5369_6e68int,
                Script::Syriac => 0x5379_7263int,
                Script::Thaana => 0x5468_6161int,
                Script::Yi => 0x5969_6969int,
                Script::Deseret => 0x4473_7274int,
                Script::Gothic => 0x476f_7468int,
                Script::OldItalic => 0x4974_616cint,
                Script::Buhid => 0x4275_6864int,
                Script::Hanunoo => 0x4861_6e6fint,
                Script::Tagalog => 0x5467_6c67int,
                Script::Tagbanwa => 0x5461_6762int,
                Script::Cypriot => 0x4370_7274int,
                Script::Limbu => 0x4c69_6d62int,
                Script::LinearB => 0x4c69_6e62int,
                Script::Osmanya => 0x4f73_6d61int,
                Script::Shavian => 0x5368_6177int,
                Script::TaiLe => 0x5461_6c65int,
                Script::Ugaritic => 0x5567_6172int,
                Script::Buginese => 0x4275_6769int,
                Script::Coptic => 0x436f_7074int,
                Script::Glagolitic => 0x476c_6167int,
                Script::Kharoshthi => 0x4b68_6172int,
                Script::NewTaiLue => 0x5461_6c75int,
                Script::OldPersian => 0x5870_656fint,
                Script::SylotiNagri => 0x5379_6c6fint,
                Script::Tifinagh => 0x5466_6e67int,
                Script::Balinese => 0x4261_6c69int,
                Script::Cuneiform => 0x5873_7578int,
                Script::Nko => 0x4e6b_6f6fint,
                Script::PhagsPa => 0x5068_6167int,
                Script::Phoenician => 0x5068_6e78int,
                Script::Carian => 0x4361_7269int,
                Script::Cham => 0x4368_616dint,
                Script::KayahLi => 0x4b61_6c69int,
                Script::Lepcha => 0x4c65_7063int,
                Script::Lycian => 0x4c79_6369int,
                Script::Lydian => 0x4c79_6469int,
                Script::OlChiki => 0x4f6c_636bint,
                Script::Rejang => 0x526a_6e67int,
                Script::Saurashtra => 0x5361_7572int,
                Script::Sundanese => 0x5375_6e64int,
                Script::Vai => 0x5661_6969int,
                Script::Avestan => 0x4176_7374int,
                Script::Bamum => 0x4261_6d75int,
                Script::EgyptianHieroglyphs => 0x4567_7970int,
                Script::ImperialAramaic => 0x4172_6d69int,
                Script::InscriptionalPahlavi => 0x5068_6c69int,
                Script::InscriptionalParthian => 0x5072_7469int,
                Script::Javanese => 0x4a61_7661int,
                Script::Kaithi => 0x4b74_6869int,
                Script::Lisu => 0x4c69_7375int,
                Script::MeeteiMayek => 0x4d74_6569int,
                Script::OldSouthArabian => 0x5361_7262int,
                Script::OldTurkic => 0x4f72_6b68int,
                Script::Samaritan => 0x5361_6d72int,
                Script::TaiTham => 0x4c61_6e61int,
                Script::TaiViet => 0x5461_7674int,
                Script::Batak => 0x4261_746bint,
                Script::Brahmi => 0x4272_6168int,
                Script::Mandaic => 0x4d61_6e64int,
                Script::Chakma => 0x4361_6b6dint,
                Script::MeroiticCursive => 0x4d65_7263int,
                Script::MeroiticHieroglyphs => 0x4d65_726fint,
                Script::Miao => 0x506c_7264int,
                Script::Sharada => 0x5368_7264int,
                Script::SoraSompeng => 0x536f_7261int,
                Script::Takri => 0x5461_6b72int,
                Script::BassaVah => 0x4261_7373int,
                Script::CaucasianAlbanian => 0x4167_6862int,
                Script::Duployan => 0x4475_706cint,
                Script::Elbasan => 0x456c_6261int,
                Script::Grantha => 0x4772_616eint,
                Script::Khojki => 0x4b68_6f6aint,
                Script::Khudawadi => 0x5369_6e64int,
                Script::LinearA => 0x4c69_6e61int,
                Script::Mahajani => 0x4d61_686aint,
                Script::Manichaean => 0x4d61_6e69int,
                Script::MendeKikakui => 0x4d65_6e64int,
                Script::Modi => 0x4d6f_6469int,
                Script::Mro => 0x4d72_6f6fint,
                Script::Nabataean => 0x4e62_6174int,
                Script::OldNorthArabian => 0x4e61_7262int,
                Script::OldPermic => 0x5065_726dint,
                Script::PahawhHmong => 0x486d_6e67int,
                Script::Palmyrene => 0x5061_6c6dint,
                Script::PauCinHau => 0x5061_7563int,
                Script::PsalterPahlavi => 0x5068_6c70int,
                Script::Siddham => 0x5369_6464int,
                Script::Tirhuta => 0x5469_7268int,
                Script::WarangCiti => 0x5761_7261int,
                Script::Ahom => 0x4168_6f6dint,
                Script::AnatolianHieroglyphs => 0x486c_7577int,
                Script::Hatran => 0x4861_7472int,
                Script::Multani => 0x4d75_6c74int,
                Script::OldHungarian => 0x4875_6e67int,
                Script::Signwriting => 0x5367_6e77int,
                Script::Adlam => 0x4164_6c6dint,
                Script::Bhaiksuki => 0x4268_6b73int,
                Script::Marchen => 0x4d61_7263int,
                Script::Osage => 0x4f73_6765int,
                Script::Tangut => 0x5461_6e67int,
                Script::Newa => 0x4e65_7761int,
                Script::MasaramGondi => 0x476f_6e6dint,
                Script::Nushu => 0x4e73_6875int,
                Script::Soyombo => 0x536f_796fint,
                Script::ZanabazarSquare => 0x5a61_6e62int,
                Script::Dogra => 0x446f_6772int,
                Script::GunjalaGondi => 0x476f_6e67int,
                Script::HanifiRohingya => 0x526f_6867int,
                Script::Makasar => 0x4d61_6b61int,
                Script::Medefaidrin => 0x4d65_6466int,
                Script::OldSogdian => 0x536f_676fint,
                Script::Sogdian => 0x536f_6764int,
                Script::Elymaic => 0x456c_796dint,
                Script::Nandinagari => 0x4e61_6e64int,
                Script::NyiakengPuachueHmong => 0x486d_6e70int,
                Script::Wancho => 0x5763_686fint,
                Script::Invalid => 0int,
            },
    {
    }

    /// A code names one script only: two scripts with the same code are the
    /// same script, so decoding the code of a script gives that script back.
    pub proof fn lemma_code_names_one_script(a: Script, b: Script)
        requires
            a.code() == b.code(),
        ensures
            a == b,
    {
        Self::lemma_codes(a);
        Self::lemma_codes(b);
    }

    /// Every script's code fits in 32 bits and is recognised.
    pub proof fn lemma_code_is_recognised(s: Script)
        ensures
            0 <= s.code() <= u32::MAX,
            Self::recognised(s.code() as u32),
    {
        Self::lemma_codes(s);
    }
}

} // verus!
