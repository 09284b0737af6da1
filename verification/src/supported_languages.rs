//! The table of language codes the translation endpoint understands.
//!
//! The table is constant data: every call yields the same codes in the same
//! order. The client itself never consults it; it exists so that callers can
//! display or validate codes.

use vstd::prelude::*;

verus! {

/// The canonical sequence of supported language codes, in their fixed order.
pub open spec fn language_codes() -> Seq<Seq<char>> {
    seq![
        "af"@, "sq"@, "am"@, "ar"@, "hy"@, "az"@, "eu"@, "be"@, "bn"@, "bs"@,
        "bg"@, "ca"@, "ceb"@, "ny"@, "zh"@, "zh-TW"@, "co"@, "hr"@, "cs"@, "da"@,
        "nl"@, "en"@, "eo"@, "et"@, "tl"@, "fi"@, "fr"@, "fy"@, "gl"@, "ka"@,
        "de"@, "el"@, "gu"@, "ht"@, "ha"@, "haw"@, "he"@, "hi"@, "hmn"@, "hu"@,
        "is"@, "ig"@, "id"@, "ga"@, "it"@, "ja"@, "jv"@, "kn"@, "kk"@, "km"@,
        "rw"@, "ko"@, "ku"@, "ky"@, "lo"@, "la"@, "lv"@, "lt"@, "lb"@, "mk"@,
        "mg"@, "ms"@, "ml"@, "mt"@, "mi"@, "mr"@, "mn"@, "my"@, "ne"@, "no"@,
        "or"@, "ps"@, "fa"@, "pl"@, "pt"@, "pa"@, "ro"@, "ru"@, "sm"@, "gd"@,
        "sr"@, "st"@, "sn"@, "sd"@, "si"@, "sk"@, "sl"@, "so"@, "es"@, "su"@,
        "sw"@, "sv"@, "tg"@, "ta"@, "te"@, "th"@, "tr"@, "uk"@, "ur"@, "ug"@,
        "uz"@, "vi"@, "cy"@, "xh"@, "yi"@, "yo"@, "zu"@,
    ]
}

/// The number of supported language codes never changes.
pub proof fn lemma_language_count()
    ensures
        language_codes().len() == 107,
{
}

/// Returns the supported language codes, always the same fixed sequence in
/// the same order.
pub fn get_languages() -> (r: Vec<&'static str>)
    ensures
        r.deep_view() == language_codes(),
        r@.len() == 107,
{
    let r: Vec<&'static str> = vec![
        "af", "sq", "am", "ar", "hy", "az", "eu", "be", "bn", "bs",
        "bg", "ca", "ceb", "ny", "zh", "zh-TW", "co", "hr", "cs", "da",
        "nl", "en", "eo", "et", "tl", "fi", "fr", "fy", "gl", "ka",
        "de", "el", "gu", "ht", "ha", "haw", "he", "hi", "hmn", "hu",
        "is", "ig", "id", "ga", "it", "ja", "jv", "kn", "kk", "km",
        "rw", "ko", "ku", "ky", "lo", "la", "lv", "lt", "lb", "mk",
        "mg", "ms", "ml", "mt", "mi", "mr", "mn", "my", "ne", "no",
        "or", "ps", "fa", "pl", "pt", "pa", "ro", "ru", "sm", "gd",
        "sr", "st", "sn", "sd", "si", "sk", "sl", "so", "es", "su",
        "sw", "sv", "tg", "ta", "te", "th", "tr", "uk", "ur", "ug",
        "uz", "vi", "cy", "xh", "yi", "yo", "zu",
    ];
    proof {
        assert(r.deep_view() =~= language_codes());
    }
    r
}

/// The table carries the codes that callers most commonly look for.
pub proof fn lemma_required_codes_present()
    ensures
        language_codes().contains("en"@),
        language_codes().contains("fr"@),
        language_codes().contains("zh"@),
        language_codes().contains("zh-TW"@),
        language_codes().contains("de"@),
        language_codes().contains("es"@),
{
    assert(language_codes()[21] == "en"@);
    assert(language_codes()[26] == "fr"@);
    assert(language_codes()[14] == "zh"@);
    assert(language_codes()[15] == "zh-TW"@);
    assert(language_codes()[30] == "de"@);
    assert(language_codes()[88] == "es"@);
}

} // verus!
