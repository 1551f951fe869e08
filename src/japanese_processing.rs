//! Language-aware similarity of song and artist names.
//!
//! Scores are kept in tenths of a point: `0..=1000` stands for `0.0..=100.0`,
//! so that the 9:1 blend of the Japanese path is exact and ties compare exactly.
use crate::text::{
    all_ascii, alphanumeric, chars_of, is_all_ascii, is_alphanumeric, lower_of, lowercase, owned,
    same_chars, string_of,
};
use vstd::prelude::*;

verus! {

/// What `kakasi::is_japanese` reports, `true` unless it says `IsJapanese::False`.
pub uninterp spec fn japanese_text(s: Seq<char>) -> bool;

/// What `kakasi::convert(..).romaji` returns; it depends on the characters alone.
pub uninterp spec fn romaji_of(s: Seq<char>) -> Seq<char>;

/// Relies on `kakasi::is_japanese`: whether the text holds kana or kanji.
#[verifier::external_body]
fn kakasi_is_japanese(s: &str) -> (r: bool)
    ensures
        r == japanese_text(s@),
{
    match kakasi::is_japanese(s) {
        kakasi::IsJapanese::False => false,
        kakasi::IsJapanese::Maybe => true,
        kakasi::IsJapanese::True => true,
    }
}

/// Relies on `kakasi::convert`: the romanized form of the text.
#[verifier::external_body]
fn kakasi_romaji(s: &str) -> (r: String)
    ensures
        r@ == romaji_of(s@),
{
    kakasi::convert(s).romaji
}

/// What `fuzzywuzzy::fuzz::ratio` returns for two strings.
pub uninterp spec fn fuzz_ratio(a: Seq<char>, b: Seq<char>) -> nat;

/// What `fuzzywuzzy::fuzz::token_set_ratio` returns for two strings and its two flags.
pub uninterp spec fn token_set_ratio_of(
    a: Seq<char>,
    b: Seq<char>,
    force_ascii: bool,
    full_process: bool,
) -> nat;

/// The number of bytes of `c` in UTF-8.
pub open spec fn utf8_width(c: char) -> nat {
    if (c as u32) < 0x80 {
        1
    } else if (c as u32) < 0x800 {
        2
    } else if (c as u32) < 0x10000 {
        3
    } else {
        4
    }
}

/// The length of `s` in UTF-8 bytes, what `str::len` returns.
pub open spec fn utf8_len(s: Seq<char>) -> nat
    decreases s.len(),
{
    if s.len() == 0 {
        0
    } else {
        utf8_len(s.drop_last()) + utf8_width(s.last())
    }
}

/// Whether `fuzz::ratio` can take the pair: it takes the shorter of the two by
/// bytes (the first on a tie) and cuts it at byte offsets, which stays on
/// character boundaries only when that one is ASCII.
pub open spec fn ratio_safe(a: Seq<char>, b: Seq<char>) -> bool {
    if utf8_len(a) <= utf8_len(b) {
        all_ascii(a)
    } else {
        all_ascii(b)
    }
}

fn byte_len(v: &Vec<char>) -> (r: u128)
    ensures
        r as nat == utf8_len(v@),
{
    let mut n: u128 = 0;
    let mut i: usize = 0;
    while i < v.len()
        invariant
            i <= v@.len(),
            n as nat == utf8_len(v@.subrange(0, i as int)),
            n <= 4 * i,
        decreases v@.len() - i,
    {
        let c = v[i] as u32;
        let w: u128 = if c < 0x80 {
            1
        } else if c < 0x800 {
            2
        } else if c < 0x10000 {
            3
        } else {
            4
        };
        assert(v@.subrange(0, i + 1).drop_last() =~= v@.subrange(0, i as int));
        n = n + w;
        i = i + 1;
    }
    assert(v@.subrange(0, v@.len() as int) =~= v@);
    n
}

/// Relies on `fuzzywuzzy::fuzz::ratio`: a score in `0..=100`, and 100 for equal strings.
#[verifier::external_body]
fn fuzz_ratio_call(a: &str, b: &str) -> (r: u8)
    requires
        ratio_safe(a@, b@) || a@ == b@,
    ensures
        r as nat == fuzz_ratio(a@, b@),
        r <= 100,
        a@ == b@ ==> r == 100,
{
    fuzzywuzzy::fuzz::ratio(a, b)
}

/// Relies on `fuzzywuzzy::fuzz::token_set_ratio`: the largest of three ratios, in `0..=100`.
/// With `force_ascii` both strings are cut down to ASCII before any ratio is taken.
#[verifier::external_body]
pub(crate) fn token_set_ratio_call(a: &str, b: &str, force_ascii: bool, full_process: bool) -> (r: u8)
    requires
        force_ascii && full_process,
    ensures
        r as nat == token_set_ratio_of(a@, b@, force_ascii, full_process),
        r <= 100,
{
    fuzzywuzzy::fuzz::token_set_ratio(a, b, force_ascii, full_process)
}

/// Whether `pattern` compiles under `regex::Regex::new` and some part of
/// `text` matches it; false when it does not compile.
pub uninterp spec fn regex_found(pattern: Seq<char>, text: Seq<char>) -> bool;

/// Relies on `regex::Regex::new` and `Regex::is_match`.
#[verifier::external_body]
pub(crate) fn regex_is_match(pattern: &str, text: &str) -> (r: bool)
    ensures
        r == regex_found(pattern@, text@),
{
    regex::Regex::new(pattern).map_or(false, |re| re.is_match(text))
}

/// Hiragana, katakana or Han characters.
pub const JAPANESE_SCRIPT: &'static str = "[\\p{Hiragana}\\p{Katakana}\\p{Han}]";

/// The text as romanized when it looks Japanese, else unchanged.
pub open spec fn romanized(s: Seq<char>) -> Seq<char> {
    if japanese_text(s) {
        romaji_of(s)
    } else {
        s
    }
}

/// Romanizes text that holds Japanese script; other text is returned as it is.
pub fn process_possible_japanese(japanese: &str) -> (r: String)
    ensures
        r@ == romanized(japanese@),
{
    if kakasi_is_japanese(japanese) {
        kakasi_romaji(japanese)
    } else {
        owned(japanese)
    }
}

pub open spec fn normal_char(c: char) -> bool {
    alphanumeric(c) || c == ' '
}

/// The characters of `s` that are alphanumeric or a space, in order.
pub open spec fn keep_normal(s: Seq<char>) -> Seq<char>
    decreases s.len(),
{
    if s.len() == 0 {
        s
    } else if normal_char(s.last()) {
        keep_normal(s.drop_last()).push(s.last())
    } else {
        keep_normal(s.drop_last())
    }
}

/// Lower case, with everything but letters, digits and spaces removed.
pub open spec fn normalized(s: Seq<char>) -> Seq<char> {
    keep_normal(lower_of(s))
}

pub fn normalized_chars(text: &str) -> (r: Vec<char>)
    ensures
        r@ == normalized(text@),
{
    let lower = lowercase(text);
    let cs = chars_of(lower.as_str());
    let mut out: Vec<char> = Vec::new();
    let mut i: usize = 0;
    while i < cs.len()
        invariant
            i <= cs.len(),
            cs@ == lower_of(text@),
            out@ == keep_normal(cs@.subrange(0, i as int)),
        decreases cs.len() - i,
    {
        let c = cs[i];
        assert(cs@.subrange(0, i + 1).drop_last() =~= cs@.subrange(0, i as int));
        if is_alphanumeric(c) || c == ' ' {
            out.push(c);
        }
        i = i + 1;
    }
    assert(cs@.subrange(0, cs.len() as int) =~= cs@);
    out
}

pub open spec fn is_vowel(c: char) -> bool {
    c == 'a' || c == 'e' || c == 'i' || c == 'o' || c == 'u' || c == 'A' || c == 'E' || c == 'I'
        || c == 'O' || c == 'U'
}

/// `s` without its vowels.
pub open spec fn without_vowels(s: Seq<char>) -> Seq<char>
    decreases s.len(),
{
    if s.len() == 0 {
        s
    } else if is_vowel(s.last()) {
        without_vowels(s.drop_last())
    } else {
        without_vowels(s.drop_last()).push(s.last())
    }
}

/// Only the vowels of `s`.
pub open spec fn only_vowels(s: Seq<char>) -> Seq<char>
    decreases s.len(),
{
    if s.len() == 0 {
        s
    } else if is_vowel(s.last()) {
        only_vowels(s.drop_last()).push(s.last())
    } else {
        only_vowels(s.drop_last())
    }
}

fn strip_vowel_chars(word: &Vec<char>) -> (r: Vec<char>)
    ensures
        r@ == without_vowels(word@),
{
    let mut out: Vec<char> = Vec::new();
    let mut i: usize = 0;
    while i < word.len()
        invariant
            i <= word.len(),
            out@ == without_vowels(word@.subrange(0, i as int)),
        decreases word.len() - i,
    {
        let c = word[i];
        assert(word@.subrange(0, i + 1).drop_last() =~= word@.subrange(0, i as int));
        if !(c == 'a' || c == 'e' || c == 'i' || c == 'o' || c == 'u' || c == 'A' || c == 'E' || c
            == 'I' || c == 'O' || c == 'U') {
            out.push(c);
        }
        i = i + 1;
    }
    assert(word@.subrange(0, word.len() as int) =~= word@);
    out
}

fn vowel_chars(word: &Vec<char>) -> (r: Vec<char>)
    ensures
        r@ == only_vowels(word@),
{
    let mut out: Vec<char> = Vec::new();
    let mut i: usize = 0;
    while i < word.len()
        invariant
            i <= word.len(),
            out@ == only_vowels(word@.subrange(0, i as int)),
        decreases word.len() - i,
    {
        let c = word[i];
        assert(word@.subrange(0, i + 1).drop_last() =~= word@.subrange(0, i as int));
        if c == 'a' || c == 'e' || c == 'i' || c == 'o' || c == 'u' || c == 'A' || c == 'E' || c
            == 'I' || c == 'O' || c == 'U' {
            out.push(c);
        }
        i = i + 1;
    }
    assert(word@.subrange(0, word.len() as int) =~= word@);
    out
}

/// `r` read as `l` and `b` as `v`, the usual ambiguities of romanized Japanese.
pub open spec fn fold_consonant(c: char) -> char {
    if c == 'r' {
        'l'
    } else if c == 'b' {
        'v'
    } else {
        c
    }
}

pub open spec fn consonant_skeleton(s: Seq<char>) -> Seq<char> {
    without_vowels(s).map_values(|c: char| fold_consonant(c))
}

fn fold_consonants(word: &Vec<char>) -> (r: Vec<char>)
    ensures
        r@ == word@.map_values(|c: char| fold_consonant(c)),
{
    let mut out: Vec<char> = Vec::new();
    let mut i: usize = 0;
    while i < word.len()
        invariant
            i <= word.len(),
            out@ == word@.subrange(0, i as int).map_values(|c: char| fold_consonant(c)),
        decreases word.len() - i,
    {
        let c = word[i];
        let f = if c == 'r' {
            'l'
        } else if c == 'b' {
            'v'
        } else {
            c
        };
        out.push(f);
        i = i + 1;
        assert(out@ =~= word@.subrange(0, i as int).map_values(|c: char| fold_consonant(c)));
    }
    assert(word@.subrange(0, word.len() as int) =~= word@);
    out
}

/// The fuzzy ratio of two normalized strings, in `0..=100`. Equal strings score
/// 100 (the outside ratio never goes above it); a pair whose shorter side by
/// bytes holds non-ASCII characters, which the underlying ratio cannot cut
/// safely, scores 0.
pub open spec fn ratio_score(a: Seq<char>, b: Seq<char>) -> nat {
    if a == b {
        100
    } else if ratio_safe(a, b) {
        if fuzz_ratio(a, b) <= 100 {
            fuzz_ratio(a, b)
        } else {
            100
        }
    } else {
        0
    }
}

pub fn fuzzy_ratio(a: &Vec<char>, b: &Vec<char>) -> (r: u32)
    ensures
        r as nat == ratio_score(a@, b@),
        r <= 100,
{
    if same_chars(a, b) {
        return 100;
    }
    let a_shorter = byte_len(a) <= byte_len(b);
    let safe = if a_shorter {
        is_all_ascii(a)
    } else {
        is_all_ascii(b)
    };
    if safe {
        let sa = string_of(a);
        let sb = string_of(b);
        fuzz_ratio_call(sa.as_str(), sb.as_str()) as u32
    } else {
        0
    }
}

/// The similarity, in tenths, of `a` to `b`, given whether `a` holds Japanese script.
pub open spec fn similarity(a: Seq<char>, b: Seq<char>, japanese: bool) -> nat {
    if japanese {
        let ja = normalized(romanized(a));
        let ro = normalized(b);
        9 * ratio_score(consonant_skeleton(ja), consonant_skeleton(ro)) + ratio_score(ja, ro)
    } else {
        10 * ratio_score(normalized(a), normalized(b))
    }
}

/// The similarity of `japanese_text` to `romaji_text`, in tenths, once it is known
/// whether the first holds Japanese script.
pub fn similarity_given(japanese_text: &str, romaji_text: &str, japanese: bool) -> (r: u32)
    ensures
        r as nat == similarity(japanese_text@, romaji_text@, japanese),
        r <= 1000,
{
    if japanese {
        let romanized_japanese = process_possible_japanese(japanese_text);
        let normalized_japanese = normalized_chars(romanized_japanese.as_str());
        let normalized_romaji = normalized_chars(romaji_text);
        let full = fuzzy_ratio(&normalized_japanese, &normalized_romaji);
        let ja_consonants = fold_consonants(&strip_vowel_chars(&normalized_japanese));
        let ro_consonants = fold_consonants(&strip_vowel_chars(&normalized_romaji));
        let consonants = fuzzy_ratio(&ja_consonants, &ro_consonants);
        9 * consonants + full
    } else {
        let na = normalized_chars(japanese_text);
        let nb = normalized_chars(romaji_text);
        10 * fuzzy_ratio(&na, &nb)
    }
}

pub open spec fn has_japanese_script(s: Seq<char>) -> bool {
    regex_found(JAPANESE_SCRIPT@, s)
}

/// The score of `japanese_text` against `romaji_text`, in tenths.
pub open spec fn score(japanese_text: Seq<char>, romaji_text: Seq<char>) -> nat {
    similarity(japanese_text, romaji_text, has_japanese_script(japanese_text))
}

/// Scores, in tenths of a point (`0..=1000`), how well `romaji_text` matches
/// `japanese_text`. Text in Japanese script is romanized first, and then the
/// consonant skeletons of the two weigh nine times as much as the full strings.
pub fn process_similarity(japanese_text: &str, romaji_text: &str) -> (r: u32)
    ensures
        r as nat == score(japanese_text@, romaji_text@),
        r <= 1000,
{
    let japanese = regex_is_match(JAPANESE_SCRIPT, japanese_text);
    similarity_given(japanese_text, romaji_text, japanese)
}

/// Scores stay within `0..=1000`, and text that holds no Japanese script scores
/// full marks against itself.
pub proof fn lemma_score_bounds(a: Seq<char>, b: Seq<char>)
    ensures
        score(a, b) <= 1000,
        a == b && !has_japanese_script(a) ==> score(a, b) == 1000,
{
}


/// Lower case, with everything but letters, digits and spaces removed.
pub fn normalize_text(text: &str) -> (r: String)
    ensures
        r@ == normalized(text@),
{
    string_of(&normalized_chars(text))
}

/// The word without its vowels (`aeiou`, either case).
pub fn remove_vowels(word: &str) -> (r: String)
    ensures
        r@ == without_vowels(word@),
{
    string_of(&strip_vowel_chars(&chars_of(word)))
}

/// Only the vowels of the word (`aeiou`, either case).
pub fn remove_consonants(word: &str) -> (r: String)
    ensures
        r@ == only_vowels(word@),
{
    string_of(&vowel_chars(&chars_of(word)))
}

} // verus!
