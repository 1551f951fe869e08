//! Song roles and show classifications read from catalog text or store codes,
//! and the shapes handed to callers.
use crate::anilist::{ImageURL, Media};
use crate::anisong::{first_names, Anime, AnimeListLinks};
use crate::copies::{copy_image, copy_ints, copy_opt_id, copy_opt_image, copy_string, copy_strings};
use crate::databasetypes::{artist_id_list, artist_ids, DBAnime};
use crate::spotify::TrackObject;
use crate::error::{decimal_text, to_decimal, Error};
use crate::text::{chars_of, same_chars, string_of, white_space};
use vstd::prelude::*;

verus! {

/// The words of `s` split on white space, with the word still being read.
pub open spec fn words_acc(s: Seq<char>) -> (Seq<Seq<char>>, Seq<char>)
    decreases s.len(),
{
    if s.len() == 0 {
        (Seq::empty(), Seq::empty())
    } else {
        let (ws, cur) = words_acc(s.drop_last());
        if white_space(s.last()) {
            if cur.len() > 0 {
                (ws.push(cur), Seq::empty())
            } else {
                (ws, cur)
            }
        } else {
            (ws, cur.push(s.last()))
        }
    }
}

/// The non-empty runs of `s` between white space, in order.
pub open spec fn words(s: Seq<char>) -> Seq<Seq<char>> {
    let (ws, cur) = words_acc(s);
    if cur.len() > 0 {
        ws.push(cur)
    } else {
        ws
    }
}

pub open spec fn join_words(ws: Seq<Seq<char>>) -> Seq<char>
    decreases ws.len(),
{
    if ws.len() == 0 {
        Seq::empty()
    } else if ws.len() == 1 {
        ws[0]
    } else {
        join_words(ws.drop_last()) + seq![' '] + ws.last()
    }
}

pub open spec fn is_digit(c: char) -> bool {
    '0' <= c && c <= '9'
}

pub open spec fn digits_value(s: Seq<char>) -> int
    decreases s.len(),
{
    if s.len() == 0 {
        0
    } else {
        10 * digits_value(s.drop_last()) + (s.last() as int - '0' as int)
    }
}

pub open spec fn has_sign(s: Seq<char>) -> bool {
    s.len() > 0 && (s[0] == '-' || s[0] == '+')
}

/// `s` without its leading sign.
pub open spec fn digits_part(s: Seq<char>) -> Seq<char> {
    if has_sign(s) {
        s.drop_first()
    } else {
        s
    }
}

pub open spec fn all_digits(s: Seq<char>) -> bool {
    forall|i: int| 0 <= i < s.len() ==> is_digit(#[trigger] s[i])
}

pub open spec fn signed_value(s: Seq<char>) -> int {
    if has_sign(s) && s[0] == '-' {
        -digits_value(digits_part(s))
    } else {
        digits_value(digits_part(s))
    }
}

/// What `str::parse::<i32>` accepts: an optional sign, then one or more ASCII
/// digits, for a value in range.
pub open spec fn parsed_i32(s: Seq<char>) -> Option<i32> {
    if digits_part(s).len() > 0 && all_digits(digits_part(s)) && i32::MIN <= signed_value(s)
        <= i32::MAX {
        Some(signed_value(s) as i32)
    } else {
        None
    }
}

proof fn lemma_digits_nonneg(s: Seq<char>)
    requires
        forall|i: int| 0 <= i < s.len() ==> is_digit(#[trigger] s[i]),
    ensures
        digits_value(s) >= 0,
    decreases s.len(),
{
    if s.len() > 0 {
        assert forall|i: int| 0 <= i < s.drop_last().len() implies is_digit(#[trigger] s.drop_last()[i]) by {
            assert(s.drop_last()[i] == s[i]);
        }
        lemma_digits_nonneg(s.drop_last());
    }
}

/// Reads a decimal `i32` as `str::parse` does.
pub fn parse_i32(s: &Vec<char>) -> (r: Option<i32>)
    ensures
        r == parsed_i32(s@),
{
    let n = s.len();
    if n == 0 {
        return None;
    }
    let signed = s[0] == '-' || s[0] == '+';
    let negative = s[0] == '-';
    let start: usize = if signed {
        1
    } else {
        0
    };
    let ghost body = digits_part(s@);
    if start == n {
        return None;
    }
    let mut acc: i64 = 0;
    let mut too_big = false;
    let mut i: usize = start;
    while i < n
        invariant
            start <= i <= n,
            n == s@.len(),
            n > 0,
            signed == (s@[0] == '-' || s@[0] == '+'),
            negative == (s@[0] == '-'),
            start == (if signed { 1usize } else { 0usize }),
            body == digits_part(s@),
            body == s@.subrange(start as int, n as int),
            forall|k: int| 0 <= k < i - start ==> is_digit(#[trigger] body[k]),
            !too_big ==> acc == digits_value(body.subrange(0, i - start)) && 0 <= acc <= 2147483648,
            too_big ==> digits_value(body.subrange(0, i - start)) > 2147483648,
        decreases n - i,
    {
        let c = s[i];
        if !('0' <= c && c <= '9') {
            assert(body[i - start] == c);
            assert(!is_digit(body[i - start]));
            assert(!all_digits(body));
            return None;
        }
        let ghost prefix = body.subrange(0, i - start);
        let ghost next = body.subrange(0, i + 1 - start);
        assert(next.drop_last() =~= prefix);
        assert(body[i - start] == c);
        assert forall|k: int| 0 <= k < prefix.len() implies is_digit(#[trigger] prefix[k]) by {
            assert(prefix[k] == body[k]);
        }
        proof {
            lemma_digits_nonneg(prefix);
        }
        let d = (c as u32 - '0' as u32) as i64;
        if !too_big {
            acc = acc * 10 + d;
            if acc > 2147483648 {
                too_big = true;
            }
        } else {
            assert(digits_value(next) == 10 * digits_value(prefix) + d);
        }
        i = i + 1;
    }
    assert(body.subrange(0, n - start) =~= body);
    if too_big {
        return None;
    }
    let v = if negative {
        -acc
    } else {
        acc
    };
    if v < -2147483648 || v > 2147483647 {
        None
    } else {
        Some(v as i32)
    }
}

/// The words of `s`.
pub fn split_words(s: &Vec<char>) -> (r: Vec<Vec<char>>)
    ensures
        r@.map_values(|w: Vec<char>| w@) == words(s@),
{
    let mut ws: Vec<Vec<char>> = Vec::new();
    let mut cur: Vec<char> = Vec::new();
    let mut i: usize = 0;
    while i < s.len()
        invariant
            i <= s.len(),
            (ws@.map_values(|w: Vec<char>| w@), cur@) == words_acc(s@.subrange(0, i as int)),
        decreases s.len() - i,
    {
        let c = s[i];
        assert(s@.subrange(0, i + 1).drop_last() =~= s@.subrange(0, i as int));
        if crate::text::is_whitespace(c) {
            if cur.len() > 0 {
                let ghost before = ws@.map_values(|w: Vec<char>| w@);
                let ghost done = cur@;
                ws.push(cur);
                cur = Vec::new();
                assert(ws@.map_values(|w: Vec<char>| w@) =~= before.push(done));
            }
        } else {
            cur.push(c);
        }
        i = i + 1;
    }
    assert(s@.subrange(0, s.len() as int) =~= s@);
    if cur.len() > 0 {
        let ghost before = ws@.map_values(|w: Vec<char>| w@);
        ws.push(cur);
        assert(ws@.map_values(|w: Vec<char>| w@) =~= before.push(ws@.last()@));
    }
    ws
}

/// Joins words with single spaces.
pub fn join_word_list(ws: &Vec<Vec<char>>, count: usize) -> (r: Vec<char>)
    requires
        count <= ws@.len(),
    ensures
        r@ == join_words(ws@.subrange(0, count as int).map_values(|w: Vec<char>| w@)),
{
    let mut out: Vec<char> = Vec::new();
    let mut i: usize = 0;
    while i < count
        invariant
            i <= count <= ws@.len(),
            out@ == join_words(ws@.subrange(0, i as int).map_values(|w: Vec<char>| w@)),
        decreases count - i,
    {
        let ghost before = ws@.subrange(0, i as int).map_values(|w: Vec<char>| w@);
        let ghost after = ws@.subrange(0, i + 1).map_values(|w: Vec<char>| w@);
        assert(after.drop_last() =~= before);
        if i > 0 {
            out.push(' ');
        }
        let ghost base = out@;
        let mut j: usize = 0;
        while j < ws[i].len()
            invariant
                i < ws@.len(),
                j <= ws@[i as int]@.len(),
                out@ == base + ws@[i as int]@.subrange(0, j as int),
            decreases ws@[i as int]@.len() - j,
        {
            out.push(ws[i][j]);
            j = j + 1;
            assert(out@ =~= base + ws@[i as int]@.subrange(0, j as int));
        }
        assert(ws@[i as int]@.subrange(0, j as int) =~= ws@[i as int]@);
        i = i + 1;
        if i == 1 {
            assert(out@ =~= after[0]);
        } else {
            assert(out@ =~= join_words(before) + seq![' '] + after.last());
        }
    }
    out
}

/// A label and the number after it: when the last word of `s` reads as an
/// `i32`, the words before it joined by single spaces and that number; else
/// `s` unchanged and no number.
pub open spec fn split_label(s: Seq<char>) -> (Seq<char>, Option<i32>) {
    let ws = words(s);
    if ws.len() > 0 && parsed_i32(ws.last()) is Some {
        (join_words(ws.drop_last()), parsed_i32(ws.last()))
    } else {
        (s, None)
    }
}

pub fn split_string(input: &str) -> (r: (String, Option<i32>))
    ensures
        (r.0@, r.1) == split_label(input@),
{
    let cs = chars_of(input);
    let ws = split_words(&cs);
    let ghost wv = ws@.map_values(|w: Vec<char>| w@);
    if ws.len() > 0 {
        let last = ws.len() - 1;
        assert(wv.last() == ws@[last as int]@);
        if let Some(num) = parse_i32(&ws[last]) {
            let text = join_word_list(&ws, last);
            assert(ws@.subrange(0, last as int).map_values(|w: Vec<char>| w@) =~= wv.drop_last());
            return (string_of(&text), Some(num));
        }
    }
    (string_of(&cs), None)
}

/// Whether `v` holds exactly the characters of `lit`.
pub fn is_text(v: &Vec<char>, lit: &str) -> (r: bool)
    ensures
        r == (v@ == lit@),
{
    same_chars(v, &chars_of(lit))
}

#[derive(Debug, Clone, Copy, PartialEq, Eq, Structural)]
pub enum AnimeType {
    TV,
    Movie,
    OVA,
    ONA,
    Special,
    Unknown,
}

pub open spec fn anime_type_of(s: Option<Seq<char>>) -> AnimeType {
    match s {
        Some(v) => if v == "TV"@ {
            AnimeType::TV
        } else if v == "Movie"@ {
            AnimeType::Movie
        } else if v == "OVA"@ {
            AnimeType::OVA
        } else if v == "ONA"@ {
            AnimeType::ONA
        } else if v == "Special"@ {
            AnimeType::Special
        } else {
            AnimeType::Unknown
        },
        None => AnimeType::Unknown,
    }
}

impl AnimeType {
    pub fn from_str(type_string: Option<&str>) -> (r: Self)
        ensures
            r == anime_type_of(
                match type_string {
                    Some(s) => Some(s@),
                    None => None,
                },
            ),
    {
        match type_string {
            Some(value) => {
                let v = chars_of(value);
                if is_text(&v, "TV") {
                    AnimeType::TV
                } else if is_text(&v, "Movie") {
                    AnimeType::Movie
                } else if is_text(&v, "OVA") {
                    AnimeType::OVA
                } else if is_text(&v, "ONA") {
                    AnimeType::ONA
                } else if is_text(&v, "Special") {
                    AnimeType::Special
                } else {
                    AnimeType::Unknown
                }
            },
            None => AnimeType::Unknown,
        }
    }

    pub open spec fn code_spec(&self) -> i16 {
        match self {
            AnimeType::TV => 0,
            AnimeType::Movie => 1,
            AnimeType::OVA => 2,
            AnimeType::ONA => 3,
            AnimeType::Special => 4,
            AnimeType::Unknown => 5,
        }
    }

    /// The store's code for the type; `Unknown` has 5, which `from_db` refuses.
    pub fn code(&self) -> (r: i16)
        ensures
            r == self.code_spec(),
            Self::from_db_spec(r) == (if *self == AnimeType::Unknown {
                None
            } else {
                Some(*self)
            }),
    {
        match self {
            AnimeType::TV => 0,
            AnimeType::Movie => 1,
            AnimeType::OVA => 2,
            AnimeType::ONA => 3,
            AnimeType::Special => 4,
            AnimeType::Unknown => 5,
        }
    }

    pub open spec fn from_db_spec(d: i16) -> Option<AnimeType> {
        if d == 0 {
            Some(AnimeType::TV)
        } else if d == 1 {
            Some(AnimeType::Movie)
        } else if d == 2 {
            Some(AnimeType::OVA)
        } else if d == 3 {
            Some(AnimeType::ONA)
        } else if d == 4 {
            Some(AnimeType::Special)
        } else {
            None
        }
    }

    pub fn from_db(discriminator: i16) -> (r: Result<Self, Error>)
        ensures
            Self::from_db_spec(discriminator) matches Some(t) ==> r == Ok::<AnimeType, Error>(t),
            Self::from_db_spec(discriminator) is None ==> (r matches Err(Error::ParseError(m))
                && m@ == decimal_text(discriminator as int)),
    {
        match discriminator {
            0 => Ok(AnimeType::TV),
            1 => Ok(AnimeType::Movie),
            2 => Ok(AnimeType::OVA),
            3 => Ok(AnimeType::ONA),
            4 => Ok(AnimeType::Special),
            _ => Err(Error::ParseError(to_decimal(discriminator as i64))),
        }
    }
}

/// A song's role in a show, with its number.
#[derive(Debug, Clone, Copy, PartialEq, Eq, Structural)]
pub enum AnimeTrackIndex {
    Opening(i32),
    Insert(i32),
    Ending(i32),
}

pub open spec fn or_default(n: Option<i32>, d: i32) -> i32 {
    match n {
        Some(v) => v,
        None => d,
    }
}

pub open spec fn track_index_of(s: Seq<char>) -> Option<AnimeTrackIndex> {
    let (label, n) = split_label(s);
    if label == "Opening"@ {
        Some(AnimeTrackIndex::Opening(or_default(n, 1)))
    } else if label == "Insert Song"@ {
        Some(AnimeTrackIndex::Insert(or_default(n, 0)))
    } else if label == "Ending"@ {
        Some(AnimeTrackIndex::Ending(or_default(n, 1)))
    } else {
        None
    }
}

/// The text of a pair of store codes, `kind:value`.
pub open spec fn code_pair_text(kind: i16, value: i32) -> Seq<char> {
    decimal_text(kind as int) + seq![':'] + decimal_text(value as int)
}

fn code_pair(kind: i16, value: i32) -> (r: String)
    ensures
        r@ == code_pair_text(kind, value),
{
    let mut s = to_decimal(kind as i64);
    proof {
        reveal_strlit(":");
    }
    s.append(":");
    let v = to_decimal(value as i64);
    s.append(v.as_str());
    assert(s@ =~= code_pair_text(kind, value));
    s
}

impl AnimeTrackIndex {
    /// Reads `Opening N`, `Insert Song N` or `Ending N`; the number defaults to
    /// 1, 0 and 1. Any other role is a `ParseError` holding the input.
    pub fn from_str(input: &str) -> (r: Result<Self, Error>)
        ensures
            track_index_of(input@) matches Some(t) ==> r == Ok::<AnimeTrackIndex, Error>(t),
            track_index_of(input@) is None ==> (r matches Err(Error::ParseError(m)) && m@
                == input@),
    {
        let (label, number) = split_string(input);
        let l = chars_of(label.as_str());
        if is_text(&l, "Opening") {
            Ok(AnimeTrackIndex::Opening(
                match number {
                    Some(n) => n,
                    None => 1,
                },
            ))
        } else if is_text(&l, "Insert Song") {
            Ok(AnimeTrackIndex::Insert(
                match number {
                    Some(n) => n,
                    None => 0,
                },
            ))
        } else if is_text(&l, "Ending") {
            Ok(AnimeTrackIndex::Ending(
                match number {
                    Some(n) => n,
                    None => 1,
                },
            ))
        } else {
            Err(Error::ParseError(crate::text::owned(input)))
        }
    }

    pub open spec fn code_spec(&self) -> u8 {
        match self {
            AnimeTrackIndex::Opening(_) => 0,
            AnimeTrackIndex::Insert(_) => 1,
            AnimeTrackIndex::Ending(_) => 2,
        }
    }

    pub open spec fn value_spec(&self) -> i32 {
        match self {
            AnimeTrackIndex::Opening(v) | AnimeTrackIndex::Insert(v) | AnimeTrackIndex::Ending(v) => *v,
        }
    }

    /// The store's code for the role: 0, 1, 2 in declaration order.
    pub fn discriminant(&self) -> (r: u8)
        ensures
            r == self.code_spec(),
    {
        match self {
            AnimeTrackIndex::Opening(_) => 0,
            AnimeTrackIndex::Insert(_) => 1,
            AnimeTrackIndex::Ending(_) => 2,
        }
    }

    pub fn value(&self) -> (r: i32)
        ensures
            r == self.value_spec(),
    {
        match self {
            AnimeTrackIndex::Opening(val) | AnimeTrackIndex::Insert(val) | AnimeTrackIndex::Ending(
                val,
            ) => *val,
        }
    }

    pub open spec fn from_db_spec(d: i16, v: i32) -> Option<AnimeTrackIndex> {
        if d == 0 {
            Some(AnimeTrackIndex::Opening(v))
        } else if d == 1 {
            Some(AnimeTrackIndex::Insert(v))
        } else if d == 2 {
            Some(AnimeTrackIndex::Ending(v))
        } else {
            None
        }
    }

    pub fn from_db(discriminator: i16, value: i32) -> (r: Result<Self, Error>)
        ensures
            Self::from_db_spec(discriminator, value) matches Some(t) ==> r == Ok::<
                AnimeTrackIndex,
                Error,
            >(t),
            Self::from_db_spec(discriminator, value) is None ==> (r matches Err(
                Error::ParseError(m),
            ) && m@ == code_pair_text(discriminator, value)),
    {
        match discriminator {
            0 => Ok(AnimeTrackIndex::Opening(value)),
            1 => Ok(AnimeTrackIndex::Insert(value)),
            2 => Ok(AnimeTrackIndex::Ending(value)),
            _ => Err(Error::ParseError(code_pair(discriminator, value))),
        }
    }
}

/// A show's classification, with its number.
#[derive(Debug, Clone, Copy, PartialEq, Eq, Structural)]
pub enum AnimeIndex {
    Season(i32),
    Movie(i32),
    ONA(i32),
    OVA(i32),
    TVSpecial(i32),
    Special(i32),
    MusicVideo(i32),
}

pub open spec fn anime_index_of(s: Seq<char>) -> Option<AnimeIndex> {
    let (label, n) = split_label(s);
    if label == "TV"@ {
        Some(AnimeIndex::Season(0))
    } else if label == "Season"@ {
        Some(AnimeIndex::Season(or_default(n, 1)))
    } else if label == "Movie"@ {
        Some(AnimeIndex::Movie(or_default(n, 1)))
    } else if label == "ONA"@ {
        Some(AnimeIndex::ONA(or_default(n, 0)))
    } else if label == "OVA"@ {
        Some(AnimeIndex::OVA(or_default(n, 1)))
    } else if label == "TV Special"@ {
        Some(AnimeIndex::TVSpecial(or_default(n, 1)))
    } else if label == "Special"@ {
        Some(AnimeIndex::Special(or_default(n, 1)))
    } else if label == "Music Video"@ {
        Some(AnimeIndex::MusicVideo(or_default(n, 1)))
    } else {
        None
    }
}

impl AnimeIndex {
    pub open spec fn code_spec(&self) -> u8 {
        match self {
            AnimeIndex::Season(_) => 0,
            AnimeIndex::Movie(_) => 1,
            AnimeIndex::ONA(_) => 2,
            AnimeIndex::OVA(_) => 3,
            AnimeIndex::TVSpecial(_) => 4,
            AnimeIndex::Special(_) => 5,
            AnimeIndex::MusicVideo(_) => 6,
        }
    }

    pub open spec fn value_spec(&self) -> i32 {
        match self {
            AnimeIndex::Season(v) | AnimeIndex::Movie(v) | AnimeIndex::ONA(v) | AnimeIndex::OVA(v)
            | AnimeIndex::TVSpecial(v) | AnimeIndex::Special(v) | AnimeIndex::MusicVideo(v) => *v,
        }
    }

    /// The store's code for the classification: 0 to 6 in declaration order.
    pub fn discriminant(&self) -> (r: u8)
        ensures
            r == self.code_spec(),
    {
        match self {
            AnimeIndex::Season(_) => 0,
            AnimeIndex::Movie(_) => 1,
            AnimeIndex::ONA(_) => 2,
            AnimeIndex::OVA(_) => 3,
            AnimeIndex::TVSpecial(_) => 4,
            AnimeIndex::Special(_) => 5,
            AnimeIndex::MusicVideo(_) => 6,
        }
    }

    pub fn value(&self) -> (r: i32)
        ensures
            r == self.value_spec(),
    {
        match self {
            AnimeIndex::Season(val) | AnimeIndex::Movie(val) | AnimeIndex::ONA(val)
            | AnimeIndex::OVA(val) | AnimeIndex::TVSpecial(val) | AnimeIndex::Special(val)
            | AnimeIndex::MusicVideo(val) => *val,
        }
    }

    /// Reads a catalog category: `TV`, or `Season`, `Movie`, `ONA`, `OVA`,
    /// `TV Special`, `Special`, `Music Video` with an optional number. Any other
    /// is a `ParseError` holding the input.
    pub fn from_str(anime_category: &str) -> (r: Result<Self, Error>)
        ensures
            anime_index_of(anime_category@) matches Some(t) ==> r == Ok::<AnimeIndex, Error>(t),
            anime_index_of(anime_category@) is None ==> (r matches Err(Error::ParseError(m))
                && m@ == anime_category@),
    {
        let (label, number) = split_string(anime_category);
        let l = chars_of(label.as_str());
        let n1 = match number {
            Some(n) => n,
            None => 1,
        };
        if is_text(&l, "TV") {
            Ok(AnimeIndex::Season(0))
        } else if is_text(&l, "Season") {
            Ok(AnimeIndex::Season(n1))
        } else if is_text(&l, "Movie") {
            Ok(AnimeIndex::Movie(n1))
        } else if is_text(&l, "ONA") {
            Ok(AnimeIndex::ONA(
                match number {
                    Some(n) => n,
                    None => 0,
                },
            ))
        } else if is_text(&l, "OVA") {
            Ok(AnimeIndex::OVA(n1))
        } else if is_text(&l, "TV Special") {
            Ok(AnimeIndex::TVSpecial(n1))
        } else if is_text(&l, "Special") {
            Ok(AnimeIndex::Special(n1))
        } else if is_text(&l, "Music Video") {
            Ok(AnimeIndex::MusicVideo(n1))
        } else {
            Err(Error::ParseError(crate::text::owned(anime_category)))
        }
    }

    pub open spec fn from_db_spec(d: i16, v: i32) -> Option<AnimeIndex> {
        if d == 0 {
            Some(AnimeIndex::Season(v))
        } else if d == 1 {
            Some(AnimeIndex::Movie(v))
        } else if d == 2 {
            Some(AnimeIndex::ONA(v))
        } else if d == 3 {
            Some(AnimeIndex::OVA(v))
        } else if d == 4 {
            Some(AnimeIndex::TVSpecial(v))
        } else if d == 5 {
            Some(AnimeIndex::Special(v))
        } else if d == 6 {
            Some(AnimeIndex::MusicVideo(v))
        } else {
            None
        }
    }

    pub fn from_db(discriminator: i16, value: i32) -> (r: Result<Self, Error>)
        ensures
            Self::from_db_spec(discriminator, value) matches Some(t) ==> r == Ok::<AnimeIndex, Error>(t),
            Self::from_db_spec(discriminator, value) is None ==> (r matches Err(
                Error::ParseError(m),
            ) && m@ == code_pair_text(discriminator, value)),
    {
        match discriminator {
            0 => Ok(AnimeIndex::Season(value)),
            1 => Ok(AnimeIndex::Movie(value)),
            2 => Ok(AnimeIndex::ONA(value)),
            3 => Ok(AnimeIndex::OVA(value)),
            4 => Ok(AnimeIndex::TVSpecial(value)),
            5 => Ok(AnimeIndex::Special(value)),
            6 => Ok(AnimeIndex::MusicVideo(value)),
            _ => Err(Error::ParseError(code_pair(discriminator, value))),
        }
    }
}


/// The played track as callers see it.
#[derive(Debug)]
pub struct SongInfo {
    pub title: String,
    pub artists: Vec<String>,
    pub album_picture_url: String,
    pub spotify_id: String,
}

pub open spec fn streaming_names(track: TrackObject) -> Seq<Seq<char>> {
    track.artists@.map_values(|a: crate::spotify::SimplifiedArtist| a.name@)
}

impl SongInfo {
    /// The title, artist names, first album image and id of the track.
    pub fn from_track_obj(track_object: &TrackObject) -> (r: Self)
        requires
            track_object.album.images@.len() > 0,
        ensures
            r.title == track_object.name,
            r.artists@.map_values(|s: String| s@) == streaming_names(*track_object),
            r.album_picture_url == track_object.album.images@[0].url,
            r.spotify_id == track_object.id,
    {
        let mut artists: Vec<String> = Vec::new();
        let mut i: usize = 0;
        while i < track_object.artists.len()
            invariant
                i <= track_object.artists@.len(),
                artists@.map_values(|s: String| s@) == streaming_names(*track_object).subrange(0, i as int),
            decreases track_object.artists@.len() - i,
        {
            let name = copy_string(&track_object.artists[i].name);
            let ghost before = artists@.map_values(|s: String| s@);
            assert(name@ == streaming_names(*track_object)[i as int]);
            artists.push(name);
            assert(artists@.map_values(|s: String| s@) =~= before.push(name@));
            i = i + 1;
            assert(artists@.map_values(|s: String| s@) =~= streaming_names(*track_object).subrange(0, i as int));
        }
        assert(streaming_names(*track_object).subrange(0, i as int) =~= streaming_names(*track_object));
        SongInfo {
            title: copy_string(&track_object.name),
            artists,
            album_picture_url: copy_string(&track_object.album.images[0].url),
            spotify_id: copy_string(&track_object.id),
        }
    }
}

/// One show-and-song entry as callers see it.
#[derive(Debug)]
pub struct FrontendAnimeEntry {
    pub title: String,
    pub title_japanese: String,
    pub anime_index: AnimeIndex,
    pub track_index: AnimeTrackIndex,
    pub anime_type: Option<AnimeType>,
    pub image_url: Option<ImageURL>,
    pub banner_url: Option<ImageURL>,
    pub linked_ids: AnimeListLinks,
    pub score: Option<i32>,
    pub song_name: String,
    pub artist_ids: Vec<i32>,
    pub artist_names: Vec<String>,
}

impl FrontendAnimeEntry {
    /// The entry of catalog song `anisong`, with cover, banner and score from
    /// `anilist_media` when given. A category or song role that does not read is
    /// a `ParseError`.
    pub fn new(anisong_anime: &Anime, anilist_media: Option<&Media>) -> (r: Result<Self, Error>)
        ensures
            r is Ok <==> (anime_index_of(anisong_anime.animeCategory@) is Some && track_index_of(
                anisong_anime.songType@,
            ) is Some),
            r matches Err(e) ==> e is ParseError,
            r matches Ok(e) ==> e.title == anisong_anime.animeENName && e.title_japanese
                == anisong_anime.animeJPName && e.song_name == anisong_anime.songName
                && Some(e.anime_index) == anime_index_of(anisong_anime.animeCategory@)
                && Some(e.track_index) == track_index_of(anisong_anime.songType@)
                && e.linked_ids == anisong_anime.linked_ids && e.artist_ids@ == artist_ids(
                anisong_anime.artists@,
            ) && e.artist_names@.map_values(|s: String| s@) == first_names(
                anisong_anime.artists@,
            ) && e.anime_type == Some(anime_type_of(
                match anisong_anime.animeType {
                    Some(t) => Some(t@),
                    None => None,
                },
            )) && e.score == (match anilist_media {
                Some(m) => Some(m.mean_score),
                None => None,
            }) && e.banner_url == (match anilist_media {
                Some(m) => m.banner_image,
                None => None,
            }) && e.image_url == (match anilist_media {
                Some(m) => match m.cover_image {
                    Some(c) => c.medium,
                    None => None,
                },
                None => None,
            }),
    {
        let anime_index = match AnimeIndex::from_str(anisong_anime.animeCategory.as_str()) {
            Ok(i) => i,
            Err(e) => return Err(e),
        };
        let track_index = match AnimeTrackIndex::from_str(anisong_anime.songType.as_str()) {
            Ok(t) => t,
            Err(e) => return Err(e),
        };
        let anime_type = AnimeType::from_str(
            match &anisong_anime.animeType {
                Some(t) => Some(t.as_str()),
                None => None,
            },
        );
        let (image_url, banner_url, score) = match anilist_media {
            Some(m) => (
                match &m.cover_image {
                    Some(c) => copy_opt_image(&c.medium),
                    None => None,
                },
                copy_opt_image(&m.banner_image),
                Some(m.mean_score),
            ),
            None => (None, None, None),
        };
        Ok(FrontendAnimeEntry {
            title: copy_string(&anisong_anime.animeENName),
            title_japanese: copy_string(&anisong_anime.animeJPName),
            anime_index,
            track_index,
            anime_type: Some(anime_type),
            image_url,
            banner_url,
            linked_ids: AnimeListLinks {
                myanimelist: anisong_anime.linked_ids.myanimelist,
                anidb: anisong_anime.linked_ids.anidb,
                anilist: copy_opt_id(&anisong_anime.linked_ids.anilist),
                kitsu: anisong_anime.linked_ids.kitsu,
            },
            score,
            song_name: copy_string(&anisong_anime.songName),
            artist_ids: artist_id_list(&anisong_anime.artists),
            artist_names: crate::anisong::artist_first_names(&anisong_anime.artists),
        })
    }

    /// The entry of a stored record.
    pub fn from_db(db_anime: &DBAnime) -> (r: Self)
        requires
            db_anime.wf(),
        ensures
            r.title == db_anime.title_eng,
            r.title_japanese == db_anime.title_jpn,
            Some(r.anime_index) == AnimeIndex::from_db_spec(db_anime.index_type, db_anime.index_number),
            Some(r.track_index) == AnimeTrackIndex::from_db_spec(
                db_anime.track_index_type,
                db_anime.track_index_number,
            ),
            r.anime_type == AnimeType::from_db_spec(db_anime.anime_type),
            r.image_url == db_anime.cover_image_medium,
            r.banner_url == db_anime.banner_image,
            r.linked_ids == (AnimeListLinks {
                myanimelist: db_anime.mal_id,
                anidb: db_anime.anidb_id,
                anilist: db_anime.anilist_id,
                kitsu: db_anime.kitsu_id,
            }),
            r.score == db_anime.mean_score,
            r.song_name == db_anime.song_name,
            r.artist_ids@ == db_anime.artists_ann_id@,
            r.artist_names@ == db_anime.artist_names@,
    {
        let anime_index = match AnimeIndex::from_db(db_anime.index_type, db_anime.index_number) {
            Ok(i) => i,
            Err(_) => AnimeIndex::Season(0),
        };
        let track_index = match AnimeTrackIndex::from_db(
            db_anime.track_index_type,
            db_anime.track_index_number,
        ) {
            Ok(t) => t,
            Err(_) => AnimeTrackIndex::Opening(0),
        };
        let anime_type = match AnimeType::from_db(db_anime.anime_type) {
            Ok(t) => Some(t),
            Err(_) => None,
        };
        FrontendAnimeEntry {
            title: copy_string(&db_anime.title_eng),
            title_japanese: copy_string(&db_anime.title_jpn),
            anime_index,
            track_index,
            anime_type,
            image_url: copy_opt_image(&db_anime.cover_image_medium),
            banner_url: copy_opt_image(&db_anime.banner_image),
            linked_ids: AnimeListLinks {
                myanimelist: db_anime.mal_id,
                anidb: db_anime.anidb_id,
                anilist: copy_opt_id(&db_anime.anilist_id),
                kitsu: db_anime.kitsu_id,
            },
            score: db_anime.mean_score,
            song_name: copy_string(&db_anime.song_name),
            artist_ids: copy_ints(&db_anime.artists_ann_id),
            artist_names: copy_strings(&db_anime.artist_names),
        }
    }
}

/// A confident match: the certainty in points, the matching entries and more by
/// the same artists.
#[derive(Debug)]
pub struct SongHit {
    pub song_info: SongInfo,
    pub certainty: i32,
    pub anime_info: Vec<FrontendAnimeEntry>,
    pub more_with_artist: Vec<FrontendAnimeEntry>,
}

/// No confident match: the entries it might be.
#[derive(Debug)]
pub struct SongMiss {
    pub song_info: SongInfo,
    pub possible_anime: Vec<FrontendAnimeEntry>,
}

#[derive(Debug)]
pub enum NewSong {
    Hit(SongHit),
    Miss(SongMiss),
}

#[derive(Debug)]
pub enum ContentUpdate {
    NewSong(NewSong),
    LoginRequired,
    NoUpdates,
    NotPlaying,
}

#[derive(Debug, Clone)]
pub struct JikanFailResponse {
    pub status: String,
    pub message: String,
}

#[derive(Debug, Clone)]
pub struct ImageSet {
    pub image_url: String,
    pub small_image_url: String,
    pub large_image_url: String,
}

#[derive(Debug, Clone)]
pub struct Images {
    pub jpg: ImageSet,
    pub webp: ImageSet,
}

#[derive(Debug, Clone)]
pub struct TrailerImages {
    pub image_url: Option<String>,
    pub small_image_url: Option<String>,
    pub medium_image_url: Option<String>,
    pub large_image_url: Option<String>,
    pub maximum_image_url: Option<String>,
}

#[derive(Debug, Clone)]
pub struct Trailer {
    pub youtube_id: Option<String>,
    pub url: Option<String>,
    pub embed_url: Option<String>,
    pub images: TrailerImages,
}

#[derive(Debug, Clone)]
pub struct Title {
    pub title_type: String,
    pub title: String,
}

#[derive(Debug, Clone)]
pub struct DateInfo {
    pub day: Option<i32>,
    pub month: Option<i32>,
    pub year: Option<i32>,
}

#[derive(Debug, Clone)]
pub struct AiredProp {
    pub from: DateInfo,
    pub to: DateInfo,
}

#[derive(Debug, Clone)]
pub struct Aired {
    pub from: Option<String>,
    pub to: Option<String>,
    pub prop: AiredProp,
    pub string: String,
}

#[derive(Debug, Clone)]
pub struct Broadcast {
    pub day: Option<String>,
    pub time: Option<String>,
    pub timezone: Option<String>,
    pub string: Option<String>,
}

#[derive(Debug, Clone)]
pub struct Producer {
    pub mal_id: i32,
    pub producer_type: String,
    pub name: String,
    pub url: String,
}

#[derive(Debug, Clone)]
pub struct Genre {
    pub mal_id: i32,
    pub genre_type: String,
    pub name: String,
    pub url: String,
}

} // verus!
