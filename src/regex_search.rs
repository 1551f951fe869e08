//! Match patterns for artist names whose transliteration varies between sources.
use crate::text::{chars_of, lead_white, string_of, trail_white, trimmed, white_space};
use vstd::prelude::*;

verus! {

/// Whether one of `(CV:`, `(CV.`, `(Vo:`, `(Vo.` starts at `k`.
pub open spec fn marker_at(s: Seq<char>, k: int) -> bool {
    0 <= k && k + 4 <= s.len() && s[k] == '(' && ((s[k + 1] == 'C' && s[k + 2] == 'V') || (s[k
        + 1] == 'V' && s[k + 2] == 'o')) && (s[k + 3] == ':' || s[k + 3] == '.')
}

/// The first voice-credit marker at or after `k`.
pub open spec fn marker_from(s: Seq<char>, k: int) -> Option<int>
    decreases s.len() - k,
{
    if k < 0 || k + 4 > s.len() {
        None
    } else if marker_at(s, k) {
        Some(k)
    } else {
        marker_from(s, k + 1)
    }
}

/// The first `)` at or after `k`.
pub open spec fn close_from(s: Seq<char>, k: int) -> Option<int>
    decreases s.len() - k,
{
    if k < 0 || k >= s.len() {
        None
    } else if s[k] == ')' {
        Some(k)
    } else {
        close_from(s, k + 1)
    }
}

/// How many white-space characters start `s` at `k`, stopping before `end`.
pub open spec fn white_run(s: Seq<char>, k: int, end: int) -> nat
    decreases end - k,
{
    if k < 0 || k >= end || k >= s.len() || !white_space(s[k]) {
        0
    } else {
        1 + white_run(s, k + 1, end)
    }
}

/// Each `Character (CV: Artist)` or `Character (Vo. Artist)` replaced by the
/// artist alone: everything from the current point through the first marker and
/// up to the next `)` gives way to the text inside, without its leading white
/// space. Text with no such credit stays as it is.
pub open spec fn strip_voice_credits(s: Seq<char>) -> Seq<char>
    decreases s.len(),
{
    match marker_from(s, 0) {
        None => s,
        Some(k) => match close_from(s, k + 4) {
            None => s,
            Some(j) => if k + 4 <= j < s.len() {
                s.subrange(k + 4 + white_run(s, k + 4, j), j) + strip_voice_credits(
                    s.subrange(j + 1, s.len() as int),
                )
            } else {
                s
            },
        },
    }
}

proof fn lemma_close_bounds(s: Seq<char>, k: int)
    ensures
        close_from(s, k) matches Some(j) ==> k <= j < s.len() && s[j] == ')',
    decreases s.len() - k,
{
    if !(k < 0 || k >= s.len()) && s[k] != ')' {
        lemma_close_bounds(s, k + 1);
    }
}

proof fn lemma_marker_bounds(s: Seq<char>, k: int)
    ensures
        marker_from(s, k) matches Some(m) ==> k <= m && m + 4 <= s.len(),
    decreases s.len() - k,
{
    if !(k < 0 || k + 4 > s.len()) && !marker_at(s, k) {
        lemma_marker_bounds(s, k + 1);
    }
}

proof fn lemma_white_run_bound(s: Seq<char>, k: int, end: int)
    requires
        0 <= k <= end,
    ensures
        k + white_run(s, k, end) <= end,
    decreases end - k,
{
    if !(k >= end || k >= s.len() || !white_space(s[k])) {
        lemma_white_run_bound(s, k + 1, end);
    }
}

fn find_marker(s: &Vec<char>, from: usize) -> (r: Option<usize>)
    ensures
        match r {
            Some(k) => marker_from(s@, from as int) == Some(k as int),
            None => marker_from(s@, from as int).is_none(),
        },
    decreases s.len() - from,
{
    if from >= s.len() || s.len() - from < 4 {
        return None;
    }
    let ok = s[from] == '(' && ((s[from + 1] == 'C' && s[from + 2] == 'V') || (s[from + 1] == 'V'
        && s[from + 2] == 'o')) && (s[from + 3] == ':' || s[from + 3] == '.');
    if ok {
        Some(from)
    } else {
        find_marker(s, from + 1)
    }
}

fn find_close(s: &Vec<char>, from: usize) -> (r: Option<usize>)
    ensures
        match r {
            Some(k) => close_from(s@, from as int) == Some(k as int),
            None => close_from(s@, from as int).is_none(),
        },
    decreases s.len() - from,
{
    if from >= s.len() {
        return None;
    }
    if s[from] == ')' {
        Some(from)
    } else {
        find_close(s, from + 1)
    }
}

fn count_white(s: &Vec<char>, from: usize, end: usize) -> (r: usize)
    requires
        from <= end <= s.len(),
    ensures
        r == white_run(s@, from as int, end as int),
        r <= end - from,
    decreases end - from,
{
    if from >= end || !crate::text::is_whitespace(s[from]) {
        0
    } else {
        1 + count_white(s, from + 1, end)
    }
}

/// The characters of `s` from `from` up to `to`.
pub fn slice_chars(s: &Vec<char>, from: usize, to: usize) -> (r: Vec<char>)
    requires
        from <= to <= s.len(),
    ensures
        r@ == s@.subrange(from as int, to as int),
{
    let mut r: Vec<char> = Vec::new();
    let mut i: usize = from;
    while i < to
        invariant
            from <= i <= to <= s.len(),
            r@ == s@.subrange(from as int, i as int),
        decreases to - i,
    {
        r.push(s[i]);
        i = i + 1;
        assert(r@ =~= s@.subrange(from as int, i as int));
    }
    r
}

/// Appends the characters of `t`.
pub fn push_all(out: &mut Vec<char>, t: &Vec<char>)
    ensures
        final(out)@ == old(out)@ + t@,
{
    let ghost base = out@;
    let mut i: usize = 0;
    while i < t.len()
        invariant
            i <= t.len(),
            out@ == base + t@.subrange(0, i as int),
        decreases t.len() - i,
    {
        out.push(t[i]);
        i = i + 1;
        assert(out@ =~= base + t@.subrange(0, i as int));
    }
    assert(t@.subrange(0, t.len() as int) =~= t@);
}

/// Replaces every voice credit by the artist it names.
pub fn strip_credits(name: &Vec<char>) -> (r: Vec<char>)
    ensures
        r@ == strip_voice_credits(name@),
{
    let mut out: Vec<char> = Vec::new();
    let mut rest = slice_chars(name, 0, name.len());
    assert(name@.subrange(0, name.len() as int) =~= name@);
    loop
        invariant
            out@ + strip_voice_credits(rest@) == strip_voice_credits(name@),
        decreases rest@.len(),
    {
        let k = match find_marker(&rest, 0) {
            Some(k) => k,
            None => {
                push_all(&mut out, &rest);
                return out;
            },
        };
        proof {
            lemma_marker_bounds(rest@, 0);
        }
        assert(k + 4 <= rest@.len());
        let j = match find_close(&rest, k + 4) {
            Some(j) => j,
            None => {
                push_all(&mut out, &rest);
                return out;
            },
        };
        proof {
            lemma_close_bounds(rest@, k + 4);
            lemma_white_run_bound(rest@, k + 4, j as int);
        }
        let w = count_white(&rest, k + 4, j);
        let artist = slice_chars(&rest, k + 4 + w, j);
        let ghost before = out@;
        push_all(&mut out, &artist);
        let next = slice_chars(&rest, j + 1, rest.len());
        assert(out@ + strip_voice_credits(next@) =~= before + strip_voice_credits(rest@));
        rest = next;
    }
}

/// The artist's own name out of `Character (CV: Artist)`, trimmed; other names
/// are only trimmed.
pub open spec fn artist_name_of(name: Seq<char>) -> Seq<char> {
    trimmed(strip_voice_credits(name))
}

fn lead(s: &Vec<char>, k: usize) -> (r: usize)
    requires
        k <= s.len(),
    ensures
        r == lead_white(s@, k as int),
        r <= s.len() - k,
    decreases s.len() - k,
{
    if k < s.len() && crate::text::is_whitespace(s[k]) {
        1 + lead(s, k + 1)
    } else {
        0
    }
}

fn trail(s: &Vec<char>, e: usize) -> (r: usize)
    requires
        e <= s.len(),
    ensures
        r == trail_white(s@, e as int),
        r <= e,
    decreases e,
{
    if e > 0 && crate::text::is_whitespace(s[e - 1]) {
        1 + trail(s, e - 1)
    } else {
        0
    }
}

/// `s` without white space at either end.
pub fn trim_chars(s: &Vec<char>) -> (r: Vec<char>)
    ensures
        r@ == trimmed(s@),
{
    let a = lead(s, 0);
    let rest = slice_chars(s, a, s.len());
    let t = trail(&rest, rest.len());
    slice_chars(&rest, 0, rest.len() - t)
}

/// Takes the actual artist name from `Character (CV: Actual Artist)`, or returns
/// the name trimmed.
pub fn process_artist_name(name: &str) -> (r: String)
    ensures
        r@ == artist_name_of(name@),
{
    let cs = chars_of(name);
    let stripped = strip_credits(&cs);
    string_of(&trim_chars(&stripped))
}

/// The replacement of a two-character spelling, if the table has one.
pub open spec fn rule_pair(a: char, b: char) -> Option<Seq<char>> {
    if a == 'o' && b == 'u' {
        Some("(ou|ō|o)"@)
    } else if a == 'o' && b == 'o' {
        Some("(oo|ō|o)"@)
    } else if a == 'o' && b == 'h' {
        Some("(oh|ō|o)"@)
    } else if a == 'w' && b == 'o' {
        Some("(wo|o)"@)
    } else if a == 'u' && b == 'u' {
        Some("(uu|u|ū)"@)
    } else if a == 'a' && b == 'a' {
        Some("(aa|a)"@)
    } else if a == 'a' && b == 'e' {
        Some("(ae|æ)"@)
    } else {
        None
    }
}

/// The replacement of a single character, if the table has one.
pub open spec fn rule_single(c: char) -> Option<Seq<char>> {
    if c == 'ļ' {
        Some("[ļĻ]"@)
    } else if c == 'l' {
        Some("[l˥ļĻΛ]"@)
    } else if c == 'ź' {
        Some("[źŹ]"@)
    } else if c == 'z' {
        Some("[zźŹ]"@)
    } else if c == 'ō' {
        Some("[Ōō]"@)
    } else if c == 'o' {
        Some("([oōŌóòöôøӨΦο]|ou|oo|oh|wo)"@)
    } else if c == 'ū' {
        Some("[ūŪ]"@)
    } else if c == 'u' {
        Some("([uūŪûúùüǖμ]|uu)"@)
    } else if c == 'λ' {
        Some("[λΛ]"@)
    } else if c == 'a' {
        Some("([aäãά@âàáạåæā∀Λ]|aa)"@)
    } else if c == 'c' {
        Some("[cςč℃Ↄ]"@)
    } else if c == 'é' {
        Some("[éÉ]"@)
    } else if c == 'e' {
        Some("[eəéÉêёëèæē]"@)
    } else if c == '\'' {
        Some("['’ˈ]"@)
    } else if c == 'n' {
        Some("[nñ]"@)
    } else if c == '0' {
        Some("[0Ө]"@)
    } else if c == '2' {
        Some("[2²₂]"@)
    } else if c == '3' {
        Some("[3³]"@)
    } else if c == '5' {
        Some("[5⁵]"@)
    } else if c == '*' {
        Some("[*✻＊✳︎]"@)
    } else if c == ' ' {
        Some("([^\\w]+|_+)"@)
    } else if c == 'i' {
        Some("([iíίɪ]|ii)"@)
    } else if c == 'x' {
        Some("[x×]"@)
    } else if c == 'b' {
        Some("[bßβ]"@)
    } else if c == 'r' {
        Some("[rЯ]"@)
    } else if c == 's' {
        Some("[sς]"@)
    } else {
        None
    }
}

fn lookup_pair(a: char, b: char) -> (r: Option<&'static str>)
    ensures
        match r {
            Some(t) => rule_pair(a, b) == Some(t@),
            None => rule_pair(a, b).is_none(),
        },
{
    if a == 'o' && b == 'u' {
        Some("(ou|ō|o)")
    } else if a == 'o' && b == 'o' {
        Some("(oo|ō|o)")
    } else if a == 'o' && b == 'h' {
        Some("(oh|ō|o)")
    } else if a == 'w' && b == 'o' {
        Some("(wo|o)")
    } else if a == 'u' && b == 'u' {
        Some("(uu|u|ū)")
    } else if a == 'a' && b == 'a' {
        Some("(aa|a)")
    } else if a == 'a' && b == 'e' {
        Some("(ae|æ)")
    } else {
        None
    }
}

fn lookup_single(c: char) -> (r: Option<&'static str>)
    ensures
        match r {
            Some(t) => rule_single(c) == Some(t@),
            None => rule_single(c).is_none(),
        },
{
    if c == 'ļ' {
        Some("[ļĻ]")
    } else if c == 'l' {
        Some("[l˥ļĻΛ]")
    } else if c == 'ź' {
        Some("[źŹ]")
    } else if c == 'z' {
        Some("[zźŹ]")
    } else if c == 'ō' {
        Some("[Ōō]")
    } else if c == 'o' {
        Some("([oōŌóòöôøӨΦο]|ou|oo|oh|wo)")
    } else if c == 'ū' {
        Some("[ūŪ]")
    } else if c == 'u' {
        Some("([uūŪûúùüǖμ]|uu)")
    } else if c == 'λ' {
        Some("[λΛ]")
    } else if c == 'a' {
        Some("([aäãά@âàáạåæā∀Λ]|aa)")
    } else if c == 'c' {
        Some("[cςč℃Ↄ]")
    } else if c == 'é' {
        Some("[éÉ]")
    } else if c == 'e' {
        Some("[eəéÉêёëèæē]")
    } else if c == '\'' {
        Some("['’ˈ]")
    } else if c == 'n' {
        Some("[nñ]")
    } else if c == '0' {
        Some("[0Ө]")
    } else if c == '2' {
        Some("[2²₂]")
    } else if c == '3' {
        Some("[3³]")
    } else if c == '5' {
        Some("[5⁵]")
    } else if c == '*' {
        Some("[*✻＊✳︎]")
    } else if c == ' ' {
        Some("([^\\w]+|_+)")
    } else if c == 'i' {
        Some("([iíίɪ]|ii)")
    } else if c == 'x' {
        Some("[x×]")
    } else if c == 'b' {
        Some("[bßβ]")
    } else if c == 'r' {
        Some("[rЯ]")
    } else if c == 's' {
        Some("[sς]")
    } else {
        None
    }
}

/// Every spelling of the table replaced by its pattern of variants, the longer
/// spelling first where two start at the same place; other characters kept.
pub open spec fn substituted(s: Seq<char>) -> Seq<char>
    decreases s.len(),
{
    if s.len() == 0 {
        s
    } else if s.len() >= 2 && rule_pair(s[0], s[1]) is Some {
        rule_pair(s[0], s[1])->0 + substituted(s.subrange(2, s.len() as int))
    } else {
        match rule_single(s[0]) {
            Some(t) => t + substituted(s.drop_first()),
            None => seq![s[0]] + substituted(s.drop_first()),
        }
    }
}

/// A pattern that matches the whole of `s` in any of its usual spellings.
pub open spec fn name_pattern(s: Seq<char>) -> Seq<char> {
    seq!['^'] + substituted(s) + seq!['$']
}

fn substitute_chars(s: &Vec<char>) -> (r: Vec<char>)
    ensures
        r@ == substituted(s@),
{
    let n = s.len();
    let mut out: Vec<char> = Vec::new();
    let mut i: usize = 0;
    assert(s@.subrange(0, n as int) =~= s@);
    while i < n
        invariant
            i <= n == s@.len(),
            out@ + substituted(s@.subrange(i as int, n as int)) == substituted(s@),
        decreases n - i,
    {
        let ghost rest = s@.subrange(i as int, n as int);
        let ghost before = out@;
        if i + 1 < n {
            if let Some(t) = lookup_pair(s[i], s[i + 1]) {
                push_all(&mut out, &chars_of(t));
                assert(rest.subrange(2, rest.len() as int) =~= s@.subrange(i + 2, n as int));
                assert(out@ + substituted(s@.subrange(i + 2, n as int)) =~= before + substituted(rest));
                i = i + 2;
                continue;
            }
        }
        assert(rest.drop_first() =~= s@.subrange(i + 1, n as int));
        match lookup_single(s[i]) {
            Some(t) => {
                push_all(&mut out, &chars_of(t));
            },
            None => {
                out.push(s[i]);
            },
        }
        assert(out@ + substituted(s@.subrange(i + 1, n as int)) =~= before + substituted(rest));
        i = i + 1;
    }
    assert(s@.subrange(n as int, n as int).len() == 0);
    assert(out@ =~= substituted(s@));
    out
}

/// Builds the anchored pattern for one name.
pub fn create_regex(input: &str) -> (r: String)
    ensures
        r@ == name_pattern(input@),
{
    let cs = chars_of(input);
    let mut out: Vec<char> = Vec::new();
    out.push('^');
    let body = substitute_chars(&cs);
    push_all(&mut out, &body);
    out.push('$');
    assert(out@ =~= name_pattern(input@));
    string_of(&out)
}

/// The patterns of the names, their voice credits removed first, joined with `|`.
pub open spec fn names_pattern(names: Seq<Seq<char>>) -> Seq<char>
    decreases names.len(),
{
    if names.len() == 0 {
        Seq::empty()
    } else if names.len() == 1 {
        name_pattern(strip_voice_credits(names[0]))
    } else {
        names_pattern(names.drop_last()) + seq!['|'] + name_pattern(
            strip_voice_credits(names.last()),
        )
    }
}

/// One pattern that matches any of `input`, each in any of its usual spellings.
pub fn create_artist_regex(input: &Vec<String>) -> (r: String)
    ensures
        r@ == names_pattern(input@.map_values(|s: String| s@)),
{
    let mut out: Vec<char> = Vec::new();
    let mut i: usize = 0;
    while i < input.len()
        invariant
            i <= input.len(),
            out@ == names_pattern(input@.subrange(0, i as int).map_values(|s: String| s@)),
        decreases input.len() - i,
    {
        let ghost before = input@.subrange(0, i as int).map_values(|s: String| s@);
        let ghost after = input@.subrange(0, i + 1).map_values(|s: String| s@);
        assert(after.drop_last() =~= before);
        if i > 0 {
            out.push('|');
        }
        let parsed = string_of(&strip_credits(&chars_of(input[i].as_str())));
        let pattern = create_regex(parsed.as_str());
        push_all(&mut out, &chars_of(pattern.as_str()));
        i = i + 1;
        if i == 1 {
            assert(out@ =~= names_pattern(after));
        } else {
            assert(out@ =~= names_pattern(before) + seq!['|'] + name_pattern(strip_voice_credits(after.last())));
        }
    }
    assert(input@.subrange(0, input.len() as int) =~= input@);
    string_of(&out)
}

} // verus!
