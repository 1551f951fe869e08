//! The anime-song catalog: its records, the searches sent to it, and how its
//! candidates are ranked.
use crate::anilist::AnilistID;
use crate::error::Error;
use crate::japanese_processing::{
    normalized, normalized_chars, process_possible_japanese, process_similarity, romanized, score,
    token_set_ratio_call, token_set_ratio_of,
};
use crate::ranking::{at_max, below_max, max_score, rev_pick, split_best};
use crate::text::{owned, string_of};
use vstd::prelude::*;

verus! {

/// A performer of the catalog. Groups and members are artists too.
#[derive(Debug)]
pub struct Artist {
    pub id: i32,
    /// The first name is the canonical one.
    pub names: Vec<String>,
    pub line_up_id: Option<i32>,
    pub groups: Option<Vec<Artist>>,
    pub members: Option<Vec<Artist>>,
}

/// Ids of the same show in other anime catalogs; any of them may be missing.
#[derive(Debug, Clone, Copy, PartialEq, Eq, Structural)]
pub struct AnimeListLinks {
    pub myanimelist: Option<i32>,
    pub anidb: Option<i32>,
    pub anilist: Option<AnilistID>,
    pub kitsu: Option<i32>,
}

/// A song of a show, as the catalog returns it. `annSongId` is unique per show
/// and song role.
#[allow(non_snake_case)]
#[derive(Debug)]
pub struct Anime {
    pub annId: i32,
    pub annSongId: i32,
    pub animeENName: String,
    pub animeJPName: String,
    pub animeAltName: Option<Vec<String>>,
    pub animeVintage: Option<String>,
    pub linked_ids: AnimeListLinks,
    pub animeType: Option<String>,
    pub animeCategory: String,
    pub songType: String,
    pub songName: String,
    pub songArtist: String,
    pub songComposer: String,
    pub songArranger: String,
    pub songCategory: String,
    pub isDub: bool,
    pub isRebroadcast: bool,
    pub HQ: Option<String>,
    pub MQ: Option<String>,
    pub audio: Option<String>,
    pub artists: Vec<Artist>,
    pub composers: Vec<Artist>,
    pub arrangers: Vec<Artist>,
}

#[derive(Debug, Clone)]
pub struct SearchFilter {
    pub search: String,
    pub partial_match: bool,
    pub group_granularity: Option<i32>,
    pub max_other_artist: Option<i32>,
    pub arrangement: Option<bool>,
}

impl SearchFilter {
    /// A filter on `search` that takes every arrangement and up to 99 other artists.
    pub fn wide(search: String, partial_match: bool) -> (r: Self)
        ensures
            r.search@ == search@,
            r.partial_match == partial_match,
            r.group_granularity == Some(0i32),
            r.max_other_artist == Some(99i32),
            r.arrangement == Some(true),
    {
        SearchFilter {
            search,
            partial_match,
            group_granularity: Some(0),
            max_other_artist: Some(99),
            arrangement: Some(true),
        }
    }
}

/// A search of the catalog by text.
#[derive(Debug, Clone)]
pub struct SearchRequest {
    pub anime_search_filter: Option<SearchFilter>,
    pub song_name_search_filter: Option<SearchFilter>,
    pub artist_search_filter: Option<SearchFilter>,
    pub composer_search_filter: Option<SearchFilter>,
    pub and_logic: Option<bool>,
    pub ignore_duplicate: Option<bool>,
    pub opening_filter: Option<bool>,
    pub ending_filter: Option<bool>,
    pub insert_filter: Option<bool>,
    pub normal_broadcast: Option<bool>,
    pub dub: Option<bool>,
    pub rebroadcast: Option<bool>,
    pub standard: Option<bool>,
    pub instrumental: Option<bool>,
    pub chanting: Option<bool>,
    pub character: Option<bool>,
}

/// Whether a text search takes every kind of song and broadcast.
pub open spec fn takes_everything(r: SearchRequest) -> bool {
    r.anime_search_filter.is_none() && r.ignore_duplicate == Some(false) && r.opening_filter
        == Some(true) && r.ending_filter == Some(true) && r.insert_filter == Some(true)
        && r.normal_broadcast == Some(true) && r.dub == Some(true) && r.rebroadcast == Some(true)
        && r.standard == Some(true) && r.instrumental == Some(true) && r.chanting == Some(true)
        && r.character == Some(true)
}

impl SearchRequest {
    /// Songs whose title matches `title`; `partial` widens the match.
    pub fn by_song_title(title: String, partial: bool) -> (r: Self)
        ensures
            takes_everything(r),
            r.song_name_search_filter matches Some(f) && f.search@ == title@ && f.partial_match
                == partial,
            r.artist_search_filter.is_none(),
            r.composer_search_filter.is_none(),
            r.and_logic == Some(true),
    {
        SearchRequest {
            anime_search_filter: None,
            song_name_search_filter: Some(SearchFilter::wide(title, partial)),
            artist_search_filter: None,
            composer_search_filter: None,
            and_logic: Some(true),
            ignore_duplicate: Some(false),
            opening_filter: Some(true),
            ending_filter: Some(true),
            insert_filter: Some(true),
            normal_broadcast: Some(true),
            dub: Some(true),
            rebroadcast: Some(true),
            standard: Some(true),
            instrumental: Some(true),
            chanting: Some(true),
            character: Some(true),
        }
    }

    /// Songs performed by `artist` or composed by `composer`, either one.
    pub fn by_artist_name(artist: Option<String>, composer: Option<String>) -> (r: Self)
        ensures
            takes_everything(r),
            r.song_name_search_filter.is_none(),
            artist.is_some() == r.artist_search_filter.is_some(),
            r.artist_search_filter matches Some(f) ==> f.search@ == artist->0@ && !f.partial_match,
            composer.is_some() == r.composer_search_filter.is_some(),
            r.composer_search_filter matches Some(f) ==> f.search@ == composer->0@
                && !f.partial_match,
            r.and_logic == Some(false),
    {
        let artist_search_filter = match artist {
            Some(name) => Some(SearchFilter::wide(name, false)),
            None => None,
        };
        let composer_search_filter = match composer {
            Some(name) => Some(SearchFilter::wide(name, false)),
            None => None,
        };
        SearchRequest {
            anime_search_filter: None,
            song_name_search_filter: None,
            artist_search_filter,
            composer_search_filter,
            and_logic: Some(false),
            ignore_duplicate: Some(false),
            opening_filter: Some(true),
            ending_filter: Some(true),
            insert_filter: Some(true),
            normal_broadcast: Some(true),
            dub: Some(true),
            rebroadcast: Some(true),
            standard: Some(true),
            instrumental: Some(true),
            chanting: Some(true),
            character: Some(true),
        }
    }
}

/// A search of the catalog for every song of some artists.
#[derive(Debug, Clone)]
pub struct ArtistIDSearchRequest {
    pub artist_ids: Vec<i32>,
    pub group_granularity: i32,
    pub max_other_artist: i32,
    pub ignore_duplicate: bool,
    pub opening_filter: bool,
    pub ending_filter: bool,
    pub insert_filter: bool,
    pub normal_broadcast: bool,
    pub dub: bool,
    pub rebroadcast: bool,
    pub standard: bool,
    pub instrumental: bool,
    pub chanting: bool,
    pub character: bool,
}

impl ArtistIDSearchRequest {
    pub fn for_artists(artist_ids: Vec<i32>) -> (r: Self)
        ensures
            r.artist_ids@ == artist_ids@,
            r.group_granularity == 0 && r.max_other_artist == 0 && !r.ignore_duplicate,
            r.opening_filter && r.ending_filter && r.insert_filter && r.normal_broadcast && r.dub
                && r.rebroadcast && r.standard && r.instrumental && r.chanting && r.character,
    {
        ArtistIDSearchRequest {
            artist_ids,
            group_granularity: 0,
            max_other_artist: 0,
            ignore_duplicate: false,
            opening_filter: true,
            ending_filter: true,
            insert_filter: true,
            normal_broadcast: true,
            dub: true,
            rebroadcast: true,
            standard: true,
            instrumental: true,
            chanting: true,
            character: true,
        }
    }
}

#[derive(Debug, Clone)]
pub struct ComposerIDSearchRequest {
    pub composer_ids: Vec<i32>,
    pub arrangement: bool,
    pub ignore_duplicate: bool,
    pub opening_filter: bool,
    pub ending_filter: bool,
    pub insert_filter: bool,
    pub normal_broadcast: bool,
    pub dub: bool,
    pub rebroadcast: bool,
    pub standard: bool,
    pub instrumental: bool,
    pub chanting: bool,
    pub character: bool,
}

#[derive(Debug, Clone)]
pub struct AnnIdSearchRequest {
    pub ann_id: i32,
    pub ignore_duplicate: bool,
    pub opening_filter: bool,
    pub ending_filter: bool,
    pub insert_filter: bool,
    pub normal_broadcast: bool,
    pub dub: bool,
    pub rebroadcast: bool,
    pub standard: bool,
    pub instrumental: bool,
    pub chanting: bool,
    pub character: bool,
}

#[derive(Debug, Clone)]
pub struct MalIdsSearchRequest {
    pub mal_ids: Vec<i32>,
    pub ignore_duplicate: bool,
    pub opening_filter: bool,
    pub ending_filter: bool,
    pub insert_filter: bool,
    pub normal_broadcast: bool,
    pub dub: bool,
    pub rebroadcast: bool,
    pub standard: bool,
    pub instrumental: bool,
    pub chanting: bool,
    pub character: bool,
}

pub const SEARCH_REQUEST_URL: &'static str = "https://anisongdb.com/api/search_request";

pub const ARTIST_ID_SEARCH_REQUEST_URL: &'static str = "https://anisongdb.com/api/artist_ids_request";

pub open spec fn is_success(status: u16) -> bool {
    200 <= status <= 299
}

/// What a catalog reply with `status` means: `Ok(true)` to read its body,
/// `Ok(false)` for no results (503, the catalog's rate limit), else the error.
pub fn catalog_reply(url: &str, status: u16) -> (r: Result<bool, Error>)
    ensures
        is_success(status) ==> r == Ok::<bool, Error>(true),
        status == 503 ==> r == Ok::<bool, Error>(false),
        !is_success(status) && status != 503 ==> (r matches Err(Error::BadRequest { url: u, status_code }) && u@ == url@ && status_code == status),
{
    if 200 <= status && status <= 299 {
        Ok(true)
    } else if status == 503 {
        Ok(false)
    } else {
        Err(Error::BadRequest { url: owned(url), status_code: status })
    }
}

pub open spec fn song_names(animes: Seq<Anime>) -> Seq<Seq<char>> {
    animes.map_values(|a: Anime| a.songName@)
}

/// The title scores of the candidates, in order.
pub open spec fn title_scores(title: Seq<char>, names: Seq<Seq<char>>) -> Seq<u32> {
    names.map_values(|n: Seq<char>| score(title, n) as u32)
}

/// Scores each candidate's title against `song_name`.
pub fn score_titles(song_name: &str, animes: &Vec<Anime>) -> (r: Vec<u32>)
    ensures
        r@ == title_scores(song_name@, song_names(animes@)),
{
    let mut r: Vec<u32> = Vec::new();
    let mut i: usize = 0;
    while i < animes.len()
        invariant
            i <= animes.len(),
            r@ == title_scores(song_name@, song_names(animes@.subrange(0, i as int))),
        decreases animes.len() - i,
    {
        let s = process_similarity(song_name, animes[i].songName.as_str());
        r.push(s);
        i = i + 1;
        assert(r@ =~= title_scores(song_name@, song_names(animes@.subrange(0, i as int))));
    }
    assert(animes@.subrange(0, animes.len() as int) =~= animes@);
    r
}

impl Anime {
    /// Moves the candidates whose title scores best against `song_name` into the
    /// result, with that score in tenths; the others stay in `animes`. Ties are all
    /// kept. No candidates give none and a score of 0.
    pub fn pick_best_by_song_name(animes: &mut Vec<Anime>, song_name: &str) -> (r: (
        Vec<Anime>,
        u32,
    ))
        ensures
            r.1 == max_score(title_scores(song_name@, song_names(old(animes)@))),
            r.1 <= 1000,
            r.0@ == rev_pick(old(animes)@, at_max(title_scores(song_name@, song_names(old(animes)@)), r.1)),
            final(animes)@ == rev_pick(old(animes)@, below_max(title_scores(song_name@, song_names(old(animes)@)), r.1)),
    {
        let scores = score_titles(song_name, animes);
        proof {
            assert forall|i: int| 0 <= i < scores@.len() implies (#[trigger] scores@[i]) <= 1000 by {
                crate::japanese_processing::lemma_score_bounds(song_name@, song_names(animes@)[i]);
            }
            crate::ranking::lemma_max_at_most(scores@, 1000);
        }
        split_best(animes, &scores)
    }
}

/// The first name of an artist, empty if it has none.
pub open spec fn first_name(a: Artist) -> Seq<char> {
    if a.names@.len() > 0 {
        a.names@[0]@
    } else {
        Seq::empty()
    }
}

/// Texts joined with one space between each two.
pub open spec fn join_spaced(parts: Seq<Seq<char>>) -> Seq<char>
    decreases parts.len(),
{
    if parts.len() == 0 {
        Seq::empty()
    } else if parts.len() == 1 {
        parts[0]
    } else {
        join_spaced(parts.drop_last()) + seq![' '] + parts.last()
    }
}

pub open spec fn first_names(artists: Seq<Artist>) -> Seq<Seq<char>> {
    artists.map_values(|a: Artist| first_name(a))
}

/// Joins `parts` with single spaces.
pub fn join_with_spaces(parts: &Vec<String>) -> (r: String)
    ensures
        r@ == join_spaced(parts@.map_values(|p: String| p@)),
{
    let mut out: Vec<char> = Vec::new();
    let mut i: usize = 0;
    while i < parts.len()
        invariant
            i <= parts.len(),
            out@ == join_spaced(parts@.subrange(0, i as int).map_values(|p: String| p@)),
        decreases parts.len() - i,
    {
        let ghost before = parts@.subrange(0, i as int).map_values(|p: String| p@);
        let ghost after = parts@.subrange(0, i + 1).map_values(|p: String| p@);
        assert(after.drop_last() =~= before);
        if i > 0 {
            out.push(' ');
        }
        let cs = crate::text::chars_of(parts[i].as_str());
        let mut j: usize = 0;
        let ghost base = out@;
        while j < cs.len()
            invariant
                j <= cs.len(),
                out@ == base + cs@.subrange(0, j as int),
            decreases cs.len() - j,
        {
            out.push(cs[j]);
            j = j + 1;
            assert(out@ =~= base + cs@.subrange(0, j as int));
        }
        assert(cs@.subrange(0, cs.len() as int) =~= cs@);
        i = i + 1;
        if i == 1 {
            assert(out@ =~= after[0]);
        } else {
            assert(out@ =~= join_spaced(before) + seq![' '] + after.last());
        }
    }
    assert(parts@.subrange(0, parts.len() as int) =~= parts@);
    string_of(&out)
}

/// The first names of `artists`, in order.
pub fn artist_first_names(artists: &Vec<Artist>) -> (r: Vec<String>)
    ensures
        r@.map_values(|p: String| p@) == first_names(artists@),
{
    let mut r: Vec<String> = Vec::new();
    let mut i: usize = 0;
    while i < artists.len()
        invariant
            i <= artists.len(),
            r@.map_values(|p: String| p@) == first_names(artists@.subrange(0, i as int)),
        decreases artists.len() - i,
    {
        let name = if artists[i].names.len() > 0 {
            owned(artists[i].names[0].as_str())
        } else {
            String::new()
        };
        assert(name@ == first_name(artists@[i as int]));
        let ghost before = r@;
        r.push(name);
        i = i + 1;
        assert(artists@.subrange(0, i as int).drop_last() =~= artists@.subrange(0, i - 1));
        assert(r@.map_values(|p: String| p@) =~= before.map_values(|p: String| p@).push(name@));
        assert(r@.map_values(|p: String| p@) =~= first_names(artists@.subrange(0, i as int)));
    }
    assert(artists@.subrange(0, artists.len() as int) =~= artists@);
    r
}

/// How well a candidate's artists match the streaming artist names, in tenths.
pub open spec fn artist_score(streaming_names: Seq<Seq<char>>, candidate: Anime) -> u32 {
    let t = token_set_ratio_of(
        normalized(romanized(join_spaced(streaming_names))),
        normalized(join_spaced(first_names(candidate.artists@))),
        true,
        true,
    );
    (if t <= 100 {
        10 * t
    } else {
        1000
    }) as u32
}

pub open spec fn artist_scores(streaming_names: Seq<Seq<char>>, animes: Seq<Anime>) -> Seq<u32> {
    animes.map_values(|a: Anime| artist_score(streaming_names, a))
}

impl Anime {
    /// Moves the candidates whose artists best match `artist_names` into the
    /// result, with that score in tenths; the others stay in `animes`. Ties are
    /// all kept. No candidates give none and a score of 0.
    pub fn pick_best_by_artist_names(animes: &mut Vec<Anime>, artist_names: &Vec<String>) -> (r: (
        Vec<Anime>,
        u32,
    ))
        ensures
            r.1 == max_score(artist_scores(artist_names@.map_values(|p: String| p@), old(animes)@)),
            r.1 <= 1000,
            r.0@ == rev_pick(old(animes)@, at_max(artist_scores(artist_names@.map_values(|p: String| p@), old(animes)@), r.1)),
            final(animes)@ == rev_pick(old(animes)@, below_max(artist_scores(artist_names@.map_values(|p: String| p@), old(animes)@), r.1)),
    {
        let ghost names = artist_names@.map_values(|p: String| p@);
        let joined = join_with_spaces(artist_names);
        let streaming = process_possible_japanese(joined.as_str());
        let streaming_chars = normalized_chars(streaming.as_str());
        let streaming_text = string_of(&streaming_chars);
        let mut scores: Vec<u32> = Vec::new();
        let mut i: usize = 0;
        while i < animes.len()
            invariant
                i <= animes.len(),
                streaming_text@ == normalized(romanized(join_spaced(names))),
                scores@ == artist_scores(names, animes@.subrange(0, i as int)),
            decreases animes.len() - i,
        {
            let firsts = artist_first_names(&animes[i].artists);
            let catalog = join_with_spaces(&firsts);
            let catalog_chars = normalized_chars(catalog.as_str());
            let catalog_text = string_of(&catalog_chars);
            let s = token_set_ratio_call(streaming_text.as_str(), catalog_text.as_str(), true, true);
            scores.push(10 * (s as u32));
            i = i + 1;
            assert(scores@ =~= artist_scores(names, animes@.subrange(0, i as int)));
        }
        assert(animes@.subrange(0, animes.len() as int) =~= animes@);
        proof {
            crate::ranking::lemma_max_at_most(scores@, 1000);
        }
        split_best(animes, &scores)
    }
}


/// The songs of `animes` whose title is exactly `song_title`, in order.
pub open spec fn titled(animes: Seq<Anime>, song_title: Seq<char>) -> Seq<Anime>
    decreases animes.len(),
{
    if animes.len() == 0 {
        animes
    } else if animes.last().songName@ == song_title {
        titled(animes.drop_last(), song_title).push(animes.last())
    } else {
        titled(animes.drop_last(), song_title)
    }
}

/// Keeps the songs of an artist search whose title is exactly `song_title`:
/// the catalog's exact search for one song of known artists.
pub fn get_exact_song(animes: Vec<Anime>, song_title: &str) -> (r: Vec<Anime>)
    ensures
        r@ == titled(animes@, song_title@),
{
    let ghost orig = animes@;
    let total = animes.len();
    let wanted = crate::text::chars_of(song_title);
    let mut rest = animes;
    let mut out: Vec<Anime> = Vec::new();
    let mut k: usize = 0;
    while rest.len() > 0
        invariant
            orig.len() == total,
            k + rest@.len() == orig.len(),
            rest@ == orig.subrange(k as int, orig.len() as int),
            out@ == titled(orig.subrange(0, k as int), song_title@),
            wanted@ == song_title@,
        decreases rest@.len(),
    {
        let x = rest.remove(0);
        assert(orig.subrange(0, k + 1).drop_last() =~= orig.subrange(0, k as int));
        if crate::text::same_chars(&crate::text::chars_of(x.songName.as_str()), &wanted) {
            out.push(x);
        }
        k = k + 1;
        assert(rest@ =~= orig.subrange(k as int, orig.len() as int));
    }
    assert(orig.subrange(0, orig.len() as int) =~= orig);
    out
}

} // verus!
