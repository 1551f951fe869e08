//! Reconciliation of one played track, as a state machine: each step either asks
//! for an outside fetch (a catalog search, enrichment) or gives the verdict. The
//! caller performs the fetch and hands its result back.
use crate::anilist::{AnilistID, Media};
use crate::anisong::{artist_scores, song_names, title_scores, Anime};
use crate::database::{named_like, by_artists, bound_to, has_key, has_link, in_group, linked_group, same_records, Database};
use crate::databasetypes::DBArtist;
use crate::databasetypes::{same_record, coalesce, enriched_by, not_enriched, promoted_from, same_enrichment, same_identity, DBAnime};
use crate::types::{anime_index_of, track_index_of};
use crate::error::Error;
use crate::japanese_processing::{process_possible_japanese, romanized};
use crate::ordering::{sort_by_title, titles_sorted};
use crate::regex_search::{create_artist_regex, names_pattern};
use crate::ranking::{at_max, max_score, rev_pick};
use crate::spotify::TrackObject;
use crate::types::{FrontendAnimeEntry, NewSong, SongHit, SongInfo, SongMiss};
use vstd::prelude::*;

verus! {

/// Score, in tenths, above which a match is shown as a hit.
pub const ACCURACY_CUTOFF: u32 = 400;

/// Score, in tenths, above which a hit is stored and its artist bound.
pub const ACCURACY_AUTOADD_LIMIT: u32 = 800;

/// An outside fetch the reconciliation waits for.
#[derive(Debug)]
pub enum Fetch {
    /// Catalog songs of any of these artists.
    ArtistIds(Vec<i32>),
    /// Catalog songs performed or composed by an artist of this name.
    ArtistName(String),
    /// Catalog songs with this title; the flag widens the match.
    SongTitle(String, bool),
    /// Metadata-graph records of these ids.
    Enrichment(Vec<AnilistID>),
}

/// What an outside fetch gave.
#[derive(Debug)]
pub enum Event {
    Catalog(Vec<Anime>),
    Enrichment(Vec<Media>),
    Failed(Error),
}

#[derive(Debug)]
pub enum Step {
    Fetch(Fetch),
    Done(Result<NewSong, Error>),
}

#[derive(Debug, Clone, Copy, PartialEq, Eq, Structural)]
pub enum Phase {
    /// Waiting for the songs of the track's bound artists.
    Bound,
    /// Waiting for the songs of the track's artist at this position, less one.
    ByName(usize),
    /// Waiting for songs with the track's title.
    ByTitle,
    /// Waiting for songs with a title like the track's.
    Partial,
    /// Waiting for enrichment of the candidates.
    Enrich,
    /// Waiting for enrichment of stale stored records.
    Refresh,
    Finished,
}

pub struct Reconciliation {
    pub track: TrackObject,
    pub accuracy_cutoff: u32,
    pub auto_add_limit: u32,
    pub now: i64,
    pub phase: Phase,
    /// Candidates found so far by artist name.
    pub gathered: Vec<Anime>,
    /// The best candidates, all with the top score.
    pub best: Vec<Anime>,
    /// The other candidates.
    pub others: Vec<Anime>,
    /// The top score, in tenths.
    pub certainty: u32,
    /// Stored records already linked to the track.
    pub stored_hits: Vec<DBAnime>,
    /// Stored records of the same artists.
    pub stored_more: Vec<DBAnime>,
}

/// The songs of `s`, the first of each catalog song id kept.
pub open spec fn unique_songs(s: Seq<Anime>) -> Seq<Anime>
    decreases s.len(),
{
    if s.len() == 0 {
        s
    } else {
        let d = unique_songs(s.drop_last());
        if exists|i: int| 0 <= i < d.len() && (#[trigger] d[i]).annSongId == s.last().annSongId {
            d
        } else {
            d.push(s.last())
        }
    }
}

fn has_song(v: &Vec<Anime>, id: i32) -> (r: bool)
    ensures
        r == exists|i: int| 0 <= i < v@.len() && (#[trigger] v@[i]).annSongId == id,
{
    let mut i: usize = 0;
    while i < v.len()
        invariant
            i <= v.len(),
            forall|k: int| 0 <= k < i ==> (#[trigger] v@[k]).annSongId != id,
        decreases v.len() - i,
    {
        if v[i].annSongId == id {
            return true;
        }
        i = i + 1;
    }
    false
}

/// Drops the later copies of a catalog song.
pub fn dedup_songs(v: Vec<Anime>) -> (r: Vec<Anime>)
    ensures
        r@ == unique_songs(v@),
{
    let ghost orig = v@;
    let total = v.len();
    let mut rest = v;
    let mut out: Vec<Anime> = Vec::new();
    let mut k: usize = 0;
    while rest.len() > 0
        invariant
            orig.len() == total,
            k + rest@.len() == orig.len(),
            rest@ == orig.subrange(k as int, orig.len() as int),
            out@ == unique_songs(orig.subrange(0, k as int)),
        decreases rest@.len(),
    {
        let x = rest.remove(0);
        assert(orig.subrange(0, k + 1).drop_last() =~= orig.subrange(0, k as int));
        if !has_song(&out, x.annSongId) {
            out.push(x);
        }
        k = k + 1;
        assert(rest@ =~= orig.subrange(k as int, orig.len() as int));
    }
    assert(orig.subrange(0, orig.len() as int) =~= orig);
    out
}

/// Whether some song of `s` links to metadata-graph id `id`.
pub open spec fn links_to(s: Seq<Anime>, id: AnilistID) -> bool {
    exists|i: int| 0 <= i < s.len() && (#[trigger] s[i]).linked_ids.anilist == Some(id)
}

fn add_id(out: &mut Vec<AnilistID>, id: AnilistID)
    ensures
        forall|x: AnilistID| final(out)@.contains(x) <==> (old(out)@.contains(x) || x == id),
        old(out)@.no_duplicates() ==> final(out)@.no_duplicates(),
{
    let ghost before = out@;
    let mut j: usize = 0;
    while j < out.len()
        invariant
            out@ == before,
            j <= out@.len(),
            forall|k: int| 0 <= k < j ==> out@[k] != id,
        decreases out@.len() - j,
    {
        if out[j].0 == id.0 {
            assert(out@[j as int] == id);
            assert forall|x: AnilistID| out@.contains(x) <==> (before.contains(x) || x == id) by {
                if x == id {
                    assert(out@[j as int] == x);
                }
            }
            return;
        }
        j = j + 1;
    }
    out.push(AnilistID(id.0));
    assert forall|x: AnilistID| out@.contains(x) <==> (before.contains(x) || x == id) by {
        if out@.contains(x) {
            let k = choose|k: int| 0 <= k < out@.len() && out@[k] == x;
            if k < before.len() {
                assert(before[k] == x);
            }
        }
        if before.contains(x) {
            let k = choose|k: int| 0 <= k < before.len() && before[k] == x;
            assert(out@[k] == x);
        }
        if x == id {
            assert(out@[before.len() as int] == x);
        }
    }
    assert(out@.no_duplicates() || !before.no_duplicates()) by {
        if before.no_duplicates() {
            assert forall|a: int, b: int| 0 <= a < out@.len() && 0 <= b < out@.len() && a != b implies out@[a] != out@[b] by {
                if a < before.len() && b < before.len() {
                    assert(before[a] == out@[a] && before[b] == out@[b]);
                } else if a < before.len() {
                    assert(before[a] == out@[a]);
                } else if b < before.len() {
                    assert(before[b] == out@[b]);
                }
            }
        }
    }
}

fn push_ids(out: &mut Vec<AnilistID>, v: &Vec<Anime>)
    ensures
        forall|id: AnilistID| #[trigger] final(out)@.contains(id) <==> (old(out)@.contains(id) || links_to(v@, id)),
        old(out)@.no_duplicates() ==> final(out)@.no_duplicates(),
{
    let ghost start = out@;
    let mut i: usize = 0;
    while i < v.len()
        invariant
            i <= v.len(),
            forall|id: AnilistID| out@.contains(id) <==> (start.contains(id) || links_to(v@.subrange(0, i as int), id)),
            start.no_duplicates() ==> out@.no_duplicates(),
        decreases v.len() - i,
    {
        let ghost before = out@;
        match v[i].linked_ids.anilist {
            Some(id) => {
                add_id(out, id);
                assert forall|x: AnilistID| out@.contains(x) <==> (before.contains(x) || v@[i as int].linked_ids.anilist == Some(x)) by {
                    assert(out@.contains(x) <==> (before.contains(x) || x == id));
                }
            },
            None => {
                assert forall|x: AnilistID| out@.contains(x) <==> (before.contains(x) || v@[i as int].linked_ids.anilist == Some(x)) by {}
            },
        }
        proof {
            let pre = v@.subrange(0, i as int);
            let post = v@.subrange(0, i + 1);
            assert forall|x: AnilistID| links_to(post, x) <==> (links_to(pre, x) || v@[i as int].linked_ids.anilist == Some(x)) by {
                if links_to(post, x) {
                    let k = choose|k: int| 0 <= k < post.len() && (#[trigger] post[k]).linked_ids.anilist == Some(x);
                    if k < i {
                        assert(pre[k] == post[k]);
                    }
                }
                if links_to(pre, x) {
                    let k = choose|k: int| 0 <= k < pre.len() && (#[trigger] pre[k]).linked_ids.anilist == Some(x);
                    assert(post[k] == pre[k]);
                }
                if v@[i as int].linked_ids.anilist == Some(x) {
                    assert(post[i as int] == v@[i as int]);
                }
            }
            assert forall|x: AnilistID| out@.contains(x) <==> (start.contains(x) || links_to(post, x)) by {
                assert(before.contains(x) <==> (start.contains(x) || links_to(pre, x)));
                assert(out@.contains(x) <==> (before.contains(x) || v@[i as int].linked_ids.anilist == Some(x)));
            }
        }
        i = i + 1;
    }
    assert(v@.subrange(0, v@.len() as int) =~= v@);
}

fn media_index(media: &Vec<Media>, id: Option<AnilistID>) -> (r: Option<usize>)
    ensures
        r matches Some(i) ==> i < media@.len() && Some(media@[i as int].id) == id,
        r is None ==> forall|i: int| 0 <= i < media@.len() ==> Some(#[trigger] media@[i].id) != id,
{
    let target = match id {
        Some(x) => x.0,
        None => return None,
    };
    let mut i: usize = 0;
    while i < media.len()
        invariant
            i <= media@.len(),
            id == Some(AnilistID(target)),
            forall|k: int| 0 <= k < i ==> Some(#[trigger] media@[k].id) != id,
        decreases media@.len() - i,
    {
        if media[i].id.0 == target {
            return Some(i);
        }
        i = i + 1;
    }
    None
}

/// The entry shows stored record `r`.
pub open spec fn shows_record(e: FrontendAnimeEntry, r: DBAnime) -> bool {
    e.title == r.title_eng && e.song_name == r.song_name && e.artist_ids@ == r.artists_ann_id@
}

/// Some entry shows stored record `r`.
pub open spec fn has_show(entries: Seq<FrontendAnimeEntry>, r: DBAnime) -> bool {
    exists|e: FrontendAnimeEntry| #[trigger] entries.contains(e) && shows_record(e, r)
}

/// Every stored record has an entry that shows it.
pub open spec fn shows_all(entries: Seq<FrontendAnimeEntry>, records: Seq<DBAnime>) -> bool {
    forall|k: int| 0 <= k < records.len() ==> #[trigger] has_show(entries, records[k])
}

/// Some entry shows catalog song `a`.
pub open spec fn has_entry(entries: Seq<FrontendAnimeEntry>, a: Anime) -> bool {
    exists|e: FrontendAnimeEntry| #[trigger] entries.contains(e) && entry_of(e, a)
}

/// Entry `e` shows one of the songs.
pub open spec fn is_one_of(e: FrontendAnimeEntry, songs: Seq<Anime>) -> bool {
    exists|k: int| 0 <= k < songs.len() && entry_of(e, #[trigger] songs[k])
}

/// The entries show exactly the catalog songs: each song has an entry, and each
/// entry shows one of the songs.
pub open spec fn lists_songs(entries: Seq<FrontendAnimeEntry>, songs: Seq<Anime>) -> bool {
    &&& forall|k: int| 0 <= k < songs.len() ==> #[trigger] has_entry(entries, songs[k])
    &&& forall|e: FrontendAnimeEntry| entries.contains(e) ==> #[trigger] is_one_of(e, songs)
}

/// What a hit above the auto-add limit leaves in the store: a record for every
/// best match, the track linked to a song group, and, with one artist on each
/// side, the artists bound.
pub open spec fn persisted(store: Database, rec: Reconciliation) -> bool {
    &&& forall|k: int| 0 <= k < rec.best@.len() ==> has_key(store.animes@, (#[trigger] rec.best@[k]).annSongId)
    &&& linked_group(store.song_group_links@, rec.track.id@) is Some
    &&& rec.best@.len() > 0 && rec.best@[0].artists@.len() == 1 && rec.track.artists@.len() == 1 ==> has_link(
        store.artist_links@,
        rec.track.artists@[0].id@,
        rec.best@[0].artists@[0].id,
    )
}

proof fn lemma_lists_songs(sorted: Seq<FrontendAnimeEntry>, unsorted: Seq<FrontendAnimeEntry>, songs: Seq<Anime>)
    requires
        unsorted.len() == songs.len(),
        forall|k: int| 0 <= k < songs.len() ==> entry_of(#[trigger] unsorted[k], songs[k]),
        forall|x: FrontendAnimeEntry| sorted.contains(x) <==> unsorted.contains(x),
    ensures
        lists_songs(sorted, songs),
{
    assert forall|k: int| 0 <= k < songs.len() implies #[trigger] has_entry(sorted, songs[k]) by {
        assert(unsorted.contains(unsorted[k]));
        assert(sorted.contains(unsorted[k]));
    }
    assert forall|e: FrontendAnimeEntry| sorted.contains(e) implies #[trigger] is_one_of(e, songs) by {
        assert(unsorted.contains(e));
        let k = choose|k: int| 0 <= k < unsorted.len() && unsorted[k] == e;
        assert(entry_of(unsorted[k], songs[k]));
    }
}

proof fn lemma_shows_all(sorted: Seq<FrontendAnimeEntry>, unsorted: Seq<FrontendAnimeEntry>, records: Seq<DBAnime>)
    requires
        unsorted.len() == records.len(),
        forall|k: int| 0 <= k < records.len() ==> shows_record(#[trigger] unsorted[k], records[k]),
        forall|x: FrontendAnimeEntry| sorted.contains(x) <==> unsorted.contains(x),
    ensures
        shows_all(sorted, records),
{
    assert forall|k: int| 0 <= k < records.len() implies #[trigger] has_show(sorted, records[k]) by {
        assert(unsorted.contains(unsorted[k]));
        assert(sorted.contains(unsorted[k]));
    }
}

proof fn lemma_shows_same(entries: Seq<FrontendAnimeEntry>, a: Seq<DBAnime>, b: Seq<DBAnime>)
    requires
        shows_all(entries, a),
        a.len() == b.len(),
        forall|k: int| 0 <= k < a.len() ==> same_identity(#[trigger] a[k], b[k]),
    ensures
        shows_all(entries, b),
{
    assert forall|k: int| 0 <= k < b.len() implies #[trigger] has_show(entries, b[k]) by {
        assert(has_show(entries, a[k]));
        let e = choose|e: FrontendAnimeEntry| entries.contains(e) && shows_record(e, a[k]);
        assert(shows_record(e, b[k]));
    }
}

fn stored_entries(records: &Vec<DBAnime>) -> (r: Vec<FrontendAnimeEntry>)
    requires
        forall|k: int| 0 <= k < records@.len() ==> (#[trigger] records@[k]).wf(),
    ensures
        r@.len() == records@.len(),
        forall|k: int| 0 <= k < r@.len() ==> shows_record(#[trigger] r@[k], records@[k]),
{
    let mut out: Vec<FrontendAnimeEntry> = Vec::new();
    let mut i: usize = 0;
    while i < records.len()
        invariant
            i <= records@.len(),
            out@.len() == i,
            forall|k: int| 0 <= k < records@.len() ==> (#[trigger] records@[k]).wf(),
            forall|k: int| 0 <= k < out@.len() ==> shows_record(#[trigger] out@[k], records@[k]),
        decreases records@.len() - i,
    {
        out.push(FrontendAnimeEntry::from_db(&records[i]));
        i = i + 1;
    }
    out
}

impl FrontendAnimeEntry {
    /// The entries of catalog songs, each enriched by the metadata-graph record of
    /// its own id when `media` has one. A song that does not read is a `ParseError`.
    pub fn from_anisongs(animes: &Vec<Anime>, media: &Vec<Media>) -> (r: Result<Vec<FrontendAnimeEntry>, Error>)
        ensures
            r is Ok <==> forall|k: int| 0 <= k < animes@.len() ==> reads_as_song(#[trigger] animes@[k]),
            r matches Ok(v) ==> v@.len() == animes@.len() && forall|k: int| 0 <= k < v@.len() ==> entry_of(#[trigger] v@[k], animes@[k]),
            r matches Ok(v) ==> forall|k: int| 0 <= k < v@.len() ==> entry_enriched(#[trigger] v@[k], animes@[k], media@),
            r matches Err(e) ==> e is ParseError,
    {
        let mut out: Vec<FrontendAnimeEntry> = Vec::new();
        let mut i: usize = 0;
        while i < animes.len()
            invariant
                i <= animes@.len(),
                out@.len() == i,
                forall|k: int| 0 <= k < i ==> reads_as_song(#[trigger] animes@[k]),
                forall|k: int| 0 <= k < out@.len() ==> entry_of(#[trigger] out@[k], animes@[k]),
                forall|k: int| 0 <= k < out@.len() ==> entry_enriched(#[trigger] out@[k], animes@[k], media@),
            decreases animes@.len() - i,
        {
            let m = match media_index(media, animes[i].linked_ids.anilist) {
                Some(k) => Some(&media[k]),
                None => None,
            };
            match FrontendAnimeEntry::new(&animes[i], m) {
                Ok(e) => out.push(e),
                Err(e) => return Err(e),
            }
            i = i + 1;
        }
        Ok(out)
    }
}

impl DBAnime {
    /// The records of catalog songs, each enriched by the metadata-graph record of
    /// its own id when `media` has one, in song group `group`, stamped `now`.
    pub fn from_anisongs_and_anilists(best: &Vec<Anime>, media: &Vec<Media>, group: Option<i32>, now: i64) -> (r: Result<Vec<DBAnime>, Error>)
        ensures
            r is Ok <==> forall|k: int| 0 <= k < best@.len() ==> reads_as_song(#[trigger] best@[k]),
            r matches Ok(v) ==> v@.len() == best@.len() && forall|k: int| 0 <= k < v@.len() ==> promoted_from(
                #[trigger] v@[k],
                best@[k],
                group,
                now,
                anime_index_of(best@[k].animeCategory@)->0,
                track_index_of(best@[k].songType@)->0,
            ),
            r matches Err(e) ==> e is ParseError,
            r matches Ok(v) ==> forall|k: int| 0 <= k < v@.len() ==> enriched_from(#[trigger] v@[k], best@[k], media@),
    {
        let mut out: Vec<DBAnime> = Vec::new();
        let mut i: usize = 0;
        while i < best.len()
            invariant
                i <= best@.len(),
                out@.len() == i,
                forall|k: int| 0 <= k < i ==> reads_as_song(#[trigger] best@[k]),
                forall|k: int| 0 <= k < out@.len() ==> promoted_from(
                    #[trigger] out@[k],
                    best@[k],
                    group,
                    now,
                    anime_index_of(best@[k].animeCategory@)->0,
                    track_index_of(best@[k].songType@)->0,
                ),
                forall|k: int| 0 <= k < out@.len() ==> enriched_from(#[trigger] out@[k], best@[k], media@),
            decreases best@.len() - i,
        {
            let m = match media_index(media, best[i].linked_ids.anilist) {
                Some(k) => Some(&media[k]),
                None => None,
            };
            match DBAnime::from_anisong_and_anilist(&best[i], m, group, now) {
                Ok(d) => out.push(d),
                Err(e) => return Err(e),
            }
            i = i + 1;
        }
        Ok(out)
    }
}

/// Record `d` of catalog song `a` is enriched by the record of the song's own id
/// when `media` holds one, and not enriched otherwise.
pub open spec fn enriched_from(d: DBAnime, a: Anime, media: Seq<Media>) -> bool {
    (exists|j: int| 0 <= j < media.len() && Some(#[trigger] media[j].id) == a.linked_ids.anilist && enriched_by(d, media[j]))
        || ((forall|j: int| 0 <= j < media.len() ==> Some(#[trigger] media[j].id) != a.linked_ids.anilist) && not_enriched(d))
}

/// The picture, banner and score of entry `e` for catalog song `a`: those of the
/// record of the song's own id when `media` holds one, else none.
pub open spec fn entry_enriched(e: FrontendAnimeEntry, a: Anime, media: Seq<Media>) -> bool {
    (exists|j: int| 0 <= j < media.len() && Some(#[trigger] media[j].id) == a.linked_ids.anilist
        && e.score == Some(media[j].mean_score) && e.banner_url == media[j].banner_image
        && e.image_url == (match media[j].cover_image {
            Some(c) => c.medium,
            None => None,
        }))
        || ((forall|j: int| 0 <= j < media.len() ==> Some(#[trigger] media[j].id) != a.linked_ids.anilist)
        && e.score is None && e.banner_url is None && e.image_url is None)
}

/// No two songs share a catalog song id.
pub open spec fn distinct_songs(s: Seq<Anime>) -> bool {
    forall|i: int, j: int| 0 <= i < s.len() && 0 <= j < s.len() && i != j ==> (#[trigger] s[i]).annSongId != (#[trigger] s[j]).annSongId
}

proof fn lemma_unique_songs_distinct(s: Seq<Anime>)
    ensures
        distinct_songs(unique_songs(s)),
    decreases s.len(),
{
    if s.len() > 0 {
        lemma_unique_songs_distinct(s.drop_last());
    }
}

proof fn lemma_pick_distinct(items: Seq<Anime>, keep: Seq<bool>)
    requires
        items.len() == keep.len(),
        distinct_songs(items),
    ensures
        distinct_songs(rev_pick(items, keep)),
    decreases items.len(),
{
    if items.len() > 0 {
        let tail = items.drop_first();
        assert(distinct_songs(tail)) by {
            assert forall|i: int, j: int| 0 <= i < tail.len() && 0 <= j < tail.len() && i != j implies (#[trigger] tail[i]).annSongId != (#[trigger] tail[j]).annSongId by {
                assert(tail[i] == items[i + 1] && tail[j] == items[j + 1]);
            }
        }
        lemma_pick_distinct(tail, keep.drop_first());
        crate::ranking::lemma_rev_pick_members(tail, keep.drop_first());
        let rest = rev_pick(tail, keep.drop_first());
        if keep[0] {
            let r = rest.push(items[0]);
            assert forall|i: int, j: int| 0 <= i < r.len() && 0 <= j < r.len() && i != j implies (#[trigger] r[i]).annSongId != (#[trigger] r[j]).annSongId by {
                if i == rest.len() || j == rest.len() {
                    let o = if i == rest.len() { j } else { i };
                    assert(rest.contains(rest[o]));
                    let m = choose|m: int| 0 <= m < tail.len() && keep.drop_first()[m] && tail[m] == rest[o];
                    assert(tail[m] == items[m + 1]);
                }
            }
        }
    }
}

proof fn lemma_split_distinct(items: Seq<Anime>, scores: Seq<u32>, m: u32)
    requires
        items.len() == scores.len(),
        distinct_songs(items),
    ensures
        distinct_songs(rev_pick(items, at_max(scores, m)) + rev_pick(items, crate::ranking::below_max(scores, m))),
{
    let a = rev_pick(items, at_max(scores, m));
    let b = rev_pick(items, crate::ranking::below_max(scores, m));
    lemma_pick_distinct(items, at_max(scores, m));
    lemma_pick_distinct(items, crate::ranking::below_max(scores, m));
    crate::ranking::lemma_rev_pick_members(items, at_max(scores, m));
    crate::ranking::lemma_rev_pick_members(items, crate::ranking::below_max(scores, m));
    let c = a + b;
    assert forall|i: int, j: int| 0 <= i < c.len() && 0 <= j < c.len() && i != j implies (#[trigger] c[i]).annSongId != (#[trigger] c[j]).annSongId by {
        if i < a.len() && j >= a.len() {
            assert(a.contains(c[i]));
            assert(b.contains(c[j]));
            let p = choose|p: int| 0 <= p < items.len() && at_max(scores, m)[p] && items[p] == c[i];
            let q = choose|q: int| 0 <= q < items.len() && crate::ranking::below_max(scores, m)[q] && items[q] == c[j];
        } else if j < a.len() && i >= a.len() {
            assert(a.contains(c[j]));
            assert(b.contains(c[i]));
            let p = choose|p: int| 0 <= p < items.len() && at_max(scores, m)[p] && items[p] == c[j];
            let q = choose|q: int| 0 <= q < items.len() && crate::ranking::below_max(scores, m)[q] && items[q] == c[i];
        } else if i < a.len() {
            assert(c[i] == a[i] && c[j] == a[j]);
        } else {
            assert(c[i] == b[i - a.len()] && c[j] == b[j - a.len()]);
        }
    }
}

/// Whether the catalog song's category and song role both read.
pub open spec fn reads_as_song(a: Anime) -> bool {
    anime_index_of(a.animeCategory@) is Some && track_index_of(a.songType@) is Some
}

/// The entry shows catalog song `a`.
pub open spec fn entry_of(e: FrontendAnimeEntry, a: Anime) -> bool {
    e.title == a.animeENName && e.title_japanese == a.animeJPName && e.song_name == a.songName
        && Some(e.anime_index) == anime_index_of(a.animeCategory@) && Some(e.track_index)
        == track_index_of(a.songType@) && e.linked_ids == a.linked_ids
}

/// The streaming ids of the track's artists.
pub open spec fn streaming_ids(track: TrackObject) -> Seq<Seq<char>> {
    track.artists@.map_values(|a: crate::spotify::SimplifiedArtist| a.id@)
}

/// The stored records linked to the track through its song group.
pub open spec fn linked_records(store: Database, track: TrackObject) -> Seq<DBAnime> {
    match linked_group(store.song_group_links@, track.id@) {
        Some(g) => in_group(store.animes@, g),
        None => Seq::empty(),
    }
}

/// The other stored records of the first linked record's artists: those that
/// share an artist with it, the linked ones left out.
pub open spec fn more_records(store: Database, track: TrackObject) -> Seq<DBAnime> {
    without_keys(
        by_artists(store.animes@, linked_records(store, track)[0].artists_ann_id@),
        linked_records(store, track),
    )
}

/// The stored bindings of the track's artists.
pub open spec fn bound_artists(store: Database, track: TrackObject) -> Seq<DBArtist> {
    bound_to(store.artist_links@, streaming_ids(track))
}

/// The known artists whose names match a pattern of the track's artist names,
/// each in any of its usual spellings, ignoring case.
pub open spec fn named_artists(store: Database, track: TrackObject) -> Seq<i32> {
    named_like(store.artists@, names_pattern(crate::types::streaming_names(track)))
}

/// The streaming names of the track's artists.
fn track_artist_names(track: &TrackObject) -> (r: Vec<String>)
    ensures
        r@.map_values(|s: String| s@) == crate::types::streaming_names(*track),
{
    let mut names: Vec<String> = Vec::new();
    let mut i: usize = 0;
    while i < track.artists.len()
        invariant
            i <= track.artists@.len(),
            names@.map_values(|s: String| s@) == crate::types::streaming_names(*track).subrange(0, i as int),
        decreases track.artists@.len() - i,
    {
        let name = crate::copies::copy_string(&track.artists[i].name);
        let ghost before = names@.map_values(|s: String| s@);
        assert(name@ == crate::types::streaming_names(*track)[i as int]);
        names.push(name);
        assert(names@.map_values(|s: String| s@) =~= before.push(name@));
        i = i + 1;
    }
    assert(crate::types::streaming_names(*track).subrange(0, i as int) =~= crate::types::streaming_names(*track));
    names
}

fn track_artist_ids(track: &TrackObject) -> (r: Vec<String>)
    ensures
        r@.len() == track.artists@.len(),
        forall|k: int| 0 <= k < r@.len() ==> (#[trigger] r@[k]) == track.artists@[k].id,
        r@.map_values(|s: String| s@) == streaming_ids(*track),
{
    let mut ids: Vec<String> = Vec::new();
    let mut i: usize = 0;
    while i < track.artists.len()
        invariant
            i <= track.artists@.len(),
            ids@.len() == i,
            forall|k: int| 0 <= k < i ==> (#[trigger] ids@[k]) == track.artists@[k].id,
        decreases track.artists@.len() - i,
    {
        ids.push(crate::copies::copy_string(&track.artists[i].id));
        i = i + 1;
    }
    assert(ids@.map_values(|s: String| s@) =~= streaming_ids(*track));
    ids
}

/// The records of `more` whose catalog song is not among `hits`.
/// The records of `s` whose catalog song is not among `hits`, in order.
pub open spec fn without_keys(s: Seq<DBAnime>, hits: Seq<DBAnime>) -> Seq<DBAnime>
    decreases s.len(),
{
    if s.len() == 0 {
        s
    } else if has_key(hits, s.last().ann_song_id) {
        without_keys(s.drop_last(), hits)
    } else {
        without_keys(s.drop_last(), hits).push(s.last())
    }
}

/// Filtering copies by the keys of copies gives copies of the filtered records.
proof fn lemma_without_keys_same(a: Seq<DBAnime>, b: Seq<DBAnime>, h1: Seq<DBAnime>, h2: Seq<DBAnime>)
    requires
        same_records(a, b),
        same_records(h1, h2),
    ensures
        same_records(without_keys(a, h1), without_keys(b, h2)),
    decreases a.len(),
{
    if a.len() > 0 {
        assert(same_records(a.drop_last(), b.drop_last())) by {
            assert forall|k: int| 0 <= k < a.drop_last().len() implies same_record(#[trigger] a.drop_last()[k], b.drop_last()[k]) by {
                assert(same_record(a[k], b[k]));
            }
        }
        lemma_without_keys_same(a.drop_last(), b.drop_last(), h1, h2);
        let key = a.last().ann_song_id;
        assert(same_record(a[a.len() - 1], b[b.len() - 1]));
        assert(has_key(h1, key) <==> has_key(h2, key)) by {
            if has_key(h1, key) {
                let i = choose|i: int| 0 <= i < h1.len() && (#[trigger] h1[i]).ann_song_id == key;
                assert(same_record(h1[i], h2[i]));
            }
            if has_key(h2, key) {
                let i = choose|i: int| 0 <= i < h2.len() && (#[trigger] h2[i]).ann_song_id == key;
                assert(same_record(h1[i], h2[i]));
            }
        }
    }
}

fn without_hits(more: Vec<DBAnime>, hits: &Vec<DBAnime>) -> (r: Vec<DBAnime>)
    requires
        forall|k: int| 0 <= k < more@.len() ==> (#[trigger] more@[k]).wf(),
    ensures
        forall|k: int| 0 <= k < r@.len() ==> (#[trigger] r@[k]).wf(),
        r@ == without_keys(more@, hits@),
{
    let ghost orig = more@;
    let total = more.len();
    let mut rest = more;
    let mut out: Vec<DBAnime> = Vec::new();
    let mut n: usize = 0;
    while rest.len() > 0
        invariant
            orig.len() == total,
            n + rest@.len() == orig.len(),
            rest@ == orig.subrange(n as int, orig.len() as int),
            forall|k: int| 0 <= k < orig.len() ==> (#[trigger] orig[k]).wf(),
            forall|k: int| 0 <= k < out@.len() ==> (#[trigger] out@[k]).wf(),
            out@ == without_keys(orig.subrange(0, n as int), hits@),
        decreases rest@.len(),
    {
        let x = rest.remove(0);
        assert(x == orig[n as int]);
        assert(orig.subrange(0, n + 1).drop_last() =~= orig.subrange(0, n as int));
        let mut found = false;
        let mut j: usize = 0;
        while j < hits.len()
            invariant
                j <= hits@.len(),
                !found ==> forall|m: int| 0 <= m < j ==> (#[trigger] hits@[m]).ann_song_id != x.ann_song_id,
                found ==> has_key(hits@, x.ann_song_id),
            decreases hits@.len() - j,
        {
            if hits[j].ann_song_id == x.ann_song_id {
                found = true;
                assert(hits@[j as int].ann_song_id == x.ann_song_id);
            }
            j = j + 1;
        }
        if !found {
            out.push(x);
        }
        n = n + 1;
        assert(rest@ =~= orig.subrange(n as int, orig.len() as int));
    }
    assert(orig.subrange(0, orig.len() as int) =~= orig);
    out
}

impl Reconciliation {
    pub open spec fn inv(&self) -> bool {
        &&& self.track.album.images@.len() > 0
        &&& forall|k: int| 0 <= k < self.stored_hits@.len() ==> (#[trigger] self.stored_hits@[k]).wf()
        &&& forall|k: int| 0 <= k < self.stored_more@.len() ==> (#[trigger] self.stored_more@[k]).wf()
        &&& self.phase == Phase::Refresh ==> self.stored_hits@.len() > 0
        &&& self.phase == Phase::Enrich ==> (self.certainty > self.accuracy_cutoff ==> self.best@.len() > 0)
        &&& self.phase == Phase::Enrich ==> distinct_songs(self.best@ + self.others@)
    }

    /// The hit answered from the store alone.
    fn stored_hit(&self) -> (r: NewSong)
        requires
            self.inv(),
        ensures
            r matches NewSong::Hit(h) && h.certainty == 100 && h.anime_info@.len() == self.stored_hits@.len()
                && titles_sorted(h.anime_info@) && titles_sorted(h.more_with_artist@)
                && shows_all(h.anime_info@, self.stored_hits@) && shows_all(h.more_with_artist@, self.stored_more@)
                && h.song_info.spotify_id == self.track.id && h.more_with_artist@.len() == self.stored_more@.len(),
    {
        let entries = stored_entries(&self.stored_hits);
        let ghost unsorted = entries@;
        let hits = sort_by_title(entries);
        proof {
            vstd::seq_lib::to_multiset_len(hits@);
            vstd::seq_lib::to_multiset_len(unsorted);
            lemma_shows_all(hits@, unsorted, self.stored_hits@);
        }
        let more_entries = stored_entries(&self.stored_more);
        let ghost more_unsorted = more_entries@;
        let more = sort_by_title(more_entries);
        proof {
            vstd::seq_lib::to_multiset_len(more@);
            vstd::seq_lib::to_multiset_len(more_unsorted);
            lemma_shows_all(more@, more_unsorted, self.stored_more@);
        }
        NewSong::Hit(SongHit { song_info: SongInfo::from_track_obj(&self.track), certainty: 100, anime_info: hits, more_with_artist: more })
    }
}


/// Whether record `k` of `records` is stale at `now` and links to `id`.
pub open spec fn stale_link(records: Seq<DBAnime>, k: int, id: AnilistID, now: i64) -> bool {
    records[k].anilist_id == Some(id) && records[k].last_updated as int
        + crate::databasetypes::UPDATE_SECONDS < now as int
}

/// Whether one of the first `n` records is stale at `now` and links to `id`.
pub open spec fn stale_among(records: Seq<DBAnime>, n: int, id: AnilistID, now: i64) -> bool {
    exists|k: int| 0 <= k < n && #[trigger] stale_link(records, k, id, now)
}

/// Adds the metadata-graph ids of the stale records among `records`.
fn stale_ids(records: &Vec<DBAnime>, out: &mut Vec<AnilistID>, now: i64)
    ensures
        forall|id: AnilistID| #[trigger] final(out)@.contains(id) <==> (old(out)@.contains(id)
            || stale_among(records@, records@.len() as int, id, now)),
        old(out)@.no_duplicates() ==> final(out)@.no_duplicates(),
{
    let ghost start = out@;
    let mut i: usize = 0;
    while i < records.len()
        invariant
            i <= records@.len(),
            forall|id: AnilistID| #[trigger] out@.contains(id) <==> (start.contains(id)
                || stale_among(records@, i as int, id, now)),
        start.no_duplicates() ==> out@.no_duplicates(),
            decreases records@.len() - i,
    {
        let ghost before = out@;
        let stale = records[i].is_outdated(now);
        match records[i].anilist_id {
            Some(id) => {
                if stale {
                    add_id(out, AnilistID(id.0));
                }
            },
            None => {},
        }
        assert forall|x: AnilistID| #[trigger] out@.contains(x) <==> (start.contains(x)
            || stale_among(records@, i + 1, x, now)) by {
            assert(before.contains(x) <==> (start.contains(x) || stale_among(records@, i as int, x, now)));
            assert(out@.contains(x) <==> (before.contains(x) || stale_link(records@, i as int, x, now)));
            if stale_among(records@, i + 1, x, now) {
                let k = choose|k: int| 0 <= k < i + 1 && #[trigger] stale_link(records@, k, x, now);
                if k < i {
                    assert(stale_among(records@, i as int, x, now));
                }
            }
            if stale_among(records@, i as int, x, now) {
                let k = choose|k: int| 0 <= k < i && #[trigger] stale_link(records@, k, x, now);
                assert(stale_link(records@, k, x, now));
            }
            if stale_link(records@, i as int, x, now) {
                assert(stale_among(records@, i + 1, x, now));
            }
        }
        i = i + 1;
    }
}




impl DBAnime {
    /// Folds metadata-graph records into stored ones: each record whose id
    /// `new_anilist` holds is enriched anew at `now`, and with a group every
    /// record that has none joins it. Returns copies of the records that changed.
    pub fn update_all(db_animes: &mut Vec<DBAnime>, new_anilist: &Vec<Media>, group_id: Option<i32>, now: i64) -> (r: Vec<DBAnime>)
        requires
            forall|k: int| 0 <= k < old(db_animes)@.len() ==> (#[trigger] old(db_animes)@[k]).wf(),
        ensures
            final(db_animes)@.len() == old(db_animes)@.len(),
            forall|k: int| 0 <= k < final(db_animes)@.len() ==> (#[trigger] final(db_animes)@[k]).wf(),
            forall|k: int| 0 <= k < final(db_animes)@.len() ==> same_identity(#[trigger] final(db_animes)@[k], old(db_animes)@[k]),
            forall|k: int| 0 <= k < final(db_animes)@.len() ==> refreshed_from(#[trigger] final(db_animes)@[k], old(db_animes)@[k], new_anilist@, now),
            forall|k: int| 0 <= k < final(db_animes)@.len() ==> (#[trigger] final(db_animes)@[k]).song_group_id == match group_id {
                Some(g) => coalesce(old(db_animes)@[k].song_group_id, Some(g)),
                None => old(db_animes)@[k].song_group_id,
            },
            forall|k: int| 0 <= k < r@.len() ==> (#[trigger] r@[k]).wf(),
    {
        let ghost orig = db_animes@;
        let mut changed: Vec<DBAnime> = Vec::new();
        let mut i: usize = 0;
        while i < db_animes.len()
            invariant
                i <= db_animes@.len(),
                db_animes@.len() == orig.len(),
                forall|k: int| i <= k < orig.len() ==> db_animes@[k] == orig[k],
                forall|k: int| 0 <= k < orig.len() ==> (#[trigger] orig[k]).wf(),
                forall|k: int| 0 <= k < i ==> (#[trigger] db_animes@[k]).wf(),
                forall|k: int| 0 <= k < i ==> same_identity(#[trigger] db_animes@[k], orig[k]),
                forall|k: int| 0 <= k < i ==> refreshed_from(#[trigger] db_animes@[k], orig[k], new_anilist@, now),
                forall|k: int| 0 <= k < i ==> (#[trigger] db_animes@[k]).song_group_id == match group_id {
                    Some(g) => coalesce(orig[k].song_group_id, Some(g)),
                    None => orig[k].song_group_id,
                },
                forall|k: int| 0 <= k < changed@.len() ==> (#[trigger] changed@[k]).wf(),
            decreases orig.len() - i,
        {
            let mut rec = db_animes[i].copy();
            let mut touched = false;
            match media_index(new_anilist, rec.anilist_id) {
                Some(k) => {
                    rec.update(&new_anilist[k], now);
                    touched = true;
                },
                None => {},
            }
            if let Some(g) = group_id {
                if rec.song_group_id.is_none() {
                    rec.song_group_id = Some(g);
                    touched = true;
                }
            }
            if touched {
                changed.push(rec.copy());
            }
            let _ = db_animes.remove(i);
            db_animes.insert(i, rec);
            i = i + 1;
        }
        changed
    }
}

/// A stored record after enrichment is folded in: enriched anew at `now` by a
/// record of its own id when `media` holds one, else with its enrichment as it was.
pub open spec fn refreshed_from(r: DBAnime, stored: DBAnime, media: Seq<Media>, now: i64) -> bool {
    (exists|j: int| 0 <= j < media.len() && Some(#[trigger] media[j].id) == stored.anilist_id
        && enriched_by(r, media[j]) && r.last_updated == now) || ((forall|j: int| 0 <= j < media.len()
        ==> Some(#[trigger] media[j].id) != stored.anilist_id) && same_enrichment(r, stored)
        && r.last_updated == stored.last_updated)
}

impl Reconciliation {
    /// Begins the reconciliation of `track`. Records already linked to the track
    /// answer at once, with certainty 100 and no catalog search (stale ones are
    /// enriched again first); the other stored records of the first linked
    /// record's artists come with them. Otherwise the songs of the track's bound
    /// artists are asked for; with no binding, those of the known artists whose
    /// names match the track's artists in any spelling; else the songs of its first
    /// artist by name; with no artist, the songs with its title. Thresholds are in
    /// tenths; `now` is seconds since the Unix epoch.
    ///
    /// Songs found through bound artists are scored by title like any others, not
    /// given certainty 100: a binding names the artist, not the song, and only a
    /// track already linked to a song group is known to be that song.
    pub fn start(store: &Database, track: TrackObject, accuracy_cutoff: u32, auto_add_limit: u32, now: i64) -> (r: (Reconciliation, Step))
        requires
            store.wf(),
            track.album.images@.len() > 0,
        ensures
            r.0.inv(),
            r.0.track == track,
            r.0.accuracy_cutoff == accuracy_cutoff,
            r.0.auto_add_limit == auto_add_limit,
            r.0.now == now,
            linked_records(*store, track).len() > 0 ==> (
                (r.1 matches Step::Done(Ok(NewSong::Hit(h))) && h.certainty == 100
                    && h.anime_info@.len() == linked_records(*store, track).len() && r.0.phase == Phase::Finished)
                || (r.1 matches Step::Fetch(Fetch::Enrichment(_)) && r.0.phase == Phase::Refresh)),
            linked_records(*store, track).len() == 0 && bound_artists(*store, track).len() > 0 ==> r.0.phase == Phase::Bound
                && (r.1 matches Step::Fetch(Fetch::ArtistIds(ids)) && ids@ == bound_artists(*store, track).map_values(|b: DBArtist| b.ann_id)),
            linked_records(*store, track).len() == 0 && bound_artists(*store, track).len() == 0 && track.artists@.len() > 0
                && named_artists(*store, track).len() > 0 ==> r.0.phase == Phase::Bound
                && (r.1 matches Step::Fetch(Fetch::ArtistIds(ids)) && ids@ == named_artists(*store, track)),
            linked_records(*store, track).len() == 0 && bound_artists(*store, track).len() == 0 && track.artists@.len() > 0
                && named_artists(*store, track).len() == 0 ==> r.0.phase == Phase::ByName(1) && (r.1 matches Step::Fetch(Fetch::ArtistName(n))
                && n@ == romanized(track.artists@[0].name@)),
            linked_records(*store, track).len() == 0 && bound_artists(*store, track).len() == 0 && track.artists@.len() == 0
                ==> r.0.phase == Phase::ByTitle && (r.1 matches Step::Fetch(Fetch::SongTitle(t, p))
                && t@ == romanized(track.name@) && !p),
            r.0.gathered@.len() == 0 && r.0.best@.len() == 0 && r.0.others@.len() == 0,
            linked_records(*store, track).len() == 0 ==> r.0.certainty == 0,
            r.0.phase == Phase::Refresh ==> same_records(r.0.stored_hits@, linked_records(*store, track)),
            r.1 matches Step::Done(Ok(NewSong::Hit(h))) ==> titles_sorted(h.anime_info@)
                && shows_all(h.anime_info@, linked_records(*store, track)) && h.song_info.spotify_id == track.id,
            r.1 matches Step::Fetch(Fetch::Enrichment(ids)) ==> ids@.no_duplicates() && forall|id: AnilistID|
                #[trigger] ids@.contains(id) <==> (stale_among(r.0.stored_hits@, r.0.stored_hits@.len() as int, id, now)
                || stale_among(r.0.stored_more@, r.0.stored_more@.len() as int, id, now)),
            r.0.phase == Phase::Refresh ==> same_records(r.0.stored_more@, more_records(*store, track)),
            r.1 matches Step::Done(Ok(NewSong::Hit(h))) ==> shows_all(h.more_with_artist@, more_records(*store, track))
                && h.more_with_artist@.len() == more_records(*store, track).len(),
    {
        let hits = store.get_anime_by_spotify_id(track.id.as_str());
        let mut rec = Reconciliation {
            track,
            accuracy_cutoff,
            auto_add_limit,
            now,
            phase: Phase::Finished,
            gathered: Vec::new(),
            best: Vec::new(),
            others: Vec::new(),
            certainty: 0,
            stored_hits: Vec::new(),
            stored_more: Vec::new(),
        };
        if hits.len() > 0 {
            let more = store.get_animes_by_artists_ann_ids(&hits[0].artists_ann_id);
            let ghost more_copies = more@;
            let more = without_hits(more, &hits);
            proof {
                let linked = linked_records(*store, rec.track);
                assert(same_record(hits@[0], linked[0]));
                assert(by_artists(store.animes@, hits@[0].artists_ann_id@) == by_artists(store.animes@, linked[0].artists_ann_id@));
                lemma_without_keys_same(more_copies, by_artists(store.animes@, linked[0].artists_ann_id@), hits@, linked);
            }
            let mut ids: Vec<AnilistID> = Vec::new();
            assert(ids@.no_duplicates());
            stale_ids(&hits, &mut ids, now);
            stale_ids(&more, &mut ids, now);
            rec.stored_hits = hits;
            rec.stored_more = more;
            rec.certainty = 1000;
            if ids.len() > 0 {
                rec.phase = Phase::Refresh;
                return (rec, Step::Fetch(Fetch::Enrichment(ids)));
            }
            let hit = rec.stored_hit();
            proof {
                match &hit {
                    NewSong::Hit(h) => {
                        lemma_shows_same(h.anime_info@, rec.stored_hits@, linked_records(*store, rec.track));
                        lemma_shows_same(h.more_with_artist@, rec.stored_more@, more_records(*store, rec.track));
                    },
                    NewSong::Miss(_) => {},
                }
            }
            return (rec, Step::Done(Ok(hit)));
        }
        let spotify_ids = track_artist_ids(&rec.track);
        let bound = store.get_artists_spotify_id(&spotify_ids);
        if bound.len() > 0 {
            let mut ids: Vec<i32> = Vec::new();
            let mut i: usize = 0;
            while i < bound.len()
                invariant
                    i <= bound@.len(),
                    ids@.len() == i,
                    forall|k: int| 0 <= k < i ==> ids@[k] == (#[trigger] bound@[k]).ann_id,
                decreases bound@.len() - i,
            {
                ids.push(bound[i].ann_id);
                i = i + 1;
            }
            assert(spotify_ids@.map_values(|s: String| s@) == streaming_ids(rec.track));
            assert(bound@.len() == bound_artists(*store, rec.track).len());
            assert forall|k: int| 0 <= k < ids@.len() implies ids@[k] == bound_artists(*store, rec.track)[k].ann_id by {
                assert(ids@[k] == bound@[k].ann_id);
            }
            assert(ids@ =~= bound_artists(*store, rec.track).map_values(|b: DBArtist| b.ann_id));
            rec.phase = Phase::Bound;
            return (rec, Step::Fetch(Fetch::ArtistIds(ids)));
        }
        if rec.track.artists.len() > 0 {
            let names = track_artist_names(&rec.track);
            let pattern = create_artist_regex(&names);
            let named = store.get_artists_by_pattern(pattern.as_str());
            if named.len() > 0 {
                rec.phase = Phase::Bound;
                return (rec, Step::Fetch(Fetch::ArtistIds(named)));
            }
            let name = process_possible_japanese(rec.track.artists[0].name.as_str());
            rec.phase = Phase::ByName(1);
            (rec, Step::Fetch(Fetch::ArtistName(name)))
        } else {
            let title = process_possible_japanese(rec.track.name.as_str());
            rec.phase = Phase::ByTitle;
            (rec, Step::Fetch(Fetch::SongTitle(title, false)))
        }
    }

    /// Asks for the enrichment of every candidate, or finishes at once when none
    /// has an id in the metadata graph.
    fn enrich(&mut self, store: &mut Database) -> (r: Step)
        requires
            old(self).inv(),
            old(store).wf(),
            old(self).phase == Phase::Enrich,
        ensures
            final(self).best == old(self).best,
            final(self).others == old(self).others,
            final(self).track == old(self).track,
            final(self).inv(),
            final(store).wf(),
            final(self).certainty == old(self).certainty,
            final(self).accuracy_cutoff == old(self).accuracy_cutoff,
            final(self).auto_add_limit == old(self).auto_add_limit,
            !(old(self).certainty > old(self).accuracy_cutoff && old(self).certainty > old(self).auto_add_limit) ==> *final(store) == *old(store),
            r matches Step::Done(Ok(NewSong::Hit(h))) ==> old(self).certainty > old(self).accuracy_cutoff && h.certainty == (old(self).certainty / 10) as i32,
            r matches Step::Done(Ok(NewSong::Miss(_))) ==> old(self).certainty <= old(self).accuracy_cutoff,
            r matches Step::Fetch(f) ==> f is Enrichment && final(self).phase == Phase::Enrich,
            old(self).best@.len() == 0 && old(self).others@.len() == 0 ==> (r matches Step::Done(Ok(NewSong::Miss(m))) && m.possible_anime@.len() == 0),
            r matches Step::Done(Ok(NewSong::Hit(h))) ==> h.anime_info@.len() == old(self).best@.len()
                && h.more_with_artist@.len() == old(self).others@.len() && titles_sorted(h.anime_info@)
                && titles_sorted(h.more_with_artist@),
            r matches Step::Done(Ok(NewSong::Miss(m))) ==> m.possible_anime@.len() == old(self).best@.len()
                + old(self).others@.len() && titles_sorted(m.possible_anime@),
            r matches Step::Done(Ok(NewSong::Hit(h))) ==> lists_songs(h.anime_info@, old(self).best@)
                && lists_songs(h.more_with_artist@, old(self).others@) && h.song_info.spotify_id == old(self).track.id,
            r matches Step::Done(Ok(NewSong::Miss(m))) ==> lists_songs(m.possible_anime@, old(self).best@ + old(self).others@)
                && m.song_info.spotify_id == old(self).track.id,
            r matches Step::Done(Ok(NewSong::Hit(_))) ==> (old(self).certainty > old(self).auto_add_limit
                && old(store).next_group_id < i32::MAX ==> persisted(*final(store), *final(self))),
            r is Done ==> (old(self).certainty > old(self).accuracy_cutoff ==> (r matches Step::Done(Ok(NewSong::Hit(_)))
                || r matches Step::Done(Err(Error::ParseError(_))))),
            r is Fetch ==> *final(store) == *old(store),
            r matches Step::Fetch(Fetch::Enrichment(ids)) ==> ids@.no_duplicates() && forall|id: AnilistID|
                #[trigger] ids@.contains(id) <==> (links_to(final(self).best@, id) || links_to(final(self).others@, id)),
    {
        let mut ids: Vec<AnilistID> = Vec::new();
        assert(ids@.no_duplicates());
        let ghost empty = ids@;
        push_ids(&mut ids, &self.best);
        let ghost mid = ids@;
        let ghost others = self.others@;
        push_ids(&mut ids, &self.others);
        assert(forall|id: AnilistID| #[trigger] ids@.contains(id) <==> (mid.contains(id) || links_to(others, id)));
        assert(others == self.others@);
        assert forall|id: AnilistID| #[trigger] ids@.contains(id) <==> (links_to(self.best@, id) || links_to(self.others@, id)) by {
            assert(!empty.contains(id));
            assert(mid.contains(id) <==> (empty.contains(id) || links_to(self.best@, id)));
            assert(ids@.contains(id) <==> (mid.contains(id) || links_to(self.others@, id)));
        }
        if ids.len() == 0 {
            return self.finish(store, Vec::new());
        }
        assert(ids@.len() > 0);
        if self.best.len() == 0 && self.others.len() == 0 {
            let ghost x = ids@[0];
            assert(ids@[0] == x);
            assert(ids@.contains(x));
            assert(!links_to(self.best@, x));
            assert(!links_to(self.others@, x));
        }
        Step::Fetch(Fetch::Enrichment(ids))
    }

    /// The verdict, once the candidates' enrichment is in. A hit above the
    /// auto-add limit is stored with its song group, and a single artist on both
    /// sides is bound; failures to store are not the caller's concern.
    fn finish(&mut self, store: &mut Database, media: Vec<Media>) -> (r: Step)
        requires
            old(self).inv(),
            old(store).wf(),
            old(self).phase == Phase::Enrich,
        ensures
            final(self).best == old(self).best,
            final(self).others == old(self).others,
            final(self).track == old(self).track,
            final(self).inv(),
            final(store).wf(),
            final(self).phase == Phase::Finished,
            final(self).certainty == old(self).certainty,
            final(self).accuracy_cutoff == old(self).accuracy_cutoff,
            final(self).auto_add_limit == old(self).auto_add_limit,
            !(old(self).certainty > old(self).accuracy_cutoff && old(self).certainty > old(self).auto_add_limit) ==> *final(store) == *old(store),
            r matches Step::Done(Ok(NewSong::Hit(h))) ==> old(self).certainty > old(self).accuracy_cutoff && h.certainty == (old(self).certainty / 10) as i32,
            r matches Step::Done(Ok(NewSong::Miss(_))) ==> old(self).certainty <= old(self).accuracy_cutoff,
            old(self).certainty > old(self).accuracy_cutoff ==> r matches Step::Done(Ok(NewSong::Hit(_))) || r matches Step::Done(Err(Error::ParseError(_))),
            old(self).certainty <= old(self).accuracy_cutoff ==> r matches Step::Done(Ok(NewSong::Miss(_))) || r matches Step::Done(Err(Error::ParseError(_))),
            old(self).best@.len() == 0 && old(self).others@.len() == 0 ==> (r matches Step::Done(Ok(NewSong::Miss(m))) && m.possible_anime@.len() == 0),
            r is Done,
            r matches Step::Done(Ok(NewSong::Hit(h))) ==> h.anime_info@.len() == old(self).best@.len()
                && h.more_with_artist@.len() == old(self).others@.len() && titles_sorted(h.anime_info@)
                && titles_sorted(h.more_with_artist@),
            r matches Step::Done(Ok(NewSong::Miss(m))) ==> m.possible_anime@.len() == old(self).best@.len()
                + old(self).others@.len() && titles_sorted(m.possible_anime@),
            r matches Step::Done(Ok(NewSong::Hit(h))) ==> lists_songs(h.anime_info@, old(self).best@)
                && lists_songs(h.more_with_artist@, old(self).others@) && h.song_info.spotify_id == old(self).track.id,
            r matches Step::Done(Ok(NewSong::Miss(m))) ==> lists_songs(m.possible_anime@, old(self).best@ + old(self).others@)
                && m.song_info.spotify_id == old(self).track.id,
            r matches Step::Done(Ok(NewSong::Hit(_))) ==> (old(self).certainty > old(self).auto_add_limit
                && old(store).next_group_id < i32::MAX ==> persisted(*final(store), *final(self))),
    {
        self.phase = Phase::Finished;
        let best_entries = match FrontendAnimeEntry::from_anisongs(&self.best, &media) {
            Ok(v) => v,
            Err(e) => return Step::Done(Err(e)),
        };
        let other_entries = match FrontendAnimeEntry::from_anisongs(&self.others, &media) {
            Ok(v) => v,
            Err(e) => return Step::Done(Err(e)),
        };
        let song_info = SongInfo::from_track_obj(&self.track);
        if self.certainty > self.accuracy_cutoff {
            if self.certainty > self.auto_add_limit {
                let artist_ids = crate::databasetypes::artist_id_list(&self.best[0].artists);
                let ghost room = old(store).next_group_id < i32::MAX;
                let group = match store.add_song_group_link(self.track.id.as_str(), self.best[0].songName.as_str(), &artist_ids) {
                    Ok(g) => Some(g),
                    Err(_) => None,
                };
                assert(room ==> linked_group(store.song_group_links@, self.track.id@) is Some);
                match DBAnime::from_anisongs_and_anilists(&self.best, &media, group, self.now) {
                    Ok(records) => {
                        let ghost recs = records@;
                        store.update_or_add_animes(records, self.now);
                        assert forall|k: int| 0 <= k < self.best@.len() implies has_key(store.animes@, (#[trigger] self.best@[k]).annSongId) by {
                            assert(recs[k].ann_song_id == self.best@[k].annSongId);
                            assert(has_key(store.animes@, recs[k].ann_song_id));
                        }
                    },
                    Err(_) => {
                        assert(false);
                    },
                }
                if self.best[0].artists.len() == 1 && self.track.artists.len() == 1 {
                    store.bind_artist(&self.best[0].artists[0], self.track.artists[0].id.as_str());
                    store.add_known_artist(&self.best[0].artists[0]);
                } else {
                    store.try_add_artists(&self.best[0].artists, &self.track.artists, self.auto_add_limit);
                }
                assert(room ==> persisted(*store, *self));
            }
            let ghost best_unsorted = best_entries@;
            let ghost other_unsorted = other_entries@;
            let anime_info = sort_by_title(best_entries);
            let more_with_artist = sort_by_title(other_entries);
            proof {
                vstd::seq_lib::to_multiset_len(anime_info@);
                vstd::seq_lib::to_multiset_len(best_unsorted);
                vstd::seq_lib::to_multiset_len(more_with_artist@);
                vstd::seq_lib::to_multiset_len(other_unsorted);
                lemma_lists_songs(anime_info@, best_unsorted, self.best@);
                lemma_lists_songs(more_with_artist@, other_unsorted, self.others@);
            }
            Step::Done(Ok(NewSong::Hit(SongHit {
                song_info,
                certainty: (self.certainty / 10) as i32,
                anime_info,
                more_with_artist,
            })))
        } else {
            let mut all = best_entries;
            let mut rest = other_entries;
            let ghost b_e = all@;
            let ghost o_e = rest@;
            all.append(&mut rest);
            let ghost unsorted = all@;
            let possible_anime = sort_by_title(all);
            proof {
                vstd::seq_lib::to_multiset_len(possible_anime@);
                vstd::seq_lib::to_multiset_len(unsorted);
                let songs = self.best@ + self.others@;
                assert forall|k: int| 0 <= k < songs.len() implies entry_of(#[trigger] unsorted[k], songs[k]) by {
                    if k < b_e.len() {
                        assert(unsorted[k] == b_e[k]);
                    } else {
                        assert(unsorted[k] == o_e[k - b_e.len()]);
                    }
                }
                lemma_lists_songs(possible_anime@, unsorted, songs);
            }
            Step::Done(Ok(NewSong::Miss(SongMiss { song_info, possible_anime })))
        }
    }

    /// Ranks the candidates by how their titles match the track's.
    fn decide_by_title(&mut self, store: &mut Database, candidates: Vec<Anime>) -> (r: Step)
        requires
            old(self).inv(),
            old(store).wf(),
            distinct_songs(candidates@),
        ensures
            distinct_songs(final(self).best@ + final(self).others@),
            final(self).track == old(self).track,
            final(self).inv(),
            final(store).wf(),
            final(self).certainty == max_score(title_scores(old(self).track.name@, song_names(candidates@))),
            final(self).best@ == rev_pick(candidates@, at_max(title_scores(old(self).track.name@, song_names(candidates@)), final(self).certainty)),
            final(self).accuracy_cutoff == old(self).accuracy_cutoff,
            final(self).auto_add_limit == old(self).auto_add_limit,
            !(final(self).certainty > old(self).accuracy_cutoff && final(self).certainty > old(self).auto_add_limit) ==> *final(store) == *old(store),
            r matches Step::Done(Ok(NewSong::Hit(h))) ==> final(self).certainty > old(self).accuracy_cutoff && h.certainty == (final(self).certainty / 10) as i32,
            r matches Step::Done(Ok(NewSong::Miss(_))) ==> final(self).certainty <= old(self).accuracy_cutoff,
            r matches Step::Fetch(f) ==> f is Enrichment && final(self).phase == Phase::Enrich,
            r matches Step::Done(Ok(NewSong::Hit(h))) ==> lists_songs(h.anime_info@, final(self).best@)
                && lists_songs(h.more_with_artist@, final(self).others@) && h.song_info.spotify_id == final(self).track.id,
            r matches Step::Done(Ok(NewSong::Miss(m))) ==> lists_songs(m.possible_anime@, final(self).best@ + final(self).others@)
                && m.song_info.spotify_id == final(self).track.id,
            r matches Step::Done(Ok(NewSong::Hit(_))) ==> (final(self).certainty > final(self).auto_add_limit
                && old(store).next_group_id < i32::MAX ==> persisted(*final(store), *final(self))),
            r is Done ==> (final(self).certainty > final(self).accuracy_cutoff ==> (r matches Step::Done(Ok(NewSong::Hit(_)))
                || r matches Step::Done(Err(Error::ParseError(_))))),
            r is Fetch ==> *final(store) == *old(store),
            final(self).others@ == rev_pick(candidates@, crate::ranking::below_max(title_scores(old(self).track.name@, song_names(candidates@)), final(self).certainty)),
            r matches Step::Done(Ok(NewSong::Hit(h))) ==> titles_sorted(h.anime_info@) && titles_sorted(h.more_with_artist@),
            r matches Step::Done(Ok(NewSong::Miss(m))) ==> titles_sorted(m.possible_anime@),
            r matches Step::Fetch(Fetch::Enrichment(ids)) ==> ids@.no_duplicates() && forall|id: AnilistID|
                #[trigger] ids@.contains(id) <==> (links_to(final(self).best@, id) || links_to(final(self).others@, id)),
    {
        let mut cands = candidates;
        let ghost all = cands@;
        let (best, top) = Anime::pick_best_by_song_name(&mut cands, self.track.name.as_str());
        proof {
            crate::ranking::lemma_best_is_every_top_scorer(all, title_scores(self.track.name@, song_names(all)));
            lemma_split_distinct(all, title_scores(self.track.name@, song_names(all)), top);
        }
        self.best = best;
        self.others = cands;
        self.certainty = top;
        self.phase = Phase::Enrich;
        self.enrich(store)
    }

    /// Ranks the candidates by how their artists match the track's.
    fn decide_by_artist(&mut self, store: &mut Database, candidates: Vec<Anime>) -> (r: Step)
        requires
            old(self).inv(),
            old(store).wf(),
            distinct_songs(candidates@),
        ensures
            distinct_songs(final(self).best@ + final(self).others@),
            final(self).track == old(self).track,
            final(self).inv(),
            final(store).wf(),
            final(self).certainty == max_score(artist_scores(crate::types::streaming_names(old(self).track), candidates@)),
            final(self).best@ == rev_pick(candidates@, at_max(artist_scores(crate::types::streaming_names(old(self).track), candidates@), final(self).certainty)),
            final(self).accuracy_cutoff == old(self).accuracy_cutoff,
            final(self).auto_add_limit == old(self).auto_add_limit,
            !(final(self).certainty > old(self).accuracy_cutoff && final(self).certainty > old(self).auto_add_limit) ==> *final(store) == *old(store),
            r matches Step::Done(Ok(NewSong::Hit(h))) ==> final(self).certainty > old(self).accuracy_cutoff && h.certainty == (final(self).certainty / 10) as i32,
            r matches Step::Done(Ok(NewSong::Miss(_))) ==> final(self).certainty <= old(self).accuracy_cutoff,
            r matches Step::Fetch(f) ==> f is Enrichment && final(self).phase == Phase::Enrich,
            r matches Step::Done(Ok(NewSong::Hit(h))) ==> lists_songs(h.anime_info@, final(self).best@)
                && lists_songs(h.more_with_artist@, final(self).others@) && h.song_info.spotify_id == final(self).track.id,
            r matches Step::Done(Ok(NewSong::Miss(m))) ==> lists_songs(m.possible_anime@, final(self).best@ + final(self).others@)
                && m.song_info.spotify_id == final(self).track.id,
            r matches Step::Done(Ok(NewSong::Hit(_))) ==> (final(self).certainty > final(self).auto_add_limit
                && old(store).next_group_id < i32::MAX ==> persisted(*final(store), *final(self))),
            r is Done ==> (final(self).certainty > final(self).accuracy_cutoff ==> (r matches Step::Done(Ok(NewSong::Hit(_)))
                || r matches Step::Done(Err(Error::ParseError(_))))),
            r is Fetch ==> *final(store) == *old(store),
            final(self).others@ == rev_pick(candidates@, crate::ranking::below_max(artist_scores(crate::types::streaming_names(old(self).track), candidates@), final(self).certainty)),
            r matches Step::Done(Ok(NewSong::Hit(h))) ==> titles_sorted(h.anime_info@) && titles_sorted(h.more_with_artist@),
            r matches Step::Done(Ok(NewSong::Miss(m))) ==> titles_sorted(m.possible_anime@),
            r matches Step::Fetch(Fetch::Enrichment(ids)) ==> ids@.no_duplicates() && forall|id: AnilistID|
                #[trigger] ids@.contains(id) <==> (links_to(final(self).best@, id) || links_to(final(self).others@, id)),
    {
        let names = track_artist_names(&self.track);
        let mut cands = candidates;
        let ghost all = cands@;
        let (best, top) = Anime::pick_best_by_artist_names(&mut cands, &names);
        proof {
            crate::ranking::lemma_best_is_every_top_scorer(all, artist_scores(crate::types::streaming_names(self.track), all));
            lemma_split_distinct(all, artist_scores(crate::types::streaming_names(self.track), all), top);
        }
        self.best = best;
        self.others = cands;
        self.certainty = top;
        self.phase = Phase::Enrich;
        self.enrich(store)
    }

    /// Takes the result of the fetch that the last step asked for. A failed
    /// catalog search ends the reconciliation with its error; a failed enrichment
    /// counts as none. The store is written only for a hit above the auto-add
    /// limit or to refresh stale linked records.
    pub fn resume(&mut self, store: &mut Database, event: Event) -> (r: Step)
        requires
            old(self).inv(),
            old(store).wf(),
        ensures
            final(self).inv(),
            final(store).wf(),
            final(self).track == old(self).track,
            final(self).accuracy_cutoff == old(self).accuracy_cutoff,
            final(self).auto_add_limit == old(self).auto_add_limit,
            old(self).phase != Phase::Refresh && !(final(self).certainty > old(self).accuracy_cutoff
                && final(self).certainty > old(self).auto_add_limit) ==> *final(store) == *old(store),
            r matches Step::Done(Ok(NewSong::Hit(h))) ==> (old(self).phase != Phase::Refresh ==> final(self).certainty > old(self).accuracy_cutoff
                && h.certainty == (final(self).certainty / 10) as i32),
            r matches Step::Done(Ok(NewSong::Miss(_))) ==> final(self).certainty <= old(self).accuracy_cutoff
                && *final(store) == *old(store),
            old(self).phase == Phase::Bound && event is Catalog ==> final(self).certainty == max_score(
                title_scores(old(self).track.name@, song_names(unique_songs(event->Catalog_0@)))),
            old(self).phase == Phase::ByTitle && event is Catalog && unique_songs(event->Catalog_0@).len() > 0
                ==> final(self).certainty == max_score(artist_scores(crate::types::streaming_names(old(self).track), unique_songs(event->Catalog_0@))),
            old(self).phase == Phase::ByTitle && event is Catalog && unique_songs(event->Catalog_0@).len() == 0
                ==> final(self).phase == Phase::Partial && (r matches Step::Fetch(Fetch::SongTitle(t, p)) && t@ == romanized(old(self).track.name@) && p),
            old(self).phase is ByName && event is Catalog && old(self).phase->ByName_0 < old(self).track.artists@.len()
                ==> final(self).phase == Phase::ByName((old(self).phase->ByName_0 + 1) as usize) && (r matches Step::Fetch(Fetch::ArtistName(n))
                && n@ == romanized(old(self).track.artists@[old(self).phase->ByName_0 as int].name@)),
            old(self).phase == Phase::Partial && event is Catalog && event->Catalog_0@.len() == 0
                ==> (r matches Step::Done(Ok(NewSong::Miss(m))) && m.possible_anime@.len() == 0),
            (old(self).phase == Phase::Bound || old(self).phase is ByName || old(self).phase == Phase::ByTitle
                || old(self).phase == Phase::Partial) && event is Failed ==> (r matches Step::Done(Err(e)) && e == event->Failed_0),
            old(self).phase == Phase::Enrich ==> (r matches Step::Done(Ok(NewSong::Hit(h))) ==> h.anime_info@.len()
                == old(self).best@.len() && h.more_with_artist@.len() == old(self).others@.len()
                && titles_sorted(h.anime_info@) && titles_sorted(h.more_with_artist@)),
            old(self).phase == Phase::Enrich ==> (r matches Step::Done(Ok(NewSong::Miss(m)))
                ==> m.possible_anime@.len() == old(self).best@.len() + old(self).others@.len()
                && titles_sorted(m.possible_anime@)),
            old(self).phase is ByName && old(self).phase->ByName_0 >= old(self).track.artists@.len() && event is Catalog
                && unique_songs(old(self).gathered@ + event->Catalog_0@).len() > 0 ==> final(self).certainty == max_score(
                title_scores(old(self).track.name@, song_names(unique_songs(old(self).gathered@ + event->Catalog_0@)))),
            old(self).phase is ByName && old(self).phase->ByName_0 >= old(self).track.artists@.len() && event is Catalog
                && unique_songs(old(self).gathered@ + event->Catalog_0@).len() == 0 ==> final(self).phase == Phase::ByTitle
                && (r matches Step::Fetch(Fetch::SongTitle(t, p)) && t@ == romanized(old(self).track.name@) && !p),
            old(self).phase != Phase::Refresh ==> (r matches Step::Done(Ok(NewSong::Hit(h))) ==> lists_songs(h.anime_info@, final(self).best@)
                && lists_songs(h.more_with_artist@, final(self).others@) && h.song_info.spotify_id == final(self).track.id),
            r matches Step::Done(Ok(NewSong::Miss(m))) ==> lists_songs(m.possible_anime@, final(self).best@ + final(self).others@)
                && m.song_info.spotify_id == final(self).track.id,
            old(self).phase != Phase::Refresh ==> (r matches Step::Done(Ok(NewSong::Hit(_))) ==> (final(self).certainty > final(self).auto_add_limit
                && old(store).next_group_id < i32::MAX ==> persisted(*final(store), *final(self)))),
            (old(self).phase == Phase::Enrich || (event is Catalog && old(self).phase != Phase::Refresh
                && old(self).phase != Phase::Finished)) && r is Done ==> (final(self).certainty > final(self).accuracy_cutoff
                ==> (r matches Step::Done(Ok(NewSong::Hit(_))) || r matches Step::Done(Err(Error::ParseError(_))))),
            old(self).phase == Phase::Enrich ==> final(self).certainty == old(self).certainty && final(self).best
                == old(self).best && final(self).others == old(self).others && r is Done,
            r is Fetch ==> *final(store) == *old(store),
            old(self).phase is ByName && old(self).phase->ByName_0 < old(self).track.artists@.len() && event is Catalog ==> final(self).gathered@
                == old(self).gathered@ + event->Catalog_0@ && final(self).certainty == old(self).certainty,
            old(self).phase == Phase::ByTitle && event is Catalog && unique_songs(event->Catalog_0@).len() == 0 ==> final(self).certainty == old(self).certainty,
            old(self).phase == Phase::Partial && event is Catalog ==> final(self).best@.len() == 0
                && final(self).others@ == unique_songs(event->Catalog_0@) && final(self).certainty == 0,
            old(self).phase == Phase::Refresh ==> (r matches Step::Done(Ok(NewSong::Hit(h))) && h.certainty == 100
                && titles_sorted(h.anime_info@) && shows_all(h.anime_info@, old(self).stored_hits@)
                && h.song_info.spotify_id == old(self).track.id),
            (r matches Step::Done(Ok(_)) || r matches Step::Fetch(Fetch::Enrichment(_))) && old(self).phase != Phase::Refresh ==> distinct_songs(final(self).best@ + final(self).others@),
            r matches Step::Done(Ok(NewSong::Hit(h))) ==> titles_sorted(h.anime_info@) && titles_sorted(h.more_with_artist@),
            r matches Step::Done(Ok(NewSong::Miss(m))) ==> titles_sorted(m.possible_anime@),
            r matches Step::Fetch(Fetch::Enrichment(ids)) ==> ids@.no_duplicates() && forall|id: AnilistID|
                #[trigger] ids@.contains(id) <==> (links_to(final(self).best@, id) || links_to(final(self).others@, id)),
    {
        match self.phase {
            Phase::Bound | Phase::ByName(_) | Phase::ByTitle | Phase::Partial => {
                let found = match event {
                    Event::Failed(e) => {
                        self.phase = Phase::Finished;
                        return Step::Done(Err(e));
                    },
                    Event::Catalog(c) => c,
                    Event::Enrichment(_) => Vec::new(),
                };
                self.on_catalog(store, found)
            },
            Phase::Enrich => {
                let media = match event {
                    Event::Enrichment(m) => m,
                    _ => Vec::new(),
                };
                self.finish(store, media)
            },
            Phase::Refresh => {
                let media = match event {
                    Event::Enrichment(m) => m,
                    _ => Vec::new(),
                };
                let mut hits: Vec<DBAnime> = Vec::new();
                std::mem::swap(&mut hits, &mut self.stored_hits);
                let mut more: Vec<DBAnime> = Vec::new();
                std::mem::swap(&mut more, &mut self.stored_more);
                let mut changed = DBAnime::update_all(&mut hits, &media, None, self.now);
                let mut more_changed = DBAnime::update_all(&mut more, &media, None, self.now);
                changed.append(&mut more_changed);
                store.update_or_add_animes(changed, self.now);
                let ghost old_hits = old(self).stored_hits@;
                self.stored_hits = hits;
                self.stored_more = more;
                self.phase = Phase::Finished;
                let hit = self.stored_hit();
                proof {
                    match &hit {
                        NewSong::Hit(h) => {
                            lemma_shows_same(h.anime_info@, self.stored_hits@, old_hits);
                        },
                        NewSong::Miss(_) => {},
                    }
                }
                Step::Done(Ok(hit))
            },
            Phase::Finished => Step::Done(Err(Error::NotImplemented)),
        }
    }

    fn on_catalog(&mut self, store: &mut Database, found: Vec<Anime>) -> (r: Step)
        requires
            old(self).inv(),
            old(store).wf(),
            old(self).phase == Phase::Bound || old(self).phase is ByName || old(self).phase == Phase::ByTitle
                || old(self).phase == Phase::Partial,
        ensures
            final(self).inv(),
            final(store).wf(),
            final(self).track == old(self).track,
            final(self).accuracy_cutoff == old(self).accuracy_cutoff,
            final(self).auto_add_limit == old(self).auto_add_limit,
            !(final(self).certainty > old(self).accuracy_cutoff && final(self).certainty > old(self).auto_add_limit) ==> *final(store) == *old(store),
            r matches Step::Done(Ok(NewSong::Hit(h))) ==> final(self).certainty > old(self).accuracy_cutoff
                && h.certainty == (final(self).certainty / 10) as i32,
            r matches Step::Done(Ok(NewSong::Miss(_))) ==> final(self).certainty <= old(self).accuracy_cutoff,
            old(self).phase == Phase::Bound ==> final(self).certainty == max_score(
                title_scores(old(self).track.name@, song_names(unique_songs(found@)))),
            old(self).phase == Phase::ByTitle && unique_songs(found@).len() > 0
                ==> final(self).certainty == max_score(artist_scores(crate::types::streaming_names(old(self).track), unique_songs(found@))),
            old(self).phase == Phase::ByTitle && unique_songs(found@).len() == 0
                ==> final(self).phase == Phase::Partial && (r matches Step::Fetch(Fetch::SongTitle(t, p)) && t@ == romanized(old(self).track.name@) && p),
            old(self).phase is ByName && old(self).phase->ByName_0 < old(self).track.artists@.len()
                ==> final(self).phase == Phase::ByName((old(self).phase->ByName_0 + 1) as usize) && (r matches Step::Fetch(Fetch::ArtistName(n))
                && n@ == romanized(old(self).track.artists@[old(self).phase->ByName_0 as int].name@)),
            old(self).phase == Phase::Partial && found@.len() == 0
                ==> (r matches Step::Done(Ok(NewSong::Miss(m))) && m.possible_anime@.len() == 0),
            old(self).phase is ByName && old(self).phase->ByName_0 >= old(self).track.artists@.len()
                && unique_songs(old(self).gathered@ + found@).len() > 0 ==> final(self).certainty == max_score(
                title_scores(old(self).track.name@, song_names(unique_songs(old(self).gathered@ + found@)))),
            old(self).phase is ByName && old(self).phase->ByName_0 >= old(self).track.artists@.len()
                && unique_songs(old(self).gathered@ + found@).len() == 0 ==> final(self).phase == Phase::ByTitle
                && (r matches Step::Fetch(Fetch::SongTitle(t, p)) && t@ == romanized(old(self).track.name@) && !p),
            r matches Step::Done(Ok(NewSong::Hit(h))) ==> lists_songs(h.anime_info@, final(self).best@)
                && lists_songs(h.more_with_artist@, final(self).others@) && h.song_info.spotify_id == final(self).track.id,
            r matches Step::Done(Ok(NewSong::Miss(m))) ==> lists_songs(m.possible_anime@, final(self).best@ + final(self).others@)
                && m.song_info.spotify_id == final(self).track.id,
            r matches Step::Done(Ok(NewSong::Hit(_))) ==> (final(self).certainty > final(self).auto_add_limit
                && old(store).next_group_id < i32::MAX ==> persisted(*final(store), *final(self))),
            r is Done ==> (final(self).certainty > final(self).accuracy_cutoff ==> (r matches Step::Done(Ok(NewSong::Hit(_)))
                || r matches Step::Done(Err(Error::ParseError(_))))),
            r is Fetch ==> *final(store) == *old(store),
            old(self).phase is ByName && old(self).phase->ByName_0 < old(self).track.artists@.len() ==> final(self).gathered@
                == old(self).gathered@ + found@ && final(self).certainty == old(self).certainty,
            old(self).phase == Phase::ByTitle && unique_songs(found@).len() == 0 ==> final(self).certainty == old(self).certainty,
            old(self).phase == Phase::Partial ==> final(self).best@.len() == 0 && final(self).others@ == unique_songs(found@)
                && final(self).certainty == 0,
            (r matches Step::Done(Ok(_)) || r matches Step::Fetch(Fetch::Enrichment(_))) && old(self).phase != Phase::Refresh ==> distinct_songs(final(self).best@ + final(self).others@),
            r matches Step::Done(Ok(NewSong::Hit(h))) ==> titles_sorted(h.anime_info@) && titles_sorted(h.more_with_artist@),
            r matches Step::Done(Ok(NewSong::Miss(m))) ==> titles_sorted(m.possible_anime@),
            r matches Step::Fetch(Fetch::Enrichment(ids)) ==> ids@.no_duplicates() && forall|id: AnilistID|
                #[trigger] ids@.contains(id) <==> (links_to(final(self).best@, id) || links_to(final(self).others@, id)),
    {
        match self.phase {
            Phase::Bound => {
                let cands = dedup_songs(found);
                proof {
                    lemma_unique_songs_distinct(found@);
                }
                self.decide_by_title(store, cands)
            },
            Phase::ByName(k) => {
                let mut more = found;
                self.gathered.append(&mut more);
                if k < self.track.artists.len() {
                    let name = process_possible_japanese(self.track.artists[k].name.as_str());
                    self.phase = Phase::ByName(k + 1);
                    return Step::Fetch(Fetch::ArtistName(name));
                }
                let mut all: Vec<Anime> = Vec::new();
                std::mem::swap(&mut all, &mut self.gathered);
                let cands = dedup_songs(all);
                proof {
                    lemma_unique_songs_distinct(all@);
                }
                if cands.len() > 0 {
                    self.decide_by_title(store, cands)
                } else {
                    let title = process_possible_japanese(self.track.name.as_str());
                    self.phase = Phase::ByTitle;
                    Step::Fetch(Fetch::SongTitle(title, false))
                }
            },
            Phase::ByTitle => {
                let cands = dedup_songs(found);
                proof {
                    lemma_unique_songs_distinct(found@);
                }
                if cands.len() > 0 {
                    self.decide_by_artist(store, cands)
                } else {
                    let title = process_possible_japanese(self.track.name.as_str());
                    self.phase = Phase::Partial;
                    Step::Fetch(Fetch::SongTitle(title, true))
                }
            },
            _ => {
                let ghost was_empty = found@.len() == 0;
                let cands = dedup_songs(found);
                proof {
                    lemma_unique_songs_distinct(found@);
                }
                proof {
                    if was_empty {
                        assert(unique_songs(Seq::<Anime>::empty()) == Seq::<Anime>::empty());
                    }
                }
                self.best = Vec::new();
                self.others = cands;
                self.certainty = 0;
                assert(self.best@ + self.others@ =~= self.others@);
                self.phase = Phase::Enrich;
                self.enrich(store)
            },
        }
    }
}

} // verus!
