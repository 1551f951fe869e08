//! The record store: reconciled records, artist bindings and song groups, with
//! the read and write operations that reconciliation relies on.
use crate::anisong::Artist;
use crate::japanese_processing::{process_similarity, regex_found, regex_is_match, score};
use crate::regex_search::{artist_name_of, process_artist_name};
use crate::spotify::{SimplifiedArtist, TrackObject};
use crate::anisong::Anime;
use crate::anilist::Media;
use crate::copies::{copy_ints, copy_string, copy_strings};
use crate::databasetypes::{
    absorbed, same_record, upserted, DBAnime, DBArtist, SongGroup, SongGroupLink,
};
use crate::error::Error;
use crate::text::{chars_of, same_chars};
use vstd::prelude::*;

verus! {

/// A catalog artist the store has seen, bound or not.
#[derive(Debug)]
pub struct KnownArtist {
    pub ann_id: i32,
    pub names: Vec<String>,
    pub groups_ids: Option<Vec<i32>>,
    pub members: Option<Vec<i32>>,
}

/// The record store.
pub struct Database {
    /// Reconciled records, one per catalog song id.
    pub animes: Vec<DBAnime>,
    /// Catalog artists seen so far, one per catalog artist id.
    pub artists: Vec<KnownArtist>,
    /// Streaming artist to catalog artist bindings, each pair once.
    pub artist_links: Vec<DBArtist>,
    pub song_groups: Vec<SongGroup>,
    /// At most one link per streaming track.
    pub song_group_links: Vec<SongGroupLink>,
    /// The id the next song group gets; every group's id is below it.
    pub next_group_id: i32,
}

/// The position of the record with catalog song id `key`.
pub open spec fn key_index(s: Seq<DBAnime>, key: i32) -> Option<int>
    decreases s.len(),
{
    if s.len() == 0 {
        None
    } else if s.last().ann_song_id == key {
        Some(s.len() - 1)
    } else {
        key_index(s.drop_last(), key)
    }
}

pub open spec fn has_key(s: Seq<DBAnime>, key: i32) -> bool {
    exists|i: int| 0 <= i < s.len() && (#[trigger] s[i]).ann_song_id == key
}

pub open spec fn keys_unique(s: Seq<DBAnime>) -> bool {
    forall|i: int, j: int|
        0 <= i < s.len() && 0 <= j < s.len() && i != j ==> (#[trigger] s[i]).ann_song_id
            != (#[trigger] s[j]).ann_song_id
}

/// The records after one record is upserted: merged into the stored record with
/// its key, or added.
pub open spec fn upsert_one(s: Seq<DBAnime>, x: DBAnime) -> Seq<DBAnime> {
    match key_index(s, x.ann_song_id) {
        Some(i) => s.update(i, absorbed(s[i], x)),
        None => s.push(x),
    }
}

/// The batch with every record stamped `now`.
pub open spec fn stamped(batch: Seq<DBAnime>, now: i64) -> Seq<DBAnime> {
    batch.map_values(|r: DBAnime| DBAnime { last_updated: now, ..r })
}

/// Whether some record of the batch has catalog song id `key`.
pub open spec fn in_batch(batch: Seq<DBAnime>, key: i32) -> bool {
    exists|j: int| 0 <= j < batch.len() && (#[trigger] batch[j]).ann_song_id == key
}

/// The records after a batch is upserted in order.
pub open spec fn upsert_all(s: Seq<DBAnime>, batch: Seq<DBAnime>) -> Seq<DBAnime>
    decreases batch.len(),
{
    if batch.len() == 0 {
        s
    } else {
        upsert_one(upsert_all(s, batch.drop_last()), batch.last())
    }
}

/// The group that streaming track `id` is linked to.
pub open spec fn linked_group(links: Seq<SongGroupLink>, id: Seq<char>) -> Option<i32>
    decreases links.len(),
{
    if links.len() == 0 {
        None
    } else if links.last().spotify_id@ == id {
        Some(links.last().group_id)
    } else {
        linked_group(links.drop_last(), id)
    }
}

/// The group of `title` and `artists`.
pub open spec fn group_of(groups: Seq<SongGroup>, title: Seq<char>, artists: Seq<i32>) -> Option<i32>
    decreases groups.len(),
{
    if groups.len() == 0 {
        None
    } else if groups.last().song_title@ == title && groups.last().artist_ids@ == artists {
        Some(groups.last().group_id)
    } else {
        group_of(groups.drop_last(), title, artists)
    }
}

/// The records of song group `g`, in store order.
pub open spec fn in_group(s: Seq<DBAnime>, g: i32) -> Seq<DBAnime>
    decreases s.len(),
{
    if s.len() == 0 {
        s
    } else if s.last().song_group_id == Some(g) {
        in_group(s.drop_last(), g).push(s.last())
    } else {
        in_group(s.drop_last(), g)
    }
}

pub open spec fn shares_artist(r: DBAnime, ids: Seq<i32>) -> bool {
    exists|i: int, j: int|
        0 <= i < r.artists_ann_id@.len() && 0 <= j < ids.len() && r.artists_ann_id@[i] == ids[j]
}

/// The records with an artist among `ids`, in store order.
pub open spec fn by_artists(s: Seq<DBAnime>, ids: Seq<i32>) -> Seq<DBAnime>
    decreases s.len(),
{
    if s.len() == 0 {
        s
    } else if shares_artist(s.last(), ids) {
        by_artists(s.drop_last(), ids).push(s.last())
    } else {
        by_artists(s.drop_last(), ids)
    }
}

/// Copies of the records `want` lists, value for value.
pub open spec fn same_records(got: Seq<DBAnime>, want: Seq<DBAnime>) -> bool {
    got.len() == want.len() && forall|k: int| 0 <= k < got.len() ==> same_record(#[trigger] got[k], want[k])
}

pub open spec fn bound_to(links: Seq<DBArtist>, spotify_ids: Seq<Seq<char>>) -> Seq<DBArtist>
    decreases links.len(),
{
    if links.len() == 0 {
        links
    } else if spotify_ids.contains(links.last().spotify_id@) {
        bound_to(links.drop_last(), spotify_ids).push(links.last())
    } else {
        bound_to(links.drop_last(), spotify_ids)
    }
}

pub open spec fn has_link(links: Seq<DBArtist>, spotify_id: Seq<char>, ann_id: i32) -> bool {
    exists|i: int| 0 <= i < links.len() && (#[trigger] links[i]).spotify_id@ == spotify_id && links[i].ann_id == ann_id
}

/// Whether streaming artist `s` has a binding.
pub open spec fn spotify_bound(links: Seq<DBArtist>, s: Seq<char>) -> bool {
    exists|k: int| 0 <= k < links.len() && (#[trigger] links[k]).spotify_id@ == s
}

/// Whether catalog artist `a` has a binding.
pub open spec fn ann_bound(links: Seq<DBArtist>, a: i32) -> bool {
    exists|k: int| 0 <= k < links.len() && (#[trigger] links[k]).ann_id == a
}

/// Whether catalog artist `a` has been seen.
pub open spec fn known(artists: Seq<KnownArtist>, a: i32) -> bool {
    exists|k: int| 0 <= k < artists.len() && (#[trigger] artists[k]).ann_id == a
}

fn contains_int(v: &Vec<i32>, x: i32) -> (r: bool)
    ensures
        r == v@.contains(x),
{
    let mut i: usize = 0;
    while i < v.len()
        invariant
            i <= v.len(),
            forall|k: int| 0 <= k < i ==> v@[k] != x,
        decreases v.len() - i,
    {
        if v[i] == x {
            assert(v@[i as int] == x);
            return true;
        }
        i = i + 1;
    }
    false
}

fn overlaps(a: &Vec<i32>, b: &Vec<i32>) -> (r: bool)
    ensures
        r == exists|i: int, j: int| 0 <= i < a@.len() && 0 <= j < b@.len() && a@[i] == b@[j],
{
    let mut i: usize = 0;
    while i < a.len()
        invariant
            i <= a.len(),
            forall|k: int, j: int| 0 <= k < i && 0 <= j < b@.len() ==> a@[k] != b@[j],
        decreases a.len() - i,
    {
        if contains_int(b, a[i]) {
            let ghost j = choose|j: int| 0 <= j < b@.len() && b@[j] == a@[i as int];
            assert(a@[i as int] == b@[j]);
            return true;
        }
        i = i + 1;
    }
    false
}

fn contains_text(v: &Vec<String>, x: &str) -> (r: bool)
    ensures
        r == v@.map_values(|s: String| s@).contains(x@),
{
    let xs = chars_of(x);
    let mut i: usize = 0;
    while i < v.len()
        invariant
            i <= v.len(),
            xs@ == x@,
            forall|k: int| 0 <= k < i ==> v@[k]@ != x@,
        decreases v.len() - i,
    {
        if same_chars(&chars_of(v[i].as_str()), &xs) {
            assert(v@.map_values(|s: String| s@)[i as int] == x@);
            return true;
        }
        i = i + 1;
    }
    let ghost m = v@.map_values(|s: String| s@);
    assert forall|k: int| 0 <= k < m.len() implies #[trigger] m[k] != x@ by {}
    false
}

fn text_eq(a: &String, b: &str) -> (r: bool)
    ensures
        r == (a@ == b@),
{
    same_chars(&chars_of(a.as_str()), &chars_of(b))
}

fn ints_eq(a: &Vec<i32>, b: &Vec<i32>) -> (r: bool)
    ensures
        r == (a@ == b@),
{
    if a.len() != b.len() {
        return false;
    }
    let mut i: usize = 0;
    while i < a.len()
        invariant
            a.len() == b.len(),
            i <= a.len(),
            forall|k: int| 0 <= k < i ==> a@[k] == b@[k],
        decreases a.len() - i,
    {
        if a[i] != b[i] {
            return false;
        }
        i = i + 1;
    }
    assert(a@ =~= b@);
    true
}

impl Database {
    /// The store's invariant: keys unique and well-formed records, one link per
    /// streaming track, group ids below the next one.
    pub open spec fn wf(&self) -> bool {
        &&& keys_unique(self.animes@)
        &&& forall|i: int| 0 <= i < self.animes@.len() ==> (#[trigger] self.animes@[i]).wf()
        &&& forall|i: int, j: int|
            0 <= i < self.song_group_links@.len() && 0 <= j < self.song_group_links@.len() && i
                != j ==> (#[trigger] self.song_group_links@[i]).spotify_id@
                != (#[trigger] self.song_group_links@[j]).spotify_id@
        &&& forall|i: int|
            0 <= i < self.song_groups@.len() ==> (#[trigger] self.song_groups@[i]).group_id
                < self.next_group_id
        &&& self.next_group_id >= 0
    }

    /// An empty store.
    pub fn new() -> (r: Self)
        ensures
            r.wf(),
            r.animes@.len() == 0,
            r.song_group_links@.len() == 0,
            r.artist_links@.len() == 0,
    {
        Database {
            animes: Vec::new(),
            artists: Vec::new(),
            artist_links: Vec::new(),
            song_groups: Vec::new(),
            song_group_links: Vec::new(),
            next_group_id: 0,
        }
    }

    fn find_link(&self, spotify_id: &str) -> (r: Option<i32>)
        ensures
            r == linked_group(self.song_group_links@, spotify_id@),
    {
        let mut i: usize = self.song_group_links.len();
        assert(self.song_group_links@.subrange(0, i as int) =~= self.song_group_links@);
        while i > 0
            invariant
                i <= self.song_group_links@.len(),
                linked_group(self.song_group_links@, spotify_id@) == linked_group(
                    self.song_group_links@.subrange(0, i as int),
                    spotify_id@,
                ),
            decreases i,
        {
            let ghost pre = self.song_group_links@.subrange(0, i as int);
            assert(pre.drop_last() =~= self.song_group_links@.subrange(0, i - 1));
            if text_eq(&self.song_group_links[i - 1].spotify_id, spotify_id) {
                return Some(self.song_group_links[i - 1].group_id);
            }
            i = i - 1;
        }
        assert(self.song_group_links@ =~= self.song_group_links@.subrange(
            0,
            self.song_group_links@.len() as int,
        ));
        None
    }

    /// The records linked to streaming track `spotify_id` through its song group.
    pub fn get_anime_by_spotify_id(&self, spotify_id: &str) -> (r: Vec<DBAnime>)
        ensures
            match linked_group(self.song_group_links@, spotify_id@) {
                Some(g) => same_records(r@, in_group(self.animes@, g)),
                None => r@.len() == 0,
            },
            forall|k: int| 0 <= k < r@.len() ==> #[trigger] r@[k].wf() || !self.wf(),
    {
        let g = match self.find_link(spotify_id) {
            Some(g) => g,
            None => return Vec::new(),
        };
        let mut r: Vec<DBAnime> = Vec::new();
        let mut i: usize = 0;
        while i < self.animes.len()
            invariant
                i <= self.animes@.len(),
                same_records(r@, in_group(self.animes@.subrange(0, i as int), g)),
                forall|k: int| 0 <= k < r@.len() ==> #[trigger] r@[k].wf() || !self.wf(),
            decreases self.animes@.len() - i,
        {
            assert(self.animes@.subrange(0, i + 1).drop_last() =~= self.animes@.subrange(0, i as int));
            if self.animes[i].song_group_id == Some(g) {
                let c = self.animes[i].copy();
                r.push(c);
            }
            i = i + 1;
        }
        assert(self.animes@.subrange(0, self.animes@.len() as int) =~= self.animes@);
        r
    }

    /// The records with an artist among `ann_ids`.
    pub fn get_animes_by_artists_ann_ids(&self, ann_ids: &Vec<i32>) -> (r: Vec<DBAnime>)
        ensures
            same_records(r@, by_artists(self.animes@, ann_ids@)),
            forall|k: int| 0 <= k < r@.len() ==> #[trigger] r@[k].wf() || !self.wf(),
    {
        let mut r: Vec<DBAnime> = Vec::new();
        let mut i: usize = 0;
        while i < self.animes.len()
            invariant
                i <= self.animes@.len(),
                same_records(r@, by_artists(self.animes@.subrange(0, i as int), ann_ids@)),
                forall|k: int| 0 <= k < r@.len() ==> #[trigger] r@[k].wf() || !self.wf(),
            decreases self.animes@.len() - i,
        {
            assert(self.animes@.subrange(0, i + 1).drop_last() =~= self.animes@.subrange(0, i as int));
            if overlaps(&self.animes[i].artists_ann_id, ann_ids) {
                let c = self.animes[i].copy();
                r.push(c);
            }
            i = i + 1;
        }
        assert(self.animes@.subrange(0, self.animes@.len() as int) =~= self.animes@);
        r
    }

    /// The bindings of the streaming artists `spotify_ids`.
    pub fn get_artists_spotify_id(&self, spotify_ids: &Vec<String>) -> (r: Vec<DBArtist>)
        ensures
            r@.len() == bound_to(self.artist_links@, spotify_ids@.map_values(|s: String| s@)).len(),
            forall|k: int| 0 <= k < r@.len() ==> (#[trigger] r@[k]).ann_id == bound_to(
                self.artist_links@,
                spotify_ids@.map_values(|s: String| s@),
            )[k].ann_id && r@[k].spotify_id == bound_to(
                self.artist_links@,
                spotify_ids@.map_values(|s: String| s@),
            )[k].spotify_id,
    {
        let ghost ids = spotify_ids@.map_values(|s: String| s@);
        let mut r: Vec<DBArtist> = Vec::new();
        let mut i: usize = 0;
        while i < self.artist_links.len()
            invariant
                i <= self.artist_links@.len(),
                ids == spotify_ids@.map_values(|s: String| s@),
                r@.len() == bound_to(self.artist_links@.subrange(0, i as int), ids).len(),
                forall|k: int| 0 <= k < r@.len() ==> (#[trigger] r@[k]).ann_id == bound_to(
                    self.artist_links@.subrange(0, i as int),
                    ids,
                )[k].ann_id && r@[k].spotify_id == bound_to(
                    self.artist_links@.subrange(0, i as int),
                    ids,
                )[k].spotify_id,
            decreases self.artist_links@.len() - i,
        {
            assert(self.artist_links@.subrange(0, i + 1).drop_last() =~= self.artist_links@.subrange(0, i as int));
            if contains_text(spotify_ids, self.artist_links[i].spotify_id.as_str()) {
                let c = self.artist_links[i].copy();
                r.push(c);
            }
            i = i + 1;
        }
        assert(self.artist_links@.subrange(0, self.artist_links@.len() as int) =~= self.artist_links@);
        r
    }

    fn find_key(&self, key: i32) -> (r: Option<usize>)
        ensures
            match r {
                Some(i) => key_index(self.animes@, key) == Some(i as int),
                None => key_index(self.animes@, key) is None,
            },
    {
        let mut i: usize = self.animes.len();
        assert(self.animes@.subrange(0, i as int) =~= self.animes@);
        while i > 0
            invariant
                i <= self.animes@.len(),
                key_index(self.animes@, key) == key_index(self.animes@.subrange(0, i as int), key),
            decreases i,
        {
            assert(self.animes@.subrange(0, i as int).drop_last() =~= self.animes@.subrange(0, i - 1));
            if self.animes[i - 1].ann_song_id == key {
                return Some(i - 1);
            }
            i = i - 1;
        }
        None
    }

    /// Upserts one record: merged into the stored record with its key, or added.
    pub fn upsert(&mut self, record: DBAnime)
        requires
            old(self).wf(),
            record.wf(),
        ensures
            final(self).wf(),
            final(self).animes@ == upsert_one(old(self).animes@, record),
            final(self).song_group_links == old(self).song_group_links,
            final(self).song_groups == old(self).song_groups,
            final(self).artist_links == old(self).artist_links,
            final(self).next_group_id == old(self).next_group_id,
    {
        proof {
            lemma_key_index(self.animes@, record.ann_song_id);
        }
        match self.find_key(record.ann_song_id) {
            Some(i) => {
                let stored = self.animes.remove(i);
                let merged = stored.absorb(record);
                self.animes.insert(i, merged);
                assert(self.animes@ =~= upsert_one(old(self).animes@, record));
            },
            None => {
                self.animes.push(record);
            },
        }
        proof {
            let s = old(self).animes@;
            let t = self.animes@;
            assert forall|i: int, j: int|
                0 <= i < t.len() && 0 <= j < t.len() && i != j implies (#[trigger] t[i]).ann_song_id
                != (#[trigger] t[j]).ann_song_id by {
                if i < s.len() {
                    assert(t[i].ann_song_id == s[i].ann_song_id);
                }
                if j < s.len() {
                    assert(t[j].ann_song_id == s[j].ann_song_id);
                }
            }
            assert forall|i: int| 0 <= i < t.len() implies (#[trigger] t[i]).wf() by {
                if i < s.len() {
                    assert(s[i].wf());
                }
            }
        }
    }

    /// Upserts a batch in order, as one write.
    /// Upserts a batch in order, as one write at time `now`: every record written
    /// is stamped `now`.
    pub fn update_or_add_animes(&mut self, animes: Vec<DBAnime>, now: i64)
        requires
            old(self).wf(),
            forall|i: int| 0 <= i < animes@.len() ==> (#[trigger] animes@[i]).wf(),
        ensures
            final(self).wf(),
            final(self).animes@ == upsert_all(old(self).animes@, stamped(animes@, now)),
            forall|i: int| 0 <= i < final(self).animes@.len() && in_batch(animes@, (#[trigger] final(self).animes@[i]).ann_song_id)
                ==> final(self).animes@[i].last_updated == now,
            forall|j: int| 0 <= j < animes@.len() ==> has_key(final(self).animes@, (#[trigger] animes@[j]).ann_song_id),
            final(self).song_group_links == old(self).song_group_links,
            final(self).song_groups == old(self).song_groups,
            final(self).artist_links == old(self).artist_links,
            final(self).next_group_id == old(self).next_group_id,
    {
        let ghost batch = animes@;
        let ghost stamps = stamped(animes@, now);
        let total = animes.len();
        let mut rest = animes;
        let mut done: usize = 0;
        while rest.len() > 0
            invariant
                self.wf(),
                done + rest@.len() == batch.len(),
                batch.len() == total,
                stamps == stamped(batch, now),
                rest@ == batch.subrange(done as int, batch.len() as int),
                forall|i: int| 0 <= i < batch.len() ==> (#[trigger] batch[i]).wf(),
                self.animes@ == upsert_all(old(self).animes@, stamps.subrange(0, done as int)),
                forall|i: int| 0 <= i < self.animes@.len() && in_batch(batch.subrange(0, done as int), (#[trigger] self.animes@[i]).ann_song_id)
                    ==> self.animes@[i].last_updated == now,
                forall|j: int| 0 <= j < done ==> has_key(self.animes@, (#[trigger] batch[j]).ann_song_id),
                self.song_group_links == old(self).song_group_links,
                self.song_groups == old(self).song_groups,
                self.artist_links == old(self).artist_links,
                self.next_group_id == old(self).next_group_id,
            decreases rest@.len(),
        {
            let mut x = rest.remove(0);
            assert(x == batch[done as int]);
            x.last_updated = now;
            assert(x == stamps[done as int]);
            let ghost before = self.animes@;
            proof {
                lemma_key_index(before, x.ann_song_id);
            }
            self.upsert(x);
            proof {
                let after = self.animes@;
                lemma_upsert_one_keys(before, x, x.ann_song_id);
                assert forall|i: int| 0 <= i < after.len() && in_batch(batch.subrange(0, done + 1), (#[trigger] after[i]).ann_song_id)
                    implies after[i].last_updated == now by {
                    let j = choose|j: int| 0 <= j < done + 1 && (#[trigger] batch.subrange(0, done + 1)[j]).ann_song_id == after[i].ann_song_id;
                    match key_index(before, x.ann_song_id) {
                        Some(p) => {
                            if i != p {
                                assert(after[i] == before[i]);
                                if after[i].ann_song_id == x.ann_song_id {
                                    assert(before[p].ann_song_id == x.ann_song_id);
                                    assert(false);
                                }
                                assert(batch.subrange(0, done as int)[j] == batch.subrange(0, done + 1)[j]);
                                assert(in_batch(batch.subrange(0, done as int), before[i].ann_song_id));
                            }
                        },
                        None => {
                            if i < before.len() {
                                assert(after[i] == before[i]);
                                assert(before[i].ann_song_id != x.ann_song_id);
                                assert(batch.subrange(0, done as int)[j] == batch.subrange(0, done + 1)[j]);
                                assert(in_batch(batch.subrange(0, done as int), before[i].ann_song_id));
                            }
                        },
                    }
                }
                assert forall|j: int| 0 <= j < done + 1 implies has_key(after, (#[trigger] batch[j]).ann_song_id) by {
                    lemma_upsert_one_keys(before, x, batch[j].ann_song_id);
                }
            }
            done = done + 1;
            assert(stamps.subrange(0, done as int).drop_last() =~= stamps.subrange(0, done - 1));
            assert(rest@ =~= batch.subrange(done as int, batch.len() as int));
        }
        assert(stamps.subrange(0, batch.len() as int) =~= stamps);
        assert(batch.subrange(0, batch.len() as int) =~= batch);
    }

    fn find_group(&self, title: &str, artist_ids: &Vec<i32>) -> (r: Option<i32>)
        ensures
            r == group_of(self.song_groups@, title@, artist_ids@),
    {
        let mut i: usize = self.song_groups.len();
        assert(self.song_groups@.subrange(0, i as int) =~= self.song_groups@);
        while i > 0
            invariant
                i <= self.song_groups@.len(),
                group_of(self.song_groups@, title@, artist_ids@) == group_of(
                    self.song_groups@.subrange(0, i as int),
                    title@,
                    artist_ids@,
                ),
            decreases i,
        {
            assert(self.song_groups@.subrange(0, i as int).drop_last() =~= self.song_groups@.subrange(0, i - 1));
            if text_eq(&self.song_groups[i - 1].song_title, title) && ints_eq(
                &self.song_groups[i - 1].artist_ids,
                artist_ids,
            ) {
                return Some(self.song_groups[i - 1].group_id);
            }
            i = i - 1;
        }
        assert(self.song_groups@ =~= self.song_groups@.subrange(0, self.song_groups@.len() as int));
        None
    }

    /// Binds streaming track `spotify_id` to the group of `song_title` and
    /// `artist_ids`, making the group if there is none, and returns the group. A
    /// track already linked keeps its group and the store is unchanged. Fails only
    /// when no group id is left.
    pub fn add_song_group_link(&mut self, spotify_id: &str, song_title: &str, artist_ids: &Vec<i32>) -> (r: Result<i32, Error>)
        requires
            old(self).wf(),
        ensures
            final(self).wf(),
            final(self).animes == old(self).animes,
            final(self).artist_links == old(self).artist_links,
            linked_group(old(self).song_group_links@, spotify_id@) matches Some(g) ==> r == Ok::<i32, Error>(g)
                && *final(self) == *old(self),
            r matches Ok(g) ==> linked_group(final(self).song_group_links@, spotify_id@) == Some(g),
            linked_group(old(self).song_group_links@, spotify_id@) is None ==> (group_of(
                old(self).song_groups@,
                song_title@,
                artist_ids@,
            ) matches Some(g) ==> r == Ok::<i32, Error>(g)),
            linked_group(old(self).song_group_links@, spotify_id@) is None && group_of(old(self).song_groups@, song_title@, artist_ids@) is Some
                ==> final(self).song_groups == old(self).song_groups,
            linked_group(old(self).song_group_links@, spotify_id@) is None && group_of(old(self).song_groups@, song_title@, artist_ids@) is None
                && r is Ok ==> final(self).song_groups@.len() == old(self).song_groups@.len() + 1
                && final(self).song_groups@.drop_last() == old(self).song_groups@
                && final(self).song_groups@.last().group_id == r->Ok_0
                && final(self).song_groups@.last().song_title@ == song_title@
                && final(self).song_groups@.last().artist_ids@ == artist_ids@,
            linked_group(old(self).song_group_links@, spotify_id@) is None && r is Ok ==>
                group_of(final(self).song_groups@, song_title@, artist_ids@) == Some(r->Ok_0)
                && final(self).song_group_links@.len() == old(self).song_group_links@.len() + 1
                && final(self).song_group_links@.drop_last() == old(self).song_group_links@,
            r is Err ==> linked_group(old(self).song_group_links@, spotify_id@) is None
                && group_of(old(self).song_groups@, song_title@, artist_ids@) is None
                && old(self).next_group_id == i32::MAX && *final(self) == *old(self),
    {
        if let Some(g) = self.find_link(spotify_id) {
            return Ok(g);
        }
        let g = match self.find_group(song_title, artist_ids) {
            Some(g) => g,
            None => {
                if self.next_group_id == i32::MAX {
                    return Err(Error::StoreError(crate::text::owned("no song group id is left")));
                }
                let g = self.next_group_id;
                self.song_groups.push(
                    SongGroup {
                        group_id: g,
                        song_title: crate::text::owned(song_title),
                        artist_ids: copy_ints(artist_ids),
                    },
                );
                self.next_group_id = g + 1;
                g
            },
        };
        assert(group_of(self.song_groups@, song_title@, artist_ids@) == Some(g)) by {
            if self.song_groups@.len() > 0 {
                assert(self.song_groups@.drop_last() =~= self.song_groups@.subrange(0, self.song_groups@.len() - 1));
            }
        }
        let ghost links = self.song_group_links@;
        proof {
            lemma_linked_group_absent(links, spotify_id@);
        }
        self.song_group_links.push(SongGroupLink { spotify_id: crate::text::owned(spotify_id), group_id: g });
        assert(self.song_group_links@.drop_last() =~= links);
        Ok(g)
    }

    /// Binds streaming artist `spotify_id` to catalog artist `artist`; a pair
    /// already bound is left as it is.
    pub fn bind_artist(&mut self, artist: &Artist, spotify_id: &str)
        requires
            old(self).wf(),
        ensures
            final(self).wf(),
            final(self).animes == old(self).animes,
            final(self).song_group_links == old(self).song_group_links,
            final(self).song_groups == old(self).song_groups,
            final(self).next_group_id == old(self).next_group_id,
            has_link(final(self).artist_links@, spotify_id@, artist.id),
            has_link(old(self).artist_links@, spotify_id@, artist.id) ==> final(self).artist_links@
                == old(self).artist_links@,
            forall|s: Seq<char>, a: i32| #[trigger] has_link(old(self).artist_links@, s, a) ==> has_link(
                final(self).artist_links@,
                s,
                a,
            ),
            forall|s: Seq<char>, a: i32| #[trigger] has_link(final(self).artist_links@, s, a) ==> has_link(
                old(self).artist_links@,
                s,
                a,
            ) || (s == spotify_id@ && a == artist.id),
            final(self).artists == old(self).artists,
            forall|s: Seq<char>| #[trigger] spotify_bound(old(self).artist_links@, s) ==> spotify_bound(final(self).artist_links@, s),
            forall|a: i32| #[trigger] ann_bound(old(self).artist_links@, a) ==> ann_bound(final(self).artist_links@, a),
    {
        let mut i: usize = 0;
        while i < self.artist_links.len()
            invariant
                i <= self.artist_links@.len(),
                forall|k: int| 0 <= k < i ==> !((#[trigger] self.artist_links@[k]).spotify_id@ == spotify_id@ && self.artist_links@[k].ann_id == artist.id),
                *self == *old(self),
                old(self).wf(),
            decreases self.artist_links@.len() - i,
        {
            if self.artist_links[i].ann_id == artist.id && text_eq(&self.artist_links[i].spotify_id, spotify_id) {
                assert(has_link(self.artist_links@, spotify_id@, artist.id)) by {
                    assert(self.artist_links@[i as int].spotify_id@ == spotify_id@);
                }
                return;
            }
            i = i + 1;
        }
        let ghost before = self.artist_links@;
        let groups = match &artist.groups {
            Some(gs) => Some(artist_ids_of(gs)),
            None => None,
        };
        let members = match &artist.members {
            Some(ms) => Some(artist_ids_of(ms)),
            None => None,
        };
        self.artist_links.push(
            DBArtist {
                spotify_id: crate::text::owned(spotify_id),
                ann_id: artist.id,
                names: copy_strings(&artist.names),
                groups_ids: groups,
                members,
            },
        );
        assert(self.artist_links@[before.len() as int].spotify_id@ == spotify_id@);
        assert forall|s: Seq<char>, a: i32| #[trigger] has_link(before, s, a) implies has_link(
            self.artist_links@,
            s,
            a,
        ) by {
            let k = choose|k: int| 0 <= k < before.len() && (#[trigger] before[k]).spotify_id@ == s && before[k].ann_id == a;
            assert(self.artist_links@[k] == before[k]);
        }
        assert forall|s: Seq<char>, a: i32| #[trigger] has_link(self.artist_links@, s, a) implies has_link(
            before,
            s,
            a,
        ) || (s == spotify_id@ && a == artist.id) by {
            let k = choose|k: int| 0 <= k < self.artist_links@.len() && (#[trigger] self.artist_links@[k]).spotify_id@ == s && self.artist_links@[k].ann_id == a;
            if k < before.len() {
                assert(before[k] == self.artist_links@[k]);
            }
        }
        assert forall|s: Seq<char>| #[trigger] spotify_bound(before, s) implies spotify_bound(self.artist_links@, s) by {
            let k = choose|k: int| 0 <= k < before.len() && (#[trigger] before[k]).spotify_id@ == s;
            assert(self.artist_links@[k] == before[k]);
        }
        assert forall|a: i32| #[trigger] ann_bound(before, a) implies ann_bound(self.artist_links@, a) by {
            let k = choose|k: int| 0 <= k < before.len() && (#[trigger] before[k]).ann_id == a;
            assert(self.artist_links@[k] == before[k]);
        }
    }

    /// Records catalog artist `artist` as seen; one already seen is left as it is.
    pub fn add_known_artist(&mut self, artist: &Artist)
        requires
            old(self).wf(),
        ensures
            final(self).wf(),
            final(self).animes == old(self).animes,
            final(self).artist_links == old(self).artist_links,
            final(self).song_group_links == old(self).song_group_links,
            final(self).song_groups == old(self).song_groups,
            final(self).next_group_id == old(self).next_group_id,
            known(final(self).artists@, artist.id),
            forall|a: i32| #[trigger] known(old(self).artists@, a) ==> known(final(self).artists@, a),
    {
        let mut i: usize = 0;
        while i < self.artists.len()
            invariant
                i <= self.artists@.len(),
                *self == *old(self),
                old(self).wf(),
                forall|k: int| 0 <= k < i ==> (#[trigger] self.artists@[k]).ann_id != artist.id,
            decreases self.artists@.len() - i,
        {
            if self.artists[i].ann_id == artist.id {
                assert(self.artists@[i as int].ann_id == artist.id);
                return;
            }
            i = i + 1;
        }
        let groups = match &artist.groups {
            Some(gs) => Some(artist_ids_of(gs)),
            None => None,
        };
        let members = match &artist.members {
            Some(ms) => Some(artist_ids_of(ms)),
            None => None,
        };
        let ghost before = self.artists@;
        self.artists.push(KnownArtist { ann_id: artist.id, names: copy_strings(&artist.names), groups_ids: groups, members });
        assert(self.artists@[self.artists@.len() - 1].ann_id == artist.id);
        assert forall|a: i32| #[trigger] known(before, a) implies known(self.artists@, a) by {
            let k = choose|k: int| 0 <= k < before.len() && (#[trigger] before[k]).ann_id == a;
            assert(self.artists@[k] == before[k]);
        }
    }
}

fn artist_ids_of(artists: &Vec<Artist>) -> (r: Vec<i32>)
    ensures
        r@ == crate::databasetypes::artist_ids(artists@),
{
    crate::databasetypes::artist_id_list(artists)
}

proof fn lemma_key_index(s: Seq<DBAnime>, key: i32)
    ensures
        key_index(s, key) matches Some(i) ==> 0 <= i < s.len() && s[i].ann_song_id == key,
        key_index(s, key) is None ==> !has_key(s, key),
    decreases s.len(),
{
    if s.len() > 0 && s.last().ann_song_id != key {
        lemma_key_index(s.drop_last(), key);
        if key_index(s, key) is None {
            assert forall|i: int| 0 <= i < s.len() implies (#[trigger] s[i]).ann_song_id != key by {
                if i < s.len() - 1 {
                    assert(s.drop_last()[i] == s[i]);
                }
            }
        }
    }
}

proof fn lemma_linked_group_absent(links: Seq<SongGroupLink>, id: Seq<char>)
    ensures
        linked_group(links, id) is None ==> forall|i: int| 0 <= i < links.len() ==> (#[trigger] links[i]).spotify_id@ != id,
    decreases links.len(),
{
    if links.len() > 0 && links.last().spotify_id@ != id {
        lemma_linked_group_absent(links.drop_last(), id);
        if linked_group(links, id) is None {
            assert forall|i: int| 0 <= i < links.len() implies (#[trigger] links[i]).spotify_id@ != id by {
                if i < links.len() - 1 {
                    assert(links.drop_last()[i] == links[i]);
                }
            }
        }
    }
}


/// Upserting merges field by field: a field the incoming record leaves empty
/// keeps its stored value, and one it fills always overwrites. A record with a
/// new key is added, and nothing else changes.
pub proof fn lemma_upsert_coalesces(s: Seq<DBAnime>, x: DBAnime)
    ensures
        has_key(s, x.ann_song_id) ==> ({
            let i = key_index(s, x.ann_song_id)->0;
            &&& 0 <= i < s.len()
            &&& s[i].ann_song_id == x.ann_song_id
            &&& upsert_one(s, x).len() == s.len()
            &&& upserted(s[i], x, upsert_one(s, x)[i])
            &&& forall|j: int| 0 <= j < s.len() && j != i ==> upsert_one(s, x)[j] == s[j]
        }),
        !has_key(s, x.ann_song_id) ==> upsert_one(s, x) == s.push(x),
{
    lemma_key_index(s, x.ann_song_id);
    if has_key(s, x.ann_song_id) {
        let i = key_index(s, x.ann_song_id)->0;
        let r = absorbed(s[i], x);
        assert(crate::databasetypes::opt_vec_view(r.genres) == crate::databasetypes::coalesce(
            crate::databasetypes::opt_vec_view(x.genres),
            crate::databasetypes::opt_vec_view(s[i].genres),
        ));
    }
}

proof fn lemma_upsert_one_keys(s: Seq<DBAnime>, x: DBAnime, k: i32)
    ensures
        has_key(upsert_one(s, x), k) <==> (has_key(s, k) || k == x.ann_song_id),
        has_key(s, x.ann_song_id) ==> upsert_one(s, x).len() == s.len(),
{
    lemma_key_index(s, x.ann_song_id);
    let t = upsert_one(s, x);
    match key_index(s, x.ann_song_id) {
        Some(i) => {
            if has_key(s, k) {
                let j = choose|j: int| 0 <= j < s.len() && (#[trigger] s[j]).ann_song_id == k;
                assert(t[j].ann_song_id == k);
            }
            if has_key(t, k) {
                let j = choose|j: int| 0 <= j < t.len() && (#[trigger] t[j]).ann_song_id == k;
                assert(s[j].ann_song_id == k);
            }
            if k == x.ann_song_id {
                assert(t[i].ann_song_id == k);
            }
        },
        None => {
            if has_key(s, k) {
                let j = choose|j: int| 0 <= j < s.len() && (#[trigger] s[j]).ann_song_id == k;
                assert(t[j].ann_song_id == k);
            }
            if has_key(t, k) {
                let j = choose|j: int| 0 <= j < t.len() && (#[trigger] t[j]).ann_song_id == k;
                if j < s.len() {
                    assert(s[j].ann_song_id == k);
                }
            }
            assert(t[s.len() as int].ann_song_id == x.ann_song_id);
        },
    }
}

proof fn lemma_upsert_all_keys(s: Seq<DBAnime>, b: Seq<DBAnime>, k: i32)
    ensures
        has_key(upsert_all(s, b), k) <==> (has_key(s, k) || exists|j: int| 0 <= j < b.len() && (#[trigger] b[j]).ann_song_id == k),
    decreases b.len(),
{
    if b.len() > 0 {
        lemma_upsert_all_keys(s, b.drop_last(), k);
        lemma_upsert_one_keys(upsert_all(s, b.drop_last()), b.last(), k);
        if exists|j: int| 0 <= j < b.drop_last().len() && (#[trigger] b.drop_last()[j]).ann_song_id == k {
            let j = choose|j: int| 0 <= j < b.drop_last().len() && (#[trigger] b.drop_last()[j]).ann_song_id == k;
            assert(b[j].ann_song_id == k);
        }
        if exists|j: int| 0 <= j < b.len() && (#[trigger] b[j]).ann_song_id == k {
            let j = choose|j: int| 0 <= j < b.len() && (#[trigger] b[j]).ann_song_id == k;
            if j < b.len() - 1 {
                assert(b.drop_last()[j].ann_song_id == k);
            }
        }
    }
}

proof fn lemma_upsert_all_known_keys(t: Seq<DBAnime>, b: Seq<DBAnime>)
    requires
        forall|j: int| 0 <= j < b.len() ==> has_key(t, (#[trigger] b[j]).ann_song_id),
    ensures
        upsert_all(t, b).len() == t.len(),
    decreases b.len(),
{
    if b.len() > 0 {
        assert forall|j: int| 0 <= j < b.drop_last().len() implies has_key(t, (#[trigger] b.drop_last()[j]).ann_song_id) by {
            assert(b.drop_last()[j] == b[j]);
        }
        lemma_upsert_all_known_keys(t, b.drop_last());
        lemma_upsert_all_keys(t, b.drop_last(), b.last().ann_song_id);
        assert(has_key(t, b[b.len() - 1].ann_song_id));
        lemma_upsert_one_keys(upsert_all(t, b.drop_last()), b.last(), b.last().ann_song_id);
    }
}

/// Reconciling the same songs again adds no record: upserting a batch a second
/// time keeps the number of records and the set of keys of the first time.
pub proof fn lemma_upsert_twice_adds_nothing(s: Seq<DBAnime>, b: Seq<DBAnime>)
    ensures
        upsert_all(upsert_all(s, b), b).len() == upsert_all(s, b).len(),
        forall|k: i32| has_key(upsert_all(upsert_all(s, b), b), k) <==> has_key(upsert_all(s, b), k),
{
    let t = upsert_all(s, b);
    assert forall|j: int| 0 <= j < b.len() implies has_key(t, (#[trigger] b[j]).ann_song_id) by {
        lemma_upsert_all_keys(s, b, b[j].ann_song_id);
    }
    lemma_upsert_all_known_keys(t, b);
    assert forall|k: i32| has_key(upsert_all(t, b), k) <==> has_key(t, k) by {
        lemma_upsert_all_keys(t, b, k);
        if exists|j: int| 0 <= j < b.len() && (#[trigger] b[j]).ann_song_id == k {
            let j = choose|j: int| 0 <= j < b.len() && (#[trigger] b[j]).ann_song_id == k;
            lemma_upsert_all_keys(s, b, k);
        }
    }
}


/// How well a streaming artist's name matches a catalog artist: the best score,
/// in tenths, of the name (its voice credit stripped) against any of the
/// catalog's names; 0 when it has none.
pub open spec fn name_match(names: Seq<Seq<char>>, streaming: Seq<char>) -> nat
    decreases names.len(),
{
    if names.len() == 0 {
        0
    } else {
        let m = name_match(names.drop_last(), streaming);
        let s = score(artist_name_of(streaming), names.last());
        if s > m {
            s
        } else {
            m
        }
    }
}

/// Whether binding streaming artist `s` to catalog artist `a` is backed by a
/// name match above `limit` between an artist of each side.
pub open spec fn justified(
    catalog: Seq<Artist>,
    streaming: Seq<SimplifiedArtist>,
    limit: u32,
    s: Seq<char>,
    a: i32,
) -> bool {
    exists|i: int, j: int|
        0 <= i < catalog.len() && 0 <= j < streaming.len() && (#[trigger] catalog[i]).id == a
            && (#[trigger] streaming[j]).id@ == s && name_match(
            catalog[i].names@.map_values(|n: String| n@),
            streaming[j].name@,
        ) > limit
}

/// No streaming artist matches catalog artist `i` better than streaming artist
/// `c` without being bound in `links`.
pub open spec fn best_choice(
    catalog: Seq<Artist>,
    streaming: Seq<SimplifiedArtist>,
    links: Seq<DBArtist>,
    i: int,
    c: int,
) -> bool {
    forall|j: int| 0 <= j < streaming.len() && name_match(catalog[i].names@.map_values(|n: String| n@), streaming[j].name@)
        > name_match(catalog[i].names@.map_values(|n: String| n@), streaming[c].name@)
        ==> #[trigger] spotify_bound(links, streaming[j].id@)
}

/// Binding `s` to `a` took, for a catalog artist of id `a`, a streaming artist
/// of id `s` that no unbound streaming artist matches better.
pub open spec fn chosen_best(
    catalog: Seq<Artist>,
    streaming: Seq<SimplifiedArtist>,
    links: Seq<DBArtist>,
    s: Seq<char>,
    a: i32,
) -> bool {
    exists|i: int, c: int|
        0 <= i < catalog.len() && 0 <= c < streaming.len() && (#[trigger] catalog[i]).id == a
            && (#[trigger] streaming[c]).id@ == s && best_choice(catalog, streaming, links, i, c)
}

proof fn lemma_best_choice_grows(
    catalog: Seq<Artist>,
    streaming: Seq<SimplifiedArtist>,
    l1: Seq<DBArtist>,
    l2: Seq<DBArtist>,
    s: Seq<char>,
    a: i32,
)
    requires
        chosen_best(catalog, streaming, l1, s, a),
        forall|x: Seq<char>| #[trigger] spotify_bound(l1, x) ==> spotify_bound(l2, x),
    ensures
        chosen_best(catalog, streaming, l2, s, a),
{
    let (i, c) = choose|i: int, c: int|
        0 <= i < catalog.len() && 0 <= c < streaming.len() && (#[trigger] catalog[i]).id == a
            && (#[trigger] streaming[c]).id@ == s && best_choice(catalog, streaming, l1, i, c);
    assert(best_choice(catalog, streaming, l2, i, c)) by {
        assert forall|j: int| 0 <= j < streaming.len() && name_match(catalog[i].names@.map_values(|n: String| n@), streaming[j].name@)
            > name_match(catalog[i].names@.map_values(|n: String| n@), streaming[c].name@)
            implies #[trigger] spotify_bound(l2, streaming[j].id@) by {
            assert(spotify_bound(l1, streaming[j].id@));
        }
    }
}

fn best_name_match(names: &Vec<String>, streaming_name: &str) -> (r: u32)
    ensures
        r as nat == name_match(names@.map_values(|n: String| n@), streaming_name@),
        r <= 1000,
{
    let stripped = process_artist_name(streaming_name);
    let mut best: u32 = 0;
    let mut i: usize = 0;
    while i < names.len()
        invariant
            i <= names@.len(),
            stripped@ == artist_name_of(streaming_name@),
            best as nat == name_match(names@.subrange(0, i as int).map_values(|n: String| n@), streaming_name@),
            best <= 1000,
        decreases names@.len() - i,
    {
        let s = process_similarity(stripped.as_str(), names[i].as_str());
        let ghost pre = names@.subrange(0, i as int).map_values(|n: String| n@);
        let ghost post = names@.subrange(0, i + 1).map_values(|n: String| n@);
        assert(post.drop_last() =~= pre);
        assert(post.last() == names@[i as int]@);
        if s > best {
            best = s;
        }
        i = i + 1;
    }
    assert(names@.subrange(0, names@.len() as int) =~= names@);
    best
}

fn linked_ann_id(links: &Vec<DBArtist>, ann_id: i32) -> (r: bool)
    ensures
        r == ann_bound(links@, ann_id),
{
    let mut i: usize = 0;
    while i < links.len()
        invariant
            i <= links@.len(),
            forall|k: int| 0 <= k < i ==> (#[trigger] links@[k]).ann_id != ann_id,
        decreases links@.len() - i,
    {
        if links[i].ann_id == ann_id {
            return true;
        }
        i = i + 1;
    }
    false
}

fn linked_spotify_id(links: &Vec<DBArtist>, spotify_id: &str) -> (r: bool)
    ensures
        r == spotify_bound(links@, spotify_id@),
{
    let mut i: usize = 0;
    while i < links.len()
        invariant
            i <= links@.len(),
            forall|k: int| 0 <= k < i ==> (#[trigger] links@[k]).spotify_id@ != spotify_id@,
        decreases links@.len() - i,
    {
        if text_eq(&links[i].spotify_id, spotify_id) {
            return true;
        }
        i = i + 1;
    }
    false
}

impl Database {
    /// Binds each catalog artist that has no binding yet to the unbound
    /// streaming artist whose name matches it best, when that match scores above
    /// `limit` (in tenths); every catalog artist is recorded as seen. Bindings
    /// already made stay. Afterwards each catalog artist is bound, or no streaming
    /// artist left unbound matches it above the limit.
    pub fn try_add_artists(&mut self, anisong_artists: &Vec<Artist>, spotify_artists: &Vec<SimplifiedArtist>, limit: u32)
        requires
            old(self).wf(),
        ensures
            final(self).wf(),
            final(self).animes == old(self).animes,
            final(self).song_group_links == old(self).song_group_links,
            final(self).song_groups == old(self).song_groups,
            forall|s: Seq<char>, a: i32| #[trigger] has_link(old(self).artist_links@, s, a) ==> has_link(final(self).artist_links@, s, a),
            forall|s: Seq<char>, a: i32| #[trigger] has_link(final(self).artist_links@, s, a) ==> has_link(old(self).artist_links@, s, a)
                || (!spotify_bound(old(self).artist_links@, s) && !ann_bound(old(self).artist_links@, a)
                && justified(anisong_artists@, spotify_artists@, limit, s, a)),
            forall|s: Seq<char>, a: i32| #[trigger] has_link(final(self).artist_links@, s, a) ==> has_link(old(self).artist_links@, s, a)
                || chosen_best(anisong_artists@, spotify_artists@, final(self).artist_links@, s, a),
            forall|i: int| 0 <= i < anisong_artists@.len() ==> known(final(self).artists@, (#[trigger] anisong_artists@[i]).id),
            forall|i: int| 0 <= i < anisong_artists@.len() ==> ann_bound(final(self).artist_links@, (#[trigger] anisong_artists@[i]).id)
                || forall|j: int| 0 <= j < spotify_artists@.len() ==> spotify_bound(final(self).artist_links@, (#[trigger] spotify_artists@[j]).id@)
                || name_match(anisong_artists@[i].names@.map_values(|n: String| n@), spotify_artists@[j].name@) <= limit,
    {
        let mut i: usize = 0;
        while i < anisong_artists.len()
            invariant
                i <= anisong_artists@.len(),
                self.wf(),
                self.animes == old(self).animes,
                self.song_group_links == old(self).song_group_links,
                self.song_groups == old(self).song_groups,
                forall|s: Seq<char>, a: i32| #[trigger] has_link(old(self).artist_links@, s, a) ==> has_link(self.artist_links@, s, a),
                forall|s: Seq<char>| #[trigger] spotify_bound(old(self).artist_links@, s) ==> spotify_bound(self.artist_links@, s),
                forall|a: i32| #[trigger] ann_bound(old(self).artist_links@, a) ==> ann_bound(self.artist_links@, a),
                forall|s: Seq<char>, a: i32| #[trigger] has_link(self.artist_links@, s, a) ==> has_link(old(self).artist_links@, s, a)
                    || (!spotify_bound(old(self).artist_links@, s) && !ann_bound(old(self).artist_links@, a)
                    && justified(anisong_artists@, spotify_artists@, limit, s, a)),
                forall|s: Seq<char>, a: i32| #[trigger] has_link(self.artist_links@, s, a) ==> has_link(old(self).artist_links@, s, a)
                    || chosen_best(anisong_artists@, spotify_artists@, self.artist_links@, s, a),
                forall|k: int| 0 <= k < i ==> known(self.artists@, (#[trigger] anisong_artists@[k]).id),
                forall|k: int| 0 <= k < i ==> ann_bound(self.artist_links@, (#[trigger] anisong_artists@[k]).id)
                    || forall|j: int| 0 <= j < spotify_artists@.len() ==> spotify_bound(self.artist_links@, (#[trigger] spotify_artists@[j]).id@)
                    || name_match(anisong_artists@[k].names@.map_values(|n: String| n@), spotify_artists@[j].name@) <= limit,
            decreases anisong_artists@.len() - i,
        {
            let artist = &anisong_artists[i];
            let ghost links0 = self.artist_links@;
            self.add_known_artist(artist);
            if !linked_ann_id(&self.artist_links, artist.id) {
                let ghost links = self.artist_links@;
                let ghost names = artist.names@.map_values(|n: String| n@);
                let mut best: u32 = 0;
                let mut chosen: Option<usize> = None;
                let mut j: usize = 0;
                while j < spotify_artists.len()
                    invariant
                        j <= spotify_artists@.len(),
                        self.artist_links@ == links,
                        names == artist.names@.map_values(|n: String| n@),
                        chosen matches Some(c) ==> c < spotify_artists@.len() && best as nat == name_match(
                            names,
                            spotify_artists@[c as int].name@,
                        ) && !spotify_bound(links, spotify_artists@[c as int].id@),
                        chosen is None ==> forall|m: int| 0 <= m < j ==> spotify_bound(links, (#[trigger] spotify_artists@[m]).id@),
                        chosen is Some ==> forall|m: int| 0 <= m < j ==> spotify_bound(links, (#[trigger] spotify_artists@[m]).id@)
                            || name_match(names, spotify_artists@[m].name@) <= best,
                    decreases spotify_artists@.len() - j,
                {
                    if !linked_spotify_id(&self.artist_links, spotify_artists[j].id.as_str()) {
                        let s = best_name_match(&artist.names, spotify_artists[j].name.as_str());
                        if chosen.is_none() || s > best {
                            best = s;
                            chosen = Some(j);
                        }
                    }
                    j = j + 1;
                }
                if let Some(c) = chosen {
                    if best > limit {
                        let ghost before = self.artist_links@;
                        self.bind_artist(artist, spotify_artists[c].id.as_str());
                        assert(ann_bound(self.artist_links@, artist.id)) by {
                            let k = choose|k: int| 0 <= k < self.artist_links@.len() && (#[trigger] self.artist_links@[k]).spotify_id@ == spotify_artists@[c as int].id@ && self.artist_links@[k].ann_id == artist.id;
                        }
                        assert forall|s: Seq<char>, a: i32| #[trigger] has_link(self.artist_links@, s, a) implies has_link(old(self).artist_links@, s, a)
                            || (!spotify_bound(old(self).artist_links@, s) && !ann_bound(old(self).artist_links@, a)
                            && justified(anisong_artists@, spotify_artists@, limit, s, a)) by {
                            if !has_link(before, s, a) {
                                assert(anisong_artists@[i as int].id == a);
                                assert(spotify_artists@[c as int].id@ == s);
                                assert(!ann_bound(links, a));
                            }
                        }
                        assert forall|s: Seq<char>, a: i32| #[trigger] has_link(self.artist_links@, s, a) implies has_link(old(self).artist_links@, s, a)
                            || chosen_best(anisong_artists@, spotify_artists@, self.artist_links@, s, a) by {
                            if has_link(before, s, a) {
                                if !has_link(old(self).artist_links@, s, a) {
                                    lemma_best_choice_grows(anisong_artists@, spotify_artists@, before, self.artist_links@, s, a);
                                }
                            } else {
                                assert(anisong_artists@[i as int].id == a);
                                assert(spotify_artists@[c as int].id@ == s);
                                assert(best_choice(anisong_artists@, spotify_artists@, self.artist_links@, i as int, c as int)) by {
                                    assert forall|j: int| 0 <= j < spotify_artists@.len() && name_match(anisong_artists@[i as int].names@.map_values(|n: String| n@), spotify_artists@[j].name@)
                                        > name_match(anisong_artists@[i as int].names@.map_values(|n: String| n@), spotify_artists@[c as int].name@)
                                        implies #[trigger] spotify_bound(self.artist_links@, spotify_artists@[j].id@) by {
                                        assert(spotify_bound(links, spotify_artists@[j].id@));
                                    }
                                }
                            }
                        }
                    }
                }
                assert(ann_bound(self.artist_links@, anisong_artists@[i as int].id)
                    || forall|m: int| 0 <= m < spotify_artists@.len() ==> spotify_bound(self.artist_links@, (#[trigger] spotify_artists@[m]).id@)
                    || name_match(anisong_artists@[i as int].names@.map_values(|n: String| n@), spotify_artists@[m].name@) <= limit);
            } else {
                assert(ann_bound(self.artist_links@, anisong_artists@[i as int].id));
            }
            i = i + 1;
        }
    }
}


impl Database {
    /// Stores catalog song `anisong_anime`, enriched by `media` when given, as
    /// the song of streaming track `track`, which a user confirmed: the track is
    /// bound to the song's group and the record upserted. Returns the group. A
    /// song that does not read is a `ParseError`, and then nothing is written.
    pub fn try_add_anime_user(&mut self, track: &TrackObject, anisong_anime: &Anime, media: Option<&Media>, now: i64) -> (r: Result<i32, Error>)
        requires
            old(self).wf(),
        ensures
            final(self).wf(),
            r matches Ok(g) ==> linked_group(final(self).song_group_links@, track.id@) == Some(g)
                && has_key(final(self).animes@, anisong_anime.annSongId),
            r matches Ok(g) ==> exists|d: DBAnime| #[trigger] crate::databasetypes::promoted_from(
                d,
                *anisong_anime,
                Some(g),
                now,
                crate::types::anime_index_of(anisong_anime.animeCategory@)->0,
                crate::types::track_index_of(anisong_anime.songType@)->0,
            ) && final(self).animes@ == upsert_one(old(self).animes@, d) && match media {
                Some(m) => crate::databasetypes::enriched_by(d, *m),
                None => crate::databasetypes::not_enriched(d),
            },
            r matches Err(Error::ParseError(_)) ==> *final(self) == *old(self),
            (crate::types::anime_index_of(anisong_anime.animeCategory@) is Some
                && crate::types::track_index_of(anisong_anime.songType@) is Some
                && old(self).next_group_id < i32::MAX) ==> r is Ok,
    {
        let mut record = match DBAnime::from_anisong_and_anilist(anisong_anime, media, None, now) {
            Ok(d) => d,
            Err(e) => return Err(e),
        };
        let artist_ids = crate::databasetypes::artist_id_list(&anisong_anime.artists);
        let g = match self.add_song_group_link(track.id.as_str(), anisong_anime.songName.as_str(), &artist_ids) {
            Ok(g) => g,
            Err(e) => return Err(e),
        };
        record.song_group_id = Some(g);
        let ghost stored = self.animes@;
        let ghost incoming = record;
        self.upsert(record);
        proof {
            lemma_upsert_one_keys(stored, incoming, anisong_anime.annSongId);
            assert(crate::databasetypes::promoted_from(
                incoming,
                *anisong_anime,
                Some(g),
                now,
                crate::types::anime_index_of(anisong_anime.animeCategory@)->0,
                crate::types::track_index_of(anisong_anime.songType@)->0,
            ));
        }
        Ok(g)
    }
}


/// The pattern of a case-insensitive match of `pattern`, as the store's `~*` uses.
pub open spec fn insensitive(pattern: Seq<char>) -> Seq<char> {
    seq!['(', '?', 'i', ')'] + pattern
}

/// Whether one of `names` matches `pattern`, ignoring case.
pub open spec fn some_name_matches(names: Seq<String>, pattern: Seq<char>) -> bool {
    exists|k: int| 0 <= k < names.len() && regex_found(insensitive(pattern), (#[trigger] names[k])@)
}

/// The ids of the known artists with a name that matches `pattern`, in store order.
pub open spec fn named_like(artists: Seq<KnownArtist>, pattern: Seq<char>) -> Seq<i32>
    decreases artists.len(),
{
    if artists.len() == 0 {
        Seq::empty()
    } else if some_name_matches(artists.last().names@, pattern) {
        named_like(artists.drop_last(), pattern).push(artists.last().ann_id)
    } else {
        named_like(artists.drop_last(), pattern)
    }
}

fn any_name_matches(names: &Vec<String>, pattern: &str) -> (r: bool)
    ensures
        r == some_name_matches(names@, pattern@),
{
    let mut full = crate::text::owned("(?i)");
    proof {
        reveal_strlit("(?i)");
    }
    full.append(pattern);
    assert(full@ == insensitive(pattern@));
    let mut k: usize = 0;
    while k < names.len()
        invariant
            k <= names@.len(),
            full@ == insensitive(pattern@),
            forall|m: int| 0 <= m < k ==> !regex_found(insensitive(pattern@), (#[trigger] names@[m])@),
        decreases names@.len() - k,
    {
        if regex_is_match(full.as_str(), names[k].as_str()) {
            assert(regex_found(insensitive(pattern@), names@[k as int]@));
            return true;
        }
        k = k + 1;
    }
    false
}

impl Database {
    /// The ids of the known artists with a name that matches `pattern` ignoring
    /// case: the store's filter for names spelled in any of their variants.
    pub fn get_artists_by_pattern(&self, pattern: &str) -> (r: Vec<i32>)
        ensures
            r@ == named_like(self.artists@, pattern@),
    {
        let mut r: Vec<i32> = Vec::new();
        let mut i: usize = 0;
        while i < self.artists.len()
            invariant
                i <= self.artists@.len(),
                r@ == named_like(self.artists@.subrange(0, i as int), pattern@),
            decreases self.artists@.len() - i,
        {
            assert(self.artists@.subrange(0, i + 1).drop_last() =~= self.artists@.subrange(0, i as int));
            if any_name_matches(&self.artists[i].names, pattern) {
                r.push(self.artists[i].ann_id);
            }
            i = i + 1;
        }
        assert(self.artists@.subrange(0, self.artists@.len() as int) =~= self.artists@);
        r
    }
}

} // verus!
