//! Reconciled records as the store keeps them, and how they are built and merged.
use crate::anilist::{AnilistID, HexColor, ImageURL, Media, TagID, URL};
use crate::anisong::{first_name, first_names, Anime, Artist};
use crate::copies::{
    copy_image, copy_ints, copy_opt_color, copy_opt_id, copy_opt_image, copy_opt_ints,
    copy_opt_string, copy_opt_strings, copy_opt_tags, copy_opt_urls, copy_string, copy_strings,
};
use crate::error::Error;
use crate::japanese_processing::{process_similarity, score};
use crate::ranking::{at_max, below_max, max_score, rev_pick, split_best};
use crate::types::{anime_index_of, anime_type_of, track_index_of, AnimeIndex, AnimeTrackIndex, AnimeType};
use vstd::prelude::*;

verus! {

/// Seconds in seven days: records older than this are enriched again.
pub const UPDATE_SECONDS: i64 = 604800;

/// A reconciled record: a catalog song of a show, with what the metadata graph
/// adds. Unique by `ann_song_id`. Times are seconds since the Unix epoch.
#[derive(Debug)]
pub struct DBAnime {
    pub ann_id: i32,
    pub title_eng: String,
    pub title_jpn: String,
    pub index_type: i16,
    pub index_number: i32,
    pub anime_type: i16,
    pub episodes: Option<i32>,
    pub mean_score: Option<i32>,
    pub banner_image: Option<ImageURL>,
    pub cover_image_color: Option<HexColor>,
    pub cover_image_medium: Option<ImageURL>,
    pub cover_image_large: Option<ImageURL>,
    pub cover_image_extra_large: Option<ImageURL>,
    pub media_format: Option<i16>,
    pub genres: Option<Vec<String>>,
    pub source: Option<String>,
    pub studio_ids: Option<Vec<i32>>,
    pub studio_names: Option<Vec<String>>,
    pub studio_urls: Option<Vec<Option<URL>>>,
    pub tag_ids: Option<Vec<TagID>>,
    pub tag_names: Option<Vec<String>>,
    pub trailer_id: Option<String>,
    pub trailer_site: Option<String>,
    pub thumbnail: Option<ImageURL>,
    pub release_year: Option<i32>,
    pub release_season: Option<i16>,
    pub ann_song_id: i32,
    pub song_name: String,
    pub spotify_artist_ids: Option<Vec<String>>,
    pub artist_names: Vec<String>,
    pub artists_ann_id: Vec<i32>,
    pub composers_ann_id: Vec<i32>,
    pub arrangers_ann_id: Vec<i32>,
    pub track_index_type: i16,
    pub track_index_number: i32,
    pub mal_id: Option<i32>,
    pub anilist_id: Option<AnilistID>,
    pub anidb_id: Option<i32>,
    pub kitsu_id: Option<i32>,
    pub song_group_id: Option<i32>,
    pub last_updated: i64,
}

pub open spec fn opt_vec_view<T>(v: Option<Vec<T>>) -> Option<Seq<T>> {
    match v {
        Some(x) => Some(x@),
        None => None,
    }
}

/// The enrichment fields of two records agree.
pub open spec fn same_enrichment(a: DBAnime, b: DBAnime) -> bool {
    a.episodes == b.episodes && a.mean_score == b.mean_score && a.banner_image == b.banner_image
        && a.cover_image_color == b.cover_image_color && a.cover_image_medium
        == b.cover_image_medium && a.cover_image_large == b.cover_image_large
        && a.cover_image_extra_large == b.cover_image_extra_large && a.media_format
        == b.media_format && opt_vec_view(a.genres) == opt_vec_view(b.genres) && a.source
        == b.source && opt_vec_view(a.studio_ids) == opt_vec_view(b.studio_ids) && opt_vec_view(
        a.studio_names,
    ) == opt_vec_view(b.studio_names) && opt_vec_view(a.studio_urls) == opt_vec_view(
        b.studio_urls,
    ) && opt_vec_view(a.tag_ids) == opt_vec_view(b.tag_ids) && opt_vec_view(a.tag_names)
        == opt_vec_view(b.tag_names) && a.trailer_id == b.trailer_id && a.trailer_site
        == b.trailer_site && a.thumbnail == b.thumbnail && a.release_year == b.release_year
        && a.release_season == b.release_season
}

/// The song and show fields of two records agree.
pub open spec fn same_identity(a: DBAnime, b: DBAnime) -> bool {
    a.ann_id == b.ann_id && a.title_eng == b.title_eng && a.title_jpn == b.title_jpn
        && a.index_type == b.index_type && a.index_number == b.index_number && a.anime_type
        == b.anime_type && a.ann_song_id == b.ann_song_id && a.song_name == b.song_name
        && opt_vec_view(a.spotify_artist_ids) == opt_vec_view(b.spotify_artist_ids)
        && a.artist_names@ == b.artist_names@ && a.artists_ann_id@ == b.artists_ann_id@
        && a.composers_ann_id@ == b.composers_ann_id@ && a.arrangers_ann_id@
        == b.arrangers_ann_id@ && a.track_index_type == b.track_index_type
        && a.track_index_number == b.track_index_number && a.mal_id == b.mal_id && a.anilist_id
        == b.anilist_id && a.anidb_id == b.anidb_id && a.kitsu_id == b.kitsu_id
}

/// Two records hold the same values.
pub open spec fn same_record(a: DBAnime, b: DBAnime) -> bool {
    same_identity(a, b) && same_enrichment(a, b) && a.song_group_id == b.song_group_id
        && a.last_updated == b.last_updated
}

/// The value a stored field takes on conflict: the incoming one when present,
/// else the stored one.
pub open spec fn coalesce<T>(incoming: Option<T>, stored: Option<T>) -> Option<T> {
    match incoming {
        Some(v) => Some(v),
        None => stored,
    }
}

/// A stored record after an incoming record with the same key is written over
/// it: every value the incoming record holds overwrites, and each optional field
/// it leaves empty keeps the stored value.
pub open spec fn upserted(stored: DBAnime, incoming: DBAnime, r: DBAnime) -> bool {
    r.ann_id == incoming.ann_id && r.title_eng == incoming.title_eng && r.title_jpn
        == incoming.title_jpn && r.index_type == incoming.index_type && r.index_number
        == incoming.index_number && r.anime_type == incoming.anime_type && r.ann_song_id
        == incoming.ann_song_id && r.song_name == incoming.song_name && r.artist_names@
        == incoming.artist_names@ && r.artists_ann_id@ == incoming.artists_ann_id@
        && r.composers_ann_id@ == incoming.composers_ann_id@ && r.arrangers_ann_id@
        == incoming.arrangers_ann_id@ && r.track_index_type == incoming.track_index_type
        && r.track_index_number == incoming.track_index_number && opt_vec_view(
        r.spotify_artist_ids,
    ) == coalesce(opt_vec_view(incoming.spotify_artist_ids), opt_vec_view(stored.spotify_artist_ids))
        && r.mal_id == coalesce(incoming.mal_id, stored.mal_id) && r.anilist_id == coalesce(
        incoming.anilist_id,
        stored.anilist_id,
    ) && r.anidb_id == coalesce(incoming.anidb_id, stored.anidb_id) && r.kitsu_id == coalesce(
        incoming.kitsu_id,
        stored.kitsu_id,
    ) && r.episodes == coalesce(incoming.episodes, stored.episodes)
        && r.mean_score == coalesce(incoming.mean_score, stored.mean_score) && r.banner_image
        == coalesce(incoming.banner_image, stored.banner_image) && r.cover_image_color
        == coalesce(incoming.cover_image_color, stored.cover_image_color) && r.cover_image_medium
        == coalesce(incoming.cover_image_medium, stored.cover_image_medium) && r.cover_image_large
        == coalesce(incoming.cover_image_large, stored.cover_image_large)
        && r.cover_image_extra_large == coalesce(
        incoming.cover_image_extra_large,
        stored.cover_image_extra_large,
    ) && r.media_format == coalesce(incoming.media_format, stored.media_format) && opt_vec_view(
        r.genres,
    ) == coalesce(opt_vec_view(incoming.genres), opt_vec_view(stored.genres)) && r.source
        == coalesce(incoming.source, stored.source) && opt_vec_view(r.studio_ids) == coalesce(
        opt_vec_view(incoming.studio_ids),
        opt_vec_view(stored.studio_ids),
    ) && opt_vec_view(r.studio_names) == coalesce(
        opt_vec_view(incoming.studio_names),
        opt_vec_view(stored.studio_names),
    ) && opt_vec_view(r.studio_urls) == coalesce(
        opt_vec_view(incoming.studio_urls),
        opt_vec_view(stored.studio_urls),
    ) && opt_vec_view(r.tag_ids) == coalesce(
        opt_vec_view(incoming.tag_ids),
        opt_vec_view(stored.tag_ids),
    ) && opt_vec_view(r.tag_names) == coalesce(
        opt_vec_view(incoming.tag_names),
        opt_vec_view(stored.tag_names),
    ) && r.trailer_id == coalesce(incoming.trailer_id, stored.trailer_id) && r.trailer_site
        == coalesce(incoming.trailer_site, stored.trailer_site) && r.thumbnail == coalesce(
        incoming.thumbnail,
        stored.thumbnail,
    ) && r.release_year == coalesce(incoming.release_year, stored.release_year)
        && r.release_season == coalesce(incoming.release_season, stored.release_season)
        && r.song_group_id == coalesce(incoming.song_group_id, stored.song_group_id)
        && r.last_updated == incoming.last_updated
}

/// The stored record after `incoming` is written over it.
pub open spec fn absorbed(stored: DBAnime, incoming: DBAnime) -> DBAnime {
    DBAnime {
        episodes: coalesce(incoming.episodes, stored.episodes),
        mean_score: coalesce(incoming.mean_score, stored.mean_score),
        banner_image: coalesce(incoming.banner_image, stored.banner_image),
        cover_image_color: coalesce(
            incoming.cover_image_color,
            stored.cover_image_color,
        ),
        cover_image_medium: coalesce(
            incoming.cover_image_medium,
            stored.cover_image_medium,
        ),
        cover_image_large: coalesce(
            incoming.cover_image_large,
            stored.cover_image_large,
        ),
        cover_image_extra_large: coalesce(
            incoming.cover_image_extra_large,
            stored.cover_image_extra_large,
        ),
        media_format: coalesce(incoming.media_format, stored.media_format),
        genres: coalesce(incoming.genres, stored.genres),
        source: coalesce(incoming.source, stored.source),
        studio_ids: coalesce(incoming.studio_ids, stored.studio_ids),
        studio_names: coalesce(incoming.studio_names, stored.studio_names),
        studio_urls: coalesce(incoming.studio_urls, stored.studio_urls),
        tag_ids: coalesce(incoming.tag_ids, stored.tag_ids),
        tag_names: coalesce(incoming.tag_names, stored.tag_names),
        trailer_id: coalesce(incoming.trailer_id, stored.trailer_id),
        trailer_site: coalesce(incoming.trailer_site, stored.trailer_site),
        thumbnail: coalesce(incoming.thumbnail, stored.thumbnail),
        release_year: coalesce(incoming.release_year, stored.release_year),
        release_season: coalesce(
            incoming.release_season,
            stored.release_season,
        ),
        song_group_id: coalesce(incoming.song_group_id, stored.song_group_id),
        spotify_artist_ids: coalesce(incoming.spotify_artist_ids, stored.spotify_artist_ids),
        mal_id: coalesce(incoming.mal_id, stored.mal_id),
        anilist_id: coalesce(incoming.anilist_id, stored.anilist_id),
        anidb_id: coalesce(incoming.anidb_id, stored.anidb_id),
        kitsu_id: coalesce(incoming.kitsu_id, stored.kitsu_id),
        ..incoming
    }
}


fn pick<T>(incoming: Option<T>, stored: Option<T>) -> (r: Option<T>)
    ensures
        r == coalesce(incoming, stored),
{
    match incoming {
        Some(v) => Some(v),
        None => stored,
    }
}

impl DBAnime {
    /// The store's codes of the record name a classification and a song role.
    pub open spec fn wf(&self) -> bool {
        AnimeIndex::from_db_spec(self.index_type, self.index_number) is Some
            && AnimeTrackIndex::from_db_spec(self.track_index_type, self.track_index_number) is Some
    }

    pub fn copy(&self) -> (r: Self)
        ensures
            same_record(r, *self),
    {
        DBAnime {
            ann_id: self.ann_id,
            title_eng: copy_string(&self.title_eng),
            title_jpn: copy_string(&self.title_jpn),
            index_type: self.index_type,
            index_number: self.index_number,
            anime_type: self.anime_type,
            episodes: self.episodes,
            mean_score: self.mean_score,
            banner_image: copy_opt_image(&self.banner_image),
            cover_image_color: copy_opt_color(&self.cover_image_color),
            cover_image_medium: copy_opt_image(&self.cover_image_medium),
            cover_image_large: copy_opt_image(&self.cover_image_large),
            cover_image_extra_large: copy_opt_image(&self.cover_image_extra_large),
            media_format: self.media_format,
            genres: copy_opt_strings(&self.genres),
            source: copy_opt_string(&self.source),
            studio_ids: copy_opt_ints(&self.studio_ids),
            studio_names: copy_opt_strings(&self.studio_names),
            studio_urls: copy_opt_urls(&self.studio_urls),
            tag_ids: copy_opt_tags(&self.tag_ids),
            tag_names: copy_opt_strings(&self.tag_names),
            trailer_id: copy_opt_string(&self.trailer_id),
            trailer_site: copy_opt_string(&self.trailer_site),
            thumbnail: copy_opt_image(&self.thumbnail),
            release_year: self.release_year,
            release_season: self.release_season,
            ann_song_id: self.ann_song_id,
            song_name: copy_string(&self.song_name),
            spotify_artist_ids: copy_opt_strings(&self.spotify_artist_ids),
            artist_names: copy_strings(&self.artist_names),
            artists_ann_id: copy_ints(&self.artists_ann_id),
            composers_ann_id: copy_ints(&self.composers_ann_id),
            arrangers_ann_id: copy_ints(&self.arrangers_ann_id),
            track_index_type: self.track_index_type,
            track_index_number: self.track_index_number,
            mal_id: self.mal_id,
            anilist_id: copy_opt_id(&self.anilist_id),
            anidb_id: self.anidb_id,
            kitsu_id: self.kitsu_id,
            song_group_id: self.song_group_id,
            last_updated: self.last_updated,
        }
    }

    /// Writes `incoming`, a record with the same key, over this stored one, as
    /// the store does on conflict.
    pub fn absorb(self, incoming: DBAnime) -> (r: DBAnime)
        ensures
            upserted(self, incoming, r),
            r == absorbed(self, incoming),
    {
        DBAnime {
            episodes: pick(incoming.episodes, self.episodes),
            mean_score: pick(incoming.mean_score, self.mean_score),
            banner_image: pick(incoming.banner_image, self.banner_image),
            cover_image_color: pick(incoming.cover_image_color, self.cover_image_color),
            cover_image_medium: pick(incoming.cover_image_medium, self.cover_image_medium),
            cover_image_large: pick(incoming.cover_image_large, self.cover_image_large),
            cover_image_extra_large: pick(
                incoming.cover_image_extra_large,
                self.cover_image_extra_large,
            ),
            media_format: pick(incoming.media_format, self.media_format),
            genres: pick(incoming.genres, self.genres),
            source: pick(incoming.source, self.source),
            studio_ids: pick(incoming.studio_ids, self.studio_ids),
            studio_names: pick(incoming.studio_names, self.studio_names),
            studio_urls: pick(incoming.studio_urls, self.studio_urls),
            tag_ids: pick(incoming.tag_ids, self.tag_ids),
            tag_names: pick(incoming.tag_names, self.tag_names),
            trailer_id: pick(incoming.trailer_id, self.trailer_id),
            trailer_site: pick(incoming.trailer_site, self.trailer_site),
            thumbnail: pick(incoming.thumbnail, self.thumbnail),
            release_year: pick(incoming.release_year, self.release_year),
            release_season: pick(incoming.release_season, self.release_season),
            song_group_id: pick(incoming.song_group_id, self.song_group_id),
            spotify_artist_ids: pick(incoming.spotify_artist_ids, self.spotify_artist_ids),
            mal_id: pick(incoming.mal_id, self.mal_id),
            anilist_id: pick(incoming.anilist_id, self.anilist_id),
            anidb_id: pick(incoming.anidb_id, self.anidb_id),
            kitsu_id: pick(incoming.kitsu_id, self.kitsu_id),
            ..incoming
        }
    }

    /// Whether the record's enrichment is more than seven days old at `now`.
    pub fn is_outdated(&self, now: i64) -> (r: bool)
        ensures
            r == (self.last_updated as int + UPDATE_SECONDS < now as int),
    {
        if self.last_updated > i64::MAX - UPDATE_SECONDS {
            false
        } else {
            self.last_updated + UPDATE_SECONDS < now
        }
    }
}

pub open spec fn studio_ids_of(media: Media) -> Option<Seq<i32>> {
    match media.studios {
        Some(c) => Some(c.nodes@.map_values(|n: crate::anilist::Studio| n.id)),
        None => None,
    }
}

pub open spec fn tag_ids_of(media: Media) -> Option<Seq<TagID>> {
    match media.tags {
        Some(t) => Some(t@.map_values(|t: crate::anilist::MediaTag| t.id)),
        None => None,
    }
}

pub open spec fn genres_of(media: Media) -> Option<Seq<String>> {
    match media.genres {
        Some(g) => Some(g@.map_values(|g: crate::anilist::Genre| g.0)),
        None => None,
    }
}

/// The enrichment fields of a record as the metadata graph's `media` gives them.
pub open spec fn enriched_by(r: DBAnime, media: Media) -> bool {
    opt_vec_view(r.genres) == genres_of(media) && opt_vec_view(r.studio_ids) == studio_ids_of(media)
        && opt_vec_view(r.tag_ids) == tag_ids_of(media) && (match media.source {
        Some(src) => r.source matches Some(t) && t@ == crate::anilist::source_text(src),
        None => r.source is None,
    }) && r.mean_score == Some(media.mean_score) && r.banner_image == media.banner_image && r.episodes
        == media.episodes && r.release_year == media.season_year && r.release_season == (
    match media.season {
        Some(s) => Some(s.code_spec()),
        None => None::<i16>,
    }) && r.media_format == (match media.format {
        Some(f) => Some(f.code_spec()),
        None => None::<i16>,
    }) && r.cover_image_medium == (match media.cover_image {
        Some(c) => c.medium,
        None => None,
    })
}

/// The enrichment fields of a record that nothing enriched.
pub open spec fn not_enriched(r: DBAnime) -> bool {
    r.episodes is None && r.mean_score is None && r.banner_image is None && r.cover_image_color
        is None && r.cover_image_medium is None && r.cover_image_large is None
        && r.cover_image_extra_large is None && r.media_format is None && r.genres is None
        && r.source is None && r.studio_ids is None && r.studio_names is None && r.studio_urls
        is None && r.tag_ids is None && r.tag_names is None && r.trailer_id is None
        && r.trailer_site is None && r.thumbnail is None && r.release_year is None
        && r.release_season is None
}

pub open spec fn artist_ids(artists: Seq<Artist>) -> Seq<i32> {
    artists.map_values(|a: Artist| a.id)
}

pub fn artist_id_list(artists: &Vec<Artist>) -> (r: Vec<i32>)
    ensures
        r@ == artist_ids(artists@),
{
    let mut r: Vec<i32> = Vec::new();
    let mut i: usize = 0;
    while i < artists.len()
        invariant
            i <= artists.len(),
            r@ == artist_ids(artists@.subrange(0, i as int)),
        decreases artists.len() - i,
    {
        r.push(artists[i].id);
        i = i + 1;
        assert(r@ =~= artist_ids(artists@.subrange(0, i as int)));
    }
    assert(artists@.subrange(0, artists.len() as int) =~= artists@);
    r
}

/// The record built from catalog song `a`, enriched or not, in `group`, at `now`.
pub open spec fn promoted_from(
    r: DBAnime,
    a: Anime,
    group: Option<i32>,
    now: i64,
    index: AnimeIndex,
    track: AnimeTrackIndex,
) -> bool {
    r.ann_id == a.annId && r.ann_song_id == a.annSongId && r.title_eng@ == a.animeENName@
        && r.title_jpn@ == a.animeJPName@ && r.song_name@ == a.songName@ && r.index_type
        == index.code_spec() as i16 && r.index_number == index.value_spec() && r.track_index_type
        == track.code_spec() as i16 && r.track_index_number == track.value_spec()
        && r.artists_ann_id@ == artist_ids(a.artists@) && r.artist_names@.map_values(
        |s: String| s@,
    ) == first_names(a.artists@) && r.composers_ann_id@ == artist_ids(a.composers@)
        && r.arrangers_ann_id@ == artist_ids(a.arrangers@) && r.mal_id == a.linked_ids.myanimelist
        && r.anilist_id == a.linked_ids.anilist && r.anidb_id == a.linked_ids.anidb && r.kitsu_id
        == a.linked_ids.kitsu && r.song_group_id == group && r.last_updated == now && r.wf()
}

fn first_name_list(artists: &Vec<Artist>) -> (r: Vec<String>)
    ensures
        r@.map_values(|s: String| s@) == first_names(artists@),
{
    crate::anisong::artist_first_names(artists)
}

fn studio_fields(media: &Media) -> (r: (Option<Vec<i32>>, Option<Vec<String>>, Option<Vec<Option<URL>>>))
    ensures
        opt_vec_view(r.0) == studio_ids_of(*media),
        r.1 is Some == media.studios is Some,
        r.2 is Some == media.studios is Some,
{
    match &media.studios {
        Some(conn) => {
            let mut ids: Vec<i32> = Vec::new();
            let mut names: Vec<String> = Vec::new();
            let mut urls: Vec<Option<URL>> = Vec::new();
            let mut i: usize = 0;
            while i < conn.nodes.len()
                invariant
                    i <= conn.nodes@.len(),
                    ids@ == conn.nodes@.subrange(0, i as int).map_values(|n: crate::anilist::Studio| n.id),
                decreases conn.nodes.len() - i,
            {
                ids.push(conn.nodes[i].id);
                assert(ids@ =~= conn.nodes@.subrange(0, i + 1).map_values(|n: crate::anilist::Studio| n.id));
                names.push(
                    match &conn.nodes[i].name {
                        Some(n) => copy_string(n),
                        None => String::new(),
                    },
                );
                urls.push(
                    match &conn.nodes[i].site_url {
                        Some(u) => Some(crate::copies::copy_url(u)),
                        None => None,
                    },
                );
                i = i + 1;
            }
            assert(conn.nodes@.subrange(0, conn.nodes@.len() as int) =~= conn.nodes@);
            (Some(ids), Some(names), Some(urls))
        },
        None => (None, None, None),
    }
}

fn tag_fields(media: &Media) -> (r: (Option<Vec<TagID>>, Option<Vec<String>>))
    ensures
        opt_vec_view(r.0) == tag_ids_of(*media),
        r.1 is Some == media.tags is Some,
{
    match &media.tags {
        Some(tags) => {
            let mut ids: Vec<TagID> = Vec::new();
            let mut names: Vec<String> = Vec::new();
            let mut i: usize = 0;
            while i < tags.len()
                invariant
                    i <= tags@.len(),
                    ids@ == tags@.subrange(0, i as int).map_values(|t: crate::anilist::MediaTag| t.id),
                decreases tags.len() - i,
            {
                ids.push(TagID(tags[i].id.0));
                assert(ids@ =~= tags@.subrange(0, i + 1).map_values(|t: crate::anilist::MediaTag| t.id));
                names.push(
                    match &tags[i].name {
                        Some(n) => copy_string(n),
                        None => String::new(),
                    },
                );
                i = i + 1;
            }
            assert(tags@.subrange(0, tags@.len() as int) =~= tags@);
            (Some(ids), Some(names))
        },
        None => (None, None),
    }
}

fn genre_names(media: &Media) -> (r: Option<Vec<String>>)
    ensures
        opt_vec_view(r) == genres_of(*media),
{
    match &media.genres {
        Some(gs) => {
            let mut names: Vec<String> = Vec::new();
            let mut i: usize = 0;
            while i < gs.len()
                invariant
                    i <= gs@.len(),
                    names@ == gs@.subrange(0, i as int).map_values(|g: crate::anilist::Genre| g.0),
                decreases gs.len() - i,
            {
                names.push(copy_string(&gs[i].0));
                i = i + 1;
                assert(names@ =~= gs@.subrange(0, i as int).map_values(|g: crate::anilist::Genre| g.0));
            }
            assert(gs@.subrange(0, gs@.len() as int) =~= gs@);
            Some(names)
        },
        None => None,
    }
}

fn source_name(media: &Media) -> (r: Option<String>)
    ensures
        match media.source {
            Some(src) => r matches Some(t) && t@ == crate::anilist::source_text(src),
            None => r is None,
        },
{
    match media.source {
        Some(s) => Some(crate::text::owned(crate::anilist::source_label(s))),
        None => None,
    }
}

impl DBAnime {
    /// The enrichment of `anilist_data` written into the record, stamped `now`.
    pub fn update(&mut self, anilist_data: &Media, now: i64)
        ensures
            same_identity(*final(self), *old(self)),
            enriched_by(*final(self), *anilist_data),
            final(self).song_group_id == old(self).song_group_id,
            final(self).last_updated == now,
    {
        let (studio_ids, studio_names, studio_urls) = studio_fields(anilist_data);
        let (tag_ids, tag_names) = tag_fields(anilist_data);
        self.mean_score = Some(anilist_data.mean_score);
        self.banner_image = copy_opt_image(&anilist_data.banner_image);
        match &anilist_data.cover_image {
            Some(c) => {
                self.cover_image_color = copy_opt_color(&c.color);
                self.cover_image_medium = copy_opt_image(&c.medium);
                self.cover_image_large = copy_opt_image(&c.large);
                self.cover_image_extra_large = copy_opt_image(&c.extra_large);
            },
            None => {
                self.cover_image_color = None;
                self.cover_image_medium = None;
                self.cover_image_large = None;
                self.cover_image_extra_large = None;
            },
        }
        self.media_format = match anilist_data.format {
            Some(f) => Some(f.code()),
            None => None,
        };
        self.genres = genre_names(anilist_data);
        self.source = source_name(anilist_data);
        self.studio_ids = studio_ids;
        self.studio_names = studio_names;
        self.studio_urls = studio_urls;
        self.episodes = anilist_data.episodes;
        self.tag_ids = tag_ids;
        self.tag_names = tag_names;
        match &anilist_data.trailer {
            Some(t) => {
                self.trailer_id = Some(copy_string(&t.id));
                self.trailer_site = Some(copy_string(&t.site));
                self.thumbnail = Some(copy_image(&t.thumbnail));
            },
            None => {
                self.trailer_id = None;
                self.trailer_site = None;
                self.thumbnail = None;
            },
        }
        self.release_year = anilist_data.season_year;
        self.release_season = match anilist_data.season {
            Some(s) => Some(s.code()),
            None => None,
        };
        self.last_updated = now;
    }

    /// The record of catalog song `anisong`, enriched by `anilist` when given, in
    /// song group `group_id`, stamped `now`. A category or song role that does not
    /// read is a `ParseError`.
    pub fn from_anisong_and_anilist(
        anisong: &Anime,
        anilist: Option<&Media>,
        group_id: Option<i32>,
        now: i64,
    ) -> (r: Result<Self, Error>)
        ensures
            r is Ok <==> (anime_index_of(anisong.animeCategory@) is Some && track_index_of(
                anisong.songType@,
            ) is Some),
            r matches Err(e) ==> e is ParseError,
            r matches Ok(d) ==> promoted_from(
                d,
                *anisong,
                group_id,
                now,
                anime_index_of(anisong.animeCategory@)->0,
                track_index_of(anisong.songType@)->0,
            ),
            r matches Ok(d) ==> d.anime_type == anime_type_of(
                match anisong.animeType {
                    Some(t) => Some(t@),
                    None => None,
                },
            ).code_spec(),
            r matches Ok(d) ==> match anilist {
                Some(m) => enriched_by(d, *m),
                None => not_enriched(d),
            },
    {
        let anime_index = match AnimeIndex::from_str(anisong.animeCategory.as_str()) {
            Ok(i) => i,
            Err(e) => return Err(e),
        };
        let track_index = match AnimeTrackIndex::from_str(anisong.songType.as_str()) {
            Ok(t) => t,
            Err(e) => return Err(e),
        };
        let anime_type = AnimeType::from_str(
            match &anisong.animeType {
                Some(t) => Some(t.as_str()),
                None => None,
            },
        );
        let mut record = DBAnime {
            ann_id: anisong.annId,
            title_eng: copy_string(&anisong.animeENName),
            title_jpn: copy_string(&anisong.animeJPName),
            index_type: anime_index.discriminant() as i16,
            index_number: anime_index.value(),
            anime_type: anime_type.code(),
            episodes: None,
            mean_score: None,
            banner_image: None,
            cover_image_color: None,
            cover_image_medium: None,
            cover_image_large: None,
            cover_image_extra_large: None,
            media_format: None,
            genres: None,
            source: None,
            studio_ids: None,
            studio_names: None,
            studio_urls: None,
            tag_ids: None,
            tag_names: None,
            trailer_id: None,
            trailer_site: None,
            thumbnail: None,
            release_year: None,
            release_season: None,
            ann_song_id: anisong.annSongId,
            song_name: copy_string(&anisong.songName),
            spotify_artist_ids: Some(Vec::new()),
            artist_names: first_name_list(&anisong.artists),
            artists_ann_id: artist_id_list(&anisong.artists),
            composers_ann_id: artist_id_list(&anisong.composers),
            arrangers_ann_id: artist_id_list(&anisong.arrangers),
            track_index_type: track_index.discriminant() as i16,
            track_index_number: track_index.value(),
            mal_id: anisong.linked_ids.myanimelist,
            anilist_id: copy_opt_id(&anisong.linked_ids.anilist),
            anidb_id: anisong.linked_ids.anidb,
            kitsu_id: anisong.linked_ids.kitsu,
            song_group_id: group_id,
            last_updated: now,
        };
        if let Some(m) = anilist {
            record.update(m, now);
        }
        Ok(record)
    }
}

/// A binding of a streaming-service artist to a catalog artist, with the
/// catalog's names for it.
#[derive(Debug)]
pub struct DBArtist {
    pub spotify_id: String,
    pub ann_id: i32,
    pub names: Vec<String>,
    pub groups_ids: Option<Vec<i32>>,
    pub members: Option<Vec<i32>>,
}

impl DBArtist {
    pub fn copy(&self) -> (r: Self)
        ensures
            r.spotify_id == self.spotify_id,
            r.ann_id == self.ann_id,
            r.names@ == self.names@,
            opt_vec_view(r.groups_ids) == opt_vec_view(self.groups_ids),
            opt_vec_view(r.members) == opt_vec_view(self.members),
    {
        DBArtist {
            spotify_id: copy_string(&self.spotify_id),
            ann_id: self.ann_id,
            names: copy_strings(&self.names),
            groups_ids: copy_opt_ints(&self.groups_ids),
            members: copy_opt_ints(&self.members),
        }
    }
}

/// Streaming tracks that are the same song, keyed by title and artist set.
#[derive(Debug)]
pub struct SongGroup {
    pub group_id: i32,
    pub song_title: String,
    pub artist_ids: Vec<i32>,
}

/// A streaming track bound to a song group.
#[derive(Debug)]
pub struct SongGroupLink {
    pub spotify_id: String,
    pub group_id: i32,
}


pub open spec fn record_titles(records: Seq<DBAnime>) -> Seq<Seq<char>> {
    records.map_values(|r: DBAnime| r.song_name@)
}

impl DBAnime {
    /// Moves the records whose song title scores best against `song_name` into
    /// the result, with that score in tenths; the others stay in `animes`. Ties
    /// are all kept. No records give none and a score of 0.
    pub fn pick_best_by_song_name(animes: &mut Vec<DBAnime>, song_name: &str) -> (r: (Vec<DBAnime>, u32))
        ensures
            r.1 == max_score(crate::anisong::title_scores(song_name@, record_titles(old(animes)@))),
            r.0@ == rev_pick(old(animes)@, at_max(crate::anisong::title_scores(song_name@, record_titles(old(animes)@)), r.1)),
            final(animes)@ == rev_pick(old(animes)@, below_max(crate::anisong::title_scores(song_name@, record_titles(old(animes)@)), r.1)),
    {
        let mut scores: Vec<u32> = Vec::new();
        let mut i: usize = 0;
        while i < animes.len()
            invariant
                i <= animes@.len(),
                scores@ == crate::anisong::title_scores(song_name@, record_titles(animes@.subrange(0, i as int))),
            decreases animes@.len() - i,
        {
            let s = process_similarity(song_name, animes[i].song_name.as_str());
            scores.push(s);
            i = i + 1;
            assert(scores@ =~= crate::anisong::title_scores(song_name@, record_titles(animes@.subrange(0, i as int))));
        }
        assert(animes@.subrange(0, animes@.len() as int) =~= animes@);
        split_best(animes, &scores)
    }
}

} // verus!
