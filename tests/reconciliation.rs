use whatanime::anilist::AnilistID;
use whatanime::anisong::{catalog_reply, Anime, AnimeListLinks, Artist};
use whatanime::database::Database;
use whatanime::databasetypes::DBAnime;
use whatanime::engine::{Event, Fetch, Phase, Reconciliation, Step, ACCURACY_AUTOADD_LIMIT, ACCURACY_CUTOFF};
use whatanime::error::Error;
use whatanime::spotify::{Album, ExternalIds, ExternalUrls, Image, SimplifiedArtist, TrackObject};
use whatanime::types::NewSong;

const NOW: i64 = 1_700_000_000;

fn urls() -> ExternalUrls {
    ExternalUrls { spotify: String::new() }
}

fn streaming_artist(id: &str, name: &str) -> SimplifiedArtist {
    SimplifiedArtist {
        external_urls: urls(),
        href: String::new(),
        id: id.to_string(),
        name: name.to_string(),
        kind: "artist".to_string(),
        uri: String::new(),
    }
}

fn track(id: &str, name: &str, artists: Vec<SimplifiedArtist>) -> TrackObject {
    TrackObject {
        album: Album {
            album_type: "single".to_string(),
            total_tracks: 1,
            available_markets: vec![],
            external_urls: urls(),
            href: String::new(),
            id: "album".to_string(),
            images: vec![Image { url: "http://cover".to_string(), height: 64, width: 64 }],
            name: "album".to_string(),
            release_date: String::new(),
            release_date_precision: String::new(),
            restrictions: None,
            kind: "album".to_string(),
            uri: String::new(),
            artists: vec![],
        },
        artists,
        available_markets: vec![],
        disc_number: 1,
        duration_ms: 1000,
        explicit: false,
        external_ids: ExternalIds { isrc: None, ean: None, upc: None },
        external_urls: urls(),
        href: String::new(),
        id: id.to_string(),
        is_local: false,
        is_playable: None,
        linked_from: None,
        restrictions: None,
        name: name.to_string(),
        popularity: 0,
        preview_url: None,
        track_number: 1,
        kind: "track".to_string(),
        uri: String::new(),
    }
}

fn catalog_artist(id: i32, name: &str) -> Artist {
    Artist { id, names: vec![name.to_string()], line_up_id: None, groups: None, members: None }
}

fn song(song_id: i32, show: &str, title: &str, artists: Vec<Artist>) -> Anime {
    Anime {
        annId: song_id * 10,
        annSongId: song_id,
        animeENName: show.to_string(),
        animeJPName: show.to_string(),
        animeAltName: None,
        animeVintage: None,
        linked_ids: AnimeListLinks { myanimelist: None, anidb: None, anilist: None, kitsu: None },
        animeType: Some("TV".to_string()),
        animeCategory: "TV".to_string(),
        songType: "Opening 1".to_string(),
        songName: title.to_string(),
        songArtist: String::new(),
        songComposer: String::new(),
        songArranger: String::new(),
        songCategory: String::new(),
        isDub: false,
        isRebroadcast: false,
        HQ: None,
        MQ: None,
        audio: None,
        artists,
        composers: vec![],
        arrangers: vec![],
    }
}

fn record(song_id: i32, show: &str, group: Option<i32>) -> DBAnime {
    let a = song(song_id, show, "title", vec![catalog_artist(7, "Artist")]);
    DBAnime::from_anisong_and_anilist(&a, None, group, NOW).unwrap()
}

fn expect_fetch(step: Step) -> Fetch {
    match step {
        Step::Fetch(f) => f,
        Step::Done(_) => panic!("expected a fetch"),
    }
}

fn expect_done(step: Step) -> Result<NewSong, Error> {
    match step {
        Step::Done(r) => r,
        Step::Fetch(f) => panic!("expected a verdict, got {:?}", f),
    }
}

const TITLE: &str = "abcdefghijklmnopqrst";

/// Runs a reconciliation of a single-artist track whose name search returns `found`.
fn reconcile_by_name(store: &mut Database, t: TrackObject, found: Vec<Anime>) -> Result<NewSong, Error> {
    let (mut rec, step) = Reconciliation::start(store, t, ACCURACY_CUTOFF, ACCURACY_AUTOADD_LIMIT, NOW);
    match expect_fetch(step) {
        Fetch::ArtistName(n) => assert_eq!(n, "Singer"),
        other => panic!("unexpected {:?}", other),
    }
    let step = rec.resume(store, Event::Catalog(found));
    expect_done(step)
}

#[test]
fn novel_single_artist_match_is_stored_and_bound() {
    let mut store = Database::new();
    let t = track("track-1", TITLE, vec![streaming_artist("sp-artist", "Singer")]);
    let found = vec![song(1, "Show", "abcdefghijklmnopqrsx", vec![catalog_artist(7, "Singer")])];
    match reconcile_by_name(&mut store, t, found).unwrap() {
        NewSong::Hit(h) => {
            assert_eq!(h.certainty, 95);
            assert_eq!(h.anime_info.len(), 1);
            assert_eq!(h.anime_info[0].title, "Show");
        },
        NewSong::Miss(_) => panic!("expected a hit"),
    }
    assert_eq!(store.animes.len(), 1);
    assert_eq!(store.animes[0].ann_song_id, 1);
    assert_eq!(store.song_group_links.len(), 1);
    assert_eq!(store.artist_links.len(), 1);
    assert_eq!(store.artist_links[0].spotify_id, "sp-artist");
    assert_eq!(store.artist_links[0].ann_id, 7);
}

#[test]
fn ambiguous_match_is_a_hit_but_not_stored() {
    let mut store = Database::new();
    let t = track("track-2", TITLE, vec![streaming_artist("sp-artist", "Singer")]);
    let found = vec![song(2, "Show", "abcdefghijkuvwxyzzzz", vec![catalog_artist(7, "Singer")])];
    match reconcile_by_name(&mut store, t, found).unwrap() {
        NewSong::Hit(h) => assert_eq!(h.certainty, 55),
        NewSong::Miss(_) => panic!("expected a hit"),
    }
    assert_eq!(store.animes.len(), 0);
    assert_eq!(store.song_group_links.len(), 0);
    assert_eq!(store.artist_links.len(), 0);
}

#[test]
fn a_miss_is_never_stored() {
    let mut store = Database::new();
    let t = track("track-3", TITLE, vec![streaming_artist("sp-artist", "Singer")]);
    let found = vec![song(3, "B Show", "zzzz", vec![]), song(4, "A Show", "yyyy", vec![])];
    match reconcile_by_name(&mut store, t, found).unwrap() {
        NewSong::Miss(m) => {
            assert_eq!(m.possible_anime.len(), 2);
            assert_eq!(m.possible_anime[0].title, "A Show");
            assert_eq!(m.possible_anime[1].title, "B Show");
        },
        NewSong::Hit(_) => panic!("expected a miss"),
    }
    assert_eq!(store.animes.len(), 0);
    assert_eq!(store.song_group_links.len(), 0);
}

#[test]
fn no_candidates_anywhere_is_an_empty_miss() {
    let mut store = Database::new();
    let t = track("track-4", "nothing", vec![streaming_artist("sp", "Nobody")]);
    let (mut rec, step) = Reconciliation::start(&store, t, ACCURACY_CUTOFF, ACCURACY_AUTOADD_LIMIT, NOW);
    assert!(matches!(expect_fetch(step), Fetch::ArtistName(_)));
    match expect_fetch(rec.resume(&mut store, Event::Catalog(vec![]))) {
        Fetch::SongTitle(t, partial) => {
            assert_eq!(t, "nothing");
            assert!(!partial);
        },
        other => panic!("unexpected {:?}", other),
    }
    match expect_fetch(rec.resume(&mut store, Event::Catalog(vec![]))) {
        Fetch::SongTitle(_, partial) => assert!(partial),
        other => panic!("unexpected {:?}", other),
    }
    match expect_done(rec.resume(&mut store, Event::Catalog(vec![]))).unwrap() {
        NewSong::Miss(m) => assert_eq!(m.possible_anime.len(), 0),
        NewSong::Hit(_) => panic!("expected a miss"),
    }
    assert_eq!(rec.phase, Phase::Finished);
    assert_eq!(store.animes.len(), 0);
}

#[test]
fn cached_track_is_answered_from_the_store() {
    let mut store = Database::new();
    let g = store.add_song_group_link("track-5", "title", &vec![7]).unwrap();
    store.update_or_add_animes(vec![record(10, "Show B", Some(g)), record(11, "Show A", Some(g)), record(12, "Other", None)], NOW);
    let t = track("track-5", "title", vec![streaming_artist("sp", "Artist")]);
    let (rec, step) = Reconciliation::start(&store, t, ACCURACY_CUTOFF, ACCURACY_AUTOADD_LIMIT, NOW + 60);
    assert_eq!(rec.phase, Phase::Finished);
    match expect_done(step).unwrap() {
        NewSong::Hit(h) => {
            assert_eq!(h.certainty, 100);
            assert_eq!(h.anime_info.len(), 2);
            assert_eq!(h.anime_info[0].title, "Show A");
            assert_eq!(h.more_with_artist.len(), 1);
            assert_eq!(h.more_with_artist[0].title, "Other");
        },
        NewSong::Miss(_) => panic!("expected a hit"),
    }
}

#[test]
fn reconciling_twice_adds_no_duplicates() {
    let mut store = Database::new();
    let t = track("track-6", TITLE, vec![streaming_artist("sp-artist", "Singer")]);
    let found = vec![song(1, "Show", "abcdefghijklmnopqrsx", vec![catalog_artist(7, "Singer")])];
    reconcile_by_name(&mut store, t.clone(), found).unwrap();
    let (_, step) = Reconciliation::start(&store, t, ACCURACY_CUTOFF, ACCURACY_AUTOADD_LIMIT, NOW);
    match expect_done(step).unwrap() {
        NewSong::Hit(h) => assert_eq!(h.certainty, 100),
        NewSong::Miss(_) => panic!("expected a hit"),
    }
    assert_eq!(store.animes.len(), 1);
    assert_eq!(store.song_group_links.len(), 1);
    assert_eq!(store.artist_links.len(), 1);
}

#[test]
fn bound_artist_is_searched_by_id() {
    let mut store = Database::new();
    store.bind_artist(&catalog_artist(42, "Singer"), "sp-artist");
    let t = track("track-7", TITLE, vec![streaming_artist("sp-artist", "Singer")]);
    let (_, step) = Reconciliation::start(&store, t, ACCURACY_CUTOFF, ACCURACY_AUTOADD_LIMIT, NOW);
    match expect_fetch(step) {
        Fetch::ArtistIds(ids) => assert_eq!(ids, vec![42]),
        other => panic!("unexpected {:?}", other),
    }
}

#[test]
fn tied_candidates_are_all_best() {
    let mut store = Database::new();
    let t = track("track-8", TITLE, vec![streaming_artist("sp-artist", "Singer")]);
    let found = vec![
        song(1, "One", "abcdefghijklmnopqrsx", vec![catalog_artist(7, "Singer")]),
        song(2, "Two", "abcdefghijklmnopqrsy", vec![catalog_artist(7, "Singer")]),
        song(3, "Three", "zzzzzzzz", vec![catalog_artist(7, "Singer")]),
    ];
    match reconcile_by_name(&mut store, t, found).unwrap() {
        NewSong::Hit(h) => {
            assert_eq!(h.certainty, 95);
            assert_eq!(h.anime_info.len(), 2);
            assert_eq!(h.anime_info[0].title, "One");
            assert_eq!(h.anime_info[1].title, "Two");
            assert_eq!(h.more_with_artist.len(), 1);
        },
        NewSong::Miss(_) => panic!("expected a hit"),
    }
    assert_eq!(store.animes.len(), 2);
}

#[test]
fn enrichment_is_asked_for_linked_shows() {
    let mut store = Database::new();
    let t = track("track-9", TITLE, vec![streaming_artist("sp-artist", "Singer")]);
    let mut s = song(1, "Show", "abcdefghijklmnopqrsx", vec![catalog_artist(7, "Singer")]);
    s.linked_ids.anilist = Some(AnilistID(99));
    let (mut rec, _) = Reconciliation::start(&store, t, ACCURACY_CUTOFF, ACCURACY_AUTOADD_LIMIT, NOW);
    match expect_fetch(rec.resume(&mut store, Event::Catalog(vec![s]))) {
        Fetch::Enrichment(ids) => assert_eq!(ids, vec![AnilistID(99)]),
        other => panic!("unexpected {:?}", other),
    }
    match expect_done(rec.resume(&mut store, Event::Failed(Error::NotImplemented))).unwrap() {
        NewSong::Hit(h) => assert_eq!(h.anime_info[0].score, None),
        NewSong::Miss(_) => panic!("expected a hit"),
    }
    assert_eq!(store.animes[0].anilist_id, Some(AnilistID(99)));
}

#[test]
fn failed_catalog_search_is_an_error() {
    let mut store = Database::new();
    let t = track("track-10", TITLE, vec![streaming_artist("sp-artist", "Singer")]);
    let (mut rec, _) = Reconciliation::start(&store, t, ACCURACY_CUTOFF, ACCURACY_AUTOADD_LIMIT, NOW);
    let err = Error::BadRequest { url: "u".to_string(), status_code: 500 };
    assert_eq!(expect_done(rec.resume(&mut store, Event::Failed(err.clone()))).unwrap_err(), err);
}

#[test]
fn catalog_statuses() {
    assert_eq!(catalog_reply("u", 200), Ok(true));
    assert_eq!(catalog_reply("u", 503), Ok(false));
    assert_eq!(
        catalog_reply("u", 404),
        Err(Error::BadRequest { url: "u".to_string(), status_code: 404 })
    );
}

#[test]
fn upsert_keeps_stored_values_the_new_record_lacks() {
    let mut store = Database::new();
    let mut first = record(1, "Show", None);
    first.mean_score = Some(80);
    first.episodes = Some(12);
    store.update_or_add_animes(vec![first], NOW);
    let mut second = record(1, "Renamed", Some(5));
    second.mean_score = None;
    second.episodes = Some(13);
    second.last_updated = NOW + 10;
    store.update_or_add_animes(vec![second], NOW + 10);
    assert_eq!(store.animes.len(), 1);
    let r = &store.animes[0];
    assert_eq!(r.mean_score, Some(80));
    assert_eq!(r.episodes, Some(13));
    assert_eq!(r.song_group_id, Some(5));
    assert_eq!(r.title_eng, "Renamed");
    assert_eq!(r.last_updated, NOW + 10);
}

#[test]
fn upserting_a_batch_twice_adds_nothing() {
    let mut store = Database::new();
    store.update_or_add_animes(vec![record(1, "A", None), record(2, "B", None)], NOW);
    store.update_or_add_animes(vec![record(1, "A", None), record(2, "B", None)], NOW);
    assert_eq!(store.animes.len(), 2);
}

#[test]
fn song_group_link_is_idempotent() {
    let mut store = Database::new();
    let g1 = store.add_song_group_link("t1", "Song", &vec![1, 2]).unwrap();
    let g2 = store.add_song_group_link("t1", "Other", &vec![3]).unwrap();
    let g3 = store.add_song_group_link("t2", "Song", &vec![1, 2]).unwrap();
    assert_eq!(g1, g2);
    assert_eq!(g1, g3);
    assert_eq!(store.song_group_links.len(), 2);
    assert_eq!(store.song_groups.len(), 1);
}

#[test]
fn stale_records_are_outdated() {
    let r = record(1, "Show", None);
    assert!(!r.is_outdated(NOW + 7 * 86400));
    assert!(r.is_outdated(NOW + 7 * 86400 + 1));
}

#[test]
fn multi_artist_binding_needs_a_close_name() {
    let mut store = Database::new();
    let catalog = vec![catalog_artist(1, "Aimer"), catalog_artist(2, "Hiroyuki Sawano")];
    let streaming = vec![streaming_artist("sp-1", "Aimer"), streaming_artist("sp-2", "Someone Else")];
    store.try_add_artists(&catalog, &streaming, ACCURACY_AUTOADD_LIMIT);
    assert_eq!(store.artist_links.len(), 1);
    assert_eq!(store.artist_links[0].ann_id, 1);
    assert_eq!(store.artist_links[0].spotify_id, "sp-1");
    assert_eq!(store.artists.len(), 2);
    store.try_add_artists(&catalog, &streaming, ACCURACY_AUTOADD_LIMIT);
    assert_eq!(store.artist_links.len(), 1);
}

#[test]
fn voice_credit_is_stripped_before_binding() {
    let mut store = Database::new();
    let catalog = vec![catalog_artist(3, "Yui Horie")];
    let streaming = vec![streaming_artist("sp-3", "Kotori (CV: Yui Horie)"), streaming_artist("sp-4", "Other")];
    store.try_add_artists(&catalog, &streaming, ACCURACY_AUTOADD_LIMIT);
    assert_eq!(store.artist_links.len(), 1);
    assert_eq!(store.artist_links[0].spotify_id, "sp-3");
}

#[test]
fn exact_song_keeps_only_that_title() {
    let songs = vec![
        song(1, "A", "Unravel", vec![]),
        song(2, "B", "unravel", vec![]),
        song(3, "C", "Unravel", vec![]),
    ];
    let kept = whatanime::anisong::get_exact_song(songs, "Unravel");
    assert_eq!(kept.iter().map(|a| a.annSongId).collect::<Vec<_>>(), vec![1, 3]);
}

#[test]
fn stored_records_are_ranked_by_title() {
    let mut records = vec![record(1, "A", None), record(2, "B", None)];
    records[0].song_name = "abcdefghijklmnopqrsx".to_string();
    records[1].song_name = "zzzz".to_string();
    let (best, top) = DBAnime::pick_best_by_song_name(&mut records, TITLE);
    assert_eq!(top, 950);
    assert_eq!(best.len(), 1);
    assert_eq!(best[0].ann_song_id, 1);
    assert_eq!(records.len(), 1);
    assert_eq!(records[0].ann_song_id, 2);
}

#[test]
fn artist_names_rank_title_search_results() {
    let mut found = vec![
        song(1, "A", "x", vec![catalog_artist(1, "Other Band")]),
        song(2, "B", "x", vec![catalog_artist(2, "LiSA")]),
    ];
    let (best, top) = Anime::pick_best_by_artist_names(&mut found, &vec!["LiSA".to_string()]);
    assert_eq!(top, 1000);
    assert_eq!(best.len(), 1);
    assert_eq!(best[0].annSongId, 2);
    assert_eq!(found.len(), 1);
}

#[test]
fn no_artist_track_is_searched_by_title_and_scored_by_token_sets() {
    let mut store = Database::new();
    let t = track("track-11", "Gurenge", vec![]);
    let (mut rec, step) = Reconciliation::start(&store, t, ACCURACY_CUTOFF, ACCURACY_AUTOADD_LIMIT, NOW);
    match expect_fetch(step) {
        Fetch::SongTitle(title, partial) => {
            assert_eq!(title, "Gurenge");
            assert!(!partial);
        },
        other => panic!("unexpected {:?}", other),
    }
    let found = vec![song(5, "Show", "Gurenge", vec![catalog_artist(9, "LiSA")])];
    // With no streaming artist the token sets share nothing, and the token-set
    // ratio compares two empty intersections: full marks.
    match expect_done(rec.resume(&mut store, Event::Catalog(found))).unwrap() {
        NewSong::Hit(h) => {
            assert_eq!(h.certainty, 100);
            assert_eq!(h.anime_info.len(), 1);
        },
        NewSong::Miss(_) => panic!("expected a hit"),
    }
}

#[test]
fn user_confirmation_stores_and_links() {
    let mut store = Database::new();
    let t = track("track-12", "Song", vec![streaming_artist("sp", "Singer")]);
    let s = song(8, "Show", "Song", vec![catalog_artist(4, "Singer")]);
    let g = store.try_add_anime_user(&t, &s, None, NOW).unwrap();
    assert_eq!(store.animes.len(), 1);
    assert_eq!(store.animes[0].song_group_id, Some(g));
    let mut bad = song(9, "Show", "Song", vec![]);
    bad.animeCategory = "Radio".to_string();
    assert_eq!(
        store.try_add_anime_user(&t, &bad, None, NOW),
        Err(Error::ParseError("Radio".to_string()))
    );
    assert_eq!(store.animes.len(), 1);
}

#[test]
fn entries_follow_their_songs() {
    let songs = vec![song(1, "One", "a", vec![catalog_artist(1, "X")])];
    let entries = whatanime::types::FrontendAnimeEntry::from_anisongs(&songs, &vec![]).unwrap();
    assert_eq!(entries.len(), 1);
    assert_eq!(entries[0].title, "One");
    assert_eq!(entries[0].artist_names, vec!["X".to_string()]);
    let mut bad = song(2, "Two", "b", vec![]);
    bad.songType = "Theme".to_string();
    assert!(whatanime::types::FrontendAnimeEntry::from_anisongs(&vec![bad], &vec![]).is_err());
}

fn media(id: i32, score: i32) -> whatanime::anilist::Media {
    whatanime::anilist::Media {
        id: AnilistID(id),
        title: whatanime::anilist::MediaTitle { romaji: None, english: None, native: None },
        mean_score: score,
        banner_image: None,
        cover_image: None,
        format: None,
        genres: None,
        source: None,
        studios: None,
        tags: None,
        trailer: None,
        episodes: Some(24),
        season: None,
        season_year: Some(2020),
    }
}

#[test]
fn stale_cached_records_are_enriched_again() {
    let mut store = Database::new();
    let g = store.add_song_group_link("track-13", "title", &vec![7]).unwrap();
    let mut r = record(20, "Show", Some(g));
    r.anilist_id = Some(AnilistID(5));
    store.update_or_add_animes(vec![r], NOW);
    let later = NOW + 8 * 86400;
    let t = track("track-13", "title", vec![streaming_artist("sp", "Artist")]);
    let (mut rec, step) = Reconciliation::start(&store, t, ACCURACY_CUTOFF, ACCURACY_AUTOADD_LIMIT, later);
    match expect_fetch(step) {
        Fetch::Enrichment(ids) => assert_eq!(ids, vec![AnilistID(5)]),
        other => panic!("unexpected {:?}", other),
    }
    match expect_done(rec.resume(&mut store, Event::Enrichment(vec![media(5, 77)]))).unwrap() {
        NewSong::Hit(h) => {
            assert_eq!(h.certainty, 100);
            assert_eq!(h.anime_info[0].score, Some(77));
        },
        NewSong::Miss(_) => panic!("expected a hit"),
    }
    assert_eq!(store.animes.len(), 1);
    assert_eq!(store.animes[0].mean_score, Some(77));
    assert_eq!(store.animes[0].last_updated, later);
}

#[test]
fn update_all_enriches_matches_and_fills_groups() {
    let mut a = record(1, "A", None);
    a.anilist_id = Some(AnilistID(5));
    let b = record(2, "B", Some(3));
    let mut records = vec![a, b];
    let changed = DBAnime::update_all(&mut records, &vec![media(5, 60)], Some(9), NOW + 1);
    assert_eq!(changed.len(), 1);
    assert_eq!(records[0].mean_score, Some(60));
    assert_eq!(records[0].episodes, Some(24));
    assert_eq!(records[0].song_group_id, Some(9));
    assert_eq!(records[0].last_updated, NOW + 1);
    assert_eq!(records[1].mean_score, None);
    assert_eq!(records[1].song_group_id, Some(3));
    assert_eq!(records[1].last_updated, NOW);
}

#[test]
fn known_artist_found_by_any_spelling() {
    let mut store = Database::new();
    store.add_known_artist(&catalog_artist(31, "Yūki"));
    let t = track("track-14", TITLE, vec![streaming_artist("sp-y", "Yuki")]);
    let (rec, step) = Reconciliation::start(&store, t, ACCURACY_CUTOFF, ACCURACY_AUTOADD_LIMIT, NOW);
    assert_eq!(rec.phase, Phase::Bound);
    match expect_fetch(step) {
        Fetch::ArtistIds(ids) => assert_eq!(ids, vec![31]),
        other => panic!("unexpected {:?}", other),
    }
}
