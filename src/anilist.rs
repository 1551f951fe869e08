//! Records of the anime-metadata graph, used to enrich catalog songs.
use crate::text::owned;
use vstd::prelude::*;

verus! {

/// An anime's id in the metadata graph.
#[derive(Debug, Clone, Copy, PartialEq, Eq, Structural, PartialOrd, Ord, Hash)]
pub struct AnilistID(pub i32);

#[derive(Debug, Clone)]
pub struct MediaTitle {
    pub romaji: Option<String>,
    pub english: Option<String>,
    pub native: Option<String>,
}

#[derive(Debug, Clone)]
pub struct URL(pub String);

impl URL {
    pub fn from_str(s: &str) -> (r: Self)
        ensures
            r.0@ == s@,
    {
        URL(owned(s))
    }
}

#[derive(Debug, Clone)]
pub struct ImageURL(pub URL);

impl ImageURL {
    pub fn from_str(s: &str) -> (r: Self)
        ensures
            r.0.0@ == s@,
    {
        ImageURL(URL::from_str(s))
    }
}

#[derive(Debug, Clone)]
pub struct HexColor(pub String);

#[derive(Debug, Clone)]
pub struct CoverImage {
    pub color: Option<HexColor>,
    pub medium: Option<ImageURL>,
    pub large: Option<ImageURL>,
    pub extra_large: Option<ImageURL>,
}

#[derive(Debug, Clone, Copy, PartialEq, Eq, Structural)]
pub enum MediaFormat {
    Tv,
    TvShort,
    Movie,
    Special,
    Ova,
    Ona,
    Music,
    Manga,
    Novel,
    OneShot,
}

impl MediaFormat {
    pub open spec fn code_spec(&self) -> i16 {
        match self {
            MediaFormat::Tv => 0,
            MediaFormat::TvShort => 1,
            MediaFormat::Movie => 2,
            MediaFormat::Special => 3,
            MediaFormat::Ova => 4,
            MediaFormat::Ona => 5,
            MediaFormat::Music => 6,
            MediaFormat::Manga => 7,
            MediaFormat::Novel => 8,
            MediaFormat::OneShot => 9,
        }
    }

    /// The number the store keeps for the format, its place in declaration order.
    pub fn code(&self) -> (r: i16)
        ensures
            r == self.code_spec(),
    {
        match self {
            MediaFormat::Tv => 0,
            MediaFormat::TvShort => 1,
            MediaFormat::Movie => 2,
            MediaFormat::Special => 3,
            MediaFormat::Ova => 4,
            MediaFormat::Ona => 5,
            MediaFormat::Music => 6,
            MediaFormat::Manga => 7,
            MediaFormat::Novel => 8,
            MediaFormat::OneShot => 9,
        }
    }
}

#[derive(Debug, Clone)]
pub struct Genre(pub String);

#[derive(Debug, Clone, Copy, PartialEq, Eq, Structural)]
pub enum MediaSource {
    Original,
    Manga,
    LightNovel,
    VisualNovel,
    VideoGame,
    Other,
    Novel,
    Doujinshi,
    Anime,
    WebNovel,
    LiveAction,
    Game,
    Comic,
    MultimediaProject,
    PictureBook,
}

/// The name the store keeps for a source, as the metadata graph writes it.
pub open spec fn source_text(s: MediaSource) -> Seq<char> {
    match s {
        MediaSource::Original => "ORIGINAL"@,
        MediaSource::Manga => "MANGA"@,
        MediaSource::LightNovel => "LIGHT_NOVEL"@,
        MediaSource::VisualNovel => "VISUAL_NOVEL"@,
        MediaSource::VideoGame => "VIDEO_GAME"@,
        MediaSource::Other => "OTHER"@,
        MediaSource::Novel => "NOVEL"@,
        MediaSource::Doujinshi => "DOUJINSHI"@,
        MediaSource::Anime => "ANIME"@,
        MediaSource::WebNovel => "WEB_NOVEL"@,
        MediaSource::LiveAction => "LIVE_ACTION"@,
        MediaSource::Game => "GAME"@,
        MediaSource::Comic => "COMIC"@,
        MediaSource::MultimediaProject => "MULTIMEDIA_PROJECT"@,
        MediaSource::PictureBook => "PICTURE_BOOK"@,
    }
}

pub fn source_label(s: MediaSource) -> (r: &'static str)
    ensures
        r@ == source_text(s),
{
    match s {
        MediaSource::Original => "ORIGINAL",
        MediaSource::Manga => "MANGA",
        MediaSource::LightNovel => "LIGHT_NOVEL",
        MediaSource::VisualNovel => "VISUAL_NOVEL",
        MediaSource::VideoGame => "VIDEO_GAME",
        MediaSource::Other => "OTHER",
        MediaSource::Novel => "NOVEL",
        MediaSource::Doujinshi => "DOUJINSHI",
        MediaSource::Anime => "ANIME",
        MediaSource::WebNovel => "WEB_NOVEL",
        MediaSource::LiveAction => "LIVE_ACTION",
        MediaSource::Game => "GAME",
        MediaSource::Comic => "COMIC",
        MediaSource::MultimediaProject => "MULTIMEDIA_PROJECT",
        MediaSource::PictureBook => "PICTURE_BOOK",
    }
}

#[derive(Debug, Clone, Copy, PartialEq, Eq, Structural)]
pub enum ReleaseSeason {
    Winter,
    Spring,
    Summer,
    Fall,
}

impl ReleaseSeason {
    pub open spec fn code_spec(&self) -> i16 {
        match self {
            ReleaseSeason::Winter => 0,
            ReleaseSeason::Spring => 1,
            ReleaseSeason::Summer => 2,
            ReleaseSeason::Fall => 3,
        }
    }

    /// The number the store keeps for the season, its place in declaration order.
    pub fn code(&self) -> (r: i16)
        ensures
            r == self.code_spec(),
    {
        match self {
            ReleaseSeason::Winter => 0,
            ReleaseSeason::Spring => 1,
            ReleaseSeason::Summer => 2,
            ReleaseSeason::Fall => 3,
        }
    }
}

#[derive(Debug, Clone)]
pub struct Studio {
    pub id: i32,
    pub name: Option<String>,
    pub site_url: Option<URL>,
}

#[derive(Debug, Clone)]
pub struct StudioConnection {
    pub nodes: Vec<Studio>,
}

#[derive(Debug, Clone, Copy, PartialEq, Eq, Structural)]
pub struct TagID(pub i32);

#[derive(Debug, Clone)]
pub struct MediaTag {
    pub id: TagID,
    pub name: Option<String>,
}

#[derive(Debug, Clone)]
pub struct MediaTrailer {
    pub id: String,
    pub site: String,
    pub thumbnail: ImageURL,
}

/// One anime of the metadata graph.
#[derive(Debug, Clone)]
pub struct Media {
    pub id: AnilistID,
    pub title: MediaTitle,
    pub mean_score: i32,
    pub banner_image: Option<ImageURL>,
    pub cover_image: Option<CoverImage>,
    pub format: Option<MediaFormat>,
    pub genres: Option<Vec<Genre>>,
    pub source: Option<MediaSource>,
    pub studios: Option<StudioConnection>,
    pub tags: Option<Vec<MediaTag>>,
    pub trailer: Option<MediaTrailer>,
    pub episodes: Option<i32>,
    pub season: Option<ReleaseSeason>,
    pub season_year: Option<i32>,
}

#[derive(Debug, Clone)]
pub struct MediaList {
    pub media: Vec<Media>,
}

#[derive(Debug, Clone)]
pub struct PageData {
    pub page: MediaList,
}

#[derive(Debug, Clone)]
pub struct AnilistResponse {
    pub data: PageData,
}

} // verus!
