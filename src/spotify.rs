//! What the streaming service reports about the playing item and the user.
use vstd::prelude::*;

verus! {

#[derive(Debug, Clone)]
pub struct SpotifyToken {
    pub access_token: String,
    pub expires_in: u64,
    pub refresh_token: Option<String>,
}

#[derive(Debug, Clone)]
pub struct SpotifyTokenError {
    pub error: String,
    pub error_description: String,
}

#[derive(Debug, Clone)]
pub enum SpotifyTokenResponse {
    Token(SpotifyToken),
    Error(SpotifyTokenError),
}

#[derive(Debug, Clone)]
pub struct Device {
    pub id: Option<String>,
    pub is_active: bool,
    pub is_private_session: bool,
    pub is_restricted: bool,
    pub name: String,
    pub kind: String,
    pub volume_percent: Option<u32>,
    pub supports_volume: bool,
}

#[derive(Debug, Clone)]
pub struct ExternalUrls {
    pub spotify: String,
}

#[derive(Debug, Clone)]
pub struct Context {
    pub kind: String,
    pub href: String,
    pub external_urls: ExternalUrls,
    pub uri: String,
}

#[derive(Debug, Clone)]
pub struct Image {
    pub url: String,
    pub height: u32,
    pub width: u32,
}

#[derive(Debug, Clone)]
pub struct Restrictions {
    pub reason: String,
}

/// An artist as the streaming service names it.
#[derive(Debug, Clone)]
pub struct SimplifiedArtist {
    pub external_urls: ExternalUrls,
    pub href: String,
    pub id: String,
    pub name: String,
    pub kind: String,
    pub uri: String,
}

#[derive(Debug, Clone)]
pub struct Album {
    pub album_type: String,
    pub total_tracks: u32,
    pub available_markets: Vec<String>,
    pub external_urls: ExternalUrls,
    pub href: String,
    pub id: String,
    pub images: Vec<Image>,
    pub name: String,
    pub release_date: String,
    pub release_date_precision: String,
    pub restrictions: Option<Restrictions>,
    pub kind: String,
    pub uri: String,
    pub artists: Vec<SimplifiedArtist>,
}

#[derive(Debug, Clone)]
pub struct ExternalIds {
    pub isrc: Option<String>,
    pub ean: Option<String>,
    pub upc: Option<String>,
}

#[derive(Debug, Clone)]
pub struct LinkedFrom {}

/// A track of the streaming service: the input of a reconciliation.
#[derive(Debug, Clone)]
pub struct TrackObject {
    pub album: Album,
    pub artists: Vec<SimplifiedArtist>,
    pub available_markets: Vec<String>,
    pub disc_number: u32,
    pub duration_ms: u64,
    pub explicit: bool,
    pub external_ids: ExternalIds,
    pub external_urls: ExternalUrls,
    pub href: String,
    pub id: String,
    pub is_local: bool,
    pub is_playable: Option<bool>,
    pub linked_from: Option<LinkedFrom>,
    pub restrictions: Option<Restrictions>,
    pub name: String,
    pub popularity: u32,
    pub preview_url: Option<String>,
    pub track_number: u32,
    pub kind: String,
    pub uri: String,
}

/// A podcast episode; nothing of it is read.
#[derive(Debug, Clone)]
pub struct EpisodeObject {}

#[derive(Debug, Clone)]
pub enum Item {
    TrackObject(TrackObject),
    EpisodeObject(EpisodeObject),
}

#[derive(Debug, Clone)]
pub struct Actions {
    pub interrupting_playback: Option<bool>,
    pub pausing: Option<bool>,
    pub resuming: Option<bool>,
    pub seeking: Option<bool>,
    pub skipping_next: Option<bool>,
    pub skipping_prev: Option<bool>,
    pub toggling_repeat_context: Option<bool>,
    pub toggling_shuffle: Option<bool>,
    pub toggling_repeat_track: Option<bool>,
    pub transfering_playback: Option<bool>,
}

#[derive(Debug, Clone)]
pub struct CurrentlyPlayingResponse {
    pub device: Option<Device>,
    pub repeat_state: Option<String>,
    pub shuffle_state: Option<String>,
    pub context: Option<Context>,
    pub timestamp: u64,
    pub progress_ms: u64,
    pub is_playing: Option<bool>,
    pub item: Item,
    pub currently_playing_type: Option<String>,
    pub actions: Option<Actions>,
}

#[derive(Debug, Clone)]
pub enum CurrentlyPlayingResponses {
    Playing(CurrentlyPlayingResponse),
    NotPlaying,
    BadToken,
    Ratelimited,
}

#[derive(Debug, Clone)]
pub struct SpotifyUser {
    pub display_name: Option<String>,
    pub email: Option<String>,
    pub id: String,
}

} // verus!
