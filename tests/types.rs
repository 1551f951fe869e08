use whatanime::error::Error;
use whatanime::types::{split_string, AnimeIndex, AnimeTrackIndex, AnimeType};

#[test]
fn trailing_number_is_split_off() {
    assert_eq!(split_string("Opening 2"), ("Opening".to_string(), Some(2)));
    assert_eq!(split_string("  Insert   Song  "), ("  Insert   Song  ".to_string(), None));
    assert_eq!(split_string("TV  Special 3"), ("TV Special".to_string(), Some(3)));
    assert_eq!(split_string("Season -1"), ("Season".to_string(), Some(-1)));
    assert_eq!(split_string("Season 99999999999"), ("Season 99999999999".to_string(), None));
    assert_eq!(split_string(""), ("".to_string(), None));
}

#[test]
fn categories_read() {
    assert_eq!(AnimeIndex::from_str("TV").unwrap(), AnimeIndex::Season(0));
    assert_eq!(AnimeIndex::from_str("Season 2").unwrap(), AnimeIndex::Season(2));
    assert_eq!(AnimeIndex::from_str("Movie").unwrap(), AnimeIndex::Movie(1));
    assert_eq!(AnimeIndex::from_str("ONA").unwrap(), AnimeIndex::ONA(0));
    assert_eq!(AnimeIndex::from_str("Music Video").unwrap(), AnimeIndex::MusicVideo(1));
    assert_eq!(AnimeIndex::from_str("TV Special 4").unwrap(), AnimeIndex::TVSpecial(4));
    assert_eq!(
        AnimeIndex::from_str("Drama CD"),
        Err::<AnimeIndex, Error>(Error::ParseError("Drama CD".to_string()))
    );
}

#[test]
fn song_roles_read() {
    assert_eq!(AnimeTrackIndex::from_str("Opening").unwrap(), AnimeTrackIndex::Opening(1));
    assert_eq!(AnimeTrackIndex::from_str("Ending 3").unwrap(), AnimeTrackIndex::Ending(3));
    assert_eq!(AnimeTrackIndex::from_str("Insert Song").unwrap(), AnimeTrackIndex::Insert(0));
    assert_eq!(
        AnimeTrackIndex::from_str("Theme"),
        Err::<AnimeTrackIndex, Error>(Error::ParseError("Theme".to_string()))
    );
}

#[test]
fn store_codes_round_trip() {
    for i in [AnimeIndex::Season(3), AnimeIndex::Movie(2), AnimeIndex::MusicVideo(1)] {
        assert_eq!(AnimeIndex::from_db(i.discriminant() as i16, i.value()).unwrap(), i);
    }
    for t in [AnimeTrackIndex::Opening(1), AnimeTrackIndex::Insert(0), AnimeTrackIndex::Ending(5)] {
        assert_eq!(AnimeTrackIndex::from_db(t.discriminant() as i16, t.value()).unwrap(), t);
    }
    assert_eq!(AnimeIndex::Special(7).value(), 7);
    assert_eq!(AnimeTrackIndex::Ending(2).discriminant(), 2);
}

#[test]
fn bad_store_codes_are_parse_errors() {
    assert_eq!(
        AnimeIndex::from_db(9, 1),
        Err::<AnimeIndex, Error>(Error::ParseError("9:1".to_string()))
    );
    assert_eq!(
        AnimeTrackIndex::from_db(-3, 12),
        Err::<AnimeTrackIndex, Error>(Error::ParseError("-3:12".to_string()))
    );
    assert_eq!(AnimeType::from_db(7), Err::<AnimeType, Error>(Error::ParseError("7".to_string())));
    assert_eq!(AnimeType::from_db(1).unwrap(), AnimeType::Movie);
}

#[test]
fn show_types_read() {
    assert_eq!(AnimeType::from_str(Some("OVA")), AnimeType::OVA);
    assert_eq!(AnimeType::from_str(Some("tv")), AnimeType::Unknown);
    assert_eq!(AnimeType::from_str(None), AnimeType::Unknown);
    assert_eq!(AnimeType::Unknown.code(), 5);
}
