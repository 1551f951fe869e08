use whatanime::regex_search::{create_artist_regex, create_regex, process_artist_name};

#[test]
fn voice_credit_gives_the_artist() {
    assert_eq!(process_artist_name("Kirito (CV: Yoshitsugu Matsuoka)"), "Yoshitsugu Matsuoka");
    assert_eq!(process_artist_name("Asuna (Vo. Haruka Tomatsu)"), "Haruka Tomatsu");
    assert_eq!(process_artist_name("A (CV:B) and C (CV.D)"), "BD");
}

#[test]
fn names_without_credit_are_trimmed_only() {
    assert_eq!(process_artist_name("  LiSA "), "LiSA");
    assert_eq!(process_artist_name("Aimer (live)"), "Aimer (live)");
    assert_eq!(process_artist_name("Unclosed (CV: name"), "Unclosed (CV: name");
}

#[test]
fn longer_spelling_wins() {
    assert_eq!(create_regex("ou"), "^(ou|ō|o)$");
    assert_eq!(create_regex("o"), "^([oōŌóòöôøӨΦο]|ou|oo|oh|wo)$");
    assert_eq!(create_regex("KY"), "^KY$");
    assert_eq!(create_regex(""), "^$");
}

#[test]
fn every_spelling_of_a_name_is_covered() {
    assert_eq!(create_regex("Yuki"), "^Y([uūŪûúùüǖμ]|uu)k([iíίɪ]|ii)$");
    assert_eq!(create_regex("a b"), "^([aäãά@âàáạåæā∀Λ]|aa)([^\\w]+|_+)[bßβ]$");
}

#[test]
fn names_are_joined_and_credits_removed() {
    let names = vec!["x (CV: y)".to_string(), "2".to_string()];
    assert_eq!(create_artist_regex(&names), "^y$|^[2²₂]$");
    assert_eq!(create_artist_regex(&vec![]), "");
}
