use whatanime::japanese_processing::{
    normalize_text, process_possible_japanese, process_similarity, remove_consonants,
    remove_vowels, similarity_given,
};

const TESTING_LIST: &[(&str, &str)] = &[
    ("デート ・ ア ・ ライブ", "Date A Live"),
    ("モンスター ハンター", "Monster Hunter"),
    ("ファイナル ファンタジー", "Final Fantasy"),
    ("オンライン ゲーム", "Online Game"),
    ("レジェンド オブ ゼルダ", "Legend of Zelda"),
    ("ポケット モンスター", "Pocket Monster"),
    ("ドラゴン クエスト", "Dragon Quest"),
    ("キングダム ハーツ", "Kingdom Hearts"),
    ("ストリート ファイター", "Street Fighter"),
    ("スーパーマリオ", "Super Mario"),
];

const TEST_LIST_FAIL: &[(&str, &str)] = &[
    ("又三郎", "Shayou"),
    ("こんにちは", "Hello"),
    ("ありがとう", "Thank You"),
    ("バナナ", "Bandana"),
    ("コーヒー", "Cough"),
    ("ホテル", "Hostel"),
    ("スピーカー", "Spiker"),
    ("マイク", "Mice"),
    ("バイク", "Back"),
    ("チェック", "Chick"),
];

fn points(a: &str, b: &str) -> f64 {
    process_similarity(a, b) as f64 / 10.0
}

fn test_similarity(test: (&str, &str), success_function: impl Fn(f64) -> bool) -> f64 {
    let score = points(test.0, test.1);
    if !success_function(score) {
        println!("Failed Test: {:?}, Score: {}", test, score);
    }
    println!("{}", score);
    score
}

fn test_all(tests: &[(&str, &str)], success_function: impl Fn(f64) -> bool) -> f64 {
    let mut total_score = 0.0;
    for test in tests {
        total_score += test_similarity(*test, &success_function);
    }
    total_score / tests.len() as f64
}

#[test]
fn test_deltas() {
    let fail_limit = 60.0;

    println!("--------------- Doing match tests ---------------");
    let average_success_score = test_all(&TESTING_LIST, |a| a > fail_limit);

    println!("--------------- Doing False Match tests ---------------");
    let average_fail_score = test_all(&TEST_LIST_FAIL, |a| a < fail_limit);

    println!("Average Success Score: {}", average_success_score);
    println!("Average Fail Score: {}", average_fail_score);
    let delta = average_success_score - average_fail_score;
    println!("Delta: {}", delta);
    assert!(delta > 10.0);
}

#[test]
fn scores_stay_within_bounds() {
    let pairs = [
        ("", ""),
        ("abc", ""),
        ("デート", "Date"),
        ("Yūki", "yuki"),
        ("long title with words", "short"),
        ("ōōō", "abc"),
    ];
    for (a, b) in pairs {
        let s = process_similarity(a, b);
        assert!(s <= 1000, "{} {} {}", a, b, s);
    }
}

#[test]
fn text_scores_full_marks_against_itself() {
    for a in ["Date A Live", "unravel", "Yūki", "x", "!!!"] {
        assert_eq!(process_similarity(a, a), 1000);
    }
}

#[test]
fn one_changed_letter_in_twenty_scores_ninety_five() {
    assert_eq!(process_similarity("abcdefghijklmnopqrst", "abcdefghijklmnopqrsx"), 950);
}

#[test]
fn japanese_path_blends_consonants_and_full_text() {
    // Romanized both ways the strings agree, so both ratios are 100.
    assert_eq!(similarity_given("abc", "ABC", true), 1000);
    // Without the Japanese path only the full ratio counts.
    assert_eq!(similarity_given("abc", "abd", false), 670);
}

#[test]
fn normalize_lowercases_and_strips_punctuation() {
    assert_eq!(normalize_text("Date・A・Live!"), "datealive");
    assert_eq!(normalize_text("Hello, World"), "hello world");
    assert_eq!(normalize_text(""), "");
}

#[test]
fn vowels_and_consonants_split() {
    assert_eq!(remove_vowels("Monster Hunter"), "Mnstr Hntr");
    assert_eq!(remove_consonants("Monster Hunter"), "oeue");
}

#[test]
fn latin_text_is_not_romanized() {
    assert_eq!(process_possible_japanese("Date A Live"), "Date A Live");
    let r = process_possible_japanese("ホテル");
    assert!(r.is_ascii());
    assert_ne!(r, "ホテル");
}

#[test]
fn accented_text_is_compared_by_bytes() {
    assert_eq!(process_similarity("Yūki", "Yuki"), 670);
    assert_eq!(process_similarity("Pokémon", "Pokemon"), 800);
}
