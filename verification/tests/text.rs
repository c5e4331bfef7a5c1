use discorsd_games::hangman::Hangman;
use discorsd_games::ids::ChannelId;
use discorsd_games::text::{
    bold, char_string, format_wrapped, i64_to_string, join, list_grammatically, parse_u64,
    strikethrough, u64_to_string,
};

fn strings(parts: &[&str]) -> Vec<String> {
    parts.iter().map(|s| s.to_string()).collect()
}

#[test]
fn decimal_rendering() {
    assert_eq!(u64_to_string(0), "0");
    assert_eq!(u64_to_string(1234567890), "1234567890");
    assert_eq!(u64_to_string(u64::MAX), u64::MAX.to_string());
    assert_eq!(i64_to_string(-42), "-42");
    assert_eq!(i64_to_string(i64::MIN), i64::MIN.to_string());
    assert_eq!(i64_to_string(7), "7");
}

#[test]
fn parse_reads_what_std_reads() {
    for text in ["0", "+7", "0012", "18446744073709551615", "18446744073709551616", "", "+", "-1", "1 2", "x"] {
        assert_eq!(parse_u64(text), text.parse::<u64>().ok(), "{text}");
    }
}

#[test]
fn parse_undoes_rendering() {
    for n in [0u64, 9, 10, 99, 100, 4096, 813000000000000000, u64::MAX] {
        assert_eq!(parse_u64(&u64_to_string(n)), Some(n));
    }
}

#[test]
fn joining() {
    assert_eq!(join(&strings(&[]), ", "), "");
    assert_eq!(join(&strings(&["a"]), ", "), "a");
    assert_eq!(join(&strings(&["a", "b", "c"]), "\n"), "a\nb\nc");
}

#[test]
fn grammatical_lists() {
    assert_eq!(list_grammatically(&strings(&[]), "and"), "");
    assert_eq!(list_grammatically(&strings(&["Duke"]), "and"), "Duke");
    assert_eq!(list_grammatically(&strings(&["Duke", "Captain"]), "and"), "Duke and Captain");
    assert_eq!(list_grammatically(&strings(&["a", "b", "c"]), "or"), "a, b, or c");
}

#[test]
fn markup() {
    assert_eq!(bold("x"), "**x**");
    assert_eq!(strikethrough("gone"), "~~gone~~");
    assert_eq!(char_string('q'), "q");
    assert_eq!(format_wrapped("<@", 5, ">"), "<@5>");
}

#[test]
fn titles_count_bytes() {
    let g = Hangman::new(ChannelId(1), "héllo".to_string(), String::new());
    assert_eq!(g.embed().title.as_deref(), Some("The hangman is hungry!\n6 letter word."));
}
