use esp_wifi_manager::text::chars_of;
use esp_wifi_manager::text::find;
use esp_wifi_manager::text::first_two_words;
use esp_wifi_manager::text::part_is;
use esp_wifi_manager::text::part_of;
use esp_wifi_manager::text::run_end;
use esp_wifi_manager::text::white_space;

fn chars(text: &str) -> Vec<char> {
    text.chars().collect()
}

#[test]
fn characters_of_a_text() {
    assert_eq!(chars_of(""), Vec::<char>::new());
    assert_eq!(chars_of("a\u{e9}\u{1f600}"), vec!['a', '\u{e9}', '\u{1f600}']);
}

#[test]
fn white_space_is_what_separates_words() {
    let mut code: u32 = 0;
    while code <= 0x10ffff {
        if let Some(c) = char::from_u32(code) {
            assert_eq!(white_space(c), c.is_whitespace(), "U+{:04X}", code);
        }
        code += 1;
    }
}

#[test]
fn find_gives_the_first_occurrence() {
    let text = chars("abcabcabc");
    assert_eq!(find(&text, 0, 9, &chars("bc")), Some(1));
    assert_eq!(find(&text, 2, 9, &chars("bc")), Some(4));
    assert_eq!(find(&text, 5, 9, &chars("bc")), Some(7));
    assert_eq!(find(&text, 8, 9, &chars("bc")), None);
    assert_eq!(find(&text, 0, 2, &chars("bc")), None);
    assert_eq!(find(&text, 0, 3, &chars("bc")), Some(1));
    assert_eq!(find(&text, 0, 9, &chars("abcabcabc")), Some(0));
    assert_eq!(find(&text, 0, 9, &chars("abcabcabcd")), None);
    assert_eq!(find(&text, 0, 9, &chars("x")), None);
}

#[test]
fn find_with_an_empty_pattern_or_part() {
    let text = chars("abc");
    assert_eq!(find(&text, 0, 3, &Vec::new()), Some(0));
    assert_eq!(find(&text, 2, 3, &Vec::new()), Some(2));
    assert_eq!(find(&text, 3, 3, &Vec::new()), Some(3));
    assert_eq!(find(&text, 3, 3, &chars("a")), None);
    assert_eq!(find(&Vec::new(), 0, 0, &chars("a")), None);
}

#[test]
fn find_sees_overlapping_beginnings() {
    let text = chars("\r\r\n\r\n\r\n");
    assert_eq!(find(&text, 0, 7, &chars("\r\n")), Some(1));
    assert_eq!(find(&text, 0, 7, &chars("\r\n\r\n")), Some(1));
    assert_eq!(find(&text, 2, 7, &chars("\r\n\r\n")), Some(3));
    let text = chars("aaab");
    assert_eq!(find(&text, 0, 4, &chars("aab")), Some(1));
}

#[test]
fn runs_end_where_the_kind_changes() {
    let text = chars("  ab \t c");
    assert_eq!(run_end(&text, 0, 8, true), 2);
    assert_eq!(run_end(&text, 0, 8, false), 0);
    assert_eq!(run_end(&text, 2, 8, false), 4);
    assert_eq!(run_end(&text, 4, 8, true), 7);
    assert_eq!(run_end(&text, 7, 8, false), 8);
    assert_eq!(run_end(&text, 8, 8, false), 8);
    assert_eq!(run_end(&text, 2, 3, false), 3);
}

#[test]
fn first_two_words_of_a_part() {
    let text = chars("  GET   /a  HTTP/1.1 ");
    assert_eq!(first_two_words(&text, 0, text.len()), Some((2, 5, 8, 10)));
    assert_eq!(first_two_words(&text, 3, text.len()), Some((3, 5, 8, 10)));
    assert_eq!(first_two_words(&text, 0, 9), Some((2, 5, 8, 9)));
    assert_eq!(first_two_words(&text, 0, 8), None);
    assert_eq!(first_two_words(&text, 0, 2), None);
    assert_eq!(first_two_words(&text, 0, 0), None);
    let one = chars("word");
    assert_eq!(first_two_words(&one, 0, 4), None);
    let two = chars("a b");
    assert_eq!(first_two_words(&two, 0, 3), Some((0, 1, 2, 3)));
}

#[test]
fn parts_compare_and_copy() {
    let text = chars("POST /x");
    assert!(part_is(&text, 0, 4, &chars("POST")));
    assert!(!part_is(&text, 0, 3, &chars("POST")));
    assert!(!part_is(&text, 0, 4, &chars("POSt")));
    assert!(part_is(&text, 5, 7, &chars("/x")));
    assert!(part_is(&text, 3, 3, &Vec::new()));
    assert_eq!(part_of("a\u{e9}b\u{1f600}c", 1, 4), "\u{e9}b\u{1f600}");
    assert_eq!(part_of("abc", 0, 0), "");
    assert_eq!(part_of("abc", 0, 3), "abc");
}
