use mpd_dashboard::text::{
    chars_le, chars_of, contains_chars, parse_i32, push_decimal, push_two_digits,
};

fn chars(s: &str) -> Vec<char> {
    s.chars().collect()
}

#[test]
fn the_characters_of_a_string_come_in_order() {
    assert_eq!(chars_of(""), Vec::<char>::new());
    assert_eq!(chars_of("abc"), vec!['a', 'b', 'c']);
    assert_eq!(chars_of("Björk 日本"), vec!['B', 'j', 'ö', 'r', 'k', ' ', '日', '本']);
}

#[test]
fn strings_are_ordered_like_the_standard_library_orders_them() {
    let samples = [
        "", "a", "A", "ab", "abc", "abd", "b", "B", "Z", "z", "é", "e", "ß", "ss", "日本", "日",
        "zz", "a b", "a-b", "10", "9", "\u{10ffff}", "\u{e000}", "\u{d7ff}",
    ];
    for a in samples {
        for b in samples {
            assert_eq!(chars_le(&chars(a), &chars(b)), a <= b, "{a:?} <= {b:?}");
        }
    }
}

#[test]
fn a_text_is_found_wherever_it_stands() {
    let samples = ["", "a", "ab", "ba", "abc", "bc", "abcabc", "cab", "aab", "aaa", "日本語", "本"];
    for hay in samples {
        for needle in samples {
            assert_eq!(
                contains_chars(&chars(hay), &chars(needle)),
                hay.contains(needle),
                "{needle:?} in {hay:?}"
            );
        }
    }
}

#[test]
fn numbers_are_read_like_the_standard_library_reads_them() {
    let samples = [
        "", "0", "7", "42", "-42", "+42", "--1", "+-1", "-+1", "1-", "1+", "00", "-00",
        "2147483647", "2147483648", "-2147483648", "-2147483649", "21474836470", "4294967296",
        "1e3", "1.0", "0x10", "1_000", " 1", "1 ", "١٢", "１２", "９", "-", "+",
        "9223372036854775808", "000000000000000000000000000000000000001",
    ];
    for text in samples {
        assert_eq!(parse_i32(&chars(text)), text.parse::<i32>().ok(), "{text:?}");
    }
    assert_eq!(parse_i32(&chars("1999")), Some(1999));
    assert_eq!(parse_i32(&chars("-7")), Some(-7));
}

#[test]
fn numbers_are_written_in_decimal() {
    for n in [0u64, 1, 9, 10, 11, 99, 100, 101, 12345, 1_000_000, u64::MAX - 1, u64::MAX] {
        let mut text = String::from(">");
        push_decimal(&mut text, n);
        assert_eq!(text, format!(">{n}"));
    }
}

#[test]
fn small_numbers_get_a_leading_zero() {
    for n in [0u64, 1, 9, 10, 11, 59, 99, 100, 12345, u64::MAX] {
        let mut text = String::new();
        push_two_digits(&mut text, n);
        assert_eq!(text, format!("{n:0>2}"));
    }
}
