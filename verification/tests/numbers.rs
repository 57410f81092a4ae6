use ws_socket::number::{check_float_literal, render_i32};
use ws_socket::text::{find_from, has_separator, split_fields, str_equal};

#[test]
fn a_float_literal_is_what_the_standard_parser_takes() {
    let samples = [
        "0", "1", "28933.33", "0.0", "1.", ".5", ".", "", "+", "-", "+1", "-1", "--1", "+-1", "1e5",
        "1E5", "1e+5", "1e-5", "1e", "1e+", "e5", ".e5", "1.e5", ".5e5", "1.5e5.5", "1.2.3", "1e5e5",
        "inf", "INF", "Inf", "+inf", "-inf", "infinity", "INFINITY", "-Infinity", "infinit",
        "infinityy", "in", "nan", "NaN", "NAN", "-nan", "+NaN", "nana", "na", " 1", "1 ", "1_000",
        "0x10", "1f", "1.0f64", "١", "1\u{660}", "1,5", "00012", "000.000", "9999999999999999999999",
        "1e999999", "-0", "+.5e-3", "++1", "1+", "1-", "e", "E", "+e1", "1ee1", "i", "n", "inf1",
        "1inf", ".inf", "iNfInItY", "INFINIT\u{212a}", "\u{130}nf",
    ];
    for sample in samples {
        assert_eq!(check_float_literal(sample), sample.parse::<f64>().is_ok(), "{:?}", sample);
    }
}

#[test]
fn a_float_literal_is_told_for_every_short_text_over_its_alphabet() {
    let alphabet = ['0', '7', '.', 'e', 'E', '+', '-', 'i', 'n', 'f', 'a', ' '];
    let mut texts = vec![String::new()];
    for _ in 0..4 {
        let mut longer = Vec::new();
        for text in &texts {
            for c in alphabet {
                let mut next = text.clone();
                next.push(c);
                longer.push(next);
            }
        }
        for text in &longer {
            assert_eq!(check_float_literal(text), text.parse::<f64>().is_ok(), "{:?}", text);
        }
        texts = longer;
    }
}

#[test]
fn the_special_words_are_taken_in_any_case() {
    for word in ["inf", "nan", "infinity"] {
        let letters: Vec<char> = word.chars().collect();
        for mask in 0..(1u32 << letters.len()) {
            let mut text = String::new();
            for (i, c) in letters.iter().enumerate() {
                if mask & (1 << i) != 0 {
                    text.push(c.to_ascii_uppercase());
                } else {
                    text.push(*c);
                }
            }
            for sign in ["", "+", "-"] {
                let signed = format!("{}{}", sign, text);
                assert!(check_float_literal(&signed), "{:?}", signed);
                assert!(signed.parse::<f64>().is_ok(), "{:?}", signed);
            }
            for i in 0..letters.len() {
                for other in ['x', '0', '.', ' ', 'J', '\u{131}'] {
                    let mut changed: Vec<char> = text.chars().collect();
                    changed[i] = other;
                    let changed: String = changed.into_iter().collect();
                    assert_eq!(
                        check_float_literal(&changed),
                        changed.parse::<f64>().is_ok(),
                        "{:?}",
                        changed
                    );
                }
            }
        }
    }
}

#[test]
fn a_long_number_is_a_float_literal() {
    let digits = "1234567890".repeat(40);
    for text in [
        digits.clone(),
        format!("-{}.{}", digits, digits),
        format!("{}e{}", digits, digits),
        format!(".{}E-{}", digits, digits),
    ] {
        assert!(check_float_literal(&text));
        assert!(text.parse::<f64>().is_ok());
    }
    let broken = format!("{}x{}", digits, digits);
    assert!(!check_float_literal(&broken));
    assert!(broken.parse::<f64>().is_err());
}

#[test]
fn an_integer_is_written_as_the_standard_library_writes_it() {
    for n in [0, 1, -1, 9, 10, 11, 99, 100, 101, -9, -10, 12345, -67890, i32::MAX, i32::MIN] {
        assert_eq!(render_i32(n), n.to_string());
    }
    assert_eq!(render_i32(-2147483648), "-2147483648");
    assert_eq!(render_i32(1000000), "1000000");
}

#[test]
fn a_text_is_split_as_the_standard_library_splits_it() {
    let samples = [
        "", "_", "__", "a", "a_b", "_a", "a_", "a__b", "a_b_c", "btc_usdt", "\u{e9}_\u{20ac}_x",
        "ab,cd", ",",
    ];
    for sample in samples {
        for sep in ['_', ','] {
            let expected: Vec<&str> = sample.split(sep).collect();
            assert_eq!(split_fields(sample, sep), expected, "{:?}", sample);
        }
    }
}

#[test]
fn positions_count_characters() {
    assert_eq!(find_from("\u{e9}\u{e9}_x", '_', 0), 2);
    assert_eq!(find_from("a_b_c", '_', 2), 3);
    assert_eq!(find_from("abc", '_', 1), 3);
    assert!(has_separator("btc-usdt", '-'));
    assert!(!has_separator("btcusdt", '-'));
    assert!(!has_separator("", '-'));
}

#[test]
fn texts_are_equal_when_their_characters_are() {
    assert!(str_equal("", ""));
    assert!(str_equal("error", "error"));
    assert!(!str_equal("error", "Error"));
    assert!(!str_equal("error", "errors"));
    assert!(!str_equal("\u{e9}", "e"));
}
