use rust_basics::custom_error::{checked_parse_and_double_custom_err, MyError};
use rust_basics::propagation::checked_parse_and_double;

/// The integer a text writes in decimal: an optional sign, then digits and nothing else.
/// Worked out by hand, digit by digit, in 128 bits.
fn written_integer(text: &str) -> Option<i128> {
    let chars: Vec<char> = text.chars().collect();
    let (negative, digits) = match chars.first() {
        Some('+') => (false, &chars[1..]),
        Some('-') => (true, &chars[1..]),
        _ => (false, &chars[..]),
    };
    if digits.is_empty() || !digits.iter().all(|c| ('0'..='9').contains(c)) {
        return None;
    }
    let mut value: i128 = 0;
    for digit in digits {
        value = value * 10 + (*digit as i128 - '0' as i128);
    }
    Some(if negative { -value } else { value })
}

/// The 32-bit integer a text writes, if it writes one that fits.
fn written_i32(text: &str) -> Option<i32> {
    written_integer(text).and_then(|n| i32::try_from(n).ok())
}

/// Every text of up to `longest` symbols over `symbols`.
fn texts_over(symbols: &[char], longest: usize) -> Vec<String> {
    let mut all = vec![String::new()];
    let mut last = vec![String::new()];
    for _ in 0..longest {
        let mut next = Vec::new();
        for text in &last {
            for symbol in symbols {
                let mut longer = text.clone();
                longer.push(*symbol);
                next.push(longer);
            }
        }
        all.extend(next.iter().cloned());
        last = next;
    }
    all
}

fn check_against_the_notation(text: &str) {
    let plain = checked_parse_and_double(text);
    let custom = checked_parse_and_double_custom_err(text);
    match written_i32(text) {
        None => {
            assert!(matches!(plain, Some(Err(_))), "{text:?}: {plain:?}");
            assert!(matches!(custom, Some(Err(MyError::ParseError(_)))), "{text:?}: {custom:?}");
        }
        Some(n) => match n.checked_mul(2) {
            None => {
                assert!(plain.is_none(), "{text:?}: {plain:?}");
                assert!(custom.is_none(), "{text:?}: {custom:?}");
            }
            Some(double) => {
                assert_eq!(plain, Some(Ok(double)), "{text:?}");
                if n == 0 {
                    assert!(
                        matches!(custom, Some(Err(MyError::DivisionByZero))),
                        "{text:?}: {custom:?}"
                    );
                } else {
                    assert!(
                        matches!(custom, Some(Ok(value)) if value == double),
                        "{text:?}: {custom:?}"
                    );
                }
            }
        },
    }
}

#[test]
fn the_notation_worked_by_hand_on_a_few_texts() {
    assert_eq!(written_i32("42"), Some(42));
    assert_eq!(written_i32("-42"), Some(-42));
    assert_eq!(written_i32("+42"), Some(42));
    assert_eq!(written_i32("-0"), Some(0));
    assert_eq!(written_i32("2147483647"), Some(i32::MAX));
    assert_eq!(written_i32("-2147483648"), Some(i32::MIN));
    assert_eq!(written_i32("2147483648"), None);
    assert_eq!(written_i32("-2147483649"), None);
    assert_eq!(written_i32(""), None);
    assert_eq!(written_i32("+"), None);
    assert_eq!(written_i32("4 2"), None);
}

#[test]
fn every_short_text_over_digits_signs_and_strays_reads_as_the_notation_says() {
    let symbols = ['+', '-', '0', '1', '7', '9', ' ', 'a', '_', '\u{663}'];
    let texts = texts_over(&symbols, 4);
    assert_eq!(texts.len(), 11_111);
    for text in &texts {
        check_against_the_notation(text);
    }
}

#[test]
fn every_text_of_up_to_five_digits_and_signs_reads_as_the_notation_says() {
    let symbols = ['+', '-', '0', '3', '5', '8'];
    for text in &texts_over(&symbols, 5) {
        check_against_the_notation(text);
    }
}

#[test]
fn numbers_around_the_limits_read_as_the_notation_says() {
    let limits: [i64; 6] = [
        -(1 << 31),
        -(1 << 30),
        0,
        (1 << 30) - 1,
        1 << 30,
        (1 << 31) - 1,
    ];
    for limit in limits {
        for offset in -3..=3 {
            let n = limit + offset;
            check_against_the_notation(&n.to_string());
            check_against_the_notation(&format!("{n:+}"));
            check_against_the_notation(&format!("{n:+012}"));
            check_against_the_notation(&format!("{n:040}"));
            check_against_the_notation(&format!(" {n}"));
            check_against_the_notation(&format!("{n} "));
        }
    }
}

#[test]
fn long_runs_of_digits_read_as_the_notation_says() {
    for digit in ['0', '1', '9'] {
        for length in [9, 10, 11, 19, 20, 21, 30] {
            let run: String = std::iter::repeat(digit).take(length).collect();
            check_against_the_notation(&run);
            check_against_the_notation(&format!("-{run}"));
            check_against_the_notation(&format!("+{run}"));
            check_against_the_notation(&format!("{run}x"));
        }
    }
}

#[test]
fn digits_from_other_scripts_are_no_digits() {
    for text in ["\u{664}\u{662}", "\u{ff14}\u{ff12}", "\u{966}", "4\u{662}", "\u{b2}"] {
        assert!(matches!(checked_parse_and_double(text), Some(Err(_))), "{text:?}");
    }
}
