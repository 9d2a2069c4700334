use alarms::float::{check_float, FloatFault};

fn by_std(text: &str) -> Result<(), FloatFault> {
    match text.parse::<f64>() {
        Ok(_) => Ok(()),
        Err(_) => {
            if text.is_empty() {
                Err(FloatFault::Empty)
            } else {
                Err(FloatFault::Invalid)
            }
        }
    }
}

#[test]
fn empty_text_is_no_number() {
    assert_eq!(check_float(""), Err(FloatFault::Empty));
    assert_eq!("".parse::<f64>().is_err(), true);
}

#[test]
fn whole_numbers_are_numbers() {
    assert_eq!(check_float("0"), Ok(()));
    assert_eq!(check_float("3"), Ok(()));
    assert_eq!(check_float("+3"), Ok(()));
    assert_eq!(check_float("-3"), Ok(()));
    assert_eq!(check_float("0000123"), Ok(()));
    assert_eq!(check_float("123456789012345678901234567890"), Ok(()));
}

#[test]
fn a_point_needs_a_digit_on_one_side() {
    assert_eq!(check_float("5."), Ok(()));
    assert_eq!(check_float(".5"), Ok(()));
    assert_eq!(check_float("5.5"), Ok(()));
    assert_eq!(check_float("-.5"), Ok(()));
    assert_eq!(check_float("."), Err(FloatFault::Invalid));
    assert_eq!(check_float("+."), Err(FloatFault::Invalid));
    assert_eq!(check_float("1.2.3"), Err(FloatFault::Invalid));
    assert_eq!(check_float("1..2"), Err(FloatFault::Invalid));
}

#[test]
fn an_exponent_needs_a_mantissa_and_digits() {
    assert_eq!(check_float("1e5"), Ok(()));
    assert_eq!(check_float("1E5"), Ok(()));
    assert_eq!(check_float("1e+5"), Ok(()));
    assert_eq!(check_float("1e-5"), Ok(()));
    assert_eq!(check_float("1.e5"), Ok(()));
    assert_eq!(check_float(".1e5"), Ok(()));
    assert_eq!(check_float("1.25e-10"), Ok(()));
    assert_eq!(check_float("1e"), Err(FloatFault::Invalid));
    assert_eq!(check_float("1e+"), Err(FloatFault::Invalid));
    assert_eq!(check_float("e5"), Err(FloatFault::Invalid));
    assert_eq!(check_float(".e5"), Err(FloatFault::Invalid));
    assert_eq!(check_float("1e5e5"), Err(FloatFault::Invalid));
    assert_eq!(check_float("1e5.5"), Err(FloatFault::Invalid));
    assert_eq!(check_float("1e++5"), Err(FloatFault::Invalid));
}

#[test]
fn special_values_are_numbers_in_any_case() {
    assert_eq!(check_float("inf"), Ok(()));
    assert_eq!(check_float("INF"), Ok(()));
    assert_eq!(check_float("-inf"), Ok(()));
    assert_eq!(check_float("+Infinity"), Ok(()));
    assert_eq!(check_float("infinity"), Ok(()));
    assert_eq!(check_float("nan"), Ok(()));
    assert_eq!(check_float("NaN"), Ok(()));
    assert_eq!(check_float("-nan"), Ok(()));
    assert_eq!(check_float("in"), Err(FloatFault::Invalid));
    assert_eq!(check_float("infinit"), Err(FloatFault::Invalid));
    assert_eq!(check_float("infinityy"), Err(FloatFault::Invalid));
    assert_eq!(check_float("nana"), Err(FloatFault::Invalid));
    assert_eq!(check_float("i\u{0126}f"), Err(FloatFault::Invalid));
}

#[test]
fn other_text_is_no_number() {
    assert_eq!(check_float("a"), Err(FloatFault::Invalid));
    assert_eq!(check_float("+"), Err(FloatFault::Invalid));
    assert_eq!(check_float("-"), Err(FloatFault::Invalid));
    assert_eq!(check_float("+-1"), Err(FloatFault::Invalid));
    assert_eq!(check_float(" 1"), Err(FloatFault::Invalid));
    assert_eq!(check_float("1 "), Err(FloatFault::Invalid));
    assert_eq!(check_float("1_000"), Err(FloatFault::Invalid));
    assert_eq!(check_float("0x10"), Err(FloatFault::Invalid));
    assert_eq!(check_float("1,5"), Err(FloatFault::Invalid));
    assert_eq!(check_float("1f"), Err(FloatFault::Invalid));
    assert_eq!(check_float("\u{0663}"), Err(FloatFault::Invalid));
}

#[test]
fn floats_agree_with_std() {
    let samples = [
        "", "0", "1", "-1", "+1", "3", "5.", ".5", ".", "+.", "-.", "5.5", "-5.5", "+5.5",
        "1e5", "1E5", "1e+5", "1e-5", "1e", "1e+", "1e-", "e5", ".e5", "1.e5", ".1e5", "1.2.3",
        "1..2", "1e5e5", "1e5.5", "1e++5", "+e5", "inf", "INF", "Inf", "iNf", "-inf", "+inf",
        "infinity", "INFINITY", "Infinity", "-infinity", "infinit", "infinityy", "in", "nan",
        "NaN", "NAN", "-nan", "+nan", "nana", "na", "a", "+", "-", "+-1", "--1", "++1", " 1",
        "1 ", "1_000", "0x10", "1,5", "1f", "1d", "\u{0661}", "1\u{00e9}", "\u{00e9}", "i\u{0126}f",
        "1e999999999999999999999", "1e-999999999999999999999",
        "123456789012345678901234567890123456789012345678901234567890",
        "0.000000000000000000000000000000000000000000000000000000000001", "00", "00.00",
        "1.e", "1.e+", ".e", "e", "E", "1E", "1E+1", "Infe5", "inf.", ".inf", "nan1", "1nan",
        "+infinity", "-Infinity", "iNfInItY", "\u{0131}nf", "i\u{006e}\u{0066}", "@AN", "n\u{0001}n",
        "INF\u{0000}", "\u{0000}", "\t1", "1\n",
    ];
    for text in samples {
        assert_eq!(check_float(text), by_std(text), "for {:?}", text);
    }
}

fn all_texts(alphabet: &[char], longest: usize) -> Vec<String> {
    let mut texts = vec![String::new()];
    let mut from = 0;
    for _ in 0..longest {
        let until = texts.len();
        for i in from..until {
            for c in alphabet {
                let mut text = texts[i].clone();
                text.push(*c);
                texts.push(text);
            }
        }
        from = until;
    }
    texts
}

#[test]
fn short_number_texts_agree_with_std() {
    let alphabet = ['0', '7', '.', 'e', 'E', '+', '-', 'a', ' '];
    for text in all_texts(&alphabet, 6) {
        assert_eq!(check_float(&text), by_std(&text), "for {:?}", text);
    }
}

#[test]
fn short_word_texts_agree_with_std() {
    let alphabet = ['i', 'I', 'n', 'N', 'f', 'a', 'A', '-', '1', '\u{0131}'];
    for text in all_texts(&alphabet, 5) {
        assert_eq!(check_float(&text), by_std(&text), "for {:?}", text);
    }
}

#[test]
fn spellings_of_infinity_agree_with_std() {
    let word = ['i', 'n', 'f', 'i', 'n', 'i', 't', 'y'];
    for mask in 0..256u32 {
        let mut text = String::new();
        for (i, c) in word.iter().enumerate() {
            if mask & (1 << i) != 0 {
                text.push(c.to_ascii_uppercase());
            } else {
                text.push(*c);
            }
        }
        assert_eq!(check_float(&text), Ok(()), "for {:?}", text);
        assert_eq!(check_float(&text), by_std(&text), "for {:?}", text);
        let signed = format!("-{}", text);
        assert_eq!(check_float(&signed), by_std(&signed), "for {:?}", signed);
        let longer = format!("{}y", text);
        assert_eq!(check_float(&longer), by_std(&longer), "for {:?}", longer);
        let shorter = &text[..7];
        assert_eq!(check_float(shorter), by_std(shorter), "for {:?}", shorter);
    }
    for c in 0u8..128 {
        let text = format!("infinit{}", c as char);
        assert_eq!(check_float(&text), by_std(&text), "for {:?}", text);
        let text = format!("{}nf", c as char);
        assert_eq!(check_float(&text), by_std(&text), "for {:?}", text);
        let text = format!("1{}5", c as char);
        assert_eq!(check_float(&text), by_std(&text), "for {:?}", text);
    }
}
