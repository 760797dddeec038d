use service::text::{
    convert_args, get_optional_utf16, get_utf16, join_arguments, truncate_at_nul,
};

fn expected_wide(text: &str) -> Vec<u16> {
    let mut wide: Vec<u16> = text.encode_utf16().collect();
    wide.push(0);
    wide
}

#[test]
fn utf16_of_ascii() {
    assert_eq!(get_utf16("abc"), vec![97, 98, 99, 0]);
}

#[test]
fn utf16_of_the_empty_string_is_the_terminator() {
    assert_eq!(get_utf16(""), vec![0]);
}

#[test]
fn utf16_of_a_character_above_the_basic_plane_is_a_surrogate_pair() {
    assert_eq!(get_utf16("\u{1D11E}"), vec![0xD834, 0xDD1E, 0]);
    assert_eq!(get_utf16("\u{10000}"), vec![0xD800, 0xDC00, 0]);
    assert_eq!(get_utf16("\u{10FFFF}"), vec![0xDBFF, 0xDFFF, 0]);
}

#[test]
fn utf16_at_the_edge_of_the_basic_plane() {
    assert_eq!(get_utf16("\u{FFFF}"), vec![0xFFFF, 0]);
    assert_eq!(get_utf16("\u{D7FF}\u{E000}"), vec![0xD7FF, 0xE000, 0]);
}

#[test]
fn utf16_agrees_with_the_standard_encoder() {
    for text in ["example-service", "Dienst \u{e4}\u{f6}\u{fc}", "\u{65e5}\u{672c}\u{8a9e}", "a\u{1F600}b", ""] {
        assert_eq!(get_utf16(text), expected_wide(text));
    }
}

#[test]
fn optional_utf16() {
    assert_eq!(get_optional_utf16(None), None);
    assert_eq!(get_optional_utf16(Some("ab")), Some(vec![97, 98, 0]));
    assert_eq!(get_optional_utf16(Some("")), Some(vec![0]));
}

#[test]
fn truncation_stops_at_the_first_zero() {
    assert_eq!(truncate_at_nul(&vec![1, 2, 0, 3, 0]), vec![1, 2]);
    assert_eq!(truncate_at_nul(&vec![0, 1]), Vec::<u16>::new());
    assert_eq!(truncate_at_nul(&vec![5, 6]), vec![5, 6]);
    assert_eq!(truncate_at_nul(&Vec::new()), Vec::<u16>::new());
}

#[test]
fn arguments_are_decoded() {
    let argv = vec![expected_wide("example-service"), expected_wide("--flag"), expected_wide("")];
    assert_eq!(
        convert_args(&argv),
        vec!["example-service".to_string(), "--flag".to_string(), String::new()]
    );
}

#[test]
fn arguments_end_at_their_first_zero() {
    let argv = vec![vec![104, 105, 0, 120, 121, 0]];
    assert_eq!(convert_args(&argv), vec!["hi".to_string()]);
}

#[test]
fn arguments_are_decoded_lossily() {
    let argv = vec![vec![0xD834, 0xDD1E, 0x6d, 0xDD1E, 0x69, 0xD834, 0]];
    assert_eq!(convert_args(&argv), vec!["\u{1D11E}m\u{FFFD}i\u{FFFD}".to_string()]);
}

#[test]
fn no_arguments_give_no_strings() {
    assert_eq!(convert_args(&Vec::new()), Vec::<String>::new());
}

#[test]
fn encoding_and_decoding_round_trip() {
    for text in ["example-service", "a\u{1F600}b", "\u{e4}"] {
        assert_eq!(convert_args(&vec![get_utf16(text)]), vec![text.to_string()]);
    }
}

#[test]
fn arguments_are_joined_by_spaces() {
    assert_eq!(join_arguments(&Vec::new()), "");
    assert_eq!(join_arguments(&vec!["a".to_string()]), "a");
    assert_eq!(join_arguments(&vec!["a".to_string(), "b".to_string()]), "a b");
    assert_eq!(
        join_arguments(&vec!["a".to_string(), String::new(), "c d".to_string()]),
        "a  c d"
    );
}

#[test]
fn joining_agrees_with_the_standard_join() {
    let arguments = vec!["example-arg1".to_string(), "arg2".to_string(), "x".to_string()];
    assert_eq!(join_arguments(&arguments), arguments.join(" "));
}

/// The lossy decoding, written out: pairs are decoded, every other surrogate
/// gives the replacement character.
fn decoded(units: &[u16]) -> String {
    let mut text = String::new();
    let mut i = 0;
    while i < units.len() {
        let unit = units[i] as u32;
        let high = (0xD800..=0xDBFF).contains(&unit);
        let low = (0xDC00..=0xDFFF).contains(&unit);
        if high && i + 1 < units.len() && (0xDC00..=0xDFFF).contains(&(units[i + 1] as u32)) {
            let value = 0x10000 + (unit - 0xD800) * 0x400 + (units[i + 1] as u32 - 0xDC00);
            text.push(char::from_u32(value).unwrap());
            i += 2;
        } else if high || low {
            text.push('\u{FFFD}');
            i += 1;
        } else {
            text.push(char::from_u32(unit).unwrap());
            i += 1;
        }
    }
    text
}

#[test]
fn lossy_decoding_is_as_stated_on_every_mix_of_surrogates() {
    let units: [u16; 9] = [0x41, 0xD7FF, 0xD800, 0xDBFF, 0xDC00, 0xDFFF, 0xE000, 0xFFFF, 0x20AC];
    for a in units {
        assert_eq!(convert_args(&vec![vec![a]]), vec![decoded(&[a])]);
        for b in units {
            assert_eq!(convert_args(&vec![vec![a, b]]), vec![decoded(&[a, b])]);
            for c in units {
                for d in units {
                    let argument = vec![a, b, c, d];
                    assert_eq!(convert_args(&vec![argument.clone()]), vec![decoded(&argument)]);
                }
            }
        }
    }
}

#[test]
fn replacement_character_is_the_standard_one() {
    assert_eq!(service::text::REPLACEMENT_CHARACTER, char::REPLACEMENT_CHARACTER);
}
