use roku_agent_runtime::bytes::{byte_count, char_bytes, cut_text};
use roku_agent_runtime::json::{Json, JsonField, JsonNumber};
use roku_agent_runtime::json_text::render_json;
use roku_agent_runtime::literal::number_literal;
use roku_agent_runtime::number::{decimal_signed_text, decimal_text, parse_u64_bounded};
use roku_agent_runtime::order::is_before;
use roku_agent_runtime::path::{candidate_path_segments, file_name_from_path};
use roku_agent_runtime::split::{join_text, lines_text, split_text, words_text};
use roku_agent_runtime::text::{
    contains_text, ends_with_text, starts_with_text, strip_prefix_text,
};
use roku_agent_runtime::trim::{
    is_space_char, lower_char, lower_text, replace_text, trim_end_text, trim_set_text,
    trim_start_text, trim_text,
};
use std::path::PathBuf;

const SAMPLES: &[&str] = &[
    "",
    " ",
    "a",
    "  lead and trail \t\r\n",
    "\u{3000}wide\u{2003}space\u{a0}",
    "\u{b}\u{c}\u{85}\u{1680}\u{2028}\u{2029}\u{202f}\u{205f}",
    "not\u{200b}space\u{feff}",
    "one two  three\nfour",
    "line\r\nline\rline\n\nlast",
    "ends with newline\n",
    "\n",
    "\r\n",
    "a\r",
    "GROSS Straße ÄÖ İ",
    "aaa",
    "aaaa",
    "abababa",
    "sla/sh/ed//path/./x/../y.txt",
    "/absolute/path",
    "./relative",
    "trailing/",
    "..",
    ".",
    "/",
    "日本語 テキスト",
    "emoji 🎉🎊 end",
    "\"quoted\" \\ back\u{0}\u{1f}\u{7f}\u{8}\u{c}\n\t",
];

const NUMBERS: &[&str] = &[
    "0", "00", "7", "+7", "-7", "+", "-", "", " 7", "7 ", "007", "18446744073709551615",
    "18446744073709551616", "99999999999999999999999", "4294967295", "4294967296", "1_000", "1.0",
    "0x10", "++1", "٣",
];

#[test]
fn every_character_is_classified_as_by_the_standard_library() {
    for c in (0..=u32::from(char::MAX)).filter_map(char::from_u32) {
        assert_eq!(is_space_char(c), c.is_whitespace(), "{c:?}");
        assert_eq!(lower_char(c), c.to_ascii_lowercase(), "{c:?}");
        assert_eq!(char_bytes(c), c.len_utf8(), "{c:?}");
    }
}

#[test]
fn trimming_and_case_follow_the_standard_library() {
    for s in SAMPLES {
        assert_eq!(trim_text(s), s.trim(), "{s:?}");
        assert_eq!(trim_start_text(s), s.trim_start(), "{s:?}");
        assert_eq!(trim_end_text(s), s.trim_end(), "{s:?}");
        assert_eq!(lower_text(s), s.to_ascii_lowercase(), "{s:?}");
        assert_eq!(byte_count(s), s.len(), "{s:?}");
        assert_eq!(
            trim_set_text(s, "a \"/."),
            s.trim_matches(|c: char| matches!(c, 'a' | ' ' | '"' | '/' | '.')),
            "{s:?}"
        );
    }
}

#[test]
fn splitting_follows_the_standard_library() {
    for s in SAMPLES {
        assert_eq!(words_text(s), s.split_whitespace().collect::<Vec<_>>(), "{s:?}");
        assert_eq!(lines_text(s), s.lines().collect::<Vec<_>>(), "{s:?}");
        assert_eq!(split_text(s, '/'), s.split('/').collect::<Vec<_>>(), "{s:?}");
        let parts = split_text(s, 'a');
        assert_eq!(join_text(&parts, "--"), parts.join("--"), "{s:?}");
    }
}

#[test]
fn searching_follows_the_standard_library() {
    for s in SAMPLES {
        for p in SAMPLES {
            assert_eq!(contains_text(s, p), s.contains(p), "{s:?} {p:?}");
            assert_eq!(starts_with_text(s, p), s.starts_with(p), "{s:?} {p:?}");
            assert_eq!(ends_with_text(s, p), s.ends_with(p), "{s:?} {p:?}");
            assert_eq!(
                strip_prefix_text(s, p),
                s.strip_prefix(p).map(str::to_string),
                "{s:?} {p:?}"
            );
            assert_eq!(is_before(s, p), *s < *p, "{s:?} {p:?}");
            assert_eq!(replace_text(s, p, "<>"), s.replace(p, "<>"), "{s:?} {p:?}");
        }
        assert_eq!(replace_text(s, "aa", "a"), s.replace("aa", "a"), "{s:?}");
        assert_eq!(replace_text(s, "aba", "b"), s.replace("aba", "b"), "{s:?}");
    }
}

#[test]
fn numbers_follow_the_standard_library() {
    for s in NUMBERS {
        assert_eq!(parse_u64_bounded(s, u64::MAX), s.parse::<u64>().ok(), "{s:?}");
        assert_eq!(
            parse_u64_bounded(s, u64::from(u32::MAX)),
            s.parse::<u32>().ok().map(u64::from),
            "{s:?}"
        );
    }
    for n in [0, 9, 10, 99, 100, 12_345, u64::MAX] {
        assert_eq!(decimal_text(n), n.to_string());
    }
    for n in [0, -1, 42, i64::MIN, i64::MAX] {
        assert_eq!(decimal_signed_text(n), n.to_string());
    }
}

#[test]
fn number_literals_are_those_that_the_standard_library_parses() {
    for s in [
        "0", "0.5", ".5", "5.", ".", "-0.5", "+1", "1e3", "1E-3", "1e", "e1", "1e+", "inf", "-inf",
        "+Infinity", "INFINITY", "infinit", "nan", "NaN", "-nan", "nanx", "", " 1", "1 ", "1_0",
        "0x1", "--1", "1.2.3", "1e5.5", "٣", "in", "infinityx",
    ] {
        assert_eq!(number_literal(s), s.parse::<f32>().is_ok(), "{s:?}");
    }
}

#[test]
fn cuts_end_at_a_character_boundary() {
    for s in SAMPLES {
        for max in 0..=s.len() + 2 {
            let mut end = max.min(s.len());
            while !s.is_char_boundary(end) {
                end -= 1;
            }
            assert_eq!(cut_text(s, max), s[..end], "{s:?} {max}");
        }
    }
}

#[test]
fn paths_are_taken_apart_as_by_the_standard_library() {
    for s in SAMPLES {
        assert_eq!(
            file_name_from_path(s),
            PathBuf::from(s).file_name().and_then(|n| n.to_str()).map(str::to_string),
            "{s:?}"
        );
        let segments: Vec<String> = PathBuf::from(s)
            .components()
            .filter_map(|c| c.as_os_str().to_str().map(str::to_string))
            .collect();
        assert_eq!(candidate_path_segments(s), segments, "{s:?}");
    }
}

#[test]
fn json_is_written_as_serde_json_writes_it() {
    let fields: Vec<JsonField> = SAMPLES
        .iter()
        .enumerate()
        .map(|(i, s)| JsonField { name: format!("{i:02}"), value: Json::Text(s.to_string()) })
        .chain([
            JsonField { name: "n".to_string(), value: Json::Number(JsonNumber::Unsigned(7)) },
            JsonField { name: "o".to_string(), value: Json::Number(JsonNumber::Negative(-7)) },
            JsonField {
                name: "p".to_string(),
                value: Json::Number(JsonNumber::Fraction("0.5".to_string())),
            },
            JsonField { name: "q".to_string(), value: Json::Null },
            JsonField {
                name: "r".to_string(),
                value: Json::Array(vec![Json::Bool(true), Json::Object(Vec::new())]),
            },
        ])
        .collect();
    let written = render_json(&Json::Object(fields));
    let read: serde_json::Value = serde_json::from_str(&written).expect("valid JSON");
    assert_eq!(read.to_string(), written);
    for (i, s) in SAMPLES.iter().enumerate() {
        assert_eq!(read[format!("{i:02}").as_str()], *s);
    }
}
