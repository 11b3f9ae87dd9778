//! Tests of the message formats, the value escaper, the string
//! helpers, and source-location rendering.

use sloggers::format::{BasicMsgFormat, DefaultMsgFormat, MsgFormatConfig, escape_rfc5424_value};
use sloggers::misc::{file_and_line, local_file_and_line, module_and_line};
use sloggers::strutil::{replace_all, u64_to_dec_string};
use sloggers::types::{LogRecord, Severity};

fn record(module: &str, file: &str, line: u32) -> LogRecord {
    LogRecord {
        severity: Severity::Info,
        message: "m".to_string(),
        kvs: Vec::new(),
        module: module.to_string(),
        file: file.to_string(),
        line,
    }
}

#[test]
fn test_rfc_5424_like_value_escaper() {
    fn case(input: &str, expected_output: &str) {
        assert_eq!(escape_rfc5424_value(input), expected_output);
    }

    // Test that each character is properly escaped.
    for c in &['\\', '"', ']'] {
        let ec = format!("\\{}", c);

        {
            let input = format!("{}", c);
            case(&*input, &*ec);
        }

        for at_start_count in 0..=2 {
            for at_mid_count in 0..=2 {
                for at_end_count in 0..=2 {
                    // First, we assemble the input and expected output strings.
                    let mut input = String::new();
                    let mut expected_output = String::new();

                    // Place the symbol(s) at the beginning of the strings.
                    input.extend(std::iter::repeat(c).take(at_start_count));
                    expected_output.extend(std::iter::repeat(&*ec).take(at_start_count));

                    // First plain text.
                    input.push_str("foo");
                    expected_output.push_str("foo");

                    // Middle symbol(s).
                    input.extend(std::iter::repeat(c).take(at_mid_count));
                    expected_output.extend(std::iter::repeat(&*ec).take(at_mid_count));

                    // Second plain text.
                    input.push_str("bar");
                    expected_output.push_str("bar");

                    // End symbol(s).
                    input.extend(std::iter::repeat(c).take(at_end_count));
                    expected_output.extend(std::iter::repeat(&*ec).take(at_end_count));

                    // Finally, test this combination.
                    case(&*input, &*expected_output);
                }
            }
        }
    }

    case("", "");
    case("foo", "foo");
    case("[foo]", "[foo\\]");
    case("\\\"]", "\\\\\\\"\\]"); // \"] becomes \\\"\]
}

#[test]
fn test_default_msg_format() {
    let pairs = vec![
        ("key1".to_string(), "value1".to_string()),
        ("key2".to_string(), "value2".to_string()),
    ];
    let result = DefaultMsgFormat.format("Hello, world!", &pairs);
    assert_eq!(result, "Hello, world! [key1=\"value1\" key2=\"value2\"]");
}

#[test]
fn default_msg_format_without_pairs_is_the_message() {
    let result = DefaultMsgFormat.format("Hello, world!", &Vec::new());
    assert_eq!(result, "Hello, world!");
}

#[test]
fn default_msg_format_escapes_values_not_keys() {
    let pairs = vec![("key".to_string(), "a]b\"c\\d".to_string())];
    let result = DefaultMsgFormat.format("msg", &pairs);
    assert_eq!(result, "msg [key=\"a\\]b\\\"c\\\\d\"]");
}

#[test]
fn basic_msg_format_discards_pairs() {
    let pairs = vec![("key1".to_string(), "value1".to_string())];
    assert_eq!(BasicMsgFormat.format("Hello, world!", &pairs), "Hello, world!");
    assert_eq!(
        MsgFormatConfig::Basic.format_message("Hello, world!", &pairs),
        "Hello, world!"
    );
    assert_eq!(
        MsgFormatConfig::default(),
        MsgFormatConfig::Default,
        "the default format keeps the pairs"
    );
}

#[test]
fn decimal_rendering_is_exact() {
    assert_eq!(u64_to_dec_string(0), "0");
    assert_eq!(u64_to_dec_string(7), "7");
    assert_eq!(u64_to_dec_string(10), "10");
    assert_eq!(u64_to_dec_string(1024), "1024");
    assert_eq!(u64_to_dec_string(u64::MAX), "18446744073709551615");
}

#[test]
fn replace_all_replaces_every_occurrence() {
    assert_eq!(replace_all("a{x}b{x}", "{x}", "1"), "a1b1");
    assert_eq!(replace_all("{x}{x}{x}", "{x}", "yy"), "yyyyyy");
    assert_eq!(replace_all("no token", "{x}", "1"), "no token");
    assert_eq!(replace_all("", "{x}", "1"), "");
    // Replacement is left to right and without overlap, as in
    // `str::replace`.
    assert_eq!(replace_all("aaa", "aa", "b"), "ba");
}

#[test]
fn module_and_line_forms() {
    let rec = record("my_app::mail", "src/mail.rs", 42);
    assert_eq!(module_and_line(&rec), "my_app::mail:42");
    assert_eq!(file_and_line(&rec), "src/mail.rs:42");
    // A relative file keeps the file form; an absolute one falls back
    // to the module form.
    assert_eq!(local_file_and_line(&rec), "src/mail.rs:42");
    let abs = record("my_app::mail", "/home/u/src/mail.rs", 42);
    assert_eq!(local_file_and_line(&abs), "my_app::mail:42");
}

#[test]
fn duplicate_keys_both_appear() {
    // Key-value pairs keep their order, and duplicate keys are not
    // collapsed: both occurrences appear.
    let pairs = vec![
        ("key".to_string(), "first".to_string()),
        ("key".to_string(), "second".to_string()),
    ];
    let result = DefaultMsgFormat.format("msg", &pairs);
    assert_eq!(result, "msg [key=\"first\" key=\"second\"]");
}
