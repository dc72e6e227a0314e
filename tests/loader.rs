use orbital_common::loader::{decode_docs, docs_file_path, docs_text_from_read, units_from_bytes};
use orbital_common::{CommonError, DocsError};

fn utf16le(text: &str) -> Vec<u8> {
    text.encode_utf16().flat_map(|u| u.to_le_bytes()).collect()
}

#[test]
fn odd_length_is_a_format_error() {
    let mut bytes = utf16le("[]");
    bytes.push(0);
    match decode_docs(&bytes) {
        Err(DocsError::InvalidFormat { reason }) => {
            assert_eq!(reason, "File is not UTF-16 encoded/is missing bytes.")
        }
        other => panic!("unexpected {:?}", other),
    }
    assert!(matches!(decode_docs(&vec![0x5b]), Err(DocsError::InvalidFormat { .. })));
}

#[test]
fn missing_file_is_an_unknown_locale() {
    match docs_text_from_read("de-DE", "/docs/de-DE.json", None) {
        Err(CommonError::Docs { error: DocsError::UnknownLocale { locale } }) => assert_eq!(locale, "de-DE"),
        other => panic!("unexpected {:?}", other),
    }
}

#[test]
fn read_failure_keeps_the_reason() {
    match docs_text_from_read("en-US", "/docs/en-US.json", Some(Err("permission denied".to_string()))) {
        Err(CommonError::Docs { error: DocsError::FailedRead { path, reason } }) => {
            assert_eq!(path, "/docs/en-US.json");
            assert_eq!(reason, "permission denied");
        }
        other => panic!("unexpected {:?}", other),
    }
}

#[test]
fn byte_order_mark_is_stripped() {
    let bytes = utf16le("\u{feff}[{\"a\": \"é𝄞\"}]");
    assert_eq!(decode_docs(&bytes).expect("decodes"), "[{\"a\": \"é𝄞\"}]");
    let plain = utf16le("[1]");
    assert_eq!(decode_docs(&plain).expect("decodes"), "[1]");
    assert_eq!(decode_docs(&vec![]).expect("decodes"), "");
}

#[test]
fn unpaired_surrogate_is_a_format_error() {
    let bytes = vec![0x00, 0xD8, 0x41, 0x00];
    match decode_docs(&bytes) {
        Err(DocsError::InvalidFormat { reason }) => assert!(reason.starts_with("Bad UTF-16 encoding: ")),
        other => panic!("unexpected {:?}", other),
    }
}

#[test]
fn units_are_little_endian() {
    assert_eq!(units_from_bytes(&vec![0x34, 0x12, 0xFF, 0x00]), vec![0x1234, 0x00FF]);
}

#[test]
fn decode_then_encode_round_trips() {
    let file_text = "\u{feff}[{\"NativeClass\": \"x\", \"Classes\": []}, \"𝄞\"]";
    let bytes = utf16le(file_text);
    let text = decode_docs(&bytes).expect("decodes");
    let again = utf16le(&format!("\u{feff}{}", text));
    assert_eq!(again, bytes);
}

#[test]
fn file_path_is_locale_dot_json() {
    assert_eq!(docs_file_path("/games/Docs", "en-US"), "/games/Docs/en-US.json");
    assert_eq!(docs_file_path("/games/Docs/", "fr"), "/games/Docs/fr.json");
}

#[test]
fn mod_test_docs_initial_parse() {
    let bytes = utf16le("\u{feff}[{\"NativeClass\": \"/Script/CoreUObject.Class'/Script/FactoryGame.FGRecipe'\", \"Classes\": []}]");
    let text = docs_text_from_read("en-US", "/docs/en-US.json", Some(Ok(bytes))).expect("decodes");
    let result: serde_json::Value = serde_json::from_str(&text).expect("json");
    assert!(result.is_array(), "Expected array");
}

#[test]
fn sf_docs_test_docs_initial_parse() {
    let bytes = utf16le("[{\"NativeClass\": \"/Script/CoreUObject.Class'/Script/FactoryGame.FGSchematic'\", \"Classes\": [{\"ClassName\": \"Schematic_1_C\"}]}]");
    let text = docs_text_from_read("en-US", "/docs/en-US.json", Some(Ok(bytes))).expect("decodes");
    let result: serde_json::Value = serde_json::from_str(&text).expect("json");
    assert!(result.is_array(), "Expected array");
}
