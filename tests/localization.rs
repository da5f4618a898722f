use aes::cipher::block_padding::Pkcs7;
use aes::cipher::{BlockEncryptMut, KeyInit};
use base64::Engine;
use indexmap::IndexMap;
use silksong_data_dump::codec::{decrypt, DecodeError};
use silksong_data_dump::entries::parse_entries;
use silksong_data_dump::lang::{LocalizedString, LookupError};
use silksong_data_dump::localization::{
    decode_sheet, decode_sheet_bytes, get_language_keys, resource_sheet, SheetError, TextResource,
    LANGUAGE_ASSET_KEY,
};
use silksong_data_dump::table::Language;

const TEST_KEY: [u8; 32] = *b"0123456789abcdef0123456789abcdef";

fn encrypt(key: &[u8; 32], plain: &[u8]) -> Vec<u8> {
    let mut out = vec![0u8; plain.len() + 16];
    let ct = ecb::Encryptor::<aes::Aes256>::new(key.into())
        .encrypt_padded_b2b_mut::<Pkcs7>(plain, &mut out)
        .unwrap();
    ct.to_vec()
}

fn markup(entries: &[(&str, &str)]) -> String {
    let mut s = String::new();
    for (n, v) in entries {
        s.push_str(&format!("<entry name=\"{n}\">{v}</entry>"));
    }
    s
}

fn payload(key: &[u8; 32], text: &str) -> String {
    base64::prelude::BASE64_STANDARD.encode(encrypt(key, text.as_bytes()))
}

fn resource(name: &str, script: Option<String>) -> TextResource {
    TextResource { name: name.to_string(), script }
}

fn pairs(v: &[(String, String)]) -> Vec<(&str, &str)> {
    v.iter().map(|(a, b)| (a.as_str(), b.as_str())).collect()
}

#[test]
fn language_key_is_the_asset_key() {
    assert_eq!(&LANGUAGE_ASSET_KEY, b"UKu52ePUBwetZ9wNX88o54dnfKRu0T1l");
}

#[test]
fn resource_names_split_at_first_underscore() {
    assert_eq!(
        resource_sheet("languages/en_Dialogue"),
        Some(("en".to_string(), "Dialogue".to_string()))
    );
    assert_eq!(
        resource_sheet("languages/EN_a_b"),
        Some(("EN".to_string(), "a_b".to_string()))
    );
    assert_eq!(resource_sheet("languages/nounderscore"), None);
    assert_eq!(resource_sheet("textures/en_Dialogue"), None);
    assert_eq!(resource_sheet("languages"), None);
}

#[test]
fn decrypt_recovers_text() {
    let ct = encrypt(&TEST_KEY, "héllo wörld".as_bytes());
    assert_ne!(ct, "héllo wörld".as_bytes());
    assert_eq!(decrypt(&TEST_KEY, &ct).unwrap(), "héllo wörld");
}

#[test]
fn decrypt_unaligned_is_bad_padding() {
    assert_eq!(decrypt(&TEST_KEY, &[1u8; 15]), Err(DecodeError::BadPadding));
}

#[test]
fn decrypt_non_utf8_is_invalid() {
    let ct = encrypt(&TEST_KEY, &[0xff, 0xfe, 0x41]);
    assert_eq!(decrypt(&TEST_KEY, &ct), Err(DecodeError::InvalidUtf8));
}

#[test]
fn parse_entries_reads_all_forms() {
    let text = "<?xml version=\"1.0\"?>\n<entries>\n<entry name=\"A\">Hello</entry>\n\
                <entry name=\"B\"/><entry name=\"C\">  spaced out \n</entry>\
                <entry name=\"D\">a &amp; b &lt;i&gt;</entry><entry name=\"E\"></entry></entries>";
    let got = parse_entries(text).unwrap();
    assert_eq!(
        pairs(&got),
        vec![("A", "Hello"), ("B", ""), ("C", "spaced out"), ("D", "a & b <i>"), ("E", "")]
    );
}

#[test]
fn parse_entries_rejects_malformed() {
    assert_eq!(parse_entries("<entry name=\"A\">unclosed"), None);
    assert_eq!(parse_entries("<entry name=\"A\">x</other>"), None);
    assert_eq!(parse_entries("<entry name=\"A\">&bogus;</entry>"), None);
    assert_eq!(parse_entries("<entry name=\"A"), None);
    assert_eq!(parse_entries("no entries here").unwrap().len(), 0);
}

#[test]
fn decrypt_then_parse_round_trip() {
    let entries = [("GREETING", "Hello, traveller"), ("EMPTY", ""), ("UNICODE", "Ça va? 🕷")];
    let ct = encrypt(&TEST_KEY, markup(&entries).as_bytes());
    let got = decode_sheet_bytes(&TEST_KEY, &ct).unwrap();
    assert_eq!(pairs(&got), entries.to_vec());
    let script = base64::prelude::BASE64_STANDARD.encode(&ct);
    let got = decode_sheet(&TEST_KEY, &script).unwrap();
    assert_eq!(pairs(&got), entries.to_vec());
}

#[test]
fn decode_sheet_errors() {
    assert_eq!(decode_sheet(&TEST_KEY, "not base64!"), Err(SheetError::BadBase64));
    let wrong = payload(&LANGUAGE_ASSET_KEY, &markup(&[("A", "b")]));
    match decode_sheet(&TEST_KEY, &wrong) {
        Err(SheetError::Decode(_)) | Err(SheetError::Malformed) => {},
        other => panic!("unexpected {other:?}"),
    }
    let bad = payload(&TEST_KEY, "<entry name=\"A\">x");
    assert_eq!(decode_sheet(&TEST_KEY, &bad), Err(SheetError::Malformed));
}

fn sample_table() -> IndexMap<String, Language> {
    let resources = vec![
        resource("languages/en_Dialogue", Some(payload(&TEST_KEY, &markup(&[("A", "Hello"), ("B", "Bye")])))),
        resource("textures/en_Dialogue", Some("ignored".to_string())),
        resource("languages/en_Menu", Some(payload(&TEST_KEY, &markup(&[("START", "Start")])))),
        resource("languages/en_Skipped", None),
        resource("languages/fr_Dialogue", Some(payload(&TEST_KEY, &markup(&[("A", "Bonjour")])))),
        resource("languages/en_dialogue", Some(payload(&TEST_KEY, &markup(&[("B", "Farewell"), ("C", "New")])))),
    ];
    get_language_keys(&resources, &TEST_KEY).unwrap()
}

#[test]
fn table_is_built_in_order_with_merge() {
    let table = sample_table();
    assert_eq!(table.keys().collect::<Vec<_>>(), vec!["en", "fr"]);
    let en = &table["en"];
    assert_eq!(en.keys().collect::<Vec<_>>(), vec!["dialogue", "menu"]);
    let dialogue: Vec<(&str, &str)> = en["dialogue"].iter().map(|(a, b)| (a.as_str(), b.as_str())).collect();
    assert_eq!(dialogue, vec![("A", "Hello"), ("B", "Farewell"), ("C", "New")]);
    assert_eq!(table["fr"]["dialogue"]["A"], "Bonjour");
}

#[test]
fn table_build_fails_with_resource_name() {
    let resources = vec![
        resource("languages/en_Dialogue", Some(payload(&TEST_KEY, &markup(&[("A", "Hello")])))),
        resource("languages/en_Broken", Some("%%%".to_string())),
        resource("languages/en_Later", Some("%%%".to_string())),
    ];
    let err = get_language_keys(&resources, &TEST_KEY).unwrap_err();
    assert_eq!(err.resource, "languages/en_Broken");
    assert_eq!(err.cause, SheetError::BadBase64);
    let resources = vec![resource("languages/en_Pad", Some(base64::prelude::BASE64_STANDARD.encode([7u8; 15])))];
    let err = get_language_keys(&resources, &TEST_KEY).unwrap_err();
    assert_eq!(err.cause, SheetError::Decode(DecodeError::BadPadding));
}

#[test]
fn sheet_lookup_ignores_case() {
    let table = sample_table();
    let en = &table["en"];
    let upper = LocalizedString { sheet: "Dialogue".to_string(), key: "A".to_string() };
    let lower = LocalizedString { sheet: "dialogue".to_string(), key: "A".to_string() };
    let shout = LocalizedString { sheet: "DIALOGUE".to_string(), key: "A".to_string() };
    assert_eq!(upper.get(en).unwrap(), "Hello");
    assert_eq!(lower.get(en).unwrap(), "Hello");
    assert_eq!(shout.get(en).unwrap(), "Hello");
}

#[test]
fn lookup_errors_and_unset_references() {
    let table = sample_table();
    let en = &table["en"];
    let unset = LocalizedString { sheet: String::new(), key: String::new() };
    assert_eq!(unset.try_get(en), Ok(None));
    assert_eq!(unset.get(en), Err(LookupError::EmptyReference));
    let half = LocalizedString { sheet: "Menu".to_string(), key: String::new() };
    assert_eq!(half.try_get(en), Err(LookupError::EmptyReference));
    let no_sheet = LocalizedString { sheet: "Nope".to_string(), key: "A".to_string() };
    assert_eq!(no_sheet.get(en), Err(LookupError::MissingSheet));
    let no_key = LocalizedString { sheet: "Menu".to_string(), key: "A".to_string() };
    assert_eq!(no_key.get(en), Err(LookupError::MissingKey));
    let ok = LocalizedString { sheet: "Menu".to_string(), key: "START".to_string() };
    assert_eq!(ok.try_get(en).unwrap().map(|s| s.as_str()), Some("Start"));
    assert_eq!(ok.to_text(), "Menu-START");
}
