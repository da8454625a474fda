use zed_sops::classifier::{
    classify, content_marked, default_suffix_list, name_matches, Classification, FileObservation,
};
use zed_sops::scan::{contains, ends_with, matches_at};
use zed_sops::sops::SopsExtension;

fn seen(name: &str, content: &[u8]) -> FileObservation {
    FileObservation {
        is_regular_file: true,
        file_name: Some(name.to_string()),
        content: Some(content.to_vec()),
    }
}

#[test]
fn contains_finds_a_needle_anywhere() {
    assert!(contains(b"key: ENC[AES256_GCM]", b"ENC["));
    assert!(contains(b"ENC[", b"ENC["));
    assert!(contains(b"xxENC[", b"ENC["));
    assert!(!contains(b"key: value", b"ENC["));
    assert!(!contains(b"ENC", b"ENC["));
    assert!(!contains(b"E N C [", b"ENC["));
}

#[test]
fn contains_takes_the_empty_needle_everywhere() {
    assert!(contains(b"", b""));
    assert!(contains(b"abc", b""));
    assert!(!contains(b"", b"a"));
}

#[test]
fn matches_at_checks_one_offset() {
    assert!(matches_at(b"abcabc", b"bc", 1));
    assert!(matches_at(b"abcabc", b"bc", 4));
    assert!(!matches_at(b"abcabc", b"bc", 0));
    assert!(!matches_at(b"abcabc", b"bc", 5));
    assert!(!matches_at(b"abcabc", b"bc", 6));
    assert!(!matches_at(b"abcabc", b"bc", 7));
    assert!(matches_at(b"abc", b"", 3));
    assert!(!matches_at(b"abc", b"", 4));
    assert!(!matches_at(b"abc", b"bc", usize::MAX));
}

#[test]
fn ends_with_checks_the_tail() {
    assert!(ends_with(b"secrets.sops.yaml", b".sops.yaml"));
    assert!(ends_with(b".sops", b".sops"));
    assert!(ends_with(b"anything", b""));
    assert!(!ends_with(b"secrets.sops.yaml.bak", b".sops.yaml"));
    assert!(!ends_with(b"sops", b".sops"));
}

#[test]
fn default_suffixes_are_the_five() {
    assert_eq!(
        default_suffix_list(),
        vec![
            ".sops.yaml".to_string(),
            ".sops.json".to_string(),
            ".enc.yaml".to_string(),
            ".enc.json".to_string(),
            ".sops".to_string(),
        ]
    );
}

#[test]
fn names_match_by_each_default_suffix() {
    let suffixes = default_suffix_list();
    assert!(name_matches(&suffixes, "secrets.sops.yaml"));
    assert!(name_matches(&suffixes, "secrets.sops.json"));
    assert!(name_matches(&suffixes, "db.enc.yaml"));
    assert!(name_matches(&suffixes, "db.enc.json"));
    assert!(name_matches(&suffixes, "token.sops"));
    assert!(name_matches(&suffixes, ".sops"));
    assert!(!name_matches(&suffixes, "config.yaml"));
    assert!(!name_matches(&suffixes, "secrets.sops.yml"));
    assert!(!name_matches(&suffixes, "sops"));
    assert!(!name_matches(&suffixes, ""));
}

#[test]
fn names_match_a_configured_list_only() {
    let suffixes = vec![".secret".to_string()];
    assert!(name_matches(&suffixes, "api.secret"));
    assert!(!name_matches(&suffixes, "secrets.sops.yaml"));
    assert!(!name_matches(&Vec::new(), "secrets.sops.yaml"));
}

#[test]
fn content_is_marked_by_header_and_ciphertext_or_by_the_suffix_key() {
    assert!(content_marked(b"key: ENC[AES256_GCM,data:x]\nsops:\n  version: 3\n"));
    assert!(content_marked(b"sops:\n  encrypted_suffix: _enc\n"));
    assert!(content_marked(b"encrypted_suffix"));
    assert!(!content_marked(b"sops:\n  version: 3\n"));
    assert!(!content_marked(b"key: ENC[AES256_GCM,data:x]\n"));
    assert!(!content_marked(b"key: value\n"));
    assert!(!content_marked(b""));
}

#[test]
fn listed_name_with_ciphertext_is_ciphertext() {
    let suffixes = default_suffix_list();
    let file = seen("secrets.sops.yaml", b"sops:\n  ...\nkey: ENC[AES256_GCM,...]");
    assert_eq!(classify(&suffixes, &file), Classification::CiphertextSecret);
}

#[test]
fn listed_name_without_ciphertext_is_plaintext() {
    let suffixes = default_suffix_list();
    assert_eq!(classify(&suffixes, &seen("secrets.sops.yaml", b"key: value\n")), Classification::PlaintextSecret);
    assert_eq!(classify(&suffixes, &seen("secrets.sops.yaml", b"")), Classification::PlaintextSecret);
}

#[test]
fn unlisted_name_is_managed_by_its_content() {
    let suffixes = default_suffix_list();
    assert_eq!(
        classify(&suffixes, &seen("values.yaml", b"key: ENC[AES256_GCM,data:x]\nsops:\n  version: 3\n")),
        Classification::CiphertextSecret
    );
    assert_eq!(
        classify(&suffixes, &seen("values.yaml", b"key_enc: abc\nsops:\n  encrypted_suffix: _enc\n")),
        Classification::PlaintextSecret
    );
    assert_eq!(classify(&suffixes, &seen("values.yaml", b"key: ENC[AES256_GCM,data:x]\n")), Classification::NotManaged);
    assert_eq!(classify(&suffixes, &seen("values.yaml", b"sops:\n  version: 3\n")), Classification::NotManaged);
}

#[test]
fn new_file_without_markers_is_not_managed() {
    let suffixes = default_suffix_list();
    assert_eq!(classify(&suffixes, &seen("config.yaml", b"listen: 8080\n")), Classification::NotManaged);
}

#[test]
fn what_is_no_regular_file_is_not_managed() {
    let suffixes = default_suffix_list();
    let mut file = seen("secrets.sops.yaml", b"key: ENC[AES256_GCM,...]");
    file.is_regular_file = false;
    assert_eq!(classify(&suffixes, &file), Classification::NotManaged);
}

#[test]
fn unreadable_content_is_not_managed() {
    let suffixes = default_suffix_list();
    let file = FileObservation {
        is_regular_file: true,
        file_name: Some("secrets.sops.yaml".to_string()),
        content: None,
    };
    assert_eq!(classify(&suffixes, &file), Classification::NotManaged);
}

#[test]
fn a_path_without_a_name_is_not_managed() {
    let suffixes = default_suffix_list();
    let file = FileObservation {
        is_regular_file: true,
        file_name: None,
        content: Some(b"key: ENC[AES256_GCM,data:x]\nsops:\n".to_vec()),
    };
    assert_eq!(classify(&suffixes, &file), Classification::NotManaged);
}

#[test]
fn classify_never_answers_unknown() {
    let suffixes = default_suffix_list();
    for name in ["a.sops", "a.txt"] {
        for content in [&b"ENC["[..], &b"sops: ENC["[..], &b"x"[..]] {
            assert_ne!(classify(&suffixes, &seen(name, content)), Classification::Unknown);
        }
    }
}

#[test]
fn sops_encrypted_needs_the_header_and_an_inline_ciphertext() {
    assert!(SopsExtension::is_sops_encrypted("key: ENC[AES256_GCM,data:x]\nsops:\n  version: 3\n"));
    assert!(SopsExtension::is_sops_encrypted("sops:ENC["));
    assert!(!SopsExtension::is_sops_encrypted("sops:\n  version: 3\n"));
    assert!(!SopsExtension::is_sops_encrypted("key: ENC[AES256_GCM,data:x]\n"));
    assert!(!SopsExtension::is_sops_encrypted("encrypted_suffix: _enc\n"));
    assert!(!SopsExtension::is_sops_encrypted(""));
}

#[test]
fn a_key_that_begins_with_encrypted_is_no_ciphertext() {
    assert!(!SopsExtension::is_sops_encrypted("sops:\n  encrypted_regex: ^data$\nkey: value\n"));
    assert!(!SopsExtension::is_sops_encrypted("sops:\n  encrypted_suffix: _enc\n"));
}

#[test]
fn sops_encrypted_reads_text_beyond_ascii() {
    assert!(SopsExtension::is_sops_encrypted("schl\u{fc}ssel: ENC[AES256_GCM]\nsops:\n"));
    assert!(!SopsExtension::is_sops_encrypted("schl\u{fc}ssel: wert\n"));
}
