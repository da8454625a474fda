//! The classifier: whether a file is a managed secret file, and in which
//! form it currently is. A pure inspection of what was observed of the file.

use vstd::prelude::*;
use crate::scan::{contains, contains_seq, ends_with, has_suffix};

verus! {

/// The UTF-8 bytes of a text.
pub open spec fn utf8(text: Seq<char>) -> Seq<u8> {
    vstd::utf8::encode_utf8(text)
}

/// Start of the metadata block that the encryption tool appends to a file.
pub open spec fn header_marker() -> Seq<u8> {
    utf8("sops:"@)
}

/// Start of an inline ciphertext value.
pub open spec fn cipher_marker() -> Seq<u8> {
    utf8("ENC["@)
}

/// Metadata key of the encrypted-field convention.
pub open spec fn suffix_marker() -> Seq<u8> {
    utf8("encrypted_suffix"@)
}

/// What is known of a file.
#[derive(Clone, Copy, Debug, PartialEq, Eq, Structural)]
pub enum Classification {
    /// Not classified yet.
    Unknown,
    /// A managed secret file whose secrets are readable.
    PlaintextSecret,
    /// A managed secret file in encrypted form.
    CiphertextSecret,
    /// Not a file this system is responsible for.
    NotManaged,
}

/// What was read of a file when it was looked at.
#[derive(Debug, PartialEq, Eq)]
pub struct FileObservation {
    /// The path names an existing regular file.
    pub is_regular_file: bool,
    /// Last component of the path, if it has one that is valid text.
    pub file_name: Option<String>,
    /// The file's bytes, or `None` if they could not be read.
    pub content: Option<Vec<u8>>,
}

/// A `FileObservation` as plain values; the name is given by its bytes.
pub struct ObservationView {
    pub is_regular_file: bool,
    pub file_name: Option<Seq<u8>>,
    pub content: Option<Seq<u8>>,
}

impl View for FileObservation {
    type V = ObservationView;

    open spec fn view(&self) -> ObservationView {
        ObservationView {
            is_regular_file: self.is_regular_file,
            file_name: match self.file_name {
                Some(name) => Some(utf8(name@)),
                None => None,
            },
            content: match self.content {
                Some(bytes) => Some(bytes@),
                None => None,
            },
        }
    }
}

/// `name` ends with one of `suffixes`.
pub open spec fn name_is_listed(suffixes: Seq<Seq<u8>>, name: Seq<u8>) -> bool {
    exists|i: int| 0 <= i < suffixes.len() && has_suffix(name, #[trigger] suffixes[i])
}

/// The content carries the tool's markers: the metadata header together with
/// an inline ciphertext, or the encrypted-field key.
pub open spec fn content_is_marked(content: Seq<u8>) -> bool {
    ||| contains_seq(content, header_marker()) && contains_seq(content, cipher_marker())
    ||| contains_seq(content, suffix_marker())
}

/// The classification of a file, by its rules in order of priority: only an
/// existing regular file with a name and readable content is managed at all;
/// it is managed if its name ends with a listed suffix, or else if its content
/// is marked; a managed file is ciphertext exactly if an inline ciphertext
/// stands in it.
pub open spec fn classification_of(suffixes: Seq<Seq<u8>>, file: ObservationView) -> Classification {
    if !file.is_regular_file || file.file_name is None || file.content is None {
        Classification::NotManaged
    } else if name_is_listed(suffixes, file.file_name->0) || content_is_marked(file.content->0) {
        if contains_seq(file.content->0, cipher_marker()) {
            Classification::CiphertextSecret
        } else {
            Classification::PlaintextSecret
        }
    } else {
        Classification::NotManaged
    }
}

/// The bytes of each suffix of a list.
pub open spec fn suffix_bytes(suffixes: Seq<String>) -> Seq<Seq<u8>> {
    Seq::new(suffixes.len(), |i: int| utf8(suffixes[i]@))
}

/// The suffixes that mark a managed file when no others are configured.
pub open spec fn default_suffixes() -> Seq<Seq<u8>> {
    seq![
        utf8(".sops.yaml"@),
        utf8(".sops.json"@),
        utf8(".enc.yaml"@),
        utf8(".enc.json"@),
        utf8(".sops"@),
    ]
}

/// The default suffix list.
pub fn default_suffix_list() -> (list: Vec<String>)
    ensures
        suffix_bytes(list@) == default_suffixes(),
{
    let mut list: Vec<String> = Vec::new();
    list.push(".sops.yaml".to_owned());
    list.push(".sops.json".to_owned());
    list.push(".enc.yaml".to_owned());
    list.push(".enc.json".to_owned());
    list.push(".sops".to_owned());
    assert(suffix_bytes(list@) =~= default_suffixes());
    list
}

/// Whether `name` ends with one of `suffixes`.
pub fn name_matches(suffixes: &Vec<String>, name: &str) -> (listed: bool)
    ensures
        listed == name_is_listed(suffix_bytes(suffixes@), utf8(name@)),
{
    let mut i: usize = 0;
    while i < suffixes.len()
        invariant
            i <= suffixes.len(),
            forall|j: int| 0 <= j < i ==> !has_suffix(utf8(name@), #[trigger] suffix_bytes(suffixes@)[j]),
        decreases suffixes.len() - i,
    {
        if ends_with(name.as_bytes(), suffixes[i].as_str().as_bytes()) {
            assert(has_suffix(utf8(name@), suffix_bytes(suffixes@)[i as int]));
            return true;
        }
        i += 1;
    }
    false
}

/// Whether the content carries the tool's markers.
pub fn content_marked(content: &[u8]) -> (marked: bool)
    ensures
        marked == content_is_marked(content@),
{
    (contains(content, "sops:".as_bytes()) && contains(content, "ENC[".as_bytes()))
        || contains(content, "encrypted_suffix".as_bytes())
}

/// Classifies a file from what was observed of it.
pub fn classify(suffixes: &Vec<String>, file: &FileObservation) -> (class: Classification)
    ensures
        class == classification_of(suffix_bytes(suffixes@), file@),
        class != Classification::Unknown,
{
    if !file.is_regular_file {
        return Classification::NotManaged;
    }
    match (&file.file_name, &file.content) {
        (Some(name), Some(content)) => {
            if name_matches(suffixes, name.as_str()) || content_marked(content.as_slice()) {
                if contains(content.as_slice(), "ENC[".as_bytes()) {
                    Classification::CiphertextSecret
                } else {
                    Classification::PlaintextSecret
                }
            } else {
                Classification::NotManaged
            }
        },
        _ => Classification::NotManaged,
    }
}

} // verus!
