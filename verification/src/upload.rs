//! The blob upload of a document: the storage key, the address under which
//! the file can be had, and the descriptor that the record keeps. The
//! randomness of the key is the `rand` crate's.

use crate::record::{DocumentRef, DocumentRefView, StorageLocation, StorageLocationView};
use crate::text::joined;
use rand::Rng;
use vstd::prelude::*;

verus! {

/// The number of characters of a storage key.
pub const KEY_LENGTH: u8 = 16;

/// The format under which every file is recorded.
pub const FILE_TYPE: &'static str = "pdf";

/// The content type under which every file is stored.
pub const CONTENT_TYPE: &'static str = "application/pdf";

/// Whether `c` is an ASCII letter or digit.
pub open spec fn is_alphanumeric(c: char) -> bool {
    ||| 'a' <= c <= 'z'
    ||| 'A' <= c <= 'Z'
    ||| '0' <= c <= '9'
}

/// Whether `key` has the shape of a storage key: sixteen ASCII letters and
/// digits.
pub open spec fn is_storage_key(key: Seq<char>) -> bool {
    &&& key.len() == KEY_LENGTH
    &&& forall|i: int| 0 <= i < key.len() ==> is_alphanumeric(#[trigger] key[i])
}

/// Calls `rand::thread_rng` and samples `rand::distributions::Alphanumeric`,
/// which yields ASCII letters and digits only, `len` times. Which characters
/// come is left open: two calls may differ. A machine that gives the
/// generator no entropy is not provided for.
#[verifier::external_body]
pub(crate) fn random_alphanumeric(len: u8) -> (s: String)
    ensures
        s@.len() == len,
        forall|i: int| 0 <= i < s@.len() ==> is_alphanumeric(#[trigger] s@[i]),
{
    rand::thread_rng().sample_iter(&rand::distributions::Alphanumeric).take(len.into()).map(
        char::from,
    ).collect()
}

/// A fresh storage key.
pub fn storage_key() -> (key: String)
    ensures
        is_storage_key(key@),
{
    random_alphanumeric(KEY_LENGTH)
}

/// The address under which the object `key` of `bucket` in `region` can be
/// had.
pub open spec fn location_of(bucket: Seq<char>, region: Seq<char>, key: Seq<char>) -> Seq<char> {
    "https://"@ + bucket + ".s3."@ + region + ".amazonaws.com/"@ + key
}

/// The address under which the object `key` of `bucket` in `region` can be
/// had.
pub fn file_url(bucket: &str, region: &str, key: &str) -> (url: String)
    ensures
        url@ == location_of(bucket@, region@, key@),
{
    let mut url = joined("https://", bucket);
    url.append(".s3.");
    url.append(region);
    url.append(".amazonaws.com/");
    url.append(key);
    url
}

/// The text, or nothing where there is none.
pub open spec fn or_empty(text: Option<Seq<char>>) -> Seq<char> {
    match text {
        Some(t) => t,
        None => Seq::empty(),
    }
}

/// The descriptor of a file of `file_size` bytes stored under `key` in
/// `bucket`, with what blob storage answered.
pub open spec fn document_ref_of(
    file_type: Seq<char>,
    key: Seq<char>,
    file_size: u64,
    bucket: Seq<char>,
    region: Seq<char>,
    e_tag: Option<Seq<char>>,
    server_side_encryption: Option<Seq<char>>,
) -> DocumentRefView {
    DocumentRefView {
        file_type: FILE_TYPE@,
        name: key,
        size: file_size,
        doc_type: file_type,
        s3: StorageLocationView {
            bucket,
            key,
            e_tag: or_empty(e_tag),
            location: location_of(bucket, region, key),
            server_side_encryption: or_empty(server_side_encryption),
        },
    }
}

/// The text, or the empty string where there is none.
fn text_or_empty(text: Option<String>) -> (s: String)
    ensures
        s@ == or_empty(text.deep_view()),
{
    match text {
        Some(t) => t,
        None => String::new(),
    }
}

/// Describes a file that was stored: the document of logical type
/// `file_type`, of `file_size` bytes, kept under `key` in `bucket`, with the
/// entity tag and the encryption that blob storage reported.
pub fn upload_file(
    file_type: &str,
    key: &str,
    file_size: u64,
    bucket: &str,
    region: &str,
    e_tag: Option<String>,
    server_side_encryption: Option<String>,
) -> (d: DocumentRef)
    ensures
        d@ == document_ref_of(
            file_type@,
            key@,
            file_size,
            bucket@,
            region@,
            e_tag.deep_view(),
            server_side_encryption.deep_view(),
        ),
{
    DocumentRef {
        file_type: FILE_TYPE.to_owned(),
        name: key.to_owned(),
        size: file_size,
        doc_type: file_type.to_owned(),
        s3: StorageLocation {
            bucket: bucket.to_owned(),
            key: key.to_owned(),
            e_tag: text_or_empty(e_tag),
            location: file_url(bucket, region, key),
            server_side_encryption: text_or_empty(server_side_encryption),
        },
    }
}

} // verus!
