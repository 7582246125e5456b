//! The update manifest: the remote JSON document naming the latest version
//! and where its archive lives, and the version comparison that decides
//! whether an update is due.
//!
//! Version comparison is exact string equality of the trimmed version texts,
//! not a semantic ordering: the system only knows "different", never "older".

use vstd::prelude::*;
use vstd::string::*;
use crate::text::{trim_spec, trim_str, contains_seq, str_contains, dec_digits, u64_to_dec};
use crate::UpdateError;

verus! {

/// The remote manifest, decoded: the version offered and the URL of its
/// archive.  A manifest is only handed out by `decode_manifest` once both
/// fields are known to be present and non-empty.
#[derive(Debug, Clone)]
pub struct UpdateManifest {
    pub version: String,
    pub download_url: String,
}

/// A manifest is valid when its version is non-empty once trimmed — the
/// same trimming the version comparison uses, so a version of bare
/// whitespace can never be treated as an update — and its URL is non-empty.
pub open spec fn manifest_valid(m: UpdateManifest) -> bool {
    trim_spec(m.version@).len() > 0 && m.download_url@.len() > 0
}

/// The JSON field holding the offered version.
pub open spec fn version_key() -> Seq<char> {
    "version"@
}

/// The JSON field holding the archive URL.
pub open spec fn download_url_key() -> Seq<char> {
    "download_url"@
}

/// What decoding `doc` as a JSON object and reading the two string fields
/// named `key_a` and `key_b` yields: `None` when `doc` is not a JSON object
/// or either field is missing or not a string.  The result depends on the
/// three texts alone.
pub uninterp spec fn json_str_fields_of(
    doc: Seq<char>,
    key_a: Seq<char>,
    key_b: Seq<char>,
) -> Option<(Seq<char>, Seq<char>)>;

/// Relies on `serde_json::from_str::<Value>`, `Value::get` and
/// `Value::as_str`: parse `doc` as JSON and pull out two string fields.
/// The parse result depends on the document and key texts alone.
#[verifier::external_body]
fn parse_two_str_fields(doc: &str, key_a: &str, key_b: &str) -> (r: Option<(String, String)>)
    ensures
        r is Some <==> json_str_fields_of(doc@, key_a@, key_b@) is Some,
        r is Some ==> (r->Some_0.0@, r->Some_0.1@) == json_str_fields_of(
            doc@,
            key_a@,
            key_b@,
        )->Some_0,
{
    let v: serde_json::Value = match serde_json::from_str(doc) {
        Ok(v) => v,
        Err(_) => return None,
    };
    match (
        v.get(key_a).and_then(|f| f.as_str()),
        v.get(key_b).and_then(|f| f.as_str()),
    ) {
        (Some(a), Some(b)) => Some((a.to_string(), b.to_string())),
        _ => None,
    }
}

/// Decode a manifest document.
///
/// Returns `Ok` exactly when the document carries both string fields, the
/// version does not trim to nothing and the URL is non-empty; the manifest
/// handed back holds those fields verbatim.  Anything else is a
/// `DecodeError` — in particular, a manifest whose `version` is missing,
/// empty or bare whitespace is never treated as an update.
pub fn decode_manifest(doc: &str) -> (r: Result<UpdateManifest, UpdateError>)
    ensures
        match r {
            Ok(m) => {
                &&& json_str_fields_of(doc@, version_key(), download_url_key()) == Some(
                    (m.version@, m.download_url@),
                )
                &&& manifest_valid(m)
            },
            Err(e) => {
                &&& e is DecodeError
                &&& match json_str_fields_of(doc@, version_key(), download_url_key()) {
                    Some(fields) => trim_spec(fields.0).len() == 0 || fields.1.len() == 0,
                    None => true,
                }
            },
        },
{
    match parse_two_str_fields(doc, "version", "download_url") {
        Some((version, download_url)) => {
            let trimmed = trim_str(version.as_str());
            if trimmed.as_str().unicode_len() > 0 && download_url.as_str().unicode_len() > 0 {
                Ok(UpdateManifest { version, download_url })
            } else {
                Err(UpdateError::DecodeError)
            }
        },
        None => Err(UpdateError::DecodeError),
    }
}

/// Is the offered version textually different from the stored one, both
/// trimmed the same way?  `true` means an update is due; there is no notion
/// of ordering, only of difference.
pub fn update_available(remote_version: &str, stored_version: &str) -> (r: bool)
    ensures
        r == (trim_spec(remote_version@) != trim_spec(stored_version@)),
{
    let remote = trim_str(remote_version);
    let stored = trim_str(stored_version);
    remote != stored
}

/// The cache-busting query parameter for a fetch at time `millis`.
pub open spec fn cb_param(millis: nat) -> Seq<char> {
    seq!['c', 'b', '='] + dec_digits(millis)
}

/// The archive URL with the cache-busting parameter appended: after `&` when
/// the URL already carries a query string, after `?` otherwise.
pub open spec fn cache_busted_spec(url: Seq<char>, millis: nat) -> Seq<char> {
    if contains_seq(url, seq!['?']) {
        url + seq!['&'] + cb_param(millis)
    } else {
        url + seq!['?'] + cb_param(millis)
    }
}

/// Append the cache-busting parameter to `url`, defeating intermediary
/// caching of the archive fetch.
pub fn cache_busted_url(url: &str, millis: u64) -> (r: String)
    ensures
        r@ == cache_busted_spec(url@, millis as nat),
{
    proof {
        reveal_strlit("?");
        reveal_strlit("&cb=");
        reveal_strlit("?cb=");
    }
    let mut out = url.to_owned();
    if str_contains(url, "?") {
        assert("?"@ =~= seq!['?']);
        out.append("&cb=");
    } else {
        assert("?"@ =~= seq!['?']);
        out.append("?cb=");
    }
    let digits = u64_to_dec(millis);
    out.append(digits.as_str());
    proof {
        assert(out@ =~= cache_busted_spec(url@, millis as nat));
    }
    out
}

} // verus!
