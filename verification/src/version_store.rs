//! The Version Store: a single plain-text marker inside the install
//! directory records the version last installed.  The host reads and writes
//! the file; this module fixes what the text means.
//!
//! An absent (or unreadable) marker reads as the empty version, which any
//! non-empty remote version differs from; the text is trimmed on every read.

use vstd::prelude::*;
use crate::manifest::UpdateManifest;
use crate::text::{trim_spec, trim_str, lemma_trim_idempotent};

verus! {

/// What a marker file with the given content (or `None` for an absent file)
/// reads as.
pub open spec fn stored_version_of(content: Option<Seq<char>>) -> Seq<char> {
    match content {
        Option::None => Seq::empty(),
        Option::Some(s) => trim_spec(s),
    }
}

/// Read side of the Version Store.  The host hands over the marker file's
/// text, or `None` when the file is absent or unreadable; the installed
/// version is that text trimmed, or empty when there is no text.
pub fn get_local_version(content: Option<String>) -> (r: String)
    ensures
        r@ == stored_version_of(
            match content {
                Option::None => Option::None,
                Option::Some(s) => Option::Some(s@),
            },
        ),
{
    match content {
        Option::None => String::new(),
        Option::Some(s) => trim_str(s.as_str()),
    }
}

/// Write side of the Version Store: the marker is overwritten, as the final
/// step of a successful install, with exactly the manifest's version text.
pub fn marker_content(m: &UpdateManifest) -> (r: String)
    ensures
        r@ == m.version@,
{
    m.version.clone()
}

/// Law (round trip): once an install has written version `v` to the marker,
/// the next read of the Version Store returns `v` trimmed.
pub proof fn lemma_marker_round_trip(v: Seq<char>)
    ensures
        stored_version_of(Option::Some(v)) == trim_spec(v),
{
}

/// Law: a version that was just installed does not look like an update on
/// the next check — the manifest's version, trimmed, equals the value the
/// freshly written marker reads as.
pub proof fn lemma_no_update_after_install(v: Seq<char>)
    ensures
        trim_spec(v) == trim_spec(stored_version_of(Option::Some(v))),
{
    lemma_trim_idempotent(v);
}

} // verus!
