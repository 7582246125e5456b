//! The Update Orchestrator: the one externally invoked "check and apply"
//! operation.
//!
//! The host fetches the manifest document and hands it over together with
//! the version marker's content; `evaluate_manifest` decides.  When the
//! trimmed versions differ the decision carries the started installer and
//! its first action — only then does an archive URL leave the library, so a
//! matching version can cause no archive fetch.  When the install machine
//! completes, `conclude_update` maps its outcome to the caller's result and
//! says whether to broadcast the reload; nothing is broadcast unless the
//! install succeeded, and no failure is reported as success.

use vstd::prelude::*;
use crate::UpdateError;
use crate::install::{
    start_install, InstallAction, InstallOutcome, InstallState,
};
use crate::manifest::{
    cache_busted_spec, decode_manifest, download_url_key, json_str_fields_of, update_available,
    version_key,
};
use crate::text::trim_spec;
use crate::version_store::{get_local_version, stored_version_of};

verus! {

/// What a manifest check decides: nothing to do, or an install to drive,
/// handed over as the installer's starting state and first action.
#[derive(Debug)]
pub enum UpdateDecision {
    NoUpdate,
    Install { state: InstallState, action: InstallAction },
}

/// Decide a manifest check.
///
/// `fetch` is the manifest fetch's result: the document text, or a
/// description of why there is none (a transport failure, or a non-success
/// status from the manifest endpoint); `marker` is the version marker's
/// content as the Version Store read it.  A failed fetch surfaces as
/// `FetchError`, an unusable document as `DecodeError`.  With a usable
/// manifest, the installer is started exactly when the trimmed versions
/// differ; equal versions decide `NoUpdate`, and no archive URL is handed
/// out at all.
pub fn evaluate_manifest(
    fetch: Result<String, String>,
    marker: Option<String>,
    now_millis: u64,
) -> (r: Result<UpdateDecision, UpdateError>)
    ensures
        ({
            let stored = stored_version_of(
                match marker {
                    Option::None => Option::None,
                    Option::Some(s) => Option::Some(s@),
                },
            );
            match fetch {
                Err(detail) => r matches Err(UpdateError::FetchError(d)) && d@ == detail@,
                Ok(doc) => match json_str_fields_of(doc@, version_key(), download_url_key()) {
                    Option::None => r matches Err(UpdateError::DecodeError),
                    Option::Some(fields) => {
                        if trim_spec(fields.0).len() == 0 || fields.1.len() == 0 {
                            r matches Err(UpdateError::DecodeError)
                        } else if trim_spec(fields.0) == trim_spec(stored) {
                            r matches Ok(UpdateDecision::NoUpdate)
                        } else {
                            r matches Ok(UpdateDecision::Install { state, action }) && ({
                                &&& state matches InstallState::FetchingArchive { version, url }
                                    && version@ == fields.0 && url@ == fields.1
                                &&& action matches InstallAction::FetchArchive { url: fetch_url }
                                    && fetch_url@ == cache_busted_spec(
                                    fields.1,
                                    now_millis as nat,
                                )
                            })
                        }
                    },
                },
            }
        }),
{
    let doc = match fetch {
        Ok(doc) => doc,
        Err(detail) => {
            return Err(UpdateError::FetchError(detail));
        },
    };
    let m = match decode_manifest(doc.as_str()) {
        Ok(m) => m,
        Err(e) => {
            return Err(e);
        },
    };
    let stored = get_local_version(marker);
    if update_available(m.version.as_str(), stored.as_str()) {
        let (state, action) = start_install(&m, now_millis);
        Ok(UpdateDecision::Install { state, action })
    } else {
        Ok(UpdateDecision::NoUpdate)
    }
}

/// Map the end of a check to what the caller sees and whether to fan out
/// the reload broadcast.
///
/// `None` stands for a check that found nothing to do: the caller is told
/// "not updated" and nothing is broadcast.  A completed install reports
/// "updated" and asks for the broadcast; a failed one surfaces its error
/// verbatim and keeps quiet — partial state is never reported as success.
pub fn conclude_update(outcome: Option<InstallOutcome>) -> (r: (
    Result<bool, UpdateError>,
    bool,
))
    ensures
        match outcome {
            Option::None => r.0 matches Ok(updated) && !updated && !r.1,
            Option::Some(InstallOutcome::Installed { .. }) => r.0 matches Ok(updated) && updated
                && r.1,
            Option::Some(InstallOutcome::Failed { error }) => r.0 matches Err(e) && e == error
                && !r.1,
        },
{
    match outcome {
        Option::None => (Ok(false), false),
        Option::Some(InstallOutcome::Installed { .. }) => (Ok(true), true),
        Option::Some(InstallOutcome::Failed { error }) => (Err(error), false),
    }
}

} // verus!
