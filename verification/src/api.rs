//! The operations the process exposes around the engine and the store:
//! upload handling, the login identifier, and the fixed greeting.

use vstd::prelude::*;
use vstd::string::StringExecFns;
use vstd::string::StringSliceAdditionalSpecFns;
use crate::clock::now_millis;
use crate::engine::{analyze, score_of, suggestions_of};
use crate::ids::{resume_id_chars, resume_id_for};
use crate::record::AnalysisRecord;
use crate::store::{AnalysisStore, history_of, recorded};

verus! {

/// The one error an upload can report: no content, or no user identifier.
#[derive(Debug)]
pub enum UploadError {
    MissingInput,
}

impl UploadError {
    /// The message the process reports for this error.
    pub fn message(&self) -> (r: String)
        ensures
            r@ == "No file uploaded or missing user ID"@,
    {
        String::from_str("No file uploaded or missing user ID")
    }
}

/// The user identifier assigned at login: the submitted name under a fixed
/// prefix.
pub fn login_user_id(name: &str) -> (r: String)
    ensures
        r@ == "user_"@ + name@,
{
    let mut s = String::from_str("user_");
    s.append(name);
    s
}

/// The greeting of the root endpoint.
pub fn hello_message() -> (r: String)
    ensures
        r@ == "Hello from Rust Backend!"@,
{
    String::from_str("Hello from Rust Backend!")
}

/// Handle one upload: reject it when the text or the user identifier is
/// empty; otherwise score the text, tag the record with a fresh identifier
/// from the clock, append it to the user's history, and hand the record back.
pub fn process_upload(store: &mut AnalysisStore, user_id: &str, text: &str) -> (r: Result<
    AnalysisRecord,
    UploadError,
>)
    requires
        old(store).wf(),
    ensures
        final(store).wf(),
        r is Err <==> (user_id@.len() == 0 || text@.len() == 0),
        r is Err ==> final(store)@ == old(store)@,
        match r {
            Ok(rec) => {
                &&& rec.score as int == score_of(text.spec_bytes())
                &&& 0 <= rec.score <= 100
                &&& rec.improvements.deep_view() == suggestions_of(text.spec_bytes())
                &&& (exists|millis: int| rec.analysis_id@ == resume_id_chars(millis))
                &&& final(store)@ == recorded(old(store)@, user_id@, rec@)
                &&& history_of(final(store)@, user_id@).last() == rec@
            },
            Err(_) => true,
        },
{
    if user_id.is_empty() || text.is_empty() {
        return Err(UploadError::MissingInput);
    }
    let millis = now_millis();
    let rid = resume_id_for(millis);
    let mut rec = analyze(text);
    rec.analysis_id = rid;
    let out = rec.clone();
    proof {
        assert(rec.analysis_id@ == resume_id_chars(millis as int));
    }
    store.record(user_id, rec);
    Ok(out)
}

} // verus!
