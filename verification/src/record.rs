//! The analysis record: the immutable result of scoring one document, and
//! the sentinel record substituted when a lookup finds nothing.

use vstd::prelude::*;
use vstd::string::StringExecFns;
use crate::clock::now_rfc3339;

verus! {

/// Mathematical content of an [`AnalysisRecord`].
#[verifier::ext_equal]
pub struct RecordView {
    pub score: int,
    pub improvements: Seq<Seq<char>>,
    pub created_at: Seq<char>,
    pub analysis_id: Seq<char>,
}

/// The result of scoring one document: a bounded score, the ordered
/// improvement suggestions, a creation timestamp, and the identifier the
/// caller assigns after the engine has run.
pub struct AnalysisRecord {
    pub score: i32,
    pub improvements: Vec<String>,
    pub created_at: String,
    pub analysis_id: String,
}

impl View for AnalysisRecord {
    type V = RecordView;

    open spec fn view(&self) -> RecordView {
        RecordView {
            score: self.score as int,
            improvements: self.improvements.deep_view(),
            created_at: self.created_at@,
            analysis_id: self.analysis_id@,
        }
    }
}

impl DeepView for AnalysisRecord {
    type V = RecordView;

    open spec fn deep_view(&self) -> RecordView {
        self@
    }
}

impl Clone for AnalysisRecord {
    /// A clone carries the same view; only the allocation is new.
    fn clone(&self) -> (r: Self)
        ensures
            r@ == self@,
    {
        let improvements = self.improvements.clone();
        proof {
            assert forall|i: int| 0 <= i < self.improvements@.len() implies improvements@[i]
                == self.improvements@[i] by {
                assert(cloned::<String>(self.improvements@[i], improvements@[i]));
            }
            assert(improvements@ =~= self.improvements@);
        }
        let r = AnalysisRecord {
            score: self.score,
            improvements,
            created_at: self.created_at.clone(),
            analysis_id: self.analysis_id.clone(),
        };
        proof {
            assert(r@ =~~= self@);
        }
        r
    }
}

/// The single suggestion carried by the not-found sentinel.
pub open spec fn not_found_text() -> Seq<char> {
    "No analysis available"@
}

/// The sentinel substituted when no analysis matches a queried identifier:
/// score zero, one fixed suggestion, tagged with the queried identifier and
/// stamped with the current time.
pub fn not_found_record(analysis_id: &str) -> (r: AnalysisRecord)
    ensures
        r.score == 0,
        r.improvements.deep_view() == seq![not_found_text()],
        r.analysis_id@ == analysis_id@,
{
    let mut improvements: Vec<String> = Vec::new();
    improvements.push(String::from_str("No analysis available"));
    proof {
        assert(improvements.deep_view() =~= seq![not_found_text()]);
    }
    AnalysisRecord {
        score: 0,
        improvements,
        created_at: now_rfc3339(),
        analysis_id: analysis_id.to_owned(),
    }
}

} // verus!
