//! The declarative rule tables of the scoring engine: the five section
//! categories with their trigger terms and keywords, the metric markers, the
//! action verbs, the technical skills, and the suggestion texts. Each table
//! exists twice: a spec function giving the term as a byte or character
//! sequence, and an exec function returning the literal, with the spec
//! function as its contract.

use vstd::prelude::*;
use vstd::string::StringSliceAdditionalSpecFns;
use vstd::string::StringExecFns;

verus! {

/// Trigger term of section category `k`, as the bytes searched for in the
/// lower-cased document.
pub open spec fn trigger_bytes(k: int) -> Seq<u8> {
    if k == 0 {
        "education".spec_bytes()
    } else if k == 1 {
        "experience".spec_bytes()
    } else if k == 2 {
        "skills".spec_bytes()
    } else if k == 3 {
        "projects".spec_bytes()
    } else {
        "achievements".spec_bytes()
    }
}

/// Trigger term of section category `k`.
pub fn trigger_term(k: usize) -> (r: &'static str)
    requires
        k < 5,
    ensures
        r.spec_bytes() == trigger_bytes(k as int),
{
    match k {
        0 => "education",
        1 => "experience",
        2 => "skills",
        3 => "projects",
        _ => "achievements",
    }
}

/// Keyword `j` of section category `k`.
pub open spec fn keyword_bytes(k: int, j: int) -> Seq<u8> {
    if k == 0 {
        if j == 0 {
            "degree".spec_bytes()
        } else if j == 1 {
            "university".spec_bytes()
        } else if j == 2 {
            "college".spec_bytes()
        } else if j == 3 {
            "gpa".spec_bytes()
        } else {
            "graduation".spec_bytes()
        }
    } else if k == 1 {
        if j == 0 {
            "work".spec_bytes()
        } else if j == 1 {
            "job".spec_bytes()
        } else if j == 2 {
            "employment".spec_bytes()
        } else if j == 3 {
            "position".spec_bytes()
        } else {
            "role".spec_bytes()
        }
    } else if k == 2 {
        if j == 0 {
            "technical".spec_bytes()
        } else if j == 1 {
            "programming".spec_bytes()
        } else if j == 2 {
            "software".spec_bytes()
        } else if j == 3 {
            "tools".spec_bytes()
        } else {
            "languages".spec_bytes()
        }
    } else if k == 3 {
        if j == 0 {
            "project".spec_bytes()
        } else if j == 1 {
            "development".spec_bytes()
        } else if j == 2 {
            "implementation".spec_bytes()
        } else if j == 3 {
            "created".spec_bytes()
        } else {
            "built".spec_bytes()
        }
    } else {
        if j == 0 {
            "achieved".spec_bytes()
        } else if j == 1 {
            "award".spec_bytes()
        } else if j == 2 {
            "recognition".spec_bytes()
        } else if j == 3 {
            "certified".spec_bytes()
        } else {
            "completed".spec_bytes()
        }
    }
}

/// Keyword `j` of section category `k`.
pub fn keyword_term(k: usize, j: usize) -> (r: &'static str)
    requires
        k < 5,
        j < 5,
    ensures
        r.spec_bytes() == keyword_bytes(k as int, j as int),
{
    match k {
        0 => match j {
            0 => "degree",
            1 => "university",
            2 => "college",
            3 => "gpa",
            _ => "graduation",
        },
        1 => match j {
            0 => "work",
            1 => "job",
            2 => "employment",
            3 => "position",
            _ => "role",
        },
        2 => match j {
            0 => "technical",
            1 => "programming",
            2 => "software",
            3 => "tools",
            _ => "languages",
        },
        3 => match j {
            0 => "project",
            1 => "development",
            2 => "implementation",
            3 => "created",
            _ => "built",
        },
        _ => match j {
            0 => "achieved",
            1 => "award",
            2 => "recognition",
            3 => "certified",
            _ => "completed",
        },
    }
}

/// Metric marker `m`: a sign of quantified results anywhere in the document.
pub open spec fn metric_bytes(m: int) -> Seq<u8> {
    if m == 0 {
        "%".spec_bytes()
    } else if m == 1 {
        "$".spec_bytes()
    } else if m == 2 {
        "increased".spec_bytes()
    } else {
        "improved".spec_bytes()
    }
}

/// Metric marker `m`.
pub fn metric_term(m: usize) -> (r: &'static str)
    requires
        m < 4,
    ensures
        r.spec_bytes() == metric_bytes(m as int),
{
    match m {
        0 => "%",
        1 => "$",
        2 => "increased",
        _ => "improved",
    }
}

/// Action verb `v`.
pub open spec fn verb_bytes(v: int) -> Seq<u8> {
    if v == 0 {
        "developed".spec_bytes()
    } else if v == 1 {
        "implemented".spec_bytes()
    } else if v == 2 {
        "created".spec_bytes()
    } else if v == 3 {
        "managed".spec_bytes()
    } else if v == 4 {
        "led".spec_bytes()
    } else if v == 5 {
        "increased".spec_bytes()
    } else if v == 6 {
        "improved".spec_bytes()
    } else {
        "achieved".spec_bytes()
    }
}

/// Action verb `v`.
pub fn verb_term(v: usize) -> (r: &'static str)
    requires
        v < 8,
    ensures
        r.spec_bytes() == verb_bytes(v as int),
{
    match v {
        0 => "developed",
        1 => "implemented",
        2 => "created",
        3 => "managed",
        4 => "led",
        5 => "increased",
        6 => "improved",
        _ => "achieved",
    }
}

/// Technical skill term `x`.
pub open spec fn skill_bytes(x: int) -> Seq<u8> {
    if x == 0 {
        "python".spec_bytes()
    } else if x == 1 {
        "java".spec_bytes()
    } else if x == 2 {
        "javascript".spec_bytes()
    } else if x == 3 {
        "react".spec_bytes()
    } else if x == 4 {
        "node".spec_bytes()
    } else if x == 5 {
        "sql".spec_bytes()
    } else if x == 6 {
        "aws".spec_bytes()
    } else if x == 7 {
        "docker".spec_bytes()
    } else {
        "kubernetes".spec_bytes()
    }
}

/// Technical skill term `x`.
pub fn skill_term(x: usize) -> (r: &'static str)
    requires
        x < 9,
    ensures
        r.spec_bytes() == skill_bytes(x as int),
{
    match x {
        0 => "python",
        1 => "java",
        2 => "javascript",
        3 => "react",
        4 => "node",
        5 => "sql",
        6 => "aws",
        7 => "docker",
        _ => "kubernetes",
    }
}

/// The paragraph separator whose occurrences signal clear formatting.
pub open spec fn separator_bytes() -> Seq<u8> {
    "\n\n".spec_bytes()
}

/// The paragraph separator.
pub fn separator_term() -> (r: &'static str)
    ensures
        r.spec_bytes() == separator_bytes(),
{
    "\n\n"
}

/// The term whose absence beside "experience" asks for durations.
pub open spec fn years_bytes() -> Seq<u8> {
    "years".spec_bytes()
}

/// The term "years".
pub fn years_term() -> (r: &'static str)
    ensures
        r.spec_bytes() == years_bytes(),
{
    "years"
}

/// The term whose absence beside "project" asks for repository links.
pub open spec fn github_bytes() -> Seq<u8> {
    "github".spec_bytes()
}

/// The term "github".
pub fn github_term() -> (r: &'static str)
    ensures
        r.spec_bytes() == github_bytes(),
{
    "github"
}

/// Suggestion appended when section category `k` is missing. All five use the
/// same template, article included.
pub open spec fn missing_section_text(k: int) -> Seq<char> {
    if k == 0 {
        "Add a education section"@
    } else if k == 1 {
        "Add a experience section"@
    } else if k == 2 {
        "Add a skills section"@
    } else if k == 3 {
        "Add a projects section"@
    } else {
        "Add a achievements section"@
    }
}

/// Suggestion for a missing section category.
pub fn missing_section_suggestion(k: usize) -> (r: String)
    requires
        k < 5,
    ensures
        r@ == missing_section_text(k as int),
{
    String::from_str(
        match k {
            0 => "Add a education section",
            1 => "Add a experience section",
            2 => "Add a skills section",
            3 => "Add a projects section",
            _ => "Add a achievements section",
        },
    )
}

/// Suggestion appended when the formatting bonus is not earned.
pub open spec fn formatting_text() -> Seq<char> {
    "Improve formatting with clear section breaks"@
}

/// Suggestion appended when the action-verb bonus is not earned.
pub open spec fn verbs_text() -> Seq<char> {
    "Use more action verbs to describe your achievements"@
}

/// Suggestion appended when the technical-skill bonus is not earned.
pub open spec fn skills_text() -> Seq<char> {
    "Add more technical skills relevant to your field"@
}

/// Suggestion appended when "experience" appears without "years".
pub open spec fn duration_text() -> Seq<char> {
    "Add duration for your work experience"@
}

/// Suggestion appended when "education" appears without "gpa".
pub open spec fn gpa_text() -> Seq<char> {
    "Include your GPA if it's above 3.0"@
}

/// Suggestion appended when "project" appears without "github".
pub open spec fn repos_text() -> Seq<char> {
    "Add links to your project repositories"@
}

/// First generic suggestion appended when the final score is below 60.
pub open spec fn details_text() -> Seq<char> {
    "Add more specific details about your achievements"@
}

/// Second generic suggestion appended when the final score is below 60.
pub open spec fn certifications_text() -> Seq<char> {
    "Include relevant certifications and training"@
}

/// Third generic suggestion appended when the final score is below 60.
pub open spec fn quantify_text() -> Seq<char> {
    "Quantify your achievements with numbers and metrics"@
}

/// The formatting suggestion.
pub fn formatting_suggestion() -> (r: String)
    ensures
        r@ == formatting_text(),
{
    String::from_str("Improve formatting with clear section breaks")
}

/// The action-verb suggestion.
pub fn verbs_suggestion() -> (r: String)
    ensures
        r@ == verbs_text(),
{
    String::from_str("Use more action verbs to describe your achievements")
}

/// The technical-skill suggestion.
pub fn skills_suggestion() -> (r: String)
    ensures
        r@ == skills_text(),
{
    String::from_str("Add more technical skills relevant to your field")
}

/// The work-duration suggestion.
pub fn duration_suggestion() -> (r: String)
    ensures
        r@ == duration_text(),
{
    String::from_str("Add duration for your work experience")
}

/// The GPA suggestion.
pub fn gpa_suggestion() -> (r: String)
    ensures
        r@ == gpa_text(),
{
    String::from_str("Include your GPA if it's above 3.0")
}

/// The repository-links suggestion.
pub fn repos_suggestion() -> (r: String)
    ensures
        r@ == repos_text(),
{
    String::from_str("Add links to your project repositories")
}

/// The generic details suggestion.
pub fn details_suggestion() -> (r: String)
    ensures
        r@ == details_text(),
{
    String::from_str("Add more specific details about your achievements")
}

/// The generic certifications suggestion.
pub fn certifications_suggestion() -> (r: String)
    ensures
        r@ == certifications_text(),
{
    String::from_str("Include relevant certifications and training")
}

/// The generic quantification suggestion.
pub fn quantify_suggestion() -> (r: String)
    ensures
        r@ == quantify_text(),
{
    String::from_str("Quantify your achievements with numbers and metrics")
}

} // verus!
