//! The scoring engine: a deterministic function from document text to a
//! bounded score and an ordered list of improvement suggestions. Matching is
//! case-insensitive: the document is lower-cased once and every rule term is
//! searched for in that copy; only the paragraph-separator count looks at the
//! original text.

use vstd::prelude::*;
use vstd::string::StringSliceAdditionalSpecFns;
use crate::clock::now_rfc3339;
use crate::record::AnalysisRecord;
use crate::rules::{
    trigger_bytes, trigger_term, keyword_bytes, keyword_term, metric_bytes, metric_term,
    verb_bytes, verb_term, skill_bytes, skill_term, separator_bytes, separator_term, years_bytes,
    years_term, github_bytes, github_term, missing_section_text, missing_section_suggestion,
    formatting_text, formatting_suggestion, verbs_text, verbs_suggestion, skills_text,
    skills_suggestion, duration_text, duration_suggestion, gpa_text, gpa_suggestion, repos_text,
    repos_suggestion, details_text, details_suggestion, certifications_text,
    certifications_suggestion, quantify_text, quantify_suggestion,
};
use crate::text::{
    lower, lower_bytes, contains_seq, contains_bytes, count_matches, count_occurrences,
    lemma_contains_append, lemma_count_append, lemma_lower_append,
};

verus! {

/// Section category `k`'s trigger term occurs in the lower-cased document.
pub open spec fn section_found(low: Seq<u8>, k: int) -> bool {
    contains_seq(low, trigger_bytes(k))
}

/// Points from the first `j` keywords of section category `k`: two per
/// keyword that occurs in the lower-cased document.
pub open spec fn kw_points(low: Seq<u8>, k: int, j: int) -> int
    decreases j,
{
    if j <= 0 {
        0
    } else {
        kw_points(low, k, j - 1) + if contains_seq(low, keyword_bytes(k, j - 1)) {
            2int
        } else {
            0int
        }
    }
}

/// Flat bonus granted once per present section when the document shows any
/// metric marker. It is evaluated on the whole document, so every present
/// section earns it together.
pub open spec fn metrics_bonus(low: Seq<u8>) -> int {
    if contains_seq(low, metric_bytes(0)) || contains_seq(low, metric_bytes(1)) || contains_seq(
        low,
        metric_bytes(2),
    ) || contains_seq(low, metric_bytes(3)) {
        5
    } else {
        0
    }
}

/// Quality contribution of section category `k`: zero when its trigger is
/// absent, otherwise its keyword points plus the metrics bonus.
pub open spec fn section_quality(low: Seq<u8>, k: int) -> int {
    if section_found(low, k) {
        kw_points(low, k, 5) + metrics_bonus(low)
    } else {
        0
    }
}

/// How many of the first `k` section categories are present.
pub open spec fn found_count(low: Seq<u8>, k: int) -> int
    decreases k,
{
    if k <= 0 {
        0
    } else {
        found_count(low, k - 1) + if section_found(low, k - 1) {
            1int
        } else {
            0int
        }
    }
}

/// Sum of the quality contributions of the first `k` section categories.
pub open spec fn quality_sum(low: Seq<u8>, k: int) -> int
    decreases k,
{
    if k <= 0 {
        0
    } else {
        quality_sum(low, k - 1) + section_quality(low, k - 1)
    }
}

/// Combined occurrence count of the first `v` action verbs.
pub open spec fn verb_total(low: Seq<u8>, v: int) -> nat
    decreases v,
{
    if v <= 0 {
        0
    } else {
        verb_total(low, v - 1) + count_matches(low, verb_bytes(v - 1))
    }
}

/// How many of the first `x` technical skill terms occur in the document.
pub open spec fn skill_count(low: Seq<u8>, x: int) -> int
    decreases x,
{
    if x <= 0 {
        0
    } else {
        skill_count(low, x - 1) + if contains_seq(low, skill_bytes(x - 1)) {
            1int
        } else {
            0int
        }
    }
}

/// Formatting bonus: earned when the original text holds more than five
/// paragraph separators.
pub open spec fn formatting_bonus(t: Seq<u8>) -> int {
    if count_matches(t, separator_bytes()) > 5 {
        5
    } else {
        0
    }
}

/// Action-verb bonus: earned when the verbs occur more than five times in
/// all.
pub open spec fn verb_bonus(low: Seq<u8>) -> int {
    if verb_total(low, 8) > 5 {
        5
    } else {
        0
    }
}

/// Technical-skill bonus: earned when more than three distinct skill terms
/// are present.
pub open spec fn skill_bonus(low: Seq<u8>) -> int {
    if skill_count(low, 9) > 3 {
        5
    } else {
        0
    }
}

/// The score before clamping: ten points per present section, the quality sum
/// capped at fifty, and the three five-point bonuses.
pub open spec fn raw_score(t: Seq<u8>) -> int {
    let low = lower(t);
    10 * found_count(low, 5) + (if quality_sum(low, 5) > 50 {
        50int
    } else {
        quality_sum(low, 5)
    }) + formatting_bonus(t) + verb_bonus(low) + skill_bonus(low)
}

/// The final score, clamped to the closed range [0, 100].
pub open spec fn score_of(t: Seq<u8>) -> int {
    if raw_score(t) > 100 {
        100
    } else if raw_score(t) < 0 {
        0
    } else {
        raw_score(t)
    }
}

/// Missing-section suggestions for the first `k` categories, in category
/// order.
pub open spec fn missing_suggestions(low: Seq<u8>, k: int) -> Seq<Seq<char>>
    decreases k,
{
    if k <= 0 {
        Seq::empty()
    } else {
        missing_suggestions(low, k - 1) + if section_found(low, k - 1) {
            Seq::<Seq<char>>::empty()
        } else {
            seq![missing_section_text(k - 1)]
        }
    }
}

/// The full suggestion list, in the order the checks run: missing sections,
/// formatting, action verbs, technical skills, the three targeted checks, and
/// the three generic suggestions when the final score is below sixty.
/// Suggestion appended when the formatting bonus was not earned.
pub open spec fn formatting_part(t: Seq<u8>) -> Seq<Seq<char>> {
    if formatting_bonus(t) == 5 {
        Seq::empty()
    } else {
        seq![formatting_text()]
    }
}

/// Suggestion appended when the action-verb bonus was not earned.
pub open spec fn verbs_part(low: Seq<u8>) -> Seq<Seq<char>> {
    if verb_bonus(low) == 5 {
        Seq::empty()
    } else {
        seq![verbs_text()]
    }
}

/// Suggestion appended when the technical-skill bonus was not earned.
pub open spec fn skills_part(low: Seq<u8>) -> Seq<Seq<char>> {
    if skill_bonus(low) == 5 {
        Seq::empty()
    } else {
        seq![skills_text()]
    }
}

/// Suggestion appended when "experience" appears without "years".
pub open spec fn duration_part(low: Seq<u8>) -> Seq<Seq<char>> {
    if contains_seq(low, trigger_bytes(1)) && !contains_seq(low, years_bytes()) {
        seq![duration_text()]
    } else {
        Seq::empty()
    }
}

/// Suggestion appended when "education" appears without "gpa".
pub open spec fn gpa_part(low: Seq<u8>) -> Seq<Seq<char>> {
    if contains_seq(low, trigger_bytes(0)) && !contains_seq(low, keyword_bytes(0, 3)) {
        seq![gpa_text()]
    } else {
        Seq::empty()
    }
}

/// Suggestion appended when "project" appears without "github".
pub open spec fn repos_part(low: Seq<u8>) -> Seq<Seq<char>> {
    if contains_seq(low, keyword_bytes(3, 0)) && !contains_seq(low, github_bytes()) {
        seq![repos_text()]
    } else {
        Seq::empty()
    }
}

/// The three generic suggestions appended when the final score is below
/// sixty.
pub open spec fn generic_part(t: Seq<u8>) -> Seq<Seq<char>> {
    if score_of(t) < 60 {
        seq![details_text(), certifications_text(), quantify_text()]
    } else {
        Seq::empty()
    }
}

pub open spec fn suggestions_of(t: Seq<u8>) -> Seq<Seq<char>> {
    let low = lower(t);
    missing_suggestions(low, 5) + formatting_part(t) + verbs_part(low) + skills_part(low)
        + duration_part(low) + gpa_part(low) + repos_part(low) + generic_part(t)
}

/// Keyword points are bounded by two per keyword considered.
pub proof fn lemma_kw_points_bounds(low: Seq<u8>, k: int, j: int)
    requires
        j >= 0,
    ensures
        0 <= kw_points(low, k, j) <= 2 * j,
    decreases j,
{
    if j > 0 {
        lemma_kw_points_bounds(low, k, j - 1);
    }
}

/// Each section contributes between zero and fifteen quality points.
pub proof fn lemma_section_quality_bounds(low: Seq<u8>, k: int)
    ensures
        0 <= section_quality(low, k) <= 15,
{
    lemma_kw_points_bounds(low, k, 5);
}

/// At most one present section per category considered.
pub proof fn lemma_found_count_bounds(low: Seq<u8>, k: int)
    requires
        k >= 0,
    ensures
        0 <= found_count(low, k) <= k,
    decreases k,
{
    if k > 0 {
        lemma_found_count_bounds(low, k - 1);
    }
}

/// The quality sum is bounded by fifteen per category considered.
pub proof fn lemma_quality_sum_bounds(low: Seq<u8>, k: int)
    requires
        k >= 0,
    ensures
        0 <= quality_sum(low, k) <= 15 * k,
    decreases k,
{
    if k > 0 {
        lemma_quality_sum_bounds(low, k - 1);
        lemma_section_quality_bounds(low, k - 1);
    }
}

/// Every text scores within the closed range [0, 100].
pub proof fn lemma_score_bounded(t: Seq<u8>)
    ensures
        0 <= score_of(t) <= 100,
{
    let low = lower(t);
    lemma_found_count_bounds(low, 5);
    lemma_quality_sum_bounds(low, 5);
}

/// Analysis is deterministic: two records whose score and suggestions satisfy
/// the engine's contract for the same text agree on both; only the timestamp
/// may differ between two runs.
pub proof fn lemma_analyze_deterministic(
    t: Seq<u8>,
    r1: crate::record::RecordView,
    r2: crate::record::RecordView,
)
    requires
        r1.score == score_of(t),
        r1.improvements == suggestions_of(t),
        r2.score == score_of(t),
        r2.improvements == suggestions_of(t),
    ensures
        r1.score == r2.score,
        r1.improvements == r2.improvements,
{
}

/// Keyword points cannot decrease when more text is appended.
pub proof fn lemma_kw_points_monotone(low: Seq<u8>, extra: Seq<u8>, k: int, j: int)
    requires
        j >= 0,
    ensures
        kw_points(low + extra, k, j) >= kw_points(low, k, j),
    decreases j,
{
    if j > 0 {
        lemma_kw_points_monotone(low, extra, k, j - 1);
        if contains_seq(low, keyword_bytes(k, j - 1)) {
            lemma_contains_append(low, extra, keyword_bytes(k, j - 1));
        }
    }
}

/// Appending text (for instance one more occurrence of "increased") to a
/// document whose section category `k` is already detected preserves or
/// increases that section's quality contribution; it can never decrease it.
pub proof fn lemma_section_quality_monotone(t: Seq<u8>, extra: Seq<u8>, k: int)
    requires
        section_found(lower(t), k),
    ensures
        section_quality(lower(t + extra), k) >= section_quality(lower(t), k),
{
    let low = lower(t);
    let low2 = lower(t + extra);
    lemma_lower_append(t, extra);
    lemma_contains_append(low, lower(extra), trigger_bytes(k));
    lemma_kw_points_monotone(low, lower(extra), k, 5);
    if metrics_bonus(low) == 5 {
        if contains_seq(low, metric_bytes(0)) {
            lemma_contains_append(low, lower(extra), metric_bytes(0));
        } else if contains_seq(low, metric_bytes(1)) {
            lemma_contains_append(low, lower(extra), metric_bytes(1));
        } else if contains_seq(low, metric_bytes(2)) {
            lemma_contains_append(low, lower(extra), metric_bytes(2));
        } else {
            lemma_contains_append(low, lower(extra), metric_bytes(3));
        }
    }
}

/// Scan the five section categories of the lower-cased document: count the
/// present ones, sum their quality contributions, and collect the
/// missing-section suggestions in category order.
fn scan_sections(low: &[u8], metrics: bool, improvements: &mut Vec<String>) -> (r: (usize, i32))
    requires
        metrics == (metrics_bonus(low@) == 5),
    ensures
        r.0 as int == found_count(low@, 5),
        r.0 <= 5,
        r.1 as int == quality_sum(low@, 5),
        0 <= r.1 <= 75,
        final(improvements).deep_view() == old(improvements).deep_view() + missing_suggestions(
            low@,
            5,
        ),
{
    let ghost l = low@;
    let ghost dv0 = improvements.deep_view();
    let mut found: usize = 0;
    let mut quality: i32 = 0;
    let mut k: usize = 0;
    while k < 5
        invariant
            k <= 5,
            low@ == l,
            metrics == (metrics_bonus(l) == 5),
            found as int == found_count(l, k as int),
            found <= k,
            quality as int == quality_sum(l, k as int),
            0 <= quality <= 15 * k,
            improvements.deep_view() == dv0 + missing_suggestions(l, k as int),
        decreases 5 - k,
    {
        if contains_bytes(low, trigger_term(k).as_bytes()) {
            found = found + 1;
            let mut section_score: i32 = 0;
            let mut j: usize = 0;
            while j < 5
                invariant
                    j <= 5,
                    k < 5,
                    low@ == l,
                    section_score as int == kw_points(l, k as int, j as int),
                    0 <= section_score <= 2 * j,
                decreases 5 - j,
            {
                if contains_bytes(low, keyword_term(k, j).as_bytes()) {
                    section_score = section_score + 2;
                }
                j = j + 1;
            }
            if metrics {
                section_score = section_score + 5;
            }
            proof {
                assert(section_score as int == section_quality(l, k as int));
            }
            quality = quality + section_score;
            proof {
                assert(improvements.deep_view() =~= dv0 + missing_suggestions(l, k as int + 1));
            }
        } else {
            let ghost before = improvements.deep_view();
            improvements.push(missing_section_suggestion(k));
            proof {
                assert(improvements.deep_view() =~= before.push(missing_section_text(k as int)));
                assert(missing_suggestions(l, k as int + 1) == missing_suggestions(l, k as int)
                    + seq![missing_section_text(k as int)]);
                assert(before.push(missing_section_text(k as int)) =~= dv0 + missing_suggestions(
                    l,
                    k as int + 1,
                ));
            }
        }
        k = k + 1;
    }
    (found, quality)
}

/// Do the action verbs occur more than five times in all?
fn verbs_exceed(low: &[u8]) -> (r: bool)
    ensures
        r == (verb_total(low@, 8) > 5),
{
    let ghost l = low@;
    // Each verb's count is clamped at six: that leaves the comparison with
    // five unchanged and keeps the sum small.
    let mut verb_count: usize = 0;
    let mut v: usize = 0;
    while v < 8
        invariant
            v <= 8,
            low@ == l,
            verb_count <= 6 * v,
            verb_count as nat <= verb_total(l, v as int),
            verb_count >= 6 || verb_count as nat == verb_total(l, v as int),
        decreases 8 - v,
    {
        let c = count_occurrences(low, verb_term(v).as_bytes());
        let cs: usize = if c > 6 {
            6
        } else {
            c
        };
        verb_count = verb_count + cs;
        v = v + 1;
    }
    verb_count > 5
}

/// Are more than three distinct technical skill terms present?
fn skills_exceed(low: &[u8]) -> (r: bool)
    ensures
        r == (skill_count(low@, 9) > 3),
{
    let ghost l = low@;
    let mut skills: usize = 0;
    let mut x: usize = 0;
    while x < 9
        invariant
            x <= 9,
            low@ == l,
            skills as int == skill_count(l, x as int),
            skills <= x,
        decreases 9 - x,
    {
        if contains_bytes(low, skill_term(x).as_bytes()) {
            skills = skills + 1;
        }
        x = x + 1;
    }
    skills > 3
}

/// Run the three bonus checks: formatting on the original text, action verbs
/// and technical skills on the lower-cased copy. Returns the earned bonus
/// points and appends the suggestion of each check that failed.
fn bonus_checks(bytes: &[u8], low: &[u8], improvements: &mut Vec<String>) -> (bonus: i32)
    requires
        low@ == lower(bytes@),
    ensures
        bonus as int == formatting_bonus(bytes@) + verb_bonus(low@) + skill_bonus(low@),
        0 <= bonus <= 15,
        final(improvements).deep_view() == old(improvements).deep_view() + formatting_part(bytes@)
            + verbs_part(low@) + skills_part(low@),
{
    let ghost t = bytes@;
    let ghost l = low@;
    let ghost dv0 = improvements.deep_view();
    let mut bonus: i32 = 0;

    // Formatting: counted on the original text, though the separator is
    // unaffected by lower-casing.
    let separators = count_occurrences(bytes, separator_term().as_bytes());
    if separators > 5 {
        bonus = bonus + 5;
    } else {
        improvements.push(formatting_suggestion());
    }
    proof {
        assert(improvements.deep_view() =~= dv0 + formatting_part(t));
    }

    let verbs_ok = verbs_exceed(low);
    if verbs_ok {
        bonus = bonus + 5;
    } else {
        improvements.push(verbs_suggestion());
    }
    proof {
        assert(improvements.deep_view() =~= dv0 + formatting_part(t) + verbs_part(l));
    }

    let skills_ok = skills_exceed(low);
    if skills_ok {
        bonus = bonus + 5;
    } else {
        improvements.push(skills_suggestion());
    }
    proof {
        assert(improvements.deep_view() =~= dv0 + formatting_part(t) + verbs_part(l) + skills_part(
            l,
        ));
    }
    bonus
}

/// Run the three targeted checks and append the suggestion of each that
/// fires.
fn push_targeted(low: &[u8], improvements: &mut Vec<String>)
    ensures
        final(improvements).deep_view() == old(improvements).deep_view() + duration_part(low@)
            + gpa_part(low@) + repos_part(low@),
{
    let ghost l = low@;
    let ghost dv0 = improvements.deep_view();
    if contains_bytes(low, trigger_term(1).as_bytes()) && !contains_bytes(
        low,
        years_term().as_bytes(),
    ) {
        improvements.push(duration_suggestion());
    }
    proof {
        assert(improvements.deep_view() =~= dv0 + duration_part(l));
    }
    if contains_bytes(low, trigger_term(0).as_bytes()) && !contains_bytes(
        low,
        keyword_term(0, 3).as_bytes(),
    ) {
        improvements.push(gpa_suggestion());
    }
    proof {
        assert(improvements.deep_view() =~= dv0 + duration_part(l) + gpa_part(l));
    }
    if contains_bytes(low, keyword_term(3, 0).as_bytes()) && !contains_bytes(
        low,
        github_term().as_bytes(),
    ) {
        improvements.push(repos_suggestion());
    }
    proof {
        assert(improvements.deep_view() =~= dv0 + duration_part(l) + gpa_part(l) + repos_part(l));
    }
}

/// Append the three generic low-score suggestions.
fn push_generic(improvements: &mut Vec<String>)
    ensures
        final(improvements).deep_view() == old(improvements).deep_view() + seq![
            details_text(),
            certifications_text(),
            quantify_text(),
        ],
{
    let ghost dv0 = improvements.deep_view();
    improvements.push(details_suggestion());
    improvements.push(certifications_suggestion());
    improvements.push(quantify_suggestion());
    proof {
        assert(improvements.deep_view() =~= dv0 + seq![
            details_text(),
            certifications_text(),
            quantify_text(),
        ]);
    }
}

/// Present sections stay present when text is appended.
proof fn lemma_found_count_monotone(low: Seq<u8>, extra: Seq<u8>, k: int)
    requires
        k >= 0,
    ensures
        found_count(low + extra, k) >= found_count(low, k),
    decreases k,
{
    if k > 0 {
        lemma_found_count_monotone(low, extra, k - 1);
        if section_found(low, k - 1) {
            lemma_contains_append(low, extra, trigger_bytes(k - 1));
        }
    }
}

/// A section's quality contribution never drops when text is appended,
/// whether or not the section was present before.
proof fn lemma_section_quality_monotone_low(low: Seq<u8>, extra: Seq<u8>, k: int)
    ensures
        section_quality(low + extra, k) >= section_quality(low, k),
{
    if section_found(low, k) {
        lemma_contains_append(low, extra, trigger_bytes(k));
        lemma_kw_points_monotone(low, extra, k, 5);
        if metrics_bonus(low) == 5 {
            if contains_seq(low, metric_bytes(0)) {
                lemma_contains_append(low, extra, metric_bytes(0));
            } else if contains_seq(low, metric_bytes(1)) {
                lemma_contains_append(low, extra, metric_bytes(1));
            } else if contains_seq(low, metric_bytes(2)) {
                lemma_contains_append(low, extra, metric_bytes(2));
            } else {
                lemma_contains_append(low, extra, metric_bytes(3));
            }
        }
    } else {
        lemma_section_quality_bounds(low + extra, k);
    }
}

/// The quality sum never drops when text is appended.
proof fn lemma_quality_sum_monotone(low: Seq<u8>, extra: Seq<u8>, k: int)
    requires
        k >= 0,
    ensures
        quality_sum(low + extra, k) >= quality_sum(low, k),
    decreases k,
{
    if k > 0 {
        lemma_quality_sum_monotone(low, extra, k - 1);
        lemma_section_quality_monotone_low(low, extra, k - 1);
    }
}

/// The combined verb count never drops when text is appended.
proof fn lemma_verb_total_monotone(low: Seq<u8>, extra: Seq<u8>, v: int)
    requires
        v >= 0,
    ensures
        verb_total(low + extra, v) >= verb_total(low, v),
    decreases v,
{
    if v > 0 {
        lemma_verb_total_monotone(low, extra, v - 1);
        lemma_count_append(low, extra, verb_bytes(v - 1));
    }
}

/// The distinct-skill count never drops when text is appended.
proof fn lemma_skill_count_monotone(low: Seq<u8>, extra: Seq<u8>, x: int)
    requires
        x >= 0,
    ensures
        skill_count(low + extra, x) >= skill_count(low, x),
    decreases x,
{
    if x > 0 {
        lemma_skill_count_monotone(low, extra, x - 1);
        if contains_seq(low, skill_bytes(x - 1)) {
            lemma_contains_append(low, extra, skill_bytes(x - 1));
        }
    }
}

/// Appending text to a document can raise its score but never lower it:
/// every rule only rewards what is present.
pub proof fn lemma_score_monotone(t: Seq<u8>, extra: Seq<u8>)
    ensures
        score_of(t + extra) >= score_of(t),
{
    lemma_lower_append(t, extra);
    let low = lower(t);
    let more = lower(extra);
    lemma_found_count_monotone(low, more, 5);
    lemma_quality_sum_monotone(low, more, 5);
    lemma_count_append(t, extra, separator_bytes());
    lemma_verb_total_monotone(low, more, 8);
    lemma_skill_count_monotone(low, more, 9);
    lemma_score_bounded(t);
    lemma_score_bounded(t + extra);
}

/// Score a document. The score and the suggestion list are functions of the
/// text alone; the creation timestamp is stamped from the clock, and the
/// identifier is left blank for the caller to assign.
#[verifier::rlimit(100)]
pub fn analyze(text: &str) -> (r: AnalysisRecord)
    ensures
        r.score as int == score_of(text.spec_bytes()),
        0 <= r.score <= 100,
        r.improvements.deep_view() == suggestions_of(text.spec_bytes()),
        r.analysis_id@ == Seq::<char>::empty(),
{
    let ghost t = text.spec_bytes();
    let ghost l = lower(t);
    let bytes: &[u8] = text.as_bytes();
    let low_v: Vec<u8> = lower_bytes(bytes);
    let low: &[u8] = low_v.as_slice();

    // Metric markers, evaluated once against the whole document.
    let metrics: bool = contains_bytes(low, metric_term(0).as_bytes()) || contains_bytes(
        low,
        metric_term(1).as_bytes(),
    ) || contains_bytes(low, metric_term(2).as_bytes()) || contains_bytes(
        low,
        metric_term(3).as_bytes(),
    );
    proof {
        assert(metrics_bonus(l) == if metrics {
            5int
        } else {
            0int
        });
    }

    let mut improvements: Vec<String> = Vec::new();
    let (found, quality) = scan_sections(low, metrics, &mut improvements);
    let ghost missing = missing_suggestions(l, 5);
    proof {
        assert(improvements.deep_view() =~= missing);
    }
    let capped: i32 = if quality > 50 {
        50
    } else {
        quality
    };
    let bonus = bonus_checks(bytes, low, &mut improvements);
    let mut score: i32 = (found as i32) * 10 + capped + bonus;
    proof {
        assert(score as int == raw_score(t));
    }
    push_targeted(low, &mut improvements);

    // Clamp, then the generic suggestions for low scores.
    if score > 100 {
        score = 100;
    }
    proof {
        lemma_score_bounded(t);
        assert(score as int == score_of(t));
    }
    if score < 60 {
        push_generic(&mut improvements);
    }
    proof {
        assert(improvements.deep_view() =~= suggestions_of(t));
    }

    AnalysisRecord {
        score,
        improvements,
        created_at: now_rfc3339(),
        analysis_id: String::new(),
    }
}

} // verus!
