use resume_analyzer::engine::analyze;

#[test]
fn empty_text_scores_zero_with_all_generic_suggestions() {
    let r = analyze("");
    assert_eq!(r.score, 0);
    let expected = vec![
        "Add a education section",
        "Add a experience section",
        "Add a skills section",
        "Add a projects section",
        "Add a achievements section",
        "Improve formatting with clear section breaks",
        "Use more action verbs to describe your achievements",
        "Add more technical skills relevant to your field",
        "Add more specific details about your achievements",
        "Include relevant certifications and training",
        "Quantify your achievements with numbers and metrics",
    ];
    assert_eq!(r.improvements, expected);
    assert_eq!(r.analysis_id, "");
}

#[test]
fn education_only_scenario() {
    let r = analyze("education: degree from university, GPA 3.8");
    // One section found (+10), keywords degree, university, gpa (+6), no
    // metrics marker: 16 in all; every bonus check fails.
    assert_eq!(r.score, 16);
    let expected = vec![
        "Add a experience section",
        "Add a skills section",
        "Add a projects section",
        "Add a achievements section",
        "Improve formatting with clear section breaks",
        "Use more action verbs to describe your achievements",
        "Add more technical skills relevant to your field",
        "Add more specific details about your achievements",
        "Include relevant certifications and training",
        "Quantify your achievements with numbers and metrics",
    ];
    assert_eq!(r.improvements, expected);
    assert!(!r.improvements.iter().any(|s| s == "Include your GPA if it's above 3.0"));
}

#[test]
fn analysis_is_deterministic() {
    let text = "Experience: work as lead developer. Education: degree. Projects: built tools.";
    let a = analyze(text);
    let b = analyze(text);
    assert_eq!(a.score, b.score);
    assert_eq!(a.improvements, b.improvements);
}

#[test]
fn adding_increased_never_lowers_the_score() {
    let base = "education: degree from university";
    let more = "education: degree from university increased";
    let a = analyze(base);
    let b = analyze(more);
    assert!(b.score >= a.score);
    // The metrics marker is worth five points for the one present section.
    assert_eq!(a.score, 14);
    assert_eq!(b.score, 19);
}

#[test]
fn score_stays_within_bounds() {
    let texts = [
        "",
        "education experience skills projects achievements",
        "degree university college gpa graduation work job employment position role \
         technical programming software tools languages project development implementation \
         created built achieved award recognition certified completed education experience \
         skills projects achievements developed implemented created managed led increased \
         improved achieved python java javascript react node sql aws docker kubernetes \
         $ % years github\n\n\n\n\n\n\n\n\n\n\n\n\n\n",
        "increased improved $$$ %%%",
    ];
    for t in texts.iter() {
        let r = analyze(t);
        assert!(0 <= r.score && r.score <= 100);
    }
}

#[test]
fn metrics_marker_counts_once_per_present_section() {
    // Two sections present, no keywords: the dollar sign is worth five points
    // for each of them.
    let without = analyze("education experience");
    let with = analyze("education experience $");
    assert_eq!(without.score, 20);
    assert_eq!(with.score, 30);
}

#[test]
fn verb_bonus_needs_more_than_five_occurrences() {
    let five = analyze("developed developed developed developed developed");
    assert_eq!(five.score, 0);
    assert!(five.improvements.iter().any(
        |s| s == "Use more action verbs to describe your achievements",
    ));
    let six = analyze("developed developed developed developed developed developed");
    assert_eq!(six.score, 5);
    assert!(!six.improvements.iter().any(
        |s| s == "Use more action verbs to describe your achievements",
    ));
}

#[test]
fn skill_bonus_needs_more_than_three_distinct_terms() {
    let three = analyze("python react sql");
    assert_eq!(three.score, 0);
    assert!(three.improvements.iter().any(
        |s| s == "Add more technical skills relevant to your field",
    ));
    let four = analyze("python react sql docker");
    assert_eq!(four.score, 5);
    assert!(!four.improvements.iter().any(
        |s| s == "Add more technical skills relevant to your field",
    ));
}

#[test]
fn javascript_also_counts_as_java() {
    // Matching is by substring: "javascript" contains "java", so three terms
    // written out already satisfy four distinct skills.
    let r = analyze("javascript react sql");
    assert_eq!(r.score, 5);
}

#[test]
fn formatting_bonus_needs_more_than_five_separators() {
    let text = "a\n\nb\n\nc\n\nd\n\ne\n\nf\n\ng";
    let r = analyze(text);
    assert_eq!(r.score, 5);
    assert!(!r.improvements.iter().any(
        |s| s == "Improve formatting with clear section breaks",
    ));
    let short = analyze("a\n\nb\n\nc");
    assert_eq!(short.score, 0);
    assert!(short.improvements.iter().any(
        |s| s == "Improve formatting with clear section breaks",
    ));
}

#[test]
fn targeted_suggestions_fire_on_their_conditions() {
    let r = analyze("experience education project");
    assert!(r.improvements.iter().any(|s| s == "Add duration for your work experience"));
    assert!(r.improvements.iter().any(|s| s == "Include your GPA if it's above 3.0"));
    assert!(r.improvements.iter().any(|s| s == "Add links to your project repositories"));

    let quiet = analyze("experience over 3 years education gpa 3.9 project on github");
    assert!(!quiet.improvements.iter().any(|s| s == "Add duration for your work experience"));
    assert!(!quiet.improvements.iter().any(|s| s == "Include your GPA if it's above 3.0"));
    assert!(!quiet.improvements.iter().any(|s| s == "Add links to your project repositories"));
}

#[test]
fn matching_is_case_insensitive() {
    let upper = analyze("EDUCATION: DEGREE FROM UNIVERSITY, GPA 3.8");
    let lower = analyze("education: degree from university, gpa 3.8");
    assert_eq!(upper.score, lower.score);
    assert_eq!(upper.improvements, lower.improvements);
}

#[test]
fn high_score_skips_generic_suggestions() {
    let text = "education degree university gpa graduation experience work job employment \
                position role skills technical programming software tools languages projects \
                project development implementation created built achievements achieved award \
                recognition certified completed increased improved developed implemented managed \
                led python java javascript react node sql aws docker kubernetes years github\
                \n\na\n\nb\n\nc\n\nd\n\ne\n\nf";
    let r = analyze(text);
    assert!(r.score >= 60);
    assert!(!r.improvements.iter().any(
        |s| s == "Add more specific details about your achievements",
    ));
    assert_eq!(r.score, 100);
    assert!(r.improvements.is_empty());
}
