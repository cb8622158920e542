use csaf_rs::advisory::{
    Advisory, Content, DocumentMetadata, Metric, Revision, SsvcContent, Tracking, Vulnerability,
};
use csaf_rs::csaf_traits::{
    ContentTrait, CsafTrait, DocumentStatus, DocumentTrait, MetricTrait, RevisionTrait, Ssvc,
    TrackingTrait, VulnerabilityTrait,
};
use csaf_rs::timestamp::Timestamp;
use csaf_rs::validation::{collect_outcomes, run_rules, ValidationError};
use csaf_rs::validations::test_6_1_49::test_6_1_49_inconsistent_ssvc_timestamp;

type Outcome = Result<(), Vec<ValidationError>>;
type Rule = fn(&Advisory) -> Outcome;

fn error(message: &str, instance_path: &str) -> ValidationError {
    ValidationError { message: message.to_string(), instance_path: instance_path.to_string() }
}

fn advisory(status: DocumentStatus, dates: &[&str], timestamps: &[&str]) -> Advisory {
    Advisory {
        document: DocumentMetadata {
            tracking: Tracking {
                status,
                revision_history: dates.iter().map(|date| Revision { date: date.to_string() }).collect(),
            },
        },
        vulnerabilities: timestamps
            .iter()
            .map(|text| Vulnerability {
                metrics: Some(vec![Metric {
                    content: Content {
                        ssvc_v2: SsvcContent::Parsed(Ssvc { timestamp: Timestamp::parse(text).unwrap() }),
                    },
                }]),
            })
            .collect(),
    }
}

fn needs_vulnerabilities(doc: &Advisory) -> Outcome {
    if doc.vulnerabilities.is_empty() {
        Err(vec![error("No vulnerabilities", "/vulnerabilities")])
    } else {
        Ok(())
    }
}

fn needs_two_revisions(doc: &Advisory) -> Outcome {
    let found = doc.document.tracking.revision_history.len();
    if found < 2 {
        Err(vec![
            error(&format!("Only {} revision(s)", found), "/document/tracking/revision_history"),
            error("A second revision is missing", "/document/tracking/revision_history/1"),
        ])
    } else {
        Ok(())
    }
}

fn always_passes(_doc: &Advisory) -> Outcome {
    Ok(())
}

fn fails_without_violations(_doc: &Advisory) -> Outcome {
    Err(vec![])
}

fn ssvc_rule(doc: &Advisory) -> Outcome {
    test_6_1_49_inconsistent_ssvc_timestamp(doc)
}

#[test]
fn both_failing_rules_are_reported_in_catalogue_order() {
    let doc = advisory(DocumentStatus::Final, &[], &[]);
    let catalogue: Vec<Rule> = vec![ssvc_rule, always_passes, needs_vulnerabilities];
    assert_eq!(
        run_rules(&doc, &catalogue),
        Err(vec![
            error("Revision history must not be empty for status final or interim", "/document/tracking/revision_history"),
            error("No vulnerabilities", "/vulnerabilities"),
        ])
    );

    let reversed: Vec<Rule> = vec![needs_vulnerabilities, always_passes, ssvc_rule];
    assert_eq!(
        run_rules(&doc, &reversed),
        Err(vec![
            error("No vulnerabilities", "/vulnerabilities"),
            error("Revision history must not be empty for status final or interim", "/document/tracking/revision_history"),
        ])
    );
}

#[test]
fn every_violation_of_every_failing_rule_is_kept() {
    let doc = advisory(DocumentStatus::Final, &["2024-01-24T10:00:00+00:00"], &["2024-07-13T12:00:00+02:00"]);
    let catalogue: Vec<Rule> = vec![needs_two_revisions, ssvc_rule, needs_vulnerabilities, needs_two_revisions];
    assert_eq!(
        run_rules(&doc, &catalogue),
        Err(vec![
            error("Only 1 revision(s)", "/document/tracking/revision_history"),
            error("A second revision is missing", "/document/tracking/revision_history/1"),
            error(
                "SSVC timestamp (2024-07-13T12:00:00+02:00) for vulnerability at index 0 is later than the newest revision date (2024-01-24T10:00:00+00:00)",
                "/vulnerabilities/0/metrics/0/content/ssvc_v2/timestamp",
            ),
            error("Only 1 revision(s)", "/document/tracking/revision_history"),
            error("A second revision is missing", "/document/tracking/revision_history/1"),
        ])
    );
}

#[test]
fn pass_succeeds_only_if_every_rule_succeeds() {
    let doc = advisory(DocumentStatus::Final, &["2024-01-24T10:00:00+00:00", "2024-01-25T10:00:00+00:00"], &["2024-07-13T10:00:00+00:00"]);
    let passing: Vec<Rule> = vec![ssvc_rule, needs_vulnerabilities, needs_two_revisions, always_passes];
    assert_eq!(run_rules(&doc, &passing), Ok(()));

    let none: Vec<Rule> = vec![];
    assert_eq!(run_rules(&doc, &none), Ok(()));

    let one_failure_last: Vec<Rule> = vec![always_passes, always_passes, fails_without_violations];
    assert_eq!(run_rules(&doc, &one_failure_last), Err(vec![]));
}

#[test]
fn a_failure_does_not_keep_later_rules_from_running() {
    let doc = advisory(DocumentStatus::Interim, &["bad date"], &[]);
    let calls = std::cell::Cell::new(0);
    let counting = |doc: &Advisory| {
        calls.set(calls.get() + 1);
        test_6_1_49_inconsistent_ssvc_timestamp(doc)
    };
    let catalogue = vec![&counting, &counting, &counting];
    let outcome = run_rules(&doc, &catalogue);
    assert_eq!(calls.get(), 3);
    let one = error("Invalid date format in revision history: bad date", "/document/tracking/revision_history/0/date");
    assert_eq!(outcome, Err(vec![one.clone(), one.clone(), one]));
}

#[test]
fn rerunning_the_pass_gives_the_same_result() {
    let doc = advisory(DocumentStatus::Final, &["2024-01-24T10:00:00+00:00"], &["2024-07-13T12:00:00+02:00"]);
    let catalogue: Vec<Rule> = vec![needs_two_revisions, ssvc_rule, always_passes];
    let first = run_rules(&doc, &catalogue);
    let second = run_rules(&doc, &catalogue);
    assert!(first.is_err());
    assert_eq!(first, second);
}

#[test]
fn outcomes_are_combined_in_the_order_given() {
    assert_eq!(collect_outcomes(vec![]), Ok(()));
    assert_eq!(collect_outcomes(vec![Ok(()), Ok(())]), Ok(()));
    assert_eq!(
        collect_outcomes(vec![
            Err(vec![error("a", "/a"), error("b", "/b")]),
            Ok(()),
            Err(vec![]),
            Err(vec![error("c", "/c")]),
        ]),
        Err(vec![error("a", "/a"), error("b", "/b"), error("c", "/c")])
    );
    assert_eq!(collect_outcomes(vec![Ok(()), Err(vec![])]), Err(vec![]));
}

#[test]
fn accessors_read_the_advisory() {
    let doc = advisory(DocumentStatus::Interim, &["2024-01-24T10:00:00+00:00", "x"], &["2024-07-13T12:00:00+02:00"]);
    let tracking = doc.get_document().get_tracking();
    assert_eq!(tracking.get_status(), DocumentStatus::Interim);
    assert_eq!(tracking.get_revision_history().len(), 2);
    assert_eq!(tracking.get_revision_history()[1].get_date(), "x");
    let vulnerabilities = doc.get_vulnerabilities();
    assert_eq!(vulnerabilities.len(), 1);
    let metrics = vulnerabilities[0].get_metrics().unwrap();
    let content = metrics[0].get_content();
    assert!(content.has_ssvc());
    assert_eq!(content.get_ssvc().unwrap().timestamp.to_rfc3339(), "2024-07-13T12:00:00+02:00");

    let absent = Content { ssvc_v2: SsvcContent::Absent };
    assert!(!absent.has_ssvc());
    assert_eq!(absent.get_ssvc(), Err("no SSVC content".to_string()));
    let malformed = Content { ssvc_v2: SsvcContent::Malformed("missing field `timestamp`".to_string()) };
    assert!(malformed.has_ssvc());
    assert_eq!(malformed.get_ssvc(), Err("missing field `timestamp`".to_string()));
    assert_eq!(Vulnerability { metrics: None }.get_metrics(), None);
}
