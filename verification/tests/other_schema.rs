use csaf_rs::advisory::{
    Advisory, Content, DocumentMetadata, Metric, Revision, SsvcContent, Tracking, Vulnerability,
};
use csaf_rs::csaf_traits::{
    ContentModel, ContentTrait, CsafModel, CsafTrait, DocumentModel, DocumentStatus, DocumentTrait,
    MetricModel, MetricTrait, RevisionModel, RevisionTrait, Ssvc, TrackingModel, TrackingTrait,
    VulnerabilityModel, VulnerabilityTrait,
};
use csaf_rs::timestamp::Timestamp;
use csaf_rs::validation::{run_rules, ValidationError};
use csaf_rs::validations::test_6_1_49::test_6_1_49_inconsistent_ssvc_timestamp;
use vstd::view::DeepView;

// A second document shape: the status is kept as text, an empty metric list
// stands for an absent one, and SSVC timestamps are kept as text and read on
// access.

struct Entry {
    date: String,
}

struct History {
    status: String,
    entries: Vec<Entry>,
}

struct Header {
    history: History,
}

struct Score {
    ssvc_timestamp: Option<String>,
}

struct Rating {
    score: Score,
}

struct Flaw {
    ratings: Vec<Rating>,
}

struct Bulletin {
    header: Header,
    flaws: Vec<Flaw>,
}

// The models are spoken of in proofs alone: running code never asks for one.

impl DeepView for Entry {
    type V = RevisionModel;

    fn deep_view(&self) -> RevisionModel {
        unreachable!()
    }
}

impl DeepView for History {
    type V = TrackingModel;

    fn deep_view(&self) -> TrackingModel {
        unreachable!()
    }
}

impl DeepView for Header {
    type V = DocumentModel;

    fn deep_view(&self) -> DocumentModel {
        unreachable!()
    }
}

impl DeepView for Score {
    type V = ContentModel;

    fn deep_view(&self) -> ContentModel {
        unreachable!()
    }
}

impl DeepView for Rating {
    type V = MetricModel;

    fn deep_view(&self) -> MetricModel {
        unreachable!()
    }
}

impl DeepView for Flaw {
    type V = VulnerabilityModel;

    fn deep_view(&self) -> VulnerabilityModel {
        unreachable!()
    }
}

impl DeepView for Bulletin {
    type V = CsafModel;

    fn deep_view(&self) -> CsafModel {
        unreachable!()
    }
}

impl RevisionTrait for Entry {
    fn get_date(&self) -> &String {
        &self.date
    }
}

impl TrackingTrait for History {
    type RevisionType = Entry;

    fn get_status(&self) -> DocumentStatus {
        match self.status.as_str() {
            "final" => DocumentStatus::Final,
            "interim" => DocumentStatus::Interim,
            _ => DocumentStatus::Draft,
        }
    }

    fn get_revision_history(&self) -> &Vec<Entry> {
        &self.entries
    }
}

impl DocumentTrait for Header {
    type TrackingType = History;

    fn get_tracking(&self) -> &History {
        &self.history
    }
}

impl ContentTrait for Score {
    fn has_ssvc(&self) -> bool {
        self.ssvc_timestamp.is_some()
    }

    fn get_ssvc(&self) -> Result<Ssvc, String> {
        match &self.ssvc_timestamp {
            Some(text) => match Timestamp::parse(text) {
                Some(timestamp) => Ok(Ssvc { timestamp }),
                None => Err(format!("invalid value `{}` for `timestamp`", text)),
            },
            None => Err("missing field `ssvc_v2`".to_string()),
        }
    }
}

impl MetricTrait for Rating {
    type ContentType = Score;

    fn get_content(&self) -> &Score {
        &self.score
    }
}

impl VulnerabilityTrait for Flaw {
    type MetricType = Rating;

    fn get_metrics(&self) -> Option<&Vec<Rating>> {
        if self.ratings.is_empty() {
            None
        } else {
            Some(&self.ratings)
        }
    }
}

impl CsafTrait for Bulletin {
    type VulnerabilityType = Flaw;

    type DocumentType = Header;

    fn get_vulnerabilities(&self) -> &Vec<Flaw> {
        &self.flaws
    }

    fn get_document(&self) -> &Header {
        &self.header
    }
}

fn bulletin(status: &str, dates: &[&str], timestamps: &[&[Option<&str>]]) -> Bulletin {
    Bulletin {
        header: Header {
            history: History {
                status: status.to_string(),
                entries: dates.iter().map(|date| Entry { date: date.to_string() }).collect(),
            },
        },
        flaws: timestamps
            .iter()
            .map(|ratings| Flaw {
                ratings: ratings
                    .iter()
                    .map(|text| Rating { score: Score { ssvc_timestamp: text.map(str::to_string) } })
                    .collect(),
            })
            .collect(),
    }
}

fn advisory(status: DocumentStatus, dates: &[&str], timestamps: &[&[Option<&str>]]) -> Advisory {
    Advisory {
        document: DocumentMetadata {
            tracking: Tracking {
                status,
                revision_history: dates.iter().map(|date| Revision { date: date.to_string() }).collect(),
            },
        },
        vulnerabilities: timestamps
            .iter()
            .map(|metrics| Vulnerability {
                metrics: if metrics.is_empty() {
                    None
                } else {
                    Some(
                        metrics
                            .iter()
                            .map(|text| Metric {
                                content: Content {
                                    ssvc_v2: match text {
                                        None => SsvcContent::Absent,
                                        Some(text) => match Timestamp::parse(text) {
                                            Some(timestamp) => SsvcContent::Parsed(Ssvc { timestamp }),
                                            None => SsvcContent::Malformed(format!(
                                                "invalid value `{}` for `timestamp`",
                                                text
                                            )),
                                        },
                                    },
                                },
                            })
                            .collect(),
                    )
                },
            })
            .collect(),
    }
}

fn error(message: &str, instance_path: &str) -> ValidationError {
    ValidationError { message: message.to_string(), instance_path: instance_path.to_string() }
}

#[test]
fn rule_reads_another_document_shape_through_the_same_interfaces() {
    let draft = bulletin("draft", &["?"], &[&[Some("?")]]);
    assert_eq!(test_6_1_49_inconsistent_ssvc_timestamp(&draft), Ok(()));

    let empty = bulletin("interim", &[], &[&[Some("2024-07-13T10:00:00+02:00")]]);
    assert_eq!(
        test_6_1_49_inconsistent_ssvc_timestamp(&empty),
        Err(vec![error(
            "Revision history must not be empty for status final or interim",
            "/document/tracking/revision_history",
        )])
    );

    let bad_date = bulletin("final", &["2024-01-24T10:00:00Z", "yesterday"], &[]);
    assert_eq!(
        test_6_1_49_inconsistent_ssvc_timestamp(&bad_date),
        Err(vec![error(
            "Invalid date format in revision history: yesterday",
            "/document/tracking/revision_history/1/date",
        )])
    );

    let unreadable = bulletin(
        "final",
        &["2024-01-24T10:00:00Z"],
        &[&[], &[None, Some("13 July 2024"), Some("2024-07-13T10:00:00+02:00")]],
    );
    assert_eq!(
        test_6_1_49_inconsistent_ssvc_timestamp(&unreadable),
        Err(vec![error(
            "Invalid SSVC object: invalid value `13 July 2024` for `timestamp`",
            "/vulnerabilities/1/metrics/1/content/ssvc_v2",
        )])
    );

    let later = bulletin(
        "final",
        &["2024-01-24T10:00:00Z", "2023-01-24T10:00:00+09:00"],
        &[&[None], &[Some("2024-01-01T00:00:00-03:00"), Some("2024-01-01T00:00:00+00:15")]],
    );
    assert_eq!(
        test_6_1_49_inconsistent_ssvc_timestamp(&later),
        Err(vec![error(
            "SSVC timestamp (2024-01-01T00:00:00+00:15) for vulnerability at index 1 is later than the newest revision date (2024-01-24T10:00:00+00:00)",
            "/vulnerabilities/1/metrics/1/content/ssvc_v2/timestamp",
        )])
    );

    let fine = bulletin("final", &["2024-01-24T10:00:00+01:00"], &[&[Some("2030-01-01T00:00:00+01:00"), None]]);
    assert_eq!(test_6_1_49_inconsistent_ssvc_timestamp(&fine), Ok(()));
}

#[test]
fn both_shapes_get_the_same_outcome() {
    let histories: [&[&str]; 4] = [
        &[],
        &["2024-01-24T10:00:00+00:00"],
        &["2024-01-24T10:00:00+02:00", "2024-01-24T07:00:00-01:00"],
        &["2024-01-24T10:00:00+00:00", "24/01/2024"],
    ];
    let contents: [&[&[Option<&str>]]; 5] = [
        &[],
        &[&[None]],
        &[&[Some("2024-07-13T10:00:00+00:00")]],
        &[&[None, Some("2024-07-13T10:00:00-00:30")], &[Some("2020-07-13T10:00:00+00:30")]],
        &[&[], &[Some("soon")]],
    ];
    let statuses = [
        ("draft", DocumentStatus::Draft),
        ("final", DocumentStatus::Final),
        ("interim", DocumentStatus::Interim),
    ];
    for (text, status) in statuses {
        for dates in histories {
            for timestamps in contents {
                let one = test_6_1_49_inconsistent_ssvc_timestamp(&bulletin(text, dates, timestamps));
                let other = test_6_1_49_inconsistent_ssvc_timestamp(&advisory(status, dates, timestamps));
                assert_eq!(one, other, "{} {:?} {:?}", text, dates, timestamps);
            }
        }
    }
}

#[test]
fn runner_drives_rules_over_another_document_shape() {
    fn needs_flaws(doc: &Bulletin) -> Result<(), Vec<ValidationError>> {
        if doc.flaws.is_empty() {
            Err(vec![error("No vulnerabilities", "/vulnerabilities")])
        } else {
            Ok(())
        }
    }
    fn ssvc_rule(doc: &Bulletin) -> Result<(), Vec<ValidationError>> {
        test_6_1_49_inconsistent_ssvc_timestamp(doc)
    }
    let catalogue: Vec<fn(&Bulletin) -> Result<(), Vec<ValidationError>>> = vec![needs_flaws, ssvc_rule];
    let doc = bulletin("final", &[], &[]);
    assert_eq!(
        run_rules(&doc, &catalogue),
        Err(vec![
            error("No vulnerabilities", "/vulnerabilities"),
            error("Revision history must not be empty for status final or interim", "/document/tracking/revision_history"),
        ])
    );
}
