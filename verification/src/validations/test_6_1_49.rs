//! Inconsistent SSVC timestamp.
//!
//! Once a document is `final` or `interim`, the timestamp of every SSVC
//! object is held against the newest entry of the revision history.

use crate::csaf_traits::{
    ContentModel, ContentTrait, CsafModel, CsafTrait, DocumentStatus, DocumentTrait, MetricModel,
    MetricTrait, RevisionModel, RevisionTrait, SsvcModel, TrackingTrait, VulnerabilityModel,
    VulnerabilityTrait,
};
use crate::findings::{first_finding, lemma_first_finding_at, lemma_first_finding_none};
use crate::text::{append_decimal, decimal_text};
use crate::timestamp::{Timestamp, TimestampView, earlier, rfc3339_parse, rfc3339_text};
use crate::validation::{OutcomeView, ValidationError, ValidationErrorView, outcome_view};
use vstd::prelude::*;

verus! {

/// Whether the rule applies to a document of this status: only to `final`
/// and `interim` ones.
pub open spec fn applies_to(status: DocumentStatus) -> bool {
    status == DocumentStatus::Final || status == DocumentStatus::Interim
}

/// The violation for the revision entry at `index` whose date `date` is no
/// RFC 3339 date-time.
pub open spec fn invalid_date_error(date: Seq<char>, index: nat) -> ValidationErrorView {
    ValidationErrorView {
        message: "Invalid date format in revision history: "@ + date,
        instance_path: "/document/tracking/revision_history/"@ + decimal_text(index) + "/date"@,
    }
}

/// The violation for a `final` or `interim` document without revisions.
pub open spec fn empty_history_error() -> ValidationErrorView {
    ValidationErrorView {
        message: "Revision history must not be empty for status final or interim"@,
        instance_path: "/document/tracking/revision_history"@,
    }
}

/// The violation for the SSVC content of metric `metric` of vulnerability
/// `vulnerability` that could not be read, for the reason `description`.
pub open spec fn invalid_ssvc_error(
    description: Seq<char>,
    vulnerability: nat,
    metric: nat,
) -> ValidationErrorView {
    ValidationErrorView {
        message: "Invalid SSVC object: "@ + description,
        instance_path: "/vulnerabilities/"@ + decimal_text(vulnerability) + "/metrics/"@
            + decimal_text(metric) + "/content/ssvc_v2"@,
    }
}

/// The violation for an SSVC timestamp that is held to be later than the
/// newest revision date.
pub open spec fn later_timestamp_error(
    ssvc: TimestampView,
    newest: TimestampView,
    vulnerability: nat,
    metric: nat,
) -> ValidationErrorView {
    ValidationErrorView {
        message: "SSVC timestamp ("@ + rfc3339_text(ssvc) + ") for vulnerability at index "@
            + decimal_text(vulnerability) + " is later than the newest revision date ("@
            + rfc3339_text(newest) + ")"@,
        instance_path: "/vulnerabilities/"@ + decimal_text(vulnerability) + "/metrics/"@
            + decimal_text(metric) + "/content/ssvc_v2/timestamp"@,
    }
}

/// What the revision entry at `index` contributes to the scan of the
/// history: a violation if its date does not parse.
pub open spec fn date_finding(history: Seq<RevisionModel>, index: int) -> Option<
    ValidationErrorView,
> {
    if rfc3339_parse(history[index].date) is None {
        Some(invalid_date_error(history[index].date, index as nat))
    } else {
        None
    }
}

/// The findings of the scan of the history, entry by entry.
pub open spec fn date_findings(history: Seq<RevisionModel>) -> Seq<Option<ValidationErrorView>> {
    Seq::new(history.len(), |index: int| date_finding(history, index))
}

/// Whether the entry at `index` is the first of the history whose date does
/// not parse.
pub open spec fn is_first_unparseable(history: Seq<RevisionModel>, index: int) -> bool {
    &&& 0 <= index < history.len()
    &&& rfc3339_parse(history[index].date) is None
    &&& forall|i: int| 0 <= i < index ==> rfc3339_parse(#[trigger] history[i].date) is Some
}

/// The parsed dates of a history all of whose dates parse, in stored order.
pub open spec fn parsed_dates(history: Seq<RevisionModel>) -> Seq<TimestampView> {
    Seq::new(history.len(), |index: int| rfc3339_parse(history[index].date).unwrap())
}

/// The newest of the given timestamps by absolute time, `None` for no
/// timestamp at all. Among several at the same newest instant it is the one
/// that stands last.
pub open spec fn newest_of(dates: Seq<TimestampView>) -> Option<TimestampView>
    decreases dates.len(),
{
    if dates.len() == 0 {
        None
    } else {
        match newest_of(dates.drop_last()) {
            Some(best) => if earlier(dates.last(), best) {
                Some(best)
            } else {
                Some(dates.last())
            },
            None => Some(dates.last()),
        }
    }
}

/// The comparison the rule makes between an SSVC timestamp and the newest
/// revision date: it holds the SSVC timestamp to be later exactly if its UTC
/// offset is the greater one. The instants take no part in it, so this is
/// not the chronological order: a timestamp at a later instant is not
/// reported unless its offset is greater too, and one at an earlier instant
/// is reported if it is.
pub open spec fn held_later(ssvc: TimestampView, newest: TimestampView) -> bool {
    ssvc.offset_seconds > newest.offset_seconds
}

/// What one metric contributes to the scan: nothing if it carries no SSVC
/// content, the accessor's error if the content cannot be read, and a
/// violation if its timestamp is held later than `newest`.
pub open spec fn metric_finding(
    metric: MetricModel,
    newest: TimestampView,
    vulnerability: nat,
    index: nat,
) -> Option<ValidationErrorView> {
    if !metric.content.has_ssvc {
        None
    } else {
        match metric.content.ssvc {
            Ok(ssvc) => if held_later(ssvc.timestamp, newest) {
                Some(later_timestamp_error(ssvc.timestamp, newest, vulnerability, index))
            } else {
                None
            },
            Err(description) => Some(invalid_ssvc_error(description, vulnerability, index)),
        }
    }
}

/// The findings of the metrics of one vulnerability, metric by metric.
pub open spec fn metric_findings(
    metrics: Seq<MetricModel>,
    newest: TimestampView,
    vulnerability: nat,
) -> Seq<Option<ValidationErrorView>> {
    Seq::new(
        metrics.len(),
        |index: int| metric_finding(metrics[index], newest, vulnerability, index as nat),
    )
}

/// What one vulnerability contributes to the scan: the first finding among
/// its metrics, and nothing where it has no metrics.
pub open spec fn vulnerability_finding(
    vulnerability: VulnerabilityModel,
    newest: TimestampView,
    index: nat,
) -> Option<ValidationErrorView> {
    match vulnerability.metrics {
        Some(metrics) => first_finding(metric_findings(metrics, newest, index)),
        None => None,
    }
}

/// The findings of all vulnerabilities, vulnerability by vulnerability.
pub open spec fn vulnerability_findings(
    vulnerabilities: Seq<VulnerabilityModel>,
    newest: TimestampView,
) -> Seq<Option<ValidationErrorView>> {
    Seq::new(
        vulnerabilities.len(),
        |index: int| vulnerability_finding(vulnerabilities[index], newest, index as nat),
    )
}

/// The outcome of the rule on a document.
///
/// A document that is neither `final` nor `interim` passes. Otherwise the
/// first revision date that does not parse is the one violation; failing
/// that, an empty history is; failing that, the first metric in document
/// order whose SSVC content cannot be read or whose timestamp is held later
/// than the newest revision date is. A document with none of these passes.
pub open spec fn inconsistent_ssvc_timestamp(doc: CsafModel) -> OutcomeView {
    let tracking = doc.document.tracking;
    if !applies_to(tracking.status) {
        Ok(())
    } else {
        match first_finding(date_findings(tracking.revision_history)) {
            Some(error) => Err(seq![error]),
            None => match newest_of(parsed_dates(tracking.revision_history)) {
                None => Err(seq![empty_history_error()]),
                Some(newest) => match first_finding(
                    vulnerability_findings(doc.vulnerabilities, newest),
                ) {
                    Some(error) => Err(seq![error]),
                    None => Ok(()),
                },
            },
        }
    }
}

/// Builds the violation for the revision entry at `index` whose date does
/// not parse.
pub fn invalid_date(date: &str, index: usize) -> (error: ValidationError)
    ensures
        error@ == invalid_date_error(date@, index as nat),
{
    let mut message = "Invalid date format in revision history: ".to_owned();
    message.append(date);
    let mut instance_path = "/document/tracking/revision_history/".to_owned();
    append_decimal(&mut instance_path, index);
    instance_path.append("/date");
    ValidationError { message, instance_path }
}

/// Builds the violation for a `final` or `interim` document without revisions.
pub fn empty_history() -> (error: ValidationError)
    ensures
        error@ == empty_history_error(),
{
    ValidationError {
        message: "Revision history must not be empty for status final or interim".to_owned(),
        instance_path: "/document/tracking/revision_history".to_owned(),
    }
}

/// Appends `/vulnerabilities/{vulnerability}/metrics/{metric}/content/ssvc_v2`.
fn append_ssvc_path(path: &mut String, vulnerability: usize, metric: usize)
    ensures
        final(path)@ == old(path)@ + "/vulnerabilities/"@ + decimal_text(vulnerability as nat)
            + "/metrics/"@ + decimal_text(metric as nat) + "/content/ssvc_v2"@,
{
    path.append("/vulnerabilities/");
    append_decimal(path, vulnerability);
    path.append("/metrics/");
    append_decimal(path, metric);
    path.append("/content/ssvc_v2");
}

/// Builds the violation for SSVC content that could not be read.
pub fn invalid_ssvc(description: &str, vulnerability: usize, metric: usize) -> (error:
    ValidationError)
    ensures
        error@ == invalid_ssvc_error(description@, vulnerability as nat, metric as nat),
{
    let mut message = "Invalid SSVC object: ".to_owned();
    message.append(description);
    let mut instance_path = String::new();
    append_ssvc_path(&mut instance_path, vulnerability, metric);
    assert(instance_path@ =~= invalid_ssvc_error(
        description@,
        vulnerability as nat,
        metric as nat,
    ).instance_path);
    ValidationError { message, instance_path }
}

/// Builds the violation for an SSVC timestamp held later than the newest
/// revision date, with both rendered as RFC 3339 date-times.
pub fn later_timestamp(
    ssvc: &Timestamp,
    newest: &Timestamp,
    vulnerability: usize,
    metric: usize,
) -> (error: ValidationError)
    ensures
        error@ == later_timestamp_error(ssvc@, newest@, vulnerability as nat, metric as nat),
{
    let mut message = "SSVC timestamp (".to_owned();
    message.append(ssvc.to_rfc3339().as_str());
    message.append(") for vulnerability at index ");
    append_decimal(&mut message, vulnerability);
    message.append(" is later than the newest revision date (");
    message.append(newest.to_rfc3339().as_str());
    message.append(")");
    let mut instance_path = String::new();
    append_ssvc_path(&mut instance_path, vulnerability, metric);
    instance_path.append("/timestamp");
    proof {
        let expected = later_timestamp_error(ssvc@, newest@, vulnerability as nat, metric as nat);
        reveal_strlit("/content/ssvc_v2");
        reveal_strlit("/timestamp");
        reveal_strlit("/content/ssvc_v2/timestamp");
        assert("/content/ssvc_v2"@ + "/timestamp"@ =~= "/content/ssvc_v2/timestamp"@);
        assert(instance_path@ =~= "/vulnerabilities/"@ + decimal_text(vulnerability as nat)
            + "/metrics/"@ + decimal_text(metric as nat) + ("/content/ssvc_v2"@ + "/timestamp"@));
        assert(instance_path@ == expected.instance_path);
    }
    ValidationError { message, instance_path }
}

/// Parses the date of every revision entry, in stored order, and stops at
/// the first one that does not parse.
pub fn parse_revision_dates<R: RevisionTrait>(history: &Vec<R>) -> (parsed: Result<
    Vec<Timestamp>,
    ValidationError,
>)
    ensures
        parsed is Ok <==> forall|i: int|
            0 <= i < history.len() ==> rfc3339_parse(
                #[trigger] history.deep_view()[i].date,
            ) is Some,
        match parsed {
            Ok(dates) => first_finding(date_findings(history.deep_view())) is None
                && dates.deep_view() == parsed_dates(history.deep_view()),
            Err(error) => first_finding(date_findings(history.deep_view())) == Some(error@),
        },
{
    let ghost model = history.deep_view();
    let ghost findings = date_findings(model);
    proof {
        lemma_first_finding_none(findings);
        if forall|i: int| 0 <= i < model.len() ==> rfc3339_parse(#[trigger] model[i].date) is Some {
            assert forall|i: int| 0 <= i < findings.len() implies findings[i] is None by {
                assert(rfc3339_parse(model[i].date) is Some);
            }
        } else {
            let i = choose|i: int|
                0 <= i < model.len() && !(rfc3339_parse(#[trigger] model[i].date) is Some);
            assert(findings[i] is Some);
        }
    }
    let mut dates: Vec<Timestamp> = Vec::new();
    let mut index: usize = 0;
    while index < history.len()
        invariant
            model == history.deep_view(),
            findings == date_findings(model),
            index <= history.len(),
            dates.len() == index,
            forall|i: int| 0 <= i < index ==> findings[i] is None,
            forall|i: int| 0 <= i < index ==> dates[i]@ == parsed_dates(model)[i],
        decreases history.len() - index,
    {
        let date = history[index].get_date();
        assert(date@ == model[index as int].date);
        match Timestamp::parse(date.as_str()) {
            Some(timestamp) => {
                dates.push(timestamp);
            },
            None => {
                proof {
                    lemma_first_finding_at(findings, index as int);
                }
                return Err(invalid_date(date.as_str(), index));
            },
        }
        index += 1;
    }
    proof {
        lemma_first_finding_none(findings);
        assert(dates.deep_view() =~= parsed_dates(model));
    }
    Ok(dates)
}

/// The newest of the given timestamps by absolute time; among several at the
/// same newest instant, the last.
pub fn newest_timestamp(dates: &Vec<Timestamp>) -> (newest: Option<Timestamp>)
    ensures
        newest.deep_view() == newest_of(dates.deep_view()),
{
    let ghost model = dates.deep_view();
    let mut newest: Option<Timestamp> = None;
    let mut index: usize = 0;
    while index < dates.len()
        invariant
            model == dates.deep_view(),
            index <= dates.len(),
            newest.deep_view() == newest_of(model.take(index as int)),
        decreases dates.len() - index,
    {
        let date = dates[index];
        proof {
            assert(model.take(index + 1).drop_last() =~= model.take(index as int));
            assert(model.take(index + 1).last() == date@);
        }
        newest =
        match newest {
            Some(best) => if date.is_earlier_than(&best) {
                Some(best)
            } else {
                Some(date)
            },
            None => Some(date),
        };
        index += 1;
    }
    proof {
        assert(model.take(index as int) =~= model);
    }
    newest
}

/// Whether the rule holds `ssvc` to be later than `newest`: whether its UTC
/// offset is the greater one.
pub fn is_held_later(ssvc: &Timestamp, newest: &Timestamp) -> (later: bool)
    ensures
        later == held_later(ssvc@, newest@),
{
    ssvc.offset_seconds() > newest.offset_seconds()
}

/// Checks the metric at `index` of the vulnerability at `vulnerability`.
pub fn check_metric<M: MetricTrait>(
    metric: &M,
    newest: &Timestamp,
    vulnerability: usize,
    index: usize,
) -> (finding: Option<ValidationError>)
    ensures
        finding.deep_view() == metric_finding(
            metric.deep_view(),
            newest@,
            vulnerability as nat,
            index as nat,
        ),
{
    let content = metric.get_content();
    if !content.has_ssvc() {
        return None;
    }
    match content.get_ssvc() {
        Ok(ssvc) => {
            if is_held_later(&ssvc.timestamp, newest) {
                Some(later_timestamp(&ssvc.timestamp, newest, vulnerability, index))
            } else {
                None
            }
        },
        Err(description) => Some(invalid_ssvc(description.as_str(), vulnerability, index)),
    }
}

/// Checks the metrics of the vulnerability at `vulnerability` in order and
/// stops at the first finding.
pub fn check_metrics<M: MetricTrait>(
    metrics: &Vec<M>,
    newest: &Timestamp,
    vulnerability: usize,
) -> (finding: Option<ValidationError>)
    ensures
        finding.deep_view() == first_finding(
            metric_findings(metrics.deep_view(), newest@, vulnerability as nat),
        ),
{
    let ghost findings = metric_findings(metrics.deep_view(), newest@, vulnerability as nat);
    let mut index: usize = 0;
    while index < metrics.len()
        invariant
            findings == metric_findings(metrics.deep_view(), newest@, vulnerability as nat),
            index <= metrics.len(),
            forall|i: int| 0 <= i < index ==> findings[i] is None,
        decreases metrics.len() - index,
    {
        let finding = check_metric(&metrics[index], newest, vulnerability, index);
        if finding.is_some() {
            proof {
                lemma_first_finding_at(findings, index as int);
            }
            return finding;
        }
        index += 1;
    }
    proof {
        lemma_first_finding_none(findings);
    }
    None
}

/// Checks the vulnerabilities in document order and stops at the first
/// finding.
pub fn check_vulnerabilities<V: VulnerabilityTrait>(
    vulnerabilities: &Vec<V>,
    newest: &Timestamp,
) -> (finding: Option<ValidationError>)
    ensures
        finding.deep_view() == first_finding(
            vulnerability_findings(vulnerabilities.deep_view(), newest@),
        ),
{
    let ghost findings = vulnerability_findings(vulnerabilities.deep_view(), newest@);
    let mut index: usize = 0;
    while index < vulnerabilities.len()
        invariant
            findings == vulnerability_findings(vulnerabilities.deep_view(), newest@),
            index <= vulnerabilities.len(),
            forall|i: int| 0 <= i < index ==> findings[i] is None,
        decreases vulnerabilities.len() - index,
    {
        if let Some(metrics) = vulnerabilities[index].get_metrics() {
            let finding = check_metrics(metrics, newest, index);
            if finding.is_some() {
                proof {
                    lemma_first_finding_at(findings, index as int);
                }
                return finding;
            }
        }
        index += 1;
    }
    proof {
        lemma_first_finding_none(findings);
    }
    None
}

/// The failure that reports the one violation `error`.
fn failure(error: ValidationError) -> (outcome: Result<(), Vec<ValidationError>>)
    ensures
        outcome_view(outcome) == Err::<(), Seq<ValidationErrorView>>(seq![error@]),
        outcome matches Err(errors) && errors.len() == 1,
{
    let errors = vec![error];
    assert(errors.deep_view() =~= seq![error@]);
    Err(errors)
}

/// 6.1.49 Inconsistent SSVC Timestamp
///
/// Where the document status is `final` or `interim`, the `timestamp` of
/// each SSVC object is held against the `date` of the newest item of the
/// `revision_history`, by the comparison [`held_later`]. The rule reports at
/// most one violation, the first it meets; [`inconsistent_ssvc_timestamp`]
/// says which.
pub fn test_6_1_49_inconsistent_ssvc_timestamp(doc: &impl CsafTrait) -> (outcome: Result<
    (),
    Vec<ValidationError>,
>)
    ensures
        outcome_view(outcome) == inconsistent_ssvc_timestamp(doc.deep_view()),
        outcome matches Err(errors) ==> errors.len() == 1,
        !applies_to(doc.deep_view().document.tracking.status) ==> outcome is Ok,
        applies_to(doc.deep_view().document.tracking.status)
            && doc.deep_view().document.tracking.revision_history.len() == 0 ==> outcome_view(
            outcome,
        ) == Err::<(), Seq<ValidationErrorView>>(seq![empty_history_error()]),
        forall|index: int|
            applies_to(doc.deep_view().document.tracking.status) && #[trigger] is_first_unparseable(
                doc.deep_view().document.tracking.revision_history,
                index,
            ) ==> outcome_view(outcome) == Err::<(), Seq<ValidationErrorView>>(
                seq![
                    invalid_date_error(
                        doc.deep_view().document.tracking.revision_history[index].date,
                        index as nat,
                    ),
                ],
            ),
{
    proof {
        let model = doc.deep_view();
        if applies_to(model.document.tracking.status) {
            if model.document.tracking.revision_history.len() == 0 {
                lemma_empty_history_fails(model);
            }
            assert forall|index: int| #[trigger]
                is_first_unparseable(
                    model.document.tracking.revision_history,
                    index,
                ) implies inconsistent_ssvc_timestamp(model) == Err::<
                (),
                Seq<ValidationErrorView>,
            >(
                seq![
                    invalid_date_error(
                        model.document.tracking.revision_history[index].date,
                        index as nat,
                    ),
                ],
            ) by {
                lemma_first_unparseable_date_fails(model, index);
            }
        }
    }
    let document = doc.get_document();
    let tracking = document.get_tracking();
    let status = tracking.get_status();

    if status != DocumentStatus::Final && status != DocumentStatus::Interim {
        return Ok(());
    }
    let dates = match parse_revision_dates(tracking.get_revision_history()) {
        Ok(dates) => dates,
        Err(error) => {
            return failure(error);
        },
    };
    let newest = match newest_timestamp(&dates) {
        Some(newest) => newest,
        None => {
            return failure(empty_history());
        },
    };
    match check_vulnerabilities(doc.get_vulnerabilities(), &newest) {
        Some(error) => failure(error),
        None => Ok(()),
    }
}

/// Whether the timestamp at `at` is the newest of `dates`: none is at a
/// later instant, and every one behind it is at a strictly earlier instant.
pub open spec fn is_newest_at(dates: Seq<TimestampView>, at: int) -> bool {
    &&& 0 <= at < dates.len()
    &&& forall|j: int| 0 <= j < dates.len() ==> !earlier(dates[at], #[trigger] dates[j])
    &&& forall|j: int| at < j < dates.len() ==> earlier(#[trigger] dates[j], dates[at])
}

/// The newest timestamp is found by absolute time and not by position: it
/// is the last of those that no other is later than, wherever it stands.
pub proof fn lemma_newest_is_last_maximum(dates: Seq<TimestampView>)
    requires
        dates.len() > 0,
    ensures
        exists|at: int| is_newest_at(dates, at) && newest_of(dates) == Some(dates[at]),
    decreases dates.len(),
{
    let front = dates.drop_last();
    let last = dates.len() - 1;
    if front.len() == 0 {
        assert(is_newest_at(dates, last));
    } else {
        lemma_newest_is_last_maximum(front);
        let before = choose|at: int| is_newest_at(front, at) && newest_of(front) == Some(front[at]);
        if earlier(dates.last(), front[before]) {
            assert forall|j: int| 0 <= j < dates.len() implies !earlier(
                dates[before],
                #[trigger] dates[j],
            ) by {
                if j < last {
                    assert(front[j] == dates[j]);
                }
            }
            assert forall|j: int| before < j < dates.len() implies earlier(
                #[trigger] dates[j],
                dates[before],
            ) by {
                if j < last {
                    assert(front[j] == dates[j]);
                }
            }
            assert(is_newest_at(dates, before));
        } else {
            assert forall|j: int| 0 <= j < dates.len() implies !earlier(
                dates[last],
                #[trigger] dates[j],
            ) by {
                if j < last {
                    assert(front[j] == dates[j]);
                    assert(!earlier(front[before], front[j]));
                }
            }
            assert(is_newest_at(dates, last));
        }
    }
}

/// A document that is neither `final` nor `interim` passes, whatever its
/// revision history and its SSVC content hold.
pub proof fn lemma_other_status_passes(doc: CsafModel)
    requires
        !applies_to(doc.document.tracking.status),
    ensures
        inconsistent_ssvc_timestamp(doc) == Ok::<(), Seq<ValidationErrorView>>(()),
{
}

/// A `final` or `interim` document with an empty revision history fails
/// with the one violation that says so, whatever its vulnerabilities hold.
pub proof fn lemma_empty_history_fails(doc: CsafModel)
    requires
        applies_to(doc.document.tracking.status),
        doc.document.tracking.revision_history.len() == 0,
    ensures
        inconsistent_ssvc_timestamp(doc) == Err::<(), Seq<ValidationErrorView>>(
            seq![empty_history_error()],
        ),
{
    let history = doc.document.tracking.revision_history;
    lemma_first_finding_none(date_findings(history));
    assert(parsed_dates(history).len() == 0);
}

/// In a `final` or `interim` document, the first revision entry whose date
/// does not parse gives the one violation of the outcome, addressed to that
/// entry's date, whatever the other entries and the vulnerabilities hold.
pub proof fn lemma_first_unparseable_date_fails(doc: CsafModel, index: int)
    requires
        applies_to(doc.document.tracking.status),
        is_first_unparseable(doc.document.tracking.revision_history, index),
    ensures
        inconsistent_ssvc_timestamp(doc) == Err::<(), Seq<ValidationErrorView>>(
            seq![
                invalid_date_error(
                    doc.document.tracking.revision_history[index].date,
                    index as nat,
                ),
            ],
        ),
{
    let history = doc.document.tracking.revision_history;
    lemma_first_finding_at(date_findings(history), index);
}

/// In a `final` or `interim` document with a revision date that does not
/// parse, the outcome is exactly one violation, and it is addressed to the
/// date of an entry that does not parse.
pub proof fn lemma_unparseable_date_gives_one_violation(doc: CsafModel, index: int)
    requires
        applies_to(doc.document.tracking.status),
        0 <= index < doc.document.tracking.revision_history.len(),
        rfc3339_parse(doc.document.tracking.revision_history[index].date) is None,
    ensures
        exists|first: int|
            0 <= first <= index && rfc3339_parse(
                #[trigger] doc.document.tracking.revision_history[first].date,
            ) is None && inconsistent_ssvc_timestamp(doc) == Err::<(), Seq<ValidationErrorView>>(
                seq![
                    invalid_date_error(
                        doc.document.tracking.revision_history[first].date,
                        first as nat,
                    ),
                ],
            ),
    decreases index,
{
    let history = doc.document.tracking.revision_history;
    if forall|i: int| 0 <= i < index ==> rfc3339_parse(#[trigger] history[i].date) is Some {
        lemma_first_unparseable_date_fails(doc, index);
    } else {
        let sooner = choose|i: int|
            0 <= i < index && !(rfc3339_parse(#[trigger] history[i].date) is Some);
        lemma_unparseable_date_gives_one_violation(doc, sooner);
    }
}

/// The comparison is decided by the UTC offsets alone: two pairs of
/// timestamps with the same offsets get the same verdict, whatever their
/// instants.
pub proof fn lemma_comparison_ignores_instants(
    ssvc: TimestampView,
    newest: TimestampView,
    moved_ssvc: TimestampView,
    moved_newest: TimestampView,
)
    requires
        ssvc.offset_seconds == moved_ssvc.offset_seconds,
        newest.offset_seconds == moved_newest.offset_seconds,
    ensures
        held_later(ssvc, newest) == held_later(moved_ssvc, moved_newest),
{
}

/// Of an SSVC timestamp and a newest revision date at one and the same
/// instant, the SSVC timestamp is reported exactly if its UTC offset is the
/// greater one.
pub proof fn lemma_same_instant_compared_by_offset(
    ssvc: TimestampView,
    newest: TimestampView,
    vulnerability: nat,
    metric: nat,
)
    requires
        ssvc.seconds == newest.seconds,
        ssvc.nanoseconds == newest.nanoseconds,
    ensures
        !earlier(ssvc, newest) && !earlier(newest, ssvc),
        held_later(ssvc, newest) <==> ssvc.offset_seconds > newest.offset_seconds,
        metric_finding(
            MetricModel {
                content: ContentModel { has_ssvc: true, ssvc: Ok(SsvcModel { timestamp: ssvc }) },
            },
            newest,
            vulnerability,
            metric,
        ) == if ssvc.offset_seconds > newest.offset_seconds {
            Some(later_timestamp_error(ssvc, newest, vulnerability, metric))
        } else {
            None
        },
{
}

/// Two runs of the rule on the same document give the same result.
pub proof fn lemma_rule_repeatable<C: CsafTrait>(
    doc: &C,
    first: Result<(), Vec<ValidationError>>,
    second: Result<(), Vec<ValidationError>>,
)
    requires
        call_ensures(test_6_1_49_inconsistent_ssvc_timestamp, (doc,), first),
        call_ensures(test_6_1_49_inconsistent_ssvc_timestamp, (doc,), second),
    ensures
        outcome_view(first) == outcome_view(second),
{
}

} // verus!
