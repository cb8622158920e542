//! The capability interfaces through which rules read a document.
//!
//! A rule never names a concrete schema version. Each version implements the
//! traits below once; its accessors are pure reads, and the contract of each
//! ties what it returns to the mathematical model of the value it is called
//! on. What a rule returns is stated over those models alone.

use crate::timestamp::{Timestamp, TimestampView};
use vstd::prelude::*;

verus! {

/// The lifecycle status of a document.
#[derive(Clone, Copy, Debug, PartialEq, Eq, Structural)]
pub enum DocumentStatus {
    Draft,
    Final,
    Interim,
}

/// A parsed SSVC object.
#[derive(Clone, Copy, Debug, PartialEq, Eq)]
pub struct Ssvc {
    /// The point in time the categorization was made.
    pub timestamp: Timestamp,
}

/// Model of an SSVC object.
pub struct SsvcModel {
    pub timestamp: TimestampView,
}

/// Model of a metric's content: whether it carries SSVC data, and what the
/// fallible accessor yields for it, the SSVC object or a description of why
/// it could not be read.
pub struct ContentModel {
    pub has_ssvc: bool,
    pub ssvc: Result<SsvcModel, Seq<char>>,
}

/// Model of a metric.
pub struct MetricModel {
    pub content: ContentModel,
}

/// Model of a vulnerability; `metrics` is `None` where the list is absent.
pub struct VulnerabilityModel {
    pub metrics: Option<Seq<MetricModel>>,
}

/// Model of a revision entry: its date as written.
pub struct RevisionModel {
    pub date: Seq<char>,
}

/// Model of the tracking block.
pub struct TrackingModel {
    pub status: DocumentStatus,
    pub revision_history: Seq<RevisionModel>,
}

/// Model of the document metadata.
pub struct DocumentModel {
    pub tracking: TrackingModel,
}

/// Model of a whole advisory.
pub struct CsafModel {
    pub document: DocumentModel,
    pub vulnerabilities: Seq<VulnerabilityModel>,
}

impl DeepView for Ssvc {
    type V = SsvcModel;

    open spec fn deep_view(&self) -> SsvcModel {
        SsvcModel { timestamp: self.timestamp@ }
    }
}

/// The model of what a fallible SSVC accessor returned.
pub open spec fn ssvc_result_model(result: Result<Ssvc, String>) -> Result<SsvcModel, Seq<char>> {
    match result {
        Ok(ssvc) => Ok(ssvc.deep_view()),
        Err(description) => Err(description@),
    }
}

/// A revision history entry.
pub trait RevisionTrait: DeepView<V = RevisionModel> {
    /// The date of the entry, as written in the document.
    fn get_date(&self) -> (date: &String)
        ensures
            date@ == self.deep_view().date,
    ;
}

/// The tracking block of a document.
pub trait TrackingTrait: DeepView<V = TrackingModel> {
    type RevisionType: RevisionTrait;

    /// The lifecycle status.
    fn get_status(&self) -> (status: DocumentStatus)
        ensures
            status == self.deep_view().status,
    ;

    /// The revision history, in stored order.
    fn get_revision_history(&self) -> (history: &Vec<Self::RevisionType>)
        ensures
            history.deep_view() == self.deep_view().revision_history,
    ;
}

/// The document metadata.
pub trait DocumentTrait: DeepView<V = DocumentModel> {
    type TrackingType: TrackingTrait;

    /// The tracking block.
    fn get_tracking(&self) -> (tracking: &Self::TrackingType)
        ensures
            tracking.deep_view() == self.deep_view().tracking,
    ;
}

/// The content of a metric.
pub trait ContentTrait: DeepView<V = ContentModel> {
    /// Whether the content carries SSVC data.
    fn has_ssvc(&self) -> (present: bool)
        ensures
            present == self.deep_view().has_ssvc,
    ;

    /// The SSVC object, or a description of why it could not be read.
    fn get_ssvc(&self) -> (ssvc: Result<Ssvc, String>)
        ensures
            ssvc_result_model(ssvc) == self.deep_view().ssvc,
    ;
}

/// A metric of a vulnerability.
pub trait MetricTrait: DeepView<V = MetricModel> {
    type ContentType: ContentTrait;

    /// The content of the metric.
    fn get_content(&self) -> (content: &Self::ContentType)
        ensures
            content.deep_view() == self.deep_view().content,
    ;
}

/// A vulnerability.
pub trait VulnerabilityTrait: DeepView<V = VulnerabilityModel> {
    type MetricType: MetricTrait;

    /// The metrics of the vulnerability, where it has any.
    fn get_metrics(&self) -> (metrics: Option<&Vec<Self::MetricType>>)
        ensures
            metrics.deep_view() == self.deep_view().metrics,
    ;
}

/// A whole advisory.
pub trait CsafTrait: DeepView<V = CsafModel> {
    type VulnerabilityType: VulnerabilityTrait;

    type DocumentType: DocumentTrait;

    /// The vulnerabilities, in document order.
    fn get_vulnerabilities(&self) -> (vulnerabilities: &Vec<Self::VulnerabilityType>)
        ensures
            vulnerabilities.deep_view() == self.deep_view().vulnerabilities,
    ;

    /// The document metadata.
    fn get_document(&self) -> (document: &Self::DocumentType)
        ensures
            document.deep_view() == self.deep_view().document,
    ;
}

} // verus!
