//! A plain in-memory advisory: the capability interfaces implemented over
//! ordinary structs, holding exactly what the rules read.

use crate::csaf_traits::{
    ContentModel, ContentTrait, CsafModel, CsafTrait, DocumentModel, DocumentStatus,
    DocumentTrait, MetricModel, MetricTrait, RevisionModel, RevisionTrait, Ssvc, TrackingModel,
    TrackingTrait, VulnerabilityModel, VulnerabilityTrait,
};
use vstd::prelude::*;

verus! {

/// A revision history entry.
#[derive(Clone, Debug, PartialEq, Eq)]
pub struct Revision {
    /// The date of the entry, as written.
    pub date: String,
}

/// The tracking block.
#[derive(Clone, Debug, PartialEq, Eq)]
pub struct Tracking {
    pub status: DocumentStatus,
    pub revision_history: Vec<Revision>,
}

/// The document metadata.
#[derive(Clone, Debug, PartialEq, Eq)]
pub struct DocumentMetadata {
    pub tracking: Tracking,
}

/// The SSVC part of a metric's content.
#[derive(Clone, Debug, PartialEq, Eq)]
pub enum SsvcContent {
    /// The content carries no SSVC data.
    Absent,
    /// The content carries an SSVC object that was read.
    Parsed(Ssvc),
    /// The content carries SSVC data that could not be read, for the given reason.
    Malformed(String),
}

/// The content of a metric.
#[derive(Clone, Debug, PartialEq, Eq)]
pub struct Content {
    pub ssvc_v2: SsvcContent,
}

/// A metric of a vulnerability.
#[derive(Clone, Debug, PartialEq, Eq)]
pub struct Metric {
    pub content: Content,
}

/// A vulnerability.
#[derive(Clone, Debug, PartialEq, Eq)]
pub struct Vulnerability {
    /// The metrics, `None` where the document has no such list.
    pub metrics: Option<Vec<Metric>>,
}

/// A whole advisory.
#[derive(Clone, Debug, PartialEq, Eq)]
pub struct Advisory {
    pub document: DocumentMetadata,
    pub vulnerabilities: Vec<Vulnerability>,
}

/// What the accessor reports for content without SSVC data.
pub open spec fn absent_ssvc_description() -> Seq<char> {
    "no SSVC content"@
}

impl DeepView for Revision {
    type V = RevisionModel;

    open spec fn deep_view(&self) -> RevisionModel {
        RevisionModel { date: self.date@ }
    }
}

impl DeepView for Tracking {
    type V = TrackingModel;

    open spec fn deep_view(&self) -> TrackingModel {
        TrackingModel {
            status: self.status,
            revision_history: self.revision_history.deep_view(),
        }
    }
}

impl DeepView for DocumentMetadata {
    type V = DocumentModel;

    open spec fn deep_view(&self) -> DocumentModel {
        DocumentModel { tracking: self.tracking.deep_view() }
    }
}

impl DeepView for Content {
    type V = ContentModel;

    open spec fn deep_view(&self) -> ContentModel {
        match self.ssvc_v2 {
            SsvcContent::Absent => ContentModel {
                has_ssvc: false,
                ssvc: Err(absent_ssvc_description()),
            },
            SsvcContent::Parsed(ssvc) => ContentModel {
                has_ssvc: true,
                ssvc: Ok(ssvc.deep_view()),
            },
            SsvcContent::Malformed(description) => ContentModel {
                has_ssvc: true,
                ssvc: Err(description@),
            },
        }
    }
}

impl DeepView for Metric {
    type V = MetricModel;

    open spec fn deep_view(&self) -> MetricModel {
        MetricModel { content: self.content.deep_view() }
    }
}

impl DeepView for Vulnerability {
    type V = VulnerabilityModel;

    open spec fn deep_view(&self) -> VulnerabilityModel {
        VulnerabilityModel { metrics: self.metrics.deep_view() }
    }
}

impl DeepView for Advisory {
    type V = CsafModel;

    open spec fn deep_view(&self) -> CsafModel {
        CsafModel {
            document: self.document.deep_view(),
            vulnerabilities: self.vulnerabilities.deep_view(),
        }
    }
}

impl RevisionTrait for Revision {
    fn get_date(&self) -> (date: &String) {
        &self.date
    }
}

impl TrackingTrait for Tracking {
    type RevisionType = Revision;

    fn get_status(&self) -> (status: DocumentStatus) {
        self.status
    }

    fn get_revision_history(&self) -> (history: &Vec<Revision>) {
        &self.revision_history
    }
}

impl DocumentTrait for DocumentMetadata {
    type TrackingType = Tracking;

    fn get_tracking(&self) -> (tracking: &Tracking) {
        &self.tracking
    }
}

impl ContentTrait for Content {
    fn has_ssvc(&self) -> (present: bool) {
        match &self.ssvc_v2 {
            SsvcContent::Absent => false,
            _ => true,
        }
    }

    fn get_ssvc(&self) -> (ssvc: Result<Ssvc, String>) {
        match &self.ssvc_v2 {
            SsvcContent::Absent => Err("no SSVC content".to_owned()),
            SsvcContent::Parsed(ssvc) => Ok(*ssvc),
            SsvcContent::Malformed(description) => Err(description.clone()),
        }
    }
}

impl MetricTrait for Metric {
    type ContentType = Content;

    fn get_content(&self) -> (content: &Content) {
        &self.content
    }
}

impl VulnerabilityTrait for Vulnerability {
    type MetricType = Metric;

    fn get_metrics(&self) -> (metrics: Option<&Vec<Metric>>) {
        match &self.metrics {
            Some(metrics) => Some(metrics),
            None => None,
        }
    }
}

impl CsafTrait for Advisory {
    type VulnerabilityType = Vulnerability;

    type DocumentType = DocumentMetadata;

    fn get_vulnerabilities(&self) -> (vulnerabilities: &Vec<Vulnerability>) {
        &self.vulnerabilities
    }

    fn get_document(&self) -> (document: &DocumentMetadata) {
        &self.document
    }
}

} // verus!
