//! The case record that the crawl persists, its parts, and their
//! mathematical views.

use vstd::prelude::*;

verus! {

/// The two kinds of document that the crawl looks for.
#[derive(Clone, Copy, Debug, PartialEq, Eq, Structural)]
pub enum DocKind {
    /// The form with which the application was submitted.
    ApplicationForm,
    /// The notice that records the decision on the case.
    DecisionNotice,
}

/// The logical type under which a document of this kind is stored.
pub open spec fn label_of(kind: DocKind) -> Seq<char> {
    match kind {
        DocKind::ApplicationForm => "application_form"@,
        DocKind::DecisionNotice => "decision_notice"@,
    }
}

impl DocKind {
    /// The logical type under which a document of this kind is stored.
    pub fn label(&self) -> (s: &'static str)
        ensures
            s@ == label_of(*self),
    {
        match self {
            DocKind::ApplicationForm => "application_form",
            DocKind::DecisionNotice => "decision_notice",
        }
    }
}

/// Where blob storage keeps an uploaded file.
#[derive(Clone, Debug, PartialEq, Eq)]
pub struct StorageLocation {
    pub bucket: String,
    pub key: String,
    pub e_tag: String,
    pub location: String,
    pub server_side_encryption: String,
}

/// The view of a [`StorageLocation`].
pub struct StorageLocationView {
    pub bucket: Seq<char>,
    pub key: Seq<char>,
    pub e_tag: Seq<char>,
    pub location: Seq<char>,
    pub server_side_encryption: Seq<char>,
}

impl View for StorageLocation {
    type V = StorageLocationView;

    open spec fn view(&self) -> StorageLocationView {
        StorageLocationView {
            bucket: self.bucket@,
            key: self.key@,
            e_tag: self.e_tag@,
            location: self.location@,
            server_side_encryption: self.server_side_encryption@,
        }
    }
}

/// The descriptor of one uploaded file.
#[derive(Clone, Debug, PartialEq, Eq)]
pub struct DocumentRef {
    /// The file's format, such as "pdf".
    pub file_type: String,
    /// The file's name: its storage key.
    pub name: String,
    /// The file's size in bytes.
    pub size: u64,
    /// The logical type of the document.
    pub doc_type: String,
    /// Where the file is kept.
    pub s3: StorageLocation,
}

/// The view of a [`DocumentRef`].
pub struct DocumentRefView {
    pub file_type: Seq<char>,
    pub name: Seq<char>,
    pub size: u64,
    pub doc_type: Seq<char>,
    pub s3: StorageLocationView,
}

impl View for DocumentRef {
    type V = DocumentRefView;

    open spec fn view(&self) -> DocumentRefView {
        DocumentRefView {
            file_type: self.file_type@,
            name: self.name@,
            size: self.size,
            doc_type: self.doc_type@,
            s3: self.s3@,
        }
    }
}

/// The views of a list of documents, in order.
pub open spec fn documents_view(documents: Seq<DocumentRef>) -> Seq<DocumentRefView> {
    Seq::new(documents.len(), |i: int| documents[i]@)
}

/// Whether a document of the given kind stands in the list.
pub open spec fn holds_kind(documents: Seq<DocumentRefView>, kind: DocKind) -> bool {
    exists|i: int| 0 <= i < documents.len() && #[trigger] documents[i].doc_type == label_of(kind)
}

/// The summary of a case. A field that the portal's page lacks is empty, a
/// date that it lacks or that is no date is absent.
#[derive(Clone, Debug, PartialEq, Eq)]
pub struct Summary {
    pub reference: String,
    pub application_validated: String,
    pub address: String,
    pub proposal: String,
    pub status: String,
    pub decision: String,
    pub decision_issued_date: Option<String>,
    pub appeal_status: String,
    pub appeal_decision: String,
    pub application_validated_date: Option<String>,
    pub agreed_expiry_date: Option<String>,
    pub determination_deadline: Option<String>,
}

/// The view of a [`Summary`].
pub struct SummaryView {
    pub reference: Seq<char>,
    pub application_validated: Seq<char>,
    pub address: Seq<char>,
    pub proposal: Seq<char>,
    pub status: Seq<char>,
    pub decision: Seq<char>,
    pub decision_issued_date: Option<Seq<char>>,
    pub appeal_status: Seq<char>,
    pub appeal_decision: Seq<char>,
    pub application_validated_date: Option<Seq<char>>,
    pub agreed_expiry_date: Option<Seq<char>>,
    pub determination_deadline: Option<Seq<char>>,
}

impl View for Summary {
    type V = SummaryView;

    open spec fn view(&self) -> SummaryView {
        SummaryView {
            reference: self.reference@,
            application_validated: self.application_validated@,
            address: self.address@,
            proposal: self.proposal@,
            status: self.status@,
            decision: self.decision@,
            decision_issued_date: self.decision_issued_date.deep_view(),
            appeal_status: self.appeal_status@,
            appeal_decision: self.appeal_decision@,
            application_validated_date: self.application_validated_date.deep_view(),
            agreed_expiry_date: self.agreed_expiry_date.deep_view(),
            determination_deadline: self.determination_deadline.deep_view(),
        }
    }
}

/// Further information on a case.
#[derive(Clone, Debug, PartialEq, Eq)]
pub struct FurtherInformation {
    pub application_type: String,
    pub actual_decision_level: String,
    pub expected_decision_level: String,
    pub parish: String,
    pub ward: String,
    pub applicant_name: String,
    pub agent_name: String,
    pub agent_company_name: String,
    pub agent_address: String,
    pub environmental_assessment_requested: String,
}

/// The view of a [`FurtherInformation`].
pub struct FurtherInformationView {
    pub application_type: Seq<char>,
    pub actual_decision_level: Seq<char>,
    pub expected_decision_level: Seq<char>,
    pub parish: Seq<char>,
    pub ward: Seq<char>,
    pub applicant_name: Seq<char>,
    pub agent_name: Seq<char>,
    pub agent_company_name: Seq<char>,
    pub agent_address: Seq<char>,
    pub environmental_assessment_requested: Seq<char>,
}

impl View for FurtherInformation {
    type V = FurtherInformationView;

    open spec fn view(&self) -> FurtherInformationView {
        FurtherInformationView {
            application_type: self.application_type@,
            actual_decision_level: self.actual_decision_level@,
            expected_decision_level: self.expected_decision_level@,
            parish: self.parish@,
            ward: self.ward@,
            applicant_name: self.applicant_name@,
            agent_name: self.agent_name@,
            agent_company_name: self.agent_company_name@,
            agent_address: self.agent_address@,
            environmental_assessment_requested: self.environmental_assessment_requested@,
        }
    }
}

/// How to reach the agent of a case.
#[derive(Clone, Debug, PartialEq, Eq)]
pub struct AgentDetails {
    pub agent_email: String,
    pub agent_phone: String,
}

/// The view of an [`AgentDetails`].
pub struct AgentDetailsView {
    pub agent_email: Seq<char>,
    pub agent_phone: Seq<char>,
}

impl View for AgentDetails {
    type V = AgentDetailsView;

    open spec fn view(&self) -> AgentDetailsView {
        AgentDetailsView { agent_email: self.agent_email@, agent_phone: self.agent_phone@ }
    }
}

/// One planning case as the document store holds it. The pair of `council`
/// and `summary.reference` identifies the case.
#[derive(Clone, Debug, PartialEq, Eq)]
pub struct CaseRecord {
    pub council: String,
    pub link: String,
    pub summary: Summary,
    pub further_information: FurtherInformation,
    /// Milliseconds since the Unix epoch.
    pub created_at: i64,
    pub created_by: String,
    /// Milliseconds since the Unix epoch.
    pub updated_at: i64,
    pub updated_by: String,
    pub details_url: String,
    pub documents_url: String,
    pub documents: Vec<DocumentRef>,
    pub agent_details: AgentDetails,
}

/// The view of a [`CaseRecord`].
pub struct CaseRecordView {
    pub council: Seq<char>,
    pub link: Seq<char>,
    pub summary: SummaryView,
    pub further_information: FurtherInformationView,
    pub created_at: i64,
    pub created_by: Seq<char>,
    pub updated_at: i64,
    pub updated_by: Seq<char>,
    pub details_url: Seq<char>,
    pub documents_url: Seq<char>,
    pub documents: Seq<DocumentRefView>,
    pub agent_details: AgentDetailsView,
}

impl View for CaseRecord {
    type V = CaseRecordView;

    open spec fn view(&self) -> CaseRecordView {
        CaseRecordView {
            council: self.council@,
            link: self.link@,
            summary: self.summary@,
            further_information: self.further_information@,
            created_at: self.created_at,
            created_by: self.created_by@,
            updated_at: self.updated_at,
            updated_by: self.updated_by@,
            details_url: self.details_url@,
            documents_url: self.documents_url@,
            documents: documents_view(self.documents@),
            agent_details: self.agent_details@,
        }
    }
}

} // verus!
