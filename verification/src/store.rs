//! What the crawl asks of the document store: the filters of its lookups
//! and the commands of its writes, with what they mean for a record.

use crate::record::{
    holds_kind, AgentDetails, AgentDetailsView, CaseRecord, CaseRecordView, DocKind, DocumentRef,
    DocumentRefView, FurtherInformation, FurtherInformationView, documents_view, Summary,
    SummaryView,
};
use vstd::prelude::*;

verus! {

/// Selects the records of one case.
#[derive(Clone, Debug, PartialEq, Eq)]
pub struct StoreFilter {
    pub council: String,
    pub reference: String,
    /// Whether only a record that holds a decision notice is wanted.
    pub with_decision: bool,
}

/// The view of a [`StoreFilter`].
pub struct StoreFilterView {
    pub council: Seq<char>,
    pub reference: Seq<char>,
    pub with_decision: bool,
}

impl View for StoreFilter {
    type V = StoreFilterView;

    open spec fn view(&self) -> StoreFilterView {
        StoreFilterView {
            council: self.council@,
            reference: self.reference@,
            with_decision: self.with_decision,
        }
    }
}

impl StoreFilterView {
    /// Whether the filter selects the record.
    pub open spec fn selects(self, record: CaseRecordView) -> bool {
        &&& record.council == self.council
        &&& record.summary.reference == self.reference
        &&& self.with_decision ==> holds_kind(record.documents, DocKind::DecisionNotice)
    }
}

/// The filter for the record of the case `reference` of `council`.
pub fn check_reference(reference: &str, council: &str) -> (filter: StoreFilter)
    ensures
        filter@ == (StoreFilterView {
            council: council@,
            reference: reference@,
            with_decision: false,
        }),
{
    StoreFilter {
        council: council.to_owned(),
        reference: reference.to_owned(),
        with_decision: false,
    }
}

/// The filter for the record of the case `reference` of `council`, provided
/// that it holds a decision notice.
pub fn check_decision_exisits(reference: &str, council: &str) -> (filter: StoreFilter)
    ensures
        filter@ == (StoreFilterView {
            council: council@,
            reference: reference@,
            with_decision: true,
        }),
{
    StoreFilter {
        council: council.to_owned(),
        reference: reference.to_owned(),
        with_decision: true,
    }
}

/// The fields that an update sets; every other field of the record stays.
#[derive(Clone, Debug, PartialEq, Eq)]
pub struct RecordUpdate {
    pub summary: Summary,
    pub further_information: FurtherInformation,
    pub documents: Vec<DocumentRef>,
    pub agent_details: AgentDetails,
    /// Milliseconds since the Unix epoch.
    pub updated_at: i64,
    pub updated_by: String,
}

/// The view of a [`RecordUpdate`].
pub struct RecordUpdateView {
    pub summary: SummaryView,
    pub further_information: FurtherInformationView,
    pub documents: Seq<DocumentRefView>,
    pub agent_details: AgentDetailsView,
    pub updated_at: i64,
    pub updated_by: Seq<char>,
}

impl View for RecordUpdate {
    type V = RecordUpdateView;

    open spec fn view(&self) -> RecordUpdateView {
        RecordUpdateView {
            summary: self.summary@,
            further_information: self.further_information@,
            documents: documents_view(self.documents@),
            agent_details: self.agent_details@,
            updated_at: self.updated_at,
            updated_by: self.updated_by@,
        }
    }
}

impl RecordUpdateView {
    /// The record after the update: the six fields are set, the others kept.
    pub open spec fn applied_to(self, record: CaseRecordView) -> CaseRecordView {
        CaseRecordView {
            council: record.council,
            link: record.link,
            summary: self.summary,
            further_information: self.further_information,
            created_at: record.created_at,
            created_by: record.created_by,
            updated_at: self.updated_at,
            updated_by: self.updated_by,
            details_url: record.details_url,
            documents_url: record.documents_url,
            documents: self.documents,
            agent_details: self.agent_details,
        }
    }
}

/// What is sent to the store: a whole record, or the fields to set on one.
#[derive(Clone, Debug, PartialEq, Eq)]
pub enum StoreData {
    Record(CaseRecord),
    Changes(RecordUpdate),
}

/// The view of a [`StoreData`].
pub enum StoreDataView {
    Record(CaseRecordView),
    Changes(RecordUpdateView),
}

impl View for StoreData {
    type V = StoreDataView;

    open spec fn view(&self) -> StoreDataView {
        match *self {
            StoreData::Record(record) => StoreDataView::Record(record@),
            StoreData::Changes(changes) => StoreDataView::Changes(changes@),
        }
    }
}

/// A write to the store.
#[derive(Clone, Debug, PartialEq, Eq)]
pub enum StoreCommand {
    /// Insert the record.
    Insert(CaseRecord),
    /// Set the fields on one record that the filter selects.
    Update { filter: StoreFilter, changes: RecordUpdate },
}

/// The view of a [`StoreCommand`].
pub enum StoreCommandView {
    Insert(CaseRecordView),
    Update { filter: StoreFilterView, changes: RecordUpdateView },
}

impl View for StoreCommand {
    type V = StoreCommandView;

    open spec fn view(&self) -> StoreCommandView {
        match *self {
            StoreCommand::Insert(record) => StoreCommandView::Insert(record@),
            StoreCommand::Update { filter, changes } => StoreCommandView::Update {
                filter: filter@,
                changes: changes@,
            },
        }
    }
}

/// The write that sends `data` for the case `reference_id` of `council`: a
/// record is inserted; changes update the record of that case.
pub open spec fn command_of(
    reference_id: Seq<char>,
    council: Seq<char>,
    data: StoreDataView,
) -> StoreCommandView {
    match data {
        StoreDataView::Record(record) => StoreCommandView::Insert(record),
        StoreDataView::Changes(changes) => StoreCommandView::Update {
            filter: StoreFilterView { council, reference: reference_id, with_decision: false },
            changes,
        },
    }
}

/// The write that sends `data` to the store for the case `reference_id` of
/// `council`.
pub fn send_data(reference_id: &str, council: &str, data: StoreData) -> (command: StoreCommand)
    ensures
        command@ == command_of(reference_id@, council@, data@),
{
    match data {
        StoreData::Record(record) => StoreCommand::Insert(record),
        StoreData::Changes(changes) => StoreCommand::Update {
            filter: check_reference(reference_id, council),
            changes,
        },
    }
}

} // verus!
