//! The crawl as a state machine. It is handed the answer to its last request
//! (a page, what the store found, what blob storage kept) and decides what
//! to ask next: it walks the results of the validated and of the decided
//! filter, and reconciles each case with the document store.

use crate::details::{
    documents_url, documents_url_of, get_document, is_regular, preview_url, preview_url_of,
    record_of,
};
use crate::documents::{
    docs_of, extract_docs, reference_of, refusal_of, DocLinks, DocLinksView,
};
use crate::error::CrawlError;
use crate::portal::{ACTOR, BASE_URL, COUNTY};
use crate::record::{
    documents_view, CaseRecord, CaseRecordView, DocKind, DocumentRef, DocumentRefView,
};
use crate::store::{
    check_decision_exisits, check_reference, send_data, RecordUpdate, RecordUpdateView,
    StoreCommand, StoreCommandView, StoreData, StoreFilter, StoreFilterView,
};
use crate::text::joined;
use crate::walker::{
    begin, begin_spec, extract_links, step_spec, Request, RequestView, Walk, WalkStep,
    WalkStepView, WalkView,
};
use vstd::prelude::*;

verus! {

/// The date filter of the validated pass.
pub const VALIDATED_OPTION: &'static str = "DC_Validated";

/// The date filter of the decided pass.
pub const DECIDED_OPTION: &'static str = "DC_Decided";

/// The seconds to wait before a case is taken up.
pub const CASE_DELAY_SECS: u64 = 1;

/// The two passes of a crawl, one per date filter.
#[derive(Clone, Copy, Debug, PartialEq, Eq, Structural)]
pub enum Pass {
    /// The cases validated in the current week.
    Validated,
    /// The cases decided in the current week.
    Decided,
}

/// The date filter keyword of a pass.
pub open spec fn option_of(pass: Pass) -> Seq<char> {
    match pass {
        Pass::Validated => VALIDATED_OPTION@,
        Pass::Decided => DECIDED_OPTION@,
    }
}

/// Why a case was left as it is.
#[derive(Clone, Copy, Debug, PartialEq, Eq, Structural)]
pub enum Skip {
    /// The store holds a record of the case.
    AlreadyPresent,
    /// The case has no application form.
    NoApplicationForm,
    /// The store holds a record of the case with its decision notice.
    AlreadyFinalized,
    /// The case has no decision notice yet.
    NoDecisionNotice,
}

/// How the handling of one case ended.
#[derive(Clone, Copy, Debug, PartialEq, Eq, Structural)]
pub enum Outcome {
    /// A new record was inserted.
    Inserted,
    /// The record of the case was updated.
    Updated,
    /// The update found no record: it vanished after it was read.
    UpdateMissed,
    /// Nothing was written.
    Skipped(Skip),
    /// The case was abandoned.
    Failed(CrawlError),
}

/// How one case of one pass ended.
#[derive(Clone, Debug, PartialEq, Eq)]
pub struct CaseReport {
    pub pass: Pass,
    pub link: String,
    pub outcome: Outcome,
}

/// The view of a [`CaseReport`].
pub struct CaseReportView {
    pub pass: Pass,
    pub link: Seq<char>,
    pub outcome: Outcome,
}

impl View for CaseReport {
    type V = CaseReportView;

    open spec fn view(&self) -> CaseReportView {
        CaseReportView { pass: self.pass, link: self.link@, outcome: self.outcome }
    }
}

/// The views of a list of reports, in order.
pub open spec fn reports_view(reports: Seq<CaseReport>) -> Seq<CaseReportView> {
    Seq::new(reports.len(), |i: int| reports[i]@)
}

/// The answer to the crawl's last request.
#[derive(Clone, Debug, PartialEq, Eq)]
pub enum Event {
    /// The portal sent this page.
    Page(String),
    /// The store looked: the documents of the record it found, if it found
    /// one.
    Found(Option<Vec<DocumentRef>>),
    /// Blob storage keeps the file.
    Uploaded(DocumentRef),
    /// The store wrote; an update matched this many records.
    Written(u64),
    /// The request failed.
    Failed,
}

/// The view of an [`Event`].
pub enum EventView {
    Page(Seq<char>),
    Found(Option<Seq<DocumentRefView>>),
    Uploaded(DocumentRefView),
    Written(u64),
    Failed,
}

impl View for Event {
    type V = EventView;

    open spec fn view(&self) -> EventView {
        match *self {
            Event::Page(html) => EventView::Page(html@),
            Event::Found(found) => EventView::Found(
                match found {
                    Some(documents) => Some(documents_view(documents@)),
                    None => None,
                },
            ),
            Event::Uploaded(file) => EventView::Uploaded(file@),
            Event::Written(matched) => EventView::Written(matched),
            Event::Failed => EventView::Failed,
        }
    }
}

/// What the crawl asks for next.
#[derive(Clone, Debug, PartialEq, Eq)]
pub enum Action {
    /// Send the request to the portal and answer with the page.
    Fetch(Request),
    /// Look in the store for a record that the filter selects.
    Find(StoreFilter),
    /// Store the document at `url` in blob storage as one of kind `kind`.
    Upload { kind: DocKind, url: String },
    /// Write to the store.
    Write(StoreCommand),
    /// Both passes are through.
    Finish,
    /// The crawl cannot go on.
    Abort(CrawlError),
}

/// The view of an [`Action`].
pub enum ActionView {
    Fetch(RequestView),
    Find(StoreFilterView),
    Upload { kind: DocKind, url: Seq<char> },
    Write(StoreCommandView),
    Finish,
    Abort(CrawlError),
}

impl View for Action {
    type V = ActionView;

    open spec fn view(&self) -> ActionView {
        match *self {
            Action::Fetch(request) => ActionView::Fetch(request@),
            Action::Find(filter) => ActionView::Find(filter@),
            Action::Upload { kind, url } => ActionView::Upload { kind, url: url@ },
            Action::Write(command) => ActionView::Write(command@),
            Action::Finish => ActionView::Finish,
            Action::Abort(e) => ActionView::Abort(e),
        }
    }
}

/// What the crawl is waiting for.
#[derive(Clone, Debug, PartialEq, Eq)]
pub enum Stage {
    /// The portal's front page, which opens the session.
    Boot,
    /// A page of the search session.
    Walking(Walk),
    /// The documents page of the current case.
    Docs,
    /// Whether the store holds the case with its decision notice.
    DecisionLookup { reference: String, docs: DocLinks },
    /// Whether the store holds the case.
    Lookup { reference: String, docs: DocLinks },
    /// The print preview of a case that the store does not hold.
    NewDetails { docs: DocLinks },
    /// The upload of a document of a case that the store does not hold; the
    /// decision notice at `then_decision` is to follow.
    NewUpload { record: CaseRecord, then_decision: Option<String> },
    /// The upload of the decision notice of a case that the store holds with
    /// the documents `existing`.
    DecisionUpload { reference: String, existing: Vec<DocumentRef> },
    /// The print preview of a case that the store holds; `documents` are
    /// those it is to hold from now on.
    UpdateDetails { reference: String, documents: Vec<DocumentRef> },
    /// The store's answer to an insert.
    Insert,
    /// The store's answer to an update.
    Update,
    /// Nothing: both passes are through.
    Over,
    /// Nothing: the crawl was aborted.
    Aborted(CrawlError),
}

/// The view of a [`Stage`].
pub enum StageView {
    Boot,
    Walking(WalkView),
    Docs,
    DecisionLookup { reference: Seq<char>, docs: DocLinksView },
    Lookup { reference: Seq<char>, docs: DocLinksView },
    NewDetails { docs: DocLinksView },
    NewUpload { record: CaseRecordView, then_decision: Option<Seq<char>> },
    DecisionUpload { reference: Seq<char>, existing: Seq<DocumentRefView> },
    UpdateDetails { reference: Seq<char>, documents: Seq<DocumentRefView> },
    Insert,
    Update,
    Over,
    Aborted(CrawlError),
}

impl View for Stage {
    type V = StageView;

    open spec fn view(&self) -> StageView {
        match *self {
            Stage::Boot => StageView::Boot,
            Stage::Walking(walk) => StageView::Walking(walk@),
            Stage::Docs => StageView::Docs,
            Stage::DecisionLookup { reference, docs } => StageView::DecisionLookup {
                reference: reference@,
                docs: docs@,
            },
            Stage::Lookup { reference, docs } => StageView::Lookup {
                reference: reference@,
                docs: docs@,
            },
            Stage::NewDetails { docs } => StageView::NewDetails { docs: docs@ },
            Stage::NewUpload { record, then_decision } => StageView::NewUpload {
                record: record@,
                then_decision: then_decision.deep_view(),
            },
            Stage::DecisionUpload { reference, existing } => StageView::DecisionUpload {
                reference: reference@,
                existing: documents_view(existing@),
            },
            Stage::UpdateDetails { reference, documents } => StageView::UpdateDetails {
                reference: reference@,
                documents: documents_view(documents@),
            },
            Stage::Insert => StageView::Insert,
            Stage::Update => StageView::Update,
            Stage::Over => StageView::Over,
            Stage::Aborted(e) => StageView::Aborted(e),
        }
    }
}

/// The state of a crawl.
#[derive(Clone, Debug, PartialEq, Eq)]
pub struct Crawl {
    /// The address of the listing page.
    pub url: String,
    pub pass: Pass,
    pub stage: Stage,
    /// The link of the case in hand.
    pub current: String,
    /// The case links of the pass, in result order.
    pub links: Vec<String>,
    /// How many of `links` were taken up.
    pub cursor: usize,
    /// How the cases handled so far ended, in the order of handling.
    pub report: Vec<CaseReport>,
}

/// The view of a [`Crawl`]: of the case links it shows those still to do.
pub struct CrawlView {
    pub url: Seq<char>,
    pub pass: Pass,
    pub stage: StageView,
    pub current: Seq<char>,
    pub pending: Seq<Seq<char>>,
    pub report: Seq<CaseReportView>,
}

/// The links from position `cursor` on.
pub open spec fn rest_of(links: Seq<Seq<char>>, cursor: int) -> Seq<Seq<char>> {
    if 0 <= cursor <= links.len() {
        links.subrange(cursor, links.len() as int)
    } else {
        Seq::empty()
    }
}

impl View for Crawl {
    type V = CrawlView;

    open spec fn view(&self) -> CrawlView {
        CrawlView {
            url: self.url@,
            pass: self.pass,
            stage: self.stage@,
            current: self.current@,
            pending: rest_of(self.links.deep_view(), self.cursor as int),
            report: reports_view(self.report@),
        }
    }
}

impl CrawlView {
    /// The crawl at another stage.
    pub open spec fn at(self, stage: StageView) -> CrawlView {
        CrawlView { stage, ..self }
    }

    /// The address of the summary page of the case in hand.
    pub open spec fn case_url(self) -> Seq<char> {
        BASE_URL@ + self.current
    }
}

/// The request for a page, at once.
pub open spec fn get_now(url: Seq<char>) -> ActionView {
    ActionView::Fetch(RequestView::Get { url, delay_secs: 0 })
}

/// The lookup of the case `reference`.
pub open spec fn find(reference: Seq<char>, with_decision: bool) -> ActionView {
    ActionView::Find(StoreFilterView { council: COUNTY@, reference, with_decision })
}

/// The crawl at its start, and its first request: the portal's front page.
pub open spec fn start_spec(url: Seq<char>) -> (CrawlView, ActionView) {
    (
        CrawlView {
            url,
            pass: Pass::Validated,
            stage: StageView::Boot,
            current: Seq::empty(),
            pending: Seq::empty(),
            report: Seq::empty(),
        },
        get_now(BASE_URL@),
    )
}

/// The crawl aborted.
pub open spec fn abort_spec(c: CrawlView, e: CrawlError) -> (CrawlView, ActionView) {
    (c.at(StageView::Aborted(e)), ActionView::Abort(e))
}

/// The crawl at the start of the walk of `pass`.
pub open spec fn enter_pass_spec(c: CrawlView, pass: Pass) -> (CrawlView, ActionView) {
    let (walk, request) = begin_spec(c.url, option_of(pass));
    (
        CrawlView {
            url: c.url,
            pass,
            stage: StageView::Walking(walk),
            current: c.current,
            pending: Seq::empty(),
            report: c.report,
        },
        ActionView::Fetch(request),
    )
}

/// The crawl takes up the next case: it asks for the case's documents page,
/// after the delay. When no case is left, the validated pass is followed by
/// the decided pass, and the decided pass ends the crawl.
pub open spec fn open_case_spec(c: CrawlView) -> (CrawlView, ActionView) {
    if c.pending.len() > 0 {
        (
            CrawlView {
                url: c.url,
                pass: c.pass,
                stage: StageView::Docs,
                current: c.pending[0],
                pending: c.pending.drop_first(),
                report: c.report,
            },
            ActionView::Fetch(
                RequestView::Get {
                    url: BASE_URL@ + documents_url_of(c.pending[0]),
                    delay_secs: CASE_DELAY_SECS,
                },
            ),
        )
    } else {
        match c.pass {
            Pass::Validated => enter_pass_spec(c, Pass::Decided),
            Pass::Decided => (c.at(StageView::Over), ActionView::Finish),
        }
    }
}

/// The crawl reports how the case in hand ended and takes up the next.
pub open spec fn close_case_spec(c: CrawlView, outcome: Outcome) -> (CrawlView, ActionView) {
    open_case_spec(
        CrawlView {
            report: c.report.push(CaseReportView { pass: c.pass, link: c.current, outcome }),
            ..c
        },
    )
}

/// The answer to the front page: the walk of the validated pass begins. A
/// failure aborts the crawl.
pub open spec fn on_boot_spec(c: CrawlView, e: EventView) -> (CrawlView, ActionView) {
    match e {
        EventView::Page(_) => enter_pass_spec(c, Pass::Validated),
        _ => abort_spec(c, CrawlError::Transport),
    }
}

/// The answer to a page of the search session: the walk goes on; its end
/// gives the cases of the pass; its failure, or that of the request, aborts
/// the crawl.
pub open spec fn on_walking_spec(c: CrawlView, walk: WalkView, e: EventView) -> (
    CrawlView,
    ActionView,
) {
    match e {
        EventView::Page(html) => match step_spec(walk, html) {
            WalkStepView::Fetch(next, request) => (
                c.at(StageView::Walking(next)),
                ActionView::Fetch(request),
            ),
            WalkStepView::Done(links) => open_case_spec(CrawlView { pending: links, ..c }),
            WalkStepView::Failed(error) => abort_spec(c, error),
        },
        _ => abort_spec(c, CrawlError::Transport),
    }
}

/// The answer to a case's documents page: with the reference id that the
/// page names, the store is asked for the case; in the decided pass, first
/// for the case with its decision notice. A page that names none ends the
/// case.
pub open spec fn on_docs_spec(c: CrawlView, e: EventView) -> (CrawlView, ActionView) {
    match e {
        EventView::Page(html) => match reference_of(html) {
            None => close_case_spec(c, Outcome::Failed(refusal_of(html))),
            Some(reference) => match c.pass {
                Pass::Validated => (
                    c.at(StageView::Lookup { reference, docs: docs_of(html) }),
                    find(reference, false),
                ),
                Pass::Decided => (
                    c.at(StageView::DecisionLookup { reference, docs: docs_of(html) }),
                    find(reference, true),
                ),
            },
        },
        _ => close_case_spec(c, Outcome::Failed(CrawlError::Transport)),
    }
}

/// The answer to the lookup of the case with its decision notice: a case so
/// held is final and left alone; otherwise the store is asked for the case
/// as such.
pub open spec fn on_decision_lookup_spec(
    c: CrawlView,
    reference: Seq<char>,
    docs: DocLinksView,
    e: EventView,
) -> (CrawlView, ActionView) {
    match e {
        EventView::Found(Some(_)) => close_case_spec(c, Outcome::Skipped(Skip::AlreadyFinalized)),
        EventView::Found(None) => (
            c.at(StageView::Lookup { reference, docs }),
            find(reference, false),
        ),
        _ => close_case_spec(c, Outcome::Failed(CrawlError::Store)),
    }
}

/// The answer to the lookup of the case. In the validated pass a case that
/// the store holds is left alone, and so is one without application form;
/// any other is read from its print preview. In the decided pass the
/// decision notice of a case that the store holds is uploaded, and without
/// one the case is left alone; a case that the store does not hold is read
/// from its print preview.
pub open spec fn on_lookup_spec(
    c: CrawlView,
    reference: Seq<char>,
    docs: DocLinksView,
    e: EventView,
) -> (CrawlView, ActionView) {
    match e {
        EventView::Found(found) => match c.pass {
            Pass::Validated => if found is Some {
                close_case_spec(c, Outcome::Skipped(Skip::AlreadyPresent))
            } else if docs.application_form is None {
                close_case_spec(c, Outcome::Skipped(Skip::NoApplicationForm))
            } else {
                (c.at(StageView::NewDetails { docs }), get_now(preview_url_of(c.case_url())))
            },
            Pass::Decided => match found {
                Some(existing) => match docs.decision_notice {
                    Some(url) => (
                        c.at(StageView::DecisionUpload { reference, existing }),
                        ActionView::Upload { kind: DocKind::DecisionNotice, url },
                    ),
                    None => close_case_spec(c, Outcome::Skipped(Skip::NoDecisionNotice)),
                },
                None => (
                    c.at(StageView::NewDetails { docs }),
                    get_now(preview_url_of(c.case_url())),
                ),
            },
        },
        _ => close_case_spec(c, Outcome::Failed(CrawlError::Store)),
    }
}

/// The record with one more document.
pub open spec fn with_document(record: CaseRecordView, file: DocumentRefView) -> CaseRecordView {
    CaseRecordView { documents: record.documents.push(file), ..record }
}

/// The insert of a record.
pub open spec fn insert(record: CaseRecordView) -> ActionView {
    ActionView::Write(StoreCommandView::Insert(record))
}

/// What follows for a case that the store does not hold, once `record` holds
/// the documents uploaded so far: the upload of the application form, of
/// the decision notice, or the insert.
pub open spec fn next_upload_spec(
    c: CrawlView,
    record: CaseRecordView,
    form: Option<Seq<char>>,
    decision: Option<Seq<char>>,
) -> (CrawlView, ActionView) {
    match form {
        Some(url) => (
            c.at(StageView::NewUpload { record, then_decision: decision }),
            ActionView::Upload { kind: DocKind::ApplicationForm, url },
        ),
        None => match decision {
            Some(url) => (
                c.at(StageView::NewUpload { record, then_decision: None }),
                ActionView::Upload { kind: DocKind::DecisionNotice, url },
            ),
            None => (c.at(StageView::Insert), insert(record)),
        },
    }
}

/// The answer to the print preview of a case that the store does not hold:
/// the record is read from it, and the case's documents are uploaded, the
/// application form first; the validated pass uploads the application form
/// only.
pub open spec fn on_new_details_spec(c: CrawlView, docs: DocLinksView, e: EventView, now: i64) -> (
    CrawlView,
    ActionView,
) {
    match e {
        EventView::Page(html) => if is_regular(html) {
            next_upload_spec(
                c,
                record_of(c.case_url(), html, now),
                docs.application_form,
                match c.pass {
                    Pass::Validated => None,
                    Pass::Decided => docs.decision_notice,
                },
            )
        } else {
            close_case_spec(c, Outcome::Failed(CrawlError::ProtocolShape))
        },
        _ => close_case_spec(c, Outcome::Failed(CrawlError::Transport)),
    }
}

/// The answer to an upload for a case that the store does not hold: the
/// file joins the record's documents; the decision notice is uploaded if it
/// is still due, else the record is inserted.
pub open spec fn on_new_upload_spec(
    c: CrawlView,
    record: CaseRecordView,
    then_decision: Option<Seq<char>>,
    e: EventView,
) -> (CrawlView, ActionView) {
    match e {
        EventView::Uploaded(file) => next_upload_spec(
            c,
            with_document(record, file),
            None,
            then_decision,
        ),
        _ => close_case_spec(c, Outcome::Failed(CrawlError::Upload)),
    }
}

/// The answer to the upload of the decision notice of a case that the store
/// holds: the file joins the documents that the store holds, and the case
/// is read afresh from its print preview.
pub open spec fn on_decision_upload_spec(
    c: CrawlView,
    reference: Seq<char>,
    existing: Seq<DocumentRefView>,
    e: EventView,
) -> (CrawlView, ActionView) {
    match e {
        EventView::Uploaded(file) => (
            c.at(StageView::UpdateDetails { reference, documents: existing.push(file) }),
            get_now(preview_url_of(c.case_url())),
        ),
        _ => close_case_spec(c, Outcome::Failed(CrawlError::Upload)),
    }
}

/// The fields that an update sets: the three sub-records as read afresh,
/// the documents, and the stamp of the update.
pub open spec fn changes_of(fresh: CaseRecordView, documents: Seq<DocumentRefView>, now: i64) -> RecordUpdateView {
    RecordUpdateView {
        summary: fresh.summary,
        further_information: fresh.further_information,
        documents,
        agent_details: fresh.agent_details,
        updated_at: now,
        updated_by: ACTOR@,
    }
}

/// The answer to the print preview of a case that the store holds: the
/// record of the case is updated.
pub open spec fn on_update_details_spec(
    c: CrawlView,
    reference: Seq<char>,
    documents: Seq<DocumentRefView>,
    e: EventView,
    now: i64,
) -> (CrawlView, ActionView) {
    match e {
        EventView::Page(html) => if is_regular(html) {
            (
                c.at(StageView::Update),
                ActionView::Write(
                    StoreCommandView::Update {
                        filter: StoreFilterView {
                            council: COUNTY@,
                            reference,
                            with_decision: false,
                        },
                        changes: changes_of(record_of(c.case_url(), html, now), documents, now),
                    },
                ),
            )
        } else {
            close_case_spec(c, Outcome::Failed(CrawlError::ProtocolShape))
        },
        _ => close_case_spec(c, Outcome::Failed(CrawlError::Transport)),
    }
}

/// The answer to a write: the case is done. An update that matched no
/// record is reported as such.
pub open spec fn on_write_spec(c: CrawlView, updating: bool, e: EventView) -> (
    CrawlView,
    ActionView,
) {
    match e {
        EventView::Written(matched) => close_case_spec(
            c,
            if !updating {
                Outcome::Inserted
            } else if matched == 0 {
                Outcome::UpdateMissed
            } else {
                Outcome::Updated
            },
        ),
        _ => close_case_spec(c, Outcome::Failed(CrawlError::Store)),
    }
}

/// What the crawl in state `c` makes of the event `e` at time `now`: its
/// next state and what it asks for. Whatever is not the answer that the
/// stage waits for counts as the failure of what was asked. A failure while
/// the session is opened or the results are walked aborts the crawl; a
/// failure within a case ends that case only.
pub open spec fn process_spec(c: CrawlView, e: EventView, now: i64) -> (CrawlView, ActionView) {
    match c.stage {
        StageView::Boot => on_boot_spec(c, e),
        StageView::Walking(walk) => on_walking_spec(c, walk, e),
        StageView::Docs => on_docs_spec(c, e),
        StageView::DecisionLookup { reference, docs } => on_decision_lookup_spec(
            c,
            reference,
            docs,
            e,
        ),
        StageView::Lookup { reference, docs } => on_lookup_spec(c, reference, docs, e),
        StageView::NewDetails { docs } => on_new_details_spec(c, docs, e, now),
        StageView::NewUpload { record, then_decision } => on_new_upload_spec(
            c,
            record,
            then_decision,
            e,
        ),
        StageView::DecisionUpload { reference, existing } => on_decision_upload_spec(
            c,
            reference,
            existing,
            e,
        ),
        StageView::UpdateDetails { reference, documents } => on_update_details_spec(
            c,
            reference,
            documents,
            e,
            now,
        ),
        StageView::Insert => on_write_spec(c, false, e),
        StageView::Update => on_write_spec(c, true, e),
        StageView::Over => (c, ActionView::Finish),
        StageView::Aborted(error) => (c, ActionView::Abort(error)),
    }
}

/// The date filter keyword of a pass.
pub fn option(pass: Pass) -> (keyword: &'static str)
    ensures
        keyword@ == option_of(pass),
{
    match pass {
        Pass::Validated => VALIDATED_OPTION,
        Pass::Decided => DECIDED_OPTION,
    }
}

/// Starts a crawl; the listing page is at `url`. The first request goes to
/// the portal's front page, which opens the session.
pub fn start(url: &str) -> (r: (Crawl, Action))
    ensures
        (r.0@, r.1@) == start_spec(url@),
{
    let links: Vec<String> = Vec::new();
    let report: Vec<CaseReport> = Vec::new();
    let crawl = Crawl {
        url: url.to_owned(),
        pass: Pass::Validated,
        stage: Stage::Boot,
        current: String::new(),
        links,
        cursor: 0,
        report,
    };
    assert(crawl@.pending =~= Seq::<Seq<char>>::empty());
    assert(crawl@.report =~= Seq::<CaseReportView>::empty());
    (crawl, Action::Fetch(Request::Get { url: BASE_URL.to_owned(), delay_secs: 0 }))
}

/// Parts the stage from the rest of the state.
fn split(crawl: Crawl) -> (r: (Crawl, Stage))
    ensures
        r.1 == crawl.stage,
        r.0@ == crawl@.at(StageView::Over),
{
    let Crawl { url, pass, stage, current, links, cursor, report } = crawl;
    (Crawl { url, pass, stage: Stage::Over, current, links, cursor, report }, stage)
}

/// Puts the crawl at a stage.
fn at(crawl: Crawl, stage: Stage) -> (r: Crawl)
    ensures
        r@ == crawl@.at(stage@),
{
    let Crawl { url, pass, stage: _, current, links, cursor, report } = crawl;
    Crawl { url, pass, stage, current, links, cursor, report }
}

/// Aborts the crawl.
fn abort(crawl: Crawl, error: CrawlError) -> (r: (Crawl, Action))
    ensures
        (r.0@, r.1@) == abort_spec(crawl@, error),
{
    (at(crawl, Stage::Aborted(error)), Action::Abort(error))
}

/// Begins the walk of a pass.
fn enter_pass(crawl: Crawl, pass: Pass) -> (r: (Crawl, Action))
    ensures
        (r.0@, r.1@) == enter_pass_spec(crawl@, pass),
{
    let Crawl { url, pass: _, stage: _, current, links: _, cursor: _, report } = crawl;
    let (walk, request) = begin(url.as_str(), option(pass));
    let links: Vec<String> = Vec::new();
    let next = Crawl { url, pass, stage: Stage::Walking(walk), current, links, cursor: 0, report };
    assert(next@.pending =~= Seq::<Seq<char>>::empty());
    (next, Action::Fetch(request))
}

/// Takes up the next case, or the next pass, or ends the crawl.
fn open_case(crawl: Crawl) -> (r: (Crawl, Action))
    ensures
        (r.0@, r.1@) == open_case_spec(crawl@),
{
    if crawl.cursor < crawl.links.len() {
        let link = crawl.links[crawl.cursor].clone();
        let url = joined(BASE_URL, documents_url(link.as_str()).as_str());
        let ghost before = crawl@;
        let Crawl { url: listing, pass, stage: _, current: _, links, cursor, report } = crawl;
        let next = Crawl {
            url: listing,
            pass,
            stage: Stage::Docs,
            current: link,
            links,
            cursor: cursor + 1,
            report,
        };
        proof {
            let all = links.deep_view();
            assert(before.pending == all.subrange(cursor as int, all.len() as int));
            assert(before.pending[0] == all[cursor as int]);
            assert(all[cursor as int] == links[cursor as int]@);
            assert(next@.pending =~= before.pending.drop_first());
        }
        (next, Action::Fetch(Request::Get { url, delay_secs: CASE_DELAY_SECS }))
    } else {
        assert(crawl@.pending.len() == 0);
        match crawl.pass {
            Pass::Validated => enter_pass(crawl, Pass::Decided),
            Pass::Decided => (at(crawl, Stage::Over), Action::Finish),
        }
    }
}

/// Reports how the case in hand ended and takes up the next.
fn close_case(crawl: Crawl, outcome: Outcome) -> (r: (Crawl, Action))
    ensures
        (r.0@, r.1@) == close_case_spec(crawl@, outcome),
{
    let ghost before = crawl@;
    let Crawl { url, pass, stage, current, links, cursor, mut report } = crawl;
    let ghost earlier = reports_view(report@);
    let entry = CaseReport { pass, link: current.clone(), outcome };
    report.push(entry);
    assert(reports_view(report@) =~= earlier.push(entry@));
    let next = Crawl { url, pass, stage, current, links, cursor, report };
    assert(next@ == (CrawlView {
        report: before.report.push(CaseReportView { pass, link: before.current, outcome }),
        ..before
    }));
    open_case(next)
}

/// The request for a page, at once.
fn fetch_now(url: String) -> (action: Action)
    ensures
        action@ == get_now(url@),
{
    Action::Fetch(Request::Get { url, delay_secs: 0 })
}

/// The request for the print preview of the case in hand.
fn fetch_preview(crawl: &Crawl) -> (action: Action)
    ensures
        action@ == get_now(preview_url_of(crawl@.case_url())),
{
    fetch_now(preview_url(joined(BASE_URL, crawl.current.as_str()).as_str()))
}

/// The lookup of the case `reference`.
fn lookup(reference: &str, with_decision: bool) -> (action: Action)
    ensures
        action@ == find(reference@, with_decision),
{
    if with_decision {
        Action::Find(check_decision_exisits(reference, COUNTY))
    } else {
        Action::Find(check_reference(reference, COUNTY))
    }
}

/// Takes the answer to the front page.
fn on_boot(crawl: Crawl, event: Event) -> (r: (Crawl, Action))
    ensures
        (r.0@, r.1@) == on_boot_spec(crawl@, event@),
{
    match event {
        Event::Page(_) => enter_pass(crawl, Pass::Validated),
        _ => abort(crawl, CrawlError::Transport),
    }
}

/// Takes the answer to a page of the search session.
fn on_walking(crawl: Crawl, walk: Walk, event: Event) -> (r: (Crawl, Action))
    ensures
        (r.0@, r.1@) == on_walking_spec(crawl@, walk@, event@),
{
    match event {
        Event::Page(html) => match extract_links(walk, html.as_str()) {
            WalkStep::Fetch(next, request) => (
                at(crawl, Stage::Walking(next)),
                Action::Fetch(request),
            ),
            WalkStep::Done(found) => {
                let ghost before = crawl@;
                let Crawl { url, pass, stage, current, links: _, cursor: _, report } = crawl;
                let next = Crawl { url, pass, stage, current, links: found, cursor: 0, report };
                assert(next@.pending =~= found.deep_view());
                assert(next@ == (CrawlView { pending: found.deep_view(), ..before }));
                open_case(next)
            },
            WalkStep::Failed(error) => abort(crawl, error),
        },
        _ => abort(crawl, CrawlError::Transport),
    }
}

/// Takes the answer to a case's documents page.
fn on_docs(crawl: Crawl, event: Event) -> (r: (Crawl, Action))
    ensures
        (r.0@, r.1@) == on_docs_spec(crawl@, event@),
{
    match event {
        Event::Page(html) => match extract_docs(html.as_str()) {
            Err(error) => close_case(crawl, Outcome::Failed(error)),
            Ok((reference, docs)) => match crawl.pass {
                Pass::Validated => {
                    let action = lookup(reference.as_str(), false);
                    (at(crawl, Stage::Lookup { reference, docs }), action)
                },
                Pass::Decided => {
                    let action = lookup(reference.as_str(), true);
                    (at(crawl, Stage::DecisionLookup { reference, docs }), action)
                },
            },
        },
        _ => close_case(crawl, Outcome::Failed(CrawlError::Transport)),
    }
}

/// Takes the answer to the lookup of the case with its decision notice.
fn on_decision_lookup(crawl: Crawl, reference: String, docs: DocLinks, event: Event) -> (r: (
    Crawl,
    Action,
))
    ensures
        (r.0@, r.1@) == on_decision_lookup_spec(crawl@, reference@, docs@, event@),
{
    match event {
        Event::Found(Some(_)) => close_case(crawl, Outcome::Skipped(Skip::AlreadyFinalized)),
        Event::Found(None) => {
            let action = lookup(reference.as_str(), false);
            (at(crawl, Stage::Lookup { reference, docs }), action)
        },
        _ => close_case(crawl, Outcome::Failed(CrawlError::Store)),
    }
}

/// Takes the answer to the lookup of the case.
fn on_lookup(crawl: Crawl, reference: String, docs: DocLinks, event: Event) -> (r: (
    Crawl,
    Action,
))
    ensures
        (r.0@, r.1@) == on_lookup_spec(crawl@, reference@, docs@, event@),
{
    match event {
        Event::Found(found) => match crawl.pass {
            Pass::Validated => {
                if found.is_some() {
                    close_case(crawl, Outcome::Skipped(Skip::AlreadyPresent))
                } else if docs.application_form.is_none() {
                    close_case(crawl, Outcome::Skipped(Skip::NoApplicationForm))
                } else {
                    let action = fetch_preview(&crawl);
                    (at(crawl, Stage::NewDetails { docs }), action)
                }
            },
            Pass::Decided => match found {
                Some(existing) => {
                    let DocLinks { decision_notice, application_form: _ } = docs;
                    match decision_notice {
                        Some(url) => (
                            at(crawl, Stage::DecisionUpload { reference, existing }),
                            Action::Upload { kind: DocKind::DecisionNotice, url },
                        ),
                        None => close_case(crawl, Outcome::Skipped(Skip::NoDecisionNotice)),
                    }
                },
                None => {
                    let action = fetch_preview(&crawl);
                    (at(crawl, Stage::NewDetails { docs }), action)
                },
            },
        },
        _ => close_case(crawl, Outcome::Failed(CrawlError::Store)),
    }
}

/// Asks for the next upload of a case that the store does not hold, or for
/// its insert.
fn next_upload(
    crawl: Crawl,
    record: CaseRecord,
    form: Option<String>,
    decision: Option<String>,
) -> (r: (Crawl, Action))
    ensures
        (r.0@, r.1@) == next_upload_spec(crawl@, record@, form.deep_view(), decision.deep_view()),
{
    match form {
        Some(url) => (
            at(crawl, Stage::NewUpload { record, then_decision: decision }),
            Action::Upload { kind: DocKind::ApplicationForm, url },
        ),
        None => match decision {
            Some(url) => (
                at(crawl, Stage::NewUpload { record, then_decision: None }),
                Action::Upload { kind: DocKind::DecisionNotice, url },
            ),
            None => {
                let reference = record.summary.reference.clone();
                let command = send_data(reference.as_str(), COUNTY, StoreData::Record(record));
                (at(crawl, Stage::Insert), Action::Write(command))
            },
        },
    }
}

/// Takes the print preview of a case that the store does not hold.
fn on_new_details(crawl: Crawl, docs: DocLinks, event: Event, now: i64) -> (r: (Crawl, Action))
    ensures
        (r.0@, r.1@) == on_new_details_spec(crawl@, docs@, event@, now),
{
    match event {
        Event::Page(html) => {
            let url = joined(BASE_URL, crawl.current.as_str());
            match get_document(url.as_str(), html.as_str(), now) {
                Ok(record) => {
                    let DocLinks { decision_notice, application_form } = docs;
                    let decision = match crawl.pass {
                        Pass::Validated => None,
                        Pass::Decided => decision_notice,
                    };
                    next_upload(crawl, record, application_form, decision)
                },
                Err(_) => close_case(crawl, Outcome::Failed(CrawlError::ProtocolShape)),
            }
        },
        _ => close_case(crawl, Outcome::Failed(CrawlError::Transport)),
    }
}

/// Takes the answer to an upload for a case that the store does not hold.
fn on_new_upload(
    crawl: Crawl,
    record: CaseRecord,
    then_decision: Option<String>,
    event: Event,
) -> (r: (Crawl, Action))
    ensures
        (r.0@, r.1@) == on_new_upload_spec(
            crawl@,
            record@,
            then_decision.deep_view(),
            event@,
        ),
{
    match event {
        Event::Uploaded(file) => {
            let ghost before = record@;
            let mut record = record;
            let ghost earlier = documents_view(record.documents@);
            record.documents.push(file);
            assert(documents_view(record.documents@) =~= earlier.push(file@));
            assert(record@ == with_document(before, file@));
            next_upload(crawl, record, None, then_decision)
        },
        _ => close_case(crawl, Outcome::Failed(CrawlError::Upload)),
    }
}

/// Takes the answer to the upload of the decision notice of a case that the
/// store holds.
fn on_decision_upload(
    crawl: Crawl,
    reference: String,
    existing: Vec<DocumentRef>,
    event: Event,
) -> (r: (Crawl, Action))
    ensures
        (r.0@, r.1@) == on_decision_upload_spec(
            crawl@,
            reference@,
            documents_view(existing@),
            event@,
        ),
{
    match event {
        Event::Uploaded(file) => {
            let mut documents = existing;
            let ghost earlier = documents_view(documents@);
            documents.push(file);
            assert(documents_view(documents@) =~= earlier.push(file@));
            let action = fetch_preview(&crawl);
            (at(crawl, Stage::UpdateDetails { reference, documents }), action)
        },
        _ => close_case(crawl, Outcome::Failed(CrawlError::Upload)),
    }
}

/// Takes the print preview of a case that the store holds.
fn on_update_details(
    crawl: Crawl,
    reference: String,
    documents: Vec<DocumentRef>,
    event: Event,
    now: i64,
) -> (r: (Crawl, Action))
    ensures
        (r.0@, r.1@) == on_update_details_spec(
            crawl@,
            reference@,
            documents_view(documents@),
            event@,
            now,
        ),
{
    match event {
        Event::Page(html) => {
            let url = joined(BASE_URL, crawl.current.as_str());
            match get_document(url.as_str(), html.as_str(), now) {
                Ok(fresh) => {
                    let CaseRecord {
                        council: _,
                        link: _,
                        summary,
                        further_information,
                        created_at: _,
                        created_by: _,
                        updated_at: _,
                        updated_by: _,
                        details_url: _,
                        documents_url: _,
                        documents: _,
                        agent_details,
                    } = fresh;
                    let changes = RecordUpdate {
                        summary,
                        further_information,
                        documents,
                        agent_details,
                        updated_at: now,
                        updated_by: ACTOR.to_owned(),
                    };
                    let command = send_data(
                        reference.as_str(),
                        COUNTY,
                        StoreData::Changes(changes),
                    );
                    (at(crawl, Stage::Update), Action::Write(command))
                },
                Err(_) => close_case(crawl, Outcome::Failed(CrawlError::ProtocolShape)),
            }
        },
        _ => close_case(crawl, Outcome::Failed(CrawlError::Transport)),
    }
}

/// Takes the answer to a write.
fn on_write(crawl: Crawl, updating: bool, event: Event) -> (r: (Crawl, Action))
    ensures
        (r.0@, r.1@) == on_write_spec(crawl@, updating, event@),
{
    match event {
        Event::Written(matched) => {
            let outcome = if !updating {
                Outcome::Inserted
            } else if matched == 0 {
                Outcome::UpdateMissed
            } else {
                Outcome::Updated
            };
            close_case(crawl, outcome)
        },
        _ => close_case(crawl, Outcome::Failed(CrawlError::Store)),
    }
}

/// Hands the crawl the answer to its last request, at time `now`, and
/// returns its next state with what it asks for next.
pub fn process(crawl: Crawl, event: Event, now: i64) -> (r: (Crawl, Action))
    ensures
        (r.0@, r.1@) == process_spec(crawl@, event@, now),
{
    let (rest, stage) = split(crawl);
    match stage {
        Stage::Boot => on_boot(rest, event),
        Stage::Walking(walk) => on_walking(rest, walk, event),
        Stage::Docs => on_docs(rest, event),
        Stage::DecisionLookup { reference, docs } => on_decision_lookup(
            rest,
            reference,
            docs,
            event,
        ),
        Stage::Lookup { reference, docs } => on_lookup(rest, reference, docs, event),
        Stage::NewDetails { docs } => on_new_details(rest, docs, event, now),
        Stage::NewUpload { record, then_decision } => on_new_upload(
            rest,
            record,
            then_decision,
            event,
        ),
        Stage::DecisionUpload { reference, existing } => on_decision_upload(
            rest,
            reference,
            existing,
            event,
        ),
        Stage::UpdateDetails { reference, documents } => on_update_details(
            rest,
            reference,
            documents,
            event,
            now,
        ),
        Stage::Insert => on_write(rest, false, event),
        Stage::Update => on_write(rest, true, event),
        Stage::Over => (rest, Action::Finish),
        Stage::Aborted(error) => (at(rest, Stage::Aborted(error)), Action::Abort(error)),
    }
}

} // verus!
