//! What the crawl's decisions amount to for a case, stated over the state
//! machine of [`crate::process`]: when a case is inserted, updated or left
//! alone.

use crate::details::{is_regular, preview_url_of, record_of};
use crate::documents::DocLinksView;
use crate::error::CrawlError;
use crate::portal::{ACTOR, COUNTY};
use crate::process::{
    changes_of, close_case_spec, get_now, insert, process_spec, with_document, ActionView,
    CaseReportView, CrawlView, EventView, Outcome, Pass, Skip, StageView,
};
use crate::record::{CaseRecordView, DocKind, DocumentRefView};
use crate::store::{StoreCommandView, StoreFilterView};
use vstd::prelude::*;

verus! {

/// Whether the action touches neither blob storage nor the store.
pub open spec fn changes_nothing(a: ActionView) -> bool {
    !(a is Upload) && !(a is Write)
}

/// Closing a case touches neither blob storage nor the store, and reports
/// the case's outcome.
pub proof fn closing_changes_nothing(c: CrawlView, outcome: Outcome)
    ensures
        changes_nothing(close_case_spec(c, outcome).1),
        close_case_spec(c, outcome).0.report == c.report.push(
            CaseReportView { pass: c.pass, link: c.current, outcome },
        ),
{
}

/// While the session is opened and the results are walked, the crawl
/// touches neither blob storage nor the store, and whatever is not a page
/// aborts it.
pub proof fn walking_changes_nothing(c: CrawlView, e: EventView, now: i64)
    requires
        c.stage is Boot || c.stage is Walking,
    ensures
        changes_nothing(process_spec(c, e, now).1),
        !(e is Page) ==> process_spec(c, e, now).1 == ActionView::Abort(CrawlError::Transport),
{
}

/// A failure within a case ends that case and no more: the crawl reports it
/// and goes on to the next case.
pub proof fn failure_ends_the_case_only(c: CrawlView, now: i64)
    requires
        !(c.stage is Boot || c.stage is Walking || c.stage is Over || c.stage is Aborted),
    ensures
        exists|error: CrawlError|
            process_spec(c, EventView::Failed, now) == close_case_spec(c, Outcome::Failed(error)),
        !(process_spec(c, EventView::Failed, now).1 is Abort),
{
    let error = match c.stage {
        StageView::Docs => CrawlError::Transport,
        StageView::NewDetails { .. } => CrawlError::Transport,
        StageView::UpdateDetails { .. } => CrawlError::Transport,
        StageView::NewUpload { .. } => CrawlError::Upload,
        StageView::DecisionUpload { .. } => CrawlError::Upload,
        _ => CrawlError::Store,
    };
    assert(process_spec(c, EventView::Failed, now) == close_case_spec(c, Outcome::Failed(error)));
}

/// In the validated pass a case that the store does not hold and that has
/// an application form is inserted: its print preview is read, the form is
/// uploaded, and the record that the preview gives is inserted with the
/// uploaded file as its one document.
pub proof fn absent_case_with_form_is_inserted(
    c: CrawlView,
    reference: Seq<char>,
    docs: DocLinksView,
    html: Seq<char>,
    file: DocumentRefView,
    now: i64,
)
    requires
        c.pass == Pass::Validated,
        c.stage == (StageView::Lookup { reference, docs }),
        docs.application_form is Some,
        is_regular(html),
    ensures
        ({
            let (c1, a1) = process_spec(c, EventView::Found(None), now);
            let (c2, a2) = process_spec(c1, EventView::Page(html), now);
            let (c3, a3) = process_spec(c2, EventView::Uploaded(file), now);
            let (c4, a4) = process_spec(c3, EventView::Written(1), now);
            &&& a1 == get_now(preview_url_of(c.case_url()))
            &&& a2 == (ActionView::Upload {
                kind: DocKind::ApplicationForm,
                url: docs.application_form->0,
            })
            &&& a3 == insert(with_document(record_of(c.case_url(), html, now), file))
            &&& (c4, a4) == close_case_spec(c, Outcome::Inserted)
        }),
{
    let (c1, a1) = process_spec(c, EventView::Found(None), now);
    let (c2, a2) = process_spec(c1, EventView::Page(html), now);
    let (c3, a3) = process_spec(c2, EventView::Uploaded(file), now);
    assert(c1 == c.at(StageView::NewDetails { docs }));
    assert(c1.case_url() == c.case_url());
    assert(c3 == c.at(StageView::Insert));
}

/// In the validated pass a case that the store does not hold and that has
/// no application form is left alone.
pub proof fn absent_case_without_form_is_skipped(
    c: CrawlView,
    reference: Seq<char>,
    docs: DocLinksView,
    now: i64,
)
    requires
        c.pass == Pass::Validated,
        c.stage == (StageView::Lookup { reference, docs }),
        docs.application_form is None,
    ensures
        process_spec(c, EventView::Found(None), now) == close_case_spec(
            c,
            Outcome::Skipped(Skip::NoApplicationForm),
        ),
        changes_nothing(process_spec(c, EventView::Found(None), now).1),
{
}

/// In the validated pass a case that the store holds is left alone.
pub proof fn present_case_is_skipped(
    c: CrawlView,
    reference: Seq<char>,
    docs: DocLinksView,
    existing: Seq<DocumentRefView>,
    now: i64,
)
    requires
        c.pass == Pass::Validated,
        c.stage == (StageView::Lookup { reference, docs }),
    ensures
        process_spec(c, EventView::Found(Some(existing)), now) == close_case_spec(
            c,
            Outcome::Skipped(Skip::AlreadyPresent),
        ),
        changes_nothing(process_spec(c, EventView::Found(Some(existing)), now).1),
{
}

/// In the decided pass a case that the store holds without decision notice,
/// and whose decision notice is now to be had, is updated: the notice is
/// uploaded, the print preview is read afresh, and the update sets the three
/// sub-records as read, stamps time and actor, and sets the documents to
/// those that the store held, in their order, followed by the uploaded file.
/// Applied to a record, the update keeps every other field.
pub proof fn held_case_with_decision_is_updated(
    c: CrawlView,
    reference: Seq<char>,
    docs: DocLinksView,
    existing: Seq<DocumentRefView>,
    file: DocumentRefView,
    html: Seq<char>,
    held: CaseRecordView,
    now: i64,
)
    requires
        c.pass == Pass::Decided,
        c.stage == (StageView::Lookup { reference, docs }),
        docs.decision_notice is Some,
        is_regular(html),
    ensures
        ({
            let (c1, a1) = process_spec(c, EventView::Found(Some(existing)), now);
            let (c2, a2) = process_spec(c1, EventView::Uploaded(file), now);
            let (c3, a3) = process_spec(c2, EventView::Page(html), now);
            let (c4, a4) = process_spec(c3, EventView::Written(1), now);
            let fresh = record_of(c.case_url(), html, now);
            let changes = changes_of(fresh, existing.push(file), now);
            let after = changes.applied_to(held);
            &&& a1 == (ActionView::Upload {
                kind: DocKind::DecisionNotice,
                url: docs.decision_notice->0,
            })
            &&& a2 == get_now(preview_url_of(c.case_url()))
            &&& a3 == ActionView::Write(
                StoreCommandView::Update {
                    filter: StoreFilterView { council: COUNTY@, reference, with_decision: false },
                    changes,
                },
            )
            &&& (c4, a4) == close_case_spec(c, Outcome::Updated)
            &&& after.documents.len() == existing.len() + 1
            &&& after.documents.take(existing.len() as int) == existing
            &&& after.documents.last() == file
            &&& after.summary == fresh.summary
            &&& after.further_information == fresh.further_information
            &&& after.agent_details == fresh.agent_details
            &&& after.updated_at == now
            &&& after.updated_by == ACTOR@
            &&& after.council == held.council
            &&& after.link == held.link
            &&& after.created_at == held.created_at
            &&& after.created_by == held.created_by
            &&& after.details_url == held.details_url
            &&& after.documents_url == held.documents_url
        }),
{
    let (c1, a1) = process_spec(c, EventView::Found(Some(existing)), now);
    let (c2, a2) = process_spec(c1, EventView::Uploaded(file), now);
    let (c3, a3) = process_spec(c2, EventView::Page(html), now);
    assert(c1 == c.at(StageView::DecisionUpload { reference, existing }));
    assert(c2 == c.at(
        StageView::UpdateDetails { reference, documents: existing.push(file) },
    ));
    assert(c2.case_url() == c.case_url());
    assert(c3 == c.at(StageView::Update));
    assert(existing.push(file).take(existing.len() as int) == existing);
}

/// In the decided pass a case that the store holds without decision notice,
/// and for which none is to be had, is left alone.
pub proof fn held_case_without_decision_is_skipped(
    c: CrawlView,
    reference: Seq<char>,
    docs: DocLinksView,
    existing: Seq<DocumentRefView>,
    now: i64,
)
    requires
        c.pass == Pass::Decided,
        c.stage == (StageView::Lookup { reference, docs }),
        docs.decision_notice is None,
    ensures
        process_spec(c, EventView::Found(Some(existing)), now) == close_case_spec(
            c,
            Outcome::Skipped(Skip::NoDecisionNotice),
        ),
        changes_nothing(process_spec(c, EventView::Found(Some(existing)), now).1),
{
}

/// In the decided pass a case that the store holds with its decision notice
/// is left alone, whatever links its documents page shows.
pub proof fn finalized_case_is_skipped(
    c: CrawlView,
    reference: Seq<char>,
    docs: DocLinksView,
    existing: Seq<DocumentRefView>,
    now: i64,
)
    requires
        c.pass == Pass::Decided,
        c.stage == (StageView::DecisionLookup { reference, docs }),
    ensures
        process_spec(c, EventView::Found(Some(existing)), now) == close_case_spec(
            c,
            Outcome::Skipped(Skip::AlreadyFinalized),
        ),
        changes_nothing(process_spec(c, EventView::Found(Some(existing)), now).1),
{
}

/// In the decided pass a case that the store does not hold is inserted with
/// every document that its documents page shows: the application form
/// first, then the decision notice.
pub proof fn absent_decided_case_is_inserted(
    c: CrawlView,
    reference: Seq<char>,
    docs: DocLinksView,
    html: Seq<char>,
    form: DocumentRefView,
    notice: DocumentRefView,
    now: i64,
)
    requires
        c.pass == Pass::Decided,
        c.stage == (StageView::Lookup { reference, docs }),
        docs.application_form is Some,
        docs.decision_notice is Some,
        is_regular(html),
    ensures
        ({
            let (c1, a1) = process_spec(c, EventView::Found(None), now);
            let (c2, a2) = process_spec(c1, EventView::Page(html), now);
            let (c3, a3) = process_spec(c2, EventView::Uploaded(form), now);
            let (c4, a4) = process_spec(c3, EventView::Uploaded(notice), now);
            &&& a1 == get_now(preview_url_of(c.case_url()))
            &&& a2 == (ActionView::Upload {
                kind: DocKind::ApplicationForm,
                url: docs.application_form->0,
            })
            &&& a3 == (ActionView::Upload {
                kind: DocKind::DecisionNotice,
                url: docs.decision_notice->0,
            })
            &&& a4 == insert(
                with_document(with_document(record_of(c.case_url(), html, now), form), notice),
            )
        }),
{
    let (c1, a1) = process_spec(c, EventView::Found(None), now);
    let (c2, a2) = process_spec(c1, EventView::Page(html), now);
    let (c3, a3) = process_spec(c2, EventView::Uploaded(form), now);
    assert(c1 == c.at(StageView::NewDetails { docs }));
    assert(c1.case_url() == c.case_url());
    assert(c2.stage == (StageView::NewUpload {
        record: record_of(c.case_url(), html, now),
        then_decision: docs.decision_notice,
    }));
    assert(c3.stage == (StageView::NewUpload {
        record: with_document(record_of(c.case_url(), html, now), form),
        then_decision: None,
    }));
}

} // verus!
