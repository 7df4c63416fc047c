//! A model of what surrounds a crawl: a portal that serves pages, a blob
//! storage that keeps what it is given, and a document store that holds
//! what was inserted. The laws of the two passes are stated over it.

use crate::details::{documents_url_of, preview_url_of};
use crate::documents::reference_of;
use crate::portal::{BASE_URL, COUNTY};
use crate::process::{process_spec, ActionView, CrawlView, EventView, StageView, CASE_DELAY_SECS};
use crate::record::{CaseRecordView, DocKind, DocumentRefView};
use crate::store::{RecordUpdateView, StoreCommandView, StoreFilterView};
use crate::walker::RequestView;
use vstd::prelude::*;

verus! {

/// The surroundings that do not change while the crawl runs.
pub struct Surroundings {
    /// The page that the portal serves at an address, if it serves one.
    pub pages: spec_fn(Seq<char>) -> Option<Seq<char>>,
    /// The descriptor under which blob storage keeps the document of a kind
    /// from an address.
    pub blob: spec_fn(DocKind, Seq<char>) -> DocumentRefView,
}

/// The surroundings that the crawl changes, and a count of its changes.
pub struct Ledger {
    /// The records of the document store, in the order of insertion.
    pub store: Seq<CaseRecordView>,
    /// How many uploads were made.
    pub uploads: nat,
    /// How many records were inserted.
    pub inserts: nat,
}

/// The documents of the first record that the filter selects, if it selects
/// one.
pub open spec fn found_in(store: Seq<CaseRecordView>, filter: StoreFilterView) -> Option<
    Seq<DocumentRefView>,
>
    decreases store.len(),
{
    if store.len() == 0 {
        None
    } else if filter.selects(store[0]) {
        Some(store[0].documents)
    } else {
        found_in(store.drop_first(), filter)
    }
}

/// The store after the update of the first record that the filter selects.
pub open spec fn updated(
    store: Seq<CaseRecordView>,
    filter: StoreFilterView,
    changes: RecordUpdateView,
) -> Seq<CaseRecordView>
    decreases store.len(),
{
    if store.len() == 0 {
        store
    } else if filter.selects(store[0]) {
        seq![changes.applied_to(store[0])] + store.drop_first()
    } else {
        seq![store[0]] + updated(store.drop_first(), filter, changes)
    }
}

/// The address that a request goes to.
pub open spec fn address_of(request: RequestView) -> Seq<char> {
    match request {
        RequestView::Get { url, .. } => url,
        RequestView::Post { url, .. } => url,
    }
}

/// What the surroundings answer to what the crawl asks, and what they are
/// afterwards. Uploads and writes succeed.
pub open spec fn answer(around: Surroundings, ledger: Ledger, action: ActionView) -> (
    Ledger,
    EventView,
) {
    match action {
        ActionView::Fetch(request) => (
            ledger,
            match (around.pages)(address_of(request)) {
                Some(page) => EventView::Page(page),
                None => EventView::Failed,
            },
        ),
        ActionView::Find(filter) => (ledger, EventView::Found(found_in(ledger.store, filter))),
        ActionView::Upload { kind, url } => (
            Ledger { uploads: ledger.uploads + 1, ..ledger },
            EventView::Uploaded((around.blob)(kind, url)),
        ),
        ActionView::Write(StoreCommandView::Insert(record)) => (
            Ledger { store: ledger.store.push(record), inserts: ledger.inserts + 1, ..ledger },
            EventView::Written(1),
        ),
        ActionView::Write(StoreCommandView::Update { filter, changes }) => (
            Ledger { store: updated(ledger.store, filter, changes), ..ledger },
            EventView::Written(
                if found_in(ledger.store, filter) is Some {
                    1
                } else {
                    0
                },
            ),
        ),
        _ => (ledger, EventView::Failed),
    }
}

/// Whether the crawl is at work on a case.
pub open spec fn in_case(stage: StageView) -> bool {
    !(stage is Boot || stage is Walking || stage is Over || stage is Aborted)
}

/// The crawl and its surroundings after at most `steps` exchanges, or at the
/// end of the cases of the pass if that comes first.
pub open spec fn run_cases(
    around: Surroundings,
    ledger: Ledger,
    c: CrawlView,
    a: ActionView,
    now: i64,
    steps: nat,
) -> (Ledger, CrawlView, ActionView)
    decreases steps,
{
    if steps == 0 || !in_case(c.stage) {
        (ledger, c, a)
    } else {
        let (next, event) = answer(around, ledger, a);
        let (c2, a2) = process_spec(c, event, now);
        run_cases(around, next, c2, a2, now, (steps - 1) as nat)
    }
}

/// Whether the record is that of the case `reference`.
pub open spec fn is_case(record: CaseRecordView, reference: Seq<char>) -> bool {
    record.council == COUNTY@ && record.summary.reference == reference
}

/// Whether the store holds a record of the case `reference`.
pub open spec fn holds(store: Seq<CaseRecordView>, reference: Seq<char>) -> bool {
    exists|i: int| 0 <= i < store.len() && is_case(#[trigger] store[i], reference)
}

/// The documents page that the portal serves for the case at `link`.
pub open spec fn documents_page(around: Surroundings, link: Seq<char>) -> Option<Seq<char>> {
    (around.pages)(BASE_URL@ + documents_url_of(link))
}

/// The print preview that the portal serves for the case at `link`.
pub open spec fn preview_page(around: Surroundings, link: Seq<char>) -> Option<Seq<char>> {
    (around.pages)(preview_url_of(BASE_URL@ + link))
}

/// The reference that the documents page of the case at `link` names.
pub open spec fn reference_at(around: Surroundings, link: Seq<char>) -> Seq<char> {
    reference_of(documents_page(around, link)->0)->0
}

/// The request for the documents page of the case at `link`.
pub open spec fn documents_request(link: Seq<char>) -> ActionView {
    ActionView::Fetch(
        RequestView::Get {
            url: BASE_URL@ + documents_url_of(link),
            delay_secs: CASE_DELAY_SECS,
        },
    )
}

/// Whether every record is the county's and no two records are of the same
/// case.
pub open spec fn well_kept(store: Seq<CaseRecordView>) -> bool {
    &&& forall|i: int| 0 <= i < store.len() ==> (#[trigger] store[i]).council == COUNTY@
    &&& forall|i: int, j: int|
        0 <= i < j < store.len() ==> (#[trigger] store[i]).summary.reference != (
        #[trigger] store[j]).summary.reference
}

/// The ledger of a store at which nothing was counted yet.
pub open spec fn opened(store: Seq<CaseRecordView>) -> Ledger {
    Ledger { store, uploads: 0, inserts: 0 }
}

/// A lookup finds a record exactly when the filter selects one.
pub proof fn found_when_selected(store: Seq<CaseRecordView>, filter: StoreFilterView)
    ensures
        found_in(store, filter) is Some <==> exists|i: int|
            0 <= i < store.len() && filter.selects(#[trigger] store[i]),
    decreases store.len(),
{
    if store.len() > 0 {
        let rest = store.drop_first();
        found_when_selected(rest, filter);
        if filter.selects(store[0]) {
        } else if found_in(rest, filter) is Some {
            let i = choose|i: int| 0 <= i < rest.len() && filter.selects(#[trigger] rest[i]);
            assert(store[i + 1] == rest[i]);
        } else {
            assert forall|i: int| 0 <= i < store.len() implies !filter.selects(
                #[trigger] store[i],
            ) by {
                if i > 0 {
                    assert(store[i] == rest[i - 1]);
                }
            }
        }
    }
}

/// The lookup of a case finds a record exactly when the store holds one.
pub proof fn found_when_held(store: Seq<CaseRecordView>, reference: Seq<char>)
    ensures
        found_in(
            store,
            StoreFilterView { council: COUNTY@, reference, with_decision: false },
        ) is Some <==> holds(store, reference),
{
    let filter = StoreFilterView { council: COUNTY@, reference, with_decision: false };
    found_when_selected(store, filter);
    if holds(store, reference) {
        let i = choose|i: int| 0 <= i < store.len() && is_case(#[trigger] store[i], reference);
        assert(filter.selects(store[i]));
    }
    if found_in(store, filter) is Some {
        let i = choose|i: int| 0 <= i < store.len() && filter.selects(#[trigger] store[i]);
        assert(is_case(store[i], reference));
    }
}

/// A store that grew holds what it held.
pub proof fn grown_store_holds(
    before: Seq<CaseRecordView>,
    after: Seq<CaseRecordView>,
    reference: Seq<char>,
)
    requires
        before.len() <= after.len(),
        after.take(before.len() as int) == before,
        holds(before, reference),
    ensures
        holds(after, reference),
{
    let i = choose|i: int| 0 <= i < before.len() && is_case(#[trigger] before[i], reference);
    assert(after.take(before.len() as int)[i] == after[i]);
    assert(is_case(after[i], reference));
}

/// The filter of the lookups of the case `reference`.
pub open spec fn case_filter(reference: Seq<char>, with_decision: bool) -> StoreFilterView {
    StoreFilterView { council: COUNTY@, reference, with_decision }
}

/// A run within a case goes on by one exchange.
pub proof fn run_goes_on(
    around: Surroundings,
    ledger: Ledger,
    c: CrawlView,
    a: ActionView,
    now: i64,
    steps: nat,
)
    requires
        steps > 0,
        in_case(c.stage),
    ensures
        run_cases(around, ledger, c, a, now, steps) == run_cases(
            around,
            answer(around, ledger, a).0,
            process_spec(c, answer(around, ledger, a).1, now).0,
            process_spec(c, answer(around, ledger, a).1, now).1,
            now,
            (steps - 1) as nat,
        ),
{
}

/// An update whose summary names the filter's reference leaves every record
/// with its council and its reference.
pub proof fn update_keeps_the_cases(
    store: Seq<CaseRecordView>,
    filter: StoreFilterView,
    changes: RecordUpdateView,
)
    requires
        changes.summary.reference == filter.reference,
    ensures
        updated(store, filter, changes).len() == store.len(),
        forall|i: int|
            0 <= i < store.len() ==> (#[trigger] updated(store, filter, changes)[i]).council
                == store[i].council && updated(store, filter, changes)[i].summary.reference
                == store[i].summary.reference,
    decreases store.len(),
{
    if store.len() > 0 {
        let rest = store.drop_first();
        update_keeps_the_cases(rest, filter, changes);
        let after = updated(store, filter, changes);
        assert forall|i: int| 0 <= i < store.len() implies (#[trigger] after[i]).council
            == store[i].council && after[i].summary.reference
            == store[i].summary.reference by {
            if i > 0 {
                assert(store[i] == rest[i - 1]);
                if !filter.selects(store[0]) {
                    assert(after[i] == updated(rest, filter, changes)[i - 1]);
                }
            }
        }
    }
}

} // verus!
