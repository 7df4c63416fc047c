//! The validated pass over the model of the crawl's surroundings: each case
//! is inserted once, and a second pass writes nothing.

use crate::details::{is_regular, record_of};
use crate::documents::{docs_of, reference_of, refusal_of};
use crate::error::CrawlError;
use crate::model::{
    answer, documents_page, documents_request, found_in, found_when_held, grown_store_holds,
    holds, in_case, is_case, opened, preview_page, reference_at, run_cases, well_kept, Ledger,
    Surroundings,
};
use crate::portal::{BASE_URL, COUNTY};
use crate::process::{
    close_case_spec, open_case_spec, process_spec, with_document, ActionView, CaseReportView,
    CrawlView, EventView, Outcome, Pass, Skip, StageView,
};
use crate::record::{CaseRecordView, DocKind};
use crate::store::{StoreCommandView, StoreFilterView};
use vstd::prelude::*;

verus! {

/// Whether the validated pass has a record to insert for the case at `link`:
/// its documents page names a reference and shows an application form, and
/// its print preview can be read.
pub open spec fn qualifies(around: Surroundings, link: Seq<char>) -> bool {
    &&& documents_page(around, link) matches Some(page) && reference_of(page) is Some
        && docs_of(page).application_form is Some
    &&& preview_page(around, link) matches Some(preview) && is_regular(preview)
}

/// The record that the validated pass inserts for the case at `link`.
pub open spec fn record_at(around: Surroundings, link: Seq<char>, now: i64) -> CaseRecordView {
    with_document(
        record_of(BASE_URL@ + link, preview_page(around, link)->0, now),
        (around.blob)(
            DocKind::ApplicationForm,
            docs_of(documents_page(around, link)->0).application_form->0,
        ),
    )
}

/// Whether the two pages of the case at `link` agree: the print preview
/// names the reference that the documents page names.
pub open spec fn agrees(around: Surroundings, link: Seq<char>) -> bool {
    qualifies(around, link) ==> record_of(
        BASE_URL@ + link,
        preview_page(around, link)->0,
        0,
    ).summary.reference == reference_at(around, link)
}

/// What the validated pass makes of the case at `link`: a case that
/// qualifies and that the store does not hold is uploaded and inserted; any
/// other changes nothing.
pub open spec fn after_case(around: Surroundings, ledger: Ledger, link: Seq<char>, now: i64) -> Ledger {
    if qualifies(around, link) && !holds(ledger.store, reference_at(around, link)) {
        Ledger {
            store: ledger.store.push(record_at(around, link, now)),
            uploads: ledger.uploads + 1,
            inserts: ledger.inserts + 1,
        }
    } else {
        ledger
    }
}

/// What the validated pass makes of the cases at `links`, one after the
/// other.
pub open spec fn after_cases(
    around: Surroundings,
    ledger: Ledger,
    links: Seq<Seq<char>>,
    now: i64,
) -> Ledger
    decreases links.len(),
{
    if links.len() == 0 {
        ledger
    } else {
        after_cases(around, after_case(around, ledger, links[0], now), links.drop_first(), now)
    }
}

/// One case of the validated pass, run against the surroundings, comes to
/// what [`after_case`] says, within five exchanges. Returns how the case
/// ends and the number of exchanges.
pub proof fn case_runs_as_modelled(
    around: Surroundings,
    ledger: Ledger,
    c: CrawlView,
    now: i64,
    steps: nat,
) -> (r: (Outcome, nat))
    requires
        c.pass == Pass::Validated,
        c.stage == StageView::Docs,
        steps >= 5,
    ensures
        1 <= r.1 <= 5,
        run_cases(around, ledger, c, documents_request(c.current), now, steps) == run_cases(
            around,
            after_case(around, ledger, c.current, now),
            close_case_spec(c, r.0).0,
            close_case_spec(c, r.0).1,
            now,
            (steps - r.1) as nat,
        ),
{
    let link = c.current;
    let a = documents_request(link);
    let (l1, e1) = answer(around, ledger, a);
    let (c1, a1) = process_spec(c, e1, now);
    assert(run_cases(around, ledger, c, a, now, steps) == run_cases(
        around,
        l1,
        c1,
        a1,
        now,
        (steps - 1) as nat,
    ));
    assert(l1 == ledger);
    if documents_page(around, link) is None {
        (Outcome::Failed(CrawlError::Transport), 1)
    } else if reference_of(documents_page(around, link)->0) is None {
        (Outcome::Failed(refusal_of(documents_page(around, link)->0)), 1)
    } else {
        let page = documents_page(around, link)->0;
        let reference = reference_of(page)->0;
        let docs = docs_of(page);
        assert(e1 == EventView::Page(page));
        assert(c1 == c.at(StageView::Lookup { reference, docs }));
        let (l2, e2) = answer(around, l1, a1);
        let (c2, a2) = process_spec(c1, e2, now);
        assert(run_cases(around, l1, c1, a1, now, (steps - 1) as nat) == run_cases(
            around,
            l2,
            c2,
            a2,
            now,
            (steps - 2) as nat,
        ));
        assert(l2 == ledger);
        found_when_held(ledger.store, reference);
        assert(e2 == EventView::Found(
            found_in(
                ledger.store,
                StoreFilterView { council: COUNTY@, reference, with_decision: false },
            ),
        ));
        if holds(ledger.store, reference) {
            let outcome = Outcome::Skipped(Skip::AlreadyPresent);
            assert((c2, a2) == close_case_spec(c, outcome));
            (outcome, 2)
        } else if docs.application_form is None {
            let outcome = Outcome::Skipped(Skip::NoApplicationForm);
            assert((c2, a2) == close_case_spec(c, outcome));
            (outcome, 2)
        } else {
            assert(c2 == c.at(StageView::NewDetails { docs }));
            assert(c2.case_url() == BASE_URL@ + link);
            let (l3, e3) = answer(around, l2, a2);
            let (c3, a3) = process_spec(c2, e3, now);
            assert(run_cases(around, l2, c2, a2, now, (steps - 2) as nat) == run_cases(
                around,
                l3,
                c3,
                a3,
                now,
                (steps - 3) as nat,
            ));
            assert(l3 == ledger);
            if preview_page(around, link) is None {
                let outcome = Outcome::Failed(CrawlError::Transport);
                assert((c3, a3) == close_case_spec(c, outcome));
                (outcome, 3)
            } else if !is_regular(preview_page(around, link)->0) {
                let outcome = Outcome::Failed(CrawlError::ProtocolShape);
                assert(e3 == EventView::Page(preview_page(around, link)->0));
                assert((c3, a3) == close_case_spec(c, outcome));
                (outcome, 3)
            } else {
                let preview = preview_page(around, link)->0;
                assert(e3 == EventView::Page(preview));
                let record = record_of(BASE_URL@ + link, preview, now);
                assert(c3 == c.at(StageView::NewUpload { record, then_decision: None }));
                assert(a3 == (ActionView::Upload {
                    kind: DocKind::ApplicationForm,
                    url: docs.application_form->0,
                }));
                let (l4, e4) = answer(around, l3, a3);
                let (c4, a4) = process_spec(c3, e4, now);
                assert(run_cases(around, l3, c3, a3, now, (steps - 3) as nat) == run_cases(
                    around,
                    l4,
                    c4,
                    a4,
                    now,
                    (steps - 4) as nat,
                ));
                assert(c4 == c.at(StageView::Insert));
                assert(a4 == ActionView::Write(
                    StoreCommandView::Insert(record_at(around, link, now)),
                ));
                let (l5, e5) = answer(around, l4, a4);
                let (c5, a5) = process_spec(c4, e5, now);
                assert(run_cases(around, l4, c4, a4, now, (steps - 4) as nat) == run_cases(
                    around,
                    l5,
                    c5,
                    a5,
                    now,
                    (steps - 5) as nat,
                ));
                assert(l5 == after_case(around, ledger, link, now));
                assert((c5, a5) == close_case_spec(c, Outcome::Inserted));
                (Outcome::Inserted, 5)
            }
        }
    }
}

/// The cases of the validated pass, run against the surroundings, come to
/// what [`after_cases`] says, within five exchanges for each case, and the
/// pass ends.
pub proof fn cases_run_as_modelled(
    around: Surroundings,
    ledger: Ledger,
    c: CrawlView,
    now: i64,
    steps: nat,
)
    requires
        c.pass == Pass::Validated,
        steps >= 5 * c.pending.len(),
    ensures
        ({
            let (c0, a0) = open_case_spec(c);
            let end = run_cases(around, ledger, c0, a0, now, steps);
            &&& end.0 == after_cases(around, ledger, c.pending, now)
            &&& !in_case(end.1.stage)
        }),
    decreases c.pending.len(),
{
    let (c0, a0) = open_case_spec(c);
    if c.pending.len() > 0 {
        assert(a0 == documents_request(c0.current));
        let (outcome, k) = case_runs_as_modelled(around, ledger, c0, now, steps);
        let reported = CrawlView {
            report: c0.report.push(
                CaseReportView { pass: c0.pass, link: c0.current, outcome },
            ),
            ..c0
        };
        assert(close_case_spec(c0, outcome) == open_case_spec(reported));
        assert(reported.pending == c.pending.drop_first());
        cases_run_as_modelled(
            around,
            after_case(around, ledger, c.pending[0], now),
            reported,
            now,
            (steps - k) as nat,
        );
    }
}

/// Whether the store holds every case among `links` that qualifies.
pub open spec fn covers(
    around: Surroundings,
    store: Seq<CaseRecordView>,
    links: Seq<Seq<char>>,
) -> bool {
    forall|i: int|
        0 <= i < links.len() && qualifies(around, #[trigger] links[i]) ==> holds(
            store,
            reference_at(around, links[i]),
        )
}

/// Whether the two pages of every case among `links` agree.
pub open spec fn all_agree(around: Surroundings, links: Seq<Seq<char>>) -> bool {
    forall|i: int| 0 <= i < links.len() ==> agrees(around, #[trigger] links[i])
}

/// What the validated pass leaves of a well-kept store: a well-kept store
/// that grew by one record for each insert and each upload, and that holds
/// every case that qualifies.
pub proof fn cases_keep_the_store_well(
    around: Surroundings,
    ledger: Ledger,
    links: Seq<Seq<char>>,
    now: i64,
)
    requires
        all_agree(around, links),
        well_kept(ledger.store),
    ensures
        ({
            let end = after_cases(around, ledger, links, now);
            &&& well_kept(end.store)
            &&& ledger.store.len() <= end.store.len()
            &&& end.store.take(ledger.store.len() as int) == ledger.store
            &&& end.inserts - ledger.inserts == end.store.len() - ledger.store.len()
            &&& end.uploads - ledger.uploads == end.store.len() - ledger.store.len()
            &&& covers(around, end.store, links)
        }),
    decreases links.len(),
{
    if links.len() == 0 {
        assert(ledger.store.take(ledger.store.len() as int) == ledger.store);
    } else {
        let link = links[0];
        let rest = links.drop_first();
        let mid = after_case(around, ledger, link, now);
        let end = after_cases(around, mid, rest, now);
        assert(agrees(around, link));
        assert(mid.store.take(ledger.store.len() as int) == ledger.store);
        if qualifies(around, link) && !holds(ledger.store, reference_at(around, link)) {
            let record = record_at(around, link, now);
            assert(is_case(record, reference_at(around, link)));
            assert(mid.store.last() == record);
            assert forall|i: int, j: int| 0 <= i < j < mid.store.len() implies (
            #[trigger] mid.store[i]).summary.reference != (
            #[trigger] mid.store[j]).summary.reference by {
                if j == ledger.store.len() {
                    assert(mid.store[i] == ledger.store[i]);
                    assert(!is_case(ledger.store[i], reference_at(around, link)));
                } else {
                    assert(mid.store[i] == ledger.store[i]);
                    assert(mid.store[j] == ledger.store[j]);
                }
            }
        }
        assert(well_kept(mid.store));
        assert forall|i: int| 0 <= i < rest.len() implies agrees(around, #[trigger] rest[i]) by {
            assert(rest[i] == links[i + 1]);
        }
        cases_keep_the_store_well(around, mid, rest, now);
        assert(end.store.take(ledger.store.len() as int) == ledger.store) by {
            assert(end.store.take(mid.store.len() as int).take(ledger.store.len() as int)
                == end.store.take(ledger.store.len() as int));
        }
        assert forall|i: int|
            0 <= i < links.len() && qualifies(around, #[trigger] links[i]) implies holds(
            end.store,
            reference_at(around, links[i]),
        ) by {
            if i == 0 {
                assert(holds(mid.store, reference_at(around, link))) by {
                    if holds(ledger.store, reference_at(around, link)) {
                        grown_store_holds(ledger.store, mid.store, reference_at(around, link));
                    } else {
                        assert(is_case(
                            mid.store[mid.store.len() - 1],
                            reference_at(around, link),
                        ));
                    }
                }
                grown_store_holds(mid.store, end.store, reference_at(around, link));
            } else {
                assert(links[i] == rest[i - 1]);
            }
        }
    }
}

/// The validated pass changes nothing where the store holds every case that
/// qualifies.
pub proof fn held_cases_change_nothing(
    around: Surroundings,
    ledger: Ledger,
    links: Seq<Seq<char>>,
    now: i64,
)
    requires
        covers(around, ledger.store, links),
    ensures
        after_cases(around, ledger, links, now) == ledger,
    decreases links.len(),
{
    if links.len() > 0 {
        let rest = links.drop_first();
        assert(links[0] == links[0]);
        assert(after_case(around, ledger, links[0], now) == ledger);
        assert forall|i: int|
            0 <= i < rest.len() && qualifies(around, #[trigger] rest[i]) implies holds(
            ledger.store,
            reference_at(around, rest[i]),
        ) by {
            assert(rest[i] == links[i + 1]);
        }
        held_cases_change_nothing(around, ledger, rest, now);
    }
}

/// The validated pass leaves a well-kept store well kept, whatever it held:
/// where the pages of every case agree, no case comes to be held twice, and
/// what the store held stays as it was.
pub proof fn validated_pass_keeps_the_store_well(
    around: Surroundings,
    ledger: Ledger,
    c: CrawlView,
    now: i64,
)
    requires
        c.pass == Pass::Validated,
        all_agree(around, c.pending),
        well_kept(ledger.store),
    ensures
        ({
            let (c0, a0) = open_case_spec(c);
            let end = run_cases(around, ledger, c0, a0, now, 5 * c.pending.len());
            &&& well_kept(end.0.store)
            &&& ledger.store.len() <= end.0.store.len()
            &&& end.0.store.take(ledger.store.len() as int) == ledger.store
        }),
{
    cases_run_as_modelled(around, ledger, c, now, 5 * c.pending.len());
    cases_keep_the_store_well(around, ledger, c.pending, now);
}

/// The validated pass, run twice over the same cases against an unchanged
/// portal whose pages agree, the first time on an empty store: both runs
/// come to the end of the pass; the first makes one upload and one insert
/// for each record that the store then holds, leaves no two records of the
/// same case, and leaves a record of every case that qualifies; the second
/// makes no upload and no insert, and leaves the store as it found it.
pub proof fn second_validated_pass_writes_nothing(
    around: Surroundings,
    c: CrawlView,
    first_now: i64,
    second_now: i64,
)
    requires
        c.pass == Pass::Validated,
        all_agree(around, c.pending),
    ensures
        ({
            let (c0, a0) = open_case_spec(c);
            let steps = 5 * c.pending.len();
            let first = run_cases(around, opened(Seq::empty()), c0, a0, first_now, steps);
            let second = run_cases(around, opened(first.0.store), c0, a0, second_now, steps);
            &&& !in_case(first.1.stage)
            &&& !in_case(second.1.stage)
            &&& first.0.inserts == first.0.store.len()
            &&& first.0.uploads == first.0.store.len()
            &&& well_kept(first.0.store)
            &&& covers(around, first.0.store, c.pending)
            &&& second.0.inserts == 0
            &&& second.0.uploads == 0
            &&& second.0.store == first.0.store
        }),
{
    let steps = 5 * c.pending.len();
    let empty = opened(Seq::empty());
    cases_run_as_modelled(around, empty, c, first_now, steps);
    cases_keep_the_store_well(around, empty, c.pending, first_now);
    let held = after_cases(around, empty, c.pending, first_now).store;
    cases_run_as_modelled(around, opened(held), c, second_now, steps);
    held_cases_change_nothing(around, opened(held), c.pending, second_now);
}

} // verus!
