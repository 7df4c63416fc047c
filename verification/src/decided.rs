//! The decided pass over the model of the crawl's surroundings: what it
//! makes of each case, and that it leaves no case held twice.

use crate::details::{is_regular, record_of};
use crate::documents::{docs_of, reference_of, refusal_of, DocLinksView};
use crate::error::CrawlError;
use crate::model::{
    answer, case_filter, documents_page, documents_request, found_in, found_when_held,
    found_when_selected, holds, is_case, opened, preview_page, reference_at, run_cases,
    run_goes_on, update_keeps_the_cases, updated, well_kept, Ledger, Surroundings,
};
use crate::portal::BASE_URL;
use crate::process::{
    changes_of, close_case_spec, insert, next_upload_spec, open_case_spec, process_spec,
    with_document, ActionView, CaseReportView, CrawlView, EventView, Outcome, Pass, Skip,
    StageView,
};
use crate::record::{holds_kind, label_of, CaseRecordView, DocKind, DocumentRefView};
use crate::store::{RecordUpdateView, StoreCommandView, StoreFilterView};
use vstd::prelude::*;

verus! {

/// Whether the print preview of the case at `link` can be read.
pub open spec fn is_readable(around: Surroundings, link: Seq<char>) -> bool {
    preview_page(around, link) matches Some(preview) && is_regular(preview)
}

/// Whether the two pages of the case at `link` agree, where both can be
/// read: the print preview names the reference that the documents page
/// names.
pub open spec fn names_agree(around: Surroundings, link: Seq<char>) -> bool {
    (documents_page(around, link) matches Some(page) && reference_of(page) is Some)
        && is_readable(around, link) ==> record_of(
        BASE_URL@ + link,
        preview_page(around, link)->0,
        0,
    ).summary.reference == reference_at(around, link)
}

/// Whether the two pages of every case among `links` agree.
pub open spec fn all_names_agree(around: Surroundings, links: Seq<Seq<char>>) -> bool {
    forall|i: int| 0 <= i < links.len() ==> names_agree(around, #[trigger] links[i])
}

/// The record with the documents that blob storage keeps for the links
/// given: the application form first, then the decision notice.
pub open spec fn with_uploads(
    around: Surroundings,
    record: CaseRecordView,
    form: Option<Seq<char>>,
    decision: Option<Seq<char>>,
) -> CaseRecordView {
    let with_form = match form {
        Some(url) => with_document(record, (around.blob)(DocKind::ApplicationForm, url)),
        None => record,
    };
    match decision {
        Some(url) => with_document(with_form, (around.blob)(DocKind::DecisionNotice, url)),
        None => with_form,
    }
}

/// How many of the two links are there.
pub open spec fn count_of(form: Option<Seq<char>>, decision: Option<Seq<char>>) -> nat {
    (if form is Some {
        1nat
    } else {
        0nat
    }) + (if decision is Some {
        1nat
    } else {
        0nat
    })
}

/// What the decided pass makes of the case at `link`. A case whose
/// documents page names no reference, or that the store holds with its
/// decision notice, changes nothing. For a case that the store holds
/// otherwise, the decision notice, if it is to be had, is uploaded, and the
/// record is updated if the print preview can be read. A case that the store
/// does not hold is inserted with its documents if the print preview can be
/// read.
pub open spec fn after_case(around: Surroundings, ledger: Ledger, link: Seq<char>, now: i64) -> Ledger {
    if documents_page(around, link) is None || reference_of(documents_page(around, link)->0)
        is None {
        ledger
    } else {
        let reference = reference_at(around, link);
        let docs = docs_of(documents_page(around, link)->0);
        let fresh = record_of(BASE_URL@ + link, preview_page(around, link)->0, now);
        if found_in(ledger.store, case_filter(reference, true)) is Some {
            ledger
        } else {
            match found_in(ledger.store, case_filter(reference, false)) {
                Some(existing) => match docs.decision_notice {
                    None => ledger,
                    Some(url) => Ledger {
                        store: if is_readable(around, link) {
                            updated(
                                ledger.store,
                                case_filter(reference, false),
                                changes_of(
                                    fresh,
                                    existing.push((around.blob)(DocKind::DecisionNotice, url)),
                                    now,
                                ),
                            )
                        } else {
                            ledger.store
                        },
                        uploads: ledger.uploads + 1,
                        inserts: ledger.inserts,
                    },
                },
                None => if is_readable(around, link) {
                    Ledger {
                        store: ledger.store.push(
                            with_uploads(
                                around,
                                fresh,
                                docs.application_form,
                                docs.decision_notice,
                            ),
                        ),
                        uploads: ledger.uploads + count_of(
                            docs.application_form,
                            docs.decision_notice,
                        ),
                        inserts: ledger.inserts + 1,
                    }
                } else {
                    ledger
                },
            }
        }
    }
}

/// What the decided pass makes of the cases at `links`, one after the
/// other.
pub open spec fn after_cases(
    around: Surroundings,
    ledger: Ledger,
    links: Seq<Seq<char>>,
    now: i64,
) -> Ledger
    decreases links.len(),
{
    if links.len() == 0 {
        ledger
    } else {
        after_cases(around, after_case(around, ledger, links[0], now), links.drop_first(), now)
    }
}

/// The uploads and the insert of a case that the store does not hold, run
/// against the surroundings, take one exchange each and leave the record
/// inserted with the documents uploaded. Returns the number of exchanges.
pub proof fn new_case_is_inserted(
    around: Surroundings,
    ledger: Ledger,
    c: CrawlView,
    record: CaseRecordView,
    form: Option<Seq<char>>,
    decision: Option<Seq<char>>,
    now: i64,
    steps: nat,
) -> (k: nat)
    requires
        steps >= 3,
    ensures
        k == count_of(form, decision) + 1,
        run_cases(
            around,
            ledger,
            next_upload_spec(c, record, form, decision).0,
            next_upload_spec(c, record, form, decision).1,
            now,
            steps,
        ) == run_cases(
            around,
            Ledger {
                store: ledger.store.push(with_uploads(around, record, form, decision)),
                uploads: ledger.uploads + count_of(form, decision),
                inserts: ledger.inserts + 1,
            },
            close_case_spec(c, Outcome::Inserted).0,
            close_case_spec(c, Outcome::Inserted).1,
            now,
            (steps - k) as nat,
        ),
{
    let (c1, a1) = next_upload_spec(c, record, form, decision);
    run_goes_on(around, ledger, c1, a1, now, steps);
    let (l2, e2) = answer(around, ledger, a1);
    let (c2, a2) = process_spec(c1, e2, now);
    if form is Some {
        let filed = with_document(record, (around.blob)(DocKind::ApplicationForm, form->0));
        assert((c2, a2) == next_upload_spec(c, filed, None, decision));
        if decision is Some {
            run_goes_on(around, l2, c2, a2, now, (steps - 1) as nat);
            let (l3, e3) = answer(around, l2, a2);
            let (c3, a3) = process_spec(c2, e3, now);
            let both = with_document(filed, (around.blob)(DocKind::DecisionNotice, decision->0));
            assert(c3 == c.at(StageView::Insert));
            assert(a3 == insert(both));
            run_goes_on(around, l3, c3, a3, now, (steps - 2) as nat);
            assert(process_spec(c3, answer(around, l3, a3).1, now) == close_case_spec(
                c,
                Outcome::Inserted,
            ));
            3
        } else {
            assert(c2 == c.at(StageView::Insert));
            assert(a2 == insert(filed));
            run_goes_on(around, l2, c2, a2, now, (steps - 1) as nat);
            assert(process_spec(c2, answer(around, l2, a2).1, now) == close_case_spec(
                c,
                Outcome::Inserted,
            ));
            2
        }
    } else if decision is Some {
        let noted = with_document(record, (around.blob)(DocKind::DecisionNotice, decision->0));
        assert(c2 == c.at(StageView::Insert));
        assert(a2 == insert(noted));
        run_goes_on(around, l2, c2, a2, now, (steps - 1) as nat);
        assert(process_spec(c2, answer(around, l2, a2).1, now) == close_case_spec(
            c,
            Outcome::Inserted,
        ));
        2
    } else {
        assert((c2, a2) == close_case_spec(c, Outcome::Inserted));
        1
    }
}

/// One case of the decided pass, run against the surroundings, comes to
/// what [`after_case`] says, within seven exchanges. Returns how the case
/// ends and the number of exchanges.
pub proof fn case_runs_as_modelled(
    around: Surroundings,
    ledger: Ledger,
    c: CrawlView,
    now: i64,
    steps: nat,
) -> (r: (Outcome, nat))
    requires
        c.pass == Pass::Decided,
        c.stage == StageView::Docs,
        steps >= 7,
    ensures
        1 <= r.1 <= 7,
        run_cases(around, ledger, c, documents_request(c.current), now, steps) == run_cases(
            around,
            after_case(around, ledger, c.current, now),
            close_case_spec(c, r.0).0,
            close_case_spec(c, r.0).1,
            now,
            (steps - r.1) as nat,
        ),
{
    let link = c.current;
    let a = documents_request(link);
    run_goes_on(around, ledger, c, a, now, steps);
    let (l1, e1) = answer(around, ledger, a);
    let (c1, a1) = process_spec(c, e1, now);
    if documents_page(around, link) is None {
        (Outcome::Failed(CrawlError::Transport), 1)
    } else if reference_of(documents_page(around, link)->0) is None {
        (Outcome::Failed(refusal_of(documents_page(around, link)->0)), 1)
    } else {
        let page = documents_page(around, link)->0;
        let reference = reference_of(page)->0;
        let docs = docs_of(page);
        assert(e1 == EventView::Page(page));
        assert(c1 == c.at(StageView::DecisionLookup { reference, docs }));
        run_goes_on(around, l1, c1, a1, now, (steps - 1) as nat);
        let (l2, e2) = answer(around, l1, a1);
        let (c2, a2) = process_spec(c1, e2, now);
        assert(e2 == EventView::Found(found_in(ledger.store, case_filter(reference, true))));
        if found_in(ledger.store, case_filter(reference, true)) is Some {
            let outcome = Outcome::Skipped(Skip::AlreadyFinalized);
            assert((c2, a2) == close_case_spec(c, outcome));
            (outcome, 2)
        } else {
            assert(c2 == c.at(StageView::Lookup { reference, docs }));
            run_goes_on(around, l2, c2, a2, now, (steps - 2) as nat);
            let (l3, e3) = answer(around, l2, a2);
            let (c3, a3) = process_spec(c2, e3, now);
            let found = found_in(ledger.store, case_filter(reference, false));
            assert(e3 == EventView::Found(found));
            assert(l3 == ledger);
            if found is Some {
                held_case_runs_as_modelled(around, ledger, c, reference, docs, found->0, now, steps)
            } else {
                assert(c3 == c.at(StageView::NewDetails { docs }));
                assert(c3.case_url() == BASE_URL@ + link);
                run_goes_on(around, l3, c3, a3, now, (steps - 3) as nat);
                let (l4, e4) = answer(around, l3, a3);
                let (c4, a4) = process_spec(c3, e4, now);
                if preview_page(around, link) is None {
                    let outcome = Outcome::Failed(CrawlError::Transport);
                    assert((c4, a4) == close_case_spec(c, outcome));
                    (outcome, 4)
                } else if !is_regular(preview_page(around, link)->0) {
                    let outcome = Outcome::Failed(CrawlError::ProtocolShape);
                    assert(e4 == EventView::Page(preview_page(around, link)->0));
                    assert((c4, a4) == close_case_spec(c, outcome));
                    (outcome, 4)
                } else {
                    let preview = preview_page(around, link)->0;
                    assert(e4 == EventView::Page(preview));
                    let fresh = record_of(BASE_URL@ + link, preview, now);
                    assert((c4, a4) == next_upload_spec(
                        c,
                        fresh,
                        docs.application_form,
                        docs.decision_notice,
                    ));
                    let k = new_case_is_inserted(
                        around,
                        ledger,
                        c,
                        fresh,
                        docs.application_form,
                        docs.decision_notice,
                        now,
                        (steps - 4) as nat,
                    );
                    (Outcome::Inserted, 4 + k)
                }
            }
        }
    }
}

/// The case in hand, which the store holds without decision notice, comes
/// to what [`after_case`] says, once its lookup has found it.
proof fn held_case_runs_as_modelled(
    around: Surroundings,
    ledger: Ledger,
    c: CrawlView,
    reference: Seq<char>,
    docs: DocLinksView,
    existing: Seq<DocumentRefView>,
    now: i64,
    steps: nat,
) -> (r: (Outcome, nat))
    requires
        c.pass == Pass::Decided,
        steps >= 7,
        documents_page(around, c.current) is Some,
        reference_of(documents_page(around, c.current)->0) == Some(reference),
        docs == docs_of(documents_page(around, c.current)->0),
        found_in(ledger.store, case_filter(reference, true)) is None,
        found_in(ledger.store, case_filter(reference, false)) == Some(existing),
    ensures
        3 <= r.1 <= 6,
        ({
            let held = c.at(StageView::Lookup { reference, docs });
            let next = process_spec(held, EventView::Found(Some(existing)), now);
            run_cases(around, ledger, next.0, next.1, now, (steps - 3) as nat) == run_cases(
                around,
                after_case(around, ledger, c.current, now),
                close_case_spec(c, r.0).0,
                close_case_spec(c, r.0).1,
                now,
                (steps - r.1) as nat,
            )
        }),
{
    let link = c.current;
    let held = c.at(StageView::Lookup { reference, docs });
    let (c3, a3) = process_spec(held, EventView::Found(Some(existing)), now);
    if docs.decision_notice is None {
        let outcome = Outcome::Skipped(Skip::NoDecisionNotice);
        assert((c3, a3) == close_case_spec(c, outcome));
        (outcome, 3)
    } else {
        let url = docs.decision_notice->0;
        let file = (around.blob)(DocKind::DecisionNotice, url);
        assert(c3 == c.at(StageView::DecisionUpload { reference, existing }));
        run_goes_on(around, ledger, c3, a3, now, (steps - 3) as nat);
        let (l4, e4) = answer(around, ledger, a3);
        let (c4, a4) = process_spec(c3, e4, now);
        assert(e4 == EventView::Uploaded(file));
        assert(c4 == c.at(
            StageView::UpdateDetails { reference, documents: existing.push(file) },
        ));
        assert(c4.case_url() == BASE_URL@ + link);
        run_goes_on(around, l4, c4, a4, now, (steps - 4) as nat);
        let (l5, e5) = answer(around, l4, a4);
        let (c5, a5) = process_spec(c4, e5, now);
        assert(l5 == l4);
        if preview_page(around, link) is None {
            let outcome = Outcome::Failed(CrawlError::Transport);
            assert((c5, a5) == close_case_spec(c, outcome));
            assert(l5 == after_case(around, ledger, link, now));
            (outcome, 5)
        } else if !is_regular(preview_page(around, link)->0) {
            let outcome = Outcome::Failed(CrawlError::ProtocolShape);
            assert(e5 == EventView::Page(preview_page(around, link)->0));
            assert((c5, a5) == close_case_spec(c, outcome));
            assert(l5 == after_case(around, ledger, link, now));
            (outcome, 5)
        } else {
            let preview = preview_page(around, link)->0;
            assert(e5 == EventView::Page(preview));
            let fresh = record_of(BASE_URL@ + link, preview, now);
            let changes = changes_of(fresh, existing.push(file), now);
            assert(c5 == c.at(StageView::Update));
            assert(a5 == ActionView::Write(
                StoreCommandView::Update { filter: case_filter(reference, false), changes },
            ));
            run_goes_on(around, l5, c5, a5, now, (steps - 5) as nat);
            let (l6, e6) = answer(around, l5, a5);
            let (c6, a6) = process_spec(c5, e6, now);
            assert(e6 == EventView::Written(1));
            assert((c6, a6) == close_case_spec(c, Outcome::Updated));
            assert(l6 == after_case(around, ledger, link, now));
            (Outcome::Updated, 6)
        }
    }
}

/// The cases of the decided pass, run against the surroundings, come to
/// what [`after_cases`] says, within seven exchanges for each case, and the
/// crawl ends.
pub proof fn cases_run_as_modelled(
    around: Surroundings,
    ledger: Ledger,
    c: CrawlView,
    now: i64,
    steps: nat,
)
    requires
        c.pass == Pass::Decided,
        steps >= 7 * c.pending.len(),
    ensures
        ({
            let (c0, a0) = open_case_spec(c);
            let end = run_cases(around, ledger, c0, a0, now, steps);
            &&& end.0 == after_cases(around, ledger, c.pending, now)
            &&& end.1.stage == StageView::Over
            &&& end.2 == ActionView::Finish
        }),
    decreases c.pending.len(),
{
    let (c0, a0) = open_case_spec(c);
    if c.pending.len() > 0 {
        assert(a0 == documents_request(c0.current));
        let (outcome, k) = case_runs_as_modelled(around, ledger, c0, now, steps);
        let reported = CrawlView {
            report: c0.report.push(
                CaseReportView { pass: c0.pass, link: c0.current, outcome },
            ),
            ..c0
        };
        assert(close_case_spec(c0, outcome) == open_case_spec(reported));
        assert(reported.pending == c.pending.drop_first());
        cases_run_as_modelled(
            around,
            after_case(around, ledger, c.pending[0], now),
            reported,
            now,
            (steps - k) as nat,
        );
    }
}

/// The decided pass leaves a well-kept store well kept, where the pages of
/// every case agree: an insert adds a case that the store did not hold, and
/// an update leaves every record with its council and its reference.
pub proof fn cases_keep_the_store_well(
    around: Surroundings,
    ledger: Ledger,
    links: Seq<Seq<char>>,
    now: i64,
)
    requires
        all_names_agree(around, links),
        well_kept(ledger.store),
    ensures
        well_kept(after_cases(around, ledger, links, now).store),
        ledger.store.len() <= after_cases(around, ledger, links, now).store.len(),
    decreases links.len(),
{
    if links.len() > 0 {
        let link = links[0];
        let rest = links.drop_first();
        let mid = after_case(around, ledger, link, now);
        assert(names_agree(around, link));
        if mid.store != ledger.store {
            let reference = reference_at(around, link);
            let docs = docs_of(documents_page(around, link)->0);
            let fresh = record_of(BASE_URL@ + link, preview_page(around, link)->0, now);
            let found = found_in(ledger.store, case_filter(reference, false));
            found_when_held(ledger.store, reference);
            if found is Some {
                let changes = changes_of(
                    fresh,
                    found->0.push(
                        (around.blob)(DocKind::DecisionNotice, docs.decision_notice->0),
                    ),
                    now,
                );
                update_keeps_the_cases(ledger.store, case_filter(reference, false), changes);
                assert(mid.store == updated(
                    ledger.store,
                    case_filter(reference, false),
                    changes,
                ));
                assert forall|i: int, j: int| 0 <= i < j < mid.store.len() implies (
                #[trigger] mid.store[i]).summary.reference != (
                #[trigger] mid.store[j]).summary.reference by {
                    assert(mid.store[i].summary.reference == ledger.store[i].summary.reference);
                    assert(mid.store[j].summary.reference == ledger.store[j].summary.reference);
                }
                assert forall|i: int| 0 <= i < mid.store.len() implies (
                #[trigger] mid.store[i]).council == crate::portal::COUNTY@ by {
                    assert(mid.store[i].council == ledger.store[i].council);
                }
            } else {
                let record = with_uploads(
                    around,
                    fresh,
                    docs.application_form,
                    docs.decision_notice,
                );
                assert(mid.store == ledger.store.push(record));
                assert(is_case(record, reference));
                assert forall|i: int, j: int| 0 <= i < j < mid.store.len() implies (
                #[trigger] mid.store[i]).summary.reference != (
                #[trigger] mid.store[j]).summary.reference by {
                    assert(mid.store[i] == ledger.store[i]);
                    if j == ledger.store.len() {
                        assert(!is_case(ledger.store[i], reference));
                    } else {
                        assert(mid.store[j] == ledger.store[j]);
                    }
                }
            }
        }
        assert(well_kept(mid.store));
        assert forall|i: int| 0 <= i < rest.len() implies names_agree(
            around,
            #[trigger] rest[i],
        ) by {
            assert(rest[i] == links[i + 1]);
        }
        cases_keep_the_store_well(around, mid, rest, now);
    }
}

/// The decided pass, run against surroundings whose pages agree, comes to
/// its end and leaves a well-kept store well kept: no case is held twice.
pub proof fn decided_pass_keeps_the_store_well(
    around: Surroundings,
    ledger: Ledger,
    c: CrawlView,
    now: i64,
)
    requires
        c.pass == Pass::Decided,
        all_names_agree(around, c.pending),
        well_kept(ledger.store),
    ensures
        ({
            let (c0, a0) = open_case_spec(c);
            let end = run_cases(around, ledger, c0, a0, now, 7 * c.pending.len());
            &&& end.1.stage == StageView::Over
            &&& end.2 == ActionView::Finish
            &&& well_kept(end.0.store)
            &&& ledger.store.len() <= end.0.store.len()
        }),
{
    cases_run_as_modelled(around, ledger, c, now, 7 * c.pending.len());
    cases_keep_the_store_well(around, ledger, c.pending, now);
}

/// Whether blob storage describes each document under the kind that it was
/// given.
pub open spec fn keeps_kind(around: Surroundings) -> bool {
    forall|kind: DocKind, url: Seq<char>|
        (#[trigger] (around.blob)(kind, url)).doc_type == label_of(kind)
}

/// Whether the documents page of the case at `link` is served and names a
/// reference.
pub open spec fn is_shown(around: Surroundings, link: Seq<char>) -> bool {
    documents_page(around, link) matches Some(page) && reference_of(page) is Some
}

/// Whether the print preview of every case among `links` whose documents
/// page names a reference can be read.
pub open spec fn all_readable(around: Surroundings, links: Seq<Seq<char>>) -> bool {
    forall|i: int|
        0 <= i < links.len() && is_shown(around, #[trigger] links[i]) ==> is_readable(
            around,
            links[i],
        )
}

/// Whether the decided pass has nothing left to do for the case at `link`:
/// the store holds it with its decision notice, or holds it while no
/// decision notice is to be had; or its documents page names no reference.
pub open spec fn is_settled(
    around: Surroundings,
    store: Seq<CaseRecordView>,
    link: Seq<char>,
) -> bool {
    is_shown(around, link) ==> {
        ||| found_in(store, case_filter(reference_at(around, link), true)) is Some
        ||| holds(store, reference_at(around, link)) && docs_of(
            documents_page(around, link)->0,
        ).decision_notice is None
    }
}

/// Whether the decided pass has nothing left to do for any case among
/// `links`.
pub open spec fn all_settled(
    around: Surroundings,
    store: Seq<CaseRecordView>,
    links: Seq<Seq<char>>,
) -> bool {
    forall|i: int| 0 <= i < links.len() ==> is_settled(around, store, #[trigger] links[i])
}

/// Whether every record of `before` stands in `after` at its place, with
/// its council, its reference, and a document of each kind that it held.
pub open spec fn carries(before: Seq<CaseRecordView>, after: Seq<CaseRecordView>) -> bool {
    &&& before.len() <= after.len()
    &&& forall|i: int|
        0 <= i < before.len() ==> {
            &&& (#[trigger] after[i]).council == before[i].council
            &&& after[i].summary.reference == before[i].summary.reference
            &&& forall|kind: DocKind|
                holds_kind(before[i].documents, kind) ==> #[trigger] holds_kind(
                    after[i].documents,
                    kind,
                )
        }
}

/// What a filter selects in a store, it selects in a store that carries it.
pub proof fn carried_case_is_found(
    before: Seq<CaseRecordView>,
    after: Seq<CaseRecordView>,
    filter: StoreFilterView,
)
    requires
        carries(before, after),
        found_in(before, filter) is Some,
    ensures
        found_in(after, filter) is Some,
{
    found_when_selected(before, filter);
    found_when_selected(after, filter);
    let i = choose|i: int| 0 <= i < before.len() && filter.selects(#[trigger] before[i]);
    assert(after[i].council == before[i].council);
    if filter.with_decision {
        assert(holds_kind(after[i].documents, DocKind::DecisionNotice));
    }
    assert(filter.selects(after[i]));
}

/// A list of documents with one more holds a document of each kind that it
/// held.
pub proof fn more_documents_hold_the_kinds(documents: Seq<DocumentRefView>, file: DocumentRefView)
    ensures
        forall|kind: DocKind|
            holds_kind(documents, kind) ==> #[trigger] holds_kind(documents.push(file), kind),
        holds_kind(documents.push(file), DocKind::DecisionNotice) <== file.doc_type == label_of(
            DocKind::DecisionNotice,
        ),
{
    assert forall|kind: DocKind| holds_kind(documents, kind) implies #[trigger] holds_kind(
        documents.push(file),
        kind,
    ) by {
        let i = choose|i: int|
            0 <= i < documents.len() && #[trigger] documents[i].doc_type == label_of(kind);
        assert(documents.push(file)[i].doc_type == label_of(kind));
    }
    if file.doc_type == label_of(DocKind::DecisionNotice) {
        assert(documents.push(file)[documents.len() as int].doc_type == label_of(
            DocKind::DecisionNotice,
        ));
    }
}

/// An update that names the filter's reference and adds a document to those
/// of the record found leaves a store that carries the one before.
pub proof fn update_carries_the_store(
    store: Seq<CaseRecordView>,
    filter: StoreFilterView,
    changes: RecordUpdateView,
    file: DocumentRefView,
)
    requires
        changes.summary.reference == filter.reference,
        found_in(store, filter) matches Some(existing) && changes.documents == existing.push(
            file,
        ),
    ensures
        carries(store, updated(store, filter, changes)),
        updated(store, filter, changes).len() == store.len(),
        exists|i: int|
            0 <= i < store.len() && filter.selects(store[i]) && #[trigger] updated(
                store,
                filter,
                changes,
            )[i] == changes.applied_to(store[i]),
    decreases store.len(),
{
    let after = updated(store, filter, changes);
    let rest = store.drop_first();
    if filter.selects(store[0]) {
        more_documents_hold_the_kinds(store[0].documents, file);
        assert(after[0] == changes.applied_to(store[0]));
        assert forall|i: int| 0 < i < store.len() implies #[trigger] after[i] == store[i] by {
            assert(after[i] == rest[i - 1]);
        }
    } else {
        update_carries_the_store(rest, filter, changes, file);
        let inner = updated(rest, filter, changes);
        let k = choose|k: int|
            0 <= k < rest.len() && filter.selects(rest[k]) && #[trigger] inner[k]
                == changes.applied_to(rest[k]);
        assert(after[k + 1] == inner[k]);
        assert(store[k + 1] == rest[k]);
        assert forall|i: int| 0 <= i < store.len() implies {
            &&& (#[trigger] after[i]).council == store[i].council
            &&& after[i].summary.reference == store[i].summary.reference
            &&& forall|kind: DocKind|
                holds_kind(store[i].documents, kind) ==> #[trigger] holds_kind(
                    after[i].documents,
                    kind,
                )
        } by {
            if i > 0 {
                assert(after[i] == inner[i - 1]);
                assert(store[i] == rest[i - 1]);
            }
        }
    }
}

/// A store with one more record carries the one before.
pub proof fn insert_carries_the_store(store: Seq<CaseRecordView>, record: CaseRecordView)
    ensures
        carries(store, store.push(record)),
{
    assert forall|i: int| 0 <= i < store.len() implies (#[trigger] store.push(record)[i])
        == store[i] by {}
}

/// What the decided pass makes of a case leaves a store that carries the
/// one before, where the pages of the case agree.
pub proof fn case_carries_the_store(
    around: Surroundings,
    ledger: Ledger,
    link: Seq<char>,
    now: i64,
)
    requires
        names_agree(around, link),
    ensures
        carries(ledger.store, after_case(around, ledger, link, now).store),
{
    let after = after_case(around, ledger, link, now);
    if after.store != ledger.store {
        let reference = reference_at(around, link);
        let docs = docs_of(documents_page(around, link)->0);
        let fresh = record_of(BASE_URL@ + link, preview_page(around, link)->0, now);
        let found = found_in(ledger.store, case_filter(reference, false));
        if found is Some {
            let file = (around.blob)(DocKind::DecisionNotice, docs.decision_notice->0);
            update_carries_the_store(
                ledger.store,
                case_filter(reference, false),
                changes_of(fresh, found->0.push(file), now),
                file,
            );
        } else {
            insert_carries_the_store(
                ledger.store,
                with_uploads(around, fresh, docs.application_form, docs.decision_notice),
            );
        }
    }
}

/// A case for which nothing is left to do stays so in a store that carries
/// the one before.
pub proof fn settled_case_stays_settled(
    around: Surroundings,
    before: Seq<CaseRecordView>,
    after: Seq<CaseRecordView>,
    link: Seq<char>,
)
    requires
        carries(before, after),
        is_settled(around, before, link),
    ensures
        is_settled(around, after, link),
{
    if is_shown(around, link) {
        let reference = reference_at(around, link);
        if found_in(before, case_filter(reference, true)) is Some {
            carried_case_is_found(before, after, case_filter(reference, true));
        } else {
            found_when_held(before, reference);
            carried_case_is_found(before, after, case_filter(reference, false));
            found_when_held(after, reference);
        }
    }
}

/// The decided pass leaves nothing to do for the case that it has handled,
/// where the pages of the case agree, its print preview can be read, and
/// blob storage keeps the kinds.
pub proof fn handled_case_is_settled(
    around: Surroundings,
    ledger: Ledger,
    link: Seq<char>,
    now: i64,
)
    requires
        names_agree(around, link),
        keeps_kind(around),
        is_shown(around, link) ==> is_readable(around, link),
    ensures
        is_settled(around, after_case(around, ledger, link, now).store, link),
{
    if is_shown(around, link) {
        let after = after_case(around, ledger, link, now).store;
        let reference = reference_at(around, link);
        let docs = docs_of(documents_page(around, link)->0);
        let fresh = record_of(BASE_URL@ + link, preview_page(around, link)->0, now);
        let decided = case_filter(reference, true);
        let plain = case_filter(reference, false);
        found_when_held(ledger.store, reference);
        found_when_held(after, reference);
        found_when_selected(after, decided);
        if found_in(ledger.store, decided) is Some {
        } else if found_in(ledger.store, plain) is Some {
            if docs.decision_notice is Some {
                let existing = found_in(ledger.store, plain)->0;
                let file = (around.blob)(DocKind::DecisionNotice, docs.decision_notice->0);
                let changes = changes_of(fresh, existing.push(file), now);
                update_carries_the_store(ledger.store, plain, changes, file);
                more_documents_hold_the_kinds(existing, file);
                let i = choose|i: int|
                    0 <= i < ledger.store.len() && plain.selects(ledger.store[i])
                        && #[trigger] updated(ledger.store, plain, changes)[i]
                        == changes.applied_to(ledger.store[i]);
                assert(decided.selects(after[i]));
            }
        } else {
            let record = with_uploads(around, fresh, docs.application_form, docs.decision_notice);
            assert(after == ledger.store.push(record));
            assert(after[ledger.store.len() as int] == record);
            assert(is_case(record, reference));
            if docs.decision_notice is Some {
                let file = (around.blob)(DocKind::DecisionNotice, docs.decision_notice->0);
                assert(record.documents.last() == file);
                assert(record.documents[record.documents.len() - 1].doc_type == label_of(
                    DocKind::DecisionNotice,
                ));
                assert(decided.selects(record));
            }
        }
    }
}

/// A case for which nothing is left to do stays so through the decided pass
/// over further cases.
pub proof fn settled_case_stays_through(
    around: Surroundings,
    ledger: Ledger,
    links: Seq<Seq<char>>,
    link: Seq<char>,
    now: i64,
)
    requires
        all_names_agree(around, links),
        is_settled(around, ledger.store, link),
    ensures
        is_settled(around, after_cases(around, ledger, links, now).store, link),
    decreases links.len(),
{
    if links.len() > 0 {
        let rest = links.drop_first();
        let mid = after_case(around, ledger, links[0], now);
        assert(names_agree(around, links[0]));
        case_carries_the_store(around, ledger, links[0], now);
        settled_case_stays_settled(around, ledger.store, mid.store, link);
        assert forall|i: int| 0 <= i < rest.len() implies names_agree(
            around,
            #[trigger] rest[i],
        ) by {
            assert(rest[i] == links[i + 1]);
        }
        settled_case_stays_through(around, mid, rest, link, now);
    }
}

/// The decided pass leaves nothing to do for the cases that it has handled.
pub proof fn handled_cases_are_settled(
    around: Surroundings,
    ledger: Ledger,
    links: Seq<Seq<char>>,
    now: i64,
)
    requires
        all_names_agree(around, links),
        all_readable(around, links),
        keeps_kind(around),
    ensures
        all_settled(around, after_cases(around, ledger, links, now).store, links),
    decreases links.len(),
{
    if links.len() > 0 {
        let rest = links.drop_first();
        let mid = after_case(around, ledger, links[0], now);
        let end = after_cases(around, mid, rest, now);
        assert(names_agree(around, links[0]));
        assert(is_shown(around, links[0]) ==> is_readable(around, links[0]));
        handled_case_is_settled(around, ledger, links[0], now);
        assert forall|i: int| 0 <= i < rest.len() implies names_agree(
            around,
            #[trigger] rest[i],
        ) && (is_shown(around, rest[i]) ==> is_readable(around, rest[i])) by {
            assert(rest[i] == links[i + 1]);
        }
        settled_case_stays_through(around, mid, rest, links[0], now);
        handled_cases_are_settled(around, mid, rest, now);
        assert forall|i: int| 0 <= i < links.len() implies is_settled(
            around,
            end.store,
            #[trigger] links[i],
        ) by {
            if i > 0 {
                assert(links[i] == rest[i - 1]);
            }
        }
    }
}

/// The decided pass changes nothing where nothing is left to do for any of
/// its cases.
pub proof fn settled_cases_change_nothing(
    around: Surroundings,
    ledger: Ledger,
    links: Seq<Seq<char>>,
    now: i64,
)
    requires
        all_settled(around, ledger.store, links),
    ensures
        after_cases(around, ledger, links, now) == ledger,
    decreases links.len(),
{
    if links.len() > 0 {
        let rest = links.drop_first();
        assert(is_settled(around, ledger.store, links[0]));
        if is_shown(around, links[0]) {
            found_when_held(ledger.store, reference_at(around, links[0]));
        }
        assert(after_case(around, ledger, links[0], now) == ledger);
        assert forall|i: int| 0 <= i < rest.len() implies is_settled(
            around,
            ledger.store,
            #[trigger] rest[i],
        ) by {
            assert(rest[i] == links[i + 1]);
        }
        settled_cases_change_nothing(around, ledger, rest, now);
    }
}

/// The decided pass, run twice over the same cases against an unchanged
/// portal whose pages agree and can be read, with a blob storage that keeps
/// the kinds: the second run makes no upload, no insert and no update, and
/// leaves the store as the first left it, whatever the store held at first.
pub proof fn second_decided_pass_writes_nothing(
    around: Surroundings,
    ledger: Ledger,
    c: CrawlView,
    first_now: i64,
    second_now: i64,
)
    requires
        c.pass == Pass::Decided,
        all_names_agree(around, c.pending),
        all_readable(around, c.pending),
        keeps_kind(around),
    ensures
        ({
            let (c0, a0) = open_case_spec(c);
            let steps = 7 * c.pending.len();
            let first = run_cases(around, ledger, c0, a0, first_now, steps);
            let second = run_cases(around, opened(first.0.store), c0, a0, second_now, steps);
            &&& first.2 == ActionView::Finish
            &&& second.2 == ActionView::Finish
            &&& second.0.inserts == 0
            &&& second.0.uploads == 0
            &&& second.0.store == first.0.store
        }),
{
    let steps = 7 * c.pending.len();
    cases_run_as_modelled(around, ledger, c, first_now, steps);
    handled_cases_are_settled(around, ledger, c.pending, first_now);
    let held = after_cases(around, ledger, c.pending, first_now).store;
    cases_run_as_modelled(around, opened(held), c, second_now, steps);
    settled_cases_change_nothing(around, opened(held), c.pending, second_now);
}

} // verus!
