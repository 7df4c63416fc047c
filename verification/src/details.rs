//! The print preview of a case: its key/value tables, read into a case
//! record.

use crate::date::{iso_date_of, parse_date};
use crate::error::CrawlError;
use crate::html::{fits, is_page, rows_of_page, selected_rows};
use crate::portal::{
    ACTOR, AGENTS_SELECTOR, COUNTY, FURTHER_INFORMATION_SELECTOR, SIMPLE_DETAILS_TABLE_SELECTOR,
};
use crate::record::{
    AgentDetails, AgentDetailsView, CaseRecord, CaseRecordView, DocumentRef, DocumentRefView,
    FurtherInformation, FurtherInformationView, Summary, SummaryView,
};
use crate::text::{field_name, field_name_of, replace_all, replaced, same_text, trim, trimmed};
use vstd::prelude::*;

verus! {

/// The selector of a table's rows.
pub const ROW: &'static str = "tr";

/// The selector of a row's label.
pub const HEAD: &'static str = "th";

/// The selector of a row's value.
pub const CELL: &'static str = "td";

/// The suffix of a case's summary page.
pub const SUMMARY_SUFFIX: &'static str = "=summary";

/// The suffix of a case's print preview.
pub const PREVIEW_SUFFIX: &'static str = "=printPreview";

/// The suffix of a case's details page.
pub const DETAILS_SUFFIX: &'static str = "=details";

/// The suffix of a case's documents page.
pub const DOCUMENTS_SUFFIX: &'static str = "=documents";

/// The address of the print preview that belongs to a summary page.
pub open spec fn preview_url_of(url: Seq<char>) -> Seq<char> {
    replaced(url, SUMMARY_SUFFIX@, PREVIEW_SUFFIX@)
}

/// The address of the documents page that belongs to a summary page.
pub open spec fn documents_url_of(url: Seq<char>) -> Seq<char> {
    replaced(url, SUMMARY_SUFFIX@, DOCUMENTS_SUFFIX@)
}

/// The address of the print preview that belongs to a summary page.
pub fn preview_url(url: &str) -> (r: String)
    ensures
        r@ == preview_url_of(url@),
{
    replace_all(url, SUMMARY_SUFFIX, PREVIEW_SUFFIX)
}

/// The address of the documents page that belongs to a summary page.
pub fn documents_url(url: &str) -> (r: String)
    ensures
        r@ == documents_url_of(url@),
{
    replace_all(url, SUMMARY_SUFFIX, DOCUMENTS_SUFFIX)
}

/// Whether a table row has a label and a value.
pub open spec fn is_pair(row: (Seq<Seq<char>>, Seq<Seq<char>>)) -> bool {
    row.0.len() > 0 && row.1.len() > 0
}

/// Whether every row has a label and a value.
pub open spec fn are_pairs(rows: Seq<(Seq<Seq<char>>, Seq<Seq<char>>)>) -> bool {
    forall|i: int| 0 <= i < rows.len() ==> is_pair(#[trigger] rows[i])
}

/// The field that a table row stands for: the field name of its first label
/// and its first value, trimmed.
pub open spec fn entry_of(row: (Seq<Seq<char>>, Seq<Seq<char>>)) -> (Seq<char>, Seq<char>) {
    (field_name_of(row.0[0]), trimmed(row.1[0]))
}

/// The fields that the rows stand for, in order.
pub open spec fn entries_of(rows: Seq<(Seq<Seq<char>>, Seq<Seq<char>>)>) -> Seq<
    (Seq<char>, Seq<char>),
> {
    Seq::new(rows.len(), |i: int| entry_of(rows[i]))
}

/// The value of the field `key`: that of the last entry under this name,
/// empty if there is none.
pub open spec fn value_of(entries: Seq<(Seq<char>, Seq<char>)>, key: Seq<char>) -> Seq<char>
    decreases entries.len(),
{
    if entries.len() == 0 {
        Seq::empty()
    } else if entries.last().0 == key {
        entries.last().1
    } else {
        value_of(entries.drop_last(), key)
    }
}

/// The fields that table rows stand for; `None` if a row lacks its label or
/// its value.
pub fn entries(rows: &Vec<(Vec<String>, Vec<String>)>) -> (r: Option<Vec<(String, String)>>)
    ensures
        are_pairs(rows.deep_view()) ==> (r matches Some(e) && e.deep_view() == entries_of(
            rows.deep_view(),
        )),
        !are_pairs(rows.deep_view()) ==> r is None,
{
    let mut out: Vec<(String, String)> = Vec::new();
    let mut i: usize = 0;
    assert(out.deep_view() == entries_of(rows.deep_view()).take(0));
    while i < rows.len()
        invariant
            i <= rows.len(),
            forall|k: int| 0 <= k < i ==> is_pair(#[trigger] rows.deep_view()[k]),
            out.deep_view() == entries_of(rows.deep_view()).take(i as int),
        decreases rows.len() - i,
    {
        let row = &rows[i];
        assert(rows.deep_view()[i as int] == row.deep_view());
        if row.0.len() == 0 || row.1.len() == 0 {
            assert(!is_pair(rows.deep_view()[i as int]));
            return None;
        }
        assert(row.deep_view().0[0] == row.0[0]@);
        assert(row.deep_view().1[0] == row.1[0]@);
        let ghost before = out.deep_view();
        let key = field_name(row.0[0].as_str());
        let value = trim(row.1[0].as_str());
        out.push((key, value));
        i += 1;
        proof {
            let all = entries_of(rows.deep_view());
            assert(out.deep_view() == before.push(all[i - 1]));
            assert(all.take(i as int) == all.take(i - 1).push(all[i - 1]));
        }
    }
    assert(entries_of(rows.deep_view()).take(rows.len() as int) == entries_of(rows.deep_view()));
    Some(out)
}

/// The value of the field `key`, empty if the entries hold no such field.
pub fn lookup(entries: &Vec<(String, String)>, key: &str) -> (value: String)
    ensures
        value@ == value_of(entries.deep_view(), key@),
{
    let ghost all = entries.deep_view();
    let mut i: usize = entries.len();
    assert(all.take(i as int) == all);
    while i > 0
        invariant
            i <= entries.len(),
            all == entries.deep_view(),
            value_of(all, key@) == value_of(all.take(i as int), key@),
        decreases i,
    {
        proof {
            let part = all.take(i as int);
            assert(part.last() == all[i - 1]);
            assert(part.drop_last() == all.take(i - 1));
            assert(all[i - 1] == entries[i - 1].deep_view());
        }
        if same_text(entries[i - 1].0.as_str(), key) {
            return entries[i - 1].1.clone();
        }
        i -= 1;
    }
    assert(all.take(0).len() == 0);
    String::new()
}

/// The summary that the entries of the details table give.
pub open spec fn summary_of(e: Seq<(Seq<char>, Seq<char>)>) -> SummaryView {
    SummaryView {
        reference: value_of(e, "reference"@),
        application_validated: value_of(e, "application_validated"@),
        address: value_of(e, "address"@),
        proposal: value_of(e, "proposal"@),
        status: value_of(e, "status"@),
        decision: value_of(e, "decision"@),
        decision_issued_date: iso_date_of(value_of(e, "decision_issued_date"@)),
        appeal_status: value_of(e, "appeal_status"@),
        appeal_decision: value_of(e, "appeal_decision"@),
        application_validated_date: iso_date_of(value_of(e, "application_validated_date"@)),
        agreed_expiry_date: iso_date_of(value_of(e, "agreed_expiry_date"@)),
        determination_deadline: iso_date_of(value_of(e, "determination_deadline"@)),
    }
}

/// The further information that the entries of its table give.
pub open spec fn further_information_of(e: Seq<(Seq<char>, Seq<char>)>) -> FurtherInformationView {
    FurtherInformationView {
        application_type: value_of(e, "application_type"@),
        actual_decision_level: value_of(e, "actual_decision_level"@),
        expected_decision_level: value_of(e, "expected_decision_level"@),
        parish: value_of(e, "parish"@),
        ward: value_of(e, "ward"@),
        applicant_name: value_of(e, "applicant_name"@),
        agent_name: value_of(e, "agent_name"@),
        agent_company_name: value_of(e, "agent_company_name"@),
        agent_address: value_of(e, "agent_address"@),
        environmental_assessment_requested: value_of(e, "environmental_assessment_requested"@),
    }
}

/// The agent details that the entries of the agents table give.
pub open spec fn agent_details_of(e: Seq<(Seq<char>, Seq<char>)>) -> AgentDetailsView {
    AgentDetailsView {
        agent_email: value_of(e, "email"@),
        agent_phone: value_of(e, "mobile_phone"@),
    }
}

/// The record of a case, from the address of its summary page, the entries of
/// its three tables and the time of extraction. It holds no documents yet.
pub open spec fn record_from(
    url: Seq<char>,
    summary: Seq<(Seq<char>, Seq<char>)>,
    further: Seq<(Seq<char>, Seq<char>)>,
    agents: Seq<(Seq<char>, Seq<char>)>,
    now: i64,
) -> CaseRecordView {
    CaseRecordView {
        council: COUNTY@,
        link: replaced(preview_url_of(url), PREVIEW_SUFFIX@, SUMMARY_SUFFIX@),
        summary: summary_of(summary),
        further_information: further_information_of(further),
        created_at: now,
        created_by: ACTOR@,
        updated_at: now,
        updated_by: ACTOR@,
        details_url: replaced(preview_url_of(url), PREVIEW_SUFFIX@, DETAILS_SUFFIX@),
        documents_url: replaced(preview_url_of(url), PREVIEW_SUFFIX@, DOCUMENTS_SUFFIX@),
        documents: Seq::empty(),
        agent_details: agent_details_of(agents),
    }
}

/// Reads the summary from the entries of the details table.
pub fn summary_from(e: &Vec<(String, String)>) -> (s: Summary)
    ensures
        s@ == summary_of(e.deep_view()),
{
    Summary {
        reference: lookup(e, "reference"),
        application_validated: lookup(e, "application_validated"),
        address: lookup(e, "address"),
        proposal: lookup(e, "proposal"),
        status: lookup(e, "status"),
        decision: lookup(e, "decision"),
        decision_issued_date: parse_date(lookup(e, "decision_issued_date").as_str()),
        appeal_status: lookup(e, "appeal_status"),
        appeal_decision: lookup(e, "appeal_decision"),
        application_validated_date: parse_date(lookup(e, "application_validated_date").as_str()),
        agreed_expiry_date: parse_date(lookup(e, "agreed_expiry_date").as_str()),
        determination_deadline: parse_date(lookup(e, "determination_deadline").as_str()),
    }
}

/// Reads the further information from the entries of its table.
pub fn further_information_from(e: &Vec<(String, String)>) -> (f: FurtherInformation)
    ensures
        f@ == further_information_of(e.deep_view()),
{
    FurtherInformation {
        application_type: lookup(e, "application_type"),
        actual_decision_level: lookup(e, "actual_decision_level"),
        expected_decision_level: lookup(e, "expected_decision_level"),
        parish: lookup(e, "parish"),
        ward: lookup(e, "ward"),
        applicant_name: lookup(e, "applicant_name"),
        agent_name: lookup(e, "agent_name"),
        agent_company_name: lookup(e, "agent_company_name"),
        agent_address: lookup(e, "agent_address"),
        environmental_assessment_requested: lookup(e, "environmental_assessment_requested"),
    }
}

/// Reads the agent details from the entries of the agents table.
pub fn agent_details_from(e: &Vec<(String, String)>) -> (a: AgentDetails)
    ensures
        a@ == agent_details_of(e.deep_view()),
{
    AgentDetails { agent_email: lookup(e, "email"), agent_phone: lookup(e, "mobile_phone") }
}

/// Builds the record of a case from the address of its summary page, the
/// entries of its three tables and the time of extraction.
pub fn build_record(
    url: &str,
    summary: &Vec<(String, String)>,
    further: &Vec<(String, String)>,
    agents: &Vec<(String, String)>,
    now: i64,
) -> (r: CaseRecord)
    ensures
        r@ == record_from(
            url@,
            summary.deep_view(),
            further.deep_view(),
            agents.deep_view(),
            now,
        ),
{
    let preview = preview_url(url);
    let documents: Vec<DocumentRef> = Vec::new();
    let r = CaseRecord {
        council: COUNTY.to_owned(),
        link: replace_all(preview.as_str(), PREVIEW_SUFFIX, SUMMARY_SUFFIX),
        summary: summary_from(summary),
        further_information: further_information_from(further),
        created_at: now,
        created_by: ACTOR.to_owned(),
        updated_at: now,
        updated_by: ACTOR.to_owned(),
        details_url: replace_all(preview.as_str(), PREVIEW_SUFFIX, DETAILS_SUFFIX),
        documents_url: replace_all(preview.as_str(), PREVIEW_SUFFIX, DOCUMENTS_SUFFIX),
        documents,
        agent_details: agent_details_from(agents),
    };
    assert(r@.documents == Seq::<DocumentRefView>::empty());
    r
}

/// The rows of the table at `index` among those selected; none if there are
/// not so many tables, or the selection failed.
pub open spec fn table_at(
    found: Option<Seq<Seq<(Seq<Seq<char>>, Seq<Seq<char>>)>>>,
    index: int,
) -> Seq<(Seq<Seq<char>>, Seq<Seq<char>>)> {
    match found {
        Some(tables) => if 0 <= index < tables.len() {
            tables[index]
        } else {
            Seq::empty()
        },
        None => Seq::empty(),
    }
}

/// The rows of the details table, from the tables selected for it: those of
/// its first part, then those of its second.
pub open spec fn summary_rows(found: Option<Seq<Seq<(Seq<Seq<char>>, Seq<Seq<char>>)>>>) -> Seq<
    (Seq<Seq<char>>, Seq<Seq<char>>),
> {
    table_at(found, 0) + table_at(found, 1)
}

/// Whether every row that is read of the tables selected has a label and a
/// value.
pub open spec fn are_regular(
    summary: Option<Seq<Seq<(Seq<Seq<char>>, Seq<Seq<char>>)>>>,
    further: Option<Seq<Seq<(Seq<Seq<char>>, Seq<Seq<char>>)>>>,
    agents: Option<Seq<Seq<(Seq<Seq<char>>, Seq<Seq<char>>)>>>,
) -> bool {
    &&& are_pairs(summary_rows(summary))
    &&& are_pairs(table_at(further, 0))
    &&& are_pairs(table_at(agents, 0))
}

/// The record that the tables selected from the print preview of the case
/// at `url` give.
pub open spec fn record_in(
    url: Seq<char>,
    summary: Option<Seq<Seq<(Seq<Seq<char>>, Seq<Seq<char>>)>>>,
    further: Option<Seq<Seq<(Seq<Seq<char>>, Seq<Seq<char>>)>>>,
    agents: Option<Seq<Seq<(Seq<Seq<char>>, Seq<Seq<char>>)>>>,
    now: i64,
) -> CaseRecordView {
    record_from(
        url,
        entries_of(summary_rows(summary)),
        entries_of(table_at(further, 0)),
        entries_of(table_at(agents, 0)),
        now,
    )
}

/// The entries of the first `count` tables among those selected; `None` if a
/// row among them lacks its label or its value.
fn table_entries(found: &Option<Vec<Vec<(Vec<String>, Vec<String>)>>>, count: usize) -> (r: Option<
    Vec<(String, String)>,
>)
    requires
        1 <= count <= 2,
    ensures
        ({
            let rows = if count == 1 {
                table_at(found.deep_view(), 0)
            } else {
                summary_rows(found.deep_view())
            };
            &&& are_pairs(rows) ==> (r matches Some(e) && e.deep_view() == entries_of(rows))
            &&& !are_pairs(rows) ==> r is None
        }),
{
    let ghost first = table_at(found.deep_view(), 0);
    let ghost second = table_at(found.deep_view(), 1);
    let tables = match found {
        Some(tables) => tables,
        None => {
            let none: Vec<(String, String)> = Vec::new();
            assert(none.deep_view() == entries_of(Seq::empty()));
            assert(first + second == Seq::<(Seq<Seq<char>>, Seq<Seq<char>>)>::empty());
            return Some(none);
        },
    };
    let mut out: Vec<(String, String)> = Vec::new();
    if tables.len() > 0 {
        assert(tables.deep_view()[0] == tables[0].deep_view());
        match entries(&tables[0]) {
            Some(e) => {
                out = e;
            },
            None => {
                proof {
                    let k = choose|k: int| 0 <= k < first.len() && !is_pair(#[trigger] first[k]);
                    assert((first + second)[k] == first[k]);
                }
                return None;
            },
        }
    } else {
        assert(out.deep_view() == entries_of(first));
    }
    assert(out.deep_view() == entries_of(first));
    assert(are_pairs(first));
    if count == 2 {
        if tables.len() > 1 {
            assert(tables.deep_view()[1] == tables[1].deep_view());
            match entries(&tables[1]) {
                Some(mut e) => {
                    let ghost head = out.deep_view();
                    let ghost tail = e.deep_view();
                    out.append(&mut e);
                    assert(out.deep_view() == head + tail);
                },
                None => {
                    proof {
                        let k = choose|k: int|
                            0 <= k < second.len() && !is_pair(#[trigger] second[k]);
                        assert((first + second)[first.len() + k] == second[k]);
                    }
                    return None;
                },
            }
        } else {
            assert(second.len() == 0);
            assert(out.deep_view() + entries_of(second) == out.deep_view());
        }
        proof {
            assert(entries_of(first + second) == entries_of(first) + entries_of(second));
            assert forall|k: int| 0 <= k < (first + second).len() implies is_pair(
                #[trigger] (first + second)[k],
            ) by {
                if k < first.len() {
                    assert((first + second)[k] == first[k]);
                } else {
                    assert((first + second)[k] == second[k - first.len()]);
                }
            }
        }
    }
    Some(out)
}

/// Reads the record of the case whose summary page is at `url` from the
/// tables selected from its print preview: of the details table the first
/// two parts, of the further information and of the agents the first table.
/// A table that is not there gives empty fields; a row without label or
/// value is refused.
pub fn read_tables(
    url: &str,
    summary: &Option<Vec<Vec<(Vec<String>, Vec<String>)>>>,
    further: &Option<Vec<Vec<(Vec<String>, Vec<String>)>>>,
    agents: &Option<Vec<Vec<(Vec<String>, Vec<String>)>>>,
    now: i64,
) -> (r: Result<CaseRecord, CrawlError>)
    ensures
        are_regular(summary.deep_view(), further.deep_view(), agents.deep_view()) ==> (
        r matches Ok(record) && record@ == record_in(
            url@,
            summary.deep_view(),
            further.deep_view(),
            agents.deep_view(),
            now,
        )),
        !are_regular(summary.deep_view(), further.deep_view(), agents.deep_view()) ==> r == Err::<
            CaseRecord,
            CrawlError,
        >(CrawlError::ProtocolShape),
{
    let summary = match table_entries(summary, 2) {
        Some(e) => e,
        None => {
            return Err(CrawlError::ProtocolShape);
        },
    };
    let further = match table_entries(further, 1) {
        Some(e) => e,
        None => {
            return Err(CrawlError::ProtocolShape);
        },
    };
    let agents = match table_entries(agents, 1) {
        Some(e) => e,
        None => {
            return Err(CrawlError::ProtocolShape);
        },
    };
    Ok(build_record(url, &summary, &further, &agents, now))
}

/// The tables that `selector` selects from a print preview, each as its
/// rows.
pub open spec fn tables_of(html: Seq<char>, selector: Seq<char>) -> Option<
    Seq<Seq<(Seq<Seq<char>>, Seq<Seq<char>>)>>,
> {
    selected_rows(html, selector, ROW@, HEAD@, CELL@)
}

/// Whether a print preview can be read: it is not too long to be parsed, and
/// every row that is read of its three tables has a label and a value.
pub open spec fn is_regular(html: Seq<char>) -> bool {
    is_page(html) && are_regular(
        tables_of(html, SIMPLE_DETAILS_TABLE_SELECTOR@),
        tables_of(html, FURTHER_INFORMATION_SELECTOR@),
        tables_of(html, AGENTS_SELECTOR@),
    )
}

/// The record that the print preview `html` of the case at `url` gives.
pub open spec fn record_of(url: Seq<char>, html: Seq<char>, now: i64) -> CaseRecordView {
    record_in(
        url,
        tables_of(html, SIMPLE_DETAILS_TABLE_SELECTOR@),
        tables_of(html, FURTHER_INFORMATION_SELECTOR@),
        tables_of(html, AGENTS_SELECTOR@),
        now,
    )
}

/// Reads the print preview `html` of the case whose summary page is at
/// `url`: the record with all its fields, stamped with `now` and without
/// documents. A table that the page lacks gives empty fields. A row without
/// label or value, or a page too long to be parsed, means that the page is
/// not what the portal is known to send.
pub fn get_document(url: &str, html: &str, now: i64) -> (r: Result<CaseRecord, CrawlError>)
    ensures
        is_regular(html@) ==> (r matches Ok(record) && record@ == record_of(url@, html@, now)),
        !is_regular(html@) ==> r == Err::<CaseRecord, CrawlError>(CrawlError::ProtocolShape),
{
    if !fits(html) {
        return Err(CrawlError::ProtocolShape);
    }
    let summary = rows_of_page(html, SIMPLE_DETAILS_TABLE_SELECTOR, ROW, HEAD, CELL);
    let further = rows_of_page(html, FURTHER_INFORMATION_SELECTOR, ROW, HEAD, CELL);
    let agents = rows_of_page(html, AGENTS_SELECTOR, ROW, HEAD, CELL);
    read_tables(url, &summary, &further, &agents, now)
}

} // verus!
