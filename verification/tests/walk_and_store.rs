use planning_scraper::error::CrawlError;
use planning_scraper::record::{
    AgentDetails, CaseRecord, DocKind, DocumentRef, FurtherInformation, StorageLocation, Summary,
};
use planning_scraper::store::{
    check_decision_exisits, check_reference, send_data, RecordUpdate, StoreCommand, StoreData,
    StoreFilter,
};
use planning_scraper::upload::{file_url, storage_key, upload_file};
use planning_scraper::walker::{
    advance, begin, build_paging_form, build_search_form, extract_links, read_results, Phase,
    Request, ResultsPage, Walk, WalkStep,
};
use planning_scraper::tokens::Tokens;

fn s(text: &str) -> String {
    text.to_string()
}

fn paged(links: &[&str], followed: &[&str]) -> Walk {
    Walk {
        phase: Phase::Paged,
        option: s("DC_Validated"),
        links: links.iter().map(|l| s(l)).collect(),
        followed: followed.iter().map(|l| s(l)).collect(),
    }
}

fn page(links: &[&str], next: Option<&str>) -> ResultsPage {
    ResultsPage { links: links.iter().map(|l| s(l)).collect(), next: next.map(s) }
}

fn results_html(links: &[&str], next: Option<&str>) -> String {
    let mut html = String::from("<html><body><ul id=\"searchresults\">");
    for link in links {
        html.push_str(&format!(
            "<li class=\"searchresult\"><a class=\"summaryLink\" href=\"{}\">case</a></li>",
            link
        ));
    }
    html.push_str("</ul>");
    if let Some(next) = next {
        html.push_str(&format!("<a class=\"next\" href=\"{}\">Next</a>", next));
    }
    html.push_str("</body></html>");
    html
}

#[test]
fn single_page_yields_its_links() {
    let step = advance(paged(&[], &[]), page(&["/a", "/b"], None));
    assert_eq!(step, WalkStep::Done(vec![s("/a"), s("/b")]));
}

#[test]
fn empty_page_yields_no_links() {
    assert_eq!(advance(paged(&[], &[]), page(&[], None)), WalkStep::Done(Vec::new()));
}

#[test]
fn chain_of_pages_yields_links_in_page_order() {
    let pages = vec![
        page(&["/1", "/2"], Some("/p2")),
        page(&["/3"], Some("/p3")),
        page(&["/4", "/5"], None),
    ];
    let mut walk = paged(&[], &[]);
    let mut requests = Vec::new();
    let mut done = None;
    for p in pages {
        match advance(walk.clone(), p) {
            WalkStep::Fetch(next, request) => {
                walk = next;
                requests.push(request);
            }
            WalkStep::Done(links) => done = Some(links),
            WalkStep::Failed(e) => panic!("walk failed: {:?}", e),
        }
    }
    assert_eq!(done, Some(vec![s("/1"), s("/2"), s("/3"), s("/4"), s("/5")]));
    assert_eq!(
        requests,
        vec![
            Request::Get { url: s("https://publicaccess.leeds.gov.uk/p2"), delay_secs: 1 },
            Request::Get { url: s("https://publicaccess.leeds.gov.uk/p3"), delay_secs: 1 },
        ]
    );
}

#[test]
fn repeated_next_link_is_a_pagination_loop() {
    let first = advance(paged(&[], &[]), page(&["/1"], Some("/p2")));
    let walk = match first {
        WalkStep::Fetch(walk, _) => walk,
        other => panic!("unexpected {:?}", other),
    };
    assert_eq!(walk.followed, vec![s("/p2")]);
    assert_eq!(
        advance(walk, page(&["/2"], Some("/p2"))),
        WalkStep::Failed(CrawlError::PaginationLoop)
    );
    assert_eq!(
        advance(paged(&[], &["/a", "/b"]), page(&[], Some("/a"))),
        WalkStep::Failed(CrawlError::PaginationLoop)
    );
}

#[test]
fn results_page_is_read() {
    let html = results_html(&["/c1", "/c2"], Some("/next?page=2"));
    assert_eq!(read_results(&html), page(&["/c1", "/c2"], Some("/next?page=2")));
    assert_eq!(read_results(&results_html(&[], None)), page(&[], None));
    assert_eq!(read_results(""), page(&[], None));
}

#[test]
fn search_form_carries_the_tokens() {
    let tokens = Tokens { csrf: s("c"), legacy: Some(s("t")), week: None };
    assert_eq!(
        build_search_form(tokens, s("3 Jun 2024"), "DC_Validated"),
        vec![
            (s("_csrf"), s("c")),
            (s("searchCriteria.parish"), s("")),
            (s("searchCriteria.ward"), s("")),
            (s("week"), s("3 Jun 2024")),
            (s("dateType"), s("DC_Validated")),
            (s("searchType"), s("Application")),
            (s("org.apache.struts.taglib.html.TOKEN"), s("t")),
        ]
    );
}

#[test]
fn paging_form_asks_for_the_first_page() {
    let tokens = Tokens { csrf: s("c2"), legacy: None, week: None };
    assert_eq!(
        build_paging_form(tokens),
        vec![
            (s("_csrf"), s("c2")),
            (s("searchCriteria.page"), s("1")),
            (s("action"), s("page")),
            (s("orderBy"), s("DateReceived")),
            (s("orderByDirection"), s("Descending")),
            (s("searchCriteria.resultsPerPage"), s("100")),
        ]
    );
}

fn form_page(csrf: &str, week: Option<&str>) -> String {
    let mut html = format!("<form><input name=\"_csrf\" value=\"{}\"/>", csrf);
    if let Some(week) = week {
        html.push_str(&format!(
            "<select name=\"week\"><option value=\"{}\">w</option><option value=\"old\">o</option></select>",
            week
        ));
    }
    html.push_str("</form>");
    html
}

#[test]
fn walk_goes_through_the_three_phases() {
    let (walk, request) = begin("https://portal/search.do?action=weeklyList", "DC_Decided");
    assert_eq!(walk.phase, Phase::Init);
    assert_eq!(
        request,
        Request::Get { url: s("https://portal/search.do?action=weeklyList"), delay_secs: 0 }
    );
    let (walk, request) = match extract_links(walk, &form_page("c1", Some("3 Jun 2024"))) {
        WalkStep::Fetch(walk, request) => (walk, request),
        other => panic!("unexpected {:?}", other),
    };
    assert_eq!(walk.phase, Phase::SearchSubmitted);
    assert_eq!(
        request,
        Request::Post {
            url: s("https://publicaccess.leeds.gov.uk/online-applications/weeklyListResults.do?action=firstPage"),
            form: vec![
                (s("_csrf"), s("c1")),
                (s("searchCriteria.parish"), s("")),
                (s("searchCriteria.ward"), s("")),
                (s("week"), s("3 Jun 2024")),
                (s("dateType"), s("DC_Decided")),
                (s("searchType"), s("Application")),
            ],
        }
    );
    let (walk, request) = match extract_links(walk, &form_page("c2", None)) {
        WalkStep::Fetch(walk, request) => (walk, request),
        other => panic!("unexpected {:?}", other),
    };
    assert_eq!(walk.phase, Phase::Paged);
    assert_eq!(
        request,
        Request::Post {
            url: s("https://publicaccess.leeds.gov.uk/online-applications/pagedSearchResults.do"),
            form: vec![
                (s("_csrf"), s("c2")),
                (s("searchCriteria.page"), s("1")),
                (s("action"), s("page")),
                (s("orderBy"), s("DateReceived")),
                (s("orderByDirection"), s("Descending")),
                (s("searchCriteria.resultsPerPage"), s("100")),
            ],
        }
    );
    let (walk, request) = match extract_links(walk, &results_html(&["/a"], Some("/p2"))) {
        WalkStep::Fetch(walk, request) => (walk, request),
        other => panic!("unexpected {:?}", other),
    };
    assert_eq!(
        request,
        Request::Get { url: s("https://publicaccess.leeds.gov.uk/p2"), delay_secs: 1 }
    );
    assert_eq!(
        extract_links(walk, &results_html(&["/b", "/c"], None)),
        WalkStep::Done(vec![s("/a"), s("/b"), s("/c")])
    );
}

#[test]
fn walk_fails_on_a_page_without_tokens() {
    let (walk, _) = begin("u", "DC_Validated");
    assert_eq!(
        extract_links(walk.clone(), "<html></html>"),
        WalkStep::Failed(CrawlError::ProtocolShape)
    );
    assert_eq!(
        extract_links(walk.clone(), &form_page("c", None)),
        WalkStep::Failed(CrawlError::ProtocolShape)
    );
    let submitted = Walk { phase: Phase::SearchSubmitted, ..walk };
    assert_eq!(
        extract_links(submitted, "<p>blocked</p>"),
        WalkStep::Failed(CrawlError::ProtocolShape)
    );
}

#[test]
fn storage_key_is_sixteen_letters_and_digits() {
    let mut keys = Vec::new();
    for _ in 0..50 {
        let key = storage_key();
        assert_eq!(key.chars().count(), 16);
        assert!(key.chars().all(|c| c.is_ascii_alphanumeric()));
        keys.push(key);
    }
    keys.sort();
    keys.dedup();
    assert!(keys.len() > 1);
}

#[test]
fn file_url_names_bucket_region_and_key() {
    assert_eq!(
        file_url("plans", "eu-west-2", "AbC123"),
        "https://plans.s3.eu-west-2.amazonaws.com/AbC123"
    );
}

#[test]
fn upload_is_described() {
    let file = upload_file(
        "decision_notice",
        "K1",
        4096,
        "plans",
        "eu-west-2",
        Some(s("\"etag\"")),
        None,
    );
    assert_eq!(
        file,
        DocumentRef {
            file_type: s("pdf"),
            name: s("K1"),
            size: 4096,
            doc_type: s("decision_notice"),
            s3: StorageLocation {
                bucket: s("plans"),
                key: s("K1"),
                e_tag: s("\"etag\""),
                location: s("https://plans.s3.eu-west-2.amazonaws.com/K1"),
                server_side_encryption: s(""),
            },
        }
    );
    let other = upload_file("application_form", "K2", 0, "b", "r", None, Some(s("AES256")));
    assert_eq!(other.s3.e_tag, "");
    assert_eq!(other.s3.server_side_encryption, "AES256");
    assert_eq!(other.doc_type, "application_form");
}

#[test]
fn kinds_have_their_labels() {
    assert_eq!(DocKind::ApplicationForm.label(), "application_form");
    assert_eq!(DocKind::DecisionNotice.label(), "decision_notice");
}

#[test]
fn filters_select_by_council_and_reference() {
    assert_eq!(
        check_reference("24/1", "Leeds"),
        StoreFilter { council: s("Leeds"), reference: s("24/1"), with_decision: false }
    );
    assert_eq!(
        check_decision_exisits("24/1", "Leeds"),
        StoreFilter { council: s("Leeds"), reference: s("24/1"), with_decision: true }
    );
}

fn small_record(reference: &str) -> CaseRecord {
    CaseRecord {
        council: s("Leeds"),
        link: s("/l"),
        summary: Summary {
            reference: s(reference),
            application_validated: s(""),
            address: s(""),
            proposal: s(""),
            status: s(""),
            decision: s(""),
            decision_issued_date: None,
            appeal_status: s(""),
            appeal_decision: s(""),
            application_validated_date: None,
            agreed_expiry_date: None,
            determination_deadline: None,
        },
        further_information: FurtherInformation {
            application_type: s(""),
            actual_decision_level: s(""),
            expected_decision_level: s(""),
            parish: s(""),
            ward: s(""),
            applicant_name: s(""),
            agent_name: s(""),
            agent_company_name: s(""),
            agent_address: s(""),
            environmental_assessment_requested: s(""),
        },
        created_at: 1,
        created_by: s("a"),
        updated_at: 1,
        updated_by: s("a"),
        details_url: s("/d"),
        documents_url: s("/docs"),
        documents: Vec::new(),
        agent_details: AgentDetails { agent_email: s(""), agent_phone: s("") },
    }
}

#[test]
fn record_is_sent_as_an_insert() {
    let record = small_record("24/1");
    assert_eq!(
        send_data("24/1", "Leeds", StoreData::Record(record.clone())),
        StoreCommand::Insert(record)
    );
}

#[test]
fn changes_are_sent_as_an_update_of_the_case() {
    let record = small_record("24/1");
    let changes = RecordUpdate {
        summary: record.summary.clone(),
        further_information: record.further_information.clone(),
        documents: Vec::new(),
        agent_details: record.agent_details.clone(),
        updated_at: 9,
        updated_by: s("a"),
    };
    assert_eq!(
        send_data("24/1", "Leeds", StoreData::Changes(changes.clone())),
        StoreCommand::Update {
            filter: StoreFilter { council: s("Leeds"), reference: s("24/1"), with_decision: false },
            changes,
        }
    );
}
