use planning_scraper::documents::DocLinks;
use planning_scraper::error::CrawlError;
use planning_scraper::process::{
    option, process, start, Action, CaseReport, Crawl, Event, Outcome, Pass, Skip, Stage,
};
use planning_scraper::record::{CaseRecord, DocKind, DocumentRef};
use planning_scraper::store::{StoreCommand, StoreFilter};
use planning_scraper::upload::upload_file;
use planning_scraper::walker::Request;
use std::collections::HashMap;

const BASE: &str = "https://publicaccess.leeds.gov.uk";
const LISTING: &str = "https://publicaccess.leeds.gov.uk/online-applications/search.do?action=weeklyList";
const FIRST_PAGE: &str =
    "https://publicaccess.leeds.gov.uk/online-applications/weeklyListResults.do?action=firstPage";
const PAGED: &str = "https://publicaccess.leeds.gov.uk/online-applications/pagedSearchResults.do";

fn s(text: &str) -> String {
    text.to_string()
}

fn link(key: &str) -> String {
    format!("/online-applications/applicationDetails.do?keyVal={}&activeTab=summary", key)
}

fn docs_address(key: &str) -> String {
    format!("{}/online-applications/applicationDetails.do?keyVal={}&activeTab=documents", BASE, key)
}

fn preview_address(key: &str) -> String {
    format!("{}/online-applications/applicationDetails.do?keyVal={}&activeTab=printPreview", BASE, key)
}

fn form_page(week: bool) -> String {
    let mut html = s("<form><input name=\"_csrf\" value=\"csrf\"/>");
    if week {
        html.push_str("<select name=\"week\"><option value=\"3 Jun 2024\">w</option></select>");
    }
    html.push_str("</form>");
    html
}

fn results_page(keys: &[&str], next: Option<&str>) -> String {
    let mut html = s("<ul id=\"searchresults\">");
    for key in keys {
        html.push_str(&format!(
            "<li class=\"searchresult\"><a class=\"summaryLink\" href=\"{}\">c</a></li>",
            link(key).replace('&', "&amp;")
        ));
    }
    html.push_str("</ul>");
    if let Some(next) = next {
        html.push_str(&format!("<a class=\"next\" href=\"{}\">Next</a>", next));
    }
    html
}

fn docs_page(reference: Option<&str>, form: bool, decision: bool) -> String {
    let mut html = s("<div class=\"addressCrumb\">");
    if let Some(reference) = reference {
        html.push_str(&format!("<span class=\"caseNumber\">{}</span>", reference));
    }
    html.push_str("</div><table>");
    let mut row = |name: &str, file: &str| {
        html.push_str(&format!(
            "<tr><td>1</td><td>2</td><td>{}</td><td>4</td><td>-</td><td><a href=\"{}\">v</a></td></tr>",
            name, file
        ));
    };
    row("Site Plan", "/files/plan.pdf");
    if form {
        row("Application Form", "/files/form.pdf");
    }
    if decision {
        row("Decision Notice", "/files/decision.pdf");
    }
    html.push_str("</table>");
    html
}

fn preview_page(reference: &str, status: &str) -> String {
    format!(
        "<table id=\"simpleDetailsTable\"><tr><th>Reference</th><td>{}</td></tr>\
         <tr><th>Status</th><td>{}</td></tr></table>\
         <table id=\"applicationDetails\"><tr><th>Ward</th><td>Ward 1</td></tr></table>\
         <table class=\"agents\"><tr><th>Email</th><td>a@b.c</td></tr></table>",
        reference, status
    )
}

struct World {
    pages: HashMap<String, String>,
    results: HashMap<String, String>,
    option: String,
    store: Vec<CaseRecord>,
    uploads: Vec<(DocKind, String)>,
    inserts: usize,
    updates: usize,
    uploads_fail: bool,
    writes_fail: bool,
    lookups_fail: bool,
    requests: Vec<Request>,
    now: i64,
}

impl World {
    fn new() -> World {
        let mut pages = HashMap::new();
        pages.insert(s(BASE), s("<html>front</html>"));
        pages.insert(s(LISTING), form_page(true));
        let mut results = HashMap::new();
        results.insert(s("DC_Validated"), results_page(&[], None));
        results.insert(s("DC_Decided"), results_page(&[], None));
        World {
            pages,
            results,
            option: String::new(),
            store: Vec::new(),
            uploads: Vec::new(),
            inserts: 0,
            updates: 0,
            uploads_fail: false,
            writes_fail: false,
            lookups_fail: false,
            requests: Vec::new(),
            now: 1000,
        }
    }

    fn with_case(&mut self, key: &str, reference: &str, form: bool, decision: bool) {
        self.pages.insert(docs_address(key), docs_page(Some(reference), form, decision));
        self.pages.insert(preview_address(key), preview_page(reference, "Pending"));
    }

    fn selected(&self, filter: &StoreFilter) -> Option<usize> {
        self.store.iter().position(|r| {
            r.council == filter.council
                && r.summary.reference == filter.reference
                && (!filter.with_decision
                    || r.documents.iter().any(|d| d.doc_type == "decision_notice"))
        })
    }

    fn respond(&mut self, action: Action) -> Event {
        match action {
            Action::Fetch(request) => {
                self.requests.push(request.clone());
                match request {
                    Request::Get { url, .. } => match self.pages.get(&url) {
                        Some(page) => Event::Page(page.clone()),
                        None => Event::Failed,
                    },
                    Request::Post { url, form } => {
                        if url == FIRST_PAGE {
                            let option = form.iter().find(|f| f.0 == "dateType").unwrap();
                            self.option = option.1.clone();
                            Event::Page(form_page(false))
                        } else if url == PAGED {
                            Event::Page(self.results[&self.option].clone())
                        } else {
                            Event::Failed
                        }
                    }
                }
            }
            Action::Find(filter) => {
                if self.lookups_fail {
                    return Event::Failed;
                }
                Event::Found(self.selected(&filter).map(|i| self.store[i].documents.clone()))
            }
            Action::Upload { kind, url } => {
                if self.uploads_fail {
                    return Event::Failed;
                }
                let key = format!("key{}", self.uploads.len());
                self.uploads.push((kind, url));
                Event::Uploaded(upload_file(kind.label(), &key, 10, "bucket", "region", None, None))
            }
            Action::Write(command) => {
                if self.writes_fail {
                    return Event::Failed;
                }
                match command {
                    StoreCommand::Insert(record) => {
                        self.store.push(record);
                        self.inserts += 1;
                        Event::Written(1)
                    }
                    StoreCommand::Update { filter, changes } => match self.selected(&filter) {
                        Some(i) => {
                            let record = &mut self.store[i];
                            record.summary = changes.summary;
                            record.further_information = changes.further_information;
                            record.documents = changes.documents;
                            record.agent_details = changes.agent_details;
                            record.updated_at = changes.updated_at;
                            record.updated_by = changes.updated_by;
                            self.updates += 1;
                            Event::Written(1)
                        }
                        None => Event::Written(0),
                    },
                }
            }
            Action::Finish | Action::Abort(_) => panic!("nothing to answer"),
        }
    }

    fn run(&mut self) -> (Crawl, Action) {
        let (mut crawl, mut action) = start(LISTING);
        for _ in 0..10_000 {
            if matches!(action, Action::Finish | Action::Abort(_)) {
                return (crawl, action);
            }
            let event = self.respond(action);
            self.now += 1;
            let next = process(crawl, event, self.now);
            crawl = next.0;
            action = next.1;
        }
        panic!("the crawl does not end");
    }
}

fn outcomes(crawl: &Crawl, pass: Pass) -> Vec<Outcome> {
    crawl.report.iter().filter(|r| r.pass == pass).map(|r| r.outcome).collect()
}

#[test]
fn crawl_without_cases_finishes() {
    let mut world = World::new();
    let (crawl, action) = world.run();
    assert_eq!(action, Action::Finish);
    assert_eq!(crawl.stage, Stage::Over);
    assert_eq!(crawl.pass, Pass::Decided);
    assert!(crawl.report.is_empty());
    assert_eq!(
        world.requests[0],
        Request::Get { url: s(BASE), delay_secs: 0 }
    );
    assert_eq!(world.requests[1], Request::Get { url: s(LISTING), delay_secs: 0 });
    assert_eq!(world.requests.len(), 7);
}

#[test]
fn validated_pass_twice_inserts_each_reference_once() {
    let mut world = World::new();
    world.results.insert(s("DC_Validated"), results_page(&["A", "B", "C", "A"], None));
    world.with_case("A", "24/A", true, false);
    world.with_case("B", "24/B", false, false);
    world.with_case("C", "24/C", true, true);
    let (first, action) = world.run();
    assert_eq!(action, Action::Finish);
    assert_eq!(
        outcomes(&first, Pass::Validated),
        vec![
            Outcome::Inserted,
            Outcome::Skipped(Skip::NoApplicationForm),
            Outcome::Inserted,
            Outcome::Skipped(Skip::AlreadyPresent),
        ]
    );
    assert_eq!(world.inserts, 2);
    assert_eq!(
        world.uploads,
        vec![
            (DocKind::ApplicationForm, format!("{}/files/form.pdf", BASE)),
            (DocKind::ApplicationForm, format!("{}/files/form.pdf", BASE)),
        ]
    );
    let references: Vec<String> = world.store.iter().map(|r| r.summary.reference.clone()).collect();
    assert_eq!(references, vec![s("24/A"), s("24/C")]);
    assert_eq!(world.store[0].documents.len(), 1);
    assert_eq!(world.store[0].documents[0].doc_type, "application_form");
    assert_eq!(world.store[0].link, format!("{}{}", BASE, link("A")));

    let held = world.store.clone();
    world.inserts = 0;
    world.uploads.clear();
    let (second, action) = world.run();
    assert_eq!(action, Action::Finish);
    assert_eq!(world.inserts, 0);
    assert!(world.uploads.is_empty());
    assert_eq!(world.store, held);
    assert_eq!(
        outcomes(&second, Pass::Validated),
        vec![
            Outcome::Skipped(Skip::AlreadyPresent),
            Outcome::Skipped(Skip::NoApplicationForm),
            Outcome::Skipped(Skip::AlreadyPresent),
            Outcome::Skipped(Skip::AlreadyPresent),
        ]
    );
}

#[test]
fn reports_follow_the_result_order() {
    let mut world = World::new();
    world.results.insert(s("DC_Validated"), results_page(&["B", "A"], Some("/page2")));
    world.pages.insert(format!("{}/page2", BASE), results_page(&["C"], None));
    world.with_case("A", "24/A", true, false);
    world.with_case("B", "24/B", true, false);
    world.with_case("C", "24/C", true, false);
    let (crawl, _) = world.run();
    let links: Vec<String> = crawl.report.iter().map(|r| r.link.clone()).collect();
    assert_eq!(links, vec![link("B"), link("A"), link("C")]);
    let references: Vec<String> = world.store.iter().map(|r| r.summary.reference.clone()).collect();
    assert_eq!(references, vec![s("24/B"), s("24/A"), s("24/C")]);
    let waits: Vec<u64> = world
        .requests
        .iter()
        .filter_map(|r| match r {
            Request::Get { url, delay_secs } if url.ends_with("documents") => Some(*delay_secs),
            _ => None,
        })
        .collect();
    assert_eq!(waits, vec![1, 1, 1]);
}

#[test]
fn decided_pass_updates_inserts_and_skips() {
    let mut world = World::new();
    world.results.insert(s("DC_Validated"), results_page(&["A", "D", "F"], None));
    world.with_case("A", "24/A", true, false);
    world.with_case("D", "24/D", true, false);
    world.with_case("F", "24/F", true, true);
    world.run();
    assert_eq!(world.inserts, 3);
    let created = world.store[0].created_at;

    world.results.insert(s("DC_Validated"), results_page(&[], None));
    world.results.insert(s("DC_Decided"), results_page(&["A", "B", "D", "E", "F"], None));
    world.with_case("A", "24/A", true, true);
    world.pages.insert(preview_address("A"), preview_page("24/A", "Decided"));
    world.with_case("B", "24/B", true, true);
    world.with_case("E", "24/E", false, false);
    world.inserts = 0;
    world.uploads.clear();
    let (crawl, action) = world.run();
    assert_eq!(action, Action::Finish);
    assert_eq!(
        outcomes(&crawl, Pass::Decided),
        vec![
            Outcome::Updated,
            Outcome::Inserted,
            Outcome::Skipped(Skip::NoDecisionNotice),
            Outcome::Inserted,
            Outcome::Updated,
        ]
    );
    assert_eq!(
        world.uploads,
        vec![
            (DocKind::DecisionNotice, format!("{}/files/decision.pdf", BASE)),
            (DocKind::ApplicationForm, format!("{}/files/form.pdf", BASE)),
            (DocKind::DecisionNotice, format!("{}/files/decision.pdf", BASE)),
            (DocKind::DecisionNotice, format!("{}/files/decision.pdf", BASE)),
        ]
    );
    let a = world.store.iter().find(|r| r.summary.reference == "24/A").unwrap();
    let kinds: Vec<&str> = a.documents.iter().map(|d| d.doc_type.as_str()).collect();
    assert_eq!(kinds, vec!["application_form", "decision_notice"]);
    assert_eq!(a.documents[0].name, "key0");
    assert_eq!(a.summary.status, "Decided");
    assert_eq!(a.created_at, created);
    assert!(a.updated_at > created);
    let b = world.store.iter().find(|r| r.summary.reference == "24/B").unwrap();
    let kinds: Vec<&str> = b.documents.iter().map(|d| d.doc_type.as_str()).collect();
    assert_eq!(kinds, vec!["application_form", "decision_notice"]);
    let e = world.store.iter().find(|r| r.summary.reference == "24/E").unwrap();
    assert!(e.documents.is_empty());

    world.inserts = 0;
    world.updates = 0;
    world.uploads.clear();
    let held = world.store.clone();
    let (again, _) = world.run();
    assert_eq!(
        outcomes(&again, Pass::Decided),
        vec![
            Outcome::Skipped(Skip::AlreadyFinalized),
            Outcome::Skipped(Skip::AlreadyFinalized),
            Outcome::Skipped(Skip::NoDecisionNotice),
            Outcome::Skipped(Skip::NoDecisionNotice),
            Outcome::Skipped(Skip::AlreadyFinalized),
        ]
    );
    assert_eq!(world.inserts, 0);
    assert_eq!(world.updates, 0);
    assert!(world.uploads.is_empty());
    assert_eq!(world.store, held);
}

#[test]
fn failure_within_a_case_ends_that_case_only() {
    let mut world = World::new();
    world.results.insert(s("DC_Validated"), results_page(&["A", "B", "C", "D"], None));
    world.with_case("A", "24/A", true, false);
    world.pages.insert(docs_address("B"), docs_page(None, true, false));
    world.with_case("D", "24/D", true, false);
    world.pages.insert(
        preview_address("D"),
        s("<table id=\"simpleDetailsTable\"><tr><th>Reference</th></tr></table>"),
    );
    let (crawl, action) = world.run();
    assert_eq!(action, Action::Finish);
    assert_eq!(
        outcomes(&crawl, Pass::Validated),
        vec![
            Outcome::Inserted,
            Outcome::Failed(CrawlError::MissingReference),
            Outcome::Failed(CrawlError::Transport),
            Outcome::Failed(CrawlError::ProtocolShape),
        ]
    );
    assert_eq!(world.inserts, 1);
}

#[test]
fn failed_upload_abandons_the_case() {
    let mut world = World::new();
    world.results.insert(s("DC_Validated"), results_page(&["A"], None));
    world.results.insert(s("DC_Decided"), results_page(&["A"], None));
    world.with_case("A", "24/A", true, true);
    world.uploads_fail = true;
    let (crawl, action) = world.run();
    assert_eq!(action, Action::Finish);
    assert_eq!(outcomes(&crawl, Pass::Validated), vec![Outcome::Failed(CrawlError::Upload)]);
    assert_eq!(outcomes(&crawl, Pass::Decided), vec![Outcome::Failed(CrawlError::Upload)]);
    assert!(world.store.is_empty());
}

#[test]
fn failed_store_abandons_the_case() {
    let mut world = World::new();
    world.results.insert(s("DC_Validated"), results_page(&["A", "A"], None));
    world.with_case("A", "24/A", true, false);
    world.writes_fail = true;
    let (crawl, _) = world.run();
    assert_eq!(
        outcomes(&crawl, Pass::Validated),
        vec![Outcome::Failed(CrawlError::Store), Outcome::Failed(CrawlError::Store)]
    );
    world.writes_fail = false;
    world.lookups_fail = true;
    world.results.insert(s("DC_Decided"), results_page(&["A"], None));
    let (crawl, _) = world.run();
    assert_eq!(
        outcomes(&crawl, Pass::Validated),
        vec![Outcome::Failed(CrawlError::Store), Outcome::Failed(CrawlError::Store)]
    );
    assert_eq!(outcomes(&crawl, Pass::Decided), vec![Outcome::Failed(CrawlError::Store)]);
    assert!(world.store.is_empty());
}

#[test]
fn failure_of_the_session_aborts_the_crawl() {
    let mut world = World::new();
    world.pages.remove(BASE);
    let (crawl, action) = world.run();
    assert_eq!(action, Action::Abort(CrawlError::Transport));
    assert_eq!(crawl.stage, Stage::Aborted(CrawlError::Transport));

    let mut world = World::new();
    world.pages.remove(LISTING);
    assert_eq!(world.run().1, Action::Abort(CrawlError::Transport));

    let mut world = World::new();
    world.pages.insert(s(LISTING), s("<html>changed</html>"));
    assert_eq!(world.run().1, Action::Abort(CrawlError::ProtocolShape));

    let mut world = World::new();
    world.results.insert(s("DC_Validated"), results_page(&["A"], Some("/p2")));
    assert_eq!(world.run().1, Action::Abort(CrawlError::Transport));
}

#[test]
fn looping_pagination_aborts_the_crawl() {
    let mut world = World::new();
    world.results.insert(s("DC_Validated"), results_page(&["A"], Some("/p2")));
    world.pages.insert(format!("{}/p2", BASE), results_page(&["B"], Some("/p2")));
    let (crawl, action) = world.run();
    assert_eq!(action, Action::Abort(CrawlError::PaginationLoop));
    assert!(crawl.report.is_empty());
    assert!(world.store.is_empty());
}

fn at_stage(pass: Pass, stage: Stage) -> Crawl {
    Crawl {
        url: s(LISTING),
        pass,
        stage,
        current: link("A"),
        links: vec![link("A"), link("B")],
        cursor: 1,
        report: Vec::new(),
    }
}

fn links(form: bool, decision: bool) -> DocLinks {
    DocLinks {
        decision_notice: if decision { Some(s("https://h/decision.pdf")) } else { None },
        application_form: if form { Some(s("https://h/form.pdf")) } else { None },
    }
}

fn file(kind: DocKind, key: &str) -> DocumentRef {
    upload_file(kind.label(), key, 1, "b", "r", None, None)
}

fn next_case(crawl: &Crawl, action: &Action, outcome: Outcome) {
    assert_eq!(crawl.stage, Stage::Docs);
    assert_eq!(crawl.current, link("B"));
    assert_eq!(crawl.cursor, 2);
    assert_eq!(
        crawl.report,
        vec![CaseReport { pass: crawl.pass, link: link("A"), outcome }]
    );
    assert_eq!(
        *action,
        Action::Fetch(Request::Get { url: docs_address("B"), delay_secs: 1 })
    );
}

#[test]
fn absent_case_with_form_is_inserted() {
    let lookup = Stage::Lookup { reference: s("24/A"), docs: links(true, true) };
    let (crawl, action) = process(at_stage(Pass::Validated, lookup), Event::Found(None), 5);
    assert_eq!(action, Action::Fetch(Request::Get { url: preview_address("A"), delay_secs: 0 }));
    let (crawl, action) = process(crawl, Event::Page(preview_page("24/A", "Pending")), 6);
    assert_eq!(
        action,
        Action::Upload { kind: DocKind::ApplicationForm, url: s("https://h/form.pdf") }
    );
    let form = file(DocKind::ApplicationForm, "k");
    let (crawl, action) = process(crawl, Event::Uploaded(form.clone()), 7);
    match action {
        Action::Write(StoreCommand::Insert(record)) => {
            assert_eq!(record.documents, vec![form]);
            assert_eq!(record.summary.reference, "24/A");
            assert_eq!(record.created_at, 6);
        }
        other => panic!("unexpected {:?}", other),
    }
    assert_eq!(crawl.stage, Stage::Insert);
    let (crawl, action) = process(crawl, Event::Written(1), 8);
    next_case(&crawl, &action, Outcome::Inserted);
}

#[test]
fn absent_case_without_form_is_skipped() {
    let lookup = Stage::Lookup { reference: s("24/A"), docs: links(false, true) };
    let (crawl, action) = process(at_stage(Pass::Validated, lookup), Event::Found(None), 5);
    next_case(&crawl, &action, Outcome::Skipped(Skip::NoApplicationForm));
}

#[test]
fn present_case_is_skipped_in_the_validated_pass() {
    let lookup = Stage::Lookup { reference: s("24/A"), docs: links(true, true) };
    let (crawl, action) =
        process(at_stage(Pass::Validated, lookup), Event::Found(Some(Vec::new())), 5);
    next_case(&crawl, &action, Outcome::Skipped(Skip::AlreadyPresent));
}

#[test]
fn held_case_with_decision_link_is_updated() {
    let prior = vec![file(DocKind::ApplicationForm, "old")];
    let lookup = Stage::Lookup { reference: s("24/A"), docs: links(true, true) };
    let (crawl, action) =
        process(at_stage(Pass::Decided, lookup), Event::Found(Some(prior.clone())), 5);
    assert_eq!(
        action,
        Action::Upload { kind: DocKind::DecisionNotice, url: s("https://h/decision.pdf") }
    );
    let notice = file(DocKind::DecisionNotice, "new");
    let (crawl, action) = process(crawl, Event::Uploaded(notice.clone()), 6);
    assert_eq!(action, Action::Fetch(Request::Get { url: preview_address("A"), delay_secs: 0 }));
    let (crawl, action) = process(crawl, Event::Page(preview_page("24/A", "Decided")), 7);
    match action {
        Action::Write(StoreCommand::Update { filter, changes }) => {
            assert_eq!(
                filter,
                StoreFilter { council: s("Leeds"), reference: s("24/A"), with_decision: false }
            );
            assert_eq!(changes.documents, vec![prior[0].clone(), notice]);
            assert_eq!(changes.summary.status, "Decided");
            assert_eq!(changes.further_information.ward, "Ward 1");
            assert_eq!(changes.agent_details.agent_email, "a@b.c");
            assert_eq!(changes.updated_at, 7);
            assert_eq!(changes.updated_by, "6539157ef8be4d62ea02ed6b");
        }
        other => panic!("unexpected {:?}", other),
    }
    let (crawl, action) = process(crawl, Event::Written(1), 8);
    next_case(&crawl, &action, Outcome::Updated);
}

#[test]
fn update_that_matches_nothing_is_reported() {
    let (crawl, action) = process(at_stage(Pass::Decided, Stage::Update), Event::Written(0), 1);
    next_case(&crawl, &action, Outcome::UpdateMissed);
}

#[test]
fn held_case_without_decision_link_is_skipped() {
    let lookup = Stage::Lookup { reference: s("24/A"), docs: links(true, false) };
    let (crawl, action) =
        process(at_stage(Pass::Decided, lookup), Event::Found(Some(Vec::new())), 5);
    next_case(&crawl, &action, Outcome::Skipped(Skip::NoDecisionNotice));
}

#[test]
fn finalized_case_is_skipped_whatever_the_links() {
    for docs in [links(true, true), links(false, false), links(false, true)] {
        let stage = Stage::DecisionLookup { reference: s("24/A"), docs };
        let found = vec![file(DocKind::DecisionNotice, "k")];
        let (crawl, action) = process(at_stage(Pass::Decided, stage), Event::Found(Some(found)), 5);
        next_case(&crawl, &action, Outcome::Skipped(Skip::AlreadyFinalized));
    }
}

#[test]
fn case_not_finalized_is_looked_up_as_such() {
    let stage = Stage::DecisionLookup { reference: s("24/A"), docs: links(true, true) };
    let (crawl, action) = process(at_stage(Pass::Decided, stage), Event::Found(None), 5);
    assert_eq!(
        action,
        Action::Find(StoreFilter { council: s("Leeds"), reference: s("24/A"), with_decision: false })
    );
    assert_eq!(crawl.stage, Stage::Lookup { reference: s("24/A"), docs: links(true, true) });
}

#[test]
fn documents_page_leads_to_the_lookup_of_the_pass() {
    let page = docs_page(Some("24/A"), true, false);
    let (_, action) = process(at_stage(Pass::Validated, Stage::Docs), Event::Page(page.clone()), 1);
    assert_eq!(
        action,
        Action::Find(StoreFilter { council: s("Leeds"), reference: s("24/A"), with_decision: false })
    );
    let (_, action) = process(at_stage(Pass::Decided, Stage::Docs), Event::Page(page), 1);
    assert_eq!(
        action,
        Action::Find(StoreFilter { council: s("Leeds"), reference: s("24/A"), with_decision: true })
    );
}

#[test]
fn unexpected_answer_counts_as_failure() {
    let (crawl, action) = process(at_stage(Pass::Validated, Stage::Docs), Event::Written(1), 1);
    next_case(&crawl, &action, Outcome::Failed(CrawlError::Transport));
    let (crawl, action) =
        process(at_stage(Pass::Validated, Stage::Insert), Event::Page(s("x")), 1);
    next_case(&crawl, &action, Outcome::Failed(CrawlError::Store));
    let (crawl, action) = process(at_stage(Pass::Validated, Stage::Boot), Event::Found(None), 1);
    assert_eq!(action, Action::Abort(CrawlError::Transport));
    assert_eq!(crawl.stage, Stage::Aborted(CrawlError::Transport));
}

#[test]
fn ended_crawl_stays_ended() {
    let (crawl, action) = process(at_stage(Pass::Decided, Stage::Over), Event::Page(s("x")), 1);
    assert_eq!(action, Action::Finish);
    assert_eq!(crawl.stage, Stage::Over);
    let aborted = Stage::Aborted(CrawlError::PaginationLoop);
    let (crawl, action) = process(at_stage(Pass::Decided, aborted.clone()), Event::Failed, 1);
    assert_eq!(action, Action::Abort(CrawlError::PaginationLoop));
    assert_eq!(crawl.stage, aborted);
}

#[test]
fn last_case_of_each_pass_leads_on() {
    let mut crawl = at_stage(Pass::Validated, Stage::Insert);
    crawl.cursor = 2;
    let (crawl, action) = process(crawl, Event::Written(1), 1);
    assert_eq!(crawl.pass, Pass::Decided);
    assert_eq!(action, Action::Fetch(Request::Get { url: s(LISTING), delay_secs: 0 }));
    assert!(matches!(crawl.stage, Stage::Walking(_)));
    assert_eq!(crawl.report.len(), 1);

    let mut crawl = at_stage(Pass::Decided, Stage::Insert);
    crawl.cursor = 2;
    let (crawl, action) = process(crawl, Event::Written(1), 1);
    assert_eq!(action, Action::Finish);
    assert_eq!(crawl.stage, Stage::Over);
}

#[test]
fn passes_have_their_keywords() {
    assert_eq!(option(Pass::Validated), "DC_Validated");
    assert_eq!(option(Pass::Decided), "DC_Decided");
}
