use adsabs::export::Export;
use adsabs::export::FormatType;
use adsabs::search::parse_search_page;
use adsabs::search::Response;
use adsabs::search::Search;
use adsabs::search::SearchIter;
use adsabs::search::Step;
use adsabs::AdsError;
use adsabs::Sort;

/// A deterministic fake backend: `len` documents (numbered from zero), a
/// fixed page size `cap`, and optionally one request that fails with a
/// server-reported rejection.
struct Backend {
    len: u64,
    cap: u64,
    fail_on: Option<u64>,
    requests: u64,
    requested: Vec<(u64, u64)>,
}

impl Backend {
    fn new(len: u64, cap: u64) -> Self {
        Backend {
            len,
            cap,
            fail_on: None,
            requests: 0,
            requested: Vec::new(),
        }
    }

    fn failing_on(len: u64, cap: u64, request: u64) -> Self {
        let mut b = Self::new(len, cap);
        b.fail_on = Some(request);
        b
    }

    fn page(&mut self, start: u64, rows: u64) -> Result<Response<u64>, AdsError> {
        self.requests += 1;
        self.requested.push((start, rows));
        if self.fail_on == Some(self.requests) {
            return Err(AdsError::Ads("mock error message".to_string()));
        }
        let s = start.min(self.len);
        let e = (s + rows.min(self.cap)).min(self.len);
        Ok(Response {
            num_found: self.len,
            start,
            docs: (s..e).collect(),
        })
    }
}

/// Drives the iterator protocol to exhaustion, the way any caller is
/// meant to: perform each requested fetch, stop at the first failure.
fn drain(mut it: SearchIter<u64>, backend: &mut Backend) -> (Vec<u64>, Option<AdsError>) {
    let mut out = Vec::new();
    loop {
        match it.next_step() {
            Step::Ready(d) => out.push(d),
            Step::Finished => return (out, None),
            Step::Fetch { start, rows } => match backend.page(start, rows) {
                Ok(resp) => {
                    if let Some(d) = it.feed_page(resp) {
                        out.push(d);
                    } else {
                        return (out, None);
                    }
                }
                Err(e) => return (out, Some(e)),
            },
        }
    }
}

#[test]
fn drain_yields_all_documents_in_order() {
    let mut backend = Backend::new(25, 10);
    let (docs, err) = drain(Search::new("q").iter(), &mut backend);
    assert!(err.is_none());
    assert_eq!(docs, (0..25).collect::<Vec<u64>>());
    assert_eq!(backend.requests, 3);
}

#[test]
fn drain_request_count_is_page_count() {
    let mut backend = Backend::new(30, 10);
    let (docs, err) = drain(Search::new("q").iter(), &mut backend);
    assert!(err.is_none());
    assert_eq!(docs.len(), 30);
    assert_eq!(backend.requests, 3);

    let mut backend = Backend::new(1, 10);
    let (docs, err) = drain(Search::new("q").iter(), &mut backend);
    assert!(err.is_none());
    assert_eq!(docs.len(), 1);
    assert_eq!(backend.requests, 1);
}

#[test]
fn limit_cuts_documents_and_requests() {
    let mut backend = Backend::new(25, 10);
    let (docs, err) = drain(Search::new("q").iter().limit(7), &mut backend);
    assert!(err.is_none());
    assert_eq!(docs, (0..7).collect::<Vec<u64>>());
    assert_eq!(backend.requests, 1);

    let mut backend = Backend::new(25, 10);
    let (docs, err) = drain(Search::new("q").iter().limit(15), &mut backend);
    assert!(err.is_none());
    assert_eq!(docs, (0..15).collect::<Vec<u64>>());
    assert_eq!(backend.requests, 2);
    // The second request asks only for what remains under the limit.
    assert_eq!(backend.requested[1], (10, 5));
}

#[test]
fn limit_above_total_behaves_like_no_limit() {
    let mut backend = Backend::new(25, 10);
    let (docs, err) = drain(Search::new("q").iter().limit(100), &mut backend);
    assert!(err.is_none());
    assert_eq!(docs, (0..25).collect::<Vec<u64>>());
    assert_eq!(backend.requests, 3);
}

#[test]
fn requests_are_issued_in_strictly_increasing_offsets() {
    let mut backend = Backend::new(25, 10);
    let (_, err) = drain(Search::new("q").iter(), &mut backend);
    assert!(err.is_none());
    let offsets: Vec<u64> = backend.requested.iter().map(|(s, _)| *s).collect();
    assert_eq!(offsets, vec![0, 10, 20]);
}

#[test]
fn limit_zero_makes_no_request() {
    let mut backend = Backend::new(25, 10);
    let (docs, err) = drain(Search::new("q").iter().limit(0), &mut backend);
    assert!(err.is_none());
    assert!(docs.is_empty());
    assert_eq!(backend.requests, 0);
}

#[test]
fn zero_results_need_exactly_one_request() {
    let mut backend = Backend::new(0, 10);
    let (docs, err) = drain(Search::new("q").iter(), &mut backend);
    assert!(err.is_none());
    assert!(docs.is_empty());
    assert_eq!(backend.requests, 1);
}

#[test]
fn failure_surfaces_once_and_stops_the_drain() {
    let mut backend = Backend::failing_on(25, 10, 2);
    let (docs, err) = drain(Search::new("q").iter(), &mut backend);
    assert_eq!(docs, (0..10).collect::<Vec<u64>>());
    match err {
        Some(AdsError::Ads(msg)) => assert_eq!(msg, "mock error message"),
        other => panic!("expected a remote rejection, got {:?}", other),
    }
    assert_eq!(backend.requests, 2);
}

#[test]
fn an_empty_page_ends_the_sequence() {
    // The backend's total claims more documents than it ever returns: the
    // empty second page ends the sequence instead of looping.
    let mut backend = Backend::new(10, 10);
    backend.len = 10;
    let mut it: SearchIter<u64> = Search::new("q").iter();
    let mut out: Vec<u64> = Vec::new();
    let mut requests = 0u64;
    loop {
        match it.next_step() {
            Step::Ready(d) => out.push(d),
            Step::Finished => break,
            Step::Fetch { start, rows } => {
                requests += 1;
                let resp = if requests == 1 {
                    // Claim a total of 100 but serve only ten documents.
                    let mut page = backend.page(start, rows).unwrap();
                    page.num_found = 100;
                    page
                } else {
                    Response {
                        num_found: 100,
                        start,
                        docs: Vec::new(),
                    }
                };
                if it.feed_page(resp).map(|d| out.push(d)).is_none() {
                    break;
                }
            }
        }
    }
    assert_eq!(out, (0..10).collect::<Vec<u64>>());
    assert_eq!(requests, 2);
}

#[test]
fn totals_are_reread_from_every_page() {
    // The first page reports a larger total than the second: the iterator
    // must re-evaluate its stop condition against the newest total.
    let mut it: SearchIter<u64> = Search::new("q").iter();
    let mut out: Vec<u64> = Vec::new();
    let mut requests = 0u64;
    loop {
        match it.next_step() {
            Step::Ready(d) => out.push(d),
            Step::Finished => break,
            Step::Fetch { start, rows } => {
                requests += 1;
                assert!(rows >= 5);
                let docs: Vec<u64> = (start..(start + 5).min(10)).collect();
                let num_found = if requests == 1 { 50 } else { 10 };
                let resp = Response {
                    num_found,
                    start,
                    docs,
                };
                if it.feed_page(resp).map(|d| out.push(d)).is_none() {
                    break;
                }
            }
        }
    }
    assert_eq!(out, (0..10).collect::<Vec<u64>>());
    assert_eq!(requests, 2);
}

#[test]
fn stop_check_applies_once_cursor_is_positive() {
    // The first page is always fetched when the cursor starts at zero,
    // because the total is unknown until a response arrives; but the stop
    // check applies as soon as the cursor is positive, so an iterator
    // whose query carries its own positive offset ends with no request.
    let mut backend = Backend::new(25, 10);
    let (docs, err) = drain(Search::new("q").start(20).iter(), &mut backend);
    assert!(err.is_none());
    assert!(docs.is_empty());
    assert_eq!(backend.requests, 0);
}

#[test]
fn deserialize_search_response() {
    let data = "
        {
            \"numFound\": 194,
            \"start\": 12,
            \"docs\": [
                {
                    \"id\": \"312911\"
                },
                {
                    \"id\": \"1877482\"
                }
            ]
        }";
    let body = format!("{{\"response\":{}}}", data);
    let response = parse_search_page(&body).unwrap();
    assert_eq!(response.num_found, 194);
    assert_eq!(response.start, 12);
    assert_eq!(response.docs.len(), 2);
    assert_eq!(response.docs[0].get("id").unwrap().as_str().unwrap(), "312911");
}

#[test]
fn envelope_error_message_is_surfaced() {
    let body = "{\"error\":{\"msg\":\"Invalid query syntax\"}}";
    match parse_search_page(body) {
        Err(AdsError::Ads(msg)) => assert_eq!(msg, "Invalid query syntax"),
        Err(other) => panic!("expected a remote rejection, got {:?}", other),
        Ok(_) => panic!("expected a remote rejection, got a page"),
    }
}

#[test]
fn malformed_envelopes_are_decode_failures() {
    assert!(matches!(
        parse_search_page("this is not json"),
        Err(AdsError::Json(_))
    ));
    assert!(matches!(
        parse_search_page("{\"unrelated\":1}"),
        Err(AdsError::Json(_))
    ));
    assert!(matches!(
        parse_search_page("{\"response\":{\"numFound\":\"x\",\"start\":0,\"docs\":[]}}"),
        Err(AdsError::Json(_))
    ));
    assert!(matches!(
        parse_search_page("{\"response\":{\"numFound\":2,\"start\":0}}"),
        Err(AdsError::Json(_))
    ));
}

#[test]
fn paging_over_parsed_envelopes() {
    // End to end through the decoder: three JSON pages, drained through
    // the same protocol the HTTP driver uses.
    let bodies = [
        "{\"response\":{\"numFound\":5,\"start\":0,\"docs\":[{\"bibcode\":\"b0\"},{\"bibcode\":\"b1\"}]}}",
        "{\"response\":{\"numFound\":5,\"start\":2,\"docs\":[{\"bibcode\":\"b2\"},{\"bibcode\":\"b3\"}]}}",
        "{\"response\":{\"numFound\":5,\"start\":4,\"docs\":[{\"bibcode\":\"b4\"}]}}",
    ];
    let mut it: SearchIter<serde_json::Value> = Search::new("q").fl("bibcode").iter();
    let mut out: Vec<String> = Vec::new();
    let mut requests = 0usize;
    loop {
        match it.next_step() {
            Step::Ready(d) => out.push(d.get("bibcode").unwrap().as_str().unwrap().to_string()),
            Step::Finished => break,
            Step::Fetch { .. } => {
                let page = parse_search_page(bodies[requests]).unwrap();
                requests += 1;
                match it.feed_page(page) {
                    Some(d) => {
                        out.push(d.get("bibcode").unwrap().as_str().unwrap().to_string())
                    }
                    None => break,
                }
            }
        }
    }
    assert_eq!(out, vec!["b0", "b1", "b2", "b3", "b4"]);
    assert_eq!(requests, 3);
}

#[test]
fn custom_export_without_format_string_fails_before_any_request() {
    let bibcodes = vec!["2021zndo...5796047F".to_string()];
    let export = Export::new(FormatType::Custom, &bibcodes);
    assert!(matches!(export.prepare(), Err(AdsError::MissingFormat)));

    let export = Export::new(FormatType::Custom, &bibcodes).format("%l (%Y), %j");
    let payload = export.prepare().unwrap();
    assert_eq!(payload.path, "export/custom");
    assert_eq!(payload.format.as_deref(), Some("%l (%Y), %j"));
}

#[test]
fn export_payload_carries_path_sort_and_bibcodes() {
    let bibcodes = vec!["b1".to_string(), "b2".to_string()];
    let export = Export::new(FormatType::BibTeX, &bibcodes);
    let payload = export.prepare().unwrap();
    assert_eq!(payload.path, "export/bibtex");
    assert_eq!(payload.bibcode, bibcodes);
    assert!(payload.sort.is_none());
    assert!(payload.format.is_none());

    let export = Export::new(FormatType::BibTeX, &bibcodes)
        .sort(Sort::asc("date"))
        .sort(Sort::from("citation_count"));
    let payload = export.prepare().unwrap();
    assert_eq!(payload.sort.as_deref(), Some("date asc,citation_count desc"));
}

#[test]
fn export_response_text_is_extracted() {
    let body = "{\"msg\":\"Retrieved 1 abstracts\",\"export\":\"@article{x}\"}";
    assert_eq!(
        adsabs::export::parse_export_response(body).unwrap(),
        "@article{x}"
    );
    assert!(matches!(
        adsabs::export::parse_export_response("{\"msg\":\"no export\"}"),
        Err(AdsError::Json(_))
    ));
    assert!(matches!(
        adsabs::export::parse_export_response("not json"),
        Err(AdsError::Json(_))
    ));
}

#[test]
fn bibcodes_are_collected_or_fail_fast() {
    let docs = vec![Some("b1".to_string()), Some("b2".to_string())];
    assert_eq!(
        adsabs::export::collect_bibcodes(&docs).unwrap(),
        vec!["b1".to_string(), "b2".to_string()]
    );

    let docs = vec![Some("b1".to_string()), None, Some("b3".to_string())];
    assert!(matches!(
        adsabs::export::collect_bibcodes(&docs),
        Err(AdsError::MissingBibcode)
    ));
}
