use telescope_core::flow::Flow;
use telescope_core::flow::FlowContent;
use telescope_core::flow::HTTPPair;
use telescope_core::flow::RequestMeta;
use telescope_core::flow::RequestOrResponse;
use telescope_core::proxy::FlowStorage;
use telescope_core::resource::Resource;

fn flow_for(url: &str) -> Flow {
    let meta = RequestMeta::new(url, "GET", "HTTP/1.1").expect("url should parse");
    let req = RequestOrResponse::new_request(Resource::empty(), Vec::new(), meta);
    Flow::new(FlowContent::RequestResponse(HTTPPair::new_request(req)))
}

fn url_of(f: &Flow) -> String {
    match &f.content {
        FlowContent::RequestResponse(p) => p.request.meta.unwrap_request_ref().url.clone(),
    }
}

#[test]
fn add_and_len() {
    let mut s = FlowStorage::new();
    assert_eq!(s.len(), 0);
    assert!(s.add_flow(flow_for("http://a/")));
    assert!(s.add_flow(flow_for("http://b/")));
    assert_eq!(s.len(), 2);
}

#[test]
fn timeline_keeps_arrival_order_across_removes() {
    let mut s = FlowStorage::new();
    let mut ids: Vec<String> = Vec::new();
    for url in ["http://a/", "http://b/", "http://c/", "http://d/"] {
        let f = flow_for(url);
        ids.push(f.get_id());
        assert!(s.add_flow(f));
    }
    // Remove the second flow; survivors keep their relative order.
    assert!(s.remove_flow(&ids[1]).is_some());
    let urls: Vec<String> = s.iter_flow_timeline().iter().map(url_of).collect();
    assert_eq!(
        urls,
        vec!["http://a/".to_string(), "http://c/".to_string(), "http://d/".to_string()]
    );
    assert_eq!(s.len(), 3);

    // Interleave: add one more, remove the first, check again.
    let e = flow_for("http://e/");
    let e_id = e.get_id();
    assert!(s.add_flow(e));
    assert!(s.remove_flow(&ids[0]).is_some());
    let urls2: Vec<String> = s.iter_flow_timeline().iter().map(url_of).collect();
    assert_eq!(
        urls2,
        vec!["http://c/".to_string(), "http://d/".to_string(), "http://e/".to_string()]
    );

    // by_index agrees with the timeline at every position.
    for (i, f) in s.iter_flow_timeline().iter().enumerate() {
        let g = s.flow_by_index(i).expect("index in range");
        assert_eq!(g.get_id(), f.get_id());
    }
    assert!(s.flow_by_index(3).is_none());
    assert!(s.remove_flow(&e_id).is_some());
    assert_eq!(s.len(), 2);
}

#[test]
fn get_flow_finds_by_id() {
    let mut s = FlowStorage::new();
    let f = flow_for("http://find-me/");
    let id = f.get_id();
    assert!(s.add_flow(f));
    assert!(s.add_flow(flow_for("http://other/")));
    let got = s.get_flow(&id).expect("flow should be present");
    assert_eq!(url_of(got), "http://find-me/".to_string());
    assert!(s.get_flow("no-such-id").is_none());
}

#[test]
fn remove_absent_id_is_none() {
    let mut s = FlowStorage::new();
    assert!(s.add_flow(flow_for("http://a/")));
    assert!(s.remove_flow("missing").is_none());
    assert_eq!(s.len(), 1);
}

#[test]
fn duplicate_id_is_refused() {
    let mut s = FlowStorage::new();
    let f = flow_for("http://a/");
    let mut g = flow_for("http://b/");
    g.id = f.id.clone();
    assert!(s.add_flow(f));
    assert!(!s.add_flow(g));
    assert_eq!(s.len(), 1);
    assert_eq!(url_of(s.flow_by_index(0).unwrap()), "http://a/".to_string());
}
