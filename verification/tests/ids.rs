use std::collections::HashSet;

use telescope_core::flow::Flow;
use telescope_core::flow::FlowContent;
use telescope_core::flow::HTTPPair;
use telescope_core::flow::RequestMeta;
use telescope_core::flow::RequestOrResponse;
use telescope_core::flow::RequestOrResponseMeta;
use telescope_core::resource::Resource;

// The id space is 64^21 (about 2^126), so collisions over any realistic run
// are vanishingly unlikely; this draws as many ids as fit the harness's
// per-test time budget, since each draw seeds a fresh OS-backed generator.
const DRAWS: usize = 300_000;

fn cheap_content() -> FlowContent {
    let meta = RequestMeta {
        url: String::new(),
        method: String::new(),
        version: String::new(),
        created_at: 0,
    };
    FlowContent::RequestResponse(HTTPPair {
        request: RequestOrResponse {
            body: Resource::empty(),
            headers: Vec::new(),
            is_response: false,
            meta: RequestOrResponseMeta::Request(meta),
        },
        response: None,
    })
}

#[test]
fn freshly_drawn_flow_ids_are_distinct() {
    let template = cheap_content();
    let mut seen: HashSet<String> = HashSet::with_capacity(DRAWS);
    for _ in 0..DRAWS {
        let flow = Flow::new(template.clone());
        assert!(seen.insert(flow.get_id()), "two flows drew the same id");
    }
}
