//! The concurrent flow registry and the capture steps of the interception
//! engine. The store keeps flows in arrival order under unique ids; the
//! capture steps record a request as a fresh flow and attach the matching
//! response to it later. The host owns the lock around the store and the
//! sockets; everything that decides or transforms lives here.

use vstd::prelude::*;

verus! {

use crate::flow::FLOW_ID_LENGTH;
use crate::flow::is_url_safe_char;
use crate::flow::Flow;
use crate::flow::FlowContent;
use crate::flow::HTTPPair;
use crate::flow::RequestOrResponse;
use crate::flow::RequestOrResponseMeta;
use crate::flow::ResponseMeta;
use crate::flow::spec_meta_created_at;
use vstd::string::StrSliceExecFns;

/// Fatal errors of engine start-up, surfaced to the host's setup flow.
#[derive(Debug, Clone, Copy, PartialEq, Eq, Structural)]
pub enum StartupError {
    BadCaKey,
    BadCaCert,
    TlsInitFailed,
    BindFailed,
}

/// Character-wise string equality.
fn str_eq(a: &str, b: &str) -> (r: bool)
    ensures
        r == (a@ == b@),
{
    let a_len: usize = a.unicode_len();
    let b_len: usize = b.unicode_len();
    if a_len != b_len {
        return false;
    }
    let mut i: usize = 0;
    while i < a_len
        invariant
            i <= a_len,
            a_len == a@.len(),
            b_len == b@.len(),
            a_len == b_len,
            forall|j: int| 0 <= j < i ==> a@[j] == b@[j],
        decreases a_len - i,
    {
        if a.get_char(i) != b.get_char(i) {
            return false;
        }
        i = i + 1;
    }
    proof {
        assert(a@ =~= b@);
    }
    true
}

/// No two flows share an id.
pub open spec fn ids_unique(s: Seq<Flow>) -> bool {
    forall|i: int, j: int| 0 <= i < j < s.len() ==> s[i].id@ != s[j].id@
}

/// Some flow in the sequence carries this id.
pub open spec fn spec_contains_id(s: Seq<Flow>, id: Seq<char>) -> bool {
    exists|i: int| 0 <= i < s.len() && (#[trigger] s[i].id@) == id
}

/// The position of the flow carrying this id; meaningful when one exists,
/// and unique when ids are unique.
pub open spec fn spec_index_of_id(s: Seq<Flow>, id: Seq<char>) -> int {
    choose|i: int| 0 <= i < s.len() && (#[trigger] s[i].id@) == id
}

/// All live flows, in the order their requests arrived. The sequence is the
/// timeline; the id is the key.
#[derive(Debug)]
pub struct FlowStorage {
    flows: Vec<Flow>,
}

impl View for FlowStorage {
    type V = Seq<Flow>;

    closed spec fn view(&self) -> Seq<Flow> {
        self.flows@
    }
}

impl FlowStorage {
    /// Ids are unique and every stored flow is well-formed.
    pub open spec fn wf(self) -> bool {
        &&& ids_unique(self@)
        &&& forall|i: int| 0 <= i < self@.len() ==> (#[trigger] self@[i]).wf()
    }

    pub fn new() -> (r: Self)
        ensures
            r@ == Seq::<Flow>::empty(),
            r.wf(),
    {
        FlowStorage { flows: Vec::new() }
    }

    /// The position of the flow with this id, if the store holds one.
    fn index_of(&self, id: &str) -> (r: Option<usize>)
        ensures
            r matches Some(i) ==> i < self@.len() && self@[i as int].id@ == id@,
            r is None ==> !spec_contains_id(self@, id@),
    {
        let n: usize = self.flows.len();
        let mut k: usize = 0;
        while k < n
            invariant
                k <= n,
                n == self@.len(),
                forall|j: int| 0 <= j < k ==> (#[trigger] self@[j].id@) != id@,
            decreases n - k,
        {
            if str_eq(self.flows[k].id.as_str(), id) {
                return Some(k);
            }
            k = k + 1;
        }
        None
    }

    /// Append a flow to the timeline. A flow whose id is already present is
    /// refused and the store is left unchanged.
    ///
    /// The refusal check scans every stored id, so an append is linear in
    /// the store's size rather than constant: the price of keeping the
    /// id-uniqueness invariant provable without a hashed index, which a
    /// string-keyed one cannot be here.
    pub fn add_flow(&mut self, flow: Flow) -> (added: bool)
        requires
            old(self).wf(),
            flow.wf(),
        ensures
            final(self).wf(),
            added == !spec_contains_id(old(self)@, flow.id@),
            added ==> final(self)@ == old(self)@.push(flow),
            !added ==> final(self)@ == old(self)@,
    {
        match self.index_of(flow.id.as_str()) {
            Some(_) => false,
            None => {
                self.flows.push(flow);
                true
            },
        }
    }

    /// The flow with this id, if any.
    pub fn get_flow(&self, id: &str) -> (r: Option<&Flow>)
        requires
            self.wf(),
        ensures
            r is Some <==> spec_contains_id(self@, id@),
            r matches Some(f) ==> (f.id@ == id@ && *f == self@[spec_index_of_id(self@, id@)]),
    {
        match self.index_of(id) {
            Some(i) => {
                let f = &self.flows[i];
                proof {
                    lemma_unique_index(self@, id@, i as int);
                }
                Some(f)
            },
            None => None,
        }
    }

    /// Remove the flow with this id, keeping the surviving flows in their
    /// original order.
    pub fn remove_flow(&mut self, id: &str) -> (r: Option<Flow>)
        requires
            old(self).wf(),
        ensures
            final(self).wf(),
            r is Some <==> spec_contains_id(old(self)@, id@),
            r is None ==> final(self)@ == old(self)@,
            r matches Some(f) ==> (f == old(self)@[spec_index_of_id(old(self)@, id@)] && final(self)@
                == old(self)@.remove(spec_index_of_id(old(self)@, id@))),
    {
        match self.index_of(id) {
            Some(i) => {
                proof {
                    lemma_unique_index(self@, id@, i as int);
                }
                let f = self.flows.remove(i);
                Some(f)
            },
            None => None,
        }
    }

    /// The timeline itself: every live flow, in arrival order.
    pub fn iter_flow_timeline(&self) -> (r: &Vec<Flow>)
        ensures
            r@ == self@,
    {
        &self.flows
    }

    /// The flow at this timeline position, if the position is in range.
    pub fn flow_by_index(&self, index: usize) -> (r: Option<&Flow>)
        ensures
            index < self@.len() ==> (r matches Some(f) && *f == self@[index as int]),
            index >= self@.len() ==> r is None,
    {
        if index < self.flows.len() {
            Some(&self.flows[index])
        } else {
            None
        }
    }

    pub fn len(&self) -> (r: usize)
        ensures
            r == self@.len(),
    {
        self.flows.len()
    }
}

/// In a store with unique ids, a position holding the wanted id is the
/// position `spec_index_of_id` names.
proof fn lemma_unique_index(s: Seq<Flow>, id: Seq<char>, i: int)
    requires
        ids_unique(s),
        0 <= i < s.len(),
        s[i].id@ == id,
    ensures
        spec_index_of_id(s, id) == i,
{
    assert(spec_contains_id(s, id));
    let j = spec_index_of_id(s, id);
    assert(0 <= j < s.len() && s[j].id@ == id);
    if i < j {
        assert(s[i].id@ != s[j].id@);
    } else if j < i {
        assert(s[j].id@ != s[i].id@);
    }
}

/// The store after a fresh request flow was appended: the old timeline is a
/// prefix, and the new last flow is active, carries the returned id, and
/// holds the request with no response yet.
pub open spec fn spec_pushed_request_flow(
    old_s: Seq<Flow>,
    new_s: Seq<Flow>,
    id: Seq<char>,
    request: RequestOrResponse,
) -> bool {
    &&& new_s.len() == old_s.len() + 1
    &&& new_s.subrange(0, old_s.len() as int) == old_s
    &&& new_s.last().id@ == id
    &&& new_s.last().content == FlowContent::RequestResponse(HTTPPair { request, response: None })
    &&& new_s.last().is_active
}

/// The request half of the capture tee: wrap the captured request in a fresh
/// flow, deposit it in the store, and hand back the flow's id so the
/// response hook can find it. `None` only when the freshly drawn id
/// collides with a stored one; the store is then left unchanged.
pub fn handle_request_capture(storage: &mut FlowStorage, request: RequestOrResponse) -> (r: Option<
    String,
>)
    requires
        old(storage).wf(),
        request.wf(),
        !request.is_response,
    ensures
        final(storage).wf(),
        r matches Some(id) ==> (spec_pushed_request_flow(old(storage)@, final(storage)@, id@, request)
            && id@.len() == FLOW_ID_LENGTH && (forall|i: int|
            0 <= i < id@.len() ==> is_url_safe_char(#[trigger] id@[i]))),
        r is None ==> final(storage)@ == old(storage)@,
        r is None ==> old(storage)@.len() > 0,
        old(storage)@.len() == 0 ==> r is Some,
{
    let pair = HTTPPair::new_request(request);
    let flow = Flow::new(FlowContent::RequestResponse(pair));
    let id = flow.get_id();
    if storage.add_flow(flow) {
        proof {
            assert(storage@.subrange(0, old(storage)@.len() as int) =~= old(storage)@);
        }
        Some(id)
    } else {
        None
    }
}

/// The response carried forward into the flow: its capture timestamp is
/// clamped so it never precedes the request's.
pub open spec fn spec_clamped_response(response: RequestOrResponse, req_time: u128) -> RequestOrResponse {
    if spec_meta_created_at(response.meta) >= req_time {
        response
    } else {
        RequestOrResponse {
            meta: RequestOrResponseMeta::Response(
                ResponseMeta { created_at: req_time, ..response.meta->Response_0 },
            ),
            ..response
        }
    }
}

/// The flow after its response arrived: the request is untouched and the
/// clamped response fills the empty slot.
pub open spec fn spec_flow_with_response(f: Flow, response: RequestOrResponse) -> Flow {
    let p = f.content->RequestResponse_0;
    let clamped = spec_clamped_response(response, spec_meta_created_at(p.request.meta));
    Flow {
        content: FlowContent::RequestResponse(HTTPPair { request: p.request, response: Some(clamped) }),
        ..f
    }
}

/// The store after a response was attached to the flow carrying `id`.
pub open spec fn spec_attached_response(s: Seq<Flow>, id: Seq<char>, response: RequestOrResponse) -> Seq<
    Flow,
> {
    let i = spec_index_of_id(s, id);
    s.update(i, spec_flow_with_response(s[i], response))
}

/// The response half of the capture tee: attach the captured response to the
/// flow recorded for this connection. When no flow id was remembered, or the
/// flow has since been evicted, the store is left unchanged and the caller
/// forwards the response regardless.
pub fn handle_response_capture(
    storage: &mut FlowStorage,
    flow_id: &Option<String>,
    response: RequestOrResponse,
) -> (attached: bool)
    requires
        old(storage).wf(),
        response.wf(),
        response.is_response,
    ensures
        final(storage).wf(),
        attached == (flow_id matches Some(id) && spec_contains_id(old(storage)@, id@)),
        !attached ==> final(storage)@ == old(storage)@,
        attached ==> final(storage)@ == spec_attached_response(
            old(storage)@,
            flow_id->Some_0@,
            response,
        ),
{
    let id = match flow_id {
        Some(id) => id,
        None => {
            return false;
        },
    };
    let i = match storage.index_of(id.as_str()) {
        Some(i) => i,
        None => {
            return false;
        },
    };
    proof {
        lemma_unique_index(storage@, id@, i as int);
    }
    let flow = storage.flows.remove(i);
    let Flow { id: flow_id_kept, content, is_active } = flow;
    let mut pair = match content {
        FlowContent::RequestResponse(p) => p,
    };
    let req_time = pair.request.meta.unwrap_request_ref().created_at;
    let RequestOrResponse { body, headers, is_response, meta } = response;
    let response_meta = match meta {
        RequestOrResponseMeta::Response(m) => m,
        RequestOrResponseMeta::Request(_) => unreached(),
    };
    let clamped_at = if response_meta.created_at >= req_time {
        response_meta.created_at
    } else {
        req_time
    };
    let clamped = RequestOrResponse {
        body,
        headers,
        is_response,
        meta: RequestOrResponseMeta::Response(ResponseMeta { created_at: clamped_at, ..response_meta }),
    };
    proof {
        assert(clamped == spec_clamped_response(response, req_time));
    }
    pair.add_response(clamped);
    let updated = Flow {
        id: flow_id_kept,
        content: FlowContent::RequestResponse(pair),
        is_active,
    };
    storage.flows.insert(i, updated);
    proof {
        assert(storage@ =~= spec_attached_response(old(storage)@, id@, response));
        assert(forall|k: int|
            0 <= k < storage@.len() ==> (#[trigger] storage@[k]).id@ == old(storage)@[k].id@);
    }
    true
}

/// Law: the store never holds two flows under one id.
pub proof fn lemma_store_ids_unique(s: FlowStorage, i: int, j: int)
    requires
        s.wf(),
        0 <= i < j < s@.len(),
    ensures
        s@[i].id@ != s@[j].id@,
{
}

/// Law: removing one flow keeps every surviving flow, in the original
/// order — position `i` of the shortened timeline is the old occupant of
/// position `i` or `i + 1`, never a reordering.
pub proof fn lemma_remove_keeps_order(s: Seq<Flow>, k: int, i: int)
    requires
        0 <= k < s.len(),
        0 <= i < s.len() - 1,
    ensures
        s.remove(k)[i] == (if i < k {
            s[i]
        } else {
            s[i + 1]
        }),
{
}

/// Law: every completed pair the store holds was answered no earlier than it
/// was asked — the time taken is defined and non-negative.
pub proof fn lemma_stored_pair_time_monotone(s: FlowStorage, i: int)
    requires
        s.wf(),
        0 <= i < s@.len(),
        s@[i].content->RequestResponse_0.response is Some,
    ensures
        spec_meta_created_at(s@[i].content->RequestResponse_0.response->Some_0.meta)
            >= spec_meta_created_at(s@[i].content->RequestResponse_0.request.meta),
{
    assert(s@[i].wf());
}

/// Law, request half of the body round trip: capturing a request stores the
/// message unchanged — in particular the stored flow's request body is
/// exactly the captured body.
pub proof fn lemma_capture_stores_request_unchanged(
    old_s: Seq<Flow>,
    new_s: Seq<Flow>,
    id: Seq<char>,
    request: RequestOrResponse,
)
    requires
        spec_pushed_request_flow(old_s, new_s, id, request),
    ensures
        new_s.last().content->RequestResponse_0.request == request,
        new_s.last().content->RequestResponse_0.request.body == request.body,
        new_s.last().content->RequestResponse_0.response is None,
{
}

/// Law, response half of the body round trip: attaching a response stores
/// its body and headers unchanged (only the capture timestamp may be
/// clamped), and leaves the stored request untouched.
pub proof fn lemma_attach_stores_response_body(s: Seq<Flow>, id: Seq<char>, response: RequestOrResponse)
    requires
        ids_unique(s),
        spec_contains_id(s, id),
    ensures
        ({
            let i = spec_index_of_id(s, id);
            let updated = spec_attached_response(s, id, response)[i];
            &&& updated.content->RequestResponse_0.response matches Some(r) && r.body == response.body
                && r.headers == response.headers
            &&& updated.content->RequestResponse_0.request == s[i].content->RequestResponse_0.request
            &&& updated.id == s[i].id
        }),
{
    let i = spec_index_of_id(s, id);
    assert(0 <= i < s.len() && s[i].id@ == id);
}

} // verus!
