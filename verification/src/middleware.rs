use vstd::prelude::*;

use crate::context::{RequestContext, UserInfo};
use crate::request_id::SharedData;
use crate::text::spec_dec;

verus! {

// ---------------------------------------------------------------------
// The middleware chain.
//
// A request passes through an ordered list of interceptor units; the
// first unit registered is the outermost.  Each unit may transform the
// request and forward it, or decline to forward and produce a response
// directly.  The response then flows back through the units that
// forwarded, in reverse order, each getting a chance to decorate it.
// The runner records a trace of the phases, and its contract proves
// the onion ordering: request phases read outermost-first, response
// phases innermost-first.
// ---------------------------------------------------------------------
/// An in-flight request: its headers and body, plus the two typed
/// extension slots the middleware units fill in.
#[derive(Debug)]
pub struct Request {
    pub headers: Vec<(String, String)>,
    pub body: String,
    pub context: Option<RequestContext>,
    pub shared: Option<SharedData>,
}

/// An outbound response.
#[derive(Debug)]
pub struct Response {
    pub status: u16,
    pub headers: Vec<(String, String)>,
    pub body: String,
}

/// Requests carrying the same observable data: equal header views and
/// equal body, context and extension values.  A copy of a request is
/// equivalent to it.
pub open spec fn req_equiv(a: Request, b: Request) -> bool {
    a.headers@ == b.headers@ && a.body == b.body && a.context == b.context && a.shared == b.shared
}

/// Copies a header list.
fn clone_headers(v: &Vec<(String, String)>) -> (r: Vec<(String, String)>)
    ensures
        r@ == v@,
{
    let n = v.len();
    let mut out: Vec<(String, String)> = Vec::new();
    let mut i: usize = 0;
    while i < n
        invariant
            n == v@.len(),
            0 <= i <= n,
            out@.len() == i,
            forall|j: int| 0 <= j < i ==> out@[j] == v@[j],
        decreases n - i,
    {
        let pair = (v[i].0.clone(), v[i].1.clone());
        proof {
            assert(pair == v@[i as int]);
        }
        out.push(pair);
        i += 1;
    }
    proof {
        assert(out@ =~= v@);
    }
    out
}

impl Clone for Request {
    fn clone(&self) -> (res: Self)
        ensures
            req_equiv(res, *self),
    {
        Request {
            headers: clone_headers(&self.headers),
            body: self.body.clone(),
            context: match &self.context {
                Some(c) => Some(c.clone()),
                None => None,
            },
            shared: match &self.shared {
                Some(s) => Some(s.clone()),
                None => None,
            },
        }
    }
}

impl Clone for Response {
    fn clone(&self) -> (res: Self)
        ensures
            res.status == self.status,
            res.headers@ == self.headers@,
            res.body == self.body,
    {
        Response {
            status: self.status,
            headers: clone_headers(&self.headers),
            body: self.body.clone(),
        }
    }
}

/// The first header value stored under the given name, by exact match.
pub open spec fn spec_header_value(headers: Seq<(String, String)>, name: Seq<char>) -> Option<
    Seq<char>,
>
    decreases headers.len(),
{
    if headers.len() == 0 {
        None
    } else if headers[0].0@ == name {
        Some(headers[0].1@)
    } else {
        spec_header_value(headers.skip(1), name)
    }
}

/// Looks up the first header with the given name.
pub fn header_value(headers: &Vec<(String, String)>, name: &str) -> (r: Option<String>)
    ensures
        r is Some <==> spec_header_value(headers@, name@) is Some,
        r matches Some(v) ==> spec_header_value(headers@, name@) == Some(v@),
{
    let n = headers.len();
    let mut i: usize = 0;
    proof {
        assert(headers@.skip(0) =~= headers@);
    }
    while i < n
        invariant
            n == headers@.len(),
            0 <= i <= n,
            spec_header_value(headers@, name@) == spec_header_value(
                headers@.skip(i as int),
                name@,
            ),
        decreases n - i,
    {
        proof {
            assert(headers@.skip(i as int)[0] == headers@[i as int]);
        }
        if crate::strutil::str_eq(headers[i].0.as_str(), name) {
            return Some(headers[i].1.clone());
        }
        proof {
            assert(headers@.skip(i as int).skip(1) =~= headers@.skip(i + 1));
        }
        i += 1;
    }
    proof {
        assert(headers@.skip(n as int) =~= Seq::<(String, String)>::empty());
    }
    None
}

/// One recorded middleware event: a unit's request phase, the handler,
/// or a unit's response phase, each tagged with the unit's position.
#[derive(Clone, Copy, Debug, PartialEq, Eq, Structural)]
pub enum TraceEvent {
    Request(usize),
    Handler,
    Response(usize),
}

/// An interceptor unit of the chain.
#[derive(Debug)]
pub enum Unit {
    /// Authenticates the request: any authorization header attaches a
    /// stub user, none attaches an anonymous context; the response is
    /// then stamped with the user's fields.
    Auth,
    /// Attaches the given request id; the response is stamped with it.
    RequestId(String),
    /// Observes the authorization headers and forwards unchanged.
    LogAuthorization,
    /// Declines to forward when the named header is missing.
    RequireHeader(String),
}

/// The outcome of a unit's request phase: forward the (possibly
/// transformed) request, or respond directly without forwarding.
pub enum Flow {
    Forward(Request),
    Respond(Response),
}

/// Whether the unit declines to forward this request.
pub open spec fn unit_halts(u: Unit, pre: Request) -> bool {
    match u {
        Unit::RequireHeader(h) => spec_header_value(pre.headers@, h@) is None,
        _ => false,
    }
}

/// How a forwarding unit transforms the request.
pub open spec fn unit_forward_rel(u: Unit, pre: Request, post: Request) -> bool {
    match u {
        Unit::Auth => {
            &&& post.headers@ == pre.headers@
            &&& post.body == pre.body
            &&& post.shared == pre.shared
            &&& match spec_header_value(pre.headers@, "authorization"@) {
                Some(_) => post.context matches Some(c) && c.user_info matches Some(ui)
                    && ui.user_id == 123 && ui.username@ == "test_user"@ && ui.role@ == "admin"@,
                None => post.context matches Some(c) && c.user_info is None,
            }
        },
        Unit::RequestId(id) => {
            &&& post.headers@ == pre.headers@
            &&& post.body == pre.body
            &&& post.context == pre.context
            &&& post.shared matches Some(sd) && sd.user_id is None && sd.request_id == id
        },
        Unit::LogAuthorization => req_equiv(post, pre),
        Unit::RequireHeader(_) => req_equiv(post, pre),
    }
}

/// Equivalent requests look the same to every unit: they halt the same
/// way, and a transformation of one is a transformation of the other.
pub proof fn lemma_unit_equiv(u: Unit, pre: Request, pre2: Request, post: Request, post2: Request)
    requires
        req_equiv(pre, pre2),
        req_equiv(post, post2),
    ensures
        unit_halts(u, pre) == unit_halts(u, pre2),
        unit_forward_rel(u, pre, post) ==> unit_forward_rel(u, pre2, post2),
        forall|resp: Response| #[trigger]
            halt_response_rel(u, pre, resp) ==> halt_response_rel(u, pre2, resp),
{
}

/// The response a halting unit produces instead of forwarding.
pub open spec fn halt_response_rel(u: Unit, pre: Request, resp: Response) -> bool {
    match u {
        Unit::RequireHeader(_) => resp.status == 401 && resp.headers@.len() == 0 && resp.body@
            == "Unauthorized"@,
        _ => false,
    }
}

/// How a unit decorates the response on the way out, given the request
/// state it forwarded.
pub open spec fn unit_response_rel(u: Unit, state: Request, rin: Response, rout: Response) -> bool {
    match u {
        Unit::Auth => match state.context {
            Some(c) => match c.user_info {
                Some(ui) => {
                    &&& rout.status == rin.status
                    &&& rout.body == rin.body
                    &&& rout.headers@.len() == rin.headers@.len() + 3
                    &&& rout.headers@.subrange(0, rin.headers@.len() as int) == rin.headers@
                    &&& rout.headers@[rin.headers@.len() as int].0@ == "axum-User-ID"@
                    &&& rout.headers@[rin.headers@.len() as int].1@ == spec_dec(ui.user_id as int)
                    &&& rout.headers@[rin.headers@.len() as int + 1].0@ == "axum-Username"@
                    &&& rout.headers@[rin.headers@.len() as int + 1].1 == ui.username
                    &&& rout.headers@[rin.headers@.len() as int + 2].0@ == "axum-User-Role"@
                    &&& rout.headers@[rin.headers@.len() as int + 2].1 == ui.role
                },
                None => rout == rin,
            },
            None => rout == rin,
        },
        Unit::RequestId(id) => {
            &&& rout.status == rin.status
            &&& rout.body == rin.body
            &&& rout.headers@.len() == rin.headers@.len() + 1
            &&& rout.headers@.subrange(0, rin.headers@.len() as int) == rin.headers@
            &&& rout.headers@[rin.headers@.len() as int].0@ == "tower-Request-ID"@
            &&& rout.headers@[rin.headers@.len() as int].1 == id
        },
        Unit::LogAuthorization => rout == rin,
        Unit::RequireHeader(_) => rout == rin,
    }
}

/// Runs one unit's request phase.
pub fn unit_request_phase(u: &Unit, req: Request) -> (r: Flow)
    ensures
        !unit_halts(*u, req) ==> (r matches Flow::Forward(q) && unit_forward_rel(*u, req, q)),
        unit_halts(*u, req) ==> (r matches Flow::Respond(resp) && halt_response_rel(
            *u,
            req,
            resp,
        )),
{
    match u {
        Unit::Auth => {
            let auth = header_value(&req.headers, "authorization");
            let user_info = match auth {
                Some(_) => Some(
                    UserInfo {
                        user_id: 123,
                        username: "test_user".to_owned(),
                        role: "admin".to_owned(),
                    },
                ),
                None => None,
            };
            Flow::Forward(
                Request {
                    headers: req.headers,
                    body: req.body,
                    context: Some(RequestContext { user_info }),
                    shared: req.shared,
                },
            )
        },
        Unit::RequestId(id) => Flow::Forward(
            Request {
                headers: req.headers,
                body: req.body,
                context: req.context,
                shared: Some(SharedData { user_id: None, request_id: id.clone() }),
            },
        ),
        Unit::LogAuthorization => {
            // the authorization headers are only observed, never changed
            let _observed = header_value(&req.headers, "authorization");
            Flow::Forward(req)
        },
        Unit::RequireHeader(h) => {
            match header_value(&req.headers, h.as_str()) {
                Some(_) => Flow::Forward(req),
                None => Flow::Respond(
                    Response {
                        status: 401,
                        headers: Vec::new(),
                        body: "Unauthorized".to_owned(),
                    },
                ),
            }
        },
    }
}

/// Runs one unit's response phase, given the request state it forwarded.
pub fn unit_response_phase(u: &Unit, state: &Request, resp: Response) -> (r: Response)
    ensures
        unit_response_rel(*u, *state, resp, r),
{
    match u {
        Unit::Auth => {
            match &state.context {
                Some(c) => match &c.user_info {
                    Some(ui) => {
                        let mut out = resp;
                        let ghost pre = out.headers@;
                        out.headers.push(
                            ("axum-User-ID".to_owned(), crate::text::dec_string_u128(
                                ui.user_id as u128,
                            )),
                        );
                        out.headers.push(("axum-Username".to_owned(), ui.username.clone()));
                        out.headers.push(("axum-User-Role".to_owned(), ui.role.clone()));
                        proof {
                            assert(out.headers@.subrange(0, pre.len() as int) =~= pre);
                        }
                        out
                    },
                    None => resp,
                },
                None => resp,
            }
        },
        Unit::RequestId(id) => {
            let mut out = resp;
            let ghost pre = out.headers@;
            out.headers.push(("tower-Request-ID".to_owned(), id.clone()));
            proof {
                assert(out.headers@.subrange(0, pre.len() as int) =~= pre);
            }
            out
        },
        Unit::LogAuthorization => resp,
        Unit::RequireHeader(_) => resp,
    }
}

/// The request a unit at position `j` receives: the original request
/// for the outermost unit, otherwise the previous unit's output.
pub open spec fn chain_pre(req: Request, states: Seq<Request>, j: int) -> Request {
    if j == 0 {
        req
    } else {
        states[j - 1]
    }
}

/// `states` records, unit by unit, the request each forwarding unit
/// produced, and none of those units declined to forward.
pub open spec fn chain_states_ok(units: Seq<Unit>, req: Request, states: Seq<Request>) -> bool {
    forall|j: int|
        0 <= j < states.len() ==> unit_forward_rel(
            units[j],
            chain_pre(req, states, j),
            #[trigger] states[j],
        ) && !unit_halts(units[j], chain_pre(req, states, j))
}

/// The response after flowing back out through units `k-1 .. 0`.
pub open spec fn resp_chain_rel(
    units: Seq<Unit>,
    states: Seq<Request>,
    k: int,
    rin: Response,
    rout: Response,
) -> bool
    decreases k,
{
    if k <= 0 {
        rout == rin
    } else {
        exists|mid: Response|
            #![trigger unit_response_rel(units[k - 1], states[k - 1], rin, mid)]
            unit_response_rel(units[k - 1], states[k - 1], rin, mid) && resp_chain_rel(
                units,
                states,
                k - 1,
                mid,
                rout,
            )
    }
}

/// The outcome of the request phase over the whole chain.
pub struct PhaseResult {
    /// The request each forwarding unit produced, outermost first.
    pub states: Vec<Request>,
    /// Forward: every unit forwarded, with the innermost request.
    /// Respond: the unit after the recorded states declined, with its
    /// response.
    pub outcome: Flow,
}

/// Runs the request phase of every unit in order, stopping early when
/// one declines to forward.
pub fn chain_request_phase(units: &Vec<Unit>, req: Request) -> (r: PhaseResult)
    ensures
        chain_states_ok(units@, req, r.states@),
        r.outcome matches Flow::Forward(q) ==> (r.states@.len() == units@.len() && req_equiv(
            q,
            chain_pre(req, r.states@, r.states@.len() as int),
        )),
        r.outcome matches Flow::Respond(resp) ==> (r.states@.len() < units@.len() && unit_halts(
            units@[r.states@.len() as int],
            chain_pre(req, r.states@, r.states@.len() as int),
        ) && halt_response_rel(
            units@[r.states@.len() as int],
            chain_pre(req, r.states@, r.states@.len() as int),
            resp,
        )),
{
    let ghost req0 = req;
    let n = units.len();
    let mut states: Vec<Request> = Vec::new();
    let mut cur = req;
    let mut i: usize = 0;
    while i < n
        invariant
            n == units@.len(),
            0 <= i <= n,
            states@.len() == i,
            req0 == req,
            chain_states_ok(units@, req0, states@),
            req_equiv(cur, chain_pre(req0, states@, i as int)),
        decreases n - i,
    {
        let ghost cur0 = cur;
        match unit_request_phase(&units[i], cur) {
            Flow::Forward(q) => {
                let ghost prev = states@;
                let ghost q0 = q;
                states.push(q.clone());
                proof {
                    assert forall|j: int|
                        0 <= j < states@.len() implies unit_forward_rel(
                        units@[j],
                        chain_pre(req0, states@, j),
                        #[trigger] states@[j],
                    ) && !unit_halts(units@[j], chain_pre(req0, states@, j)) by {
                        if j < prev.len() {
                            assert(states@[j] == prev[j]);
                            assert(chain_pre(req0, states@, j) == chain_pre(req0, prev, j));
                        } else {
                            assert(chain_pre(req0, states@, j) == chain_pre(req0, prev, j));
                            lemma_unit_equiv(
                                units@[j],
                                cur0,
                                chain_pre(req0, states@, j),
                                q0,
                                states@[j],
                            );
                        }
                    }
                }
                cur = q;
            },
            Flow::Respond(resp) => {
                proof {
                    lemma_unit_equiv(
                        units@[i as int],
                        cur0,
                        chain_pre(req0, states@, i as int),
                        cur0,
                        cur0,
                    );
                }
                return PhaseResult { states, outcome: Flow::Respond(resp) };
            },
        }
        i += 1;
    }
    PhaseResult { states, outcome: Flow::Forward(cur) }
}

/// Runs the response phase of units `k-1 .. 0`, innermost first.
pub fn chain_response_phase(units: &Vec<Unit>, states: &Vec<Request>, k: usize, resp: Response) -> (
    r: Response)
    requires
        k <= units@.len(),
        k <= states@.len(),
    ensures
        resp_chain_rel(units@, states@, k as int, resp, r),
    decreases k,
{
    if k == 0 {
        resp
    } else {
        let mid = unit_response_phase(&units[k - 1], &states[k - 1], resp);
        let ghost mid0 = mid;
        let out = chain_response_phase(units, states, k - 1, mid);
        proof {
            assert(unit_response_rel(units@[k - 1], states@[k - 1], resp, mid0)
                && resp_chain_rel(units@, states@, k - 1, mid0, out));
        }
        out
    }
}

/// The trace an onion-ordered run leaves: the request phases of the
/// `entered` outermost units in registration order, then either the
/// handler or the declining unit's request phase, then the response
/// phases of the entered units in reverse order.
pub open spec fn spec_onion_trace(entered: int, halted: bool) -> Seq<TraceEvent> {
    Seq::new(entered as nat, |j: int| TraceEvent::Request(j as usize)) + (if halted {
        seq![TraceEvent::Request(entered as usize)]
    } else {
        seq![TraceEvent::Handler]
    }) + Seq::new(entered as nat, |j: int| TraceEvent::Response((entered - 1 - j) as usize))
}

/// Onion ordering, read off the trace: request phases run in
/// registration order (outer before inner), the handler runs once in
/// the middle, and response phases run in reverse registration order
/// (inner before outer).
pub proof fn lemma_onion_trace(entered: int, halted: bool)
    requires
        0 <= entered,
    ensures
        spec_onion_trace(entered, halted).len() == 2 * entered + 1,
        forall|j: int|
            0 <= j < entered ==> #[trigger] spec_onion_trace(entered, halted)[j]
                == TraceEvent::Request(j as usize),
        !halted ==> spec_onion_trace(entered, halted)[entered] == TraceEvent::Handler,
        halted ==> spec_onion_trace(entered, halted)[entered] == TraceEvent::Request(
            entered as usize,
        ),
        forall|j: int|
            0 <= j < entered ==> #[trigger] spec_onion_trace(entered, halted)[entered + 1 + j]
                == TraceEvent::Response((entered - 1 - j) as usize),
{
}

/// What a full run of the chain produced.
pub struct RunResult {
    /// The response handed back to the client.
    pub response: Response,
    /// The recorded order of phases.
    pub trace: Vec<TraceEvent>,
    /// How many units forwarded the request.
    pub entered: usize,
    /// Whether a unit declined to forward (short-circuit).
    pub halted: bool,
}

/// Runs the whole chain around a handler: request phases outermost
/// first, then the handler (unless a unit declined), then response
/// phases innermost first, recording the trace.
#[verifier::rlimit(100)]
#[verifier::spinoff_prover]
pub fn run_chain<F: Fn(Request) -> Response>(units: &Vec<Unit>, req: Request, handler: F) -> (r:
    RunResult)
    requires
        forall|q: Request| #[trigger] call_requires(handler, (q,)),
    ensures
        r.trace@ == spec_onion_trace(r.entered as int, r.halted),
        !r.halted ==> r.entered == units@.len(),
        r.halted ==> r.entered < units@.len(),
        !r.halted ==> exists|states: Seq<Request>|
            #![auto]
            chain_states_ok(units@, req, states) && states.len() == r.entered && (exists|
                hreq: Request,
                hresp: Response,
            |
                #![auto]
                req_equiv(hreq, chain_pre(req, states, r.entered as int)) && call_ensures(
                    handler,
                    (hreq,),
                    hresp,
                ) && resp_chain_rel(units@, states, r.entered as int, hresp, r.response)),
        r.halted ==> exists|states: Seq<Request>|
            #![auto]
            chain_states_ok(units@, req, states) && states.len() == r.entered && (exists|
                hr: Response,
            |
                #![auto]
                unit_halts(units@[r.entered as int], chain_pre(req, states, r.entered as int))
                    && halt_response_rel(
                    units@[r.entered as int],
                    chain_pre(req, states, r.entered as int),
                    hr,
                ) && resp_chain_rel(units@, states, r.entered as int, hr, r.response)),
{
    let phase = chain_request_phase(units, req);
    let states = phase.states;
    let entered = states.len();
    let mut trace: Vec<TraceEvent> = Vec::new();
    let mut i: usize = 0;
    while i < entered
        invariant
            0 <= i <= entered,
            trace@.len() == i,
            forall|j: int| 0 <= j < i ==> trace@[j] == TraceEvent::Request(j as usize),
        decreases entered - i,
    {
        trace.push(TraceEvent::Request(i));
        i += 1;
    }
    let (response, halted) = match phase.outcome {
        Flow::Forward(q) => {
            trace.push(TraceEvent::Handler);
            let ghost q0 = q;
            let hresp = handler(q);
            let ghost hresp0 = hresp;
            let resp = chain_response_phase(units, &states, entered, hresp);
            proof {
                assert(req_equiv(q0, chain_pre(req, states@, entered as int)));
                assert(call_ensures(handler, (q0,), hresp0));
                assert(exists|hreq: Request, hresp2: Response|
                    #![auto]
                    req_equiv(hreq, chain_pre(req, states@, entered as int)) && call_ensures(
                        handler,
                        (hreq,),
                        hresp2,
                    ) && resp_chain_rel(units@, states@, entered as int, hresp2, resp));
            }
            (resp, false)
        },
        Flow::Respond(hr) => {
            trace.push(TraceEvent::Request(entered));
            let ghost hr0 = hr;
            let resp = chain_response_phase(units, &states, entered, hr);
            proof {
                assert(resp_chain_rel(units@, states@, entered as int, hr0, resp));
                assert(exists|hr2: Response|
                    #![auto]
                    unit_halts(units@[entered as int], chain_pre(req, states@, entered as int))
                        && halt_response_rel(
                        units@[entered as int],
                        chain_pre(req, states@, entered as int),
                        hr2,
                    ) && resp_chain_rel(units@, states@, entered as int, hr2, resp));
            }
            (resp, true)
        },
    };
    let mut j: usize = 0;
    while j < entered
        invariant
            0 <= j <= entered,
            trace@.len() == entered + 1 + j,
            forall|k: int| 0 <= k < entered ==> trace@[k] == TraceEvent::Request(k as usize),
            trace@[entered as int] == (if halted {
                TraceEvent::Request(entered as usize)
            } else {
                TraceEvent::Handler
            }),
            forall|k: int|
                0 <= k < j ==> #[trigger] trace@[entered + 1 + k] == TraceEvent::Response(
                    (entered - 1 - k) as usize,
                ),
        decreases entered - j,
    {
        trace.push(TraceEvent::Response(entered - 1 - j));
        j += 1;
    }
    proof {
        lemma_onion_trace(entered as int, halted);
        let spec_tr = spec_onion_trace(entered as int, halted);
        assert forall|ii: int| 0 <= ii < trace@.len() implies trace@[ii] == spec_tr[ii] by {
            if ii < entered {
                assert(trace@[ii] == TraceEvent::Request(ii as usize));
                assert(spec_tr[ii] == TraceEvent::Request(ii as usize));
            } else if ii == entered {
            } else {
                let k = ii - entered - 1;
                assert(trace@[entered + 1 + k] == TraceEvent::Response(
                    (entered - 1 - k) as usize,
                ));
                assert(spec_tr[entered + 1 + k] == TraceEvent::Response(
                    (entered - 1 - k) as usize,
                ));
            }
        }
        assert(trace@ =~= spec_onion_trace(entered as int, halted));
    }
    let result = RunResult { response, trace, entered, halted };
    proof {
        assert(result.entered == entered);
        assert(result.halted == halted);
        assert(result.response == response);
        if halted {
            assert(exists|hr2: Response|
                #![auto]
                unit_halts(units@[entered as int], chain_pre(req, states@, entered as int))
                    && halt_response_rel(
                    units@[entered as int],
                    chain_pre(req, states@, entered as int),
                    hr2,
                ) && resp_chain_rel(units@, states@, entered as int, hr2, response));
            assert(chain_states_ok(units@, req, states@));
        }
        if !result.halted {
            assert(exists|states_w: Seq<Request>|
                #![auto]
                chain_states_ok(units@, req, states_w) && states_w.len() == result.entered && (
                exists|hreq: Request, hresp2: Response|
                    #![auto]
                    req_equiv(hreq, chain_pre(req, states_w, result.entered as int))
                        && call_ensures(handler, (hreq,), hresp2) && resp_chain_rel(
                        units@,
                        states_w,
                        result.entered as int,
                        hresp2,
                        result.response,
                    )));
        } else {
            assert(exists|states_w: Seq<Request>|
                #![auto]
                chain_states_ok(units@, req, states_w) && states_w.len() == result.entered && (
                exists|hr2: Response|
                    #![auto]
                    unit_halts(
                        units@[result.entered as int],
                        chain_pre(req, states_w, result.entered as int),
                    ) && halt_response_rel(
                        units@[result.entered as int],
                        chain_pre(req, states_w, result.entered as int),
                        hr2,
                    ) && resp_chain_rel(
                        units@,
                        states_w,
                        result.entered as int,
                        hr2,
                        result.response,
                    )));
        }
    }
    result
}

} // verus!
