//! One read from the bulk upstream, from the connection to the head of the reply.
use hyper::header::HeaderValue;
use hyper::HeaderMap;
use vstd::prelude::*;
use crate::dial;
use crate::dial::{Stage, StageEnd};
use crate::headers;
use crate::proxy::ReadMethod;
use crate::tls::BulkTarget;

verus! {

/// What was being done when a request could not be made.
pub const BUILDING_REQUEST_MSG: &'static str = "building upstream request";

/// The text of the URI that `http::Uri` makes of a request target; or its error.
pub uninterp spec fn uri_of(target: Seq<char>) -> Result<Seq<char>, Seq<char>>;

/// Reads a request target with the `FromStr` of `http::Uri`, and gives the URI's text. The result
/// depends on the target alone.
#[verifier::external_body]
fn checked_uri(target: &str) -> (r: Result<String, String>)
    ensures
        match r {
            Ok(uri) => uri_of(target@) == Ok::<Seq<char>, Seq<char>>(uri@),
            Err(e) => uri_of(target@) == Err::<Seq<char>, Seq<char>>(e@),
        },
{
    match target.parse::<hyper::Uri>() {
        Ok(uri) => Ok(uri.to_string()),
        Err(e) => Err(e.to_string()),
    }
}

/// A request to the bulk upstream. It has no body.
#[derive(Debug)]
pub struct UpstreamRequest {
    pub method: ReadMethod,
    pub uri: String,
    pub headers: HeaderMap<HeaderValue>,
}

/// What one read is about.
pub ghost struct Errand {
    pub server_name: Seq<char>,
    pub authority: Seq<char>,
    pub token: Seq<char>,
    pub method: ReadMethod,
    pub path: Seq<char>,
    /// The bytes of the engine's `Range` field, where it sent one.
    pub range: Option<Seq<u8>>,
}

impl Errand {
    /// Why no request can be made, where none can: the path is no URI, or the authority or the
    /// token cannot stand in a field.
    pub open spec fn request_failure(self) -> Option<Seq<char>> {
        match uri_of(self.path) {
            Err(e) => Some(BUILDING_REQUEST_MSG@ + ": "@ + e),
            Ok(_) => if headers::value_ok(vstd::utf8::encode_utf8(self.authority))
                && headers::value_ok(vstd::utf8::encode_utf8(headers::bearer(self.token))) {
                None
            } else {
                Some(BUILDING_REQUEST_MSG@ + ": "@ + headers::BAD_VALUE_MSG@)
            },
        }
    }

    /// Whether a request can be made.
    pub open spec fn has_request(self) -> bool {
        self.request_failure() is None
    }

    /// The fields of the request: where it goes, the token, and the range where there is one.
    pub open spec fn request_fields(self) -> Map<Seq<char>, Seq<Seq<u8>>> {
        let always = headers::only("host"@, vstd::utf8::encode_utf8(self.authority)).insert(
            "authorization"@,
            seq![vstd::utf8::encode_utf8(headers::bearer(self.token))],
        );
        match self.range {
            Some(bytes) => always.insert("range"@, seq![bytes]),
            None => always,
        }
    }

    /// Whether `request` is the request of this read.
    pub open spec fn requests(self, request: UpstreamRequest) -> bool {
        &&& request.method == self.method
        &&& uri_of(self.path) == Ok::<Seq<char>, Seq<char>>(request.uri@)
        &&& headers::fields(request.headers) == self.request_fields()
    }
}

/// The bytes of an optional field value.
pub open spec fn bytes_of(value: Option<HeaderValue>) -> Option<Seq<u8>> {
    match value {
        Some(v) => Some(headers::value_bytes(v)),
        None => None,
    }
}

/// Where a read stands.
pub ghost enum FetchStage {
    /// The host is being connected to.
    Connecting,
    /// The TLS handshake is under way.
    Securing,
    /// The HTTP handshake is under way.
    Greeting,
    /// The request is under way.
    Asking,
    /// The head of the reply is there.
    Answered,
    /// The read failed, and why.
    Failed(Seq<char>),
}

/// Where a read stands after the stage it was at ended with `end`.
pub open spec fn fetch_after(errand: Errand, stage: FetchStage, end: StageEnd) -> FetchStage {
    match (stage, end) {
        (FetchStage::Connecting, StageEnd::Done) => FetchStage::Securing,
        (FetchStage::Connecting, _) => FetchStage::Failed(
            dial::stage_failure(Stage::BulkConnect, errand.authority, end)->0,
        ),
        (FetchStage::Securing, StageEnd::Done) => FetchStage::Greeting,
        (FetchStage::Securing, _) => FetchStage::Failed(
            dial::stage_failure(Stage::BulkTls, errand.authority, end)->0,
        ),
        (FetchStage::Greeting, StageEnd::Done) => if errand.has_request() {
            FetchStage::Asking
        } else {
            FetchStage::Failed(errand.request_failure()->0)
        },
        (FetchStage::Greeting, _) => FetchStage::Failed(
            dial::stage_failure(Stage::BulkHttp, errand.authority, end)->0,
        ),
        (FetchStage::Asking, StageEnd::Done) => FetchStage::Answered,
        (FetchStage::Asking, _) => FetchStage::Failed(
            dial::stage_failure(Stage::BulkRequest, errand.authority, end)->0,
        ),
        (FetchStage::Answered, _) => FetchStage::Answered,
        (FetchStage::Failed(why), _) => FetchStage::Failed(why),
    }
}

/// What the caller is to do next.
#[derive(Debug)]
pub enum FetchAction {
    /// Connect to `authority`.
    Connect { authority: String },
    /// Do the TLS handshake with `server_name`.
    Secure { server_name: String },
    /// Do the HTTP handshake.
    Greet,
    /// Send the request and wait for the head of the reply.
    Ask { request: UpstreamRequest },
    /// Nothing: the reply is there.
    Done,
    /// Nothing: the read failed.
    Fail { message: String },
}

/// Whether `action` is what a read at `stage` asks for.
pub open spec fn fetch_asks(errand: Errand, stage: FetchStage, action: FetchAction) -> bool {
    match (stage, action) {
        (FetchStage::Connecting, FetchAction::Connect { authority }) => authority@
            == errand.authority,
        (FetchStage::Securing, FetchAction::Secure { server_name }) => server_name@
            == errand.server_name,
        (FetchStage::Greeting, FetchAction::Greet) => true,
        (FetchStage::Asking, FetchAction::Ask { request }) => errand.requests(request),
        (FetchStage::Answered, FetchAction::Done) => true,
        (FetchStage::Failed(why), FetchAction::Fail { message }) => message@ == why,
        _ => false,
    }
}

#[derive(Debug)]
enum FetchStep {
    Connecting,
    Securing,
    Greeting,
    Asking,
    Answered,
    Failed(String),
}

impl FetchStep {
    spec fn stage(self) -> FetchStage {
        match self {
            FetchStep::Connecting => FetchStage::Connecting,
            FetchStep::Securing => FetchStage::Securing,
            FetchStep::Greeting => FetchStage::Greeting,
            FetchStep::Asking => FetchStage::Asking,
            FetchStep::Answered => FetchStage::Answered,
            FetchStep::Failed(why) => FetchStage::Failed(why@),
        }
    }
}

/// One read from the bulk upstream.
#[derive(Debug)]
pub struct Fetch {
    target: BulkTarget,
    method: ReadMethod,
    path: String,
    range: Option<HeaderValue>,
    step: FetchStep,
}

fn not_built(cause: &str) -> (r: String)
    ensures
        r@ == BUILDING_REQUEST_MSG@ + ": "@ + cause@,
{
    BUILDING_REQUEST_MSG.to_string().concat(": ").concat(cause)
}

proof fn lemma_request_names()
    ensures
        headers::lower_name("host"@),
        headers::lower_name("authorization"@),
        headers::lower_name("range"@),
        "host"@ != "authorization"@,
        "host"@ != "range"@,
        "authorization"@ != "range"@,
{
    reveal_strlit("host");
    reveal_strlit("authorization");
    reveal_strlit("range");
    assert("host"@.len() == 4);
    assert("authorization"@.len() == 13);
    assert("range"@.len() == 5);
}

impl Fetch {
    /// What this read is about.
    pub closed spec fn errand(self) -> Errand {
        Errand {
            server_name: self.target.server_name@,
            authority: self.target.authority@,
            token: self.target.read_token@,
            method: self.method,
            path: self.path@,
            range: bytes_of(self.range),
        }
    }

    /// Where this read stands.
    pub closed spec fn stage(self) -> FetchStage {
        self.step.stage()
    }

    /// Begins to read `path` from `target`, with the engine's `Range` field where it sent one.
    pub fn begin(
        target: &BulkTarget,
        method: ReadMethod,
        path: &str,
        range: Option<HeaderValue>,
    ) -> (r: (Fetch, FetchAction))
        ensures
            r.0.errand() == (Errand {
                server_name: target.server_name@,
                authority: target.authority@,
                token: target.read_token@,
                method,
                path: path@,
                range: bytes_of(range),
            }),
            r.0.stage() == FetchStage::Connecting,
            fetch_asks(r.0.errand(), r.0.stage(), r.1),
    {
        let fetch = Fetch {
            target: BulkTarget {
                server_name: target.server_name.as_str().to_string(),
                authority: target.authority.as_str().to_string(),
                read_token: target.read_token.as_str().to_string(),
            },
            method,
            path: path.to_string(),
            range,
            step: FetchStep::Connecting,
        };
        let action = FetchAction::Connect { authority: target.authority.as_str().to_string() };
        (fetch, action)
    }

    fn request(&self) -> (r: Result<UpstreamRequest, String>)
        ensures
            r is Ok <==> self.errand().has_request(),
            r is Ok ==> self.errand().requests(r->Ok_0),
            r is Err ==> Some(r->Err_0@) == self.errand().request_failure(),
    {
        proof {
            lemma_request_names();
        }
        let uri = match checked_uri(self.path.as_str()) {
            Ok(uri) => uri,
            Err(e) => return Err(not_built(e.as_str())),
        };
        let host = match headers::header_value(self.target.authority.as_str()) {
            Ok(value) => value,
            Err(e) => return Err(not_built(e.as_str())),
        };
        let bearer = headers::bearer_text(self.target.read_token.as_str());
        let authorization = match headers::header_value(bearer.as_str()) {
            Ok(value) => value,
            Err(e) => return Err(not_built(e.as_str())),
        };
        let mut map = headers::new_headers();
        headers::append_header(&mut map, "host", host);
        headers::append_header(&mut map, "authorization", authorization);
        match &self.range {
            Some(range) => headers::append_header(&mut map, "range", headers::copied_value(range)),
            None => {},
        }
        assert(headers::fields(map) =~~= self.errand().request_fields());
        Ok(UpstreamRequest { method: self.method, uri, headers: map })
    }

    fn fail(&mut self, message: String) -> (r: FetchAction)
        ensures
            final(self).errand() == old(self).errand(),
            final(self).stage() == FetchStage::Failed(message@),
            fetch_asks(final(self).errand(), final(self).stage(), r),
    {
        let copy = message.as_str().to_string();
        self.step = FetchStep::Failed(message);
        FetchAction::Fail { message: copy }
    }

    /// Takes in how the stage ended, and says what comes next.
    ///
    /// The request, which carries the token, is handed out only once the TLS handshake is done.
    pub fn advance(&mut self, end: StageEnd) -> (r: FetchAction)
        ensures
            final(self).errand() == old(self).errand(),
            final(self).stage() == fetch_after(old(self).errand(), old(self).stage(), end),
            fetch_asks(final(self).errand(), final(self).stage(), r),
    {
        let stage = match &self.step {
            FetchStep::Connecting => Stage::BulkConnect,
            FetchStep::Securing => Stage::BulkTls,
            FetchStep::Greeting => Stage::BulkHttp,
            FetchStep::Asking => Stage::BulkRequest,
            FetchStep::Answered => return FetchAction::Done,
            FetchStep::Failed(why) => return FetchAction::Fail {
                message: why.as_str().to_string(),
            },
        };
        match dial::stage_result(stage, self.target.authority.as_str(), end) {
            Ok(()) => {},
            Err(message) => return self.fail(message),
        }
        match stage {
            Stage::BulkConnect => {
                self.step = FetchStep::Securing;
                FetchAction::Secure { server_name: self.target.server_name.as_str().to_string() }
            },
            Stage::BulkTls => {
                self.step = FetchStep::Greeting;
                FetchAction::Greet
            },
            Stage::BulkHttp => match self.request() {
                Ok(request) => {
                    self.step = FetchStep::Asking;
                    FetchAction::Ask { request }
                },
                Err(message) => self.fail(message),
            },
            _ => {
                self.step = FetchStep::Answered;
                FetchAction::Done
            },
        }
    }
}

/// Where a read stands after its stages ended with `ends`, one after the other.
pub open spec fn fetch_stage_after(errand: Errand, ends: Seq<StageEnd>) -> FetchStage
    decreases ends.len(),
{
    if ends.len() == 0 {
        FetchStage::Connecting
    } else {
        fetch_after(errand, fetch_stage_after(errand, ends.drop_last()), ends.last())
    }
}

/// Whether the first `n` stages are done.
pub open spec fn all_done(ends: Seq<StageEnd>, n: int) -> bool {
    n <= ends.len() && forall|i: int| 0 <= i < n ==> (#[trigger] ends[i]) is Done
}

proof fn lemma_stages_in_order(errand: Errand, ends: Seq<StageEnd>)
    ensures
        fetch_stage_after(errand, ends) is Connecting <==> ends.len() == 0,
        fetch_stage_after(errand, ends) is Securing <==> ends.len() == 1 && all_done(ends, 1),
        fetch_stage_after(errand, ends) is Greeting <==> ends.len() == 2 && all_done(ends, 2),
        fetch_stage_after(errand, ends) is Asking <==> ends.len() == 3 && all_done(ends, 3)
            && errand.has_request(),
        fetch_stage_after(errand, ends) is Answered <==> ends.len() >= 4 && all_done(ends, 4)
            && errand.has_request(),
    decreases ends.len(),
{
    if ends.len() > 0 {
        let before = ends.drop_last();
        lemma_stages_in_order(errand, before);
        let n = ends.len() as int;
        assert forall|k: int| 0 <= k < n implies all_done(ends, k) == all_done(before, k) by {
            assert(forall|i: int| 0 <= i < k ==> ends[i] == before[i]);
        }
        assert(all_done(ends, n) <==> all_done(before, n - 1) && ends.last() is Done) by {
            if all_done(ends, n) {
                assert(ends[n - 1] is Done);
            }
        }
    }
}

/// The token goes out only over TLS: the request that carries it is handed out only after the
/// connection, the TLS handshake and the HTTP handshake are all done.
pub proof fn law_token_goes_out_only_over_tls(
    errand: Errand,
    ends: Seq<StageEnd>,
    action: FetchAction,
)
    requires
        fetch_asks(errand, fetch_stage_after(errand, ends), action),
        action is Ask,
    ensures
        ends.len() == 3,
        all_done(ends, 3),
        errand.requests(action->request),
{
    lemma_stages_in_order(errand, ends);
}

/// A read is answered exactly where its request can be made and all four stages got done; any
/// other read of four stages or more has failed.
pub proof fn law_fetch_needs_every_stage(errand: Errand, ends: Seq<StageEnd>)
    requires
        ends.len() >= 4,
    ensures
        fetch_stage_after(errand, ends) is Answered <==> errand.has_request() && all_done(ends, 4),
        fetch_stage_after(errand, ends) is Failed <==> !(errand.has_request() && all_done(ends, 4)),
{
    lemma_stages_in_order(errand, ends);
}

} // verus!
