use vstd::prelude::*;
use vstd::string::StringExecFns;
use crate::json::{Json, json_parse, json_render};
use crate::protocol::{
    Compression, ConfigurePayload, ConfigureScope, DecodeError, Format, MetadataQuery, Payload,
    ResponseCodes, SendConfigs, SendMethod, SessionConfig, ValidationError, lemma_written_as_unique,
};
use crate::routes::{build_route, FLUSH_MAILBOX, SEND, START_SESSION};

verus! {

/// What can go wrong in an exchange with the broker.
#[derive(Clone, Copy, Debug, PartialEq, Eq, Hash, Structural)]
pub enum UjuV1Errors {
    /// The broker refused the credentials; authentication may be tried again.
    AuthFailure,
    /// The operation is not valid in the session's present state.
    InvalidState,
    /// The broker answered with a well-formed but impossible sequence.
    ProtocolViolation,
    /// An answer could not be read.
    Decode(DecodeError),
    /// A method or scope does not match the shape of its settings.
    Validation,
}

/// Where a session stands in its lifecycle.
#[derive(Clone, Copy, Debug, PartialEq, Eq, Hash, Structural)]
pub enum SessionState {
    Disconnected,
    SessionStarted,
    Authenticated,
    Closed,
    Faulted,
}

/// The verb of a request.
#[derive(Clone, Copy, Debug, PartialEq, Eq, Hash, Structural)]
pub enum HttpMethod {
    Get,
    Post,
}

/// A request for the transport to deliver.
#[derive(Clone, Debug, PartialEq, Eq, Hash)]
pub struct HttpRequest {
    pub method: HttpMethod,
    pub url: String,
    /// The value of the `Authorization` header, if one is sent.
    pub authorization: Option<String>,
    pub body: Option<String>,
}

/// `p` acknowledges a request: a server message with code
/// `ResponseStatusSuccess`.
pub open spec fn is_ack(p: Payload) -> bool {
    p matches Payload::ServerMessage { code, .. } && code == ResponseCodes::ResponseStatusSuccess
}

/// Whether `p` acknowledges a request.
pub fn check_ack(p: &Payload) -> (r: bool)
    ensures
        r == is_ack(*p),
{
    match p {
        Payload::ServerMessage { code: ResponseCodes::ResponseStatusSuccess, .. } => true,
        _ => false,
    }
}

/// `v` reads, item by item, the documents of `a`.
pub open spec fn items_written_as(v: Seq<Payload>, a: Seq<Json>) -> bool {
    &&& v.len() == a.len()
    &&& forall|i: int|
        0 <= i < v.len() ==> (#[trigger] v[i]).written_as(a[i]) && v[i].wf() && v[i].fits_depth()
}

/// Each document of `a` is the wire form of some payload that can be read.
pub open spec fn all_readable(a: Seq<Json>) -> bool {
    forall|i: int| 0 <= i < a.len() ==> readable(#[trigger] a[i])
}

/// `j` is the wire form of some payload that can be read.
pub open spec fn readable(j: Json) -> bool {
    exists|q: Payload| #[trigger] q.written_as(j) && q.fits_depth()
}

/// The messages that a mailbox answer carries: the answer must be a server
/// message whose `extra` is an array; each element is read as a payload, in
/// order. Reading fails only on an element that is the wire form of no
/// readable payload.
pub fn messages_of(response: Payload) -> (r: Result<Vec<Payload>, UjuV1Errors>)
    ensures
        match response {
            Payload::ServerMessage { extra: Some(Json::Array(a)), .. } => match r {
                Ok(v) => items_written_as(v@, a@) && all_readable(a@),
                Err(e) => e is Decode && !all_readable(a@),
            },
            _ => r == Err::<Vec<Payload>, UjuV1Errors>(UjuV1Errors::ProtocolViolation),
        },
{
    match response {
        Payload::ServerMessage { extra: Some(Json::Array(a)), .. } => {
            let mut a = a;
            let ghost orig = a@;
            let mut out: Vec<Payload> = Vec::new();
            let mut i: usize = 0;
            let n = a.len();
            while 0 < a.len()
                invariant
                    response matches Payload::ServerMessage { extra: Some(Json::Array(x)), .. } && x@
                        == orig,
                    n == orig.len(),
                    i + a.len() == n,
                    a@ == orig.skip(i as int),
                    items_written_as(out@, orig.take(i as int)),
                decreases a.len(),
            {
                let item = a.remove(0);
                assert(item == orig[i as int]);
                match Payload::from_json(item) {
                    Ok(p) => out.push(p),
                    Err(e) => {
                        assert(!readable(orig[i as int]));
                        return Err(UjuV1Errors::Decode(e));
                    },
                }
                assert(a@ =~= orig.skip(i + 1));
                assert(orig.take(i + 1) =~= orig.take(i as int).push(orig[i as int]));
                i += 1;
            }
            assert(orig.take(i as int) =~= orig);
            assert forall|k: int| 0 <= k < orig.len() implies readable(#[trigger] orig[k]) by {
                assert(out@[k].written_as(orig[k]) && out@[k].fits_depth());
            }
            Ok(out)
        },
        _ => Err(UjuV1Errors::ProtocolViolation),
    }
}

/// The session id and heartbeat interval that a session start hands out:
/// some only for an acknowledgement followed by exactly one message, a hello.
pub open spec fn hello_of(ack: Payload, messages: Seq<Payload>) -> Option<(String, u64)> {
    if is_ack(ack) && messages.len() == 1 {
        match messages[0] {
            Payload::Hello { session, heartbeat } => Some((session, heartbeat)),
            _ => None,
        }
    } else {
        None
    }
}

/// The outcome of an authentication: success or refusal only for an
/// acknowledgement followed by exactly one server message with code
/// `AuthSuccess` or `AuthFailure`; anything else violates the protocol.
pub open spec fn auth_result(ack: Payload, messages: Seq<Payload>) -> Result<(), UjuV1Errors> {
    if is_ack(ack) && messages.len() == 1 {
        match messages[0] {
            Payload::ServerMessage { code: ResponseCodes::AuthSuccess, .. } => Ok(()),
            Payload::ServerMessage { code: ResponseCodes::AuthFailure, .. } => Err(
                UjuV1Errors::AuthFailure,
            ),
            _ => Err(UjuV1Errors::ProtocolViolation),
        }
    } else {
        Err(UjuV1Errors::ProtocolViolation)
    }
}

/// The state an authentication leaves a started session in.
pub open spec fn state_after_auth(r: Result<(), UjuV1Errors>) -> SessionState {
    match r {
        Ok(()) => SessionState::Authenticated,
        Err(UjuV1Errors::AuthFailure) => SessionState::SessionStarted,
        Err(_) => SessionState::Faulted,
    }
}

/// The client side of one session: its settings, its lifecycle state, and
/// what the broker handed out when it started.
#[derive(Debug)]
pub struct UjuHttp {
    url: String,
    compression: Compression,
    format: Format,
    session: Option<String>,
    heartbeat_interval: Option<u64>,
    state: SessionState,
}

impl UjuHttp {
    pub closed spec fn spec_url(&self) -> Seq<char> {
        self.url@
    }

    pub closed spec fn spec_compression(&self) -> Compression {
        self.compression
    }

    pub closed spec fn spec_format(&self) -> Format {
        self.format
    }

    pub closed spec fn spec_session(&self) -> Option<String> {
        self.session
    }

    pub closed spec fn spec_heartbeat(&self) -> Option<u64> {
        self.heartbeat_interval
    }

    pub closed spec fn spec_state(&self) -> SessionState {
        self.state
    }

    /// A session id and heartbeat interval are held exactly while the
    /// session is started or authenticated.
    pub open spec fn wf(&self) -> bool {
        match self.spec_state() {
            SessionState::SessionStarted | SessionState::Authenticated => self.spec_session() is Some
                && self.spec_heartbeat() is Some,
            SessionState::Disconnected => self.spec_session() is None && self.spec_heartbeat() is None,
            _ => true,
        }
    }

    /// A client for the broker at `url`, with JSON bodies and no compression.
    pub fn new(url: String) -> (r: UjuHttp)
        ensures
            r.wf(),
            r.spec_url() == url@,
            r.spec_compression() == Compression::Uncompressed,
            r.spec_format() == Format::Json,
            r.spec_state() == SessionState::Disconnected,
    {
        UjuHttp::new_with_opts(url, Compression::Uncompressed, Format::Json)
    }

    /// A client for the broker at `url` with the given settings.
    pub fn new_with_opts(url: String, compression: Compression, format: Format) -> (r: UjuHttp)
        ensures
            r.wf(),
            r.spec_url() == url@,
            r.spec_compression() == compression,
            r.spec_format() == format,
            r.spec_state() == SessionState::Disconnected,
    {
        UjuHttp { url, compression, format, session: None, heartbeat_interval: None, state: SessionState::Disconnected }
    }

    /// The lifecycle state.
    pub fn state(&self) -> (r: SessionState)
        ensures
            r == self.spec_state(),
    {
        self.state
    }

    /// The session id, once the session has started.
    pub fn session(&self) -> (r: Option<&String>)
        ensures
            r == match self.spec_session() {
                Some(s) => Some(&s),
                None => None::<&String>,
            },
    {
        match &self.session {
            Some(s) => Some(s),
            None => None,
        }
    }

    /// The heartbeat interval in milliseconds, once the session has started.
    pub fn heartbeat_interval(&self) -> (r: Option<u64>)
        ensures
            r == self.spec_heartbeat(),
    {
        self.heartbeat_interval
    }

    /// The settings the session asks for: the client's format and
    /// compression, no metadata.
    pub open spec fn spec_config(&self) -> SessionConfig {
        SessionConfig { format: self.spec_format(), compression: self.spec_compression(), metadata: None }
    }

    fn config(&self) -> (r: SessionConfig)
        ensures
            r == self.spec_config(),
    {
        SessionConfig { format: self.format, compression: self.compression, metadata: None }
    }

    /// The `Authorization` header value for a session id: `Session <id>`.
    pub fn authorization(session: &String) -> (r: String)
        ensures
            r@ == "Session "@ + session@,
    {
        String::from_str("Session ").concat(session.as_str())
    }

    /// The request that starts a session: a POST of the session settings to
    /// the start route; only valid before the session has started.
    pub fn start_session_request(&self) -> (r: Result<HttpRequest, UjuV1Errors>)
        ensures
            self.spec_state() == SessionState::Disconnected <==> r is Ok,
            r is Err ==> r == Err::<HttpRequest, UjuV1Errors>(UjuV1Errors::InvalidState),
            r matches Ok(q) ==> q.method == HttpMethod::Post && q.url@ == self.spec_url() + "/api/v1"@
                + "/start-session"@ && q.authorization is None && (q.body matches Some(b) && exists|j: Json|
                self.spec_config().written_as(j) && b@ == json_render(j)),
    {
        if self.state != SessionState::Disconnected {
            return Err(UjuV1Errors::InvalidState);
        }
        let j = self.config().to_json();
        let body = crate::json::render_json(&j);
        Ok(HttpRequest {
            method: HttpMethod::Post,
            url: build_route(self.url.as_str(), START_SESSION),
            authorization: None,
            body: Some(body),
        })
    }

    /// The mailbox is open to polling: the session has started and is not
    /// closed or faulted, so a live session id is held.
    pub open spec fn can_poll(&self) -> bool {
        self.spec_state() == SessionState::SessionStarted || self.spec_state() == SessionState::Authenticated
    }

    /// The request that drains the mailbox: a GET of the mailbox route with
    /// the session header; only valid with a live session id.
    pub fn mailbox_request(&self) -> (r: Result<HttpRequest, UjuV1Errors>)
        requires
            self.wf(),
        ensures
            self.can_poll() <==> r is Ok,
            self.spec_session() is None ==> r is Err,
            r is Err ==> r == Err::<HttpRequest, UjuV1Errors>(UjuV1Errors::InvalidState),
            r matches Ok(q) ==> q.method == HttpMethod::Get && q.url@ == self.spec_url() + "/api/v1"@
                + "/flush-mailbox"@ && q.body is None && (q.authorization matches Some(h) && h@
                == "Session "@ + self.spec_session()->Some_0@),
    {
        if !(self.state == SessionState::SessionStarted || self.state == SessionState::Authenticated) {
            return Err(UjuV1Errors::InvalidState);
        }
        let session = match &self.session {
            Some(s) => s,
            None => return Err(UjuV1Errors::InvalidState),
        };
        Ok(HttpRequest {
            method: HttpMethod::Get,
            url: build_route(self.url.as_str(), FLUSH_MAILBOX),
            authorization: Some(UjuHttp::authorization(session)),
            body: None,
        })
    }

    /// The read that completes a session start: a GET of the mailbox route,
    /// without a session header, for the hello that hands out the session
    /// id; only valid before the session has started.
    pub fn hello_request(&self) -> (r: Result<HttpRequest, UjuV1Errors>)
        ensures
            self.spec_state() == SessionState::Disconnected <==> r is Ok,
            r is Err ==> r == Err::<HttpRequest, UjuV1Errors>(UjuV1Errors::InvalidState),
            r matches Ok(q) ==> q.method == HttpMethod::Get && q.url@ == self.spec_url() + "/api/v1"@
                + "/flush-mailbox"@ && q.body is None && q.authorization is None,
    {
        if self.state != SessionState::Disconnected {
            return Err(UjuV1Errors::InvalidState);
        }
        Ok(HttpRequest {
            method: HttpMethod::Get,
            url: build_route(self.url.as_str(), FLUSH_MAILBOX),
            authorization: None,
            body: None,
        })
    }

    /// Takes in the answers to a session start: the acknowledgement and the
    /// mailbox's messages. A hello stores the session id and heartbeat
    /// interval and starts the session; anything else faults it.
    pub fn start_session(&mut self, ack: Payload, messages: Vec<Payload>) -> (r: Result<(), UjuV1Errors>)
        requires
            old(self).wf(),
        ensures
            final(self).wf(),
            final(self).spec_url() == old(self).spec_url(),
            final(self).spec_format() == old(self).spec_format(),
            final(self).spec_compression() == old(self).spec_compression(),
            old(self).spec_state() != SessionState::Disconnected ==> r == Err::<(), UjuV1Errors>(
                UjuV1Errors::InvalidState,
            ) && *final(self) == *old(self),
            old(self).spec_state() == SessionState::Disconnected ==> match hello_of(ack, messages@) {
                Some((s, h)) => r is Ok && final(self).spec_state() == SessionState::SessionStarted
                    && final(self).spec_session() == Some(s) && final(self).spec_heartbeat() == Some(h),
                None => r == Err::<(), UjuV1Errors>(UjuV1Errors::ProtocolViolation)
                    && final(self).spec_state() == SessionState::Faulted && final(self).spec_session() is None
                    && final(self).spec_heartbeat() is None,
            },
    {
        if self.state != SessionState::Disconnected {
            return Err(UjuV1Errors::InvalidState);
        }
        if !check_ack(&ack) || messages.len() != 1 {
            self.state = SessionState::Faulted;
            return Err(UjuV1Errors::ProtocolViolation);
        }
        let mut messages = messages;
        let ghost ms = messages@;
        let first = messages.remove(0);
        assert(first == ms[0]);
        match first {
            Payload::Hello { session, heartbeat } => {
                self.session = Some(session);
                self.heartbeat_interval = Some(heartbeat);
                self.state = SessionState::SessionStarted;
                Ok(())
            },
            _ => {
                self.state = SessionState::Faulted;
                Err(UjuV1Errors::ProtocolViolation)
            },
        }
    }

    /// Reads a mailbox answer from its text: see [`messages_of`].
    pub fn fetch_messages(text: &str) -> (r: Result<Vec<Payload>, UjuV1Errors>)
        ensures
            r matches Ok(v) ==> exists|p: Payload|
                Payload::decoded_from(p, text@) && (p matches Payload::ServerMessage {
                    extra: Some(Json::Array(a)),
                    ..
                } && items_written_as(v@, a@)),
            forall|p: Payload|
                #![trigger p.written_as(json_parse(text@)->Some_0)]
                json_parse(text@) is Some && p.written_as(json_parse(text@)->Some_0) && p.wf() && !(
                p is Send) && !(p matches Payload::ServerMessage { extra: Some(Json::Array(_)), .. }) ==> r
                    == Err::<Vec<Payload>, UjuV1Errors>(UjuV1Errors::ProtocolViolation),
            forall|p: Payload|
                #![trigger p.written_as(json_parse(text@)->Some_0)]
                json_parse(text@) is Some && p.written_as(json_parse(text@)->Some_0) && p.wf() && (
                p matches Payload::ServerMessage { extra: Some(Json::Array(a)), .. } && all_readable(
                    a@,
                )) ==> r is Ok,
            forall|p: Payload|
                #![trigger p.written_as(json_parse(text@)->Some_0)]
                json_parse(text@) is Some && p.written_as(json_parse(text@)->Some_0) && p.wf() && (
                p matches Payload::ServerMessage { extra: Some(Json::Array(a)), .. } && !all_readable(
                    a@,
                )) ==> r matches Err(UjuV1Errors::Decode(_)),
            json_parse(text@) matches Some(j) && (forall|p: Payload| p.wf() ==> !#[trigger] p.written_as(j))
                ==> r matches Err(UjuV1Errors::Decode(_)),
            json_parse(text@) is None ==> r == Err::<Vec<Payload>, UjuV1Errors>(
                UjuV1Errors::Decode(DecodeError::NotJson),
            ),
    {
        match Payload::decode(text) {
            Ok(p) => {
                let ghost q = p;
                proof {
                    assert forall|x: Payload|
                        json_parse(text@) is Some && x.written_as(json_parse(text@)->Some_0) && x.wf()
                            && !(x is Send) implies x == q by {
                        lemma_written_as_unique(x, q, json_parse(text@)->Some_0);
                    }
                }
                let r = messages_of(p);
                assert(r matches Ok(v) ==> Payload::decoded_from(q, text@));
                r
            },
            Err(e) => {
                proof {
                    assert forall|x: Payload|
                        json_parse(text@) is Some && #[trigger] x.written_as(json_parse(text@)->Some_0) implies x is Send by {
                        if !(x is Send) {
                            assert(x.fits_depth());
                        }
                    }
                }
                Err(UjuV1Errors::Decode(e))
            },
        }
    }

    /// Whether authentication may be asked for now.
    pub open spec fn can_authenticate(&self) -> bool {
        self.spec_state() == SessionState::SessionStarted
    }

    /// The request that authenticates: a POST to the send route, with the
    /// session header, of an authenticate message with `credentials` and the
    /// session settings; only valid once the session has started and before
    /// it is authenticated.
    pub fn authenticate_request(&self, credentials: String) -> (r: Result<HttpRequest, UjuV1Errors>)
        requires
            self.wf(),
        ensures
            self.can_authenticate() <==> r is Ok,
            r is Err ==> r == Err::<HttpRequest, UjuV1Errors>(UjuV1Errors::InvalidState),
            r matches Ok(q) ==> q.method == HttpMethod::Post && q.url@ == self.spec_url() + "/api/v1"@
                + "/send"@ && (q.authorization matches Some(h) && h@ == "Session "@
                + self.spec_session()->Some_0@) && (q.body matches Some(b) && exists|j: Json|
                Payload::Authenticate { auth: credentials, config: self.spec_config() }.written_as(j)
                    && b@ == json_render(j)),
    {
        if self.state != SessionState::SessionStarted {
            return Err(UjuV1Errors::InvalidState);
        }
        let session = match &self.session {
            Some(s) => s,
            None => return Err(UjuV1Errors::InvalidState),
        };
        let authorization = UjuHttp::authorization(session);
        let message = Payload::Authenticate { auth: credentials, config: self.config() };
        Ok(HttpRequest {
            method: HttpMethod::Post,
            url: build_route(self.url.as_str(), SEND),
            authorization: Some(authorization),
            body: Some(message.encode()),
        })
    }

    /// Takes in the answers to an authentication: the acknowledgement and
    /// the mailbox's messages. Success authenticates the session, a refusal
    /// leaves it started so that authentication can be tried again, and
    /// anything else faults it.
    pub fn authenticate(&mut self, ack: Payload, messages: Vec<Payload>) -> (r: Result<(), UjuV1Errors>)
        requires
            old(self).wf(),
        ensures
            final(self).wf(),
            !old(self).can_authenticate() ==> r == Err::<(), UjuV1Errors>(UjuV1Errors::InvalidState)
                && *final(self) == *old(self),
            old(self).can_authenticate() ==> r == auth_result(ack, messages@) && final(self).spec_state()
                == state_after_auth(r) && final(self).spec_session() == old(self).spec_session()
                && final(self).spec_heartbeat() == old(self).spec_heartbeat()
                && final(self).spec_url() == old(self).spec_url()
                && final(self).spec_format() == old(self).spec_format()
                && final(self).spec_compression() == old(self).spec_compression(),
    {
        if self.state != SessionState::SessionStarted {
            return Err(UjuV1Errors::InvalidState);
        }
        if !check_ack(&ack) || messages.len() != 1 {
            self.state = SessionState::Faulted;
            return Err(UjuV1Errors::ProtocolViolation);
        }
        match &messages[0] {
            Payload::ServerMessage { code: ResponseCodes::AuthSuccess, .. } => {
                self.state = SessionState::Authenticated;
                Ok(())
            },
            Payload::ServerMessage { code: ResponseCodes::AuthFailure, .. } => Err(
                UjuV1Errors::AuthFailure,
            ),
            _ => {
                self.state = SessionState::Faulted;
                Err(UjuV1Errors::ProtocolViolation)
            },
        }
    }

    /// The request that sends a message: a POST to the send route, with the
    /// session header; only valid once authenticated, and only when the
    /// settings have the shape that `method` asks for.
    pub fn send_request(
        &self,
        data: String,
        method: SendMethod,
        config: SendConfigs,
        query: MetadataQuery,
    ) -> (r: Result<HttpRequest, UjuV1Errors>)
        requires
            self.wf(),
        ensures
            self.spec_state() != SessionState::Authenticated ==> r == Err::<HttpRequest, UjuV1Errors>(
                UjuV1Errors::InvalidState,
            ),
            self.spec_state() == SessionState::Authenticated && !config.fits(method) ==> r == Err::<
                HttpRequest,
                UjuV1Errors,
            >(UjuV1Errors::Validation),
            self.spec_state() == SessionState::Authenticated && config.fits(method) ==> (r matches Ok(q)
                && q.method == HttpMethod::Post && q.url@ == self.spec_url() + "/api/v1"@ + "/send"@
                && (q.authorization matches Some(h) && h@ == "Session "@ + self.spec_session()->Some_0@)
                && (q.body matches Some(b) && exists|j: Json|
                Payload::Send { method, data, config, query }.written_as(j) && b@ == json_render(j))),
    {
        if self.state != SessionState::Authenticated {
            return Err(UjuV1Errors::InvalidState);
        }
        let session = match &self.session {
            Some(s) => s,
            None => return Err(UjuV1Errors::InvalidState),
        };
        let message = match Payload::send(method, data, config, query) {
            Ok(m) => m,
            Err(ValidationError) => return Err(UjuV1Errors::Validation),
        };
        Ok(HttpRequest {
            method: HttpMethod::Post,
            url: build_route(self.url.as_str(), SEND),
            authorization: Some(UjuHttp::authorization(session)),
            body: Some(message.encode()),
        })
    }

    /// The request that configures a scope: a POST to the send route, with
    /// the session header; only valid once the session has started and
    /// before it ends, and only when the settings fit the scope.
    pub fn configure_request(&self, scope: ConfigureScope, config: ConfigurePayload) -> (r: Result<
        HttpRequest,
        UjuV1Errors,
    >)
        requires
            self.wf(),
        ensures
            !(self.spec_state() == SessionState::SessionStarted || self.spec_state()
                == SessionState::Authenticated) ==> r == Err::<HttpRequest, UjuV1Errors>(
                UjuV1Errors::InvalidState,
            ),
            (self.spec_state() == SessionState::SessionStarted || self.spec_state()
                == SessionState::Authenticated) && !config.fits(scope) ==> r == Err::<
                HttpRequest,
                UjuV1Errors,
            >(UjuV1Errors::Validation),
            (self.spec_state() == SessionState::SessionStarted || self.spec_state()
                == SessionState::Authenticated) && config.fits(scope) ==> (r matches Ok(q) && q.method
                == HttpMethod::Post && q.url@ == self.spec_url() + "/api/v1"@ + "/send"@
                && (q.authorization matches Some(h) && h@ == "Session "@ + self.spec_session()->Some_0@)
                && (q.body matches Some(b) && exists|j: Json|
                Payload::Configure { scope, config }.written_as(j) && b@ == json_render(j))),
    {
        if !(self.state == SessionState::SessionStarted || self.state == SessionState::Authenticated) {
            return Err(UjuV1Errors::InvalidState);
        }
        let session = match &self.session {
            Some(s) => s,
            None => return Err(UjuV1Errors::InvalidState),
        };
        let message = match Payload::configure(scope, config) {
            Ok(m) => m,
            Err(ValidationError) => return Err(UjuV1Errors::Validation),
        };
        Ok(HttpRequest {
            method: HttpMethod::Post,
            url: build_route(self.url.as_str(), SEND),
            authorization: Some(UjuHttp::authorization(session)),
            body: Some(message.encode()),
        })
    }

    /// A keepalive ping with `nonce`; only while authenticated.
    pub fn ping(&self, nonce: String) -> (r: Result<Payload, UjuV1Errors>)
        ensures
            self.spec_state() == SessionState::Authenticated ==> r == Ok::<Payload, UjuV1Errors>(
                Payload::Ping { nonce },
            ),
            self.spec_state() != SessionState::Authenticated ==> r == Err::<Payload, UjuV1Errors>(
                UjuV1Errors::InvalidState,
            ),
    {
        if self.state == SessionState::Authenticated {
            Ok(Payload::Ping { nonce })
        } else {
            Err(UjuV1Errors::InvalidState)
        }
    }

    /// Ends the session from any state; closing twice is the same as once.
    pub fn close(&mut self)
        ensures
            final(self).wf(),
            final(self).spec_state() == SessionState::Closed,
            final(self).spec_session() is None,
            final(self).spec_heartbeat() is None,
            final(self).spec_url() == old(self).spec_url(),
            final(self).spec_format() == old(self).spec_format(),
            final(self).spec_compression() == old(self).spec_compression(),
    {
        self.state = SessionState::Closed;
        self.session = None;
        self.heartbeat_interval = None;
    }
}

/// Authentication is not valid before a session has started; a refused
/// authentication leaves the session started, where it may be tried again;
/// and a retry answered with an acknowledgement and an `AuthSuccess`
/// message authenticates the session.
pub proof fn lemma_auth_retry(
    c: UjuHttp,
    ack: Payload,
    messages: Seq<Payload>,
    retry_ack: Payload,
    retry_messages: Seq<Payload>,
)
    ensures
        c.spec_state() == SessionState::Disconnected ==> !c.can_authenticate(),
        auth_result(ack, messages) == Err::<(), UjuV1Errors>(UjuV1Errors::AuthFailure) ==> state_after_auth(
            auth_result(ack, messages),
        ) == SessionState::SessionStarted,
        is_ack(retry_ack) && retry_messages.len() == 1 && (retry_messages[0] matches Payload::ServerMessage {
            code: ResponseCodes::AuthSuccess,
            ..
        }) ==> auth_result(retry_ack, retry_messages) == Ok::<(), UjuV1Errors>(()) && state_after_auth(
            auth_result(retry_ack, retry_messages),
        ) == SessionState::Authenticated,
{
}

/// Whether `reply` answers a ping with `nonce`: a pong with the same nonce.
pub fn pong_matches(nonce: &String, reply: &Payload) -> (r: bool)
    ensures
        r == (reply matches Payload::Pong { nonce: n } && n@ == nonce@),
{
    match reply {
        Payload::Pong { nonce: n } => *n == *nonce,
        _ => false,
    }
}

} // verus!
