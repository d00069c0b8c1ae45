use vstd::prelude::*;

use crate::text::{decimal, push_decimal, str_eq, trim, trimmed};

verus! {

/// The fixed port of the static image and FLV proxy.
pub const STATIC_PROXY_PORT: u16 = 34721;

/// The fixed port of the debugging FLV proxy.
pub const DEBUG_PROXY_PORT: u16 = 34719;

/// A request to open a proxy session for one upstream FLV stream.
pub struct StartFlvProxySessionPayload {
    pub upstream_url: String,
    pub platform: String,
    pub room_id: Option<String>,
}

/// The id of a new proxy session and the local URL that plays it.
pub struct StartFlvProxySessionResponse {
    pub session_id: String,
    pub proxy_url: String,
}

pub open spec fn base_url_of(port: u16) -> Seq<char> {
    "http://127.0.0.1:"@ + decimal(port as nat)
}

pub open spec fn session_url_of(port: u16) -> Seq<char> {
    base_url_of(port) + "/live.flv"@
}

/// `http://127.0.0.1:<port>`.
pub fn local_base_url(port: u16) -> (r: String)
    ensures
        r@ == base_url_of(port),
{
    let mut s = String::from_str("http://127.0.0.1:");
    push_decimal(&mut s, port as u64);
    s
}

/// `http://127.0.0.1:<port>/live.flv`.
pub fn session_proxy_url(port: u16) -> (r: String)
    ensures
        r@ == session_url_of(port),
{
    let mut s = local_base_url(port);
    s.append("/live.flv");
    s
}

/// The upstream URL of a session request, trimmed; a blank one is refused.
pub fn session_upstream_url(payload: &StartFlvProxySessionPayload) -> (r: Result<String, String>)
    ensures
        trimmed(payload.upstream_url@).len() == 0 ==> r is Err && r->Err_0@
            == "upstream_url is required"@,
        trimmed(payload.upstream_url@).len() > 0 ==> r is Ok && r->Ok_0@ == trimmed(
            payload.upstream_url@,
        ),
{
    let u = trim(payload.upstream_url.as_str());
    if u.as_str().unicode_len() == 0 {
        Err(String::from_str("upstream_url is required"))
    } else {
        Ok(u)
    }
}

/// The error body for an image request without a URL, if it has none.
pub fn image_query_error(url: &str) -> (r: Option<String>)
    ensures
        url@.len() == 0 ==> r is Some && r->0@ == "Missing url query parameter"@,
        url@.len() > 0 ==> r is None,
{
    if url.unicode_len() == 0 {
        Some(String::from_str("Missing url query parameter"))
    } else {
        None
    }
}

/// The content type of a relayed image: the upstream's, else
/// `application/octet-stream`.
pub fn image_content_type(upstream: Option<&str>) -> (r: String)
    ensures
        match upstream {
            Some(t) => r@ == t@,
            None => r@ == "application/octet-stream"@,
        },
{
    match upstream {
        Some(t) => String::from_str(t),
        None => String::from_str("application/octet-stream"),
    }
}

/// One running proxy session: its server's stop handle, its port and what it relays.
pub struct FlvProxySession<H> {
    pub session_id: String,
    pub handle: H,
    pub port: u16,
    pub upstream_url: String,
    pub platform: String,
    pub room_id: Option<String>,
}

/// The running proxy sessions, by id.
pub struct FlvProxySessionManager<H> {
    pub sessions: Vec<FlvProxySession<H>>,
}

impl<H> FlvProxySessionManager<H> {
    pub open spec fn ids(&self) -> Seq<Seq<char>> {
        self.sessions@.map_values(|s: FlvProxySession<H>| s.session_id@)
    }

    pub open spec fn wf(&self) -> bool {
        self.ids().no_duplicates()
    }

    pub fn new() -> (r: Self)
        ensures
            r.wf(),
            r.sessions@.len() == 0,
    {
        FlvProxySessionManager { sessions: Vec::new() }
    }

    pub fn len(&self) -> (r: usize)
        ensures
            r == self.sessions@.len(),
    {
        self.sessions.len()
    }

    fn position(&self, session_id: &str) -> (r: Option<usize>)
        ensures
            match r {
                Some(i) => i < self.sessions@.len() && self.sessions@[i as int].session_id@
                    == session_id@ && self.ids().contains(session_id@),
                None => !self.ids().contains(session_id@),
            },
    {
        let mut i: usize = 0;
        while i < self.sessions.len()
            invariant
                i <= self.sessions@.len(),
                forall|k: int| 0 <= k < i ==> self.sessions@[k].session_id@ != session_id@,
            decreases self.sessions@.len() - i,
        {
            if str_eq(self.sessions[i].session_id.as_str(), session_id) {
                assert(self.ids()[i as int] == session_id@);
                return Some(i);
            }
            i = i + 1;
        }
        proof {
            if self.ids().contains(session_id@) {
                let k = choose|k: int| 0 <= k < self.ids().len() && self.ids()[k] == session_id@;
                assert(self.sessions@[k].session_id@ == session_id@);
            }
        }
        None
    }

    /// Whether a session with this id runs.
    pub fn contains(&self, session_id: &str) -> (r: bool)
        ensures
            r == self.ids().contains(session_id@),
    {
        self.position(session_id).is_some()
    }

    /// Records a session whose server is bound to `port`, and answers with its
    /// id and local URL. An id that is already in use is refused and the
    /// handle handed back.
    pub fn register(
        &mut self,
        session_id: String,
        handle: H,
        port: u16,
        upstream_url: String,
        payload: &StartFlvProxySessionPayload,
    ) -> (r: Result<StartFlvProxySessionResponse, H>)
        requires
            old(self).wf(),
        ensures
            final(self).wf(),
            old(self).ids().contains(session_id@) ==> r == Err::<StartFlvProxySessionResponse, H>(handle)
                && final(self).sessions@ == old(self).sessions@,
            !old(self).ids().contains(session_id@) ==> {
                &&& r is Ok
                &&& r->Ok_0.session_id@ == session_id@
                &&& r->Ok_0.proxy_url@ == session_url_of(port)
                &&& final(self).sessions@.len() == old(self).sessions@.len() + 1
                &&& final(self).sessions@.drop_last() == old(self).sessions@
                &&& final(self).sessions@.last().session_id == session_id
                &&& final(self).sessions@.last().port == port
                &&& final(self).sessions@.last().upstream_url == upstream_url
                &&& final(self).sessions@.last().platform == payload.platform
                &&& final(self).sessions@.last().room_id == payload.room_id
            },
    {
        if self.contains(session_id.as_str()) {
            return Err(handle);
        }
        let ghost id = session_id@;
        let room_id = match &payload.room_id {
            Some(r) => Some(r.clone()),
            None => None,
        };
        let response = StartFlvProxySessionResponse {
            session_id: session_id.clone(),
            proxy_url: session_proxy_url(port),
        };
        self.sessions.push(
            FlvProxySession {
                session_id,
                handle,
                port,
                upstream_url,
                platform: payload.platform.clone(),
                room_id,
            },
        );
        assert(self.ids() =~= old(self).ids().push(id));
        assert(self.sessions@.drop_last() =~= old(self).sessions@);
        Ok(response)
    }

    /// Removes the session with this id and hands it back to be shut down;
    /// an unknown id changes nothing.
    pub fn remove(&mut self, session_id: &str) -> (r: Option<FlvProxySession<H>>)
        requires
            old(self).wf(),
        ensures
            final(self).wf(),
            !old(self).ids().contains(session_id@) ==> r is None && final(self).sessions@
                == old(self).sessions@,
            old(self).ids().contains(session_id@) ==> r is Some && r->0.session_id@ == session_id@
                && !final(self).ids().contains(session_id@) && exists|i: int|
                0 <= i < old(self).sessions@.len() && final(self).sessions@ == old(
                    self,
                ).sessions@.remove(i) && r->0 == #[trigger] old(self).sessions@[i],
    {
        match self.position(session_id) {
            None => None,
            Some(i) => {
                let ghost before = self.ids();
                let ghost old_sessions = self.sessions@;
                let e = self.sessions.remove(i);
                assert(self.sessions@ == old_sessions.remove(i as int));
                assert(e == old_sessions[i as int]);
                assert(self.ids() =~= before.remove(i as int));
                proof {
                    if self.ids().contains(session_id@) {
                        let k = choose|k: int|
                            0 <= k < self.ids().len() && self.ids()[k] == session_id@;
                        if k < i {
                            assert(before[k] == before[i as int]);
                        } else {
                            assert(before[k + 1] == before[i as int]);
                        }
                    }
                }
                Some(e)
            },
        }
    }

    /// Removes every session and hands them all back, in order.
    pub fn drain(&mut self) -> (r: Vec<FlvProxySession<H>>)
        requires
            old(self).wf(),
        ensures
            final(self).wf(),
            final(self).sessions@.len() == 0,
            r@ == old(self).sessions@,
    {
        let mut taken: Vec<FlvProxySession<H>> = Vec::new();
        std::mem::swap(&mut taken, &mut self.sessions);
        assert(self.ids() =~= Seq::<Seq<char>>::empty());
        taken
    }
}

/// The slot of the debugging proxy's server handle.
pub struct ProxyServerHandle<H> {
    pub handle: Option<H>,
}

impl<H> ProxyServerHandle<H> {
    pub fn new() -> (r: Self)
        ensures
            r.handle is None,
    {
        ProxyServerHandle { handle: None }
    }

    /// Takes the handle out, leaving the slot empty.
    pub fn take(&mut self) -> (r: Option<H>)
        ensures
            r == old(self).handle,
            final(self).handle is None,
    {
        let mut h: Option<H> = None;
        std::mem::swap(&mut h, &mut self.handle);
        h
    }

    /// Puts a handle in the slot.
    pub fn set(&mut self, handle: H)
        ensures
            final(self).handle == Some(handle),
    {
        self.handle = Some(handle);
    }
}

/// How binding the static proxy's port went.
pub enum BindOutcome {
    Bound,
    AddressInUse,
    Failed(String),
}

/// What a start of the static proxy does: answer at once with the base URL
/// (`Some`), or bind the port (`None`). Something that already listens on the
/// port is taken for a running instance.
pub open spec fn static_preflight_of(listening: bool) -> Option<Seq<char>> {
    if listening {
        Some(base_url_of(STATIC_PROXY_PORT))
    } else {
        None
    }
}

pub fn static_proxy_preflight(listening: bool) -> (r: Option<String>)
    ensures
        match r {
            Some(u) => static_preflight_of(listening) == Some(u@),
            None => static_preflight_of(listening) is None,
        },
{
    if listening {
        Some(local_base_url(STATIC_PROXY_PORT))
    } else {
        None
    }
}

/// The answer of a start of the static proxy once binding was tried: the base
/// URL when bound or when the port is taken, else the error.
pub open spec fn static_bind_of(outcome: BindOutcome) -> Result<Seq<char>, Seq<char>> {
    match outcome {
        BindOutcome::Bound => Ok(base_url_of(STATIC_PROXY_PORT)),
        BindOutcome::AddressInUse => Ok(base_url_of(STATIC_PROXY_PORT)),
        BindOutcome::Failed(e) => Err(
            "[Rust/proxy.rs] Failed to bind server to port "@ + decimal(STATIC_PROXY_PORT as nat) + ": "@ + e@,
        ),
    }
}

pub fn static_proxy_bind_result(outcome: BindOutcome) -> (r: Result<String, String>)
    ensures
        match r {
            Ok(u) => static_bind_of(outcome) == Ok::<Seq<char>, Seq<char>>(u@),
            Err(e) => static_bind_of(outcome) == Err::<Seq<char>, Seq<char>>(e@),
        },
{
    match outcome {
        BindOutcome::Bound => Ok(local_base_url(STATIC_PROXY_PORT)),
        BindOutcome::AddressInUse => Ok(local_base_url(STATIC_PROXY_PORT)),
        BindOutcome::Failed(e) => {
            let mut m = String::from_str("[Rust/proxy.rs] Failed to bind server to port ");
            push_decimal(&mut m, STATIC_PROXY_PORT as u64);
            m.append(": ");
            m.append(e.as_str());
            Err(m)
        },
    }
}

/// A second start of the static proxy, once the first has bound its port,
/// answers with the same base URL and binds nothing.
pub proof fn lemma_static_proxy_idempotent()
    ensures
        static_bind_of(BindOutcome::Bound) is Ok,
        static_preflight_of(true) == Some(static_bind_of(BindOutcome::Bound)->Ok_0),
        static_bind_of(BindOutcome::AddressInUse) == static_bind_of(BindOutcome::Bound),
{
}

} // verus!
