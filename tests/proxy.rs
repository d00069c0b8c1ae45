use dtv_media::proxy::{
    image_content_type, image_query_error, local_base_url, session_proxy_url, session_upstream_url, static_proxy_bind_result,
    static_proxy_preflight, BindOutcome, FlvProxySessionManager, ProxyServerHandle,
    StartFlvProxySessionPayload,
};

fn payload(url: &str) -> StartFlvProxySessionPayload {
    StartFlvProxySessionPayload {
        upstream_url: url.to_string(),
        platform: "HUYA".to_string(),
        room_id: Some("123".to_string()),
    }
}

#[test]
fn session_lifecycle() {
    let mut m: FlvProxySessionManager<u32> = FlvProxySessionManager::new();
    let p = payload(" https://x/y.flv ");
    let url = session_upstream_url(&p).ok().unwrap();
    assert_eq!(url, "https://x/y.flv");
    let resp = m.register("abcd".to_string(), 7, 50123, url, &p).ok().unwrap();
    assert_eq!(resp.session_id, "abcd");
    assert_eq!(resp.proxy_url, "http://127.0.0.1:50123/live.flv");
    assert!(m.contains("abcd"));
    let again = m.register("abcd".to_string(), 8, 1, "u".to_string(), &p);
    assert_eq!(again.err(), Some(8));
    let s = m.remove("abcd").unwrap();
    assert_eq!(s.handle, 7);
    assert_eq!(s.port, 50123);
    assert!(!m.contains("abcd"));
}

#[test]
fn stopping_unknown_session_is_noop() {
    let mut m: FlvProxySessionManager<u32> = FlvProxySessionManager::new();
    let p = payload("https://x/y.flv");
    m.register("one".to_string(), 1, 2, "https://x/y.flv".to_string(), &p).ok().unwrap();
    assert!(m.remove("nope").is_none());
    assert_eq!(m.len(), 1);
    assert_eq!(m.drain().len(), 1);
    assert_eq!(m.len(), 0);
}

#[test]
fn blank_upstream_is_rejected() {
    assert_eq!(session_upstream_url(&payload("   ")).err().unwrap(), "upstream_url is required");
}

#[test]
fn local_urls() {
    assert_eq!(local_base_url(34721), "http://127.0.0.1:34721");
    assert_eq!(session_proxy_url(8), "http://127.0.0.1:8/live.flv");
}

#[test]
fn static_proxy_start_is_idempotent() {
    let first = static_proxy_bind_result(BindOutcome::Bound).ok().unwrap();
    let second = static_proxy_preflight(true).unwrap();
    assert_eq!(first, "http://127.0.0.1:34721");
    assert_eq!(first, second);
    assert!(static_proxy_preflight(false).is_none());
    assert_eq!(static_proxy_bind_result(BindOutcome::AddressInUse).ok().unwrap(), first);
    assert_eq!(
        static_proxy_bind_result(BindOutcome::Failed("denied".to_string())).err().unwrap(),
        "[Rust/proxy.rs] Failed to bind server to port 34721: denied"
    );
}

#[test]
fn debug_proxy_handle_slot() {
    let mut h: ProxyServerHandle<u8> = ProxyServerHandle::new();
    assert!(h.take().is_none());
    h.set(3);
    assert_eq!(h.take(), Some(3));
    assert!(h.take().is_none());
}

#[test]
fn image_query_and_content_type() {
    assert_eq!(image_query_error("").unwrap(), "Missing url query parameter");
    assert!(image_query_error("https://i0.hdslb.com/a.jpg").is_none());
    assert_eq!(image_content_type(Some("image/png")), "image/png");
    assert_eq!(image_content_type(None), "application/octet-stream");
}

#[test]
fn stopping_one_session_keeps_the_others() {
    let mut m: FlvProxySessionManager<u32> = FlvProxySessionManager::new();
    let p = payload("https://x/y.flv");
    for (i, id) in ["a", "b", "c"].iter().enumerate() {
        m.register(id.to_string(), i as u32, 100 + i as u16, "u".to_string(), &p).ok().unwrap();
    }
    let removed = m.remove("b").unwrap();
    assert_eq!(removed.handle, 1);
    let left: Vec<(String, u16)> = m.sessions.iter().map(|s| (s.session_id.clone(), s.port)).collect();
    assert_eq!(left, vec![("a".to_string(), 100), ("c".to_string(), 102)]);
}
