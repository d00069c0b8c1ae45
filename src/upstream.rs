use vstd::prelude::*;

use crate::rules::{force_https, https_of, is_flv_stream, is_flv_url};
use crate::text::{chars_contain, chars_eq, has_infix, to_chars, trim, trimmed};

verus! {

/// The platform resolver that serves a platform code.
#[derive(PartialEq, Eq, Structural, Clone, Copy, Debug)]
pub enum Oracle {
    Douyu,
    Douyin,
    Huya,
    Bilibili,
}

pub open spec fn oracle_of(platform: Seq<char>) -> Option<Oracle> {
    if platform == "DOUYU"@ {
        Some(Oracle::Douyu)
    } else if platform == "DOUYIN"@ {
        Some(Oracle::Douyin)
    } else if platform == "HUYA"@ {
        Some(Oracle::Huya)
    } else if platform == "BILIBILI"@ {
        Some(Oracle::Bilibili)
    } else {
        None
    }
}

/// The resolver to ask for `platform`, or the error for a platform that has none.
pub fn oracle_for(platform: &str) -> (r: Result<Oracle, String>)
    ensures
        match r {
            Ok(o) => oracle_of(platform@) == Some(o),
            Err(e) => oracle_of(platform@) is None && e@ == "Unsupported platform: "@ + platform@,
        },
{
    let v = to_chars(platform);
    if chars_eq(&v, "DOUYU") {
        Ok(Oracle::Douyu)
    } else if chars_eq(&v, "DOUYIN") {
        Ok(Oracle::Douyin)
    } else if chars_eq(&v, "HUYA") {
        Ok(Oracle::Huya)
    } else if chars_eq(&v, "BILIBILI") {
        Ok(Oracle::Bilibili)
    } else {
        let mut e = String::from_str("Unsupported platform: ");
        e.append(platform);
        Err(e)
    }
}

/// What a platform resolver answered.
pub enum OracleReply {
    /// The resolver failed with this message.
    Failed(Oracle, String),
    /// Douyu hands out a URL.
    Douyu { url: String },
    /// Douyin: a room status (2 is live) and maybe a URL.
    Douyin { status: Option<i64>, stream_url: Option<String> },
    /// Huya: liveness, the URL it selected, and the first FLV URL it lists.
    Huya { is_live: bool, selected_url: Option<String>, first_flv_url: Option<String> },
    /// Bilibili: a room status (1 is live) and maybe a URL.
    Bilibili { status: Option<i64>, stream_url: Option<String> },
}

pub open spec fn opt_view(o: Option<String>) -> Option<Seq<char>> {
    match o {
        Some(s) => Some(s@),
        None => None,
    }
}

/// The stream URL, or the error, that a resolver's answer gives.
pub open spec fn resolution_of(reply: OracleReply) -> Result<Seq<char>, Seq<char>> {
    match reply {
        OracleReply::Failed(o, e) => if o == Oracle::Douyu {
            Err("Douyu stream url failed: "@ + e@)
        } else {
            Err(e@)
        },
        OracleReply::Douyu { url } => Ok(https_of(url@)),
        OracleReply::Douyin { status, stream_url } => if status != Some(2i64)
            || stream_url is None {
            Err("Douyin streamer is offline or stream unavailable"@)
        } else {
            Ok(https_of(stream_url->0@))
        },
        OracleReply::Huya { is_live, selected_url, first_flv_url } => if !is_live {
            Err("Huya streamer is offline"@)
        } else if selected_url is Some {
            Ok(https_of(selected_url->0@))
        } else if first_flv_url is Some {
            Ok(https_of(first_flv_url->0@))
        } else {
            Err("Huya stream url unavailable"@)
        },
        OracleReply::Bilibili { status, stream_url } => if status != Some(1i64) {
            Err("Bilibili streamer is offline"@)
        } else if stream_url is None {
            Err("Bilibili stream url unavailable"@)
        } else if !is_flv_url(stream_url->0@) {
            Err("Bilibili current stream is HLS; recording supports FLV only"@)
        } else {
            Ok(https_of(stream_url->0@))
        },
    }
}

/// Checks a resolver's answer for liveness and turns it into an HTTPS stream URL.
pub fn finish_resolution(reply: OracleReply) -> (r: Result<String, String>)
    ensures
        match r {
            Ok(u) => resolution_of(reply) == Ok::<Seq<char>, Seq<char>>(u@),
            Err(e) => resolution_of(reply) == Err::<Seq<char>, Seq<char>>(e@),
        },
{
    match reply {
        OracleReply::Failed(o, e) => {
            if o == Oracle::Douyu {
                let mut m = String::from_str("Douyu stream url failed: ");
                m.append(e.as_str());
                Err(m)
            } else {
                Err(e)
            }
        },
        OracleReply::Douyu { url } => Ok(force_https(url.as_str())),
        OracleReply::Douyin { status, stream_url } => {
            match (status, stream_url) {
                (Some(2i64), Some(u)) => Ok(force_https(u.as_str())),
                _ => Err(String::from_str("Douyin streamer is offline or stream unavailable")),
            }
        },
        OracleReply::Huya { is_live, selected_url, first_flv_url } => {
            if !is_live {
                return Err(String::from_str("Huya streamer is offline"));
            }
            match selected_url {
                Some(u) => Ok(force_https(u.as_str())),
                None => match first_flv_url {
                    Some(u) => Ok(force_https(u.as_str())),
                    None => Err(String::from_str("Huya stream url unavailable")),
                },
            }
        },
        OracleReply::Bilibili { status, stream_url } => {
            match status {
                Some(1i64) => {},
                _ => {
                    return Err(String::from_str("Bilibili streamer is offline"));
                },
            }
            match stream_url {
                None => Err(String::from_str("Bilibili stream url unavailable")),
                Some(u) => {
                    if !is_flv_stream(u.as_str()) {
                        Err(
                            String::from_str(
                                "Bilibili current stream is HLS; recording supports FLV only",
                            ),
                        )
                    } else {
                        Ok(force_https(u.as_str()))
                    }
                },
            }
        },
    }
}

// ----- request shaping -----

pub open spec fn header_view(h: (String, String)) -> (Seq<char>, Seq<char>) {
    (h.0@, h.1@)
}

pub open spec fn headers_view(v: Seq<(String, String)>) -> Seq<(Seq<char>, Seq<char>)> {
    v.map_values(|h: (String, String)| header_view(h))
}

fn push_header(v: &mut Vec<(String, String)>, name: &str, value: &str)
    ensures
        headers_view(final(v)@) == headers_view(old(v)@).push((name@, value@)),
{
    v.push((String::from_str(name), String::from_str(value)));
    assert(headers_view(v@) =~= headers_view(old(v)@).push((name@, value@)));
}

pub open spec fn flv_base_headers(ua: Seq<char>) -> Seq<(Seq<char>, Seq<char>)> {
    seq![
        ("User-Agent"@, ua),
        ("Accept"@, "video/x-flv,application/octet-stream,*/*"@),
        ("Connection"@, "keep-alive"@),
        ("Range"@, "bytes=0-"@),
    ]
}

pub open spec fn desktop_ua() -> Seq<char> {
    "Mozilla/5.0 (Windows NT 10.0; Win64; x64) AppleWebKit/537.36 (KHTML, like Gecko) Chrome/141.0.0.0 Safari/537.36"@
}

pub open spec fn legacy_ua() -> Seq<char> {
    "Mozilla/5.0 (Windows NT 10.0; Win64; x64) AppleWebKit/537.36 (KHTML, like Gecko) Chrome/120.0.0.0 Safari/537.36"@
}

/// The Referer and Origin headers that a recording request carries for a platform.
pub open spec fn platform_headers(platform: Seq<char>) -> Seq<(Seq<char>, Seq<char>)> {
    if platform == "HUYA"@ {
        seq![("Referer"@, "https://www.huya.com/"@), ("Origin"@, "https://www.huya.com"@)]
    } else if platform == "BILIBILI"@ {
        seq![
            ("Referer"@, "https://live.bilibili.com/"@),
            ("Origin"@, "https://live.bilibili.com"@),
        ]
    } else if platform == "DOUYIN"@ {
        seq![("Referer"@, "https://live.douyin.com/"@), ("Origin"@, "https://live.douyin.com"@)]
    } else if platform == "DOUYU"@ {
        seq![("Referer"@, "https://www.douyu.com/"@)]
    } else {
        seq![]
    }
}

pub open spec fn cookie_headers(cookie: Option<Seq<char>>) -> Seq<(Seq<char>, Seq<char>)> {
    match cookie {
        Some(c) => if trimmed(c).len() > 0 {
            seq![("Cookie"@, trimmed(c))]
        } else {
            seq![]
        },
        None => seq![],
    }
}

/// The headers, in order, of a recording's request for its stream.
pub open spec fn stream_headers_of(platform: Seq<char>, cookie: Option<Seq<char>>) -> Seq<
    (Seq<char>, Seq<char>),
> {
    flv_base_headers(desktop_ua()) + platform_headers(platform) + cookie_headers(cookie)
}

/// The headers of a recording's request for its stream.
pub fn build_stream_request(platform: &str, cookie: Option<&str>) -> (r: Vec<(String, String)>)
    ensures
        headers_view(r@) == stream_headers_of(
            platform@,
            match cookie {
                Some(c) => Some(c@),
                None => None,
            },
        ),
{
    let mut h: Vec<(String, String)> = Vec::new();
    push_header(
        &mut h,
        "User-Agent",
        "Mozilla/5.0 (Windows NT 10.0; Win64; x64) AppleWebKit/537.36 (KHTML, like Gecko) Chrome/141.0.0.0 Safari/537.36",
    );
    push_header(&mut h, "Accept", "video/x-flv,application/octet-stream,*/*");
    push_header(&mut h, "Connection", "keep-alive");
    push_header(&mut h, "Range", "bytes=0-");
    let ghost base = headers_view(h@);
    assert(base =~= flv_base_headers(desktop_ua()));
    let v = to_chars(platform);
    if chars_eq(&v, "HUYA") {
        push_header(&mut h, "Referer", "https://www.huya.com/");
        push_header(&mut h, "Origin", "https://www.huya.com");
    } else if chars_eq(&v, "BILIBILI") {
        push_header(&mut h, "Referer", "https://live.bilibili.com/");
        push_header(&mut h, "Origin", "https://live.bilibili.com");
    } else if chars_eq(&v, "DOUYIN") {
        push_header(&mut h, "Referer", "https://live.douyin.com/");
        push_header(&mut h, "Origin", "https://live.douyin.com");
    } else if chars_eq(&v, "DOUYU") {
        push_header(&mut h, "Referer", "https://www.douyu.com/");
    }
    let ghost mid = headers_view(h@);
    assert(mid =~= base + platform_headers(platform@));
    if let Some(raw) = cookie {
        let t = trim(raw);
        if t.as_str().unicode_len() > 0 {
            push_header(&mut h, "Cookie", t.as_str());
        }
    }
    assert(headers_view(h@) =~= mid + cookie_headers(
        match cookie {
            Some(c) => Some(c@),
            None => None,
        },
    ));
    h
}

/// The headers of an image request, chosen by the image URL's host.
pub open spec fn image_headers_of(url: Seq<char>) -> Seq<(Seq<char>, Seq<char>)> {
    seq![
        ("User-Agent"@, legacy_ua()),
        ("Accept"@, "image/avif,image/webp,image/apng,image/*;q=0.8,*/*;q=0.5"@),
    ] + if has_infix(url, "hdslb.com"@) || has_infix(url, "bilibili.com"@) {
        seq![
            ("Referer"@, "https://live.bilibili.com/"@),
            ("Origin"@, "https://live.bilibili.com"@),
        ]
    } else if has_infix(url, "huya.com"@) {
        seq![("Referer"@, "https://www.huya.com/"@), ("Origin"@, "https://www.huya.com"@)]
    } else if has_infix(url, "douyin"@) || has_infix(url, "douyinpic.com"@) {
        seq![("Referer"@, "https://www.douyin.com/"@)]
    } else {
        seq![]
    }
}

/// The headers of an image request, with a Referer that passes hotlink protection.
pub fn image_request_headers(url: &str) -> (r: Vec<(String, String)>)
    ensures
        headers_view(r@) == image_headers_of(url@),
{
    let mut h: Vec<(String, String)> = Vec::new();
    push_header(
        &mut h,
        "User-Agent",
        "Mozilla/5.0 (Windows NT 10.0; Win64; x64) AppleWebKit/537.36 (KHTML, like Gecko) Chrome/120.0.0.0 Safari/537.36",
    );
    push_header(&mut h, "Accept", "image/avif,image/webp,image/apng,image/*;q=0.8,*/*;q=0.5");
    let v = to_chars(url);
    if chars_contain(&v, "hdslb.com") || chars_contain(&v, "bilibili.com") {
        push_header(&mut h, "Referer", "https://live.bilibili.com/");
        push_header(&mut h, "Origin", "https://live.bilibili.com");
    } else if chars_contain(&v, "huya.com") {
        push_header(&mut h, "Referer", "https://www.huya.com/");
        push_header(&mut h, "Origin", "https://www.huya.com");
    } else if chars_contain(&v, "douyin") || chars_contain(&v, "douyinpic.com") {
        push_header(&mut h, "Referer", "https://www.douyin.com/");
    }
    assert(headers_view(h@) =~= image_headers_of(url@));
    h
}

/// The headers of a relayed FLV request, chosen by the upstream URL's host.
pub open spec fn relay_headers_of(url: Seq<char>) -> Seq<(Seq<char>, Seq<char>)> {
    flv_base_headers(legacy_ua()) + (if has_infix(url, "huya.com"@) || has_infix(url, "hy-cdn.com"@)
        || has_infix(url, "huyaimg.com"@) {
        seq![("Referer"@, "https://www.huya.com/"@), ("Origin"@, "https://www.huya.com"@)]
    } else {
        seq![]
    }) + (if has_infix(url, "bilivideo"@) || has_infix(url, "bilibili.com"@) || has_infix(
        url,
        "hdslb.com"@,
    ) {
        seq![("Referer"@, "https://live.bilibili.com/"@)]
    } else {
        seq![]
    })
}

/// The headers of a relayed FLV request.
pub fn relay_request_headers(url: &str) -> (r: Vec<(String, String)>)
    ensures
        headers_view(r@) == relay_headers_of(url@),
{
    let mut h: Vec<(String, String)> = Vec::new();
    push_header(
        &mut h,
        "User-Agent",
        "Mozilla/5.0 (Windows NT 10.0; Win64; x64) AppleWebKit/537.36 (KHTML, like Gecko) Chrome/120.0.0.0 Safari/537.36",
    );
    push_header(&mut h, "Accept", "video/x-flv,application/octet-stream,*/*");
    push_header(&mut h, "Connection", "keep-alive");
    push_header(&mut h, "Range", "bytes=0-");
    let v = to_chars(url);
    if chars_contain(&v, "huya.com") || chars_contain(&v, "hy-cdn.com") || chars_contain(
        &v,
        "huyaimg.com",
    ) {
        push_header(&mut h, "Referer", "https://www.huya.com/");
        push_header(&mut h, "Origin", "https://www.huya.com");
    }
    if chars_contain(&v, "bilivideo") || chars_contain(&v, "bilibili.com") || chars_contain(
        &v,
        "hdslb.com",
    ) {
        push_header(&mut h, "Referer", "https://live.bilibili.com/");
    }
    assert(headers_view(h@) =~= relay_headers_of(url@));
    h
}

/// The status that a local response carries for an upstream failure status:
/// the same code where it is a valid HTTP code, else 500.
pub open spec fn relay_status_of(code: u16) -> u16 {
    if 100 <= code && code <= 999 {
        code
    } else {
        500
    }
}

pub fn relay_error_status(code: u16) -> (r: u16)
    ensures
        r == relay_status_of(code),
{
    if 100 <= code && code <= 999 {
        code
    } else {
        500
    }
}

/// Whether an upstream status is a success (2xx).
pub open spec fn is_success_code(code: u16) -> bool {
    200 <= code && code <= 299
}

} // verus!
