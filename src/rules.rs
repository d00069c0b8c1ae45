use vstd::prelude::*;

use crate::text::{
    ascii_lower, ascii_upper, chars_contain, chars_eq, chars_start_with, from_chars,
    has_infix, has_prefix, pad3, push_char, push_pad3, strip_back, strip_front, to_ascii_lower,
    to_ascii_upper, to_chars, trim, trim_bounds, trimmed,
};

verus! {

pub const DEFAULT_SEGMENT_MINUTES: u32 = 30;

pub const MIN_SEGMENT_MINUTES: u32 = 1;

pub const MAX_SEGMENT_MINUTES: u32 = 1440;

/// Consecutive offline answers after which a recording retires.
pub const OFFLINE_RETRY_LIMIT: u64 = 5;

// ----- platforms and quality -----

/// The platform codes that the library accepts.
pub open spec fn is_known_platform(p: Seq<char>) -> bool {
    p == "DOUYU"@ || p == "DOUYIN"@ || p == "HUYA"@ || p == "BILIBILI"@
}

/// The platform code that a user-supplied name denotes, if any.
pub open spec fn platform_code(input: Seq<char>) -> Option<Seq<char>> {
    let u = ascii_upper(trimmed(input));
    if is_known_platform(u) {
        Some(u)
    } else {
        None
    }
}

/// Trims and upper-cases `input`, and returns the platform code it names.
pub fn normalize_platform(input: &str) -> (r: Option<&'static str>)
    ensures
        match r {
            Some(p) => platform_code(input@) == Some(p@),
            None => platform_code(input@) is None,
        },
{
    let t = trim(input);
    let tv = to_chars(t.as_str());
    let u = to_ascii_upper(&tv);
    if chars_eq(&u, "DOUYU") {
        Some("DOUYU")
    } else if chars_eq(&u, "DOUYIN") {
        Some("DOUYIN")
    } else if chars_eq(&u, "HUYA") {
        Some("HUYA")
    } else if chars_eq(&u, "BILIBILI") {
        Some("BILIBILI")
    } else {
        None
    }
}

/// The stream quality that a requested quality stands for: one of three
/// labels, the original picture being the default.
pub open spec fn quality_of(input: Option<Seq<char>>) -> Seq<char> {
    let t = trimmed(
        match input {
            Some(q) => q,
            None => "原画"@,
        },
    );
    if t == "高清"@ {
        "高清"@
    } else if t == "标清"@ {
        "标清"@
    } else {
        "原画"@
    }
}

pub fn normalize_quality(input: Option<&str>) -> (r: String)
    ensures
        r@ == quality_of(
            match input {
                Some(q) => Some(q@),
                None => None,
            },
        ),
{
    let raw = match input {
        Some(q) => q,
        None => "原画",
    };
    let t = trim(raw);
    if str_eq_string(&t, "高清") {
        String::from_str("高清")
    } else if str_eq_string(&t, "标清") {
        String::from_str("标清")
    } else {
        String::from_str("原画")
    }
}

fn str_eq_string(s: &String, lit: &str) -> (r: bool)
    ensures
        r == (s@ == lit@),
{
    let v = to_chars(s.as_str());
    chars_eq(&v, lit)
}

/// The segment length in minutes that a request stands for.
pub open spec fn segment_minutes_of(input: Option<u32>) -> u32 {
    match input {
        Some(v) => if v < MIN_SEGMENT_MINUTES {
            DEFAULT_SEGMENT_MINUTES
        } else if v > MAX_SEGMENT_MINUTES {
            MAX_SEGMENT_MINUTES
        } else {
            v
        },
        None => DEFAULT_SEGMENT_MINUTES,
    }
}

pub fn normalize_segment_minutes(input: Option<u32>) -> (r: u32)
    ensures
        r == segment_minutes_of(input),
        MIN_SEGMENT_MINUTES <= r <= MAX_SEGMENT_MINUTES,
{
    match input {
        Some(value) => if value < MIN_SEGMENT_MINUTES {
            DEFAULT_SEGMENT_MINUTES
        } else if value > MAX_SEGMENT_MINUTES {
            MAX_SEGMENT_MINUTES
        } else {
            value
        },
        None => DEFAULT_SEGMENT_MINUTES,
    }
}

// ----- tokens for paths -----

/// Characters that a path token keeps as they are.
pub open spec fn token_char(c: char) -> bool {
    ('a' <= c && c <= 'z') || ('A' <= c && c <= 'Z') || ('0' <= c && c <= '9') || c == '-' || c
        == '_'
}

pub open spec fn token_map(s: Seq<char>) -> Seq<char> {
    s.map_values(|c: char| if token_char(c) { c } else { '_' })
}

pub open spec fn unknown_token() -> Seq<char> {
    seq!['u', 'n', 'k', 'n', 'o', 'w', 'n']
}

/// A room id made safe for a path: every character outside ASCII letters,
/// digits, `-` and `_` becomes `_`, underscores are trimmed from both ends,
/// and an empty result becomes `unknown`.
pub open spec fn sanitized(s: Seq<char>) -> Seq<char> {
    let t = strip_back(strip_front(token_map(s), true), true);
    if t.len() == 0 {
        unknown_token()
    } else {
        t
    }
}

pub fn sanitize_token(input: &str) -> (r: String)
    ensures
        r@ == sanitized(input@),
{
    let v = to_chars(input);
    let mut mapped: Vec<char> = Vec::new();
    let mut i: usize = 0;
    while i < v.len()
        invariant
            i <= v@.len(),
            mapped@ == token_map(v@.subrange(0, i as int)),
        decreases v@.len() - i,
    {
        let c = v[i];
        let keep = ('a' <= c && c <= 'z') || ('A' <= c && c <= 'Z') || ('0' <= c && c <= '9') || c
            == '-' || c == '_';
        if keep {
            mapped.push(c);
        } else {
            mapped.push('_');
        }
        assert(v@.subrange(0, i + 1) == v@.subrange(0, i as int).push(c));
        i = i + 1;
    }
    assert(v@.subrange(0, i as int) == v@);
    let (a, b) = trim_bounds(&mapped, true);
    if a == b {
        proof {
            reveal_strlit("unknown");
        }
        String::from_str("unknown")
    } else {
        from_chars(&mapped, a, b)
    }
}

proof fn lemma_strip_front_shape(s: Seq<char>, u: bool)
    ensures
        strip_front(s, u).len() <= s.len(),
        strip_front(s, u) == s.subrange(s.len() - strip_front(s, u).len(), s.len() as int),
        strip_front(s, u).len() > 0 ==> !crate::text::strippable(strip_front(s, u)[0], u),
    decreases s.len(),
{
    if s.len() > 0 && crate::text::strippable(s[0], u) {
        lemma_strip_front_shape(s.drop_first(), u);
        let k = strip_front(s, u).len();
        assert(s.drop_first().subrange(s.len() - 1 - k, s.len() - 1) =~= s.subrange(
            s.len() - k,
            s.len() as int,
        ));
    } else {
        assert(s.subrange(0, s.len() as int) == s);
    }
}

proof fn lemma_strip_back_shape(s: Seq<char>, u: bool)
    ensures
        strip_back(s, u).len() <= s.len(),
        strip_back(s, u) == s.subrange(0, strip_back(s, u).len() as int),
        strip_back(s, u).len() > 0 ==> !crate::text::strippable(strip_back(s, u).last(), u),
    decreases s.len(),
{
    if s.len() > 0 && crate::text::strippable(s.last(), u) {
        lemma_strip_back_shape(s.drop_last(), u);
        let k = strip_back(s, u).len();
        assert(s.drop_last().subrange(0, k as int) =~= s.subrange(0, k as int));
    } else {
        assert(s.subrange(0, s.len() as int) == s);
    }
}

proof fn lemma_sanitized_shape(s: Seq<char>)
    ensures
        sanitized(s).len() > 0,
        sanitized(s)[0] != '_',
        sanitized(s).last() != '_',
        forall|i: int| 0 <= i < sanitized(s).len() ==> token_char(#[trigger] sanitized(s)[i]),
{
    let m = token_map(s);
    let f = strip_front(m, true);
    let t = strip_back(f, true);
    lemma_strip_front_shape(m, true);
    lemma_strip_back_shape(f, true);
    if t.len() > 0 {
        assert(t[0] == f[0]);
        assert forall|i: int| 0 <= i < t.len() implies token_char(#[trigger] t[i]) by {
            assert(t[i] == f[i]);
            assert(f[i] == m[m.len() - f.len() + i]);
        }
    }
}

/// Sanitising a token twice gives what sanitising it once gives.
pub proof fn lemma_sanitize_idempotent(s: Seq<char>)
    ensures
        sanitized(sanitized(s)) == sanitized(s),
{
    let t = sanitized(s);
    lemma_sanitized_shape(s);
    assert(token_map(t) == t);
    assert(strip_front(t, true) == t);
    assert(strip_back(t, true) == t);
}

// ----- URLs -----

pub open spec fn https_prefix() -> Seq<char> {
    seq!['h', 't', 't', 'p', 's', ':', '/', '/']
}

pub open spec fn http_prefix() -> Seq<char> {
    seq!['h', 't', 't', 'p', ':', '/', '/']
}

/// `u` with a leading `http://` turned into `https://`; other URLs unchanged.
pub open spec fn https_of(u: Seq<char>) -> Seq<char> {
    if has_prefix(u, https_prefix()) {
        u
    } else if has_prefix(u, http_prefix()) {
        https_prefix() + u.subrange(7, u.len() as int)
    } else {
        u
    }
}

pub fn force_https(url: &str) -> (r: String)
    ensures
        r@ == https_of(url@),
{
    proof {
        reveal_strlit("https://");
        reveal_strlit("http://");
        assert("https://"@ == https_prefix());
        assert("http://"@ == http_prefix());
    }
    let v = to_chars(url);
    if chars_start_with(&v, "https://") {
        return String::from_str(url);
    }
    if chars_start_with(&v, "http://") {
        let rest = from_chars(&v, 7, v.len());
        let mut out = String::from_str("https://");
        out.append(rest.as_str());
        return out;
    }
    String::from_str(url)
}

/// Forcing HTTPS twice gives what forcing it once gives.
pub proof fn lemma_force_https_idempotent(u: Seq<char>)
    ensures
        https_of(https_of(u)) == https_of(u),
{
    if !has_prefix(u, https_prefix()) && has_prefix(u, http_prefix()) {
        let r = https_prefix() + u.subrange(7, u.len() as int);
        assert(r.subrange(0, 8) == https_prefix());
    }
}

/// Whether a stream URL is an FLV stream rather than HLS.
pub open spec fn is_flv_url(u: Seq<char>) -> bool {
    has_infix(ascii_lower(u), ".flv"@) || has_infix(ascii_lower(u), "flv?"@)
}

pub fn is_flv_stream(url: &str) -> (r: bool)
    ensures
        r == is_flv_url(url@),
{
    let v = to_chars(url);
    let lower = to_ascii_lower(&v);
    chars_contain(&lower, ".flv") || chars_contain(&lower, "flv?")
}

/// Whether a resolver's error message says that the room is not live.
pub open spec fn is_offline_message(m: Seq<char>) -> bool {
    has_infix(m, "未开播"@) || has_infix(m, "房间不存在"@) || has_infix(
        m,
        "stream_ended_or_offline"@,
    ) || has_infix(ascii_lower(m), "offline"@)
}

pub fn is_room_offline_error(message: &str) -> (r: bool)
    ensures
        r == is_offline_message(message@),
{
    let v = to_chars(message);
    let lower = to_ascii_lower(&v);
    chars_contain(&v, "未开播") || chars_contain(&v, "房间不存在") || chars_contain(
        &v,
        "stream_ended_or_offline",
    ) || chars_contain(&lower, "offline")
}

/// The statuses of a recording that has not ended.
pub open spec fn is_active(s: Seq<char>) -> bool {
    s == "starting"@ || s == "recording"@ || s == "reconnecting"@
}

pub fn is_active_status(status: &str) -> (r: bool)
    ensures
        r == is_active(status@),
{
    let v = to_chars(status);
    chars_eq(&v, "starting") || chars_eq(&v, "recording") || chars_eq(&v, "reconnecting")
}

/// The reconnect delay in seconds after `attempt` consecutive failures.
pub open spec fn backoff_of(attempt: u64) -> u64 {
    if attempt <= 1 {
        2
    } else if attempt == 2 {
        5
    } else if attempt == 3 {
        10
    } else {
        30
    }
}

pub fn backoff_secs(attempt: u64) -> (r: u64)
    ensures
        r == backoff_of(attempt),
{
    if attempt <= 1 {
        2
    } else if attempt == 2 {
        5
    } else if attempt == 3 {
        10
    } else {
        30
    }
}

// ----- paths -----

/// `base` joined with `part` by a `/`, unless `base` is empty or already ends
/// in a separator.
pub open spec fn joined(base: Seq<char>, part: Seq<char>) -> Seq<char> {
    if base.len() == 0 {
        part
    } else if base.last() == '/' || base.last() == '\\' {
        base + part
    } else {
        base.push('/') + part
    }
}

pub fn join_path(base: &str, part: &str) -> (r: String)
    ensures
        r@ == joined(base@, part@),
{
    let v = to_chars(base);
    let mut out = String::from_str(base);
    if v.len() > 0 && v[v.len() - 1] != '/' && v[v.len() - 1] != '\\' {
        push_char(&mut out, '/');
    }
    out.append(part);
    out
}

/// The default output root: `<videos>/DTV`, else `<cwd>/recordings`, else
/// `./recordings`.
pub open spec fn default_root_of(video_dir: Option<Seq<char>>, current_dir: Option<Seq<char>>) -> Seq<
    char,
> {
    match video_dir {
        Some(v) => joined(v, "DTV"@),
        None => match current_dir {
            Some(c) => joined(c, "recordings"@),
            None => "./recordings"@,
        },
    }
}

pub fn default_output_root(video_dir: Option<&str>, current_dir: Option<&str>) -> (r: String)
    ensures
        r@ == default_root_of(
            match video_dir {
                Some(v) => Some(v@),
                None => None,
            },
            match current_dir {
                Some(c) => Some(c@),
                None => None,
            },
        ),
{
    match video_dir {
        Some(v) => join_path(v, "DTV"),
        None => match current_dir {
            Some(c) => join_path(c, "recordings"),
            None => String::from_str("./recordings"),
        },
    }
}

/// The output root: the custom directory when one is given and not blank,
/// else the default one.
pub open spec fn output_root_of(custom: Option<Seq<char>>, default_dir: Seq<char>) -> Seq<char> {
    match custom {
        Some(raw) => if trimmed(raw).len() > 0 {
            trimmed(raw)
        } else {
            default_dir
        },
        None => default_dir,
    }
}

pub fn resolve_output_root(custom_output_dir: Option<&str>, default_dir: &str) -> (r: String)
    ensures
        r@ == output_root_of(
            match custom_output_dir {
                Some(c) => Some(c@),
                None => None,
            },
            default_dir@,
        ),
{
    if let Some(raw) = custom_output_dir {
        let t = trim(raw);
        if t.as_str().unicode_len() > 0 {
            return t;
        }
    }
    String::from_str(default_dir)
}

/// `<root>/<platform>/<sanitized room>`.
pub open spec fn room_dir_of(root: Seq<char>, platform: Seq<char>, room_id: Seq<char>) -> Seq<char> {
    joined(joined(root, platform), sanitized(room_id))
}

pub fn build_platform_room_output_dir(root: &str, platform: &str, room_id: &str) -> (r: String)
    ensures
        r@ == room_dir_of(root@, platform@, room_id@),
{
    let with_platform = join_path(root, platform);
    let token = sanitize_token(room_id);
    join_path(with_platform.as_str(), token.as_str())
}

/// `<platform lower>_<sanitized room>_<timestamp>_part<NNN>.flv`.
pub open spec fn segment_name_of(
    platform: Seq<char>,
    room_id: Seq<char>,
    timestamp: Seq<char>,
    index: u32,
) -> Seq<char> {
    ascii_lower(platform) + "_"@ + sanitized(room_id) + "_"@ + timestamp + "_part"@ + pad3(
        index as nat,
    ) + ".flv"@
}

pub fn segment_file_name(platform: &str, room_id: &str, timestamp: &str, index: u32) -> (r: String)
    ensures
        r@ == segment_name_of(platform@, room_id@, timestamp@, index),
{
    let pv = to_chars(platform);
    let lower = to_ascii_lower(&pv);
    let mut out = from_chars(&lower, 0, lower.len());
    out.append("_");
    let token = sanitize_token(room_id);
    out.append(token.as_str());
    out.append("_");
    out.append(timestamp);
    out.append("_part");
    push_pad3(&mut out, index as u64);
    out.append(".flv");
    assert(lower@.subrange(0, lower@.len() as int) == lower@);
    out
}

} // verus!
