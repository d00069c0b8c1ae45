use dtv_media::ids::{generate_session_id, generate_task_id};
use dtv_media::manager::{check_duplicate, find_active_task, plan_recording, RecordingManager, RecordingRuntime};
use dtv_media::snapshot::{increment_bytes_written, mark_status, set_current_file, snapshot_clone, status_event, RecordingTaskSnapshot, StartLiveRecordingPayload};
use dtv_media::upstream::{build_stream_request, finish_resolution, image_request_headers, oracle_for, relay_error_status, relay_request_headers, Oracle, OracleReply};
use dtv_media::worker::{RecordingWorker, WorkerAction};

fn payload(platform: &str, room: &str) -> StartLiveRecordingPayload {
    StartLiveRecordingPayload {
        platform: platform.to_string(),
        room_id: room.to_string(),
        quality: None,
        segment_minutes: None,
        output_dir: Some("/rec".to_string()),
        cookie: None,
    }
}

fn snapshot(id: &str, platform: &str, room: &str, status: &str) -> RecordingTaskSnapshot {
    RecordingTaskSnapshot {
        task_id: id.to_string(),
        platform: platform.to_string(),
        room_id: room.to_string(),
        quality: "原画".to_string(),
        status: status.to_string(),
        output_dir: "/rec".to_string(),
        current_file: None,
        segment_index: 0,
        bytes_written: 0,
        started_at: 1000,
        updated_at: 1000,
        message: None,
    }
}

fn worker(minutes: u32) -> RecordingWorker {
    RecordingWorker::new(
        "t1".to_string(),
        "HUYA".to_string(),
        "123".to_string(),
        "原画".to_string(),
        "/rec/HUYA/123".to_string(),
        minutes,
        "https://x/y.flv".to_string(),
        1000,
    )
}

#[test]
fn empty_room_is_rejected() {
    let r = plan_recording(&payload("HUYA", "  "), "/d");
    assert_eq!(r.err().unwrap(), "room_id is required");
}

#[test]
fn unknown_platform_is_rejected() {
    let r = plan_recording(&payload("twitch", "1"), "/d");
    assert_eq!(r.err().unwrap(), "Unsupported platform: twitch");
}

#[test]
fn plan_normalises_everything() {
    let mut p = payload(" huya", " 12/3 ");
    p.segment_minutes = Some(0);
    p.quality = Some("高清".to_string());
    p.cookie = Some("  ".to_string());
    let plan = plan_recording(&p, "/d").ok().unwrap();
    assert_eq!(plan.platform, "HUYA");
    assert_eq!(plan.room_id, "12/3");
    assert_eq!(plan.quality, "高清");
    assert_eq!(plan.segment_minutes, 30);
    assert!(plan.cookie.is_none());
    assert_eq!(plan.output_dir, "/rec/HUYA/12_3");
    let plan2 = plan_recording(&payload("DOUYU", "9"), "/d").ok().unwrap();
    assert_eq!(plan2.segment_minutes, 30);
}

#[test]
fn duplicate_recording_is_refused() {
    let tasks = vec![
        snapshot("old", "HUYA", "123", "stopped"),
        snapshot("abc", "HUYA", "123", "recording"),
    ];
    assert_eq!(find_active_task(&tasks, "HUYA", "123"), Some("abc".to_string()));
    assert_eq!(
        check_duplicate(&tasks, "HUYA", "123").err().unwrap(),
        "Recording already running for HUYA:123 (task_id=abc)"
    );
    assert!(check_duplicate(&tasks, "HUYA", "124").is_ok());
    assert!(check_duplicate(&tasks, "DOUYU", "123").is_ok());
}

#[test]
fn finished_task_does_not_block_a_new_one() {
    let tasks = vec![snapshot("old", "HUYA", "123", "failed")];
    assert!(check_duplicate(&tasks, "HUYA", "123").is_ok());
}

#[test]
fn bilibili_hls_is_rejected() {
    let r = finish_resolution(OracleReply::Bilibili {
        status: Some(1),
        stream_url: Some("https://x/index.m3u8".to_string()),
    });
    assert_eq!(r.err().unwrap(), "Bilibili current stream is HLS; recording supports FLV only");
}

#[test]
fn resolution_outcomes() {
    let ok = finish_resolution(OracleReply::Bilibili {
        status: Some(1),
        stream_url: Some("http://x/live.flv?a".to_string()),
    });
    assert_eq!(ok.ok().unwrap(), "https://x/live.flv?a");
    let off = finish_resolution(OracleReply::Bilibili { status: Some(0), stream_url: None });
    assert_eq!(off.err().unwrap(), "Bilibili streamer is offline");
    let huya = finish_resolution(OracleReply::Huya {
        is_live: true,
        selected_url: None,
        first_flv_url: Some("http://h/a.flv".to_string()),
    });
    assert_eq!(huya.ok().unwrap(), "https://h/a.flv");
    let huya_off = finish_resolution(OracleReply::Huya { is_live: false, selected_url: None, first_flv_url: None });
    assert_eq!(huya_off.err().unwrap(), "Huya streamer is offline");
    let huya_none = finish_resolution(OracleReply::Huya { is_live: true, selected_url: None, first_flv_url: None });
    assert_eq!(huya_none.err().unwrap(), "Huya stream url unavailable");
    let dy = finish_resolution(OracleReply::Douyin { status: Some(4), stream_url: Some("u".to_string()) });
    assert_eq!(dy.err().unwrap(), "Douyin streamer is offline or stream unavailable");
    let du = finish_resolution(OracleReply::Failed(Oracle::Douyu, "boom".to_string()));
    assert_eq!(du.err().unwrap(), "Douyu stream url failed: boom");
    let du_ok = finish_resolution(OracleReply::Douyu { url: "http://d/x.flv".to_string() });
    assert_eq!(du_ok.ok().unwrap(), "https://d/x.flv");
    assert_eq!(oracle_for("HUYA").ok().unwrap(), Oracle::Huya);
    assert_eq!(oracle_for("YT").err().unwrap(), "Unsupported platform: YT");
}

#[test]
fn stream_request_headers_by_platform() {
    let h = build_stream_request("DOUYU", Some(" c=1 "));
    assert_eq!(h.len(), 6);
    assert_eq!(h[3], ("Range".to_string(), "bytes=0-".to_string()));
    assert_eq!(h[4], ("Referer".to_string(), "https://www.douyu.com/".to_string()));
    assert_eq!(h[5], ("Cookie".to_string(), "c=1".to_string()));
    let b = build_stream_request("BILIBILI", Some("  "));
    assert_eq!(b.len(), 6);
    assert_eq!(b[5], ("Origin".to_string(), "https://live.bilibili.com".to_string()));
}

#[test]
fn image_request_gets_bilibili_referer() {
    let h = image_request_headers("https://i0.hdslb.com/bfs/live/xxx.jpg");
    assert_eq!(h[2], ("Referer".to_string(), "https://live.bilibili.com/".to_string()));
    let d = image_request_headers("https://p3.douyinpic.com/a.jpg");
    assert_eq!(d.len(), 3);
    assert_eq!(d[2], ("Referer".to_string(), "https://www.douyin.com/".to_string()));
    assert_eq!(image_request_headers("https://e.com/a.png").len(), 2);
}

#[test]
fn relay_headers_and_status() {
    let h = relay_request_headers("https://tx.hy-cdn.com/a.flv");
    assert_eq!(h.len(), 6);
    assert_eq!(h[5], ("Origin".to_string(), "https://www.huya.com".to_string()));
    assert_eq!(relay_error_status(502), 502);
    assert_eq!(relay_error_status(42), 500);
}

#[test]
fn ids_are_32_lower_hex() {
    let a = generate_task_id();
    let b = generate_session_id();
    assert_eq!(a.len(), 32);
    assert!(a.chars().all(|c| c.is_ascii_digit() || ('a'..='f').contains(&c)));
    assert_eq!(b.len(), 32);
    assert_ne!(a, b);
}

#[test]
fn snapshot_updates() {
    let mut s = snapshot("t", "HUYA", "1", "starting");
    mark_status(&mut s, "recording", Some("m".to_string()), 2000);
    assert_eq!(s.status, "recording");
    assert_eq!(s.updated_at, 2000);
    set_current_file(&mut s, "/f".to_string(), 3, 2001);
    assert_eq!(s.segment_index, 3);
    assert_eq!(s.current_file.as_deref(), Some("/f"));
    increment_bytes_written(&mut s, 10, 2002);
    increment_bytes_written(&mut s, u64::MAX, 2003);
    assert_eq!(s.bytes_written, u64::MAX);
    let c = snapshot_clone(&s);
    assert_eq!(c.status, s.status);
    assert_eq!(c.bytes_written, s.bytes_written);
}

#[test]
fn event_never_predates_start() {
    let s = snapshot("t", "HUYA", "1", "starting");
    assert_eq!(status_event(&s, 500).timestamp, 1000);
    assert_eq!(status_event(&s, 1500).timestamp, 1500);
    let w = worker(30);
    assert!(w.status_event().timestamp >= 1000);
}

#[test]
fn transient_502_then_success() {
    let mut w = worker(30);
    assert_eq!(w.begin_attempt(false), WorkerAction::Connect);
    assert_eq!(w.on_response(502), WorkerAction::SleepThenAttempt(2));
    assert_eq!(w.snapshot.status, "reconnecting");
    assert_eq!(w.snapshot.message.as_deref(), Some("upstream_status=502"));
    assert_eq!(w.begin_attempt(false), WorkerAction::Connect);
    assert_eq!(w.on_response(502), WorkerAction::SleepThenAttempt(5));
    assert_eq!(w.begin_attempt(false), WorkerAction::Connect);
    assert_eq!(w.on_response(200), WorkerAction::OpenSegment(1));
    assert_eq!(w.snapshot.status, "recording");
    assert_eq!(w.reconnect_attempts, 0);
}

#[test]
fn offline_five_times_retires() {
    let mut w = worker(30);
    for i in 0..5u64 {
        assert_eq!(w.begin_attempt(false), WorkerAction::Connect);
        let a = w.on_connect_error("refused");
        assert!(matches!(a, WorkerAction::SleepThenResolve(_)));
        assert_eq!(w.snapshot.message.as_deref(), Some("connect_failed: refused"));
        let r = w.on_resolved(Err("Huya streamer is offline".to_string()));
        if i < 4 {
            assert_eq!(r, WorkerAction::Attempt);
            assert_eq!(w.snapshot.status, "reconnecting");
        } else {
            assert_eq!(r, WorkerAction::Exit);
        }
    }
    assert_eq!(w.snapshot.status, "stopped");
    assert_eq!(w.snapshot.message.as_deref(), Some("stream_ended_or_offline"));
    w.finish(false);
    assert_eq!(w.snapshot.message.as_deref(), Some("stream_ended_or_offline"));
}

#[test]
fn segments_roll_and_bytes_add_up() {
    let mut w = worker(1);
    assert_eq!(w.on_response(200), WorkerAction::OpenSegment(1));
    assert_eq!(w.on_segment_opened("/r/huya_123_a_part001.flv".to_string()), WorkerAction::ReadChunk);
    assert_eq!(w.snapshot.segment_index, 1);
    assert_eq!(w.on_chunk(false, 100, 1000), WorkerAction::WriteChunk);
    assert_eq!(w.on_write_ok(), WorkerAction::ReadChunk);
    assert_eq!(w.on_chunk(false, 50, 60_000), WorkerAction::Flush);
    assert_eq!(w.on_flush_ok(), WorkerAction::OpenSegment(2));
    assert_eq!(w.on_segment_opened("/r/huya_123_b_part002.flv".to_string()), WorkerAction::WriteChunk);
    assert_eq!(w.snapshot.segment_index, 2);
    assert_eq!(w.on_write_ok(), WorkerAction::ReadChunk);
    assert_eq!(w.snapshot.bytes_written, 150);
    assert_eq!(w.on_stream_end(), WorkerAction::Flush);
    assert_eq!(w.on_flush_ok(), WorkerAction::Resolve);
    assert_eq!(w.on_resolved(Ok("https://x/z.flv".to_string())), WorkerAction::SleepThenAttempt(2));
    assert_eq!(w.snapshot.message.as_deref(), Some("stream_reconnect"));
    assert_eq!(w.stream_url, "https://x/z.flv");
}

#[test]
fn stop_flushes_then_stops() {
    let mut w = worker(30);
    w.on_response(200);
    w.on_segment_opened("/f".to_string());
    assert_eq!(w.on_chunk(true, 10, 5), WorkerAction::Flush);
    assert_eq!(w.on_flush_ok(), WorkerAction::Exit);
    assert_eq!(w.snapshot.status, "stopped");
    assert_eq!(w.snapshot.message.as_deref(), Some("stopped_by_user"));
    assert!(!w.unflushed);
}

#[test]
fn local_failures_are_terminal() {
    let mut w = worker(30);
    w.on_response(200);
    assert_eq!(w.on_segment_open_failed("denied"), WorkerAction::Exit);
    assert_eq!(w.snapshot.status, "failed");
    assert_eq!(w.snapshot.message.as_deref(), Some("failed_to_open_output_file: denied"));
    let mut w2 = worker(30);
    w2.on_response(200);
    w2.on_segment_opened("/f".to_string());
    w2.on_chunk(false, 1, 0);
    assert_eq!(w2.on_write_failed("disk full"), WorkerAction::Exit);
    assert_eq!(w2.snapshot.message.as_deref(), Some("write_failed: disk full"));
    w2.finish(false);
    assert_eq!(w2.snapshot.status, "failed");
    let mut w3 = worker(30);
    assert_eq!(w3.on_flush_failed("io"), WorkerAction::Exit);
    assert_eq!(w3.snapshot.message.as_deref(), Some("flush_failed: io"));
}

#[test]
fn read_error_and_worker_exit() {
    let mut w = worker(30);
    assert_eq!(w.on_read_error("reset"), WorkerAction::Flush);
    assert_eq!(w.snapshot.message.as_deref(), Some("stream_read_error: reset"));
    assert_eq!(w.on_flush_ok(), WorkerAction::Resolve);
    assert_eq!(w.on_resolved(Err("timeout".to_string())), WorkerAction::SleepThenAttempt(3));
    assert_eq!(w.offline_attempts, 0);
    w.finish(false);
    assert_eq!(w.snapshot.status, "stopped");
    assert_eq!(w.snapshot.message.as_deref(), Some("worker_exit"));
    let mut w2 = worker(30);
    assert_eq!(w2.begin_attempt(true), WorkerAction::Exit);
    assert_eq!(w2.snapshot.message.as_deref(), Some("stopped_by_user"));
}

#[test]
fn stop_all_then_list_is_empty() {
    let mut m: RecordingManager<u8> = RecordingManager::new();
    for (i, id) in ["a", "b"].iter().enumerate() {
        let r = m.insert(RecordingRuntime {
            task_id: id.to_string(),
            platform: "HUYA".to_string(),
            room_id: i.to_string(),
            runtime: 0,
        });
        assert!(r.is_none());
    }
    let dup = m.insert(RecordingRuntime { task_id: "a".to_string(), platform: "X".to_string(), room_id: "z".to_string(), runtime: 1 });
    assert!(dup.is_some());
    assert!(m.remove("zzz").is_none());
    assert_eq!(m.len(), 2);
    assert!(m.remove("a").is_some());
    assert!(!m.contains("a"));
    let drained = m.drain();
    assert_eq!(drained.len(), 1);
    assert_eq!(m.len(), 0);
}

#[test]
fn worker_start_and_segment_path() {
    let plan = plan_recording(&payload("huya", "123"), "/d").ok().unwrap();
    let w = RecordingWorker::start(&plan, "https://x/y.flv".to_string());
    assert_eq!(w.snapshot.task_id.len(), 32);
    assert_eq!(w.snapshot.status, "starting");
    assert_eq!(w.snapshot.updated_at, w.snapshot.started_at);
    assert!(w.snapshot.current_file.is_none());
    assert!(w.snapshot.message.is_none());
    assert_eq!(w.reconnect_attempts, 0);
    let e = w.status_event();
    assert_eq!(e.platform, "HUYA");
    assert_eq!(e.room_id, "123");
    let r = w.start_response();
    assert_eq!(r.task_id, w.snapshot.task_id);
    assert_eq!(r.resolved_stream_url, "https://x/y.flv");
    assert_eq!(r.output_dir, "/rec/HUYA/123");
    let p = w.segment_path(7);
    assert!(p.starts_with("/rec/HUYA/123/huya_123_"));
    assert!(p.ends_with("_part007.flv"));
    assert_eq!(p.len(), "/rec/HUYA/123/huya_123_".len() + 15 + "_part007.flv".len());
}

#[test]
fn roll_counts_the_triggering_chunk() {
    let mut w = worker(1);
    w.on_response(200);
    w.on_segment_opened("/a".to_string());
    assert_eq!(w.on_chunk(false, 77, 60_000), WorkerAction::Flush);
    assert_eq!(w.on_flush_ok(), WorkerAction::OpenSegment(2));
    assert_eq!(w.pending, 77);
    assert_eq!(w.on_segment_opened("/b".to_string()), WorkerAction::WriteChunk);
    assert_eq!(w.on_write_ok(), WorkerAction::ReadChunk);
    assert_eq!(w.snapshot.bytes_written, 77);
    assert_eq!(w.snapshot.current_file.as_deref(), Some("/b"));
}

#[test]
fn stopping_one_task_keeps_the_others() {
    let mut m: RecordingManager<u8> = RecordingManager::new();
    for (i, id) in ["a", "b", "c"].iter().enumerate() {
        assert!(m
            .insert(RecordingRuntime {
                task_id: id.to_string(),
                platform: "HUYA".to_string(),
                room_id: i.to_string(),
                runtime: i as u8,
            })
            .is_none());
    }
    assert_eq!(m.remove("b").unwrap().runtime, 1);
    let left: Vec<(String, u8)> = m.tasks.iter().map(|t| (t.task_id.clone(), t.runtime)).collect();
    assert_eq!(left, vec![("a".to_string(), 0), ("c".to_string(), 2)]);
}
