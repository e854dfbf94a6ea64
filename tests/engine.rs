use norddrop::api_config;
use norddrop::chunk::{decode_chunk, encode_chunk, Uploader, CHUNK_SIZE};
use norddrop::client_v2;
use norddrop::client_v5::{HandlerInit, HandlerLoop};
use norddrop::config::{Config, DropConfig, PORT};
use norddrop::device::norddrop as Engine;
use norddrop::error::Error;
use norddrop::events::{FileEvent, FileEventTx, SinkCall};
use norddrop::ledger::{Ledger, Record, RecordKind};
use norddrop::manager::{FileState, FileTerminalState, TransferManager};
use norddrop::protocol::{Action, ClientMsg, ServerMsg};
use norddrop::reconnect::{
    fallback, retry_backoff_ms, ProtocolVersion, ReceiverEvent, ReceiverFile, ReceiverMsg, Reconnect,
    ReconnectDriver,
};
use norddrop::storage::{DbTransferType, TransferInfo, TransferPath, TransferType};

fn s(x: &str) -> String {
    x.to_string()
}

fn info(id: &str, files: &[(&str, i64)]) -> TransferInfo {
    TransferInfo {
        id: s(id),
        peer: s("192.168.0.2"),
        files: files
            .iter()
            .map(|(f, size)| TransferPath { id: s(f), path: format!("dir/{f}"), size: *size })
            .collect(),
    }
}

fn emits(acts: &[Action]) -> Vec<(String, FileEvent)> {
    acts.iter()
        .filter_map(|a| match a {
            Action::Emit { file, event, .. } => Some((file.clone(), *event)),
            _ => None,
        })
        .collect()
}

fn terminal_count(acts: &[Action]) -> usize {
    emits(acts).iter().filter(|(_, e)| e.is_terminal()).count()
}

#[test]
fn sink_emits_one_terminal_event() {
    let mut tx = FileEventTx::new(100, 0);
    assert_eq!(tx.success(), Some(FileEvent::Success));
    assert_eq!(tx.cancelled(true), None);
    assert_eq!(tx.failed(Error::BadFile), None);
    assert_eq!(tx.rejected(false), None);
    assert_eq!(tx.progress(50), None);
    assert!(tx.is_finished());
}

#[test]
fn sink_stop_silent_emits_nothing() {
    let mut tx = FileEventTx::new(100, 0);
    tx.stop_silent();
    assert_eq!(tx.success(), None);
    assert_eq!(tx.paused(), None);
}

#[test]
fn sink_progress_is_monotone_and_bounded() {
    let mut tx = FileEventTx::new(100, 10);
    assert_eq!(tx.progress(5), None);
    assert_eq!(tx.progress(40), Some(FileEvent::Progress(40)));
    assert_eq!(tx.progress(30), None);
    assert_eq!(tx.progress(101), None);
    assert_eq!(tx.progress(100), Some(FileEvent::Progress(100)));
    assert_eq!(tx.last_progress(), 100);
    assert_eq!(tx.apply(SinkCall::Paused), Some(FileEvent::Paused));
}

#[test]
fn manager_rejects_duplicates_and_bad_files() {
    let mut m = TransferManager::new();
    assert_eq!(m.insert_outgoing(&info("t1", &[("a", 10)])), Ok(()));
    assert_eq!(m.insert_incoming(&info("t1", &[("b", 10)])), Err(Error::TransferAlreadyExists));
    assert_eq!(m.insert_outgoing(&info("t2", &[("a", 1), ("a", 2)])), Err(Error::BadTransfer));
    assert_eq!(m.insert_outgoing(&info("t3", &[("a", -1)])), Err(Error::BadFile));
    assert_eq!(m.len(), 1);
}

#[test]
fn manager_first_terminal_wins() {
    let mut m = TransferManager::new();
    m.insert_outgoing(&info("t", &[("a", 10)])).unwrap();
    let (x, f) = (s("t"), s("a"));
    let first = m.outgoing_terminal_recv(&x, &f, FileTerminalState::Cancelled { by_peer: true });
    assert_eq!(first, Ok(Some(FileEvent::Cancelled { by_peer: true })));
    let second = m.outgoing_terminal_recv(&x, &f, FileTerminalState::Completed);
    assert_eq!(second, Ok(None));
    assert_eq!(m.outgoing_ensure_file_not_terminated(&x, &f), Err(Error::BadTransferState));
    assert_eq!(m.incoming_terminal_recv(&x, &f, FileTerminalState::Completed), Err(Error::BadTransfer));
    assert_eq!(m.outgoing_terminal_recv(&x, &s("zz"), FileTerminalState::Completed), Err(Error::FileNotFound));
}

#[test]
fn manager_done_then_cancel_keeps_done() {
    let mut m = TransferManager::new();
    m.insert_outgoing(&info("t", &[("a", 10)])).unwrap();
    let (x, f) = (s("t"), s("a"));
    assert_eq!(m.start_file(TransferType::Outgoing, &x, &f), Ok(true));
    assert_eq!(m.start_file(TransferType::Outgoing, &x, &f), Ok(false));
    assert_eq!(m.outgoing_terminal_recv(&x, &f, FileTerminalState::Completed), Ok(Some(FileEvent::Success)));
    assert_eq!(m.outgoing_terminal_recv(&x, &f, FileTerminalState::Cancelled { by_peer: false }), Ok(None));
    assert_eq!(m.start_file(TransferType::Outgoing, &x, &f), Err(Error::BadTransferState));
    assert!(FileState::Completed.is_terminal());
}

#[test]
fn manager_cancel_transfer_lists_live_files() {
    let mut m = TransferManager::new();
    m.insert_outgoing(&info("t", &[("a", 10), ("b", 10), ("c", 10)])).unwrap();
    let x = s("t");
    m.outgoing_terminal_recv(&x, &s("b"), FileTerminalState::Completed).unwrap();
    assert!(!m.is_done(&x));
    assert_eq!(m.cancel_transfer(&x), Ok(vec![s("a"), s("c")]));
    assert!(m.is_done(&x));
    assert!(m.evict_if_done(&x));
    assert_eq!(m.len(), 0);
    assert_eq!(m.cancel_transfer(&x), Err(Error::BadTransfer));
}

fn v5_setup(files: &[(&str, i64)]) -> (TransferManager, HandlerLoop) {
    let mut m = TransferManager::new();
    m.insert_outgoing(&info("t", files)).unwrap();
    let init = HandlerInit::new(&DropConfig::default());
    (m, init.upgrade(s("t")))
}

#[test]
fn v5_start_progress_done() {
    let (mut m, mut l) = v5_setup(&[("a", 100)]);
    let f = s("a");
    let acts = l.on_server_msg(&mut m, &ServerMsg::Start { file: f.clone(), offset: 0 });
    assert!(matches!(&acts[..], [Action::Upload { file, offset: 0 }] if file == "a"));
    let acts = l.on_server_msg(&mut m, &ServerMsg::Progress { file: f.clone(), bytes_transfered: 60 });
    assert_eq!(emits(&acts), vec![(s("a"), FileEvent::Progress(60))]);
    let acts = l.on_server_msg(&mut m, &ServerMsg::Progress { file: f.clone(), bytes_transfered: 30 });
    assert!(acts.is_empty());
    let acts = l.on_server_msg(&mut m, &ServerMsg::Done { file: f.clone(), bytes_transfered: 100 });
    assert_eq!(emits(&acts), vec![(s("a"), FileEvent::Success)]);
    let acts = l.on_server_msg(&mut m, &ServerMsg::Done { file: f.clone(), bytes_transfered: 100 });
    assert!(acts.is_empty());
    assert_eq!(l.task_state(&f), None);
}

#[test]
fn v5_start_while_running_is_refused() {
    let (mut m, mut l) = v5_setup(&[("a", 100)]);
    let f = s("a");
    l.on_start(&mut m, &f, 0);
    let acts = l.on_start(&mut m, &f, 10);
    assert!(matches!(&acts[..], [Action::Send(ClientMsg::Error { file: Some(x), error: Error::TransferInProgress })] if x == "a"));
    l.task_finished(&f);
    let acts = l.on_start(&mut m, &f, 10);
    assert!(matches!(&acts[..], [Action::Upload { offset: 10, .. }]));
}

#[test]
fn v5_cancel_and_done_race_emits_once() {
    let (mut m, mut l) = v5_setup(&[("a", 100)]);
    let f = s("a");
    l.on_start(&mut m, &f, 0);
    let mut all = l.on_cancel(&mut m, &f, true);
    all.extend(l.on_done(&mut m, &f));
    assert_eq!(terminal_count(&all), 1);
    assert_eq!(emits(&all), vec![(s("a"), FileEvent::Cancelled { by_peer: true })]);
    assert!(matches!(all[0], Action::Abort { .. }));
}

#[test]
fn v5_reject_then_upload_other_file() {
    let (mut m, mut l) = v5_setup(&[("f1", 10), ("f2", 10)]);
    let acts = l.on_server_msg(&mut m, &ServerMsg::Reject { file: s("f1") });
    assert_eq!(emits(&acts), vec![(s("f1"), FileEvent::Rejected { by_peer: true })]);
    let acts = l.on_server_msg(&mut m, &ServerMsg::Start { file: s("f1"), offset: 0 });
    assert!(matches!(&acts[..], [Action::Send(ClientMsg::Error { error: Error::BadTransferState, .. })]));
    l.on_server_msg(&mut m, &ServerMsg::Start { file: s("f2"), offset: 0 });
    let acts = l.on_server_msg(&mut m, &ServerMsg::Done { file: s("f2"), bytes_transfered: 10 });
    assert_eq!(emits(&acts), vec![(s("f2"), FileEvent::Success)]);
    let acts = l.on_close(&mut m, true);
    assert!(matches!(&acts[..], [Action::TransferCanceled { by_peer: true }]));
}

#[test]
fn v5_checksum_request_and_report() {
    let (mut m, mut l) = v5_setup(&[("a", 100)]);
    let f = s("a");
    let acts = l.on_server_msg(&mut m, &ServerMsg::ReqChsum { file: f.clone(), limit: 50 });
    assert!(matches!(&acts[..], [Action::Checksum { limit: 50, .. }]));
    let acts = l.on_checksum_result(&mut m, &f, 50, Ok(vec![1, 2, 3]));
    assert!(matches!(&acts[..], [Action::Send(ClientMsg::ReportChsum { limit: 50, checksum, .. })] if checksum == &vec![1u8, 2, 3]));
    let acts = l.on_checksum_result(&mut m, &f, 50, Err(Error::IoError(5)));
    assert_eq!(emits(&acts), vec![(s("a"), FileEvent::Failed(Error::IoError(5)))]);
    let acts = l.on_checksum(&mut m, &f, 50);
    assert!(matches!(&acts[..], [Action::Send(ClientMsg::Error { error: Error::BadTransferState, .. })]));
}

#[test]
fn v5_error_from_receiver_fails_file() {
    let (mut m, mut l) = v5_setup(&[("a", 100)]);
    let f = s("a");
    l.on_start(&mut m, &f, 0);
    let acts = l.on_server_msg(&mut m, &ServerMsg::Error { file: Some(f.clone()), msg: s("disk full") });
    assert_eq!(emits(&acts), vec![(s("a"), FileEvent::Failed(Error::BadTransferState))]);
    assert!(matches!(&acts[0], Action::Emit { detail: Some(d), .. } if d == "disk full"));
    assert!(matches!(acts[1], Action::Abort { .. }));
    let acts = l.on_server_msg(&mut m, &ServerMsg::Error { file: None, msg: s("oops") });
    assert!(acts.is_empty());
}

#[test]
fn v5_recv_timeout_saturates() {
    let (_m, l) = v5_setup(&[("a", 1)]);
    assert_eq!(l.recv_timeout(10_000), 50_000);
    assert_eq!(l.recv_timeout(70_000), 0);
    let init = HandlerInit::new(&DropConfig::default());
    assert_eq!(init.pinger(), 30_000);
}

#[test]
fn v5_transfer_request_lists_files() {
    let init = HandlerInit::new(&DropConfig::default());
    let msg = init.start(&info("t", &[("a", 7)]));
    match msg {
        ClientMsg::TransferRequest { id, files } => {
            assert_eq!(id, "t");
            assert_eq!(files.len(), 1);
            assert_eq!(files[0].id, "a");
            assert_eq!(files[0].path, "dir/a");
            assert_eq!(files[0].size, 7);
        }
        _ => panic!("not a transfer request"),
    }
}

#[test]
fn v2_download_starts_at_zero_and_close_cancels() {
    let mut m = TransferManager::new();
    m.insert_outgoing(&info("t", &[("a", 100), ("b", 100)])).unwrap();
    let init = client_v2::HandlerInit::new(&DropConfig::default(), true);
    assert_eq!(init.pinger(), Some(30_000));
    let mut l = init.upgrade(s("t"));
    let acts = l.on_server_msg(&mut m, &client_v2::V2ServerMsg::Start { file: s("a") });
    assert!(matches!(&acts[..], [Action::Upload { offset: 0, .. }]));
    let acts = l.on_server_msg(&mut m, &client_v2::V2ServerMsg::Start { file: s("a") });
    assert!(acts.is_empty());
    let acts = l.on_server_msg(&mut m, &client_v2::V2ServerMsg::Error { file: Some(s("a")), msg: s("x") });
    assert_eq!(emits(&acts), vec![(s("a"), FileEvent::Failed(Error::BadTransfer))]);
    l.on_download(&mut m, &s("b"));
    let acts = l.on_close(&mut m, false);
    assert!(matches!(&acts[..], [Action::Abort { .. }, Action::TransferCanceled { by_peer: false }]));
    assert_eq!(l.recv_timeout(1_000), Some(59_000));
}

#[test]
fn v2_issue_cancel_tells_peer() {
    let mut m = TransferManager::new();
    m.insert_outgoing(&info("t", &[("a", 100)])).unwrap();
    let mut l = client_v2::HandlerLoop::new(s("t"), 60_000, false);
    l.on_download(&mut m, &s("a"));
    let acts = l.on_req(&mut m, &client_v2::ClientReq::Cancel { file: s("a") });
    assert!(matches!(&acts[0], Action::Send(ClientMsg::Cancel { file }) if file == "a"));
    assert_eq!(emits(&acts), vec![(s("a"), FileEvent::Cancelled { by_peer: false })]);
    assert_eq!(l.recv_timeout(1_000), None);
    let acts = l.finalize_failure(Error::TransferTimeout);
    assert!(matches!(&acts[..], [Action::TransferFailed { error: Error::TransferTimeout }]));
}

fn rec(x: &str, at: i64, kind: RecordKind) -> Record {
    Record { transfer_id: s(x), created_at: at, kind }
}

#[test]
fn ledger_keeps_state_machine_order() {
    let mut l = Ledger::new();
    l.insert_transfer(&info("t", &[("a", 10)]), TransferType::Outgoing, 100).unwrap();
    let done = rec("t", 101, RecordKind::FileCompleted { file_id: s("a"), final_path: s("") });
    assert_eq!(l.append(done), Err(Error::BadTransferState));
    assert_eq!(l.append(rec("t", 102, RecordKind::FileStarted { file_id: s("a"), bytes: 0 })), Ok(()));
    assert_eq!(l.append(rec("t", 103, RecordKind::FileCompleted { file_id: s("a"), final_path: s("") })), Ok(()));
    let cancel = rec("t", 104, RecordKind::FileCanceled { file_id: s("a"), by_peer: true, bytes: 10 });
    assert_eq!(l.append(cancel), Err(Error::BadTransferState));
    assert_eq!(l.append(rec("x", 104, RecordKind::Active)), Err(Error::BadTransfer));
    let unknown = rec("t", 105, RecordKind::FileStarted { file_id: s("zz"), bytes: 0 });
    assert_eq!(l.append(unknown), Err(Error::BadTransferState));
    assert_eq!(l.insert_transfer(&info("t", &[]), TransferType::Incoming, 1), Err(Error::TransferAlreadyExists));
}

#[test]
fn ledger_history_reads_back_states() {
    let mut l = Ledger::new();
    l.insert_transfer(&info("t", &[("a", 10)]), TransferType::Incoming, 100).unwrap();
    l.append(rec("t", 101, RecordKind::FileStarted { file_id: s("a"), bytes: 0 })).unwrap();
    l.append(rec("t", 102, RecordKind::FileCompleted { file_id: s("a"), final_path: s("/dl/a") })).unwrap();
    l.append(rec("t", 103, RecordKind::Canceled { by_peer: true })).unwrap();
    let h = l.transfers_since(0);
    assert_eq!(h.len(), 1);
    let t = &h[0];
    assert_eq!(t.id, "t");
    assert_eq!(t.created_at, 100);
    assert_eq!(t.cancel_states.len(), 1);
    assert_eq!(t.cancel_states[0].by_peer, 1);
    match &t.transfer_type {
        DbTransferType::Incoming(ps) => {
            assert_eq!(ps.len(), 1);
            assert_eq!(ps[0].pending_states.len(), 1);
            assert_eq!(ps[0].started_states[0].bytes_received, 0);
            assert_eq!(ps[0].completed_states[0].final_path, "/dl/a");
            assert_eq!(ps[0].completed_states[0].created_at, 102);
        }
        _ => panic!("expected an incoming transfer"),
    }
    assert!(l.transfers_since(101).is_empty());
}

#[test]
fn ledger_purges() {
    let mut l = Ledger::new();
    l.insert_transfer(&info("old", &[]), TransferType::Outgoing, 10).unwrap();
    l.insert_transfer(&info("mid", &[]), TransferType::Outgoing, 20).unwrap();
    l.insert_transfer(&info("new", &[]), TransferType::Outgoing, 30).unwrap();
    l.purge_until(20);
    assert_eq!(l.len(), 2);
    assert_eq!(l.purge_transfers("[\"mid\"]"), Ok(()));
    assert_eq!(l.len(), 1);
    assert_eq!(l.transfers_since(0)[0].id, "new");
    assert_eq!(l.purge_transfers("not json"), Err(Error::BadInput));
    assert_eq!(l.purge_transfers("{\"a\": 1}"), Err(Error::BadInput));
    assert_eq!(l.len(), 1);
}

#[test]
fn ledger_replay_rebuilds_history() {
    let mut l = Ledger::new();
    l.insert_transfer(&info("t", &[("a", 10), ("b", 5)]), TransferType::Outgoing, 100).unwrap();
    l.insert_transfer(&info("u", &[("c", 1)]), TransferType::Incoming, 200).unwrap();
    l.append(rec("t", 101, RecordKind::FileStarted { file_id: s("a"), bytes: 0 })).unwrap();
    l.append(rec("u", 201, RecordKind::FileFailed { file_id: s("c"), status_code: 6, bytes: 0 })).unwrap();
    l.append(rec("t", 102, RecordKind::FileCanceled { file_id: s("b"), by_peer: false, bytes: 3 })).unwrap();
    let again = Ledger::replay(&l.events());
    assert_eq!(format!("{:?}", again.transfers_since(0)), format!("{:?}", l.transfers_since(0)));
    assert_eq!(again.len(), 2);
}

#[test]
fn backoff_doubles_up_to_cap() {
    assert_eq!(retry_backoff_ms(0, 10_000), 200);
    assert_eq!(retry_backoff_ms(1, 10_000), 400);
    assert_eq!(retry_backoff_ms(2, 10_000), 800);
    assert_eq!(retry_backoff_ms(3, 10_000), 1_000);
    assert_eq!(retry_backoff_ms(40, 10_000), 1_000);
    assert_eq!(retry_backoff_ms(3, 100_000), 1_600);
    assert_eq!(fallback(ProtocolVersion::V5), Some(ProtocolVersion::V2));
    assert_eq!(fallback(ProtocolVersion::V2), None);
}

#[test]
fn no_retries_fails_with_connection_lost() {
    let mut d = ReconnectDriver::new(0, 10_000);
    assert_eq!(d.on_disconnect(), Reconnect::Fail(Error::ConnectionLost));
}

#[test]
fn retries_until_exhausted() {
    let mut d = ReconnectDriver::new(2, 10_000);
    assert_eq!(d.on_disconnect(), Reconnect::Retry { delay_ms: 200, version: ProtocolVersion::V5 });
    assert_eq!(d.on_disconnect(), Reconnect::Retry { delay_ms: 400, version: ProtocolVersion::V5 });
    assert_eq!(d.on_disconnect(), Reconnect::Fail(Error::ConnectionLost));
    d.on_connected();
    assert_eq!(d.attempts, 0);
}

#[test]
fn receiver_resumes_at_last_ack() {
    let mut r = ReceiverFile::new(200_000);
    assert_eq!(r.on_event(ReceiverEvent::Chunk(50_000)), Some(ReceiverMsg::Progress(50_000)));
    assert_eq!(r.on_event(ReceiverEvent::Reconnected), Some(ReceiverMsg::ReqChsum(50_000)));
    let ok = ReceiverEvent::Checksum { limit: 50_000, matches: true };
    assert_eq!(r.on_event(ok), Some(ReceiverMsg::Start(50_000)));
    let bad = ReceiverEvent::Checksum { limit: 50_000, matches: false };
    assert_eq!(r.on_event(bad), Some(ReceiverMsg::Mismatch));
    assert_eq!(r.on_event(ReceiverEvent::Chunk(200_000)), None);
    assert_eq!(r.on_event(ReceiverEvent::Chunk(150_000)), Some(ReceiverMsg::Progress(200_000)));
    let mut fresh = ReceiverFile::new(10);
    assert_eq!(fresh.on_event(ReceiverEvent::Reconnected), Some(ReceiverMsg::Start(0)));
}

#[test]
fn chunk_frame_round_trip() {
    let id = b"file-id".to_vec();
    let data: Vec<u8> = (0..300u32).map(|i| (i * 7 % 256) as u8).collect();
    let frame = encode_chunk(&id, &data).unwrap();
    assert_eq!(&frame[..2], &[0, 7]);
    assert_eq!(frame.len(), 2 + 7 + 300);
    let (id2, data2) = decode_chunk(&frame).unwrap();
    assert_eq!(id2, id);
    assert_eq!(data2, data);
    assert!(decode_chunk(&[0]).is_none());
    assert!(decode_chunk(&[0, 9, 1, 2]).is_none());
    assert!(encode_chunk(&vec![b'x'; 70_000], &[]).is_none());
}

#[test]
fn file_round_trip_through_chunks() {
    let file: Vec<u8> = (0..200_000u32).map(|i| (i.wrapping_mul(2654435761) >> 24) as u8).collect();
    let up = Uploader::new(s("f"), 0);
    let mut received: Vec<u8> = Vec::new();
    let mut pos = up.offset();
    while pos < file.len() as u64 {
        let end = norddrop::chunk::chunk_end(pos, file.len() as u64);
        assert!(end - pos <= CHUNK_SIZE);
        let frame = up.chunk(&file[pos as usize..end as usize]).unwrap();
        let (id, data) = decode_chunk(&frame).unwrap();
        assert_eq!(id, b"f".to_vec());
        received.extend_from_slice(&data);
        pos = end;
    }
    assert_eq!(received, file);
}

#[test]
fn config_defaults() {
    let c = Config::default();
    assert_eq!(c.drop.dir_depth_limit, 5);
    assert_eq!(c.drop.transfer_file_limit, 1000);
    assert_eq!(c.drop.storage_path, "libdrop.sqlite");
    assert_eq!(c.drop.ping_interval(), 30_000);
    assert_eq!(c.drop.connection_retries, 5);
    assert_eq!(PORT, 49111);
}

#[test]
fn api_config_converts() {
    let api = api_config::Config {
        dir_depth_limit: 3,
        transfer_file_limit: 10,
        moose_event_path: s("/tmp/moose"),
        moose_prod: true,
        storage_path: s("db"),
        checksum_events_size_threshold: Some(1024),
        connection_retries: None,
        connection_max_retry_interval_ms: Some(5_000),
        transfer_idle_lifetime_ms: None,
    };
    let c: Config = api.into();
    assert_eq!(c.drop.dir_depth_limit, 3);
    assert_eq!(c.drop.transfer_file_limit, 10);
    assert_eq!(c.drop.connection_retries, api_config::Config::default_connection_retries());
    assert_eq!(c.drop.connection_retries, 5);
    assert_eq!(c.drop.connection_max_retry_interval_ms, 5_000);
    assert_eq!(c.drop.transfer_idle_lifetime_ms, 60_000);
    assert_eq!(c.drop.checksum_events_size_threshold, Some(1024));
    assert_eq!(c.moose.event_path, "/tmp/moose");
    assert!(c.moose.prod);
}

#[test]
fn engine_refuses_too_deep_directory() {
    let mut e = Engine::new(DropConfig::default());
    let r = e.new_transfer(&info("t", &[("a", 1)]), 7, 1);
    assert_eq!(r, Err(Error::DirectoryTooDeep));
    assert!(e.transfers_since(0).is_empty());
    assert_eq!(e.manager.len(), 0);
}

#[test]
fn engine_refuses_too_many_files() {
    let mut cfg = DropConfig::default();
    cfg.transfer_file_limit = 1;
    let mut e = Engine::new(cfg);
    let r = e.new_transfer(&info("t", &[("a", 1), ("b", 1)]), 0, 1);
    assert_eq!(r, Err(Error::TooManyFiles));
    assert_eq!(e.new_transfer(&info("t", &[("a", 1)]), 0, 1), Ok(()));
    assert_eq!(e.accept_incoming(&info("t", &[("a", 1)]), 0, 1), Err(Error::TransferAlreadyExists));
}

#[test]
fn engine_transfer_runs_to_completion() {
    let mut e = Engine::new(DropConfig::default());
    let (x, f) = (s("t"), s("file"));
    e.new_transfer(&info("t", &[("file", 100_000)]), 1, 10).unwrap();
    assert_eq!(e.start_file(TransferType::Outgoing, &x, &f, 0, 11), Ok(true));
    let r = e.commit_terminal(TransferType::Outgoing, &x, &f, FileTerminalState::Completed, 100_000, &s(""), 12);
    assert_eq!(r, Ok(Some(FileEvent::Success)));
    let h = e.transfers_since(0);
    match &h[0].transfer_type {
        DbTransferType::Outgoing(ps) => {
            assert_eq!(ps[0].pending_states.len(), 1);
            assert_eq!(ps[0].started_states.len(), 1);
            assert_eq!(ps[0].completed_states.len(), 1);
            assert_eq!(ps[0].cancel_states.len(), 0);
        }
        _ => panic!("expected an outgoing transfer"),
    }
}

#[test]
fn engine_cancel_after_done_records_nothing_more() {
    let mut e = Engine::new(DropConfig::default());
    let (x, f) = (s("t"), s("file"));
    e.accept_incoming(&info("t", &[("file", 100)]), 1, 10).unwrap();
    e.start_file(TransferType::Incoming, &x, &f, 0, 11).unwrap();
    let first = e.commit_terminal(TransferType::Incoming, &x, &f, FileTerminalState::Cancelled { by_peer: false }, 10, &s(""), 12);
    assert_eq!(first, Ok(Some(FileEvent::Cancelled { by_peer: false })));
    let second = e.commit_terminal(TransferType::Incoming, &x, &f, FileTerminalState::Completed, 100, &s("/dl/file"), 13);
    assert_eq!(second, Ok(None));
    let h = e.transfers_since(0);
    match &h[0].transfer_type {
        DbTransferType::Incoming(ps) => {
            assert_eq!(ps[0].cancel_states.len(), 1);
            assert_eq!(ps[0].cancel_states[0].by_peer, 0);
            assert_eq!(ps[0].cancel_states[0].bytes_received, 10);
            assert!(ps[0].completed_states.is_empty());
        }
        _ => panic!("expected an incoming transfer"),
    }
    let acts = e.cancel_transfer(&x, true, 14).unwrap();
    assert!(matches!(&acts[..], [Action::TransferCanceled { by_peer: true }]));
    assert_eq!(e.transfers_since(0)[0].cancel_states.len(), 1);
    e.purge_transfers_until(100);
    assert!(e.transfers_since(0).is_empty());
    assert_eq!(e.purge_transfers("[]"), Ok(()));
}

#[test]
fn error_codes_are_distinct() {
    let all = [
        Error::Canceled,
        Error::BadTransfer,
        Error::BadTransferState,
        Error::BadFile,
        Error::BadPath,
        Error::IoError(2),
        Error::TransferTimeout,
        Error::FileRejected,
        Error::FileNotFound,
        Error::ConnectionLost,
        Error::PeerDisconnected,
        Error::AuthenticationFailed,
        Error::InvalidConfig,
        Error::DirectoryTooDeep,
        Error::TooManyFiles,
        Error::TransferAlreadyExists,
        Error::LedgerError,
        Error::BadInput,
        Error::TransferInProgress,
    ];
    let mut codes: Vec<u32> = all.iter().map(|e| e.status_code()).collect();
    codes.sort();
    codes.dedup();
    assert_eq!(codes.len(), all.len());
    assert!(Error::IoError(1).is_file_level());
    assert!(!Error::BadTransfer.is_file_level());
}

#[test]
fn v2_done_without_task_is_ignored() {
    let mut m = TransferManager::new();
    m.insert_outgoing(&info("t", &[("a", 100)])).unwrap();
    let mut l = client_v2::HandlerLoop::new(s("t"), 60_000, true);
    let acts = l.on_server_msg(&mut m, &client_v2::V2ServerMsg::Done { file: s("a"), bytes_transfered: 100 });
    assert!(acts.is_empty());
    assert_eq!(m.outgoing_ensure_file_not_terminated(&s("t"), &s("a")), Ok(()));
    l.on_download(&mut m, &s("a"));
    let acts = l.on_done(&mut m, &s("a"));
    assert_eq!(emits(&acts), vec![(s("a"), FileEvent::Success)]);
}

#[test]
fn v5_peer_close_cancels_open_files_first() {
    let (mut m, mut l) = v5_setup(&[("a", 100), ("b", 100), ("c", 100)]);
    l.on_start(&mut m, &s("a"), 0);
    l.on_done(&mut m, &s("b"));
    let acts = l.on_close(&mut m, true);
    assert_eq!(
        emits(&acts),
        vec![(s("a"), FileEvent::Cancelled { by_peer: true }), (s("c"), FileEvent::Cancelled { by_peer: true })]
    );
    assert!(matches!(acts.last(), Some(Action::TransferCanceled { by_peer: true })));
    assert_eq!(m.outgoing_ensure_file_not_terminated(&s("t"), &s("a")), Err(Error::BadTransferState));
    assert_eq!(l.task_state(&s("a")), None);
}

#[test]
fn v5_local_close_only_stops() {
    let (mut m, mut l) = v5_setup(&[("a", 100)]);
    l.on_start(&mut m, &s("a"), 0);
    let acts = l.on_close(&mut m, false);
    assert!(acts.is_empty());
    assert_eq!(m.outgoing_ensure_file_not_terminated(&s("t"), &s("a")), Ok(()));
}

#[test]
fn v2_peer_close_cancels_open_files_first() {
    let mut m = TransferManager::new();
    m.insert_outgoing(&info("t", &[("a", 100)])).unwrap();
    let mut l = client_v2::HandlerLoop::new(s("t"), 60_000, true);
    l.on_download(&mut m, &s("a"));
    let acts = l.on_close(&mut m, true);
    assert_eq!(emits(&acts), vec![(s("a"), FileEvent::Cancelled { by_peer: true })]);
    assert!(matches!(&acts[1..], [Action::Abort { .. }, Action::TransferCanceled { by_peer: true }]));
}

#[test]
fn engine_cancel_transfer_cancels_each_file() {
    let mut e = Engine::new(DropConfig::default());
    let x = s("t");
    e.new_transfer(&info("t", &[("a", 100), ("b", 100)]), 1, 10).unwrap();
    e.start_file(TransferType::Outgoing, &x, &s("a"), 0, 11).unwrap();
    e.manager.progress(TransferType::Outgoing, &x, &s("a"), 40).unwrap();
    let acts = e.cancel_transfer(&x, false, 12).unwrap();
    assert_eq!(
        emits(&acts),
        vec![(s("a"), FileEvent::Cancelled { by_peer: false }), (s("b"), FileEvent::Cancelled { by_peer: false })]
    );
    assert!(matches!(acts.last(), Some(Action::TransferCanceled { by_peer: false })));
    let h = e.transfers_since(0);
    assert_eq!(h[0].cancel_states.len(), 1);
    match &h[0].transfer_type {
        DbTransferType::Outgoing(ps) => {
            assert_eq!(ps[0].cancel_states.len(), 1);
            assert_eq!(ps[0].cancel_states[0].bytes_sent, 40);
            assert_eq!(ps[1].cancel_states.len(), 1);
        }
        _ => panic!("expected an outgoing transfer"),
    }
    assert_eq!(e.cancel_transfer(&s("zz"), false, 13).map(|a| a.len()), Err(Error::BadTransfer));
}

#[test]
fn engine_records_loop_terminal_events() {
    let mut e = Engine::new(DropConfig::default());
    let x = s("t");
    e.new_transfer(&info("t", &[("a", 100), ("b", 100)]), 1, 10).unwrap();
    let mut l = HandlerInit::new(&DropConfig::default()).upgrade(x.clone());
    e.start_file(TransferType::Outgoing, &x, &s("a"), 0, 11).unwrap();
    e.v5_on_server_msg(&mut l, &ServerMsg::Start { file: s("a"), offset: 0 }, 11);
    let acts = e.v5_on_server_msg(&mut l, &ServerMsg::Done { file: s("a"), bytes_transfered: 100 }, 12);
    assert_eq!(emits(&acts), vec![(s("a"), FileEvent::Success)]);
    let acts = e.v5_on_close(&mut l, true, 13);
    assert_eq!(emits(&acts), vec![(s("b"), FileEvent::Cancelled { by_peer: true })]);
    let h = e.transfers_since(0);
    match &h[0].transfer_type {
        DbTransferType::Outgoing(ps) => {
            assert_eq!(ps[0].completed_states.len(), 1);
            assert_eq!(ps[0].completed_states[0].created_at, 12);
            assert_eq!(ps[1].cancel_states.len(), 1);
            assert_eq!(ps[1].cancel_states[0].by_peer, 1);
        }
        _ => panic!("expected an outgoing transfer"),
    }
}

#[test]
fn engine_records_v2_loop_events() {
    let mut e = Engine::new(DropConfig::default());
    let x = s("t");
    e.new_transfer(&info("t", &[("a", 100)]), 1, 10).unwrap();
    let mut l = client_v2::HandlerLoop::new(x.clone(), 60_000, true);
    e.start_file(TransferType::Outgoing, &x, &s("a"), 0, 11).unwrap();
    e.v2_on_server_msg(&mut l, &client_v2::V2ServerMsg::Start { file: s("a") }, 11);
    let msg = client_v2::V2ServerMsg::Error { file: Some(s("a")), msg: s("no space") };
    let acts = e.v2_on_server_msg(&mut l, &msg, 12);
    assert_eq!(emits(&acts), vec![(s("a"), FileEvent::Failed(Error::BadTransfer))]);
    let acts = e.v2_on_close(&mut l, false, 13);
    assert!(matches!(&acts[..], [Action::TransferCanceled { by_peer: false }]));
    match &e.transfers_since(0)[0].transfer_type {
        DbTransferType::Outgoing(ps) => {
            assert_eq!(ps[0].failed_states.len(), 1);
            assert_eq!(ps[0].failed_states[0].status_code, Error::BadTransfer.status_code() as i64);
        }
        _ => panic!("expected an outgoing transfer"),
    }
}
