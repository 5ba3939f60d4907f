use host_bridge::download::{percent, Phase, Progress, Transfer, TransferAction, TransferError, TransferEvent};

fn feed(t: &mut Transfer, event: TransferEvent, reports: &mut Vec<Progress>) -> TransferAction {
    let action = t.step(event);
    if let TransferAction::Report(p) = action {
        reports.push(p);
    }
    action
}

#[test]
fn chunks_report_growing_counts_ending_at_size() {
    let body: Vec<u8> = (0u8..10).collect();
    let chunks: Vec<&[u8]> = vec![&body[0..3], &body[3..6], &body[6..10]];
    let mut file: Vec<u8> = Vec::new();
    let mut reports = Vec::new();
    let mut t = Transfer::new();
    assert!(matches!(feed(&mut t, TransferEvent::Opened { content_length: Some(10) }, &mut reports), TransferAction::Continue));
    for c in &chunks {
        file.extend_from_slice(c);
        feed(&mut t, TransferEvent::Chunk { len: c.len() as u64 }, &mut reports);
    }
    let last = feed(&mut t, TransferEvent::End, &mut reports);
    let counts: Vec<u64> = reports.iter().map(|p| p.downloaded).collect();
    assert_eq!(counts, vec![3, 6, 10]);
    assert!(reports.iter().all(|p| p.total_size == 10));
    assert!(matches!(last, TransferAction::Complete { downloaded: 10 }));
    assert_eq!(file.len(), 10);
    assert_eq!(t.phase, Phase::Complete);
}

#[test]
fn unknown_length_reports_zero_total() {
    let mut reports = Vec::new();
    let mut t = Transfer::new();
    feed(&mut t, TransferEvent::Opened { content_length: None }, &mut reports);
    feed(&mut t, TransferEvent::Chunk { len: 5 }, &mut reports);
    assert_eq!(reports, vec![Progress { total_size: 0, downloaded: 5 }]);
    assert_eq!(percent(reports[0]), None);
}

#[test]
fn unreachable_address_aborts_without_progress() {
    let mut reports = Vec::new();
    let mut t = Transfer::new();
    let first = feed(&mut t, TransferEvent::Failed { error: TransferError::Network("connection refused".to_string()) }, &mut reports);
    match first {
        TransferAction::Abort(TransferError::Network(m)) => assert_eq!(m, "connection refused"),
        other => panic!("unexpected action {:?}", other),
    }
    feed(&mut t, TransferEvent::Opened { content_length: Some(4) }, &mut reports);
    feed(&mut t, TransferEvent::Chunk { len: 4 }, &mut reports);
    assert!(matches!(feed(&mut t, TransferEvent::End, &mut reports), TransferAction::Continue));
    assert!(reports.is_empty());
    assert_eq!(t.phase, Phase::Failed);
}

#[test]
fn failure_mid_body_stops_reports() {
    let mut reports = Vec::new();
    let mut t = Transfer::new();
    feed(&mut t, TransferEvent::Opened { content_length: Some(8) }, &mut reports);
    feed(&mut t, TransferEvent::Chunk { len: 2 }, &mut reports);
    let abort = feed(&mut t, TransferEvent::Failed { error: TransferError::Write("disk full".to_string()) }, &mut reports);
    assert!(matches!(abort, TransferAction::Abort(TransferError::Write(_))));
    feed(&mut t, TransferEvent::Chunk { len: 6 }, &mut reports);
    assert_eq!(reports.len(), 1);
    assert_eq!(reports[0].downloaded, 2);
    assert_eq!(t.downloaded, 2);
}

#[test]
fn error_status_aborts() {
    let mut t = Transfer::new();
    let a = t.step(TransferEvent::Failed { error: TransferError::Status(404) });
    assert!(matches!(a, TransferAction::Abort(TransferError::Status(404))));
}

#[test]
fn empty_body_completes_at_zero() {
    let mut t = Transfer::new();
    t.step(TransferEvent::Opened { content_length: Some(0) });
    assert!(matches!(t.step(TransferEvent::End), TransferAction::Complete { downloaded: 0 }));
}

#[test]
fn chunk_before_response_is_ignored() {
    let mut t = Transfer::new();
    assert!(matches!(t.step(TransferEvent::Chunk { len: 3 }), TransferAction::Continue));
    assert_eq!(t.downloaded, 0);
    assert_eq!(t.phase, Phase::Connecting);
}

#[test]
fn percentages() {
    assert_eq!(percent(Progress { total_size: 200, downloaded: 50 }), Some(25));
    assert_eq!(percent(Progress { total_size: 3, downloaded: 1 }), Some(33));
    assert_eq!(percent(Progress { total_size: 10, downloaded: 10 }), Some(100));
    assert_eq!(percent(Progress { total_size: 10, downloaded: 20 }), Some(100));
    assert_eq!(percent(Progress { total_size: 0, downloaded: 20 }), None);
    assert_eq!(percent(Progress { total_size: u64::MAX, downloaded: u64::MAX - 1 }), Some(99));
}
