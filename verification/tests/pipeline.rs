use archeon::{find_content_length, parse_u64, LaunchAction, LaunchEvent, LaunchPhase, TransferError};

fn headers_with(name: &str, value: &[u8]) -> Vec<(String, Vec<u8>)> {
    vec![
        (String::from("server"), b"mock".to_vec()),
        (name.to_string(), value.to_vec()),
    ]
}

#[test]
fn content_length_is_retrieved_verbatim() {
    let headers = headers_with("content-length", b"100000");
    let value = find_content_length(&headers).unwrap();
    assert_eq!(value, b"100000".to_vec());
}

#[test]
fn content_length_absent() {
    let headers = headers_with("content-type", b"text/plain");
    assert!(find_content_length(&headers).is_none());
}

#[test]
fn content_length_first_match_wins() {
    let headers = vec![
        (String::from("content-length"), b"9".to_vec()),
        (String::from("content-length"), b"10".to_vec()),
    ];
    let value = find_content_length(&headers).unwrap();
    assert_eq!(value, b"9".to_vec());
}

#[test]
fn parse_u64_exact_value() {
    assert_eq!(parse_u64(&b"100000".to_vec()), Some(100000));
}

#[test]
fn parse_u64_zero_and_leading_zeros() {
    assert_eq!(parse_u64(&b"0".to_vec()), Some(0));
    assert_eq!(parse_u64(&b"007".to_vec()), Some(7));
}

#[test]
fn parse_u64_limits() {
    assert_eq!(
        parse_u64(&b"18446744073709551615".to_vec()),
        Some(u64::MAX),
    );
    assert_eq!(parse_u64(&b"18446744073709551616".to_vec()), None);
}

#[test]
fn parse_u64_rejects_empty_and_non_digits() {
    assert_eq!(parse_u64(&b"".to_vec()), None);
    assert_eq!(parse_u64(&b"12a".to_vec()), None);
    assert_eq!(parse_u64(&b"+9".to_vec()), None);
}

#[test]
fn probe_records_advertised_length() {
    let phase = LaunchPhase::Probe;
    let next = phase.step(LaunchEvent::HeadOk {
        headers: headers_with("content-length", b"9"),
    });
    match &next {
        LaunchPhase::Fetch { content_length } => {
            assert_eq!(content_length, &b"9".to_vec());
        }
        _ => panic!("expected the fetch phase"),
    }
    assert!(matches!(next.action(), LaunchAction::IssueGet));
}

#[test]
fn probe_fails_without_content_length() {
    let next = LaunchPhase::Probe.step(LaunchEvent::HeadOk {
        headers: headers_with("content-type", b"text/plain"),
    });
    assert!(matches!(
        next,
        LaunchPhase::Failed { error: TransferError::MissingContentLength }
    ));
}

#[test]
fn probe_fails_on_transport_error() {
    let next = LaunchPhase::Probe.step(LaunchEvent::HeadFailed);
    assert!(matches!(
        next,
        LaunchPhase::Failed { error: TransferError::HttpTransport }
    ));
}

#[test]
fn fetch_failure_is_transport_error() {
    let phase = LaunchPhase::Fetch { content_length: b"9".to_vec() };
    let next = phase.step(LaunchEvent::GetFailed);
    assert!(matches!(
        next,
        LaunchPhase::Failed { error: TransferError::HttpTransport }
    ));
}

#[test]
fn drain_failure_is_body_drain_error() {
    let phase = LaunchPhase::Drain { content_length: b"9".to_vec() };
    let next = phase.step(LaunchEvent::DrainFailed);
    assert!(matches!(
        next,
        LaunchPhase::Failed { error: TransferError::BodyDrain }
    ));
}

#[test]
fn write_failure_is_file_error() {
    let phase = LaunchPhase::Store { content_length: b"9".to_vec() };
    let next = phase.step(LaunchEvent::WriteFailed);
    assert!(matches!(
        next,
        LaunchPhase::Failed { error: TransferError::FileIo }
    ));
}

#[test]
fn unparseable_content_length_fails_before_watching() {
    let phase = LaunchPhase::Store { content_length: b"nine".to_vec() };
    let next = phase.step(LaunchEvent::WriteOk);
    assert!(matches!(
        next,
        LaunchPhase::Failed { error: TransferError::MissingContentLength }
    ));
}

#[test]
fn stat_failure_is_file_error() {
    let phase = LaunchPhase::Watch { total: 9 };
    let next = phase.step(LaunchEvent::StatFailed);
    assert!(matches!(
        next,
        LaunchPhase::Failed { error: TransferError::FileIo }
    ));
}

#[test]
fn pipeline_completes_when_observed_length_reaches_total() {
    let mut phase = LaunchPhase::Probe;
    assert!(matches!(phase.action(), LaunchAction::IssueHead));
    phase = phase.step(LaunchEvent::HeadOk {
        headers: headers_with("content-length", b"9"),
    });
    assert!(matches!(phase.action(), LaunchAction::IssueGet));
    phase = phase.step(LaunchEvent::GetOk);
    assert!(matches!(phase.action(), LaunchAction::DrainBody));
    phase = phase.step(LaunchEvent::DrainOk);
    assert!(matches!(phase.action(), LaunchAction::WriteFile));
    phase = phase.step(LaunchEvent::WriteOk);
    assert!(matches!(phase.action(), LaunchAction::StatFile));
    assert!(matches!(phase, LaunchPhase::Watch { total: 9 }));
    phase = phase.step(LaunchEvent::StatOk { length: 4 });
    assert!(matches!(phase, LaunchPhase::Watch { total: 9 }));
    assert!(!phase.is_terminal());
    phase = phase.step(LaunchEvent::StatOk { length: 9 });
    assert!(matches!(phase, LaunchPhase::Complete { total: 9 }));
    assert!(phase.is_terminal());
    assert!(matches!(phase.action(), LaunchAction::Finish));
}

#[test]
fn terminal_phases_absorb_events() {
    let phase = LaunchPhase::Complete { total: 9 };
    let next = phase.step(LaunchEvent::StatOk { length: 0 });
    assert!(matches!(next, LaunchPhase::Complete { total: 9 }));

    let failed = LaunchPhase::Failed { error: TransferError::HttpTransport };
    let next = failed.step(LaunchEvent::HeadOk { headers: vec![] });
    assert!(matches!(
        next,
        LaunchPhase::Failed { error: TransferError::HttpTransport }
    ));
    assert!(next.is_terminal());
}
