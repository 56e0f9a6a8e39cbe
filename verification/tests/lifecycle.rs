use spectral_cache::config::Config;
use spectral_cache::controller::{Controller, QueryResult, SessionOutcome, SessionState};

fn small_config() -> Config {
    Config::new(1024, 8, 256).unwrap()
}

/// The (frequency, magnitude) pairs of a spectrum as exact bit patterns.
fn spectrum_bits(s: &spectrum_analyzer::FrequencySpectrum) -> Vec<(u32, u32)> {
    s.data()
        .iter()
        .map(|(f, v)| (f.val().to_bits(), v.val().to_bits()))
        .collect()
}

/// Runs one whole successful session and returns its identifier.
fn complete_session(ctl: &mut Controller, bytes: &Vec<u8>) -> u64 {
    let sid = ctl.start_decode();
    assert!(ctl.on_decode_exit(sid, 0).is_none());
    let n = ctl.on_pcm(sid, bytes).expect("completion notification");
    assert!(!n.error);
    assert_eq!(n.outcome, SessionOutcome::Success);
    assert_eq!(n.session, sid);
    sid
}

#[test]
fn successful_session_answers_queries() {
    let mut ctl = Controller::new(small_config());
    let bytes = vec![0x10u8; 2048];
    let sid = complete_session(&mut ctl, &bytes);
    match ctl.query(sid, 0) {
        QueryResult::Spectrum(s) => assert_eq!(s.data().len(), 129),
        _ => panic!("expected a spectrum for frame 0"),
    }
    match ctl.query(sid, 8) {
        QueryResult::OutOfRange => {}
        _ => panic!("expected out of range at the cache length"),
    }
}

#[test]
fn query_before_any_decode_is_not_ready() {
    let ctl = Controller::new(small_config());
    assert!(matches!(ctl.query(0, 0), QueryResult::NotReady));
}

#[test]
fn query_during_decode_is_not_ready() {
    let mut ctl = Controller::new(small_config());
    let sid = ctl.start_decode();
    assert!(matches!(ctl.query(sid, 0), QueryResult::NotReady));
    assert!(ctl.on_decode_exit(sid, 0).is_none());
    assert!(matches!(ctl.query(sid, 0), QueryResult::NotReady));
}

#[test]
fn failed_decode_keeps_previous_cache_queryable() {
    let mut ctl = Controller::new(small_config());
    let bytes = vec![0x22u8; 2048];
    let first = complete_session(&mut ctl, &bytes);
    let before: Vec<Vec<(u32, u32)>> = (0..8)
        .map(|k| match ctl.query(first, k) {
            QueryResult::Spectrum(s) => spectrum_bits(s),
            _ => panic!("expected a spectrum"),
        })
        .collect();

    // The decode subprocess of the next session exits with code 2.
    let second = ctl.start_decode();
    let n = ctl.on_decode_exit(second, 2).expect("completion notification");
    assert!(n.error);
    assert_eq!(n.outcome, SessionOutcome::DecodeError);
    assert_eq!(n.session, second);
    assert_eq!(ctl.state(), SessionState::Failed);

    // The failed session never returns data.
    assert!(matches!(ctl.query(second, 0), QueryResult::NotReady));
    // The prior session's cache is still queryable, unchanged.
    for (k, expected) in before.iter().enumerate() {
        match ctl.query(first, k) {
            QueryResult::Spectrum(s) => assert_eq!(&spectrum_bits(s), expected),
            _ => panic!("expected the prior cache to answer"),
        }
    }
}

#[test]
fn stale_events_are_ignored() {
    let mut ctl = Controller::new(small_config());
    let first = ctl.start_decode();
    // The first session is superseded before its subprocess exits.
    let second = ctl.start_decode();
    // Events of the superseded session change nothing.
    assert!(ctl.on_decode_exit(first, 0).is_none());
    assert!(ctl.on_decode_exit(first, 2).is_none());
    assert!(ctl.on_pcm(first, &vec![0u8; 2048]).is_none());
    assert!(ctl.on_io_error(first).is_none());
    assert!(ctl.on_cancel(first).is_none());
    // The live session still completes.
    assert!(ctl.on_decode_exit(second, 0).is_none());
    assert!(ctl.on_pcm(second, &vec![0u8; 2048]).is_some());
}

#[test]
fn second_session_supersedes_first() {
    let mut ctl = Controller::new(small_config());
    // Two decode requests back-to-back for different inputs.
    let bytes_a: Vec<u8> = (0..4096).map(|i| (i % 119) as u8).collect();
    let bytes_b: Vec<u8> = (0..4096).map(|i| (i % 67) as u8).collect();
    let first = complete_session(&mut ctl, &bytes_a);
    let second = complete_session(&mut ctl, &bytes_b);

    // A reference cache built from the second input alone.
    let reference = spectral_cache::cache::SpectralCache::build(
        &spectral_cache::pcm::decode_pcm(&bytes_b),
        &small_config(),
    );

    // The first session no longer answers; the second answers with data of
    // the second input alone.
    assert!(matches!(ctl.query(first, 0), QueryResult::NotReady));
    for k in 0..reference.len() {
        match ctl.query(second, k) {
            QueryResult::Spectrum(s) => {
                assert_eq!(spectrum_bits(s), spectrum_bits(reference.query(k).unwrap()));
            }
            _ => panic!("expected the new cache to answer"),
        }
    }
}

#[test]
fn io_error_fails_session_and_keeps_cache() {
    let mut ctl = Controller::new(small_config());
    let bytes = vec![0x31u8; 2048];
    let first = complete_session(&mut ctl, &bytes);
    let second = ctl.start_decode();
    assert!(ctl.on_decode_exit(second, 0).is_none());
    let n = ctl.on_io_error(second).expect("completion notification");
    assert!(n.error);
    assert_eq!(n.outcome, SessionOutcome::IoError);
    assert_eq!(n.session, second);
    assert_eq!(ctl.state(), SessionState::Failed);
    assert!(matches!(ctl.query(second, 0), QueryResult::NotReady));
    assert!(matches!(ctl.query(first, 0), QueryResult::Spectrum(_)));
}

#[test]
fn cancelled_session_fails_with_cancelled_reason() {
    let mut ctl = Controller::new(small_config());
    let sid = ctl.start_decode();
    let n = ctl.on_cancel(sid).expect("completion notification");
    assert!(n.error);
    assert_eq!(n.outcome, SessionOutcome::Cancelled);
    assert_eq!(n.session, sid);
    assert_eq!(ctl.state(), SessionState::Failed);
    assert!(matches!(ctl.query(sid, 0), QueryResult::NotReady));
}

#[test]
fn one_notification_per_session() {
    let mut ctl = Controller::new(small_config());
    let sid = ctl.start_decode();
    let n = ctl.on_decode_exit(sid, 1).expect("completion notification");
    assert!(n.error);
    // The session already ended: no further event emits anything.
    assert!(ctl.on_decode_exit(sid, 1).is_none());
    assert!(ctl.on_io_error(sid).is_none());
    assert!(ctl.on_cancel(sid).is_none());
    assert!(ctl.on_pcm(sid, &vec![0u8; 64]).is_none());
}
