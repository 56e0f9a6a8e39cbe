//! The cache lifecycle controller.
//!
//! The controller owns the decode → analyze → publish pipeline for one audio
//! source at a time. Each decode request opens a numbered session; the events
//! of the decode subprocess and the decoded bytes are handed in by the caller,
//! and the controller decides every transition. A cache becomes visible only
//! once fully built, a failed session leaves the last good cache queryable,
//! and a newer session's cache supersedes the older one atomically.

use vstd::prelude::*;
use crate::cache::{cache_model, SpectralCache};
use crate::config::Config;
use crate::pcm::{decode_pcm, pcm_of_bytes};
use crate::transform::spectrum_model;

verus! {

/// The lifecycle of one decode session.
#[derive(Clone, Copy, PartialEq, Eq, Structural, Debug)]
pub enum SessionState {
    /// No decode has been requested yet.
    Idle,
    /// The decode subprocess is running.
    Decoding,
    /// The subprocess finished successfully; the spectra are being computed.
    Analyzing,
    /// The session's cache is built and queryable.
    Ready,
    /// The session ended without a cache.
    Failed,
}

/// How a session ended.
#[derive(Clone, Copy, PartialEq, Eq, Structural, Debug)]
pub enum SessionOutcome {
    /// The cache is built and queryable.
    Success,
    /// The decode subprocess exited with a non-zero code.
    DecodeError,
    /// The decoded bytes could not be read.
    IoError,
    /// The caller aborted the session.
    Cancelled,
}

/// The one-shot completion event of a session, emitted exactly once: either
/// a success, after which queries against the session are answered, or a
/// structured error, after which they never return data.
#[derive(Clone, Copy, PartialEq, Eq, Structural, Debug)]
pub struct Notification {
    pub session: u64,
    pub error: bool,
    pub outcome: SessionOutcome,
}

/// The answer to a query: the frame's spectrum, a frame index beyond the
/// cache (a normal outcome, not an error), or no queryable cache for the
/// given session.
#[derive(Debug)]
pub enum QueryResult<'a> {
    Spectrum(&'a spectrum_analyzer::FrequencySpectrum),
    OutOfRange,
    NotReady,
}

/// Orchestrates decode sessions and owns the published cache. Single writer:
/// only a completed analysis replaces the cache, in one assignment, so no
/// query ever sees a half-built cache.
pub struct Controller {
    config: Config,
    state: SessionState,
    next_session: u64,
    active_session: u64,
    cache: Option<SpectralCache>,
    cache_session: u64,
}

impl Controller {
    /// The fixed configuration every session runs under.
    pub closed spec fn spec_config(&self) -> Config {
        self.config
    }

    /// The state of the most recent session.
    pub closed spec fn spec_state(&self) -> SessionState {
        self.state
    }

    /// The identifier the next decode request will receive.
    pub closed spec fn spec_next_session(&self) -> u64 {
        self.next_session
    }

    /// The session the controller is currently decoding or analyzing for.
    pub closed spec fn spec_active_session(&self) -> u64 {
        self.active_session
    }

    /// The published cache, if any session has completed successfully.
    pub closed spec fn spec_cache(&self) -> Option<SpectralCache> {
        self.cache
    }

    /// The session the published cache belongs to.
    pub closed spec fn spec_cache_session(&self) -> u64 {
        self.cache_session
    }

    /// A well-formed controller: a valid configuration, and any published
    /// cache is well-formed, was built under that configuration, and belongs
    /// to an already-issued session.
    pub open spec fn wf(&self) -> bool {
        &&& self.spec_config().wf()
        &&& self.spec_cache() matches Some(c) ==> {
            &&& c.wf()
            &&& c.spec_config() == self.spec_config()
            &&& self.spec_cache_session() < self.spec_next_session()
        }
        &&& self.spec_state() is Decoding || self.spec_state() is Analyzing
            ==> self.spec_active_session() < self.spec_next_session()
    }

    /// A fresh controller with no session and no cache.
    pub fn new(config: Config) -> (r: Controller)
        requires
            config.wf(),
        ensures
            r.wf(),
            r.spec_config() == config,
            r.spec_state() is Idle,
            r.spec_next_session() == 0,
            r.spec_cache() is None,
    {
        Controller {
            config,
            state: SessionState::Idle,
            next_session: 0,
            active_session: 0,
            cache: None,
            cache_session: 0,
        }
    }

    /// The state of the most recent session.
    pub fn state(&self) -> (r: SessionState)
        ensures
            r == self.spec_state(),
    {
        self.state
    }

    /// Opens a new decode session and returns its identifier. Any session
    /// still in flight is superseded; the published cache of an earlier
    /// successful session stays untouched and queryable.
    pub fn start_decode(&mut self) -> (sid: u64)
        requires
            old(self).wf(),
            old(self).spec_next_session() < u64::MAX,
        ensures
            final(self).wf(),
            sid == old(self).spec_next_session(),
            final(self).spec_state() is Decoding,
            final(self).spec_active_session() == sid,
            final(self).spec_next_session() == sid + 1,
            final(self).spec_config() == old(self).spec_config(),
            final(self).spec_cache() == old(self).spec_cache(),
            final(self).spec_cache_session() == old(self).spec_cache_session(),
    {
        let sid = self.next_session;
        self.next_session = sid + 1;
        self.active_session = sid;
        self.state = SessionState::Decoding;
        sid
    }

    /// True when an event for `session` concerns the session the controller
    /// is decoding right now; a stale event is ignored entirely.
    pub open spec fn decoding_for(&self, session: u64) -> bool {
        self.spec_state() is Decoding && self.spec_active_session() == session
    }

    /// True when bytes handed in for `session` are the ones the controller is
    /// waiting to analyze; stale bytes are ignored entirely.
    pub open spec fn analyzing_for(&self, session: u64) -> bool {
        self.spec_state() is Analyzing && self.spec_active_session() == session
    }

    /// True when the session is in flight, so a failure event ends it.
    pub open spec fn in_flight_for(&self, session: u64) -> bool {
        self.decoding_for(session) || self.analyzing_for(session)
    }

    /// Consumes the decode subprocess's exit: code zero moves the session to
    /// analysis and emits nothing; a non-zero code fails the session and
    /// emits the error notification, leaving any published cache untouched.
    /// An exit of a superseded session changes nothing.
    pub fn on_decode_exit(&mut self, session: u64, exit_code: i32) -> (n: Option<Notification>)
        requires
            old(self).wf(),
        ensures
            final(self).wf(),
            !old(self).decoding_for(session) ==> *final(self) == *old(self) && n is None,
            old(self).decoding_for(session) && exit_code == 0 ==> {
                &&& final(self).spec_state() is Analyzing
                &&& n is None
            },
            old(self).decoding_for(session) && exit_code != 0 ==> {
                &&& final(self).spec_state() is Failed
                &&& n == Some(
                    Notification { session, error: true, outcome: SessionOutcome::DecodeError },
                )
            },
            final(self).spec_config() == old(self).spec_config(),
            final(self).spec_next_session() == old(self).spec_next_session(),
            final(self).spec_active_session() == old(self).spec_active_session(),
            final(self).spec_cache() == old(self).spec_cache(),
            final(self).spec_cache_session() == old(self).spec_cache_session(),
    {
        if !(matches!(self.state, SessionState::Decoding) && self.active_session == session) {
            return None;
        }
        if exit_code == 0 {
            self.state = SessionState::Analyzing;
            None
        } else {
            self.state = SessionState::Failed;
            Some(Notification { session, error: true, outcome: SessionOutcome::DecodeError })
        }
    }

    /// Fails an in-flight session whose decoded bytes could not be read, and
    /// emits the error notification. The published cache stays untouched. An
    /// event of a superseded session changes nothing.
    pub fn on_io_error(&mut self, session: u64) -> (n: Option<Notification>)
        requires
            old(self).wf(),
        ensures
            final(self).wf(),
            !old(self).in_flight_for(session) ==> *final(self) == *old(self) && n is None,
            old(self).in_flight_for(session) ==> {
                &&& final(self).spec_state() is Failed
                &&& n == Some(
                    Notification { session, error: true, outcome: SessionOutcome::IoError },
                )
            },
            final(self).spec_config() == old(self).spec_config(),
            final(self).spec_next_session() == old(self).spec_next_session(),
            final(self).spec_active_session() == old(self).spec_active_session(),
            final(self).spec_cache() == old(self).spec_cache(),
            final(self).spec_cache_session() == old(self).spec_cache_session(),
    {
        let live = matches!(self.state, SessionState::Decoding | SessionState::Analyzing)
            && self.active_session == session;
        if !live {
            return None;
        }
        self.state = SessionState::Failed;
        Some(Notification { session, error: true, outcome: SessionOutcome::IoError })
    }

    /// Cancels an in-flight session: it fails with the `Cancelled` reason and
    /// emits the error notification. The published cache stays untouched. A
    /// cancellation of a superseded session changes nothing.
    pub fn on_cancel(&mut self, session: u64) -> (n: Option<Notification>)
        requires
            old(self).wf(),
        ensures
            final(self).wf(),
            !old(self).in_flight_for(session) ==> *final(self) == *old(self) && n is None,
            old(self).in_flight_for(session) ==> {
                &&& final(self).spec_state() is Failed
                &&& n == Some(
                    Notification { session, error: true, outcome: SessionOutcome::Cancelled },
                )
            },
            final(self).spec_config() == old(self).spec_config(),
            final(self).spec_next_session() == old(self).spec_next_session(),
            final(self).spec_active_session() == old(self).spec_active_session(),
            final(self).spec_cache() == old(self).spec_cache(),
            final(self).spec_cache_session() == old(self).spec_cache_session(),
    {
        let live = matches!(self.state, SessionState::Decoding | SessionState::Analyzing)
            && self.active_session == session;
        if !live {
            return None;
        }
        self.state = SessionState::Failed;
        Some(Notification { session, error: true, outcome: SessionOutcome::Cancelled })
    }

    /// Analyzes the decoded raw PCM bytes of the active session: decodes the
    /// samples, builds the whole cache, and publishes it in one assignment,
    /// superseding the previous cache. Emits the success notification. Bytes
    /// of a superseded session change nothing.
    pub fn on_pcm(&mut self, session: u64, bytes: &Vec<u8>) -> (n: Option<Notification>)
        requires
            old(self).wf(),
            bytes@.len() / 2 + old(self).spec_config().transform_size <= i64::MAX,
        ensures
            final(self).wf(),
            !old(self).analyzing_for(session) ==> *final(self) == *old(self) && n is None,
            old(self).analyzing_for(session) ==> {
                &&& final(self).spec_state() is Ready
                &&& final(self).spec_cache() matches Some(c) && c@ == cache_model(
                    pcm_of_bytes(bytes@),
                    old(self).spec_config(),
                )
                &&& final(self).spec_cache_session() == session
                &&& n == Some(
                    Notification { session, error: false, outcome: SessionOutcome::Success },
                )
            },
            final(self).spec_config() == old(self).spec_config(),
            final(self).spec_next_session() == old(self).spec_next_session(),
            final(self).spec_active_session() == old(self).spec_active_session(),
    {
        let live = matches!(self.state, SessionState::Analyzing)
            && self.active_session == session;
        if !live {
            return None;
        }
        let pcm = decode_pcm(bytes);
        let built = SpectralCache::build(&pcm, &self.config);
        self.cache = Some(built);
        self.cache_session = session;
        self.state = SessionState::Ready;
        Some(Notification { session, error: false, outcome: SessionOutcome::Success })
    }

    /// Answers a query from the visualization layer. Data comes back only
    /// for the session the published cache belongs to, so a superseded or
    /// failed session never returns data, and two sessions' spectra are
    /// never mixed. A frame at or beyond the cache's length is out of range,
    /// a normal outcome rather than an error.
    pub fn query(&self, session: u64, frame: usize) -> (r: QueryResult<'_>)
        ensures
            !(self.spec_cache() matches Some(c) && self.spec_cache_session() == session)
                ==> r is NotReady,
            (self.spec_cache() matches Some(c) && self.spec_cache_session() == session
                && frame < c@.len()) ==> (r matches QueryResult::Spectrum(s)
                && spectrum_model(*s) == self.spec_cache().unwrap()@[frame as int]),
            (self.spec_cache() matches Some(c) && self.spec_cache_session() == session
                && frame >= c@.len()) ==> r is OutOfRange,
    {
        if self.cache_session != session {
            return QueryResult::NotReady;
        }
        match &self.cache {
            None => QueryResult::NotReady,
            Some(c) => {
                match c.query(frame) {
                    Some(s) => QueryResult::Spectrum(s),
                    None => QueryResult::OutOfRange,
                }
            },
        }
    }
}

} // verus!
