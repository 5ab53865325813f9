//! The two isolated capture sessions (system subtitles and microphone
//! interpretation) and the registry that starts and stops them.
use vstd::prelude::*;

verus! {

/// Which of the two isolated workflows an event or a session belongs to.
#[derive(Debug, Clone, Copy, PartialEq, Eq, Hash, Structural)]
pub enum SessionKind {
    SystemSubtitle,
    MicInterpretation,
}

/// A lowercase hexadecimal digit.
pub open spec fn is_lower_hex(c: char) -> bool {
    ('0' <= c && c <= '9') || ('a' <= c && c <= 'f')
}

/// The hyphenated lowercase form of a random (version 4, RFC 4122 variant)
/// UUID: `xxxxxxxx-xxxx-4xxx-yxxx-xxxxxxxxxxxx` with `y` one of `8 9 a b`.
pub open spec fn is_uuid_v4_text(s: Seq<char>) -> bool {
    &&& s.len() == 36
    &&& s[8] == '-' && s[13] == '-' && s[18] == '-' && s[23] == '-'
    &&& forall|i: int|
        0 <= i < 36 && i != 8 && i != 13 && i != 18 && i != 23 ==> is_lower_hex(#[trigger] s[i])
    &&& s[14] == '4'
    &&& (s[19] == '8' || s[19] == '9' || s[19] == 'a' || s[19] == 'b')
}

/// Calls `uuid::Uuid::new_v4` and renders it with `to_string`. The value is
/// random; what is claimed is only the textual shape that `uuid`'s
/// hyphenated lowercase formatter gives every version-4 UUID.
#[verifier::external_body]
pub(crate) fn new_uuid_v4() -> (id: String)
    ensures
        is_uuid_v4_text(id@),
{
    uuid::Uuid::new_v4().to_string()
}

/// One started capture session.
#[derive(Debug)]
pub struct AudioSession {
    pub session_id: String,
    pub session_kind: SessionKind,
    pub is_running: bool,
}

impl AudioSession {
    /// A field-by-field copy.
    pub fn duplicate(&self) -> (r: AudioSession)
        ensures
            r == *self,
    {
        AudioSession {
            session_id: self.session_id.clone(),
            session_kind: self.session_kind,
            is_running: self.is_running,
        }
    }
}

/// The sessions that have been started, at most one per kind.
pub struct SessionRegistry {
    system: Option<AudioSession>,
    mic: Option<AudioSession>,
}

/// The registry after `kind` was started with `session`.
pub open spec fn registry_after_start(
    m: Map<SessionKind, AudioSession>,
    kind: SessionKind,
    session: AudioSession,
) -> Map<SessionKind, AudioSession> {
    m.insert(kind, session)
}

/// The registry after `kind` was stopped: a registered session of that kind
/// is kept and marked as not running; nothing else changes.
pub open spec fn registry_after_stop(
    m: Map<SessionKind, AudioSession>,
    kind: SessionKind,
) -> Map<SessionKind, AudioSession> {
    if m.contains_key(kind) {
        m.insert(kind, AudioSession { is_running: false, ..m[kind] })
    } else {
        m
    }
}

impl View for SessionRegistry {
    type V = Map<SessionKind, AudioSession>;

    closed spec fn view(&self) -> Map<SessionKind, AudioSession> {
        let with_system = match self.system {
            Some(s) => Map::empty().insert(SessionKind::SystemSubtitle, s),
            None => Map::empty(),
        };
        match self.mic {
            Some(s) => with_system.insert(SessionKind::MicInterpretation, s),
            None => with_system,
        }
    }
}

impl SessionRegistry {
    /// Each slot holds a session of its own kind.
    pub closed spec fn well_formed(&self) -> bool {
        &&& (self.system matches Some(s) ==> s.session_kind == SessionKind::SystemSubtitle)
        &&& (self.mic matches Some(s) ==> s.session_kind == SessionKind::MicInterpretation)
    }

    pub fn new() -> (r: SessionRegistry)
        ensures
            r.well_formed(),
            r@ == Map::<SessionKind, AudioSession>::empty(),
    {
        let r = SessionRegistry { system: None, mic: None };
        assert(r@ =~= Map::<SessionKind, AudioSession>::empty());
        r
    }

    /// Starts a session of `session_kind` under a fresh random id, replacing
    /// any earlier session of that kind, and returns it.
    pub fn start(&mut self, session_kind: SessionKind) -> (session: AudioSession)
        requires
            old(self).well_formed(),
        ensures
            final(self).well_formed(),
            session.session_kind == session_kind,
            session.is_running,
            is_uuid_v4_text(session.session_id@),
            final(self)@ == registry_after_start(old(self)@, session_kind, session),
    {
        let session = AudioSession {
            session_id: new_uuid_v4(),
            session_kind,
            is_running: true,
        };
        let stored = session.duplicate();
        match session_kind {
            SessionKind::SystemSubtitle => {
                self.system = Some(stored);
            },
            SessionKind::MicInterpretation => {
                self.mic = Some(stored);
            },
        }
        assert(self@ =~= registry_after_start(old(self)@, session_kind, session));
        session
    }

    /// Marks the session of `session_kind`, if there is one, as not running.
    pub fn stop(&mut self, session_kind: SessionKind)
        requires
            old(self).well_formed(),
        ensures
            final(self).well_formed(),
            final(self)@ == registry_after_stop(old(self)@, session_kind),
    {
        match session_kind {
            SessionKind::SystemSubtitle => {
                if let Some(s) = &mut self.system {
                    s.is_running = false;
                }
            },
            SessionKind::MicInterpretation => {
                if let Some(s) = &mut self.mic {
                    s.is_running = false;
                }
            },
        }
        assert(self@ =~= registry_after_stop(old(self)@, session_kind));
    }

    /// The session of `session_kind`, if one was started.
    pub fn get(&self, session_kind: SessionKind) -> (r: Option<AudioSession>)
        ensures
            r == (if self@.contains_key(session_kind) {
                Some(self@[session_kind])
            } else {
                None
            }),
    {
        let slot = match session_kind {
            SessionKind::SystemSubtitle => &self.system,
            SessionKind::MicInterpretation => &self.mic,
        };
        match slot {
            Some(s) => Some(s.duplicate()),
            None => None,
        }
    }
}

/// Starting or stopping one kind of session leaves the session of the other
/// kind exactly as it was.
pub proof fn lemma_sessions_isolated(
    m: Map<SessionKind, AudioSession>,
    kind: SessionKind,
    other: SessionKind,
    session: AudioSession,
)
    requires
        kind != other,
    ensures
        registry_after_start(m, kind, session).contains_key(other) == m.contains_key(other),
        registry_after_stop(m, kind).contains_key(other) == m.contains_key(other),
        m.contains_key(other) ==> registry_after_start(m, kind, session)[other] == m[other],
        m.contains_key(other) ==> registry_after_stop(m, kind)[other] == m[other],
{
}

/// Stopping a session that was started keeps it registered under the same
/// id and kind, and marks it as not running.
pub proof fn lemma_stop_after_start(
    m: Map<SessionKind, AudioSession>,
    kind: SessionKind,
    session: AudioSession,
)
    ensures
        registry_after_stop(registry_after_start(m, kind, session), kind).contains_key(kind),
        registry_after_stop(registry_after_start(m, kind, session), kind)[kind] == (AudioSession {
            is_running: false,
            ..session
        }),
{
}

} // verus!
