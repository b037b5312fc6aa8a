//! The session slot and what surrounds a session's life: terminal geometry,
//! the child's environment, and the events reported to the front end.

use vstd::prelude::*;
use vstd::string::*;
use crate::command::ResolvedCommand;
use crate::error::SessionError;

verus! {

/// A snapshot of a started session.
#[derive(Debug, Clone)]
pub struct SessionInfo {
    pub pid: Option<u32>,
    pub command: String,
    pub fallback_used: bool,
}

/// A chunk of terminal output.
#[derive(Debug, Clone)]
pub struct PtyDataPayload {
    pub data: String,
}

/// The exit of a session's child.
#[derive(Debug, Clone)]
pub struct SessionExitPayload {
    pub code: Option<i32>,
}

/// A notice that is not an error.
#[derive(Debug, Clone)]
pub struct WarningPayload {
    pub message: String,
}

/// The size of a terminal in character cells.
#[derive(Debug, Clone, Copy, PartialEq, Eq, Structural)]
pub struct Geometry {
    pub cols: u16,
    pub rows: u16,
}

/// The geometry a terminal gets when `cols` by `rows` is asked for: at least
/// two columns and one row.
pub open spec fn clamped(cols: u16, rows: u16) -> Geometry {
    Geometry { cols: if cols < 2 { 2 } else { cols }, rows: if rows < 1 { 1 } else { rows } }
}

/// Raises a requested terminal size to the minimum.
pub fn clamp_geometry(cols: u16, rows: u16) -> (g: Geometry)
    ensures
        g == clamped(cols, rows),
{
    Geometry { cols: if cols < 2 { 2 } else { cols }, rows: if rows < 1 { 1 } else { rows } }
}

/// A clamped geometry has at least two columns and one row, keeps every
/// size that already has, and is unchanged by clamping again.
pub proof fn lemma_clamped_is_minimal(cols: u16, rows: u16)
    ensures
        clamped(cols, rows).cols >= 2,
        clamped(cols, rows).rows >= 1,
        cols >= 2 ==> clamped(cols, rows).cols == cols,
        rows >= 1 ==> clamped(cols, rows).rows == rows,
        cols < 2 ==> clamped(cols, rows).cols == 2,
        rows < 1 ==> clamped(cols, rows).rows == 1,
        clamped(clamped(cols, rows).cols, clamped(cols, rows).rows) == clamped(cols, rows),
{
}

/// The variables forced into the child's environment, as names with values.
pub open spec fn forced_environment() -> Seq<(Seq<char>, Seq<char>)> {
    seq![("TERM"@, "xterm-256color"@), ("COLORTERM"@, "truecolor"@)]
}

/// The names and values of a list of variables.
pub open spec fn variables(v: Seq<(String, String)>) -> Seq<(Seq<char>, Seq<char>)> {
    Seq::new(v.len(), |i: int| (v[i].0@, v[i].1@))
}

/// The variables that every child is started with: the terminal type and
/// the truecolor capability.
pub fn child_environment() -> (r: Vec<(String, String)>)
    ensures
        variables(r@) == forced_environment(),
{
    let mut out: Vec<(String, String)> = Vec::new();
    out.push((String::from_str("TERM"), String::from_str("xterm-256color")));
    out.push((String::from_str("COLORTERM"), String::from_str("truecolor")));
    assert(variables(out@) =~= forced_environment());
    out
}

/// The warning to report before a resolved command is launched, if it has
/// one.
pub fn warning_event(resolved: &ResolvedCommand) -> (r: Option<WarningPayload>)
    ensures
        match resolved@.warning {
            Some(w) => r matches Some(p) && p.message@ == w,
            None => r is None,
        },
{
    match &resolved.warning {
        Some(message) => Some(WarningPayload { message: message.clone() }),
        None => None,
    }
}

/// Everything a start has decided before the terminal is opened.
#[derive(Debug, Clone)]
pub struct LaunchPlan {
    /// The command the child runs.
    pub command: ResolvedCommand,
    /// The size the terminal is opened with.
    pub geometry: Geometry,
    /// The variables forced into the child's environment.
    pub environment: Vec<(String, String)>,
    /// The warning to report before the launch, if any.
    pub warning: Option<WarningPayload>,
}

/// Plans the launch of a resolved command in a terminal of the requested
/// size: the size is raised to the minimum, the environment is the forced
/// one, and the command's warning, if it has one, is to be reported.
pub fn plan_launch(resolved: ResolvedCommand, cols: u16, rows: u16) -> (plan: LaunchPlan)
    ensures
        plan.command == resolved,
        plan.geometry == clamped(cols, rows),
        variables(plan.environment@) == forced_environment(),
        match resolved@.warning {
            Some(w) => plan.warning matches Some(p) && p.message@ == w,
            None => plan.warning is None,
        },
{
    let warning = warning_event(&resolved);
    LaunchPlan {
        command: resolved,
        geometry: clamp_geometry(cols, rows),
        environment: child_environment(),
        warning,
    }
}

/// The snapshot returned for a session started from `resolved` whose child
/// has the process id `pid`.
pub fn session_info(pid: Option<u32>, resolved: &ResolvedCommand) -> (info: SessionInfo)
    ensures
        info.pid == pid,
        info.command@ == resolved@.display,
        info.fallback_used == resolved@.fallback_used,
{
    SessionInfo { pid, command: resolved.display.clone(), fallback_used: resolved.fallback_used }
}

/// The text that lossy UTF-8 decoding makes of `bytes`. This names the
/// result of `String::from_utf8_lossy`.
pub uninterp spec fn lossy_text(bytes: Seq<u8>) -> Seq<char>;

/// Trusted: `String::from_utf8_lossy` of the standard library, which decodes
/// every byte slice and depends on nothing else; the contract says that the
/// text is the one named by `lossy_text`.
#[verifier::external_body]
fn decode_lossy(bytes: &[u8]) -> (r: String)
    ensures
        r@ == lossy_text(bytes@),
{
    String::from_utf8_lossy(bytes).into_owned()
}

/// What the reader does with the outcome of one read: `chunk` holds the
/// bytes read, or nothing where the read failed. An empty or failed read
/// ends the stream and reports nothing; any other chunk is reported, decoded
/// lossily.
pub fn data_event(chunk: Option<&[u8]>) -> (r: Option<PtyDataPayload>)
    ensures
        match chunk {
            Some(bytes) => if bytes@.len() == 0 {
                r is None
            } else {
                r matches Some(p) && p.data@ == lossy_text(bytes@)
            },
            None => r is None,
        },
{
    match chunk {
        Some(bytes) => {
            if bytes.len() == 0 {
                None
            } else {
                Some(PtyDataPayload { data: decode_lossy(bytes) })
            }
        },
        None => None,
    }
}

/// The exit code reported for a raw exit status: the same 32 bits read as
/// a signed number.
pub open spec fn signed_code(status: u32) -> int {
    if status < 0x8000_0000 {
        status as int
    } else {
        status as int - 0x1_0000_0000
    }
}

/// The event reported when the child has ended; `status` is absent where it
/// could not be obtained.
pub fn exit_event(status: Option<u32>) -> (r: SessionExitPayload)
    ensures
        match status {
            Some(s) => r.code matches Some(c) && c as int == signed_code(s),
            None => r.code is None,
        },
{
    match status {
        Some(s) => {
            let code: i32 = if s < 0x8000_0000 {
                s as i32
            } else {
                let below: u32 = s - 0x8000_0000;
                (below as i32) + i32::MIN
            };
            SessionExitPayload { code: Some(code) }
        },
        None => SessionExitPayload { code: None },
    }
}

/// The one place a live session can stand. `S` is whatever the host keeps
/// for a session: its terminal, its writer, its means to end the child.
pub struct SessionSlot<S> {
    session: Option<S>,
}

/// The slot after a stop: empty, whatever it held.
pub open spec fn after_stop<S>(before: Option<S>) -> Option<S> {
    None
}

/// The session a stop hands out to be ended: the one the slot held.
pub open spec fn ended_by_stop<S>(before: Option<S>) -> Option<S> {
    before
}

/// The slot after a start that brought up `session`: the earlier session is
/// stopped first, then the new one stands alone.
pub open spec fn after_start<S>(before: Option<S>, session: S) -> Option<S> {
    Some(session)
}

impl<S> SessionSlot<S> {
    /// The session in the slot, if any.
    pub closed spec fn view(&self) -> Option<S> {
        self.session
    }

    /// An empty slot.
    pub fn new() -> (r: Self)
        ensures
            r@ is None,
    {
        SessionSlot { session: None }
    }

    /// Whether a session is live.
    pub fn is_active(&self) -> (b: bool)
        ensures
            b == (self@ is Some),
    {
        self.session.is_some()
    }

    /// The live session, for the caller to work on; the slot then holds
    /// whatever the caller leaves in it. Fails exactly where no session is
    /// live.
    pub fn active_session(&mut self) -> (r: Result<&mut S, SessionError>)
        ensures
            match old(self)@ {
                Some(s) => r matches Ok(m) && *m == s && final(self)@ == Some(*final(m)),
                None => r matches Err(e) && e == SessionError::NoActiveSession && final(self)@
                    is None,
            },
    {
        match self.session.as_mut() {
            Some(session) => Ok(session),
            None => Err(SessionError::NoActiveSession),
        }
    }

    /// Empties the slot and hands out the session it held, for the caller to
    /// end its child. On an empty slot nothing changes and nothing is handed
    /// out.
    pub fn stop(&mut self) -> (ended: Option<S>)
        ensures
            final(self)@ == after_stop(old(self)@),
            ended == ended_by_stop(old(self)@),
    {
        self.session.take()
    }

    /// Puts a newly started session into the slot and hands out whatever
    /// stood there.
    pub fn install(&mut self, session: S) -> (replaced: Option<S>)
        ensures
            final(self)@ == after_start(old(self)@, session),
            replaced == old(self)@,
    {
        let replaced = self.session.take();
        self.session = Some(session);
        replaced
    }

    /// The geometry to give the live session's terminal when `cols` by
    /// `rows` is asked for.
    pub fn resize(&self, cols: u16, rows: u16) -> (r: Result<Geometry, SessionError>)
        ensures
            self@ is Some ==> r == Ok::<Geometry, SessionError>(clamped(cols, rows)),
            self@ is None ==> r == Err::<Geometry, SessionError>(SessionError::NoActiveSession),
    {
        if self.session.is_some() {
            Ok(clamp_geometry(cols, rows))
        } else {
            Err(SessionError::NoActiveSession)
        }
    }

    /// The bytes to write to the live session's terminal for the input
    /// `data`: its UTF-8 encoding, untouched.
    pub fn write_stdin<'a>(&self, data: &'a str) -> (r: Result<&'a [u8], SessionError>)
        ensures
            self@ is Some ==> (r matches Ok(bytes) && bytes@ == data.spec_bytes()),
            self@ is None ==> r == Err::<&[u8], SessionError>(SessionError::NoActiveSession),
    {
        if self.session.is_some() {
            Ok(data.as_bytes())
        } else {
            Err(SessionError::NoActiveSession)
        }
    }
}

/// Stopping never fails and leaves the slot empty; stopping again, or
/// stopping a slot that never held a session, changes nothing and hands out
/// nothing.
pub proof fn lemma_stop_is_idempotent<S>(before: Option<S>)
    ensures
        after_stop(before) is None,
        after_stop(after_stop(before)) == after_stop(before),
        ended_by_stop(after_stop(before)) is None,
        after_stop(None::<S>) == None::<S>,
        ended_by_stop(None::<S>) is None,
{
}

/// A start while a session is live first stops that session, which is
/// handed out to be ended, and leaves exactly the new session in the slot.
pub proof fn lemma_start_replaces_session<S>(before: Option<S>, session: S)
    ensures
        ended_by_stop(before) == before,
        after_start(after_stop(before), session) == Some(session),
        after_start(before, session) == after_start(after_stop(before), session),
{
}

} // verus!
