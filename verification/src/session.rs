//! The recording session state machine.
//!
//! A single mutable record tracks whether a capture process is running,
//! which file it writes, and the process it is written by. The operations
//! of the control surface — start, stop, toggle, status — are driven here
//! as transitions over that record. The outside work they depend on
//! (region selection, spawning the capture tool, signalling it) is done by
//! the caller, which reports its outcome as an event; every decision about
//! the record itself is made, and proved, in this module.

use vstd::prelude::*;

verus! {

/// Plain-value model of a running capture process: its process id.
#[derive(Clone, Copy, Debug, PartialEq, Eq, Structural)]
pub struct ProcessHandle {
    pub pid: i32,
}

/// The session record: the daemon's only shared mutable state.
///
/// All three fields transition together; `wf` states the invariant.
pub struct RecorderState {
    /// True iff a capture process is believed alive and owned by this record.
    pub recording: bool,
    /// The output file of the running capture, set exactly while recording.
    pub current_file: Option<String>,
    /// The handle of the running capture, held exactly while recording.
    pub handle: Option<ProcessHandle>,
}

/// Outcome of the outside work of a start attempt, reported by the caller.
pub enum StartEvent {
    /// Region selection failed, was cancelled, or chose nothing.
    SelectionFailed,
    /// The capture tool could not be spawned.
    SpawnFailed,
    /// The capture tool is running, with its process id and output file.
    Spawned { pid: i32, file: String },
}

/// Which operation a toggle request delegates to.
#[derive(Clone, Copy, Debug, PartialEq, Eq, Structural)]
pub enum ToggleChoice {
    DoStart,
    DoStop,
}

/// One Start or Stop call, together with the outcome of its outside work.
/// The `bool` of `Stop` is whether graceful termination succeeded.
pub enum SessionEvent {
    Start(StartEvent),
    Stop(bool),
}

/// The record's new value and the result returned to the caller after a
/// StartRecording call whose outside work produced `ev`.
pub open spec fn spec_start(s: RecorderState, ev: StartEvent) -> (RecorderState, bool) {
    if s.recording {
        (s, false)
    } else {
        match ev {
            StartEvent::Spawned { pid, file } => (
                RecorderState {
                    recording: true,
                    current_file: Some(file),
                    handle: Some(ProcessHandle { pid }),
                },
                true,
            ),
            _ => (s, false),
        }
    }
}

/// The record's new value and the stopped file (if any) after a
/// StopRecording call. `graceful_ok` is whether the graceful-termination
/// call succeeded; the result does not depend on it: cleanup is
/// unconditional. A result of `Some(file)` means the call returns true,
/// emits `RecordingStopped(file)` and sends the saved notification;
/// `None` means the call was a no-op returning false, with no emission.
pub open spec fn spec_stop(s: RecorderState, graceful_ok: bool) -> (RecorderState, Option<String>) {
    if !s.recording {
        (s, None)
    } else {
        (
            RecorderState { recording: false, current_file: None, handle: None },
            s.current_file,
        )
    }
}

/// Which operation a ToggleRecording call delegates to.
pub open spec fn spec_toggle_choice(s: RecorderState) -> ToggleChoice {
    if s.recording {
        ToggleChoice::DoStop
    } else {
        ToggleChoice::DoStart
    }
}

/// The record's new value and the bool returned by a ToggleRecording call:
/// the delegated Stop's result when recording, else the delegated Start's.
pub open spec fn spec_toggle(s: RecorderState, ev: StartEvent, graceful_ok: bool) -> (
    RecorderState,
    bool,
) {
    if s.recording {
        let (s2, stopped) = spec_stop(s, graceful_ok);
        (s2, stopped is Some)
    } else {
        spec_start(s, ev)
    }
}

/// A signal the daemon emits on the bus after a successful transition.
pub enum Emission {
    /// `RecordingStarted`.
    Started,
    /// `RecordingStopped`, with the stopped recording's file.
    Stopped(String),
}

/// The record after one Start or Stop call.
pub open spec fn spec_step(s: RecorderState, ev: SessionEvent) -> RecorderState {
    match ev {
        SessionEvent::Start(se) => spec_start(s, se).0,
        SessionEvent::Stop(g) => spec_stop(s, g).0,
    }
}

/// The signals one Start or Stop call emits: `RecordingStarted` exactly
/// when a start succeeds, `RecordingStopped(file)` exactly when a stop
/// finds a recording to stop, and nothing otherwise.
pub open spec fn spec_step_emissions(s: RecorderState, ev: SessionEvent) -> Seq<Emission> {
    match ev {
        SessionEvent::Start(se) => if spec_start(s, se).1 {
            seq![Emission::Started]
        } else {
            Seq::empty()
        },
        SessionEvent::Stop(g) => match spec_stop(s, g).1 {
            Some(f) => seq![Emission::Stopped(f)],
            None => Seq::empty(),
        },
    }
}

/// The signals a sequence of Start and Stop calls emits, in order.
pub open spec fn spec_run_emissions(s: RecorderState, evs: Seq<SessionEvent>) -> Seq<Emission>
    decreases evs.len(),
{
    if evs.len() == 0 {
        Seq::empty()
    } else {
        spec_step_emissions(s, evs[0]) + spec_run_emissions(spec_step(s, evs[0]), evs.drop_first())
    }
}

/// The record after a sequence of Start and Stop calls.
pub open spec fn spec_run(s: RecorderState, evs: Seq<SessionEvent>) -> RecorderState
    decreases evs.len(),
{
    if evs.len() == 0 {
        s
    } else {
        spec_run(spec_step(s, evs[0]), evs.drop_first())
    }
}

impl RecorderState {
    /// The record invariant: the three fields are set and cleared together.
    pub open spec fn wf(self) -> bool {
        &&& self.recording <==> self.current_file is Some
        &&& self.recording <==> self.handle is Some
    }

    /// The empty state: nothing recorded, nothing held.
    pub open spec fn is_idle(self) -> bool {
        &&& !self.recording
        &&& self.current_file is None
        &&& self.handle is None
    }

    /// A fresh record, as created at daemon startup.
    pub fn new() -> (r: Self)
        ensures
            r.is_idle(),
            r.wf(),
    {
        RecorderState { recording: false, current_file: None, handle: None }
    }

    /// Whether a StartRecording call should proceed to the outside work.
    /// When this returns false the call is a no-op returning false: the
    /// caller runs no region selector and spawns no capture process.
    pub fn start_requested(&self) -> (proceed: bool)
        ensures
            proceed == !self.recording,
    {
        !self.recording
    }

    /// Complete a StartRecording call with the outcome of the outside work.
    /// Returns true iff recording began; on true the caller emits
    /// `RecordingStarted`, on false after a failure event it surfaces an
    /// error notification. The record changes only on success.
    pub fn finish_start(&mut self, ev: StartEvent) -> (started: bool)
        requires
            old(self).wf(),
            !old(self).recording,
        ensures
            final(self).wf(),
            *final(self) == spec_start(*old(self), ev).0,
            started == spec_start(*old(self), ev).1,
    {
        match ev {
            StartEvent::Spawned { pid, file } => {
                self.recording = true;
                self.current_file = Some(file);
                self.handle = Some(ProcessHandle { pid });
                true
            },
            StartEvent::SelectionFailed => false,
            StartEvent::SpawnFailed => false,
        }
    }

    /// Whether a StopRecording call should proceed, and with which process.
    /// `None` means not recording: the call is a no-op returning false and
    /// emits nothing. `Some(h)` directs the caller to gracefully stop `h`
    /// and then report back through `finish_stop`.
    pub fn stop_requested(&self) -> (h: Option<ProcessHandle>)
        ensures
            h is Some ==> self.recording,
            self.wf() ==> (h is Some <==> self.recording),
            self.wf() ==> h == self.handle,
    {
        if self.recording {
            match &self.handle {
                Some(handle) => Some(*handle),
                None => None,
            }
        } else {
            None
        }
    }

    /// Complete a StopRecording call. The record is reset to idle whether
    /// or not graceful termination succeeded; the returned file is the one
    /// the record held. The caller emits `RecordingStopped(file)` and sends
    /// the saved notification exactly when a file is returned.
    pub fn finish_stop(&mut self, graceful_ok: bool) -> (file: Option<String>)
        requires
            old(self).wf(),
            old(self).recording,
        ensures
            final(self).wf(),
            final(self).is_idle(),
            *final(self) == spec_stop(*old(self), graceful_ok).0,
            file == spec_stop(*old(self), graceful_ok).1,
    {
        let mut taken: Option<String> = None;
        core::mem::swap(&mut self.current_file, &mut taken);
        self.recording = false;
        self.handle = None;
        taken
    }

    /// Which operation a ToggleRecording call delegates to. The read and
    /// the delegated call are two separate lock acquisitions in the daemon,
    /// so a racing caller may change the record in between; the no-op
    /// guards of start and stop keep that race harmless.
    pub fn toggle_requested(&self) -> (c: ToggleChoice)
        ensures
            c == spec_toggle_choice(*self),
    {
        if self.recording {
            ToggleChoice::DoStop
        } else {
            ToggleChoice::DoStart
        }
    }

    /// IsRecording: a pure read of the recording flag.
    pub fn is_recording(&self) -> (r: bool)
        ensures
            r == self.recording,
    {
        self.recording
    }

    /// GetCurrentFile: the current output file, or empty when none is set.
    pub fn get_current_file(&self) -> (r: String)
        ensures
            self.current_file is Some ==> r@ == self.current_file->0@,
            self.current_file is None ==> r@ == Seq::<char>::empty(),
    {
        match &self.current_file {
            Some(f) => f.clone(),
            None => String::new(),
        }
    }
}

impl Default for RecorderState {
    /// The record a daemon starts with: idle.
    fn default() -> (r: Self)
        ensures
            r.is_idle(),
            r.wf(),
    {
        RecorderState { recording: false, current_file: None, handle: None }
    }
}

/// Law: one Start or Stop call keeps the record invariant.
pub proof fn lemma_step_preserves_wf(s: RecorderState, ev: SessionEvent)
    requires
        s.wf(),
    ensures
        spec_step(s, ev).wf(),
{
}

/// Law: after any sequence of Start and Stop calls from a well-formed
/// record, the record invariant holds after every call: there is no
/// reachable state where only one or two of the three fields are set.
pub proof fn lemma_invariant_holds_after_every_call(s: RecorderState, evs: Seq<SessionEvent>)
    requires
        s.wf(),
    ensures
        forall|i: int| 0 <= i <= evs.len() ==> spec_run(s, #[trigger] evs.subrange(0, i)).wf(),
        spec_run(s, evs).wf(),
    decreases evs.len(),
{
    lemma_run_preserves_wf(s, evs);
    assert forall|i: int| 0 <= i <= evs.len() implies spec_run(
        s,
        #[trigger] evs.subrange(0, i),
    ).wf() by {
        lemma_run_preserves_wf(s, evs.subrange(0, i));
    }
}

/// Law: any sequence of Start and Stop calls keeps the record invariant.
pub proof fn lemma_run_preserves_wf(s: RecorderState, evs: Seq<SessionEvent>)
    requires
        s.wf(),
    ensures
        spec_run(s, evs).wf(),
    decreases evs.len(),
{
    if evs.len() > 0 {
        lemma_step_preserves_wf(s, evs[0]);
        lemma_run_preserves_wf(spec_step(s, evs[0]), evs.drop_first());
    }
}

/// Law: Start when already recording is a no-op. Whatever the outside
/// work would have produced, the call returns false and the record is
/// unchanged; the daemon's gate (`start_requested`) additionally keeps it
/// from spawning any subprocess in this state.
pub proof fn lemma_start_when_recording_is_noop(s: RecorderState, ev: StartEvent)
    requires
        s.recording,
    ensures
        spec_start(s, ev).0 == s,
        spec_start(s, ev).1 == false,
        spec_step_emissions(s, SessionEvent::Start(ev)) == Seq::<Emission>::empty(),
{
}

/// Law: Stop when not recording is a no-op: it returns no file, so the
/// caller returns false and emits no signal, and the record is unchanged.
pub proof fn lemma_stop_when_idle_is_noop(s: RecorderState, graceful_ok: bool)
    requires
        !s.recording,
    ensures
        spec_stop(s, graceful_ok).0 == s,
        spec_stop(s, graceful_ok).1 is None,
        spec_step_emissions(s, SessionEvent::Stop(graceful_ok)) == Seq::<Emission>::empty(),
{
}

/// Law: a successful Start followed by a Stop, from a well-formed idle
/// record, returns true from the Start (one `RecordingStarted` emission)
/// and then the recorded file from the Stop (one `RecordingStopped`
/// emission), and the stopped file is exactly the file the record held —
/// the one GetCurrentFile reported — while recording. The record ends idle.
pub proof fn lemma_start_stop_cycle(
    s: RecorderState,
    pid: i32,
    file: String,
    graceful_ok: bool,
)
    requires
        s.wf(),
        !s.recording,
    ensures
        ({
            let (s1, started) = spec_start(s, StartEvent::Spawned { pid, file });
            let (s2, stopped) = spec_stop(s1, graceful_ok);
            &&& started == true
            &&& s1.current_file == Some(file)
            &&& stopped == Some(file)
            &&& s2.is_idle()
        }),
        spec_run_emissions(
            s,
            seq![
                SessionEvent::Start(StartEvent::Spawned { pid, file }),
                SessionEvent::Stop(graceful_ok),
            ],
        ) == seq![Emission::Started, Emission::Stopped(file)],
{
    let evs = seq![
        SessionEvent::Start(StartEvent::Spawned { pid, file }),
        SessionEvent::Stop(graceful_ok),
    ];
    let s1 = spec_step(s, evs[0]);
    assert(evs.drop_first() =~= seq![SessionEvent::Stop(graceful_ok)]);
    assert(seq![SessionEvent::Stop(graceful_ok)].drop_first() =~= Seq::<SessionEvent>::empty());
    assert(spec_run_emissions(spec_step(s1, SessionEvent::Stop(graceful_ok)), Seq::empty())
        == Seq::<Emission>::empty());
    assert(spec_run_emissions(s1, seq![SessionEvent::Stop(graceful_ok)]) =~= seq![
        Emission::Stopped(file),
    ]);
    assert(spec_run_emissions(s, evs) =~= seq![Emission::Started, Emission::Stopped(file)]);
}

/// Law: after Stop from a recording state the record is idle, whether or
/// not the graceful-termination call succeeded; neither the new record nor
/// the returned file depends on that outcome.
pub proof fn lemma_stop_clears_unconditionally(s: RecorderState, graceful_ok: bool)
    requires
        s.recording,
    ensures
        spec_stop(s, graceful_ok).0.is_idle(),
        spec_stop(s, graceful_ok) == spec_stop(s, !graceful_ok),
{
}

/// Law: Toggle from idle behaves identically to Start, and Toggle from
/// recording behaves identically to Stop (returning true exactly when the
/// Stop returned a file), given no concurrent interference between the
/// read and the delegated call.
pub proof fn lemma_toggle_delegates(s: RecorderState, ev: StartEvent, graceful_ok: bool)
    ensures
        !s.recording ==> spec_toggle_choice(s) == ToggleChoice::DoStart && spec_toggle(
            s,
            ev,
            graceful_ok,
        ) == spec_start(s, ev),
        s.recording ==> spec_toggle_choice(s) == ToggleChoice::DoStop && spec_toggle(
            s,
            ev,
            graceful_ok,
        ).0 == spec_stop(s, graceful_ok).0 && (spec_toggle(s, ev, graceful_ok).1 <==> spec_stop(
            s,
            graceful_ok,
        ).1 is Some),
{
}

} // verus!
