//! The playback actor's decisions: for each transport command, the actor's
//! next state and what it asks of the audio device. The thread, the command
//! queue and the device itself belong to the program around the library.

use vstd::prelude::*;

verus! {

/// A transport command sent to the playback actor.
#[derive(Debug)]
pub enum PlayerEvent {
    Play(String),
    Pause,
    Resume,
    Stop,
    Next,
    Quit,
}

/// An operation on the audio device, performed in order by the actor's thread.
#[derive(Debug)]
pub enum DeviceAction {
    /// Halt and discard the active sink.
    StopSink,
    /// Open and decode the file, and play it on a fresh sink.
    StartSink(String),
    /// Pause the active sink.
    PauseSink,
    /// Resume the active sink where it was paused.
    ResumeSink,
}

/// The one sink the actor holds: the track bound to it and whether it is paused.
#[derive(Debug)]
pub struct ActiveSink {
    pub track: String,
    pub paused: bool,
}

/// The actor's state: at most one active sink, and whether its loop goes on.
#[derive(Debug)]
pub struct PlayerState {
    pub sink: Option<ActiveSink>,
    pub running: bool,
}

/// The device operation that stops the current sink, if there is one.
pub open spec fn stop_current(s: PlayerState) -> Seq<DeviceAction> {
    match s.sink {
        Some(_) => seq![DeviceAction::StopSink],
        None => seq![],
    }
}

/// The actor's state after handling `e` in state `s`.
pub open spec fn after(s: PlayerState, e: PlayerEvent) -> PlayerState {
    match e {
        PlayerEvent::Play(p) => PlayerState { sink: Some(ActiveSink { track: p, paused: false }), running: s.running },
        PlayerEvent::Pause => match s.sink {
            Some(k) => PlayerState { sink: Some(ActiveSink { track: k.track, paused: true }), running: s.running },
            None => s,
        },
        PlayerEvent::Resume => match s.sink {
            Some(k) => PlayerState { sink: Some(ActiveSink { track: k.track, paused: false }), running: s.running },
            None => s,
        },
        PlayerEvent::Stop => PlayerState { sink: None, running: s.running },
        PlayerEvent::Next => PlayerState { sink: None, running: s.running },
        PlayerEvent::Quit => PlayerState { sink: None, running: false },
    }
}

/// The device operations that handling `e` in state `s` performs, in order.
pub open spec fn effects(s: PlayerState, e: PlayerEvent) -> Seq<DeviceAction> {
    match e {
        PlayerEvent::Play(p) => stop_current(s).push(DeviceAction::StartSink(p)),
        PlayerEvent::Pause => match s.sink {
            Some(_) => seq![DeviceAction::PauseSink],
            None => seq![],
        },
        PlayerEvent::Resume => match s.sink {
            Some(_) => seq![DeviceAction::ResumeSink],
            None => seq![],
        },
        PlayerEvent::Stop => stop_current(s),
        PlayerEvent::Next => stop_current(s),
        PlayerEvent::Quit => stop_current(s),
    }
}

/// The number of sinks the actor holds: 0 or 1.
pub open spec fn sink_count(s: PlayerState) -> nat {
    match s.sink {
        Some(_) => 1,
        None => 0,
    }
}

/// The number of live sinks on a device that had `n` of them, once `acts`
/// have been performed.
pub open spec fn device_sinks(n: nat, acts: Seq<DeviceAction>) -> nat
    decreases acts.len(),
{
    if acts.len() == 0 {
        n
    } else {
        let m = device_sinks(n, acts.drop_last());
        match acts.last() {
            DeviceAction::StopSink => if m > 0 { (m - 1) as nat } else { 0 },
            DeviceAction::StartSink(_) => m + 1,
            _ => m,
        }
    }
}

/// Whether `acts` open and decode a file.
pub open spec fn starts_a_sink(acts: Seq<DeviceAction>) -> bool {
    exists|i: int| 0 <= i < acts.len() && (#[trigger] acts[i]) is StartSink
}

impl PlayerState {
    /// The state of an actor that has just started: no sink, loop running.
    pub fn new() -> (r: PlayerState)
        ensures
            r.sink is None,
            r.running,
    {
        PlayerState { sink: None, running: true }
    }

    /// Handles one command: updates the state and returns the device
    /// operations to perform, in order. Play stops the current sink before
    /// starting the new one; Pause and Resume act on the current sink; Stop
    /// and Next discard it; Quit discards it and ends the loop. A command that
    /// needs a sink does nothing when there is none.
    pub fn step(&mut self, event: PlayerEvent) -> (actions: Vec<DeviceAction>)
        ensures
            *final(self) == after(*old(self), event),
            actions@ == effects(*old(self), event),
    {
        let mut actions: Vec<DeviceAction> = Vec::new();
        match event {
            PlayerEvent::Play(p) => {
                if self.sink.is_some() {
                    actions.push(DeviceAction::StopSink);
                }
                actions.push(DeviceAction::StartSink(p.clone()));
                self.sink = Some(ActiveSink { track: p, paused: false });
            },
            PlayerEvent::Pause => {
                match &self.sink {
                    Some(k) => {
                        let track = k.track.clone();
                        actions.push(DeviceAction::PauseSink);
                        self.sink = Some(ActiveSink { track, paused: true });
                    },
                    None => {},
                }
            },
            PlayerEvent::Resume => {
                match &self.sink {
                    Some(k) => {
                        let track = k.track.clone();
                        actions.push(DeviceAction::ResumeSink);
                        self.sink = Some(ActiveSink { track, paused: false });
                    },
                    None => {},
                }
            },
            PlayerEvent::Stop | PlayerEvent::Next => {
                if self.sink.is_some() {
                    actions.push(DeviceAction::StopSink);
                }
                self.sink = None;
            },
            PlayerEvent::Quit => {
                if self.sink.is_some() {
                    actions.push(DeviceAction::StopSink);
                }
                self.sink = None;
                self.running = false;
            },
        }
        assert(actions@ =~= effects(*old(self), event));
        actions
    }

    /// Records that the device could not open or decode the file of the last
    /// Play: the actor holds no sink, and its loop goes on.
    pub fn start_failed(&mut self)
        ensures
            final(self).sink is None,
            final(self).running == old(self).running,
    {
        self.sink = None;
    }
}

/// Whatever the command, the device ends up with as many live sinks as the
/// actor holds (never more than one), provided it had as many before.
pub proof fn device_follows_state(s: PlayerState, e: PlayerEvent)
    ensures
        device_sinks(sink_count(s), effects(s, e)) == sink_count(after(s, e)),
{
    let stop = seq![DeviceAction::StopSink];
    assert(stop.drop_last() =~= Seq::<DeviceAction>::empty());
    assert(device_sinks(1, Seq::<DeviceAction>::empty()) == 1);
    assert(device_sinks(1, stop) == 0);
    assert(seq![DeviceAction::PauseSink].drop_last() =~= Seq::<DeviceAction>::empty());
    assert(seq![DeviceAction::ResumeSink].drop_last() =~= Seq::<DeviceAction>::empty());
    if let PlayerEvent::Play(p) = e {
        let acts = effects(s, e);
        assert(acts.drop_last() =~= stop_current(s));
        assert(device_sinks(sink_count(s), stop_current(s)) == 0);
    }
}

/// Play(A) then Play(B): the first sink is stopped before the second starts,
/// and the device then holds exactly one live sink, bound to B and playing.
pub proof fn play_replaces_sink(s: PlayerState, a: String, b: String)
    requires
        s.running,
    ensures
        after(after(s, PlayerEvent::Play(a)), PlayerEvent::Play(b)).sink == Some(
            ActiveSink { track: b, paused: false },
        ),
        effects(after(s, PlayerEvent::Play(a)), PlayerEvent::Play(b)) == seq![
            DeviceAction::StopSink,
            DeviceAction::StartSink(b),
        ],
        device_sinks(
            device_sinks(sink_count(s), effects(s, PlayerEvent::Play(a))),
            effects(after(s, PlayerEvent::Play(a)), PlayerEvent::Play(b)),
        ) == 1,
{
    device_follows_state(s, PlayerEvent::Play(a));
    device_follows_state(after(s, PlayerEvent::Play(a)), PlayerEvent::Play(b));
    assert(effects(after(s, PlayerEvent::Play(a)), PlayerEvent::Play(b)) =~= seq![
        DeviceAction::StopSink,
        DeviceAction::StartSink(b),
    ]);
}

/// Stop with no active sink changes nothing and asks nothing of the device;
/// the loop goes on, and a later Play(A) starts a sink on A as usual.
pub proof fn stop_without_sink_is_noop(s: PlayerState, a: String)
    requires
        s.sink is None,
    ensures
        after(s, PlayerEvent::Stop) == s,
        effects(s, PlayerEvent::Stop) == Seq::<DeviceAction>::empty(),
        after(s, PlayerEvent::Stop).running == s.running,
        after(after(s, PlayerEvent::Stop), PlayerEvent::Play(a)).sink == Some(ActiveSink { track: a, paused: false }),
        effects(after(s, PlayerEvent::Stop), PlayerEvent::Play(a)) == seq![DeviceAction::StartSink(a)],
{
    assert(effects(after(s, PlayerEvent::Stop), PlayerEvent::Play(a)) =~= seq![DeviceAction::StartSink(a)]);
}

/// Pause then Resume brings back the same sink, playing the same track: the
/// device pauses and resumes it, and opens or decodes nothing.
pub proof fn pause_then_resume_keeps_track(s: PlayerState, k: ActiveSink)
    requires
        s.sink == Some(k),
    ensures
        after(after(s, PlayerEvent::Pause), PlayerEvent::Resume) == (PlayerState {
            sink: Some(ActiveSink { track: k.track, paused: false }),
            running: s.running,
        }),
        effects(s, PlayerEvent::Pause) == seq![DeviceAction::PauseSink],
        effects(after(s, PlayerEvent::Pause), PlayerEvent::Resume) == seq![DeviceAction::ResumeSink],
        !starts_a_sink(effects(s, PlayerEvent::Pause)),
        !starts_a_sink(effects(after(s, PlayerEvent::Pause), PlayerEvent::Resume)),
{
}

/// Quit ends the actor's loop at once, whatever its state: the one command
/// handled is the last, the sink is stopped, and nothing new is started.
pub proof fn quit_ends_actor(s: PlayerState)
    ensures
        !after(s, PlayerEvent::Quit).running,
        after(s, PlayerEvent::Quit).sink is None,
        !starts_a_sink(effects(s, PlayerEvent::Quit)),
        device_sinks(sink_count(s), effects(s, PlayerEvent::Quit)) == 0,
{
    device_follows_state(s, PlayerEvent::Quit);
}

} // verus!
