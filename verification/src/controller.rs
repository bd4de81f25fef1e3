//! The playback controller: it owns one compiled graph at a time and
//! decides every lifecycle step — load, play, pause, stop, seek,
//! position tracking, end-of-stream, error handling, stuck-state
//! recovery, dispose. The embedding application executes each decision
//! against its media backend from a single logical media thread, waits
//! where the backend is asynchronous, and feeds what it observed back
//! in as plain values; every decision here is verified for every value
//! the backend can report.

use vstd::prelude::*;

use crate::error::EngineError;
use crate::frames::ms_to_frame_spec;
use crate::graph::CompiledGraph;

verus! {

/// The state machine of the underlying media graph.
#[derive(Clone, Copy, PartialEq, Eq, Structural, Debug)]
pub enum GraphState {
    Null,
    Ready,
    Paused,
    Playing,
}

/// The result the application observed while waiting, up to its
/// bounded timeout, for a freshly loaded graph to finish asset
/// discovery and settle in the paused state.
#[derive(Clone, Copy, PartialEq, Eq, Structural, Debug)]
pub enum LoadOutcome {
    Ready,
    TimedOut,
    Failed,
}

/// What a state reconciliation decided: the controller's belief and
/// the graph agree, or the application should re-issue one play
/// request.
#[derive(Clone, Copy, PartialEq, Eq, Structural, Debug)]
pub enum RecoveryAction {
    InSync,
    RetryPlay,
}

/// The abstract state of a controller, over which the lifecycle laws
/// are stated.
pub struct ControllerView {
    pub has_graph: bool,
    pub position_ms: u64,
    pub duration_ms: Option<u64>,
    pub is_playing: bool,
    pub disposed: bool,
    pub state: GraphState,
}

/// A controller accepts transport commands only while it holds a graph
/// and has not been disposed.
pub open spec fn can_control(v: ControllerView) -> bool {
    v.has_graph && !v.disposed
}

/// What `play` does: request the playing state and optimistically
/// believe it; a controller that cannot be controlled is unchanged.
pub open spec fn play_transition(v: ControllerView) -> ControllerView {
    if can_control(v) {
        ControllerView { is_playing: true, state: GraphState::Playing, ..v }
    } else {
        v
    }
}

/// What `pause` does: request the paused state and stop believing
/// playback immediately.
pub open spec fn pause_transition(v: ControllerView) -> ControllerView {
    if can_control(v) {
        ControllerView { is_playing: false, state: GraphState::Paused, ..v }
    } else {
        v
    }
}

/// What `stop` does: drive the graph to its null state and reset the
/// position; a controller without a graph is unchanged.
pub open spec fn stop_transition(v: ControllerView) -> ControllerView {
    if can_control(v) {
        ControllerView { is_playing: false, position_ms: 0, state: GraphState::Null, ..v }
    } else {
        v
    }
}

/// What `dispose` does: stop, release the graph, and become terminal.
/// The transition is constant, so a second dispose changes nothing.
pub open spec fn dispose_transition(v: ControllerView) -> ControllerView {
    ControllerView {
        has_graph: false,
        position_ms: 0,
        duration_ms: None,
        is_playing: false,
        disposed: true,
        state: GraphState::Null,
    }
}

/// Whether a dispose performed now would actually release resources.
pub open spec fn dispose_releases(v: ControllerView) -> bool {
    v.has_graph && !v.disposed
}

/// Law: playing twice in a row leaves the same state as playing once,
/// and does not change whether play succeeds.
pub proof fn lemma_play_idempotent(v: ControllerView)
    ensures
        play_transition(play_transition(v)) == play_transition(v),
        can_control(play_transition(v)) == can_control(v),
{
}

/// Law: pausing twice in a row leaves the same state as pausing once.
pub proof fn lemma_pause_idempotent(v: ControllerView)
    ensures
        pause_transition(pause_transition(v)) == pause_transition(v),
{
}

/// Law: disposing twice in a row leaves the same state as disposing
/// once, and the second dispose releases nothing.
pub proof fn lemma_dispose_idempotent(v: ControllerView)
    ensures
        dispose_transition(dispose_transition(v)) == dispose_transition(v),
        !dispose_releases(dispose_transition(v)),
{
}

/// The playback controller. It holds at most one compiled graph;
/// loading a new one always tears the previous one down first, so two
/// graphs never overlap in one controller slot.
pub struct PipelineController {
    pub graph: Option<CompiledGraph>,
    pub current_position_ms: u64,
    pub duration_ms: Option<u64>,
    pub is_playing: bool,
    pub disposed: bool,
    pub state: GraphState,
    pub framerate_num: u32,
    pub framerate_den: u32,
}

impl PipelineController {
    /// The abstract state of this controller.
    pub open spec fn model(self) -> ControllerView {
        ControllerView {
            has_graph: match self.graph {
                Some(_) => true,
                None => false,
            },
            position_ms: self.current_position_ms,
            duration_ms: self.duration_ms,
            is_playing: self.is_playing,
            disposed: self.disposed,
            state: self.state,
        }
    }

    /// The frame rate is a positive fraction.
    pub open spec fn wf(self) -> bool {
        self.framerate_num > 0 && self.framerate_den > 0
    }

    /// A fresh controller: no graph, position zero, not playing, frame
    /// rate defaulted to 30 frames per second until a source reports
    /// one.
    pub fn new() -> (r: PipelineController)
        ensures
            r.wf(),
            r.model() == (ControllerView {
                has_graph: false,
                position_ms: 0,
                duration_ms: None,
                is_playing: false,
                disposed: false,
                state: GraphState::Null,
            }),
            r.framerate_num == 30,
            r.framerate_den == 1,
    {
        PipelineController {
            graph: None,
            current_position_ms: 0,
            duration_ms: None,
            is_playing: false,
            disposed: false,
            state: GraphState::Null,
            framerate_num: 30,
            framerate_den: 1,
        }
    }

    /// Adopts a freshly built graph. The previous graph, if any, is
    /// torn down first: the new state never mixes the two. `outcome`
    /// is what the application observed while driving the new graph to
    /// its paused state within the bounded wait. On `Ready` the
    /// graph's duration is cached and the controller sits paused at
    /// position zero; a timeout surfaces `LoadTimeout`, a failed
    /// transition `GraphBuildFailed`, and both leave the controller
    /// empty. A
    /// disposed controller is terminal and fails with `NotFound`.
    pub fn load(&mut self, graph: CompiledGraph, outcome: LoadOutcome) -> (r: Result<
        (),
        EngineError,
    >)
        ensures
            final(self).wf() == old(self).wf(),
            final(self).framerate_num == old(self).framerate_num,
            final(self).framerate_den == old(self).framerate_den,
            old(self).disposed ==> {
                &&& r matches Err(EngineError::NotFound)
                &&& *final(self) == *old(self)
            },
            !old(self).disposed ==> {
                &&& final(self).disposed == false
                &&& (outcome == LoadOutcome::Ready ==> {
                    &&& r matches Ok(_)
                    &&& final(self).graph == Some(graph)
                    &&& final(self).duration_ms == Some(graph.duration_ms)
                    &&& final(self).current_position_ms == 0
                    &&& final(self).is_playing == false
                    &&& final(self).state == GraphState::Paused
                })
                &&& (outcome == LoadOutcome::TimedOut ==> r matches Err(EngineError::LoadTimeout))
                &&& (outcome == LoadOutcome::Failed ==> r matches Err(EngineError::GraphBuildFailed))
                &&& (outcome != LoadOutcome::Ready ==> {
                    &&& final(self).graph is None
                    &&& final(self).duration_ms is None
                    &&& final(self).current_position_ms == 0
                    &&& final(self).is_playing == false
                    &&& final(self).state == GraphState::Null
                })
            },
    {
        if self.disposed {
            return Err(EngineError::NotFound);
        }
        self.graph = None;
        self.is_playing = false;
        self.current_position_ms = 0;
        self.state = GraphState::Null;
        self.duration_ms = None;
        match outcome {
            LoadOutcome::Ready => {
                self.duration_ms = Some(graph.duration_ms);
                self.graph = Some(graph);
                self.state = GraphState::Paused;
                Ok(())
            },
            LoadOutcome::TimedOut => Err(EngineError::LoadTimeout),
            LoadOutcome::Failed => Err(EngineError::GraphBuildFailed),
        }
    }

    /// Requests playback. Idempotent: playing while already playing is
    /// a no-op success. The belief is optimistic; the application
    /// issues the backend request and later reconciles through
    /// `check_and_recover_state`. Fails with `NotFound` when no graph
    /// is loaded or the controller is disposed.
    pub fn play(&mut self) -> (r: Result<(), EngineError>)
        ensures
            final(self).model() == play_transition(old(self).model()),
            final(self).graph == old(self).graph,
            final(self).framerate_num == old(self).framerate_num,
            final(self).framerate_den == old(self).framerate_den,
            (r matches Ok(_)) <==> can_control(old(self).model()),
            r matches Err(e) ==> e == EngineError::NotFound,
    {
        if self.disposed || self.graph.is_none() {
            return Err(EngineError::NotFound);
        }
        self.is_playing = true;
        self.state = GraphState::Playing;
        Ok(())
    }

    /// Requests pause. Idempotent. The controller stops believing
    /// playback at once, decoupled from when the graph settles. Fails
    /// with `NotFound` when no graph is loaded or the controller is
    /// disposed.
    pub fn pause(&mut self) -> (r: Result<(), EngineError>)
        ensures
            final(self).model() == pause_transition(old(self).model()),
            final(self).graph == old(self).graph,
            final(self).framerate_num == old(self).framerate_num,
            final(self).framerate_den == old(self).framerate_den,
            (r matches Ok(_)) <==> can_control(old(self).model()),
            r matches Err(e) ==> e == EngineError::NotFound,
    {
        if self.disposed || self.graph.is_none() {
            return Err(EngineError::NotFound);
        }
        self.is_playing = false;
        self.state = GraphState::Paused;
        Ok(())
    }

    /// Drives the graph to its null state and resets the position.
    /// Always succeeds: with no graph loaded it is a no-op.
    pub fn stop(&mut self)
        ensures
            final(self).model() == stop_transition(old(self).model()),
            final(self).graph == old(self).graph,
            final(self).framerate_num == old(self).framerate_num,
            final(self).framerate_den == old(self).framerate_den,
    {
        if !self.disposed && self.graph.is_some() {
            self.is_playing = false;
            self.current_position_ms = 0;
            self.state = GraphState::Null;
        }
    }

    /// Requests an accurate, flushing seek and returns the position
    /// actually requested: a target past the cached duration is
    /// clamped rather than rejected. Whichever of playing or paused
    /// the controller was in is preserved. Fails with `SeekFailed`
    /// when no graph is loaded or the controller is disposed, leaving
    /// the state untouched.
    pub fn seek(&mut self, position_ms: u64) -> (r: Result<u64, EngineError>)
        ensures
            final(self).graph == old(self).graph,
            final(self).framerate_num == old(self).framerate_num,
            final(self).framerate_den == old(self).framerate_den,
            (r matches Ok(_)) <==> can_control(old(self).model()),
            r matches Err(e) ==> e == EngineError::SeekFailed && *final(self) == *old(self),
            r matches Ok(p) ==> {
                &&& p == (match old(self).duration_ms {
                    Some(d) => if position_ms > d {
                        d
                    } else {
                        position_ms
                    },
                    None => position_ms,
                })
                &&& final(self).current_position_ms == p
                &&& final(self).is_playing == old(self).is_playing
                &&& final(self).state == old(self).state
                &&& final(self).duration_ms == old(self).duration_ms
                &&& final(self).disposed == old(self).disposed
            },
    {
        if self.disposed || self.graph.is_none() {
            return Err(EngineError::SeekFailed);
        }
        let target = match self.duration_ms {
            Some(d) => if position_ms > d {
                d
            } else {
                position_ms
            },
            None => position_ms,
        };
        self.current_position_ms = target;
        Ok(target)
    }

    /// The graph's playback position, when it means something: only a
    /// graph sitting paused or playing reports one; otherwise `None`,
    /// which is not an error.
    pub fn query_position(&self) -> (r: Option<u64>)
        ensures
            r == (if can_control(self.model()) && (self.state == GraphState::Paused || self.state
                == GraphState::Playing) {
                Some(self.current_position_ms)
            } else {
                Option::<u64>::None
            }),
    {
        if self.disposed || self.graph.is_none() {
            return None;
        }
        match self.state {
            GraphState::Paused => Some(self.current_position_ms),
            GraphState::Playing => Some(self.current_position_ms),
            _ => None,
        }
    }

    /// Adopts a position the application read from the graph, ignored
    /// unless the graph is in a state where positions mean something.
    pub fn update_position(&mut self, observed: Option<u64>)
        ensures
            final(self).current_position_ms == (
            if can_control(old(self).model()) && (old(self).state == GraphState::Paused || old(
                self,
            ).state == GraphState::Playing) && observed matches Some(_) {
                match observed {
                    Some(p) => p,
                    None => old(self).current_position_ms,
                }
            } else {
                old(self).current_position_ms
            }),
            final(self).graph == old(self).graph,
            final(self).duration_ms == old(self).duration_ms,
            final(self).is_playing == old(self).is_playing,
            final(self).disposed == old(self).disposed,
            final(self).state == old(self).state,
            final(self).framerate_num == old(self).framerate_num,
            final(self).framerate_den == old(self).framerate_den,
    {
        if self.disposed || self.graph.is_none() {
            return ;
        }
        let meaningful = match self.state {
            GraphState::Paused => true,
            GraphState::Playing => true,
            _ => false,
        };
        if meaningful {
            if let Some(p) = observed {
                self.current_position_ms = p;
            }
        }
    }

    /// Reconciles the controller's belief against the state and
    /// pending state the application observed on the graph. A graph
    /// found in its null state while believed playing is fatal:
    /// `PipelineDied`, belief dropped, no further automatic retry. A
    /// graph that is neither playing nor moving toward playing while
    /// believed playing earns exactly one `RetryPlay` decision per
    /// check; the application re-issues the play request. Everything
    /// else is in sync: the belief adopts what was observed.
    pub fn check_and_recover_state(&mut self, observed: GraphState, pending: Option<GraphState>)
        -> (r: Result<RecoveryAction, EngineError>)
        ensures
            final(self).graph == old(self).graph,
            final(self).duration_ms == old(self).duration_ms,
            final(self).current_position_ms == old(self).current_position_ms,
            final(self).disposed == old(self).disposed,
            final(self).framerate_num == old(self).framerate_num,
            final(self).framerate_den == old(self).framerate_den,
            !can_control(old(self).model()) ==> {
                &&& r matches Ok(RecoveryAction::InSync)
                &&& *final(self) == *old(self)
            },
            can_control(old(self).model()) ==> {
                &&& (old(self).is_playing && observed == GraphState::Null ==> {
                    &&& r matches Err(EngineError::PipelineDied)
                    &&& final(self).is_playing == false
                    &&& final(self).state == GraphState::Null
                })
                &&& (old(self).is_playing && observed != GraphState::Null && observed
                    != GraphState::Playing && pending != Some(GraphState::Playing) ==> {
                    &&& r matches Ok(RecoveryAction::RetryPlay)
                    &&& final(self).is_playing == old(self).is_playing
                    &&& final(self).state == old(self).state
                })
                &&& ((old(self).is_playing && observed != GraphState::Null && (observed
                    == GraphState::Playing || pending == Some(GraphState::Playing))) || !old(
                    self,
                ).is_playing ==> {
                    &&& r matches Ok(RecoveryAction::InSync)
                    &&& final(self).is_playing == (observed == GraphState::Playing)
                    &&& final(self).state == observed
                })
            },
    {
        if self.disposed || self.graph.is_none() {
            return Ok(RecoveryAction::InSync);
        }
        if self.is_playing {
            if observed == GraphState::Null {
                self.is_playing = false;
                self.state = GraphState::Null;
                return Err(EngineError::PipelineDied);
            }
            let pending_playing = match pending {
                Some(p) => p == GraphState::Playing,
                None => false,
            };
            if observed != GraphState::Playing && !pending_playing {
                return Ok(RecoveryAction::RetryPlay);
            }
        }
        self.is_playing = observed == GraphState::Playing;
        self.state = observed;
        Ok(RecoveryAction::InSync)
    }

    /// The graph signalled completion: playback belief drops, and the
    /// position stays at the terminal timestamp. No automatic loop or
    /// reset; that is the caller's decision.
    pub fn on_end_of_stream(&mut self)
        ensures
            final(self).is_playing == false,
            final(self).graph == old(self).graph,
            final(self).current_position_ms == old(self).current_position_ms,
            final(self).duration_ms == old(self).duration_ms,
            final(self).disposed == old(self).disposed,
            final(self).state == old(self).state,
            final(self).framerate_num == old(self).framerate_num,
            final(self).framerate_den == old(self).framerate_den,
    {
        self.is_playing = false;
    }

    /// The graph reported a fatal decode or link error: playback
    /// belief drops, but the graph is kept — whether to dispose is the
    /// caller's decision.
    pub fn on_error(&mut self)
        ensures
            final(self).is_playing == false,
            final(self).graph == old(self).graph,
            final(self).current_position_ms == old(self).current_position_ms,
            final(self).duration_ms == old(self).duration_ms,
            final(self).disposed == old(self).disposed,
            final(self).state == old(self).state,
            final(self).framerate_num == old(self).framerate_num,
            final(self).framerate_den == old(self).framerate_den,
    {
        self.is_playing = false;
    }

    /// Stops and releases the graph; the controller becomes terminal.
    /// Subsequent calls are no-ops. The result says whether resources
    /// were released by this call, so the application frees its
    /// backend objects exactly once.
    pub fn dispose(&mut self) -> (released: bool)
        ensures
            final(self).model() == dispose_transition(old(self).model()),
            final(self).graph is None,
            final(self).framerate_num == old(self).framerate_num,
            final(self).framerate_den == old(self).framerate_den,
            released == dispose_releases(old(self).model()),
    {
        let released = !self.disposed && self.graph.is_some();
        self.graph = None;
        self.is_playing = false;
        self.current_position_ms = 0;
        self.duration_ms = None;
        self.state = GraphState::Null;
        self.disposed = true;
        released
    }

    /// The position the controller last adopted, in milliseconds.
    pub fn get_position_ms(&self) -> (r: u64)
        ensures
            r == self.current_position_ms,
    {
        self.current_position_ms
    }

    /// The duration cached when the graph was loaded, if any.
    pub fn get_duration_ms(&self) -> (r: Option<u64>)
        ensures
            r == self.duration_ms,
    {
        self.duration_ms
    }

    /// Whether the controller currently believes playback is running.
    pub fn is_playing(&self) -> (r: bool)
        ensures
            r == self.is_playing,
    {
        self.is_playing
    }

    /// A controller with a live graph accepts seeks.
    pub fn is_seekable(&self) -> (r: bool)
        ensures
            r == can_control(self.model()),
    {
        !self.disposed && self.graph.is_some()
    }

    /// Adopts the frame rate a source reported.
    pub fn set_framerate(&mut self, num: u32, den: u32)
        requires
            num > 0,
            den > 0,
        ensures
            final(self).framerate_num == num,
            final(self).framerate_den == den,
            final(self).wf(),
            final(self).model() == old(self).model(),
            final(self).graph == old(self).graph,
    {
        self.framerate_num = num;
        self.framerate_den = den;
    }

    /// The frame number at the current position, under the tracked
    /// frame rate, saturating at the largest representable frame.
    pub fn get_current_frame_number(&self) -> (r: u64)
        requires
            self.wf(),
        ensures
            ({
                let f = ms_to_frame_spec(
                    self.current_position_ms as int,
                    self.framerate_num as int,
                    self.framerate_den as int,
                );
                r == if f <= u64::MAX {
                    f
                } else {
                    u64::MAX as int
                }
            }),
    {
        proof {
            vstd::arithmetic::mul::lemma_mul_upper_bound(
                self.current_position_ms as int,
                u64::MAX as int,
                self.framerate_num as int,
                u32::MAX as int,
            );
        }
        let x: u128 = self.current_position_ms as u128 * self.framerate_num as u128;
        let d: u128 = self.framerate_den as u128 * 1000;
        let q: u128 = x / d;
        if q > u64::MAX as u128 {
            u64::MAX
        } else {
            q as u64
        }
    }
}

} // verus!
