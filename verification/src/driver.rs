//! The frame driver: the state machine that takes the host's signals one at
//! a time and answers each with the next thing to do outside.
//!
//! The host wakes the driver when it is ready for a frame and hands it every
//! platform event. Within a frame the driver asks for one piece of outside
//! work at a time, in a fixed order, and is told when each is done.

use crate::dispatch::{input_after, Dispatcher, Effect, Offered, WindowEvent};
use crate::input::{InputModel, InputState};
use crate::pacer::{
    clamp_delta, clamped_delta, BOOTSTRAP_DELTA_NANOS, MAX_DELTA_NANOS, MIN_DELTA_NANOS,
};
use crate::resolution::ResolutionConfig;
use vstd::prelude::*;

verus! {

/// Where the driver stands. All phases but `Terminating` belong to the
/// running loop; from `MarkingStart` to `Sleeping` a frame cycle is under way
/// and the phase names the outside work that was asked for last.
#[derive(Clone, Copy, PartialEq, Eq, Structural, Debug)]
pub enum Phase {
    /// Between frames.
    Idle,
    MarkingStart,
    ResettingRender,
    BeginningUi,
    RunningStages,
    MeasuringWork,
    Sleeping,
    /// The loop ends. Nothing leaves this phase.
    Terminating,
}

/// What the host tells the driver.
#[derive(Clone, Copy, PartialEq, Eq, Structural, Debug)]
pub enum Signal {
    /// The host is ready for a frame.
    Wake,
    /// A platform event arrived, and the interface layer gave its verdict.
    Event(Offered),
    /// The frame's start was marked.
    StartMarked,
    /// The rendering configuration is back at its defaults.
    RenderReset,
    /// The interface layer began its frame.
    UiFrameBegun,
    /// The update stages ran to completion.
    StagesRun,
    /// This much wall time has passed since the frame's start was marked.
    WorkMeasured { elapsed_nanos: u64 },
    /// The pacer slept, and this much wall time has passed since the frame's
    /// start was marked.
    Slept { elapsed_nanos: u64 },
}

/// What the driver asks of the host in answer to a signal.
#[derive(Clone, Copy, PartialEq, Eq, Structural, Debug)]
pub enum Action {
    /// Nothing: hand control back to the host.
    Wait,
    /// Mark the frame's start, then signal `StartMarked`.
    MarkFrameStart,
    /// Put the rendering configuration back at its defaults, then signal
    /// `RenderReset`.
    ResetRenderState,
    /// Begin the interface layer's frame with the raw input gathered since
    /// the last one, then signal `UiFrameBegun`.
    BeginUiFrame,
    /// Run the early stages, the consumer's update, the performance counters
    /// and the late stages with this step, then signal `StagesRun`.
    RunStages { delta_nanos: u64 },
    /// Measure the wall time since the frame's start, then signal
    /// `WorkMeasured`.
    MeasureFrameTime,
    /// Sleep until the target period is over, measure the wall time since the
    /// frame's start, then signal `Slept`.
    SleepToTarget,
    /// Resize the renderer to this physical size.
    Resize { width: u32, height: u32 },
    /// Log that a scroll in an unsupported unit was dropped.
    ReportUnsupportedScroll,
    /// Leave the loop.
    Exit,
}

/// The frame timing state. Times are in nanoseconds; a counter or a time that
/// has reached the largest value of its type stays there.
#[derive(Clone, Copy, PartialEq, Eq, Structural, Debug)]
pub struct Timing {
    /// The step of the current frame.
    pub delta_nanos: u64,
    /// The step that the next frame will be given.
    pub next_delta_nanos: u64,
    /// The sum of the steps of all frames so far.
    pub time_nanos: u64,
    /// The number of frames whose update stages were started.
    pub frame: u64,
    /// The wall time that the last completed frame's work took, before the
    /// sleep.
    pub frame_time_nanos: u64,
    /// The number of completed frames.
    pub frames_completed: u64,
}

impl Timing {
    /// The timing state at startup.
    pub open spec fn initial() -> Timing {
        Timing {
            delta_nanos: BOOTSTRAP_DELTA_NANOS,
            next_delta_nanos: BOOTSTRAP_DELTA_NANOS,
            time_nanos: 0,
            frame: 0,
            frame_time_nanos: 0,
            frames_completed: 0,
        }
    }

    /// Both steps lie in the interval of admissible steps.
    pub open spec fn wf(self) -> bool {
        &&& MIN_DELTA_NANOS <= self.delta_nanos <= MAX_DELTA_NANOS
        &&& MIN_DELTA_NANOS <= self.next_delta_nanos <= MAX_DELTA_NANOS
    }

    /// The step computed at the end of the previous cycle becomes the step of
    /// this frame, and the accumulated time advances by it.
    pub open spec fn published(self) -> Timing {
        Timing {
            delta_nanos: self.next_delta_nanos,
            time_nanos: self.time_nanos.saturating_add(self.next_delta_nanos),
            ..self
        }
    }

    /// One more frame has started its update stages.
    pub open spec fn frame_started(self) -> Timing {
        Timing { frame: self.frame.saturating_add(1), ..self }
    }

    /// One more frame is complete, and its work took `elapsed_nanos`.
    pub open spec fn frame_completed(self, elapsed_nanos: u64) -> Timing {
        Timing {
            frame_time_nanos: elapsed_nanos,
            frames_completed: self.frames_completed.saturating_add(1),
            ..self
        }
    }

    /// The whole cycle took `elapsed_nanos`: the next step is that time,
    /// brought into the interval of admissible steps.
    pub open spec fn paced(self, elapsed_nanos: u64) -> Timing {
        Timing { next_delta_nanos: clamped_delta(elapsed_nanos as int) as u64, ..self }
    }
}

/// The driver as a mathematical value.
pub ghost struct DriverModel {
    pub phase: Phase,
    /// Whether the consumer asked to quit.
    pub quit: bool,
    pub timing: Timing,
    pub input: InputModel,
    pub dispatcher: Dispatcher,
}

impl DriverModel {
    /// The driver at startup, with the given router.
    pub open spec fn initial(dispatcher: Dispatcher) -> DriverModel {
        DriverModel {
            phase: Phase::Idle,
            quit: false,
            timing: Timing::initial(),
            input: InputModel::initial(),
            dispatcher,
        }
    }

    /// What holds of every reachable state.
    pub open spec fn wf(self) -> bool {
        self.timing.wf() && self.input.wf()
    }

    /// The same driver once the consumer has asked to quit.
    pub open spec fn quit_requested(self) -> DriverModel {
        DriverModel { quit: true, ..self }
    }

    /// The state and the answer after a platform event was routed. The phase
    /// changes only where the event ends the loop.
    pub open spec fn route(self, offered: Offered) -> (DriverModel, Action) {
        let routed = DriverModel { input: input_after(self.input, offered), ..self };
        match self.dispatcher.effect_of(offered) {
            Effect::Nothing => (routed, Action::Wait),
            Effect::Resize { width, height } => (routed, Action::Resize { width, height }),
            Effect::UnsupportedScroll => (routed, Action::ReportUnsupportedScroll),
            Effect::Exit => (DriverModel { phase: Phase::Terminating, ..routed }, Action::Exit),
        }
    }

    /// The transition table: the state after `signal`, and the answer to it.
    ///
    /// Once the driver terminates, every signal is answered by `Exit` and
    /// changes nothing. A platform event is routed in any other phase. Every
    /// other signal is awaited in exactly one phase; elsewhere it changes
    /// nothing and is answered by `Wait`.
    pub open spec fn step(self, signal: Signal) -> (DriverModel, Action) {
        match (self.phase, signal) {
            (Phase::Terminating, _) => (self, Action::Exit),
            (_, Signal::Event(offered)) => self.route(offered),
            (Phase::Idle, Signal::Wake) => (
                DriverModel { phase: Phase::MarkingStart, ..self },
                Action::MarkFrameStart,
            ),
            (Phase::MarkingStart, Signal::StartMarked) => (
                DriverModel {
                    phase: Phase::ResettingRender,
                    timing: self.timing.published(),
                    ..self
                },
                Action::ResetRenderState,
            ),
            (Phase::ResettingRender, Signal::RenderReset) => if self.quit {
                (DriverModel { phase: Phase::Terminating, ..self }, Action::Exit)
            } else {
                (DriverModel { phase: Phase::BeginningUi, ..self }, Action::BeginUiFrame)
            },
            (Phase::BeginningUi, Signal::UiFrameBegun) => (
                DriverModel {
                    phase: Phase::RunningStages,
                    timing: self.timing.frame_started(),
                    ..self
                },
                Action::RunStages { delta_nanos: self.timing.delta_nanos },
            ),
            (Phase::RunningStages, Signal::StagesRun) => (
                DriverModel { phase: Phase::MeasuringWork, input: self.input.end_frame(), ..self },
                Action::MeasureFrameTime,
            ),
            (Phase::MeasuringWork, Signal::WorkMeasured { elapsed_nanos }) => (
                DriverModel {
                    phase: Phase::Sleeping,
                    timing: self.timing.frame_completed(elapsed_nanos),
                    ..self
                },
                Action::SleepToTarget,
            ),
            (Phase::Sleeping, Signal::Slept { elapsed_nanos }) => (
                DriverModel { phase: Phase::Idle, timing: self.timing.paced(elapsed_nanos), ..self },
                Action::Wait,
            ),
            _ => (self, Action::Wait),
        }
    }

    /// The state after each of `signals` in turn.
    pub open spec fn run(self, signals: Seq<Signal>) -> DriverModel
        decreases signals.len(),
    {
        if signals.len() == 0 {
            self
        } else {
            self.run(signals.drop_last()).step(signals.last()).0
        }
    }

    /// The answers to each of `signals` in turn.
    pub open spec fn answers(self, signals: Seq<Signal>) -> Seq<Action>
        decreases signals.len(),
    {
        if signals.len() == 0 {
            Seq::empty()
        } else {
            self.answers(signals.drop_last()).push(
                self.run(signals.drop_last()).step(signals.last()).1,
            )
        }
    }
}

/// The frame driver. It owns the shared input state and the timing state and
/// lends them out for reading.
pub struct FrameDriver {
    phase: Phase,
    quit: bool,
    timing: Timing,
    input: InputState,
    dispatcher: Dispatcher,
}

impl View for FrameDriver {
    type V = DriverModel;

    closed spec fn view(&self) -> DriverModel {
        DriverModel {
            phase: self.phase,
            quit: self.quit,
            timing: self.timing,
            input: self.input@,
            dispatcher: self.dispatcher,
        }
    }
}

impl FrameDriver {
    /// A driver between frames, with no input seen, the bootstrap step and a
    /// router whose floor is `min_resolution` with its zero dimensions raised
    /// to one.
    pub fn new(min_resolution: ResolutionConfig) -> (d: FrameDriver)
        ensures
            d@.dispatcher.min_width == min_resolution.non_zero().spec_width(),
            d@.dispatcher.min_height == min_resolution.non_zero().spec_height(),
            d@ == DriverModel::initial(d@.dispatcher),
            d@.wf(),
    {
        FrameDriver {
            phase: Phase::Idle,
            quit: false,
            timing: Timing {
                delta_nanos: BOOTSTRAP_DELTA_NANOS,
                next_delta_nanos: BOOTSTRAP_DELTA_NANOS,
                time_nanos: 0,
                frame: 0,
                frame_time_nanos: 0,
                frames_completed: 0,
            },
            input: InputState::new(),
            dispatcher: Dispatcher::new(min_resolution),
        }
    }

    /// Takes one signal from the host and answers it, as the transition table
    /// says.
    pub fn signal(&mut self, signal: Signal) -> (action: Action)
        ensures
            final(self)@ == old(self)@.step(signal).0,
            action == old(self)@.step(signal).1,
            old(self)@.wf() ==> final(self)@.wf(),
    {
        match (self.phase, signal) {
            (Phase::Terminating, _) => Action::Exit,
            (_, Signal::Event(offered)) => {
                match self.dispatcher.dispatch(&mut self.input, offered) {
                    Effect::Nothing => Action::Wait,
                    Effect::Resize { width, height } => Action::Resize { width, height },
                    Effect::UnsupportedScroll => Action::ReportUnsupportedScroll,
                    Effect::Exit => {
                        self.phase = Phase::Terminating;
                        Action::Exit
                    },
                }
            },
            (Phase::Idle, Signal::Wake) => {
                self.phase = Phase::MarkingStart;
                Action::MarkFrameStart
            },
            (Phase::MarkingStart, Signal::StartMarked) => {
                self.timing.delta_nanos = self.timing.next_delta_nanos;
                self.timing.time_nanos = self.timing.time_nanos.saturating_add(
                    self.timing.next_delta_nanos,
                );
                self.phase = Phase::ResettingRender;
                Action::ResetRenderState
            },
            (Phase::ResettingRender, Signal::RenderReset) => {
                if self.quit {
                    self.phase = Phase::Terminating;
                    Action::Exit
                } else {
                    self.phase = Phase::BeginningUi;
                    Action::BeginUiFrame
                }
            },
            (Phase::BeginningUi, Signal::UiFrameBegun) => {
                self.timing.frame = self.timing.frame.saturating_add(1);
                self.phase = Phase::RunningStages;
                Action::RunStages { delta_nanos: self.timing.delta_nanos }
            },
            (Phase::RunningStages, Signal::StagesRun) => {
                self.input.end_frame();
                self.phase = Phase::MeasuringWork;
                Action::MeasureFrameTime
            },
            (Phase::MeasuringWork, Signal::WorkMeasured { elapsed_nanos }) => {
                self.timing.frame_time_nanos = elapsed_nanos;
                self.timing.frames_completed = self.timing.frames_completed.saturating_add(1);
                self.phase = Phase::Sleeping;
                Action::SleepToTarget
            },
            (Phase::Sleeping, Signal::Slept { elapsed_nanos }) => {
                self.timing.next_delta_nanos = clamp_delta(elapsed_nanos);
                self.phase = Phase::Idle;
                Action::Wait
            },
            _ => Action::Wait,
        }
    }

    /// Records that the consumer asked to quit. The loop ends when the next
    /// frame cycle checks for it.
    pub fn request_quit(&mut self)
        ensures
            final(self)@ == old(self)@.quit_requested(),
    {
        self.quit = true;
    }

    /// Where the driver stands.
    pub fn phase(&self) -> (p: Phase)
        ensures
            p == self@.phase,
    {
        self.phase
    }

    /// Whether the loop has ended.
    pub fn is_terminating(&self) -> (r: bool)
        ensures
            r == (self@.phase == Phase::Terminating),
    {
        match self.phase {
            Phase::Terminating => true,
            _ => false,
        }
    }

    /// Whether the consumer asked to quit.
    pub fn quit_flag(&self) -> (r: bool)
        ensures
            r == self@.quit,
    {
        self.quit
    }

    /// The timing state.
    pub fn timing(&self) -> (t: Timing)
        ensures
            t == self@.timing,
    {
        self.timing
    }

    /// The router's size floor.
    pub fn dispatcher(&self) -> (d: Dispatcher)
        ensures
            d == self@.dispatcher,
    {
        self.dispatcher
    }

    /// The shared input state, for reading.
    pub fn input(&self) -> (i: &InputState)
        ensures
            i@ == self@.input,
    {
        &self.input
    }
}

/// The unconsumed event that the user asked to close the window.
pub open spec fn close_request() -> Signal {
    Signal::Event(Offered { consumed: false, event: WindowEvent::CloseRequested })
}

/// The signals of one complete frame cycle, in which the work took
/// `work_nanos` and the whole cycle `total_nanos`.
pub open spec fn cycle_signals(work_nanos: u64, total_nanos: u64) -> Seq<Signal> {
    seq![
        Signal::Wake,
        Signal::StartMarked,
        Signal::RenderReset,
        Signal::UiFrameBegun,
        Signal::StagesRun,
        Signal::WorkMeasured { elapsed_nanos: work_nanos },
        Signal::Slept { elapsed_nanos: total_nanos },
    ]
}

/// The outside work of one complete frame cycle, in its fixed order, for a
/// frame whose step is `delta_nanos`.
pub open spec fn cycle_actions(delta_nanos: u64) -> Seq<Action> {
    seq![
        Action::MarkFrameStart,
        Action::ResetRenderState,
        Action::BeginUiFrame,
        Action::RunStages { delta_nanos },
        Action::MeasureFrameTime,
        Action::SleepToTarget,
        Action::Wait,
    ]
}

impl DriverModel {
    /// One more signal after `signals` is one more step.
    pub proof fn lemma_run_push(self, signals: Seq<Signal>, signal: Signal)
        ensures
            self.run(signals.push(signal)) == self.run(signals).step(signal).0,
            self.answers(signals.push(signal)) == self.answers(signals).push(
                self.run(signals).step(signal).1,
            ),
            self.answers(signals).len() == signals.len(),
        decreases signals.len(),
    {
        assert(signals.push(signal).drop_last() =~= signals);
        if signals.len() > 0 {
            self.lemma_run_push(signals.drop_last(), signals.last());
            assert(signals.drop_last().push(signals.last()) =~= signals);
        }
    }

    /// Every step keeps a well-formed state well-formed. In particular the
    /// step of every frame lies in the interval of admissible steps, whatever
    /// times were measured.
    pub proof fn lemma_step_keeps_wf(self, signal: Signal)
        requires
            self.wf(),
        ensures
            self.step(signal).0.wf(),
            self.step(signal).1 matches Action::RunStages { delta_nanos } ==> MIN_DELTA_NANOS
                <= delta_nanos <= MAX_DELTA_NANOS,
    {
    }

    /// Every run keeps a well-formed state well-formed, and every step that
    /// a run hands to the update stages lies in the interval of admissible
    /// steps.
    pub proof fn lemma_run_keeps_wf(self, signals: Seq<Signal>)
        requires
            self.wf(),
        ensures
            self.run(signals).wf(),
            forall|i: int|
                0 <= i < signals.len() ==> (#[trigger] self.answers(signals)[i] matches Action::RunStages {
                    delta_nanos,
                } ==> MIN_DELTA_NANOS <= delta_nanos <= MAX_DELTA_NANOS),
            self.answers(signals).len() == signals.len(),
        decreases signals.len(),
    {
        if signals.len() > 0 {
            let front = signals.drop_last();
            self.lemma_run_keeps_wf(front);
            self.run(front).lemma_step_keeps_wf(signals.last());
        }
    }

    /// The next step is the measured time brought into the interval of
    /// admissible steps: the bounds themselves for a time of zero and for a
    /// time of ten seconds.
    pub proof fn lemma_pacing_clamps(self, elapsed_nanos: u64)
        requires
            self.phase == Phase::Sleeping,
        ensures
            ({
                let next = self.step(Signal::Slept { elapsed_nanos }).0.timing.next_delta_nanos;
                &&& MIN_DELTA_NANOS <= next <= MAX_DELTA_NANOS
                &&& elapsed_nanos <= MIN_DELTA_NANOS ==> next == MIN_DELTA_NANOS
                &&& elapsed_nanos >= MAX_DELTA_NANOS ==> next == MAX_DELTA_NANOS
                &&& MIN_DELTA_NANOS <= elapsed_nanos <= MAX_DELTA_NANOS ==> next == elapsed_nanos
            }),
    {
    }

    /// A platform event never advances the frame count or the timing, and
    /// never touches the quit flag or the router.
    pub proof fn lemma_event_keeps_timing(self, offered: Offered)
        ensures
            self.step(Signal::Event(offered)).0.timing == self.timing,
            self.step(Signal::Event(offered)).0.quit == self.quit,
            self.step(Signal::Event(offered)).0.dispatcher == self.dispatcher,
    {
    }

    /// An event that the interface layer consumed changes nothing at all, and
    /// asks for nothing.
    pub proof fn lemma_consumed_event_changes_nothing(self, event: WindowEvent)
        ensures
            self.step(Signal::Event(Offered { consumed: true, event })).0 == self,
            self.phase != Phase::Terminating ==> self.step(
                Signal::Event(Offered { consumed: true, event }),
            ).1 == Action::Wait,
    {
    }

    /// While the loop runs, an unconsumed resize is answered by a resize of
    /// the renderer exactly when the new size exceeds the floor in both
    /// dimensions, and by nothing otherwise.
    pub proof fn lemma_resize_gate(self, width: u32, height: u32)
        requires
            self.phase != Phase::Terminating,
        ensures
            ({
                let answer = self.step(
                    Signal::Event(
                        Offered { consumed: false, event: WindowEvent::Resized { width, height } },
                    ),
                ).1;
                if width > self.dispatcher.min_width && height > self.dispatcher.min_height {
                    answer == (Action::Resize { width, height })
                } else {
                    answer == Action::Wait
                }
            }),
    {
    }

    /// Termination is final: a terminating driver answers every signal by
    /// `Exit` and never changes again. In particular it never asks for the
    /// update stages.
    pub proof fn lemma_terminating_is_final(self, signals: Seq<Signal>)
        requires
            self.phase == Phase::Terminating,
        ensures
            self.run(signals) == self,
            self.answers(signals).len() == signals.len(),
            forall|i: int|
                0 <= i < signals.len() ==> #[trigger] self.answers(signals)[i] == Action::Exit,
        decreases signals.len(),
    {
        if signals.len() > 0 {
            self.lemma_terminating_is_final(signals.drop_last());
        }
    }

    /// An unconsumed close request ends the loop, in whatever phase it
    /// arrives: the answer is `Exit`, the driver terminates, and whatever
    /// signals follow, none of them is answered by a request for the update
    /// stages, nor changes the frame count or the timing.
    pub proof fn lemma_close_request_terminates(self, later: Seq<Signal>)
        ensures
            ({
                let closed = self.step(close_request());
                &&& closed.1 == Action::Exit
                &&& closed.0.phase == Phase::Terminating
                &&& closed.0.timing == self.timing
                &&& closed.0.run(later) == closed.0
                &&& closed.0.answers(later).len() == later.len()
                &&& forall|i: int|
                    0 <= i < later.len() ==> #[trigger] closed.0.answers(later)[i] == Action::Exit
            }),
    {
        let closed = self.step(close_request());
        closed.0.lemma_terminating_is_final(later);
    }

    /// Once the consumer has asked to quit, the next frame cycle ends the
    /// loop at its check: the start is marked, the step is published, the
    /// rendering configuration is reset, and then the answer is `Exit`. The
    /// interface layer's frame is not begun, no frame is counted and the
    /// update stages do not run.
    pub proof fn lemma_quit_ends_next_cycle(self)
        requires
            self.phase == Phase::Idle,
            self.quit,
        ensures
            ({
                let signals = seq![Signal::Wake, Signal::StartMarked, Signal::RenderReset];
                &&& self.answers(signals) == seq![
                    Action::MarkFrameStart,
                    Action::ResetRenderState,
                    Action::Exit,
                ]
                &&& self.run(signals) == DriverModel {
                    phase: Phase::Terminating,
                    timing: self.timing.published(),
                    ..self
                }
            }),
    {
        let s0 = Seq::<Signal>::empty();
        let s1 = s0.push(Signal::Wake);
        let s2 = s1.push(Signal::StartMarked);
        let s3 = s2.push(Signal::RenderReset);
        self.lemma_run_push(s0, Signal::Wake);
        self.lemma_run_push(s1, Signal::StartMarked);
        self.lemma_run_push(s2, Signal::RenderReset);
        assert(s3 =~= seq![Signal::Wake, Signal::StartMarked, Signal::RenderReset]);
        assert(self.answers(s3) =~= seq![
            Action::MarkFrameStart,
            Action::ResetRenderState,
            Action::Exit,
        ]);
    }

    /// A frame cycle runs in its fixed order. From a driver between frames
    /// whose consumer has not asked to quit, the signals of one complete
    /// cycle are answered by the outside work of a cycle in order, with the
    /// step that the previous cycle computed. Afterwards the driver is between
    /// frames again; the accumulated time has advanced by that step; both
    /// counters have advanced by one; the frame time is the time measured
    /// after the work; the input state has been cleared once; and the next
    /// step is the time measured after the sleep, brought into the interval
    /// of admissible steps.
    pub proof fn lemma_frame_cycle(self, work_nanos: u64, total_nanos: u64)
        requires
            self.phase == Phase::Idle,
            !self.quit,
        ensures
            self.answers(cycle_signals(work_nanos, total_nanos)) == cycle_actions(
                self.timing.next_delta_nanos,
            ),
            self.run(cycle_signals(work_nanos, total_nanos)) == (DriverModel {
                input: self.input.end_frame(),
                timing: self.timing.published().frame_started().frame_completed(work_nanos).paced(
                    total_nanos,
                ),
                ..self
            }),
    {
        let s0 = Seq::<Signal>::empty();
        let s1 = s0.push(Signal::Wake);
        let s2 = s1.push(Signal::StartMarked);
        let s3 = s2.push(Signal::RenderReset);
        let s4 = s3.push(Signal::UiFrameBegun);
        let s5 = s4.push(Signal::StagesRun);
        let s6 = s5.push(Signal::WorkMeasured { elapsed_nanos: work_nanos });
        let s7 = s6.push(Signal::Slept { elapsed_nanos: total_nanos });
        self.lemma_run_push(s0, Signal::Wake);
        self.lemma_run_push(s1, Signal::StartMarked);
        self.lemma_run_push(s2, Signal::RenderReset);
        self.lemma_run_push(s3, Signal::UiFrameBegun);
        self.lemma_run_push(s4, Signal::StagesRun);
        self.lemma_run_push(s5, Signal::WorkMeasured { elapsed_nanos: work_nanos });
        self.lemma_run_push(s6, Signal::Slept { elapsed_nanos: total_nanos });
        assert(s7 =~= cycle_signals(work_nanos, total_nanos));
        assert(self.answers(s7) =~= cycle_actions(self.timing.next_delta_nanos));
    }

    /// A signal that belongs to a frame cycle is taken in one phase only:
    /// anywhere else in the running loop it changes nothing and is answered
    /// by `Wait`. So the order of a cycle cannot be broken from outside.
    pub proof fn lemma_out_of_turn_ignored(self, signal: Signal)
        requires
            self.phase != Phase::Terminating,
            !(signal is Event),
            !awaited(self.phase, signal),
        ensures
            self.step(signal) == (self, Action::Wait),
    {
    }
}

/// Whether `signal` is the one that a frame cycle in `phase` is waiting for.
pub open spec fn awaited(phase: Phase, signal: Signal) -> bool {
    match (phase, signal) {
        (Phase::Idle, Signal::Wake) => true,
        (Phase::MarkingStart, Signal::StartMarked) => true,
        (Phase::ResettingRender, Signal::RenderReset) => true,
        (Phase::BeginningUi, Signal::UiFrameBegun) => true,
        (Phase::RunningStages, Signal::StagesRun) => true,
        (Phase::MeasuringWork, Signal::WorkMeasured { .. }) => true,
        (Phase::Sleeping, Signal::Slept { .. }) => true,
        _ => false,
    }
}

} // verus!
