//! The decisions of one tick of the render loop: bus messages, user commands,
//! the outcome of a frame pull and the frame-rate clock. The loop that
//! performs the actions lives with the caller.
use vstd::prelude::*;
use crate::display::{ScaleMode, Rect, toggled_mode, display_rect, calculate_display_rect};
use crate::transport::{
    PlaybackSpeed,
    PlaybackState,
    PipelineCommand,
    Transport,
    toggled_state,
    pipeline_state_of,
    next_speed,
    cycle_commands,
    clamp_volume,
    adjust_volume,
    VOLUME_STEP,
};

verus! {

/// A message read from the pipeline's bus.
#[derive(Clone, Copy, Debug, PartialEq, Eq, Structural)]
pub enum BusMessage {
    EndOfStream,
    Error,
    /// Any other kind; never a reason to stop.
    Other,
}

/// What the bus messages of one tick call for.
#[derive(Clone, Copy, Debug, PartialEq, Eq, Structural)]
pub enum BusVerdict {
    Continue,
    /// The stream ended: stop cleanly.
    EndOfStream,
    /// The message at `index` is an error: report it and stop.
    Error { index: usize },
}

pub open spec fn is_terminal(m: BusMessage) -> bool {
    m != BusMessage::Other
}

/// The verdict for `msgs`, read in order: the first end-of-stream or error
/// message decides, and what follows it is not looked at.
pub open spec fn bus_verdict(msgs: Seq<BusMessage>) -> BusVerdict
    decreases msgs.len(),
{
    if msgs.len() == 0 {
        BusVerdict::Continue
    } else {
        let last = (msgs.len() - 1) as int;
        let earlier = bus_verdict(msgs.take(last));
        if earlier != BusVerdict::Continue {
            earlier
        } else {
            match msgs[last] {
                BusMessage::EndOfStream => BusVerdict::EndOfStream,
                BusMessage::Error => BusVerdict::Error { index: last as usize },
                BusMessage::Other => BusVerdict::Continue,
            }
        }
    }
}

/// Reads the messages queued on the bus during one tick, in order.
pub fn check_bus(msgs: &Vec<BusMessage>) -> (r: BusVerdict)
    ensures
        r == bus_verdict(msgs@),
{
    let mut i: usize = 0;
    while i < msgs.len()
        invariant
            i <= msgs@.len(),
            bus_verdict(msgs@.take(i as int)) == BusVerdict::Continue,
        decreases msgs@.len() - i,
    {
        assert(msgs@.take(i as int + 1).take(i as int) =~= msgs@.take(i as int));
        match msgs[i] {
            BusMessage::EndOfStream => {
                proof {
                    lemma_verdict_settled(msgs@, i as int + 1);
                }
                return BusVerdict::EndOfStream;
            },
            BusMessage::Error => {
                proof {
                    lemma_verdict_settled(msgs@, i as int + 1);
                }
                return BusVerdict::Error { index: i };
            },
            BusMessage::Other => {},
        }
        i = i + 1;
    }
    assert(msgs@.take(i as int) =~= msgs@);
    BusVerdict::Continue
}

/// Once a prefix has a verdict other than `Continue`, longer prefixes keep it.
proof fn lemma_verdict_settled(msgs: Seq<BusMessage>, k: int)
    requires
        0 <= k <= msgs.len(),
        bus_verdict(msgs.take(k)) != BusVerdict::Continue,
    ensures
        bus_verdict(msgs) == bus_verdict(msgs.take(k)),
    decreases msgs.len() - k,
{
    if k < msgs.len() {
        let n = k + 1;
        assert(msgs.take(n).take(k) =~= msgs.take(k));
        lemma_verdict_settled(msgs, n);
    } else {
        assert(msgs.take(k) =~= msgs);
    }
}

/// The window's full-screen state.
#[derive(Clone, Copy, Debug, PartialEq, Eq, Structural)]
pub enum Fullscreen {
    Off,
    /// Real full-screen, with a mode change.
    Exclusive,
    /// Full-screen at the desktop's size.
    Desktop,
}

pub open spec fn toggled_fullscreen(f: Fullscreen) -> Fullscreen {
    match f {
        Fullscreen::Off => Fullscreen::Exclusive,
        _ => Fullscreen::Off,
    }
}

impl Fullscreen {
    /// Off becomes exclusive full-screen; either full-screen becomes off.
    pub fn toggled(&self) -> (r: Fullscreen)
        ensures
            r == toggled_fullscreen(*self),
    {
        match self {
            Fullscreen::Off => Fullscreen::Exclusive,
            _ => Fullscreen::Off,
        }
    }
}

/// A user command, with what the caller read for it.
#[derive(Clone, Copy, Debug, PartialEq, Eq, Structural)]
pub enum Input {
    Quit,
    ToggleScaleMode,
    Mute,
    /// `current`: the gain now, in thousandths.
    VolumeUp { current: u32 },
    VolumeDown { current: u32 },
    /// `state`: the window's state now.
    ToggleFullscreen { state: Fullscreen },
    TogglePlayPause,
    /// `position`: the pipeline's position in nanoseconds, if it could be had.
    CycleSpeed { position: Option<u64> },
}

/// An effect for the caller to carry out, in the order given.
#[derive(Clone, Copy, Debug, PartialEq, Eq, Structural)]
pub enum Action {
    /// Leave the loop.
    Stop,
    /// Set the gain, in thousandths.
    SetVolume(u32),
    SetFullscreen(Fullscreen),
    /// A pipeline command; a refused state change is fatal.
    Pipeline(PipelineCommand),
}

/// What the render loop keeps from tick to tick.
#[derive(Clone, Copy, Debug, PartialEq, Eq, Structural)]
pub struct Player {
    pub transport: Transport,
    pub scale_mode: ScaleMode,
    /// Size of the video texture, that of the last frame.
    pub video_width: u32,
    pub video_height: u32,
    /// Frames shown since the frame-rate clock was last reset.
    pub frames: u64,
}

pub open spec fn pipeline_actions(cmds: Seq<PipelineCommand>) -> Seq<Action> {
    cmds.map_values(|c: PipelineCommand| Action::Pipeline(c))
}

/// The player after `input`, and the actions it calls for.
pub open spec fn input_outcome(p: Player, input: Input) -> (Player, Seq<Action>) {
    match input {
        Input::Quit => (p, seq![Action::Stop]),
        Input::ToggleScaleMode => (Player { scale_mode: toggled_mode(p.scale_mode), ..p }, seq![]),
        Input::Mute => (p, seq![Action::SetVolume(0)]),
        Input::VolumeUp { current } => (
            p,
            seq![Action::SetVolume(clamp_volume(current + VOLUME_STEP) as u32)],
        ),
        Input::VolumeDown { current } => (
            p,
            seq![Action::SetVolume(clamp_volume(current - VOLUME_STEP) as u32)],
        ),
        Input::ToggleFullscreen { state } => (
            p,
            seq![Action::SetFullscreen(toggled_fullscreen(state))],
        ),
        Input::TogglePlayPause => {
            let state = toggled_state(p.transport.state);
            (
                Player { transport: Transport { state, ..p.transport }, ..p },
                seq![Action::Pipeline(PipelineCommand::SetState(pipeline_state_of(state)))],
            )
        },
        Input::CycleSpeed { position } => (
            Player {
                transport: Transport { speed: next_speed(p.transport.speed), ..p.transport },
                ..p
            },
            pipeline_actions(cycle_commands(p.transport, position)),
        ),
    }
}

/// The outcome of one bounded wait for a frame.
#[derive(Clone, Copy, Debug, PartialEq, Eq, Structural)]
pub enum Pulled {
    Frame { width: u32, height: u32 },
    /// No frame came in time; `end_of_stream` tells whether the sink is exhausted.
    Nothing { end_of_stream: bool },
}

/// What to do with the outcome of a frame pull.
#[derive(Clone, Copy, Debug, PartialEq, Eq, Structural)]
pub enum FrameStep {
    /// The stream is exhausted: leave the loop.
    Stop,
    /// Nothing new to show this tick.
    Idle,
    /// A frame arrived. `reallocate`: recreate the texture at the frame's size
    /// first. `target`: where to draw it, none for an empty frame.
    Show { reallocate: bool, target: Option<Rect> },
}

pub open spec fn saturating_inc(n: u64) -> u64 {
    if n == u64::MAX {
        n
    } else {
        (n + 1) as u64
    }
}

/// Whether `r` is the rectangle for a `vw` x `vh` picture in a `ww` x `wh` window under `mode`.
pub open spec fn places(r: Rect, vw: u32, vh: u32, ww: u32, wh: u32, mode: ScaleMode) -> bool {
    r@ == display_rect(vw as int, vh as int, ww as int, wh as int, mode)
}

/// How the player and the step follow from `pulled`, in a `ww` x `wh` window.
pub open spec fn pull_outcome(p: Player, pulled: Pulled, ww: u32, wh: u32, next: Player, step: FrameStep) -> bool {
    match pulled {
        Pulled::Nothing { end_of_stream } => {
            &&& next == p
            &&& step == if end_of_stream {
                FrameStep::Stop
            } else {
                FrameStep::Idle
            }
        },
        Pulled::Frame { width, height } => {
            let drawn = width > 0 && height > 0;
            &&& next.transport == p.transport
            &&& next.scale_mode == p.scale_mode
            &&& next.video_width == width
            &&& next.video_height == height
            &&& next.frames == if drawn {
                saturating_inc(p.frames)
            } else {
                p.frames
            }
            &&& match step {
                FrameStep::Show { reallocate, target } => {
                    &&& reallocate == (width != p.video_width || height != p.video_height)
                    &&& match target {
                        Some(r) => drawn && places(r, width, height, ww, wh, p.scale_mode),
                        None => !drawn,
                    }
                },
                _ => false,
            }
        },
    }
}

impl Player {
    /// Playing at normal speed, fitted, with a texture of `width` x `height`
    /// and no frames counted.
    pub fn new(width: u32, height: u32) -> (r: Player)
        ensures
            r.transport.state == PlaybackState::Playing,
            r.transport.speed == PlaybackSpeed::Normal,
            r.scale_mode == ScaleMode::Fit,
            r.video_width == width,
            r.video_height == height,
            r.frames == 0,
    {
        Player {
            transport: Transport::new(),
            scale_mode: ScaleMode::Fit,
            video_width: width,
            video_height: height,
            frames: 0,
        }
    }

    /// Whether this tick pulls a frame: only while playing.
    pub fn wants_frame(&self) -> (r: bool)
        ensures
            r == (self.transport.state == PlaybackState::Playing),
    {
        self.transport.state == PlaybackState::Playing
    }

    /// Applies one user command and returns the actions it calls for.
    pub fn handle_input(&mut self, input: Input) -> (r: Vec<Action>)
        ensures
            (*final(self), r@) == input_outcome(*old(self), input),
    {
        match input {
            Input::Quit => vec![Action::Stop],
            Input::ToggleScaleMode => {
                self.scale_mode = self.scale_mode.toggle();
                Vec::new()
            },
            Input::Mute => vec![Action::SetVolume(0)],
            Input::VolumeUp { current } => vec![Action::SetVolume(adjust_volume(current, VOLUME_STEP as i32))],
            Input::VolumeDown { current } => {
                let delta: i32 = -(VOLUME_STEP as i32);
                vec![Action::SetVolume(adjust_volume(current, delta))]
            },
            Input::ToggleFullscreen { state } => vec![Action::SetFullscreen(state.toggled())],
            Input::TogglePlayPause => {
                let target = self.transport.toggle_play_pause();
                vec![Action::Pipeline(PipelineCommand::SetState(target))]
            },
            Input::CycleSpeed { position } => {
                let cmds = self.transport.cycle_speed(position);
                let mut acts: Vec<Action> = Vec::new();
                let mut i: usize = 0;
                while i < cmds.len()
                    invariant
                        i <= cmds@.len(),
                        acts@ == pipeline_actions(cmds@.take(i as int)),
                    decreases cmds@.len() - i,
                {
                    acts.push(Action::Pipeline(cmds[i]));
                    i = i + 1;
                    assert(acts@ =~= pipeline_actions(cmds@.take(i as int)));
                }
                assert(cmds@.take(i as int) =~= cmds@);
                acts
            },
        }
    }

    /// Takes the outcome of this tick's frame pull in a `window_width` x
    /// `window_height` window: records the frame's size, counts a drawn frame,
    /// and says what to do.
    pub fn on_pull(&mut self, pulled: Pulled, window_width: u32, window_height: u32) -> (r: FrameStep)
        ensures
            pull_outcome(*old(self), pulled, window_width, window_height, *final(self), r),
    {
        match pulled {
            Pulled::Nothing { end_of_stream } => {
                if end_of_stream {
                    FrameStep::Stop
                } else {
                    FrameStep::Idle
                }
            },
            Pulled::Frame { width, height } => {
                let reallocate = width != self.video_width || height != self.video_height;
                self.video_width = width;
                self.video_height = height;
                if width > 0 && height > 0 {
                    let rect = calculate_display_rect(width, height, window_width, window_height, self.scale_mode);
                    if self.frames < u64::MAX {
                        self.frames = self.frames + 1;
                    }
                    FrameStep::Show { reallocate, target: Some(rect) }
                } else {
                    FrameStep::Show { reallocate, target: None }
                }
            },
        }
    }

    /// Takes the whole seconds elapsed since the clock was last reset. From one
    /// second on, returns the frames per second over that time and resets the
    /// count (the caller resets its clock); before, returns `None`.
    pub fn on_clock(&mut self, elapsed_secs: u64) -> (r: Option<u64>)
        ensures
            elapsed_secs >= 1 ==> r == Some((old(self).frames / elapsed_secs) as u64) && final(self).frames == 0,
            elapsed_secs < 1 ==> r.is_none() && final(self).frames == old(self).frames,
            final(self).transport == old(self).transport,
            final(self).scale_mode == old(self).scale_mode,
            final(self).video_width == old(self).video_width,
            final(self).video_height == old(self).video_height,
    {
        if elapsed_secs >= 1 {
            let rate = self.frames / elapsed_secs;
            self.frames = 0;
            Some(rate)
        } else {
            None
        }
    }
}

/// Muting leaves the player as it was and sets the gain to zero; muting again
/// does exactly the same, so nothing remembers or restores an earlier gain.
pub proof fn lemma_mute_idempotent(p: Player)
    ensures
        input_outcome(p, Input::Mute) == (p, seq![Action::SetVolume(0)]),
        input_outcome(input_outcome(p, Input::Mute).0, Input::Mute) == input_outcome(p, Input::Mute),
{
}

} // verus!
