//! Play/pause and playback-speed state, and the pipeline commands that change it.
use vstd::prelude::*;

verus! {

/// Whether frames are being pulled and shown.
#[derive(Clone, Copy, Debug, PartialEq, Eq, Structural)]
pub enum PlaybackState {
    Playing,
    Paused,
}

/// Playback rate, cycled in this order: half, normal, one and a half, double.
#[derive(Clone, Copy, Debug, PartialEq, Eq, Structural)]
pub enum PlaybackSpeed {
    Half,
    Normal,
    Fast,
    Double,
}

pub open spec fn next_speed(s: PlaybackSpeed) -> PlaybackSpeed {
    match s {
        PlaybackSpeed::Half => PlaybackSpeed::Normal,
        PlaybackSpeed::Normal => PlaybackSpeed::Fast,
        PlaybackSpeed::Fast => PlaybackSpeed::Double,
        PlaybackSpeed::Double => PlaybackSpeed::Half,
    }
}

/// The rate of a speed, in hundredths of the normal rate.
pub open spec fn speed_percent(s: PlaybackSpeed) -> u32 {
    match s {
        PlaybackSpeed::Half => 50,
        PlaybackSpeed::Normal => 100,
        PlaybackSpeed::Fast => 150,
        PlaybackSpeed::Double => 200,
    }
}

impl PlaybackSpeed {
    /// The rate, in hundredths of the normal rate.
    pub fn rate_percent(&self) -> (r: u32)
        ensures
            r == speed_percent(*self),
    {
        match self {
            PlaybackSpeed::Half => 50,
            PlaybackSpeed::Normal => 100,
            PlaybackSpeed::Fast => 150,
            PlaybackSpeed::Double => 200,
        }
    }

    /// The speed that follows this one; the fastest wraps round to the slowest.
    pub fn next(&self) -> (r: PlaybackSpeed)
        ensures
            r == next_speed(*self),
    {
        match self {
            PlaybackSpeed::Half => PlaybackSpeed::Normal,
            PlaybackSpeed::Normal => PlaybackSpeed::Fast,
            PlaybackSpeed::Fast => PlaybackSpeed::Double,
            PlaybackSpeed::Double => PlaybackSpeed::Half,
        }
    }
}

/// A state the decoding pipeline can be asked to reach.
#[derive(Clone, Copy, Debug, PartialEq, Eq, Structural)]
pub enum PipelineState {
    Playing,
    Paused,
    /// Fully torn down.
    Null,
}

/// A command for the decoding pipeline.
#[derive(Clone, Copy, Debug, PartialEq, Eq, Structural)]
pub enum PipelineCommand {
    /// Move to a state; a refusal is fatal.
    SetState(PipelineState),
    /// A flushing, accurate seek to `position` (nanoseconds) at a new rate
    /// (hundredths of the normal rate), with no end position.
    Seek { rate_percent: u32, position: u64 },
}

/// Play/pause and speed of the player.
#[derive(Clone, Copy, Debug, PartialEq, Eq, Structural)]
pub struct Transport {
    pub state: PlaybackState,
    pub speed: PlaybackSpeed,
}

pub open spec fn toggled_state(s: PlaybackState) -> PlaybackState {
    match s {
        PlaybackState::Playing => PlaybackState::Paused,
        PlaybackState::Paused => PlaybackState::Playing,
    }
}

/// The pipeline state that a playback state is carried out by.
pub open spec fn pipeline_state_of(s: PlaybackState) -> PipelineState {
    match s {
        PlaybackState::Playing => PipelineState::Playing,
        PlaybackState::Paused => PipelineState::Paused,
    }
}

/// The commands that change the rate to `speed` at `position`: pause, seek,
/// and resume only when playback was running.
pub open spec fn speed_change_commands(state: PlaybackState, speed: PlaybackSpeed, position: u64) -> Seq<
    PipelineCommand,
> {
    let base = seq![
        PipelineCommand::SetState(PipelineState::Paused),
        PipelineCommand::Seek { rate_percent: speed_percent(speed), position },
    ];
    if state == PlaybackState::Playing {
        base.push(PipelineCommand::SetState(PipelineState::Playing))
    } else {
        base
    }
}

/// The commands for a speed change, given the position the pipeline reported,
/// if any: none without a position.
pub open spec fn cycle_commands(t: Transport, position: Option<u64>) -> Seq<PipelineCommand> {
    match position {
        Some(p) => speed_change_commands(t.state, next_speed(t.speed), p),
        None => Seq::empty(),
    }
}

impl Transport {
    /// Playing at normal speed.
    pub fn new() -> (r: Transport)
        ensures
            r.state == PlaybackState::Playing,
            r.speed == PlaybackSpeed::Normal,
    {
        Transport { state: PlaybackState::Playing, speed: PlaybackSpeed::Normal }
    }

    /// Flips between playing and paused, and returns the pipeline state to set.
    pub fn toggle_play_pause(&mut self) -> (r: PipelineState)
        ensures
            final(self).state == toggled_state(old(self).state),
            final(self).speed == old(self).speed,
            r == pipeline_state_of(final(self).state),
    {
        match self.state {
            PlaybackState::Playing => {
                self.state = PlaybackState::Paused;
                PipelineState::Paused
            },
            PlaybackState::Paused => {
                self.state = PlaybackState::Playing;
                PipelineState::Playing
            },
        }
    }

    /// Moves to the next speed and returns the commands that apply it at
    /// `position`, the pipeline's current position; none where the position
    /// could not be had. The play state is left as it was.
    pub fn cycle_speed(&mut self, position: Option<u64>) -> (r: Vec<PipelineCommand>)
        ensures
            final(self).speed == next_speed(old(self).speed),
            final(self).state == old(self).state,
            r@ == cycle_commands(*old(self), position),
    {
        self.speed = self.speed.next();
        let mut cmds: Vec<PipelineCommand> = Vec::new();
        match position {
            Some(p) => {
                cmds.push(PipelineCommand::SetState(PipelineState::Paused));
                cmds.push(PipelineCommand::Seek { rate_percent: self.speed.rate_percent(), position: p });
                if self.state == PlaybackState::Playing {
                    cmds.push(PipelineCommand::SetState(PipelineState::Playing));
                }
                proof {
                    assert(cmds@ =~= cycle_commands(*old(self), position));
                }
            },
            None => {
                proof {
                    assert(cmds@ =~= cycle_commands(*old(self), position));
                }
            },
        }
        cmds
    }
}

/// A speed change pauses first and seeks second; it resumes, as its third and
/// last command, exactly when playback was running, and never sets the
/// pipeline playing before the seek. Without a position it issues nothing and
/// keeps the play state.
pub proof fn lemma_speed_change_order(t: Transport, position: Option<u64>)
    ensures
        ({
            let c = cycle_commands(t, position);
            match position {
                Some(p) => {
                    &&& c[0] == PipelineCommand::SetState(PipelineState::Paused)
                    &&& c[1] == PipelineCommand::Seek {
                        rate_percent: speed_percent(next_speed(t.speed)),
                        position: p,
                    }
                    &&& (c.len() == 3) == (t.state == PlaybackState::Playing)
                    &&& c.len() == 2 || c[2] == PipelineCommand::SetState(PipelineState::Playing)
                    &&& forall|i: int|
                        0 <= i < 2 ==> c[i] != PipelineCommand::SetState(PipelineState::Playing)
                },
                None => c.len() == 0,
            }
        }),
{
}

/// Unit gain, in thousandths.
pub const VOLUME_FULL: u32 = 1000;

/// One volume-up or volume-down step, in thousandths of unit gain.
pub const VOLUME_STEP: u32 = 100;

/// `v` brought into `[0, VOLUME_FULL]`.
pub open spec fn clamp_volume(v: int) -> int {
    if v < 0 {
        0
    } else if v > VOLUME_FULL {
        VOLUME_FULL as int
    } else {
        v
    }
}

/// Volume after applying each delta of `deltas` in turn, starting from `v`.
pub open spec fn volume_after(v: int, deltas: Seq<int>) -> int
    decreases deltas.len(),
{
    if deltas.len() == 0 {
        v
    } else {
        volume_after(clamp_volume(v + deltas[0]), deltas.drop_first())
    }
}

/// The gain after adding `delta` to `current`, clamped to `[0, VOLUME_FULL]`
/// (thousandths of unit gain).
pub fn adjust_volume(current: u32, delta: i32) -> (r: u32)
    ensures
        r == clamp_volume(current + delta),
{
    let v = current as i64 + delta as i64;
    if v < 0 {
        0
    } else if v > VOLUME_FULL as i64 {
        VOLUME_FULL
    } else {
        v as u32
    }
}

/// From a gain in `[0, VOLUME_FULL]`, any number of adjustments, by any deltas,
/// keep the gain in `[0, VOLUME_FULL]`.
pub proof fn lemma_volume_stays_in_range(v: int, deltas: Seq<int>)
    requires
        0 <= v <= VOLUME_FULL,
    ensures
        0 <= volume_after(v, deltas) <= VOLUME_FULL,
    decreases deltas.len(),
{
    if deltas.len() > 0 {
        lemma_volume_stays_in_range(clamp_volume(v + deltas[0]), deltas.drop_first());
    }
}

} // verus!
