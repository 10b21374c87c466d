//! Frame selection for sprite-sheet animations.
use vstd::prelude::*;
use crate::fixed::Fixed;
use crate::timer::Timer;

verus! {

/// Paces an animation: a frame is due each time the timer finishes.
#[derive(Clone, Copy, Debug, PartialEq, Eq, Structural)]
pub struct AnimationTimer(pub Timer);

/// What an actor's sprite shows.
#[derive(Clone, Copy, Debug, PartialEq, Eq, Structural)]
pub enum AnimationState {
    /// Standing still.
    Idle,
    /// Moving sideways.
    Run,
}

impl AnimationState {
    /// Place of the state's frames in an [`Animation`], as a value.
    pub open spec fn spec_slot(&self) -> usize {
        match self {
            AnimationState::Idle => 0,
            AnimationState::Run => 1,
        }
    }

    /// Place of the state's frames in an [`Animation`].
    #[verifier::when_used_as_spec(spec_slot)]
    pub fn slot(&self) -> (i: usize)
        ensures
            i == self.spec_slot(),
    {
        match self {
            AnimationState::Idle => 0,
            AnimationState::Run => 1,
        }
    }

    /// The name of the state.
    pub fn name(&self) -> (n: &'static str)
        ensures
            *self == AnimationState::Idle ==> n@ == "idle"@,
            *self == AnimationState::Run ==> n@ == "run"@,
    {
        match self {
            AnimationState::Idle => "idle",
            AnimationState::Run => "run",
        }
    }
}

/// A run of frames on a sprite sheet, and the frame that is shown.
#[derive(Clone, Copy, Debug, PartialEq, Eq, Structural)]
pub struct AnimationData {
    /// The state that the frames belong to.
    pub state: AnimationState,
    /// Index on the sheet of the first frame of the run.
    pub start_index: u32,
    /// Number of frames in the run.
    pub frames_count: u32,
    /// Steps counted within the run.
    pub current_index: u32,
    /// Shift of the run's phase, in frames.
    pub offset: u32,
}

impl AnimationData {
    /// A run of `frames_count` frames that begins at `start_index`.
    pub fn new(state: AnimationState, start_index: u32, frames_count: u32, offset: u32) -> (d:
        AnimationData)
        ensures
            d == (AnimationData {
                state,
                start_index,
                frames_count,
                current_index: start_index,
                offset,
            }),
    {
        AnimationData { state, start_index, frames_count, current_index: start_index, offset }
    }

    /// The slot of the run's state.
    pub fn get_state(&self) -> (s: u32)
        ensures
            s == self.state.slot(),
    {
        match self.state {
            AnimationState::Idle => 0,
            AnimationState::Run => 1,
        }
    }

    /// The step counter after one more step: one more, and back to zero on
    /// reaching the number of frames.
    pub open spec fn next_step(&self) -> u32 {
        if self.current_index + 1 >= self.frames_count {
            0
        } else {
            (self.current_index + 1) as u32
        }
    }

    /// The sheet index shown after one more step: the run is walked
    /// backward from its phase, `frames_count - step + offset` frames in,
    /// wrapped to the length of the run. A run without frames shows its
    /// first index.
    pub open spec fn next_frame(&self) -> int {
        if self.frames_count == 0 {
            self.start_index as int
        } else {
            (self.frames_count - self.next_step() + self.offset) % (self.frames_count as int)
                + self.start_index
        }
    }

    /// Steps the run and returns the sheet index to show.
    pub fn get_index(&mut self) -> (index: u64)
        ensures
            index == old(self).next_frame(),
            *final(self) == (AnimationData { current_index: old(self).next_step(), ..*old(self) }),
    {
        let next: u64 = self.current_index as u64 + 1;
        if next >= self.frames_count as u64 {
            self.current_index = 0;
        } else {
            self.current_index = next as u32;
        }
        if self.frames_count == 0 {
            return self.start_index as u64;
        }
        let i: u64 = self.frames_count as u64 - self.current_index as u64;
        (i + self.offset as u64) % (self.frames_count as u64) + self.start_index as u64
    }
}

/// Advances the pace timer of a single run of frames by `delta` seconds
/// and, when it has finished, steps the run and shows the new frame.
pub fn animate_frames(
    data: &mut AnimationData,
    timer: &mut AnimationTimer,
    sprite_index: &mut u64,
    delta: Fixed,
)
    ensures
        final(timer).0 == old(timer).0.ticked(delta),
        !final(timer).0.finished ==> *final(data) == *old(data) && *final(sprite_index) == *old(
            sprite_index,
        ),
        final(timer).0.finished ==> *final(sprite_index) == old(data).next_frame() && *final(data)
            == (AnimationData { current_index: old(data).next_step(), ..*old(data) }),
{
    let mut t: Timer = timer.0;
    t.tick(delta);
    *timer = AnimationTimer(t);
    if t.finished {
        *sprite_index = data.get_index();
    }
}

/// The animations of one sprite, one run of frames per state.
pub struct Animation {
    /// The runs, each at the slot of its state.
    pub data: Vec<AnimationData>,
    /// Slot of the run that plays.
    pub current_anim: usize,
}

impl Animation {
    /// The animations `data`, playing the run of `start_anim`.
    pub fn new(data: Vec<AnimationData>, start_anim: AnimationState) -> (a: Animation)
        ensures
            a.data == data,
            a.current_anim == start_anim.slot(),
    {
        Animation { data, current_anim: start_anim.slot() }
    }

    /// The run that plays, if there is one at the current slot.
    pub fn get_current_data(&self) -> (d: Option<AnimationData>)
        ensures
            self.current_anim < self.data@.len() ==> d == Some(self.data@[self.current_anim as int]),
            self.current_anim >= self.data@.len() ==> d is None,
    {
        if self.current_anim < self.data.len() {
            Some(self.data[self.current_anim])
        } else {
            None
        }
    }

    /// Switches to the run of `state`.
    pub fn set_animation(&mut self, state: AnimationState)
        ensures
            final(self).current_anim == state.slot(),
            final(self).data == old(self).data,
    {
        self.current_anim = state.slot();
    }

    /// Steps the run that plays and returns the sheet index to show; `None`
    /// and no change where no run is at the current slot.
    pub fn advance(&mut self) -> (index: Option<u64>)
        ensures
            final(self).current_anim == old(self).current_anim,
            old(self).current_anim >= old(self).data@.len() ==> index is None && final(self).data@
                == old(self).data@,
            old(self).current_anim < old(self).data@.len() ==> {
                let run = old(self).data@[old(self).current_anim as int];
                &&& index == Some(run.next_frame() as u64)
                &&& final(self).data@ == old(self).data@.update(
                    old(self).current_anim as int,
                    AnimationData { current_index: run.next_step(), ..run },
                )
            },
    {
        if self.current_anim < self.data.len() {
            let mut run: AnimationData = self.data[self.current_anim];
            let index: u64 = run.get_index();
            self.data[self.current_anim] = run;
            Some(index)
        } else {
            None
        }
    }
}

/// Advances the pace timer by `delta` seconds and, when it has finished,
/// steps the animation and shows the new frame.
pub fn animate_sprite(
    animation: &mut Animation,
    timer: &mut AnimationTimer,
    sprite_index: &mut u64,
    delta: Fixed,
)
    ensures
        final(timer).0 == old(timer).0.ticked(delta),
        final(animation).current_anim == old(animation).current_anim,
        !final(timer).0.finished || old(animation).current_anim >= old(animation).data@.len() ==> {
            &&& *final(sprite_index) == *old(sprite_index)
            &&& final(animation).data@ == old(animation).data@
        },
        final(timer).0.finished && old(animation).current_anim < old(animation).data@.len() ==> {
            let run = old(animation).data@[old(animation).current_anim as int];
            &&& *final(sprite_index) == run.next_frame()
            &&& final(animation).data@ == old(animation).data@.update(
                old(animation).current_anim as int,
                AnimationData { current_index: run.next_step(), ..run },
            )
        },
{
    let mut t: Timer = timer.0;
    t.tick(delta);
    *timer = AnimationTimer(t);
    if t.finished {
        match animation.advance() {
            Some(index) => {
                *sprite_index = index;
            },
            None => {},
        }
    }
}

} // verus!
