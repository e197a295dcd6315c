use vstd::prelude::*;

use crate::codec::{frame_of, set_color_body};
use crate::light::{converged, next_color, Color, Light, Transition};

verus! {

/// Which palette entry each fixture follows.
#[derive(Clone, Copy, Debug, PartialEq, Eq, Structural)]
pub enum ColorMode {
    /// Every fixture follows the first palette entry.
    Single,
    /// Fixture `i` follows entry `i`, or the last entry when the palette is
    /// shorter than the fixture list.
    Multi,
}

/// Index of the palette entry that fixture `i` follows, in a palette of
/// `palette_len` entries.
pub open spec fn target_index_of(mode: ColorMode, i: nat, palette_len: nat) -> nat {
    match mode {
        ColorMode::Single => 0,
        ColorMode::Multi => if i < palette_len {
            i
        } else {
            (palette_len - 1) as nat
        },
    }
}

/// The colour that fixture `i` follows.
pub open spec fn target_of(mode: ColorMode, i: nat, palette: Seq<Color>) -> Color {
    palette[target_index_of(mode, i, palette.len()) as int]
}

/// Index of the palette entry that fixture `i` follows.
pub fn target_index(mode: ColorMode, i: usize, palette_len: usize) -> (r: usize)
    requires
        palette_len > 0,
    ensures
        r == target_index_of(mode, i as nat, palette_len as nat),
        r < palette_len,
{
    match mode {
        ColorMode::Single => 0,
        ColorMode::Multi => if i < palette_len {
            i
        } else {
            palette_len - 1
        },
    }
}

/// The target colour of each of `fixture_count` fixtures.
pub fn assign_targets(mode: ColorMode, fixture_count: usize, palette: &Vec<Color>) -> (r: Vec<Color>)
    requires
        palette@.len() > 0,
    ensures
        r@.len() == fixture_count,
        forall|i: int| 0 <= i < fixture_count ==> #[trigger] r@[i] == target_of(mode, i as nat, palette@),
{
    let mut out: Vec<Color> = Vec::new();
    let mut i: usize = 0;
    while i < fixture_count
        invariant
            palette@.len() > 0,
            i <= fixture_count,
            out@.len() == i,
            forall|j: int| 0 <= j < i ==> #[trigger] out@[j] == target_of(mode, j as nat, palette@),
        decreases fixture_count - i,
    {
        let k = target_index(mode, i, palette.len());
        out.push(palette[k]);
        i = i + 1;
    }
    out
}

/// The phase of a fresh controller after `n` calls of
/// `Controller::keep_alive_due`, each of which moves the phase to phase plus
/// one, modulo the interval.
pub open spec fn phase_after(n: nat, interval: int) -> int
    decreases n,
{
    if n == 0 {
        0
    } else {
        (phase_after((n - 1) as nat, interval) + 1) % interval
    }
}

/// After `n` ticks a fresh controller's phase is `n` modulo the interval, so
/// tick `n` (counted from zero) is a keep-alive tick exactly when `n` is a
/// multiple of the interval.
pub proof fn lemma_keep_alive_cadence(n: nat, interval: int)
    requires
        interval > 0,
    ensures
        phase_after(n, interval) == (n as int) % interval,
        (phase_after(n, interval) == 0) <==> ((n as int) % interval == 0),
    decreases n,
{
    if n == 0 {
        vstd::arithmetic::div_mod::lemma_small_mod(0, interval as nat);
    } else {
        let m = (n - 1) as int;
        lemma_keep_alive_cadence((n - 1) as nat, interval);
        vstd::arithmetic::div_mod::lemma_add_mod_noop(m, 1, interval);
        vstd::arithmetic::div_mod::lemma_mod_twice(m, interval);
        vstd::arithmetic::div_mod::lemma_add_mod_noop(m % interval, 1, interval);
    }
}

/// What the fixtures are told in one tick.
pub struct TickPlan {
    /// Every fixture is sent the keep-alive frame this tick.
    pub keep_alive: bool,
    /// For each fixture, the colour frame to send, if any.
    pub frames: Vec<Option<Vec<u8>>>,
}

/// The per-tick decisions of the control loop.
#[derive(Clone, Copy, Debug)]
pub struct Controller {
    pub mode: ColorMode,
    pub transition: Transition,
    pub sensitivity: u8,
    /// Keep-alive is due once every this many ticks.
    pub keep_alive_interval: u32,
    /// Ticks since the last keep-alive, modulo the interval.
    pub phase: u32,
}

impl Controller {
    /// The interval is positive and the phase lies within it.
    pub open spec fn wf(&self) -> bool {
        0 < self.keep_alive_interval && self.phase < self.keep_alive_interval
    }

    /// A controller whose first tick is a keep-alive tick.
    pub fn new(mode: ColorMode, transition: Transition, sensitivity: u8, keep_alive_interval: u32) -> (c: Controller)
        requires
            keep_alive_interval > 0,
        ensures
            c.wf(),
            c.mode == mode,
            c.transition == transition,
            c.sensitivity == sensitivity,
            c.keep_alive_interval == keep_alive_interval,
            c.phase == 0,
    {
        Controller { mode, transition, sensitivity, keep_alive_interval, phase: 0 }
    }

    /// Advances the keep-alive cadence by one tick; true when this tick is a
    /// keep-alive tick.
    pub fn keep_alive_due(&mut self) -> (due: bool)
        requires
            old(self).wf(),
        ensures
            final(self).wf(),
            due == (old(self).phase == 0),
            final(self).phase == (old(self).phase + 1) % (old(self).keep_alive_interval as int),
            final(self).mode == old(self).mode,
            final(self).transition == old(self).transition,
            final(self).sensitivity == old(self).sensitivity,
            final(self).keep_alive_interval == old(self).keep_alive_interval,
    {
        let due = self.phase == 0;
        if self.phase + 1 == self.keep_alive_interval {
            proof {
                vstd::arithmetic::div_mod::lemma_mod_self_0(self.keep_alive_interval as int);
            }
            self.phase = 0;
        } else {
            proof {
                vstd::arithmetic::div_mod::lemma_small_mod(
                    (self.phase + 1) as nat,
                    self.keep_alive_interval as nat,
                );
            }
            self.phase = self.phase + 1;
        }
        due
    }

    /// One tick of the control loop: advances the keep-alive cadence and moves
    /// every fixture one smoothed step toward its assigned palette entry.
    pub fn tick(&mut self, lights: &mut Vec<Light>, palette: &Vec<Color>) -> (plan: TickPlan)
        requires
            old(self).wf(),
            palette@.len() > 0,
        ensures
            final(self).wf(),
            plan.keep_alive == (old(self).phase == 0),
            final(self).phase == (old(self).phase + 1) % (old(self).keep_alive_interval as int),
            final(self).mode == old(self).mode,
            final(self).transition == old(self).transition,
            final(self).sensitivity == old(self).sensitivity,
            final(self).keep_alive_interval == old(self).keep_alive_interval,
            final(lights)@.len() == old(lights)@.len(),
            plan.frames@.len() == old(lights)@.len(),
            forall|i: int| 0 <= i < old(lights)@.len() ==> {
                let c = #[trigger] old(lights)@[i].current_color;
                let t = target_of(old(self).mode, i as nat, palette@);
                &&& final(lights)@[i].current_color == next_color(c, t, old(self).sensitivity, old(self).transition)
                &&& (plan.frames@[i] is None <==> converged(c, t, old(self).sensitivity))
                &&& (plan.frames@[i] is Some ==> plan.frames@[i]->Some_0@ == frame_of(
                    set_color_body(
                        final(lights)@[i].current_color.0,
                        final(lights)@[i].current_color.1,
                        final(lights)@[i].current_color.2,
                    ),
                ))
            },
    {
        let keep_alive = self.keep_alive_due();
        let mut frames: Vec<Option<Vec<u8>>> = Vec::new();
        let ghost start = lights@;
        let n = lights.len();
        let mut i: usize = 0;
        while i < n
            invariant
                self.wf(),
                palette@.len() > 0,
                n == start.len(),
                lights@.len() == n,
                i <= n,
                frames@.len() == i,
                forall|j: int| i <= j < n ==> lights@[j] == start[j],
                forall|j: int| 0 <= j < i ==> {
                    let c = #[trigger] start[j].current_color;
                    let t = target_of(self.mode, j as nat, palette@);
                    &&& lights@[j].current_color == next_color(c, t, self.sensitivity, self.transition)
                    &&& (frames@[j] is None <==> converged(c, t, self.sensitivity))
                    &&& (frames@[j] is Some ==> frames@[j]->Some_0@ == frame_of(
                        set_color_body(lights@[j].current_color.0, lights@[j].current_color.1, lights@[j].current_color.2),
                    ))
                },
            decreases n - i,
        {
            let k = target_index(self.mode, i, palette.len());
            let (r, g, b) = palette[k];
            let mut light = lights[i];
            let frame = light.set_color_smoothed(r, g, b, self.sensitivity, self.transition);
            lights.set(i, light);
            frames.push(frame);
            i = i + 1;
        }
        TickPlan { keep_alive, frames }
    }
}

} // verus!
