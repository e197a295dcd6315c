use vstd::prelude::*;

use crate::codec::{frame_of, keep_alive_body, keep_alive_command, set_color_body, set_color_command};

verus! {

/// A colour as red, green and blue channels.
pub type Color = (u8, u8, u8);

/// How a fixture moves toward a new target colour.
#[derive(Clone, Copy, Debug, PartialEq, Eq, Structural)]
pub enum Transition {
    /// Each update moves every channel to the midpoint of current and target.
    Smooth,
    /// Each update jumps straight to the target.
    Instant,
}

/// The colour state of one fixture: the last colour it was told to show.
#[derive(Clone, Copy, Debug)]
pub struct Light {
    pub current_color: Color,
}

/// Distance between two channel values.
pub open spec fn channel_dist(a: u8, b: u8) -> int {
    if a >= b {
        a - b
    } else {
        b - a
    }
}

/// Every channel of `c` lies within `sensitivity` of the one of `t`.
pub open spec fn converged(c: Color, t: Color, sensitivity: u8) -> bool {
    &&& channel_dist(c.0, t.0) < sensitivity
    &&& channel_dist(c.1, t.1) < sensitivity
    &&& channel_dist(c.2, t.2) < sensitivity
}

/// Integer midpoint of two channel values, rounded toward zero.
pub open spec fn midpoint(a: u8, b: u8) -> u8 {
    ((a + b) / 2) as u8
}

/// The colour one step of `transition` reaches from `c` toward `t`.
pub open spec fn step_toward(c: Color, t: Color, transition: Transition) -> Color {
    match transition {
        Transition::Smooth => (midpoint(c.0, t.0), midpoint(c.1, t.1), midpoint(c.2, t.2)),
        Transition::Instant => t,
    }
}

/// The colour after one smoothed update: unchanged once converged.
pub open spec fn next_color(c: Color, t: Color, sensitivity: u8, transition: Transition) -> Color {
    if converged(c, t, sensitivity) {
        c
    } else {
        step_toward(c, t, transition)
    }
}

/// The colour after `n` smoothed updates toward the same target.
pub open spec fn color_after(
    c: Color,
    t: Color,
    sensitivity: u8,
    transition: Transition,
    n: nat,
) -> Color
    decreases n,
{
    if n == 0 {
        c
    } else {
        color_after(next_color(c, t, sensitivity, transition), t, sensitivity, transition, (n - 1) as nat)
    }
}

fn channel_midpoint(a: u8, b: u8) -> (m: u8)
    ensures
        m == midpoint(a, b),
{
    ((a as u16 + b as u16) / 2) as u8
}

fn channel_within(a: u8, b: u8, sensitivity: u8) -> (r: bool)
    ensures
        r == (channel_dist(a, b) < sensitivity),
{
    let d: u8 = if a >= b {
        a - b
    } else {
        b - a
    };
    d < sensitivity
}

impl Light {
    /// A fixture state that starts dark.
    pub fn new() -> (l: Light)
        ensures
            l.current_color == (0u8, 0u8, 0u8),
    {
        Light { current_color: (0, 0, 0) }
    }

    /// Jumps to `(r, g, b)` and returns the frame that sets it.
    pub fn set_color(&mut self, r: u8, g: u8, b: u8) -> (f: Vec<u8>)
        ensures
            final(self).current_color == (r, g, b),
            f@ == frame_of(set_color_body(r, g, b)),
    {
        self.current_color = (r, g, b);
        set_color_command(r, g, b)
    }

    /// The liveness frame; the colour state is untouched.
    pub fn keep_alive(&self) -> (f: Vec<u8>)
        ensures
            f@ == frame_of(keep_alive_body()),
    {
        keep_alive_command()
    }

    /// Moves one step toward `(r, g, b)` and returns the frame to send, or
    /// `None` when the current colour is already within `sensitivity` of the
    /// target on every channel, in which case nothing changes.
    pub fn set_color_smoothed(&mut self, r: u8, g: u8, b: u8, sensitivity: u8, transition: Transition) -> (f: Option<Vec<u8>>)
        ensures
            final(self).current_color == next_color(old(self).current_color, (r, g, b), sensitivity, transition),
            f is None <==> converged(old(self).current_color, (r, g, b), sensitivity),
            f is Some ==> f->Some_0@ == frame_of(
                set_color_body(final(self).current_color.0, final(self).current_color.1, final(self).current_color.2),
            ),
    {
        let (cr, cg, cb) = self.current_color;
        if channel_within(cr, r, sensitivity) && channel_within(cg, g, sensitivity) && channel_within(cb, b, sensitivity) {
            return None;
        }
        let (nr, ng, nb) = match transition {
            Transition::Smooth => (channel_midpoint(cr, r), channel_midpoint(cg, g), channel_midpoint(cb, b)),
            Transition::Instant => (r, g, b),
        };
        self.current_color = (nr, ng, nb);
        Some(set_color_command(nr, ng, nb))
    }
}

/// Once the colour is within `sensitivity` of the target on every channel,
/// any number of further updates toward that target leave it unchanged (and,
/// by the contract of `Light::set_color_smoothed`, send nothing).
pub proof fn lemma_converged_is_fixed_point(
    c: Color,
    t: Color,
    sensitivity: u8,
    transition: Transition,
    n: nat,
)
    requires
        converged(c, t, sensitivity),
    ensures
        color_after(c, t, sensitivity, transition, n) == c,
    decreases n,
{
    if n > 0 {
        lemma_converged_is_fixed_point(c, t, sensitivity, transition, (n - 1) as nat);
    }
}

/// An update that is not suppressed moves every channel toward the target
/// without passing it: the new value lies between the old one and the target,
/// no channel's distance grows, and a distance of two or more shrinks.
pub proof fn lemma_step_approaches_target(c: Color, t: Color, sensitivity: u8, transition: Transition)
    requires
        !converged(c, t, sensitivity),
    ensures
        ({
            let n = next_color(c, t, sensitivity, transition);
            &&& (c.0 <= n.0 <= t.0 || t.0 <= n.0 <= c.0)
            &&& (c.1 <= n.1 <= t.1 || t.1 <= n.1 <= c.1)
            &&& (c.2 <= n.2 <= t.2 || t.2 <= n.2 <= c.2)
            &&& channel_dist(n.0, t.0) <= channel_dist(c.0, t.0)
            &&& channel_dist(n.1, t.1) <= channel_dist(c.1, t.1)
            &&& channel_dist(n.2, t.2) <= channel_dist(c.2, t.2)
            &&& (channel_dist(c.0, t.0) >= 2 ==> channel_dist(n.0, t.0) < channel_dist(c.0, t.0))
            &&& (channel_dist(c.1, t.1) >= 2 ==> channel_dist(n.1, t.1) < channel_dist(c.1, t.1))
            &&& (channel_dist(c.2, t.2) >= 2 ==> channel_dist(n.2, t.2) < channel_dist(c.2, t.2))
        }),
{
}

/// Repeated updates toward one target never move a channel away from it:
/// after any number of updates each channel is at least as close to the
/// target as it started.
pub proof fn lemma_updates_never_recede(c: Color, t: Color, sensitivity: u8, transition: Transition, n: nat)
    ensures
        ({
            let m = color_after(c, t, sensitivity, transition, n);
            &&& channel_dist(m.0, t.0) <= channel_dist(c.0, t.0)
            &&& channel_dist(m.1, t.1) <= channel_dist(c.1, t.1)
            &&& channel_dist(m.2, t.2) <= channel_dist(c.2, t.2)
        }),
    decreases n,
{
    if n > 0 {
        let c1 = next_color(c, t, sensitivity, transition);
        if !converged(c, t, sensitivity) {
            lemma_step_approaches_target(c, t, sensitivity, transition);
        }
        lemma_updates_never_recede(c1, t, sensitivity, transition, (n - 1) as nat);
    }
}

} // verus!
