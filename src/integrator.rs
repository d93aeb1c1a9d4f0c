use std::ops::Mul;
use vstd::prelude::*;
use vstd::std_specs::ops::MulSpec;

use crate::colour::Colour;

verus! {

/// How a traced path ends, before its attenuations are applied.
#[derive(Debug, Clone, Copy, PartialEq, Eq, Structural)]
pub enum Terminal {
    /// The bounce budget ran out: no light reaches the path.
    Black,
    /// A surface was hit that does not scatter: it counts as pure light.
    White,
    /// The last ray escaped the scene: the sky gradient along it.
    Background,
}

/// What the scene and the hit material reported for the ray last traced.
pub enum Event<T, R> {
    Missed,
    Absorbed,
    Scattered { attenuation: Colour<T>, ray: R },
}

/// What the caller does next with a path.
pub enum Step<R> {
    /// Intersect this ray with the scene and report the outcome.
    Trace(R),
    Finish(Terminal),
}

/// The state of one path: the bounces still allowed and the attenuations met
/// so far, nearest to the camera first.
pub struct Path<T> {
    pub remaining: u32,
    pub attenuations: Vec<Colour<T>>,
}

/// The radiance of a path: each attenuation applied, channel by channel, to
/// the light that arrives from further along the path.
pub open spec fn composed<T: Mul<Output = T> + Copy>(attenuations: Seq<Colour<T>>, terminal: Colour<T>) -> Colour<T>
    decreases attenuations.len(),
{
    if attenuations.len() == 0 {
        terminal
    } else {
        attenuations[0].product(composed(attenuations.drop_first(), terminal))
    }
}

/// The first step of a path allowed `remaining` bounces whose camera ray is
/// `ray`: with no bounce left it is black whatever the scene holds, else the
/// ray is traced.
pub open spec fn first_step<R>(remaining: u32, ray: R) -> Step<R> {
    if remaining == 0 {
        Step::Finish(Terminal::Black)
    } else {
        Step::Trace(ray)
    }
}

/// A path allowed no bounce is black for every camera ray and every scene:
/// it finishes black before the scene is asked anything, and with no
/// attenuation recorded its radiance is that black terminal colour itself.
pub proof fn lemma_no_bounce_is_black<T: Mul<Output = T> + Copy, R>(ray: R, black: Colour<T>)
    ensures
        first_step(0, ray) == Step::<R>::Finish(Terminal::Black),
        composed(Seq::<Colour<T>>::empty(), black) == black,
{
}

impl<T> Path<T> {
    /// A fresh path allowed `depth` bounces.
    pub fn new(depth: u32) -> (p: Path<T>)
        ensures
            p.remaining == depth,
            p.attenuations@.len() == 0,
    {
        Path { remaining: depth, attenuations: Vec::new() }
    }

    /// The first step for a path whose camera ray is `ray`.
    pub fn start<R>(&self, ray: R) -> (s: Step<R>)
        ensures
            s == first_step(self.remaining, ray),
    {
        if self.remaining == 0 {
            Step::Finish(Terminal::Black)
        } else {
            Step::Trace(ray)
        }
    }

    /// Takes the outcome of the ray last traced and decides the next step.
    /// A scatter records its attenuation and uses up one bounce; the
    /// scattered ray is traced only while bounces remain.
    pub fn advance<R>(&mut self, event: Event<T, R>) -> (s: Step<R>)
        requires
            old(self).remaining > 0,
        ensures
            match event {
                Event::Missed => {
                    &&& s == Step::<R>::Finish(Terminal::Background)
                    &&& *final(self) == *old(self)
                },
                Event::Absorbed => {
                    &&& s == Step::<R>::Finish(Terminal::White)
                    &&& *final(self) == *old(self)
                },
                Event::Scattered { attenuation, ray } => {
                    &&& final(self).remaining == old(self).remaining - 1
                    &&& final(self).attenuations@ == old(self).attenuations@.push(attenuation)
                    &&& final(self).remaining == 0 ==> s == Step::<R>::Finish(Terminal::Black)
                    &&& final(self).remaining > 0 ==> s == Step::Trace(ray)
                },
            },
    {
        match event {
            Event::Missed => Step::Finish(Terminal::Background),
            Event::Absorbed => Step::Finish(Terminal::White),
            Event::Scattered { attenuation, ray } => {
                self.remaining = self.remaining - 1;
                self.attenuations.push(attenuation);
                if self.remaining == 0 {
                    Step::Finish(Terminal::Black)
                } else {
                    Step::Trace(ray)
                }
            },
        }
    }
}

/// The radiance carried back along a path that ended with `terminal`: the
/// attenuations applied from the last bounce back to the first. The channel
/// type's product must be defined for every pair of values, as it is for
/// floating-point channels.
pub fn shade<T: Mul<Output = T> + Copy>(attenuations: &Vec<Colour<T>>, terminal: Colour<T>) -> (c: Colour<T>)
    requires
        forall|x: T, y: T| #[trigger] x.mul_req(y),
    ensures
        T::obeys_mul_spec() ==> c == composed(attenuations@, terminal),
{
    let mut acc = terminal;
    let mut i: usize = attenuations.len();
    while i > 0
        invariant
            0 <= i <= attenuations@.len(),
            forall|x: T, y: T| #[trigger] x.mul_req(y),
            T::obeys_mul_spec() ==> acc == composed(attenuations@.subrange(i as int, attenuations@.len() as int), terminal),
        decreases i,
    {
        i = i - 1;
        let a = attenuations[i];
        let ghost tail = attenuations@.subrange(i as int, attenuations@.len() as int);
        assert(tail.drop_first() =~= attenuations@.subrange(i + 1, attenuations@.len() as int));
        acc = a.mul_element_wise(acc);
    }
    assert(attenuations@.subrange(0, attenuations@.len() as int) =~= attenuations@);
    acc
}

} // verus!
