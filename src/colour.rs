use std::ops::{Add, Mul};
use vstd::prelude::*;
use vstd::std_specs::ops::{AddSpec, MulSpec};

verus! {

/// A colour as three channels: linear radiance or attenuation while light is
/// integrated, discrete 0..=255 intensities once mapped for output.
#[derive(Debug, Clone, Copy)]
pub struct Colour<T> {
    pub r: T,
    pub g: T,
    pub b: T,
}

/// Relies on rand::random: one value drawn from the thread-local generator
/// (the same draw as `thread_rng().gen()`); nothing is known of it.
pub assume_specification<T>[ rand::random::<T> ]() -> (r: T)
    where
        rand::distributions::Standard: rand::distributions::Distribution<T>,
;

impl<T> Colour<T> where rand::distributions::Standard: rand::distributions::Distribution<T> {
    /// A colour whose three channels are drawn independently from the
    /// standard distribution of the channel type.
    pub fn random() -> (c: Colour<T>) {
        let r: T = rand::random();
        let g: T = rand::random();
        let b: T = rand::random();
        Colour { r, g, b }
    }
}

impl<T: Mul<Output = T> + Copy> Colour<T> {
    /// The channel-wise product of two colours, as the channel type defines it.
    pub open spec fn product(self, other: Colour<T>) -> Colour<T> {
        Colour { r: self.r.mul_spec(other.r), g: self.g.mul_spec(other.g), b: self.b.mul_spec(other.b) }
    }

    /// Every channel of the colour scaled by `k`.
    pub open spec fn scaled(self, k: T) -> Colour<T> {
        Colour { r: self.r.mul_spec(k), g: self.g.mul_spec(k), b: self.b.mul_spec(k) }
    }

    pub fn new(r: T, g: T, b: T) -> (c: Self)
        ensures
            c.r == r,
            c.g == g,
            c.b == b,
    {
        Colour { r, g, b }
    }

    /// Multiplies the two colours channel by channel (attenuation applied to
    /// incoming light).
    pub fn mul_element_wise(&self, other: Colour<T>) -> (c: Colour<T>)
        requires
            self.r.mul_req(other.r),
            self.g.mul_req(other.g),
            self.b.mul_req(other.b),
        ensures
            T::obeys_mul_spec() ==> c == self.product(other),
    {
        Colour::new(self.r * other.r, self.g * other.g, self.b * other.b)
    }
}

impl<T: Add<Output = T> + Mul<Output = T> + Copy> Add for Colour<T> {
    type Output = Self;

    /// Adds the two colours channel by channel (sums of samples).
    fn add(self, rhs: Self) -> Self::Output {
        Colour::new(self.r + rhs.r, self.g + rhs.g, self.b + rhs.b)
    }
}

impl<T: Add<Output = T> + Mul<Output = T> + Copy> vstd::std_specs::ops::AddSpecImpl for Colour<T> {
    open spec fn obeys_add_spec() -> bool {
        T::obeys_add_spec()
    }

    open spec fn add_req(self, rhs: Self) -> bool {
        &&& self.r.add_req(rhs.r)
        &&& self.g.add_req(rhs.g)
        &&& self.b.add_req(rhs.b)
    }

    open spec fn add_spec(self, rhs: Self) -> Self {
        Colour { r: self.r.add_spec(rhs.r), g: self.g.add_spec(rhs.g), b: self.b.add_spec(rhs.b) }
    }
}

impl<T: Mul<Output = T> + Copy> Mul<T> for Colour<T> {
    type Output = Self;

    /// Scales every channel by `rhs` (averaging, blending).
    fn mul(self, rhs: T) -> Self::Output {
        Colour::new(self.r * rhs, self.g * rhs, self.b * rhs)
    }
}

impl<T: Mul<Output = T> + Copy> vstd::std_specs::ops::MulSpecImpl<T> for Colour<T> {
    open spec fn obeys_mul_spec() -> bool {
        T::obeys_mul_spec()
    }

    open spec fn mul_req(self, rhs: T) -> bool {
        &&& self.r.mul_req(rhs)
        &&& self.g.mul_req(rhs)
        &&& self.b.mul_req(rhs)
    }

    open spec fn mul_spec(self, rhs: T) -> Self {
        self.scaled(rhs)
    }
}

} // verus!
