use vstd::prelude::*;

verus! {

/// Mass given to every attractor that the user places.
pub const PLACED_MASS: u32 = 1_000_000_000;

/// Radius given to every attractor that the user places.
pub const PLACED_RADIUS: u32 = 10;

/// A fixed point mass that pulls the ball.
///
/// Its pull on the ball is `G * mass * radius * radius`: a constant of the
/// attractor, not of its distance to the ball.
pub struct Attractor<P> {
    pub position: P,
    pub mass: u32,
    pub radius: u32,
}

impl<P> Attractor<P> {
    /// The attractor that placing one at `p` creates.
    pub open spec fn placed(p: P) -> Attractor<P> {
        Attractor { position: p, mass: PLACED_MASS, radius: PLACED_RADIUS }
    }

    /// Mass times radius squared: the attractor's pull without the
    /// gravitational constant.
    pub open spec fn spec_pull_scale(self) -> nat {
        (self.mass * self.radius * self.radius) as nat
    }

    /// A new attractor at `position`, with the mass and radius that placing
    /// one gives.
    pub fn placed_at(position: P) -> (r: Attractor<P>)
        ensures
            r == Attractor::placed(position),
    {
        Attractor { position, mass: PLACED_MASS, radius: PLACED_RADIUS }
    }

    /// Mass times radius squared, exactly.
    pub fn pull_scale(&self) -> (r: u128)
        ensures
            r as nat == self.spec_pull_scale(),
    {
        let m: u128 = self.mass as u128;
        let rad: u128 = self.radius as u128;
        assert(m * rad <= 0xffff_ffff * 0xffff_ffff) by (nonlinear_arith)
            requires
                m <= 0xffff_ffff,
                rad <= 0xffff_ffff,
        ;
        assert(m * rad * rad <= 0xffff_ffff * 0xffff_ffff * 0xffff_ffff) by (nonlinear_arith)
            requires
                m * rad <= 0xffff_ffff * 0xffff_ffff,
                rad <= 0xffff_ffff,
        ;
        m * rad * rad
    }
}

} // verus!
