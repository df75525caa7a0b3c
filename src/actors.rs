use vstd::prelude::*;
use crate::geometry::{Point, Vec2, advance_point, moved};

verus! {

/// What every moving body of the game offers: an update over elapsed time,
/// and read access to its position.
pub trait Actor: Sized {
    /// Where the body stands.
    spec fn position_of(&self) -> Point;

    /// The body after `dt` nanoseconds.
    spec fn after(&self, dt: int) -> Self;

    fn update(&mut self, dt: u64)
        ensures
            *final(self) == old(self).after(dt as int),
    ;

    fn borrow_position(&self) -> (r: &Point)
        ensures
            *r == self.position_of(),
    ;
}

/// A shot in flight: it moves in a straight line at a constant velocity.
#[derive(Clone, Copy, Debug, PartialEq, Eq, Structural)]
pub struct Projectile {
    pub position: Point,
    pub velocity: Vec2,
}

/// A projectile after `dt` nanoseconds of flight.
pub open spec fn flown(p: Projectile, dt: int) -> Projectile {
    Projectile { position: moved(p.position, p.velocity, dt), velocity: p.velocity }
}

/// Every projectile of a sequence after `dt` nanoseconds of flight, each on
/// its own.
pub open spec fn all_flown(s: Seq<Projectile>, dt: int) -> Seq<Projectile> {
    s.map_values(|p: Projectile| flown(p, dt))
}

impl Projectile {
    pub fn new(position: Point, velocity: Vec2) -> (r: Projectile)
        ensures
            r.position == position,
            r.velocity == velocity,
    {
        Projectile { position, velocity }
    }

    /// Moves the projectile along its velocity for `dt` nanoseconds.
    pub fn advance(&mut self, dt: u64)
        ensures
            *final(self) == flown(*old(self), dt as int),
    {
        self.position = advance_point(self.position, self.velocity, dt);
    }
}

impl Actor for Projectile {
    open spec fn position_of(&self) -> Point {
        self.position
    }

    open spec fn after(&self, dt: int) -> Projectile {
        flown(*self, dt)
    }

    fn update(&mut self, dt: u64) {
        self.advance(dt);
    }

    fn borrow_position(&self) -> &Point {
        &self.position
    }
}

/// The live projectiles, in the order they were spawned. Nothing removes a
/// projectile: the registry only grows.
pub struct ProjectileRegistry {
    items: Vec<Projectile>,
}

impl View for ProjectileRegistry {
    type V = Seq<Projectile>;

    closed spec fn view(&self) -> Seq<Projectile> {
        self.items@
    }
}

impl ProjectileRegistry {
    pub fn new() -> (r: ProjectileRegistry)
        ensures
            r@ == Seq::<Projectile>::empty(),
    {
        ProjectileRegistry { items: Vec::new() }
    }

    pub fn len(&self) -> (r: usize)
        ensures
            r == self@.len(),
    {
        self.items.len()
    }

    pub fn get(&self, i: usize) -> (r: Projectile)
        requires
            i < self@.len(),
        ensures
            r == self@[i as int],
    {
        self.items[i]
    }

    /// A copy of every projectile, in order.
    pub fn to_vec(&self) -> (r: Vec<Projectile>)
        ensures
            r@ == self@,
    {
        self.items.clone()
    }

    /// Adds a projectile at the end.
    pub fn spawn(&mut self, p: Projectile)
        ensures
            final(self)@ == old(self)@.push(p),
    {
        self.items.push(p);
    }

    /// Moves every projectile along its own velocity for `dt` nanoseconds.
    pub fn integrate_all(&mut self, dt: u64)
        ensures
            final(self)@ == all_flown(old(self)@, dt as int),
    {
        let n: usize = self.items.len();
        let mut i: usize = 0;
        while i < n
            invariant
                n == self.items@.len(),
                n == old(self)@.len(),
                i <= n,
                forall|j: int| 0 <= j < i ==> self.items@[j] == flown(old(self)@[j], dt as int),
                forall|j: int| i <= j < n ==> self.items@[j] == old(self)@[j],
            decreases n - i,
        {
            let mut p: Projectile = self.items[i];
            p.advance(dt);
            self.items.set(i, p);
            i = i + 1;
        }
        assert(self@ =~= all_flown(old(self)@, dt as int));
    }
}

/// A flight split in two is the same as one flight over the summed time,
/// saturation included.
pub proof fn lemma_flight_splits(p: Projectile, a: int, b: int)
    requires
        a >= 0,
        b >= 0,
    ensures
        flown(flown(p, a), b) == flown(p, a + b),
{
    let v = p.velocity;
    assert(v.x * (a + b) == v.x * a + v.x * b) by (nonlinear_arith);
    assert(v.y * (a + b) == v.y * a + v.y * b) by (nonlinear_arith);
    if v.x >= 0 {
        assert(v.x * a >= 0 && v.x * b >= 0) by (nonlinear_arith)
            requires
                v.x >= 0,
                a >= 0,
                b >= 0,
        ;
    } else {
        assert(v.x * a <= 0 && v.x * b <= 0) by (nonlinear_arith)
            requires
                v.x < 0,
                a >= 0,
                b >= 0,
        ;
    }
    if v.y >= 0 {
        assert(v.y * a >= 0 && v.y * b >= 0) by (nonlinear_arith)
            requires
                v.y >= 0,
                a >= 0,
                b >= 0,
        ;
    } else {
        assert(v.y * a <= 0 && v.y * b <= 0) by (nonlinear_arith)
            requires
                v.y < 0,
                a >= 0,
                b >= 0,
        ;
    }
}

/// Integration treats each projectile on its own: reordering the registry
/// before integrating gives the same projectiles, reordered the same way.
pub proof fn lemma_integrate_order_independent(
    s1: Seq<Projectile>,
    s2: Seq<Projectile>,
    perm: Seq<int>,
    dt: int,
)
    requires
        s2.len() == s1.len(),
        perm.len() == s1.len(),
        forall|i: int| 0 <= i < perm.len() ==> 0 <= #[trigger] perm[i] < s1.len(),
        forall|i: int, j: int| 0 <= i < j < perm.len() ==> perm[i] != perm[j],
        forall|i: int| 0 <= i < s2.len() ==> #[trigger] s2[i] == s1[perm[i]],
    ensures
        all_flown(s2, dt).len() == all_flown(s1, dt).len(),
        forall|i: int| 0 <= i < s2.len() ==> #[trigger] all_flown(s2, dt)[i] == all_flown(s1, dt)[perm[i]],
{
    assert forall|i: int| 0 <= i < s2.len() implies #[trigger] all_flown(s2, dt)[i] == all_flown(s1, dt)[perm[i]] by {
        assert(s2[i] == s1[perm[i]]);
    }
}

} // verus!
