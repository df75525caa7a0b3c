use vstd::prelude::*;
use crate::geometry::{Point, Vec2, advance_point, moved};

verus! {

/// The position component of an entity.
#[derive(Clone, Copy, Debug, PartialEq, Eq, Structural)]
pub struct Position(pub Point);

/// The velocity component of an entity.
#[derive(Clone, Copy, Debug, PartialEq, Eq, Structural)]
pub struct Velocity(pub Vec2);

/// The rotation component of an entity, in nanoradians.
#[derive(Clone, Copy, Debug, PartialEq, Eq, Structural)]
pub struct Rotate(pub i64);

/// Component storage: entities are stable indices, and each may carry a
/// position, a velocity, both or neither.
pub struct World {
    positions: Vec<Option<Position>>,
    velocities: Vec<Option<Velocity>>,
}

/// What the movement pass makes of one entity's position: advanced by its
/// velocity when it has both components, else left as it is.
pub open spec fn moved_component(p: Option<Position>, v: Option<Velocity>, dt: int) -> Option<Position> {
    match (p, v) {
        (Some(pos), Some(vel)) => Some(Position(moved(pos.0, vel.0, dt))),
        _ => p,
    }
}

impl World {
    pub closed spec fn positions(&self) -> Seq<Option<Position>> {
        self.positions@
    }

    pub closed spec fn velocities(&self) -> Seq<Option<Velocity>> {
        self.velocities@
    }

    /// The number of entities ever created.
    pub closed spec fn entities(&self) -> nat {
        self.positions@.len()
    }

    pub closed spec fn wf(&self) -> bool {
        self.positions@.len() == self.velocities@.len()
    }

    /// In a well-formed world both component tables have one slot per entity.
    pub proof fn lemma_lengths(&self)
        requires
            self.wf(),
        ensures
            self.positions().len() == self.entities(),
            self.velocities().len() == self.entities(),
    {
    }

    pub fn new() -> (r: World)
        ensures
            r.wf(),
            r.entities() == 0,
    {
        World { positions: Vec::new(), velocities: Vec::new() }
    }

    pub fn entity_count(&self) -> (r: usize)
        requires
            self.wf(),
        ensures
            r == self.entities(),
    {
        self.positions.len()
    }

    /// Creates an entity with no components; returns its identity.
    pub fn create_entity(&mut self) -> (id: usize)
        requires
            old(self).wf(),
        ensures
            final(self).wf(),
            id == old(self).entities(),
            final(self).entities() == old(self).entities() + 1,
            final(self).positions() == old(self).positions().push(None),
            final(self).velocities() == old(self).velocities().push(None),
    {
        let id = self.positions.len();
        self.positions.push(None);
        self.velocities.push(None);
        id
    }

    /// Attaches (or with `None` detaches) the position of entity `id`.
    pub fn set_position(&mut self, id: usize, p: Option<Position>)
        requires
            old(self).wf(),
            id < old(self).entities(),
        ensures
            final(self).wf(),
            final(self).entities() == old(self).entities(),
            final(self).positions() == old(self).positions().update(id as int, p),
            final(self).velocities() == old(self).velocities(),
    {
        self.positions.set(id, p);
    }

    /// Attaches (or with `None` detaches) the velocity of entity `id`.
    pub fn set_velocity(&mut self, id: usize, v: Option<Velocity>)
        requires
            old(self).wf(),
            id < old(self).entities(),
        ensures
            final(self).wf(),
            final(self).entities() == old(self).entities(),
            final(self).velocities() == old(self).velocities().update(id as int, v),
            final(self).positions() == old(self).positions(),
    {
        self.velocities.set(id, v);
    }

    pub fn position(&self, id: usize) -> (r: Option<Position>)
        requires
            self.wf(),
            id < self.entities(),
        ensures
            r == self.positions()[id as int],
    {
        self.positions[id]
    }

    pub fn velocity(&self, id: usize) -> (r: Option<Velocity>)
        requires
            self.wf(),
            id < self.entities(),
        ensures
            r == self.velocities()[id as int],
    {
        self.velocities[id]
    }
}

/// The movement system: advances the position of every entity that also has
/// a velocity; entities missing either component are skipped.
pub struct Move;

impl Move {
    pub fn run(&mut self, world: &mut World, dt: u64)
        requires
            old(world).wf(),
        ensures
            final(world).wf(),
            final(world).entities() == old(world).entities(),
            final(world).velocities() == old(world).velocities(),
            forall|i: int|
                0 <= i < old(world).entities() ==> #[trigger] final(world).positions()[i] == moved_component(
                    old(world).positions()[i],
                    old(world).velocities()[i],
                    dt as int,
                ),
    {
        let n: usize = world.positions.len();
        let mut i: usize = 0;
        while i < n
            invariant
                n == world.positions@.len(),
                n == world.velocities@.len(),
                n == old(world).positions@.len(),
                world.velocities@ == old(world).velocities@,
                i <= n,
                forall|j: int|
                    0 <= j < i ==> #[trigger] world.positions@[j] == moved_component(
                        old(world).positions@[j],
                        old(world).velocities@[j],
                        dt as int,
                    ),
                forall|j: int| i <= j < n ==> #[trigger] world.positions@[j] == old(world).positions@[j],
            decreases n - i,
        {
            if let (Some(p), Some(v)) = (world.positions[i], world.velocities[i]) {
                let q = advance_point(p.0, v.0, dt);
                world.positions.set(i, Some(Position(q)));
            }
            i = i + 1;
        }
    }
}

} // verus!
