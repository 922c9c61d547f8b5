//! The game history model: one finished game, as read-only data.

use crate::color::UNKNOWN_OWNER;
use crate::transform::greater;
use std::collections::HashMap;
use vstd::prelude::*;

verus! {

broadcast use vstd::std_specs::hash::group_hash_axioms;

/// A planet: its identifier and its position in game coordinates.
#[derive(Clone, Copy, Debug, PartialEq, Eq)]
pub struct Planet {
    pub id: i32,
    pub position: (i32, i32),
}

/// An edge between two planets, named by their identifiers.
#[derive(Clone, Copy, Debug, PartialEq, Eq)]
pub struct Connection {
    pub id_a: i32,
    pub id_b: i32,
}

/// The static graph of one game. `dimensions` is the extent's width and
/// height where the history states them. Identifiers are meant to be
/// unique; where they are not, an identifier names the first planet that
/// has it.
#[derive(Clone, Debug, PartialEq, Eq)]
pub struct Cluster {
    pub planets: Vec<Planet>,
    pub connections: Vec<Connection>,
    pub dimensions: Option<(u32, u32)>,
}

/// One recorded game: the cluster, who owned which planet at which turn,
/// and the number of turns.
#[derive(Clone, Debug, PartialEq, Eq)]
pub struct Game {
    pub cluster: Cluster,
    pub planet_to_owners: HashMap<i32, HashMap<i32, i32>>,
    pub num_turns: i32,
}

/// Some planet of the list has this identifier.
pub open spec fn has_planet(planets: Seq<Planet>, id: i32) -> bool {
    exists|i: int| 0 <= i < planets.len() && planets[i].id == id
}

/// `i` is the place of the first planet of the list with this identifier.
pub open spec fn is_first_with_id(planets: Seq<Planet>, id: i32, i: int) -> bool {
    &&& 0 <= i < planets.len()
    &&& planets[i].id == id
    &&& forall|j: int| 0 <= j < i ==> planets[j].id != id
}

/// The planet that an identifier names: the first of the list that has it.
pub open spec fn planet_with_id(planets: Seq<Planet>, id: i32) -> Option<Planet> {
    if has_planet(planets, id) {
        Some(planets[choose|i: int| is_first_with_id(planets, id, i)])
    } else {
        None
    }
}

/// No two planets of the list share an identifier.
pub open spec fn ids_unique(planets: Seq<Planet>) -> bool {
    forall|i: int, j: int| 0 <= i < j < planets.len() ==> planets[i].id != planets[j].id
}

/// Where identifiers are unique, each planet's identifier names that
/// planet and no other.
pub proof fn lemma_unique_id_names_its_planet(planets: Seq<Planet>, i: int)
    requires
        ids_unique(planets),
        0 <= i < planets.len(),
    ensures
        planet_with_id(planets, planets[i].id) == Some(planets[i]),
{
    assert(is_first_with_id(planets, planets[i].id, i));
}

/// The x coordinates of the planets, in their order.
pub open spec fn xs(planets: Seq<Planet>) -> Seq<int> {
    planets.map_values(|p: Planet| p.position.0 as int)
}

/// The y coordinates of the planets, in their order.
pub open spec fn ys(planets: Seq<Planet>) -> Seq<int> {
    planets.map_values(|p: Planet| p.position.1 as int)
}

/// The largest of the values, and 0 where none is positive.
pub open spec fn furthest(values: Seq<int>) -> int
    decreases values.len(),
{
    if values.len() == 0 {
        0
    } else {
        greater(furthest(values.drop_last()), values.last())
    }
}

/// `furthest` is the least number that is neither negative nor less than
/// one of the values.
pub proof fn lemma_furthest(values: Seq<int>)
    ensures
        0 <= furthest(values),
        forall|i: int| 0 <= i < values.len() ==> values[i] <= furthest(values),
        furthest(values) == 0 || exists|i: int|
            0 <= i < values.len() && values[i] == furthest(values),
    decreases values.len(),
{
    if values.len() > 0 {
        let front = values.drop_last();
        lemma_furthest(front);
        assert forall|i: int| 0 <= i < values.len() implies values[i] <= furthest(values) by {
            if i < front.len() {
                assert(front[i] == values[i]);
            }
        }
    }
}

impl Cluster {
    /// Width and height of the cluster in game units: its dimensions where
    /// they are stated, else the reach of its planets from the origin
    /// along each axis.
    pub open spec fn spec_extent(&self) -> (u32, u32) {
        match self.dimensions {
            Some(dimensions) => dimensions,
            None => (furthest(xs(self.planets@)) as u32, furthest(ys(self.planets@)) as u32),
        }
    }

    /// Width and height of the cluster in game units.
    pub fn extent(&self) -> (extent: (u32, u32))
        ensures
            extent == self.spec_extent(),
            self.dimensions.is_none() ==> extent.0 == furthest(xs(self.planets@)) && extent.1
                == furthest(ys(self.planets@)),
    {
        if let Some(dimensions) = self.dimensions {
            return dimensions;
        }
        let mut width: u32 = 0;
        let mut height: u32 = 0;
        let mut i: usize = 0;
        while i < self.planets.len()
            invariant
                0 <= i <= self.planets.len(),
                width == furthest(xs(self.planets@).take(i as int)),
                height == furthest(ys(self.planets@).take(i as int)),
                width <= i32::MAX,
                height <= i32::MAX,
            decreases self.planets.len() - i,
        {
            let (x, y) = self.planets[i].position;
            proof {
                let xs = xs(self.planets@);
                let ys = ys(self.planets@);
                assert(xs.take(i + 1).drop_last() == xs.take(i as int));
                assert(ys.take(i + 1).drop_last() == ys.take(i as int));
            }
            if x > 0 && x as u32 > width {
                width = x as u32;
            }
            if y > 0 && y as u32 > height {
                height = y as u32;
            }
            i += 1;
        }
        proof {
            assert(xs(self.planets@).take(i as int) == xs(self.planets@));
            assert(ys(self.planets@).take(i as int) == ys(self.planets@));
        }
        (width, height)
    }

    /// Resolves a planet by its identifier.
    pub fn find_planet(&self, id: i32) -> (found: Option<Planet>)
        ensures
            found == planet_with_id(self.planets@, id),
    {
        let mut i: usize = 0;
        while i < self.planets.len()
            invariant
                0 <= i <= self.planets.len(),
                forall|j: int| 0 <= j < i ==> self.planets@[j].id != id,
            decreases self.planets.len() - i,
        {
            if self.planets[i].id == id {
                proof {
                    assert(is_first_with_id(self.planets@, id, i as int));
                }
                return Some(self.planets[i]);
            }
            i += 1;
        }
        None
    }
}

impl Game {
    /// The ownership table, as a map from planet identifier and turn to
    /// the owner recorded for them.
    pub open spec fn owners(&self) -> Map<(i32, i32), i32> {
        Map::new(
            |key: (i32, i32)|
                self.planet_to_owners@.contains_key(key.0)
                    && self.planet_to_owners@[key.0]@.contains_key(key.1),
            |key: (i32, i32)| self.planet_to_owners@[key.0]@[key.1],
        )
    }

    /// An owner is recorded for this planet at this turn.
    pub open spec fn has_owner(&self, planet_id: i32, turn: int) -> bool {
        &&& i32::MIN <= turn <= i32::MAX
        &&& self.owners().contains_key((planet_id, turn as i32))
    }

    /// The owner of a planet at a turn: the one recorded, and the unknown
    /// owner where the planet has no entry or its entry none for that turn.
    pub open spec fn spec_owner_at(&self, planet_id: i32, turn: int) -> i32 {
        if self.has_owner(planet_id, turn) {
            self.owners()[(planet_id, turn as i32)]
        } else {
            UNKNOWN_OWNER
        }
    }

    /// Looks up the owner of a planet at a turn.
    pub fn owner_at(&self, planet_id: i32, turn: i64) -> (owner: i32)
        ensures
            owner == self.spec_owner_at(planet_id, turn as int),
    {
        if turn < i32::MIN as i64 || turn > i32::MAX as i64 {
            return UNKNOWN_OWNER;
        }
        let turn = turn as i32;
        match self.planet_to_owners.get(&planet_id) {
            Some(turn_to_owner) => match turn_to_owner.get(&turn) {
                Some(owner) => *owner,
                None => UNKNOWN_OWNER,
            },
            None => UNKNOWN_OWNER,
        }
    }
}

/// Resolving an owner reads the ownership table and nothing else: games
/// with the same table give the same owner for every planet and turn,
/// whatever their clusters and their numbers of turns.
pub proof fn lemma_owner_depends_on_table_only(first: Game, second: Game, planet_id: i32, turn: int)
    requires
        first.owners() == second.owners(),
    ensures
        first.spec_owner_at(planet_id, turn) == second.spec_owner_at(planet_id, turn),
{
}

/// Where a cluster states no dimensions, its extent reaches every one of
/// its planets.
pub proof fn lemma_derived_extent_covers(cluster: Cluster, i: int)
    requires
        cluster.dimensions.is_none(),
        0 <= i < cluster.planets@.len(),
    ensures
        cluster.planets@[i].position.0 <= cluster.spec_extent().0,
        cluster.planets@[i].position.1 <= cluster.spec_extent().1,
        cluster.spec_extent().0 <= i32::MAX,
        cluster.spec_extent().1 <= i32::MAX,
{
    lemma_furthest(xs(cluster.planets@));
    lemma_furthest(ys(cluster.planets@));
    assert(xs(cluster.planets@)[i] == cluster.planets@[i].position.0);
    assert(ys(cluster.planets@)[i] == cluster.planets@[i].position.1);
}

} // verus!
