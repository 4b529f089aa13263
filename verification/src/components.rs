//! What the actors and the map's triggers carry.
use vstd::prelude::*;
use crate::generation::Building;
use crate::geometry::Midpoint;

verus! {

/// The pursued actor: it has to reach `destination`.
#[derive(Debug)]
pub struct Player {
    pub destination: Building,
}

/// The pursuer. Its target is wherever the pursued actor stands.
#[derive(Debug, Clone, Copy, PartialEq, Eq, Structural)]
pub struct Follower;

/// A bystander on its way to the entrance of `destination_building`.
#[derive(Debug)]
pub struct Bystander {
    /// The centre of the entrance it walks to.
    pub destination: Midpoint,
    pub destination_building: Building,
}

/// The trigger region at a building's door. It carries the building's name.
#[derive(Debug)]
pub struct Entrance {
    pub building_name: String,
}

/// How many bystanders are on the map.
#[derive(Debug, Clone, Copy, PartialEq, Eq, Structural)]
pub struct Spawner {
    pub current_count: u32,
}

/// What happens to the population when a bystander leaves.
#[derive(Debug, Clone, Copy, PartialEq, Eq, Structural)]
pub enum Replacement {
    /// Nobody takes its place: the population only shrinks.
    Deplete,
    /// A new bystander is due for each one missing from the target.
    Respawn,
}

impl Clone for Player {
    fn clone(&self) -> (copy: Self)
        ensures
            copy == *self,
    {
        Player { destination: self.destination.clone() }
    }
}

impl Clone for Bystander {
    fn clone(&self) -> (copy: Self)
        ensures
            copy == *self,
    {
        Bystander {
            destination: self.destination,
            destination_building: self.destination_building.clone(),
        }
    }
}

impl Clone for Entrance {
    fn clone(&self) -> (copy: Self)
        ensures
            copy == *self,
    {
        Entrance { building_name: self.building_name.clone() }
    }
}

impl Entrance {
    /// Whether this is the door of the building called `name`.
    pub open spec fn leads_to(self, name: Seq<char>) -> bool {
        self.building_name@ == name
    }

    /// Whether this is the door of `building`: the names are the same.
    pub fn belongs_to(&self, building: &Building) -> (yes: bool)
        ensures
            yes == self.leads_to(building.name@),
    {
        self.building_name == building.name
    }
}

impl Spawner {
    /// The count after `arrivals` bystanders have left: it stops at zero.
    pub open spec fn after_arrivals(self, arrivals: nat) -> u32 {
        if arrivals >= self.current_count {
            0
        } else {
            (self.current_count - arrivals) as u32
        }
    }

    /// How many bystanders are missing from `target`.
    pub open spec fn shortfall(self, target: u32) -> u32 {
        if self.current_count >= target {
            0
        } else {
            (target - self.current_count) as u32
        }
    }

    /// How many of `arrivals` arrivals have no counted bystander to go with
    /// them: those that come after the count has reached zero. Anything above
    /// zero means that the count and the map have drifted apart, which is
    /// worth a warning.
    pub fn uncounted(&self, arrivals: usize) -> (n: usize)
        ensures
            n == if arrivals > self.current_count {
                arrivals - self.current_count
            } else {
                0
            },
            self.after_arrivals(arrivals as nat) + arrivals == self.current_count + n,
    {
        let counted: usize = self.current_count as usize;
        if arrivals > counted {
            arrivals - counted
        } else {
            0
        }
    }

    /// A counter for a map that holds `count` bystanders.
    pub fn new(count: u32) -> (spawner: Spawner)
        ensures
            spawner.current_count == count,
    {
        Spawner { current_count: count }
    }

    /// One bystander has left. At zero the count stays at zero, and the
    /// result is `false`: the arrival had no bystander to go with it.
    pub fn record_arrival(&mut self) -> (counted: bool)
        ensures
            *final(self) == (Spawner { current_count: old(self).after_arrivals(1) }),
            counted == (old(self).current_count > 0),
            counted ==> final(self).current_count == old(self).current_count - 1,
            !counted ==> final(self).current_count == 0,
    {
        if self.current_count > 0 {
            self.current_count = self.current_count - 1;
            true
        } else {
            false
        }
    }

    /// How many bystanders to create now. Under `Deplete` none; under
    /// `Respawn` as many as are missing from `target`.
    pub fn replacements(&self, target: u32, policy: Replacement) -> (due: u32)
        ensures
            due == match policy {
                Replacement::Deplete => 0u32,
                Replacement::Respawn => self.shortfall(target),
            },
    {
        match policy {
            Replacement::Deplete => 0,
            Replacement::Respawn => if self.current_count >= target {
                0
            } else {
                target - self.current_count
            },
        }
    }

    /// `created` bystanders were added to the map. The count rises by that
    /// many, and stops at the largest value it can hold.
    pub fn record_spawns(&mut self, created: u32)
        ensures
            final(self).current_count == if old(self).current_count + created > u32::MAX {
                u32::MAX
            } else {
                (old(self).current_count + created) as u32
            },
    {
        self.current_count = if created > u32::MAX - self.current_count {
            u32::MAX
        } else {
            self.current_count + created
        };
    }
}

/// The count is never below zero, and it falls by exactly the number of
/// arrivals as long as that many bystanders were counted.
pub proof fn lemma_count_stops_at_zero(spawner: Spawner, arrivals: nat)
    ensures
        spawner.after_arrivals(arrivals) >= 0,
        spawner.after_arrivals(arrivals) <= spawner.current_count,
        arrivals <= spawner.current_count ==> spawner.after_arrivals(arrivals)
            == spawner.current_count - arrivals,
        arrivals >= spawner.current_count ==> spawner.after_arrivals(arrivals) == 0,
{
}

/// Arrivals may be recorded in any grouping and any order: first `a` and then
/// `b` leaves the same count as first `b` and then `a`, and as `a + b` at once.
pub proof fn lemma_arrivals_compose(spawner: Spawner, a: nat, b: nat)
    ensures
        (Spawner { current_count: spawner.after_arrivals(a) }).after_arrivals(b)
            == spawner.after_arrivals(a + b),
        (Spawner { current_count: spawner.after_arrivals(a) }).after_arrivals(b) == (Spawner {
            current_count: spawner.after_arrivals(b),
        }).after_arrivals(a),
{
}

/// Under `Respawn`, creating what `replacements` asks for brings the count
/// back to the target whenever it had fallen below.
pub proof fn lemma_respawn_restores_target(spawner: Spawner, target: u32)
    ensures
        spawner.current_count <= target ==> spawner.current_count + spawner.shortfall(target)
            == target,
        spawner.current_count >= target ==> spawner.shortfall(target) == 0,
{
}

} // verus!
