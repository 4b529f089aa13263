//! A session's state, and the two steps that change it: the start and the
//! frame.
use vstd::prelude::*;
use crate::components::{Bystander, Entrance, Player, Spawner};
use crate::generation::{
    catalog_len,
    create_buildings,
    create_bystanders,
    heads_for_catalog,
    places_row,
    player_init,
    BystanderInit,
    Placement,
    PlayerInit,
};
use crate::state::{main_menu_space_to_start, AppState};
use crate::systems::{
    arrival_outcome,
    arrivals,
    handle_bystanders_arriving_at_destination,
    handle_player_arrival_at_destination,
    player_at_destination,
    sees,
    Contact,
    RayCast,
};

verus! {

/// What one session holds between frames.
#[derive(Debug, Clone, Copy, PartialEq, Eq, Structural)]
pub struct GameState {
    pub phase: AppState,
    pub spawner: Spawner,
}

/// What the engine has to create when a session starts.
#[derive(Debug)]
pub struct Scenario {
    pub buildings: Vec<Placement>,
    pub player: PlayerInit,
    pub bystanders: Vec<BystanderInit>,
}

/// `scenario` holds the whole catalogue, a player with two different
/// buildings of it, and `count` bystanders that head for buildings of it.
pub open spec fn is_scenario(scenario: Scenario, count: u32) -> bool {
    &&& scenario.buildings.len() == catalog_len()
    &&& forall|i: int|
        0 <= i < scenario.buildings.len() ==> places_row(#[trigger] scenario.buildings[i], i)
    &&& exists|i: int, j: int|
        0 <= i < catalog_len() && 0 <= j < catalog_len() && i != j
            && scenario.player.origin.is_row(i) && scenario.player.destination.is_row(j)
    &&& scenario.player.origin.name@ != scenario.player.destination.name@
    &&& scenario.player.origin.valid()
    &&& scenario.player.destination.valid()
    &&& scenario.bystanders.len() == count
    &&& forall|k: int|
        0 <= k < scenario.bystanders.len() ==> heads_for_catalog(#[trigger] scenario.bystanders[k])
}

/// The scenario of a new session with `count` bystanders.
pub fn setup(count: u32) -> (scenario: Scenario)
    ensures
        is_scenario(scenario, count),
{
    Scenario {
        buildings: create_buildings(),
        player: player_init(),
        bystanders: create_bystanders(count),
    }
}

impl GameState {
    /// A session on the menu, with nobody on the map.
    pub fn new() -> (state: GameState)
        ensures
            state == (GameState { phase: AppState::Menu, spawner: Spawner { current_count: 0 } }),
    {
        GameState { phase: AppState::initial(), spawner: Spawner::new(0) }
    }

    /// The menu's frame. With the start key held on the menu the game
    /// begins: the result is the scenario to create, and the spawner counts
    /// its `count` bystanders. In every other case nothing changes and
    /// nothing is to be created.
    pub fn start(&mut self, space_pressed: bool, count: u32) -> (scenario: Option<Scenario>)
        ensures
            scenario is Some <==> space_pressed && old(self).phase == AppState::Menu,
            scenario is Some ==> is_scenario(scenario->0, count) && *final(self) == (GameState {
                phase: AppState::Game,
                spawner: Spawner { current_count: count },
            }),
            scenario is None ==> *final(self) == *old(self),
    {
        let next = main_menu_space_to_start(self.phase, space_pressed);
        if next != self.phase {
            self.phase = next;
            self.spawner = Spawner::new(count);
            Some(setup(count))
        } else {
            None
        }
    }

    /// One frame of the game, after the actors have moved.
    ///
    /// Outside the game nothing happens. In the game, the bystanders that
    /// have arrived are handed back for removal and leave the spawner's
    /// count, and the player's arrival, if there is one, ends the session.
    pub fn frame(
        &mut self,
        entrances: &Vec<Entrance>,
        bystanders: &Vec<Bystander>,
        contacts: &Vec<Contact>,
        player: Option<&Player>,
        follower_present: bool,
        touched: &Vec<usize>,
        ray: RayCast,
        player_id: u64,
    ) -> (despawned: Vec<usize>)
        ensures
            old(self).phase != AppState::Game ==> *final(self) == *old(self) && despawned@
                == Seq::<usize>::empty(),
            final(self).spawner.current_count <= old(self).spawner.current_count,
            old(self).phase == AppState::Game ==> {
                &&& despawned@ == arrivals(entrances@, bystanders@, contacts@)
                &&& final(self).spawner.current_count == old(self).spawner.after_arrivals(
                    despawned.len() as nat,
                )
                &&& final(self).phase == arrival_outcome(
                    AppState::Game,
                    player is Some && follower_present,
                    player is Some && player_at_destination(entrances@, *player->0, touched@),
                    sees(ray, player_id),
                )
            },
    {
        if !self.phase.simulates() {
            return Vec::new();
        }
        let despawned = handle_bystanders_arriving_at_destination(
            entrances,
            bystanders,
            contacts,
            &mut self.spawner,
        );
        self.phase =
        handle_player_arrival_at_destination(
            self.phase,
            entrances,
            player,
            follower_present,
            touched,
            ray,
            player_id,
        );
        despawned
    }
}

} // verus!
