//! The per-frame rules: arrivals, the sight check, and the player's keys.
use vstd::prelude::*;
use crate::components::{Bystander, Entrance, Player, Spawner};
use crate::state::{AppState, Signal};

verus! {

/// How far the pursuer's ray reaches, in grid units.
pub const SIGHT_RANGE: u32 = 200;

/// How far in front of the pursuer the ray starts, in grid units, so that it
/// does not meet the pursuer itself.
pub const SIGHT_OFFSET: u32 = 24;

/// An overlap that the engine reports: the actor at position `actor` of the
/// frame's actor list stands in the entrance at position `entrance` of the
/// frame's entrance list.
#[derive(Debug, Clone, Copy, PartialEq, Eq, Structural)]
pub struct Contact {
    pub entrance: usize,
    pub actor: usize,
}

/// What became of the ray that the pursuer sends towards the pursued actor.
#[derive(Debug, Clone, Copy, PartialEq, Eq, Structural)]
pub enum RayCast {
    /// Both stand on the same point, so there is no direction to cast in.
    NotCast,
    /// The ray met nothing within its range.
    Nothing,
    /// The first thing the ray met, by the engine's identifier for it.
    Struck(u64),
}

/// How the player's keys move it this frame: one step of `-1`, `0` or `1` on
/// each axis, which the engine scales by speed and elapsed time.
#[derive(Debug, Clone, Copy, PartialEq, Eq, Structural)]
pub struct Impulse {
    pub dx: i8,
    pub dy: i8,
}

/// `1` for a key that is held, `0` for one that is not.
pub open spec fn held(key: bool) -> int {
    if key {
        1
    } else {
        0
    }
}

/// The contact is an arrival: both positions exist, and the entrance is the
/// door of the building that the bystander walks to.
pub open spec fn is_arrival(
    entrances: Seq<Entrance>,
    bystanders: Seq<Bystander>,
    contact: Contact,
) -> bool {
    &&& contact.entrance < entrances.len()
    &&& contact.actor < bystanders.len()
    &&& entrances[contact.entrance as int].leads_to(
        bystanders[contact.actor as int].destination_building.name@,
    )
}

/// Maps a contact to the bystander that arrives by it, if it is an arrival.
pub open spec fn arriving(entrances: Seq<Entrance>, bystanders: Seq<Bystander>) -> spec_fn(
    Contact,
) -> Option<usize> {
    |contact: Contact|
        if is_arrival(entrances, bystanders, contact) {
            Some(contact.actor)
        } else {
            None
        }
}

/// The bystanders that arrive, one for each contact that is an arrival, in
/// the order of the contacts.
pub open spec fn arrivals(
    entrances: Seq<Entrance>,
    bystanders: Seq<Bystander>,
    contacts: Seq<Contact>,
) -> Seq<usize> {
    contacts.filter_map(arriving(entrances, bystanders))
}

/// One of the entrances that the player touches is the door of its
/// destination.
pub open spec fn player_at_destination(
    entrances: Seq<Entrance>,
    player: Player,
    touched: Seq<usize>,
) -> bool {
    exists|k: int|
        0 <= k < touched.len() && (#[trigger] touched[k]) < entrances.len()
            && entrances[touched[k] as int].leads_to(player.destination.name@)
}

/// The pursuer sees the player exactly when the first thing its ray meets is
/// the player.
pub open spec fn sees(ray: RayCast, player: u64) -> bool {
    ray == RayCast::Struck(player)
}

/// The phase after the arrival rule has run. Outside the game, without both
/// the player and the pursuer on the map, or without an arrival, nothing
/// changes. On arrival the sight check decides.
pub open spec fn arrival_outcome(state: AppState, both_present: bool, arrived: bool, seen: bool)
    -> AppState {
    if state == AppState::Game && both_present && arrived {
        state.after(Signal::Arrival { seen })
    } else {
        state
    }
}

/// Removes the bystanders that have reached their destination.
///
/// Each contact that is an arrival asks for its bystander to be removed and
/// takes one from the spawner's count, which stops at zero. Contacts with
/// another building's entrance, and contacts that name a position outside
/// either list, do nothing. The result holds the positions to remove, one
/// for each arrival, in the order of the contacts.
pub fn handle_bystanders_arriving_at_destination(
    entrances: &Vec<Entrance>,
    bystanders: &Vec<Bystander>,
    contacts: &Vec<Contact>,
    spawner: &mut Spawner,
) -> (despawned: Vec<usize>)
    ensures
        despawned@ == arrivals(entrances@, bystanders@, contacts@),
        final(spawner).current_count == old(spawner).after_arrivals(despawned.len() as nat),
        final(spawner).current_count <= old(spawner).current_count,
{
    let ghost before = *spawner;
    let mut despawned: Vec<usize> = Vec::new();
    let mut i: usize = 0;
    while i < contacts.len()
        invariant
            i <= contacts.len(),
            despawned@ == arrivals(entrances@, bystanders@, contacts@.take(i as int)),
            spawner.current_count == before.after_arrivals(despawned.len() as nat),
        decreases contacts.len() - i,
    {
        let contact = contacts[i];
        proof {
            contacts@.lemma_filter_map_take_succ(arriving(entrances@, bystanders@), i as int);
        }
        if contact.entrance < entrances.len() && contact.actor < bystanders.len() {
            if entrances[contact.entrance].belongs_to(
                &bystanders[contact.actor].destination_building,
            ) {
                despawned.push(contact.actor);
                spawner.record_arrival();
            }
        }
        i = i + 1;
    }
    proof {
        assert(contacts@.take(contacts.len() as int) == contacts@);
    }
    despawned
}

/// Whether the player has reached its destination: whether one of the
/// entrances it touches carries the name of its destination.
pub fn player_arrived(entrances: &Vec<Entrance>, player: &Player, touched: &Vec<usize>) -> (arrived:
    bool)
    ensures
        arrived == player_at_destination(entrances@, *player, touched@),
{
    let mut k: usize = 0;
    while k < touched.len()
        invariant
            k <= touched.len(),
            forall|j: int|
                0 <= j < k ==> !((#[trigger] touched[j]) < entrances.len()
                    && entrances[touched[j] as int].leads_to(player.destination.name@)),
        decreases touched.len() - k,
    {
        let at = touched[k];
        if at < entrances.len() {
            if entrances[at].belongs_to(&player.destination) {
                return true;
            }
        }
        k = k + 1;
    }
    false
}

/// The sight check: whether the first thing the pursuer's ray met is the
/// player. A ray that was not cast, met nothing, or met anything else has
/// not seen it.
pub fn player_seen(ray: RayCast, player: u64) -> (seen: bool)
    ensures
        seen == sees(ray, player),
{
    match ray {
        RayCast::Struck(met) => met == player,
        RayCast::NotCast => false,
        RayCast::Nothing => false,
    }
}

/// Decides the session when the player reaches its destination.
///
/// `player` is `None` when the map holds no player, `follower_present` is
/// false when it holds no pursuer: the rule then does nothing this frame.
/// `touched` holds the positions of the entrances that the player overlaps,
/// `ray` what became of the pursuer's ray, and `player_id` the engine's
/// identifier for the player.
pub fn handle_player_arrival_at_destination(
    state: AppState,
    entrances: &Vec<Entrance>,
    player: Option<&Player>,
    follower_present: bool,
    touched: &Vec<usize>,
    ray: RayCast,
    player_id: u64,
) -> (next: AppState)
    ensures
        next == arrival_outcome(
            state,
            player is Some && follower_present,
            player is Some && player_at_destination(entrances@, *player->0, touched@),
            sees(ray, player_id),
        ),
{
    if !state.simulates() || !follower_present {
        return state;
    }
    match player {
        None => state,
        Some(p) => {
            if player_arrived(entrances, p, touched) {
                state.on_signal(Signal::Arrival { seen: player_seen(ray, player_id) })
            } else {
                state
            }
        },
    }
}

/// The player's step for the keys that are held: right minus left, and up
/// minus down. Opposite keys cancel.
pub fn sprite_movement(up: bool, down: bool, left: bool, right: bool) -> (step: Impulse)
    ensures
        step.dx == held(right) - held(left),
        step.dy == held(up) - held(down),
{
    let mut step = Impulse { dx: 0, dy: 0 };
    if up {
        step.dy = step.dy + 1;
    }
    if down {
        step.dy = step.dy - 1;
    }
    if left {
        step.dx = step.dx - 1;
    }
    if right {
        step.dx = step.dx + 1;
    }
    step
}

/// A bystander is removed only through a contact that is an arrival for it:
/// where every contact of the bystander is with the entrance of another
/// building, it stays.
pub proof fn lemma_other_entrances_never_remove(
    entrances: Seq<Entrance>,
    bystanders: Seq<Bystander>,
    contacts: Seq<Contact>,
    actor: usize,
)
    requires
        forall|k: int|
            0 <= k < contacts.len() && (#[trigger] contacts[k]).actor == actor ==> !is_arrival(
                entrances,
                bystanders,
                contacts[k],
            ),
    ensures
        !arrivals(entrances, bystanders, contacts).contains(actor),
{
    let f = arriving(entrances, bystanders);
    if contacts.filter_map(f).contains(actor) {
        contacts.lemma_filter_map_contains(f, actor);
        let t = choose|t: Contact| #[trigger] contacts.contains(t) && f(t) == Some(actor);
        let k = choose|k: int| 0 <= k < contacts.len() && contacts[k] == t;
        assert(contacts[k].actor == actor);
    }
}

/// A bystander whose contact is an arrival is removed.
pub proof fn lemma_arrival_removes(
    entrances: Seq<Entrance>,
    bystanders: Seq<Bystander>,
    contacts: Seq<Contact>,
    k: int,
)
    requires
        0 <= k < contacts.len(),
        is_arrival(entrances, bystanders, contacts[k]),
    ensures
        arrivals(entrances, bystanders, contacts).contains(contacts[k].actor),
    decreases contacts.len(),
{
    let f = arriving(entrances, bystanders);
    let rest = contacts.drop_last();
    if k == contacts.len() - 1 {
        let out = rest.filter_map(f) + seq![contacts[k].actor];
        assert(contacts.filter_map(f) == out);
        assert(out[out.len() - 1] == contacts[k].actor);
    } else {
        lemma_arrival_removes(entrances, bystanders, rest, k);
        let inner = rest.filter_map(f);
        let at = choose|at: int| 0 <= at < inner.len() && inner[at] == contacts[k].actor;
        match f(contacts.last()) {
            Some(a) => {
                assert((inner + seq![a])[at] == contacts[k].actor);
            },
            None => {},
        }
    }
}

/// A single arrival of a counted bystander removes that bystander and
/// lowers the count by exactly one.
pub proof fn lemma_single_arrival(
    entrances: Seq<Entrance>,
    bystanders: Seq<Bystander>,
    contact: Contact,
    spawner: Spawner,
)
    requires
        is_arrival(entrances, bystanders, contact),
        spawner.current_count > 0,
    ensures
        arrivals(entrances, bystanders, seq![contact]) == seq![contact.actor],
        spawner.after_arrivals(arrivals(entrances, bystanders, seq![contact]).len())
            == spawner.current_count - 1,
{
    let f = arriving(entrances, bystanders);
    let one = seq![contact];
    assert(one.drop_last().filter_map(f) == Seq::<usize>::empty());
    assert(one.filter_map(f) =~= seq![contact.actor]);
}

/// The arrival rule moves the phase only out of the game, and only to a
/// terminal phase: to `Lose` when the player was seen, to `Win` when not.
pub proof fn lemma_arrival_ends_the_game(
    state: AppState,
    both_present: bool,
    arrived: bool,
    seen: bool,
)
    ensures
        arrival_outcome(state, both_present, arrived, seen) != state <==> state == AppState::Game
            && both_present && arrived,
        arrival_outcome(state, both_present, arrived, seen) != state ==> arrival_outcome(
            state,
            both_present,
            arrived,
            seen,
        ) == if seen {
            AppState::Lose
        } else {
            AppState::Win
        },
{
}

} // verus!
