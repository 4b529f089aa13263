//! The catalogue of buildings and what a session starts from.
use vstd::prelude::*;
use crate::components::Entrance;
use crate::geometry::{rect, Midpoint, Rect};
use crate::random::{choose_multiple, choose_one, drawn_from, gen_range};

verus! {

/// How far from its building an entrance may lie, in grid units, on each
/// axis.
pub const ENTRANCE_REACH: u32 = 2;

/// The map's width, in grid units.
pub const MAP_WIDTH: i32 = 1920;

/// The map's height, in grid units.
pub const MAP_HEIGHT: i32 = 1080;

/// The fewest sides a bystander's shape can have.
pub const MIN_SIDES: usize = 3;

/// One more than the most sides a bystander's shape can have.
pub const SIDES_END: usize = 8;

/// A named building: the rectangle it covers and the smaller rectangle of
/// its entrance.
#[derive(Debug)]
pub struct Building {
    pub name: String,
    pub bounds: Rect,
    pub entrance: Option<Rect>,
}

/// Why a building cannot be put on the map.
#[derive(Debug, Clone, Copy, PartialEq, Eq, Structural)]
pub enum CatalogError {
    /// The building has no entrance, so no trigger can be made for it.
    MissingEntrance,
    /// The bounds or the entrance have a corner `min` that does not lie
    /// below `max` on both axes.
    MalformedRectangle,
    /// The entrance lies away from the building it is said to belong to.
    DetachedEntrance,
}

/// A rectangle as the engine needs it: the doubled centre and the full
/// extents. The engine halves all four.
#[derive(Debug, Clone, Copy, PartialEq, Eq, Structural)]
pub struct Footprint {
    pub center: Midpoint,
    pub width: i64,
    pub height: i64,
}

/// What a building adds to the map: a solid body and the trigger at its door.
#[derive(Debug)]
pub struct Placement {
    pub body: Footprint,
    pub trigger: Footprint,
    pub entrance: Entrance,
}

/// Where the pursued actor starts and where it has to go.
#[derive(Debug)]
pub struct PlayerInit {
    pub origin: Building,
    pub destination: Building,
}

/// What a new bystander starts with. Colours, the starting position and the
/// focus are drawn by the engine's side, which holds them as floats.
#[derive(Debug)]
pub struct BystanderInit {
    pub side_count: usize,
    pub destination: Midpoint,
    pub destination_building: Building,
}

/// The footprint of `rect`.
pub open spec fn footprint_of(rect: Rect) -> Footprint {
    Footprint {
        center: rect.center_spec(),
        width: rect.width_spec() as i64,
        height: rect.height_spec() as i64,
    }
}

/// Row `i` of the catalogue: name, bounds and entrance. Every rectangle has
/// `min` below `max` on both axes.
pub open spec fn catalog_row(i: int) -> (Seq<char>, Rect, Rect) {
    if i == 0 {
        ("Bus Stop"@, rect(210, 0, 717, 90), rect(489, 91, 551, 111))
    } else if i == 1 {
        ("Conner's Ramen"@, rect(460, 250, 732, 440), rect(515, 240, 543, 248))
    } else if i == 2 {
        ("Pop and Pop Shop"@, rect(841, 249, 1191, 479), rect(903, 239, 994, 248))
    } else if i == 3 {
        ("The Gun Show"@, rect(1266, 249, 1494, 405), rect(1290, 240, 1310, 248))
    } else if i == 4 {
        ("Strip Mall"@, rect(1689, 0, 1920, 431), rect(1662, 164, 1688, 174))
    } else if i == 5 {
        ("XYZ Mart"@, rect(1701, 477, 1920, 1080), rect(1679, 919, 1700, 983))
    } else if i == 6 {
        ("Bub's Pub"@, rect(1094, 654, 1463, 905), rect(1215, 631, 1248, 653))
    } else if i == 7 {
        ("The Tower"@, rect(712, 654, 951, 1080), rect(792, 640, 856, 653))
    } else {
        ("Knight's Web Cafe"@, rect(459, 650, 606, 890), rect(512, 642, 537, 650))
    }
}

/// The number of rows in the catalogue.
pub open spec fn catalog_len() -> int {
    9
}

/// `buildings` is the catalogue, row by row.
pub open spec fn is_catalog(buildings: Seq<Building>) -> bool {
    &&& buildings.len() == catalog_len()
    &&& forall|i: int| 0 <= i < catalog_len() ==> (#[trigger] buildings[i]).is_row(i)
}

/// `placed` is what row `i` of the catalogue adds to the map.
pub open spec fn places_row(placed: Placement, i: int) -> bool {
    &&& placed.body == footprint_of(catalog_row(i).1)
    &&& placed.trigger == footprint_of(catalog_row(i).2)
    &&& placed.entrance.building_name@ == catalog_row(i).0
}

/// `init` was made for a building of the catalogue, walks to the centre of
/// its entrance, and has a number of sides within the range.
pub open spec fn heads_for_catalog(init: BystanderInit) -> bool {
    &&& MIN_SIDES <= init.side_count < SIDES_END
    &&& exists|i: int| 0 <= i < catalog_len() && init.heads_for_row(i)
}

impl Clone for Building {
    fn clone(&self) -> (copy: Self)
        ensures
            copy == *self,
    {
        Building { name: self.name.clone(), bounds: self.bounds, entrance: self.entrance }
    }
}

impl Building {
    /// The building has an entrance, bounds and entrance are well formed
    /// (`min` below `max` on both axes), and the entrance lies within
    /// `ENTRANCE_REACH` of the bounds: inside them, against them, or a step
    /// away.
    pub open spec fn valid(self) -> bool {
        match self.entrance {
            Some(e) => self.bounds.well_formed() && e.well_formed() && e.near(
                self.bounds,
                ENTRANCE_REACH as int,
            ),
            None => false,
        }
    }

    /// Bounds and entrance lie on the map, and the entrance covers less
    /// ground than the bounds.
    pub open spec fn on_map(self) -> bool {
        match self.entrance {
            Some(e) => self.bounds.within(MAP_WIDTH as int, MAP_HEIGHT as int) && e.within(
                MAP_WIDTH as int,
                MAP_HEIGHT as int,
            ) && e.area() < self.bounds.area(),
            None => false,
        }
    }

    /// The building is row `i` of the catalogue.
    pub open spec fn is_row(self, i: int) -> bool {
        &&& self.name@ == catalog_row(i).0
        &&& self.bounds == catalog_row(i).1
        &&& self.entrance == Some(catalog_row(i).2)
    }

    /// What `check` answers.
    pub open spec fn checked(self) -> Result<(), CatalogError> {
        match self.entrance {
            None => Err(CatalogError::MissingEntrance),
            Some(e) => if !self.bounds.well_formed() || !e.well_formed() {
                Err(CatalogError::MalformedRectangle)
            } else if e.near(self.bounds, ENTRANCE_REACH as int) {
                Ok(())
            } else {
                Err(CatalogError::DetachedEntrance)
            },
        }
    }

    pub fn new(name: &str, bounds: Rect, entrance: Option<Rect>) -> (building: Building)
        ensures
            building.name@ == name@,
            building.bounds == bounds,
            building.entrance == entrance,
    {
        Building { name: name.to_owned(), bounds, entrance }
    }

    /// Whether the building can be put on the map, and if not, why.
    pub fn check(&self) -> (verdict: Result<(), CatalogError>)
        ensures
            verdict == self.checked(),
            verdict is Ok <==> self.valid(),
    {
        match self.entrance {
            None => Err(CatalogError::MissingEntrance),
            Some(e) => if !self.bounds.is_well_formed() || !e.is_well_formed() {
                Err(CatalogError::MalformedRectangle)
            } else if e.is_near(&self.bounds, ENTRANCE_REACH) {
                Ok(())
            } else {
                Err(CatalogError::DetachedEntrance)
            },
        }
    }

    /// What the building adds to the map: a body over its bounds, and over
    /// its entrance a trigger that carries its name, both with positive
    /// extents. A building that fails `check` adds nothing.
    pub fn add_to_scene(&self) -> (placed: Result<Placement, CatalogError>)
        ensures
            match placed {
                Ok(p) => self.valid() && p.body == footprint_of(self.bounds) && p.trigger
                    == footprint_of(self.entrance->0) && p.entrance.building_name@ == self.name@
                    && p.body.width > 0 && p.body.height > 0 && p.trigger.width > 0
                    && p.trigger.height > 0,
                Err(e) => self.checked() == Err::<(), CatalogError>(e),
            },
    {
        match self.check() {
            Err(e) => Err(e),
            Ok(()) => {
                let door = self.entrance.unwrap();
                Ok(
                    Placement {
                        body: footprint(&self.bounds),
                        trigger: footprint(&door),
                        entrance: Entrance { building_name: self.name.clone() },
                    },
                )
            },
        }
    }
}

fn footprint(rect: &Rect) -> (f: Footprint)
    ensures
        f == footprint_of(*rect),
{
    Footprint { center: rect.center(), width: rect.width(), height: rect.height() }
}

fn row(name: &str, bounds: (i32, i32, i32, i32), door: (i32, i32, i32, i32)) -> (b: Building)
    ensures
        b.name@ == name@,
        b.bounds == rect(bounds.0, bounds.1, bounds.2, bounds.3),
        b.entrance == Some(rect(door.0, door.1, door.2, door.3)),
{
    Building::new(
        name,
        Rect::new(bounds.0, bounds.1, bounds.2, bounds.3),
        Some(Rect::new(door.0, door.1, door.2, door.3)),
    )
}

/// The catalogue: nine buildings, each with its entrance.
pub fn get_buildings() -> (buildings: Vec<Building>)
    ensures
        is_catalog(buildings@),
        forall|i: int|
            0 <= i < buildings.len() ==> (#[trigger] buildings[i]).valid() && buildings[i].on_map(),
        forall|i: int, j: int|
            0 <= i < buildings.len() && 0 <= j < buildings.len() && i != j ==> (
            #[trigger] buildings[i]).name@ != (#[trigger] buildings[j]).name@,
{
    let mut buildings: Vec<Building> = Vec::new();
    buildings.push(row("Bus Stop", (210, 0, 717, 90), (489, 91, 551, 111)));
    buildings.push(row("Conner's Ramen", (460, 250, 732, 440), (515, 240, 543, 248)));
    buildings.push(row("Pop and Pop Shop", (841, 249, 1191, 479), (903, 239, 994, 248)));
    buildings.push(row("The Gun Show", (1266, 249, 1494, 405), (1290, 240, 1310, 248)));
    buildings.push(row("Strip Mall", (1689, 0, 1920, 431), (1662, 164, 1688, 174)));
    buildings.push(row("XYZ Mart", (1701, 477, 1920, 1080), (1679, 919, 1700, 983)));
    buildings.push(row("Bub's Pub", (1094, 654, 1463, 905), (1215, 631, 1248, 653)));
    buildings.push(row("The Tower", (712, 654, 951, 1080), (792, 640, 856, 653)));
    buildings.push(row("Knight's Web Cafe", (459, 650, 606, 890), (512, 642, 537, 650)));
    proof {
        assert(buildings@[0].is_row(0));
        assert(buildings@[1].is_row(1));
        assert(buildings@[2].is_row(2));
        assert(buildings@[3].is_row(3));
        assert(buildings@[4].is_row(4));
        assert(buildings@[5].is_row(5));
        assert(buildings@[6].is_row(6));
        assert(buildings@[7].is_row(7));
        assert(buildings@[8].is_row(8));
        lemma_catalog_is_sound(buildings@);
    }
    buildings
}

/// No two rows of the catalogue share a name.
pub proof fn lemma_row_names_differ(i: int, j: int)
    requires
        0 <= i < catalog_len(),
        0 <= j < catalog_len(),
        i != j,
    ensures
        catalog_row(i).0 != catalog_row(j).0,
{
    reveal_strlit("Bus Stop");
    reveal_strlit("Conner's Ramen");
    reveal_strlit("Pop and Pop Shop");
    reveal_strlit("The Gun Show");
    reveal_strlit("Strip Mall");
    reveal_strlit("XYZ Mart");
    reveal_strlit("Bub's Pub");
    reveal_strlit("The Tower");
    reveal_strlit("Knight's Web Cafe");
    let a = catalog_row(i).0;
    let b = catalog_row(j).0;
    assert(a.len() != b.len() || a[0] != b[0]);
}

/// Every row of the catalogue is valid and lies on the map: bounds and
/// entrance have `min` below `max` on both axes, the entrance is at its
/// building and smaller than it. No two rows share a name.
pub proof fn lemma_catalog_is_sound(buildings: Seq<Building>)
    requires
        is_catalog(buildings),
    ensures
        forall|i: int|
            0 <= i < buildings.len() ==> (#[trigger] buildings[i]).valid() && buildings[i].on_map(),
        forall|i: int, j: int|
            0 <= i < buildings.len() && 0 <= j < buildings.len() && i != j ==> (
            #[trigger] buildings[i]).name@ != (#[trigger] buildings[j]).name@,
{
    assert forall|i: int| 0 <= i < buildings.len() implies (#[trigger] buildings[i]).valid()
        && buildings[i].on_map() by {
        assert(buildings[i].is_row(i));
        let (ew, eh) = (catalog_row(i).2.width_spec(), catalog_row(i).2.height_spec());
        let (bw, bh) = (catalog_row(i).1.width_spec(), catalog_row(i).1.height_spec());
        assert(0 < ew <= bw && 0 < eh < bh);
        assert(ew * eh < bw * bh) by (nonlinear_arith)
            requires
                0 < ew <= bw,
                0 < eh < bh,
        ;
    }
    assert forall|i: int, j: int|
        0 <= i < buildings.len() && 0 <= j < buildings.len() && i != j implies (
    #[trigger] buildings[i]).name@ != (#[trigger] buildings[j]).name@ by {
        assert(buildings[i].is_row(i));
        assert(buildings[j].is_row(j));
        lemma_row_names_differ(i, j);
    }
}

/// Each building of the catalogue has one door on the map and no more:
/// among what the catalogue places, the trigger of its own row carries its
/// name, and no other trigger does.
pub proof fn lemma_one_door_per_building(placed: Seq<Placement>, building: Building, i: int)
    requires
        placed.len() == catalog_len(),
        forall|k: int| 0 <= k < placed.len() ==> places_row(#[trigger] placed[k], k),
        0 <= i < catalog_len(),
        building.is_row(i),
    ensures
        forall|k: int|
            0 <= k < placed.len() ==> ((#[trigger] placed[k]).entrance.leads_to(building.name@)
                <==> k == i),
{
    assert forall|k: int| 0 <= k < placed.len() implies ((#[trigger] placed[k]).entrance.leads_to(
        building.name@,
    ) <==> k == i) by {
        assert(places_row(placed[k], k));
        if k != i {
            lemma_row_names_differ(k, i);
        }
    }
}

impl PlayerInit {
    /// The first of `places` is where the actor starts, the second where it
    /// has to go. With fewer than two places there is no session.
    pub fn from_places(places: &Vec<Building>) -> (init: Option<PlayerInit>)
        ensures
            init is Some <==> places.len() >= 2,
            init is Some ==> init->0.origin == places[0] && init->0.destination == places[1],
    {
        if places.len() < 2 {
            None
        } else {
            Some(PlayerInit { origin: places[0].clone(), destination: places[1].clone() })
        }
    }
}

/// Two different buildings of the catalogue, drawn at random: the first is
/// the origin, the second the destination.
pub fn player_init() -> (init: PlayerInit)
    ensures
        exists|i: int, j: int|
            0 <= i < catalog_len() && 0 <= j < catalog_len() && i != j && init.origin.is_row(i)
                && init.destination.is_row(j),
        init.origin.name@ != init.destination.name@,
        init.origin.valid(),
        init.destination.valid(),
{
    let binding = get_buildings();
    let places = choose_multiple(&binding, 2);
    proof {
        let from = choose|from: Seq<int>| drawn_from(binding@, places@, from);
        assert(binding@[from[0]].is_row(from[0]));
        assert(binding@[from[1]].is_row(from[1]));
    }
    PlayerInit::from_places(&places).unwrap()
}

impl BystanderInit {
    /// `self` heads for row `i` of the catalogue.
    pub open spec fn heads_for_row(self, i: int) -> bool {
        &&& self.destination_building.is_row(i)
        &&& self.destination == catalog_row(i).2.center_spec()
    }

    /// A bystander with `side_count` sides that walks to the centre of the
    /// entrance of `building`. A building without an entrance gives no
    /// bystander.
    pub fn towards(building: Building, side_count: usize) -> (init: Result<
        BystanderInit,
        CatalogError,
    >)
        ensures
            match init {
                Ok(b) => building.entrance is Some && b.side_count == side_count
                    && b.destination_building == building && b.destination
                    == building.entrance->0.center_spec(),
                Err(e) => building.entrance is None && e == CatalogError::MissingEntrance,
            },
    {
        match building.entrance {
            None => Err(CatalogError::MissingEntrance),
            Some(entrance) => Ok(
                BystanderInit {
                    side_count,
                    destination: entrance.center(),
                    destination_building: building,
                },
            ),
        }
    }
}

/// A bystander for a building of the catalogue drawn at random, with a
/// number of sides drawn from `MIN_SIDES` up to, not including, `SIDES_END`.
pub fn generate_bystander() -> (init: BystanderInit)
    ensures
        heads_for_catalog(init),
        init.destination_building.valid(),
{
    let side_count = gen_range(MIN_SIDES, SIDES_END);
    let binding = get_buildings();
    let destination_building = choose_one(&binding).unwrap();
    let ghost i = choose|i: int| 0 <= i < binding.len() && destination_building == binding[i];
    proof {
        assert(binding@[i].is_row(i));
    }
    let init = BystanderInit::towards(destination_building, side_count).unwrap();
    proof {
        assert(init.heads_for_row(i));
    }
    init
}

/// What the catalogue adds to the map: for each building, in the order of
/// the catalogue, its body and the trigger at its door.
pub fn create_buildings() -> (placed: Vec<Placement>)
    ensures
        placed.len() == catalog_len(),
        forall|i: int| 0 <= i < placed.len() ==> places_row(#[trigger] placed[i], i),
{
    let buildings = get_buildings();
    let mut placed: Vec<Placement> = Vec::new();
    let mut i: usize = 0;
    while i < buildings.len()
        invariant
            i <= buildings.len(),
            is_catalog(buildings@),
            forall|k: int| 0 <= k < buildings.len() ==> (#[trigger] buildings[k]).valid(),
            placed.len() == i,
            forall|k: int| 0 <= k < placed.len() ==> places_row(#[trigger] placed[k], k),
        decreases buildings.len() - i,
    {
        assert(buildings[i as int].is_row(i as int));
        placed.push(buildings[i].add_to_scene().unwrap());
        i = i + 1;
    }
    placed
}

/// The bystanders of a new session: `count` of them, each made by
/// `generate_bystander`.
pub fn create_bystanders(count: u32) -> (crowd: Vec<BystanderInit>)
    ensures
        crowd.len() == count,
        forall|k: int| 0 <= k < crowd.len() ==> heads_for_catalog(#[trigger] crowd[k]),
{
    let mut crowd: Vec<BystanderInit> = Vec::new();
    let mut made: u32 = 0;
    while made < count
        invariant
            made <= count,
            crowd.len() == made,
            forall|k: int| 0 <= k < crowd.len() ==> heads_for_catalog(#[trigger] crowd[k]),
        decreases count - made,
    {
        crowd.push(generate_bystander());
        made = made + 1;
    }
    crowd
}

} // verus!
