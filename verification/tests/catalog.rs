use pursuit::generation::{
    create_buildings, create_bystanders, generate_bystander, get_buildings, player_init, Building,
    BystanderInit, CatalogError, PlayerInit, ENTRANCE_REACH, MAP_HEIGHT, MAP_WIDTH,
};
use pursuit::geometry::{Midpoint, Point, Rect};

fn names() -> Vec<String> {
    get_buildings().iter().map(|b| b.name.clone()).collect()
}

#[test]
fn catalog_has_nine_named_buildings() {
    assert_eq!(
        names(),
        vec![
            "Bus Stop",
            "Conner's Ramen",
            "Pop and Pop Shop",
            "The Gun Show",
            "Strip Mall",
            "XYZ Mart",
            "Bub's Pub",
            "The Tower",
            "Knight's Web Cafe",
        ]
    );
}

#[test]
fn catalog_rows_hold_their_rectangles() {
    let buildings = get_buildings();
    assert_eq!(buildings[0].bounds, Rect::new(210, 0, 717, 90));
    assert_eq!(buildings[0].entrance, Some(Rect::new(489, 91, 551, 111)));
    assert_eq!(buildings[4].bounds, Rect::new(1689, 0, 1920, 431));
    assert_eq!(buildings[4].entrance, Some(Rect::new(1662, 164, 1688, 174)));
    assert_eq!(buildings[8].bounds, Rect::new(459, 650, 606, 890));
    assert_eq!(buildings[8].entrance, Some(Rect::new(512, 642, 537, 650)));
}

#[test]
fn catalog_names_are_distinct() {
    let all = names();
    for i in 0..all.len() {
        for j in 0..all.len() {
            if i != j {
                assert_ne!(all[i], all[j]);
            }
        }
    }
}

#[test]
fn every_catalog_building_passes_check() {
    for building in get_buildings() {
        assert_eq!(building.check(), Ok(()));
    }
}

#[test]
fn catalog_rectangles_are_well_formed_and_on_the_map() {
    for b in get_buildings() {
        let e = b.entrance.unwrap();
        for r in [b.bounds, e] {
            assert!(r.is_well_formed());
            assert!(r.min.x < r.max.x && r.min.y < r.max.y);
            assert!(0 <= r.min.x && r.max.x <= MAP_WIDTH);
            assert!(0 <= r.min.y && r.max.y <= MAP_HEIGHT);
        }
        assert!(e.width() * e.height() < b.bounds.width() * b.bounds.height());
    }
}

#[test]
fn well_formed_needs_both_axes() {
    assert!(Rect::new(0, 0, 1, 1).is_well_formed());
    assert!(!Rect::new(0, 0, 0, 1).is_well_formed());
    assert!(!Rect::new(0, 0, 1, 0).is_well_formed());
    assert!(!Rect::new(2, 0, 1, 5).is_well_formed());
    assert!(!Rect::new(0, 5, 1, 2).is_well_formed());
}

#[test]
fn building_with_swapped_corners_is_rejected() {
    let door = Building::new("Shed", Rect::new(0, 0, 10, 10), Some(Rect::new(0, 12, 2, 11)));
    assert_eq!(door.check(), Err(CatalogError::MalformedRectangle));
    assert_eq!(door.add_to_scene().unwrap_err(), CatalogError::MalformedRectangle);
    let bounds = Building::new("Shed", Rect::new(10, 0, 0, 10), Some(Rect::new(0, 11, 2, 12)));
    assert_eq!(bounds.check(), Err(CatalogError::MalformedRectangle));
    let flat = Building::new("Shed", Rect::new(0, 0, 10, 10), Some(Rect::new(0, 11, 2, 11)));
    assert_eq!(flat.check(), Err(CatalogError::MalformedRectangle));
    let far_and_swapped =
        Building::new("Shed", Rect::new(0, 0, 10, 10), Some(Rect::new(50, 12, 52, 11)));
    assert_eq!(far_and_swapped.check(), Err(CatalogError::MalformedRectangle));
}

#[test]
fn placed_buildings_have_positive_extents() {
    for p in create_buildings() {
        assert!(p.body.width > 0 && p.body.height > 0);
        assert!(p.trigger.width > 0 && p.trigger.height > 0);
    }
}

#[test]
fn rect_measures() {
    let r = Rect::new(903, 239, 994, 248);
    assert_eq!(r.min, Point { x: 903, y: 239 });
    assert_eq!(r.max, Point { x: 994, y: 248 });
    assert_eq!(r.width(), 91);
    assert_eq!(r.height(), 9);
    assert_eq!(r.center(), Midpoint { twice_x: 1897, twice_y: 487 });
}

#[test]
fn swapped_corners_give_negative_extent() {
    let r = Rect::new(5, 9, 1, 2);
    assert!(!r.is_well_formed());
    assert_eq!(r.width(), -4);
    assert_eq!(r.height(), -7);
    assert_eq!(r.center(), Midpoint { twice_x: 6, twice_y: 11 });
}

#[test]
fn rect_measures_at_the_limits() {
    let r = Rect::new(i32::MIN, i32::MAX, i32::MAX, i32::MIN);
    assert_eq!(r.width(), 4294967295);
    assert_eq!(r.height(), -4294967295);
    assert_eq!(r.center(), Midpoint { twice_x: -1, twice_y: -1 });
    assert!(r.is_near(&Rect::new(0, 0, 0, 0), u32::MAX));
}

#[test]
fn nearness_counts_the_gap() {
    let bounds = Rect::new(460, 250, 732, 440);
    let door = Rect::new(515, 240, 543, 248);
    assert!(door.is_near(&bounds, 2));
    assert!(bounds.is_near(&door, 2));
    assert!(!door.is_near(&bounds, 1));
    assert!(!bounds.is_near(&door, 1));
    let inside = Rect::new(500, 300, 510, 310);
    assert!(inside.is_near(&bounds, 0));
    let swapped = Rect::new(543, 248, 515, 240);
    assert!(swapped.is_near(&bounds, 2));
    assert!(!swapped.is_near(&bounds, 1));
}

#[test]
fn building_without_entrance_is_rejected() {
    let b = Building::new("Bus", Rect::new(50, 0, 100, 215), None);
    assert_eq!(b.check(), Err(CatalogError::MissingEntrance));
    assert_eq!(b.add_to_scene().unwrap_err(), CatalogError::MissingEntrance);
    assert_eq!(
        BystanderInit::towards(b, 4).unwrap_err(),
        CatalogError::MissingEntrance
    );
}

#[test]
fn building_with_a_far_entrance_is_rejected() {
    assert_eq!(ENTRANCE_REACH, 2);
    let b = Building::new("Shed", Rect::new(0, 0, 10, 10), Some(Rect::new(13, 0, 15, 5)));
    assert_eq!(b.check(), Err(CatalogError::DetachedEntrance));
    assert_eq!(b.add_to_scene().unwrap_err(), CatalogError::DetachedEntrance);
    let close = Building::new("Shed", Rect::new(0, 0, 10, 10), Some(Rect::new(12, 0, 15, 5)));
    assert_eq!(close.check(), Ok(()));
}

#[test]
fn add_to_scene_gives_body_and_trigger() {
    let b = Building::new(
        "Pop and Pop Shop",
        Rect::new(841, 249, 1191, 479),
        Some(Rect::new(903, 239, 994, 248)),
    );
    let placed = b.add_to_scene().unwrap();
    assert_eq!(placed.body.width, 350);
    assert_eq!(placed.body.height, 230);
    assert_eq!(placed.body.center, Midpoint { twice_x: 2032, twice_y: 728 });
    assert_eq!(placed.trigger.width, 91);
    assert_eq!(placed.trigger.height, 9);
    assert_eq!(placed.trigger.center, Midpoint { twice_x: 1897, twice_y: 487 });
    assert_eq!(placed.entrance.building_name, "Pop and Pop Shop");
}

#[test]
fn create_buildings_places_the_whole_catalog() {
    let placed = create_buildings();
    let buildings = get_buildings();
    assert_eq!(placed.len(), 9);
    for (p, b) in placed.iter().zip(buildings.iter()) {
        assert_eq!(p.entrance.building_name, b.name);
        assert_eq!(p.body.center, b.bounds.center());
        assert_eq!(p.body.width, b.bounds.width());
        assert_eq!(p.trigger.center, b.entrance.unwrap().center());
        assert_eq!(p.trigger.height, b.entrance.unwrap().height());
    }
    assert_eq!(placed[4].trigger.height, 10);
    assert_eq!(placed[4].trigger.center, Midpoint { twice_x: 3350, twice_y: 338 });
}

#[test]
fn clone_keeps_a_building() {
    let b = Building::new("The Tower", Rect::new(712, 654, 951, 1080), Some(Rect::new(792, 640, 856, 653)));
    let c = b.clone();
    assert_eq!(c.name, "The Tower");
    assert_eq!(c.bounds, b.bounds);
    assert_eq!(c.entrance, b.entrance);
}

#[test]
fn from_places_takes_the_first_two() {
    let a = Building::new("A", Rect::new(0, 0, 10, 10), Some(Rect::new(0, 11, 2, 12)));
    let b = Building::new("B", Rect::new(20, 0, 30, 10), Some(Rect::new(20, 11, 22, 12)));
    let c = Building::new("C", Rect::new(40, 0, 50, 10), None);
    let init = PlayerInit::from_places(&vec![b, a, c]).unwrap();
    assert_eq!(init.origin.name, "B");
    assert_eq!(init.origin.bounds, Rect::new(20, 0, 30, 10));
    assert_eq!(init.destination.name, "A");
    assert_eq!(init.destination.entrance, Some(Rect::new(0, 11, 2, 12)));
}

#[test]
fn from_places_needs_two() {
    let a = Building::new("A", Rect::new(0, 0, 10, 10), None);
    assert!(PlayerInit::from_places(&vec![a]).is_none());
    assert!(PlayerInit::from_places(&Vec::new()).is_none());
}

#[test]
fn player_init_draws_two_different_catalog_buildings() {
    let all = names();
    for _ in 0..200 {
        let init = player_init();
        assert_ne!(init.origin.name, init.destination.name);
        assert!(all.contains(&init.origin.name));
        assert!(all.contains(&init.destination.name));
        assert_eq!(init.origin.check(), Ok(()));
        assert_eq!(init.destination.check(), Ok(()));
    }
}

#[test]
fn player_init_does_not_always_start_at_the_first_rows() {
    let all = names();
    let mut moved = false;
    for _ in 0..400 {
        let init = player_init();
        if init.origin.name != all[0] || init.destination.name != all[1] {
            moved = true;
        }
    }
    assert!(moved);
}

#[test]
fn towards_aims_at_the_entrance_centre() {
    let b = Building::new(
        "Conner's Ramen",
        Rect::new(460, 250, 732, 440),
        Some(Rect::new(515, 240, 543, 248)),
    );
    let init = BystanderInit::towards(b, 6).unwrap();
    assert_eq!(init.side_count, 6);
    assert_eq!(init.destination, Midpoint { twice_x: 1058, twice_y: 488 });
    assert_eq!(init.destination_building.name, "Conner's Ramen");
}

#[test]
fn generated_bystanders_head_for_the_catalog() {
    let buildings = get_buildings();
    for _ in 0..200 {
        let init = generate_bystander();
        assert!(3 <= init.side_count && init.side_count < 8);
        let row = buildings
            .iter()
            .find(|b| b.name == init.destination_building.name)
            .unwrap();
        assert_eq!(init.destination_building.bounds, row.bounds);
        assert_eq!(init.destination_building.entrance, row.entrance);
        assert_eq!(init.destination, row.entrance.unwrap().center());
    }
}

#[test]
fn generated_bystanders_vary() {
    let first = get_buildings()[0].name.clone();
    let mut other_sides = false;
    let mut other_building = false;
    for _ in 0..400 {
        let init = generate_bystander();
        if init.side_count != 3 {
            other_sides = true;
        }
        if init.destination_building.name != first {
            other_building = true;
        }
    }
    assert!(other_sides);
    assert!(other_building);
}

#[test]
fn create_bystanders_makes_the_count_asked_for() {
    assert_eq!(create_bystanders(0).len(), 0);
    assert_eq!(create_bystanders(4).len(), 4);
    assert_eq!(create_bystanders(5).len(), 5);
}
