use pumpkin::data::position::BlockPos;
use pumpkin::entity::passive::villager::data::{
    get_food_points, villager_type_from_biome_id, Item, VillagerData, VillagerProfession,
    VillagerType, BREEDING_FOOD_THRESHOLD,
};
use pumpkin::entity::passive::villager::poi::{
    is_acquirable_job_site_poi, is_home_poi, HeldTickets, PoiEntry, PoiStorage, PoiType,
};
use pumpkin::entity::passive::villager::{
    Stack, Threat, Trade, TradeItem, TradeSet, VillagerEntity, VillagerGoal, WALKING_SPEED,
};

fn at(x: i32, y: i32, z: i32) -> BlockPos {
    BlockPos { x, y, z }
}

fn trade(item: u16) -> Trade {
    Trade {
        wants: TradeItem { item, count: 3 },
        wants_b: None,
        gives: TradeItem {
            item: item + 100,
            count: 257,
        },
        max_uses: 16,
        xp: 2,
        price_multiplier: 0,
    }
}

#[test]
fn villager_clothing_follows_spawn_biome() {
    assert_eq!(
        villager_type_from_biome_id("minecraft:desert"),
        VillagerType::Desert
    );
    assert_eq!(
        villager_type_from_biome_id("minecraft:jungle"),
        VillagerType::Jungle
    );
    assert_eq!(
        villager_type_from_biome_id("minecraft:snowy_plains"),
        VillagerType::Snow
    );
    assert_eq!(
        villager_type_from_biome_id("minecraft:plains"),
        VillagerType::Plains
    );
    assert_eq!(villager_type_from_biome_id("taiga"), VillagerType::Taiga);
}

#[test]
fn clothing_of_the_other_biomes() {
    assert_eq!(
        villager_type_from_biome_id("minecraft:savanna"),
        VillagerType::Savanna
    );
    assert_eq!(
        villager_type_from_biome_id("mangrove_swamp"),
        VillagerType::Swamp
    );
    assert_eq!(
        villager_type_from_biome_id("other:desert"),
        VillagerType::Plains
    );
}

#[test]
fn food_points_match_vanilla_values() {
    assert_eq!(get_food_points(&Item::Bread), 4);
    assert_eq!(get_food_points(&Item::Carrot), 1);
    assert_eq!(get_food_points(&Item::Potato), 1);
    assert_eq!(get_food_points(&Item::Beetroot), 1);
    assert_eq!(get_food_points(&Item::Other(1)), 0);
}

#[test]
fn villager_data_round_trips_type_profession_and_level() {
    let data = VillagerData::new(VillagerType::Desert, VillagerProfession::Farmer, 2);
    assert_eq!(data.type_enum(), VillagerType::Desert);
    assert_eq!(data.profession_enum(), VillagerProfession::Farmer);
    assert_eq!(data.level.0, 2);
}

#[test]
fn a_new_villager_has_empty_hands() {
    let villager = VillagerEntity::new("minecraft:snowy_taiga");
    assert_eq!(villager.villager_data.type_enum(), VillagerType::Snow);
    assert_eq!(
        villager.villager_data.profession_enum(),
        VillagerProfession::Unemployed
    );
    assert_eq!(villager.villager_data.level.0, 1);
    assert_eq!(villager.inventory.len(), 8);
    assert_eq!(villager.merchant_inventory.len(), 3);
    assert!(villager.gossips.is_empty());
    assert_eq!(villager.count_food_points_in_inventory(), 0);
    assert!(villager.offers.is_empty());
    assert_eq!(villager.navigator.can_open_doors, Some(true));
    assert!(villager.navigator.is_idle);
}

#[test]
fn a_villager_keeps_away_from_threats() {
    let goals = VillagerEntity::goals();
    assert_eq!(goals.len(), 17);
    assert_eq!(goals[0], (0, VillagerGoal::Swim));
    assert_eq!(
        goals[2],
        (
            1,
            VillagerGoal::Avoid {
                threat: Threat::Zombie,
                blocks: 8,
                walk_speed: WALKING_SPEED,
                sprint_speed: WALKING_SPEED
            }
        )
    );
    assert_eq!(
        goals[10],
        (
            1,
            VillagerGoal::Avoid {
                threat: Threat::Vex,
                blocks: 12,
                walk_speed: WALKING_SPEED,
                sprint_speed: WALKING_SPEED
            }
        )
    );
    assert_eq!(WALKING_SPEED, 0.5f64.to_bits() as i64);
    assert_eq!(goals[11], (2, VillagerGoal::OpenDoors { closes: true }));
    assert_eq!(goals[16], (5, VillagerGoal::RandomLookAround));
}

#[test]
fn eating_stops_when_there_is_enough() {
    let mut villager = VillagerEntity::new("plains");
    villager.food_level = 3;
    villager.inventory[0] = Stack {
        item: Item::Carrot,
        count: 2,
    };
    villager.inventory[1] = Stack {
        item: Item::Other(9),
        count: 5,
    };
    villager.inventory[2] = Stack {
        item: Item::Bread,
        count: 10,
    };
    let before = villager.food_level + villager.count_food_points_in_inventory();
    villager.eat_until_full();
    assert_eq!(villager.food_level, 13);
    assert_eq!(villager.inventory[0].count, 0);
    assert_eq!(villager.inventory[1].count, 5);
    assert_eq!(
        villager.inventory[2],
        Stack {
            item: Item::Bread,
            count: 8
        }
    );
    assert_eq!(
        villager.food_level + villager.count_food_points_in_inventory(),
        before
    );
    assert!(villager.food_level >= BREEDING_FOOD_THRESHOLD);
    villager.eat_until_full();
    assert_eq!(villager.food_level, 13);
}

#[test]
fn eating_stops_when_there_is_no_more() {
    let mut villager = VillagerEntity::new("plains");
    villager.inventory[7] = Stack {
        item: Item::Potato,
        count: 5,
    };
    villager.eat_until_full();
    assert_eq!(villager.food_level, 5);
    assert_eq!(villager.count_food_points_in_inventory(), 0);
}

#[test]
fn another_profession_brings_other_trades() {
    let mut villager = VillagerEntity::new("plains");
    let set = |profession: VillagerProfession, level: i32| {
        assert_eq!(profession, VillagerProfession::Farmer);
        if level == 1 {
            Some(TradeSet {
                trades: vec![trade(1), trade(2), trade(3)],
                amount: 2,
            })
        } else {
            None
        }
    };
    let farmer = VillagerData::new(VillagerType::Plains, VillagerProfession::Farmer, 1);
    assert!(villager.set_villager_data(farmer, &set));
    assert_eq!(villager.offers.len(), 2);
    assert_ne!(
        villager.offers[0].base_cost_a.item,
        villager.offers[1].base_cost_a.item
    );
    for offer in &villager.offers {
        assert!((1..=3).contains(&offer.base_cost_a.item));
        assert_eq!(offer.output.item, offer.base_cost_a.item + 100);
        assert_eq!(offer.output.count, 1);
        assert_eq!(offer.max_uses, 16);
        assert_eq!(offer.uses, 0);
    }
    let level_two = VillagerData::new(VillagerType::Plains, VillagerProfession::Farmer, 2);
    assert!(!villager.set_villager_data(level_two, &set));
    assert_eq!(villager.offers.len(), 2);
    villager.add_trades(VillagerProfession::Farmer, 2, &set);
    assert_eq!(villager.offers.len(), 2);
    villager.add_trades(VillagerProfession::Farmer, 1, &set);
    assert_eq!(villager.offers.len(), 4);
    let screen = villager.open_trading_screen(9);
    assert_eq!(screen.window_id, 9);
    assert_eq!(screen.level, 2);
    assert_eq!(screen.offers, villager.offers);
    villager.generate_trades(VillagerProfession::Farmer, 5, &set);
    assert!(villager.offers.is_empty());
}

#[test]
fn home_predicate_only_accepts_the_home_type() {
    assert!(is_home_poi(&PoiType::Home));
    assert!(!is_home_poi(&PoiType::Meeting));
    assert!(!is_home_poi(&PoiType::Farmer));
    assert!(!is_home_poi(&PoiType::NetherPortal));
}

#[test]
fn job_site_predicate_follows_the_acquirable_job_site_tag() {
    assert!(is_acquirable_job_site_poi(&PoiType::Farmer));
    assert!(is_acquirable_job_site_poi(&PoiType::Weaponsmith));
    assert!(!is_acquirable_job_site_poi(&PoiType::Home));
    assert!(!is_acquirable_job_site_poi(&PoiType::Meeting));
    assert!(!is_acquirable_job_site_poi(&PoiType::Beehive));
}

#[test]
fn claimable_poi_types_all_have_a_single_ticket() {
    assert_eq!(PoiType::Home.max_tickets(), 1);
    for poi_type in PoiType::all() {
        if poi_type.acquirable_job_site() {
            assert_eq!(poi_type.max_tickets(), 1, "{poi_type:?}");
        }
    }
}

#[test]
fn every_village_poi_type_can_actually_be_occupied() {
    for poi_type in PoiType::all() {
        if poi_type.village() {
            assert!(poi_type.max_tickets() > 0, "{poi_type:?}");
        }
    }
}

#[test]
fn held_ticket_flags_start_clear_and_track_each_poi_independently() {
    let mut held = HeldTickets::default();
    assert!(!held.home());
    assert!(!held.job_site());

    held.set_home(true);
    assert!(held.home());
    assert!(!held.job_site());

    held.set_job_site(true);
    held.set_home(false);
    assert!(!held.home());
    assert!(held.job_site());
}

#[test]
fn a_single_ticket_is_exclusive_and_returns_on_release() {
    let mut bed = PoiEntry::new(at(0, 64, 0), PoiType::Home);
    assert!(!bed.is_occupied());
    assert!(bed.has_space());

    assert!(bed.acquire_ticket());
    assert!(bed.is_occupied());
    assert!(!bed.acquire_ticket());
    assert!(!bed.has_space());

    assert!(bed.release_ticket());
    assert!(bed.has_space());
    assert!(!bed.is_occupied());
    assert!(!bed.release_ticket());
}

#[test]
fn two_villagers_do_not_share_a_bed() {
    let bed = at(4, 64, 4);
    let mut storage = PoiStorage {
        entries: vec![PoiEntry::new(bed, PoiType::Home)],
    };
    let mut first = VillagerEntity::new("plains");
    let mut second = VillagerEntity::new("plains");
    assert!(first.acquire_home(&mut storage, &vec![bed]));
    assert_eq!(first.home_pos, Some(bed));
    assert!(!second.acquire_home(&mut storage, &vec![bed]));
    assert_eq!(second.home_pos, None);
    first.release_all_pois(&mut storage);
    assert_eq!(first.home_pos, None);
    assert!(second.acquire_home(&mut storage, &vec![bed]));
}

#[test]
fn a_villager_takes_the_first_free_job_site() {
    let taken = at(1, 64, 1);
    let free = at(2, 64, 2);
    let mut storage = PoiStorage {
        entries: vec![
            PoiEntry::new(taken, PoiType::Farmer),
            PoiEntry::new(free, PoiType::Mason),
        ],
    };
    assert!(storage.acquire(&taken));
    let mut villager = VillagerEntity::new("plains");
    assert_eq!(
        villager.acquire_job_site(&mut storage, &vec![taken, free]),
        Some(free)
    );
    assert_eq!(villager.job_site, Some(free));
    villager.clear_job_site(&mut storage);
    assert_eq!(villager.job_site, None);
    assert!(storage.acquire(&free));
}
