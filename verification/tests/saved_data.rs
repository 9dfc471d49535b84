use pumpkin::data::effect::{Effect, StatusEffect};
use pumpkin::data::entity_type::{EntityType, GameMode};
use pumpkin::data::nbt::{Held, NbtCompound, NbtTag, StackId};
use pumpkin::data::player_server::ServerPlayerData;
use pumpkin::data::position::BlockPos;
use pumpkin::entity::living::LivingEntity;
use pumpkin::entity::player::nbt::{
    EnderChestInventory, Player, PlayerInventory, RespawnPoint, SavedEquipment,
};
use pumpkin::server::player::{IpAddr, OnlinePlayer, Server, World};

fn rank32(number: f32) -> i32 {
    let bits = (number.abs().to_bits()) as i32;
    if number < 0.0 {
        -bits
    } else {
        bits
    }
}

fn dimensions() -> Vec<String> {
    vec![
        "minecraft:overworld".to_string(),
        "minecraft:the_nether".to_string(),
        "minecraft:the_end".to_string(),
    ]
}

fn player() -> Player {
    Player {
        experience_points: 7,
        gamemode: GameMode::Adventure,
        previous_gamemode: Some(GameMode::Creative),
        has_played_before: true,
        dimension: 1,
        respawn_point: Some(RespawnPoint {
            dimension: 2,
            position: BlockPos { x: 1, y: -2, z: 3 },
            force: true,
        }),
        enchantment_seed: -99,
    }
}

fn blank() -> Player {
    Player {
        experience_points: 0,
        gamemode: GameMode::Survival,
        previous_gamemode: None,
        has_played_before: false,
        dimension: 0,
        respawn_point: None,
        enchantment_seed: 0,
    }
}

fn zombie() -> LivingEntity {
    LivingEntity::new(1, EntityType::Zombie, &vec![], 20)
}

fn poison() -> Effect {
    Effect {
        effect_type: StatusEffect::Poison,
        duration: 40,
        amplifier: 1,
        ambient: true,
        show_particles: false,
        show_icon: true,
        blend: false,
    }
}

#[test]
fn the_first_value_under_a_name_stays() {
    let mut nbt = NbtCompound::new();
    nbt.put_int("a", 1);
    nbt.put_int("a", 2);
    nbt.put_bool("b", true);
    nbt.put_string("c", "text");
    assert_eq!(nbt.get_int("a"), Some(1));
    assert_eq!(nbt.get_byte("b"), Some(1));
    assert_eq!(nbt.get_bool("b"), Some(true));
    assert_eq!(nbt.get_string("c"), Some(&"text".to_string()));
    assert_eq!(nbt.get_int("b"), None);
    assert_eq!(nbt.get_int("d"), None);
}

#[test]
fn a_living_entity_comes_back() {
    let mut entity = zombie();
    entity.health = rank32(13.5);
    entity.absorption = rank32(2.0);
    entity.fall_distance = rank32(1.25);
    entity.active_effects = vec![poison()];
    let mut nbt = NbtCompound::new();
    entity.write_nbt(&mut nbt);
    assert_eq!(nbt.get_float("Health"), Some(rank32(13.5)));
    let mut other = zombie();
    other.read_nbt(&nbt, rank32(4.0));
    assert_eq!(other.health, rank32(13.5));
    assert_eq!(other.absorption, rank32(2.0));
    assert_eq!(other.fall_distance, rank32(1.25));
    assert_eq!(
        other.get_effect(StatusEffect::Poison),
        Some(Effect {
            blend: true,
            ..poison()
        })
    );
}

#[test]
fn absorption_is_kept_within_bounds() {
    let mut entity = zombie();
    entity.absorption = rank32(9.0);
    let mut nbt = NbtCompound::new();
    entity.write_nbt(&mut nbt);
    let mut other = zombie();
    other.read_nbt(&nbt, rank32(4.0));
    assert_eq!(other.absorption, rank32(4.0));
    entity.absorption = rank32(-3.0);
    let mut nbt = NbtCompound::new();
    entity.write_nbt(&mut nbt);
    other.read_nbt(&nbt, rank32(4.0));
    assert_eq!(other.absorption, 0);
}

#[test]
fn a_dead_entity_does_not_fall_again() {
    let mut entity = zombie();
    entity.fall_distance = rank32(30.0);
    entity.dead = true;
    let mut nbt = NbtCompound::new();
    entity.write_nbt(&mut nbt);
    assert_eq!(nbt.get_float("fall_distance"), Some(0));
    assert!(nbt.get("active_effects").is_none());
    let mut nbt = NbtCompound::new();
    nbt.put("fall_distance", NbtTag::Float(rank32(30.0)));
    entity.read_nbt(&nbt, 0);
    assert_eq!(entity.fall_distance, 0);
    assert_eq!(entity.health, 0);
}

#[test]
fn effects_that_cannot_be_read_are_passed_over() {
    let mut nbt = NbtCompound::new();
    let mut readable = NbtCompound::new();
    readable.hold(Held::Effect(poison()));
    nbt.put(
        "active_effects",
        NbtTag::List(vec![
            NbtTag::Int(1),
            NbtTag::Compound(NbtCompound::new()),
            NbtTag::Compound(readable),
        ]),
    );
    let mut entity = zombie();
    entity.read_nbt(&nbt, 0);
    assert_eq!(entity.active_effects.len(), 1);
}

#[test]
fn a_player_comes_back() {
    let mut nbt = NbtCompound::new();
    player().write_nbt(&mut nbt, 4189, 100, &dimensions());
    assert_eq!(nbt.get_int("DataVersion"), Some(4189));
    assert_eq!(nbt.get_int("XpTotal"), Some(107));
    assert_eq!(nbt.get_byte("playerGameType"), Some(2));
    assert_eq!(
        nbt.get_string("Dimension"),
        Some(&"minecraft:the_nether".to_string())
    );
    let mut other = blank();
    assert_eq!(other.read_nbt(&nbt, &dimensions()), 107);
    assert_eq!(
        other,
        Player {
            experience_points: 0,
            dimension: 0,
            ..player()
        }
    );
}

#[test]
fn a_player_without_data_plays_by_default() {
    let mut other = Player {
        dimension: 1,
        ..player()
    };
    let total = other.read_nbt_with_lot(&NbtCompound::new(), &dimensions(), 5);
    assert_eq!(total, 0);
    assert_eq!(other.gamemode, GameMode::Survival);
    assert_eq!(other.previous_gamemode, None);
    assert!(!other.has_played_before);
    assert_eq!(other.respawn_point, player().respawn_point);
    assert_eq!(other.enchantment_seed, 5);
}

#[test]
fn seeds_are_drawn_by_lot() {
    let mut seeds = Vec::new();
    for _ in 0..8 {
        let mut other = blank();
        other.read_nbt(&NbtCompound::new(), &dimensions());
        seeds.push(other.enchantment_seed);
    }
    seeds.dedup();
    assert!(seeds.len() > 1);
}

#[test]
fn a_place_to_wake_up_needs_all_coordinates() {
    let mut nbt = NbtCompound::new();
    nbt.put_int("SpawnX", 1);
    nbt.put_int("SpawnZ", 3);
    let mut other = blank();
    other.read_nbt(&nbt, &dimensions());
    assert_eq!(other.respawn_point, None);
    nbt.put_int("SpawnY", 2);
    nbt.put_string("SpawnDimension", "minecraft:nowhere");
    other.dimension = 1;
    other.read_nbt(&nbt, &dimensions());
    assert_eq!(
        other.respawn_point,
        Some(RespawnPoint {
            dimension: 1,
            position: BlockPos { x: 1, y: 2, z: 3 },
            force: false
        })
    );
    nbt.put_byte("playerGameType", 9);
    other.read_nbt(&nbt, &dimensions());
    assert_eq!(other.gamemode, GameMode::Survival);
}

#[test]
fn an_inventory_comes_back() {
    let mut main = vec![None; 36];
    main[0] = Some(StackId(11));
    main[35] = Some(StackId(12));
    let inventory = PlayerInventory {
        selected_slot: 8,
        main_inventory: main,
        equipment: SavedEquipment {
            offhand: Some(StackId(40)),
            head: None,
            chest: Some(StackId(38)),
            legs: None,
            feet: Some(StackId(36)),
        },
    };
    let mut nbt = NbtCompound::new();
    inventory.write_nbt(&mut nbt);
    let Some(worn) = nbt.get_compound("equipment") else {
        panic!("the equipment is saved");
    };
    let names: Vec<&str> = worn.entries.iter().map(|entry| entry.0.as_str()).collect();
    assert_eq!(names, vec!["offhand", "feet", "chest"]);
    let Some(list) = nbt.get_list("Inventory") else {
        panic!("the main slots are saved");
    };
    let slots: Vec<Option<i8>> = list
        .iter()
        .map(|tag| tag.extract_compound().and_then(|stack| stack.get_byte("Slot")))
        .collect();
    assert_eq!(slots, vec![Some(0), Some(35)]);
    let read = PlayerInventory::read_nbt(&nbt);
    assert_eq!(read.selected_slot, 8);
    assert_eq!(
        read.stacks,
        vec![
            (0, StackId(11)),
            (35, StackId(12)),
            (40, StackId(40)),
            (38, StackId(38)),
            (36, StackId(36)),
        ]
    );
}

#[test]
fn stacks_that_cannot_be_read_are_passed_over() {
    let mut nbt = NbtCompound::new();
    let stack = |slot: Option<i8>, stack: Option<StackId>| {
        let mut compound = NbtCompound::new();
        if let Some(slot) = slot {
            compound.put_byte("Slot", slot);
        }
        if let Some(stack) = stack {
            compound.hold(Held::Stack(stack));
        }
        NbtTag::Compound(compound)
    };
    nbt.put(
        "EnderItems",
        NbtTag::List(vec![
            stack(None, Some(StackId(1))),
            stack(Some(4), None),
            NbtTag::Int(9),
            stack(Some(5), Some(StackId(2))),
        ]),
    );
    assert_eq!(
        EnderChestInventory::read_nbt(&nbt),
        vec![(5, StackId(2))]
    );
    let chest = EnderChestInventory {
        items: vec![None, Some(StackId(3))],
    };
    let mut nbt = NbtCompound::new();
    chest.write_nbt(&mut nbt);
    assert_eq!(
        EnderChestInventory::read_nbt(&nbt),
        vec![(1, StackId(3))]
    );
}

fn server() -> Server {
    let online = |name: &str, uuid: u128| OnlinePlayer {
        name: name.to_string(),
        uuid,
        ip: IpAddr::V4(1),
    };
    Server {
        worlds: vec![
            World {
                players: vec![online("a", 10)],
            },
            World {
                players: vec![online("b", 20)],
            },
        ],
    }
}

#[test]
fn server_player_data_new() {
    let save_interval = 5 * 60 * 1_000_000_000;
    let now = 123;
    let player_data = ServerPlayerData::new(save_interval, true, now);
    assert_eq!(player_data.save_interval, save_interval);
    assert_eq!(player_data.last_save, now);
}

#[test]
fn data_is_saved_once_in_a_while() {
    let mut data = ServerPlayerData::new(100, true, 1000);
    assert_eq!(data.tick(1099, &server()), vec![]);
    assert_eq!(data.tick(1100, &server()), vec![10, 20]);
    assert_eq!(data.last_save, 1100);
    assert_eq!(data.tick(1199, &server()), vec![]);
    assert_eq!(data.tick(5, &server()), vec![]);
    data.save_enabled = false;
    assert_eq!(data.tick(9999, &server()), vec![]);
    assert!(!data.extract_data_and_save_player());
}

#[test]
fn a_failed_save_does_not_stop_the_others() {
    assert_eq!(
        ServerPlayerData::players_to_save(&server()),
        vec![10, 20]
    );
    assert_eq!(
        ServerPlayerData::save_all_players(&vec![true, false, true]),
        2
    );
}
