use pumpkin::command::commands::locate::{
    begin_locate, end_locate, horizontal_distance, resolve_structure_set, structure_set_names,
    list_suggestions, LocateError,
};
use pumpkin::command::commands::seed::{command_result, execute, format_seed};
use pumpkin::command::commands::{
    default_dispatcher, locate, seed, CommandDispatcher, OwnPermissions, Permission, PermissionDefault, PermissionLvl,
    PermissionRegistry,
};
use pumpkin::data::position::BlockPos;

fn at(x: i32, y: i32, z: i32) -> BlockPos {
    BlockPos { x, y, z }
}

fn seed_from(text: &str) -> u64 {
    text.parse::<i64>().unwrap() as u64
}

#[test]
fn structure_set_names_all_resolve() {
    for name in structure_set_names() {
        assert!(
            resolve_structure_set(name).is_some(),
            "suggested structure set '{name}' does not resolve"
        );
    }
}

#[test]
fn resolves_known_structure_sets() {
    assert!(resolve_structure_set("strongholds").is_some());
    assert!(resolve_structure_set("villages").is_some());
    assert!(resolve_structure_set("ancient_cities").is_some());
}

#[test]
fn rejects_unknown_structure_sets() {
    assert!(resolve_structure_set("not_a_structure").is_none());
    assert!(resolve_structure_set("").is_none());
}

#[test]
fn horizontal_distance_ignores_y() {
    let origin = at(0, 64, 0);
    assert_eq!(horizontal_distance(origin, at(0, -320, 0)), 0);
    assert_eq!(horizontal_distance(origin, at(3, 1000, 4)), 5);
}

#[test]
fn horizontal_distance_floors_like_vanilla() {
    let origin = at(0, 0, 0);
    assert_eq!(horizontal_distance(origin, at(1, 0, 1)), 1);
    assert_eq!(horizontal_distance(origin, at(10, 0, 10)), 14);
    assert_eq!(horizontal_distance(origin, at(-10, 0, -10)), 14);
}

#[test]
fn horizontal_distance_stays_within_its_type() {
    assert_eq!(
        horizontal_distance(at(0, 0, 0), at(i32::MAX, 0, i32::MAX)),
        i32::MAX
    );
    assert_eq!(
        horizontal_distance(at(0, 0, 0), at(i32::MAX - 1, 0, 0)),
        i32::MAX - 1
    );
    assert_eq!(
        horizontal_distance(at(5, 0, -7), at(-3, 9, 20)),
        horizontal_distance(at(-3, 9, 20), at(5, 0, -7))
    );
}

#[test]
fn suggestions_are_written_in_full() {
    let offered = list_suggestions();
    assert_eq!(offered.len(), 20);
    assert_eq!(offered[0], "minecraft:ancient_cities");
    assert_eq!(offered[19], "minecraft:woodland_mansions");
}

#[test]
fn a_search_goes_out_from_its_origin() {
    let Ok(request) = begin_locate("strongholds", at(1, 2, 3), u64::MAX) else {
        panic!("strongholds can be searched for");
    };
    assert_eq!(request.origin, at(1, 2, 3));
    assert_eq!(request.max_search_radius, 100);
    assert_eq!(request.seed, -1);
    assert_eq!(
        structure_set_names()[request.structure_set],
        "strongholds"
    );
}

#[test]
fn an_unknown_structure_is_invalid() {
    match begin_locate("castles", at(0, 0, 0), 1) {
        Err(LocateError::Invalid { name }) => assert_eq!(name, "castles"),
        _ => panic!("there are no castles"),
    }
}

#[test]
fn a_found_structure_is_shown_with_its_distance() {
    let Ok((message, distance)) = end_locate("villages", at(0, 70, 0), Some(at(-30, 64, 40)))
    else {
        panic!("a village was found");
    };
    assert_eq!(distance, 50);
    assert_eq!(message.name, "villages");
    assert_eq!(message.x, "-30");
    assert_eq!(message.y, "~");
    assert_eq!(message.z, "40");
    assert_eq!(message.teleport_command, "/tp @s -30 ~ 40");
    assert_eq!(message.distance, "50");
}

#[test]
fn a_structure_out_of_reach_is_not_found() {
    match end_locate("igloos", at(0, 0, 0), None) {
        Err(LocateError::NotFound { name }) => assert_eq!(name, "igloos"),
        _ => panic!("no igloo was found"),
    }
}

#[test]
fn negative_seed_is_displayed_as_signed() {
    let seed = seed_from("-4172144997902289642");
    assert_eq!(seed, 14274599075807261974);
    assert_eq!(format_seed(seed), "-4172144997902289642");
}

#[test]
fn positive_seed_is_unchanged() {
    let seed = seed_from("2151901553968352745");
    assert_eq!(format_seed(seed), "2151901553968352745");
}

#[test]
fn seed_bounds_round_trip() {
    assert_eq!(format_seed(0), "0");
    assert_eq!(format_seed(u64::MAX), "-1");
    assert_eq!(format_seed(i64::MIN as u64), i64::MIN.to_string());
    assert_eq!(format_seed(i64::MAX as u64), i64::MAX.to_string());
}

#[test]
fn command_result_matches_vanilla_int_cast() {
    let seed = seed_from("-4172144997902289642");
    assert_eq!(command_result(seed), -1197705962);
    assert_eq!(seed as i32, -1197705962);
}

#[test]
fn a_click_copies_the_shown_seed() {
    let shown = execute(1 << 32 | 7);
    assert_eq!(shown.text, "4294967303");
    assert_eq!(shown.copied, shown.text);
    assert_eq!(shown.result, 7);
}

fn own_permissions() -> OwnPermissions {
    let permission = |name: &str, default: PermissionDefault| Permission {
        name: name.to_string(),
        description: String::new(),
        default,
    };
    OwnPermissions {
        about_to_list: vec![permission(
            "minecraft:command.list",
            PermissionDefault::Allow,
        )],
        loot: vec![permission(
            "minecraft:command.loot",
            PermissionDefault::Op(PermissionLvl::Two),
        )],
        saveall_to_attribute: vec![permission(
            "minecraft:command.stop",
            PermissionDefault::Op(PermissionLvl::Four),
        )],
    }
}

#[test]
fn every_permission_is_registered_once() {
    let mut registry = PermissionRegistry {
        permissions: Vec::new(),
    };
    let dispatcher = default_dispatcher(&mut registry, own_permissions());
    assert_eq!(registry.permissions.len(), 49);
    let place = |name: &str| registry.permissions.iter().position(|p| p.name == name);
    assert_eq!(place("minecraft:command.list"), Some(44));
    assert_eq!(place("minecraft:command.locate"), Some(45));
    assert_eq!(place("minecraft:command.loot"), Some(46));
    assert_eq!(place("minecraft:command.seed"), Some(47));
    assert_eq!(place("minecraft:command.stop"), Some(48));
    for (i, one) in registry.permissions.iter().enumerate() {
        for other in &registry.permissions[..i] {
            assert_ne!(one.name, other.name);
        }
    }
    for (command, permission) in &dispatcher.fallback {
        assert!(
            registry.permissions.iter().any(|p| p.name == *permission),
            "{command} asks for {permission}"
        );
    }
    assert_eq!(dispatcher.fallback.len(), 43);
    assert_eq!(dispatcher.own.len(), 32);
    assert_eq!(dispatcher.own[0], "about");
    assert_eq!(dispatcher.own[14], "locate");
    assert_eq!(dispatcher.own[16], "seed");
    assert_eq!(dispatcher.own[31], "attribute");
}

#[test]
fn permissions_have_their_levels() {
    let mut registry = PermissionRegistry {
        permissions: Vec::new(),
    };
    let _ = default_dispatcher(&mut registry, own_permissions());
    let level = |name: &str| {
        registry
            .permissions
            .iter()
            .find(|p| p.name == name)
            .map(|p| p.default)
    };
    assert_eq!(level("minecraft:command.me"), Some(PermissionDefault::Allow));
    assert_eq!(
        level("minecraft:command.give"),
        Some(PermissionDefault::Op(PermissionLvl::Two))
    );
    assert_eq!(
        level("minecraft:command.setworldspawn"),
        Some(PermissionDefault::Op(PermissionLvl::Three))
    );
    assert_eq!(
        level("minecraft:command.selector"),
        Some(PermissionDefault::Allow)
    );
    assert_eq!(
        level("minecraft:command.locate"),
        Some(PermissionDefault::Op(PermissionLvl::Two))
    );
    assert_eq!(
        level("minecraft:command.stop"),
        Some(PermissionDefault::Op(PermissionLvl::Four))
    );
    assert_eq!(level("minecraft:command.fly"), None);
}

#[test]
fn own_commands_register_their_permissions() {
    let mut registry = PermissionRegistry {
        permissions: Vec::new(),
    };
    let mut dispatcher = CommandDispatcher {
        fallback: Vec::new(),
        own: Vec::new(),
    };
    locate::register(&mut dispatcher, &mut registry);
    seed::register(&mut dispatcher, &mut registry);
    assert_eq!(dispatcher.own, vec!["locate", "seed"]);
    let names: Vec<&str> = registry
        .permissions
        .iter()
        .map(|p| p.name.as_str())
        .collect();
    assert_eq!(
        names,
        vec!["minecraft:command.locate", "minecraft:command.seed"]
    );
    assert_eq!(
        registry.permissions[1].description,
        "Displays the world seed."
    );
}

#[test]
fn a_permission_is_not_registered_twice() {
    let mut registry = PermissionRegistry {
        permissions: Vec::new(),
    };
    let permission = || Permission {
        name: "a:b".to_string(),
        description: "Does a thing".to_string(),
        default: PermissionDefault::Allow,
    };
    assert!(registry.register_permission(permission()).is_ok());
    assert!(registry.register_permission(permission()).is_err());
    assert_eq!(registry.permissions.len(), 1);
}
