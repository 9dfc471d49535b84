use pumpkin::data::damage_type::{bypasses_armor_durability, DamageType};
use pumpkin::data::equipment::Hand;
use pumpkin::entity::living::equipment::{
    JavaMinecraftVersion, ACTIVE_HAND_FLAGS, OFF_HAND_ACTIVE_FLAG, USING_ITEM_FLAG,
    USING_RIPTIDE_FLAG,
};
use pumpkin::entity::living::LivingEntity;

fn sounds() -> Vec<String> {
    [
        "entity.generic.hurt",
        "entity.zombie.hurt",
        "entity.drowned.hurt",
        "entity.husk.hurt",
        "entity.zombie_villager.hurt",
        "entity.enderman.hurt",
        "entity.skeleton.hurt",
        "entity.bogged.hurt",
        "entity.parched.hurt",
        "entity.wither_skeleton.hurt",
        "entity.stray.hurt",
        "entity.creeper.hurt",
        "entity.villager.hurt",
    ]
    .iter()
    .map(|name| name.to_string())
    .collect()
}

fn hurt_sound(resource_name: &str) -> String {
    let registry = sounds();
    let sound = LivingEntity::hurt_sound_for_entity(None, resource_name, &registry, 0);
    registry[sound].clone()
}

#[test]
fn active_hand_flags_follow_vanilla_main_off_hand_and_stop_states() {
    assert_eq!(
        LivingEntity::with_active_hand_flags(0, Some(Hand::Right)),
        USING_ITEM_FLAG
    );
    assert_eq!(
        LivingEntity::with_active_hand_flags(0, Some(Hand::Left)),
        USING_ITEM_FLAG | OFF_HAND_ACTIVE_FLAG
    );
    assert_eq!(
        LivingEntity::with_active_hand_flags(ACTIVE_HAND_FLAGS | USING_RIPTIDE_FLAG, None,),
        USING_RIPTIDE_FLAG
    );
}

#[test]
fn bypasses_armor_durability_returns_true_for_tag_members() {
    let bypassing: &[DamageType] = &[
        DamageType::OnFire,
        DamageType::InWall,
        DamageType::Cramming,
        DamageType::Drown,
        DamageType::FlyIntoWall,
        DamageType::Generic,
        DamageType::Wither,
        DamageType::DragonBreath,
        DamageType::Starve,
        DamageType::Fall,
        DamageType::EnderPearl,
        DamageType::Freeze,
        DamageType::Stalagmite,
        DamageType::Magic,
        DamageType::IndirectMagic,
        DamageType::OutOfWorld,
        DamageType::GenericKill,
        DamageType::SonicBoom,
        DamageType::OutsideBorder,
    ];
    for dt in bypassing {
        assert!(
            bypasses_armor_durability(dt),
            "{dt:?} should bypass armor durability"
        );
    }
}

#[test]
fn bypasses_armor_durability_returns_false_for_physical_sources() {
    let physical: &[DamageType] = &[
        DamageType::MobAttack,
        DamageType::PlayerAttack,
        DamageType::Arrow,
        DamageType::Cactus,
        DamageType::SweetBerryBush,
        DamageType::Lava,
        DamageType::Explosion,
        DamageType::PlayerExplosion,
        DamageType::LightningBolt,
        DamageType::Fireball,
        DamageType::Thorns,
        DamageType::Trident,
    ];
    for dt in physical {
        assert!(
            !bypasses_armor_durability(dt),
            "{dt:?} should NOT bypass armor durability"
        );
    }
}

#[test]
fn hurt_sound_for_entity_uses_zombie_family_sounds() {
    let cases = [
        ("zombie", "entity.zombie.hurt"),
        ("drowned", "entity.drowned.hurt"),
        ("husk", "entity.husk.hurt"),
        ("zombie_villager", "entity.zombie_villager.hurt"),
    ];

    for (entity_type, expected) in cases {
        assert_eq!(hurt_sound(entity_type), expected);
    }
}

#[test]
fn hurt_sound_for_entity_uses_enderman_hurt_sound() {
    assert_eq!(hurt_sound("enderman"), "entity.enderman.hurt");
}

#[test]
fn hurt_sound_for_entity_uses_skeleton_family_sounds() {
    let cases = [
        ("skeleton", "entity.skeleton.hurt"),
        ("bogged", "entity.bogged.hurt"),
        ("parched", "entity.parched.hurt"),
        ("wither_skeleton", "entity.wither_skeleton.hurt"),
        ("stray", "entity.stray.hurt"),
    ];

    for (entity_type, expected) in cases {
        assert_eq!(hurt_sound(entity_type), expected);
    }
}

#[test]
fn hurt_sound_for_entity_resolves_registry_name() {
    assert_eq!(hurt_sound("creeper"), "entity.creeper.hurt");
    assert_eq!(hurt_sound("villager"), "entity.villager.hurt");
}

#[test]
fn hurt_sounds_fall_back_to_the_generic_one() {
    assert_eq!(hurt_sound("boat"), "entity.generic.hurt");
    assert_eq!(
        LivingEntity::hurt_sound_for_entity(Some(5), "creeper", &sounds(), 0),
        5
    );
}

fn encoded_living_flags(version: JavaMinecraftVersion, flags: u8) -> Vec<u8> {
    let mut encoded = Vec::new();
    for metadata in LivingEntity::living_flags_metadata(flags) {
        metadata.write(&mut encoded, version);
    }
    encoded
}

#[test]
fn using_item_metadata_uses_the_1_21_living_flags_accessor() {
    for version in [
        JavaMinecraftVersion::V_1_21,
        JavaMinecraftVersion::V_1_21_2,
        JavaMinecraftVersion::V_1_21_4,
        JavaMinecraftVersion::V_1_21_5,
        JavaMinecraftVersion::V_1_21_6,
        JavaMinecraftVersion::V_1_21_7,
        JavaMinecraftVersion::V_1_21_9,
        JavaMinecraftVersion::V_1_21_11,
    ] {
        assert_eq!(
            encoded_living_flags(version, USING_ITEM_FLAG),
            vec![8, 0, USING_ITEM_FLAG],
            "{version:?} should receive the living flags metadata"
        );
    }
}

#[test]
fn using_item_metadata_uses_the_26_living_entity_flags_accessor() {
    for version in [JavaMinecraftVersion::V_26_1, JavaMinecraftVersion::V_26_2] {
        assert_eq!(
            encoded_living_flags(version, USING_ITEM_FLAG),
            vec![8, 0, USING_ITEM_FLAG],
            "{version:?} should receive the living entity flags metadata"
        );
    }
}

#[test]
fn using_item_metadata_serializes_the_release_state() {
    for version in [
        JavaMinecraftVersion::V_1_21,
        JavaMinecraftVersion::V_1_21_11,
        JavaMinecraftVersion::V_26_1,
        JavaMinecraftVersion::V_26_2,
    ] {
        assert_eq!(
            encoded_living_flags(version, 0),
            vec![8, 0, 0],
            "{version:?} should receive a clear using-item flag"
        );
    }
}
