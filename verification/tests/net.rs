use pumpkin::data::entity_type::GameMode;
use pumpkin::data::equipment::Hand;
use pumpkin::data::position::BlockPos;
use pumpkin::net::bedrock::interaction::{
    after_break, attacks, handle_animate, handle_emote, handle_player_block_action, Abilities,
    AbilityStep, AbilityValue, ActionStep, ActionView, AnimateAction, Animation, BedrockClient,
    BreakStep, EmoteShown, InteractionAction, InteractionStep, Mining, PlayerAction, SPlayerAction,
};
use pumpkin::net::java::config::{
    answer_goes_on, build_dimension_nbt, handle_known_packs, handle_resource_pack_response,
    Acknowledged, ChatMode, ClientInformation, ConnectionState, DimensionKind, DimensionType,
    InformationFault, JavaClient, RegistryKey, ResourcePackResponseResult, VersionView,
};

const ORIGIN: BlockPos = BlockPos { x: 0, y: 0, z: 0 };
const POS: BlockPos = BlockPos { x: 1, y: 2, z: 3 };

fn client() -> JavaClient {
    JavaClient {
        connection_state: ConnectionState::Config,
        config: None,
        brand: None,
        wait_for_keep_alive: false,
        keep_alive_id: 0,
    }
}

fn information() -> ClientInformation {
    ClientInformation {
        locale: "en_us".to_string(),
        view_distance: 12,
        chat_mode: 1,
        chat_colors: true,
        skin_parts: 127,
        main_hand: 0,
        text_filtering: false,
        server_listing: true,
    }
}

#[test]
fn what_a_client_says_is_taken_up() {
    let mut client = client();
    assert_eq!(client.handle_client_information_config(&information()), Ok(()));
    let Some(config) = client.config else {
        panic!("the information is in order");
    };
    assert_eq!(config.locale, "en_us");
    assert_eq!(config.view_distance, 12);
    assert_eq!(config.chat_mode, ChatMode::CommandsOnly);
    assert_eq!(config.main_hand, Hand::Left);
    assert_eq!(config.skin_parts, 127);
    assert!(config.server_listing);
}

#[test]
fn bad_information_turns_a_client_away() {
    let mut client = client();
    for view_distance in [0, -1, i8::MIN] {
        let result = client.handle_client_information_config(&ClientInformation {
            view_distance,
            ..information()
        });
        assert_eq!(result, Err(InformationFault::ViewDistance));
    }
    let result = client.handle_client_information_config(&ClientInformation {
        main_hand: 2,
        ..information()
    });
    assert_eq!(result, Err(InformationFault::HandOrChat));
    let result = client.handle_client_information_config(&ClientInformation {
        chat_mode: 3,
        ..information()
    });
    assert_eq!(result, Err(InformationFault::HandOrChat));
    assert!(client.config.is_none());
    assert_eq!(
        InformationFault::ViewDistance.message(),
        "Cannot have zero or negative view distance!"
    );
    assert_eq!(
        InformationFault::HandOrChat.message(),
        "Invalid hand or chat type"
    );
}

#[test]
fn a_client_says_its_brand() {
    let mut client = client();
    assert_eq!(client.handle_plugin_message("minecraft:register", &b"x".to_vec()), Ok(()));
    assert_eq!(client.brand, None);
    assert_eq!(
        client.handle_plugin_message("minecraft:brand", &"vänilla".as_bytes().to_vec()),
        Ok(())
    );
    assert_eq!(client.brand, Some("vänilla".to_string()));
    assert_eq!(
        client.handle_plugin_message("minecraft:branded", &b"other".to_vec()),
        Ok(())
    );
    assert_eq!(client.brand, Some("other".to_string()));
}

#[test]
fn a_brand_that_is_no_text_turns_a_client_away() {
    let mut client = client();
    let bytes = vec![b'a', 0xff];
    let complaint = std::str::from_utf8(&bytes).unwrap_err().to_string();
    assert_eq!(
        client.handle_plugin_message("minecraft:brand", &bytes),
        Err(complaint)
    );
    assert_eq!(client.brand, None);
}

#[test]
fn a_client_answers_once() {
    let mut client = client();
    assert!(client.handle_config_keep_alive(0));
    client.wait_for_keep_alive = true;
    client.keep_alive_id = 5;
    assert!(client.handle_config_keep_alive(4));
    assert!(!client.handle_config_keep_alive(5));
    assert!(client.handle_config_keep_alive(5));
}

#[test]
fn a_client_without_profile_does_not_play() {
    let mut client = client();
    assert_eq!(
        client.handle_config_acknowledged(false, false),
        Acknowledged::NoProfile
    );
    assert_eq!(client.connection_state, ConnectionState::Play);
    assert_eq!(
        client.handle_config_acknowledged(true, true),
        Acknowledged::Refused
    );
    assert_eq!(
        client.handle_config_acknowledged(true, false),
        Acknowledged::ReadyToPlay { has_config: false }
    );
}

#[test]
fn an_accepted_pack_is_waited_for() {
    let accepted = ResourcePackResponseResult::Accepted;
    assert!(!answer_goes_on(true, 1, 1, accepted));
    assert!(answer_goes_on(true, 1, 2, accepted));
    assert!(answer_goes_on(false, 1, 1, accepted));
    assert!(answer_goes_on(true, 1, 1, ResourcePackResponseResult::Declined));
    assert!(answer_goes_on(true, 1, 1, ResourcePackResponseResult::Unknown(9)));
}

#[test]
fn a_pack_is_known_by_its_url() {
    let uuid = 0x6fa459ea_ee8a_3ca4_894e_db77e160355e;
    let accepted = ResourcePackResponseResult::Accepted;
    assert!(!handle_resource_pack_response(true, "python.org", uuid, accepted));
    assert!(handle_resource_pack_response(true, "python.com", uuid, accepted));
    let other = uuid::Uuid::new_v3(&uuid::Uuid::NAMESPACE_DNS, b"https://a/b.zip").as_u128();
    assert!(!handle_resource_pack_response(true, "https://a/b.zip", other, accepted));
}

fn version() -> VersionView {
    VersionView {
        is_configured: true,
        knows_timelines: false,
        has_timeline_tags: true,
        has_dimension_type_tags: false,
        has_damage_type_tags: true,
        has_banner_pattern_tags: false,
    }
}

#[test]
fn a_client_is_sent_the_registries() {
    let names = vec!["minecraft:a".to_string(), "minecraft:b".to_string()];
    let sent = handle_known_packs(version(), &names);
    assert_eq!(sent.registries, vec![0, 1]);
    assert_eq!(
        sent.dimensions,
        vec![
            DimensionKind::Overworld,
            DimensionKind::OverworldCaves,
            DimensionKind::TheEnd,
            DimensionKind::TheNether
        ]
    );
    assert_eq!(sent.tags.len(), 8);
    assert_eq!(sent.tags[7], RegistryKey::DamageType);
    assert!(!sent.acknowledges_itself);
    let with_dimensions = vec!["minecraft:dimension_type".to_string()];
    assert!(handle_known_packs(version(), &with_dimensions).dimensions.is_empty());
}

#[test]
fn an_old_client_plays_at_once() {
    let sent = handle_known_packs(
        VersionView {
            is_configured: false,
            ..version()
        },
        &vec!["minecraft:a".to_string()],
    );
    assert!(sent.registries.is_empty());
    assert!(sent.dimensions.is_empty());
    assert!(sent.acknowledges_itself);
    let sent = handle_known_packs(
        VersionView {
            knows_timelines: true,
            ..version()
        },
        &vec![],
    );
    assert_eq!(sent.tags[7], RegistryKey::Timeline);
}

#[test]
fn a_client_is_told_of_a_dimension() {
    let nether = DimensionType {
        id: 3,
        minecraft_name: "minecraft:the_nether".to_string(),
        ambient_light: 1,
        height: 256,
        logical_height: 128,
        min_y: 0,
        infiniburn: "#minecraft:infiniburn_nether".to_string(),
        monster_spawn_block_light_limit: 15,
        coordinate_scale: 2,
        has_skylight: false,
        has_ceiling: true,
    };
    let nbt = build_dimension_nbt(&nether);
    assert_eq!(nbt.entries.len(), 17);
    assert_eq!(nbt.get_int("logical_height"), Some(128));
    assert_eq!(nbt.get_bool("ultrawarm"), Some(true));
    assert_eq!(nbt.get_bool("natural"), Some(false));
    assert_eq!(nbt.get_bool("bed_works"), Some(false));
    assert_eq!(nbt.get_bool("has_ceiling"), Some(true));
    assert_eq!(nbt.get_int("monster_spawn_block_light_limit"), Some(15));
    let Some(light) = nbt.get_compound("monster_spawn_light_level") else {
        panic!("the light is told");
    };
    assert_eq!(
        light.get_string("type"),
        Some(&"minecraft:uniform".to_string())
    );
    let Some(range) = light.get_compound("value") else {
        panic!("the range is told");
    };
    assert_eq!(range.get_int("min_inclusive"), Some(0));
    assert_eq!(range.get_int("max_inclusive"), Some(7));
    assert_eq!(
        nbt.get_string("effects"),
        Some(&"minecraft:the_nether".to_string())
    );
}

#[test]
fn unknown_actions_are_passed_over() {
    assert_eq!(handle_player_block_action(None, POS, 1), None);
    assert_eq!(
        handle_player_block_action(Some(PlayerAction::StopBreak), POS, 1),
        Some(SPlayerAction {
            runtime_id: 0,
            action: PlayerAction::StopBreak,
            block_pos: POS,
            result_pos: ORIGIN,
            face: 1
        })
    );
}

#[test]
fn moves_are_shown_to_both_editions() {
    let Some(shown) = handle_animate(true, -1, AnimateAction::WakeUp) else {
        panic!("waking up is shown");
    };
    assert_eq!(shown.java, Animation::LeaveBed);
    assert_eq!(shown.bedrock, AnimateAction::WakeUp);
    assert_eq!(shown.runtime_entity_id, u64::MAX);
    assert_eq!(handle_animate(true, 1, AnimateAction::StopSleep), None);
    assert_eq!(handle_animate(false, 1, AnimateAction::SwingArm), None);
    assert_eq!(
        handle_emote(true, 5, 0b100, 0b1),
        Some(EmoteShown {
            entity_id: 5,
            java: Animation::SwingMainArm,
            flags: 0b101,
        })
    );
    assert_eq!(handle_emote(false, 5, 0b100, 0b1), None);
}

#[test]
fn an_inventory_opens_once() {
    let mut client = BedrockClient {
        inventory_opened: false,
    };
    assert_eq!(
        client.handle_interaction(InteractionAction::OpenInventory, 0),
        Some(InteractionStep::OpenContainer {
            container_id: 0,
            container_type: 0xff,
            position: ORIGIN,
            target_entity_id: -1
        })
    );
    assert_eq!(client.handle_interaction(InteractionAction::OpenInventory, 0), None);
    assert_eq!(
        client.handle_interaction(InteractionAction::Attack, 1 << 32 | 5),
        Some(InteractionStep::AttackIfInReach { entity_id: 5 })
    );
    assert_eq!(client.handle_interaction(InteractionAction::Other(4), 1), None);
    assert!(attacks(Some(true)));
    assert!(!attacks(Some(false)));
    assert!(!attacks(None));
}

fn action(action: PlayerAction) -> SPlayerAction {
    SPlayerAction {
        runtime_id: 0,
        action,
        block_pos: POS,
        result_pos: ORIGIN,
        face: 0,
    }
}

fn view() -> ActionView {
    ActionView {
        client_loaded: true,
        in_reach: true,
        gamemode: GameMode::Survival,
        is_air: false,
        speed: 0.25f32.to_bits() as i32,
        progress: 2,
        harvests: false,
    }
}

fn idle() -> Mining {
    Mining {
        mining: false,
        mining_pos: ORIGIN,
        current_block_destroy_stage: 0,
    }
}

#[test]
fn a_block_cracks_before_it_breaks() {
    let mut mining = idle();
    assert_eq!(
        mining.handle_player_action(&action(PlayerAction::StartBreak), &view()),
        vec![
            ActionStep::UpdateLastActionTime,
            ActionStep::ShowCracks { pos: POS, stage: 2 }
        ]
    );
    assert_eq!(
        mining,
        Mining {
            mining: true,
            mining_pos: POS,
            current_block_destroy_stage: 2
        }
    );
    assert_eq!(
        mining.handle_player_action(&action(PlayerAction::StopBreak), &view()),
        vec![
            ActionStep::UpdateLastActionTime,
            ActionStep::ShowCracks { pos: POS, stage: -1 },
            ActionStep::Break {
                pos: POS,
                skips_drops: true,
                wears_tool: true
            }
        ]
    );
    assert!(!mining.mining);
}

#[test]
fn a_fast_player_breaks_a_block_at_once() {
    let fast = ActionView {
        speed: 1.0f32.to_bits() as i32,
        ..view()
    };
    assert_eq!(
        idle().handle_player_action(&action(PlayerAction::ContinueDestroyBlock), &fast),
        vec![
            ActionStep::UpdateLastActionTime,
            ActionStep::Break {
                pos: POS,
                skips_drops: false,
                wears_tool: true
            }
        ]
    );
    let creative = ActionView {
        gamemode: GameMode::Creative,
        ..view()
    };
    assert_eq!(
        idle().handle_player_action(&action(PlayerAction::CreativePlayerDestroyBlock), &creative),
        vec![
            ActionStep::UpdateLastActionTime,
            ActionStep::Break {
                pos: POS,
                skips_drops: true,
                wears_tool: false
            }
        ]
    );
}

#[test]
fn nothing_happens_out_of_reach() {
    let far = ActionView {
        in_reach: false,
        ..view()
    };
    for kind in [PlayerAction::StartBreak, PlayerAction::PredictDestroyBlock] {
        assert_eq!(
            idle().handle_player_action(&action(kind), &far),
            vec![ActionStep::UpdateLastActionTime]
        );
    }
    let asleep = ActionView {
        client_loaded: false,
        ..view()
    };
    assert_eq!(
        idle().handle_player_action(&action(PlayerAction::DropItem), &asleep),
        vec![]
    );
    assert_eq!(
        idle().handle_player_action(&action(PlayerAction::DropItem), &far),
        vec![ActionStep::UpdateLastActionTime, ActionStep::DropHeldItem]
    );
    assert_eq!(
        idle().handle_player_action(&action(PlayerAction::AbortBreak), &far).len(),
        2
    );
}

#[test]
fn a_broken_block_has_its_consequences() {
    assert_eq!(after_break(false, true), vec![]);
    assert_eq!(after_break(true, false), vec![BreakStep::NotifyBroken]);
    assert_eq!(
        after_break(true, true),
        vec![BreakStep::NotifyBroken, BreakStep::WearTool]
    );
}

#[test]
fn a_player_flies_only_where_it_may() {
    let mut abilities = Abilities {
        allow_flying: false,
        flying: true,
    };
    let told = vec![
        AbilityStep::UpdateLastActionTime,
        AbilityStep::SendAbilities,
    ];
    let untold = vec![AbilityStep::UpdateLastActionTime];
    let fly = AbilityValue::Bool(true);
    assert_eq!(abilities.handle_request_ability(9, fly), told);
    assert!(!abilities.flying);
    abilities.allow_flying = true;
    assert_eq!(abilities.handle_request_ability(9, fly), told);
    assert!(abilities.flying);
    assert_eq!(
        abilities.handle_request_ability(8, AbilityValue::Bool(false)),
        untold
    );
    assert_eq!(
        abilities.handle_request_ability(9, AbilityValue::Float(0)),
        untold
    );
    assert!(abilities.flying);
}
