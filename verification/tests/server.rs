use std::cell::RefCell;

use pumpkin::data::nbt::NbtCompound;
use pumpkin::server::player::{
    Admission, IpAddr, LoadedData, LoginStep, OnlinePlayer, Server, World,
};

fn online(name: &str, uuid: u128, ip: u32) -> OnlinePlayer {
    OnlinePlayer {
        name: name.to_string(),
        uuid,
        ip: IpAddr::V4(ip),
    }
}

fn server() -> Server {
    Server {
        worlds: vec![
            World {
                players: vec![online("ann", 1, 7), online("bob", 2, 8)],
            },
            World { players: vec![] },
            World {
                players: vec![online("bob", 3, 7)],
            },
        ],
    }
}

fn empty() -> Server {
    Server { worlds: vec![] }
}

#[test]
fn players_are_found_by_name_world_by_world() {
    let server = server();
    assert_eq!(server.get_player_by_name("bob").map(|p| p.uuid), Some(2));
    assert_eq!(server.get_player_by_name("ann").map(|p| p.uuid), Some(1));
    assert!(server.get_player_by_name("eve").is_none());
}

#[test]
fn players_are_found_by_uuid() {
    let server = server();
    assert_eq!(
        server.get_player_by_uuid(3).map(|p| p.name.clone()),
        Some("bob".to_string())
    );
    assert!(server.get_player_by_uuid(4).is_none());
}

#[test]
fn players_are_found_by_address() {
    let found: Vec<u128> = server()
        .get_players_by_ip(IpAddr::V4(7))
        .iter()
        .map(|p| p.uuid)
        .collect();
    assert_eq!(found, vec![1, 3]);
    assert!(server().get_players_by_ip(IpAddr::V6(7)).is_empty());
}

#[test]
fn all_players_come_world_by_world() {
    let server = server();
    let all: Vec<u128> = server.get_all_players().iter().map(|p| p.uuid).collect();
    assert_eq!(all, vec![1, 2, 3]);
    let seen = server.for_each_player(Vec::new(), |mut seen: Vec<u128>, p: &OnlinePlayer| {
        seen.push(p.uuid);
        seen
    });
    assert_eq!(seen, vec![1, 2, 3]);
    let shared = RefCell::new(0);
    server.for_each_player((), |_: (), _: &OnlinePlayer| *shared.borrow_mut() += 1);
    assert_eq!(shared.into_inner(), server.get_player_count());
    let calls = empty().for_each_player(0, |calls: i32, _: &OnlinePlayer| calls + 1);
    assert_eq!(calls, 0);
}

#[test]
fn players_are_counted() {
    let server = server();
    assert_eq!(server.get_player_count(), 3);
    assert!(server.has_n_players(0));
    assert!(server.has_n_players(3));
    assert!(!server.has_n_players(4));
    assert_eq!(empty().get_player_count(), 0);
    assert!(empty().has_n_players(0));
    assert!(!empty().has_n_players(1));
}

#[test]
fn a_random_player_is_one_of_them() {
    let server = server();
    let mut seen = [false; 4];
    for _ in 0..200 {
        let Some(player) = server.get_random_player() else {
            panic!("there are players");
        };
        assert!((1..=3).contains(&player.uuid));
        seen[player.uuid as usize] = true;
    }
    assert!(seen.iter().filter(|s| **s).count() > 1);
    assert!(empty().get_random_player().is_none());
}

fn dimensions() -> Vec<String> {
    vec!["minecraft:overworld".to_string(), "minecraft:the_end".to_string()]
}

#[test]
fn unreadable_data_keeps_a_player_out() {
    let loaded = LoadedData::Unreadable {
        reason: "bad magic".to_string(),
    };
    match server().admit_player(&loaded, &dimensions(), &vec![0, 2]) {
        Admission::Refuse { message } => assert_eq!(
            message,
            "Failed to load your player data: bad magic\nYour save file has been preserved. Please contact a server administrator."
        ),
        Admission::Enter { .. } => panic!("the data cannot be read"),
    }
}

#[test]
fn a_player_enters_its_own_world() {
    let enters = |loaded: &LoadedData| match server().admit_player(
        loaded,
        &dimensions(),
        &vec![0, 2],
    ) {
        Admission::Enter { world, reads_saved } => (world, reads_saved),
        Admission::Refuse { .. } => panic!("nothing keeps the player out"),
    };
    assert_eq!(enters(&LoadedData::NewPlayer), (0, false));
    let mut nbt = NbtCompound::new();
    nbt.put_string("Dimension", "minecraft:the_end");
    assert_eq!(enters(&LoadedData::Found { nbt }), (2, true));
    let mut nbt = NbtCompound::new();
    nbt.put_string("Dimension", "minecraft:elsewhere");
    assert_eq!(enters(&LoadedData::Found { nbt }), (0, true));
    assert_eq!(
        enters(&LoadedData::Found {
            nbt: NbtCompound::new()
        }),
        (0, true)
    );
}

#[test]
fn a_login_may_be_cancelled() {
    assert_eq!(Server::begin_login(true), vec![LoginStep::Kick]);
    assert_eq!(
        Server::begin_login(false),
        vec![LoginStep::BindScreens, LoginStep::AddToWorld]
    );
    assert_eq!(Server::end_login(false, Some(true)), (false, vec![]));
    assert_eq!(
        Server::end_login(true, Some(true)),
        (true, vec![LoginStep::RememberName, LoginStep::ShowInListing])
    );
    assert_eq!(
        Server::end_login(true, None),
        (true, vec![LoginStep::RememberName])
    );
}
