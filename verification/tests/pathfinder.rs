use pumpkin::data::position::{BlockPos, Position};
use pumpkin::entity::ai::pathfinder::node::{is_neighbor_valid, MalusTable, Node, Path, PathType};
use pumpkin::entity::ai::pathfinder::search::{max_path_length, Neighbor, PathSearch, Visit};
use pumpkin::entity::ai::pathfinder::{Navigator, NavigatorGoal};

fn rank32(number: f32) -> i32 {
    let bits = (number.abs().to_bits()) as i32;
    if number < 0.0 {
        -bits
    } else {
        bits
    }
}

fn rank64(number: f64) -> i64 {
    let bits = (number.abs().to_bits()) as i64;
    if number < 0.0 {
        -bits
    } else {
        bits
    }
}

fn default_malus(path_type: PathType) -> i32 {
    match path_type {
        PathType::Water | PathType::WaterBorder => rank32(8.0),
        _ => 0,
    }
}

fn malus(navigator: &Navigator, path_type: PathType) -> i32 {
    navigator.get_pathfinding_malus(path_type, default_malus(path_type))
}

fn malus_in(data: &MalusTable, path_type: PathType) -> i32 {
    data.get(path_type).unwrap_or(default_malus(path_type))
}

fn node(path_type: PathType, cost_malus: i32) -> Node {
    Node {
        pos: BlockPos { x: 0, y: 64, z: 0 },
        came_from: None,
        path_type,
        cost_malus,
        g: 0,
        f: 0,
        walked_dist: 0,
        closed: false,
    }
}

#[test]
fn goal_leaves_water_avoidance_to_the_pathfinder() {
    let mut navigator = Navigator::default();
    navigator.set_pathfinding_malus(PathType::Water, rank32(-1.0));
    assert!(malus(&navigator, PathType::Water) < 0);
}

#[test]
fn unset_malus_falls_through_to_path_type_default() {
    let nav = Navigator::default();
    assert_eq!(malus(&nav, PathType::Water), rank32(8.0));
    assert_eq!(malus(&nav, PathType::Walkable), 0);
}

#[test]
fn overrides_reach_the_node_evaluator_mob_data() {
    let mut nav = Navigator::default();
    nav.set_pathfinding_malus(PathType::Water, rank32(-1.0));
    nav.set_pathfinding_malus(PathType::WaterBorder, rank32(-1.0));

    let mut data = MalusTable::new();
    assert_eq!(malus_in(&data, PathType::Water), rank32(8.0));

    nav.apply_malus_overrides(&mut data);

    assert_eq!(malus_in(&data, PathType::Water), rank32(-1.0));
    assert_eq!(malus_in(&data, PathType::WaterBorder), rank32(-1.0));
    assert_eq!(malus_in(&data, PathType::Walkable), 0);
}

#[test]
fn negative_water_malus_makes_water_nodes_impassable() {
    let mut nav = Navigator::default();
    nav.set_pathfinding_malus(PathType::Water, rank32(-1.0));
    let mut data = MalusTable::new();
    nav.apply_malus_overrides(&mut data);

    let water_penalty = malus_in(&data, PathType::Water);
    assert!(
        water_penalty < 0,
        "golem water malus must be negative, got {water_penalty}"
    );

    let dry_ground = node(PathType::Walkable, malus_in(&data, PathType::Walkable));
    let water = node(PathType::Water, water_penalty);
    assert!(
        !is_neighbor_valid(Some(&water), &dry_ground),
        "water must not be expandable from dry ground for a water-avoiding mob"
    );
    assert!(
        is_neighbor_valid(Some(&dry_ground), &dry_ground),
        "dry ground stays walkable"
    );
}

#[test]
fn take_and_restore_preserves_malus_overrides() {
    let mut seeded = Navigator::default();
    seeded.set_pathfinding_malus(PathType::Water, rank32(-1.0));
    let mutex = std::sync::Mutex::new(seeded);

    let taken = {
        let mut guard = mutex.lock().unwrap();
        std::mem::take(&mut *guard)
    };
    let taken_malus = malus(&taken, PathType::Water);
    assert_eq!(
        taken_malus,
        rank32(-1.0),
        "moved-out navigator must retain its overrides, got {taken_malus}"
    );
    {
        *mutex.lock().unwrap() = taken;
    }

    let restored_malus = {
        let guard = mutex.lock().unwrap();
        malus(&guard, PathType::Water)
    };
    assert_eq!(
        restored_malus,
        rank32(-1.0),
        "restored navigator must still avoid water, got {restored_malus}"
    );
}

#[test]
fn probe_pattern_runs_on_current_thread_runtime() {
    let runtime = tokio::runtime::Builder::new_current_thread()
        .build()
        .expect("current_thread runtime");
    let mut seeded = Navigator::default();
    seeded.set_pathfinding_malus(PathType::Water, rank32(-1.0));
    let mutex = std::sync::Mutex::new(seeded);

    let found = runtime.block_on(async {
        let navigator = {
            let mut guard = mutex.lock().unwrap();
            std::mem::take(&mut *guard)
        };
        tokio::task::yield_now().await;
        let found = malus(&navigator, PathType::Water);
        {
            *mutex.lock().unwrap() = navigator;
        }
        found
    });

    assert_eq!(found, rank32(-1.0));
}

#[test]
fn swimming_mobs_keep_water_passable() {
    let mut nav = Navigator::default();
    nav.set_pathfinding_malus(PathType::Water, 0);
    let mut data = MalusTable::new();
    nav.apply_malus_overrides(&mut data);

    let water = node(PathType::Water, malus_in(&data, PathType::Water));
    assert_eq!(water.cost_malus, 0);
    assert!(is_neighbor_valid(Some(&water), &node(PathType::Walkable, 0)));
}

#[test]
fn a_stopped_navigator_is_idle() {
    let mut nav = Navigator::default();
    assert!(nav.is_idle());
    let here = Position {
        x: 0,
        y: rank64(64.0),
        z: 0,
    };
    nav.set_progress(NavigatorGoal::new(
        here,
        Position {
            x: rank64(5.0),
            ..here
        },
        rank64(1.0),
    ));
    assert!(!nav.is_idle());
    nav.stop();
    assert!(nav.is_idle());
    assert!(nav.current_path().is_none());
}

fn step(x: i32, tentative: f32, left: f32) -> Neighbor {
    Neighbor {
        pos: BlockPos { x, y: 64, z: 0 },
        path_type: PathType::Walkable,
        cost_malus: 0,
        walked_dist: rank32(tentative),
        tentative_g: rank32(tentative),
        dist_to_target: rank32(left),
        f: rank32(tentative + left),
    }
}

#[test]
fn a_search_finds_the_way_along_a_row() {
    let target = BlockPos { x: 3, y: 64, z: 0 };
    let mut search = PathSearch::new(
        BlockPos { x: 0, y: 64, z: 0 },
        PathType::Walkable,
        0,
        rank32(3.0),
        target,
        0,
        rank32(32.0),
        100,
    );
    let mut visits = 0;
    loop {
        match search.visit() {
            Visit::Done => break,
            Visit::Expand(current) => {
                visits += 1;
                assert!(visits < 50);
                let x = current.pos.x;
                if x + 1 <= 3 {
                    let walked = (x + 1) as f32;
                    search.relax(&step(x + 1, walked, (3 - x - 1) as f32));
                }
            }
        }
    }
    let path = search.finish();
    let row: Vec<i32> = path.nodes.iter().map(|node| node.pos.x).collect();
    assert!(path.reached);
    assert_eq!(row.last(), Some(&3));
    assert!(row.windows(2).all(|pair| pair[1] == pair[0] + 1));
}

#[test]
fn a_search_keeps_the_better_of_two_ways() {
    let mut search = PathSearch::new(
        BlockPos { x: 0, y: 64, z: 0 },
        PathType::Walkable,
        0,
        rank32(9.0),
        BlockPos { x: 9, y: 64, z: 0 },
        0,
        rank32(32.0),
        100,
    );
    assert!(matches!(search.visit(), Visit::Expand(_)));
    search.relax(&step(1, 5.0, 8.0));
    search.relax(&step(1, 2.0, 8.0));
    search.relax(&step(1, 3.0, 8.0));
    assert_eq!(search.open.len(), 1);
    assert_eq!(search.open[0].g, rank32(2.0));
}

#[test]
fn paths_are_at_least_sixteen_blocks_long() {
    assert_eq!(max_path_length(rank32(4.0)), rank32(16.0));
    assert_eq!(max_path_length(rank32(40.0)), rank32(40.0));
}

#[test]
fn a_path_is_done_after_its_last_node() {
    let mut path = Path::new(
        vec![node(PathType::Walkable, 0)],
        BlockPos { x: 0, y: 64, z: 0 },
        true,
    );
    assert!(!path.is_done());
    assert_eq!(
        path.get_next_node_pos(),
        Some(BlockPos { x: 0, y: 64, z: 0 })
    );
    path.advance();
    assert!(path.is_done());
    assert_eq!(path.get_next_node_pos(), None);
}
