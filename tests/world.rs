use warquest::{Color, Coord, Direction, Entity, EntityType, Paint, Rune, Tile, TileMap, World};

fn rune(display: char) -> Rune {
    Rune { display, color: Color::White, background: Color::Black }
}

fn entity(name: &str, kind: EntityType, col: usize, row: usize) -> Entity {
    Entity { name: String::from(name), kind, position: Coord { col, row }, rune: rune('e') }
}

fn open_map(rows: usize, cols: usize) -> TileMap {
    let line: String = std::iter::repeat('.').take(cols).collect();
    let text: Vec<String> = std::iter::repeat(line).take(rows).collect();
    TileMap::new(rows, cols, &text.join("\n"))
}

#[test]
fn map_test_world_from_map() {
    let map = String::from(".#/\n^A ");
    let tiles = vec![
        vec![Tile::floor(), Tile::wall(), Tile::path()],
        vec![Tile::mountain(), Tile::other('A'), Tile::other(' ')],
    ];
    let world = TileMap::new(2, 3, &map);
    assert_eq!(world.tiles(), &tiles);
}

#[test]
fn map_test_world_truncates_map() {
    let map = String::from("..NOT_HERE\nNOT_THERE");
    let tiles = vec![vec![Tile::floor(), Tile::floor()]];
    let world = TileMap::new(1, 2, &map);
    assert_eq!(world.tiles(), &tiles);
}

#[test]
fn world_test_world_from_map() {
    let map = String::from(".#/\n^A ");
    let tiles = vec![
        vec![Tile::floor(), Tile::wall(), Tile::path()],
        vec![Tile::mountain(), Tile::other('A'), Tile::other(' ')],
    ];
    let world = World::new(2, 3, map);
    assert_eq!(world.tiles(), &tiles);
}

#[test]
fn world_test_world_truncates_map() {
    let map = String::from("..NOT_HERE\nNOT_THERE");
    let tiles = vec![vec![Tile::floor(), Tile::floor()]];
    let world = World::new(1, 2, map);
    assert_eq!(world.tiles(), &tiles);
}

#[test]
fn test_move_character() {
    let map = ".....\n\
               .....\n\
               ..@..\n\
               .....\n\
               .....";
    let mut world = World::new(5, 5, map.to_string()).with_player_at(Coord { col: 2, row: 2 });
    world.move_player(Direction::North);
    assert_eq!(world.player().position, Coord { col: 2, row: 1 });
    world.move_player(Direction::South);
    assert_eq!(world.player().position, Coord { col: 2, row: 2 });
    world.move_player(Direction::West);
    assert_eq!(world.player().position, Coord { col: 1, row: 2 });
    world.move_player(Direction::East);
    assert_eq!(world.player().position, Coord { col: 2, row: 2 });
}

#[test]
fn test_move_character_bounded() {
    let map = "@....\n\
               .....\n\
               .....\n\
               .....\n\
               .....";
    let mut world = World::new(5, 5, map.to_string()).with_player_at(Coord { col: 0, row: 0 });
    world.move_player(Direction::North);
    assert_eq!(world.player().position, Coord { col: 0, row: 0 });
    world.move_player(Direction::South);
    assert_eq!(world.player().position, Coord { col: 0, row: 1 });
    world.move_player(Direction::West);
    assert_eq!(world.player().position, Coord { col: 0, row: 1 });
    world.move_player(Direction::East);
    assert_eq!(world.player().position, Coord { col: 1, row: 1 });
}

#[test]
fn test_can_move_character_walls() {
    let map = ".....\n\
               #####\n\
               .#@..\n\
               .....\n\
               .....";
    let mut world = World::new(5, 5, map.to_string());
    world.move_player(Direction::North);
    let mut world = world.with_player_at(Coord { col: 2, row: 2 });
    assert_eq!(world.player().position, Coord { col: 2, row: 2 });
    world.move_player(Direction::West);
    assert_eq!(world.player().position, Coord { col: 2, row: 2 });
    world.move_player(Direction::South);
    assert_eq!(world.player().position, Coord { col: 2, row: 3 });
    world.move_player(Direction::East);
    assert_eq!(world.player().position, Coord { col: 3, row: 3 });
}

#[test]
fn scenario_walls_block_north_and_west() {
    let map = ".....\n#####\n.#@..\n.....\n.....";
    let mut world = World::new(5, 5, map.to_string());
    assert_eq!(world.map().rows(), 5);
    assert_eq!(world.map().cols(), 5);
    assert_eq!(world.player().position, Coord { col: 2, row: 2 });
    world.move_player(Direction::North);
    assert_eq!(world.player().position, Coord { col: 2, row: 2 });
    world.move_player(Direction::West);
    assert_eq!(world.player().position, Coord { col: 2, row: 2 });
    world.move_player(Direction::South);
    assert_eq!(world.player().position, Coord { col: 2, row: 3 });
    world.move_player(Direction::East);
    assert_eq!(world.player().position, Coord { col: 3, row: 3 });
}

#[test]
fn move_stops_at_far_edges_and_mountains() {
    let mut world = World::new(2, 3, String::from("..^\n...")).with_player_at(Coord { col: 2, row: 1 });
    world.move_player(Direction::East);
    assert_eq!(world.player().position, Coord { col: 2, row: 1 });
    world.move_player(Direction::South);
    assert_eq!(world.player().position, Coord { col: 2, row: 1 });
    world.move_player(Direction::North);
    assert_eq!(world.player().position, Coord { col: 2, row: 1 });
    world.move_player(Direction::West);
    assert_eq!(world.player().position, Coord { col: 1, row: 1 });
    world.move_player(Direction::North);
    assert_eq!(world.player().position, Coord { col: 1, row: 0 });
}

#[test]
fn move_onto_marker_and_hazard_tiles() {
    let mut world = World::new(1, 3, String::from(".\u{2620}A")).with_player_at(Coord { col: 0, row: 0 });
    world.move_player(Direction::East);
    assert_eq!(world.player().position, Coord { col: 1, row: 0 });
    world.move_player(Direction::East);
    assert_eq!(world.player().position, Coord { col: 2, row: 0 });
}

#[test]
fn repeated_north_west_from_origin_stays() {
    let mut world = World::new(3, 3, String::from("...\n...\n...")).with_player_at(Coord { col: 0, row: 0 });
    for _ in 0..5 {
        world.move_player(Direction::West);
        assert_eq!(world.player().position, Coord { col: 0, row: 0 });
        world.move_player(Direction::North);
        assert_eq!(world.player().position, Coord { col: 0, row: 0 });
    }
}

#[test]
fn moves_leave_terrain_and_others_alone() {
    let mut world = World::new(40, 80, String::from("...."));
    let before_tiles = world.tiles().clone();
    let before_others = world.entities().clone();
    world.move_player(Direction::South);
    assert_eq!(world.tiles(), &before_tiles);
    assert_eq!(world.entities(), &before_others);
    assert_eq!(world.player().name, "An Adventurer");
}

#[test]
fn new_world_seeds_player_and_residents() {
    let world = World::new(33, 100, String::new());
    let p = world.player();
    assert_eq!(p.name, "An Adventurer");
    assert_eq!(p.kind, EntityType::Player);
    assert_eq!(p.position, Coord { col: 50, row: 16 });
    assert_eq!(p.rune, Rune { display: '@', color: Color::Yellow, background: Color::Green });
    let es = world.entities();
    assert_eq!(es.len(), 2);
    assert_eq!(es[0].name, "Kobold");
    assert_eq!(es[0].kind, EntityType::Enemy);
    assert_eq!(es[0].position, Coord { col: 60, row: 22 });
    assert_eq!(es[1].name, "Marshall McDoogal");
    assert_eq!(es[1].kind, EntityType::Npc);
    assert_eq!(es[1].position, Coord { col: 60, row: 25 });
}

#[test]
fn closest_entity_ties_go_to_first() {
    let player = entity("hero", EntityType::Player, 10, 10);
    let others = vec![
        entity("far", EntityType::Enemy, 15, 10),
        entity("near one", EntityType::Npc, 10, 13),
        entity("near two", EntityType::Enemy, 7, 10),
    ];
    let world = World::from_parts(open_map(20, 20), player, others);
    let e = world.closest_entity();
    assert_eq!(e.name, "near one");
    assert_eq!(e.position.distance(&Coord { col: 10, row: 10 }), 3);
}

#[test]
fn closest_entity_picks_strict_minimum() {
    let player = entity("hero", EntityType::Player, 0, 0);
    let others = vec![
        entity("a", EntityType::Enemy, 4, 4),
        entity("b", EntityType::Enemy, 1, 2),
        entity("c", EntityType::Npc, 0, 2),
    ];
    let world = World::from_parts(open_map(5, 5), player, others);
    assert_eq!(world.closest_entity().name, "c");
}

#[test]
fn closest_entity_without_others_is_player() {
    let player = entity("hero", EntityType::Player, 1, 1);
    let world = World::from_parts(open_map(3, 3), player, Vec::new());
    let e = world.closest_entity();
    assert_eq!(e.kind, EntityType::Player);
    assert_eq!(e.name, "hero");
}

#[test]
fn hail_answers_by_kind() {
    assert_eq!(entity("k", EntityType::Enemy, 0, 0).hail(), "Grrr!");
    assert_eq!(entity("m", EntityType::Npc, 0, 0).hail(), "Hi there!");
    assert_eq!(entity("p", EntityType::Player, 0, 0).hail(), "Hello!");
}

#[test]
fn can_move_to_checks_bounds_and_solidity() {
    let world = World::new(2, 2, String::from(".#\n^."));
    assert!(world.can_move_to(0, 0));
    assert!(!world.can_move_to(1, 0));
    assert!(!world.can_move_to(0, 1));
    assert!(world.can_move_to(1, 1));
    assert!(!world.can_move_to(2, 1));
    assert!(!world.can_move_to(1, 2));
}

#[test]
fn render_draws_tiles_then_others_then_player() {
    let player = entity("hero", EntityType::Player, 1, 0);
    let mut player_rune = player.clone();
    player_rune.rune = Rune { display: '@', color: Color::Yellow, background: Color::Green };
    let others = vec![entity("x", EntityType::Enemy, 1, 0)];
    let world = World::from_parts(TileMap::new(1, 2, "#."), player_rune, others);
    let out = world.render();
    assert_eq!(
        out,
        vec![
            Paint { at: Coord { col: 0, row: 0 }, rune: Tile::wall().rune },
            Paint { at: Coord { col: 1, row: 0 }, rune: Tile::floor().rune },
            Paint { at: Coord { col: 1, row: 0 }, rune: rune('e') },
            Paint {
                at: Coord { col: 1, row: 0 },
                rune: Rune { display: '@', color: Color::Yellow, background: Color::Green },
            },
        ]
    );
}
