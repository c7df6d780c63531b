use vstd::prelude::*;

use crate::coord::{manhattan, step, Coord, Direction};
use crate::tile::{Color, Paint, Rune, Tile};
use crate::tilemap::{grid_paints, parse_grid, TileMap};

verus! {

/// What an entity is; decides how it answers a hail.
#[derive(Debug, Clone, Copy, PartialEq, Eq, Structural)]
pub enum EntityType {
    Player,
    Enemy,
    Npc,
}

/// An actor on the grid.
#[derive(Debug, Clone, PartialEq, Eq)]
pub struct Entity {
    pub name: String,
    pub kind: EntityType,
    pub position: Coord,
    pub rune: Rune,
}

/// Whether `e` has exactly these name, kind, position and rune.
pub open spec fn is_entity(
    e: Entity,
    name: Seq<char>,
    kind: EntityType,
    position: Coord,
    rune: Rune,
) -> bool {
    e.name@ == name && e.kind == kind && e.position == position && e.rune == rune
}

/// The canned answer of each kind of entity.
pub open spec fn greeting(kind: EntityType) -> Seq<char> {
    match kind {
        EntityType::Player => "Hello!"@,
        EntityType::Enemy => "Grrr!"@,
        EntityType::Npc => "Hi there!"@,
    }
}

impl Entity {
    /// The entity's answer when hailed, by kind.
    pub fn hail(&self) -> (r: &'static str)
        ensures
            r@ == greeting(self.kind),
    {
        match self.kind {
            EntityType::Player => "Hello!",
            EntityType::Enemy => "Grrr!",
            EntityType::Npc => "Hi there!",
        }
    }
}

/// Where an actor at `from` stands after trying one step in direction `d`:
/// the neighbouring cell if the map lets it in, else `from`.
pub open spec fn next_position(map: TileMap, from: Coord, d: Direction) -> Coord {
    let cand = step(from, d);
    if map.passable(cand.col as int, cand.row as int) {
        cand
    } else {
        from
    }
}

/// Where an actor at `from` stands after trying each step of `ds` in turn.
pub open spec fn walk(map: TileMap, from: Coord, ds: Seq<Direction>) -> Coord
    decreases ds.len(),
{
    if ds.len() == 0 {
        from
    } else {
        walk(map, next_position(map, from, ds[0]), ds.drop_first())
    }
}

/// Whether `es[i]` is at the least distance from `at` of all of `es`, and
/// strictly closer than every entity before it.
pub open spec fn is_first_nearest(es: Seq<Entity>, at: Coord, i: int) -> bool {
    &&& 0 <= i < es.len()
    &&& forall|j: int|
        0 <= j < es.len() ==> manhattan(es[i].position, at) <= manhattan(
            #[trigger] es[j].position,
            at,
        )
    &&& forall|j: int|
        0 <= j < i ==> manhattan(es[i].position, at) < manhattan(#[trigger] es[j].position, at)
}

/// The drawing step that shows an entity.
pub open spec fn entity_paint(e: Entity) -> Paint {
    Paint { at: e.position, rune: e.rune }
}

/// The whole frame: every tile, then every other entity, then the player.
pub open spec fn frame(map: TileMap, others: Seq<Entity>, player: Entity) -> Seq<Paint> {
    grid_paints(map.grid(), map.num_rows() as int) + others.map_values(|e: Entity| entity_paint(e))
        + seq![entity_paint(player)]
}

/// The terrain, the player and the other entities of one game.
#[derive(Debug)]
pub struct World {
    entities: Vec<Entity>,
    tiles: TileMap,
    player: Entity,
}

impl World {
    /// The player entity.
    pub closed spec fn hero(&self) -> Entity {
        self.player
    }

    /// The other entities, in the order they were added.
    pub closed spec fn roster(&self) -> Seq<Entity> {
        self.entities@
    }

    /// The terrain.
    pub closed spec fn terrain(&self) -> TileMap {
        self.tiles
    }

    /// A world on a `rows` x `cols` map read from `map`, with the player in
    /// the middle of the grid and the two resident characters.
    pub fn new(rows: usize, cols: usize, map: String) -> (w: World)
        ensures
            w.terrain().num_rows() == rows,
            w.terrain().num_cols() == cols,
            w.terrain().grid() == parse_grid(rows as nat, cols as nat, map@),
            is_entity(
                w.hero(),
                "An Adventurer"@,
                EntityType::Player,
                Coord { col: cols / 2, row: rows / 2 },
                Rune { display: '@', color: Color::Yellow, background: Color::Green },
            ),
            w.roster().len() == 2,
            is_entity(
                w.roster()[0],
                "Kobold"@,
                EntityType::Enemy,
                Coord { col: 60, row: 22 },
                Rune { display: '&', color: Color::Red, background: Color::Black },
            ),
            is_entity(
                w.roster()[1],
                "Marshall McDoogal"@,
                EntityType::Npc,
                Coord { col: 60, row: 25 },
                Rune { display: '$', color: Color::Blue, background: Color::Black },
            ),
    {
        let tiles = TileMap::new(rows, cols, map.as_str());
        let player = Entity {
            name: String::from_str("An Adventurer"),
            kind: EntityType::Player,
            rune: Rune { display: '@', color: Color::Yellow, background: Color::Green },
            position: Coord { col: cols / 2, row: rows / 2 },
        };
        let kobold = Entity {
            name: String::from_str("Kobold"),
            kind: EntityType::Enemy,
            rune: Rune { display: '&', color: Color::Red, background: Color::Black },
            position: Coord { col: 60, row: 22 },
        };
        let marshall = Entity {
            name: String::from_str("Marshall McDoogal"),
            kind: EntityType::Npc,
            rune: Rune { display: '$', color: Color::Blue, background: Color::Black },
            position: Coord { col: 60, row: 25 },
        };
        let entities = vec![kobold, marshall];
        World { entities, tiles, player }
    }

    /// A world on the given terrain with the given player and other entities.
    pub fn from_parts(map: TileMap, player: Entity, entities: Vec<Entity>) -> (w: World)
        ensures
            w.terrain() == map,
            w.hero() == player,
            w.roster() == entities@,
    {
        World { entities, tiles: map, player }
    }

    /// The same world with the player moved to `at`, unchecked.
    pub fn with_player_at(self, at: Coord) -> (w: World)
        ensures
            w.terrain() == self.terrain(),
            w.roster() == self.roster(),
            w.hero() == (Entity { position: at, ..self.hero() }),
    {
        let mut w = self;
        w.player.position = at;
        w
    }

    /// Tries to move the player one step; a step off the grid or onto a
    /// solid tile is ignored.
    pub fn move_player(&mut self, direction: Direction)
        ensures
            final(self).terrain() == old(self).terrain(),
            final(self).roster() == old(self).roster(),
            final(self).hero() == (Entity {
                position: next_position(old(self).terrain(), old(self).hero().position, direction),
                ..old(self).hero()
            }),
            ({
                let cand = step(old(self).hero().position, direction);
                if old(self).terrain().passable(cand.col as int, cand.row as int) {
                    final(self).hero().position == cand
                } else {
                    final(self).hero().position == old(self).hero().position
                }
            }),
    {
        let new_position = self.player.position + direction;
        if self.tiles.can_move_to(new_position.col, new_position.row) {
            self.player.position = new_position;
        }
    }

    /// The entity nearest to the player (the first such in order); the
    /// player itself when there is no other entity.
    pub fn closest_entity(&self) -> (e: &Entity)
        ensures
            self.roster().len() == 0 ==> *e == self.hero(),
            self.roster().len() > 0 ==> exists|i: int|
                is_first_nearest(self.roster(), self.hero().position, i) && *e == self.roster()[i],
    {
        let n = self.entities.len();
        if n == 0 {
            return &self.player;
        }
        let at = self.player.position;
        let mut best: usize = 0;
        let mut best_d = self.entities[0].position.wide_distance(&at);
        for i in 1..n
            invariant
                n == self.entities@.len(),
                at == self.player.position,
                best < n,
                best_d == manhattan(self.entities@[best as int].position, at),
                forall|j: int|
                    0 <= j < i ==> manhattan(self.entities@[best as int].position, at) <= manhattan(
                        #[trigger] self.entities@[j].position,
                        at,
                    ),
                forall|j: int|
                    0 <= j < best ==> manhattan(self.entities@[best as int].position, at)
                        < manhattan(#[trigger] self.entities@[j].position, at),
        {
            let d = self.entities[i].position.wide_distance(&at);
            if d < best_d {
                best = i;
                best_d = d;
            }
        }
        assert(is_first_nearest(self.entities@, at, best as int));
        &self.entities[best]
    }

    /// True iff `(col, row)` is on the grid and its tile does not block.
    pub fn can_move_to(&self, col: usize, row: usize) -> (ok: bool)
        ensures
            ok == self.terrain().passable(col as int, row as int),
    {
        self.tiles.can_move_to(col, row)
    }

    /// The full frame in drawing order: every tile, then every other
    /// entity, then the player last, so that it is always visible.
    pub fn render(&self) -> (out: Vec<Paint>)
        ensures
            out@ == frame(self.terrain(), self.roster(), self.hero()),
    {
        let mut out = self.tiles.render();
        let ghost base = out@;
        let n = self.entities.len();
        for i in 0..n
            invariant
                n == self.entities@.len(),
                out@ =~= base + self.entities@.map_values(|e: Entity| entity_paint(e)).take(
                    i as int,
                ),
        {
            let e = &self.entities[i];
            out.push(Paint { at: e.position, rune: e.rune });
        }
        assert(self.entities@.map_values(|e: Entity| entity_paint(e)).take(n as int)
            =~= self.entities@.map_values(|e: Entity| entity_paint(e)));
        out.push(Paint { at: self.player.position, rune: self.player.rune });
        out
    }

    /// The player entity.
    pub fn player(&self) -> (p: &Entity)
        ensures
            *p == self.hero(),
    {
        &self.player
    }

    /// The other entities, in the order they were added.
    pub fn entities(&self) -> (es: &Vec<Entity>)
        ensures
            es@ == self.roster(),
    {
        &self.entities
    }

    /// The terrain tiles, row by row.
    pub fn tiles(&self) -> (t: &Vec<Vec<Tile>>)
        ensures
            t@.map_values(|row: Vec<Tile>| row@) == self.terrain().grid(),
    {
        self.tiles.tiles()
    }

    /// The terrain.
    pub fn map(&self) -> (m: &TileMap)
        ensures
            *m == self.terrain(),
    {
        &self.tiles
    }
}

/// At most one entity is the first nearest: ties go to the earliest.
pub proof fn lemma_first_nearest_unique(es: Seq<Entity>, at: Coord, i: int, j: int)
    requires
        is_first_nearest(es, at, i),
        is_first_nearest(es, at, j),
    ensures
        i == j,
{
    if i < j {
        assert(manhattan(es[j].position, at) < manhattan(es[i].position, at));
    } else if j < i {
        assert(manhattan(es[i].position, at) < manhattan(es[j].position, at));
    }
}

/// Stepping north or west from the origin leaves an actor at the origin,
/// whatever the map and however many such steps are taken.
pub proof fn lemma_origin_is_fixed(map: TileMap, ds: Seq<Direction>)
    requires
        forall|i: int|
            0 <= i < ds.len() ==> #[trigger] ds[i] == Direction::North || ds[i] == Direction::West,
    ensures
        walk(map, Coord { col: 0, row: 0 }, ds) == (Coord { col: 0, row: 0 }),
    decreases ds.len(),
{
    if ds.len() > 0 {
        assert(next_position(map, Coord { col: 0, row: 0 }, ds[0]) == Coord { col: 0, row: 0 });
        lemma_origin_is_fixed(map, ds.drop_first());
    }
}

} // verus!
