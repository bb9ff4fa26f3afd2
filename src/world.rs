use vstd::prelude::*;

use crate::flags::{flag_is, Flags};
use crate::items::Item;
use crate::narration::Line;
use crate::parser::Direction;

verus! {

/// For each direction, the room it leads to, if a passage exists.
#[derive(Clone, Copy, Debug, PartialEq, Eq, Structural)]
pub struct Connection {
    pub north: Option<usize>,
    pub south: Option<usize>,
    pub east: Option<usize>,
    pub west: Option<usize>,
}

/// The room a direction leads to.
pub open spec fn toward(c: Connection, d: Direction) -> Option<usize> {
    match d {
        Direction::North => c.north,
        Direction::South => c.south,
        Direction::East => c.east,
        Direction::West => c.west,
    }
}

impl Connection {
    /// The passages towards north, south, east and west.
    pub fn new(north: Option<usize>, south: Option<usize>, east: Option<usize>, west: Option<usize>) -> (r:
        Connection)
        ensures
            r == (Connection { north, south, east, west }),
    {
        Connection { north, south, east, west }
    }

    /// The room that `d` leads to.
    pub fn target(&self, d: Direction) -> (r: Option<usize>)
        ensures
            r == toward(*self, d),
    {
        match d {
            Direction::North => self.north,
            Direction::South => self.south,
            Direction::East => self.east,
            Direction::West => self.west,
        }
    }
}

/// A room: its place in the room table, its passages and the items lying in it.
pub struct Room {
    pub id: usize,
    pub connections: Connection,
    pub items: Vec<Item>,
}

/// What a room holds, with its items as a sequence.
pub struct RoomView {
    pub id: usize,
    pub connections: Connection,
    pub items: Seq<Item>,
}

impl View for Room {
    type V = RoomView;

    open spec fn view(&self) -> RoomView {
        RoomView { id: self.id, connections: self.connections, items: self.items@ }
    }
}

/// The description of room `id` under flags `m`.
pub open spec fn description(id: usize, m: Map<Seq<char>, bool>) -> Seq<Line> {
    if id == 0 {
        seq![
            if flag_is(m, "pickedUpCat"@, false) {
                Line::WakeCatThere
            } else {
                Line::WakeCatGone
            },
            if flag_is(m, "initialSwitchPulled"@, false) {
                Line::LeverInWall
            } else {
                Line::PassageRevealed
            },
        ]
    } else if id == 1 {
        seq![
            Line::GreenhouseIntro,
            if flag_is(m, "smashedDoor"@, false) {
                Line::GlassDoorShut
            } else {
                Line::GlassDoorBroken
            },
            if flag_is(m, "pickedUpShovel"@, false) {
                Line::TableWithShovel
            } else {
                Line::TableWithoutShovel
            },
        ]
    } else if id == 2 {
        seq![Line::Crossroads]
    } else if id == 3 {
        seq![
            Line::WellIntro,
            if flag_is(m, "isBuckedPulledUp"@, false) {
                Line::RopeHangs
            } else if flag_is(m, "pickedUpKey"@, false) {
                Line::KeyInBucket
            } else {
                Line::EmptyBucket
            },
        ]
    } else if id == 4 {
        if flag_is(m, "shackDoorUnlocked"@, false) {
            seq![Line::ShackOutside, Line::ShackLocked]
        } else if flag_is(m, "shackDoorOpen"@, true) {
            seq![Line::ShackOutside, Line::ShackOpen]
        } else {
            seq![Line::ShackOutside]
        }
    } else if id == 5 {
        if flag_is(m, "isCatOnAltar"@, true) {
            seq![Line::ShackInside, Line::MirrorShowsHead]
        } else {
            seq![Line::ShackInside]
        }
    } else {
        Seq::empty()
    }
}

/// Whether room `id` lets the player leave towards `d` under flags `m`.
pub open spec fn passable(id: usize, m: Map<Seq<char>, bool>, d: Direction) -> bool {
    if id == 0 && d == Direction::North {
        flag_is(m, "initialSwitchPulled"@, true)
    } else if id == 1 && d == Direction::North {
        flag_is(m, "smashedDoor"@, true)
    } else if id == 4 && d == Direction::East {
        flag_is(m, "shackDoorUnlocked"@, true)
    } else {
        true
    }
}

/// The passages of room `id` in the game's world.
pub open spec fn links(id: int) -> Connection {
    if id == 0 {
        Connection { north: Some(1), south: None, east: None, west: None }
    } else if id == 1 {
        Connection { north: Some(2), south: Some(0), east: None, west: None }
    } else if id == 2 {
        Connection { north: None, south: Some(1), east: Some(4), west: Some(3) }
    } else if id == 3 {
        Connection { north: None, south: None, east: Some(2), west: None }
    } else if id == 4 {
        Connection { north: None, south: None, east: Some(5), west: Some(2) }
    } else {
        Connection { north: None, south: None, east: None, west: Some(4) }
    }
}

/// The items that room `id` of the game's world holds at the start.
pub open spec fn initial_items(id: int) -> Seq<Item> {
    if id == 0 {
        seq![Item::Cat, Item::Lever]
    } else if id == 1 {
        seq![Item::Shovel, Item::GlassDoor]
    } else if id == 2 {
        Seq::empty()
    } else if id == 3 {
        seq![Item::Rope, Item::Key]
    } else if id == 4 {
        seq![Item::Door]
    } else {
        seq![Item::Altar, Item::Head]
    }
}

/// Whether a target lies inside the room table.
pub open spec fn target_ok(t: Option<usize>, n: int) -> bool {
    match t {
        Some(i) => i < n,
        None => true,
    }
}

/// A room table: each room sits at its own id, and every passage leads to
/// a room of the table.
pub open spec fn world_wf(rooms: Seq<RoomView>) -> bool {
    forall|i: int|
        0 <= i < rooms.len() ==> {
            let c = #[trigger] rooms[i].connections;
            &&& rooms[i].id == i
            &&& target_ok(c.north, rooms.len() as int)
            &&& target_ok(c.south, rooms.len() as int)
            &&& target_ok(c.east, rooms.len() as int)
            &&& target_ok(c.west, rooms.len() as int)
        }
}

/// The views of a room table.
pub open spec fn room_views(rooms: Seq<Room>) -> Seq<RoomView> {
    rooms.map_values(|r: Room| r@)
}

impl Room {
    /// The room's description under the current flags.
    pub fn describe(&self, flags: &Flags) -> (r: Vec<Line>)
        ensures
            r@ == description(self.id, flags@),
    {
        let mut r: Vec<Line> = Vec::new();
        if self.id == 0 {
            if flags.is("pickedUpCat", false) {
                r.push(Line::WakeCatThere);
            } else {
                r.push(Line::WakeCatGone);
            }
            if flags.is("initialSwitchPulled", false) {
                r.push(Line::LeverInWall);
            } else {
                r.push(Line::PassageRevealed);
            }
        } else if self.id == 1 {
            r.push(Line::GreenhouseIntro);
            if flags.is("smashedDoor", false) {
                r.push(Line::GlassDoorShut);
            } else {
                r.push(Line::GlassDoorBroken);
            }
            if flags.is("pickedUpShovel", false) {
                r.push(Line::TableWithShovel);
            } else {
                r.push(Line::TableWithoutShovel);
            }
        } else if self.id == 2 {
            r.push(Line::Crossroads);
        } else if self.id == 3 {
            r.push(Line::WellIntro);
            if flags.is("isBuckedPulledUp", false) {
                r.push(Line::RopeHangs);
            } else if flags.is("pickedUpKey", false) {
                r.push(Line::KeyInBucket);
            } else {
                r.push(Line::EmptyBucket);
            }
        } else if self.id == 4 {
            r.push(Line::ShackOutside);
            if flags.is("shackDoorUnlocked", false) {
                r.push(Line::ShackLocked);
            } else if flags.is("shackDoorOpen", true) {
                r.push(Line::ShackOpen);
            }
        } else if self.id == 5 {
            r.push(Line::ShackInside);
            if flags.is("isCatOnAltar", true) {
                r.push(Line::MirrorShowsHead);
            }
        }
        assert(r@ =~= description(self.id, flags@));
        r
    }

    /// Whether the room lets the player leave towards `direction`.
    pub fn can_move(&self, flags: &Flags, direction: Direction) -> (r: bool)
        ensures
            r == passable(self.id, flags@, direction),
    {
        match direction {
            Direction::North => if self.id == 0 {
                flags.is("initialSwitchPulled", true)
            } else if self.id == 1 {
                flags.is("smashedDoor", true)
            } else {
                true
            },
            Direction::East => if self.id == 4 {
                flags.is("shackDoorUnlocked", true)
            } else {
                true
            },
            _ => true,
        }
    }
}

fn room(id: usize, connections: Connection, items: Vec<Item>) -> (r: Room)
    ensures
        r@ == (RoomView { id, connections, items: items@ }),
{
    Room { id, connections, items }
}

/// The game's world: six rooms with their passages and items.
pub fn create_rooms() -> (r: Vec<Room>)
    ensures
        r@.len() == 6,
        forall|i: int|
            0 <= i < 6 ==> (#[trigger] r@[i]@) == (RoomView {
                id: i as usize,
                connections: links(i),
                items: initial_items(i),
            }),
        world_wf(room_views(r@)),
{
    let mut r: Vec<Room> = Vec::new();
    r.push(room(0, Connection::new(Some(1), None, None, None), vec![Item::Cat, Item::Lever]));
    r.push(room(1, Connection::new(Some(2), Some(0), None, None), vec![Item::Shovel, Item::GlassDoor]));
    r.push(room(2, Connection::new(None, Some(1), Some(4), Some(3)), Vec::new()));
    r.push(room(3, Connection::new(None, None, Some(2), None), vec![Item::Rope, Item::Key]));
    r.push(room(4, Connection::new(None, None, Some(5), Some(2)), vec![Item::Door]));
    r.push(room(5, Connection::new(None, None, None, Some(4)), vec![Item::Altar, Item::Head]));
    assert forall|i: int| 0 <= i < 6 implies (#[trigger] r@[i]@) == (RoomView {
        id: i as usize,
        connections: links(i),
        items: initial_items(i),
    }) by {
        assert(r@[i]@.items =~= initial_items(i));
    }
    r
}

/// The game's flags at the start of a session: the whole universe, every
/// flag false but the one that keeps the session running, which is true.
pub fn game_flags() -> (r: Flags)
    ensures
        flag_is(r@, "pickedUpCat"@, false),
        flag_is(r@, "initialSwitchPulled"@, false),
        flag_is(r@, "pickedUpShovel"@, false),
        flag_is(r@, "smashedDoor"@, false),
        flag_is(r@, "isBuckedPulledUp"@, false),
        flag_is(r@, "pickedUpKey"@, false),
        flag_is(r@, "bucketOnFloor"@, false),
        flag_is(r@, "shackDoorUnlocked"@, false),
        flag_is(r@, "shackDoorOpen"@, false),
        flag_is(r@, "isCatOnAltar"@, false),
        flag_is(r@, "didUseMirror"@, false),
        flag_is(r@, "isGameRunning"@, true),
        r@.dom().len() == 12,
{
    let mut v: Vec<(String, bool)> = Vec::new();
    v.push((String::from_str("pickedUpCat"), false));
    v.push((String::from_str("initialSwitchPulled"), false));
    v.push((String::from_str("pickedUpShovel"), false));
    v.push((String::from_str("smashedDoor"), false));
    v.push((String::from_str("isBuckedPulledUp"), false));
    v.push((String::from_str("pickedUpKey"), false));
    v.push((String::from_str("bucketOnFloor"), false));
    v.push((String::from_str("shackDoorUnlocked"), false));
    v.push((String::from_str("shackDoorOpen"), false));
    v.push((String::from_str("isCatOnAltar"), false));
    v.push((String::from_str("didUseMirror"), false));
    v.push((String::from_str("isGameRunning"), true));
    let f = Flags::new(v);
    proof {
        reveal_strlit("pickedUpCat");
        reveal_strlit("initialSwitchPulled");
        reveal_strlit("pickedUpShovel");
        reveal_strlit("smashedDoor");
        reveal_strlit("isBuckedPulledUp");
        reveal_strlit("pickedUpKey");
        reveal_strlit("bucketOnFloor");
        reveal_strlit("shackDoorUnlocked");
        reveal_strlit("shackDoorOpen");
        reveal_strlit("isCatOnAltar");
        reveal_strlit("didUseMirror");
        reveal_strlit("isGameRunning");
        reveal_with_fuel(crate::flags::map_of, 13);
        assert("pickedUpCat"@.len() == 11);
        assert("initialSwitchPulled"@.len() == 19);
        assert("pickedUpShovel"@.len() == 14);
        assert("smashedDoor"@.len() == 11);
        assert("isBuckedPulledUp"@.len() == 16);
        assert("pickedUpKey"@.len() == 11);
        assert("bucketOnFloor"@.len() == 13);
        assert("shackDoorUnlocked"@.len() == 17);
        assert("shackDoorOpen"@.len() == 13);
        assert("isCatOnAltar"@.len() == 12);
        assert("didUseMirror"@.len() == 12);
        assert("isGameRunning"@.len() == 13);
        assert("pickedUpCat"@[0] != "smashedDoor"@[0]);
        assert("pickedUpCat"@[8] != "pickedUpKey"@[8]);
        assert("smashedDoor"@[0] != "pickedUpKey"@[0]);
        assert("bucketOnFloor"@[0] != "shackDoorOpen"@[0]);
        assert("bucketOnFloor"@[0] != "isGameRunning"@[0]);
        assert("shackDoorOpen"@[0] != "isGameRunning"@[0]);
        assert("isCatOnAltar"@[0] != "didUseMirror"@[0]);
    }
    f
}

} // verus!
