use vstd::prelude::*;

use crate::flags::{flag_set, Flags};
use crate::items::{grab_flags, grab_lines, grabbable, item_name, use_consumes, use_flags, use_lines, Item};
use crate::narration::Line;
use crate::parser::{command_of, parse_line, Command, Direction};
use crate::text::{lower_of, lowercase, split_spaces, trim, trimmed};
use crate::world::{
    create_rooms, description, initial_items, links, passable, room_views, target_ok, toward, world_wf, Room,
    RoomView,
};

verus! {

/// A session: the rooms, where the player stands, and what the player carries.
pub struct Game {
    pub rooms: Vec<Room>,
    pub current_room: usize,
    pub inventory: Vec<Item>,
}

/// The state of a session as values.
pub struct GameView {
    pub rooms: Seq<RoomView>,
    pub current_room: usize,
    pub inventory: Seq<Item>,
}

impl View for Game {
    type V = GameView;

    open spec fn view(&self) -> GameView {
        GameView {
            rooms: room_views(self.rooms@),
            current_room: self.current_room,
            inventory: self.inventory@,
        }
    }
}

/// A well-formed session stands in a room of a well-formed room table.
pub open spec fn game_wf(g: GameView) -> bool {
    world_wf(g.rooms) && g.current_room < g.rooms.len()
}

/// The first position of an item named `q`, if any.
pub open spec fn find_named(items: Seq<Item>, q: Seq<char>) -> Option<int> {
    if exists|i: int|
        0 <= i < items.len() && item_name(#[trigger] items[i]) == q && forall|j: int|
            0 <= j < i ==> item_name(items[j]) != q {
        Some(
            choose|i: int|
                0 <= i < items.len() && item_name(#[trigger] items[i]) == q && forall|j: int|
                    0 <= j < i ==> item_name(items[j]) != q,
        )
    } else {
        None
    }
}

/// Names of the items, each followed by a space.
pub open spec fn listing(items: Seq<Item>) -> Seq<char>
    decreases items.len(),
{
    if items.len() == 0 {
        Seq::empty()
    } else {
        listing(items.drop_last()) + item_name(items.last()) + seq![' ']
    }
}

/// The narration of the inventory.
pub open spec fn bag_lines(lines: Seq<Line>, items: Seq<Item>) -> bool {
    if items.len() == 0 {
        lines == seq![Line::BagEmpty]
    } else {
        lines.len() == 1 && (lines[0] matches Line::BagContents(s) && s@ == listing(items))
    }
}

/// The room reached by walking towards `d`, and the narration: a dead end
/// when the room bars the way or no passage exists, else the description of
/// the room reached.
pub open spec fn walk(g: GameView, m: Map<Seq<char>, bool>, d: Direction) -> (usize, Seq<Line>) {
    let here = g.rooms[g.current_room as int];
    if !passable(here.id, m, d) {
        (g.current_room, seq![Line::DeadEnd])
    } else {
        match toward(here.connections, d) {
            Some(t) => (t, description(t, m)),
            None => (g.current_room, seq![Line::DeadEnd]),
        }
    }
}

/// The session after the item at `i` of the current room was grabbed.
pub open spec fn after_grab(g: GameView, i: int) -> GameView {
    let here = g.rooms[g.current_room as int];
    let it = here.items[i];
    if grabbable(it) {
        GameView {
            rooms: g.rooms.update(
                g.current_room as int,
                RoomView { items: here.items.remove(i), ..here },
            ),
            inventory: g.inventory.push(it),
            ..g
        }
    } else {
        g
    }
}

/// The session after the item at `i` of the inventory was used on `object`.
pub open spec fn after_use(g: GameView, i: int, object: Seq<char>) -> GameView {
    let it = g.inventory[i];
    if grabbable(it) && use_consumes(it, object, g.current_room) {
        GameView { inventory: g.inventory.remove(i), ..g }
    } else {
        g
    }
}

/// The item of the current room that a grab of `name` takes hold of.
pub open spec fn grab_target(g: GameView, name: Seq<char>) -> Option<int> {
    find_named(g.rooms[g.current_room as int].items, lower_of(name))
}

/// The item of the inventory that a use of `name` picks.
pub open spec fn use_target(g: GameView, name: Seq<char>) -> Option<int> {
    find_named(g.inventory, lower_of(name))
}

/// Grabbing an item that can be carried off takes exactly that one item out
/// of the room and adds it once, at the end, to the inventory; grabbing any
/// other item leaves the room and the inventory as they were (its reaction
/// still fires: see `pick_up_item`).
pub proof fn lemma_grab_moves_item(g: GameView, i: int)
    requires
        game_wf(g),
        0 <= i < g.rooms[g.current_room as int].items.len(),
    ensures
        ({
            let items = g.rooms[g.current_room as int].items;
            let it = items[i];
            let h = after_grab(g, i);
            &&& grabbable(it) ==> {
                &&& h.rooms[g.current_room as int].items == items.remove(i)
                &&& h.rooms[g.current_room as int].items.to_multiset() == items.to_multiset().remove(
                    it,
                )
                &&& h.inventory == g.inventory.push(it)
                &&& h.inventory.to_multiset() == g.inventory.to_multiset().insert(it)
                &&& forall|j: int|
                    0 <= j < g.rooms.len() && j != g.current_room ==> h.rooms[j] == g.rooms[j]
                &&& h.current_room == g.current_room
            }
            &&& !grabbable(it) ==> h == g
        }),
{
    broadcast use vstd::seq_lib::group_to_multiset_ensures;

}

/// Using an item that reports itself used up takes exactly that one item out
/// of the inventory; any other use leaves the inventory as it was.
pub proof fn lemma_use_consumes_item(g: GameView, i: int, object: Seq<char>)
    requires
        0 <= i < g.inventory.len(),
    ensures
        ({
            let it = g.inventory[i];
            let h = after_use(g, i, object);
            &&& (grabbable(it) && use_consumes(it, object, g.current_room)) ==> {
                &&& h.inventory == g.inventory.remove(i)
                &&& h.inventory.to_multiset() == g.inventory.to_multiset().remove(it)
                &&& h.rooms == g.rooms
                &&& h.current_room == g.current_room
            }
            &&& !(grabbable(it) && use_consumes(it, object, g.current_room)) ==> h == g
        }),
{
    broadcast use vstd::seq_lib::group_to_multiset_ensures;

}

/// The first position of an item named `folded` among `items`.
pub fn find_item(items: &Vec<Item>, folded: &str) -> (r: Option<usize>)
    ensures
        match r {
            Some(i) => find_named(items@, folded@) == Some(i as int),
            None => find_named(items@, folded@) is None,
        },
{
    let mut i: usize = 0;
    while i < items.len()
        invariant
            i <= items@.len(),
            forall|j: int| 0 <= j < i ==> item_name(items@[j]) != folded@,
        decreases items@.len() - i,
    {
        if crate::text::str_eq(items[i].name(), folded) {
            proof {
                let q = folded@;
                let s = items@;
                assert(0 <= i < s.len() && item_name(s[i as int]) == q && forall|j: int|
                    0 <= j < i ==> item_name(s[j]) != q);
                let k = choose|k: int|
                    0 <= k < s.len() && item_name(#[trigger] s[k]) == q && forall|j: int|
                        0 <= j < k ==> item_name(s[j]) != q;
                if k < i {
                    assert(item_name(s[k]) != q);
                } else if k > i {
                    assert(item_name(s[i as int]) != q);
                }
            }
            return Some(i);
        }
        i += 1;
    }
    None
}

impl Game {
    /// The session stands in a room of a well-formed room table.
    pub open spec fn wf(&self) -> bool {
        game_wf(self@)
    }

    /// A new session in room 0 of the game's world, with nothing carried.
    pub fn new() -> (r: Game)
        ensures
            r.wf(),
            r.current_room == 0,
            r.inventory@.len() == 0,
            r.rooms@.len() == 6,
            forall|i: int|
                0 <= i < 6 ==> (#[trigger] r.rooms@[i]@) == (RoomView {
                    id: i as usize,
                    connections: links(i),
                    items: initial_items(i),
                }),
    {
        Game { rooms: create_rooms(), current_room: 0, inventory: Vec::new() }
    }

    /// The command on an input line: the line is lowered, trimmed, cut at
    /// every single space and read by the grammar of `command_of`.
    pub fn get_command(&self, line: &str) -> (r: Command)
        ensures
            r@ == command_of(split_spaces(trimmed(lower_of(line@)))),
    {
        let lowered = lowercase(line);
        parse_line(trim(lowered.as_str()))
    }

    /// Walks from the current room: the room and the narration of `walk`.
    fn change_room(&self, next_room: Option<usize>, global_flags: &Flags, direction: Direction) -> (r: (
        usize,
        Vec<Line>,
    ))
        requires
            self.wf(),
            next_room == toward(self@.rooms[self.current_room as int].connections, direction),
        ensures
            r.0 == walk(self@, global_flags@, direction).0,
            r.1@ == walk(self@, global_flags@, direction).1,
    {
        let here = &self.rooms[self.current_room];
        assert(here@ == self@.rooms[self.current_room as int]);
        if !here.can_move(global_flags, direction) {
            let mut out: Vec<Line> = Vec::new();
            out.push(Line::DeadEnd);
            assert(out@ =~= seq![Line::DeadEnd]);
            return (self.current_room, out);
        }
        match next_room {
            Some(room_id) => {
                let ghost c = self@.rooms[self.current_room as int].connections;
                assert(target_ok(c.north, self@.rooms.len() as int));
                assert(room_id < self.rooms@.len());
                let ghost there = self@.rooms[room_id as int].connections;
                assert(self@.rooms[room_id as int] == self.rooms@[room_id as int]@);
                (room_id, self.rooms[room_id].describe(global_flags))
            },
            None => {
                let mut out: Vec<Line> = Vec::new();
                out.push(Line::DeadEnd);
                assert(out@ =~= seq![Line::DeadEnd]);
                (self.current_room, out)
            },
        }
    }

    /// Grabs the first item of the current room whose name matches
    /// `item_name` without regard to case: its reaction fires, and an item
    /// that can be carried off moves to the end of the inventory.
    pub fn pick_up_item(&mut self, item_name: &str, global_flags: &mut Flags) -> (r: Vec<Line>)
        requires
            old(self).wf(),
        ensures
            final(self).wf(),
            match grab_target(old(self)@, item_name@) {
                Some(i) => {
                    let it = old(self)@.rooms[old(self).current_room as int].items[i];
                    &&& final(self)@ == after_grab(old(self)@, i)
                    &&& final(global_flags)@ == grab_flags(it, old(global_flags)@)
                    &&& r@ == grab_lines(it, old(global_flags)@)
                },
                None => {
                    &&& final(self)@ == old(self)@
                    &&& final(global_flags)@ == old(global_flags)@
                    &&& r@ == seq![Line::FoundNothing]
                },
            },
    {
        let folded = lowercase(item_name);
        let cur = self.current_room;
        let ghost g = self@;
        assert(self.rooms@[cur as int]@ == g.rooms[cur as int]);
        match find_item(&self.rooms[cur].items, folded.as_str()) {
            Some(i) => {
                let it = self.rooms[cur].items[i];
                let out = it.on_grab(global_flags);
                if it.is_grabbable() {
                    let mut room = self.rooms.remove(cur);
                    let taken = room.items.remove(i);
                    self.rooms.insert(cur, room);
                    self.inventory.push(taken);
                    proof {
                        let here = g.rooms[cur as int];
                        let rooms2 = g.rooms.update(
                            cur as int,
                            RoomView { items: here.items.remove(i as int), ..here },
                        );
                        assert(room_views(self.rooms@) =~= rooms2);
                        assert forall|j: int| 0 <= j < rooms2.len() implies #[trigger] rooms2[j].connections
                            == g.rooms[j].connections && rooms2[j].id == g.rooms[j].id by {}
                        assert(world_wf(g.rooms));
                        assert forall|j: int| 0 <= j < rooms2.len() implies {
                            let c = #[trigger] rooms2[j].connections;
                            &&& rooms2[j].id == j
                            &&& target_ok(c.north, rooms2.len() as int)
                            &&& target_ok(c.south, rooms2.len() as int)
                            &&& target_ok(c.east, rooms2.len() as int)
                            &&& target_ok(c.west, rooms2.len() as int)
                        } by {}
                    }
                }
                out
            },
            None => {
                let mut out: Vec<Line> = Vec::new();
                out.push(Line::FoundNothing);
                assert(out@ =~= seq![Line::FoundNothing]);
                out
            },
        }
    }

    /// Uses the first carried item whose name matches `item_name` without
    /// regard to case on `object_name`; an item that reports itself used up
    /// leaves the inventory.
    pub fn use_item(&mut self, global_flags: &mut Flags, item_name: String, object_name: String) -> (r:
        Vec<Line>)
        requires
            old(self).wf(),
        ensures
            final(self).wf(),
            match use_target(old(self)@, item_name@) {
                Some(i) => {
                    let it = old(self)@.inventory[i];
                    &&& final(self)@ == after_use(old(self)@, i, object_name@)
                    &&& grabbable(it) ==> final(global_flags)@ == use_flags(
                        it,
                        old(global_flags)@,
                        object_name@,
                        old(self).current_room,
                    )
                    &&& grabbable(it) ==> r@ == use_lines(
                        it,
                        old(global_flags)@,
                        object_name,
                        old(self).current_room,
                    )
                    &&& !grabbable(it) ==> final(global_flags)@ == old(global_flags)@ && r@.len()
                        == 0
                },
                None => {
                    &&& final(self)@ == old(self)@
                    &&& final(global_flags)@ == old(global_flags)@
                    &&& r@ == seq![Line::NotPossessed(item_name)]
                },
            },
    {
        let folded = lowercase(item_name.as_str());
        match find_item(&self.inventory, folded.as_str()) {
            Some(x) => {
                let it = self.inventory[x];
                if it.is_grabbable() {
                    let (consumed, out) = it.on_use(global_flags, object_name, self.current_room);
                    if consumed {
                        self.inventory.remove(x);
                    }
                    out
                } else {
                    Vec::new()
                }
            },
            None => {
                let mut out: Vec<Line> = Vec::new();
                out.push(Line::NotPossessed(item_name));
                assert(out@ =~= seq![Line::NotPossessed(item_name)]);
                out
            },
        }
    }

    /// The description of the current room.
    pub fn look(&self, global_flags: &Flags) -> (r: Vec<Line>)
        requires
            self.wf(),
        ensures
            r@ == description(self.current_room, global_flags@),
    {
        let ghost c = self@.rooms[self.current_room as int].connections;
        assert(self.rooms@[self.current_room as int]@ == self@.rooms[self.current_room as int]);
        self.rooms[self.current_room].describe(global_flags)
    }

    /// The names of the carried items, in the order they were taken.
    pub fn list_inventory_contents(&self) -> (r: Vec<Line>)
        ensures
            bag_lines(r@, self.inventory@),
    {
        let mut out: Vec<Line> = Vec::new();
        if self.inventory.len() == 0 {
            out.push(Line::BagEmpty);
            assert(out@ =~= seq![Line::BagEmpty]);
            return out;
        }
        let mut names = String::new();
        let mut i: usize = 0;
        proof {
            assert(self.inventory@.subrange(0, 0) =~= Seq::<Item>::empty());
        }
        while i < self.inventory.len()
            invariant
                i <= self.inventory@.len(),
                names@ == listing(self.inventory@.subrange(0, i as int)),
            decreases self.inventory@.len() - i,
        {
            proof {
                reveal_strlit(" ");
                assert(self.inventory@.subrange(0, i + 1).drop_last() =~= self.inventory@.subrange(
                    0,
                    i as int,
                ));
            }
            names.append(self.inventory[i].name());
            names.append(" ");
            proof {
                assert(" "@ =~= seq![' ']);
            }
            i += 1;
        }
        proof {
            assert(self.inventory@.subrange(0, i as int) =~= self.inventory@);
        }
        out.push(Line::BagContents(names));
        out
    }

    /// Carries out one command on the session and the flags, and returns
    /// its narration.
    pub fn process_command(&mut self, command: Command, global_flags: &mut Flags) -> (r: Vec<Line>)
        requires
            old(self).wf(),
        ensures
            final(self).wf(),
            match command {
                Command::Walk(d) => {
                    &&& final(self)@ == (GameView {
                        current_room: walk(old(self)@, old(global_flags)@, d).0,
                        ..old(self)@
                    })
                    &&& final(global_flags)@ == old(global_flags)@
                    &&& r@ == walk(old(self)@, old(global_flags)@, d).1
                },
                Command::Grab(n) => match grab_target(old(self)@, n@) {
                    Some(i) => {
                        let it = old(self)@.rooms[old(self).current_room as int].items[i];
                        &&& final(self)@ == after_grab(old(self)@, i)
                        &&& final(global_flags)@ == grab_flags(it, old(global_flags)@)
                        &&& r@ == grab_lines(it, old(global_flags)@)
                    },
                    None => {
                        &&& final(self)@ == old(self)@
                        &&& final(global_flags)@ == old(global_flags)@
                        &&& r@ == seq![Line::FoundNothing]
                    },
                },
                Command::Use(n, o) => match use_target(old(self)@, n@) {
                    Some(i) => {
                        let it = old(self)@.inventory[i];
                        &&& final(self)@ == after_use(old(self)@, i, o@)
                        &&& grabbable(it) ==> final(global_flags)@ == use_flags(
                            it,
                            old(global_flags)@,
                            o@,
                            old(self).current_room,
                        )
                        &&& grabbable(it) ==> r@ == use_lines(
                            it,
                            old(global_flags)@,
                            o,
                            old(self).current_room,
                        )
                        &&& !grabbable(it) ==> final(global_flags)@ == old(global_flags)@
                            && r@.len() == 0
                    },
                    None => {
                        &&& final(self)@ == old(self)@
                        &&& final(global_flags)@ == old(global_flags)@
                        &&& r@ == seq![Line::NotPossessed(n)]
                    },
                },
                Command::Look => {
                    &&& final(self)@ == old(self)@
                    &&& final(global_flags)@ == old(global_flags)@
                    &&& r@ == description(old(self).current_room, old(global_flags)@)
                },
                Command::Inventory => {
                    &&& final(self)@ == old(self)@
                    &&& final(global_flags)@ == old(global_flags)@
                    &&& bag_lines(r@, old(self)@.inventory)
                },
                Command::Help => {
                    &&& final(self)@ == old(self)@
                    &&& final(global_flags)@ == old(global_flags)@
                    &&& r@ == seq![Line::Help]
                },
                Command::Quit => {
                    &&& final(self)@ == old(self)@
                    &&& final(global_flags)@ == flag_set(old(global_flags)@, "isGameRunning"@, false)
                    &&& r@.len() == 0
                },
                Command::Invalid => {
                    &&& final(self)@ == old(self)@
                    &&& final(global_flags)@ == old(global_flags)@
                    &&& r@ == seq![Line::InvalidCommand]
                },
            },
    {
        match command {
            Command::Walk(direction) => {
                let next = self.rooms[self.current_room].connections.target(direction);
                assert(self.rooms@[self.current_room as int]@ == self@.rooms[self.current_room as int]);
                let (room_id, out) = self.change_room(next, global_flags, direction);
                self.current_room = room_id;
                proof {
                    let c = old(self)@.rooms[old(self).current_room as int].connections;
                    assert(target_ok(c.north, old(self)@.rooms.len() as int));
                }
                out
            },
            Command::Grab(item_name) => self.pick_up_item(item_name.as_str(), global_flags),
            Command::Use(item_name, object_name) => self.use_item(global_flags, item_name, object_name),
            Command::Look => self.look(global_flags),
            Command::Inventory => self.list_inventory_contents(),
            Command::Help => self.print_help_text(),
            Command::Quit => {
                global_flags.update_key("isGameRunning", false);
                Vec::new()
            },
            Command::Invalid => {
                let mut out: Vec<Line> = Vec::new();
                out.push(Line::InvalidCommand);
                assert(out@ =~= seq![Line::InvalidCommand]);
                out
            },
        }
    }

    /// The reference of the commands.
    pub fn print_help_text(&self) -> (r: Vec<Line>)
        ensures
            r@ == seq![Line::Help],
    {
        let mut out: Vec<Line> = Vec::new();
        out.push(Line::Help);
        assert(out@ =~= seq![Line::Help]);
        out
    }
}

} // verus!
