use adventure::flags::Flags;
use adventure::game::Game;
use adventure::items::Item;
use adventure::narration::Line;
use adventure::parser::{parse_line, Command, Direction};
use adventure::world::{create_rooms, game_flags, Connection};

fn cmd(game: &Game, line: &str) -> Command {
    game.get_command(line)
}

fn has(lines: &[Line], l: &Line) -> bool {
    lines.iter().any(|x| x == l)
}

#[test]
fn unknown_flag_is_absent_and_not_written() {
    let mut f = game_flags();
    assert_eq!(f.get_key("noSuchFlag"), None);
    f.update_key("noSuchFlag", true);
    assert_eq!(f.get_key("noSuchFlag"), None);
    assert_eq!(f.get_key("pickedUpCat"), Some(false));
    assert_eq!(f.get_key("isGameRunning"), Some(true));
}

#[test]
fn known_flag_set_then_get() {
    let mut f = game_flags();
    f.update_key("smashedDoor", true);
    assert_eq!(f.get_key("smashedDoor"), Some(true));
    f.update_key("smashedDoor", false);
    assert_eq!(f.get_key("smashedDoor"), Some(false));
    f.update_key("isGameRunning", false);
    assert_eq!(f.get_key("isGameRunning"), Some(false));
    assert_eq!(f.get_key("didUseMirror"), Some(false));
}

#[test]
fn later_pair_replaces_earlier() {
    let f = Flags::new(vec![("a".to_string(), true), ("b".to_string(), false), ("a".to_string(), false)]);
    assert_eq!(f.get_key("a"), Some(false));
    assert_eq!(f.get_key("b"), Some(false));
    assert!(f.is("b", false));
    assert!(!f.is("c", false));
}

#[test]
fn grab_grabbable_moves_it_once() {
    let mut g = Game::new();
    let mut f = game_flags();
    let out = g.process_command(Command::Grab("cat".to_string()), &mut f);
    assert_eq!(out, vec![Line::CatPocketed]);
    assert_eq!(g.rooms[0].items, vec![Item::Lever]);
    assert_eq!(g.inventory, vec![Item::Cat]);
    assert_eq!(f.get_key("pickedUpCat"), Some(true));
    let out = g.process_command(Command::Grab("cat".to_string()), &mut f);
    assert_eq!(out, vec![Line::FoundNothing]);
    assert_eq!(g.inventory, vec![Item::Cat]);
}

#[test]
fn grab_fixed_item_fires_but_stays() {
    let mut g = Game::new();
    let mut f = game_flags();
    let out = g.process_command(Command::Grab("LEVER".to_string()), &mut f);
    assert_eq!(out, vec![Line::LeverPulled]);
    assert_eq!(g.rooms[0].items, vec![Item::Cat, Item::Lever]);
    assert!(g.inventory.is_empty());
    assert_eq!(f.get_key("initialSwitchPulled"), Some(true));
    let out = g.process_command(Command::Grab("lever".to_string()), &mut f);
    assert_eq!(out, vec![Line::LeverStuck]);
}

#[test]
fn consumed_item_leaves_inventory() {
    let mut g = Game::new();
    let mut f = game_flags();
    g.inventory = vec![Item::Cat, Item::Key, Item::Shovel];
    g.current_room = 4;
    let out = g.process_command(Command::Use("key".to_string(), "door".to_string()), &mut f);
    assert_eq!(out, vec![Line::KeyInserted, Line::DoorUnlocked]);
    assert_eq!(g.inventory, vec![Item::Cat, Item::Shovel]);
    assert_eq!(f.get_key("shackDoorUnlocked"), Some(true));
}

#[test]
fn kept_item_stays_in_inventory() {
    let mut g = Game::new();
    let mut f = game_flags();
    g.inventory = vec![Item::Key, Item::Shovel];
    let out = g.process_command(Command::Use("shovel".to_string(), "tree".to_string()), &mut f);
    assert_eq!(out, vec![Line::ShovelPuzzled("tree".to_string())]);
    assert_eq!(g.inventory, vec![Item::Key, Item::Shovel]);
    let out = g.process_command(Command::Use("key".to_string(), "door".to_string()), &mut f);
    assert_eq!(out, vec![Line::KeyPuzzled("door".to_string())]);
    assert_eq!(g.inventory, vec![Item::Key, Item::Shovel]);
}

#[test]
fn parser_examples() {
    let g = Game::new();
    assert_eq!(cmd(&g, "go north"), Command::Walk(Direction::North));
    assert_eq!(cmd(&g, "go"), Command::Invalid);
    assert_eq!(cmd(&g, "grab cat"), Command::Grab("cat".to_string()));
    assert_eq!(cmd(&g, "use key on door"), Command::Use("key".to_string(), "door".to_string()));
    assert_eq!(
        cmd(&g, "use key on old wooden door"),
        Command::Use("key".to_string(), "old wooden door".to_string())
    );
    assert_eq!(cmd(&g, "use"), Command::Invalid);
}

#[test]
fn parser_aliases_and_forms() {
    let g = Game::new();
    assert_eq!(cmd(&g, "g s"), Command::Walk(Direction::South));
    assert_eq!(cmd(&g, "go e"), Command::Walk(Direction::East));
    assert_eq!(cmd(&g, "g west"), Command::Walk(Direction::West));
    assert_eq!(cmd(&g, "go up"), Command::Invalid);
    assert_eq!(cmd(&g, "gr glass door"), Command::Grab("glass door".to_string()));
    assert_eq!(cmd(&g, "grab"), Command::Invalid);
    assert_eq!(cmd(&g, "u cat on altar"), Command::Use("cat".to_string(), "altar".to_string()));
    assert_eq!(cmd(&g, "i"), Command::Inventory);
    assert_eq!(cmd(&g, "inventory"), Command::Inventory);
    assert_eq!(cmd(&g, "l"), Command::Look);
    assert_eq!(cmd(&g, "look"), Command::Look);
    assert_eq!(cmd(&g, "quit"), Command::Quit);
    assert_eq!(cmd(&g, "?"), Command::Help);
    assert_eq!(cmd(&g, "dance"), Command::Invalid);
    assert_eq!(cmd(&g, ""), Command::Invalid);
}

#[test]
fn parser_use_splits_at_last_on() {
    let g = Game::new();
    assert_eq!(cmd(&g, "use a on b on c"), Command::Use("a on b".to_string(), "c".to_string()));
    assert_eq!(cmd(&g, "use old key on door"), Command::Use("old key".to_string(), "door".to_string()));
    assert_eq!(cmd(&g, "use key to door"), Command::Invalid);
    assert_eq!(cmd(&g, "use on on on"), Command::Use("on on".to_string(), "".to_string()));
    assert_eq!(cmd(&g, "use key on"), Command::Invalid);
    assert_eq!(cmd(&g, "use a b on"), Command::Use("a b".to_string(), "".to_string()));
}

#[test]
fn parser_lowers_and_trims() {
    let g = Game::new();
    assert_eq!(cmd(&g, "GO NORTH"), Command::Walk(Direction::North));
    assert_eq!(cmd(&g, "  quit \n"), Command::Quit);
    assert_eq!(cmd(&g, "Grab The CAT"), Command::Grab("the cat".to_string()));
    assert_eq!(cmd(&g, "go  north"), Command::Invalid);
}

#[test]
fn parse_line_takes_normalized_text() {
    assert_eq!(parse_line("GO NORTH"), Command::Invalid);
    assert_eq!(parse_line("go north"), Command::Walk(Direction::North));
}

#[test]
fn scenario_movement_gate() {
    let mut g = Game::new();
    let mut f = game_flags();
    let first = g.process_command(Command::Look, &mut f);
    assert_eq!(first, vec![Line::WakeCatThere, Line::LeverInWall]);
    let c = cmd(&g, "go north");
    let out = g.process_command(c, &mut f);
    assert_eq!(out, vec![Line::DeadEnd]);
    assert_eq!(g.current_room, 0);
    let c = cmd(&g, "grab lever");
    g.process_command(c, &mut f);
    assert_eq!(f.get_key("initialSwitchPulled"), Some(true));
    let look = g.process_command(Command::Look, &mut f);
    assert_eq!(look, vec![Line::WakeCatThere, Line::PassageRevealed]);
    let c = cmd(&g, "go north");
    let out = g.process_command(c, &mut f);
    assert_eq!(g.current_room, 1);
    assert_eq!(out, vec![Line::GreenhouseIntro, Line::GlassDoorShut, Line::TableWithShovel]);
}

#[test]
fn scenario_ending() {
    let mut g = Game::new();
    let mut f = game_flags();
    g.current_room = 5;
    let c = cmd(&g, "grab head");
    let out = g.process_command(c, &mut f);
    assert_eq!(
        out,
        vec![Line::HeadsetOff, Line::WorldChanges, Line::GoToSleep, Line::TheEnd, Line::PressKeyToExit]
    );
    assert!(out[4].awaits_key());
    assert!(!out[3].awaits_key());
    assert_eq!(f.get_key("isGameRunning"), Some(false));
    assert_eq!(g.rooms[5].items, vec![Item::Altar, Item::Head]);
}

#[test]
fn scenario_inventory_lifecycle() {
    let mut g = Game::new();
    let mut f = game_flags();
    let c = cmd(&g, "grab cat");
    g.process_command(c, &mut f);
    let out = g.process_command(Command::Inventory, &mut f);
    assert_eq!(out, vec![Line::BagContents("cat ".to_string())]);
    assert_eq!(out[0].text(), "Peeking inside your bag, you see: cat ");
    g.current_room = 5;
    let c = cmd(&g, "use cat on altar");
    let out = g.process_command(c, &mut f);
    assert_eq!(out, vec![Line::CatOnAltar]);
    assert_eq!(g.inventory, vec![Item::Cat]);
    assert_eq!(f.get_key("isCatOnAltar"), Some(true));
    let look = g.process_command(Command::Look, &mut f);
    assert_eq!(look, vec![Line::ShackInside, Line::MirrorShowsHead]);
}

#[test]
fn empty_inventory_and_help() {
    let mut g = Game::new();
    let mut f = game_flags();
    let out = g.process_command(Command::Inventory, &mut f);
    assert_eq!(out, vec![Line::BagEmpty]);
    assert_eq!(out[0].text(), "Peeking inside your bag, you see: an empty void...");
    let out = g.process_command(Command::Help, &mut f);
    assert_eq!(out, vec![Line::Help]);
    assert!(out[0].text().contains("MOVEMENT: [g]o [n]orth|[s]outh|[e]ast|[w]est"));
}

#[test]
fn errors_are_reported() {
    let mut g = Game::new();
    let mut f = game_flags();
    let out = g.process_command(Command::Invalid, &mut f);
    assert_eq!(out, vec![Line::InvalidCommand]);
    assert_eq!(out[0].text(), "Invalid command!");
    let out = g.process_command(Command::Grab("spoon".to_string()), &mut f);
    assert_eq!(out, vec![Line::FoundNothing]);
    let out = g.process_command(Command::Use("spoon".to_string(), "cat".to_string()), &mut f);
    assert_eq!(out, vec![Line::NotPossessed("spoon".to_string())]);
    assert_eq!(out[0].text(), "You don't possess a spoon.");
    let out = g.process_command(Command::Walk(Direction::East), &mut f);
    assert_eq!(out, vec![Line::DeadEnd]);
    assert_eq!(out[0].text(), "It seems to be a dead end.");
    assert_eq!(g.current_room, 0);
}

#[test]
fn quit_clears_running_flag() {
    let mut g = Game::new();
    let mut f = game_flags();
    let out = g.process_command(Command::Quit, &mut f);
    assert!(out.is_empty());
    assert_eq!(f.get_key("isGameRunning"), Some(false));
}

#[test]
fn use_is_case_insensitive() {
    let mut g = Game::new();
    let mut f = game_flags();
    g.inventory = vec![Item::Shovel];
    g.current_room = 1;
    let out = g.use_item(&mut f, "SHOVEL".to_string(), "glass door".to_string());
    assert_eq!(out, vec![Line::GlassSmashed]);
    let out = g.use_item(&mut f, "Shovel".to_string(), "glass door".to_string());
    assert_eq!(out, vec![Line::GlassAlreadySmashed]);
    assert_eq!(g.inventory, vec![Item::Shovel]);
    let c = cmd(&g, "go north");
    g.process_command(c, &mut f);
    assert_eq!(g.current_room, 2);
}

#[test]
fn well_rope_and_key() {
    let mut g = Game::new();
    let mut f = game_flags();
    g.current_room = 3;
    assert_eq!(g.look(&f), vec![Line::WellIntro, Line::RopeHangs]);
    assert_eq!(g.pick_up_item("rope", &mut f), vec![Line::BucketPulledUp]);
    assert_eq!(g.look(&f), vec![Line::WellIntro, Line::KeyInBucket]);
    assert_eq!(g.pick_up_item("rope", &mut f), vec![Line::BucketFalls]);
    assert_eq!(g.pick_up_item("rope", &mut f), vec![Line::RopeLimp]);
    assert_eq!(g.pick_up_item("key", &mut f), vec![Line::KeyPocketed]);
    assert_eq!(g.look(&f), vec![Line::WellIntro, Line::EmptyBucket]);
    assert_eq!(g.inventory, vec![Item::Key]);
}

#[test]
fn shack_door_and_passage_east() {
    let mut g = Game::new();
    let mut f = game_flags();
    g.current_room = 4;
    assert_eq!(g.pick_up_item("door", &mut f), vec![Line::DoorLocked]);
    assert_eq!(g.process_command(Command::Walk(Direction::East), &mut f), vec![Line::DeadEnd]);
    f.update_key("shackDoorUnlocked", true);
    assert_eq!(g.pick_up_item("door", &mut f), vec![Line::DoorOpens]);
    assert_eq!(g.pick_up_item("door", &mut f), vec![Line::DoorYells]);
    assert_eq!(g.look(&f), vec![Line::ShackOutside, Line::ShackOpen]);
    let out = g.process_command(Command::Walk(Direction::East), &mut f);
    assert_eq!(out, vec![Line::ShackInside]);
    assert_eq!(g.current_room, 5);
}

#[test]
fn world_layout() {
    let rooms = create_rooms();
    assert_eq!(rooms.len(), 6);
    assert_eq!(rooms[2].connections, Connection::new(None, Some(1), Some(4), Some(3)));
    assert_eq!(rooms[2].connections.target(Direction::West), Some(3));
    assert_eq!(rooms[1].items, vec![Item::Shovel, Item::GlassDoor]);
    assert_eq!(Item::GlassDoor.name(), "glass door");
    assert!(Item::Key.is_grabbable());
    assert!(!Item::Head.is_grabbable());
}

#[test]
fn item_reactions_with_object_text() {
    let mut f = game_flags();
    let (consumed, out) = Item::Head.on_use(&mut f, "soap".to_string(), 5);
    assert!(!consumed);
    assert_eq!(
        out[0].text(),
        "You've made it this far, clearly you've already been using your head. Keep soap away from it!"
    );
    let (consumed, out) = Item::Shovel.on_use(&mut f, "rock".to_string(), 1);
    assert!(!consumed);
    assert_eq!(out[0].text(), "You aren't sure how to use the shovel with the rock");
    let (consumed, out) = Item::Cat.on_use(&mut f, "lever".to_string(), 0);
    assert!(!consumed);
    assert_eq!(out, vec![Line::CatIgnoresLever]);
}

#[test]
fn initial_universe() {
    let f = game_flags();
    let names = [
        "pickedUpCat",
        "initialSwitchPulled",
        "pickedUpShovel",
        "smashedDoor",
        "isBuckedPulledUp",
        "pickedUpKey",
        "bucketOnFloor",
        "shackDoorUnlocked",
        "shackDoorOpen",
        "isCatOnAltar",
        "didUseMirror",
    ];
    for n in names {
        assert_eq!(f.get_key(n), Some(false));
    }
    assert_eq!(f.get_key("isGameRunning"), Some(true));
    assert_eq!(f.get_key("isgamerunning"), None);
}
