use vstd::prelude::*;

use crate::text::{join, join_spaces, split, split_spaces, str_eq, views};

verus! {

/// A compass direction.
#[derive(Clone, Copy, Debug, PartialEq, Eq, Structural)]
pub enum Direction {
    North,
    South,
    East,
    West,
}

/// One command of the player.
#[derive(Debug, PartialEq, Eq)]
pub enum Command {
    Walk(Direction),
    Grab(String),
    Use(String, String),
    Look,
    Inventory,
    Quit,
    Help,
    Invalid,
}

/// A command with its names as character sequences.
pub enum CommandView {
    Walk(Direction),
    Grab(Seq<char>),
    Use(Seq<char>, Seq<char>),
    Look,
    Inventory,
    Quit,
    Help,
    Invalid,
}

impl View for Command {
    type V = CommandView;

    open spec fn view(&self) -> CommandView {
        match self {
            Command::Walk(d) => CommandView::Walk(*d),
            Command::Grab(n) => CommandView::Grab(n@),
            Command::Use(n, o) => CommandView::Use(n@, o@),
            Command::Look => CommandView::Look,
            Command::Inventory => CommandView::Inventory,
            Command::Quit => CommandView::Quit,
            Command::Help => CommandView::Help,
            Command::Invalid => CommandView::Invalid,
        }
    }
}

/// The direction that a word names, full or abbreviated.
pub open spec fn dir_of(w: Seq<char>) -> Option<Direction> {
    if w == "n"@ || w == "north"@ {
        Some(Direction::North)
    } else if w == "s"@ || w == "south"@ {
        Some(Direction::South)
    } else if w == "e"@ || w == "east"@ {
        Some(Direction::East)
    } else if w == "w"@ || w == "west"@ {
        Some(Direction::West)
    } else {
        None
    }
}

/// The last index among `2..n` that holds the word "on", or 0 if none does.
pub open spec fn last_on(t: Seq<Seq<char>>, n: int) -> int
    decreases n,
{
    if n <= 2 {
        0
    } else if t[n - 1] == "on"@ {
        n - 1
    } else {
        last_on(t, n - 1)
    }
}

/// The command that a line cut into words stands for.
pub open spec fn command_of(t: Seq<Seq<char>>) -> CommandView {
    let h = t[0];
    if t.len() == 0 {
        CommandView::Invalid
    } else if h == "g"@ || h == "go"@ {
        if t.len() < 2 {
            CommandView::Invalid
        } else {
            match dir_of(t[1]) {
                Some(d) => CommandView::Walk(d),
                None => CommandView::Invalid,
            }
        }
    } else if h == "gr"@ || h == "grab"@ {
        if t.len() < 2 {
            CommandView::Invalid
        } else {
            CommandView::Grab(join_spaces(t, 1, t.len() as int))
        }
    } else if h == "u"@ || h == "use"@ {
        if t.len() < 4 {
            CommandView::Invalid
        } else {
            let k = last_on(t, t.len() as int);
            if k < 2 {
                CommandView::Invalid
            } else {
                CommandView::Use(join_spaces(t, 1, k), join_spaces(t, k + 1, t.len() as int))
            }
        }
    } else if h == "i"@ || h == "inventory"@ {
        CommandView::Inventory
    } else if h == "l"@ || h == "look"@ {
        CommandView::Look
    } else if h == "quit"@ {
        CommandView::Quit
    } else if h == "?"@ {
        CommandView::Help
    } else {
        CommandView::Invalid
    }
}

/// The direction that a word names, full or abbreviated.
pub fn direction_of(w: &str) -> (r: Option<Direction>)
    ensures
        r == dir_of(w@),
{
    if str_eq(w, "n") || str_eq(w, "north") {
        Some(Direction::North)
    } else if str_eq(w, "s") || str_eq(w, "south") {
        Some(Direction::South)
    } else if str_eq(w, "e") || str_eq(w, "east") {
        Some(Direction::East)
    } else if str_eq(w, "w") || str_eq(w, "west") {
        Some(Direction::West)
    } else {
        None
    }
}

/// The command that a line cut into words stands for.
pub fn parse_tokens(t: &Vec<String>) -> (r: Command)
    ensures
        r@ == command_of(views(t@)),
{
    let ghost v = views(t@);
    let n = t.len();
    if n == 0 {
        return Command::Invalid;
    }
    let h = t[0].as_str();
    assert(v[0] == h@);
    if str_eq(h, "g") || str_eq(h, "go") {
        if n < 2 {
            Command::Invalid
        } else {
            assert(v[1] == t@[1]@);
            match direction_of(t[1].as_str()) {
                Some(d) => Command::Walk(d),
                None => Command::Invalid,
            }
        }
    } else if str_eq(h, "gr") || str_eq(h, "grab") {
        if n < 2 {
            Command::Invalid
        } else {
            Command::Grab(join(t, 1, n))
        }
    } else if str_eq(h, "u") || str_eq(h, "use") {
        if n < 4 {
            Command::Invalid
        } else {
            let mut k: usize = 0;
            let mut i: usize = 2;
            while i < n
                invariant
                    n == t@.len(),
                    v == views(t@),
                    2 <= i <= n,
                    k as int == last_on(v, i as int),
                    k == 0 || 2 <= k < i,
                decreases n - i,
            {
                assert(v[i as int] == t@[i as int]@);
                if str_eq(t[i].as_str(), "on") {
                    k = i;
                }
                i += 1;
            }
            if k < 2 {
                Command::Invalid
            } else {
                Command::Use(join(t, 1, k), join(t, k + 1, n))
            }
        }
    } else if str_eq(h, "i") || str_eq(h, "inventory") {
        Command::Inventory
    } else if str_eq(h, "l") || str_eq(h, "look") {
        Command::Look
    } else if str_eq(h, "quit") {
        Command::Quit
    } else if str_eq(h, "?") {
        Command::Help
    } else {
        Command::Invalid
    }
}

/// The command on a line that is already lower case and trimmed: the line is
/// cut at every single space and read by the grammar of `command_of`.
pub fn parse_line(line: &str) -> (r: Command)
    ensures
        r@ == command_of(split_spaces(line@)),
{
    let t = split(line);
    parse_tokens(&t)
}

} // verus!
