use vstd::prelude::*;

use crate::flags::{flag_is, flag_set, Flags};
use crate::narration::Line;
use crate::text::str_eq;

verus! {

/// An item of the world; each one reacts to being grabbed and used in its own way.
#[derive(Clone, Copy, Debug, PartialEq, Eq, Structural)]
pub enum Item {
    Cat,
    Lever,
    Shovel,
    GlassDoor,
    Rope,
    Key,
    Door,
    Altar,
    Head,
}

/// The name by which the player refers to an item.
pub open spec fn item_name(i: Item) -> Seq<char> {
    match i {
        Item::Cat => "cat"@,
        Item::Lever => "lever"@,
        Item::Shovel => "shovel"@,
        Item::GlassDoor => "glass door"@,
        Item::Rope => "rope"@,
        Item::Key => "key"@,
        Item::Door => "door"@,
        Item::Altar => "altar"@,
        Item::Head => "head"@,
    }
}

/// Whether an item can be carried off.
pub open spec fn grabbable(i: Item) -> bool {
    i is Cat || i is Shovel || i is Key
}

/// The flags after an item is grabbed.
pub open spec fn grab_flags(i: Item, m: Map<Seq<char>, bool>) -> Map<Seq<char>, bool> {
    match i {
        Item::Cat => flag_set(m, "pickedUpCat"@, true),
        Item::Lever => if flag_is(m, "initialSwitchPulled"@, false) {
            flag_set(m, "initialSwitchPulled"@, true)
        } else {
            m
        },
        Item::Shovel => flag_set(m, "pickedUpShovel"@, true),
        Item::Rope => if flag_is(m, "isBuckedPulledUp"@, false) {
            flag_set(m, "isBuckedPulledUp"@, true)
        } else if flag_is(m, "bucketOnFloor"@, false) {
            flag_set(m, "bucketOnFloor"@, true)
        } else {
            m
        },
        Item::Key => if flag_is(m, "isBuckedPulledUp"@, false) {
            m
        } else {
            flag_set(m, "pickedUpKey"@, true)
        },
        Item::Door => if flag_is(m, "shackDoorUnlocked"@, false) {
            m
        } else if flag_is(m, "shackDoorOpen"@, false) {
            flag_set(m, "shackDoorOpen"@, true)
        } else {
            m
        },
        Item::Head => flag_set(m, "isGameRunning"@, false),
        _ => m,
    }
}

/// The narration when an item is grabbed.
pub open spec fn grab_lines(i: Item, m: Map<Seq<char>, bool>) -> Seq<Line> {
    match i {
        Item::Cat => seq![Line::CatPocketed],
        Item::Lever => if flag_is(m, "initialSwitchPulled"@, false) {
            seq![Line::LeverPulled]
        } else {
            seq![Line::LeverStuck]
        },
        Item::Shovel => seq![Line::ShovelPocketed],
        Item::GlassDoor => seq![Line::GlassDoorFlat],
        Item::Rope => if flag_is(m, "isBuckedPulledUp"@, false) {
            seq![Line::BucketPulledUp]
        } else if flag_is(m, "bucketOnFloor"@, false) {
            seq![Line::BucketFalls]
        } else {
            seq![Line::RopeLimp]
        },
        Item::Key => if flag_is(m, "isBuckedPulledUp"@, false) {
            seq![Line::NoKeySeen]
        } else {
            seq![Line::KeyPocketed]
        },
        Item::Door => if flag_is(m, "shackDoorUnlocked"@, false) {
            seq![Line::DoorLocked]
        } else if flag_is(m, "shackDoorOpen"@, false) {
            seq![Line::DoorOpens]
        } else {
            seq![Line::DoorYells]
        },
        Item::Altar => seq![Line::AltarStuck],
        Item::Head => seq![
            Line::HeadsetOff,
            Line::WorldChanges,
            Line::GoToSleep,
            Line::TheEnd,
            Line::PressKeyToExit,
        ],
    }
}

/// The flags after an item is used on `object` in room `room`.
pub open spec fn use_flags(i: Item, m: Map<Seq<char>, bool>, object: Seq<char>, room: usize) -> Map<
    Seq<char>,
    bool,
> {
    match i {
        Item::Cat => if room == 5 && object == "altar"@ {
            flag_set(m, "isCatOnAltar"@, true)
        } else {
            m
        },
        Item::Shovel => if room == 1 && object == "glass door"@ && flag_is(m, "smashedDoor"@, false) {
            flag_set(m, "smashedDoor"@, true)
        } else {
            m
        },
        Item::Key => if room == 4 && object == "door"@ {
            flag_set(m, "shackDoorUnlocked"@, true)
        } else {
            m
        },
        _ => m,
    }
}

/// Whether using an item on `object` in room `room` uses it up.
pub open spec fn use_consumes(i: Item, object: Seq<char>, room: usize) -> bool {
    i is Key && room == 4 && object == "door"@
}

/// The narration when an item is used on `object` in room `room`.
pub open spec fn use_lines(i: Item, m: Map<Seq<char>, bool>, object: String, room: usize) -> Seq<
    Line,
> {
    match i {
        Item::Cat => if room == 0 && object@ == "lever"@ {
            seq![Line::CatIgnoresLever]
        } else if room == 5 && object@ == "altar"@ {
            seq![Line::CatOnAltar]
        } else {
            seq![Line::CatPuzzled]
        },
        Item::Shovel => if room == 1 && object@ == "glass door"@ {
            if flag_is(m, "smashedDoor"@, false) {
                seq![Line::GlassSmashed]
            } else {
                seq![Line::GlassAlreadySmashed]
            }
        } else {
            seq![Line::ShovelPuzzled(object)]
        },
        Item::Key => if room == 4 && object@ == "door"@ {
            seq![Line::KeyInserted, Line::DoorUnlocked]
        } else {
            seq![Line::KeyPuzzled(object)]
        },
        Item::Head => seq![Line::HeadKeepAway(object)],
        _ => Seq::empty(),
    }
}

impl Item {
    /// The name by which the player refers to the item.
    pub fn name(&self) -> (r: &'static str)
        ensures
            r@ == item_name(*self),
    {
        match self {
            Item::Cat => "cat",
            Item::Lever => "lever",
            Item::Shovel => "shovel",
            Item::GlassDoor => "glass door",
            Item::Rope => "rope",
            Item::Key => "key",
            Item::Door => "door",
            Item::Altar => "altar",
            Item::Head => "head",
        }
    }

    /// Whether the item can be carried off.
    pub fn is_grabbable(&self) -> (r: bool)
        ensures
            r == grabbable(*self),
    {
        match self {
            Item::Cat | Item::Shovel | Item::Key => true,
            _ => false,
        }
    }

    /// The item's reaction to being grabbed; it fires whether or not the
    /// item can be carried off.
    pub fn on_grab(&self, flags: &mut Flags) -> (r: Vec<Line>)
        ensures
            final(flags)@ == grab_flags(*self, old(flags)@),
            r@ == grab_lines(*self, old(flags)@),
    {
        let mut r: Vec<Line> = Vec::new();
        match self {
            Item::Cat => {
                r.push(Line::CatPocketed);
                flags.update_key("pickedUpCat", true);
            },
            Item::Lever => {
                if flags.is("initialSwitchPulled", false) {
                    r.push(Line::LeverPulled);
                    flags.update_key("initialSwitchPulled", true);
                } else {
                    r.push(Line::LeverStuck);
                }
            },
            Item::Shovel => {
                r.push(Line::ShovelPocketed);
                flags.update_key("pickedUpShovel", true);
            },
            Item::GlassDoor => {
                r.push(Line::GlassDoorFlat);
            },
            Item::Rope => {
                if flags.is("isBuckedPulledUp", false) {
                    r.push(Line::BucketPulledUp);
                    flags.update_key("isBuckedPulledUp", true);
                } else if flags.is("bucketOnFloor", false) {
                    r.push(Line::BucketFalls);
                    flags.update_key("bucketOnFloor", true);
                } else {
                    r.push(Line::RopeLimp);
                }
            },
            Item::Key => {
                if flags.is("isBuckedPulledUp", false) {
                    r.push(Line::NoKeySeen);
                } else {
                    r.push(Line::KeyPocketed);
                    flags.update_key("pickedUpKey", true);
                }
            },
            Item::Door => {
                if flags.is("shackDoorUnlocked", false) {
                    r.push(Line::DoorLocked);
                } else if flags.is("shackDoorOpen", false) {
                    r.push(Line::DoorOpens);
                    flags.update_key("shackDoorOpen", true);
                } else {
                    r.push(Line::DoorYells);
                }
            },
            Item::Altar => {
                r.push(Line::AltarStuck);
            },
            Item::Head => {
                r.push(Line::HeadsetOff);
                r.push(Line::WorldChanges);
                r.push(Line::GoToSleep);
                r.push(Line::TheEnd);
                r.push(Line::PressKeyToExit);
                flags.update_key("isGameRunning", false);
            },
        }
        assert(r@ =~= grab_lines(*self, old(flags)@));
        r
    }

    /// The item's reaction to being used on `object_name` in room
    /// `current_room`; the result says whether the item is used up.
    pub fn on_use(&self, flags: &mut Flags, object_name: String, current_room: usize) -> (r: (
        bool,
        Vec<Line>,
    ))
        ensures
            final(flags)@ == use_flags(*self, old(flags)@, object_name@, current_room),
            r.0 == use_consumes(*self, object_name@, current_room),
            r.1@ == use_lines(*self, old(flags)@, object_name, current_room),
    {
        let mut r: Vec<Line> = Vec::new();
        let mut consumed = false;
        match self {
            Item::Cat => {
                if current_room == 0 && str_eq(object_name.as_str(), "lever") {
                    r.push(Line::CatIgnoresLever);
                } else if current_room == 5 && str_eq(object_name.as_str(), "altar") {
                    r.push(Line::CatOnAltar);
                    flags.update_key("isCatOnAltar", true);
                } else {
                    r.push(Line::CatPuzzled);
                }
            },
            Item::Shovel => {
                if current_room == 1 && str_eq(object_name.as_str(), "glass door") {
                    if flags.is("smashedDoor", false) {
                        r.push(Line::GlassSmashed);
                        flags.update_key("smashedDoor", true);
                    } else {
                        r.push(Line::GlassAlreadySmashed);
                    }
                } else {
                    r.push(Line::ShovelPuzzled(object_name));
                }
            },
            Item::Key => {
                if current_room == 4 && str_eq(object_name.as_str(), "door") {
                    r.push(Line::KeyInserted);
                    r.push(Line::DoorUnlocked);
                    flags.update_key("shackDoorUnlocked", true);
                    consumed = true;
                } else {
                    r.push(Line::KeyPuzzled(object_name));
                }
            },
            Item::Head => {
                r.push(Line::HeadKeepAway(object_name));
            },
            _ => {},
        }
        assert(r@ =~= use_lines(*self, old(flags)@, object_name, current_room));
        (consumed, r)
    }
}

} // verus!
