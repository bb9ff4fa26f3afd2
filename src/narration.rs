use vstd::prelude::*;

verus! {

/// One line of narration.
#[derive(Debug, PartialEq, Eq)]
pub enum Line {
    WakeCatThere,
    WakeCatGone,
    LeverInWall,
    PassageRevealed,
    GreenhouseIntro,
    GlassDoorShut,
    GlassDoorBroken,
    TableWithShovel,
    TableWithoutShovel,
    Crossroads,
    WellIntro,
    RopeHangs,
    KeyInBucket,
    EmptyBucket,
    ShackOutside,
    ShackLocked,
    ShackOpen,
    ShackInside,
    MirrorShowsHead,
    CatPocketed,
    CatIgnoresLever,
    CatOnAltar,
    CatPuzzled,
    LeverPulled,
    LeverStuck,
    ShovelPocketed,
    GlassSmashed,
    GlassAlreadySmashed,
    GlassDoorFlat,
    BucketPulledUp,
    BucketFalls,
    RopeLimp,
    NoKeySeen,
    KeyPocketed,
    KeyInserted,
    DoorUnlocked,
    DoorLocked,
    DoorOpens,
    DoorYells,
    AltarStuck,
    HeadsetOff,
    WorldChanges,
    GoToSleep,
    TheEnd,
    PressKeyToExit,
    DeadEnd,
    FoundNothing,
    InvalidCommand,
    BagEmpty,
    Help,
    ShovelPuzzled(String),
    KeyPuzzled(String),
    HeadKeepAway(String),
    NotPossessed(String),
    BagContents(String),
}

/// The text of a line.
pub open spec fn line_text(l: Line) -> Seq<char> {
    match l {
        Line::WakeCatThere => "You find yourself waking up in a small room lit by a single torch. A crooked table is in the corner, slightly rocking back and forth as if it took all of it's own strength to stay upright. On top of the table is a fat CAT, staring intently at you."@,
        Line::WakeCatGone => "You find yourself waking up in a small room lit by a single torch. A crooked table is in the corner, slightly shaking as if it took all of it's own strength to stay upright. There is a recess in the table where the cat was laying (How long was it laying there for!?)"@,
        Line::LeverInWall => "A rusted-covered LEVER is sticking out of the wall."@,
        Line::PassageRevealed => "A passageway has been revealed on the NORTH wall."@,
        Line::GreenhouseIntro => "You have arrived in what appears to be a greenhouse, filled with strange, brightly-coloured plants and grasses you've never seen before. The scent of sulphur hangs in the air."@,
        Line::GlassDoorShut => "On the NORTH end of the greenhouse is a GLASS DOOR, tightly shut."@,
        Line::GlassDoorBroken => "On the NORTH end of the greenhouse is an an open door with pieces of glass sprinkling the ground around it."@,
        Line::TableWithShovel => "There is a short yet long table along the side of the greenhouse. Many items are sitting on it, including a SHOVEL."@,
        Line::TableWithoutShovel => "There is a short yet long table along the side of the greenhouse. Many items are sitting on it."@,
        Line::Crossroads => "For as far as the eye can see, there is nothing but rolling green hills around. You have reached a sort of crossroads with two paths in front of you. To the EAST is a path leading towards a forest. To the WEST, the path continues along the rolling landscape."@,
        Line::WellIntro => "The winding path seems to stop in front of a lone, stone well. Half of the well's wall seems to be falling outward onto the grass surrounding it."@,
        Line::RopeHangs => "A single ROPE hangs from the top of the well."@,
        Line::KeyInBucket => "A bucket sits on the edge of the well. Laying on the bottom of the bucket is a KEY."@,
        Line::EmptyBucket => "An empty bucket sits on the edge of the well."@,
        Line::ShackOutside => "You have arrived at a tiny building that you can only describe as 'weird'. At first glance, it looks like a wooden garden shed. After staring at it for a second, it seemed as if one side of the shed was slowly growing and shrinking by a few inches. The other side of the shed looked as if it was shivering."@,
        Line::ShackLocked => "The shack has a shut door with a very tiny lock on it."@,
        Line::ShackOpen => "To the EAST, the door to the shack is wide open."@,
        Line::ShackInside => "You are now inside the strange shack. Inside, there is nothing but a thin ALTAR in the centre of the back wall."@,
        Line::MirrorShowsHead => "On one of the walls is a mirror. Looking inside of the mirror, you see that there is some strange device on your HEAD."@,
        Line::CatPocketed => "The cat purrs as you pick it up and fit it in your pocket."@,
        Line::CatIgnoresLever => "The cat looks at the lever for a second before it begins to lick its paws."@,
        Line::CatOnAltar => "You place the cat on the altar. It walks around for a second before settling down to lick its paws. You hear a clicking sound behind you. It seems like the altar had a pressure-sensitive plate on it, and that putting the cat on it revealed something else in the room."@,
        Line::CatPuzzled => "The cat isn't sure what to do with that."@,
        Line::LeverPulled => "You pull with all your might on the rusty lever as it slowly begins to fall. A loud crunching noise is heard from behind the walls as one of them shifts aside to reveal a doorway NORTH."@,
        Line::LeverStuck => "No matter how hard you try, the switch won't bduge. It seems to have arrived at it's final resting place."@,
        Line::ShovelPocketed => "The shovel looks as if it has never been used before; the layer of dust that falls off as you pick it up shows that it has been sitting on that table for a long time. You slip the shovel in your pocket."@,
        Line::GlassSmashed => "It takes a few swings before a couple of cracks appear in the glass. Wondering why such strong glass is needed for a greenhouse door, you continue to swing away until a loud crash and gust of fresh air announces the success of your swinging endeavours."@,
        Line::GlassAlreadySmashed => "You seem to have already done a number on that poor door - maybe you should leave it alone?"@,
        Line::GlassDoorFlat => "You search the door for a handle or crevice but find nothing.  It's perfectly flat with nothing to grab onto."@,
        Line::BucketPulledUp => "You slowly pull up on the rope. Peering down the well, you see a bucket tied to the end. After a minute, you pull the bucket out of the well and set it on the stone wall."@,
        Line::BucketFalls => "You pull on the limp rope, and the bucket falls on the grass. Great job!"@,
        Line::RopeLimp => "You pull on the limp rope. Nothing happens. You make yourself a little sad."@,
        Line::NoKeySeen => "You don't see a key."@,
        Line::KeyPocketed => "You pick up the key and examine it for a second. The key is small and silver with not a single scratch on it. It looks like the sort of key used for a child's diary. You slip it into your pocket."@,
        Line::KeyInserted => "You insert the tiny silver key into the shack door and turn..."@,
        Line::DoorUnlocked => "It worked! The door is unlocked."@,
        Line::DoorLocked => "You attempt to open the door, but it seems to be locked."@,
        Line::DoorOpens => "The door to the shack opens."@,
        Line::DoorYells => "'Hey, whattya want from me!?' someone yells; it seems to come from the door itself."@,
        Line::AltarStuck => "The altar won't budge. Something seems to be holding it in place from below."@,
        Line::HeadsetOff => "You pulled at the device on your head with all your might and it pops off..."@,
        Line::WorldChanges => "Suddenly, the world around you changes. You are no longer in a strange small shack in the middle of a field. You are in a small apartment in the middle of a city. It seems like this whole experience was a virtual reality game that you may have gotten a little to immersed in."@,
        Line::GoToSleep => "With this realization, you become depressed, eat a bunch of Halloween candy and go to sleep."@,
        Line::TheEnd => "THE END!"@,
        Line::PressKeyToExit => "Press a key to exit..."@,
        Line::DeadEnd => "It seems to be a dead end."@,
        Line::FoundNothing => "You found nothing."@,
        Line::InvalidCommand => "Invalid command!"@,
        Line::BagEmpty => "Peeking inside your bag, you see: an empty void..."@,
        Line::Help => "\nAVAILABLE COMMANDS:\n===================\nACTIONS: [l]ook, [gr]ab <item_name>, [u]se <item_name> on <object>, [i]nventory\nMOVEMENT: [g]o [n]orth|[s]outh|[e]ast|[w]est\nSYSTEM: quit\n"@,
        Line::ShovelPuzzled(s) => "You aren't sure how to use the shovel with the "@ + s@,
        Line::KeyPuzzled(s) => "You aren't sure how to use the key with "@ + s@ + "."@,
        Line::HeadKeepAway(s) => "You've made it this far, clearly you've already been using your head. Keep "@ + s@ + " away from it!"@,
        Line::NotPossessed(s) => "You don't possess a "@ + s@ + "."@,
        Line::BagContents(s) => "Peeking inside your bag, you see: "@ + s@,
    }
}

impl Line {
    /// The text of the line.
    pub fn text(&self) -> (r: String)
        ensures
            r@ == line_text(*self),
    {
        match self {
            Line::WakeCatThere => String::from_str("You find yourself waking up in a small room lit by a single torch. A crooked table is in the corner, slightly rocking back and forth as if it took all of it's own strength to stay upright. On top of the table is a fat CAT, staring intently at you."),
            Line::WakeCatGone => String::from_str("You find yourself waking up in a small room lit by a single torch. A crooked table is in the corner, slightly shaking as if it took all of it's own strength to stay upright. There is a recess in the table where the cat was laying (How long was it laying there for!?)"),
            Line::LeverInWall => String::from_str("A rusted-covered LEVER is sticking out of the wall."),
            Line::PassageRevealed => String::from_str("A passageway has been revealed on the NORTH wall."),
            Line::GreenhouseIntro => String::from_str("You have arrived in what appears to be a greenhouse, filled with strange, brightly-coloured plants and grasses you've never seen before. The scent of sulphur hangs in the air."),
            Line::GlassDoorShut => String::from_str("On the NORTH end of the greenhouse is a GLASS DOOR, tightly shut."),
            Line::GlassDoorBroken => String::from_str("On the NORTH end of the greenhouse is an an open door with pieces of glass sprinkling the ground around it."),
            Line::TableWithShovel => String::from_str("There is a short yet long table along the side of the greenhouse. Many items are sitting on it, including a SHOVEL."),
            Line::TableWithoutShovel => String::from_str("There is a short yet long table along the side of the greenhouse. Many items are sitting on it."),
            Line::Crossroads => String::from_str("For as far as the eye can see, there is nothing but rolling green hills around. You have reached a sort of crossroads with two paths in front of you. To the EAST is a path leading towards a forest. To the WEST, the path continues along the rolling landscape."),
            Line::WellIntro => String::from_str("The winding path seems to stop in front of a lone, stone well. Half of the well's wall seems to be falling outward onto the grass surrounding it."),
            Line::RopeHangs => String::from_str("A single ROPE hangs from the top of the well."),
            Line::KeyInBucket => String::from_str("A bucket sits on the edge of the well. Laying on the bottom of the bucket is a KEY."),
            Line::EmptyBucket => String::from_str("An empty bucket sits on the edge of the well."),
            Line::ShackOutside => String::from_str("You have arrived at a tiny building that you can only describe as 'weird'. At first glance, it looks like a wooden garden shed. After staring at it for a second, it seemed as if one side of the shed was slowly growing and shrinking by a few inches. The other side of the shed looked as if it was shivering."),
            Line::ShackLocked => String::from_str("The shack has a shut door with a very tiny lock on it."),
            Line::ShackOpen => String::from_str("To the EAST, the door to the shack is wide open."),
            Line::ShackInside => String::from_str("You are now inside the strange shack. Inside, there is nothing but a thin ALTAR in the centre of the back wall."),
            Line::MirrorShowsHead => String::from_str("On one of the walls is a mirror. Looking inside of the mirror, you see that there is some strange device on your HEAD."),
            Line::CatPocketed => String::from_str("The cat purrs as you pick it up and fit it in your pocket."),
            Line::CatIgnoresLever => String::from_str("The cat looks at the lever for a second before it begins to lick its paws."),
            Line::CatOnAltar => String::from_str("You place the cat on the altar. It walks around for a second before settling down to lick its paws. You hear a clicking sound behind you. It seems like the altar had a pressure-sensitive plate on it, and that putting the cat on it revealed something else in the room."),
            Line::CatPuzzled => String::from_str("The cat isn't sure what to do with that."),
            Line::LeverPulled => String::from_str("You pull with all your might on the rusty lever as it slowly begins to fall. A loud crunching noise is heard from behind the walls as one of them shifts aside to reveal a doorway NORTH."),
            Line::LeverStuck => String::from_str("No matter how hard you try, the switch won't bduge. It seems to have arrived at it's final resting place."),
            Line::ShovelPocketed => String::from_str("The shovel looks as if it has never been used before; the layer of dust that falls off as you pick it up shows that it has been sitting on that table for a long time. You slip the shovel in your pocket."),
            Line::GlassSmashed => String::from_str("It takes a few swings before a couple of cracks appear in the glass. Wondering why such strong glass is needed for a greenhouse door, you continue to swing away until a loud crash and gust of fresh air announces the success of your swinging endeavours."),
            Line::GlassAlreadySmashed => String::from_str("You seem to have already done a number on that poor door - maybe you should leave it alone?"),
            Line::GlassDoorFlat => String::from_str("You search the door for a handle or crevice but find nothing.  It's perfectly flat with nothing to grab onto."),
            Line::BucketPulledUp => String::from_str("You slowly pull up on the rope. Peering down the well, you see a bucket tied to the end. After a minute, you pull the bucket out of the well and set it on the stone wall."),
            Line::BucketFalls => String::from_str("You pull on the limp rope, and the bucket falls on the grass. Great job!"),
            Line::RopeLimp => String::from_str("You pull on the limp rope. Nothing happens. You make yourself a little sad."),
            Line::NoKeySeen => String::from_str("You don't see a key."),
            Line::KeyPocketed => String::from_str("You pick up the key and examine it for a second. The key is small and silver with not a single scratch on it. It looks like the sort of key used for a child's diary. You slip it into your pocket."),
            Line::KeyInserted => String::from_str("You insert the tiny silver key into the shack door and turn..."),
            Line::DoorUnlocked => String::from_str("It worked! The door is unlocked."),
            Line::DoorLocked => String::from_str("You attempt to open the door, but it seems to be locked."),
            Line::DoorOpens => String::from_str("The door to the shack opens."),
            Line::DoorYells => String::from_str("'Hey, whattya want from me!?' someone yells; it seems to come from the door itself."),
            Line::AltarStuck => String::from_str("The altar won't budge. Something seems to be holding it in place from below."),
            Line::HeadsetOff => String::from_str("You pulled at the device on your head with all your might and it pops off..."),
            Line::WorldChanges => String::from_str("Suddenly, the world around you changes. You are no longer in a strange small shack in the middle of a field. You are in a small apartment in the middle of a city. It seems like this whole experience was a virtual reality game that you may have gotten a little to immersed in."),
            Line::GoToSleep => String::from_str("With this realization, you become depressed, eat a bunch of Halloween candy and go to sleep."),
            Line::TheEnd => String::from_str("THE END!"),
            Line::PressKeyToExit => String::from_str("Press a key to exit..."),
            Line::DeadEnd => String::from_str("It seems to be a dead end."),
            Line::FoundNothing => String::from_str("You found nothing."),
            Line::InvalidCommand => String::from_str("Invalid command!"),
            Line::BagEmpty => String::from_str("Peeking inside your bag, you see: an empty void..."),
            Line::Help => String::from_str("\nAVAILABLE COMMANDS:\n===================\nACTIONS: [l]ook, [gr]ab <item_name>, [u]se <item_name> on <object>, [i]nventory\nMOVEMENT: [g]o [n]orth|[s]outh|[e]ast|[w]est\nSYSTEM: quit\n"),
            Line::ShovelPuzzled(s) => String::from_str("You aren't sure how to use the shovel with the ").concat(s.as_str()),
            Line::KeyPuzzled(s) => String::from_str("You aren't sure how to use the key with ").concat(s.as_str()).concat("."),
            Line::HeadKeepAway(s) => String::from_str("You've made it this far, clearly you've already been using your head. Keep ").concat(s.as_str()).concat(" away from it!"),
            Line::NotPossessed(s) => String::from_str("You don't possess a ").concat(s.as_str()).concat("."),
            Line::BagContents(s) => String::from_str("Peeking inside your bag, you see: ").concat(s.as_str()),
        }
    }

    /// Whether the line asks the player for one more key press before the
    /// session closes.
    pub fn awaits_key(&self) -> (r: bool)
        ensures
            r == (*self is PressKeyToExit),
    {
        match self {
            Line::PressKeyToExit => true,
            _ => false,
        }
    }
}

} // verus!
