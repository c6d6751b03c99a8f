//! The credits screen: its two tables and its music.

use bevy::ecs::entity::Entity;
use vstd::prelude::*;

verus! {

/// Bevy's `Entity`, the identifier under which the engine keeps an entity of
/// its world. Nothing is assumed about what an identifier holds: the code
/// below only stores one, hands it back, and tells two of them apart in its
/// specifications.
#[verifier::external_type_specification]
#[verifier::external_body]
pub struct ExEntity(bevy::ecs::entity::Entity);

/// The side of its column towards which a cell is pushed.
#[derive(Clone, Copy, PartialEq, Eq, Structural, Debug, Hash)]
pub enum Justify {
    End,
    Start,
}

/// One cell of a two-column table.
#[derive(Clone, Copy, PartialEq, Eq, Debug)]
pub struct Cell {
    pub text: &'static str,
    pub justify: Justify,
}

/// The cell at position `i` of the table that shows `content` row by row:
/// left cells are pushed to the end of their column, right cells to its start.
pub open spec fn spec_cell(content: Seq<[&'static str; 2]>, i: int) -> Cell {
    Cell {
        text: content[i / 2][i % 2],
        justify: if i % 2 == 0 {
            Justify::End
        } else {
            Justify::Start
        },
    }
}

/// The cells of the table that shows `content`, in the order in which they
/// are laid out.
pub open spec fn spec_grid(content: Seq<[&'static str; 2]>) -> Seq<Cell> {
    Seq::new(2 * content.len(), |i: int| spec_cell(content, i))
}

/// Lays out rows of two texts as the cells of a two-column table.
pub fn grid(content: Vec<[&'static str; 2]>) -> (cells: Vec<Cell>)
    ensures
        cells@ == spec_grid(content@),
{
    let mut cells: Vec<Cell> = Vec::new();
    let mut row: usize = 0;
    while row < content.len()
        invariant
            row <= content.len(),
            cells@ == spec_grid(content@.take(row as int)),
        decreases content.len() - row,
    {
        let texts: [&'static str; 2] = content[row];
        cells.push(Cell { text: texts[0], justify: Justify::End });
        cells.push(Cell { text: texts[1], justify: Justify::Start });
        row += 1;
    }
    cells
}

/// The people who made the game, each with what they did.
pub open spec fn spec_created_by() -> Seq<[&'static str; 2]> {
    seq![
        ["Joe Shmoe", "Implemented alligator wrestling AI"],
        ["Jane Doe", "Made the music for the alien invasion"],
    ]
}

/// The table of the people who made the game.
pub fn created_by() -> (cells: Vec<Cell>)
    ensures
        cells@ == spec_grid(spec_created_by()),
{
    grid(
        vec![
            ["Joe Shmoe", "Implemented alligator wrestling AI"],
            ["Jane Doe", "Made the music for the alien invasion"],
        ],
    )
}

/// The assets the game uses, each with its licence.
pub open spec fn spec_assets() -> Seq<[&'static str; 2]> {
    seq![
        ["Ducky sprite", "CC0 by Caz Creates Games"],
        ["Button SFX", "CC0 by Jaszunio15"],
        ["Music", "CC BY 3.0 by Kevin MacLeod"],
        [
            "Bevy logo",
            "All rights reserved by the Bevy Foundation, permission granted for splash screen use when unmodified",
        ],
    ]
}

/// The table of the assets the game uses.
pub fn assets() -> (cells: Vec<Cell>)
    ensures
        cells@ == spec_grid(spec_assets()),
{
    grid(
        vec![
            ["Ducky sprite", "CC0 by Caz Creates Games"],
            ["Button SFX", "CC0 by Jaszunio15"],
            ["Music", "CC BY 3.0 by Kevin MacLeod"],
            [
                "Bevy logo",
                "All rights reserved by the Bevy Foundation, permission granted for splash screen use when unmodified",
            ],
        ],
    )
}

/// Remembers the entity that plays the credits music, from the moment the
/// credits screen is entered until it is left.
#[derive(Clone, Debug)]
pub struct CreditsMusic {
    entity: Option<Entity>,
}

impl CreditsMusic {
    /// The entity that plays the music, if one does.
    pub closed spec fn view(&self) -> Option<Entity> {
        self.entity
    }

    /// No music plays yet.
    pub fn new() -> (music: Self)
        ensures
            music@ is None,
    {
        CreditsMusic { entity: None }
    }

    /// The entity that plays the music, if one does.
    pub fn entity(&self) -> (entity: Option<Entity>)
        ensures
            entity == self@,
    {
        self.entity
    }

    /// Records the entity that was spawned to play the music when the credits
    /// screen was entered.
    pub fn start(&mut self, spawned: Entity)
        ensures
            final(self)@ == Some(spawned),
    {
        self.entity = Some(spawned);
    }

    /// Forgets the entity that plays the music and hands it out, so that it
    /// can be despawned when the credits screen is left.
    pub fn stop(&mut self) -> (despawn: Option<Entity>)
        ensures
            despawn == old(self)@,
            final(self)@ is None,
    {
        self.entity.take()
    }
}

/// One step in the life of the credits music.
pub enum MusicEvent {
    /// The credits screen was entered and this entity was spawned to play
    /// the music: what `CreditsMusic::start` records.
    Start(Entity),
    /// The credits screen was left and the recorded entity, if there was
    /// one, was despawned: what `CreditsMusic::stop` hands out.
    Stop,
}

/// The entity that a `CreditsMusic` holds after `events`, when it held none
/// before them.
pub open spec fn slot_after(events: Seq<MusicEvent>) -> Option<Entity> {
    if events.len() == 0 {
        None
    } else {
        match events.last() {
            MusicEvent::Start(spawned) => Some(spawned),
            MusicEvent::Stop => None,
        }
    }
}

/// The music entities that are alive after `events`, when none was alive
/// before them: every start adds the spawned entity, every stop takes away
/// the entity that was recorded at that moment.
pub open spec fn playing_after(events: Seq<MusicEvent>) -> Set<Entity>
    decreases events.len(),
{
    if events.len() == 0 {
        Set::empty()
    } else {
        let before = events.drop_last();
        match events.last() {
            MusicEvent::Start(spawned) => playing_after(before).insert(spawned),
            MusicEvent::Stop => match slot_after(before) {
                Some(recorded) => playing_after(before).remove(recorded),
                None => playing_after(before),
            },
        }
    }
}

/// Music is started only while none is recorded: every start is the first
/// event or comes right after a stop. This is how a screen is entered and
/// left: never entered twice without being left in between.
pub open spec fn starts_follow_stops(events: Seq<MusicEvent>) -> bool {
    forall|i: int|
        0 < i < events.len() && (#[trigger] events[i]) is Start ==> events[i - 1] is Stop
}

/// As long as music is started only while none is recorded, the entities that
/// play it are exactly the recorded one, so at most one plays at any time and
/// none is left once the screen is gone.
pub proof fn lemma_at_most_one_plays(events: Seq<MusicEvent>)
    requires
        starts_follow_stops(events),
    ensures
        playing_after(events) == match slot_after(events) {
            Some(recorded) => set![recorded],
            None => Set::empty(),
        },
        playing_after(events).finite(),
        playing_after(events).len() <= 1,
    decreases events.len(),
{
    if events.len() > 0 {
        let before = events.drop_last();
        assert(starts_follow_stops(before)) by {
            assert forall|i: int|
                0 < i < before.len() && (#[trigger] before[i]) is Start implies before[i
                - 1] is Stop by {
                assert(before[i] == events[i]);
                assert(before[i - 1] == events[i - 1]);
            }
        }
        lemma_at_most_one_plays(before);
        match events.last() {
            MusicEvent::Start(spawned) => {
                if before.len() > 0 {
                    assert(events[events.len() - 1] is Start);
                    assert(before.last() == events[events.len() - 2]);
                }
                assert(slot_after(before) is None);
                assert(playing_after(events) =~= set![spawned]);
            },
            MusicEvent::Stop => {
                assert(playing_after(events) =~= Set::<Entity>::empty());
            },
        }
    }
}

} // verus!
