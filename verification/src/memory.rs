//! Long-horizon state owned by the persistence layer: moods, remembered
//! characters and personality traits. The core reads a profile supplied
//! with the tick and emits memory-mutation events back; it never mutates
//! persisted state directly.

use vstd::prelude::*;
use crate::rng::{spec_draw_index, spec_lcg_next, TickRng};
use crate::world::{NameId, TimeMs};

verus! {

/// What put the agent into a mood.
#[derive(Clone, Copy, PartialEq, Eq, Debug)]
pub enum MoodContext {
    GoodWeather,
    EverydayLife,
}

/// One of three mood states, each carrying its context.
#[derive(Clone, Copy, PartialEq, Eq, Debug)]
pub enum MoodState {
    Good(MoodContext),
    Neutral(MoodContext),
    Bad(MoodContext),
}

/// One persisted memory entry.
#[derive(Clone, Copy, PartialEq, Eq, Debug)]
pub enum MemoryItem {
    CharacterInteraction { name: NameId },
    CharacterFight { name: NameId },
    Mood { state: MoodState },
}

/// A memory with the instant the persistence layer may forget it.
#[derive(Clone, Copy, PartialEq, Eq, Debug)]
pub struct Memory {
    pub item: MemoryItem,
    pub time_to_forget: TimeMs,
}

/// A mutation the core asks the persistence layer to apply after the tick.
#[derive(Clone, Copy, PartialEq, Eq, Debug)]
pub enum MemoryEvent {
    Add(Memory),
    SetMood(Memory),
    ForgetEnemy(NameId),
}

/// Personality traits; a dominant trait indexes an ambient dialogue line.
#[derive(Clone, Copy, PartialEq, Eq, Debug)]
pub enum PersonalityTrait {
    Open,
    Adventurous,
    Closed,
    Conscientious,
    Busybody,
    Unconscientious,
    Extroverted,
    Introverted,
    Agreeable,
    Sociable,
    Disagreeable,
    Neurotic,
    Seeker,
    SadLoner,
    Worried,
    Stable,
}

/// The dominant traits of one agent, as the persistence layer supplies
/// them.
#[derive(Clone, PartialEq, Eq, Debug)]
pub struct Personality {
    pub traits: Vec<PersonalityTrait>,
}

/// The trait a random draw picks from a personality, if any is dominant.
pub open spec fn spec_random_chat_trait(p: Personality, state: u64) -> Option<PersonalityTrait> {
    if p.traits@.len() == 0 {
        None
    } else {
        Some(p.traits@[spec_draw_index(state, p.traits@.len() as int)])
    }
}

impl Personality {
    pub open spec fn spec_has_trait(&self, t: PersonalityTrait) -> bool {
        self.traits@.contains(t)
    }

    /// Whether the given trait is dominant.
    pub fn has_trait(&self, t: PersonalityTrait) -> (r: bool)
        ensures
            r == self.spec_has_trait(t),
    {
        let n: usize = self.traits.len();
        let mut i: usize = 0;
        while i < n
            invariant
                n == self.traits@.len(),
                0 <= i <= n,
                forall|k: int| 0 <= k < i ==> self.traits@[k] != t,
            decreases n - i,
        {
            if matches_trait(self.traits[i], t) {
                return true;
            }
            i = i + 1;
        }
        false
    }

    /// One dominant trait picked at random, or none when no trait is
    /// dominant.
    pub fn random_chat_trait(&self, rng: &mut TickRng) -> (r: Option<PersonalityTrait>)
        ensures
            r == spec_random_chat_trait(*self, old(rng).state),
            final(rng).state == if self.traits@.len() == 0 {
                old(rng).state
            } else {
                spec_lcg_next(old(rng).state)
            },
    {
        let n: usize = self.traits.len();
        if n == 0 {
            None
        } else {
            let i: usize = rng.pick_index(n);
            Some(self.traits[i])
        }
    }
}

/// Exec equality on personality traits.
fn matches_trait(a: PersonalityTrait, b: PersonalityTrait) -> (r: bool)
    ensures
        r == (a == b),
{
    match (a, b) {
        (PersonalityTrait::Open, PersonalityTrait::Open) => true,
        (PersonalityTrait::Adventurous, PersonalityTrait::Adventurous) => true,
        (PersonalityTrait::Closed, PersonalityTrait::Closed) => true,
        (PersonalityTrait::Conscientious, PersonalityTrait::Conscientious) => true,
        (PersonalityTrait::Busybody, PersonalityTrait::Busybody) => true,
        (PersonalityTrait::Unconscientious, PersonalityTrait::Unconscientious) => true,
        (PersonalityTrait::Extroverted, PersonalityTrait::Extroverted) => true,
        (PersonalityTrait::Introverted, PersonalityTrait::Introverted) => true,
        (PersonalityTrait::Agreeable, PersonalityTrait::Agreeable) => true,
        (PersonalityTrait::Sociable, PersonalityTrait::Sociable) => true,
        (PersonalityTrait::Disagreeable, PersonalityTrait::Disagreeable) => true,
        (PersonalityTrait::Neurotic, PersonalityTrait::Neurotic) => true,
        (PersonalityTrait::Seeker, PersonalityTrait::Seeker) => true,
        (PersonalityTrait::SadLoner, PersonalityTrait::SadLoner) => true,
        (PersonalityTrait::Worried, PersonalityTrait::Worried) => true,
        (PersonalityTrait::Stable, PersonalityTrait::Stable) => true,
        _ => false,
    }
}

/// What the persistence layer knows of one agent when its tick starts.
#[derive(Clone, PartialEq, Eq, Debug)]
pub struct Profile {
    pub personality: Personality,
    pub known_characters: Vec<NameId>,
    pub mood: Option<Memory>,
}

impl Profile {
    pub open spec fn spec_remembers_character(&self, name: NameId) -> bool {
        self.known_characters@.contains(name)
    }

    /// Whether this agent has met the named character before.
    pub fn remembers_character(&self, name: NameId) -> (r: bool)
        ensures
            r == self.spec_remembers_character(name),
    {
        let n: usize = self.known_characters.len();
        let mut i: usize = 0;
        while i < n
            invariant
                n == self.known_characters@.len(),
                0 <= i <= n,
                forall|k: int| 0 <= k < i ==> self.known_characters@[k] != name,
            decreases n - i,
        {
            if self.known_characters[i] == name {
                return true;
            }
            i = i + 1;
        }
        false
    }

    /// Whether a mood memory is persisted.
    pub fn remembers_mood(&self) -> (r: bool)
        ensures
            r == self.mood.is_some(),
    {
        self.mood.is_some()
    }
}

} // verus!
