//! Plain-value model of the read-only world snapshot an agent observes
//! during its tick: entity records with fixed-point positions, integer
//! health, alignment and body kind, plus the world clock.

use vstd::prelude::*;

verus! {

/// Identifies an entity in the world snapshot.
pub type EntityId = u64;

/// Identifies a character or place name held by the persistence layer.
pub type NameId = u64;

/// A world-clock instant or duration, in milliseconds.
pub type TimeMs = u64;

/// Upper bound on any timestamp the core accepts; leaves headroom so that
/// adding forget horizons and tick deltas never overflows a `u64`.
pub const TIME_LIMIT_MS: u64 = 0x4000_0000_0000_0000;

/// Longest tick delta the core accepts, in milliseconds.
pub const DT_LIMIT_MS: u64 = 60_000;

/// Coordinates are fixed-point, one unit being a tenth of a metre; the
/// world keeps them within this bound so squared distances fit in `i64`.
pub const POS_LIMIT: i64 = 1_000_000;

/// Largest squared distance two in-bounds positions can be apart.
pub const DIST_SQRD_LIMIT: i64 = 12_000_000_000_000;

/// A point in the world, in tenths of a metre per axis.
#[derive(Clone, Copy, PartialEq, Eq, Structural, Debug)]
pub struct Pos {
    pub x: i64,
    pub y: i64,
    pub z: i64,
}

/// A velocity, in tenths of a metre per second per axis.
#[derive(Clone, Copy, PartialEq, Eq, Structural, Debug)]
pub struct Vel {
    pub x: i64,
    pub y: i64,
    pub z: i64,
}

pub open spec fn pos_wf(p: Pos) -> bool {
    &&& -POS_LIMIT <= p.x <= POS_LIMIT
    &&& -POS_LIMIT <= p.y <= POS_LIMIT
    &&& -POS_LIMIT <= p.z <= POS_LIMIT
}

pub open spec fn spec_dist_sqrd(a: Pos, b: Pos) -> int {
    (a.x - b.x) * (a.x - b.x) + (a.y - b.y) * (a.y - b.y) + (a.z - b.z) * (a.z - b.z)
}

/// Squared distance between two in-bounds points.
pub fn dist_sqrd(a: &Pos, b: &Pos) -> (r: i64)
    requires
        pos_wf(*a),
        pos_wf(*b),
    ensures
        r == spec_dist_sqrd(*a, *b),
        0 <= r <= DIST_SQRD_LIMIT,
{
    let dx: i64 = a.x - b.x;
    let dy: i64 = a.y - b.y;
    let dz: i64 = a.z - b.z;
    assert(0 <= dx * dx <= 4_000_000_000_000 && 0 <= dy * dy <= 4_000_000_000_000 && 0 <= dz * dz
        <= 4_000_000_000_000) by (nonlinear_arith)
        requires
            -2_000_000 <= dx <= 2_000_000,
            -2_000_000 <= dy <= 2_000_000,
            -2_000_000 <= dz <= 2_000_000,
    ;
    dx * dx + dy * dy + dz * dz
}

/// The most recent change to an entity's health: when it happened, who is
/// held responsible, and whether it took health away.
#[derive(Clone, Copy, PartialEq, Eq, Structural, Debug)]
pub struct HealthChange {
    pub time: TimeMs,
    pub by: Option<EntityId>,
    pub harmful: bool,
}

/// Integer health: a current value out of a positive maximum.
#[derive(Clone, Copy, PartialEq, Eq, Structural, Debug)]
pub struct Health {
    pub current: u32,
    pub max: u32,
    pub last_change: Option<HealthChange>,
}

pub open spec fn health_wf(h: Health) -> bool {
    &&& h.max >= 1
    &&& h.current <= h.max
}

pub open spec fn health_dead(h: Health) -> bool {
    h.current == 0
}

/// Health as a fraction of the maximum, in thousandths.
pub open spec fn spec_frac_permille(h: Health) -> int {
    (h.current * 1000) / (h.max as int)
}

/// Health fraction in thousandths, rounded down.
pub fn frac_permille(h: &Health) -> (r: u32)
    requires
        health_wf(*h),
    ensures
        r == spec_frac_permille(*h),
        r <= 1000,
{
    let wide: u64 = (h.current as u64) * 1000 / (h.max as u64);
    assert((h.current * 1000) / (h.max as int) <= 1000) by (nonlinear_arith)
        requires
            h.max >= 1,
            h.current <= h.max,
    ;
    wide as u32
}

/// How the agent stands toward other entities; ownership binds a pet to
/// its owner.
#[derive(Clone, Copy, PartialEq, Eq, Structural, Debug)]
pub enum Alignment {
    Wild,
    Enemy,
    Npc,
    Tame,
    Passive,
    Owned(EntityId),
}

/// Whether two alignments stand in natural enmity; drives passive target
/// acquisition.
pub open spec fn spec_hostile_to(a: Alignment, b: Alignment) -> bool {
    match (a, b) {
        (Alignment::Enemy, Alignment::Enemy) => false,
        (Alignment::Enemy, Alignment::Passive) => false,
        (Alignment::Passive, Alignment::Enemy) => false,
        (Alignment::Enemy, _) => true,
        (_, Alignment::Enemy) => true,
        _ => false,
    }
}

pub fn hostile_to(a: &Alignment, b: &Alignment) -> (r: bool)
    ensures
        r == spec_hostile_to(*a, *b),
{
    match (a, b) {
        (Alignment::Enemy, Alignment::Enemy) => false,
        (Alignment::Enemy, Alignment::Passive) => false,
        (Alignment::Passive, Alignment::Enemy) => false,
        (Alignment::Enemy, _) => true,
        (_, Alignment::Enemy) => true,
        _ => false,
    }
}

/// The little the core needs to know of an entity's body.
#[derive(Clone, Copy, PartialEq, Eq, Structural, Debug)]
pub enum BodyKind {
    Humanoid,
    Creature,
    ItemDrop,
}

/// One entity as the snapshot shows it; any field the world does not know
/// is `None`, which the tree treats as a legitimate fall-through branch.
#[derive(Clone, Copy, PartialEq, Eq, Structural, Debug)]
pub struct EntityInfo {
    pub id: EntityId,
    pub pos: Option<Pos>,
    pub health: Option<Health>,
    pub alignment: Option<Alignment>,
    pub body: Option<BodyKind>,
    pub invulnerable: bool,
    pub name: Option<NameId>,
}

pub open spec fn entity_wf(e: EntityInfo, now: TimeMs) -> bool {
    &&& (e.pos matches Some(p) ==> pos_wf(p))
    &&& (e.health matches Some(h) ==> health_wf(h))
    &&& (e.health matches Some(h) && h.last_change matches Some(ch) ==> ch.time <= now)
}

/// The read-only view of the world an agent's tick observes: a consistent
/// snapshot of other entities plus the world clock and the tick delta.
pub struct WorldSnapshot {
    pub time: TimeMs,
    pub dt: TimeMs,
    pub entities: Vec<EntityInfo>,
}

pub open spec fn world_wf(w: WorldSnapshot) -> bool {
    &&& w.time <= TIME_LIMIT_MS
    &&& 1 <= w.dt <= DT_LIMIT_MS
    &&& forall|i: int| 0 <= i < w.entities@.len() ==> entity_wf(#[trigger] w.entities@[i], w.time)
    &&& forall|i: int, j: int|
        0 <= i < j < w.entities@.len() ==> w.entities@[i].id != w.entities@[j].id
}

/// First entity of the sequence carrying the given id, if any.
pub open spec fn spec_find(s: Seq<EntityInfo>, id: EntityId) -> Option<EntityInfo>
    decreases s.len(),
{
    if s.len() == 0 {
        None
    } else if s[0].id == id {
        Some(s[0])
    } else {
        spec_find(s.drop_first(), id)
    }
}

/// The snapshot's record of the entity with the given id, if it exists.
pub open spec fn spec_lookup(w: WorldSnapshot, id: EntityId) -> Option<EntityInfo> {
    spec_find(w.entities@, id)
}

proof fn lemma_find_prefix(s: Seq<EntityInfo>, id: EntityId, i: int)
    requires
        0 <= i <= s.len(),
        forall|k: int| 0 <= k < i ==> s[k].id != id,
    ensures
        spec_find(s, id) == spec_find(s.subrange(i, s.len() as int), id),
    decreases i,
{
    if i == 0 {
        assert(s.subrange(0, s.len() as int) =~= s);
    } else {
        let rest = s.subrange(1, s.len() as int);
        assert(s.drop_first() =~= rest);
        assert(s[0].id != id);
        assert(spec_find(s, id) == spec_find(rest, id));
        assert(forall|k: int| 0 <= k < i - 1 ==> #[trigger] rest[k].id != id);
        lemma_find_prefix(rest, id, i - 1);
        assert(rest.subrange(i - 1, rest.len() as int) =~= s.subrange(i, s.len() as int));
    }
}

/// A found entity is an element of the sequence and carries the id it was
/// found under.
pub proof fn lemma_find_is_elem(s: Seq<EntityInfo>, id: EntityId)
    ensures
        spec_find(s, id) matches Some(e) ==> e.id == id && exists|k: int|
            0 <= k < s.len() && s[k] == e,
    decreases s.len(),
{
    if s.len() > 0 && s[0].id != id {
        lemma_find_is_elem(s.drop_first(), id);
        if spec_find(s, id) is Some {
            let e = spec_find(s.drop_first(), id)->Some_0;
            let k = choose|k: int| 0 <= k < s.drop_first().len() && s.drop_first()[k] == e;
            assert(s[k + 1] == e);
        }
    }
}

/// With pairwise-distinct ids, looking up the id of the element at an
/// index finds exactly that element.
pub proof fn lemma_find_unique(s: Seq<EntityInfo>, i: int)
    requires
        0 <= i < s.len(),
        forall|p: int, q: int| 0 <= p < q < s.len() ==> s[p].id != s[q].id,
    ensures
        spec_find(s, s[i].id) == Some(s[i]),
    decreases i,
{
    if i > 0 {
        assert(s[0].id != s[i].id);
        let rest = s.drop_first();
        assert(forall|p: int, q: int| 0 <= p < q < rest.len() ==> rest[p].id != rest[q].id);
        assert(rest[i - 1] == s[i]);
        lemma_find_unique(rest, i - 1);
    }
}

/// In a well-formed snapshot, the entity at an index is what its id looks
/// up to.
pub proof fn lemma_lookup_index(w: WorldSnapshot, i: int)
    requires
        world_wf(w),
        0 <= i < w.entities@.len(),
    ensures
        spec_lookup(w, w.entities@[i].id) == Some(w.entities@[i]),
{
    lemma_find_unique(w.entities@, i);
}

/// In a well-formed snapshot, every found entity is well formed.
pub proof fn lemma_lookup_wf(w: WorldSnapshot, id: EntityId)
    requires
        world_wf(w),
    ensures
        spec_lookup(w, id) matches Some(e) ==> e.id == id && entity_wf(e, w.time),
{
    lemma_find_is_elem(w.entities@, id);
}

impl WorldSnapshot {
    /// Resolve an id to the snapshot's record of that entity.
    pub fn lookup(&self, id: EntityId) -> (r: Option<EntityInfo>)
        ensures
            r == spec_lookup(*self, id),
    {
        let n: usize = self.entities.len();
        let mut i: usize = 0;
        while i < n
            invariant
                n == self.entities@.len(),
                0 <= i <= n,
                forall|k: int| 0 <= k < i ==> self.entities@[k].id != id,
            decreases n - i,
        {
            if self.entities[i].id == id {
                proof {
                    lemma_find_prefix(self.entities@, id, i as int);
                    assert(self.entities@.subrange(i as int, n as int)[0] == self.entities@[
                    i as int]);
                }
                return Some(self.entities[i]);
            }
            i = i + 1;
        }
        proof {
            lemma_find_prefix(self.entities@, id, n as int);
        }
        None
    }
}

/// The entity exists and its health has run out.
pub open spec fn spec_is_dead(w: WorldSnapshot, id: EntityId) -> bool {
    spec_lookup(w, id) matches Some(e) && e.health matches Some(h) && health_dead(h)
}

/// The entity exists and cannot currently be harmed.
pub open spec fn spec_is_invulnerable(w: WorldSnapshot, id: EntityId) -> bool {
    spec_lookup(w, id) matches Some(e) && e.invulnerable
}

pub open spec fn spec_is_dead_or_invulnerable(w: WorldSnapshot, id: EntityId) -> bool {
    spec_is_dead(w, id) || spec_is_invulnerable(w, id)
}

pub fn is_dead(w: &WorldSnapshot, id: EntityId) -> (r: bool)
    ensures
        r == spec_is_dead(*w, id),
{
    match w.lookup(id) {
        Some(e) => match e.health {
            Some(h) => h.current == 0,
            None => false,
        },
        None => false,
    }
}

pub fn is_invulnerable(w: &WorldSnapshot, id: EntityId) -> (r: bool)
    ensures
        r == spec_is_invulnerable(*w, id),
{
    match w.lookup(id) {
        Some(e) => e.invulnerable,
        None => false,
    }
}

pub fn is_dead_or_invulnerable(w: &WorldSnapshot, id: EntityId) -> (r: bool)
    ensures
        r == spec_is_dead_or_invulnerable(*w, id),
{
    is_dead(w, id) || is_invulnerable(w, id)
}

} // verus!
