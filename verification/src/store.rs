use vstd::prelude::*;

use crate::flow::BattleError;
use crate::model::{Battle, BattleV};

verus! {

/// True when some record in `s` carries the identifier `id`.
pub open spec fn contains_id(s: Seq<BattleV>, id: Seq<char>) -> bool {
    exists|i: int| 0 <= i < s.len() && s[i].id == id
}

/// Relies on uuid::Uuid::new_v4 and its Display form: a freshly drawn
/// random identifier in the 36-character hyphenated format. Randomness
/// admits no promise about the value itself.
#[verifier::external_body]
fn fresh_battle_id() -> (r: String)
    ensures
        r@.len() == 36,
{
    uuid::Uuid::new_v4().to_string()
}

/// Relies on chrono::Utc::now and DateTime::timestamp_micros: the current
/// time as microseconds since the Unix epoch. The clock admits no promise
/// about the value.
#[verifier::external_body]
fn now_micros() -> (r: i64) {
    chrono::Utc::now().timestamp_micros()
}

/// An in-memory battle store: records kept in insertion order, with no two
/// records sharing an identifier.
pub struct BattleStore {
    battles: Vec<Battle>,
}

impl View for BattleStore {
    type V = Seq<BattleV>;

    closed spec fn view(&self) -> Seq<BattleV> {
        self.battles@.map(|i: int, b: Battle| b@)
    }
}

impl BattleStore {
    /// Well-formed: identifiers are unique across the stored records.
    pub open spec fn wf(&self) -> bool {
        forall|i: int, j: int|
            0 <= i < j < self@.len() ==> self@[i].id != self@[j].id
    }

    /// An empty store.
    pub fn new() -> (s: Self)
        ensures
            s@ == Seq::<BattleV>::empty(),
            s.wf(),
    {
        let s = BattleStore { battles: Vec::new() };
        proof {
            assert(s@ =~= Seq::<BattleV>::empty());
        }
        s
    }

    /// All records, in insertion order, as copies of the stored records.
    #[verifier::loop_isolation(false)]
    pub fn get_battles(&self) -> (r: Vec<Battle>)
        ensures
            r@.len() == self@.len(),
            forall|i: int| 0 <= i < r@.len() ==> r@[i]@ == self@[i],
    {
        let mut out: Vec<Battle> = Vec::new();
        let mut i: usize = 0;
        while i < self.battles.len()
            invariant
                i <= self.battles.len(),
                out@.len() == i as int,
                forall|j: int| 0 <= j < i as int ==> out@[j]@ == self@[j],
            decreases self.battles.len() - i,
        {
            out.push(self.battles[i].clone());
            i = i + 1;
        }
        out
    }

    /// Looks a record up by identifier: a copy of the record with that
    /// identifier, or `None` exactly when no stored record carries it.
    #[verifier::loop_isolation(false)]
    pub fn get_battle_by_id(&self, battle_id: &str) -> (r: Option<Battle>)
        ensures
            r is Some <==> contains_id(self@, battle_id@),
            r matches Some(b) ==> b@.id == battle_id@ && self@.contains(b@),
    {
        let key: String = battle_id.to_owned();
        let mut i: usize = 0;
        while i < self.battles.len()
            invariant
                i <= self.battles.len(),
                key@ == battle_id@,
                forall|j: int| 0 <= j < i as int ==> self@[j].id != battle_id@,
            decreases self.battles.len() - i,
        {
            if self.battles[i].id == key {
                let found = self.battles[i].clone();
                assert(self@[i as int] == found@);
                return Some(found);
            }
            i = i + 1;
        }
        None
    }

    /// Read-before-delete: removes the record carrying the identifier and
    /// reports how many records went (always exactly one), or `None` when
    /// no record carries it, leaving the store unchanged.
    #[verifier::loop_isolation(false)]
    pub fn delete_battle_by_id(&mut self, battle_id: &str) -> (r: Option<usize>)
        requires
            old(self).wf(),
        ensures
            final(self).wf(),
            !contains_id(old(self)@, battle_id@) ==> r is None && final(self)@ == old(self)@,
            contains_id(old(self)@, battle_id@) ==> r == Some(1usize) && exists|i: int|
                0 <= i < old(self)@.len() && old(self)@[i].id == battle_id@ && final(self)@
                    == old(self)@.remove(i),
            !contains_id(final(self)@, battle_id@),
    {
        let key: String = battle_id.to_owned();
        let mut i: usize = 0;
        while i < self.battles.len()
            invariant
                i <= self.battles.len(),
                key@ == battle_id@,
                *self == *old(self),
                forall|j: int| 0 <= j < i as int ==> self@[j].id != battle_id@,
            decreases self.battles.len() - i,
        {
            if self.battles[i].id == key {
                proof {
                    assert(old(self)@[i as int].id == battle_id@);
                    assert(contains_id(old(self)@, battle_id@));
                }
                self.battles.remove(i);
                proof {
                    let olds = old(self)@;
                    let oldv = old(self).battles@;
                    oldv.remove_ensures(i as int);
                    olds.remove_ensures(i as int);
                    assert(self@ =~= olds.remove(i as int));
                    assert forall|j: int| 0 <= j < self@.len() implies self@[j].id != battle_id@ by {
                        if j < i as int {
                            assert(self@[j] == olds[j]);
                        } else {
                            assert(self@[j] == olds[j + 1]);
                            assert(olds[i as int].id != olds[j + 1].id);
                        }
                    }
                }
                return Some(1);
            }
            i = i + 1;
        }
        None
    }

    /// Persists an outcome under the given identifier and timestamp: the
    /// record is appended unless the identifier is already taken, in which
    /// case the write fails as a storage error and the store is unchanged.
    #[verifier::loop_isolation(false)]
    pub fn insert_battle(&mut self, outcome: &Battle, new_id: String, now: i64) -> (r: Result<
        Battle,
        BattleError,
    >)
        requires
            old(self).wf(),
        ensures
            final(self).wf(),
            contains_id(old(self)@, new_id@) ==> (r matches Err(BattleError::Storage)
                && final(self)@ == old(self)@),
            !contains_id(old(self)@, new_id@) ==> (r matches Ok(b) && b@.id == new_id@
                && b@.monster_a == outcome@.monster_a && b@.monster_b == outcome@.monster_b
                && b@.winner == outcome@.winner && b@.created_at == Some(now) && b@.updated_at
                == Some(now) && final(self)@ == old(self)@.push(b@)),
    {
        let mut i: usize = 0;
        while i < self.battles.len()
            invariant
                i <= self.battles.len(),
                *self == *old(self),
                forall|j: int| 0 <= j < i as int ==> self@[j].id != new_id@,
            decreases self.battles.len() - i,
        {
            if self.battles[i].id == new_id {
                proof {
                    assert(old(self)@[i as int].id == new_id@);
                    assert(contains_id(old(self)@, new_id@));
                }
                return Err(BattleError::Storage);
            }
            i = i + 1;
        }
        proof {
            assert(forall|j: int| 0 <= j < old(self)@.len() ==> old(self)@[j].id != new_id@);
            assert(!contains_id(old(self)@, new_id@));
        }
        let record = Battle {
            id: new_id,
            monster_a: outcome.monster_a.clone(),
            monster_b: outcome.monster_b.clone(),
            winner: outcome.winner.clone(),
            created_at: Some(now),
            updated_at: Some(now),
        };
        let copy = record.clone();
        self.battles.push(record);
        proof {
            assert(self@ =~= old(self)@.push(copy@));
            assert forall|p: int, q: int| 0 <= p < q < self@.len() implies self@[p].id
                != self@[q].id by {
                if q < self@.len() - 1 {
                    assert(self@[p] == old(self)@[p]);
                    assert(self@[q] == old(self)@[q]);
                } else {
                    assert(self@[p] == old(self)@[p]);
                    assert(self@[q] == copy@);
                }
            }
        }
        Ok(copy)
    }

    /// Persists an outcome: a fresh identifier and the current time are
    /// assigned, ignoring any identifier or timestamps on the input. The
    /// drawn identifier decides success, so both outcomes are stated: on
    /// `Ok` the returned record went in under a 36-character identifier the
    /// store did not hold, on `Err` (the underlying write failed) nothing
    /// changed. Where no stored identifier is 36 characters long — an empty
    /// store in particular — the draw cannot collide and success is owed.
    pub fn create_battle(&mut self, outcome: &Battle) -> (r: Result<Battle, BattleError>)
        requires
            old(self).wf(),
        ensures
            final(self).wf(),
            r matches Ok(b) ==> !contains_id(old(self)@, b@.id) && b@.id.len() == 36
                && b@.monster_a == outcome@.monster_a && b@.monster_b == outcome@.monster_b
                && b@.winner == outcome@.winner && b@.created_at is Some && b@.updated_at
                == b@.created_at && final(self)@ == old(self)@.push(b@),
            r matches Err(e) ==> e == BattleError::Storage && final(self)@ == old(self)@,
            (forall|i: int| 0 <= i < old(self)@.len() ==> old(self)@[i].id.len() != 36) ==> r
                is Ok,
    {
        let new_id = fresh_battle_id();
        let now = now_micros();
        self.insert_battle(outcome, new_id, now)
    }
}

} // verus!
