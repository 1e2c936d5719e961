use vstd::prelude::*;

use crate::engine::{battle, winner_id};
use crate::model::{Battle, Monster};
use crate::store::{contains_id, BattleStore};

verus! {

/// A battle-creation request: the two participants' identifiers, either of
/// which may be absent (the request is then rejected before any lookup).
pub struct CreateBattleRequest {
    pub monster_a: Option<String>,
    pub monster_b: Option<String>,
}

/// Everything that can go wrong between a battle-creation request and the
/// persisted record.
#[derive(Clone, Copy, Debug, PartialEq, Eq, Structural)]
pub enum BattleError {
    /// The request names no monster A (rejected before any lookup).
    MonsterAIdMissing,
    /// The request names no monster B (rejected before any lookup).
    MonsterBIdMissing,
    /// A requested monster identifier resolves to no stored monster.
    MonsterNotFound,
    /// The underlying write failed.
    Storage,
}

/// The HTTP-status equivalent of each error: a missing identifier is the
/// caller's fault (400), an unresolved identifier is not found (404), and
/// a failed write is the server's fault (500).
pub open spec fn spec_status_code(e: BattleError) -> u16 {
    match e {
        BattleError::MonsterAIdMissing => 400,
        BattleError::MonsterBIdMissing => 400,
        BattleError::MonsterNotFound => 404,
        BattleError::Storage => 500,
    }
}

/// The message shown to the caller for each error, naming the missing
/// identifier where one is missing.
pub open spec fn spec_message(e: BattleError) -> Seq<char> {
    match e {
        BattleError::MonsterAIdMissing => "Monster A ID is missing"@,
        BattleError::MonsterBIdMissing => "Monster B ID is missing"@,
        BattleError::MonsterNotFound => "Monster not found"@,
        BattleError::Storage => "Error creating battle"@,
    }
}

impl BattleError {
    /// The HTTP-status equivalent of the error.
    pub fn status_code(&self) -> (r: u16)
        ensures
            r == spec_status_code(*self),
    {
        match self {
            BattleError::MonsterAIdMissing => 400,
            BattleError::MonsterBIdMissing => 400,
            BattleError::MonsterNotFound => 404,
            BattleError::Storage => 500,
        }
    }

    /// The message shown to the caller.
    pub fn message(&self) -> (r: &'static str)
        ensures
            r@ == spec_message(*self),
    {
        match self {
            BattleError::MonsterAIdMissing => "Monster A ID is missing",
            BattleError::MonsterBIdMissing => "Monster B ID is missing",
            BattleError::MonsterNotFound => "Monster not found",
            BattleError::Storage => "Error creating battle",
        }
    }
}

/// Checks that the request names both monsters — monster A is demanded
/// first — and hands the two identifiers back for the lookups.
pub fn validate_request(req: &CreateBattleRequest) -> (r: Result<(String, String), BattleError>)
    ensures
        req.monster_a is None ==> r matches Err(BattleError::MonsterAIdMissing),
        req.monster_a is Some && req.monster_b is None ==> r matches Err(
            BattleError::MonsterBIdMissing,
        ),
        req.monster_a matches Some(a) ==> (req.monster_b matches Some(b) ==> (r matches Ok(ids)
            && ids.0@ == a@ && ids.1@ == b@)),
{
    let a = match &req.monster_a {
        Some(id) => id.clone(),
        None => {
            return Err(BattleError::MonsterAIdMissing);
        },
    };
    let b = match &req.monster_b {
        Some(id) => id.clone(),
        None => {
            return Err(BattleError::MonsterBIdMissing);
        },
    };
    Ok((a, b))
}

/// Resolves a battle-creation after the two monster lookups: either
/// requested monster left unresolved is a not-found error; with both
/// resolved the engine decides and the outcome record — winner settled,
/// identifier and timestamps still unassigned — is returned.
pub fn resolve_battle(lookup_a: Option<Monster>, lookup_b: Option<Monster>) -> (r: Result<
    Battle,
    BattleError,
>)
    requires
        lookup_a matches Some(m) ==> m.hp > 0,
        lookup_b matches Some(m) ==> m.hp > 0,
    ensures
        (lookup_a is None || lookup_b is None) <==> r matches Err(BattleError::MonsterNotFound),
        lookup_a matches Some(ma) ==> (lookup_b matches Some(mb) ==> (r matches Ok(out)
            && out@.winner == winner_id(ma@, mb@) && out@.monster_a == ma@.id && out@.monster_b
            == mb@.id && out@.id == Seq::<char>::empty() && out@.created_at is None
            && out@.updated_at is None)),
{
    let ma = match lookup_a {
        Some(m) => m,
        None => {
            return Err(BattleError::MonsterNotFound);
        },
    };
    let mb = match lookup_b {
        Some(m) => m,
        None => {
            return Err(BattleError::MonsterNotFound);
        },
    };
    Ok(battle(ma, mb))
}

/// The whole battle-creation decision, as the service runs it: the request
/// is validated (monster A first), both lookups must have resolved, then
/// the engine decides and the outcome is persisted. The caller performs
/// the lookups for the two requested identifiers and hands their results
/// in; a monster entering combat must have positive hit points. With a
/// valid request, both monsters resolved and no stored identifier 36
/// characters long, the freshly drawn identifier cannot collide and the
/// creation is owed to succeed.
pub fn create_battle_flow(
    req: &CreateBattleRequest,
    lookup_a: Option<Monster>,
    lookup_b: Option<Monster>,
    store: &mut BattleStore,
) -> (r: Result<Battle, BattleError>)
    requires
        old(store).wf(),
        req.monster_a is Some && req.monster_b is Some ==> ((lookup_a matches Some(m) ==> m.hp > 0)
            && (lookup_b matches Some(m) ==> m.hp > 0)),
    ensures
        final(store).wf(),
        req.monster_a is None ==> (r matches Err(BattleError::MonsterAIdMissing) && final(store)@
            == old(store)@),
        req.monster_a is Some && req.monster_b is None ==> (r matches Err(
            BattleError::MonsterBIdMissing,
        ) && final(store)@ == old(store)@),
        req.monster_a is Some && req.monster_b is Some && (lookup_a is None || lookup_b is None)
            ==> (r matches Err(BattleError::MonsterNotFound) && final(store)@ == old(store)@),
        req.monster_a is Some && req.monster_b is Some ==> (lookup_a matches Some(ma) ==> (
        lookup_b matches Some(mb) ==> (r matches Ok(b) ==> b@.winner == winner_id(ma@, mb@)
            && b@.monster_a == ma@.id && b@.monster_b == mb@.id && b@.id.len() == 36
            && b@.created_at is Some && b@.updated_at == b@.created_at
            && !contains_id(old(store)@, b@.id) && final(store)@ == old(store)@.push(b@)))),
        req.monster_a is Some && req.monster_b is Some && lookup_a is Some && lookup_b is Some
            ==> (r matches Err(e) ==> e == BattleError::Storage && final(store)@ == old(store)@),
        req.monster_a is Some && req.monster_b is Some && lookup_a is Some && lookup_b is Some
            && (forall|i: int| 0 <= i < old(store)@.len() ==> old(store)@[i].id.len() != 36)
            ==> r is Ok,
{
    if req.monster_a.is_none() {
        return Err(BattleError::MonsterAIdMissing);
    }
    if req.monster_b.is_none() {
        return Err(BattleError::MonsterBIdMissing);
    }
    let outcome = match resolve_battle(lookup_a, lookup_b) {
        Ok(out) => out,
        Err(e) => {
            return Err(e);
        },
    };
    store.create_battle(&outcome)
}

/// A creation request that names monster A but not monster B is refused
/// before any lookup: on that input class `create_battle_flow` answers
/// exactly `MonsterBIdMissing` and leaves the store unchanged (its
/// contract), and this law fixes how that error surfaces — as a bad
/// request (400) whose body is "Monster B ID is missing".
pub proof fn lemma_missing_monster_b_rejection()
    ensures
        spec_status_code(BattleError::MonsterBIdMissing) == 400,
        spec_message(BattleError::MonsterBIdMissing) == "Monster B ID is missing"@,
{
}

/// A creation request whose identifiers are both present but where a
/// requested monster resolved to no stored monster: on that input class
/// `create_battle_flow` answers exactly `MonsterNotFound` and leaves the
/// store unchanged (its contract), and this law fixes how that error
/// surfaces — as not found (404).
pub proof fn lemma_unresolved_monster_rejection()
    ensures
        spec_status_code(BattleError::MonsterNotFound) == 404,
{
}

} // verus!
