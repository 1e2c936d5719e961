use vstd::prelude::*;

verus! {

/// A combat participant: identifier, display name and battle stats.
/// The stats are snapshots; the engine never writes back to them.
#[derive(Debug)]
pub struct Monster {
    pub id: String,
    pub name: String,
    pub attack: i32,
    pub defense: i32,
    pub speed: i32,
    pub hp: i32,
}

/// The mathematical model of a monster: the identifier as a character
/// sequence and the stats as unbounded integers.
pub ghost struct MonsterV {
    pub id: Seq<char>,
    pub name: Seq<char>,
    pub attack: int,
    pub defense: int,
    pub speed: int,
    pub hp: int,
}

impl View for Monster {
    type V = MonsterV;

    open spec fn view(&self) -> MonsterV {
        MonsterV {
            id: self.id@,
            name: self.name@,
            attack: self.attack as int,
            defense: self.defense as int,
            speed: self.speed as int,
            hp: self.hp as int,
        }
    }
}

impl Clone for Monster {
    fn clone(&self) -> (res: Self)
        ensures
            res == *self,
    {
        Monster {
            id: self.id.clone(),
            name: self.name.clone(),
            attack: self.attack,
            defense: self.defense,
            speed: self.speed,
            hp: self.hp,
        }
    }
}

/// One combat outcome between two monsters, referenced by identifier only:
/// the record stays meaningful even after a referenced monster is deleted.
/// Before persistence the identifier is empty and the timestamps absent;
/// the store fills them in and they are never changed afterwards.
/// Timestamps count microseconds since the Unix epoch.
#[derive(Debug)]
pub struct Battle {
    pub id: String,
    pub monster_a: String,
    pub monster_b: String,
    pub winner: String,
    pub created_at: Option<i64>,
    pub updated_at: Option<i64>,
}

/// The mathematical model of a battle record.
pub ghost struct BattleV {
    pub id: Seq<char>,
    pub monster_a: Seq<char>,
    pub monster_b: Seq<char>,
    pub winner: Seq<char>,
    pub created_at: Option<i64>,
    pub updated_at: Option<i64>,
}

impl View for Battle {
    type V = BattleV;

    open spec fn view(&self) -> BattleV {
        BattleV {
            id: self.id@,
            monster_a: self.monster_a@,
            monster_b: self.monster_b@,
            winner: self.winner@,
            created_at: self.created_at,
            updated_at: self.updated_at,
        }
    }
}

impl Clone for Battle {
    fn clone(&self) -> (res: Self)
        ensures
            res == *self,
    {
        Battle {
            id: self.id.clone(),
            monster_a: self.monster_a.clone(),
            monster_b: self.monster_b.clone(),
            winner: self.winner.clone(),
            created_at: self.created_at,
            updated_at: self.updated_at,
        }
    }
}

} // verus!
