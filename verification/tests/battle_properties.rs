use monster_battle::{
    battle, create_battle_flow, validate_request, BattleError, BattleStore, CreateBattleRequest,
    Monster,
};

fn monster(id: &str, attack: i32, defense: i32, speed: i32, hp: i32) -> Monster {
    Monster {
        id: id.to_string(),
        name: id.to_string(),
        attack,
        defense,
        speed,
        hp,
    }
}

#[test]
fn test_faster_monster_with_piercing_attack_wins() {
    // A acts first on higher speed; B's retaliation is capped at the
    // 1-point floor (attack 10 does not exceed defense 10); A wins.
    let a = monster("a", 50, 10, 20, 100);
    let b = monster("b", 10, 40, 10, 100);
    let outcome = battle(a, b);
    assert_eq!(outcome.winner, "a");
    assert_eq!(outcome.monster_a, "a");
    assert_eq!(outcome.monster_b, "b");
    assert_eq!(outcome.id, "");
    assert!(outcome.created_at.is_none());
    assert!(outcome.updated_at.is_none());
}

#[test]
fn test_equal_speed_higher_attack_acts_first() {
    // Equal speed: the stronger attacker (B, attack 50 over 30) acts first
    // and, with otherwise equal stats, the first actor wins.
    let a = monster("a", 30, 0, 10, 100);
    let b = monster("b", 50, 0, 10, 100);
    let outcome = battle(a, b);
    assert_eq!(outcome.winner, "b");
}

#[test]
fn test_equal_stats_monster_a_wins() {
    let a = monster("a", 12, 7, 9, 30);
    let b = monster("b", 12, 7, 9, 30);
    let outcome = battle(a, b);
    assert_eq!(outcome.winner, "a");
}

#[test]
fn test_damage_floor_prevents_stalemate() {
    // Neither attack exceeds the other's defense: every turn still deals 1
    // point, so the fight ends (A acts first on the tie-break and wins).
    let a = monster("a", 1, 100, 2, 3);
    let b = monster("b", 1, 100, 2, 3);
    let outcome = battle(a, b);
    assert_eq!(outcome.winner, "a");
}

#[test]
fn test_resolve_is_deterministic() {
    let first = battle(monster("a", 23, 11, 7, 64), monster("b", 19, 13, 7, 64));
    let second = battle(monster("a", 23, 11, 7, 64), monster("b", 19, 13, 7, 64));
    assert_eq!(first.winner, second.winner);
    assert_eq!(first.monster_a, second.monster_a);
    assert_eq!(first.monster_b, second.monster_b);
}

#[test]
fn test_missing_monster_a_id_is_rejected_first() {
    let req = CreateBattleRequest {
        monster_a: None,
        monster_b: None,
    };
    let err = validate_request(&req).expect_err("validation should have failed");
    assert_eq!(err, BattleError::MonsterAIdMissing);
    assert_eq!(err.status_code(), 400);
    assert_eq!(err.message(), "Monster A ID is missing");
}

#[test]
fn test_missing_monster_b_id_message() {
    let req = CreateBattleRequest {
        monster_a: Some("a".to_string()),
        monster_b: None,
    };
    let err = validate_request(&req).expect_err("validation should have failed");
    assert_eq!(err, BattleError::MonsterBIdMissing);
    assert_eq!(err.message(), "Monster B ID is missing");
}

#[test]
fn test_validate_request_hands_both_ids_back() {
    let req = CreateBattleRequest {
        monster_a: Some("left".to_string()),
        monster_b: Some("right".to_string()),
    };
    let (a, b) = validate_request(&req).expect("validation failed");
    assert_eq!(a, "left");
    assert_eq!(b, "right");
}

#[test]
fn test_unresolved_monster_a_is_not_found() {
    let mut store = BattleStore::new();
    let req = CreateBattleRequest {
        monster_a: Some("missing".to_string()),
        monster_b: Some("b".to_string()),
    };
    let result = create_battle_flow(&req, None, Some(monster("b", 5, 5, 5, 5)), &mut store);
    let err = result.expect_err("lookup should have failed");
    assert_eq!(err, BattleError::MonsterNotFound);
    assert_eq!(err.status_code(), 404);
    assert_eq!(err.message(), "Monster not found");
    assert_eq!(store.get_battles().len(), 0);
}

#[test]
fn test_delete_then_get_reports_not_found() {
    let mut store = BattleStore::new();
    let outcome = battle(monster("a", 9, 2, 3, 10), monster("b", 4, 6, 1, 10));
    let stored = store.create_battle(&outcome).expect("create failed");
    assert_eq!(store.delete_battle_by_id(&stored.id), Some(1));
    assert!(store.get_battle_by_id(&stored.id).is_none());
    assert_eq!(store.delete_battle_by_id(&stored.id), None);
}

#[test]
fn test_duplicate_id_fails_as_storage_error() {
    let mut store = BattleStore::new();
    let outcome = battle(monster("a", 9, 2, 3, 10), monster("b", 4, 6, 1, 10));
    store
        .insert_battle(&outcome, "fixed-id".to_string(), 7)
        .expect("first insert failed");
    let err = store
        .insert_battle(&outcome, "fixed-id".to_string(), 8)
        .expect_err("second insert should have failed");
    assert_eq!(err, BattleError::Storage);
    assert_eq!(err.status_code(), 500);
    assert_eq!(err.message(), "Error creating battle");
    assert_eq!(store.get_battles().len(), 1);
}

#[test]
fn test_insert_battle_sets_id_and_timestamps() {
    let mut store = BattleStore::new();
    let outcome = battle(monster("a", 9, 2, 3, 10), monster("b", 4, 6, 1, 10));
    let stored = store
        .insert_battle(&outcome, "battle-1".to_string(), 42)
        .expect("insert failed");
    assert_eq!(stored.id, "battle-1");
    assert_eq!(stored.monster_a, outcome.monster_a);
    assert_eq!(stored.monster_b, outcome.monster_b);
    assert_eq!(stored.winner, outcome.winner);
    assert_eq!(stored.created_at, Some(42));
    assert_eq!(stored.updated_at, Some(42));
}

#[test]
fn test_created_battle_gets_fresh_id_and_timestamps() {
    let mut store = BattleStore::new();
    let outcome = battle(monster("a", 9, 2, 3, 10), monster("b", 4, 6, 1, 10));
    let stored = store.create_battle(&outcome).expect("create failed");
    assert_eq!(stored.id.len(), 36);
    assert!(stored.created_at.is_some());
    assert_eq!(stored.updated_at, stored.created_at);
    assert_eq!(stored.winner, "a");
}

#[test]
fn test_get_battles_keeps_insertion_order() {
    let mut store = BattleStore::new();
    let first = battle(monster("a", 9, 2, 3, 10), monster("b", 4, 6, 1, 10));
    let second = battle(monster("c", 9, 2, 3, 10), monster("d", 4, 6, 1, 10));
    let first_stored = store.create_battle(&first).expect("create failed");
    let second_stored = store.create_battle(&second).expect("create failed");
    let all = store.get_battles();
    assert_eq!(all.len(), 2);
    assert_eq!(all[0].id, first_stored.id);
    assert_eq!(all[1].id, second_stored.id);
}
