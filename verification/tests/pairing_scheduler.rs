use pairing_games::classic::common::{AsymmetricRewardTable, Side, SymmetricRewardTable};
use pairing_games::classic::domain::{ClassicAction, ClassicGameError};
use pairing_games::pairing::{AgentNum, PairingState};

fn example_table() -> AsymmetricRewardTable {
    AsymmetricRewardTable::from(SymmetricRewardTable::new(5, 1, 10, 3))
}

#[test]
fn created_pairings_follow_the_permutation() {
    let perm: Vec<usize> = vec![2, 0, 3, 1];
    let v = PairingState::<AgentNum>::create_pairings(&perm).unwrap();
    assert_eq!(v.len(), 4);
    // positions (2, 0) and (3, 1) pair up, even position plays Left
    assert_eq!(v[2].paired_player, 0);
    assert_eq!(v[2].side, Side::Left);
    assert_eq!(v[0].paired_player, 2);
    assert_eq!(v[0].side, Side::Right);
    assert_eq!(v[3].paired_player, 1);
    assert_eq!(v[3].side, Side::Left);
    assert_eq!(v[1].paired_player, 3);
    assert_eq!(v[1].side, Side::Right);
    for entry in &v {
        assert!(entry.taken_action.is_none());
    }
}

#[test]
fn created_pairings_are_a_fixed_point_free_involution() {
    let perm: Vec<usize> = vec![5, 2, 0, 3, 1, 4];
    let v = PairingState::<AgentNum>::create_pairings(&perm).unwrap();
    for i in 0..v.len() {
        let j = v[i].paired_player as usize;
        assert_ne!(j, i);
        assert_eq!(v[j].paired_player as usize, i);
        assert_ne!(v[i].side == Side::Left, v[j].side == Side::Left);
    }
}

#[test]
fn odd_player_count_is_rejected() {
    let perm: Vec<usize> = vec![2, 0, 1];
    let r = PairingState::<AgentNum>::create_pairings(&perm);
    assert_eq!(r.unwrap_err(), ClassicGameError::ExpectedEvenNumberOfPlayers(3));
    let s = PairingState::<AgentNum>::new_even(5, 2, example_table());
    assert_eq!(s.unwrap_err(), ClassicGameError::ExpectedEvenNumberOfPlayers(5));
}

#[test]
fn fresh_scheduler_starts_clean() {
    let s = PairingState::<AgentNum>::new_even(4, 2, example_table()).unwrap();
    assert!(s.is_round_clean());
    assert!(!s.is_finished());
    assert_eq!(s.current_player(), Some(0));
    for i in 0..4u32 {
        assert_eq!(s.state_score_of_player(&i), 0);
    }
}

#[test]
fn shuffled_pairing_is_still_a_perfect_matching() {
    // Runs the random shuffle behind the allocator and checks, via the
    // round's reports, that what came out is a fixed-point-free
    // involution: this would fail if the shuffle dropped or doubled an
    // index.
    for _ in 0..20 {
        let mut s = PairingState::<AgentNum>::new_even(6, 1, example_table()).unwrap();
        let mut updates = Vec::new();
        for i in 0..6u32 {
            updates = s.forward(i, ClassicAction::Cooperate).unwrap();
        }
        assert_eq!(updates.len(), 6);
        let reports = &updates[0].1.encounters;
        for i in 0..6usize {
            let j = reports[i].other_id as usize;
            assert_ne!(i, j);
            assert_eq!(reports[j].other_id as usize, i);
        }
    }
}

#[test]
fn out_of_turn_action_fails_and_changes_nothing() {
    let mut s = PairingState::<AgentNum>::new_even(4, 1, example_table()).unwrap();
    s.forward(0, ClassicAction::Defect).unwrap();
    let scores_before: Vec<i32> = (0..4u32).map(|i| s.state_score_of_player(&i)).collect();
    let r = s.forward(3, ClassicAction::Cooperate);
    assert_eq!(r.unwrap_err(), ClassicGameError::ActionOutOfOrder(3));
    let scores_after: Vec<i32> = (0..4u32).map(|i| s.state_score_of_player(&i)).collect();
    assert_eq!(scores_before, scores_after);
    assert_eq!(s.current_player(), Some(1));
}

#[test]
fn forward_after_game_over_fails_for_every_agent() {
    let mut s = PairingState::<AgentNum>::new_even(2, 1, example_table()).unwrap();
    s.forward(0, ClassicAction::Cooperate).unwrap();
    s.forward(1, ClassicAction::Defect).unwrap();
    assert!(s.is_finished());
    for i in 0..2u32 {
        let r = s.forward(i, ClassicAction::Cooperate);
        assert_eq!(r.unwrap_err(), ClassicGameError::ActionAfterGameOver(i));
    }
    assert!(s.is_finished());
}

#[test]
fn four_agent_single_round_resolves_exact_scores() {
    let sym = SymmetricRewardTable::new(5, 1, 10, 3);
    let table = AsymmetricRewardTable::from(sym);
    let mut s = PairingState::<AgentNum>::new_even(4, 1, table).unwrap();
    let actions = [
        ClassicAction::Cooperate,
        ClassicAction::Defect,
        ClassicAction::Cooperate,
        ClassicAction::Defect,
    ];
    let mut updates = Vec::new();
    for i in 0..4u32 {
        assert_eq!(s.current_player(), Some(i));
        let batch = s.forward(i, actions[i as usize]).unwrap();
        if i < 3 {
            assert!(batch.is_empty());
        } else {
            updates = batch;
        }
    }
    assert!(s.is_finished());
    assert_eq!(s.current_player(), None);
    assert_eq!(updates.len(), 4);
    for (id, update) in &updates {
        // the game is over: no next pairing is allocated
        assert!(update.pairing.is_none());
        assert_eq!(update.encounters.len(), 4);
        let report = update.encounters[*id as usize];
        // every agent took its action and it is the one it sent
        assert_eq!(report.own_action, actions[*id as usize]);
        let opponent = report.other_id;
        assert_ne!(opponent, *id);
        assert_eq!(report.other_player_action, actions[opponent as usize]);
        let mirror = update.encounters[opponent as usize];
        assert_eq!(mirror.other_id, *id);
        // each agent's score is exactly the payoff of its chosen action
        // against its opponent's chosen action
        assert_eq!(
            s.state_score_of_player(id),
            sym.reward(report.own_action, report.other_player_action)
        );
        assert_eq!(s.state_score_of_player(id), report.calculate_reward(&table));
    }
}

#[test]
fn pair_scores_sum_to_left_plus_right_payoff() {
    let left = SymmetricRewardTable::new(5, 1, 10, 3);
    let right = SymmetricRewardTable::new(7, 0, 12, 2);
    let table = AsymmetricRewardTable::new(left, right);
    let mut s = PairingState::<AgentNum>::new_even(4, 1, table).unwrap();
    let actions = [
        ClassicAction::Defect,
        ClassicAction::Cooperate,
        ClassicAction::Defect,
        ClassicAction::Cooperate,
    ];
    let mut updates = Vec::new();
    for i in 0..4u32 {
        updates = s.forward(i, actions[i as usize]).unwrap();
    }
    for (id, update) in &updates {
        let report = update.encounters[*id as usize];
        let opponent = report.other_id;
        let pair_sum = s.state_score_of_player(id) + s.state_score_of_player(&opponent);
        let expected = table.reward_for_side(
            Side::Left,
            report.left_action(),
            report.right_action(),
        ) + table.reward_for_side(Side::Right, report.left_action(), report.right_action());
        assert_eq!(pair_sum, expected);
    }
}

#[test]
fn mid_game_round_update_carries_next_pairing() {
    let mut s = PairingState::<AgentNum>::new_even(2, 3, example_table()).unwrap();
    let mut updates = Vec::new();
    for i in 0..2u32 {
        updates = s.forward(i, ClassicAction::Cooperate).unwrap();
    }
    assert!(!s.is_finished());
    assert!(s.is_round_clean());
    assert_eq!(updates.len(), 2);
    for (_, update) in &updates {
        let next = update.pairing.as_ref().unwrap();
        assert_eq!(next.len(), 2);
        assert!(next[0].taken_action.is_none());
        assert!(next[1].taken_action.is_none());
        assert_eq!(next[0].paired_player, 1);
        assert_eq!(next[1].paired_player, 0);
    }
}

#[test]
fn scores_accumulate_over_rounds() {
    // two players always pair with each other, so with fixed actions the
    // cumulative score is exact over any number of rounds
    let table = example_table();
    let mut s = PairingState::<AgentNum>::new_even(2, 3, table).unwrap();
    for _ in 0..3 {
        s.forward(0, ClassicAction::Defect).unwrap();
        s.forward(1, ClassicAction::Cooperate).unwrap();
    }
    assert!(s.is_finished());
    assert_eq!(s.state_score_of_player(&0), 30);
    assert_eq!(s.state_score_of_player(&1), 3);
}

#[test]
fn score_query_is_stable_between_rounds() {
    let mut s = PairingState::<AgentNum>::new_even(2, 2, example_table()).unwrap();
    s.forward(0, ClassicAction::Defect).unwrap();
    s.forward(1, ClassicAction::Cooperate).unwrap();
    let first = s.state_score_of_player(&0);
    let second = s.state_score_of_player(&0);
    assert_eq!(first, second);
    assert_eq!(s.state_score_of_player(&1), s.state_score_of_player(&1));
}

#[test]
fn renew_resets_scores_history_and_cursor() {
    let mut s = PairingState::<AgentNum>::new_even(2, 1, example_table()).unwrap();
    s.forward(0, ClassicAction::Defect).unwrap();
    s.forward(1, ClassicAction::Defect).unwrap();
    assert!(s.is_finished());
    s.renew_from(());
    assert!(!s.is_finished());
    assert!(s.is_round_clean());
    assert_eq!(s.current_player(), Some(0));
    assert_eq!(s.state_score_of_player(&0), 0);
    assert_eq!(s.state_score_of_player(&1), 0);
}
