use pairing_games::prisoner::agent::{
    BetrayRatioPolicy, CoverPolicy, Forgive1Policy, PrisonerState, RandomPrisonerPolicy,
    SwitchOnTwoSubsequent,
};
use pairing_games::prisoner::common::RewardTable;
use pairing_games::prisoner::domain::{
    PrisonerAction, PrisonerError, PrisonerId, PrisonerMap, PrisonerUpdate,
};
use pairing_games::prisoner::env::PrisonerEnvState;

fn example_table() -> RewardTable {
    RewardTable { cover_v_cover: 5, cover_v_betray: 1, betray_v_cover: 10, betray_v_betray: 3 }
}

fn round(own: PrisonerAction, other: PrisonerAction) -> PrisonerUpdate {
    PrisonerUpdate { own_action: own, other_prisoner_action: other }
}

#[test]
fn prisoner_table_lookups() {
    let t = example_table();
    assert_eq!(t.reward(PrisonerAction::Cover, PrisonerAction::Cover), 5);
    assert_eq!(t.reward(PrisonerAction::Cover, PrisonerAction::Betray), 1);
    assert_eq!(t.reward(PrisonerAction::Betray, PrisonerAction::Cover), 10);
    assert_eq!(t.reward(PrisonerAction::Betray, PrisonerAction::Betray), 3);
}

#[test]
fn prisoner_id_other_swaps() {
    assert_eq!(PrisonerId::Andrzej.other(), PrisonerId::Janusz);
    assert_eq!(PrisonerId::Janusz.other(), PrisonerId::Andrzej);
}

#[test]
fn prisoner_map_addresses_both_players() {
    let mut m = PrisonerMap::new(1, 2);
    assert_eq!(*m.index(PrisonerId::Andrzej), 1);
    assert_eq!(*m.index(PrisonerId::Janusz), 2);
    m.set(PrisonerId::Janusz, 7);
    assert_eq!(*m.index(PrisonerId::Andrzej), 1);
    assert_eq!(*m.index(PrisonerId::Janusz), 7);
}

#[test]
fn env_runs_two_rounds_and_scores_them() {
    let mut env = PrisonerEnvState::new(example_table(), 2);
    assert_eq!(env.current_player(), Some(PrisonerId::Andrzej));
    assert!(env.forward(PrisonerId::Andrzej, PrisonerAction::Betray).unwrap().is_empty());
    assert_eq!(env.current_player(), Some(PrisonerId::Janusz));
    let updates = env.forward(PrisonerId::Janusz, PrisonerAction::Cover).unwrap();
    assert_eq!(updates.len(), 2);
    assert_eq!(
        updates[0],
        (
            PrisonerId::Andrzej,
            PrisonerUpdate {
                own_action: PrisonerAction::Betray,
                other_prisoner_action: PrisonerAction::Cover,
            }
        )
    );
    assert_eq!(
        updates[1],
        (
            PrisonerId::Janusz,
            PrisonerUpdate {
                own_action: PrisonerAction::Cover,
                other_prisoner_action: PrisonerAction::Betray,
            }
        )
    );
    assert_eq!(env.state_score_of_player(&PrisonerId::Andrzej), 10);
    assert_eq!(env.state_score_of_player(&PrisonerId::Janusz), 1);
    assert!(!env.is_finished());

    env.forward(PrisonerId::Andrzej, PrisonerAction::Cover).unwrap();
    env.forward(PrisonerId::Janusz, PrisonerAction::Cover).unwrap();
    assert!(env.is_finished());
    assert_eq!(env.current_player(), None);
    assert_eq!(env.state_score_of_player(&PrisonerId::Andrzej), 15);
    assert_eq!(env.state_score_of_player(&PrisonerId::Janusz), 6);
}

#[test]
fn env_rejects_double_and_late_actions() {
    let mut env = PrisonerEnvState::new(example_table(), 1);
    env.forward(PrisonerId::Janusz, PrisonerAction::Cover).unwrap();
    let r = env.forward(PrisonerId::Janusz, PrisonerAction::Betray);
    assert_eq!(r.unwrap_err(), PrisonerError::ActionOutOfOrder(PrisonerId::Janusz));
    env.forward(PrisonerId::Andrzej, PrisonerAction::Cover).unwrap();
    assert!(env.is_finished());
    let late = env.forward(PrisonerId::Andrzej, PrisonerAction::Cover);
    assert_eq!(late.unwrap_err(), PrisonerError::ActionAfterGameOver(PrisonerId::Andrzej));
}

#[test]
fn env_score_query_is_stable() {
    let mut env = PrisonerEnvState::new(example_table(), 1);
    env.forward(PrisonerId::Andrzej, PrisonerAction::Betray).unwrap();
    env.forward(PrisonerId::Janusz, PrisonerAction::Betray).unwrap();
    let first = env.state_score_of_player(&PrisonerId::Andrzej);
    let second = env.state_score_of_player(&PrisonerId::Andrzej);
    assert_eq!(first, second);
    assert_eq!(first, 3);
}

#[test]
fn prisoner_state_counts_and_scores_history() {
    let mut state = PrisonerState::new(example_table());
    assert_eq!(state.previous_actions().len(), 0);
    assert_eq!(state.current_subjective_score(), 0);
    state.update(round(PrisonerAction::Betray, PrisonerAction::Cover)).unwrap();
    state.update(round(PrisonerAction::Cover, PrisonerAction::Betray)).unwrap();
    state.update(round(PrisonerAction::Betray, PrisonerAction::Betray)).unwrap();
    assert_eq!(state.previous_actions().len(), 3);
    assert_eq!(state.count_actions(PrisonerAction::Betray), 2);
    assert_eq!(state.count_actions(PrisonerAction::Cover), 1);
    // 10 + 1 + 3
    assert_eq!(state.current_subjective_score(), 14);
    assert!(state.is_action_valid(&PrisonerAction::Betray));
    assert_eq!(state.available_actions(), [PrisonerAction::Betray, PrisonerAction::Cover]);
    assert_eq!(PrisonerState::penalty_for_illegal(), -100);
}

#[test]
fn cover_policy_always_covers() {
    let state = PrisonerState::new(example_table());
    assert_eq!(CoverPolicy {}.select_action(&state), Some(PrisonerAction::Cover));
}

#[test]
fn forgive_one_policy_turns_after_second_betrayal() {
    let mut state = PrisonerState::new(example_table());
    let policy = Forgive1Policy {};
    assert_eq!(policy.select_action(&state), Some(PrisonerAction::Cover));
    state.update(round(PrisonerAction::Cover, PrisonerAction::Betray)).unwrap();
    // one betrayal is forgiven
    assert_eq!(policy.select_action(&state), Some(PrisonerAction::Cover));
    state.update(round(PrisonerAction::Cover, PrisonerAction::Betray)).unwrap();
    assert_eq!(policy.select_action(&state), Some(PrisonerAction::Betray));
}

#[test]
fn betray_ratio_policy_follows_the_majority() {
    let mut state = PrisonerState::new(example_table());
    let policy = BetrayRatioPolicy {};
    assert_eq!(policy.select_action(&state), Some(PrisonerAction::Cover));
    state.update(round(PrisonerAction::Cover, PrisonerAction::Betray)).unwrap();
    assert_eq!(policy.select_action(&state), Some(PrisonerAction::Betray));
    state.update(round(PrisonerAction::Cover, PrisonerAction::Cover)).unwrap();
    // tie keeps covering
    assert_eq!(policy.select_action(&state), Some(PrisonerAction::Cover));
}

#[test]
fn random_policy_picks_a_legal_action() {
    let state = PrisonerState::new(example_table());
    let policy = RandomPrisonerPolicy {};
    for _ in 0..20 {
        let a = policy.select_action(&state).unwrap();
        assert!(a == PrisonerAction::Betray || a == PrisonerAction::Cover);
    }
}

#[test]
fn switch_policy_repeats_a_doubled_action() {
    let policy = SwitchOnTwoSubsequent {};
    let mut state = PrisonerState::new(example_table());
    // empty history covers
    assert_eq!(policy.select_action(&state), Some(PrisonerAction::Cover));
    state.update(round(PrisonerAction::Cover, PrisonerAction::Betray)).unwrap();
    // a single round covers
    assert_eq!(policy.select_action(&state), Some(PrisonerAction::Cover));
    state.update(round(PrisonerAction::Cover, PrisonerAction::Betray)).unwrap();
    // the other prisoner kept betraying on two subsequent rounds
    assert_eq!(policy.select_action(&state), Some(PrisonerAction::Betray));

    let mut alternating = PrisonerState::new(example_table());
    alternating.update(round(PrisonerAction::Cover, PrisonerAction::Betray)).unwrap();
    alternating.update(round(PrisonerAction::Cover, PrisonerAction::Cover)).unwrap();
    alternating.update(round(PrisonerAction::Cover, PrisonerAction::Betray)).unwrap();
    // no action was kept on two subsequent rounds
    assert_eq!(policy.select_action(&alternating), Some(PrisonerAction::Cover));
}

#[test]
fn prisoner_error_descriptions_name_the_kind() {
    assert_eq!(
        PrisonerError::ActionAfterGameOver(PrisonerId::Andrzej).describe(),
        "played after game over"
    );
    assert_eq!(
        PrisonerError::ActionOutOfOrder(PrisonerId::Janusz).describe(),
        "played out of order"
    );
}
