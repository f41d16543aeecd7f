use pairing_games::classic::agent::historyless::HistorylessInfoSet;
use pairing_games::classic::agent::own_history::{OwnHistoryInfoSet, OwnHistoryTensorRepr};
use pairing_games::classic::agent::{
    BetrayRatioPolicy, Forgive1Policy, PrisonerInfoSet, PrisonerInfoSetWay, RandomPrisonerPolicy,
    SwitchOnTwoSubsequent,
};
use pairing_games::classic::common::{AsymmetricRewardTable, Side, SymmetricRewardTable};
use pairing_games::classic::domain::{
    ClassicAction, ClassicGameError, ClassicGameUpdate, EncounterReport, PrisonerId,
};
use pairing_games::classic::env::PrisonerEnvState;
use pairing_games::classic::policy::ClassicPureStrategy;
use pairing_games::comm::CommPort;
use pairing_games::pairing::AgentNum;

fn sym_table() -> SymmetricRewardTable {
    SymmetricRewardTable::new(5, 1, 10, 3)
}

fn report(
    own: ClassicAction,
    other: ClassicAction,
    side: Side,
    other_id: PrisonerId,
) -> EncounterReport<PrisonerId> {
    EncounterReport { own_action: own, other_player_action: other, side, other_id }
}

#[test]
fn info_set_counts_and_scores_history() {
    let mut state = PrisonerInfoSet::new(sym_table());
    assert_eq!(state.previous_actions().len(), 0);
    assert_eq!(state.current_subjective_score(), 0);
    state
        .update(report(ClassicAction::Defect, ClassicAction::Cooperate, Side::Left, PrisonerId::Janusz))
        .unwrap();
    state
        .update(report(ClassicAction::Cooperate, ClassicAction::Defect, Side::Left, PrisonerId::Janusz))
        .unwrap();
    assert_eq!(state.count_actions(ClassicAction::Defect), 1);
    assert_eq!(state.count_actions(ClassicAction::Cooperate), 1);
    // 10 + 1
    assert_eq!(state.current_subjective_score(), 11);
    assert_eq!(
        state.available_actions(),
        [ClassicAction::Defect, ClassicAction::Cooperate]
    );
    assert!(state.is_action_valid(&ClassicAction::Defect));
    assert_eq!(PrisonerInfoSet::penalty_for_illegal(), -100);
}

#[test]
fn classic_forgive_one_policy_turns_after_second_defection() {
    let mut state = PrisonerInfoSet::new(sym_table());
    let policy = Forgive1Policy {};
    assert_eq!(policy.select_action(&state), Some(ClassicAction::Cooperate));
    state
        .update(report(ClassicAction::Cooperate, ClassicAction::Defect, Side::Left, PrisonerId::Janusz))
        .unwrap();
    assert_eq!(policy.select_action(&state), Some(ClassicAction::Cooperate));
    state
        .update(report(ClassicAction::Cooperate, ClassicAction::Defect, Side::Left, PrisonerId::Janusz))
        .unwrap();
    assert_eq!(policy.select_action(&state), Some(ClassicAction::Defect));
}

#[test]
fn classic_betray_ratio_policy_follows_the_majority() {
    let mut state = PrisonerInfoSet::new(sym_table());
    let policy = BetrayRatioPolicy {};
    state
        .update(report(ClassicAction::Cooperate, ClassicAction::Defect, Side::Left, PrisonerId::Janusz))
        .unwrap();
    assert_eq!(policy.select_action(&state), Some(ClassicAction::Defect));
    state
        .update(
            report(ClassicAction::Cooperate, ClassicAction::Cooperate, Side::Left, PrisonerId::Janusz),
        )
        .unwrap();
    assert_eq!(policy.select_action(&state), Some(ClassicAction::Cooperate));
}

#[test]
fn classic_random_policy_picks_a_legal_action() {
    let state = PrisonerInfoSet::new(sym_table());
    let policy = RandomPrisonerPolicy {};
    for _ in 0..20 {
        let a = policy.select_action(&state).unwrap();
        assert!(a == ClassicAction::Defect || a == ClassicAction::Cooperate);
    }
}

#[test]
fn classic_switch_policy_repeats_a_doubled_action() {
    let policy = SwitchOnTwoSubsequent {};
    let mut state = PrisonerInfoSet::new(sym_table());
    assert_eq!(policy.select_action(&state), Some(ClassicAction::Cooperate));
    state
        .update(report(ClassicAction::Cooperate, ClassicAction::Defect, Side::Left, PrisonerId::Janusz))
        .unwrap();
    state
        .update(report(ClassicAction::Cooperate, ClassicAction::Defect, Side::Left, PrisonerId::Janusz))
        .unwrap();
    assert_eq!(policy.select_action(&state), Some(ClassicAction::Defect));
}

#[test]
fn pure_strategy_ignores_the_information_set() {
    let state = PrisonerInfoSet::new(sym_table());
    let strategy = ClassicPureStrategy::new(ClassicAction::Defect);
    assert_eq!(strategy.select_action(&state), Some(ClassicAction::Defect));
    assert_eq!(strategy.action, ClassicAction::Defect);
}

#[test]
fn classic_env_resolves_a_round_with_reports() {
    let mut env = PrisonerEnvState::new(sym_table(), 1);
    assert_eq!(env.current_player(), Some(PrisonerId::Andrzej));
    env.forward(PrisonerId::Andrzej, ClassicAction::Defect).unwrap();
    let updates = env.forward(PrisonerId::Janusz, ClassicAction::Cooperate).unwrap();
    assert_eq!(updates.len(), 2);
    let (first_id, first_reports) = &updates[0];
    assert_eq!(*first_id, PrisonerId::Andrzej);
    assert_eq!(first_reports.len(), 2);
    assert_eq!(first_reports[0].own_action, ClassicAction::Defect);
    assert_eq!(first_reports[0].other_player_action, ClassicAction::Cooperate);
    assert_eq!(first_reports[0].side, Side::Left);
    assert_eq!(first_reports[0].other_id, PrisonerId::Janusz);
    assert_eq!(first_reports[1].own_action, ClassicAction::Cooperate);
    assert_eq!(first_reports[1].side, Side::Right);
    assert_eq!(env.state_score_of_player(&PrisonerId::Andrzej), 10);
    assert_eq!(env.state_score_of_player(&PrisonerId::Janusz), 1);
    assert!(env.is_finished());
    let late = env.forward(PrisonerId::Andrzej, ClassicAction::Defect);
    assert_eq!(
        late.unwrap_err(),
        ClassicGameError::ActionAfterGameOver(PrisonerId::Andrzej)
    );
}

#[test]
fn historyless_info_set_accumulates_payoff() {
    let table = AsymmetricRewardTable::from(sym_table());
    let mut info = HistorylessInfoSet::new(1, table);
    assert_eq!(*info.agent_id(), 1);
    assert_eq!(info.current_subjective_score(), 0);
    let update = ClassicGameUpdate::<AgentNum> {
        encounters: vec![
            EncounterReport {
                own_action: ClassicAction::Cooperate,
                other_player_action: ClassicAction::Defect,
                side: Side::Left,
                other_id: 1,
            },
            EncounterReport {
                own_action: ClassicAction::Defect,
                other_player_action: ClassicAction::Cooperate,
                side: Side::Right,
                other_id: 0,
            },
        ],
        pairing: None,
    };
    info.update(update).unwrap();
    // agent 1's report: left action Cooperate, right action Defect, own
    // side Right: defect against cooperate pays 10
    assert_eq!(info.current_subjective_score(), 10);
    assert_eq!(info.penalty_for_illegal(), -10);
}

#[test]
fn historyless_info_set_reports_a_missing_encounter() {
    let table = AsymmetricRewardTable::from(sym_table());
    let mut info = HistorylessInfoSet::new(5, table);
    let update = ClassicGameUpdate::<AgentNum> { encounters: vec![], pairing: None };
    let r = info.update(update);
    assert_eq!(r.unwrap_err(), ClassicGameError::EncounterNotReported(5));
    assert_eq!(info.current_subjective_score(), 0);
}

#[test]
fn own_history_info_set_scores_its_side() {
    let table = AsymmetricRewardTable::from(sym_table());
    let mut info = OwnHistoryInfoSet::<AgentNum>::new(0, table);
    assert_eq!(*info.agent_id(), 0);
    let update = ClassicGameUpdate::<AgentNum> {
        encounters: vec![
            EncounterReport {
                own_action: ClassicAction::Defect,
                other_player_action: ClassicAction::Defect,
                side: Side::Left,
                other_id: 1,
            },
            EncounterReport {
                own_action: ClassicAction::Defect,
                other_player_action: ClassicAction::Defect,
                side: Side::Right,
                other_id: 0,
            },
        ],
        pairing: None,
    };
    info.update(update).unwrap();
    assert_eq!(info.current_subjective_score(), 3);
    assert_eq!(info.penalty_for_illegal(), -100);
    info.reset();
    assert_eq!(info.current_subjective_score(), 0);
}

#[test]
fn own_history_tensor_repr_shape_is_two_by_rounds() {
    let repr = OwnHistoryTensorRepr::new(100);
    assert_eq!(repr.shape(), &[2i64, 100i64]);
    assert_eq!(repr.desired_shape(), &[2i64, 100i64]);
}

#[test]
fn prisoner_info_set_way_shape_is_fixed() {
    let shape = PrisonerInfoSetWay::desired_shape();
    assert_eq!(shape, [512i64]);
}

#[test]
fn comm_port_rejects_duplicate_registration() {
    let mut port = CommPort::new(4);
    assert!(!port.is_registered(&2u32));
    port.register_agent(2u32).unwrap();
    assert!(port.is_registered(&2u32));
    let r = port.register_agent(2u32);
    assert_eq!(r.unwrap_err(), ClassicGameError::DuplicateAgentRegistration(2u32));
    port.register_agent(0u32).unwrap();
    port.register_agent(1u32).unwrap();
    port.register_agent(3u32).unwrap();
}
