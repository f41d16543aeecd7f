use std::mem::size_of;
use pairing_games::classic::common::{
    AsymmetricRewardTable, AsymmetricRewardTableInt, Side, SymmetricRewardTable,
    SymmetricRewardTableInt,
};
use pairing_games::classic::domain::{ClassicAction, EncounterReport, PrisonerId};

#[test]
fn size_of_symmetric_table() {
    assert_eq!(size_of::<SymmetricRewardTableInt>(), 16);
}

#[test]
fn size_of_asymmetric_table() {
    assert_eq!(size_of::<AsymmetricRewardTableInt>(), 32);
}

#[test]
fn symmetric_table_lookups() {
    let t = SymmetricRewardTable::new(5, 1, 10, 3);
    assert_eq!(t.reward(ClassicAction::Cooperate, ClassicAction::Cooperate), 5);
    assert_eq!(t.reward(ClassicAction::Cooperate, ClassicAction::Defect), 1);
    assert_eq!(t.reward(ClassicAction::Defect, ClassicAction::Cooperate), 10);
    assert_eq!(t.reward(ClassicAction::Defect, ClassicAction::Defect), 3);
}

#[test]
fn asymmetric_table_lookups() {
    let left = SymmetricRewardTable::new(5, 1, 10, 3);
    let right = SymmetricRewardTable::new(50, 10, 100, 30);
    let t = AsymmetricRewardTable::new(left, right);
    assert_eq!(t.reward_for_side(Side::Left, ClassicAction::Defect, ClassicAction::Cooperate), 10);
    // the right side is judged by its own action first: it cooperated
    // against a defection
    assert_eq!(
        t.reward_for_side(Side::Right, ClassicAction::Defect, ClassicAction::Cooperate),
        10
    );
    assert_eq!(t.rewards(ClassicAction::Cooperate, ClassicAction::Defect), (1, 100));
}

#[test]
fn symmetric_into_asymmetric_uses_same_table_for_both_sides() {
    let sym = SymmetricRewardTable::new(5, 1, 10, 3);
    let t = AsymmetricRewardTable::from(sym);
    for left in [ClassicAction::Cooperate, ClassicAction::Defect] {
        for right in [ClassicAction::Cooperate, ClassicAction::Defect] {
            assert_eq!(t.reward_for_side(Side::Left, left, right), sym.reward(left, right));
            assert_eq!(t.reward_for_side(Side::Right, left, right), sym.reward(right, left));
        }
    }
}

#[test]
fn encounter_report_orients_actions_by_side() {
    let left_report = EncounterReport {
        own_action: ClassicAction::Cooperate,
        other_player_action: ClassicAction::Defect,
        side: Side::Left,
        other_id: PrisonerId::Janusz,
    };
    assert_eq!(left_report.left_action(), ClassicAction::Cooperate);
    assert_eq!(left_report.right_action(), ClassicAction::Defect);
    assert_eq!(left_report.side_action(Side::Left), ClassicAction::Cooperate);
    assert_eq!(left_report.side_action(Side::Right), ClassicAction::Defect);
    assert_eq!(left_report.own_side(), Side::Left);

    let right_report = EncounterReport {
        own_action: ClassicAction::Cooperate,
        other_player_action: ClassicAction::Defect,
        side: Side::Right,
        other_id: PrisonerId::Andrzej,
    };
    assert_eq!(right_report.left_action(), ClassicAction::Defect);
    assert_eq!(right_report.right_action(), ClassicAction::Cooperate);
    assert_eq!(right_report.own_side(), Side::Right);
}

#[test]
fn encounter_report_reward_is_own_sides_payoff() {
    let left = SymmetricRewardTable::new(5, 1, 10, 3);
    let right = SymmetricRewardTable::new(50, 10, 100, 30);
    let t = AsymmetricRewardTable::new(left, right);
    let report = EncounterReport {
        own_action: ClassicAction::Defect,
        other_player_action: ClassicAction::Cooperate,
        side: Side::Right,
        other_id: PrisonerId::Andrzej,
    };
    // Right-sided owner: it defected against the left player's
    // cooperation, judged by the right table.
    assert_eq!(report.calculate_reward(&t), 100);
}

#[test]
fn side_default_is_left() {
    assert_eq!(Side::default(), Side::Left);
}
