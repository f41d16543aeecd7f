//! The pairing scheduler: each round it partitions `N` agents into
//! disjoint pairs from a shuffled permutation, accepts one action per
//! agent in strict index order, resolves every completed pair against a
//! reward table into per-agent scores and encounter reports, and
//! reshuffles the pairing between rounds.

use vstd::prelude::*;
use vstd::seq_lib::group_to_multiset_ensures;
use vstd::arithmetic::mul::lemma_mul_inequality;
use rand::seq::SliceRandom;
use crate::classic::common::{AsymmetricRewardTableInt, Side, SymmetricRewardTable};
use crate::classic::domain::{
    AsUsize, ClassicAction, ClassicGameError, ClassicGameUpdate, EncounterReport, IntReward,
    UsizeAgentId,
};

verus! {

/// Dense numeric agent identifier used by the population scheduler.
pub type AgentNum = u32;

impl AsUsize for AgentNum {
    open spec fn index_spec(&self) -> int {
        *self as int
    }

    open spec fn valid_index(u: int) -> bool {
        0 <= u <= u32::MAX
    }

    fn as_usize(&self) -> (r: usize) {
        *self as usize
    }

    fn make_from_usize(u: usize) -> (r: Self) {
        u as AgentNum
    }
}

/// Marker type for the population pairing game.
#[derive(Debug, Clone)]
pub struct PairDomain;

/// Per-agent, per-round pairing record: the opponent, the action this
/// agent has taken this round (if it acted already) and its side.
#[derive(Copy, Clone, Debug)]
pub struct PlayerPairing<ID: UsizeAgentId> {
    pub paired_player: ID,
    pub taken_action: Option<ClassicAction>,
    pub side: Side,
}

/// One pairing record per agent, addressed by agent index.
pub type PairingVec<ID> = Vec<PlayerPairing<ID>>;

/// `s` holds each of the indices `0 .. n` exactly once.
pub open spec fn is_index_permutation(s: Seq<usize>, n: int) -> bool {
    &&& s.len() == n
    &&& forall|i: int| #![trigger s[i]] 0 <= i < s.len() ==> s[i] < n
    &&& s.no_duplicates()
    &&& forall|v: usize| #![trigger s.contains(v)] v < n ==> s.contains(v)
}

/// The pairing entry of the agent standing at position `p` of the
/// permutation `perm`, as the allocator builds it: agents on consecutive
/// positions `2k` and `2k + 1` are paired, the even-positioned one plays
/// `Left`, the odd-positioned one plays `Right`, and nobody acted yet.
pub open spec fn built_from_position<ID: UsizeAgentId>(
    s: Seq<PlayerPairing<ID>>,
    perm: Seq<usize>,
    p: int,
) -> bool {
    let a = perm[p] as int;
    &&& s[a].taken_action is None
    &&& (p % 2 == 0 ==> s[a].paired_player.index_spec() == perm[p + 1] as int && s[a].side
        == Side::Left)
    &&& (p % 2 == 1 ==> s[a].paired_player.index_spec() == perm[p - 1] as int && s[a].side
        == Side::Right)
}

/// The whole pairing vector is what the allocator builds from `perm`.
pub open spec fn pairings_follow_permutation<ID: UsizeAgentId>(
    s: Seq<PlayerPairing<ID>>,
    perm: Seq<usize>,
) -> bool {
    &&& s.len() == perm.len()
    &&& forall|p: int| #![trigger built_from_position(s, perm, p)]
        0 <= p < perm.len() ==> built_from_position(s, perm, p)
}

/// Agent `i`'s pairing entry names a partner inside the vector, the
/// partner is not `i` itself, the partner's entry names `i` back, and the
/// two entries carry opposite sides.
pub open spec fn pairing_partner_ok<ID: UsizeAgentId>(s: Seq<PlayerPairing<ID>>, i: int) -> bool {
    let j = s[i].paired_player.index_spec();
    &&& 0 <= j < s.len()
    &&& j != i
    &&& s[j].paired_player.index_spec() == i
    &&& (s[i].side == Side::Left <==> s[j].side == Side::Right)
}

/// The pairing is a perfect matching: a fixed-point-free involution on
/// agent indices with opposite sides inside each pair.
pub open spec fn is_matched_pairing<ID: UsizeAgentId>(s: Seq<PlayerPairing<ID>>) -> bool {
    forall|i: int| #![trigger pairing_partner_ok(s, i)]
        0 <= i < s.len() ==> pairing_partner_ok(s, i)
}

/// In a matched pairing, following `paired_player` twice leads back to
/// the agent one started from, and never from an agent to itself.
pub proof fn lemma_matched_pairing_involution<ID: UsizeAgentId>(s: Seq<PlayerPairing<ID>>, i: int)
    requires
        is_matched_pairing(s),
        0 <= i < s.len(),
    ensures
        0 <= s[i].paired_player.index_spec() < s.len(),
        s[i].paired_player.index_spec() != i,
        s[s[i].paired_player.index_spec()].paired_player.index_spec() == i,
{
    assert(pairing_partner_ok(s, i));
}

/// A multiset-preserving rearrangement of a permutation of `0 .. n` is
/// again a permutation of `0 .. n`.
proof fn lemma_index_permutation_preserved(s1: Seq<usize>, s2: Seq<usize>, n: int)
    requires
        is_index_permutation(s1, n),
        s2.to_multiset() == s1.to_multiset(),
    ensures
        is_index_permutation(s2, n),
{
    broadcast use group_to_multiset_ensures;

    s1.to_multiset_ensures();
    s2.to_multiset_ensures();
    assert(s2.len() == s2.to_multiset().len());
    assert(s1.len() == s1.to_multiset().len());
    assert(s2.len() == n);
    assert forall|i: int| 0 <= i < s2.len() implies s2[i] < n by {
        assert(s2.contains(s2[i]));
        assert(s2.to_multiset().count(s2[i]) > 0);
        assert(s1.contains(s2[i]));
        let j = choose|j: int| 0 <= j < s1.len() && s1[j] == s2[i];
        assert(s1[j] < n);
    }
    s1.lemma_multiset_has_no_duplicates();
    s2.lemma_multiset_has_no_duplicates_conv();
    assert forall|v: usize| v < n implies s2.contains(v) by {
        assert(s1.contains(v));
        assert(s1.to_multiset().count(v) > 0);
    }
}

/// Positions pair up even-odd, so in a pairing built from an even-length
/// permutation every agent's entry satisfies the matching shape.
proof fn lemma_built_pairings_matched<ID: UsizeAgentId>(s: Seq<PlayerPairing<ID>>, perm: Seq<usize>)
    requires
        is_index_permutation(perm, perm.len() as int),
        perm.len() <= usize::MAX,
        perm.len() % 2 == 0,
        pairings_follow_permutation(s, perm),
    ensures
        is_matched_pairing(s),
        forall|i: int| #![trigger s[i]] 0 <= i < s.len() ==> s[i].taken_action is None,
{
    let n = perm.len() as int;
    assert(s.len() == perm.len());
    assert forall|a: int|
        #![trigger s[a]]
        #![trigger pairing_partner_ok(s, a)]
        0 <= a < s.len() implies pairing_partner_ok(s, a) && s[a].taken_action is None by {
        assert((a as usize) < n);
        assert(perm.contains(a as usize));
        let p = choose|p: int| 0 <= p < perm.len() && perm[p] == a as usize;
        assert(0 <= p < perm.len() && perm[p] == a as usize);
        assert(perm[p] as int == a);
        assert(built_from_position(s, perm, p));
        if p % 2 == 0 {
            assert(p + 1 < n) by {
                assert(p != n - 1) by {
                    assert((n - 1) % 2 == 1);
                }
            }
            let b = perm[p + 1] as int;
            assert(built_from_position(s, perm, p + 1));
            assert(b != a) by {
                assert(perm[p] != perm[p + 1]);
            }
        } else {
            let b = perm[p - 1] as int;
            assert(built_from_position(s, perm, p - 1));
            assert(b != a) by {
                assert(perm[p - 1] != perm[p]);
            }
        }
    }
}

/// Relies on rand's `SliceRandom::shuffle`: a Fisher-Yates shuffle that
/// permutes the slice in place by swapping elements, so the new contents
/// are a rearrangement of the old ones.
#[verifier::external_body]
fn shuffle_indexes(v: &mut Vec<usize>)
    ensures
        final(v)@.len() == old(v)@.len(),
        final(v)@.to_multiset() == old(v)@.to_multiset(),
{
    v.shuffle(&mut rand::thread_rng());
}

/// The magnitude of a payoff, as a mathematical integer.
pub open spec fn abs_reward(x: IntReward) -> int {
    if x >= 0 {
        x as int
    } else {
        -(x as int)
    }
}

/// The largest payoff magnitude a symmetric table can grant.
pub open spec fn sym_reward_bound(t: SymmetricRewardTable) -> int {
    let a = abs_reward(t.coop_when_coop);
    let b = abs_reward(t.coop_when_defect);
    let c = abs_reward(t.defect_when_coop);
    let d = abs_reward(t.defect_when_defect);
    let ab = if a >= b {
        a
    } else {
        b
    };
    let cd = if c >= d {
        c
    } else {
        d
    };
    if ab >= cd {
        ab
    } else {
        cd
    }
}

/// The largest payoff magnitude an asymmetric table can grant; every
/// reward the scheduler assigns lies within it.
pub open spec fn reward_bound(t: AsymmetricRewardTableInt) -> int {
    if sym_reward_bound(t.left_table) >= sym_reward_bound(t.right_table) {
        sym_reward_bound(t.left_table)
    } else {
        sym_reward_bound(t.right_table)
    }
}

/// Every payoff the table grants is bounded by `reward_bound`.
pub proof fn lemma_reward_within_bound(
    t: AsymmetricRewardTableInt,
    side: Side,
    left_action: ClassicAction,
    right_action: ClassicAction,
)
    ensures
        -reward_bound(t) <= t.reward_for_side_spec(side, left_action, right_action)
            <= reward_bound(t),
{
}

/// The encounter report delivered to agent `i` out of a fully resolved
/// pairing: its own action, its partner's action, its side, its partner.
pub open spec fn report_for<ID: UsizeAgentId>(
    s: Seq<PlayerPairing<ID>>,
    i: int,
) -> EncounterReport<ID> {
    EncounterReport {
        own_action: s[i].taken_action->0,
        other_player_action: s[s[i].paired_player.index_spec()].taken_action->0,
        side: s[i].side,
        other_id: s[i].paired_player,
    }
}

/// Reading a player's score is stable: without an intervening accepted
/// `forward`, the scheduler's state does not change, so two reads of
/// `state_score_of_player` on the same state return the same value.
pub proof fn lemma_score_query_stable<ID: UsizeAgentId>(
    s: &PairingState<ID>,
    agent: &ID,
    first: IntReward,
    second: IntReward,
)
    requires
        s.wf(),
        0 <= agent.index_spec() < s.n_spec(),
        first == s.scores_spec()[agent.index_spec()],
        second == s.scores_spec()[agent.index_spec()],
    ensures
        first == second,
{
}

/// One resolved pair is granted each side's payoff exactly once,
/// whichever member's action completed it: the payoff of the acting
/// agent's side plus the payoff of its partner's side equals the left
/// side's payoff plus the right side's payoff for the same two actions.
/// Together with `forward`'s contract - which adds exactly these two
/// payoffs to the pair's two scores and leaves every other score
/// unchanged - the score cache neither double-counts nor drops a pair's
/// resolution.
pub proof fn lemma_pair_rewards_sum<ID: UsizeAgentId>(
    s: Seq<PlayerPairing<ID>>,
    table: AsymmetricRewardTableInt,
    c: int,
    left_action: ClassicAction,
    right_action: ClassicAction,
)
    requires
        is_matched_pairing(s),
        0 <= c < s.len(),
    ensures
        ({
            let j = s[c].paired_player.index_spec();
            table.reward_for_side_spec(s[c].side, left_action, right_action)
                + table.reward_for_side_spec(s[j].side, left_action, right_action)
                == table.reward_for_side_spec(Side::Left, left_action, right_action)
                + table.reward_for_side_spec(Side::Right, left_action, right_action)
        }),
{
    assert(pairing_partner_ok(s, c));
}

/// A matching is insensitive to the actions recorded in it: if only
/// `taken_action` fields differ, the matching shape carries over.
proof fn lemma_matching_ignores_actions<ID: UsizeAgentId>(
    s0: Seq<PlayerPairing<ID>>,
    s1: Seq<PlayerPairing<ID>>,
)
    requires
        s1.len() == s0.len(),
        forall|i: int|
            #![trigger s1[i]]
            0 <= i < s0.len() ==> s1[i].paired_player == s0[i].paired_player && s1[i].side
                == s0[i].side,
        is_matched_pairing(s0),
    ensures
        is_matched_pairing(s1),
{
    assert forall|i: int| 0 <= i < s1.len() implies #[trigger] pairing_partner_ok(s1, i) by {
        assert(pairing_partner_ok(s0, i));
        let j = s0[i].paired_player.index_spec();
        assert(s1[j].paired_player == s0[j].paired_player);
    }
}

/// An element-wise copy of a vector of copyable elements.
fn copy_vec<T: Copy>(v: &Vec<T>) -> (r: Vec<T>)
    ensures
        r@ == v@,
{
    let mut r: Vec<T> = Vec::new();
    let mut i: usize = 0;
    while i < v.len()
        invariant
            i <= v@.len(),
            r@.len() == i,
            forall|k: int| #![trigger r@[k]] 0 <= k < i ==> r@[k] == v@[k],
        decreases v@.len() - i,
    {
        r.push(v[i]);
        assert(r@[i as int] == v@[i as int]);
        i += 1;
    }
    proof {
        assert(r@ =~= v@);
    }
    r
}

/// Whether agent `i`'s pair is fully resolved this round: both the agent
/// and its partner have acted.
pub open spec fn resolved_flag<ID: UsizeAgentId>(s: Seq<PlayerPairing<ID>>, i: int) -> int {
    if s[i].taken_action is Some && s[s[i].paired_player.index_spec()].taken_action is Some {
        1
    } else {
        0
    }
}

/// The pairing scheduler's state: the current round's pairing records and
/// turn cursor, the archived pairings of completed rounds, the reward
/// table, the per-agent score cache, and the index buffer reshuffled
/// before every round.
#[derive(Debug, Clone)]
pub struct PairingState<ID: UsizeAgentId> {
    actual_pairings: PairingVec<ID>,
    previous_pairings: Vec<PairingVec<ID>>,
    target_rounds: usize,
    indexes: Vec<usize>,
    reward_table: AsymmetricRewardTableInt,
    score_cache: Vec<IntReward>,
    current_player_index: usize,
}

/// The scheduler instantiated with dense numeric agent identifiers.
pub type PairingStateNumbered = PairingState<AgentNum>;

impl<ID: UsizeAgentId> PairingState<ID> {
    /// The current round's pairing records, one per agent index.
    pub closed spec fn pairings_spec(&self) -> Seq<PlayerPairing<ID>> {
        self.actual_pairings@
    }

    /// The number of players.
    pub open spec fn n_spec(&self) -> int {
        self.pairings_spec().len() as int
    }

    /// How many full rounds have completed.
    pub closed spec fn rounds_completed(&self) -> int {
        self.previous_pairings@.len() as int
    }

    /// The configured number of rounds.
    pub closed spec fn target_rounds_spec(&self) -> int {
        self.target_rounds as int
    }

    /// The reward table the scheduler resolves pairs against.
    pub closed spec fn table_spec(&self) -> AsymmetricRewardTableInt {
        self.reward_table
    }

    /// The per-agent cumulative scores.
    pub closed spec fn scores_spec(&self) -> Seq<IntReward> {
        self.score_cache@
    }

    /// The turn cursor: the index of the agent expected to act next.
    pub closed spec fn cursor_spec(&self) -> int {
        self.current_player_index as int
    }

    /// Whether the configured number of rounds has completed.
    pub open spec fn is_finished_spec(&self) -> bool {
        self.rounds_completed() >= self.target_rounds_spec()
    }

    /// The internal index buffer is a permutation of the agent indices.
    pub closed spec fn indexes_ok(&self) -> bool {
        is_index_permutation(self.indexes@, self.n_spec())
    }

    /// Every score lies within the number of rewards granted to its agent
    /// so far times the table's largest payoff magnitude.
    pub open spec fn scores_bounded(&self) -> bool {
        forall|i: int|
            #![trigger self.scores_spec()[i]]
            0 <= i < self.n_spec() ==> {
                let granted = self.rounds_completed() + resolved_flag(self.pairings_spec(), i);
                -(granted * reward_bound(self.table_spec())) <= self.scores_spec()[i] <= granted
                    * reward_bound(self.table_spec())
            }
    }

    /// The scheduler's invariant: an even number of players, a perfect
    /// matching as the current pairing, exactly the agents below the turn
    /// cursor have acted, no more rounds completed than configured, and a
    /// score cache whose entries cannot overflow.
    pub open spec fn wf(&self) -> bool {
        &&& self.n_spec() % 2 == 0
        &&& self.n_spec() <= u32::MAX
        &&& self.indexes_ok()
        &&& self.scores_spec().len() == self.n_spec()
        &&& 0 <= self.cursor_spec() <= self.n_spec()
        &&& is_matched_pairing(self.pairings_spec())
        &&& forall|i: int|
            #![trigger self.pairings_spec()[i]]
            0 <= i < self.n_spec() ==> (self.pairings_spec()[i].taken_action is Some <==> i
                < self.cursor_spec())
        &&& 0 <= self.rounds_completed() <= self.target_rounds_spec()
        &&& (self.rounds_completed() < self.target_rounds_spec() && self.n_spec() > 0
            ==> self.cursor_spec() < self.n_spec())
        &&& forall|u: int| 0 <= u < self.n_spec() ==> #[trigger] ID::valid_index(u)
        &&& self.target_rounds_spec() * reward_bound(self.table_spec()) <= i32::MAX
        &&& self.scores_bounded()
    }

    /// Builds the round's pairing records from a permutation of the agent
    /// indices: the agents on positions `2k` and `2k + 1` are paired with
    /// each other, the even-positioned one as `Left`, the odd-positioned
    /// one as `Right`.  Fails when the number of agents is odd.
    pub fn create_pairings(indexes: &Vec<usize>) -> (r: Result<
        PairingVec<ID>,
        ClassicGameError<ID>,
    >)
        requires
            is_index_permutation(indexes@, indexes@.len() as int),
            indexes@.len() <= u32::MAX,
            forall|u: int| 0 <= u < indexes@.len() ==> #[trigger] ID::valid_index(u),
        ensures
            r is Ok <==> indexes@.len() % 2 == 0,
            r matches Ok(v) ==> {
                &&& v@.len() == indexes@.len()
                &&& pairings_follow_permutation(v@, indexes@)
                &&& is_matched_pairing(v@)
                &&& forall|i: int| #![trigger v@[i]] 0 <= i < v@.len() ==> v@[i].taken_action
                    is None
            },
            r matches Err(e) ==> e == ClassicGameError::<ID>::ExpectedEvenNumberOfPlayers(
                indexes@.len() as u32,
            ),
    {
        let n = indexes.len();
        if n % 2 != 0 {
            return Err(ClassicGameError::ExpectedEvenNumberOfPlayers(n as u32));
        }
        let mut v: Vec<PlayerPairing<ID>> = Vec::new();
        if n == 0 {
            return Ok(v);
        }
        let placeholder = PlayerPairing {
            paired_player: ID::make_from_usize(0),
            taken_action: None,
            side: Side::Left,
        };
        let mut i: usize = 0;
        while i < n
            invariant
                i <= n,
                v@.len() == i,
                placeholder.taken_action is None,
                forall|q: int| #![trigger v@[q]] 0 <= q < i ==> v@[q].taken_action is None,
            decreases n - i,
        {
            v.push(placeholder);
            assert(v@[i as int] == placeholder);
            i += 1;
        }
        let mut k: usize = 0;
        while k < n / 2
            invariant
                n == indexes@.len(),
                n % 2 == 0,
                k <= n / 2,
                v@.len() == n,
                is_index_permutation(indexes@, n as int),
                forall|u: int| 0 <= u < n ==> #[trigger] ID::valid_index(u),
                forall|p: int|
                    #![trigger built_from_position(v@, indexes@, p)]
                    0 <= p < 2 * k ==> built_from_position(v@, indexes@, p),
                forall|q: int| #![trigger v@[q]] 0 <= q < n ==> v@[q].taken_action is None,
            decreases n / 2 - k,
        {
            assert(2 * k < n && 2 * k + 1 < n);
            let a = indexes[2 * k];
            let b = indexes[2 * k + 1];
            assert(a != b) by {
                assert(indexes@.no_duplicates());
            }
            let ghost prev = v@;
            v.set(
                a,
                PlayerPairing {
                    paired_player: ID::make_from_usize(b),
                    taken_action: None,
                    side: Side::Left,
                },
            );
            v.set(
                b,
                PlayerPairing {
                    paired_player: ID::make_from_usize(a),
                    taken_action: None,
                    side: Side::Right,
                },
            );
            proof {
                assert forall|p: int| 0 <= p < 2 * (k + 1) implies #[trigger] built_from_position(
                    v@,
                    indexes@,
                    p,
                ) by {
                    if p < 2 * k {
                        assert(built_from_position(prev, indexes@, p));
                        assert(indexes@[p] != a as int && indexes@[p] != b as int) by {
                            assert(indexes@.no_duplicates());
                            assert(indexes@[2 * k] == a && indexes@[2 * k + 1] == b);
                        }
                        assert(v@[indexes@[p] as int] == prev[indexes@[p] as int]);
                    } else if p == 2 * k {
                        assert(v@[a as int].paired_player.index_spec() == b as int);
                    } else {
                        assert(p == 2 * k + 1);
                        assert(v@[b as int].paired_player.index_spec() == a as int);
                    }
                }
            }
            k += 1;
        }
        proof {
            assert(2 * (n / 2) == n);
            assert(pairings_follow_permutation(v@, indexes@));
            lemma_built_pairings_matched(v@, indexes@);
        }
        Ok(v)
    }

    /// Creates a scheduler for an even number of players: draws a random
    /// permutation of the agent indices, pairs them up, and starts with a
    /// clean score cache and the turn cursor on agent `0`.  Fails with
    /// the even-count condition when `players` is odd.
    pub fn new_even(
        players: usize,
        target_rounds: usize,
        reward_table: AsymmetricRewardTableInt,
    ) -> (r: Result<Self, ClassicGameError<ID>>)
        requires
            players <= u32::MAX,
            target_rounds * reward_bound(reward_table) <= i32::MAX,
            forall|u: int| 0 <= u < players ==> #[trigger] ID::valid_index(u),
        ensures
            r is Ok <==> players % 2 == 0,
            r matches Ok(s) ==> {
                &&& s.wf()
                &&& s.n_spec() == players
                &&& s.target_rounds_spec() == target_rounds
                &&& s.rounds_completed() == 0
                &&& s.cursor_spec() == 0
                &&& s.table_spec() == reward_table
                &&& forall|i: int|
                    #![trigger s.scores_spec()[i]]
                    0 <= i < players ==> s.scores_spec()[i] == 0
                &&& forall|i: int|
                    #![trigger s.pairings_spec()[i]]
                    0 <= i < players ==> s.pairings_spec()[i].taken_action is None
            },
            r matches Err(e) ==> e == ClassicGameError::<ID>::ExpectedEvenNumberOfPlayers(
                players as u32,
            ),
    {
        let mut indexes: Vec<usize> = Vec::new();
        let mut i: usize = 0;
        while i < players
            invariant
                i <= players,
                indexes@.len() == i,
                forall|j: int| #![trigger indexes@[j]] 0 <= j < i ==> indexes@[j] == j,
            decreases players - i,
        {
            indexes.push(i);
            assert(indexes@[i as int] == i);
            i += 1;
        }
        proof {
            assert forall|v: usize| v < players implies indexes@.contains(v) by {
                assert(indexes@[v as int] == v);
            }
            assert(indexes@.no_duplicates()) by {
                assert forall|p: int, q: int|
                    0 <= p < indexes@.len() && 0 <= q < indexes@.len() && p != q implies indexes@[p]
                    != indexes@[q] by {
                    assert(indexes@[p] == p && indexes@[q] == q);
                }
            }
            assert(is_index_permutation(indexes@, players as int));
        }
        let ghost before_shuffle = indexes@;
        shuffle_indexes(&mut indexes);
        proof {
            lemma_index_permutation_preserved(before_shuffle, indexes@, players as int);
        }
        let actual_pairings = match Self::create_pairings(&indexes) {
            Ok(v) => v,
            Err(e) => {
                return Err(e);
            },
        };
        let mut score_cache: Vec<IntReward> = Vec::new();
        let mut j: usize = 0;
        while j < players
            invariant
                j <= players,
                score_cache@.len() == j,
                forall|q: int| #![trigger score_cache@[q]] 0 <= q < j ==> score_cache@[q] == 0i32,
            decreases players - j,
        {
            score_cache.push(0);
            assert(score_cache@[j as int] == 0i32);
            j += 1;
        }
        let state = Self {
            actual_pairings,
            indexes,
            target_rounds,
            previous_pairings: Vec::new(),
            reward_table,
            score_cache,
            current_player_index: 0,
        };
        proof {
            assert(state.rounds_completed() == 0);
            assert(state.scores_bounded()) by {
                assert forall|q: int| 0 <= q < state.n_spec() implies {
                    let granted = state.rounds_completed() + resolved_flag(
                        state.pairings_spec(),
                        q,
                    );
                    -(granted * reward_bound(state.table_spec())) <= #[trigger] state.scores_spec()[q]
                        <= granted * reward_bound(state.table_spec())
                } by {
                    assert(resolved_flag(state.pairings_spec(), q) == 0);
                    assert(state.scores_spec()[q] == 0i32);
                }
            }
            assert(state.wf());
        }
        Ok(state)
    }

    /// The agent expected to act next: `Some` while the turn cursor has
    /// not exhausted all agents of the round, `None` between rounds.
    pub fn current_player(&self) -> (r: Option<ID>)
        requires
            self.wf(),
        ensures
            r is Some <==> self.cursor_spec() < self.n_spec(),
            r matches Some(id) ==> id.index_spec() == self.cursor_spec(),
    {
        if self.current_player_index < self.actual_pairings.len() {
            Some(ID::make_from_usize(self.current_player_index))
        } else {
            None
        }
    }

    /// Whether the configured number of full rounds has completed.  Once
    /// true it stays true: `forward` rejects every further action.
    pub fn is_finished(&self) -> (r: bool)
        ensures
            r == self.is_finished_spec(),
    {
        self.previous_pairings.len() >= self.target_rounds
    }

    /// Whether no agent has acted yet in the current round.
    pub fn is_round_clean(&self) -> (r: bool)
        ensures
            r == (self.cursor_spec() == 0),
    {
        self.current_player_index == 0
    }

    /// The cumulative score the scheduler has assigned to `agent`.  Pure
    /// query: between two calls without an accepted `forward` the state,
    /// and so the answer, cannot change.
    pub fn state_score_of_player(&self, agent: &ID) -> (r: IntReward)
        requires
            self.wf(),
            0 <= agent.index_spec() < self.n_spec(),
        ensures
            r == self.scores_spec()[agent.index_spec()],
    {
        self.score_cache[agent.as_usize()]
    }

    /// Reshuffles the index buffer and builds the next round's pairing
    /// from the new permutation.
    fn shuffled_pairings(indexes: &mut Vec<usize>) -> (r: PairingVec<ID>)
        requires
            is_index_permutation(old(indexes)@, old(indexes)@.len() as int),
            old(indexes)@.len() % 2 == 0,
            old(indexes)@.len() <= u32::MAX,
            forall|u: int| 0 <= u < old(indexes)@.len() ==> #[trigger] ID::valid_index(u),
        ensures
            is_index_permutation(final(indexes)@, old(indexes)@.len() as int),
            r@.len() == old(indexes)@.len(),
            is_matched_pairing(r@),
            forall|i: int| #![trigger r@[i]] 0 <= i < r@.len() ==> r@[i].taken_action is None,
    {
        let ghost pre = indexes@;
        shuffle_indexes(indexes);
        proof {
            lemma_index_permutation_preserved(pre, indexes@, pre.len() as int);
        }
        match Self::create_pairings(indexes) {
            Ok(v) => v,
            Err(_) => {
                proof {
                    assert(false);
                }
                Vec::new()
            },
        }
    }

    /// Accepts one action from the agent whose turn it is.  The accepted
    /// agent must be the `current_player`; any other agent fails with the
    /// order-violation condition, and any action after the configured
    /// number of rounds has completed fails with the after-game-over
    /// condition, both leaving the state unchanged.  On acceptance the
    /// action is recorded; if it completes its pair, both members'
    /// payoffs are added to the score cache at once.  The last action of
    /// a round archives the pairing, hands every agent the round's
    /// encounter reports (with the next round's pairing, if one starts),
    /// and reshuffles; earlier actions return an empty update batch.
    #[verifier::loop_isolation(false)]
    #[verifier::rlimit(60)]
    pub fn forward(&mut self, agent: ID, action: ClassicAction) -> (r: Result<
        Vec<(ID, ClassicGameUpdate<ID>)>,
        ClassicGameError<ID>,
    >)
        requires
            old(self).wf(),
        ensures
            final(self).wf(),
            final(self).n_spec() == old(self).n_spec(),
            final(self).target_rounds_spec() == old(self).target_rounds_spec(),
            final(self).table_spec() == old(self).table_spec(),
            r is Ok <==> (!old(self).is_finished_spec() && old(self).n_spec() > 0
                && agent.index_spec() == old(self).cursor_spec()),
            (old(self).is_finished_spec() || old(self).n_spec() == 0) ==> r == Err::<
                Vec<(ID, ClassicGameUpdate<ID>)>,
                ClassicGameError<ID>,
            >(ClassicGameError::ActionAfterGameOver(agent)) && *final(self) == *old(self),
            (!old(self).is_finished_spec() && old(self).n_spec() > 0 && agent.index_spec()
                != old(self).cursor_spec()) ==> r == Err::<
                Vec<(ID, ClassicGameUpdate<ID>)>,
                ClassicGameError<ID>,
            >(ClassicGameError::ActionOutOfOrder(agent)) && *final(self) == *old(self),
            (!old(self).is_finished_spec() && old(self).n_spec() > 0 && agent.index_spec()
                == old(self).cursor_spec()) ==> ({
                let n = old(self).n_spec();
                let c = old(self).cursor_spec();
                let s0 = old(self).pairings_spec();
                let j = s0[c].paired_player.index_spec();
                let acted = s0.update(
                    c,
                    (PlayerPairing {
                        paired_player: s0[c].paired_player,
                        taken_action: Some(action),
                        side: s0[c].side,
                    }),
                );
                &&& (s0[j].taken_action matches Some(other_action) ==> ({
                    let left_action = if s0[c].side == Side::Left {
                        action
                    } else {
                        other_action
                    };
                    let right_action = if s0[c].side == Side::Left {
                        other_action
                    } else {
                        action
                    };
                    &&& final(self).scores_spec()[c] == old(self).scores_spec()[c] + old(self).table_spec().reward_for_side_spec(s0[c].side, left_action, right_action)
                    &&& final(self).scores_spec()[j] == old(self).scores_spec()[j] + old(self).table_spec().reward_for_side_spec(s0[j].side, left_action, right_action)
                    &&& forall|k: int|
                        #![trigger final(self).scores_spec()[k]]
                        0 <= k < n && k != c && k != j ==> final(self).scores_spec()[k] == old(self).scores_spec()[k]
                }))
                &&& (s0[j].taken_action is None ==> final(self).scores_spec() == old(self).scores_spec())
                &&& (c + 1 < n ==> {
                    &&& final(self).pairings_spec() == acted
                    &&& final(self).cursor_spec() == c + 1
                    &&& final(self).rounds_completed() == old(self).rounds_completed()
                    &&& r matches Ok(u) && u@.len() == 0
                })
                &&& (c + 1 == n ==> {
                    &&& final(self).rounds_completed() == old(self).rounds_completed() + 1
                    &&& (!final(self).is_finished_spec() ==> final(self).cursor_spec() == 0)
                    &&& (final(self).is_finished_spec() ==> final(self).cursor_spec() == n && final(self).pairings_spec() == acted)
                    &&& r matches Ok(u) && ({
                        &&& u@.len() == n
                        &&& forall|k: int|
                            #![trigger u@[k]]
                            0 <= k < n ==> {
                                &&& u@[k].0.index_spec() == k
                                &&& u@[k].1.encounters@.len() == n
                                &&& (forall|i: int|
                                    #![trigger u@[k].1.encounters@[i]]
                                    0 <= i < n ==> u@[k].1.encounters@[i] == report_for(acted, i))
                                &&& (!final(self).is_finished_spec() ==> (u@[k].1.pairing
                                    matches Some(p) && p@ == final(self).pairings_spec()))
                                &&& (final(self).is_finished_spec() ==> u@[k].1.pairing is None)
                            }
                    })
                })
            }),
    {
        let n = self.actual_pairings.len();
        if self.is_finished() {
            return Err(ClassicGameError::ActionAfterGameOver(agent));
        }
        if self.current_player_index >= n {
            proof {
                assert(old(self).n_spec() == 0);
            }
            return Err(ClassicGameError::ActionAfterGameOver(agent));
        }
        let c = self.current_player_index;
        if agent.as_usize() != c {
            return Err(ClassicGameError::ActionOutOfOrder(agent));
        }
        let ghost s0 = old(self).pairings_spec();
        let ghost rounds0 = old(self).rounds_completed();
        let ghost bound = reward_bound(old(self).table_spec());
        proof {
            assert(pairing_partner_ok(s0, c as int));
        }
        let this_pairing = self.actual_pairings[c];
        let other_index = this_pairing.paired_player.as_usize();
        self.actual_pairings.set(
            c,
            PlayerPairing {
                paired_player: this_pairing.paired_player,
                taken_action: Some(action),
                side: this_pairing.side,
            },
        );
        let ghost acted = self.actual_pairings@;
        proof {
            assert(acted =~= s0.update(
                c as int,
                (PlayerPairing {
                    paired_player: s0[c as int].paired_player,
                    taken_action: Some(action),
                    side: s0[c as int].side,
                }),
            ));
            lemma_matching_ignores_actions(s0, acted);
            assert forall|k: int| 0 <= k < n && k != c && k != other_index implies resolved_flag(
                acted,
                k,
            ) == resolved_flag(s0, k) by {
                assert(pairing_partner_ok(s0, k));
                let pk = s0[k].paired_player.index_spec();
                assert(pk != c) by {
                    if pk == c {
                        assert(s0[c as int].paired_player.index_spec() == k);
                    }
                }
            }
        }
        let other_pairing = self.actual_pairings[other_index];
        if let Some(other_action) = other_pairing.taken_action {
            let (left_action, right_action) = match this_pairing.side {
                Side::Left => (action, other_action),
                Side::Right => (other_action, action),
            };
            let rewards = self.reward_table.rewards(left_action, right_action);
            let rewards_reoriented = match this_pairing.side {
                Side::Left => rewards,
                Side::Right => ((rewards.1, rewards.0)),
            };
            proof {
                lemma_reward_within_bound(
                    old(self).table_spec(),
                    s0[c as int].side,
                    left_action,
                    right_action,
                );
                lemma_reward_within_bound(
                    old(self).table_spec(),
                    s0[other_index as int].side,
                    left_action,
                    right_action,
                );
                assert(bound >= 0);
                assert(resolved_flag(s0, c as int) == 0);
                assert(resolved_flag(s0, other_index as int) == 0) by {
                    assert(s0[other_index as int].paired_player.index_spec() == c);
                }
                assert(rounds0 + 1 <= old(self).target_rounds_spec());
                lemma_mul_inequality(rounds0 + 1, old(self).target_rounds_spec(), bound);
                assert((rounds0 + 1) * bound == rounds0 * bound + bound) by (nonlinear_arith);
                assert(old(self).target_rounds_spec() * bound <= i32::MAX);
                assert(-(old(self).scores_spec()[c as int] as int) <= rounds0 * bound
                    && old(self).scores_spec()[c as int] <= rounds0 * bound);
                assert(-(old(self).scores_spec()[other_index as int] as int) <= rounds0 * bound
                    && old(self).scores_spec()[other_index as int] <= rounds0 * bound);
                assert(rewards_reoriented.0 == old(self).table_spec().reward_for_side_spec(
                    s0[c as int].side,
                    left_action,
                    right_action,
                ));
                assert(rewards_reoriented.1 == old(self).table_spec().reward_for_side_spec(
                    s0[other_index as int].side,
                    left_action,
                    right_action,
                ));
            }
            let sc = self.score_cache[c];
            self.score_cache.set(c, sc + rewards_reoriented.0);
            let so = self.score_cache[other_index];
            self.score_cache.set(other_index, so + rewards_reoriented.1);
            proof {
                assert forall|k: int| 0 <= k < n implies ({
                    let g = rounds0 + resolved_flag(acted, k);
                    -(g * bound) <= #[trigger] self.scores_spec()[k] <= g * bound
                }) by {
                    assert((rounds0 + 1) * bound == rounds0 * bound + bound) by (nonlinear_arith);
                    if k == c {
                        assert(acted[other_index as int].taken_action is Some);
                        assert(resolved_flag(acted, k) == 1);
                    } else if k == other_index {
                        assert(acted[k].paired_player.index_spec() == c);
                        assert(acted[c as int].taken_action is Some);
                        assert(resolved_flag(acted, k) == 1);
                    } else {
                        assert(resolved_flag(acted, k) == resolved_flag(s0, k));
                        assert(self.scores_spec()[k] == old(self).scores_spec()[k]);
                        assert(-((rounds0 + resolved_flag(s0, k)) * bound) <= old(
                            self,
                        ).scores_spec()[k] <= (rounds0 + resolved_flag(s0, k)) * bound);
                    }
                }
            }
        } else {
            proof {
                assert forall|k: int| 0 <= k < n implies ({
                    let g = rounds0 + resolved_flag(acted, k);
                    -(g * bound) <= #[trigger] self.scores_spec()[k] <= g * bound
                }) by {
                    assert(-((rounds0 + resolved_flag(s0, k)) * bound) <= old(self).scores_spec()[k]
                        <= (rounds0 + resolved_flag(s0, k)) * bound);
                    if k == c {
                        assert(acted[other_index as int].taken_action is None);
                        assert(resolved_flag(acted, k) == 0);
                        assert(resolved_flag(s0, k) == 0);
                    } else if k == other_index {
                        assert(acted[k].paired_player.index_spec() == c);
                        assert(resolved_flag(acted, k) == 0);
                        assert(resolved_flag(s0, k) == 0);
                    } else {
                        assert(resolved_flag(acted, k) == resolved_flag(s0, k));
                    }
                }
            }
        }
        self.current_player_index = c + 1;
        proof {
            assert forall|k: int| 0 <= k < n implies (#[trigger] acted[k].taken_action is Some
                <==> k < c + 1) by {
                assert(s0[k].taken_action is Some <==> k < c);
            }
        }
        if c + 1 >= n {
            let mut encounters: Vec<EncounterReport<ID>> = Vec::new();
            let mut i: usize = 0;
            while i < n
                invariant
                    i <= n,
                    encounters@.len() == i,
                    forall|k: int|
                        #![trigger encounters@[k]]
                        0 <= k < i ==> encounters@[k] == report_for(acted, k),
                decreases n - i,
            {
                let p = self.actual_pairings[i];
                proof {
                    assert(pairing_partner_ok(acted, i as int));
                }
                let q = self.actual_pairings[p.paired_player.as_usize()];
                let rep = EncounterReport {
                    own_action: p.taken_action.unwrap(),
                    other_player_action: q.taken_action.unwrap(),
                    side: p.side,
                    other_id: p.paired_player,
                };
                encounters.push(rep);
                assert(encounters@[i as int] == report_for(acted, i as int));
                i += 1;
            }
            let archived = copy_vec(&self.actual_pairings);
            self.previous_pairings.push(archived);
            let finished_now = self.previous_pairings.len() >= self.target_rounds;
            if !finished_now {
                let fresh = Self::shuffled_pairings(&mut self.indexes);
                self.actual_pairings = fresh;
                self.current_player_index = 0;
            }
            proof {
                assert(self.rounds_completed() == rounds0 + 1);
                assert(self.scores_bounded()) by {
                    assert forall|k: int| 0 <= k < self.n_spec() implies {
                        let granted = self.rounds_completed() + resolved_flag(
                            self.pairings_spec(),
                            k,
                        );
                        -(granted * reward_bound(self.table_spec())) <= #[trigger] self.scores_spec()[k]
                            <= granted * reward_bound(self.table_spec())
                    } by {
                        let g0 = rounds0 + resolved_flag(acted, k);
                        let g1 = self.rounds_completed() + resolved_flag(self.pairings_spec(), k);
                        assert(-(g0 * bound) <= self.scores_spec()[k] <= g0 * bound);
                        assert(g0 <= g1);
                        lemma_mul_inequality(g0, g1, bound);
                    }
                }
            }
            let mut updates: Vec<(ID, ClassicGameUpdate<ID>)> = Vec::new();
            let mut k: usize = 0;
            while k < n
                invariant
                    k <= n,
                    updates@.len() == k,
                    forall|t: int|
                        #![trigger updates@[t]]
                        0 <= t < k ==> {
                            &&& updates@[t].0.index_spec() == t
                            &&& updates@[t].1.encounters@ == encounters@
                            &&& (finished_now ==> updates@[t].1.pairing is None)
                            &&& (!finished_now ==> (updates@[t].1.pairing matches Some(p) && p@
                                == self.actual_pairings@))
                        },
                decreases n - k,
            {
                let enc = copy_vec(&encounters);
                let pairing_opt: Option<PairingVec<ID>> = if finished_now {
                    None
                } else {
                    Some(copy_vec(&self.actual_pairings))
                };
                updates.push((ID::make_from_usize(k), ClassicGameUpdate {
                    encounters: enc,
                    pairing: pairing_opt,
                }));
                assert(updates@[k as int].0.index_spec() == k as int);
                k += 1;
            }
            return Ok(updates);
        }
        Ok(Vec::new())
    }

    /// Resets the scheduler for a new game over the same players, table
    /// and round target: all scores return to zero, the round history is
    /// cleared, a fresh shuffled pairing is allocated and the turn
    /// cursor returns to agent `0`.
    pub fn renew_from(&mut self, _base: ())
        requires
            old(self).wf(),
        ensures
            final(self).wf(),
            final(self).n_spec() == old(self).n_spec(),
            final(self).target_rounds_spec() == old(self).target_rounds_spec(),
            final(self).table_spec() == old(self).table_spec(),
            final(self).rounds_completed() == 0,
            final(self).cursor_spec() == 0,
            forall|i: int|
                #![trigger final(self).scores_spec()[i]]
                0 <= i < final(self).n_spec() ==> final(self).scores_spec()[i] == 0,
            forall|i: int|
                #![trigger final(self).pairings_spec()[i]]
                0 <= i < final(self).n_spec() ==> final(self).pairings_spec()[i].taken_action
                    is None,
    {
        let n = self.actual_pairings.len();
        let mut zeroes: Vec<IntReward> = Vec::new();
        let mut i: usize = 0;
        while i < n
            invariant
                i <= n,
                zeroes@.len() == i,
                forall|q: int| #![trigger zeroes@[q]] 0 <= q < i ==> zeroes@[q] == 0i32,
            decreases n - i,
        {
            zeroes.push(0);
            assert(zeroes@[i as int] == 0i32);
            i += 1;
        }
        self.score_cache = zeroes;
        self.previous_pairings = Vec::new();
        let fresh = Self::shuffled_pairings(&mut self.indexes);
        self.actual_pairings = fresh;
        self.current_player_index = 0;
        proof {
            assert(self.rounds_completed() == 0);
            assert(self.scores_bounded()) by {
                assert forall|q: int| 0 <= q < self.n_spec() implies {
                    let granted = self.rounds_completed() + resolved_flag(self.pairings_spec(), q);
                    -(granted * reward_bound(self.table_spec())) <= #[trigger] self.scores_spec()[q]
                        <= granted * reward_bound(self.table_spec())
                } by {
                    assert(resolved_flag(self.pairings_spec(), q) == 0);
                    assert(self.scores_spec()[q] == 0i32);
                }
            }
        }
    }
}

} // verus!
