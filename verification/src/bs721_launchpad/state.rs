//! What the launchpad persists between calls, and what must hold of it.

use vstd::prelude::*;
use crate::bs721_launchpad::helpers::TokenPositionMapping;
use crate::bs721_launchpad::msg::Stage;
use crate::host::Addr;

verus! {

/// Sale parameters, fixed when the sale is set up.
#[derive(Debug, Clone, PartialEq, Eq)]
pub struct Config {
    pub admin: Addr,
    pub name: String,
    pub symbol: String,
    pub collection_uri: Option<String>,
    pub base_token_uri: String,
    pub seller_fee_bps: u16,
    pub payment_address: Option<Addr>,
}

/// The slots of `s` are strictly increasing, so no slot occurs twice.
pub open spec fn sorted_by_position(s: Seq<TokenPositionMapping>) -> bool {
    forall|i: int, j: int| 0 <= i < j < s.len() ==> s[i].position < s[j].position
}

/// No token identity occurs in two entries of `s`.
pub open spec fn distinct_tokens(s: Seq<TokenPositionMapping>) -> bool {
    forall|i: int, j: int| 0 <= i < j < s.len() ==> s[i].token_id != s[j].token_id
}

/// Every slot and every token identity of `s` lies in `1..=total`.
pub open spec fn within_supply(s: Seq<TokenPositionMapping>, total: nat) -> bool {
    forall|i: int|
        0 <= i < s.len() ==> 1 <= (#[trigger] s[i]).position <= total && 1 <= s[i].token_id
            <= total
}

/// `s` is part of a one-to-one assignment of the slots `1..=total` to the
/// token identities `1..=total`, listed by increasing slot.
pub open spec fn valid_table(s: Seq<TokenPositionMapping>, total: nat) -> bool {
    &&& sorted_by_position(s)
    &&& distinct_tokens(s)
    &&& within_supply(s, total)
}

/// `s` assigns the slots `1..=total`, in order, one-to-one onto the token
/// identities `1..=total`: every slot and every token occurs exactly once.
pub open spec fn full_table(s: Seq<TokenPositionMapping>, total: nat) -> bool {
    &&& s.len() == total
    &&& forall|i: int| 0 <= i < s.len() ==> (#[trigger] s[i]).position == i + 1
    &&& forall|i: int| 0 <= i < s.len() ==> 1 <= (#[trigger] s[i]).token_id <= total
    &&& distinct_tokens(s)
    &&& forall|t: u128| 1 <= t <= total ==> #[trigger] has_token(s, t)
}

/// Whether `s` has an entry for slot `position`.
pub open spec fn has_position(s: Seq<TokenPositionMapping>, position: u128) -> bool {
    exists|i: int| 0 <= i < s.len() && (#[trigger] s[i]).position == position
}

/// Whether `s` has an entry that holds token `token_id`.
pub open spec fn has_token(s: Seq<TokenPositionMapping>, token_id: u128) -> bool {
    exists|i: int| 0 <= i < s.len() && (#[trigger] s[i]).token_id == token_id
}

/// The token identity that `s` holds in slot `position`.
pub open spec fn token_at(s: Seq<TokenPositionMapping>, position: u128) -> u128
    recommends
        has_position(s, position),
{
    s[choose|i: int| 0 <= i < s.len() && (#[trigger] s[i]).position == position].token_id
}

/// The table as a mapping from slot to token identity.
pub open spec fn as_map(s: Seq<TokenPositionMapping>) -> Map<u128, u128> {
    Map::new(|p: u128| has_position(s, p), |p: u128| token_at(s, p))
}

/// Number of candidate slots among which a draw chooses: at most five.
pub open spec fn pick_window(remaining: nat) -> nat {
    if remaining < 5 {
        remaining
    } else {
        5
    }
}

/// How many slots are skipped from the end at which the scan starts.
pub open spec fn pick_offset(remaining: nat, draw: u32) -> nat
    recommends
        remaining > 0,
{
    (draw as nat) % pick_window(remaining)
}

/// Index, among `remaining` slots listed by increasing slot, of the one
/// that `draw` selects: an even draw scans upwards from the lowest slot,
/// an odd draw downwards from the highest.
pub open spec fn pick_index(remaining: nat, draw: u32) -> int
    recommends
        remaining > 0,
{
    if draw % 2 == 1 {
        remaining - 1 - pick_offset(remaining, draw)
    } else {
        pick_offset(remaining, draw) as int
    }
}

/// The shuffled assignment of slots to token identities that have not
/// been sold yet, listed by increasing slot.
#[derive(Debug, Clone, PartialEq, Eq)]
pub struct PositionTable {
    pub entries: Vec<TokenPositionMapping>,
}

impl View for PositionTable {
    type V = Seq<TokenPositionMapping>;

    open spec fn view(&self) -> Seq<TokenPositionMapping> {
        self.entries@
    }
}

impl PositionTable {
    /// The table that assigns slot `i + 1` to `tokens[i]`.
    pub open spec fn numbered(tokens: Seq<u128>) -> Seq<TokenPositionMapping> {
        Seq::new(
            tokens.len(),
            |i: int| TokenPositionMapping { position: (i + 1) as u128, token_id: tokens[i] },
        )
    }

    /// Assigns the slots `1, 2, ...` to `tokens` in the order given.
    pub fn from_tokens(tokens: &Vec<u128>) -> (r: PositionTable)
        ensures
            r@ == Self::numbered(tokens@),
    {
        let mut entries: Vec<TokenPositionMapping> = Vec::new();
        let mut nft_position: u128 = 1;
        let mut i: usize = 0;
        while i < tokens.len()
            invariant
                i <= tokens.len(),
                nft_position == i + 1,
                entries@ == Self::numbered(tokens@).subrange(0, i as int),
            decreases tokens.len() - i,
        {
            entries.push(TokenPositionMapping { position: nft_position, token_id: tokens[i] });
            nft_position += 1u128;
            i = i + 1;
        }
        PositionTable { entries }
    }

    pub fn len(&self) -> (n: usize)
        ensures
            n == self@.len(),
    {
        self.entries.len()
    }

    /// The entry that `draw` selects among the remaining ones, or `None`
    /// when nothing remains.
    pub fn pick(&self, draw: u32) -> (r: Option<TokenPositionMapping>)
        ensures
            self@.len() == 0 ==> r is None,
            self@.len() > 0 ==> r == Some(self@[pick_index(self@.len(), draw)]),
            self@.len() > 0 ==> 0 <= pick_index(self@.len(), draw) < self@.len(),
    {
        let remaining: usize = self.entries.len();
        if remaining == 0 {
            return None;
        }
        let mut skip: usize = 5;
        if skip > remaining {
            skip = remaining;
        }
        let skip: usize = (draw % (skip as u32)) as usize;
        let index: usize = if draw % 2 == 1 {
            remaining - 1 - skip
        } else {
            skip
        };
        Some(self.entries[index])
    }

    /// Index of the first entry for slot `position`, if the table has one.
    pub fn find(&self, position: u128) -> (r: Option<usize>)
        ensures
            match r {
                Some(i) => i < self@.len() && self@[i as int].position == position && forall|
                    k: int,
                | 0 <= k < i ==> (#[trigger] self@[k]).position != position,
                None => !has_position(self@, position),
            },
    {
        let mut i: usize = 0;
        while i < self.entries.len()
            invariant
                i <= self.entries.len(),
                forall|k: int| 0 <= k < i ==> (#[trigger] self@[k]).position != position,
            decreases self.entries.len() - i,
        {
            if self.entries[i].position == position {
                return Some(i);
            }
            i = i + 1;
        }
        None
    }

    /// Whether the table is part of a one-to-one assignment of the slots
    /// `1..=total` to the token identities `1..=total`.
    pub fn is_valid(&self, total: u128) -> (ok: bool)
        ensures
            ok == valid_table(self@, total as nat),
    {
        let n: usize = self.entries.len();
        let mut i: usize = 0;
        while i < n
            invariant
                i <= n,
                n == self@.len(),
                sorted_by_position(self@.subrange(0, i as int)),
                distinct_tokens(self@.subrange(0, i as int)),
                within_supply(self@.subrange(0, i as int), total as nat),
            decreases n - i,
        {
            let entry = self.entries[i];
            let ghost done = self@.subrange(0, i as int);
            let ghost next = self@.subrange(0, i as int + 1);
            if entry.position < 1 || entry.position > total || entry.token_id < 1 || entry.token_id
                > total {
                assert(!within_supply(self@, total as nat));
                return false;
            }
            if i > 0 && self.entries[i - 1].position >= entry.position {
                assert(!sorted_by_position(self@));
                return false;
            }
            let mut j: usize = 0;
            while j < i
                invariant
                    j <= i < n,
                    n == self@.len(),
                    entry == self@[i as int],
                    forall|k: int| 0 <= k < j ==> (#[trigger] self@[k]).token_id != entry.token_id,
                decreases i - j,
            {
                if self.entries[j].token_id == entry.token_id {
                    assert(!distinct_tokens(self@));
                    return false;
                }
                j = j + 1;
            }
            proof {
                assert forall|a: int, b: int| 0 <= a < b < next.len() implies next[a].position
                    < next[b].position by {
                    if b < i {
                        assert(done[a].position < done[b].position);
                    } else if a < i - 1 {
                        assert(done[a].position < done[i - 1].position);
                    }
                }
                assert forall|a: int, b: int| 0 <= a < b < next.len() implies next[a].token_id
                    != next[b].token_id by {
                    if b < i {
                        assert(done[a].token_id != done[b].token_id);
                    } else {
                        assert(self@[a].token_id != entry.token_id);
                    }
                }
                assert forall|k: int| 0 <= k < next.len() implies 1 <= (#[trigger] next[k]).position
                    <= total && 1 <= next[k].token_id <= total by {
                    if k < i {
                        assert(done[k] == next[k]);
                    }
                }
            }
            i = i + 1;
        }
        assert(self@.subrange(0, n as int) =~= self@);
        true
    }

    /// Takes the first entry for slot `position` out of the table; a table
    /// without that slot stays as it is. In a table listed by increasing
    /// slot that entry is the only one, and the slot is gone afterwards.
    pub fn remove(&mut self, position: u128)
        ensures
            has_position(old(self)@, position) ==> exists|i: int|
                0 <= i < old(self)@.len() && (#[trigger] old(self)@[i]).position == position
                    && final(self)@ == old(self)@.remove(i) && forall|k: int|
                    0 <= k < i ==> (#[trigger] old(self)@[k]).position != position,
            !has_position(old(self)@, position) ==> final(self)@ == old(self)@,
            sorted_by_position(old(self)@) ==> sorted_by_position(final(self)@) && as_map(
                final(self)@,
            ) == as_map(old(self)@).remove(position),
    {
        if let Some(at) = self.find(position) {
            self.entries.remove(at);
            proof {
                lemma_remove_keeps_order(old(self)@, at as int);
                if sorted_by_position(old(self)@) {
                    lemma_remove_from_map(old(self)@, at as int);
                }
            }
        } else {
            assert(as_map(old(self)@).remove(position) =~= as_map(old(self)@));
        }
    }
}

/// Sum of the amounts in `s`.
pub open spec fn sum(s: Seq<u128>) -> nat
    decreases s.len(),
{
    if s.len() == 0 {
        0
    } else {
        sum(s.drop_last()) + s.last() as nat
    }
}

/// Number of tokens that `stages` offer together.
pub open spec fn supply(stages: Seq<Stage>) -> nat
    decreases stages.len(),
{
    if stages.len() == 0 {
        0
    } else {
        supply(stages.drop_last()) + stages.last().total_amount as nat
    }
}

/// The token identities `1..=total` in increasing order.
pub open spec fn token_range(total: nat) -> Seq<u128> {
    Seq::new(total, |i: int| (i + 1) as u128)
}

/// Everything that the launchpad persists between calls.
#[derive(Debug, Clone, PartialEq, Eq)]
pub struct State {
    pub config: Config,
    /// The companion token contract, once it has been linked.
    pub nft_address: Option<Addr>,
    /// Seed of the next random stream; replaced whenever one is derived.
    pub seed: [u8; 32],
    /// The stages in the order given at setup; stage `i + 1` is `stages[i]`.
    pub stages: Vec<Stage>,
    /// Tokens that each stage may still sell.
    pub stage_remaining: Vec<u128>,
    /// Tokens that all stages together may still sell.
    pub stages_remaining: u128,
    /// Number of stages.
    pub stage_counter: u8,
    /// Slots that have not been sold, with the token in each.
    pub nft_positions: PositionTable,
}

impl State {
    /// What holds of the state after setup and after every transition:
    /// the counters agree with the stages and with the position table, no
    /// stage has sold more than its supply, and the table is part of a
    /// one-to-one assignment of slots to tokens.
    pub open spec fn wf(&self) -> bool {
        &&& 1 <= self.stages@.len() <= u8::MAX
        &&& self.stage_counter == self.stages@.len()
        &&& self.stage_remaining@.len() == self.stages@.len()
        &&& forall|i: int|
            0 <= i < self.stages@.len() ==> (#[trigger] self.stage_remaining@[i])
                <= self.stages@[i].total_amount
        &&& sum(self.stage_remaining@) == self.stages_remaining
        &&& self.nft_positions@.len() == self.stages_remaining
        &&& valid_table(self.nft_positions@, supply(self.stages@))
    }

    /// Whether the state is well formed.
    pub fn check(&self) -> (ok: bool)
        ensures
            ok == self.wf(),
    {
        let n: usize = self.stages.len();
        if n < 1 || n > 255 || self.stage_counter as usize != n || self.stage_remaining.len() != n {
            return false;
        }
        let mut total: u128 = 0;
        let mut left: u128 = 0;
        let mut i: usize = 0;
        while i < n
            invariant
                i <= n <= 255,
                n == self.stages@.len(),
                n == self.stage_remaining@.len(),
                forall|k: int|
                    0 <= k < i ==> (#[trigger] self.stage_remaining@[k])
                        <= self.stages@[k].total_amount,
                total == supply(self.stages@.subrange(0, i as int)),
                left == sum(self.stage_remaining@.subrange(0, i as int)),
                left <= total <= i * u32::MAX,
            decreases n - i,
        {
            if self.stage_remaining[i] > self.stages[i].total_amount as u128 {
                return false;
            }
            proof {
                lemma_supply_push(self.stages@.subrange(0, i as int), self.stages@[i as int]);
                lemma_sum_push(
                    self.stage_remaining@.subrange(0, i as int),
                    self.stage_remaining@[i as int],
                );
                assert(self.stages@.subrange(0, i as int).push(self.stages@[i as int])
                    =~= self.stages@.subrange(0, i as int + 1));
                assert(self.stage_remaining@.subrange(0, i as int).push(
                    self.stage_remaining@[i as int],
                ) =~= self.stage_remaining@.subrange(0, i as int + 1));
                assert(i * u32::MAX + u32::MAX == (i + 1) * u32::MAX) by (nonlinear_arith);
                assert(i * u32::MAX <= 255 * u32::MAX) by (nonlinear_arith)
                    requires
                        i <= 255,
                ;
            }
            total = total + self.stages[i].total_amount as u128;
            left = left + self.stage_remaining[i];
            i = i + 1;
        }
        assert(self.stages@.subrange(0, n as int) =~= self.stages@);
        assert(self.stage_remaining@.subrange(0, n as int) =~= self.stage_remaining@);
        if left != self.stages_remaining {
            return false;
        }
        if self.nft_positions.len() as u128 != self.stages_remaining {
            return false;
        }
        self.nft_positions.is_valid(total)
    }

    /// The state with the seed replaced and all else kept.
    pub open spec fn with_seed(self, seed: [u8; 32]) -> State {
        State { seed, ..self }
    }

    /// Whether the companion token contract has been linked.
    pub open spec fn linked(&self) -> bool {
        self.nft_address matches Some(a) && a@.len() > 0
    }
}

/// Appending an amount adds it to the sum.
pub proof fn lemma_sum_push(s: Seq<u128>, x: u128)
    ensures
        sum(s.push(x)) == sum(s) + x,
{
    assert(s.push(x).drop_last() =~= s);
}

/// Appending a stage adds its supply to the total.
pub proof fn lemma_supply_push(stages: Seq<Stage>, stage: Stage)
    ensures
        supply(stages.push(stage)) == supply(stages) + stage.total_amount,
{
    assert(stages.push(stage).drop_last() =~= stages);
}

/// Replacing one amount changes the sum by the difference.
pub proof fn lemma_sum_update(s: Seq<u128>, i: int, x: u128)
    requires
        0 <= i < s.len(),
    ensures
        sum(s.update(i, x)) == sum(s) - s[i] + x,
        sum(s) >= s[i],
    decreases s.len(),
{
    if i == s.len() - 1 {
        assert(s.update(i, x).drop_last() =~= s.drop_last());
    } else {
        lemma_sum_update(s.drop_last(), i, x);
        assert(s.update(i, x).drop_last() =~= s.drop_last().update(i, x));
    }
}

/// A sum of zero leaves nothing in any place.
pub proof fn lemma_sum_zero(s: Seq<u128>)
    requires
        sum(s) == 0,
    ensures
        forall|i: int| 0 <= i < s.len() ==> s[i] == 0,
    decreases s.len(),
{
    if s.len() > 0 {
        lemma_sum_zero(s.drop_last());
        assert forall|i: int| 0 <= i < s.len() implies s[i] == 0 by {
            if i < s.len() - 1 {
                assert(s.drop_last()[i] == s[i]);
            }
        }
    }
}

/// Numbering any rearrangement of the token identities `1..=total` gives
/// a table in which every slot and every token occurs exactly once.
pub proof fn lemma_numbered_rearrangement(tokens: Seq<u128>, total: nat)
    requires
        total <= u128::MAX,
        tokens.to_multiset() == token_range(total).to_multiset(),
    ensures
        full_table(PositionTable::numbered(tokens), total),
        valid_table(PositionTable::numbered(tokens), total),
{
    let ids = token_range(total);
    let table = PositionTable::numbered(tokens);
    tokens.to_multiset_ensures();
    ids.to_multiset_ensures();
    assert(ids.no_duplicates());
    ids.lemma_multiset_has_no_duplicates();
    tokens.lemma_multiset_has_no_duplicates_conv();
    assert forall|i: int| 0 <= i < table.len() implies 1 <= (#[trigger] table[i]).token_id
        <= total by {
        assert(tokens.contains(tokens[i]));
        assert(tokens.to_multiset().count(tokens[i]) > 0);
        assert(ids.to_multiset().count(tokens[i]) > 0);
        assert(ids.contains(tokens[i]));
        let j = choose|j: int| 0 <= j < ids.len() && ids[j] == tokens[i];
        assert(ids[j] == j + 1);
    }
    assert forall|t: u128| 1 <= t <= total implies #[trigger] has_token(table, t) by {
        assert(ids[t - 1] == t);
        assert(ids.contains(t));
        assert(ids.to_multiset().count(t) > 0);
        assert(tokens.to_multiset().count(t) > 0);
        assert(tokens.contains(t));
        let i = choose|i: int| 0 <= i < tokens.len() && tokens[i] == t;
        assert(table[i].token_id == t);
    }
    assert(distinct_tokens(table)) by {
        assert forall|i: int, j: int| 0 <= i < j < table.len() implies table[i].token_id
            != table[j].token_id by {
            assert(tokens[i] != tokens[j]);
        }
    }
}

/// In a table listed by increasing slot, every entry is what the mapping
/// holds for its slot.
pub proof fn lemma_entry_in_map(s: Seq<TokenPositionMapping>, at: int)
    requires
        sorted_by_position(s),
        0 <= at < s.len(),
    ensures
        as_map(s).dom().contains(s[at].position),
        as_map(s)[s[at].position] == s[at].token_id,
{
    let p = s[at].position;
    assert(has_position(s, p));
    let c = choose|i: int| 0 <= i < s.len() && (#[trigger] s[i]).position == p;
    if c < at {
        assert(s[c].position < s[at].position);
    }
    if at < c {
        assert(s[at].position < s[c].position);
    }
}

/// Taking an entry out of a table listed by increasing slot takes its
/// slot out of the mapping and leaves every other slot with its token.
pub proof fn lemma_remove_from_map(s: Seq<TokenPositionMapping>, at: int)
    requires
        sorted_by_position(s),
        0 <= at < s.len(),
    ensures
        as_map(s.remove(at)) == as_map(s).remove(s[at].position),
{
    let r = s.remove(at);
    let gone = s[at].position;
    lemma_remove_keeps_order(s, at);
    assert forall|p: u128| has_position(s, p) && p != gone implies has_position(r, p) by {
        let i = choose|i: int| 0 <= i < s.len() && (#[trigger] s[i]).position == p;
        let k = if i < at { i } else { i - 1 };
        assert(r[k] == s[i]);
    }
    assert forall|p: u128| has_position(r, p) implies token_at(r, p) == token_at(s, p) by {
        let k = choose|k: int| 0 <= k < r.len() && (#[trigger] r[k]).position == p;
        let sk = if k < at { k } else { k + 1 };
        assert(r[k] == s[sk]);
        lemma_entry_in_map(s, sk);
    }
    assert(as_map(r) =~= as_map(s).remove(gone));
}

/// Taking one entry out of a table leaves the others in their order, and
/// the slot of the entry taken is gone for good.
pub proof fn lemma_remove_keeps_order(s: Seq<TokenPositionMapping>, at: int)
    requires
        0 <= at < s.len(),
    ensures
        s.remove(at).len() == s.len() - 1,
        sorted_by_position(s) ==> sorted_by_position(s.remove(at)) && !has_position(
            s.remove(at),
            s[at].position,
        ),
        distinct_tokens(s) ==> distinct_tokens(s.remove(at)) && !has_token(
            s.remove(at),
            s[at].token_id,
        ),
        forall|total: nat| within_supply(s, total) ==> within_supply(s.remove(at), total),
        forall|p: u128| has_position(s.remove(at), p) ==> has_position(s, p),
        forall|t: u128| has_token(s.remove(at), t) ==> has_token(s, t),
{
    let r = s.remove(at);
    assert forall|k: int| 0 <= k < r.len() implies #[trigger] r[k] == s[if k < at {
        k
    } else {
        k + 1
    }] by {}
    if sorted_by_position(s) {
        assert forall|i: int, j: int| 0 <= i < j < r.len() implies r[i].position
            < r[j].position by {
            let si = if i < at { i } else { i + 1 };
            let sj = if j < at { j } else { j + 1 };
            assert(r[i] == s[si] && r[j] == s[sj]);
        }
        assert forall|k: int| 0 <= k < r.len() implies (#[trigger] r[k]).position
            != s[at].position by {
            let sk = if k < at { k } else { k + 1 };
            assert(r[k] == s[sk]);
        }
    }
    if distinct_tokens(s) {
        assert forall|i: int, j: int| 0 <= i < j < r.len() implies r[i].token_id
            != r[j].token_id by {
            let si = if i < at { i } else { i + 1 };
            let sj = if j < at { j } else { j + 1 };
            assert(r[i] == s[si] && r[j] == s[sj]);
        }
        assert forall|k: int| 0 <= k < r.len() implies (#[trigger] r[k]).token_id
            != s[at].token_id by {
            let sk = if k < at { k } else { k + 1 };
            assert(r[k] == s[sk]);
            if sk < at {
                assert(s[sk].token_id != s[at].token_id);
            } else {
                assert(s[at].token_id != s[sk].token_id);
            }
        }
    }
    assert forall|total: nat| within_supply(s, total) implies within_supply(r, total) by {
        assert forall|k: int| 0 <= k < r.len() implies 1 <= (#[trigger] r[k]).position <= total
            && 1 <= r[k].token_id <= total by {
            let sk = if k < at { k } else { k + 1 };
            assert(r[k] == s[sk]);
        }
    }
    assert forall|p: u128| has_position(r, p) implies has_position(s, p) by {
        let k = choose|k: int| 0 <= k < r.len() && (#[trigger] r[k]).position == p;
        let sk = if k < at { k } else { k + 1 };
        assert(s[sk].position == p);
    }
    assert forall|t: u128| has_token(r, t) implies has_token(s, t) by {
        let k = choose|k: int| 0 <= k < r.len() && (#[trigger] r[k]).token_id == t;
        let sk = if k < at { k } else { k + 1 };
        assert(s[sk].token_id == t);
    }
}

/// The table that is left of `table` after the draws `draws`, each of
/// which takes the slot that it selects; a draw on an empty table takes
/// nothing.
pub open spec fn after_draws(table: Seq<TokenPositionMapping>, draws: Seq<u32>) -> Seq<
    TokenPositionMapping,
>
    decreases draws.len(),
{
    if draws.len() == 0 {
        table
    } else {
        let left = after_draws(table, draws.drop_last());
        if left.len() == 0 {
            left
        } else {
            left.remove(pick_index(left.len(), draws.last()))
        }
    }
}

/// The entries that the draws `draws` take out of `table`, in the order
/// in which they are taken.
pub open spec fn allocated(table: Seq<TokenPositionMapping>, draws: Seq<u32>) -> Seq<
    TokenPositionMapping,
>
    decreases draws.len(),
{
    if draws.len() == 0 {
        Seq::empty()
    } else {
        let left = after_draws(table, draws.drop_last());
        let taken = allocated(table, draws.drop_last());
        if left.len() == 0 {
            taken
        } else {
            taken.push(left[pick_index(left.len(), draws.last())])
        }
    }
}

/// The slot that a draw selects is one of those that remain.
pub proof fn lemma_pick_in_range(remaining: nat, draw: u32)
    requires
        remaining > 0,
    ensures
        0 <= pick_index(remaining, draw) < remaining,
{
}

/// No slot and no token is handed out twice. Whatever the draws, every
/// entry taken comes from the table and is gone from what is left, no
/// two entries taken share a slot or a token, as many entries are taken
/// as there are draws until the table is empty, and once as many draws
/// have been made as the table had entries, nothing is left.
pub proof fn lemma_allocations_never_repeat(table: Seq<TokenPositionMapping>, draws: Seq<u32>)
    requires
        sorted_by_position(table),
        distinct_tokens(table),
    ensures
        sorted_by_position(after_draws(table, draws)),
        distinct_tokens(after_draws(table, draws)),
        allocated(table, draws).len() + after_draws(table, draws).len() == table.len(),
        draws.len() <= table.len() ==> allocated(table, draws).len() == draws.len(),
        draws.len() >= table.len() ==> after_draws(table, draws).len() == 0,
        forall|i: int, j: int|
            0 <= i < j < allocated(table, draws).len() ==> allocated(table, draws)[i].position
                != allocated(table, draws)[j].position && allocated(table, draws)[i].token_id
                != allocated(table, draws)[j].token_id,
        forall|i: int|
            0 <= i < allocated(table, draws).len() ==> {
                let taken = #[trigger] allocated(table, draws)[i];
                &&& has_position(table, taken.position)
                &&& has_token(table, taken.token_id)
                &&& !has_position(after_draws(table, draws), taken.position)
                &&& !has_token(after_draws(table, draws), taken.token_id)
            },
        forall|p: u128| has_position(after_draws(table, draws), p) ==> has_position(table, p),
        forall|t: u128| has_token(after_draws(table, draws), t) ==> has_token(table, t),
    decreases draws.len(),
{
    if draws.len() > 0 {
        let before = draws.drop_last();
        lemma_allocations_never_repeat(table, before);
        let left = after_draws(table, before);
        let taken = allocated(table, before);
        if left.len() > 0 {
            let at = pick_index(left.len(), draws.last());
            lemma_pick_in_range(left.len(), draws.last());
            lemma_remove_keeps_order(left, at);
            let now = after_draws(table, draws);
            let all = allocated(table, draws);
            assert(now == left.remove(at));
            assert(all == taken.push(left[at]));
            assert(has_position(left, left[at].position));
            assert(has_token(left, left[at].token_id));
            assert forall|i: int| 0 <= i < all.len() implies {
                let e = #[trigger] all[i];
                &&& has_position(table, e.position)
                &&& has_token(table, e.token_id)
                &&& !has_position(now, e.position)
                &&& !has_token(now, e.token_id)
            } by {
                if i < taken.len() {
                    assert(all[i] == taken[i]);
                }
            }
            assert forall|i: int, j: int| 0 <= i < j < all.len() implies all[i].position
                != all[j].position && all[i].token_id != all[j].token_id by {
                if j < taken.len() {
                    assert(all[i] == taken[i] && all[j] == taken[j]);
                } else {
                    assert(all[i] == taken[i]);
                    assert(all[j] == left[at]);
                }
            }
        }
    }
}

} // verus!
