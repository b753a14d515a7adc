//! Per-client input aggregation: each client owns a channel whose mouse
//! deltas accumulate between ticks and whose button flags hold the latest
//! observed level; `step` reduces all channels into one combined output with
//! equal weights and resets the delta fields (but not the button levels).
use vstd::prelude::*;
use vstd::arithmetic::div_mod::{lemma_div_by_multiple, lemma_div_is_ordered, lemma_div_pos_is_pos};
use vstd::seq_lib::{commutative_foldl, lemma_fold_left_permutation};

use crate::driver::Key;
use crate::weighted_average::{majority_value, mean_value, WeightedBool, WeightedMean};

verus! {

/// The fused input snapshot produced by one reduction step.
#[derive(Debug, PartialEq, Eq, Structural, Default)]
pub struct Output {
    pub mouse_delta_x: i32,
    pub mouse_delta_y: i32,
    pub mouse_left_button_down: bool,
    pub mouse_right_button_down: bool,
}

/// Mathematical model of one client's channel.
pub ghost struct ChannelModel {
    pub id: Seq<char>,
    pub delta_x: int,
    pub delta_y: int,
    pub left_button_down: bool,
    pub right_button_down: bool,
}

/// The state a client's channel starts in: no accumulated movement, both
/// buttons released.
pub open spec fn fresh_channel(id: Seq<char>) -> ChannelModel {
    ChannelModel { id, delta_x: 0, delta_y: 0, left_button_down: false, right_button_down: false }
}

/// Addition clamped to the `i32` range.
pub open spec fn sat_i32(v: int) -> int {
    if v < i32::MIN {
        i32::MIN as int
    } else if v > i32::MAX {
        i32::MAX as int
    } else {
        v
    }
}

/// One relative mouse contribution applied to a channel: deltas accumulate
/// (clamped to the `i32` range), button levels are replaced.
pub open spec fn moved_channel(c: ChannelModel, dx: int, dy: int, left: bool, right: bool) -> ChannelModel {
    ChannelModel {
        delta_x: sat_i32(c.delta_x + dx),
        delta_y: sat_i32(c.delta_y + dy),
        left_button_down: left,
        right_button_down: right,
        ..c
    }
}

/// A channel after a reduction step: deltas cleared, button levels kept.
pub open spec fn reset_channel(c: ChannelModel) -> ChannelModel {
    ChannelModel { delta_x: 0, delta_y: 0, ..c }
}

/// Whether some channel in `s` belongs to the client `id`.
pub open spec fn contains_id(s: Seq<ChannelModel>, id: Seq<char>) -> bool {
    exists|i: int| 0 <= i < s.len() && s[i].id == id
}

/// The index of the channel belonging to `id` (unique when the ids in `s`
/// are distinct).
pub open spec fn index_of_id(s: Seq<ChannelModel>, id: Seq<char>) -> int {
    choose|i: int| 0 <= i < s.len() && s[i].id == id
}

/// A relative mouse contribution routed to the channel of `id`: the existing
/// channel is updated, or a fresh one is created on first reference.
pub open spec fn apply_move(
    s: Seq<ChannelModel>,
    id: Seq<char>,
    dx: int,
    dy: int,
    left: bool,
    right: bool,
) -> Seq<ChannelModel> {
    if contains_id(s, id) {
        let i = index_of_id(s, id);
        s.update(i, moved_channel(s[i], dx, dy, left, right))
    } else {
        s.push(moved_channel(fresh_channel(id), dx, dy, left, right))
    }
}

/// Sum of the accumulated horizontal deltas of all channels.
pub open spec fn sum_delta_x(s: Seq<ChannelModel>) -> int {
    s.fold_left(0, |acc: int, c: ChannelModel| acc + c.delta_x)
}

/// Sum of the accumulated vertical deltas of all channels.
pub open spec fn sum_delta_y(s: Seq<ChannelModel>) -> int {
    s.fold_left(0, |acc: int, c: ChannelModel| acc + c.delta_y)
}

/// Number of channels whose left button is currently held down.
pub open spec fn count_left(s: Seq<ChannelModel>) -> int {
    s.fold_left(0, |acc: int, c: ChannelModel| acc + if c.left_button_down { 1int } else { 0int })
}

/// Number of channels whose right button is currently held down.
pub open spec fn count_right(s: Seq<ChannelModel>) -> int {
    s.fold_left(0, |acc: int, c: ChannelModel| acc + if c.right_button_down { 1int } else { 0int })
}

struct ChannelData {
    mouse_delta_x: i32,
    mouse_delta_y: i32,
    mouse_left_button_down: bool,
    mouse_right_button_down: bool,
}

impl ChannelData {
    fn new() -> (d: Self)
        ensures
            d.mouse_delta_x == 0,
            d.mouse_delta_y == 0,
            !d.mouse_left_button_down,
            !d.mouse_right_button_down,
    {
        ChannelData {
            mouse_delta_x: 0,
            mouse_delta_y: 0,
            mouse_left_button_down: false,
            mouse_right_button_down: false,
        }
    }
}

struct ClientEntry {
    id: String,
    data: ChannelData,
}

impl View for ClientEntry {
    type V = ChannelModel;

    closed spec fn view(&self) -> ChannelModel {
        ChannelModel {
            id: self.id@,
            delta_x: self.data.mouse_delta_x as int,
            delta_y: self.data.mouse_delta_y as int,
            left_button_down: self.data.mouse_left_button_down,
            right_button_down: self.data.mouse_right_button_down,
        }
    }
}

/// Collects the latest input of every client and reduces the channels into
/// one output per tick.
pub struct InputCombiner {
    channel_data: Vec<ClientEntry>,
}

impl View for InputCombiner {
    type V = Seq<ChannelModel>;

    closed spec fn view(&self) -> Seq<ChannelModel> {
        self.channel_data@.map_values(|e: ClientEntry| e@)
    }
}

/// A handle bound to one client's channel; every handle obtained for the
/// same client id addresses the same channel of the combiner.
pub struct InputChannel {
    id: String,
}

impl InputChannel {
    /// The id of the client this handle is bound to.
    pub closed spec fn client_id(&self) -> Seq<char> {
        self.id@
    }

    /// Key edges pass through unmerged: only one logical key stream is
    /// meaningful at a time, so the combiner records nothing for them.
    pub fn key_down(&mut self, _key: Key)
        ensures
            *final(self) == *old(self),
    {
    }

    /// See `key_down`: the released edge passes through unmerged as well.
    pub fn key_up(&mut self, _key: Key)
        ensures
            *final(self) == *old(self),
    {
    }

    /// Adds `delta_x`/`delta_y` to the client's accumulated movement (clamped
    /// to the `i32` range) and replaces its button levels with the latest
    /// observed values.
    pub fn mouse_move_relative(
        &self,
        combiner: &mut InputCombiner,
        delta_x: i32,
        delta_y: i32,
        left_button_down: bool,
        right_button_down: bool,
    )
        requires
            old(combiner).wf(),
        ensures
            final(combiner).wf(),
            final(combiner)@ == apply_move(
                old(combiner)@,
                self.client_id(),
                delta_x as int,
                delta_y as int,
                left_button_down,
                right_button_down,
            ),
    {
        let ghost s0 = combiner@;
        let mut i: usize = 0;
        while i < combiner.channel_data.len()
            invariant
                old(combiner).wf(),
                combiner == old(combiner),
                s0 == combiner@,
                i <= s0.len(),
                forall|j: int| 0 <= j < i ==> s0[j].id != self.id@,
            decreases s0.len() - i,
        {
            if combiner.channel_data[i].id == self.id {
                proof {
                    assert(s0[i as int].id == self.client_id());
                    assert(contains_id(s0, self.client_id()));
                    let k = index_of_id(s0, self.client_id());
                    assert(0 <= k < s0.len() && s0[k].id == self.client_id());
                    assert(k == i) by {
                        if k < i as int {
                            assert(s0[k].id != s0[i as int].id);
                        }
                        if k > i as int {
                            assert(s0[i as int].id != s0[k].id);
                        }
                    }
                }
                let e = &mut combiner.channel_data[i];
                e.data.mouse_delta_x = sat_add_i32(e.data.mouse_delta_x, delta_x);
                e.data.mouse_delta_y = sat_add_i32(e.data.mouse_delta_y, delta_y);
                e.data.mouse_left_button_down = left_button_down;
                e.data.mouse_right_button_down = right_button_down;
                proof {
                    assert(combiner@ =~= apply_move(
                        s0,
                        self.client_id(),
                        delta_x as int,
                        delta_y as int,
                        left_button_down,
                        right_button_down,
                    ));
                }
                return;
            }
            i += 1;
        }
        proof {
            assert(!contains_id(s0, self.client_id()));
        }
        let data = ChannelData {
            mouse_delta_x: delta_x,
            mouse_delta_y: delta_y,
            mouse_left_button_down: left_button_down,
            mouse_right_button_down: right_button_down,
        };
        combiner.channel_data.push(ClientEntry { id: self.id.clone(), data });
        proof {
            assert(combiner@ =~= apply_move(
                s0,
                self.client_id(),
                delta_x as int,
                delta_y as int,
                left_button_down,
                right_button_down,
            ));
        }
    }
}

impl InputCombiner {
    /// The ids of all channels are distinct, so each client owns exactly one
    /// channel.
    pub closed spec fn wf(&self) -> bool {
        forall|i: int, j: int| 0 <= i < j < self@.len() ==> self@[i].id != self@[j].id
    }

    pub fn new() -> (c: Self)
        ensures
            c.wf(),
            c@ == Seq::<ChannelModel>::empty(),
    {
        let c = InputCombiner { channel_data: Vec::new() };
        proof {
            assert(c@ =~= Seq::<ChannelModel>::empty());
        }
        c
    }

    /// Returns a handle bound to the channel of `id`, creating the channel on
    /// first reference. Handles obtained for the same id alias the same
    /// channel.
    pub fn channel(&mut self, id: &str) -> (ch: InputChannel)
        requires
            old(self).wf(),
        ensures
            final(self).wf(),
            ch.client_id() == id@,
            contains_id(final(self)@, id@),
            contains_id(old(self)@, id@) ==> final(self)@ == old(self)@,
            !contains_id(old(self)@, id@) ==> final(self)@ == old(self)@.push(fresh_channel(id@)),
    {
        let ghost s0 = self@;
        let key: String = id.to_owned();
        let mut i: usize = 0;
        while i < self.channel_data.len()
            invariant
                old(self).wf(),
                self == old(self),
                s0 == self@,
                key@ == id@,
                i <= s0.len(),
                forall|j: int| 0 <= j < i ==> s0[j].id != id@,
            decreases s0.len() - i,
        {
            if self.channel_data[i].id == key {
                proof {
                    assert(s0[i as int].id == id@);
                    assert(contains_id(s0, id@));
                }
                return InputChannel { id: key };
            }
            i += 1;
        }
        proof {
            assert(!contains_id(s0, id@));
        }
        self.channel_data.push(ClientEntry { id: key.clone(), data: ChannelData::new() });
        proof {
            assert(self@ =~= s0.push(fresh_channel(id@)));
            assert(self@[s0.len() as int].id == id@);
        }
        InputChannel { id: key }
    }

    /// Reduces all channels into one output: the mouse deltas are the
    /// equal-weight mean of the per-client deltas (rounded toward zero), the
    /// buttons a majority vote over the per-client levels (a tie resolves to
    /// down). Afterwards every channel's deltas are cleared while its button
    /// levels persist; with no clients the zero/false default is returned.
    pub fn step(&mut self) -> (out: Output)
        requires
            old(self).wf(),
        ensures
            final(self).wf(),
            final(self)@ == old(self)@.map_values(|c: ChannelModel| reset_channel(c)),
            out.mouse_delta_x as int == mean_value(sum_delta_x(old(self)@), old(self)@.len() as int),
            out.mouse_delta_y as int == mean_value(sum_delta_y(old(self)@), old(self)@.len() as int),
            out.mouse_left_button_down == majority_value(count_left(old(self)@), old(self)@.len() as int),
            out.mouse_right_button_down == majority_value(count_right(old(self)@), old(self)@.len() as int),
    {
        let ghost s0 = self@;
        let n = self.channel_data.len();
        let mut avg_mouse_delta_x = WeightedMean::new(n as u64);
        let mut avg_mouse_delta_y = WeightedMean::new(n as u64);
        let mut mouse_left_button_down = WeightedBool::new(n as u64);
        let mut mouse_right_button_down = WeightedBool::new(n as u64);

        let mut i: usize = 0;
        while i < self.channel_data.len()
            invariant
                i <= s0.len(),
                n == s0.len(),
                self.channel_data@.len() == s0.len(),
                forall|j: int| 0 <= j < i ==> #[trigger] self.channel_data@[j]@ == reset_channel(s0[j]),
                forall|j: int| i <= j < s0.len() ==> #[trigger] self.channel_data@[j]@ == s0[j],
                avg_mouse_delta_x.total() == s0.len(),
                avg_mouse_delta_y.total() == s0.len(),
                mouse_left_button_down.total() == s0.len(),
                mouse_right_button_down.total() == s0.len(),
                avg_mouse_delta_x.sum() == sum_delta_x(s0.take(i as int)),
                avg_mouse_delta_y.sum() == sum_delta_y(s0.take(i as int)),
                mouse_left_button_down.true_weight() == count_left(s0.take(i as int)),
                mouse_right_button_down.true_weight() == count_right(s0.take(i as int)),
                -(i as int) * 0x8000_0000 <= avg_mouse_delta_x.sum() <= (i as int) * 0x7FFF_FFFF,
                -(i as int) * 0x8000_0000 <= avg_mouse_delta_y.sum() <= (i as int) * 0x7FFF_FFFF,
                0 <= mouse_left_button_down.true_weight() <= i,
                0 <= mouse_right_button_down.true_weight() <= i,
            decreases s0.len() - i,
        {
            proof {
                lemma_reductions_take_step(s0, i as int);
                assert(self.channel_data@[i as int]@ == s0[i as int]);
            }
            let dx = self.channel_data[i].data.mouse_delta_x;
            let dy = self.channel_data[i].data.mouse_delta_y;
            let lb = self.channel_data[i].data.mouse_left_button_down;
            let rb = self.channel_data[i].data.mouse_right_button_down;
            avg_mouse_delta_x.add(dx as i64, 1);
            avg_mouse_delta_y.add(dy as i64, 1);
            mouse_left_button_down.add(lb, 1);
            mouse_right_button_down.add(rb, 1);
            let e = &mut self.channel_data[i];
            e.data.mouse_delta_x = 0;
            e.data.mouse_delta_y = 0;
            proof {
                assert(self.channel_data@[i as int]@ == reset_channel(s0[i as int]));
            }
            i += 1;
        }
        proof {
            assert(s0.take(s0.len() as int) =~= s0);
            assert(self@ =~= s0.map_values(|c: ChannelModel| reset_channel(c)));
            if n > 0 {
                lemma_mean_fits_i32(sum_delta_x(s0), s0.len() as int);
                lemma_mean_fits_i32(sum_delta_y(s0), s0.len() as int);
            }
        }
        let out_x = avg_mouse_delta_x.compute();
        let out_y = avg_mouse_delta_y.compute();
        Output {
            mouse_delta_x: out_x as i32,
            mouse_delta_y: out_y as i32,
            mouse_left_button_down: mouse_left_button_down.compute(),
            mouse_right_button_down: mouse_right_button_down.compute(),
        }
    }
}

/// Addition on `i32`, saturating at the ends of the range.
fn sat_add_i32(a: i32, b: i32) -> (r: i32)
    ensures
        r as int == sat_i32(a + b),
{
    match a.checked_add(b) {
        Some(v) => v,
        None => if b > 0 {
            i32::MAX
        } else {
            i32::MIN
        },
    }
}

/// Extending each reduction by the next channel adds exactly that channel's
/// contribution.
proof fn lemma_reductions_take_step(s: Seq<ChannelModel>, i: int)
    requires
        0 <= i < s.len(),
    ensures
        sum_delta_x(s.take(i + 1)) == sum_delta_x(s.take(i)) + s[i].delta_x,
        sum_delta_y(s.take(i + 1)) == sum_delta_y(s.take(i)) + s[i].delta_y,
        count_left(s.take(i + 1)) == count_left(s.take(i)) + if s[i].left_button_down { 1int } else { 0int },
        count_right(s.take(i + 1)) == count_right(s.take(i)) + if s[i].right_button_down { 1int } else { 0int },
{
    let t = s.take(i + 1);
    assert(t.drop_last() =~= s.take(i));
    assert(t.last() == s[i]);
}

/// An equal-weight mean of values from the `i32` range stays in the `i32`
/// range.
proof fn lemma_mean_fits_i32(sum: int, n: int)
    requires
        n > 0,
        -n * 0x8000_0000 <= sum <= n * 0x7FFF_FFFF,
    ensures
        i32::MIN <= mean_value(sum, n) <= i32::MAX,
{
    if sum >= 0 {
        lemma_div_pos_is_pos(sum, n);
        lemma_div_is_ordered(sum, n * 0x7FFF_FFFF, n);
        lemma_div_by_multiple(0x7FFF_FFFF, n);
        assert((0x7FFF_FFFF * n) / n == 0x7FFF_FFFF);
        assert(n * 0x7FFF_FFFF == 0x7FFF_FFFF * n) by (nonlinear_arith);
    } else {
        lemma_div_pos_is_pos(-sum, n);
        lemma_div_is_ordered(-sum, n * 0x8000_0000, n);
        lemma_div_by_multiple(0x8000_0000, n);
        assert((0x8000_0000 * n) / n == 0x8000_0000);
        assert(n * 0x8000_0000 == 0x8000_0000 * n) by (nonlinear_arith);
    }
}

/// The combined output of a reduction step does not depend on the order in
/// which the clients' channels stand in the combiner: any permutation of the
/// channels yields the same sums and the same majority counts.
pub proof fn lemma_step_order_independent(s1: Seq<ChannelModel>, s2: Seq<ChannelModel>)
    requires
        s1.to_multiset() == s2.to_multiset(),
    ensures
        sum_delta_x(s1) == sum_delta_x(s2),
        sum_delta_y(s1) == sum_delta_y(s2),
        count_left(s1) == count_left(s2),
        count_right(s1) == count_right(s2),
{
    let fx = |acc: int, c: ChannelModel| acc + c.delta_x;
    let fy = |acc: int, c: ChannelModel| acc + c.delta_y;
    let fl = |acc: int, c: ChannelModel| acc + if c.left_button_down { 1int } else { 0int };
    let fr = |acc: int, c: ChannelModel| acc + if c.right_button_down { 1int } else { 0int };
    assert(commutative_foldl(fx));
    assert(commutative_foldl(fy));
    assert(commutative_foldl(fl));
    assert(commutative_foldl(fr));
    lemma_fold_left_permutation(s1, s2, fx, 0);
    lemma_fold_left_permutation(s1, s2, fy, 0);
    lemma_fold_left_permutation(s1, s2, fl, 0);
    lemma_fold_left_permutation(s1, s2, fr, 0);
}

} // verus!
