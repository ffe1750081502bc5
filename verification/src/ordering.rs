//! The order in which device records are shown.

use vstd::prelude::*;
use vstd::seq_lib::{to_multiset_insert, to_multiset_remove};
use crate::device::{views, BluetoothDevice, DeviceView};
use crate::text::{
    lemma_text_order_total, lemma_text_order_transitive, same_text, text_before, text_precedes,
};

verus! {

/// The rule that orders device records. One name is pinned to the top of
/// the list; the policy holds it so that it can be replaced.
#[derive(Debug, PartialEq, Eq)]
pub struct OrderingPolicy {
    pub preferred_name: String,
}

/// Two records that the order cannot tell apart: same flags, same name.
pub open spec fn same_rank(a: DeviceView, b: DeviceView) -> bool {
    a.connected == b.connected && a.paired == b.paired && a.name == b.name
}

/// The test that picks the records of the rank of `r`.
pub open spec fn of_rank(r: DeviceView) -> spec_fn(DeviceView) -> bool {
    |d: DeviceView| same_rank(d, r)
}

/// What an `OrderingPolicy` holds, as mathematical values. The order
/// itself is defined on this view.
pub struct PolicyView {
    pub preferred_name: Seq<char>,
}

impl View for OrderingPolicy {
    type V = PolicyView;

    open spec fn view(&self) -> PolicyView {
        PolicyView { preferred_name: self.preferred_name@ }
    }
}

impl PolicyView {
    /// The policy of the panel: it pins the name `WF-C700`.
    pub open spec fn standard() -> PolicyView {
        PolicyView { preferred_name: "WF-C700"@ }
    }

    /// Whether `d` carries the pinned name.
    pub open spec fn prefers(self, d: DeviceView) -> bool {
        d.name == self.preferred_name
    }

    /// Whether `a` is shown strictly before `b`: the pinned name first,
    /// then connected devices, then paired ones, then by name.
    pub open spec fn before(self, a: DeviceView, b: DeviceView) -> bool {
        if self.prefers(a) != self.prefers(b) {
            self.prefers(a)
        } else if a.connected != b.connected {
            a.connected
        } else if a.paired != b.paired {
            a.paired
        } else {
            text_before(a.name, b.name)
        }
    }

    /// Whether no record of `s` stands behind one that it should precede.
    pub open spec fn is_ordered(self, s: Seq<DeviceView>) -> bool {
        forall|i: int, j: int| 0 <= i < j < s.len() ==> !self.before(s[j], s[i])
    }

    /// `s` with `d` put behind the last record that `d` does not precede.
    pub open spec fn placed(self, s: Seq<DeviceView>, d: DeviceView) -> Seq<DeviceView>
        decreases s.len(),
    {
        if s.len() > 0 && self.before(d, s.last()) {
            self.placed(s.drop_last(), d).push(s.last())
        } else {
            s.push(d)
        }
    }

    /// The records of `s` in display order. Records of the same rank keep
    /// the order they had in `s`.
    pub open spec fn sorted(self, s: Seq<DeviceView>) -> Seq<DeviceView>
        decreases s.len(),
    {
        if s.len() == 0 {
            s
        } else {
            self.placed(self.sorted(s.drop_last()), s.last())
        }
    }
}

impl OrderingPolicy {
    /// A policy that pins `preferred_name` to the top.
    pub fn new(preferred_name: String) -> (policy: Self)
        ensures
            policy@ == (PolicyView { preferred_name: preferred_name@ }),
    {
        OrderingPolicy { preferred_name }
    }

    /// Whether `a` is shown strictly before `b`.
    pub fn comes_before(&self, a: &BluetoothDevice, b: &BluetoothDevice) -> (first: bool)
        ensures
            first == self@.before(a@, b@),
    {
        let a_pinned = same_text(a.name.as_str(), self.preferred_name.as_str());
        let b_pinned = same_text(b.name.as_str(), self.preferred_name.as_str());
        if a_pinned != b_pinned {
            a_pinned
        } else if a.connected != b.connected {
            a.connected
        } else if a.paired != b.paired {
            a.paired
        } else {
            text_precedes(a.name.as_str(), b.name.as_str())
        }
    }

    /// Puts `devices` into display order, in place. The result holds the
    /// same records, none stands behind a record that it should precede,
    /// and records of the same rank keep their order. A list that is in
    /// order already is left as it is.
    pub fn sort(&self, devices: &mut Vec<BluetoothDevice>)
        ensures
            views(final(devices)@) == self@.sorted(views(old(devices)@)),
            self@.is_ordered(views(final(devices)@)),
            final(devices)@.to_multiset() == old(devices)@.to_multiset(),
            self@.is_ordered(views(old(devices)@)) ==> final(devices)@ == old(devices)@,
    {
        let ghost input = devices@;
        let mut i: usize = 0;
        while i < devices.len()
            invariant
                i <= input.len(),
                devices@.len() == input.len(),
                views(devices@.take(i as int)) == self@.sorted(views(input.take(i as int))),
                devices@.skip(i as int) == input.skip(i as int),
                devices@.to_multiset() == input.to_multiset(),
                self@.is_ordered(views(input)) ==> devices@ == input,
            decreases input.len() - i,
        {
            let ghost before_step = devices@;
            let ghost head = devices@.take(i as int);
            let d = devices.remove(i);
            let mut pos: usize = i;
            while pos > 0 && self.comes_before(&d, &devices[pos - 1])
                invariant
                    pos <= i,
                    i < input.len(),
                    devices@ == before_step.remove(i as int),
                    before_step.len() == input.len(),
                    head == before_step.take(i as int),
                    forall|k: int| pos <= k < i ==> self@.before(d@, #[trigger] head[k]@),
                decreases pos,
            {
                pos -= 1;
            }
            devices.insert(pos, d);
            proof {
                broadcast use vstd::multiset::group_multiset_axioms;

                assert(d == input[i as int]) by {
                    assert(before_step.skip(i as int)[0] == input.skip(i as int)[0]);
                }
                self@.lemma_placed_at(views(head), d@, pos as int);
                assert(views(input.take(i + 1)).drop_last() == views(input.take(i as int)));
                let tail = devices@.skip(i + 1);
                let rest = input.skip(i + 1);
                assert forall|k: int| 0 <= k < rest.len() implies #[trigger] tail[k] == rest[k] by {
                    assert(before_step.skip(i as int)[k + 1] == input.skip(i as int)[k + 1]);
                }
                to_multiset_remove(before_step, i as int);
                to_multiset_insert(before_step.remove(i as int), pos as int, d);
                before_step.to_multiset_ensures();
                assert(before_step.to_multiset().count(d) > 0);
                if self@.is_ordered(views(input)) {
                    if pos < i {
                        assert(head[pos as int] == input[pos as int]);
                        assert(self@.before(views(input)[i as int], views(input)[pos as int]));
                    }
                }
            }
            i += 1;
        }
        proof {
            assert(devices@.take(i as int) == devices@);
            assert(input.take(i as int) == input);
            self@.lemma_sorted_is_ordered(views(input));
        }
    }
}

impl PolicyView {
    /// Putting `d` at `pos` is what `placed` does when `d` precedes every
    /// record from `pos` on and not the record just before `pos`.
    proof fn lemma_placed_at(self, s: Seq<DeviceView>, d: DeviceView, pos: int)
        requires
            0 <= pos <= s.len(),
            forall|k: int| pos <= k < s.len() ==> self.before(d, s[k]),
            pos > 0 ==> !self.before(d, s[pos - 1]),
        ensures
            self.placed(s, d) == s.insert(pos, d),
        decreases s.len(),
    {
        if pos == s.len() {
        } else {
            self.lemma_placed_at(s.drop_last(), d, pos);
        }
    }

    /// The place that `placed` picks.
    proof fn lemma_place_exists(self, s: Seq<DeviceView>, d: DeviceView) -> (pos: int)
        ensures
            0 <= pos <= s.len(),
            forall|k: int| pos <= k < s.len() ==> self.before(d, s[k]),
            pos > 0 ==> !self.before(d, s[pos - 1]),
        decreases s.len(),
    {
        if s.len() > 0 && self.before(d, s.last()) {
            let pos = self.lemma_place_exists(s.drop_last(), d);
            assert forall|k: int| pos <= k < s.len() implies self.before(d, s[k]) by {
                if k < s.len() - 1 {
                    assert(s.drop_last()[k] == s[k]);
                }
            }
            pos
        } else {
            s.len() as int
        }
    }

    /// Placing a record into an ordered sequence leaves it ordered, and
    /// adds that record and no other.
    proof fn lemma_placed_is_ordered(self, s: Seq<DeviceView>, d: DeviceView)
        requires
            self.is_ordered(s),
        ensures
            self.is_ordered(self.placed(s, d)),
            self.placed(s, d).len() == s.len() + 1,
            self.placed(s, d).to_multiset() == s.to_multiset().insert(d),
    {
        let pos = self.lemma_place_exists(s, d);
        self.lemma_placed_at(s, d, pos);
        let out = s.insert(pos, d);
        to_multiset_insert(s, pos, d);
        assert forall|i: int, j: int| 0 <= i < j < out.len() implies !self.before(
            out[j],
            out[i],
        ) by {
            if j == pos {
                if i < pos - 1 {
                    self.lemma_not_before_transitive(s[i], s[pos - 1], d);
                }
            } else if i == pos {
                self.lemma_before_asymmetric(d, out[j]);
            }
        }
    }

    /// No record comes before itself.
    pub proof fn lemma_before_irreflexive(self, a: DeviceView)
        ensures
            !self.before(a, a),
    {
        lemma_text_order_total(a.name, a.name);
    }

    /// Of two records at most one comes before the other.
    pub proof fn lemma_before_asymmetric(self, a: DeviceView, b: DeviceView)
        ensures
            !(self.before(a, b) && self.before(b, a)),
    {
        lemma_text_order_total(a.name, b.name);
    }

    /// The order is transitive.
    pub proof fn lemma_before_transitive(self, a: DeviceView, b: DeviceView, c: DeviceView)
        requires
            self.before(a, b),
            self.before(b, c),
        ensures
            self.before(a, c),
    {
        if text_before(a.name, b.name) && text_before(b.name, c.name) {
            lemma_text_order_transitive(a.name, b.name, c.name);
        }
    }

    /// The order is total: it leaves two records unordered exactly when
    /// they have the same flags and the same name.
    pub proof fn lemma_before_total(self, a: DeviceView, b: DeviceView)
        ensures
            (!self.before(a, b) && !self.before(b, a)) <==> same_rank(a, b),
    {
        lemma_text_order_total(a.name, b.name);
    }

    /// Not coming before is transitive too: where `b` is not before `a`
    /// and `c` is not before `b`, `c` is not before `a`.
    pub proof fn lemma_not_before_transitive(self, a: DeviceView, b: DeviceView, c: DeviceView)
        requires
            !self.before(b, a),
            !self.before(c, b),
        ensures
            !self.before(c, a),
    {
        if self.before(c, a) {
            self.lemma_before_total(a, b);
            self.lemma_before_total(b, c);
            if self.before(a, b) {
                self.lemma_before_transitive(c, a, b);
            } else if self.before(b, c) {
                self.lemma_before_transitive(b, c, a);
            } else {
                self.lemma_before_total(a, c);
            }
        }
    }

    /// Sorting yields an ordered sequence of the same length.
    pub proof fn lemma_sorted_is_ordered(self, s: Seq<DeviceView>)
        ensures
            self.is_ordered(self.sorted(s)),
            self.sorted(s).len() == s.len(),
        decreases s.len(),
    {
        if s.len() > 0 {
            self.lemma_sorted_is_ordered(s.drop_last());
            self.lemma_placed_is_ordered(self.sorted(s.drop_last()), s.last());
        }
    }

    /// Sorting neither drops nor invents a record.
    pub proof fn lemma_sorted_is_permutation(self, s: Seq<DeviceView>)
        ensures
            self.sorted(s).to_multiset() == s.to_multiset(),
        decreases s.len(),
    {
        if s.len() > 0 {
            self.lemma_sorted_is_permutation(s.drop_last());
            self.lemma_sorted_is_ordered(s.drop_last());
            self.lemma_placed_is_ordered(self.sorted(s.drop_last()), s.last());
            assert(s.drop_last().push(s.last()) == s);
            s.drop_last().to_multiset_ensures();
        }
    }

    /// Sorting a sequence that is in order already changes nothing.
    pub proof fn lemma_sorted_keeps_ordered(self, s: Seq<DeviceView>)
        requires
            self.is_ordered(s),
        ensures
            self.sorted(s) == s,
        decreases s.len(),
    {
        if s.len() > 0 {
            self.lemma_sorted_keeps_ordered(s.drop_last());
        }
    }

    /// Sorting twice is sorting once.
    pub proof fn lemma_sorted_idempotent(self, s: Seq<DeviceView>)
        ensures
            self.sorted(self.sorted(s)) == self.sorted(s),
    {
        self.lemma_sorted_is_ordered(s);
        self.lemma_sorted_keeps_ordered(self.sorted(s));
    }

    /// In an ordered sequence every record with the pinned name stands
    /// before every record without it, whatever their flags.
    pub proof fn lemma_pinned_before_others(self, s: Seq<DeviceView>, i: int, j: int)
        requires
            self.is_ordered(s),
            0 <= i < j < s.len(),
            self.prefers(s[j]),
        ensures
            self.prefers(s[i]),
    {
        assert(!self.before(s[j], s[i]));
    }

    /// Where some record carries the pinned name, the sorted sequence
    /// starts with such a record.
    pub proof fn lemma_pinned_sorts_first(self, s: Seq<DeviceView>, k: int)
        requires
            0 <= k < s.len(),
            self.prefers(s[k]),
        ensures
            self.sorted(s).len() == s.len(),
            self.prefers(self.sorted(s)[0]),
    {
        let out = self.sorted(s);
        self.lemma_sorted_is_ordered(s);
        self.lemma_sorted_is_permutation(s);
        s.to_multiset_ensures();
        out.to_multiset_ensures();
        assert(out.to_multiset().count(s[k]) > 0);
        let j = choose|j: int| 0 <= j < out.len() && out[j] == s[k];
        if j > 0 {
            self.lemma_pinned_before_others(out, 0, j);
        }
    }

    /// Placing a record puts it behind the records of its own rank.
    proof fn lemma_placed_keeps_rank_order(self, s: Seq<DeviceView>, d: DeviceView, r: DeviceView)
        ensures
            self.placed(s, d).filter(of_rank(r)) == if same_rank(d, r) {
                s.filter(of_rank(r)).push(d)
            } else {
                s.filter(of_rank(r))
            },
        decreases s.len(),
    {
        reveal(Seq::filter);
        if s.len() > 0 && self.before(d, s.last()) {
            let shorter = self.placed(s.drop_last(), d);
            self.lemma_placed_keeps_rank_order(s.drop_last(), d, r);
            assert(shorter.push(s.last()).drop_last() == shorter);
            if same_rank(d, r) && same_rank(s.last(), r) {
                self.lemma_before_total(d, s.last());
            }
        } else {
            assert(s.push(d).drop_last() == s);
        }
    }

    /// Sorting is stable: the records of any one rank come out in the
    /// order in which they went in.
    pub proof fn lemma_sorted_is_stable(self, s: Seq<DeviceView>, r: DeviceView)
        ensures
            self.sorted(s).filter(of_rank(r)) == s.filter(of_rank(r)),
        decreases s.len(),
    {
        reveal(Seq::filter);
        if s.len() > 0 {
            self.lemma_sorted_is_stable(s.drop_last(), r);
            self.lemma_placed_keeps_rank_order(self.sorted(s.drop_last()), s.last(), r);
        }
    }
}

impl Default for OrderingPolicy {
    fn default() -> (policy: Self)
        ensures
            policy@ == PolicyView::standard(),
    {
        OrderingPolicy { preferred_name: "WF-C700".to_string() }
    }
}

impl Clone for OrderingPolicy {
    fn clone(&self) -> (copy: Self)
        ensures
            copy == *self,
    {
        OrderingPolicy { preferred_name: self.preferred_name.clone() }
    }
}

} // verus!
