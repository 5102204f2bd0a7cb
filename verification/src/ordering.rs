//! Orders on records, and a stable sort by them.

use vstd::prelude::*;
use vstd::string::*;
use crate::data::{models, MapRecord, RecordModel};

verus! {

/// Whether `a`, read from position `i` on, comes before `b` or equals it,
/// character by character; a text comes before every text that continues it.
pub open spec fn name_le_from(a: Seq<char>, b: Seq<char>, i: nat) -> bool
    decreases a.len() - i,
{
    if i >= a.len() {
        true
    } else if i >= b.len() {
        false
    } else if a[i as int] != b[i as int] {
        (a[i as int] as int) < (b[i as int] as int)
    } else {
        name_le_from(a, b, i + 1)
    }
}

/// The lexicographic order on names: the order of `String`.
pub open spec fn name_le(a: Seq<char>, b: Seq<char>) -> bool {
    name_le_from(a, b, 0)
}

/// Of two names, one comes before the other or they are in both orders.
pub proof fn name_le_total(a: Seq<char>, b: Seq<char>, i: nat)
    ensures
        name_le_from(a, b, i) || name_le_from(b, a, i),
    decreases a.len() - i,
{
    if i < a.len() && i < b.len() {
        if a[i as int] == b[i as int] {
            name_le_total(a, b, i + 1);
        }
    }
}

/// The order on names is transitive.
pub proof fn name_le_transitive(a: Seq<char>, b: Seq<char>, c: Seq<char>, i: nat)
    requires
        name_le_from(a, b, i),
        name_le_from(b, c, i),
    ensures
        name_le_from(a, c, i),
    decreases a.len() - i,
{
    if i < a.len() && a[i as int] == b[i as int] && b[i as int] == c[i as int] {
        name_le_transitive(a, b, c, i + 1);
    }
}

/// Two names that are in both orders agree from the position on: the order
/// on names ties no two different names.
pub proof fn name_le_antisymmetric(a: Seq<char>, b: Seq<char>, i: nat)
    requires
        name_le_from(a, b, i),
        name_le_from(b, a, i),
        i <= a.len(),
        i <= b.len(),
    ensures
        a.skip(i as int) == b.skip(i as int),
    decreases a.len() - i,
{
    if i < a.len() {
        name_le_antisymmetric(a, b, i + 1);
        assert(b.skip(i as int) =~= seq![b[i as int]] + b.skip(i as int + 1));
    }
}

/// Whether the name `a` comes before the name `b` or equals it.
pub fn name_precedes(a: &str, b: &str) -> (r: bool)
    ensures
        r == name_le(a@, b@),
{
    let n: usize = a.unicode_len();
    let m: usize = b.unicode_len();
    let mut i: usize = 0;
    while i < n && i < m
        invariant
            i <= n,
            i <= m,
            n == a@.len(),
            m == b@.len(),
            name_le(a@, b@) == name_le_from(a@, b@, i as nat),
        decreases n - i,
    {
        let x: char = a.get_char(i);
        let y: char = b.get_char(i);
        if x != y {
            return (x as u32) < (y as u32);
        }
        i += 1;
    }
    i >= n
}

/// An order in which records are listed.
#[derive(Clone, Copy, Debug, PartialEq, Eq, Structural)]
pub enum Order {
    /// By `created_at`, the oldest first.
    OldestFirst,
    /// By `created_at`, the newest first.
    NewestFirst,
    /// By name, lexicographically.
    ByName,
}

impl Order {
    /// Whether `a` may stand before `b`: it comes first in the order, or
    /// the order ties the two.
    pub open spec fn precedes(self, a: RecordModel, b: RecordModel) -> bool {
        match self {
            Order::OldestFirst => a.created_at <= b.created_at,
            Order::NewestFirst => a.created_at >= b.created_at,
            Order::ByName => name_le(a.name, b.name),
        }
    }

    /// Whether the order ties `a` and `b`.
    pub open spec fn ties(self, a: RecordModel, b: RecordModel) -> bool {
        self.precedes(a, b) && self.precedes(b, a)
    }

    /// Whether a list is in this order.
    pub open spec fn sorts(self, list: Seq<RecordModel>) -> bool {
        forall|i: int, j: int| 0 <= i < j < list.len() ==> self.precedes(list[i], list[j])
    }

    /// The records of a list that the order ties with `x`, in the list's
    /// order.
    pub open spec fn peers(self, list: Seq<RecordModel>, x: RecordModel) -> Seq<RecordModel> {
        list.filter(|r: RecordModel| self.ties(x, r))
    }

    /// The place of `r` in a sorted list: behind the last record that may
    /// stand before it.
    pub open spec fn slot(self, sorted: Seq<RecordModel>, r: RecordModel) -> int
        decreases sorted.len(),
    {
        if sorted.len() == 0 {
            0
        } else if self.precedes(sorted.last(), r) {
            sorted.len() as int
        } else {
            self.slot(sorted.drop_last(), r)
        }
    }

    /// A list put into this order, records that the order ties staying in
    /// the order in which the list has them: each record in turn takes its
    /// place among those before it.
    pub open spec fn arranged(self, list: Seq<RecordModel>) -> Seq<RecordModel>
        decreases list.len(),
    {
        if list.len() == 0 {
            list
        } else {
            let head = self.arranged(list.drop_last());
            head.insert(self.slot(head, list.last()), list.last())
        }
    }

    /// Every order is total.
    pub proof fn total(self, a: RecordModel, b: RecordModel)
        ensures
            self.precedes(a, b) || self.precedes(b, a),
    {
        name_le_total(a.name, b.name, 0);
    }

    /// Every order is transitive.
    pub proof fn transitive(self, a: RecordModel, b: RecordModel, c: RecordModel)
        requires
            self.precedes(a, b),
            self.precedes(b, c),
        ensures
            self.precedes(a, c),
    {
        if self == Order::ByName {
            name_le_transitive(a.name, b.name, c.name, 0);
        }
    }

    /// Where a slot lies: inside the list, behind a record that may stand
    /// before `r` (or at the front), and before none that may.
    pub proof fn slot_bounds(self, sorted: Seq<RecordModel>, r: RecordModel)
        ensures
            0 <= self.slot(sorted, r) <= sorted.len(),
            self.slot(sorted, r) > 0 ==> self.precedes(sorted[self.slot(sorted, r) - 1], r),
            forall|j: int|
                self.slot(sorted, r) <= j < sorted.len() ==> !self.precedes(#[trigger] sorted[j], r),
        decreases sorted.len(),
    {
        if sorted.len() > 0 && !self.precedes(sorted.last(), r) {
            let rest = sorted.drop_last();
            self.slot_bounds(rest, r);
            assert forall|j: int| self.slot(sorted, r) <= j < sorted.len() implies !self.precedes(
                #[trigger] sorted[j],
                r,
            ) by {
                if j < rest.len() {
                    assert(sorted[j] == rest[j]);
                }
            }
        }
    }

    /// Putting a record into its slot keeps a sorted list sorted.
    pub proof fn insert_keeps_sorted(self, sorted: Seq<RecordModel>, r: RecordModel)
        requires
            self.sorts(sorted),
        ensures
            self.sorts(sorted.insert(self.slot(sorted, r), r)),
    {
        let k = self.slot(sorted, r);
        let out = sorted.insert(k, r);
        self.slot_bounds(sorted, r);
        assert forall|i: int, j: int| 0 <= i < j < out.len() implies self.precedes(
            out[i],
            out[j],
        ) by {
            if j == k {
                // out[i] is sorted[i], before the slot
                if i < k - 1 {
                    self.transitive(sorted[i], sorted[k - 1], r);
                }
            } else if i == k {
                // out[j] is sorted[j - 1], behind the slot
                self.total(sorted[j - 1], r);
            }
        }
    }

    /// Putting a record into its slot adds it behind the records that the
    /// order ties with it, and leaves the records tied with any other in
    /// their order.
    pub proof fn insert_keeps_peers(
        self,
        sorted: Seq<RecordModel>,
        source: Seq<RecordModel>,
        r: RecordModel,
        x: RecordModel,
    )
        requires
            self.peers(sorted, x) == self.peers(source, x),
        ensures
            self.peers(sorted.insert(self.slot(sorted, r), r), x) == self.peers(source.push(r), x),
    {
        let k = self.slot(sorted, r);
        let pred = |e: RecordModel| self.ties(x, e);
        let front = sorted.subrange(0, k);
        let back = sorted.subrange(k, sorted.len() as int);
        self.slot_bounds(sorted, r);
        assert(sorted =~= front + back);
        Seq::filter_distributes_over_add(front, back, pred);
        Seq::filter_distributes_over_add(front.push(r), back, pred);
        front.lemma_filter_push(r, pred);
        source.lemma_filter_push(r, pred);
        if self.ties(x, r) {
            assert forall|e: RecordModel| back.contains(e) implies !pred(e) by {
                if self.ties(x, e) {
                    self.transitive(e, x, r);
                }
            }
            assert(back.all(|e: RecordModel| !pred(e))) by {
                assert forall|i: int| 0 <= i < back.len() implies !pred(#[trigger] back[i]) by {
                    assert(back.contains(back[i]));
                }
            }
            back.lemma_all_neg_filter_empty(pred);
            assert(front.filter(pred).push(r) + back.filter(pred) =~= (front.filter(pred)
                + back.filter(pred)).push(r));
        }
    }

    /// What `arranged` yields, said directly: the list is in this order; it
    /// holds the same records as often as the list it was made from; and
    /// the records tied with any one record keep the order that they had.
    pub proof fn arranged_is_stable_sort(self, list: Seq<RecordModel>)
        ensures
            self.sorts(self.arranged(list)),
            self.arranged(list).len() == list.len(),
            self.arranged(list).to_multiset() == list.to_multiset(),
            forall|x: RecordModel| #[trigger]
                self.peers(self.arranged(list), x) == self.peers(list, x),
        decreases list.len(),
    {
        broadcast use vstd::seq_lib::to_multiset_insert, vstd::seq_lib::to_multiset_build;

        if list.len() > 0 {
            let rest = list.drop_last();
            let r = list.last();
            let head = self.arranged(rest);
            self.arranged_is_stable_sort(rest);
            self.slot_bounds(head, r);
            self.insert_keeps_sorted(head, r);
            assert(list =~= rest.push(r));
            assert forall|x: RecordModel| #[trigger]
                self.peers(self.arranged(list), x) == self.peers(list, x) by {
                self.insert_keeps_peers(head, rest, r, x);
            }
        }
    }

    /// The last record of a list is the last of the records tied with it.
    pub proof fn last_is_last_peer(self, list: Seq<RecordModel>, x: RecordModel)
        requires
            list.len() > 0,
            self.ties(x, list.last()),
        ensures
            self.peers(list, x).len() > 0,
            self.peers(list, x).last() == list.last(),
    {
        let pred = |r: RecordModel| self.ties(x, r);
        assert(list =~= list.drop_last().push(list.last()));
        list.drop_last().lemma_filter_push(list.last(), pred);
    }

    /// Two lists in this order in which, for every record, the records tied
    /// with it are the same and stand in the same order, are one list. So
    /// `arranged` is the only stable sort.
    pub proof fn stable_sort_is_unique(self, a: Seq<RecordModel>, b: Seq<RecordModel>)
        requires
            self.sorts(a),
            self.sorts(b),
            forall|x: RecordModel| #[trigger] self.peers(a, x) == self.peers(b, x),
        ensures
            a == b,
        decreases a.len(),
    {
        if a.len() == 0 {
            if b.len() > 0 {
                let y = b.last();
                self.total(y, y);
                self.last_is_last_peer(b, y);
                assert(self.peers(a, y).len() == 0) by {
                    reveal(Seq::filter);
                }
            }
        } else {
            let x = a.last();
            self.total(x, x);
            self.last_is_last_peer(a, x);
            if b.len() == 0 {
                assert(self.peers(b, x).len() == 0) by {
                    reveal(Seq::filter);
                }
            }
            let y = b.last();
            self.total(y, y);
            self.last_is_last_peer(b, y);
            // y stands in a, so it may stand before x, the last record of a
            assert(self.peers(a, y).contains(y));
            a.lemma_filter_contains_rev(|r: RecordModel| self.ties(y, r), y);
            // x stands in b, so it may stand before y, the last record of b
            assert(self.peers(b, x).contains(x));
            b.lemma_filter_contains_rev(|r: RecordModel| self.ties(x, r), x);
            // the two are tied, each is the last of the other's peers: x is y
            self.last_is_last_peer(b, x);
            let short_a = a.drop_last();
            let short_b = b.drop_last();
            assert(a =~= short_a.push(x));
            assert(b =~= short_b.push(x));
            assert forall|z: RecordModel| #[trigger]
                self.peers(short_a, z) == self.peers(short_b, z) by {
                let pred = |r: RecordModel| self.ties(z, r);
                short_a.lemma_filter_push(x, pred);
                short_b.lemma_filter_push(x, pred);
                if self.ties(z, x) {
                    assert(self.peers(short_a, z) =~= self.peers(a, z).drop_last());
                }
            }
            self.stable_sort_is_unique(short_a, short_b);
        }
    }

    /// A list that is in this order already is left as it is.
    pub proof fn arranged_fixes_sorted(self, list: Seq<RecordModel>)
        requires
            self.sorts(list),
        ensures
            self.arranged(list) == list,
        decreases list.len(),
    {
        if list.len() > 0 {
            let rest = list.drop_last();
            self.arranged_fixes_sorted(rest);
        }
    }

    /// Arranging twice is arranging once.
    pub proof fn arranged_is_idempotent(self, list: Seq<RecordModel>)
        ensures
            self.arranged(self.arranged(list)) == self.arranged(list),
    {
        self.arranged_is_stable_sort(list);
        self.arranged_fixes_sorted(self.arranged(list));
    }

    /// Whether the record `a` may stand before the record `b`.
    pub fn stands_before(self, a: &MapRecord, b: &MapRecord) -> (r: bool)
        ensures
            r == self.precedes(a@, b@),
    {
        match self {
            Order::OldestFirst => a.created_at <= b.created_at,
            Order::NewestFirst => a.created_at >= b.created_at,
            Order::ByName => name_precedes(a.name.as_str(), b.name.as_str()),
        }
    }

    /// Sorts records into this order; records that the order ties stay in
    /// the order in which they came.
    pub fn sort(self, records: &Vec<MapRecord>) -> (out: Vec<MapRecord>)
        ensures
            models(out@) == self.arranged(models(records@)),
            self.sorts(models(out@)),
            models(out@).to_multiset() == models(records@).to_multiset(),
            forall|x: RecordModel| #[trigger]
                self.peers(models(out@), x) == self.peers(models(records@), x),
    {
        let mut out: Vec<MapRecord> = Vec::new();
        let mut i: usize = 0;
        while i < records.len()
            invariant
                i <= records.len(),
                models(out@) == self.arranged(models(records@).take(i as int)),
            decreases records.len() - i,
        {
            let record = records[i].clone();
            let ghost head = models(out@);
            let ghost before = models(records@).take(i as int);
            let mut k: usize = out.len();
            assert(head.take(k as int) =~= head);
            while k > 0 && !self.stands_before(&out[k - 1], &record)
                invariant
                    k <= out.len(),
                    head == models(out@),
                    self.slot(head, record@) == self.slot(head.take(k as int), record@),
                decreases k,
            {
                assert(head.take(k as int).drop_last() =~= head.take(k - 1));
                k -= 1;
            }
            proof {
                self.arranged_is_stable_sort(before);
            }
            out.insert(k, record);
            proof {
                let grown = models(records@).take(i + 1);
                assert(grown.drop_last() =~= before);
            }
            i += 1;
        }
        proof {
            assert(models(records@).take(records.len() as int) =~= models(records@));
            self.arranged_is_stable_sort(models(records@));
        }
        out
    }
}

} // verus!
