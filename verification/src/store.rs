use vstd::prelude::*;
use crate::entry::{ClipboardItem, ClipboardFilter, spec_matches_filter};
use vstd::multiset::Multiset;
use crate::errors::StoreError;

verus! {

// ---------------------------------------------------------------------------
// The display order: pinned first, then favorite, then newest first.
// ---------------------------------------------------------------------------

/// `a` may stand at or before `b` in a returned list.
pub open spec fn entry_le(a: ClipboardItem, b: ClipboardItem) -> bool {
    if a.pinned != b.pinned {
        a.pinned
    } else if a.favorite != b.favorite {
        a.favorite
    } else {
        a.timestamp >= b.timestamp
    }
}

/// Every pair of positions respects the display order.
pub open spec fn sorted_entries(s: Seq<ClipboardItem>) -> bool {
    forall|i: int, j: int|
        0 <= i < j < s.len() ==> entry_le(#[trigger] s[i], #[trigger] s[j])
}

/// Insertion of `x` into `s` after every element at or before it; keeps a
/// sorted sequence sorted and is stable.
pub open spec fn insert_sorted_entry(s: Seq<ClipboardItem>, x: ClipboardItem) -> Seq<
    ClipboardItem,
>
    decreases s.len(),
{
    if s.len() > 0 && entry_le(s[0], x) {
        seq![s[0]] + insert_sorted_entry(s.drop_first(), x)
    } else {
        seq![x] + s
    }
}

/// Stable insertion sort of `s` under the display order.
pub open spec fn sort_entries(s: Seq<ClipboardItem>) -> Seq<ClipboardItem>
    decreases s.len(),
{
    if s.len() == 0 {
        Seq::empty()
    } else {
        insert_sorted_entry(sort_entries(s.drop_last()), s.last())
    }
}

proof fn lemma_insert_sorted_entry_at(s: Seq<ClipboardItem>, x: ClipboardItem, i: int)
    requires
        0 <= i <= s.len(),
        forall|j: int| 0 <= j < i ==> entry_le(#[trigger] s[j], x),
        i < s.len() ==> !entry_le(s[i], x),
    ensures
        insert_sorted_entry(s, x) == s.insert(i, x),
    decreases i,
{
    if i == 0 {
        assert(insert_sorted_entry(s, x) =~= s.insert(0, x));
    } else {
        assert(entry_le(s[0], x));
        assert(forall|j: int|
            0 <= j < i - 1 ==> entry_le(#[trigger] s.drop_first()[j], x)) by {
            assert(forall|j: int| 0 <= j < i - 1 ==> s.drop_first()[j] == s[j + 1]);
        }
        lemma_insert_sorted_entry_at(s.drop_first(), x, i - 1);
        assert(seq![s[0]] + s.drop_first().insert(i - 1, x) =~= s.insert(i, x));
    }
}

proof fn lemma_insert_sorted_entry_elems(s: Seq<ClipboardItem>, x: ClipboardItem)
    ensures
        insert_sorted_entry(s, x).len() == s.len() + 1,
        forall|k: int|
            0 <= k < insert_sorted_entry(s, x).len() ==> (#[trigger] insert_sorted_entry(s, x)[k]
                == x || s.contains(insert_sorted_entry(s, x)[k])),
    decreases s.len(),
{
    if s.len() > 0 && entry_le(s[0], x) {
        lemma_insert_sorted_entry_elems(s.drop_first(), x);
        let r = insert_sorted_entry(s, x);
        let rr = insert_sorted_entry(s.drop_first(), x);
        assert forall|k: int| 0 <= k < r.len() implies (#[trigger] r[k] == x || s.contains(
            r[k],
        )) by {
            if k == 0 {
                assert(s.contains(s[0]));
            } else {
                assert(r[k] == rr[k - 1]);
                if rr[k - 1] != x {
                    let m = choose|m: int|
                        0 <= m < s.drop_first().len() && s.drop_first()[m] == rr[k - 1];
                    assert(s[m + 1] == rr[k - 1]);
                }
            }
        }
    }
}

proof fn lemma_insert_sorted_entry_sorted(s: Seq<ClipboardItem>, x: ClipboardItem)
    requires
        sorted_entries(s),
    ensures
        sorted_entries(insert_sorted_entry(s, x)),
    decreases s.len(),
{
    let r = insert_sorted_entry(s, x);
    if s.len() > 0 && entry_le(s[0], x) {
        assert(sorted_entries(s.drop_first())) by {
            assert(forall|i: int, j: int|
                0 <= i < j < s.drop_first().len() ==> #[trigger] s.drop_first()[i]
                    == s[i + 1] && #[trigger] s.drop_first()[j] == s[j + 1]);
        }
        lemma_insert_sorted_entry_sorted(s.drop_first(), x);
        lemma_insert_sorted_entry_elems(s.drop_first(), x);
        let rr = insert_sorted_entry(s.drop_first(), x);
        assert forall|i: int, j: int| 0 <= i < j < r.len() implies entry_le(
            #[trigger] r[i],
            #[trigger] r[j],
        ) by {
            if i == 0 {
                assert(r[j] == rr[j - 1]);
                if rr[j - 1] == x {
                } else {
                    let m = choose|m: int|
                        0 <= m < s.drop_first().len() && s.drop_first()[m] == rr[j - 1];
                    assert(s[m + 1] == rr[j - 1]);
                    assert(entry_le(s[0], s[m + 1]));
                }
            } else {
                assert(r[i] == rr[i - 1] && r[j] == rr[j - 1]);
            }
        }
    } else {
        assert forall|i: int, j: int| 0 <= i < j < r.len() implies entry_le(
            #[trigger] r[i],
            #[trigger] r[j],
        ) by {
            if i == 0 {
                assert(r[j] == s[j - 1]);
                if s.len() > 0 {
                    assert(!entry_le(s[0], x));
                    assert(entry_le(x, s[0]));
                    if j > 1 {
                        assert(entry_le(s[0], s[j - 1]));
                    }
                }
            } else {
                assert(r[i] == s[i - 1] && r[j] == s[j - 1]);
            }
        }
    }
}

proof fn lemma_insert_sorted_entry_multiset(s: Seq<ClipboardItem>, x: ClipboardItem)
    ensures
        insert_sorted_entry(s, x).to_multiset() =~= s.to_multiset().insert(x),
    decreases s.len(),
{
    broadcast use vstd::seq_lib::group_to_multiset_ensures;

    if s.len() > 0 && entry_le(s[0], x) {
        lemma_insert_sorted_entry_multiset(s.drop_first(), x);
        let rr = insert_sorted_entry(s.drop_first(), x);
        vstd::seq_lib::lemma_multiset_commutative(seq![s[0]], rr);
        vstd::seq_lib::lemma_multiset_commutative(seq![s[0]], s.drop_first());
        assert(seq![s[0]] + s.drop_first() =~= s);
        assert(seq![s[0]].to_multiset() =~= Multiset::empty().insert(s[0])) by {
            assert(seq![s[0]] =~= Seq::empty().push(s[0]));
        }
    } else {
        vstd::seq_lib::lemma_multiset_commutative(seq![x], s);
        assert(seq![x].to_multiset() =~= Multiset::empty().insert(x)) by {
            assert(seq![x] =~= Seq::empty().push(x));
        }
    }
}

/// What the display sort guarantees: the result is a reordering of the input
/// and every pair of positions respects the order.
pub proof fn lemma_sort_entries_ensures(s: Seq<ClipboardItem>)
    ensures
        sort_entries(s).len() == s.len(),
        sort_entries(s).to_multiset() =~= s.to_multiset(),
        sorted_entries(sort_entries(s)),
    decreases s.len(),
{
    broadcast use vstd::seq_lib::group_to_multiset_ensures;

    if s.len() > 0 {
        lemma_sort_entries_ensures(s.drop_last());
        lemma_insert_sorted_entry_elems(sort_entries(s.drop_last()), s.last());
        lemma_insert_sorted_entry_sorted(sort_entries(s.drop_last()), s.last());
        lemma_insert_sorted_entry_multiset(sort_entries(s.drop_last()), s.last());
        assert(s.drop_last().push(s.last()) =~= s);
    }
}

fn entry_le_exec(a: &ClipboardItem, b: &ClipboardItem) -> (r: bool)
    ensures
        r == entry_le(*a, *b),
{
    if a.pinned != b.pinned {
        a.pinned
    } else if a.favorite != b.favorite {
        a.favorite
    } else {
        a.timestamp >= b.timestamp
    }
}

fn insert_sorted(v: &mut Vec<ClipboardItem>, x: ClipboardItem)
    ensures
        final(v)@ == insert_sorted_entry(old(v)@, x),
{
    let mut i: usize = 0;
    while i < v.len() && entry_le_exec(&v[i], &x)
        invariant
            0 <= i <= v@.len(),
            v@ == old(v)@,
            forall|j: int| 0 <= j < i ==> entry_le(#[trigger] v@[j], x),
        decreases v@.len() - i,
    {
        i = i + 1;
    }
    proof {
        lemma_insert_sorted_entry_at(v@, x, i as int);
    }
    v.insert(i, x);
}

/// The input entries in display order.
pub fn sort_items(input: &Vec<ClipboardItem>) -> (r: Vec<ClipboardItem>)
    ensures
        r@ == sort_entries(input@),
{
    let mut out: Vec<ClipboardItem> = Vec::new();
    let mut i: usize = 0;
    while i < input.len()
        invariant
            0 <= i <= input@.len(),
            out@ == sort_entries(input@.take(i as int)),
        decreases input@.len() - i,
    {
        let item = input[i].duplicate();
        proof {
            assert(input@.take(i + 1).drop_last() =~= input@.take(i as int));
            assert(input@.take(i + 1).last() == input@[i as int]);
        }
        insert_sorted(&mut out, item);
        i = i + 1;
    }
    proof {
        assert(input@.take(input@.len() as int) =~= input@);
    }
    out
}

} // verus!

verus! {

// ---------------------------------------------------------------------------
// Filtering.
// ---------------------------------------------------------------------------

/// Whether an entry passes an optional filter; no filter passes everything.
pub open spec fn passes(item: ClipboardItem, filter: Option<ClipboardFilter>) -> bool {
    match filter {
        Some(f) => spec_matches_filter(item, f),
        None => true,
    }
}

/// The filter predicate as a function value.
pub open spec fn filter_pred(filter: Option<ClipboardFilter>) -> spec_fn(ClipboardItem) -> bool {
    |e: ClipboardItem| passes(e, filter)
}

/// The ghost value of an optional borrowed filter.
pub open spec fn deref_filter(filter: Option<&ClipboardFilter>) -> Option<ClipboardFilter> {
    match filter {
        Some(f) => Some(*f),
        None => None,
    }
}

/// The entries that pass the filter, in store order.
pub open spec fn filtered_seq(
    s: Seq<ClipboardItem>,
    filter: Option<ClipboardFilter>,
) -> Seq<ClipboardItem> {
    s.filter(filter_pred(filter))
}

// ---------------------------------------------------------------------------
// Identifier lookup and capacity-based eviction, at the spec level.
// ---------------------------------------------------------------------------

/// No two entries share an identifier.
pub open spec fn unique_ids(s: Seq<ClipboardItem>) -> bool {
    forall|i: int, j: int|
        0 <= i < j < s.len() ==> (#[trigger] s[i]).id@ != (#[trigger] s[j]).id@
}

/// Some entry carries this identifier.
pub open spec fn has_id(s: Seq<ClipboardItem>, id: Seq<char>) -> bool {
    exists|i: int| 0 <= i < s.len() && (#[trigger] s[i]).id@ == id
}

/// The position of the entry with this identifier (unique when ids are).
pub open spec fn id_index(s: Seq<ClipboardItem>, id: Seq<char>) -> int {
    choose|i: int| 0 <= i < s.len() && (#[trigger] s[i]).id@ == id
}

/// Insertion semantics of the store: an existing identifier is replaced in
/// place, a new one is appended.
pub open spec fn insert_by_id(s: Seq<ClipboardItem>, item: ClipboardItem) -> Seq<ClipboardItem> {
    if has_id(s, item.id@) {
        s.update(id_index(s, item.id@), item)
    } else {
        s.push(item)
    }
}

/// Only entries that are neither pinned nor favorite may be evicted.
pub open spec fn spec_evictable(e: ClipboardItem) -> bool {
    !e.pinned && !e.favorite
}

/// Some entry of the sequence may be evicted.
pub open spec fn has_evictable(s: Seq<ClipboardItem>) -> bool {
    exists|i: int| 0 <= i < s.len() && spec_evictable(#[trigger] s[i])
}

/// The eviction step after an insertion: over capacity and with an eligible
/// entry present, exactly one eligible entry of minimal timestamp leaves;
/// otherwise the sequence is kept, even above capacity.
pub open spec fn evicted_step(
    mid: Seq<ClipboardItem>,
    max_items: int,
    out: Seq<ClipboardItem>,
) -> bool {
    if mid.len() > max_items && has_evictable(mid) {
        exists|k: int|
            0 <= k < mid.len() && spec_evictable(#[trigger] mid[k]) && (forall|j: int|
                0 <= j < mid.len() && spec_evictable(#[trigger] mid[j]) ==> mid[k].timestamp
                    <= mid[j].timestamp) && out == mid.remove(k)
    } else {
        out == mid
    }
}

/// Everything `add_item` does to the entries.
pub open spec fn add_item_post(
    pre: Seq<ClipboardItem>,
    item: ClipboardItem,
    max_items: int,
    out: Seq<ClipboardItem>,
) -> bool {
    evicted_step(insert_by_id(pre, item), max_items, out)
}

proof fn lemma_id_index_unique(s: Seq<ClipboardItem>, id: Seq<char>, i: int)
    requires
        unique_ids(s),
        0 <= i < s.len(),
        s[i].id@ == id,
    ensures
        has_id(s, id),
        id_index(s, id) == i,
{
    assert(has_id(s, id));
    let k = id_index(s, id);
    assert(0 <= k < s.len() && s[k].id@ == id);
    if k < i {
        assert(s[k].id@ != s[i].id@);
    } else if k > i {
        assert(s[i].id@ != s[k].id@);
    }
}

// ---------------------------------------------------------------------------
// Pagination, at the spec level.
// ---------------------------------------------------------------------------

/// The slice `[min(offset, len), min(offset + limit, len))` of a list.
pub open spec fn page_of(s: Seq<ClipboardItem>, offset: int, limit: int) -> Seq<ClipboardItem> {
    let start = if offset <= s.len() {
        offset
    } else {
        s.len() as int
    };
    let end = if start + limit <= s.len() {
        start + limit
    } else {
        s.len() as int
    };
    s.subrange(start, end)
}

/// The concatenation of the pages of `s` from `offset` on, with a fixed
/// positive page size.
pub open spec fn concat_pages(s: Seq<ClipboardItem>, offset: int, limit: int) -> Seq<
    ClipboardItem,
>
    decreases s.len() - offset,
{
    if offset < 0 || offset >= s.len() || limit <= 0 {
        Seq::empty()
    } else {
        page_of(s, offset, limit) + concat_pages(
            s,
            if offset + limit <= s.len() {
                offset + limit
            } else {
                s.len() as int
            },
            limit,
        )
    }
}

proof fn lemma_pages_reassemble_from(s: Seq<ClipboardItem>, offset: int, limit: int)
    requires
        0 <= offset <= s.len(),
        limit > 0,
    ensures
        concat_pages(s, offset, limit) == s.skip(offset),
    decreases s.len() - offset,
{
    if offset >= s.len() {
        assert(s.skip(offset) =~= Seq::empty());
    } else {
        let next = if offset + limit <= s.len() {
            offset + limit
        } else {
            s.len() as int
        };
        lemma_pages_reassemble_from(s, next, limit);
        assert(page_of(s, offset, limit) + s.skip(next) =~= s.skip(offset));
    }
}

/// Paged reads at offsets 0, limit, 2·limit, … with a fixed positive page
/// size reassemble the underlying list exactly.
pub proof fn lemma_pages_reassemble(s: Seq<ClipboardItem>, limit: int)
    requires
        limit > 0,
    ensures
        concat_pages(s, 0, limit) == s,
{
    lemma_pages_reassemble_from(s, 0, limit);
    assert(s.skip(0) =~= s);
}

} // verus!

verus! {

// ---------------------------------------------------------------------------
// The bounded clipboard-history store.
// ---------------------------------------------------------------------------

/// In-memory clipboard history with a configured soft capacity. Persistence
/// of the entries and of the capacity lives with the caller, who writes the
/// state out after every mutation.
pub struct Storage {
    items: Vec<ClipboardItem>,
    max_items: usize,
}

impl View for Storage {
    type V = Seq<ClipboardItem>;

    closed spec fn view(&self) -> Seq<ClipboardItem> {
        self.items@
    }
}

impl Storage {
    /// The configured soft capacity.
    pub closed spec fn spec_max_items(&self) -> usize {
        self.max_items
    }

    /// The store invariant: identifiers are unique.
    pub open spec fn wf(&self) -> bool {
        unique_ids(self@)
    }

    /// An empty store with the given capacity.
    pub fn new(max_items: usize) -> (r: Self)
        ensures
            r@ =~= Seq::<ClipboardItem>::empty(),
            r.spec_max_items() == max_items,
            r.wf(),
    {
        Storage { items: Vec::new(), max_items }
    }

    fn find_index(&self, id: &str) -> (r: Option<usize>)
        ensures
            match r {
                Some(i) => 0 <= i < self@.len() && self@[i as int].id@ == id@,
                None => !has_id(self@, id@),
            },
    {
        let mut i: usize = 0;
        while i < self.items.len()
            invariant
                0 <= i <= self@.len(),
                forall|j: int| 0 <= j < i ==> (#[trigger] self@[j]).id@ != id@,
            decreases self@.len() - i,
        {
            if crate::text::str_eq(self.items[i].id.as_str(), id) {
                return Some(i);
            }
            i = i + 1;
        }
        None
    }

    /// A borrow of the entry with this identifier, when one exists.
    pub fn get_item(&self, id: &str) -> (r: Option<&ClipboardItem>)
        requires
            self.wf(),
        ensures
            match r {
                Some(item) => has_id(self@, id@) && *item == self@[id_index(self@, id@)],
                None => !has_id(self@, id@),
            },
    {
        match self.find_index(id) {
            Some(i) => {
                proof {
                    lemma_id_index_unique(self@, id@, i as int);
                }
                Some(&self.items[i])
            },
            None => None,
        }
    }

    /// Inserts or replaces by identifier, then applies the eviction step:
    /// over capacity with an eligible entry present, the oldest entry that is
    /// neither pinned nor favorite leaves; with none eligible the store
    /// tolerates the overflow.
    pub fn add_item(&mut self, item: ClipboardItem)
        requires
            old(self).wf(),
        ensures
            final(self).wf(),
            final(self).spec_max_items() == old(self).spec_max_items(),
            add_item_post(
                old(self)@,
                item,
                old(self).spec_max_items() as int,
                final(self)@,
            ),
            ({
                let mid = insert_by_id(old(self)@, item);
                final(self)@.len() == if mid.len() > old(self).spec_max_items()
                    && has_evictable(mid) {
                    mid.len() - 1
                } else {
                    mid.len() as int
                }
            }),
    {
        let ghost pre = self@;
        match self.find_index(item.id.as_str()) {
            Some(i) => {
                proof {
                    lemma_id_index_unique(pre, item.id@, i as int);
                }
                let ghost the_id = item.id@;
                self.items[i] = item;
                proof {
                    assert(self.items@ =~= insert_by_id(pre, self.items@[i as int]));
                    assert forall|a: int, b: int| 0 <= a < b < self.items@.len() implies (
                    #[trigger] self.items@[a]).id@ != (#[trigger] self.items@[b]).id@ by {
                        assert(self.items@[a].id@ == pre[a].id@);
                        assert(self.items@[b].id@ == pre[b].id@);
                    }
                }
            },
            None => {
                self.items.push(item);
                proof {
                    assert forall|a: int, b: int| 0 <= a < b < self.items@.len() implies (
                    #[trigger] self.items@[a]).id@ != (#[trigger] self.items@[b]).id@ by {
                        if b == self.items@.len() - 1 {
                            assert(pre[a] == self.items@[a]);
                        }
                    }
                }
            },
        }
        let ghost mid = self.items@;
        assert(mid == insert_by_id(pre, item));
        assert(unique_ids(mid));
        if self.items.len() > self.max_items {
            let mut best: Option<usize> = None;
            let mut j: usize = 0;
            while j < self.items.len()
                invariant
                    0 <= j <= self.items@.len(),
                    self.items@ == mid,
                    match best {
                        Some(b) => 0 <= b < j && spec_evictable(mid[b as int]) && (forall|t: int|
                            0 <= t < j && spec_evictable(#[trigger] mid[t]) ==> mid[
                                b as int
                            ].timestamp <= mid[t].timestamp),
                        None => forall|t: int| 0 <= t < j ==> !spec_evictable(#[trigger] mid[t]),
                    },
                decreases self.items@.len() - j,
            {
                let pinned = self.items[j].pinned;
                let favorite = self.items[j].favorite;
                if !pinned && !favorite {
                    match best {
                        None => {
                            best = Some(j);
                        },
                        Some(b) => {
                            if self.items[j].timestamp < self.items[b].timestamp {
                                best = Some(j);
                            }
                        },
                    }
                }
                j = j + 1;
            }
            match best {
                Some(b) => {
                    self.items.remove(b);
                    proof {
                        assert(self.items@ == mid.remove(b as int));
                        assert forall|a: int, c: int| 0 <= a < c < self.items@.len() implies (
                        #[trigger] self.items@[a]).id@ != (#[trigger] self.items@[c]).id@ by {
                            let a2 = if a < b { a } else { a + 1 };
                            let c2 = if c < b { c } else { c + 1 };
                            assert(self.items@[a] == mid[a2]);
                            assert(self.items@[c] == mid[c2]);
                        }
                    }
                },
                None => {
                    proof {
                        assert(!has_evictable(mid));
                    }
                },
            }
        }
    }

    /// Replaces the entry with the argument's identifier; fails when absent.
    pub fn update_item(&mut self, item: ClipboardItem) -> (r: Result<(), StoreError>)
        requires
            old(self).wf(),
        ensures
            final(self).wf(),
            final(self).spec_max_items() == old(self).spec_max_items(),
            r is Ok <==> has_id(old(self)@, item.id@),
            r is Ok ==> final(self)@ == old(self)@.update(
                id_index(old(self)@, item.id@),
                item,
            ),
            r is Err ==> final(self)@ == old(self)@ && r == Err::<(), StoreError>(
                StoreError::NotFound,
            ),
    {
        let ghost pre = self@;
        match self.find_index(item.id.as_str()) {
            Some(i) => {
                proof {
                    lemma_id_index_unique(pre, item.id@, i as int);
                }
                self.items[i] = item;
                proof {
                    assert forall|a: int, b: int| 0 <= a < b < self.items@.len() implies (
                    #[trigger] self.items@[a]).id@ != (#[trigger] self.items@[b]).id@ by {
                        assert(self.items@[a].id@ == pre[a].id@);
                        assert(self.items@[b].id@ == pre[b].id@);
                    }
                }
                Ok(())
            },
            None => Err(StoreError::NotFound),
        }
    }

    /// Removes the entry with this identifier; fails when absent.
    pub fn remove_item(&mut self, id: &str) -> (r: Result<(), StoreError>)
        requires
            old(self).wf(),
        ensures
            final(self).wf(),
            final(self).spec_max_items() == old(self).spec_max_items(),
            r is Ok <==> has_id(old(self)@, id@),
            r is Ok ==> final(self)@ == old(self)@.remove(id_index(old(self)@, id@)),
            r is Err ==> final(self)@ == old(self)@ && r == Err::<(), StoreError>(
                StoreError::NotFound,
            ),
    {
        let ghost pre = self@;
        match self.find_index(id) {
            Some(i) => {
                proof {
                    lemma_id_index_unique(pre, id@, i as int);
                }
                self.items.remove(i);
                proof {
                    assert forall|a: int, c: int| 0 <= a < c < self.items@.len() implies (
                    #[trigger] self.items@[a]).id@ != (#[trigger] self.items@[c]).id@ by {
                        let a2 = if a < i { a } else { a + 1 };
                        let c2 = if c < i { c } else { c + 1 };
                        assert(self.items@[a] == pre[a2]);
                        assert(self.items@[c] == pre[c2]);
                    }
                }
                Ok(())
            },
            None => Err(StoreError::NotFound),
        }
    }

    /// Replaces an entry's text and unconditionally clears the cached
    /// translation and summary; every other field is kept.
    pub fn edit_item_content(&mut self, id: &str, new_content: String) -> (r: Result<
        (),
        StoreError,
    >)
        requires
            old(self).wf(),
        ensures
            final(self).wf(),
            final(self).spec_max_items() == old(self).spec_max_items(),
            r is Ok <==> has_id(old(self)@, id@),
            r is Err ==> final(self)@ == old(self)@ && r == Err::<(), StoreError>(
                StoreError::NotFound,
            ),
            r is Ok ==> ({
                let i = id_index(old(self)@, id@);
                let pre = old(self)@[i];
                let post = final(self)@[i];
                &&& final(self)@ == old(self)@.update(i, post)
                &&& post.id == pre.id
                &&& post.content == new_content
                &&& post.timestamp == pre.timestamp
                &&& post.favorite == pre.favorite
                &&& post.pinned == pre.pinned
                &&& post.category == pre.category
                &&& post.translation is None
                &&& post.summary is None
                &&& post.ai_analysis_count == pre.ai_analysis_count
            }),
    {
        let ghost pre_seq = self@;
        match self.find_index(id) {
            Some(i) => {
                proof {
                    lemma_id_index_unique(pre_seq, id@, i as int);
                }
                let existing = self.items[i].duplicate();
                let updated = ClipboardItem {
                    id: existing.id,
                    content: new_content,
                    timestamp: existing.timestamp,
                    favorite: existing.favorite,
                    pinned: existing.pinned,
                    category: existing.category,
                    translation: None,
                    summary: None,
                    ai_analysis_count: existing.ai_analysis_count,
                };
                self.items[i] = updated;
                proof {
                    assert forall|a: int, b: int| 0 <= a < b < self.items@.len() implies (
                    #[trigger] self.items@[a]).id@ != (#[trigger] self.items@[b]).id@ by {
                        assert(self.items@[a].id@ == pre_seq[a].id@);
                        assert(self.items@[b].id@ == pre_seq[b].id@);
                    }
                }
                Ok(())
            },
            None => Err(StoreError::NotFound),
        }
    }

    /// Empties the store.
    pub fn clear_all(&mut self)
        ensures
            final(self)@ =~= Seq::<ClipboardItem>::empty(),
            final(self).wf(),
            final(self).spec_max_items() == old(self).spec_max_items(),
    {
        self.items.clear();
    }

    /// Sets the soft capacity, clamped to at most 4000.
    pub fn set_max_items(&mut self, max_items: usize)
        ensures
            final(self)@ == old(self)@,
            final(self).spec_max_items() == if max_items <= 4000 {
                max_items
            } else {
                4000
            },
    {
        self.max_items = if max_items > 4000 {
            4000
        } else {
            max_items
        };
    }

    /// The configuration boundary for the capacity: values below 10 are
    /// rejected, accepted values are clamped as `set_max_items` does.
    pub fn set_max_items_checked(&mut self, max_items: usize) -> (r: Result<(), StoreError>)
        ensures
            final(self)@ == old(self)@,
            r is Ok <==> max_items >= 10,
            r is Err ==> final(self).spec_max_items() == old(self).spec_max_items() && r
                == Err::<(), StoreError>(StoreError::Validation),
            r is Ok ==> final(self).spec_max_items() == if max_items <= 4000 {
                max_items
            } else {
                4000
            },
    {
        if max_items < 10 {
            return Err(StoreError::Validation);
        }
        self.set_max_items(max_items);
        Ok(())
    }

    /// The configured soft capacity.
    pub fn get_max_items(&self) -> (r: usize)
        ensures
            r == self.spec_max_items(),
    {
        self.max_items
    }

    /// Every entry, in display order.
    pub fn get_all_items(&self) -> (r: Vec<ClipboardItem>)
        ensures
            r@ == sort_entries(self@),
            sorted_entries(r@),
            r@.to_multiset() =~= self@.to_multiset(),
            r@.len() == self@.len(),
    {
        let r = sort_items(&self.items);
        proof {
            lemma_sort_entries_ensures(self.items@);
        }
        r
    }
}

} // verus!

verus! {

impl Storage {
    fn filtered_vec(&self, filter: Option<&ClipboardFilter>) -> (r: Vec<ClipboardItem>)
        ensures
            r@ == filtered_seq(self@, deref_filter(filter)),
    {
        let ghost pred = filter_pred(deref_filter(filter));
        let mut out: Vec<ClipboardItem> = Vec::new();
        let mut i: usize = 0;
        while i < self.items.len()
            invariant
                0 <= i <= self.items@.len(),
                out@ == self.items@.take(i as int).filter(filter_pred(deref_filter(filter))),
            decreases self.items@.len() - i,
        {
            let keep = match filter {
                Some(f) => self.items[i].matches_filter(f),
                None => true,
            };
            proof {
                reveal(Seq::filter);
                assert(self.items@.take(i + 1).drop_last() =~= self.items@.take(i as int));
                assert(self.items@.take(i + 1).last() == self.items@[i as int]);
            }
            if keep {
                out.push(self.items[i].duplicate());
            }
            i = i + 1;
        }
        proof {
            assert(self.items@.take(self.items@.len() as int) =~= self.items@);
        }
        out
    }

    /// The entries that pass the filter, in display order.
    pub fn get_filtered_items(&self, filter: &ClipboardFilter) -> (r: Vec<ClipboardItem>)
        ensures
            r@ == sort_entries(filtered_seq(self@, Some(*filter))),
            sorted_entries(r@),
            r@.to_multiset() =~= filtered_seq(self@, Some(*filter)).to_multiset(),
            forall|i: int| 0 <= i < r@.len() ==> spec_matches_filter(#[trigger] r@[i], *filter),
    {
        let kept = self.filtered_vec(Some(filter));
        let r = sort_items(&kept);
        proof {
            let fs = filtered_seq(self@, Some(*filter));
            lemma_sort_entries_ensures(fs);
            broadcast use vstd::seq_lib::group_to_multiset_ensures;

            assert forall|i: int| 0 <= i < r@.len() implies spec_matches_filter(
                #[trigger] r@[i],
                *filter,
            ) by {
                assert(r@.to_multiset().contains(r@[i]));
                assert(fs.to_multiset().contains(r@[i]));
                assert(fs.contains(r@[i]));
                let j = choose|j: int| 0 <= j < fs.len() && fs[j] == r@[i];
                self@.lemma_filter_pred(filter_pred(Some(*filter)), j);
            }
        }
        r
    }

    /// The number of entries that pass the filter.
    pub fn get_filtered_count(&self, filter: Option<&ClipboardFilter>) -> (r: usize)
        ensures
            r == filtered_seq(self@, deref_filter(filter)).len(),
    {
        let ghost pred = filter_pred(deref_filter(filter));
        let mut count: usize = 0;
        let mut i: usize = 0;
        while i < self.items.len()
            invariant
                0 <= i <= self.items@.len(),
                count == self.items@.take(i as int).filter(
                    filter_pred(deref_filter(filter)),
                ).len(),
                count <= i,
            decreases self.items@.len() - i,
        {
            let keep = match filter {
                Some(f) => self.items[i].matches_filter(f),
                None => true,
            };
            proof {
                reveal(Seq::filter);
                assert(self.items@.take(i + 1).drop_last() =~= self.items@.take(i as int));
                assert(self.items@.take(i + 1).last() == self.items@[i as int]);
            }
            if keep {
                count = count + 1;
            }
            i = i + 1;
        }
        proof {
            assert(self.items@.take(self.items@.len() as int) =~= self.items@);
        }
        count
    }

    /// The page `[min(offset, n), min(offset + limit, n))` of the filtered
    /// entries in display order, where `n` is the filtered length. An
    /// offset at or past the end yields an empty list, never an error.
    pub fn get_filtered_paged_items(
        &self,
        filter: Option<&ClipboardFilter>,
        offset: usize,
        limit: usize,
    ) -> (r: Vec<ClipboardItem>)
        ensures
            r@ == page_of(
                sort_entries(filtered_seq(self@, deref_filter(filter))),
                offset as int,
                limit as int,
            ),
            offset >= filtered_seq(self@, deref_filter(filter)).len() ==> r@ =~= Seq::<
                ClipboardItem,
            >::empty(),
            sorted_entries(r@),
    {
        let kept = self.filtered_vec(filter);
        let sorted = sort_items(&kept);
        proof {
            lemma_sort_entries_ensures(kept@);
        }
        let n = sorted.len();
        let start = if offset < n {
            offset
        } else {
            n
        };
        let take = if limit < n - start {
            limit
        } else {
            n - start
        };
        let mut out: Vec<ClipboardItem> = Vec::new();
        let mut k: usize = 0;
        while k < take
            invariant
                0 <= k <= take,
                n == sorted@.len(),
                start + take <= n,
                out@ == sorted@.subrange(start as int, start + k),
            decreases take - k,
        {
            out.push(sorted[start + k].duplicate());
            proof {
                assert(sorted@.subrange(start as int, start + k + 1) =~= sorted@.subrange(
                    start as int,
                    start + k,
                ).push(sorted@[start + k]));
            }
            k = k + 1;
        }
        proof {
            let full = sort_entries(filtered_seq(self@, deref_filter(filter)));
            assert(out@ =~= page_of(full, offset as int, limit as int));
        }
        out
    }
}

} // verus!

verus! {

/// Uniqueness of identifiers survives every insertion: whatever `add_item`
/// does to a store without duplicate identifiers — replacing in place,
/// appending, and possibly evicting one entry — the result carries no
/// duplicate identifier either. Together with the corresponding clauses of
/// `update_item`, `remove_item` and `clear_all`, no sequence of store
/// operations ever yields two entries with the same identifier.
pub proof fn lemma_add_preserves_unique_ids(
    pre: Seq<ClipboardItem>,
    item: ClipboardItem,
    max_items: int,
    post: Seq<ClipboardItem>,
)
    requires
        unique_ids(pre),
        add_item_post(pre, item, max_items, post),
    ensures
        unique_ids(post),
{
    let mid = insert_by_id(pre, item);
    if has_id(pre, item.id@) {
        let i = id_index(pre, item.id@);
        assert(0 <= i < pre.len() && pre[i].id@ == item.id@);
        assert forall|a: int, b: int| 0 <= a < b < mid.len() implies (#[trigger] mid[a]).id@ != (
        #[trigger] mid[b]).id@ by {
            assert(mid[a].id@ == pre[a].id@);
            assert(mid[b].id@ == pre[b].id@);
        }
    } else {
        assert forall|a: int, b: int| 0 <= a < b < mid.len() implies (#[trigger] mid[a]).id@ != (
        #[trigger] mid[b]).id@ by {
            if b == mid.len() - 1 {
                assert(mid[a] == pre[a]);
            }
        }
    }
    if mid.len() > max_items && has_evictable(mid) {
        let k = choose|k: int|
            0 <= k < mid.len() && spec_evictable(#[trigger] mid[k]) && (forall|j: int|
                0 <= j < mid.len() && spec_evictable(#[trigger] mid[j]) ==> mid[k].timestamp
                    <= mid[j].timestamp) && post == mid.remove(k);
        assert(post == mid.remove(k));
        assert forall|a: int, c: int| 0 <= a < c < post.len() implies (#[trigger] post[a]).id@
            != (#[trigger] post[c]).id@ by {
            let a2 = if a < k {
                a
            } else {
                a + 1
            };
            let c2 = if c < k {
                c
            } else {
                c + 1
            };
            assert(post[a] == mid[a2]);
            assert(post[c] == mid[c2]);
        }
    } else {
        assert(post == mid);
    }
}

} // verus!

verus! {

impl Storage {
    /// The history read behind the interface: with no paging and no filter,
    /// the whole history in display order; otherwise the filtered page at
    /// the given offset, with the limit defaulting to the filtered count.
    pub fn get_history(
        &self,
        limit: Option<usize>,
        offset: Option<usize>,
        filter: Option<&ClipboardFilter>,
    ) -> (r: Vec<ClipboardItem>)
        ensures
            (limit is None && offset is None && filter is None) ==> r@ == sort_entries(self@),
            !(limit is None && offset is None && filter is None) ==> ({
                let full = sort_entries(filtered_seq(self@, deref_filter(filter)));
                let off = match offset {
                    Some(o) => o as int,
                    None => 0,
                };
                let lim = match limit {
                    Some(l) => l as int,
                    None => filtered_seq(self@, deref_filter(filter)).len() as int,
                };
                r@ == page_of(full, off, lim)
            }),
            sorted_entries(r@),
    {
        if limit.is_none() && offset.is_none() && filter.is_none() {
            return self.get_all_items();
        }
        let off = match offset {
            Some(o) => o,
            None => 0,
        };
        let lim = match limit {
            Some(l) => l,
            None => self.get_filtered_count(filter),
        };
        self.get_filtered_paged_items(filter, off, lim)
    }
}

} // verus!
