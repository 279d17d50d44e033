use vstd::prelude::*;

use crate::hooklist::{teardown_log, Entry, Handle, ReadError, StoreView};
use crate::value::Kind;

verus! {

/// The state after registering `es`, in order.
pub open spec fn registered_all(v: StoreView, es: Seq<Entry>) -> StoreView
    decreases es.len(),
{
    if es.len() == 0 {
        v
    } else {
        registered_all(v, es.drop_last()).registered(es.last())
    }
}

/// The kinds of the values of `es`, in order.
pub open spec fn kinds_of(es: Seq<Entry>) -> Seq<Kind> {
    es.map_values(|e: Entry| e.value.kind_of())
}

/// Reads of the given kinds, one after another: the state after the last one,
/// and what each returned.
pub open spec fn read_all(v: StoreView, kinds: Seq<Kind>) -> (StoreView, Seq<Result<Handle, ReadError>>)
    decreases kinds.len(),
{
    if kinds.len() == 0 {
        (v, seq![])
    } else {
        let (v1, r) = v.read(kinds[0]);
        let (v2, rs) = read_all(v1, kinds.drop_first());
        (v2, seq![r] + rs)
    }
}

/// Reading back the kinds of `all` from `w` returns, for each position in
/// order, a live handle to that position, whose value is the one in `all`.
pub open spec fn reads_back(w: StoreView, all: Seq<Entry>) -> bool {
    let (end, rs) = read_all(w, kinds_of(all));
    &&& rs.len() == all.len()
    &&& end.entries == all
    &&& end.cursor == all.len()
    &&& forall|i: int|
        0 <= i < all.len() ==> {
            &&& #[trigger] rs[i] is Ok
            &&& rs[i]->Ok_0.index == i
            &&& end.live(rs[i]->Ok_0)
            &&& end.entries[rs[i]->Ok_0.index as int].value == all[i].value
        }
}

proof fn lemma_registered_all(v: StoreView, es: Seq<Entry>)
    ensures
        registered_all(v, es) == (StoreView { entries: v.entries + es, ..v }),
    decreases es.len(),
{
    if es.len() > 0 {
        lemma_registered_all(v, es.drop_last());
        assert(v.entries + es.drop_last() + seq![es.last()] =~= v.entries + es);
        assert(v.entries + es.drop_last() + seq![es.last()] =~= (v.entries + es.drop_last()).push(es.last()));
    }
}

proof fn lemma_read_rest(v: StoreView)
    requires
        v.wf(),
    ensures
        ({
            let (end, rs) = read_all(v, kinds_of(v.entries.subrange(v.cursor as int, v.entries.len() as int)));
            &&& end == (StoreView { cursor: v.entries.len(), ..v })
            &&& rs.len() == v.entries.len() - v.cursor
            &&& forall|j: int|
                0 <= j < rs.len() ==> #[trigger] rs[j] == Ok::<Handle, ReadError>(
                    Handle { index: (v.cursor + j) as usize, generation: v.generation },
                )
        }),
    decreases v.entries.len() - v.cursor,
{
    let ks = kinds_of(v.entries.subrange(v.cursor as int, v.entries.len() as int));
    if v.cursor < v.entries.len() {
        let (v1, r) = v.read(ks[0]);
        assert(v1 == StoreView { cursor: v.cursor + 1, ..v });
        lemma_read_rest(v1);
        assert(ks.drop_first() =~= kinds_of(v1.entries.subrange(v1.cursor as int, v1.entries.len() as int)));
        let (v2, rs1) = read_all(v1, ks.drop_first());
        let (end, rs) = read_all(v, ks);
        assert forall|j: int| 0 <= j < rs.len() implies #[trigger] rs[j] == Ok::<Handle, ReadError>(
            Handle { index: (v.cursor + j) as usize, generation: v.generation },
        ) by {
            if j > 0 {
                assert(rs[j] == rs1[j - 1]);
            }
        }
    } else {
        assert(ks.len() == 0);
    }
}

proof fn lemma_reads_back(w: StoreView)
    requires
        w.wf(),
        w.cursor == 0,
    ensures
        reads_back(w, w.entries),
{
    lemma_read_rest(w);
    assert(w.entries.subrange(0, w.entries.len() as int) =~= w.entries);
}

/// Order is kept across cycles. Whatever was registered before, and whatever
/// is registered after it, a rewind followed by reads of the registered kinds
/// returns every entry in registration order, each through a live handle to
/// its own position; after one more rewind the same reads return the same
/// values in the same order again.
pub proof fn law_order_preserved(v: StoreView, news: Seq<Entry>)
    requires
        v.wf(),
        v.entries.len() + news.len() <= usize::MAX,
    ensures
        reads_back(registered_all(v, news).rewound(), v.entries + news),
        reads_back(read_all(registered_all(v, news).rewound(), kinds_of(v.entries + news)).0.rewound(), v.entries + news),
{
    let all = v.entries + news;
    lemma_registered_all(v, news);
    let w = registered_all(v, news).rewound();
    lemma_reads_back(w);
    let end = read_all(w, kinds_of(all)).0;
    lemma_reads_back(end.rewound());
}

/// At the end of the ledger a read reports exhaustion, whatever the kind
/// asked for, and changes nothing.
pub proof fn law_exhausted_read(v: StoreView, kind: Kind)
    requires
        v.wf(),
        v.cursor == v.entries.len(),
    ensures
        v.read(kind) == (v, Err::<Handle, ReadError>(ReadError::Exhausted)),
{
}

/// A read of another kind than the one stored at the cursor reports a
/// mismatch and leaves the entries and the cursor as they were.
pub proof fn law_mismatch_read(v: StoreView, kind: Kind)
    requires
        v.wf(),
        v.cursor < v.entries.len(),
        v.entries[v.cursor as int].value.kind_of() != kind,
    ensures
        v.read(kind) == (v, Err::<Handle, ReadError>(ReadError::Mismatch)),
{
}

/// A successful read hands out a live handle to a value of the kind asked
/// for, and never touches the entries.
pub proof fn law_read_gives_asked_kind(v: StoreView, kind: Kind)
    requires
        v.wf(),
    ensures
        v.read(kind).0.entries == v.entries,
        v.read(kind).1 is Ok ==> {
            let h = v.read(kind).1->Ok_0;
            &&& v.read(kind).0.live(h)
            &&& v.entries[h.index as int].value.kind_of() == kind
        },
{
}

/// Rewinding twice in a row is the same as rewinding once; the cursor is at
/// the start after either.
pub proof fn law_rewind_idempotent(v: StoreView)
    ensures
        v.rewound().rewound() == v.rewound(),
        v.rewound().cursor == 0,
{
}

/// Registering never moves the cursor.
pub proof fn law_register_keeps_cursor(v: StoreView, e: Entry)
    ensures
        v.registered(e).cursor == v.cursor,
{
}

/// Destroying a store runs each of its K teardown actions exactly once, in
/// registration order: where every action records an identifier, the log
/// holds exactly those K identifiers, oldest first.
pub proof fn law_teardown_once(entries: Seq<Entry>)
    requires
        forall|i: int| 0 <= i < entries.len() ==> #[trigger] entries[i].teardown is Record,
    ensures
        teardown_log(entries).len() == entries.len(),
        forall|i: int| 0 <= i < entries.len() ==> #[trigger] teardown_log(entries)[i] == entries[i].teardown->Record_0,
    decreases entries.len(),
{
    if entries.len() > 0 {
        let init = entries.drop_last();
        assert forall|i: int| 0 <= i < init.len() implies #[trigger] init[i].teardown is Record by {
            assert(init[i] == entries[i]);
        }
        law_teardown_once(init);
        let last = entries.last();
        assert(last.teardown is Record);
        assert(last.teardown.emitted(last.value) == seq![last.teardown->Record_0]);
    }
}

/// The teardown log of two runs of entries is the log of the first followed
/// by the log of the second: each entry's action runs once, in its place.
pub proof fn law_teardown_in_order(a: Seq<Entry>, b: Seq<Entry>)
    ensures
        teardown_log(a + b) == teardown_log(a) + teardown_log(b),
    decreases b.len(),
{
    if b.len() == 0 {
        assert(a + b =~= a);
        assert(teardown_log(b) =~= seq![]);
        assert(teardown_log(a) + teardown_log(b) =~= teardown_log(a));
    } else {
        law_teardown_in_order(a, b.drop_last());
        assert((a + b).drop_last() =~= a + b.drop_last());
        assert((a + b).last() == b.last());
        assert(teardown_log(a) + teardown_log(b.drop_last()) + b.last().teardown.emitted(b.last().value)
            =~= teardown_log(a) + (teardown_log(b.drop_last()) + b.last().teardown.emitted(b.last().value)));
    }
}

} // verus!
