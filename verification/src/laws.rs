use vstd::prelude::*;

use crate::note::NoteV;

verus! {

/// The contents of a store after a run of appends that commit in the order
/// given by `appended`, starting from contents `init`: each append pushes its
/// note at the end, exactly as `Store::append` promises.
pub open spec fn after_appends(init: Seq<NoteV>, appended: Seq<NoteV>) -> Seq<NoteV>
    decreases appended.len(),
{
    if appended.len() == 0 {
        init
    } else {
        after_appends(init.push(appended[0]), appended.drop_first())
    }
}

/// A run of appends adds exactly its notes, after the existing contents.
pub proof fn lemma_after_appends(init: Seq<NoteV>, appended: Seq<NoteV>)
    ensures
        after_appends(init, appended) == init + appended,
    decreases appended.len(),
{
    if appended.len() == 0 {
        assert(after_appends(init, appended) =~= init + appended);
    } else {
        lemma_after_appends(init.push(appended[0]), appended.drop_first());
        assert(init.push(appended[0]) + appended.drop_first() =~= init + appended);
    }
}

/// Appends issued one at a time are reflected in call order: after a run of
/// appends the contents are the old contents, each at its old position,
/// followed by the appended notes, each at the position of its call — the
/// snapshot order equals the append call order.
pub proof fn lemma_append_order(init: Seq<NoteV>, appended: Seq<NoteV>)
    ensures
        after_appends(init, appended).len() == init.len() + appended.len(),
        forall|i: int|
            0 <= i < init.len() ==> after_appends(init, appended)[i] == init[i],
        forall|i: int|
            0 <= i < appended.len() ==> after_appends(init, appended)[init.len() + i]
                == appended[i],
{
    lemma_after_appends(init, appended);
}

/// Concurrent appends serialize: under the store's exclusion discipline they
/// commit one after another in some order `appended`. Whatever that order,
/// when the payloads are pairwise distinct a store that started empty holds,
/// after all of them, exactly one occurrence of each payload and nothing
/// else — no loss, no duplication, whatever the interleaving was.
pub proof fn lemma_distinct_appends(appended: Seq<NoteV>)
    requires
        appended.no_duplicates(),
    ensures
        after_appends(Seq::empty(), appended).len() == appended.len(),
        forall|p: NoteV|
            appended.contains(p) ==> after_appends(Seq::empty(), appended).to_multiset().count(p)
                == 1,
        forall|p: NoteV|
            !appended.contains(p) ==> after_appends(Seq::empty(), appended).to_multiset().count(p)
                == 0,
{
    broadcast use vstd::seq_lib::group_to_multiset_ensures;

    lemma_after_appends(Seq::empty(), appended);
    assert(after_appends(Seq::empty(), appended) =~= appended);
    appended.lemma_multiset_has_no_duplicates();
}

} // verus!
