//! Properties of whole traversals over the entries of an index node.
use vstd::prelude::*;

use crate::error::NtfsError;
use crate::index_entry::{next_step, IndexEntriesModel, IndexEntryModel};

verus! {

/// The cursor after `n` steps on the reader `fs`.
pub open spec fn advance_n(c: IndexEntriesModel, fs: Seq<u8>, n: nat) -> IndexEntriesModel
    decreases n,
{
    if n == 0 {
        c
    } else {
        advance_n(next_step(c, fs).0, fs, (n - 1) as nat)
    }
}

/// What `n` steps on the reader `fs` yield, in order.
pub open spec fn items_n(c: IndexEntriesModel, fs: Seq<u8>, n: nat) -> Seq<
    Option<Result<IndexEntryModel, NtfsError>>,
>
    decreases n,
{
    if n == 0 {
        Seq::empty()
    } else {
        seq![next_step(c, fs).1] + items_n(next_step(c, fs).0, fs, (n - 1) as nat)
    }
}

/// A step keeps the end and the length of the byte range, never moves the
/// position backward, and yields only an entry that starts at the position
/// the cursor held, which lies before the end.
pub proof fn lemma_step_stays_before_end(c: IndexEntriesModel, fs: Seq<u8>)
    ensures
        next_step(c, fs).0.end == c.end,
        next_step(c, fs).0.len == c.len,
        c.wf() ==> next_step(c, fs).0.wf(),
        next_step(c, fs).0.position >= c.position,
        next_step(c, fs).1 matches Some(Ok(e)) ==> e.position == c.position && e.position < c.end,
{
}

/// Once a step yields nothing, the cursor stays as it is and every later
/// step, on any reader, yields nothing too.
pub proof fn lemma_exhaustion_is_final(c: IndexEntriesModel, fs: Seq<u8>, later: Seq<u8>, n: nat)
    requires
        next_step(c, fs).1 is None,
    ensures
        next_step(c, fs).0 == c,
        next_step(c, later) == (c, None::<Result<IndexEntryModel, NtfsError>>),
        advance_n(c, later, n) == c,
        items_n(c, later, n) == Seq::new(n, |i: int| None::<Result<IndexEntryModel, NtfsError>>),
    decreases n,
{
    if n > 0 {
        lemma_exhaustion_is_final(c, fs, later, (n - 1) as nat);
        assert(items_n(c, later, n) =~= Seq::new(
            n,
            |i: int| None::<Result<IndexEntryModel, NtfsError>>,
        ));
    }
}

/// No entry that a traversal yields, however long, starts at or after the end.
pub proof fn lemma_items_before_end(c: IndexEntriesModel, fs: Seq<u8>, n: nat)
    ensures
        advance_n(c, fs, n).end == c.end,
        items_n(c, fs, n).len() == n,
        forall|i: int|
            0 <= i < n ==> (#[trigger] items_n(c, fs, n)[i] matches Some(Ok(e)) ==> e.position
                < c.end),
    decreases n,
{
    if n > 0 {
        let next = next_step(c, fs).0;
        lemma_step_stays_before_end(c, fs);
        lemma_items_before_end(next, fs, (n - 1) as nat);
        assert forall|i: int| 0 <= i < n implies (#[trigger] items_n(c, fs, n)[i] matches Some(
            Ok(e),
        ) ==> e.position < c.end) by {
            if i > 0 {
                assert(items_n(c, fs, n) == seq![next_step(c, fs).1] + items_n(next, fs, (n - 1) as nat));
                assert(items_n(c, fs, n)[i] == items_n(next, fs, (n - 1) as nat)[i - 1]);
            }
        }
    }
}

/// A traversal paused after `m` steps and resumed from the cursor it reached
/// yields the same items, and reaches the same cursor, as one that ran
/// `m + n` steps without a pause. Detaching a cursor and attaching it to
/// another reader over the same bytes is such a pause.
pub proof fn lemma_resume(c: IndexEntriesModel, fs: Seq<u8>, m: nat, n: nat)
    ensures
        advance_n(c, fs, m + n) == advance_n(advance_n(c, fs, m), fs, n),
        items_n(c, fs, m + n) == items_n(c, fs, m) + items_n(advance_n(c, fs, m), fs, n),
    decreases m,
{
    if m > 0 {
        let next = next_step(c, fs).0;
        lemma_resume(next, fs, (m - 1) as nat, n);
        assert((m + n - 1) as nat == (m - 1) as nat + n);
        assert(items_n(c, fs, m + n) =~= items_n(c, fs, m) + items_n(advance_n(c, fs, m), fs, n));
    } else {
        assert(items_n(c, fs, m + n) =~= items_n(c, fs, m) + items_n(advance_n(c, fs, m), fs, n));
    }
}

/// A cursor detached after `k` steps on the reader `fs` and attached to
/// another reader `other` over the same bytes resumes where it stood: its next
/// `n` steps yield exactly the items `k + 1` to `k + n` of the uninterrupted
/// traversal, and it ends at the cursor the uninterrupted traversal reaches.
pub proof fn lemma_reattach_resumes(c: IndexEntriesModel, fs: Seq<u8>, other: Seq<u8>, k: nat, n: nat)
    requires
        other == fs,
    ensures
        advance_n(c, fs, k).end == c.end,
        items_n(advance_n(c, fs, k), other, n) == items_n(c, fs, k + n).subrange(
            k as int,
            (k + n) as int,
        ),
        advance_n(advance_n(c, fs, k), other, n) == advance_n(c, fs, k + n),
{
    lemma_resume(c, fs, k, n);
    lemma_items_before_end(c, fs, k);
    lemma_items_before_end(advance_n(c, fs, k), fs, n);
    assert(items_n(advance_n(c, fs, k), other, n) =~= items_n(c, fs, k + n).subrange(
        k as int,
        (k + n) as int,
    ));
}

} // verus!
