//! The driver output format: the in-container driver writes the tool's
//! diagnostics, then one sentinel byte, then the program's own output.
use vstd::prelude::*;

verus! {

/// The byte that separates the diagnostics from the program output.
pub const SENTINEL: u8 = 0xff;

/// Everything before the first sentinel, or all of `raw` where it has none.
pub open spec fn diagnostics_of(raw: Seq<u8>) -> Seq<u8>
    decreases raw.len(),
{
    if raw.len() == 0 {
        raw
    } else if raw[0] == SENTINEL {
        Seq::empty()
    } else {
        seq![raw[0]] + diagnostics_of(raw.drop_first())
    }
}

/// Everything after the first sentinel, or nothing where `raw` has none.
pub open spec fn program_output_of(raw: Seq<u8>) -> Seq<u8>
    decreases raw.len(),
{
    if raw.len() == 0 {
        raw
    } else if raw[0] == SENTINEL {
        raw.drop_first()
    } else {
        program_output_of(raw.drop_first())
    }
}

/// Where no byte before `i` is the sentinel, and `i` is the end of `raw` or
/// a sentinel, the diagnostics are the bytes before `i` and the program
/// output the bytes after it.
proof fn lemma_split_at(raw: Seq<u8>, i: int)
    requires
        0 <= i <= raw.len(),
        forall|j: int| 0 <= j < i ==> raw[j] != SENTINEL,
        i < raw.len() ==> raw[i] == SENTINEL,
    ensures
        diagnostics_of(raw) == raw.take(i),
        program_output_of(raw) == (if i < raw.len() { raw.skip(i + 1) } else { Seq::<u8>::empty() }),
    decreases i,
{
    if raw.len() == 0 {
        assert(raw.take(i) =~= raw);
    } else if i == 0 {
        assert(raw.take(0) =~= Seq::<u8>::empty());
        assert(raw.skip(1) =~= raw.drop_first());
    } else {
        let rest = raw.drop_first();
        assert forall|j: int| 0 <= j < i - 1 implies rest[j] != SENTINEL by {
            assert(rest[j] == raw[j + 1]);
        }
        lemma_split_at(rest, i - 1);
        assert(raw.take(i) =~= seq![raw[0]] + rest.take(i - 1));
        if i < raw.len() {
            assert(raw.skip(i + 1) =~= rest.skip(i));
        }
    }
}

/// A stream with exactly one sentinel, at `i`, splits into the bytes before
/// it (the diagnostics) and the bytes after it (the program output).
pub proof fn lemma_split_one_sentinel(raw: Seq<u8>, i: int)
    requires
        0 <= i < raw.len(),
        raw[i] == SENTINEL,
        forall|j: int| 0 <= j < raw.len() && j != i ==> raw[j] != SENTINEL,
    ensures
        diagnostics_of(raw) == raw.take(i),
        program_output_of(raw) == raw.skip(i + 1),
{
    lemma_split_at(raw, i);
}

/// A stream without a sentinel is diagnostics only, with no program output.
pub proof fn lemma_split_no_sentinel(raw: Seq<u8>)
    requires
        forall|j: int| 0 <= j < raw.len() ==> raw[j] != SENTINEL,
    ensures
        diagnostics_of(raw) == raw,
        program_output_of(raw) == Seq::<u8>::empty(),
{
    lemma_split_at(raw, raw.len() as int);
    assert(raw.take(raw.len() as int) =~= raw);
}

/// Splits the driver's stdout at its first sentinel into the diagnostics
/// and the program output.
pub fn split_driver_output(raw: &[u8]) -> (r: (Vec<u8>, Vec<u8>))
    ensures
        r.0@ == diagnostics_of(raw@),
        r.1@ == program_output_of(raw@),
{
    let n = raw.len();
    let mut head: Vec<u8> = Vec::new();
    let mut i: usize = 0;
    while i < n && raw[i] != SENTINEL
        invariant
            n == raw@.len(),
            i <= n,
            head@ == raw@.take(i as int),
            forall|j: int| 0 <= j < i ==> raw@[j] != SENTINEL,
        decreases n - i,
    {
        head.push(raw[i]);
        assert(raw@.take(i + 1) =~= raw@.take(i as int).push(raw@[i as int]));
        i = i + 1;
    }
    let mut tail: Vec<u8> = Vec::new();
    if i < n {
        let mut k: usize = i + 1;
        while k < n
            invariant
                n == raw@.len(),
                i < k <= n,
                tail@ == raw@.subrange(i + 1, k as int),
            decreases n - k,
        {
            tail.push(raw[k]);
            assert(raw@.subrange(i + 1, k + 1) =~= raw@.subrange(i + 1, k as int).push(raw@[k as int]));
            k = k + 1;
        }
        assert(tail@ =~= raw@.skip(i + 1));
    }
    proof {
        lemma_split_at(raw@, i as int);
    }
    (head, tail)
}

} // verus!
