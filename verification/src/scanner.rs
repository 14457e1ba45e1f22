//! Byte-stream scanner: recognizes a target byte sequence inside a
//! continuous, possibly noisy incoming stream.
//!
//! A match cursor starts at 0; for each byte read, if it equals the target
//! byte at the cursor the cursor advances, otherwise it resets to 0. The
//! mismatching byte is not re-tested against the target's start in the same
//! step — a naive restart, not an overlap search; acceptable because tokens
//! are short and non-adversarial.

use vstd::prelude::*;

verus! {

/// One scanner step: the cursor advances on a match and resets to 0 on a
/// mismatch.
pub open spec fn spec_scan_step(target: Seq<u8>, cursor: nat, byte: u8) -> nat
    recommends
        cursor < target.len(),
{
    if target[cursor as int] == byte {
        cursor + 1
    } else {
        0
    }
}

/// Cursor position after the scanner has consumed `input`, starting from
/// cursor 0. Once the cursor reaches the target's length the match is
/// complete and no further byte changes it.
pub open spec fn scan_cursor(target: Seq<u8>, input: Seq<u8>) -> nat
    decreases input.len(),
{
    if input.len() == 0 {
        0
    } else {
        let c = scan_cursor(target, input.drop_last());
        if c == target.len() {
            c
        } else {
            spec_scan_step(target, c, input.last())
        }
    }
}

/// Whether the target has been fully matched somewhere within `input`.
pub open spec fn scan_matched(target: Seq<u8>, input: Seq<u8>) -> bool {
    scan_cursor(target, input) == target.len()
}

/// Feeding the target's own first `k` bytes after any input on which the
/// cursor sits at 0 advances the cursor to exactly `k`.
pub proof fn lemma_scan_extend(target: Seq<u8>, prefix: Seq<u8>, k: int)
    requires
        scan_cursor(target, prefix) == 0,
        0 <= k <= target.len(),
    ensures
        scan_cursor(target, prefix + target.take(k)) == k,
    decreases k,
{
    if k == 0 {
        assert(prefix + target.take(0) =~= prefix);
    } else {
        lemma_scan_extend(target, prefix, k - 1);
        assert((prefix + target.take(k)).drop_last() =~= prefix + target.take(k - 1));
        assert((prefix + target.take(k)).last() == target[k - 1]);
    }
}

/// Given `target ++ suffix`, matching completes in exactly `len(target)`
/// reads: the cursor reaches the target's length at the `len(target)`-th
/// byte and at no earlier point, whatever follows.
pub proof fn lemma_scan_exact(target: Seq<u8>, suffix: Seq<u8>)
    ensures
        scan_matched(target, (target + suffix).take(target.len() as int)),
        forall|j: int|
            0 <= j < target.len() ==> !scan_matched(target, (target + suffix).take(j)),
{
    let whole = target + suffix;
    assert(whole.take(target.len() as int) =~= Seq::empty() + target.take(target.len() as int));
    lemma_scan_extend(target, Seq::empty(), target.len() as int);
    assert forall|j: int| 0 <= j < target.len() implies !scan_matched(target, whole.take(j)) by {
        assert(whole.take(j) =~= Seq::empty() + target.take(j));
        lemma_scan_extend(target, Seq::empty(), j);
    }
}

/// On input none of whose bytes equals the target's first byte, the cursor
/// never leaves 0.
pub proof fn lemma_scan_garbage(target: Seq<u8>, garbage: Seq<u8>)
    requires
        target.len() > 0,
        forall|j: int| 0 <= j < garbage.len() ==> garbage[j] != target[0],
    ensures
        scan_cursor(target, garbage) == 0,
    decreases garbage.len(),
{
    if garbage.len() > 0 {
        lemma_scan_garbage(target, garbage.drop_last());
    }
}

/// Given `garbage ++ target` where no byte of `garbage` equals the target's
/// first byte (so `garbage` begins no prefix of `target`), matching still
/// succeeds, after exactly `len(garbage) + len(target)` reads.
pub proof fn lemma_scan_after_garbage(target: Seq<u8>, garbage: Seq<u8>)
    requires
        target.len() > 0,
        forall|j: int| 0 <= j < garbage.len() ==> garbage[j] != target[0],
    ensures
        scan_matched(target, garbage + target),
        forall|j: int|
            0 <= j < garbage.len() + target.len() ==> !scan_matched(
                target,
                (garbage + target).take(j),
            ),
{
    let whole = garbage + target;
    lemma_scan_garbage(target, garbage);
    assert(whole =~= garbage + target.take(target.len() as int));
    lemma_scan_extend(target, garbage, target.len() as int);
    assert forall|j: int| 0 <= j < garbage.len() + target.len() implies !scan_matched(
        target,
        whole.take(j),
    ) by {
        if j <= garbage.len() {
            assert(whole.take(j) =~= garbage.take(j));
            assert forall|i: int| 0 <= i < garbage.take(j).len() implies garbage.take(j)[i]
                != target[0] by {}
            lemma_scan_garbage(target, garbage.take(j));
        } else {
            assert(whole.take(j) =~= garbage + target.take(j - garbage.len()));
            lemma_scan_extend(target, garbage, j - garbage.len());
        }
    }
}

/// Incremental scanner over a target byte sequence, fed one received byte at
/// a time.
pub struct Scanner {
    /// The byte sequence being recognized.
    pub target: Vec<u8>,
    /// How many leading target bytes the most recent reads have matched.
    pub cursor: usize,
}

impl Scanner {
    /// The cursor never runs past the target.
    pub open spec fn wf(self) -> bool {
        self.cursor <= self.target@.len()
    }

    /// The whole target has been matched.
    pub open spec fn done(self) -> bool {
        self.cursor == self.target@.len()
    }

    /// A scanner for `target`, with the cursor at 0.
    pub fn new(target: Vec<u8>) -> (r: Scanner)
        ensures
            r.target@ == target@,
            r.cursor == 0,
            r.wf(),
    {
        Scanner { target, cursor: 0 }
    }

    /// Feed one received byte; reports whether the full target has now been
    /// matched.
    pub fn push_byte(&mut self, byte: u8) -> (done: bool)
        requires
            old(self).wf(),
            !old(self).done(),
        ensures
            final(self).target@ == old(self).target@,
            final(self).cursor == spec_scan_step(old(self).target@, old(self).cursor as nat, byte),
            final(self).wf(),
            done == final(self).done(),
    {
        assert(self.cursor < self.target.len());
        if self.target[self.cursor] == byte {
            self.cursor = self.cursor + 1;
        } else {
            self.cursor = 0;
        }
        self.cursor == self.target.len()
    }
}

/// Scan `input` for `target`, consuming bytes until the match completes.
/// Returns the number of bytes consumed, or `None` if `input` runs out
/// before a match; no byte past the completing one is consumed.
pub fn scan_bytes(target: &Vec<u8>, input: &[u8]) -> (r: Option<usize>)
    ensures
        match r {
            Some(k) => k <= input@.len() && scan_matched(target@, input@.take(k as int)) && forall|
                j: int,
            |
                0 <= j < k ==> !scan_matched(target@, input@.take(j)),
            None => forall|j: int|
                0 <= j <= input@.len() ==> !scan_matched(target@, input@.take(j)),
        },
{
    let mut s = Scanner::new((*target).clone());
    if s.target.len() == 0 {
        return Some(0);
    }
    let mut k: usize = 0;
    while k < input.len()
        invariant
            k <= input@.len(),
            s.target@ == target@,
            target@.len() > 0,
            s.wf(),
            !s.done(),
            s.cursor as nat == scan_cursor(target@, input@.take(k as int)),
            forall|j: int| 0 <= j <= k ==> !scan_matched(target@, input@.take(j)),
        decreases input@.len() - k,
    {
        let b = input[k];
        let done = s.push_byte(b);
        proof {
            assert(input@.take(k + 1).drop_last() =~= input@.take(k as int));
            assert(input@.take(k + 1).last() == input@[k as int]);
        }
        k = k + 1;
        if done {
            assert(scan_matched(target@, input@.take(k as int)));
            return Some(k);
        }
        assert(!scan_matched(target@, input@.take(k as int)));
    }
    None
}

} // verus!
