use vstd::prelude::*;

verus! {

broadcast use vstd::layout::layout_of_primitives;

/// Bytes in one machine word, the unit in which the bridge manages buffers.
pub open spec fn word_bytes() -> nat {
    vstd::layout::size_of::<usize>()
}

/// The number of whole words needed to hold `size` bytes (rounded up).
pub open spec fn words_for(size: nat) -> nat {
    if size % word_bytes() == 0 {
        size / word_bytes()
    } else {
        size / word_bytes() + 1
    }
}

/// Converts a byte size reported by the engine into a number of words, rounding up.
pub fn word_count(size: usize) -> (n: usize)
    ensures
        n as nat == words_for(size as nat),
{
    let w = core::mem::size_of::<usize>();
    assert(w >= 2) by {
        assert(usize::BITS == 32 || usize::BITS == 64);
    }
    assert(size / w <= size / 2) by (nonlinear_arith)
        requires
            w >= 2,
    ;
    if size % w == 0 {
        size / w
    } else {
        size / w + 1
    }
}

/// Rounding up covers the size asked for, with less than one word to spare.
pub proof fn lemma_words_cover(size: nat)
    ensures
        size <= words_for(size) * word_bytes(),
        words_for(size) * word_bytes() < size + word_bytes(),
{
    let w = word_bytes();
    assert(w > 0);
    vstd::arithmetic::div_mod::lemma_fundamental_div_mod(size as int, w as int);
    assert(words_for(size) * w == w * words_for(size)) by (nonlinear_arith);
    if size % w != 0 {
        assert(w * (size / w + 1) == w * (size / w) + w) by (nonlinear_arith);
    }
}

/// A larger size never needs fewer words.
pub proof fn lemma_words_monotone(a: nat, b: nat)
    requires
        a <= b,
    ensures
        words_for(a) <= words_for(b),
{
    lemma_words_cover(a);
    lemma_words_cover(b);
    let w = word_bytes();
    if words_for(a) > words_for(b) {
        assert(words_for(b) + 1 <= words_for(a));
        assert((words_for(b) + 1) * w <= words_for(a) * w) by (nonlinear_arith)
            requires
                words_for(b) + 1 <= words_for(a),
        ;
        assert((words_for(b) + 1) * w == words_for(b) * w + w) by (nonlinear_arith);
    }
}

/// `n` words, all zero: what a freshly requested region holds.
pub open spec fn zeros(n: nat) -> Seq<usize> {
    Seq::new(n, |i: int| 0usize)
}

/// The reference allocator's resize: a buffer holding `content` is made to hold
/// exactly `words_for(new_size)` words, keeping the common prefix and filling any
/// new words with zero.
pub open spec fn resized(content: Seq<usize>, new_size: nat) -> Seq<usize> {
    let n = words_for(new_size);
    if n <= content.len() {
        content.subrange(0, n as int)
    } else {
        content + zeros((n - content.len()) as nat)
    }
}

/// Which of the allocator hook's cases a request falls under, with the number
/// of words the buffer is to hold.
#[derive(PartialEq, Eq, Structural, Debug, Clone, Copy)]
pub enum Action {
    /// Size zero and no buffer: nothing to do.
    Nothing,
    /// Size zero: release the buffer passed in.
    Free,
    /// No buffer passed in: a fresh buffer of this many words.
    Allocate(usize),
    /// A larger size than before: the buffer grows to this many words.
    Grow(usize),
    /// A nonzero size no larger than before: the buffer shrinks to this many words.
    Shrink(usize),
}

/// The case analysis of the allocator hook: `has_buffer` is false for the null
/// sentinel. The old size matters only when there is a buffer.
pub open spec fn action_for(has_buffer: bool, old_size: nat, new_size: nat) -> Action {
    if new_size == 0 {
        if has_buffer {
            Action::Free
        } else {
            Action::Nothing
        }
    } else if !has_buffer {
        Action::Allocate(words_for(new_size) as usize)
    } else if new_size > old_size {
        Action::Grow(words_for(new_size) as usize)
    } else {
        Action::Shrink(words_for(new_size) as usize)
    }
}

/// Decides what a request from the engine asks for.
pub fn plan(has_buffer: bool, old_size: usize, new_size: usize) -> (a: Action)
    ensures
        a == action_for(has_buffer, old_size as nat, new_size as nat),
{
    if new_size == 0 {
        if has_buffer {
            Action::Free
        } else {
            Action::Nothing
        }
    } else if !has_buffer {
        Action::Allocate(word_count(new_size))
    } else if new_size > old_size {
        Action::Grow(word_count(new_size))
    } else {
        Action::Shrink(word_count(new_size))
    }
}

/// What the bridge hands back to the engine.
pub enum Reply {
    /// The null sentinel: a free took place, or a fresh allocation could not be had.
    Null,
    /// A live buffer of whole words, the engine's memory from now on.
    Block(Vec<usize>),
    /// A grow could not be had: the engine sees the null sentinel, and the
    /// buffer it passed in stays live and untouched.
    Unchanged(Vec<usize>),
}

/// The bridge's contract: for the engine's request, which replies are allowed.
/// `existing` is the content of the buffer passed in, `None` for the null sentinel.
/// Only a request that needs more words than the buffer holds may be refused.
pub open spec fn bridge_reply(
    existing: Option<Seq<usize>>,
    old_size: nat,
    new_size: nat,
    r: Reply,
) -> bool {
    if new_size == 0 {
        r is Null
    } else {
        match existing {
            None => r is Null || (r matches Reply::Block(v) && v@ == resized(
                Seq::empty(),
                new_size,
            )),
            Some(c) => if words_for(new_size) > c.len() {
                (r matches Reply::Block(v) && v@ == resized(c, new_size)) || (
                r matches Reply::Unchanged(v) && v@ == c)
            } else {
                r matches Reply::Block(v) && v@ == resized(c, new_size)
            },
        }
    }
}

/// Relies on `Vec::try_reserve_exact`: it never changes the elements, and reports
/// whether the extra capacity could be had.
#[verifier::external_body]
fn try_reserve_words(v: &mut Vec<usize>, additional: usize) -> (ok: bool)
    ensures
        final(v)@ == old(v)@,
{
    v.try_reserve_exact(additional).is_ok()
}

/// Relies on `Vec::shrink_to_fit`: it releases spare capacity and never changes
/// the elements.
#[verifier::external_body]
fn release_spare(v: &mut Vec<usize>)
    ensures
        final(v)@ == old(v)@,
{
    v.shrink_to_fit()
}

/// The allocation callback the engine calls for all its memory.
///
/// `existing` is the buffer the engine passes in (`None` for the null sentinel),
/// `old_size` the size in bytes the engine last asked for it, `new_size` the size
/// now asked for. A `new_size` of zero frees; a null `existing` allocates afresh
/// and ignores `old_size`; otherwise the buffer grows or shrinks, keeping its
/// leading content. Only an allocation that needs more memory may fail, and it
/// then answers with the null sentinel.
pub fn reallocate(existing: Option<Vec<usize>>, old_size: usize, new_size: usize) -> (r: Reply)
    requires
        existing matches Some(b) ==> b@.len() == words_for(old_size as nat),
    ensures
        bridge_reply(
            match existing {
                Some(b) => Some(b@),
                None => None,
            },
            old_size as nat,
            new_size as nat,
            r,
        ),
{
    let has_buffer = existing.is_some();
    match plan(has_buffer, old_size, new_size) {
        Action::Nothing | Action::Free => {
            // a buffer passed in is dropped here: its memory goes back to the host
            Reply::Null
        },
        Action::Allocate(target) => {
            let mut v: Vec<usize> = Vec::new();
            if !try_reserve_words(&mut v, target) {
                return Reply::Null;
            }
            v.resize(target, 0);
            assert(v@ =~= resized(Seq::empty(), new_size as nat));
            Reply::Block(v)
        },
        Action::Grow(target) => {
            let mut v = existing.unwrap();
            let ghost before = v@;
            proof {
                lemma_words_monotone(old_size as nat, new_size as nat);
            }
            if target > v.len() {
                let extra = target - v.len();
                if !try_reserve_words(&mut v, extra) {
                    return Reply::Unchanged(v);
                }
                v.resize(target, 0);
            }
            assert(v@ =~= resized(before, new_size as nat));
            Reply::Block(v)
        },
        Action::Shrink(target) => {
            let mut v = existing.unwrap();
            let ghost before = v@;
            proof {
                lemma_words_monotone(new_size as nat, old_size as nat);
            }
            v.truncate(target);
            release_spare(&mut v);
            assert(v@ =~= resized(before, new_size as nat));
            Reply::Block(v)
        },
    }
}

/// The reference allocator run over a sequence of resizes, in order.
pub open spec fn replay(content: Seq<usize>, sizes: Seq<nat>) -> Seq<usize>
    decreases sizes.len(),
{
    if sizes.len() == 0 {
        content
    } else {
        resized(replay(content, sizes.drop_last()), sizes.last())
    }
}

/// The sizes of a chain of resizes of one buffer, `sizes[0]` being its size at
/// the start, and the contents it held, with the bridge's reply at each step a
/// live buffer holding the next content.
pub open spec fn resize_chain(contents: Seq<Seq<usize>>, sizes: Seq<nat>, replies: Seq<Reply>) -> bool {
    &&& sizes.len() >= 1
    &&& contents.len() == sizes.len()
    &&& replies.len() + 1 == sizes.len()
    &&& contents[0].len() == words_for(sizes[0])
    &&& forall|i: int|
        0 <= i < replies.len() ==> {
            &&& #[trigger] bridge_reply(Some(contents[i]), sizes[i], sizes[i + 1], replies[i])
            &&& replies[i] matches Reply::Block(v)
            &&& v@ == contents[i + 1]
        }
}

/// Round trip: however a buffer is grown and shrunk through the bridge, each
/// successful step leaves exactly what the reference allocator would hold after
/// the same sequence of resizes; no word is lost or repeated.
pub proof fn lemma_resize_chain_matches_reference(
    contents: Seq<Seq<usize>>,
    sizes: Seq<nat>,
    replies: Seq<Reply>,
    k: int,
)
    requires
        resize_chain(contents, sizes, replies),
        0 <= k < sizes.len(),
    ensures
        contents[k] == replay(contents[0], sizes.subrange(1, k + 1)),
        contents[k].len() == words_for(sizes[k]),
    decreases k,
{
    if k > 0 {
        lemma_resize_chain_matches_reference(contents, sizes, replies, k - 1);
        let i = k - 1;
        assert(bridge_reply(Some(contents[i]), sizes[i], sizes[i + 1], replies[i]));
        assert(sizes.subrange(1, k + 1).drop_last() =~= sizes.subrange(1, k));
    } else {
        assert(sizes.subrange(1, 1) =~= Seq::<nat>::empty());
    }
}

/// Growing a buffer and shrinking it back to its first size gives back exactly
/// what it held.
pub proof fn lemma_grow_then_shrink_restores(
    content: Seq<usize>,
    size: nat,
    larger: nat,
    grown: Reply,
    back: Reply,
)
    requires
        content.len() == words_for(size),
        0 < size < larger,
        bridge_reply(Some(content), size, larger, grown),
        grown matches Reply::Block(g) && bridge_reply(Some(g@), larger, size, back),
    ensures
        back matches Reply::Block(b) && b@ == content,
{
    lemma_words_monotone(size, larger);
    let g = grown->Block_0;
    assert(g@.subrange(0, words_for(size) as int) =~= content);
}

/// A free always answers with the null sentinel; the buffer passed in is
/// consumed, so nothing of it can be reached any more.
pub proof fn lemma_free_gives_null(existing: Option<Seq<usize>>, old_size: nat, r: Reply)
    requires
        bridge_reply(existing, old_size, 0, r),
    ensures
        r is Null,
{
}

/// With no prior buffer, the size the engine reports as old has no bearing on
/// what the bridge may answer.
pub proof fn lemma_fresh_ignores_old_size(old_a: nat, old_b: nat, new_size: nat, r: Reply)
    ensures
        bridge_reply(None, old_a, new_size, r) == bridge_reply(None, old_b, new_size, r),
{
}

/// A shrink to a nonzero size always succeeds, keeping the leading words, and
/// the buffer covers the size asked for.
pub proof fn lemma_shrink_never_fails(content: Seq<usize>, old_size: nat, new_size: nat, r: Reply)
    requires
        content.len() == words_for(old_size),
        0 < new_size <= old_size,
        bridge_reply(Some(content), old_size, new_size, r),
    ensures
        r matches Reply::Block(v) && v@ == content.subrange(0, words_for(new_size) as int),
        new_size <= words_for(new_size) * word_bytes(),
{
    lemma_words_monotone(new_size, old_size);
    lemma_words_cover(new_size);
}

} // verus!
