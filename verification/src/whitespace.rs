//! Whitespace-skipping traversal over component-value sequences.
//!
//! Grammar rules built on this model scan sequences of component values
//! while treating whitespace tokens as insignificant. `skip_ws` is the
//! specification of that traversal: the subsequence of non-whitespace
//! elements, in their original relative order. The borrowing and the
//! consuming adapter are both proved to yield exactly that subsequence.

use vstd::prelude::*;
use vstd::slice::slice_index_get;

use crate::ast::ComponentValue;

verus! {

/// True exactly of the whitespace token.
pub open spec fn is_ws(c: ComponentValue) -> bool {
    match c {
        ComponentValue::WhiteSpace => true,
        _ => false,
    }
}

/// The subsequence of non-whitespace elements of `s`, in original order.
/// Adjacent whitespace tokens are each skipped independently: a run of
/// them collapses to zero output elements, never to a marker.
pub open spec fn skip_ws(s: Seq<ComponentValue>) -> Seq<ComponentValue>
    decreases s.len(),
{
    if s.len() == 0 {
        Seq::empty()
    } else if is_ws(s[0]) {
        skip_ws(s.skip(1))
    } else {
        seq![s[0]] + skip_ws(s.skip(1))
    }
}

impl ComponentValue {
    /// Whether this component value is the whitespace token.
    pub fn is_whitespace(&self) -> (r: bool)
        ensures
            r == is_ws(*self),
    {
        matches!(self, ComponentValue::WhiteSpace)
    }
}

/// Appending one element extends the skipped sequence exactly when the
/// element is not whitespace.
pub proof fn lemma_skip_ws_push(s: Seq<ComponentValue>, c: ComponentValue)
    ensures
        skip_ws(s.push(c)) == if is_ws(c) {
            skip_ws(s)
        } else {
            skip_ws(s).push(c)
        },
    decreases s.len(),
{
    if s.len() == 0 {
        assert(s.push(c)[0] == c);
        assert(s.push(c).skip(1) =~= s);
        if !is_ws(c) {
            assert(seq![c] + skip_ws(s) =~= skip_ws(s).push(c));
        }
    } else {
        lemma_skip_ws_push(s.skip(1), c);
        assert(s.push(c)[0] == s[0]);
        assert(s.push(c).skip(1) =~= s.skip(1).push(c));
        if !is_ws(s[0]) && !is_ws(c) {
            assert(seq![s[0]] + skip_ws(s.skip(1)).push(c) =~= (seq![s[0]] + skip_ws(
                s.skip(1),
            )).push(c));
        }
    }
}

/// Whitespace-skip traversal is exactly a filter: it keeps precisely the
/// non-whitespace elements, in their original relative order.
pub proof fn lemma_skip_ws_is_filter(s: Seq<ComponentValue>)
    ensures
        skip_ws(s) == s.filter(|c: ComponentValue| !is_ws(c)),
    decreases s.len(),
{
    reveal(Seq::filter);
    let pred = |c: ComponentValue| !is_ws(c);
    assert(pred =~= (|c: ComponentValue| !is_ws(c)));
    if s.len() == 0 {
        assert(s.filter(pred) =~= Seq::<ComponentValue>::empty());
    } else {
        let s0 = s.drop_last();
        let a = s.last();
        lemma_skip_ws_is_filter(s0);
        lemma_skip_ws_push(s0, a);
        assert(s0.push(a) =~= s);
        assert(skip_ws(s) == if is_ws(a) {
            skip_ws(s0)
        } else {
            skip_ws(s0).push(a)
        });
        assert(s.filter(pred) == if pred(a) {
            s0.filter(pred).push(a)
        } else {
            s0.filter(pred)
        });
    }
}

/// The number of whitespace tokens in `s`.
pub open spec fn ws_count(s: Seq<ComponentValue>) -> nat
    decreases s.len(),
{
    if s.len() == 0 {
        0
    } else {
        (if is_ws(s[0]) {
            1nat
        } else {
            0nat
        }) + ws_count(s.skip(1))
    }
}

/// Over a sequence holding `ws_count(s)` whitespace tokens among `s.len()`
/// elements, whitespace-skip traversal yields exactly the other
/// `s.len() - ws_count(s)` elements.
pub proof fn lemma_skip_ws_partition(s: Seq<ComponentValue>)
    ensures
        skip_ws(s).len() + ws_count(s) == s.len(),
    decreases s.len(),
{
    if s.len() > 0 {
        lemma_skip_ws_partition(s.skip(1));
    }
}

/// No whitespace token survives whitespace-skip traversal.
pub proof fn lemma_skip_ws_no_whitespace(s: Seq<ComponentValue>)
    ensures
        forall|i: int| 0 <= i < skip_ws(s).len() ==> !is_ws(#[trigger] skip_ws(s)[i]),
    decreases s.len(),
{
    if s.len() > 0 {
        lemma_skip_ws_no_whitespace(s.skip(1));
        if is_ws(s[0]) {
            assert forall|i: int| 0 <= i < skip_ws(s).len() implies !is_ws(
                #[trigger] skip_ws(s)[i],
            ) by {
                assert(skip_ws(s)[i] == skip_ws(s.skip(1))[i]);
            }
        } else {
            assert forall|i: int| 0 <= i < skip_ws(s).len() implies !is_ws(
                #[trigger] skip_ws(s)[i],
            ) by {
                if i > 0 {
                    assert(skip_ws(s)[i] == skip_ws(s.skip(1))[i - 1]);
                }
            }
        }
    }
}

/// Starting point of borrowing whitespace-skip iteration.
pub trait SkipWhitespaceIterable<'a> {
    /// Begin whitespace-skipping traversal over this sequence, without
    /// taking ownership of it.
    fn skip_whitespace(self) -> SkipWhitespaceIterator<'a>;
}

impl<'a> SkipWhitespaceIterable<'a> for &'a [ComponentValue] {
    fn skip_whitespace(self) -> (it: SkipWhitespaceIterator<'a>)
        ensures
            it.values@ == self@,
            it.pos == 0,
    {
        SkipWhitespaceIterator { values: self, pos: 0 }
    }
}

/// Borrowing whitespace-skip iterator: yields references to the
/// non-whitespace component values of a borrowed slice, in order.
/// Forward-only, finite, not restartable.
#[derive(Clone)]
pub struct SkipWhitespaceIterator<'a> {
    /// The underlying sequence, whitespace included.
    pub values: &'a [ComponentValue],
    /// How many leading elements have been consumed.
    pub pos: usize,
}

impl<'a> SkipWhitespaceIterator<'a> {
    /// The elements not yet traversed, whitespace included.
    pub open spec fn remaining(self) -> Seq<ComponentValue> {
        self.values@.skip(self.pos as int)
    }

    /// The traversed prefix never exceeds the underlying sequence.
    pub open spec fn wf(self) -> bool {
        self.pos <= self.values@.len()
    }

    /// The next non-whitespace element, or `None` once only whitespace is
    /// left (the iterator is then exhausted).
    pub fn next(&mut self) -> (r: Option<&'a ComponentValue>)
        requires
            old(self).wf(),
        ensures
            final(self).wf(),
            final(self).values == old(self).values,
            match r {
                Some(c) => !is_ws(*c) && skip_ws(old(self).remaining()) == seq![*c] + skip_ws(
                    final(self).remaining(),
                ),
                None => {
                    skip_ws(old(self).remaining()).len() == 0
                        && final(self).remaining().len() == 0
                },
            },
    {
        while self.pos < self.values.len()
            invariant
                self.wf(),
                self.values == old(self).values,
                skip_ws(old(self).remaining()) == skip_ws(self.remaining()),
            decreases self.values@.len() - self.pos,
        {
            let ghost rem = self.remaining();
            let c = slice_index_get(self.values, self.pos);
            proof {
                assert(rem[0] == self.values@[self.pos as int]);
                assert(rem.skip(1) =~= self.values@.skip(self.pos as int + 1));
            }
            self.pos = self.pos + 1;
            if !c.is_whitespace() {
                return Some(c);
            }
        }
        proof {
            assert(self.remaining() =~= Seq::<ComponentValue>::empty());
        }
        None
    }

    /// Traverse to exhaustion, collecting the yielded references: exactly
    /// the non-whitespace elements, in order.
    pub fn collect_to_vec(self) -> (r: Vec<&'a ComponentValue>)
        requires
            self.wf(),
        ensures
            r@.len() == skip_ws(self.remaining()).len(),
            forall|i: int| 0 <= i < r@.len() ==> *(#[trigger] r@[i]) == skip_ws(
                self.remaining(),
            )[i],
    {
        let ghost orig = self.remaining();
        let mut it = self;
        let mut out: Vec<&'a ComponentValue> = Vec::new();
        let ghost mut got: Seq<ComponentValue> = Seq::empty();
        let mut done: bool = false;
        while !done
            invariant
                it.wf(),
                out@.len() == got.len(),
                forall|i: int| 0 <= i < out@.len() ==> *(#[trigger] out@[i]) == got[i],
                done ==> got == skip_ws(orig),
                !done ==> got + skip_ws(it.remaining()) == skip_ws(orig),
            decreases (if done {
                0int
            } else {
                1int
            }), skip_ws(it.remaining()).len(),
        {
            match it.next() {
                Some(c) => {
                    out.push(c);
                    proof {
                        let prev = got;
                        got = got.push(*c);
                        assert(prev + (seq![*c] + skip_ws(it.remaining())) =~= got + skip_ws(
                            it.remaining(),
                        ));
                    }
                },
                None => {
                    done = true;
                    proof {
                        assert(got + skip_ws(it.remaining()) =~= got);
                    }
                },
            }
        }
        out
    }
}

/// Starting point of consuming whitespace-skip iteration.
pub trait MoveSkipWhitespaceIterable {
    /// Begin whitespace-skipping traversal, taking ownership of the
    /// sequence; the source is drained and cannot be used afterwards.
    fn move_skip_whitespace(self) -> MoveSkipWhitespaceIterator;
}

impl MoveSkipWhitespaceIterable for Vec<ComponentValue> {
    fn move_skip_whitespace(self) -> (it: MoveSkipWhitespaceIterator)
        ensures
            it.values@ == self@,
    {
        MoveSkipWhitespaceIterator { values: self }
    }
}

/// Consuming whitespace-skip iterator: yields the non-whitespace component
/// values of an owned sequence, in order, draining it. Finite, not
/// restartable.
pub struct MoveSkipWhitespaceIterator {
    /// The elements not yet traversed, whitespace included.
    pub values: Vec<ComponentValue>,
}

impl MoveSkipWhitespaceIterator {
    /// The next non-whitespace element as an owned value, or `None` once
    /// only whitespace is left (the iterator is then exhausted).
    pub fn next(&mut self) -> (r: Option<ComponentValue>)
        ensures
            match r {
                Some(c) => !is_ws(c) && skip_ws(old(self).values@) == seq![c] + skip_ws(
                    final(self).values@,
                ),
                None => skip_ws(old(self).values@).len() == 0 && final(self).values@.len() == 0,
            },
    {
        while self.values.len() > 0
            invariant
                skip_ws(old(self).values@) == skip_ws(self.values@),
            decreases self.values@.len(),
        {
            let ghost pre = self.values@;
            let c = self.values.remove(0);
            proof {
                assert(self.values@ =~= pre.skip(1));
            }
            if !c.is_whitespace() {
                return Some(c);
            }
        }
        None
    }

    /// Traverse to exhaustion, collecting the yielded values: exactly the
    /// non-whitespace elements, in order, as owned values.
    pub fn collect_to_vec(self) -> (r: Vec<ComponentValue>)
        ensures
            r@ == skip_ws(self.values@),
    {
        let ghost orig = self.values@;
        let mut it = self;
        let mut out: Vec<ComponentValue> = Vec::new();
        let mut done: bool = false;
        while !done
            invariant
                done ==> out@ == skip_ws(orig),
                !done ==> out@ + skip_ws(it.values@) == skip_ws(orig),
            decreases (if done {
                0int
            } else {
                1int
            }), skip_ws(it.values@).len(),
        {
            match it.next() {
                Some(c) => {
                    let ghost prev = out@;
                    out.push(c);
                    proof {
                        assert(prev + (seq![c] + skip_ws(it.values@)) =~= out@ + skip_ws(
                            it.values@,
                        ));
                    }
                },
                None => {
                    done = true;
                    proof {
                        assert(out@ + skip_ws(it.values@) =~= out@);
                    }
                },
            }
        }
        out
    }
}

} // verus!
