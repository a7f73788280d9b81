//! A fixed-length ring buffer: each push shifts one value in and the oldest
//! one out. Its length is chosen when it is built (or resized) and no push
//! changes it.
use vstd::prelude::*;

verus! {

/// The contents after pushing `x` into a buffer holding `q` (oldest first).
pub open spec fn shift_in<T>(q: Seq<T>, x: T) -> Seq<T> {
    if q.len() == 0 {
        q
    } else {
        q.drop_first().push(x)
    }
}

/// The value that comes out when `x` is pushed into a buffer holding `q`:
/// the oldest value, or `x` itself when the buffer has length zero.
pub open spec fn shifted_out<T>(q: Seq<T>, x: T) -> T {
    if q.len() == 0 {
        x
    } else {
        q[0]
    }
}

/// The values that come out, one per push, when `xs` is pushed in order
/// into a buffer holding `q`.
pub open spec fn outputs<T>(q: Seq<T>, xs: Seq<T>) -> Seq<T>
    decreases xs.len(),
{
    if xs.len() == 0 {
        Seq::empty()
    } else {
        seq![shifted_out(q, xs[0])] + outputs(shift_in(q, xs[0]), xs.drop_first())
    }
}

/// The contents after pushing `xs` in order into a buffer holding `q`.
pub open spec fn contents_after<T>(q: Seq<T>, xs: Seq<T>) -> Seq<T>
    decreases xs.len(),
{
    if xs.len() == 0 {
        q
    } else {
        contents_after(shift_in(q, xs[0]), xs.drop_first())
    }
}

/// Delay law: pushing `xs` into a buffer that holds `q` (length N) hands
/// out the stream `q + xs` delayed by N: first the N values that were in the
/// buffer, then, at step t + N, the value pushed at step t.
pub proof fn lemma_outputs_delay_inputs<T>(q: Seq<T>, xs: Seq<T>)
    ensures
        outputs(q, xs) == (q + xs).take(xs.len() as int),
    decreases xs.len(),
{
    if xs.len() > 0 {
        let q2 = shift_in(q, xs[0]);
        let xs2 = xs.drop_first();
        lemma_outputs_delay_inputs(q2, xs2);
        if q.len() > 0 {
            assert(q2 + xs2 =~= (q + xs).drop_first());
        } else {
            assert(q2 + xs2 =~= xs2);
            assert(q + xs =~= xs);
        }
        assert(outputs(q, xs) =~= (q + xs).take(xs.len() as int));
    }
}

/// Delay law, one step at a time: the value pushed at step t comes out at
/// step t + N, where N is the length of the buffer. Used as the lookahead
/// delay line, the sample that gets the gain at step t + N is the input of
/// step t, while the level that gain comes from is measured at t + N.
pub proof fn lemma_delay_law<T>(q: Seq<T>, xs: Seq<T>, t: int)
    requires
        0 <= t,
        t + q.len() < xs.len(),
    ensures
        outputs(q, xs)[t + q.len()] == xs[t],
{
    lemma_outputs_delay_inputs(q, xs);
}

/// After pushing `xs` into a buffer that holds `q`, the buffer holds the
/// last N values of `q + xs`, where N is its length.
pub proof fn lemma_contents_are_latest<T>(q: Seq<T>, xs: Seq<T>)
    ensures
        contents_after(q, xs) == (q + xs).subrange(xs.len() as int, (xs.len() + q.len()) as int),
    decreases xs.len(),
{
    if xs.len() > 0 {
        let q2 = shift_in(q, xs[0]);
        let xs2 = xs.drop_first();
        lemma_contents_are_latest(q2, xs2);
        if q.len() > 0 {
            assert(q2 + xs2 =~= (q + xs).drop_first());
        } else {
            assert(q2 + xs2 =~= xs2);
        }
        assert(contents_after(q, xs) =~= (q + xs).subrange(xs.len() as int, (xs.len() + q.len()) as int));
    } else {
        assert(q + xs =~= q);
        assert(q =~= (q + xs).subrange(0, q.len() as int));
    }
}

/// A buffer of `n` copies of `fill`.
pub open spec fn filled<T>(n: nat, fill: T) -> Seq<T> {
    Seq::new(n, |_i: int| fill)
}

pub struct RingBuffer<T> {
    buf: Vec<T>,
    head: usize,
}

impl<T> View for RingBuffer<T> {
    type V = Seq<T>;

    /// The contents, oldest first.
    closed spec fn view(&self) -> Seq<T> {
        Seq::new(
            self.buf@.len(),
            |i: int|
                if self.head + i < self.buf@.len() {
                    self.buf@[self.head + i]
                } else {
                    self.buf@[self.head + i - self.buf@.len()]
                },
        )
    }
}

impl<T: Copy> RingBuffer<T> {
    /// The cursor points into the storage, or is zero for an empty buffer.
    pub closed spec fn wf(&self) -> bool {
        self.head < self.buf@.len() || (self.buf@.len() == 0 && self.head == 0)
    }

    fn filled_vec(len: usize, fill: T) -> (v: Vec<T>)
        ensures
            v@ == filled(len as nat, fill),
    {
        let mut v: Vec<T> = Vec::with_capacity(len);
        let mut i: usize = 0;
        while i < len
            invariant
                i <= len,
                v@ == filled(i as nat, fill),
            decreases len - i,
        {
            v.push(fill);
            i = i + 1;
            assert(v@ =~= filled(i as nat, fill));
        }
        v
    }

    /// A buffer of `len` copies of `fill`.
    pub fn new(len: usize, fill: T) -> (r: Self)
        ensures
            r.wf(),
            r@ == filled(len as nat, fill),
    {
        let r = RingBuffer { buf: Self::filled_vec(len, fill), head: 0 };
        assert(r@ =~= filled(len as nat, fill));
        r
    }

    pub fn len(&self) -> (n: usize)
        requires
            self.wf(),
        ensures
            n == self@.len(),
    {
        self.buf.len()
    }

    /// The value at position `i`, counted from the oldest.
    pub fn get(&self, i: usize) -> (v: T)
        requires
            self.wf(),
            i < self@.len(),
        ensures
            v == self@[i as int],
    {
        let n = self.buf.len();
        if i < n - self.head {
            self.buf[self.head + i]
        } else {
            self.buf[i - (n - self.head)]
        }
    }

    /// Shifts `x` in. The oldest value comes out; a buffer of length zero
    /// hands `x` straight back.
    pub fn push(&mut self, x: T) -> (out: T)
        requires
            old(self).wf(),
        ensures
            final(self).wf(),
            final(self)@ == shift_in(old(self)@, x),
            out == shifted_out(old(self)@, x),
    {
        let n = self.buf.len();
        if n == 0 {
            return x;
        }
        let out = self.buf[self.head];
        self.buf.set(self.head, x);
        if self.head + 1 == n {
            self.head = 0;
        } else {
            self.head = self.head + 1;
        }
        assert(self@ =~= shift_in(old(self)@, x));
        out
    }

    /// Pushes each value of `xs` in order and returns what came out of each
    /// push.
    pub fn push_all(&mut self, xs: &Vec<T>) -> (outs: Vec<T>)
        requires
            old(self).wf(),
        ensures
            final(self).wf(),
            final(self)@ == contents_after(old(self)@, xs@),
            outs@ == outputs(old(self)@, xs@),
            outs@ == (old(self)@ + xs@).take(xs@.len() as int),
            final(self)@ == (old(self)@ + xs@).subrange(
                xs@.len() as int,
                (xs@.len() + old(self)@.len()) as int,
            ),
    {
        let mut outs: Vec<T> = Vec::with_capacity(xs.len());
        let mut i: usize = 0;
        assert(xs@.skip(0) =~= xs@);
        assert(outs@ + outputs(self@, xs@) =~= outputs(self@, xs@));
        while i < xs.len()
            invariant
                self.wf(),
                i <= xs@.len(),
                contents_after(old(self)@, xs@) == contents_after(self@, xs@.skip(i as int)),
                outputs(old(self)@, xs@) == outs@ + outputs(self@, xs@.skip(i as int)),
            decreases xs@.len() - i,
        {
            let x = xs[i];
            let y = self.push(x);
            outs.push(y);
            proof {
                let rest = xs@.skip(i as int);
                assert(rest[0] == x);
                assert(rest.drop_first() =~= xs@.skip(i + 1));
            }
            i = i + 1;
            assert(outputs(old(self)@, xs@) =~= outs@ + outputs(self@, xs@.skip(i as int)));
        }
        assert(xs@.skip(i as int) =~= Seq::<T>::empty());
        assert(outs@ =~= outs@ + outputs(self@, xs@.skip(i as int)));
        proof {
            lemma_outputs_delay_inputs(old(self)@, xs@);
            lemma_contents_are_latest(old(self)@, xs@);
        }
        outs
    }

    /// Sets every value to `fill`, keeping the length.
    pub fn fill_with(&mut self, fill: T)
        requires
            old(self).wf(),
        ensures
            final(self).wf(),
            final(self)@ == filled(old(self)@.len(), fill),
    {
        let n = self.buf.len();
        self.buf = Self::filled_vec(n, fill);
        self.head = 0;
        assert(self@ =~= filled(old(self)@.len(), fill));
    }

    /// Gives the buffer length `len`. Where that differs from the present
    /// length the contents become `len` copies of `fill`; otherwise nothing
    /// changes.
    pub fn resize(&mut self, len: usize, fill: T)
        requires
            old(self).wf(),
        ensures
            final(self).wf(),
            final(self)@ == (if len == old(self)@.len() {
                old(self)@
            } else {
                filled(len as nat, fill)
            }),
    {
        if len != self.buf.len() {
            *self = Self::new(len, fill);
        }
    }
}

} // verus!
