use vstd::prelude::*;

use crate::error::FilterError;

verus! {

/// The window that a push of `x` leaves behind, for a window of `size` samples: an
/// empty window is filled with `size` copies of `x`; otherwise the oldest sample
/// leaves and `x` becomes the newest.
pub open spec fn pushed<T>(window: Seq<T>, size: nat, x: T) -> Seq<T> {
    if window.len() == 0 {
        Seq::new(size, |i: int| x)
    } else {
        window.drop_first().push(x)
    }
}

/// The window, oldest sample first, after pushing the samples `xs` in order into an
/// empty window of `size` samples.
pub open spec fn window_after<T>(size: nat, xs: Seq<T>) -> Seq<T>
    decreases xs.len(),
{
    if xs.len() == 0 {
        Seq::empty()
    } else {
        pushed(window_after(size, xs.drop_last()), size, xs.last())
    }
}

/// The stream as the window sees it: the first sample stands in for the `size - 1`
/// samples before it.
pub open spec fn prewarmed<T>(size: nat, xs: Seq<T>) -> Seq<T>
    recommends
        size > 0,
        xs.len() > 0,
{
    Seq::new((size - 1) as nat, |i: int| xs[0]) + xs
}

/// After any nonempty stream, the window holds the last `size` samples of the stream
/// in which the first sample stands in for the `size - 1` samples before it.
pub proof fn lemma_window_after_prewarmed<T>(size: nat, xs: Seq<T>)
    requires
        size > 0,
        xs.len() > 0,
    ensures
        window_after(size, xs) == prewarmed(size, xs).subrange(
            xs.len() - 1,
            prewarmed(size, xs).len() as int,
        ),
    decreases xs.len(),
{
    let p = prewarmed(size, xs);
    if xs.len() == 1 {
        assert(xs.drop_last() =~= Seq::<T>::empty());
        assert(window_after(size, xs.drop_last()) == Seq::<T>::empty());
        assert(window_after(size, xs) == Seq::new(size, |i: int| xs[0]));
        assert(window_after(size, xs) =~= p.subrange(0, size as int));
    } else {
        let ys = xs.drop_last();
        lemma_window_after_prewarmed(size, ys);
        let q = prewarmed(size, ys);
        assert(ys[0] == xs[0]);
        assert(p =~= q.push(xs.last()));
        assert(window_after(size, ys).len() == size);
        assert(window_after(size, xs) =~= p.subrange(xs.len() - 1, p.len() as int));
    }
}

/// Once a window of `size` samples has seen at least `size` samples, it holds exactly
/// the last `size` of them, oldest first: after `x_1..x_n` it holds `x_1..x_n`, and
/// after `x_1..x_(n+1)` it holds `x_2..x_(n+1)`.
pub proof fn lemma_window_holds_latest<T>(size: nat, xs: Seq<T>)
    requires
        size > 0,
        xs.len() >= size,
    ensures
        window_after(size, xs) == xs.subrange(xs.len() - size, xs.len() as int),
{
    lemma_window_after_prewarmed(size, xs);
    let p = prewarmed(size, xs);
    assert(p.subrange(xs.len() - 1, p.len() as int) =~= xs.subrange(
        xs.len() - size,
        xs.len() as int,
    ));
}

/// A fixed-size window over the latest samples of a stream, kept in a circular buffer.
/// The first sample fills the whole window, so that it is full from then on.
pub struct SampleWindow<T> {
    buffer: Vec<T>,
    window_size: usize,
    oldest: usize,
}

impl<T> SampleWindow<T> {
    /// The buffer is empty or full, and the cursor points into the window.
    pub closed spec fn well_formed(self) -> bool {
        &&& self.window_size > 0
        &&& (self.buffer.len() == 0 || self.buffer.len() == self.window_size)
        &&& self.oldest < self.window_size
        &&& (self.buffer.len() == 0 ==> self.oldest == 0)
    }

    /// The number of samples that the window holds once it has seen one.
    pub closed spec fn size(self) -> nat {
        self.window_size as nat
    }

    /// The samples in the window, oldest first; empty before the first push.
    pub closed spec fn view(self) -> Seq<T> {
        if self.buffer.len() == 0 {
            Seq::empty()
        } else {
            Seq::new(
                self.window_size as nat,
                |i: int|
                    if self.oldest + i < self.window_size {
                        self.buffer@[self.oldest + i]
                    } else {
                        self.buffer@[self.oldest + i - self.window_size]
                    },
            )
        }
    }
}

impl<T: Copy> SampleWindow<T> {
    /// An empty window of `window_size` samples; a size of zero is refused.
    pub fn new(window_size: usize) -> (res: Result<Self, FilterError>)
        ensures
            window_size == 0 ==> res == Err::<Self, FilterError>(FilterError::InvalidArgument),
            window_size > 0 ==> (res matches Ok(w) && w.well_formed() && w.size() == window_size
                && w@ == Seq::<T>::empty()),
    {
        if window_size == 0 {
            Err(FilterError::InvalidArgument)
        } else {
            Ok(SampleWindow { buffer: Vec::new(), window_size, oldest: 0 })
        }
    }

    /// The number of samples that the window holds once it has seen one.
    pub fn window_size(&self) -> (r: usize)
        requires
            self.well_formed(),
        ensures
            r == self.size(),
            r > 0,
    {
        self.window_size
    }

    /// Whether no sample has been pushed yet.
    pub fn is_empty(&self) -> (r: bool)
        requires
            self.well_formed(),
        ensures
            r == (self@.len() == 0),
    {
        self.buffer.len() == 0
    }

    /// Pushes the sample `x`. The first push fills the window with copies of `x` and
    /// returns `None`; each later push drops the oldest sample, returns it, and makes
    /// `x` the newest.
    pub fn push(&mut self, x: T) -> (evicted: Option<T>)
        requires
            old(self).well_formed(),
        ensures
            final(self).well_formed(),
            final(self).size() == old(self).size(),
            final(self)@ == pushed(old(self)@, old(self).size(), x),
            final(self)@.len() == final(self).size(),
            evicted == (if old(self)@.len() == 0 {
                None
            } else {
                Some(old(self)@[0])
            }),
    {
        if self.buffer.len() == 0 {
            let mut buffer: Vec<T> = Vec::new();
            let mut i: usize = 0;
            while i < self.window_size
                invariant
                    i <= self.window_size,
                    buffer@ == Seq::new(i as nat, |k: int| x),
                decreases self.window_size - i,
            {
                buffer.push(x);
                i = i + 1;
                assert(buffer@ =~= Seq::new(i as nat, |k: int| x));
            }
            self.buffer = buffer;
            assert(self@ =~= Seq::new(self.window_size as nat, |k: int| x));
            None
        } else {
            let ghost before = self@;
            let o = self.oldest;
            let evicted = self.buffer[o];
            self.buffer.set(o, x);
            self.oldest = if o + 1 == self.window_size {
                0
            } else {
                o + 1
            };
            assert(self@ =~= before.drop_first().push(x));
            Some(evicted)
        }
    }

    /// The samples in the window, oldest first.
    pub fn contents(&self) -> (r: Vec<T>)
        requires
            self.well_formed(),
        ensures
            r@ == self@,
    {
        let mut r: Vec<T> = Vec::new();
        if self.buffer.len() == 0 {
            return r;
        }
        let mut i: usize = 0;
        while i < self.window_size
            invariant
                self.buffer.len() == self.window_size,
                self.oldest < self.window_size,
                i <= self.window_size,
                r@ == self@.take(i as int),
            decreases self.window_size - i,
        {
            let j: usize = if self.oldest < self.window_size - i {
                self.oldest + i
            } else {
                self.oldest - (self.window_size - i)
            };
            r.push(self.buffer[j]);
            i = i + 1;
            assert(r@ =~= self@.take(i as int));
        }
        assert(r@ =~= self@);
        r
    }
}

} // verus!
