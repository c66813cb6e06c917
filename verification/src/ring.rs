//! A fixed-size ring of audio samples shared between the decoder and the
//! visualizer: the decoder overwrites the oldest slot, the visualizer reads a
//! window starting at the write cursor.
use vstd::prelude::*;
use vstd::arithmetic::div_mod::{lemma_small_mod, lemma_mod_add_multiples_vanish, lemma_fundamental_div_mod, lemma_mod_multiples_vanish, lemma_mod_self_0, lemma_sub_mod_noop, lemma_add_mod_noop_right, lemma_mod_sub_multiples_vanish};

verus! {

/// Mathematical model of a ring: its slots and the slot the next sample goes to.
pub struct RingState<T> {
    pub slots: Seq<T>,
    pub cursor: nat,
}

/// A ring is well formed when it has at least one slot and its cursor points at one.
pub open spec fn ring_wf<T>(s: RingState<T>) -> bool {
    s.slots.len() > 0 && s.cursor < s.slots.len()
}

/// Writing one sample: it lands at the cursor, which then moves one slot on, wrapping.
pub open spec fn ring_push<T>(s: RingState<T>, x: T) -> RingState<T> {
    RingState { slots: s.slots.update(s.cursor as int, x), cursor: ((s.cursor + 1) % s.slots.len()) as nat }
}

/// Writing a whole sequence of samples, first to last.
pub open spec fn ring_push_all<T>(s: RingState<T>, xs: Seq<T>) -> RingState<T>
    decreases xs.len(),
{
    if xs.len() == 0 {
        s
    } else {
        ring_push(ring_push_all(s, xs.drop_last()), xs.last())
    }
}

/// The window of `n` samples read from the ring: element `i` is the slot
/// `(cursor + i) % n`.
pub open spec fn ring_window<T>(s: RingState<T>, n: nat) -> Seq<T> {
    Seq::new(n, |i: int| s.slots[(s.cursor + i) % (n as int)])
}

/// Stepping a residue: `(x + 1) % n` is `x % n + 1`, or 0 when that reaches `n`.
pub(crate) proof fn lemma_mod_step(x: int, n: int)
    requires
        n > 0,
        x >= 0,
    ensures
        (x + 1) % n == (if x % n + 1 == n { 0 } else { x % n + 1 }),
        (x % n + 1) % n == (x + 1) % n,
        0 <= x % n < n,
{
    lemma_fundamental_div_mod(x, n);
    lemma_mod_multiples_vanish(x / n, x % n + 1, n);
    assert(x + 1 == n * (x / n) + (x % n + 1));
    if x % n + 1 == n {
        lemma_mod_self_0(n);
    } else {
        lemma_small_mod((x % n + 1) as nat, n as nat);
    }
}

/// Two numbers less than `n` apart that are not equal have different residues.
proof fn lemma_mod_distinct(a: int, b: int, n: int)
    requires
        n > 0,
        0 <= a < b < a + n,
    ensures
        a % n != b % n,
{
    lemma_fundamental_div_mod(a, n);
    lemma_fundamental_div_mod(b, n);
    let qa = a / n;
    let qb = b / n;
    if a % n == b % n {
        let r = a % n;
        assert(false) by (nonlinear_arith)
            requires
                a == n * qa + r,
                b == n * qb + r,
                0 < b - a < n,
                n > 0,
        ;
    }
}

/// Writing `m` samples `x_0 .. x_{m-1}` into a ring of `L` slots from cursor `c`:
/// the cursor ends at `(c + m) % L`; each of the last `L` samples written,
/// `x_j` with `m - L <= j < m`, sits at slot `(c + j) % L`; and a slot at
/// distance `d = (p - c) % L >= m` from the cursor, not reached, keeps its value.
pub proof fn law_push_all<T>(s: RingState<T>, xs: Seq<T>)
    requires
        ring_wf(s),
    ensures
        ring_wf(ring_push_all(s, xs)),
        ring_push_all(s, xs).slots.len() == s.slots.len(),
        ring_push_all(s, xs).cursor == ((s.cursor + xs.len()) as int) % (s.slots.len() as int),
        forall|j: int|
            xs.len() - s.slots.len() <= j < xs.len() && 0 <= j ==> #[trigger] ring_push_all(
                s,
                xs,
            ).slots[(s.cursor + j) % (s.slots.len() as int)] == xs[j],
        forall|p: int|
            0 <= p < s.slots.len() && (p - s.cursor) % (s.slots.len() as int) >= xs.len()
                ==> #[trigger] ring_push_all(s, xs).slots[p] == s.slots[p],
    decreases xs.len(),
{
    let n = s.slots.len() as int;
    let c = s.cursor as int;
    if xs.len() == 0 {
        lemma_small_mod(s.cursor, s.slots.len());
    } else {
        let ys = xs.drop_last();
        let m = ys.len() as int;
        law_push_all(s, ys);
        let t = ring_push_all(s, ys);
        lemma_mod_step(c + m, n);
        let u = ring_push_all(s, xs);
        assert(u == ring_push(t, xs.last()));
        let q = (c + m) % n;
        assert(t.cursor == q);
        assert forall|j: int| xs.len() - n <= j < xs.len() && 0 <= j implies #[trigger] u.slots[(c
            + j) % n] == xs[j] by {
            if j < m {
                lemma_mod_distinct(c + j, c + m, n);
                assert(ys[j] == xs[j]);
            }
        }
        assert forall|p: int| 0 <= p < n && (p - c) % n >= xs.len() implies #[trigger] u.slots[p]
            == s.slots[p] by {
            if p == q {
                lemma_sub_mod_noop(c + m, c, n);
                lemma_small_mod(c as nat, n as nat);
                lemma_small_mod(m as nat, n as nat);
                assert(false);
            }
        }
    }
}

/// Reading back a full ring: after writing at least as many samples as the ring
/// has slots, the window of that size gives back the last samples written,
/// oldest first.
pub proof fn law_window_returns_written<T>(s: RingState<T>, xs: Seq<T>)
    requires
        ring_wf(s),
        xs.len() >= s.slots.len(),
    ensures
        ring_window(ring_push_all(s, xs), s.slots.len()) == xs.subrange(
            xs.len() - s.slots.len(),
            xs.len() as int,
        ),
{
    let n = s.slots.len() as int;
    let m = xs.len() as int;
    let c = s.cursor as int;
    law_push_all(s, xs);
    let t = ring_push_all(s, xs);
    assert forall|i: int| 0 <= i < n implies #[trigger] ring_window(t, n as nat)[i] == xs[m - n + i] by {
        lemma_add_mod_noop_right(i, c + m, n);
        lemma_mod_sub_multiples_vanish(c + m + i, n);
        assert(c + (m - n + i) == -n + (c + m + i));
        assert(t.slots[(c + (m - n + i)) % n] == xs[m - n + i]);
    }
    assert(ring_window(t, n as nat) =~= xs.subrange(m - n, m));
}

/// Samples kept in a ring buffer of fixed size.
pub struct SampleRing<T> {
    buf: Vec<T>,
    cursor: usize,
}

impl<T> View for SampleRing<T> {
    type V = RingState<T>;

    closed spec fn view(&self) -> RingState<T> {
        RingState { slots: self.buf@, cursor: self.cursor as nat }
    }
}

impl<T> SampleRing<T> {
    /// Every ring has at least one slot and its cursor points at one of them.
    #[verifier::type_invariant]
    spec fn well_formed(&self) -> bool {
        ring_wf(self@)
    }
}

impl<T: Copy> SampleRing<T> {
    /// A ring of `size` slots, all holding `fill`, with the cursor at slot 0.
    pub fn new(size: usize, fill: T) -> (r: Self)
        requires
            size > 0,
        ensures
            r@ == (RingState { slots: Seq::new(size as nat, |i: int| fill), cursor: 0 }),
            ring_wf(r@),
    {
        let mut buf: Vec<T> = Vec::new();
        while buf.len() < size
            invariant
                buf.len() <= size,
                forall|i: int| 0 <= i < buf.len() ==> buf@[i] == fill,
            decreases size - buf.len(),
        {
            buf.push(fill);
        }
        assert(buf@ =~= Seq::new(size as nat, |i: int| fill));
        SampleRing { buf, cursor: 0 }
    }

    /// Number of slots.
    pub fn len(&self) -> (n: usize)
        ensures
            n == self@.slots.len(),
            n > 0,
    {
        proof { use_type_invariant(self); }
        self.buf.len()
    }

    /// The slot the next sample will be written to.
    pub fn cursor(&self) -> (c: usize)
        ensures
            c == self@.cursor,
            c < self@.slots.len(),
    {
        proof { use_type_invariant(self); }
        self.cursor
    }

    /// The `n` samples read starting at the cursor: the `i`-th is slot `(cursor + i) % n`.
    pub fn window(&self, n: usize) -> (w: Vec<T>)
        requires
            0 < n <= self@.slots.len(),
        ensures
            w@ == ring_window(self@, n as nat),
    {
        proof { use_type_invariant(self); }
        let mut w: Vec<T> = Vec::new();
        let mut j: usize = self.cursor % n;
        let mut i: usize = 0;
        while i < n
            invariant
                i <= n,
                n <= self.buf@.len(),
                0 < n,
                j == (self.cursor + i) % (n as int),
                w@.len() == i,
                forall|k: int|
                    0 <= k < i ==> #[trigger] w@[k] == self.buf@[(self.cursor + k) % (n as int)],
            decreases n - i,
        {
            proof { lemma_mod_step(self.cursor + i, n as int); }
            w.push(self.buf[j]);
            j = if j + 1 == n { 0 } else { j + 1 };
            i = i + 1;
        }
        assert(w@ =~= ring_window(self@, n as nat));
        w
    }

    /// Writes `x` at the cursor and advances the cursor, wrapping at the end.
    pub fn push(&mut self, x: T)
        ensures
            final(self)@ == ring_push(old(self)@, x),
            ring_wf(final(self)@),
    {
        proof { use_type_invariant(&*self); }
        let c = self.cursor;
        let len = self.buf.len();
        let next = if c + 1 == len { 0 } else { c + 1 };
        proof {
            if c + 1 == len {
                lemma_mod_add_multiples_vanish(0, len as int);
                assert(((c + 1) as int) % (len as int) == 0int % (len as int));
                lemma_small_mod(0, len as nat);
            } else {
                lemma_small_mod((c + 1) as nat, len as nat);
            }
        }
        self.buf[c] = x;
        self.cursor = next;
    }
}

} // verus!
