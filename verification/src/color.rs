//! The [`ColorArray`] buffer: a fixed-length, contiguous sequence of
//! `3 * length` color channels, one triple of red, green and blue per
//! color index, stored as IEEE 754 single-precision bit patterns.

use vstd::pervasive::VecAdditionalExecFns;
use vstd::prelude::*;

use crate::blend::blend_channels;
use crate::blend::blend_spec;
use crate::blend::halves_exactly;
use crate::blend::is_nan_bits;
use crate::blend::lemma_blend_spec_idempotent;
use crate::blend::lemma_blend_spec_symmetric;

verus! {

/// What triple `k` of a channel buffer holds: its red, green and blue
/// channels, in that order.
pub open spec fn triple_at(s: Seq<u32>, k: int) -> (u32, u32, u32) {
    (s[3 * k], s[3 * k + 1], s[3 * k + 2])
}

/// The channel buffer with triple `k` replaced by the channels `red`,
/// `green` and `blue`.
pub open spec fn with_triple(s: Seq<u32>, k: int, red: u32, green: u32, blue: u32) -> Seq<u32> {
    s.update(3 * k, red).update(3 * k + 1, green).update(3 * k + 2, blue)
}

/// Whether `r` holds, channel for channel, the blend of `c1` and `c2`.
pub open spec fn mixed(c1: Seq<u32>, c2: Seq<u32>, r: Seq<u32>) -> bool {
    &&& r.len() == c1.len()
    &&& r.len() == c2.len()
    &&& forall|i: int| 0 <= i < r.len() ==> r[i] == blend_spec(c1[i], c2[i])
}

/// A dense buffer of RGB triples.  The buffer holds exactly
/// `3 * length` channels for its whole lifetime: triple `k` occupies
/// offsets `3k` (red), `3k + 1` (green) and `3k + 2` (blue).
pub struct ColorArray {
    length: usize,
    colors: Vec<u32>,
}

impl View for ColorArray {
    type V = Seq<u32>;

    closed spec fn view(&self) -> Seq<u32> {
        self.colors@
    }
}

impl ColorArray {
    /// The number of color triples the buffer was made for.
    pub closed spec fn spec_len(&self) -> nat {
        self.length as nat
    }

    /// The buffer invariant: exactly three channels per triple.
    pub open spec fn wf(&self) -> bool {
        self@.len() == 3 * self.spec_len()
    }

    /// A fresh buffer of `length` triples, every channel zero — the bit
    /// pattern of positive `0.0`.
    pub fn new(length: usize) -> (c: ColorArray)
        requires
            3 * length <= usize::MAX,
        ensures
            c.wf(),
            c.spec_len() == length,
            forall|i: int| 0 <= i < c@.len() ==> c@[i] == 0u32,
    {
        let total: usize = 3 * length;
        let mut colors: Vec<u32> = Vec::new();
        while colors.len() < total
            invariant
                colors@.len() <= total,
                forall|i: int| 0 <= i < colors@.len() ==> colors@[i] == 0u32,
            decreases total - colors@.len(),
        {
            colors.push(0u32);
        }
        ColorArray { length, colors }
    }

    /// The checked constructor: `None` exactly when the buffer for
    /// `length` triples would not fit in a machine size.
    pub fn try_new(length: usize) -> (r: Option<ColorArray>)
        ensures
            r is Some <==> 3 * length <= usize::MAX,
            r matches Some(c) ==> {
                &&& c.wf()
                &&& c.spec_len() == length
                &&& forall|i: int| 0 <= i < c@.len() ==> c@[i] == 0u32
            },
    {
        if length <= usize::MAX / 3 {
            Some(ColorArray::new(length))
        } else {
            None
        }
    }

    /// The number of triples.
    pub fn len(&self) -> (n: usize)
        ensures
            n == self.spec_len(),
    {
        self.length
    }

    /// The read view of the whole channel buffer, triple-major.
    pub fn colors(&self) -> (r: &Vec<u32>)
        ensures
            r@ == self@,
    {
        &self.colors
    }

    /// One channel of the buffer, by flat offset.
    pub fn channel(&self, i: usize) -> (v: u32)
        requires
            i < self@.len(),
        ensures
            v == self@[i as int],
    {
        self.colors[i]
    }

    /// Writes one channel of the buffer, by flat offset.
    pub fn set_channel(&mut self, i: usize, v: u32)
        requires
            i < old(self)@.len(),
        ensures
            final(self)@ == old(self)@.update(i as int, v),
            final(self).spec_len() == old(self).spec_len(),
    {
        self.colors.set(i, v);
    }

    /// The three channels of triple `k`.
    pub fn get_triple(&self, k: usize) -> (t: (u32, u32, u32))
        requires
            self.wf(),
            k < self.spec_len(),
        ensures
            t == triple_at(self@, k as int),
    {
        let n: usize = self.colors.len();
        assert(3 * k + 2 < n);
        let i: usize = 3 * k;
        (self.colors[i], self.colors[i + 1], self.colors[i + 2])
    }

    /// Writes the three channels of triple `k`.
    pub fn set_triple(&mut self, k: usize, red: u32, green: u32, blue: u32)
        requires
            old(self).wf(),
            k < old(self).spec_len(),
        ensures
            final(self).wf(),
            final(self).spec_len() == old(self).spec_len(),
            final(self)@ == with_triple(old(self)@, k as int, red, green, blue),
    {
        let n: usize = self.colors.len();
        assert(3 * k + 2 < n);
        let i: usize = 3 * k;
        self.colors.set(i, red);
        self.colors.set(i + 1, green);
        self.colors.set(i + 2, blue);
    }

    /// The triples in index order, for the host's diagnostic trace.
    pub fn triples(&self) -> (ts: Vec<(u32, u32, u32)>)
        requires
            self.wf(),
        ensures
            ts@.len() == self.spec_len(),
            forall|k: int| 0 <= k < ts@.len() ==> ts@[k] == triple_at(self@, k),
    {
        let mut ts: Vec<(u32, u32, u32)> = Vec::new();
        let mut k: usize = 0;
        while k < self.length
            invariant
                self.wf(),
                k <= self.spec_len(),
                ts@.len() == k,
                forall|j: int| 0 <= j < k ==> ts@[j] == triple_at(self@, j),
            decreases self.spec_len() - k,
        {
            let t: (u32, u32, u32) = self.get_triple(k);
            ts.push(t);
            k = k + 1;
        }
        ts
    }
}

/// Writes the per-channel midpoint of `c1` and `c2` into `result_array`.
/// All three buffers must have been made for the same number of triples;
/// the two inputs are read only, and every channel of the output is
/// overwritten with the blend of the matching input channels.
pub fn mix(c1: &ColorArray, c2: &ColorArray, result_array: &mut ColorArray)
    requires
        c1.wf(),
        c2.wf(),
        old(result_array).wf(),
        c1.spec_len() == old(result_array).spec_len(),
        c2.spec_len() == old(result_array).spec_len(),
    ensures
        final(result_array).wf(),
        final(result_array).spec_len() == old(result_array).spec_len(),
        mixed(c1@, c2@, final(result_array)@),
{
    let n: usize = result_array.colors.len();
    let mut i: usize = 0;
    while i < n
        invariant
            c1.wf(),
            c2.wf(),
            result_array.wf(),
            result_array.spec_len() == old(result_array).spec_len(),
            c1.spec_len() == result_array.spec_len(),
            c2.spec_len() == result_array.spec_len(),
            n == result_array@.len(),
            i <= n,
            forall|j: int| 0 <= j < i ==> result_array@[j] == blend_spec(c1@[j], c2@[j]),
        decreases n - i,
    {
        let v: u32 = blend_channels(c1.colors[i], c2.colors[i]);
        result_array.colors.set(i, v);
        i = i + 1;
    }
}

/// Writing a triple and reading the same triple back returns exactly the
/// written channels.
pub proof fn lemma_triple_round_trip(s: Seq<u32>, k: int, red: u32, green: u32, blue: u32)
    requires
        0 <= k,
        3 * k + 2 < s.len(),
    ensures
        triple_at(with_triple(s, k, red, green, blue), k) == (red, green, blue),
{
}

/// `mix` is commutative in its two inputs: buffers mixed from the same
/// pair of NaN-free inputs, in either order, hold the same channels.
pub proof fn lemma_mix_commutative(c1: Seq<u32>, c2: Seq<u32>, r1: Seq<u32>, r2: Seq<u32>)
    requires
        mixed(c1, c2, r1),
        mixed(c2, c1, r2),
        forall|i: int| 0 <= i < c1.len() ==> !is_nan_bits(c1[i]),
        forall|i: int| 0 <= i < c2.len() ==> !is_nan_bits(c2[i]),
    ensures
        r1 == r2,
{
    assert forall|i: int| 0 <= i < r1.len() implies r1[i] == r2[i] by {
        lemma_blend_spec_symmetric(c1[i], c2[i]);
    }
    assert(r1 =~= r2);
}

/// `mix` of a buffer with itself gives the buffer back, channel for
/// channel, as long as doubling each channel stays finite.
pub proof fn lemma_mix_idempotent(c: Seq<u32>, r: Seq<u32>)
    requires
        mixed(c, c, r),
        forall|i: int| 0 <= i < c.len() ==> halves_exactly(c[i]),
    ensures
        r == c,
{
    assert forall|i: int| 0 <= i < r.len() implies r[i] == c[i] by {
        lemma_blend_spec_idempotent(c[i]);
    }
    assert(r =~= c);
}

} // verus!
