//! The capability-bitmask decoder: turns a byte buffer returned by a
//! kernel capability query into the ascending sequence of its set-bit
//! positions, each converted to a semantic code.

use vstd::prelude::*;

use crate::codes::FromCode;

verus! {

/// The largest buffer the decoder accepts: every bit position must fit
/// a 16-bit code.
pub const MAX_BITMASK_BYTES: usize = 8192;

/// Whether bit `k` of the buffer is set, counting bit 0 as the lowest
/// bit of the first byte and offsetting later bytes by eight per byte.
pub open spec fn bit_at(bytes: Seq<u8>, k: int) -> bool
    recommends
        0 <= k < bytes.len() * 8,
{
    (bytes[k / 8] >> ((k % 8) as u8)) & 1 == 1
}

/// The set-bit positions of the buffer at or above position `k`, in
/// ascending order.
pub open spec fn spec_bit_positions_from(bytes: Seq<u8>, k: int) -> Seq<u16>
    decreases bytes.len() * 8 - k,
{
    if k < 0 || k >= bytes.len() * 8 {
        Seq::empty()
    } else if bit_at(bytes, k) {
        seq![k as u16] + spec_bit_positions_from(bytes, k + 1)
    } else {
        spec_bit_positions_from(bytes, k + 1)
    }
}

/// All set-bit positions of the buffer, in ascending order.
pub open spec fn spec_bit_positions(bytes: Seq<u8>) -> Seq<u16> {
    spec_bit_positions_from(bytes, 0)
}

/// A region with no set bits contributes no positions.
proof fn lemma_skip_clear_region(bytes: Seq<u8>, k: int, m: int)
    requires
        0 <= k <= m,
        forall|j: int| k <= j < m ==> !bit_at(bytes, j),
    ensures
        spec_bit_positions_from(bytes, k) == spec_bit_positions_from(bytes, m),
    decreases m - k,
{
    if k < m {
        lemma_skip_clear_region(bytes, k + 1, m);
    }
}

/// A byte whose bits from `m` upward were all shifted out stays clear
/// at every higher bit.
proof fn lemma_shifted_out_bits_clear(b: u8, m: u8, j: u8)
    requires
        m <= j < 8,
        b >> m == 0,
    ensures
        (b >> j) & 1 == 0,
{
    assert((b >> m == 0 && m <= j && j < 8) ==> (b >> j) & 1 == 0) by (bit_vector);
}

/// An iterator over the set bits of a capability bitmask, ascending,
/// fused, each position handed out as the code family's value.
pub struct EventBitsIter<T: FromCode> {
    buffer: Vec<u8>,
    index: usize,
    bit: usize,
    byte: u8,
    _marker: core::marker::PhantomData<T>,
}

impl<T: FromCode> EventBitsIter<T> {
    /// Internal consistency: the cursor sits inside the buffer and
    /// `byte` holds exactly the bits of the current byte not yet
    /// walked past.
    pub closed spec fn wf(self) -> bool {
        &&& self.buffer@.len() <= MAX_BITMASK_BYTES
        &&& if self.buffer@.len() == 0 {
            self.index == 0 && self.bit == 0 && self.byte == 0
        } else {
            &&& self.index < self.buffer@.len()
            &&& self.bit <= 8
            &&& self.byte == self.buffer@[self.index as int] >> (self.bit as u8)
        }
    }

    /// The cursor's absolute bit position.
    pub closed spec fn pos(self) -> int {
        self.index * 8 + self.bit
    }

    /// The positions not yet emitted, in ascending order.
    pub closed spec fn remaining(self) -> Seq<u16> {
        spec_bit_positions_from(self.buffer@, self.pos())
    }

    /// Starts a walk over the buffer's set bits.
    pub fn new(buffer: Vec<u8>) -> (r: Self)
        requires
            buffer@.len() <= MAX_BITMASK_BYTES,
        ensures
            r.wf(),
            r.remaining() == spec_bit_positions(buffer@),
    {
        let byte = if buffer.len() == 0 {
            0
        } else {
            buffer[0]
        };
        proof {
            let b = byte;
            assert(b >> 0u8 == b) by (bit_vector);
        }
        EventBitsIter { buffer, index: 0, bit: 0, byte, _marker: core::marker::PhantomData }
    }

    /// The next set bit, if any: positions come out in ascending order
    /// and the walk never resumes after exhaustion.
    pub fn next(&mut self) -> (r: Option<T>)
        requires
            old(self).wf(),
        ensures
            final(self).wf(),
            match r {
                Option::None => old(self).remaining().len() == 0 && final(self).remaining().len()
                    == 0,
                Option::Some(t) => {
                    &&& old(self).remaining().len() > 0
                    &&& t == T::spec_from_code(old(self).remaining()[0])
                    &&& final(self).remaining() == old(self).remaining().skip(1)
                },
            },
    {
        while self.byte == 0
            invariant
                self.wf(),
                self.buffer == old(self).buffer,
                self.remaining() == old(self).remaining(),
            ensures
                self.wf(),
                self.buffer == old(self).buffer,
                self.remaining() == old(self).remaining(),
                self.byte != 0,
            decreases self.buffer@.len() - self.index,
        {
            if self.index + 1 >= self.buffer.len() {
                proof {
                    if self.buffer@.len() > 0 {
                        self.lemma_zero_byte_clears_to_boundary();
                    }
                    lemma_skip_clear_region(
                        self.buffer@,
                        self.pos(),
                        self.buffer@.len() * 8 as int,
                    );
                }
                return None;
            }

            let next_index = self.index + 1;
            proof {
                self.lemma_zero_byte_clears_to_boundary();
                lemma_skip_clear_region(self.buffer@, self.pos(), next_index * 8);
                let b = self.buffer@[next_index as int];
                assert(b >> 0u8 == b) by (bit_vector);
            }
            self.index = next_index;
            self.byte = self.buffer[next_index];
            self.bit = 0;
        }

        proof {
            self.lemma_bit_below_eight();
        }

        while self.byte & 1 == 0
            invariant
                self.wf(),
                self.buffer == old(self).buffer,
                self.remaining() == old(self).remaining(),
                self.byte != 0,
                self.bit < 8,
            ensures
                self.wf(),
                self.buffer == old(self).buffer,
                self.remaining() == old(self).remaining(),
                self.byte & 1 != 0,
                self.bit < 8,
            decreases 8 - self.bit,
        {
            proof {
                self.lemma_head_bit_is_bit_at();
                lemma_skip_clear_region(self.buffer@, self.pos(), self.pos() + 1);
                let b = self.buffer@[self.index as int];
                let m = self.bit as u8;
                assert((b >> m != 0 && (b >> m) & 1 == 0 && m < 8) ==> ((b >> (m + 1) as u8)
                    == (b >> m) >> 1u8 && b >> (m + 1) as u8 != 0 && m + 1 < 8)) by (bit_vector);
            }
            self.byte = self.byte >> 1u8;
            self.bit = self.bit + 1;
        }

        proof {
            let b = self.byte;
            assert(b & 1 != 0 ==> b & 1 == 1) by (bit_vector);
            self.lemma_head_bit_is_bit_at();
        }
        let output = self.index * 8 + self.bit;
        proof {
            let b = self.buffer@[self.index as int];
            let m = self.bit as u8;
            assert(m < 8 ==> b >> (m + 1) as u8 == (b >> m) >> 1u8) by (bit_vector);
            assert(old(self).remaining() == seq![output as u16] + spec_bit_positions_from(
                self.buffer@,
                self.pos() + 1,
            ));
            assert(old(self).remaining().skip(1) =~= spec_bit_positions_from(
                self.buffer@,
                self.pos() + 1,
            ));
        }
        self.byte = self.byte >> 1u8;
        self.bit = self.bit + 1;

        Some(T::from_code(output as u16))
    }

    /// While `byte` is zero, every bit from the cursor to the end of
    /// the current byte is clear.
    proof fn lemma_zero_byte_clears_to_boundary(&self)
        requires
            self.wf(),
            self.byte == 0,
            self.buffer@.len() > 0,
        ensures
            forall|j: int|
                self.pos() <= j < (self.index + 1) * 8 ==> !bit_at(self.buffer@, j),
    {
        assert forall|j: int|
            self.pos() <= j < (self.index + 1) * 8 implies !bit_at(self.buffer@, j) by {
            assert(j / 8 == self.index && j % 8 == j - self.index * 8);
            lemma_shifted_out_bits_clear(
                self.buffer@[self.index as int],
                self.bit as u8,
                (j % 8) as u8,
            );
        }
    }

    /// A nonzero `byte` pins the cursor strictly inside the current
    /// byte.
    proof fn lemma_bit_below_eight(&self)
        requires
            self.wf(),
            self.byte != 0,
        ensures
            self.buffer@.len() > 0,
            self.bit < 8,
    {
        if self.buffer@.len() > 0 && self.bit == 8 {
            let b = self.buffer@[self.index as int];
            assert(b >> 8u8 == 0) by (bit_vector);
        }
    }

    /// The lowest bit of `byte` is the buffer's bit at the cursor.
    proof fn lemma_head_bit_is_bit_at(&self)
        requires
            self.wf(),
            self.buffer@.len() > 0,
            self.bit < 8,
        ensures
            (self.byte & 1 == 1) == bit_at(self.buffer@, self.pos()),
            0 <= self.pos() < self.buffer@.len() * 8 as int,
    {
        assert(self.pos() / 8 == self.index && self.pos() % 8 == self.bit);
    }
}

/// Decodes a whole capability bitmask at once: the ascending set-bit
/// positions of the buffer, each converted to its semantic code.
pub fn decode_event_bits<T: FromCode>(buffer: Vec<u8>) -> (r: Vec<T>)
    requires
        buffer@.len() <= MAX_BITMASK_BYTES,
    ensures
        r@ == spec_bit_positions(buffer@).map_values(|code: u16| T::spec_from_code(code)),
{
    let ghost all = spec_bit_positions(buffer@);
    let mut iter = EventBitsIter::<T>::new(buffer);
    let mut out: Vec<T> = Vec::new();
    let ghost mut done: Seq<u16> = Seq::empty();
    proof {
        assert(all =~= done + iter.remaining());
    }
    loop
        invariant
            iter.wf(),
            all == done + iter.remaining(),
            out@ == done.map_values(|code: u16| T::spec_from_code(code)),
        ensures
            out@ == all.map_values(|code: u16| T::spec_from_code(code)),
        decreases iter.remaining().len(),
    {
        let ghost before = iter.remaining();
        match iter.next() {
            Some(code) => {
                out.push(code);
                proof {
                    done = done.push(before[0]);
                    assert(done + iter.remaining() =~= all);
                    assert(out@ =~= done.map_values(|code: u16| T::spec_from_code(code)));
                }
            },
            None => {
                proof {
                    assert(all =~= done);
                    assert(out@ =~= all.map_values(|code: u16| T::spec_from_code(code)));
                }
                break ;
            },
        }
    }
    out
}

/// Every position decoded from `k` upward is at least `k`.
proof fn lemma_positions_lower_bound(bytes: Seq<u8>, k: int)
    requires
        0 <= k,
        bytes.len() * 8 <= 0x10000,
    ensures
        forall|t: int|
            0 <= t < spec_bit_positions_from(bytes, k).len() ==> #[trigger] spec_bit_positions_from(
                bytes,
                k,
            )[t] >= k,
    decreases bytes.len() * 8 - k,
{
    if k < bytes.len() * 8 {
        lemma_positions_lower_bound(bytes, k + 1);
        let rest = spec_bit_positions_from(bytes, k + 1);
        if bit_at(bytes, k) {
            assert forall|t: int|
                0 <= t < spec_bit_positions_from(bytes, k).len() implies #[trigger] spec_bit_positions_from(
                bytes,
                k,
            )[t] >= k by {
                if t > 0 {
                    assert(spec_bit_positions_from(bytes, k)[t] == rest[t - 1]);
                }
            }
        }
    }
}

/// The decoded positions come out in strictly ascending order.
proof fn lemma_positions_from_ascending(bytes: Seq<u8>, k: int)
    requires
        0 <= k,
        bytes.len() * 8 <= 0x10000,
    ensures
        forall|i: int, j: int|
            0 <= i < j < spec_bit_positions_from(bytes, k).len() ==> spec_bit_positions_from(
                bytes,
                k,
            )[i] < spec_bit_positions_from(bytes, k)[j],
    decreases bytes.len() * 8 - k,
{
    if k < bytes.len() * 8 {
        lemma_positions_from_ascending(bytes, k + 1);
        lemma_positions_lower_bound(bytes, k + 1);
        let rest = spec_bit_positions_from(bytes, k + 1);
        if bit_at(bytes, k) {
            let whole = spec_bit_positions_from(bytes, k);
            assert forall|i: int, j: int| 0 <= i < j < whole.len() implies whole[i]
                < whole[j] by {
                assert(whole[j] == rest[j - 1]);
                if i > 0 {
                    assert(whole[i] == rest[i - 1]);
                }
            }
        }
    }
}

/// The bitmask decodes to a strictly ascending sequence: each set-bit
/// position appears once, before every higher one.
pub proof fn lemma_bit_positions_ascending(bytes: Seq<u8>)
    requires
        bytes.len() <= MAX_BITMASK_BYTES,
    ensures
        forall|i: int, j: int|
            0 <= i < j < spec_bit_positions(bytes).len() ==> spec_bit_positions(bytes)[i]
                < spec_bit_positions(bytes)[j],
{
    lemma_positions_from_ascending(bytes, 0);
}

/// Position by position, a buffer extended by all-zero bytes has the
/// same set bits as the buffer alone.
proof fn lemma_extension_by_zeros(bytes: Seq<u8>, zeros: Seq<u8>, k: int)
    requires
        0 <= k,
        forall|i: int| 0 <= i < zeros.len() ==> zeros[i] == 0,
    ensures
        spec_bit_positions_from(bytes + zeros, k) == spec_bit_positions_from(bytes, k),
    decreases (bytes + zeros).len() * 8 - k,
{
    let extended = bytes + zeros;
    if k < extended.len() * 8 {
        if k < bytes.len() * 8 {
            assert(extended[k / 8] == bytes[k / 8]);
        } else {
            assert(0 <= k / 8 - bytes.len() < zeros.len());
            assert(extended[k / 8] == zeros[k / 8 - bytes.len()]);
            let m = (k % 8) as u8;
            assert((0u8 >> m) & 1 == 0) by (bit_vector);
            assert(!bit_at(extended, k));
        }
        lemma_extension_by_zeros(bytes, zeros, k + 1);
    }
}

/// All-zero trailing bytes terminate the sequence with no output: a
/// buffer extended by zero bytes decodes to exactly what the buffer
/// alone decodes to.
pub proof fn lemma_trailing_zeros_no_bits(bytes: Seq<u8>, zeros: Seq<u8>)
    requires
        forall|i: int| 0 <= i < zeros.len() ==> zeros[i] == 0,
    ensures
        spec_bit_positions(bytes + zeros) == spec_bit_positions(bytes),
{
    lemma_extension_by_zeros(bytes, zeros, 0);
}

/// A buffer with no set bits — empty, all zero, of any length —
/// decodes to the empty sequence.
pub proof fn lemma_zero_buffer_no_bits(bytes: Seq<u8>)
    requires
        forall|i: int| 0 <= i < bytes.len() ==> bytes[i] == 0,
    ensures
        spec_bit_positions(bytes).len() == 0,
{
    assert forall|j: int| 0 <= j < bytes.len() * 8 implies !bit_at(bytes, j) by {
        assert(0 <= j / 8 < bytes.len());
        let m = (j % 8) as u8;
        assert((0u8 >> m) & 1 == 0) by (bit_vector);
    }
    lemma_skip_clear_region(bytes, 0, bytes.len() * 8 as int);
}

} // verus!
