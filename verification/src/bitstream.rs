//! MSB-first bit-level packer producing each frame's byte payload.
//!
//! The writer's state is modelled as the sequence of bits written so far
//! (`bits()`); every operation's contract says exactly which bits it appends.

use vstd::prelude::*;

use crate::error::AacLdError;

verus! {

/// Bit `k` (0 = least significant) of a byte.
pub open spec fn u8_bit(b: u8, k: u8) -> bool {
    (b >> k) & 1 == 1
}

/// Bit `k` (0 = least significant) of a 32-bit value.
pub open spec fn u32_bit(v: u32, k: u32) -> bool {
    (v >> k) & 1 == 1
}

/// The eight bits of a byte, most significant first.
pub open spec fn byte_bits(b: u8) -> Seq<bool> {
    Seq::new(8, |i: int| u8_bit(b, (7 - i) as u8))
}

/// The first `n` bits of a byte, most significant first (`n <= 8`).
pub open spec fn partial_bits(b: u8, n: nat) -> Seq<bool> {
    Seq::new(n, |i: int| u8_bit(b, (7 - i) as u8))
}

/// A byte sequence flattened to bits, each byte most significant first.
pub open spec fn bytes_bits(s: Seq<u8>) -> Seq<bool>
    decreases s.len(),
{
    if s.len() == 0 {
        Seq::empty()
    } else {
        bytes_bits(s.drop_last()) + byte_bits(s.last())
    }
}

/// The low `n` bits of `v`, most significant first (`n <= 32`).
pub open spec fn value_bits(v: u32, n: nat) -> Seq<bool> {
    Seq::new(n, |i: int| u32_bit(v, (n - 1 - i) as u32))
}

/// Bits padded with zeros up to the next byte boundary.
pub open spec fn zero_pad(bits: Seq<bool>) -> Seq<bool> {
    bits + Seq::new(((8 - bits.len() % 8) % 8) as nat, |i: int| false)
}

proof fn lemma_bytes_bits_len(s: Seq<u8>)
    ensures
        bytes_bits(s).len() == 8 * s.len(),
    decreases s.len(),
{
    if s.len() > 0 {
        lemma_bytes_bits_len(s.drop_last());
    }
}

proof fn lemma_bytes_bits_push(s: Seq<u8>, x: u8)
    ensures
        bytes_bits(s.push(x)) == bytes_bits(s) + byte_bits(x),
{
    assert(s.push(x).drop_last() =~= s);
    assert(s.push(x).last() == x);
}

proof fn lemma_zero_byte_bits()
    ensures
        forall|k: u8| !u8_bit(0u8, k),
{
    assert forall|k: u8| !u8_bit(0u8, k) by {
        assert((0u8 >> k) & 1 == 0) by (bit_vector);
    }
}

proof fn lemma_or_sets_bit(b: u8, p: u8, k: u8)
    by (bit_vector)
    requires
        p < 8,
        k < 8,
    ensures
        k == 7 - p ==> ((b | (1u8 << ((7 - p) as u8))) >> k) & 1 == 1,
        k != 7 - p ==> ((b | (1u8 << ((7 - p) as u8))) >> k) & 1 == (b >> k) & 1,
{
}

/// MSB-first bit packer. Completed bytes accumulate in `buffer`; the top
/// `bit_pos` bits of `current_byte` hold the still-incomplete byte.
#[derive(Debug)]
pub struct BitstreamWriter {
    buffer: Vec<u8>,
    bit_pos: usize,
    current_byte: u8,
}

impl BitstreamWriter {
    /// All bits written so far, in order.
    pub closed spec fn bits(&self) -> Seq<bool> {
        bytes_bits(self.buffer@) + partial_bits(self.current_byte, self.bit_pos as nat)
    }

    /// Well-formed: the partial byte has fewer than 8 bits and its unused
    /// low positions are still zero.
    pub closed spec fn wf(&self) -> bool {
        &&& self.bit_pos < 8
        &&& forall|k: u8| k < 8 - self.bit_pos ==> !u8_bit(self.current_byte, k)
    }

    /// No partial byte is pending.
    pub closed spec fn byte_aligned(&self) -> bool {
        self.bit_pos == 0
    }

    pub fn new() -> (r: Self)
        ensures
            r.wf(),
            r.bits() == Seq::<bool>::empty(),
    {
        let r = Self { buffer: Vec::new(), bit_pos: 0, current_byte: 0 };
        proof {
            lemma_zero_byte_bits();
            assert(r.bits() =~= Seq::<bool>::empty());
        }
        r
    }

    /// Append a single bit.
    fn push_bit(&mut self, b: bool)
        requires
            old(self).wf(),
        ensures
            final(self).wf(),
            final(self).bits() == old(self).bits() + seq![b],
    {
        let ghost prev = *old(self);
        if b {
            let shift: u8 = (7 - self.bit_pos) as u8;
            self.current_byte = self.current_byte | (1u8 << shift);
        }
        proof {
            let p = prev.bit_pos as u8;
            assert forall|i: int| 0 <= i < p + 1 implies
                partial_bits(self.current_byte, (p + 1) as nat)[i]
                    == (partial_bits(prev.current_byte, p as nat).push(b))[i] by {
                let k = (7 - i) as u8;
                if b {
                    lemma_or_sets_bit(prev.current_byte, p, k);
                } else {
                    // the unused position 7 - p is zero by well-formedness
                    assert(!u8_bit(prev.current_byte, (7 - p) as u8));
                }
            }
            assert(partial_bits(self.current_byte, (p + 1) as nat)
                =~= partial_bits(prev.current_byte, p as nat).push(b));
            assert forall|k: u8| k < 8 - (p + 1) implies !u8_bit(self.current_byte, k) by {
                assert(!u8_bit(prev.current_byte, k));
                if b {
                    lemma_or_sets_bit(prev.current_byte, p, k);
                }
            }
        }
        self.bit_pos = self.bit_pos + 1;
        if self.bit_pos == 8 {
            let ghost full_byte = self.current_byte;
            self.buffer.push(self.current_byte);
            self.current_byte = 0;
            self.bit_pos = 0;
            proof {
                lemma_zero_byte_bits();
                lemma_bytes_bits_push(prev.buffer@, full_byte);
                assert(partial_bits(full_byte, 8) =~= byte_bits(full_byte));
                assert(partial_bits(0u8, 0) =~= Seq::<bool>::empty());
                assert(self.bits() =~= prev.bits() + seq![b]);
            }
        } else {
            proof {
                assert(self.bits() =~= prev.bits() + seq![b]);
            }
        }
    }

    /// Append the low `num_bits` bits of `value`, most significant first.
    /// More than 32 bits in one call is an error and leaves the writer
    /// untouched.
    pub fn write_bits(&mut self, value: u32, num_bits: usize) -> (r: Result<(), AacLdError>)
        requires
            old(self).wf(),
        ensures
            final(self).wf(),
            num_bits <= 32 ==> r is Ok
                && final(self).bits() == old(self).bits() + value_bits(value, num_bits as nat),
            num_bits > 32 ==> *final(self) == *old(self)
                && (r matches Err(e) && (e matches AacLdError::BitstreamError(m)
                    && m@ == "Cannot write more than 32 bits at once"@)),
    {
        if num_bits > 32 {
            return Err(AacLdError::BitstreamError(
                "Cannot write more than 32 bits at once".to_owned(),
            ));
        }

        let ghost target = value_bits(value, num_bits as nat);
        let mut i: usize = 0;
        while i < num_bits
            invariant
                self.wf(),
                i <= num_bits,
                num_bits <= 32,
                target == value_bits(value, num_bits as nat),
                self.bits() == old(self).bits() + target.take(i as int),
            decreases num_bits - i,
        {
            let shift: u32 = (num_bits - 1 - i) as u32;
            let bit: bool = ((value >> shift) & 1) == 1;
            proof {
                assert(target[i as int] == bit);
                assert(target.take(i + 1) =~= target.take(i as int).push(bit));
            }
            self.push_bit(bit);
            proof {
                assert(self.bits() =~= old(self).bits() + target.take(i + 1));
            }
            i = i + 1;
        }
        proof {
            assert(target.take(num_bits as int) =~= target);
        }
        Ok(())
    }

    /// Pad the pending partial byte with zero bits and move it to the buffer.
    pub fn flush(&mut self) -> (r: Result<(), AacLdError>)
        requires
            old(self).wf(),
        ensures
            r is Ok,
            final(self).wf(),
            final(self).byte_aligned(),
            final(self).bits() == zero_pad(old(self).bits()),
    {
        proof {
            lemma_bytes_bits_len(self.buffer@);
        }
        if self.bit_pos > 0 {
            let ghost prev = *old(self);
            let ghost p = prev.bit_pos as int;
            self.buffer.push(self.current_byte);
            self.current_byte = 0;
            self.bit_pos = 0;
            proof {
                lemma_zero_byte_bits();
                lemma_bytes_bits_push(prev.buffer@, prev.current_byte);
                // the full byte is the partial bits followed by zeros
                assert forall|i: int| 0 <= i < 8 implies byte_bits(prev.current_byte)[i]
                    == (partial_bits(prev.current_byte, p as nat)
                        + Seq::new((8 - p) as nat, |j: int| false))[i] by {
                    if i >= p {
                        assert(!u8_bit(prev.current_byte, (7 - i) as u8));
                    }
                }
                assert(byte_bits(prev.current_byte)
                    =~= partial_bits(prev.current_byte, p as nat)
                        + Seq::new((8 - p) as nat, |j: int| false));
                vstd::arithmetic::div_mod::lemma_mod_multiples_vanish(
                    prev.buffer@.len() as int, p, 8);
                assert(prev.bits().len() % 8 == p as nat % 8);
                assert(self.bits() =~= zero_pad(prev.bits()));
            }
        } else {
            proof {
                vstd::arithmetic::div_mod::lemma_mod_multiples_vanish(
                    self.buffer@.len() as int, 0, 8);
                assert(self.bits().len() % 8 == 0);
                assert(self.bits() =~= zero_pad(self.bits()));
            }
        }
        Ok(())
    }

    /// Flush and hand over the finished byte buffer; the writer is consumed.
    pub fn finish(self) -> (r: Result<Vec<u8>, AacLdError>)
        requires
            self.wf(),
        ensures
            r matches Ok(v) && bytes_bits(v@) == zero_pad(self.bits()),
    {
        let mut w = self;
        let flush_result = w.flush();
        proof {
            assert(flush_result is Ok);
            assert(partial_bits(w.current_byte, 0) =~= Seq::<bool>::empty());
            assert(bytes_bits(w.buffer@) =~= w.bits());
        }
        Ok(w.buffer)
    }
}

} // verus!
