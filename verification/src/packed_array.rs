//! A fixed-width packed integer array.
//!
//! Every logical value occupies `bits_per_value` bits of a 64-bit word and
//! never straddles two words: a word holds `64 / bits_per_value` values and
//! the remaining high bits are unused.

use vstd::prelude::*;

verus! {

/// The largest value that fits in `bits_per_value` bits.
pub open spec fn mask_of(bits_per_value: u64) -> u64 {
    if bits_per_value >= 64 {
        u64::MAX
    } else {
        ((1u64 << bits_per_value) - 1) as u64
    }
}

/// How many values one word holds.
pub open spec fn values_per_word(bits_per_value: int) -> int {
    64int / bits_per_value
}

/// How many words are needed for `length` values.
pub open spec fn words_needed(length: int, bits_per_value: int) -> int {
    let per_word = values_per_word(bits_per_value);
    if length % per_word == 0 {
        length / per_word
    } else {
        length / per_word + 1
    }
}

/// The value stored in slot `slot` of `word`.
pub open spec fn unpack(word: u64, slot: int, bits_per_value: int) -> u64 {
    (word >> ((slot * bits_per_value) as u64)) & mask_of(bits_per_value as u64)
}

/// The value at logical index `index` of an array stored in `words`.
pub open spec fn value_at(words: Seq<u64>, index: int, bits_per_value: int) -> u64 {
    let per_word = values_per_word(bits_per_value);
    unpack(words[index / per_word], index % per_word, bits_per_value)
}

/// The logical contents of `words`, read as `length` values of
/// `bits_per_value` bits each.
pub open spec fn unpack_all(words: Seq<u64>, length: int, bits_per_value: int) -> Seq<u64> {
    Seq::new(length as nat, |i: int| value_at(words, i, bits_per_value))
}

/// The width of a value that the sizes of raw data imply.
pub open spec fn derived_width(word_count: int, length: int) -> int {
    word_count * 64 / length
}

/// Whether `word_count` words can be read as `length` values whose width is
/// derived from the sizes alone.
pub open spec fn raw_geometry_ok(word_count: int, length: int) -> bool {
    &&& word_count > 0
    &&& length > 0
    &&& 1 <= derived_width(word_count, length) <= 64
    &&& words_needed(length, derived_width(word_count, length)) <= word_count
}

/// What `get` returns on an array with the given contents.
pub open spec fn get_spec(values: Seq<u64>, index: int) -> Option<u64> {
    if 0 <= index < values.len() {
        Some(values[index])
    } else {
        None
    }
}

/// The contents of an array after `set(index, value)`.
pub open spec fn set_spec(values: Seq<u64>, index: int, value: u64) -> Seq<u64> {
    values.update(index, value)
}

/// The contents of an array of `length` values after `fill(value)`.
pub open spec fn fill_spec(length: nat, value: u64) -> Seq<u64> {
    Seq::new(length, |i: int| value)
}

/// Whether every value of `values` fits in `bits_per_value` bits.
pub open spec fn all_fit(values: Seq<u64>, bits_per_value: int) -> bool {
    forall|i: int| 0 <= i < values.len() ==> #[trigger] values[i] <= mask_of(bits_per_value as u64)
}

/// The word that holds the values from index `first` on in its first
/// `slots` slots: value `first + s` shifted to slot `s`, all of them joined
/// by OR, and every other bit 0. A slot past the end of `values` is left 0.
pub open spec fn pack_slots(values: Seq<u64>, first: int, slots: int, bits_per_value: int) -> u64
    decreases slots,
{
    if slots <= 0 {
        0
    } else {
        let below = pack_slots(values, first, slots - 1, bits_per_value);
        let index = first + slots - 1;
        if 0 <= index < values.len() {
            below | (values[index] << (((slots - 1) * bits_per_value) as u64))
        } else {
            below
        }
    }
}

/// The words that hold `values` at `bits_per_value` bits each: as many
/// values to a word as fit, none across two words, unused bits 0.
pub open spec fn packed_words(values: Seq<u64>, bits_per_value: int) -> Seq<u64> {
    let per_word = values_per_word(bits_per_value);
    Seq::new(
        words_needed(values.len() as int, bits_per_value) as nat,
        |k: int| pack_slots(values, k * per_word, per_word, bits_per_value),
    )
}

/// The word after `value` was written to slot `slot`: the bits of the slot
/// are cleared and the value is put there; the other bits stay.
pub open spec fn with_slot(word: u64, slot: int, bits_per_value: int, value: u64) -> u64 {
    let offset = (slot * bits_per_value) as u64;
    (word & !(mask_of(bits_per_value as u64) << offset)) | (value << offset)
}

/// The word that holds `value` in every slot.
pub open spec fn fill_word(value: u64, bits_per_value: int) -> u64 {
    let per_word = values_per_word(bits_per_value);
    pack_slots(Seq::new(per_word as nat, |i: int| value), 0, per_word, bits_per_value)
}

/// The value handed to `fill` exceeds the array's maximum value.
#[derive(Clone, Copy, Debug, PartialEq, Eq, Structural)]
pub struct ValueTooLarge {
    /// The rejected value.
    pub value: u64,
    /// The largest value the array can hold.
    pub max_value: u64,
}

/// A packed array of integers where each integer consumes
/// `bits_per_value` bits. Used to store block data in chunks.
#[derive(Debug)]
pub struct PackedArray {
    length: usize,
    bits_per_value: usize,
    bits: Vec<u64>,
}

/// A word holds between 1 and 64 values, and as many as fit its 64 bits.
pub proof fn lemma_per_word_bounds(bits_per_value: int)
    requires
        1 <= bits_per_value <= 64,
    ensures
        1 <= values_per_word(bits_per_value) <= 64,
        values_per_word(bits_per_value) * bits_per_value <= 64,
        64 < (values_per_word(bits_per_value) + 1) * bits_per_value,
{
    let per_word = 64int / bits_per_value;
    assert(1 <= per_word <= 64 && per_word * bits_per_value <= 64 && 64 < (per_word + 1)
        * bits_per_value) by (nonlinear_arith)
        requires
            per_word == 64int / bits_per_value,
            1 <= bits_per_value <= 64,
    ;
}

proof fn lemma_slots_fit(bits_per_value: int, slot: int)
    requires
        1 <= bits_per_value <= 64,
        0 <= slot < values_per_word(bits_per_value),
    ensures
        0 <= slot * bits_per_value,
        slot * bits_per_value + bits_per_value <= 64,
{
    let per_word = 64int / bits_per_value;
    lemma_per_word_bounds(bits_per_value);
    assert(slot * bits_per_value + bits_per_value <= per_word * bits_per_value
        && 0 <= slot * bits_per_value) by (nonlinear_arith)
        requires
            0 <= slot < per_word,
            1 <= bits_per_value,
    ;
}

proof fn lemma_slots_apart(bits_per_value: int, a: int, b: int)
    requires
        1 <= bits_per_value,
        0 <= a < b,
    ensures
        a * bits_per_value + bits_per_value <= b * bits_per_value,
{
    assert(a * bits_per_value + bits_per_value <= b * bits_per_value) by (nonlinear_arith)
        requires
            1 <= bits_per_value,
            0 <= a < b,
    ;
}

proof fn lemma_mask_exec(b: u64)
    requires
        b < 64,
    ensures
        (1u64 << b) >= 1,
{
    assert((1u64 << b) >= 1) by (bit_vector)
        requires
            b < 64,
    ;
}

proof fn lemma_read_zero(o: u64, m: u64)
    requires
        o < 64,
    ensures
        (0u64 >> o) & m == 0,
{
    assert((0u64 >> o) & m == 0) by (bit_vector)
        requires
            o < 64,
    ;
}

proof fn lemma_write_then_read(w: u64, v: u64, o: u64, b: u64)
    requires
        1 <= b <= 64,
        o + b <= 64,
        v <= mask_of(b),
    ensures
        (((w & !(mask_of(b) << o)) | (v << o)) >> o) & mask_of(b) == v,
{
    let m = mask_of(b);
    if b == 64 {
        assert((((w & !(m << o)) | (v << o)) >> o) & m == v) by (bit_vector)
            requires
                o == 0,
                m == 0xffff_ffff_ffff_ffffu64,
        ;
    } else {
        assert((((w & !(m << o)) | (v << o)) >> o) & m == v) by (bit_vector)
            requires
                1 <= b < 64,
                o + b <= 64,
                m == ((1u64 << b) - 1) as u64,
                v <= m,
        ;
    }
}

proof fn lemma_write_keeps_other(w: u64, v: u64, o: u64, p: u64, b: u64)
    requires
        1 <= b <= 64,
        o + b <= 64,
        p + b <= 64,
        p + b <= o || o + b <= p,
        v <= mask_of(b),
    ensures
        (((w & !(mask_of(b) << o)) | (v << o)) >> p) & mask_of(b) == (w >> p) & mask_of(b),
{
    let m = mask_of(b);
    assert(b < 64);
    assert((((w & !(m << o)) | (v << o)) >> p) & m == (w >> p) & m) by (bit_vector)
        requires
            1 <= b < 64,
            o + b <= 64,
            p + b <= 64,
            p + b <= o || o + b <= p,
            m == ((1u64 << b) - 1) as u64,
            v <= m,
    ;
}

impl View for PackedArray {
    type V = Seq<u64>;

    /// The logical values, in index order.
    closed spec fn view(&self) -> Seq<u64> {
        unpack_all(self.bits@, self.length as int, self.bits_per_value as int)
    }
}

impl PackedArray {
    /// The invariant of a usable array: a width between 1 and 64 bits and
    /// enough words to hold every value.
    pub closed spec fn wf(&self) -> bool {
        &&& 1 <= self.bits_per_value <= 64
        &&& words_needed(self.length as int, self.bits_per_value as int) <= self.bits@.len()
    }

    /// The number of logical values.
    pub closed spec fn spec_len(&self) -> usize {
        self.length
    }

    /// The width of one value, in bits.
    pub closed spec fn spec_bits_per_value(&self) -> usize {
        self.bits_per_value
    }

    /// The backing words.
    pub closed spec fn raw(&self) -> Seq<u64> {
        self.bits@
    }

    /// The largest value the array can hold.
    pub open spec fn spec_max_value(&self) -> u64 {
        mask_of(self.spec_bits_per_value() as u64)
    }

    /// The logical values are the backing words read slot by slot, and each
    /// of them fits the array's width.
    pub proof fn lemma_view(&self)
        requires
            self.wf(),
        ensures
            self@ == unpack_all(
                self.raw(),
                self.spec_len() as int,
                self.spec_bits_per_value() as int,
            ),
            self@.len() == self.spec_len(),
            1 <= self.spec_bits_per_value() <= 64,
            words_needed(self.spec_len() as int, self.spec_bits_per_value() as int)
                <= self.raw().len(),
            all_fit(self@, self.spec_bits_per_value() as int),
    {
        let b = self.bits_per_value as u64;
        let m = mask_of(b);
        assert forall|i: int| 0 <= i < self@.len() implies #[trigger] self@[i] <= m by {
            let w = self.bits@[i / values_per_word(b as int)];
            let o = ((i % values_per_word(b as int)) * (b as int)) as u64;
            assert((w >> o) & m <= m) by (bit_vector);
        }
    }

    fn mask(&self) -> (m: u64)
        requires
            self.wf(),
        ensures
            m == self.spec_max_value(),
    {
        if self.bits_per_value >= 64 {
            u64::MAX
        } else {
            let b = self.bits_per_value as u64;
            proof {
                lemma_mask_exec(b);
            }
            (1u64 << b) - 1
        }
    }

    fn values_per_u64(&self) -> (n: usize)
        requires
            self.wf(),
        ensures
            n == values_per_word(self.spec_bits_per_value() as int),
            1 <= n <= 64,
    {
        proof {
            lemma_per_word_bounds(self.bits_per_value as int);
        }
        64 / self.bits_per_value
    }

    fn indexes(&self, index: usize) -> (r: (usize, usize))
        requires
            self.wf(),
            index < self.spec_len(),
        ensures
            r.0 == index as int / values_per_word(self.spec_bits_per_value() as int),
            r.1 == (index as int % values_per_word(self.spec_bits_per_value() as int))
                * self.spec_bits_per_value(),
            r.0 < self.raw().len(),
            r.1 + self.spec_bits_per_value() <= 64,
    {
        let per_word = self.values_per_u64();
        let u64_index = index / per_word;
        let slot = index % per_word;
        proof {
            lemma_slots_fit(self.bits_per_value as int, slot as int);
            lemma_word_in_range(self.length as int, self.bits_per_value as int, index as int);
        }
        (u64_index, slot * self.bits_per_value)
    }

    /// Creates a new `PackedArray` with the given length and number of bits
    /// per value. Values are initialized to zero.
    pub fn new(length: usize, bits_per_value: usize) -> (r: Self)
        requires
            1 <= bits_per_value <= 64,
        ensures
            r.wf(),
            r.spec_len() == length,
            r.spec_bits_per_value() == bits_per_value,
            r.raw().len() == words_needed(length as int, bits_per_value as int),
            r.raw() == Seq::new(
                words_needed(length as int, bits_per_value as int) as nat,
                |k: int| 0u64,
            ),
            r.raw() == packed_words(r@, bits_per_value as int),
            r@ == fill_spec(length as nat, 0),
    {
        proof {
            lemma_per_word_bounds(bits_per_value as int);
        }
        let per_word = 64 / bits_per_value;
        let needed = if length % per_word == 0 {
            length / per_word
        } else {
            assert(length / per_word < length) by (nonlinear_arith)
                requires
                    per_word >= 1,
                    length % per_word != 0,
            ;
            length / per_word + 1
        };
        let bits = vec![0u64; needed];
        let r = PackedArray { length, bits_per_value, bits };
        proof {
            assert forall|i: int| 0 <= i < length implies #[trigger] r@[i] == 0u64 by {
                lemma_word_in_range(length as int, bits_per_value as int, i);
                lemma_slots_fit(bits_per_value as int, i % (per_word as int));
                lemma_read_zero(
                    ((i % (per_word as int)) * bits_per_value) as u64,
                    mask_of(bits_per_value as u64),
                );
            }
            assert(r@ =~= fill_spec(length as nat, 0));
            assert(r.bits@ =~= Seq::new(needed as nat, |k: int| 0u64));
            assert forall|k: int| 0 <= k < needed implies #[trigger] packed_words(
                r@,
                bits_per_value as int,
            )[k] == 0u64 by {
                lemma_pack_zeros(r@, k * (per_word as int), per_word as int, bits_per_value as int);
            }
            assert(r.bits@ =~= packed_words(r@, bits_per_value as int));
        }
        r
    }

    /// Whether `bits` can be read as `length` values: the sizes must give a
    /// width between 1 and 64 bits and enough words for every value.
    pub fn raw_geometry_fits(word_count: usize, length: usize) -> (r: bool)
        ensures
            r == raw_geometry_ok(word_count as int, length as int),
    {
        if word_count == 0 || length == 0 {
            return false;
        }
        let total_bits: u128 = (word_count as u128) * 64;
        let width: u128 = total_bits / (length as u128);
        if width < 1 || width > 64 {
            return false;
        }
        let bits_per_value = width as usize;
        proof {
            lemma_per_word_bounds(bits_per_value as int);
        }
        let per_word = 64 / bits_per_value;
        let whole = length / per_word;
        if length % per_word == 0 {
            whole <= word_count
        } else {
            whole < word_count
        }
    }

    /// Creates a `PackedArray` from raw `u64` data and a length. The width
    /// of a value is derived as `bits.len() * 64 / length`.
    pub fn from_u64_vec(bits: Vec<u64>, length: usize) -> (r: Self)
        requires
            raw_geometry_ok(bits@.len() as int, length as int),
        ensures
            r.wf(),
            r.spec_len() == length,
            r.spec_bits_per_value() == derived_width(bits@.len() as int, length as int),
            r.raw() == bits@,
            r@ == unpack_all(bits@, length as int, derived_width(bits@.len() as int, length as int)),
    {
        let total_bits: u128 = (bits.len() as u128) * 64;
        let bits_per_value = (total_bits / (length as u128)) as usize;
        PackedArray { length, bits_per_value, bits }
    }

    /// Creates a `PackedArray` from raw `u64` data and a length, or returns
    /// `None` where the sizes do not describe an array.
    pub fn checked_from_u64_vec(bits: Vec<u64>, length: usize) -> (r: Option<Self>)
        ensures
            r is Some <==> raw_geometry_ok(bits@.len() as int, length as int),
            r matches Some(a) ==> {
                &&& a.wf()
                &&& a.spec_len() == length
                &&& a.spec_bits_per_value() == derived_width(bits@.len() as int, length as int)
                &&& a.raw() == bits@
                &&& a@ == unpack_all(bits@, length as int, derived_width(bits@.len() as int, length as int))
            },
    {
        if Self::raw_geometry_fits(bits.len(), length) {
            Some(Self::from_u64_vec(bits, length))
        } else {
            None
        }
    }

    /// Creates a `PackedArray` from raw `i64` data and a length. Each word
    /// keeps its bit pattern.
    pub fn from_i64_vec(bits: Vec<i64>, length: usize) -> (r: Self)
        requires
            raw_geometry_ok(bits@.len() as int, length as int),
        ensures
            r.wf(),
            r.spec_len() == length,
            r.spec_bits_per_value() == derived_width(bits@.len() as int, length as int),
            r.raw() == words_from_signed(bits@),
            r@ == unpack_all(
                words_from_signed(bits@),
                length as int,
                derived_width(bits@.len() as int, length as int),
            ),
    {
        Self::from_u64_vec(signed_to_words(&bits), length)
    }

    /// Gets the value at the given index, or `None` past the end.
    pub fn get(&self, index: usize) -> (r: Option<u64>)
        requires
            self.wf(),
        ensures
            r == get_spec(self@, index as int),
    {
        if index >= self.length {
            return None;
        }
        let (u64_index, bit_index) = self.indexes(index);
        let word = self.bits[u64_index];
        Some((word >> (bit_index as u64)) & self.mask())
    }

    /// Sets the value at the given index.
    pub fn set(&mut self, index: usize, value: u64)
        requires
            old(self).wf(),
            index < old(self).spec_len(),
            value <= old(self).spec_max_value(),
        ensures
            final(self).wf(),
            final(self).spec_len() == old(self).spec_len(),
            final(self).spec_bits_per_value() == old(self).spec_bits_per_value(),
            final(self).raw().len() == old(self).raw().len(),
            final(self).raw() == old(self).raw().update(
                index as int / values_per_word(old(self).spec_bits_per_value() as int),
                with_slot(
                    old(self).raw()[index as int / values_per_word(
                        old(self).spec_bits_per_value() as int,
                    )],
                    index as int % values_per_word(old(self).spec_bits_per_value() as int),
                    old(self).spec_bits_per_value() as int,
                    value,
                ),
            ),
            old(self).raw() == packed_words(old(self)@, old(self).spec_bits_per_value() as int)
                ==> final(self).raw() == packed_words(
                final(self)@,
                old(self).spec_bits_per_value() as int,
            ),
            final(self)@ == set_spec(old(self)@, index as int, value),
    {
        let mask = self.mask();
        let (u64_index, bit_index) = self.indexes(index);
        let word = self.bits[u64_index];
        let offset = bit_index as u64;
        let updated = (word & !(mask << offset)) | (value << offset);
        self.bits.set(u64_index, updated);
        proof {
            let b = self.bits_per_value as int;
            let per_word = values_per_word(b);
            lemma_per_word_bounds(b);
            assert forall|j: int| 0 <= j < self.length implies #[trigger] self@[j] == set_spec(
                old(self)@,
                index as int,
                value,
            )[j] by {
                lemma_word_in_range(self.length as int, b, j);
                lemma_slots_fit(b, j % per_word);
                let p = ((j % per_word) * b) as u64;
                if j == index {
                    lemma_write_then_read(word, value, offset, b as u64);
                } else if j / per_word == index as int / per_word {
                    let sj = j % per_word;
                    let si = index as int % per_word;
                    assert(sj != si) by {
                        vstd::arithmetic::div_mod::lemma_fundamental_div_mod(j, per_word);
                        vstd::arithmetic::div_mod::lemma_fundamental_div_mod(
                            index as int,
                            per_word,
                        );
                    }
                    if sj < si {
                        lemma_slots_apart(b, sj, si);
                    } else {
                        lemma_slots_apart(b, si, sj);
                    }
                    lemma_write_keeps_other(word, value, offset, p, b as u64);
                }
            }
            assert(self@ =~= set_spec(old(self)@, index as int, value));
            if old(self).bits@ == packed_words(old(self)@, b) {
                old(self).lemma_view();
                lemma_set_keeps_packed(old(self)@, b, index as int, value);
            }
        }
    }

    /// Sets all values in the packed array to `value`, or leaves the array
    /// as it is and reports the value where it exceeds `max_value()`.
    pub fn fill(&mut self, value: u64) -> (r: Result<(), ValueTooLarge>)
        requires
            old(self).wf(),
        ensures
            final(self).wf(),
            final(self).spec_len() == old(self).spec_len(),
            final(self).spec_bits_per_value() == old(self).spec_bits_per_value(),
            final(self).raw().len() == old(self).raw().len(),
            value <= old(self).spec_max_value() ==> r is Ok && final(self)@ == fill_spec(
                old(self).spec_len() as nat,
                value,
            ) && final(self).raw() == Seq::new(
                old(self).raw().len(),
                |k: int| fill_word(value, old(self).spec_bits_per_value() as int),
            ),
            value > old(self).spec_max_value() ==> r == Err::<(), ValueTooLarge>(
                ValueTooLarge { value, max_value: old(self).spec_max_value() },
            ) && final(self)@ == old(self)@ && final(self).raw() == old(self).raw(),
    {
        let mask = self.mask();
        if value > mask {
            return Err(ValueTooLarge { value, max_value: mask });
        }
        let per_word = self.values_per_u64();
        let width = self.bits_per_value;
        let mut pattern: u64 = 0;
        let mut slot: usize = 0;
        proof {
            lemma_per_word_bounds(width as int);
            assert(0u64 >> 0u64 == 0) by (bit_vector);
        }
        while slot < per_word
            invariant
                1 <= width <= 64,
                per_word == values_per_word(width as int),
                slot <= per_word,
                value <= mask_of(width as u64),
                slot * width <= 64,
                slot * width < 64 ==> pattern >> ((slot * width) as u64) == 0,
                forall|k: int| 0 <= k < slot ==> #[trigger] unpack(pattern, k, width as int) == value,
                pattern == pack_slots(
                    Seq::new(per_word as nat, |i: int| value),
                    0,
                    slot as int,
                    width as int,
                ),
            decreases per_word - slot,
        {
            proof {
                lemma_slots_fit(width as int, slot as int);
            }
            let offset = (slot * width) as u64;
            let next = pattern | (value << offset);
            proof {
                let b = width as u64;
                lemma_fill_step(pattern, value, offset, b);
                assert((slot + 1) * width == slot * width + width) by (nonlinear_arith);
                assert forall|k: int| 0 <= k < slot + 1 implies #[trigger] unpack(
                    next,
                    k,
                    width as int,
                ) == value by {
                    if k < slot {
                        lemma_slots_fit(width as int, k);
                        lemma_slots_apart(width as int, k, slot as int);
                        lemma_fill_keeps(pattern, value, offset, (k * width) as u64, b);
                        assert(unpack(pattern, k, width as int) == value);
                    }
                }
            }
            pattern = next;
            slot = slot + 1;
        }
        let mut i: usize = 0;
        let count = self.bits.len();
        while i < count
            invariant
                i <= count,
                count == self.bits@.len(),
                self.length == old(self).length,
                self.bits_per_value == old(self).bits_per_value,
                forall|j: int| 0 <= j < i ==> #[trigger] self.bits@[j] == pattern,
            decreases count - i,
        {
            self.bits.set(i, pattern);
            i = i + 1;
        }
        proof {
            assert forall|j: int| 0 <= j < self.length implies #[trigger] self@[j] == value by {
                lemma_word_in_range(self.length as int, width as int, j);
                vstd::arithmetic::div_mod::lemma_mod_bound(j, per_word as int);
            }
            assert(self@ =~= fill_spec(self.length as nat, value));
            assert(self.bits@ =~= Seq::new(
                old(self).bits@.len(),
                |k: int| fill_word(value, width as int),
            ));
        }
        Ok(())
    }

    /// Returns an iterator over values in this array, in index order.
    pub fn iter(&self) -> (r: std::vec::IntoIter<u64>)
        requires
            self.wf(),
        ensures
            vstd::std_specs::vec::into_iter_elts(r) == self@,
    {
        broadcast use vstd::std_specs::vec::axiom_spec_into_iter;

        self.to_vec().into_iter()
    }

    /// Returns the values of this array, in index order.
    pub fn to_vec(&self) -> (r: Vec<u64>)
        requires
            self.wf(),
        ensures
            r@ == self@,
    {
        let mask = self.mask();
        let mut out: Vec<u64> = Vec::with_capacity(self.length);
        let mut i: usize = 0;
        while i < self.length
            invariant
                self.wf(),
                i <= self.length,
                mask == self.spec_max_value(),
                out@.len() == i,
                forall|j: int| 0 <= j < i ==> #[trigger] out@[j] == self@[j],
            decreases self.length - i,
        {
            let (u64_index, bit_index) = self.indexes(i);
            let word = self.bits[u64_index];
            out.push((word >> (bit_index as u64)) & mask);
            i = i + 1;
        }
        proof {
            assert(out@ =~= self@);
        }
        out
    }

    /// Resizes this packed array to a new bits per value: the result holds
    /// the same values, each stored in `new_bits_per_value` bits.
    #[must_use]
    pub fn resized(&self, new_bits_per_value: usize) -> (r: PackedArray)
        requires
            self.wf(),
            1 <= new_bits_per_value <= 64,
            all_fit(self@, new_bits_per_value as int),
        ensures
            r.wf(),
            r.spec_len() == self.spec_len(),
            r.spec_bits_per_value() == new_bits_per_value,
            r.raw() == packed_words(self@, new_bits_per_value as int),
            r.raw().len() == words_needed(self.spec_len() as int, new_bits_per_value as int),
            r@ == self@,
    {
        Self::from_iter(self.to_vec(), new_bits_per_value)
    }

    /// Collects a list of values into a `PackedArray`.
    pub fn from_iter(values: Vec<u64>, bits_per_value: usize) -> (r: Self)
        requires
            1 <= bits_per_value <= 64,
            all_fit(values@, bits_per_value as int),
        ensures
            r.wf(),
            r.spec_len() == values@.len(),
            r.spec_bits_per_value() == bits_per_value,
            r.raw() == packed_words(values@, bits_per_value as int),
            r.raw().len() == words_needed(values@.len() as int, bits_per_value as int),
            r@ == values@,
    {
        let mut array = Self::new(values.len(), bits_per_value);
        let mut i: usize = 0;
        while i < values.len()
            invariant
                array.wf(),
                i <= values@.len(),
                array.spec_len() == values@.len(),
                array.spec_bits_per_value() == bits_per_value,
                array.raw() == packed_words(array@, bits_per_value as int),
                array.raw().len() == words_needed(values@.len() as int, bits_per_value as int),
                all_fit(values@, bits_per_value as int),
                array@.len() == values@.len(),
                forall|j: int| 0 <= j < i ==> #[trigger] array@[j] == values@[j],
            decreases values@.len() - i,
        {
            array.set(i, values[i]);
            i = i + 1;
        }
        proof {
            assert(array@ =~= values@);
        }
        array
    }

    /// Tests whether the array is usable: its width lies between 1 and 64
    /// bits and its words can hold every value.
    pub fn is_usable(&self) -> (r: bool)
        ensures
            r == self.wf(),
    {
        if self.bits_per_value < 1 || self.bits_per_value > 64 {
            return false;
        }
        proof {
            lemma_per_word_bounds(self.bits_per_value as int);
        }
        let per_word = 64 / self.bits_per_value;
        let whole = self.length / per_word;
        if self.length % per_word == 0 {
            whole <= self.bits.len()
        } else {
            whole < self.bits.len()
        }
    }

    /// Returns the maximum value of an integer in this packed array.
    pub fn max_value(&self) -> (r: u64)
        requires
            self.wf(),
        ensures
            r == self.spec_max_value(),
    {
        self.mask()
    }

    /// Returns the length of this packed array.
    #[verifier::when_used_as_spec(spec_len)]
    pub fn len(&self) -> (r: usize)
        ensures
            r == self.spec_len(),
    {
        self.length
    }

    /// Determines whether the length of this array is 0.
    pub fn is_empty(&self) -> (r: bool)
        ensures
            r == (self.spec_len() == 0),
    {
        self.length == 0
    }

    /// Returns the number of bits used to represent each value.
    #[verifier::when_used_as_spec(spec_bits_per_value)]
    pub fn bits_per_value(&self) -> (r: usize)
        ensures
            r == self.spec_bits_per_value(),
    {
        self.bits_per_value
    }

    /// Sets the number of bits used to represent each value. The backing
    /// words stay as they are, so the values are read anew at the new width.
    pub fn set_bits_per_value(&mut self, new_value: usize)
        ensures
            final(self).spec_bits_per_value() == new_value,
            final(self).spec_len() == old(self).spec_len(),
            final(self).raw() == old(self).raw(),
            final(self).wf() <==> 1 <= new_value <= 64 && words_needed(
                old(self).spec_len() as int,
                new_value as int,
            ) <= old(self).raw().len(),
            final(self)@ == unpack_all(
                old(self).raw(),
                old(self).spec_len() as int,
                new_value as int,
            ),
    {
        self.bits_per_value = new_value;
    }

    /// Gets the raw `u64` data.
    pub fn as_u64_slice(&self) -> (r: &[u64])
        ensures
            r@ == self.raw(),
    {
        self.bits.as_slice()
    }

    /// Gets the raw mutable `u64` data. Whatever the caller leaves in the
    /// vector becomes the backing words of the array.
    pub fn as_u64_mut_vec(&mut self) -> (r: &mut Vec<u64>)
        ensures
            r@ == old(self).raw(),
            final(self).raw() == final(r)@,
            final(self).spec_len() == old(self).spec_len(),
            final(self).spec_bits_per_value() == old(self).spec_bits_per_value(),
    {
        &mut self.bits
    }
}

impl Clone for PackedArray {
    fn clone(&self) -> (r: Self)
        ensures
            r.spec_len() == self.spec_len(),
            r.spec_bits_per_value() == self.spec_bits_per_value(),
            r.raw() == self.raw(),
            r@ == self@,
            r.wf() == self.wf(),
    {
        let bits = self.bits.clone();
        proof {
            assert(bits@ =~= self.bits@);
        }
        PackedArray { length: self.length, bits_per_value: self.bits_per_value, bits }
    }
}

/// The words of a signed list, each with its bit pattern kept.
pub open spec fn words_from_signed(words: Seq<i64>) -> Seq<u64> {
    Seq::new(words.len(), |i: int| words[i] as u64)
}

/// Reinterprets each signed word as an unsigned one.
pub fn signed_to_words(words: &Vec<i64>) -> (r: Vec<u64>)
    ensures
        r@ == words_from_signed(words@),
{
    let mut out: Vec<u64> = Vec::with_capacity(words.len());
    let mut i: usize = 0;
    while i < words.len()
        invariant
            i <= words@.len(),
            out@.len() == i,
            forall|j: int| 0 <= j < i ==> #[trigger] out@[j] == words@[j] as u64,
        decreases words@.len() - i,
    {
        out.push(words[i] as u64);
        i = i + 1;
    }
    proof {
        assert(out@ =~= words_from_signed(words@));
    }
    out
}

/// The signed words of an unsigned list, each with its bit pattern kept.
pub open spec fn signed_from_words(words: Seq<u64>) -> Seq<i64> {
    Seq::new(words.len(), |i: int| words[i] as i64)
}

/// Reinterprets each unsigned word as a signed one.
pub fn words_to_signed(words: &[u64]) -> (r: Vec<i64>)
    ensures
        r@ == signed_from_words(words@),
{
    let mut out: Vec<i64> = Vec::with_capacity(words.len());
    let mut i: usize = 0;
    while i < words.len()
        invariant
            i <= words@.len(),
            out@.len() == i,
            forall|j: int| 0 <= j < i ==> #[trigger] out@[j] == words@[j] as i64,
        decreases words@.len() - i,
    {
        out.push(words[i] as i64);
        i = i + 1;
    }
    proof {
        assert(out@ =~= signed_from_words(words@));
    }
    out
}

proof fn lemma_fill_step(x: u64, v: u64, o: u64, b: u64)
    requires
        1 <= b <= 64,
        o + b <= 64,
        v <= mask_of(b),
        x >> o == 0,
    ensures
        ((x | (v << o)) >> o) & mask_of(b) == v,
        o + b < 64 ==> (x | (v << o)) >> ((o + b) as u64) == 0,
{
    let m = mask_of(b);
    if b == 64 {
        assert(((x | (v << o)) >> o) & m == v) by (bit_vector)
            requires
                o == 0,
                x >> o == 0,
                m == 0xffff_ffff_ffff_ffffu64,
        ;
    } else {
        assert(((x | (v << o)) >> o) & m == v) by (bit_vector)
            requires
                1 <= b < 64,
                o + b <= 64,
                m == ((1u64 << b) - 1) as u64,
                v <= m,
                x >> o == 0,
        ;
        if o + b < 64 {
            let ob = (o + b) as u64;
            assert((x | (v << o)) >> ob == 0) by (bit_vector)
                requires
                    1 <= b < 64,
                    o + b < 64,
                    ob == o + b,
                    m == ((1u64 << b) - 1) as u64,
                    v <= m,
                    x >> o == 0,
            ;
        }
    }
}

proof fn lemma_fill_keeps(x: u64, v: u64, o: u64, p: u64, b: u64)
    requires
        1 <= b <= 64,
        o + b <= 64,
        p + b <= o,
    ensures
        ((x | (v << o)) >> p) & mask_of(b) == (x >> p) & mask_of(b),
{
    let m = mask_of(b);
    assert(b < 64);
    assert(((x | (v << o)) >> p) & m == (x >> p) & m) by (bit_vector)
        requires
            1 <= b < 64,
            o + b <= 64,
            p + b <= o,
            m == ((1u64 << b) - 1) as u64,
    ;
}

/// Packing zeros gives the word 0.
pub proof fn lemma_pack_zeros(values: Seq<u64>, first: int, slots: int, bits_per_value: int)
    requires
        forall|i: int| 0 <= i < values.len() ==> #[trigger] values[i] == 0,
    ensures
        pack_slots(values, first, slots, bits_per_value) == 0,
    decreases slots,
{
    if slots > 0 {
        lemma_pack_zeros(values, first, slots - 1, bits_per_value);
        let offset = ((slots - 1) * bits_per_value) as u64;
        assert(0u64 | (0u64 << offset) == 0) by (bit_vector);
    }
}

/// A value outside the slots that are packed does not tell on the word.
pub proof fn lemma_pack_elsewhere(
    values: Seq<u64>,
    first: int,
    slots: int,
    bits_per_value: int,
    index: int,
    value: u64,
)
    requires
        0 <= index < values.len(),
        index < first || first + slots <= index,
    ensures
        pack_slots(values.update(index, value), first, slots, bits_per_value) == pack_slots(
            values,
            first,
            slots,
            bits_per_value,
        ),
    decreases slots,
{
    if slots > 0 {
        lemma_pack_elsewhere(values, first, slots - 1, bits_per_value, index, value);
    }
}

/// The word of the first `slots` slots has no bit set above them.
pub proof fn lemma_pack_top(values: Seq<u64>, first: int, slots: int, bits_per_value: int)
    requires
        1 <= bits_per_value <= 64,
        0 <= slots <= values_per_word(bits_per_value),
        all_fit(values, bits_per_value),
    ensures
        slots * bits_per_value <= 64,
        slots * bits_per_value < 64 ==> pack_slots(values, first, slots, bits_per_value) >> ((slots
            * bits_per_value) as u64) == 0,
    decreases slots,
{
    lemma_per_word_bounds(bits_per_value);
    let per_word = values_per_word(bits_per_value);
    assert(slots * bits_per_value <= per_word * bits_per_value) by (nonlinear_arith)
        requires
            0 <= slots <= per_word,
            1 <= bits_per_value,
    ;
    if slots > 0 {
        lemma_pack_top(values, first, slots - 1, bits_per_value);
        lemma_slots_fit(bits_per_value, slots - 1);
        let below = pack_slots(values, first, slots - 1, bits_per_value);
        let offset = ((slots - 1) * bits_per_value) as u64;
        let index = first + slots - 1;
        assert((slots - 1) * bits_per_value + bits_per_value == slots * bits_per_value)
            by (nonlinear_arith);
        if slots * bits_per_value < 64 {
            let top = (slots * bits_per_value) as u64;
            assert(below >> offset == 0);
            if 0 <= index < values.len() {
                assert(values[index] <= mask_of(bits_per_value as u64));
                lemma_fill_step(below, values[index], offset, bits_per_value as u64);
                assert(top == (offset + bits_per_value as u64) as u64);
            } else {
                assert(below >> offset == 0 ==> below >> top == 0) by (bit_vector)
                    requires
                        offset <= top < 64,
                ;
            }
        }
    } else {
        assert(slots * bits_per_value == 0) by (nonlinear_arith)
            requires
                slots == 0,
        ;
        assert(0u64 >> 0u64 == 0) by (bit_vector);
    }
}

/// Writing to the topmost slot of a word replaces what the slot held and
/// leaves the slots below it.
proof fn lemma_slot_replaced(below: u64, held: u64, value: u64, o: u64, b: u64)
    requires
        1 <= b <= 64,
        o + b <= 64,
        held <= mask_of(b),
        o < 64 ==> below >> o == 0,
    ensures
        ((below | (held << o)) & !(mask_of(b) << o)) | (value << o) == below | (value << o),
{
    let m = mask_of(b);
    if b == 64 {
        assert(((below | (held << o)) & !(m << o)) | (value << o) == below | (value << o))
            by (bit_vector)
            requires
                o == 0,
                below >> o == 0,
                m == 0xffff_ffff_ffff_ffffu64,
        ;
    } else {
        assert(((below | (held << o)) & !(m << o)) | (value << o) == below | (value << o))
            by (bit_vector)
            requires
                1 <= b < 64,
                o + b <= 64,
                m == ((1u64 << b) - 1) as u64,
                held <= m,
                below >> o == 0,
        ;
    }
}

/// Writing to a slot leaves a value that is stored above the slot.
proof fn lemma_slot_below(word: u64, above: u64, value: u64, o: u64, t: u64, b: u64)
    requires
        1 <= b < 64,
        o + b <= t,
        t < 64,
    ensures
        ((word | (above << t)) & !(mask_of(b) << o)) | (value << o) == ((word & !(mask_of(b) << o))
            | (value << o)) | (above << t),
{
    let m = mask_of(b);
    assert(((word | (above << t)) & !(m << o)) | (value << o) == ((word & !(m << o)) | (value << o))
        | (above << t)) by (bit_vector)
        requires
            1 <= b < 64,
            o + b <= t,
            t < 64,
            m == ((1u64 << b) - 1) as u64,
    ;
}

/// Writing a value to a slot of a packed word gives the packed word of the
/// values with that value in the slot's place.
pub proof fn lemma_pack_with_slot(
    values: Seq<u64>,
    first: int,
    slots: int,
    bits_per_value: int,
    slot: int,
    value: u64,
)
    requires
        1 <= bits_per_value <= 64,
        0 <= slot < slots <= values_per_word(bits_per_value),
        0 <= first + slot < values.len(),
        all_fit(values, bits_per_value),
    ensures
        with_slot(pack_slots(values, first, slots, bits_per_value), slot, bits_per_value, value)
            == pack_slots(values.update(first + slot, value), first, slots, bits_per_value),
    decreases slots,
{
    let b = bits_per_value;
    let changed = values.update(first + slot, value);
    let below = pack_slots(values, first, slots - 1, b);
    let t = ((slots - 1) * b) as u64;
    let o = (slot * b) as u64;
    let index = first + slots - 1;
    lemma_slots_fit(b, slot);
    lemma_slots_fit(b, slots - 1);
    if slot == slots - 1 {
        lemma_pack_elsewhere(values, first, slots - 1, b, first + slot, value);
        lemma_pack_top(values, first, slots - 1, b);
        lemma_slot_replaced(below, values[index], value, o, b as u64);
    } else {
        lemma_pack_with_slot(values, first, slots - 1, b, slot, value);
        if 0 <= index < values.len() {
            lemma_slots_apart(b, slot, slots - 1);
            lemma_slot_below(below, values[index], value, o, t, b as u64);
        }
    }
}

/// Setting a value keeps packed words packed: the words of the values
/// with `value` at `index` are the words of the values with one slot of
/// one word written anew.
pub proof fn lemma_set_keeps_packed(values: Seq<u64>, bits_per_value: int, index: int, value: u64)
    requires
        1 <= bits_per_value <= 64,
        0 <= index < values.len(),
        all_fit(values, bits_per_value),
    ensures
        packed_words(values.update(index, value), bits_per_value) == packed_words(
            values,
            bits_per_value,
        ).update(
            index / values_per_word(bits_per_value),
            with_slot(
                packed_words(values, bits_per_value)[index / values_per_word(bits_per_value)],
                index % values_per_word(bits_per_value),
                bits_per_value,
                value,
            ),
        ),
{
    let b = bits_per_value;
    let per_word = values_per_word(b);
    lemma_per_word_bounds(b);
    lemma_word_in_range(values.len() as int, b, index);
    let word = index / per_word;
    let slot = index % per_word;
    vstd::arithmetic::div_mod::lemma_fundamental_div_mod(index, per_word);
    assert(word * per_word == per_word * word) by (nonlinear_arith);
    let before = packed_words(values, b);
    let after = packed_words(values.update(index, value), b);
    let expected = before.update(word, with_slot(before[word], slot, b, value));
    assert forall|k: int| 0 <= k < after.len() implies after[k] == expected[k] by {
        if k == word {
            lemma_pack_with_slot(values, word * per_word, per_word, b, slot, value);
        } else {
            assert(index < k * per_word || k * per_word + per_word <= index) by (nonlinear_arith)
                requires
                    k != word,
                    index == per_word * word + slot,
                    0 <= slot < per_word,
            ;
            lemma_pack_elsewhere(values, k * per_word, per_word, b, index, value);
        }
    }
    assert(after =~= expected);
}

/// The contents of an array after a list of `set` calls, given as pairs of
/// index and value and made in the order of the list.
pub open spec fn after_sets(values: Seq<u64>, writes: Seq<(int, u64)>) -> Seq<u64>
    decreases writes.len(),
{
    if writes.len() == 0 {
        values
    } else {
        set_spec(after_sets(values, writes.drop_last()), writes.last().0, writes.last().1)
    }
}

/// The value of the latest write to `index` in `writes`, if there is one.
pub open spec fn last_written(writes: Seq<(int, u64)>, index: int) -> Option<u64>
    decreases writes.len(),
{
    if writes.len() == 0 {
        None
    } else if writes.last().0 == index {
        Some(writes.last().1)
    } else {
        last_written(writes.drop_last(), index)
    }
}

/// Round trip: on an array of any width from 1 to 64 bits, `set(i, v)` with a
/// value that fits makes `get(i)` return `Some(v)` and leaves what `get`
/// returns at every other index as it was.
pub proof fn law_set_then_get(array: PackedArray, i: usize, v: u64, other: usize)
    requires
        array.wf(),
        i < array.spec_len(),
        v <= array.spec_max_value(),
    ensures
        get_spec(set_spec(array@, i as int, v), i as int) == Some(v),
        other != i ==> get_spec(set_spec(array@, i as int, v), other as int) == get_spec(
            array@,
            other as int,
        ),
{
    array.lemma_view();
}

/// Iteration consistency: after any list of `set` calls on valid indices,
/// the values that `iter()` yields have the length of the array and hold, at
/// each index, the value written there last, or the earlier value where
/// nothing was written.
pub proof fn law_iter_after_sets(values: Seq<u64>, writes: Seq<(int, u64)>, index: int)
    requires
        forall|k: int| 0 <= k < writes.len() ==> 0 <= (#[trigger] writes[k]).0 < values.len(),
        0 <= index < values.len(),
    ensures
        after_sets(values, writes).len() == values.len(),
        after_sets(values, writes)[index] == match last_written(writes, index) {
            Some(v) => v,
            None => values[index],
        },
    decreases writes.len(),
{
    if writes.len() > 0 {
        let earlier = writes.drop_last();
        assert forall|k: int| 0 <= k < earlier.len() implies 0 <= (#[trigger] earlier[k]).0
            < values.len() by {
            assert(earlier[k] == writes[k]);
        }
        law_iter_after_sets(values, earlier, index);
    }
}

proof fn lemma_word_in_range(length: int, bits_per_value: int, index: int)
    requires
        1 <= bits_per_value <= 64,
        0 <= index < length,
    ensures
        0 <= index / values_per_word(bits_per_value) < words_needed(length, bits_per_value),
{
    let per_word = values_per_word(bits_per_value);
    lemma_per_word_bounds(bits_per_value);
    assert(0 <= index / per_word && (index / per_word < length / per_word || (index / per_word
        == length / per_word && length % per_word != 0))) by (nonlinear_arith)
        requires
            per_word >= 1,
            0 <= index < length,
    ;
}

} // verus!
