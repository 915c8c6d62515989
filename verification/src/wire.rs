//! The types of the network protocol, as they are laid out in bytes.
//!
//! A `VarInt` holds a number in one to five bytes: seven bits to a byte,
//! the lowest first, with the highest bit of a byte set where another byte
//! follows. A string is the `VarInt` of its length in bytes, then its
//! bytes. A block position is one big-endian word of 64 bits with `x` in
//! the highest 26 bits, `y` in the next 12 and `z` in the lowest 26.
//!
//! The readers take the bytes received and the place to read at, and
//! return what they read with the place behind it.

use crate::path::push_char;
use vstd::string::StringSliceAdditionalSpecFns;
use vstd::prelude::*;

verus! {

/// The longest string that is read, in bytes.
pub const MAX_STRING_BYTES: i32 = 32767;

/// The position of a block.
#[derive(Clone, Copy, Debug, PartialEq, Eq, Structural, Hash)]
pub struct BlockPosition {
    pub x: i32,
    pub y: i32,
    pub z: i32,
}

impl BlockPosition {
    pub fn new(x: i32, y: i32, z: i32) -> (r: Self)
        ensures
            r == (BlockPosition { x, y, z }),
    {
        BlockPosition { x, y, z }
    }
}

/// The bytes of the `VarInt` of `value`.
pub open spec fn var_int_bytes(value: nat) -> Seq<u8>
    decreases value,
{
    if value < 128 {
        seq![value as u8]
    } else {
        seq![(value % 128 + 128) as u8] + var_int_bytes(value / 128)
    }
}

/// Writes a `VarInt` to the bytes.
pub fn write_var_int(out: &mut Vec<u8>, x: i32)
    requires
        x >= 0,
    ensures
        final(out)@ == old(out)@ + var_int_bytes(x as nat),
{
    let ghost whole = old(out)@ + var_int_bytes(x as nat);
    let mut x = x;
    while x >= 128
        invariant
            x >= 0,
            out@ + var_int_bytes(x as nat) == whole,
        decreases x,
    {
        let ghost before = out@;
        let temp = ((x & 0b0111_1111) as u8) | 0b1000_0000;
        proof {
            assert(((x & 0b0111_1111) as u8) | 0b1000_0000 == (x % 128 + 128) as u8 && x >> 7 == x
                / 128) by (bit_vector)
                requires
                    x >= 128,
            ;
        }
        out.push(temp);
        x = x >> 7;
        proof {
            assert(out@ + var_int_bytes(x as nat) =~= before + (seq![temp] + var_int_bytes(x as nat)));
        }
    }
    out.push(x as u8);
    proof {
        assert(out@ =~= whole);
    }
}

/// The number that the `VarInt` bytes at `at` spell, with the place behind
/// them, after `read` of its bytes gave the bits `so_far`. There is none
/// where the bytes end within the number or the number takes more than
/// five bytes.
pub open spec fn var_int_from(bytes: Seq<u8>, at: int, read: int, so_far: u32) -> Option<(i32, int)>
    decreases 5 - read,
{
    if at < 0 || at >= bytes.len() || read < 0 || read >= 5 {
        None
    } else {
        let bits = so_far | (((bytes[at] & 0x7f) as u32) << ((7 * read) as u32));
        if bytes[at] & 0x80 == 0 {
            Some((bits as i32, at + 1))
        } else {
            var_int_from(bytes, at + 1, read + 1, bits)
        }
    }
}

/// The number that the `VarInt` bytes at `at` spell, with the place behind
/// them.
pub open spec fn var_int_at(bytes: Seq<u8>, at: int) -> Option<(i32, int)> {
    var_int_from(bytes, at, 0, 0)
}

/// Reads a `VarInt` at `at`, returning the number and the place behind
/// it, or `Err` where the bytes do not hold a valid `VarInt` there.
pub fn read_var_int(bytes: &[u8], at: usize) -> (r: Result<(i32, usize), ()>)
    ensures
        match var_int_at(bytes@, at as int) {
            Some((value, next)) => r == Ok::<(i32, usize), ()>((value, next as usize)) && at < next
                <= bytes@.len(),
            None => r is Err,
        },
{
    let mut num_read: u32 = 0;
    let mut result: u32 = 0;
    let mut cursor = at;
    loop
        invariant
            num_read <= 4,
            at <= cursor <= at + num_read,
            var_int_at(bytes@, at as int) == var_int_from(
                bytes@,
                cursor as int,
                num_read as int,
                result,
            ),
        decreases 5 - num_read,
    {
        if cursor >= bytes.len() {
            return Err(());
        }
        let read = bytes[cursor];
        let value = read & 0b0111_1111;
        result = result | ((value as u32) << (7 * num_read));
        cursor = cursor + 1;
        if read & 0b1000_0000 == 0 {
            return Ok((result as i32, cursor));
        }
        num_read = num_read + 1;
        if num_read >= 5 {
            return Err(());
        }
    }
}

proof fn lemma_var_int_step(x: u32, shift: u32)
    requires
        shift == 0 || shift == 7 || shift == 14 || shift == 21 || shift == 28,
        x <= 0x7fff_ffff,
    ensures
        ({
            let rest = x >> shift;
            let low = x & (((1u32 << shift) - 1) as u32);
            let last = rest as u8;
            let more = ((rest % 128 + 128) as u8);
            &&& rest < 128 ==> last & 0x80 == 0 && low | (((last & 0x7f) as u32) << shift) == x
            &&& rest >= 128 ==> more & 0x80 != 0 && shift < 28 && low | (((more & 0x7f) as u32)
                << shift) == x & (((1u32 << ((shift + 7) as u32)) - 1) as u32) && rest / 128 == x >> ((
            shift + 7) as u32)
        }),
{
    let rest = x >> shift;
    let low = x & (((1u32 << shift) - 1) as u32);
    let last = rest as u8;
    let more = ((rest % 128 + 128) as u8);
    assert(rest < 128 ==> last & 0x80 == 0 && low | (((last & 0x7f) as u32) << shift) == x)
        by (bit_vector)
        requires
            shift == 0 || shift == 7 || shift == 14 || shift == 21 || shift == 28,
            x <= 0x7fff_ffff,
            rest == x >> shift,
            low == x & (((1u32 << shift) - 1) as u32),
            last == rest as u8,
    ;
    assert(rest >= 128 ==> more & 0x80 != 0 && shift < 28 && low | (((more & 0x7f) as u32) << shift)
        == x & (((1u32 << ((shift + 7) as u32)) - 1) as u32) && rest / 128 == x >> ((shift
        + 7) as u32)) by (bit_vector)
        requires
            shift == 0 || shift == 7 || shift == 14 || shift == 21 || shift == 28,
            x <= 0x7fff_ffff,
            rest == x >> shift,
            low == x & (((1u32 << shift) - 1) as u32),
            more == ((rest % 128 + 128) as u8),
    ;
}

proof fn lemma_var_int_from(bytes: Seq<u8>, at: int, read: int, x: u32)
    requires
        0 <= read < 5,
        0 <= at,
        x <= 0x7fff_ffff,
        at + var_int_bytes((x >> ((7 * read) as u32)) as nat).len() <= bytes.len(),
        bytes.subrange(at, at + var_int_bytes((x >> ((7 * read) as u32)) as nat).len())
            == var_int_bytes((x >> ((7 * read) as u32)) as nat),
    ensures
        var_int_from(bytes, at, read, x & (((1u32 << ((7 * read) as u32)) - 1) as u32)) == Some(
            (x as i32, at + var_int_bytes((x >> ((7 * read) as u32)) as nat).len()),
        ),
    decreases 5 - read,
{
    let shift = (7 * read) as u32;
    let rest = x >> shift;
    let encoded = var_int_bytes(rest as nat);
    lemma_var_int_step(x, shift);
    assert(bytes[at] == bytes.subrange(at, at + encoded.len())[0]);
    if rest < 128 {
        assert(encoded[0] == rest as u8);
    } else {
        let tail = var_int_bytes((rest / 128) as nat);
        assert(encoded[0] == ((rest % 128 + 128) as u8));
        assert(encoded.len() == 1 + tail.len());
        assert(bytes.subrange(at + 1, at + 1 + tail.len()) =~= tail) by {
            assert forall|i: int| 0 <= i < tail.len() implies bytes.subrange(
                at + 1,
                at + 1 + tail.len(),
            )[i] == tail[i] by {
                assert(bytes.subrange(at, at + encoded.len())[i + 1] == encoded[i + 1]);
            }
        }
        assert((7 * (read + 1)) as u32 == shift + 7);
        lemma_var_int_from(bytes, at + 1, read + 1, x);
    }
}

/// `VarInt` round trip: a number that is not negative is read back from
/// the bytes written for it, wherever they stand among other bytes, and
/// the place returned is the one behind them.
pub proof fn law_var_int_round_trip(before: Seq<u8>, x: i32, after: Seq<u8>)
    requires
        x >= 0,
    ensures
        var_int_at(before + var_int_bytes(x as nat) + after, before.len() as int) == Some(
            (x, (before.len() + var_int_bytes(x as nat).len()) as int),
        ),
{
    let bytes = before + var_int_bytes(x as nat) + after;
    let value = x as u32;
    assert(value >> 0u32 == value && value & (((1u32 << 0u32) - 1) as u32) == 0) by (bit_vector);
    assert(bytes.subrange(
        before.len() as int,
        (before.len() + var_int_bytes(x as nat).len()) as int,
    ) =~= var_int_bytes(x as nat));
    lemma_var_int_from(bytes, before.len() as int, 0, value);
}

/// The big-endian bytes of a word of 64 bits.
pub open spec fn be_bytes_u64(word: u64) -> Seq<u8> {
    Seq::new(8, |k: int| ((word >> ((56 - 8 * k) as u64)) & 0xff) as u8)
}

/// The word of 64 bits whose big-endian bytes are the eight at `at`.
pub open spec fn be_u64_at(bytes: Seq<u8>, at: int) -> u64 {
    ((bytes[at] as u64) << 56) | ((bytes[at + 1] as u64) << 48) | ((bytes[at + 2] as u64) << 40) | ((
    bytes[at + 3] as u64) << 32) | ((bytes[at + 4] as u64) << 24) | ((bytes[at + 5] as u64) << 16)
        | ((bytes[at + 6] as u64) << 8) | (bytes[at + 7] as u64)
}

/// The word that holds a block position.
pub open spec fn position_word(pos: BlockPosition) -> u64 {
    ((pos.x as u64 & 0x03FF_FFFF) << 38) | ((pos.y as u64 & 0xFFF) << 26) | (pos.z as u64
        & 0x03FF_FFFF)
}

/// The block position that a word holds: `x` and `z` with their sign, `y`
/// without.
pub open spec fn word_position(word: u64) -> BlockPosition {
    let val = word as i64;
    BlockPosition {
        x: (val >> 38) as i32,
        y: ((val >> 26) & 0xFFF) as i32,
        z: ((((word << 38) as i64) >> 38)) as i32,
    }
}

/// Writes a block position to the bytes.
pub fn write_position(out: &mut Vec<u8>, x: &BlockPosition)
    ensures
        final(out)@ == old(out)@ + be_bytes_u64(position_word(*x)),
{
    let result: u64 = ((x.x as u64 & 0x03FF_FFFF) << 38) | ((x.y as u64 & 0xFFF) << 26) | (x.z as u64
        & 0x03FF_FFFF);
    write_u64_be(out, result);
}

/// Writes a word of 64 bits to the bytes, the highest byte first.
pub fn write_u64_be(out: &mut Vec<u8>, word: u64)
    ensures
        final(out)@ == old(out)@ + be_bytes_u64(word),
{
    out.push(((word >> 56) & 0xff) as u8);
    out.push(((word >> 48) & 0xff) as u8);
    out.push(((word >> 40) & 0xff) as u8);
    out.push(((word >> 32) & 0xff) as u8);
    out.push(((word >> 24) & 0xff) as u8);
    out.push(((word >> 16) & 0xff) as u8);
    out.push(((word >> 8) & 0xff) as u8);
    out.push(((word >> 0) & 0xff) as u8);
    proof {
        assert(out@ =~= old(out)@ + be_bytes_u64(word));
    }
}

/// Reads a block position at `at`, returning it with the place behind it,
/// or `Err` where fewer than eight bytes are left.
pub fn read_position(bytes: &[u8], at: usize) -> (r: Result<(BlockPosition, usize), ()>)
    ensures
        at + 8 <= bytes@.len() ==> r == Ok::<(BlockPosition, usize), ()>(
            (word_position(be_u64_at(bytes@, at as int)), (at + 8) as usize),
        ),
        at + 8 > bytes@.len() ==> r is Err,
{
    if bytes.len() < 8 || at > bytes.len() - 8 {
        return Err(());
    }
    let word = ((bytes[at] as u64) << 56) | ((bytes[at + 1] as u64) << 48) | ((bytes[at + 2] as u64)
        << 40) | ((bytes[at + 3] as u64) << 32) | ((bytes[at + 4] as u64) << 24) | ((bytes[at
        + 5] as u64) << 16) | ((bytes[at + 6] as u64) << 8) | (bytes[at + 7] as u64);
    let val = word as i64;
    let x = val >> 38;
    let y = (val >> 26) & 0xFFF;
    let z = ((word << 38) as i64) >> 38;
    Ok((BlockPosition::new(x as i32, y as i32, z as i32), at + 8))
}

/// Whether a block position can be written without loss: `x` and `z` fit
/// 26 bits with their sign and `y` fits 12 bits.
pub open spec fn position_fits(pos: BlockPosition) -> bool {
    &&& -0x200_0000 <= pos.x < 0x200_0000
    &&& 0 <= pos.y < 0x1000
    &&& -0x200_0000 <= pos.z < 0x200_0000
}

/// Position round trip: a block position that fits comes back from its
/// word.
pub proof fn law_position_round_trip(pos: BlockPosition)
    requires
        position_fits(pos),
    ensures
        word_position(position_word(pos)) == pos,
{
    let x = pos.x;
    let y = pos.y;
    let z = pos.z;
    let word = ((x as u64 & 0x03FF_FFFF) << 38) | ((y as u64 & 0xFFF) << 26) | (z as u64
        & 0x03FF_FFFF);
    assert(((word as i64) >> 38) as i32 == x && (((word as i64) >> 26) & 0xFFF) as i32 == y && ((((
    word << 38) as i64) >> 38)) as i32 == z) by (bit_vector)
        requires
            word == ((x as u64 & 0x03FF_FFFF) << 38) | ((y as u64 & 0xFFF) << 26) | (z as u64
                & 0x03FF_FFFF),
            -0x200_0000 <= x < 0x200_0000,
            0 <= y < 0x1000,
            -0x200_0000 <= z < 0x200_0000,
    ;
}

/// Writes a truth value to the bytes: 1 for true, 0 for false.
pub fn write_bool(out: &mut Vec<u8>, x: bool)
    ensures
        final(out)@ == old(out)@.push(if x {
            1u8
        } else {
            0u8
        }),
{
    if x {
        out.push(1);
    } else {
        out.push(0);
    }
}

/// Reads a truth value at `at`, returning it with the place behind it, or
/// `Err` where no byte is left or the byte is neither 0 nor 1.
pub fn read_bool(bytes: &[u8], at: usize) -> (r: Result<(bool, usize), ()>)
    ensures
        at < bytes@.len() && bytes@[at as int] == 0 ==> r == Ok::<(bool, usize), ()>(
            (false, (at + 1) as usize),
        ),
        at < bytes@.len() && bytes@[at as int] == 1 ==> r == Ok::<(bool, usize), ()>(
            (true, (at + 1) as usize),
        ),
        at >= bytes@.len() || bytes@[at as int] > 1 ==> r is Err,
{
    if at >= bytes.len() {
        return Err(());
    }
    let byte = bytes[at];
    match byte {
        0 => Ok((false, at + 1)),
        1 => Ok((true, at + 1)),
        _ => Err(()),
    }
}

/// Writes a string to the bytes: first the length of the string in bytes
/// as a `VarInt`, then the UTF-8 bytes of the string.
pub fn write_string(out: &mut Vec<u8>, x: &str)
    requires
        x.spec_bytes().len() <= i32::MAX,
    ensures
        final(out)@ == old(out)@ + var_int_bytes(x.spec_bytes().len()) + x.spec_bytes(),
{
    let bytes = x.as_bytes();
    let len = bytes.len();
    write_var_int(out, len as i32);
    let mut i: usize = 0;
    let ghost headed = out@;
    while i < len
        invariant
            i <= len,
            len == bytes@.len(),
            out@ == headed + bytes@.subrange(0, i as int),
        decreases len - i,
    {
        out.push(bytes[i]);
        proof {
            assert(out@ =~= headed + bytes@.subrange(0, i + 1));
        }
        i = i + 1;
    }
    proof {
        assert(bytes@.subrange(0, len as int) =~= bytes@);
    }
}

/// The characters that bytes stand for, each byte by itself.
pub open spec fn byte_chars(bytes: Seq<u8>) -> Seq<char> {
    Seq::new(bytes.len(), |i: int| bytes[i] as char)
}

/// What reading a string at `at` returns: the string of the bytes after
/// the length, each byte taken as a character by itself, with the place
/// behind them. There is none where the length is no `VarInt`, is
/// negative or above 32767, or where fewer bytes are left than it tells.
pub open spec fn string_at(bytes: Seq<u8>, at: int) -> Option<(Seq<char>, int)> {
    match var_int_at(bytes, at) {
        Some((len, start)) => if 0 <= len <= MAX_STRING_BYTES && start + len <= bytes.len() {
            Some((byte_chars(bytes.subrange(start, start + len)), start + len))
        } else {
            None
        },
        None => None,
    }
}

/// Reads a string at `at`, returning it with the place behind it.
pub fn read_string(bytes: &[u8], at: usize) -> (r: Result<(String, usize), ()>)
    ensures
        match string_at(bytes@, at as int) {
            Some((text, next)) => r matches Ok((s, n)) && s@ == text && n == next,
            None => r is Err,
        },
{
    let (len, start) = match read_var_int(bytes, at) {
        Ok(read) => read,
        Err(e) => {
            return Err(e);
        },
    };
    // Check that the client isn't trying
    // to make the server allocate ridiculous
    // amounts of memory
    if len < 0 || len > MAX_STRING_BYTES {
        return Err(());
    }
    let len = len as usize;
    if len > bytes.len() - start {
        return Err(());
    }
    let mut result = String::new();
    let mut i: usize = 0;
    while i < len
        invariant
            i <= len,
            start + len <= bytes@.len(),
            bytes@.len() <= usize::MAX,
            result@ == byte_chars(bytes@.subrange(start as int, start + i)),
        decreases len - i,
    {
        push_char(&mut result, bytes[start + i] as char);
        proof {
            assert(result@ =~= byte_chars(bytes@.subrange(start as int, start + i + 1)));
        }
        i = i + 1;
    }
    Ok((result, start + len))
}

} // verus!
