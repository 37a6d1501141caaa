//! Little-endian binary reading and writing, with the variable-length
//! integers and strings that Celeste's binary formats use.
use vstd::prelude::*;

use crate::utils::text::{
    all_ascii,
    all_bytes,
    chars_of,
    lemma_char_byte_roundtrip,
    push_char,
};

verus! {

// ---------------------------------------------------------------------------
// Mathematical model of the encodings
// ---------------------------------------------------------------------------

/// `256^k`
pub open spec fn pow256(k: nat) -> nat
    decreases k,
{
    if k == 0 {
        1
    } else {
        256 * pow256((k - 1) as nat)
    }
}

/// The number that little-endian bytes `s` stand for.
pub open spec fn le_value(s: Seq<u8>) -> nat
    decreases s.len(),
{
    if s.len() == 0 {
        0
    } else {
        s[0] as nat + 256 * le_value(s.drop_first())
    }
}

/// The `k` little-endian bytes of `v` (the low `k` bytes when `v` does not fit).
pub open spec fn le_bytes(v: nat, k: nat) -> Seq<u8>
    decreases k,
{
    if k == 0 {
        Seq::empty()
    } else {
        seq![(v % 256) as u8] + le_bytes(v / 256, (k - 1) as nat)
    }
}

/// The two bytes of an `i16`.
pub open spec fn i16_bytes(v: i16) -> Seq<u8> {
    le_bytes((v as u16) as nat, 2)
}

/// The four bytes of an `i32`.
pub open spec fn i32_bytes(v: i32) -> Seq<u8> {
    le_bytes((v as u32) as nat, 4)
}

/// The eight bytes of an `i64`.
pub open spec fn i64_bytes(v: i64) -> Seq<u8> {
    le_bytes((v as u64) as nat, 8)
}

/// Whether a varint byte says that another byte follows.
pub open spec fn has_continuation(b: u8) -> bool {
    b & 0x80u8 != 0
}

/// The low seven bits of the first `n` bytes of `s`, placed seven bits apart
/// into a `u32` (bits past the 32nd are lost).
pub open spec fn varint_acc(s: Seq<u8>, n: nat) -> u32
    decreases n,
{
    if n == 0 {
        0
    } else {
        varint_acc(s, (n - 1) as nat) | ((((s[n - 1] & 0x7fu8) as u32) << ((7 * (n - 1)) as u32)) as u32)
    }
}

/// The position, among the first five bytes of `s` from `i` on, of the first
/// byte without a continuation bit.
pub open spec fn varint_end_from(s: Seq<u8>, i: nat) -> Option<nat>
    decreases 5 - i,
{
    if i >= 5 || i >= s.len() {
        None
    } else if !has_continuation(s[i as int]) {
        Some(i)
    } else {
        varint_end_from(s, i + 1)
    }
}

/// Reading a varint from the front of `r`: the result and how many bytes were consumed.
pub open spec fn varint_read(r: Seq<u8>) -> (Result<u32, BinReadError>, nat) {
    match varint_end_from(r, 0) {
        Some(i) => (Ok(varint_acc(r, i + 1)), i + 1),
        None => if r.len() >= 5 {
            (Err(BinReadError::InvalidVarint(varint_acc(r, 5), r[4])), 5)
        } else {
            (Err(BinReadError::EndOfBuffer), r.len())
        },
    }
}

/// The varint encoding of `v`: seven bits per byte, low bits first, the high
/// bit set on every byte but the last.
pub open spec fn varint_bytes(v: u32) -> Seq<u8>
    decreases v,
{
    if v >> 7u32 == 0 {
        seq![(v & 0x7fu32) as u8]
    } else {
        proof {
            lemma_shift_decreases(v);
        }
        seq![((v & 0x7fu32) | 0x80u32) as u8] + varint_bytes(v >> 7u32)
    }
}

/// Shifting a nonzero varint remainder right by seven bits makes it smaller.
pub proof fn lemma_shift_decreases(v: u32)
    ensures
        v >> 7u32 != 0 ==> v >> 7u32 < v,
{
    assert(v >> 7u32 != 0 ==> v >> 7u32 < v) by (bit_vector);
}

/// A read result with its value converted by `f`.
pub open spec fn map_ok<T>(r: Result<T, BinReadError>, f: spec_fn(T) -> nat) -> Result<nat, BinReadError> {
    match r {
        Ok(v) => Ok(f(v)),
        Err(e) => Err(e),
    }
}

/// Bytes read back as characters, one character per byte.
pub open spec fn bytes_as_chars(s: Seq<u8>) -> Seq<char> {
    s.map_values(|b: u8| b as char)
}

/// Characters written as bytes, one byte per character.
pub open spec fn chars_as_bytes(s: Seq<char>) -> Seq<u8> {
    s.map_values(|c: char| c as u8)
}

/// Reading a varint-prefixed string from the front of `r`.
pub open spec fn string_read(r: Seq<u8>) -> (Result<Seq<char>, BinReadError>, nat) {
    let (v, n) = varint_read(r);
    match v {
        Err(e) => (Err(e), n),
        Ok(len) => if n + len <= r.len() {
            (Ok(bytes_as_chars(r.subrange(n as int, n + len))), (n + len) as nat)
        } else {
            (Err(BinReadError::EndOfBuffer), r.len())
        },
    }
}

/// The characters that the first `n` (count, byte) pairs of `p` expand to.
pub open spec fn rle_expand(p: Seq<u8>, n: nat) -> Seq<char>
    decreases n,
{
    if n == 0 {
        Seq::empty()
    } else {
        rle_expand(p, (n - 1) as nat) + Seq::new(
            p[2 * (n - 1)] as nat,
            |_i: int| p[2 * (n - 1) + 1] as char,
        )
    }
}

/// How many (count, byte) pairs a run-length header announces.
pub open spec fn rle_pairs(header: i16) -> nat {
    if header <= 0 {
        0
    } else {
        ((header + 1) / 2) as nat
    }
}

/// Reading a run-length encoded string from the front of `r`.
pub open spec fn rle_read(r: Seq<u8>) -> (Result<Seq<char>, BinReadError>, nat) {
    if r.len() < 2 {
        (Err(BinReadError::EndOfBuffer), r.len())
    } else {
        let header = (le_value(r.subrange(0, 2)) as u16) as i16;
        let np = rle_pairs(header);
        if 2 + 2 * np <= r.len() {
            (Ok(rle_expand(r.subrange(2, 2 + 2 * np as int), np)), 2 + 2 * np)
        } else {
            (Err(BinReadError::EndOfBuffer), r.len())
        }
    }
}

/// The encoder's state after the nonempty `s`: pairs emitted so far, the
/// character of the open run, and its length (runs stop at 255).
pub open spec fn rle_state(s: Seq<char>) -> (Seq<u8>, char, nat)
    decreases s.len(),
{
    if s.len() <= 1 {
        (Seq::empty(), s[0], 1)
    } else {
        let (out, c, n) = rle_state(s.drop_last());
        let x = s.last();
        if x != c || n == 255 {
            (out + seq![n as u8, #[verifier::truncate] (c as u8)], x, 1)
        } else {
            (out, c, n + 1)
        }
    }
}

/// The run-length encoding of `s`: (count, byte) pairs of maximal runs of at most 255.
pub open spec fn rle_encode(s: Seq<char>) -> Seq<u8> {
    if s.len() == 0 {
        Seq::empty()
    } else {
        let (out, c, n) = rle_state(s);
        out + seq![n as u8, #[verifier::truncate] (c as u8)]
    }
}

// ---------------------------------------------------------------------------
// Reading
// ---------------------------------------------------------------------------

/// A cursor over a byte buffer.
pub struct BinReader<'a> {
    contents: &'a [u8],
    cursor: usize,
}

#[derive(Debug, PartialEq, Eq, Structural)]
pub enum BinReadError {
    EndOfBuffer,
    InvalidBoolPattern(u8),
    InvalidVarint(u32, u8),
}

impl<'a> BinReader<'a> {
    /// The bytes being read.
    pub closed spec fn data(self) -> Seq<u8> {
        self.contents@
    }

    /// The position of the next byte to read (never past the end).
    pub closed spec fn pos(self) -> nat {
        if self.cursor <= self.contents@.len() {
            self.cursor as nat
        } else {
            self.contents@.len()
        }
    }

    /// The position never lies past the end of the data.
    pub proof fn lemma_pos_bound(self)
        ensures
            self.pos() <= self.data().len(),
    {
    }

    /// The bytes not read yet.
    pub open spec fn rest(self) -> Seq<u8> {
        self.data().subrange(self.pos() as int, self.data().len() as int)
    }

    /// Whether `after` is `before` moved on by `n` bytes.
    pub open spec fn moved(before: Self, after: Self, n: nat) -> bool {
        &&& after.data() == before.data()
        &&& after.pos() == before.pos() + n
        &&& after.pos() <= after.data().len()
    }

    pub fn new(data: &'a [u8]) -> (r: Self)
        requires
            data@.len() > 0,
        ensures
            r.data() == data@,
            r.pos() == 0,
    {
        BinReader { contents: data, cursor: 0 }
    }

    pub fn restart(&mut self)
        ensures
            final(self).data() == old(self).data(),
            final(self).pos() == 0,
    {
        self.cursor = 0;
    }

    pub fn seek(&mut self, position: usize)
        requires
            position < old(self).data().len(),
        ensures
            final(self).data() == old(self).data(),
            final(self).pos() == position,
    {
        self.cursor = position;
    }

    /// Whether every byte has been read.
    pub fn at_end(&self) -> (r: bool)
        ensures
            r == (self.pos() >= self.data().len()),
    {
        self.cursor >= self.contents.len()
    }

    pub fn read_u8(&mut self) -> (res: Result<u8, BinReadError>)
        ensures
            old(self).pos() < old(self).data().len() ==> {
                &&& res == Ok::<u8, BinReadError>(old(self).data()[old(self).pos() as int])
                &&& Self::moved(*old(self), *final(self), 1)
            },
            old(self).pos() >= old(self).data().len() ==> {
                &&& res == Err::<u8, BinReadError>(BinReadError::EndOfBuffer)
                &&& Self::moved(*old(self), *final(self), 0)
            },
    {
        proof {
            self.lemma_pos_bound();
        }
        if self.cursor < self.contents.len() {
            let byte = self.contents[self.cursor];
            self.cursor = self.cursor + 1;
            Ok(byte)
        } else {
            Err(BinReadError::EndOfBuffer)
        }
    }

    /// Reads `k` bytes as a little-endian number; on a short buffer the
    /// cursor ends at the end of the data.
    fn read_le(&mut self, k: usize) -> (res: Result<u64, BinReadError>)
        requires
            1 <= k <= 8,
        ensures
            final(self).data() == old(self).data(),
            final(self).pos() <= final(self).data().len(),
            old(self).pos() + k <= old(self).data().len() ==> {
                &&& res == Ok::<u64, BinReadError>(
                    le_value(old(self).data().subrange(old(self).pos() as int, old(self).pos() + k)) as u64,
                )
                &&& le_value(old(self).data().subrange(old(self).pos() as int, old(self).pos() + k)) < pow256(k as nat)
                &&& final(self).pos() == old(self).pos() + k
            },
            old(self).pos() + k > old(self).data().len() ==> {
                &&& res == Err::<u64, BinReadError>(BinReadError::EndOfBuffer)
                &&& final(self).pos() == old(self).data().len()
            },
    {
        proof {
            self.lemma_pos_bound();
        }
        let len = self.contents.len();
        if self.cursor > len || len - self.cursor < k {
            self.cursor = len;
            return Err(BinReadError::EndOfBuffer);
        }
        let start = self.cursor;
        let ghost s = self.contents@.subrange(start as int, start + k);
        let mut value: u64 = 0;
        let mut j: usize = k;
        proof {
            assert(s.subrange(k as int, k as int) =~= Seq::<u8>::empty());
            reveal_with_fuel(pow256, 9);
        }
        while j > 0
            invariant
                0 <= j <= k <= 8,
                start + k <= self.contents@.len(),
                start + k <= len,
                s == self.contents@.subrange(start as int, start + k),
                value as nat == le_value(s.subrange(j as int, k as int)),
                le_value(s.subrange(j as int, k as int)) < pow256((k - j) as nat),
                pow256(8) == 0x1_0000_0000_0000_0000,
            decreases j,
        {
            let ghost tail = s.subrange(j as int, k as int);
            let ghost longer = s.subrange(j - 1, k as int);
            assert(longer.drop_first() =~= tail);
            assert(longer[0] == self.contents@[start + j - 1]);
            proof {
                lemma_pow256_mono((k - j) as nat, 7);
            }
            let b = self.contents[start + j - 1];
            value = value * 256 + b as u64;
            j = j - 1;
        }
        assert(s.subrange(0, k as int) =~= s);
        self.cursor = start + k;
        Ok(value)
    }

    pub fn read_i8(&mut self) -> (res: Result<i8, BinReadError>)
        ensures
            old(self).pos() < old(self).data().len() ==> {
                &&& res == Ok::<i8, BinReadError>(old(self).data()[old(self).pos() as int] as i8)
                &&& Self::moved(*old(self), *final(self), 1)
            },
            old(self).pos() >= old(self).data().len() ==> {
                &&& res == Err::<i8, BinReadError>(BinReadError::EndOfBuffer)
                &&& Self::moved(*old(self), *final(self), 0)
            },
    {
        let b = self.read_u8()?;
        Ok(b as i8)
    }

    pub fn read_u16(&mut self) -> (res: Result<u16, BinReadError>)
        ensures
            Self::fixed_read(*old(self), *final(self), 2, map_ok(res, |v: u16| v as nat)),
    {
        let v = self.read_le(2)?;
        proof {
            reveal_with_fuel(pow256, 3);
        }
        Ok(v as u16)
    }

    pub fn read_i16(&mut self) -> (res: Result<i16, BinReadError>)
        ensures
            Self::fixed_read(*old(self), *final(self), 2, map_ok(res, |v: i16| (v as u16) as nat)),
    {
        let v = self.read_u16()?;
        proof {
            assert((v as i16) as u16 == v) by (bit_vector);
        }
        Ok(v as i16)
    }

    pub fn read_u32(&mut self) -> (res: Result<u32, BinReadError>)
        ensures
            Self::fixed_read(*old(self), *final(self), 4, map_ok(res, |v: u32| v as nat)),
    {
        let v = self.read_le(4)?;
        proof {
            reveal_with_fuel(pow256, 5);
        }
        Ok(v as u32)
    }

    pub fn read_i32(&mut self) -> (res: Result<i32, BinReadError>)
        ensures
            Self::fixed_read(*old(self), *final(self), 4, map_ok(res, |v: i32| (v as u32) as nat)),
    {
        let v = self.read_u32()?;
        proof {
            assert((v as i32) as u32 == v) by (bit_vector);
        }
        Ok(v as i32)
    }

    pub fn read_u64(&mut self) -> (res: Result<u64, BinReadError>)
        ensures
            Self::fixed_read(*old(self), *final(self), 8, map_ok(res, |v: u64| v as nat)),
    {
        let v = self.read_le(8)?;
        proof {
            reveal_with_fuel(pow256, 9);
        }
        Ok(v)
    }

    pub fn read_i64(&mut self) -> (res: Result<i64, BinReadError>)
        ensures
            Self::fixed_read(*old(self), *final(self), 8, map_ok(res, |v: i64| (v as u64) as nat)),
    {
        let v = self.read_u64()?;
        proof {
            assert((v as i64) as u64 == v) by (bit_vector);
        }
        Ok(v as i64)
    }

    /// What reading a `k`-byte little-endian number does: `value` is the
    /// result with the number taken as unsigned.
    pub open spec fn fixed_read(
        before: Self,
        after: Self,
        k: nat,
        value: Result<nat, BinReadError>,
    ) -> bool {
        &&& after.data() == before.data()
        &&& after.pos() <= after.data().len()
        &&& before.pos() + k <= before.data().len() ==> {
            &&& value == Ok::<nat, BinReadError>(
                le_value(before.data().subrange(before.pos() as int, (before.pos() + k) as int)),
            )
            &&& after.pos() == before.pos() + k
        }
        &&& before.pos() + k > before.data().len() ==> {
            &&& value == Err::<nat, BinReadError>(BinReadError::EndOfBuffer)
            &&& after.pos() == before.data().len()
        }
    }

    /// Reads a `bool` from the data.
    ///
    /// Only 0 or 1 are valid bools, anything else returns an error
    pub fn read_bool(&mut self) -> (res: Result<bool, BinReadError>)
        ensures
            old(self).pos() < old(self).data().len() ==> {
                let b = old(self).data()[old(self).pos() as int];
                &&& b <= 1 ==> res == Ok::<bool, BinReadError>(b == 1)
                &&& b > 1 ==> res == Err::<bool, BinReadError>(BinReadError::InvalidBoolPattern(b))
                &&& Self::moved(*old(self), *final(self), 1)
            },
            old(self).pos() >= old(self).data().len() ==> {
                &&& res == Err::<bool, BinReadError>(BinReadError::EndOfBuffer)
                &&& Self::moved(*old(self), *final(self), 0)
            },
    {
        let byte = self.read_u8()?;
        if byte > 1 {
            Err(BinReadError::InvalidBoolPattern(byte))
        } else {
            Ok(byte == 1)
        }
    }

    pub fn read_char(&mut self) -> (res: Result<char, BinReadError>)
        ensures
            old(self).pos() < old(self).data().len() ==> {
                &&& res == Ok::<char, BinReadError>(old(self).data()[old(self).pos() as int] as char)
                &&& Self::moved(*old(self), *final(self), 1)
            },
            old(self).pos() >= old(self).data().len() ==> {
                &&& res == Err::<char, BinReadError>(BinReadError::EndOfBuffer)
                &&& Self::moved(*old(self), *final(self), 0)
            },
    {
        let b = self.read_u8()?;
        Ok(b as char)
    }

    /// Reads a variable sized integer, maxing out at a `u32`
    pub fn read_varint(&mut self) -> (res: Result<u32, BinReadError>)
        ensures
            res == varint_read(old(self).rest()).0,
            Self::moved(*old(self), *final(self), varint_read(old(self).rest()).1),
    {
        proof {
            self.lemma_pos_bound();
        }
        let ghost r = self.rest();
        let ghost start = self.pos();
        let mut result: u32 = 0;
        let mut by: u8 = 0;
        let mut i: u32 = 0;
        while i < 5
            invariant
                0 <= i <= 5,
                r == old(self).rest(),
                start == old(self).pos(),
                start + r.len() == self.data().len(),
                self.data() == old(self).data(),
                self.pos() == start + i,
                i <= r.len(),
                result == varint_acc(r, i as nat),
                forall|j: int| 0 <= j < i ==> has_continuation(#[trigger] r[j]),
                varint_end_from(r, 0) == varint_end_from(r, i as nat),
                i > 0 ==> by == r[i - 1],
            decreases 5 - i,
        {
            proof {
                self.lemma_pos_bound();
            }
            let ghost before = *self;
            let b = match self.read_u8() {
                Ok(b) => b,
                Err(e) => {
                    proof {
                        assert(i == r.len());
                        assert(varint_end_from(r, i as nat) == None::<nat>);
                    }
                    return Err(e);
                },
            };
            by = b;
            assert(b == r[i as int]);
            result = result | (((b & 0x7f) as u32) << (7 * i));
            if (b & 0x80) == 0 {
                proof {
                    assert(!has_continuation(r[i as int]));
                    assert(varint_end_from(r, i as nat) == Some(i as nat));
                }
                return Ok(result);
            }
            proof {
                assert(has_continuation(r[i as int]));
                assert(varint_end_from(r, i as nat) == varint_end_from(r, (i + 1) as nat));
            }
            i = i + 1;
        }
        proof {
            assert(varint_end_from(r, 5) == None::<nat>);
        }
        Err(BinReadError::InvalidVarint(result, by))
    }

    /// Reads a string, reading a varint to indicate length
    pub fn read_string(&mut self) -> (res: Result<String, BinReadError>)
        ensures
            match string_read(old(self).rest()) {
                (Ok(cs), _) => res matches Ok(s) && s@ == cs,
                (Err(e), _) => res == Err::<String, BinReadError>(e),
            },
            Self::moved(*old(self), *final(self), string_read(old(self).rest()).1),
    {
        proof {
            self.lemma_pos_bound();
        }
        let ghost r = self.rest();
        let length = self.read_varint()?;
        let ghost n = varint_read(r).1;
        let mut buf = String::new();
        let mut k: u32 = 0;
        while k < length
            invariant
                r == old(self).rest(),
                varint_read(r).0 == Ok::<u32, BinReadError>(length),
                n == varint_read(r).1,
                n <= r.len(),
                old(self).pos() + r.len() == old(self).data().len(),
                self.data() == old(self).data(),
                self.pos() == old(self).pos() + n + k,
                k <= length,
                n + k <= r.len(),
                buf@ == bytes_as_chars(r.subrange(n as int, n + k)),
            decreases length - k,
        {
            proof {
                self.lemma_pos_bound();
            }
            let c = match self.read_char() {
                Ok(c) => c,
                Err(e) => {
                    return Err(e);
                },
            };
            assert(c == r[n + k] as char);
            push_char(&mut buf, c);
            assert(bytes_as_chars(r.subrange(n as int, n + k)).push(c) =~= bytes_as_chars(
                r.subrange(n as int, n + k + 1),
            ));
            k = k + 1;
        }
        Ok(buf)
    }

    /// Reads a [run length encoded](https://en.wikipedia.org/wiki/Run-length_encoding) string, with a i16 indicating length
    pub fn read_length_encoded_string(&mut self) -> (res: Result<String, BinReadError>)
        ensures
            match rle_read(old(self).rest()) {
                (Ok(cs), _) => res matches Ok(s) && s@ == cs,
                (Err(e), _) => res == Err::<String, BinReadError>(e),
            },
            Self::moved(*old(self), *final(self), rle_read(old(self).rest()).1),
    {
        proof {
            self.lemma_pos_bound();
        }
        let ghost r = self.rest();
        let bytes = self.read_i16()?;
        proof {
            assert((bytes as u16) as i16 == bytes) by (bit_vector);
            assert(r.subrange(0, 2) =~= old(self).data().subrange(
                old(self).pos() as int,
                old(self).pos() + 2int,
            ));
        }
        let pairs: u16 = if bytes <= 0 {
            0
        } else {
            ((bytes as u16) + 1) / 2
        };
        assert(pairs == rle_pairs(bytes));
        let ghost p = r.subrange(2, r.len() as int);
        let mut buf = String::new();
        let mut k: u16 = 0;
        while k < pairs
            invariant
                r == old(self).rest(),
                r.len() >= 2,
                p == r.subrange(2, r.len() as int),
                pairs == rle_pairs((le_value(r.subrange(0, 2)) as u16) as i16),
                old(self).pos() + r.len() == old(self).data().len(),
                self.data() == old(self).data(),
                self.pos() == old(self).pos() + 2 + 2 * k,
                k <= pairs,
                2 + 2 * k <= r.len(),
                buf@ == rle_expand(p, k as nat),
            decreases pairs - k,
        {
            proof {
                self.lemma_pos_bound();
            }
            let count = match self.read_u8() {
                Ok(b) => b,
                Err(e) => {
                    return Err(e);
                },
            };
            let c = match self.read_char() {
                Ok(c) => c,
                Err(e) => {
                    return Err(e);
                },
            };
            assert(count == p[2 * k]);
            assert(c == p[2 * k + 1] as char);
            let ghost before = buf@;
            let mut m: u8 = 0;
            while m < count
                invariant
                    m <= count,
                    buf@ == before + Seq::new(m as nat, |_i: int| c),
                decreases count - m,
            {
                push_char(&mut buf, c);
                assert(before + Seq::new(m as nat, |_i: int| c) + seq![c] =~= before + Seq::new(
                    (m + 1) as nat,
                    |_i: int| c,
                ));
                m = m + 1;
            }
            assert(buf@ =~= rle_expand(p, (k + 1) as nat));
            k = k + 1;
        }
        proof {
            let np = pairs as nat;
            assert forall|j: int| 0 <= j < 2 * np implies p.subrange(0, 2 * np as int)[j] == p[j] by {}
            lemma_rle_expand_prefix(p, p.subrange(0, 2 * np as int), np);
            assert(p.subrange(0, 2 * np as int) =~= r.subrange(2, 2 + 2 * np as int));
        }
        Ok(buf)
    }
}

// ---------------------------------------------------------------------------
// Writing
// ---------------------------------------------------------------------------

/// An append-only byte buffer.
pub struct BinWriter {
    buf: Vec<u8>,
}

impl View for BinWriter {
    type V = Seq<u8>;

    closed spec fn view(&self) -> Seq<u8> {
        self.buf@
    }
}

impl BinWriter {
    pub fn new() -> (w: Self)
        ensures
            w@ == Seq::<u8>::empty(),
    {
        BinWriter { buf: Vec::new() }
    }

    /// Consumes the writer, handing back the bytes written.
    pub fn finish(self) -> (bytes: Vec<u8>)
        ensures
            bytes@ == self@,
    {
        self.buf
    }

    /// Appends the low `k` bytes of `v`, least significant first.
    fn write_le(&mut self, v: u64, k: usize)
        requires
            k <= 8,
        ensures
            final(self)@ == old(self)@ + le_bytes(v as nat, k as nat),
    {
        let mut cur = v;
        let mut i: usize = 0;
        while i < k
            invariant
                i <= k,
                old(self)@ + le_bytes(v as nat, k as nat) == self@ + le_bytes(
                    cur as nat,
                    (k - i) as nat,
                ),
            decreases k - i,
        {
            let ghost rest = le_bytes(cur as nat, (k - i) as nat);
            assert(rest == seq![(cur as nat % 256) as u8] + le_bytes(
                cur as nat / 256,
                (k - i - 1) as nat,
            ));
            self.buf.push((cur % 256) as u8);
            cur = cur / 256;
            i = i + 1;
            assert(self@ + le_bytes(cur as nat, (k - i) as nat) =~= old(self)@ + le_bytes(
                v as nat,
                k as nat,
            ));
        }
        assert(le_bytes(cur as nat, 0) =~= Seq::<u8>::empty());
        assert(self@ =~= old(self)@ + le_bytes(v as nat, k as nat));
    }

    pub fn write_u8(&mut self, byte: u8)
        ensures
            final(self)@ == old(self)@.push(byte),
    {
        self.buf.push(byte);
    }

    pub fn write_i8(&mut self, byte: i8)
        ensures
            final(self)@ == old(self)@.push(byte as u8),
    {
        self.buf.push(byte as u8);
    }

    pub fn write_u16(&mut self, short: u16)
        ensures
            final(self)@ == old(self)@ + le_bytes(short as nat, 2),
    {
        self.write_le(short as u64, 2);
    }

    pub fn write_i16(&mut self, short: i16)
        ensures
            final(self)@ == old(self)@ + i16_bytes(short),
    {
        self.write_le((short as u16) as u64, 2);
    }

    pub fn write_u32(&mut self, value: u32)
        ensures
            final(self)@ == old(self)@ + le_bytes(value as nat, 4),
    {
        self.write_le(value as u64, 4);
    }

    pub fn write_i32(&mut self, value: i32)
        ensures
            final(self)@ == old(self)@ + i32_bytes(value),
    {
        self.write_le((value as u32) as u64, 4);
    }

    pub fn write_u64(&mut self, long: u64)
        ensures
            final(self)@ == old(self)@ + le_bytes(long as nat, 8),
    {
        self.write_le(long, 8);
    }

    pub fn write_i64(&mut self, long: i64)
        ensures
            final(self)@ == old(self)@ + i64_bytes(long),
    {
        self.write_le(long as u64, 8);
    }

    pub fn write_bool(&mut self, b: bool)
        ensures
            final(self)@ == old(self)@.push(if b { 1u8 } else { 0u8 }),
    {
        self.buf.push(if b { 1 } else { 0 });
    }

    /// Writes an ASCII character as one byte.
    pub fn write_char(&mut self, c: char)
        requires
            (c as u32) < 128,
        ensures
            final(self)@ == old(self)@.push(c as u8),
    {
        self.buf.push(c as u8);
    }

    pub fn write_varint(&mut self, value: u32)
        ensures
            final(self)@ == old(self)@ + varint_bytes(value),
    {
        proof {
            lemma_varint_bytes_len(value);
        }
        let ghost orig = value;
        let mut value = value;
        let ghost mut prefix: Seq<u8> = Seq::empty();
        let mut i: usize = 0;
        loop
            invariant_except_break
                self@ == old(self)@ + prefix,
                prefix + varint_bytes(value) == varint_bytes(orig),
                prefix.len() == i,
                varint_bytes(orig).len() <= 5,
            ensures
                self@ == old(self)@ + varint_bytes(orig),
            decreases 5 - i,
        {
            proof {
                lemma_varint_bytes_len(value);
            }
            let low = value & 0x7f;
            let mut next_byte = low as u8;
            let rest = value >> 7;
            if rest != 0 {
                next_byte = next_byte | 0x80;
            }
            proof {
                assert(low == value & 0x7fu32);
                assert(rest != 0 ==> (low as u8) | 0x80u8 == ((value & 0x7fu32) | 0x80u32) as u8)
                    by (bit_vector)
                    requires
                        low == value & 0x7fu32,
                        rest == value >> 7u32,
                ;
                assert(low as u8 == (value & 0x7fu32) as u8) by (bit_vector)
                    requires
                        low == value & 0x7fu32,
                ;
            }
            self.buf.push(next_byte);
            i = i + 1;
            if rest == 0 {
                proof {
                    assert(varint_bytes(value) == seq![next_byte]);
                    assert(prefix + seq![next_byte] == varint_bytes(orig));
                }
                break;
            }
            proof {
                assert(varint_bytes(value) == seq![next_byte] + varint_bytes(rest));
                assert((prefix + seq![next_byte]) + varint_bytes(rest) =~= prefix + varint_bytes(value));
                prefix = prefix + seq![next_byte];
                lemma_varint_bytes_len(rest);
            }
            value = rest;
        }
    }

    /// Writes an ASCII string, prefixed by a varint giving its length.
    pub fn write_string(&mut self, s: &str)
        requires
            all_ascii(s@),
        ensures
            final(self)@ == old(self)@ + varint_bytes(s@.len() as u32) + chars_as_bytes(s@),
    {
        let chars = chars_of(s);
        self.write_varint(chars.len() as u32);
        let ghost mid = self@;
        for i in 0..chars.len()
            invariant
                chars@ == s@,
                all_ascii(s@),
                self@ == mid + chars_as_bytes(chars@.take(i as int)),
        {
            let c = chars[i];
            assert((c as u32) < 128);
            self.write_char(c);
            assert(chars_as_bytes(chars@.take(i as int)).push(c as u8) =~= chars_as_bytes(
                chars@.take(i + 1),
            ));
        }
        assert(chars@.take(chars@.len() as int) =~= chars@);
    }

    /// Writes a run-length encoded string, prefixed by its encoded length as an `i16`.
    pub fn write_length_encoded_string(&mut self, s: &str)
        ensures
            final(self)@ == old(self)@ + i16_bytes(rle_encode(s@).len() as i16) + rle_encode(s@),
    {
        let chars = chars_of(s);
        if chars.len() == 0 {
            self.write_i16(0);
            assert(rle_encode(s@) =~= Seq::<u8>::empty());
            return;
        }
        let mut out: Vec<u8> = Vec::new();
        let mut cur = chars[0];
        let mut count: u8 = 1;
        proof {
            assert(chars@.take(1).len() == 1);
        }
        for k in 1..chars.len()
            invariant
                chars@ == s@,
                chars@.len() >= 1,
                (out@, cur, count as nat) == rle_state(chars@.take(k as int)),
        {
            proof {
                lemma_rle_state_count(chars@.take(k as int));
                assert(chars@.take(k + 1).drop_last() =~= chars@.take(k as int));
            }
            let c = chars[k];
            if c != cur || count == 255 {
                out.push(count);
                out.push(#[verifier::truncate] (cur as u8));
                cur = c;
                count = 1;
            } else {
                count = count + 1;
            }
        }
        proof {
            assert(chars@.take(chars@.len() as int) =~= chars@);
            lemma_rle_state_count(chars@);
        }
        out.push(count);
        out.push(#[verifier::truncate] (cur as u8));
        self.write_i16(out.len() as i16);
        self.buf.append(&mut out);
    }
}

/// A varint is one to five bytes long.
pub proof fn lemma_varint_bytes_len(v: u32)
    ensures
        1 <= varint_bytes(v).len() <= 5,
{
    let v1 = v >> 7u32;
    let v2 = v1 >> 7u32;
    let v3 = v2 >> 7u32;
    let v4 = v3 >> 7u32;
    assert(v4 >> 7u32 == 0) by (bit_vector)
        requires
            v1 == v >> 7u32,
            v2 == v1 >> 7u32,
            v3 == v2 >> 7u32,
            v4 == v3 >> 7u32,
    ;
    assert(varint_bytes(v4).len() == 1);
    assert(varint_bytes(v3).len() <= 2);
    assert(varint_bytes(v2).len() <= 3);
    assert(varint_bytes(v1).len() <= 4);
    assert(varint_bytes(v).len() <= 5);
}

/// The open run of the encoder holds between 1 and 255 characters.
pub proof fn lemma_rle_state_count(s: Seq<char>)
    requires
        s.len() >= 1,
    ensures
        1 <= rle_state(s).2 <= 255,
        rle_state(s).0.len() % 2 == 0,
    decreases s.len(),
{
    if s.len() > 1 {
        lemma_rle_state_count(s.drop_last());
    }
}

// ---------------------------------------------------------------------------
// What a read gives back of a write
// ---------------------------------------------------------------------------

/// Little-endian bytes read back give the number they were written from.
pub proof fn lemma_le_roundtrip(v: nat, k: nat)
    requires
        v < pow256(k),
    ensures
        le_bytes(v, k).len() == k,
        le_value(le_bytes(v, k)) == v,
    decreases k,
{
    if k > 0 {
        assert(v / 256 < pow256((k - 1) as nat));
        lemma_le_roundtrip(v / 256, (k - 1) as nat);
        assert(le_bytes(v, k).drop_first() =~= le_bytes(v / 256, (k - 1) as nat));
    }
}

/// The bytes of a signed 16-bit number read back as that number.
pub proof fn lemma_i16_roundtrip(v: i16)
    ensures
        i16_bytes(v).len() == 2,
        (le_value(i16_bytes(v)) as u16) as i16 == v,
{
    reveal_with_fuel(pow256, 3);
    lemma_le_roundtrip((v as u16) as nat, 2);
    assert((v as u16) as i16 == v) by (bit_vector);
}

/// The bytes of a signed 32-bit number read back as that number.
pub proof fn lemma_i32_roundtrip(v: i32)
    ensures
        i32_bytes(v).len() == 4,
        (le_value(i32_bytes(v)) as u32) as i32 == v,
{
    reveal_with_fuel(pow256, 5);
    lemma_le_roundtrip((v as u32) as nat, 4);
    assert((v as u32) as i32 == v) by (bit_vector);
}

/// The bytes of a signed 64-bit number read back as that number.
pub proof fn lemma_i64_roundtrip(v: i64)
    ensures
        i64_bytes(v).len() == 8,
        (le_value(i64_bytes(v)) as u64) as i64 == v,
{
    reveal_with_fuel(pow256, 9);
    lemma_le_roundtrip((v as u64) as nat, 8);
    assert((v as u64) as i64 == v) by (bit_vector);
}

proof fn lemma_varint_acc_cons(b: u8, t: Seq<u8>, n: nat)
    requires
        n <= 4,
        n <= t.len(),
    ensures
        varint_acc(seq![b] + t, n + 1) == ((b & 0x7fu8) as u32) | (varint_acc(t, n) << 7u32),
    decreases n,
{
    let s = seq![b] + t;
    if n == 0 {
        let lo = ((b & 0x7fu8) as u32);
        assert(s[0] == b);
        assert(varint_acc(s, 0) == 0);
        assert((7 * (1 - 1)) as u32 == 0u32);
        assert(varint_acc(s, 1) == 0u32 | ((lo << 0u32) as u32));
        assert(0u32 | ((lo << 0u32) as u32) == lo | (0u32 << 7u32)) by (bit_vector);
    } else {
        lemma_varint_acc_cons(b, t, (n - 1) as nat);
        let a = varint_acc(t, (n - 1) as nat);
        let lo = ((b & 0x7fu8) as u32);
        let tn = ((t[n - 1] & 0x7fu8) as u32);
        assert(s[n as int] == t[n - 1]);
        let m = (n - 1) as u32;
        assert(varint_acc(s, n + 1) == varint_acc(s, n) | ((tn << ((7 * n) as u32)) as u32));
        assert(varint_acc(t, n) == a | ((tn << ((7 * (n - 1)) as u32)) as u32));
        assert((7 * n) as u32 == 7 * m + 7);
        assert((7 * (n - 1)) as u32 == 7 * m);
        assert((lo | (a << 7u32)) | (tn << (7 * m + 7)) == lo | ((a | (tn << (7 * m))) << 7u32))
            by (bit_vector)
            requires
                m <= 3,
        ;
    }
}

proof fn lemma_varint_end_at(s: Seq<u8>, last: nat, i: nat)
    requires
        last < 5,
        last < s.len(),
        i <= last,
        forall|j: int| i <= j < last ==> has_continuation(#[trigger] s[j]),
        !has_continuation(s[last as int]),
    ensures
        varint_end_from(s, i) == Some(last),
    decreases last - i,
{
    if i < last {
        lemma_varint_end_at(s, last, i + 1);
    }
}

proof fn lemma_varint_bytes_shape(v: u32, rest: Seq<u8>)
    ensures
        forall|j: int|
            0 <= j < varint_bytes(v).len() - 1 ==> has_continuation(#[trigger] varint_bytes(v)[j]),
        !has_continuation(varint_bytes(v).last()),
        varint_acc(varint_bytes(v) + rest, varint_bytes(v).len()) == v,
    decreases v,
{
    lemma_varint_bytes_len(v);
    let b = varint_bytes(v);
    if v >> 7u32 == 0 {
        let b0 = (v & 0x7fu32) as u8;
        assert(b0 & 0x80u8 == 0) by (bit_vector)
            requires
                b0 == (v & 0x7fu32) as u8,
        ;
        assert((b + rest)[0] == b0);
        assert(b + rest =~= seq![b0] + rest);
        assert(((b0 & 0x7fu8) as u32) << 0u32 == v) by (bit_vector)
            requires
                b0 == (v & 0x7fu32) as u8,
                v >> 7u32 == 0,
        ;
        assert(varint_acc(b + rest, 0) == 0);
        assert((7 * (1 - 1)) as u32 == 0u32);
        assert(varint_acc(b + rest, 1) == 0u32 | ((((b0 & 0x7fu8) as u32) << 0u32) as u32));
        assert(0u32 | v == v) by (bit_vector);
    } else {
        lemma_shift_decreases(v);
        let w = v >> 7u32;
        lemma_varint_bytes_shape(w, rest);
        lemma_varint_bytes_len(w);
        let tb = varint_bytes(w);
        let b0 = ((v & 0x7fu32) | 0x80u32) as u8;
        assert(b == seq![b0] + tb);
        assert(b0 & 0x80u8 != 0) by (bit_vector)
            requires
                b0 == ((v & 0x7fu32) | 0x80u32) as u8,
        ;
        assert forall|j: int| 0 <= j < b.len() - 1 implies has_continuation(#[trigger] b[j]) by {
            if j > 0 {
                assert(b[j] == tb[j - 1]);
            }
        }
        assert(b.last() == tb.last());
        assert(b + rest =~= seq![b0] + (tb + rest));
        lemma_varint_acc_cons(b0, tb + rest, tb.len());
        let a = varint_acc(tb + rest, tb.len());
        assert(a == w);
        assert(((b0 & 0x7fu8) as u32) | (w << 7u32) == v) by (bit_vector)
            requires
                b0 == ((v & 0x7fu32) | 0x80u32) as u8,
                w == v >> 7u32,
        ;
    }
}

/// A varint read back gives the number it was written from, using exactly its bytes.
pub proof fn lemma_varint_roundtrip(v: u32, rest: Seq<u8>)
    ensures
        1 <= varint_bytes(v).len() <= 5,
        varint_read(varint_bytes(v) + rest) == (
            Ok::<u32, BinReadError>(v),
            varint_bytes(v).len(),
        ),
{
    lemma_varint_bytes_len(v);
    lemma_varint_bytes_shape(v, rest);
    let b = varint_bytes(v);
    let s = b + rest;
    let last = (b.len() - 1) as nat;
    assert forall|j: int| 0 <= j < last implies has_continuation(#[trigger] s[j]) by {
        assert(s[j] == b[j]);
    }
    assert(s[last as int] == b.last());
    lemma_varint_end_at(s, last, 0);
}

/// An ASCII string written with its varint length reads back as itself.
pub proof fn lemma_string_roundtrip(cs: Seq<char>, rest: Seq<u8>)
    requires
        all_ascii(cs),
        cs.len() <= u32::MAX,
    ensures
        string_read(varint_bytes(cs.len() as u32) + chars_as_bytes(cs) + rest) == (
            Ok::<Seq<char>, BinReadError>(cs),
            varint_bytes(cs.len() as u32).len() + cs.len(),
        ),
{
    let len = cs.len() as u32;
    let vb = varint_bytes(len);
    let body = chars_as_bytes(cs);
    let s = vb + body + rest;
    assert(s =~= vb + (body + rest));
    lemma_varint_roundtrip(len, body + rest);
    let n = vb.len();
    assert(s.subrange(n as int, n + cs.len() as int) =~= body);
    assert(bytes_as_chars(body) =~= cs) by {
        assert forall|i: int| 0 <= i < cs.len() implies bytes_as_chars(body)[i] == cs[i] by {
            assert((cs[i] as u32) < 128);
            lemma_char_byte_roundtrip(cs[i]);
        }
    }
}

proof fn lemma_rle_state_expand(s: Seq<char>)
    requires
        s.len() >= 1,
        all_bytes(s),
    ensures
        rle_state(s).0.len() % 2 == 0,
        rle_expand(rle_state(s).0, rle_state(s).0.len() / 2) + Seq::new(
            rle_state(s).2,
            |_i: int| rle_state(s).1,
        ) == s,
        s.contains(rle_state(s).1),
    decreases s.len(),
{
    lemma_rle_state_count(s);
    if s.len() == 1 {
        assert(Seq::new(1nat, |_i: int| s[0]) =~= s);
        assert(s[0] == s[0]);
        assert(s.contains(s[0]));
    } else {
        let t = s.drop_last();
        assert(all_bytes(t)) by {
            assert forall|i: int| 0 <= i < t.len() implies (#[trigger] t[i] as u32) < 256 by {
                assert(t[i] == s[i]);
            }
        }
        lemma_rle_state_expand(t);
        lemma_rle_state_count(t);
        let (out, c, n) = rle_state(t);
        let x = s.last();
        let k = out.len() / 2;
        assert(t.contains(c));
        let ci = choose|i: int| 0 <= i < t.len() && t[i] == c;
        assert((t[ci] as u32) < 256);
        assert((c as u32) < 256);
        lemma_char_byte_roundtrip(c);
        if x != c || n == 255 {
            let out2 = out + seq![n as u8, #[verifier::truncate] (c as u8)];
            assert(out2.len() / 2 == k + 1);
            assert forall|j: int| 0 <= j < 2 * k implies out2[j] == out[j] by {}
            lemma_rle_expand_prefix(out2, out, k);
            assert(out2[2 * k as int] == n as u8);
            assert(out2[2 * k as int + 1] == c as u8);
            assert((c as u8) as char == c);
            assert(rle_expand(out2, k + 1) =~= rle_expand(out, k) + Seq::new(n, |_i: int| c));
            assert(rle_expand(out2, out2.len() / 2) + Seq::new(1nat, |_i: int| x) =~= s);
            assert(s.contains(x)) by {
                assert(s[s.len() - 1] == x);
            }
        } else {
            let a = rle_expand(out, k);
            assert(Seq::new(n + 1, |_i: int| c) =~= Seq::new(n, |_i: int| c).push(c));
            assert(a + Seq::new(n, |_i: int| c).push(c) =~= (a + Seq::new(n, |_i: int| c)).push(c));
            assert(s =~= t.push(x));
            assert(rle_expand(out, k) + Seq::new(n + 1, |_i: int| c) =~= s);
            assert(s.contains(c)) by {
                assert(s[ci] == c);
            }
        }
    }
}

/// Run-length encoded characters (each fitting in a byte) expand back to themselves.
pub proof fn lemma_rle_decode_encode(s: Seq<char>)
    requires
        all_bytes(s),
    ensures
        rle_encode(s).len() % 2 == 0,
        rle_expand(rle_encode(s), rle_encode(s).len() / 2) == s,
{
    if s.len() == 0 {
        assert(rle_expand(Seq::<u8>::empty(), 0) =~= s);
    } else {
        lemma_rle_state_expand(s);
        lemma_rle_state_count(s);
        let (out, c, n) = rle_state(s);
        let enc = rle_encode(s);
        let k = out.len() / 2;
        assert(enc == out + seq![n as u8, #[verifier::truncate] (c as u8)]);
        let ci = choose|i: int| 0 <= i < s.len() && s[i] == c;
        assert((s[ci] as u32) < 256);
        lemma_char_byte_roundtrip(c);
        assert forall|j: int| 0 <= j < 2 * k implies enc[j] == out[j] by {}
        lemma_rle_expand_prefix(enc, out, k);
        assert(rle_expand(enc, k + 1) =~= rle_expand(out, k) + Seq::new(n, |_i: int| c));
    }
}

/// A run-length encoded string written with its length header reads back as
/// itself, as long as its characters fit in a byte and the encoding's length
/// fits in an `i16`.
pub proof fn lemma_rle_roundtrip(cs: Seq<char>, rest: Seq<u8>)
    requires
        all_bytes(cs),
        rle_encode(cs).len() <= 0x7fff,
    ensures
        rle_read(i16_bytes(rle_encode(cs).len() as i16) + rle_encode(cs) + rest) == (
            Ok::<Seq<char>, BinReadError>(cs),
            2 + rle_encode(cs).len(),
        ),
{
    let enc = rle_encode(cs);
    lemma_rle_decode_encode(cs);
    let h = enc.len() as i16;
    lemma_i16_roundtrip(h);
    let hb = i16_bytes(h);
    let s = hb + enc + rest;
    assert(s.subrange(0, 2) =~= hb);
    assert(h as int == enc.len());
    assert(rle_pairs(h) == enc.len() / 2);
    let np = enc.len() / 2;
    assert(s.subrange(2, 2 + 2 * np as int) =~= enc);
}

/// A number of `k` bytes is less than `256^k`.
pub proof fn lemma_le_value_bound(s: Seq<u8>)
    ensures
        le_value(s) < pow256(s.len()),
    decreases s.len(),
{
    if s.len() > 0 {
        lemma_le_value_bound(s.drop_first());
    }
}

proof fn lemma_pow256_mono(a: nat, b: nat)
    requires
        a <= b,
    ensures
        pow256(a) <= pow256(b),
        pow256(a) >= 1,
    decreases b,
{
    if a < b {
        lemma_pow256_mono(a, (b - 1) as nat);
    } else if a > 0 {
        lemma_pow256_mono((a - 1) as nat, (a - 1) as nat);
    }
}

/// Expanding the first `n` pairs only looks at the first `2 n` bytes.
proof fn lemma_rle_expand_prefix(p: Seq<u8>, q: Seq<u8>, n: nat)
    requires
        2 * n <= p.len(),
        2 * n <= q.len(),
        forall|j: int| 0 <= j < 2 * n ==> q[j] == p[j],
    ensures
        rle_expand(p, n) == rle_expand(q, n),
    decreases n,
{
    if n > 0 {
        lemma_rle_expand_prefix(p, q, (n - 1) as nat);
        assert(p[2 * (n - 1)] == q[2 * (n - 1)]);
        assert(p[2 * (n - 1) + 1] == q[2 * (n - 1) + 1]);
        assert(Seq::new(p[2 * (n - 1)] as nat, |_i: int| p[2 * (n - 1) + 1] as char) =~= Seq::new(
            q[2 * (n - 1)] as nat,
            |_i: int| q[2 * (n - 1) + 1] as char,
        ));
    }
}

} // verus!
