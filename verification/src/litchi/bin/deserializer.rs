//! The cursor over a mission file, and the two ways in which records follow
//! each other in it: as a tuple, whose arity the reader knows, and as a
//! sequence, whose length stands in front of it.

use vstd::prelude::*;
use vstd::slice::slice_subrange;

use super::error::{Error, ErrorKind, Section};

verus! {

/// The unsigned integer that `width` bytes of `s` spell from `at` on, most
/// significant byte first.
pub open spec fn be_uint(s: Seq<u8>, at: int, width: nat) -> nat
    decreases width,
{
    if width == 0 {
        0
    } else {
        be_uint(s, at, (width - 1) as nat) * 256 + s[at + width - 1] as nat
    }
}

/// The 16-bit field at `at`.
pub open spec fn be_u16(s: Seq<u8>, at: int) -> u16 {
    be_uint(s, at, 2) as u16
}

/// The 32-bit field at `at`.
pub open spec fn be_u32(s: Seq<u8>, at: int) -> u32 {
    be_uint(s, at, 4) as u32
}

/// The 64-bit field at `at`.
pub open spec fn be_u64(s: Seq<u8>, at: int) -> u64 {
    be_uint(s, at, 8) as u64
}

/// The two's complement reading of a 32-bit word.
pub open spec fn as_signed(word: u32) -> i32 {
    if word < 0x8000_0000 {
        word as i32
    } else {
        (word - 0x1_0000_0000) as i32
    }
}

/// A field read behind `k` skipped bytes is the field `k` bytes further on.
pub proof fn lemma_be_uint_skip(s: Seq<u8>, k: int, at: int, width: nat)
    requires
        0 <= k,
        0 <= at,
        k + at + width <= s.len(),
    ensures
        be_uint(s.skip(k), at, width) == be_uint(s, k + at, width),
    decreases width,
{
    if width > 0 {
        lemma_be_uint_skip(s, k, at, (width - 1) as nat);
    }
}

/// Reading on behind `at` bytes: the field found there is the field at `at`,
/// and what is left behind it is what is left behind `at + width` bytes.
pub proof fn lemma_field(s: Seq<u8>, at: int, width: nat)
    requires
        0 <= at,
        at + width <= s.len(),
    ensures
        be_uint(s.skip(at), 0, width) == be_uint(s, at, width),
        s.skip(at).skip(width as int) == s.skip(at + width),
{
    lemma_be_uint_skip(s, at, 0, width);
}

/// A field that lies within the first `k` bytes reads the same in them alone.
pub proof fn lemma_be_uint_take(s: Seq<u8>, k: int, at: int, width: nat)
    requires
        0 <= at,
        at + width <= k <= s.len(),
    ensures
        be_uint(s.take(k), at, width) == be_uint(s, at, width),
    decreases width,
{
    if width > 0 {
        lemma_be_uint_take(s, k, at, (width - 1) as nat);
    }
}

/// A cursor over the bytes of a mission file. It only ever moves forward:
/// its view is what is left to read.
pub struct Deserializer<'de> {
    input: &'de [u8],
}

impl<'de> View for Deserializer<'de> {
    type V = Seq<u8>;

    closed spec fn view(&self) -> Seq<u8> {
        self.input@
    }
}

impl<'de> Deserializer<'de> {
    /// A cursor at the first byte of `input`.
    pub fn from_slice(input: &'de [u8]) -> (de: Self)
        ensures
            de@ == input@,
    {
        Deserializer { input }
    }

    /// Reads two bytes as an unsigned big-endian integer.
    pub fn parse_u16(&mut self) -> (r: Result<u16, Error>)
        ensures
            old(self)@.len() >= 2 ==> r == Ok::<u16, Error>(be_u16(old(self)@, 0)) && final(self)@
                == old(self)@.skip(2),
            old(self)@.len() < 2 ==> r == Err::<u16, Error>(Error::OutOfData) && final(self)@
                == old(self)@,
    {
        if self.input.len() < 2 {
            return Err(Error::OutOfData);
        }
        let b0: u16 = self.input[0] as u16;
        let b1: u16 = self.input[1] as u16;
        proof {
            reveal_with_fuel(be_uint, 3);
        }
        self.input = slice_subrange(self.input, 2, self.input.len());
        Ok(b0 * 256 + b1)
    }

    /// Reads four bytes as an unsigned big-endian integer.
    pub fn parse_u32(&mut self) -> (r: Result<u32, Error>)
        ensures
            old(self)@.len() >= 4 ==> r == Ok::<u32, Error>(be_u32(old(self)@, 0)) && final(self)@
                == old(self)@.skip(4),
            old(self)@.len() < 4 ==> r == Err::<u32, Error>(Error::OutOfData) && final(self)@
                == old(self)@,
    {
        if self.input.len() < 4 {
            return Err(Error::OutOfData);
        }
        let b0: u32 = self.input[0] as u32;
        let b1: u32 = self.input[1] as u32;
        let b2: u32 = self.input[2] as u32;
        let b3: u32 = self.input[3] as u32;
        proof {
            reveal_with_fuel(be_uint, 5);
        }
        self.input = slice_subrange(self.input, 4, self.input.len());
        Ok(((b0 * 256 + b1) * 256 + b2) * 256 + b3)
    }

    /// Reads four bytes as a signed big-endian integer in two's complement.
    pub fn parse_i32(&mut self) -> (r: Result<i32, Error>)
        ensures
            old(self)@.len() >= 4 ==> r == Ok::<i32, Error>(as_signed(be_u32(old(self)@, 0)))
                && final(self)@ == old(self)@.skip(4),
            old(self)@.len() < 4 ==> r == Err::<i32, Error>(Error::OutOfData) && final(self)@
                == old(self)@,
    {
        match self.parse_u32() {
            Ok(word) => {
                if word < 0x8000_0000 {
                    Ok(word as i32)
                } else {
                    Ok((word - 0x8000_0000) as i32 - 0x4000_0000 - 0x4000_0000)
                }
            },
            Err(e) => Err(e),
        }
    }

    /// Reads four bytes as the bit pattern of a single-precision number.
    pub fn parse_float(&mut self) -> (r: Result<u32, Error>)
        ensures
            old(self)@.len() >= 4 ==> r == Ok::<u32, Error>(be_u32(old(self)@, 0)) && final(self)@
                == old(self)@.skip(4),
            old(self)@.len() < 4 ==> r == Err::<u32, Error>(Error::OutOfData) && final(self)@
                == old(self)@,
    {
        self.parse_u32()
    }

    /// Reads eight bytes as the bit pattern of a double-precision number.
    pub fn parse_double(&mut self) -> (r: Result<u64, Error>)
        ensures
            old(self)@.len() >= 8 ==> r == Ok::<u64, Error>(be_u64(old(self)@, 0)) && final(self)@
                == old(self)@.skip(8),
            old(self)@.len() < 8 ==> r == Err::<u64, Error>(Error::OutOfData) && final(self)@
                == old(self)@,
    {
        if self.input.len() < 8 {
            return Err(Error::OutOfData);
        }
        let b0: u64 = self.input[0] as u64;
        let b1: u64 = self.input[1] as u64;
        let b2: u64 = self.input[2] as u64;
        let b3: u64 = self.input[3] as u64;
        let b4: u64 = self.input[4] as u64;
        let b5: u64 = self.input[5] as u64;
        let b6: u64 = self.input[6] as u64;
        let b7: u64 = self.input[7] as u64;
        proof {
            reveal_with_fuel(be_uint, 9);
        }
        self.input = slice_subrange(self.input, 8, self.input.len());
        let high: u64 = ((b0 * 256 + b1) * 256 + b2) * 256 + b3;
        let low: u64 = ((b4 * 256 + b5) * 256 + b6) * 256 + b7;
        Ok(high * 0x1_0000_0000 + low)
    }
}

/// A record of the format: a fixed succession of big-endian fields, some of
/// which may say how many further records follow.
pub trait Record: Sized + View {
    /// What the front of `s` decodes to, the record's view and the number of
    /// bytes it takes up, or the reason why no such record stands there.
    spec fn parse(s: Seq<u8>) -> Result<(Self::V, nat), Error>;

    /// A record takes up no more bytes than there are.
    proof fn lemma_parse_len(s: Seq<u8>)
        ensures
            Self::parse(s) matches Ok((_, n)) ==> n <= s.len(),
    ;

    /// A record is decoded from its own bytes alone: cutting the input
    /// behind it changes nothing, and cutting it short is noticed.
    proof fn lemma_parse_prefix(s: Seq<u8>, k: int)
        requires
            0 <= k <= s.len(),
            Self::parse(s) is Ok,
        ensures
            Self::parse(s)->Ok_0.1 <= k ==> Self::parse(s.take(k)) == Self::parse(s),
            Self::parse(s)->Ok_0.1 > k ==> Self::parse(s.take(k)) is Err && Self::parse(
                s.take(k),
            )->Err_0.spec_kind() == ErrorKind::TruncatedInput,
    ;

    /// Decodes the record at the cursor and moves the cursor behind it.
    fn deserialize(de: &mut Deserializer) -> (r: Result<Self, Error>)
        ensures
            match Self::parse(old(de)@) {
                Ok((v, n)) => r matches Ok(x) && x@ == v && final(de)@ == old(de)@.skip(n as int),
                Err(e) => r == Err::<Self, Error>(e),
            },
    ;
}

/// `r` is what decoding a `T` from `before` gives, and `after` is what is
/// left of the input once it has succeeded.
pub open spec fn decoded<T: Record>(before: Seq<u8>, r: Result<T, Error>, after: Seq<u8>) -> bool {
    match T::parse(before) {
        Ok((v, n)) => r matches Ok(x) && x@ == v && after == before.skip(n as int),
        Err(e) => r == Err::<T, Error>(e),
    }
}

/// The views of the items of `items`, in order.
pub open spec fn views<T: View>(items: Seq<T>) -> Seq<T::V> {
    Seq::new(items.len(), |i: int| items[i]@)
}

/// The failure of record `index` of `section`: running out of input is
/// reported with the place where it happened, anything else as it is.
pub open spec fn located(e: Error, section: Section, index: u32) -> Error {
    match e {
        Error::OutOfData => Error::InvalidLength { section, index },
        other => other,
    }
}

/// Reports a failure as that of record `index` of `section`.
pub fn locate(e: Error, section: Section, index: u32) -> (r: Error)
    ensures
        r == located(e, section, index),
{
    match e {
        Error::OutOfData => Error::InvalidLength { section, index },
        other => other,
    }
}

/// What `arity` records of `section`, one behind the other with no count in
/// front, decode to: their views and the bytes they take up together, or the
/// failure of the first record that does not decode.
pub open spec fn parse_tuple<T: Record>(s: Seq<u8>, section: Section, arity: nat) -> Result<
    (Seq<T::V>, nat),
    Error,
>
    decreases arity,
{
    if arity == 0 {
        Ok((Seq::empty(), 0))
    } else {
        match parse_tuple::<T>(s, section, (arity - 1) as nat) {
            Err(e) => Err(e),
            Ok((items, n)) => match T::parse(s.skip(n as int)) {
                Err(e) => Err(located(e, section, (arity - 1) as u32)),
                Ok((item, m)) => Ok((items.push(item), n + m)),
            },
        }
    }
}

/// What a counted sequence decodes to: a 32-bit count, then as many records.
pub open spec fn parse_seq<T: Record>(s: Seq<u8>, section: Section) -> Result<
    (Seq<T::V>, nat),
    Error,
> {
    if s.len() < 4 {
        Err(Error::OutOfData)
    } else {
        match parse_tuple::<T>(s.skip(4), section, be_u32(s, 0) as nat) {
            Err(e) => Err(e),
            Ok((items, n)) => Ok((items, 4 + n)),
        }
    }
}

/// A tuple holds as many records as its arity, within the input.
pub proof fn lemma_parse_tuple_len<T: Record>(s: Seq<u8>, section: Section, arity: nat)
    ensures
        parse_tuple::<T>(s, section, arity) matches Ok((items, n)) ==> items.len() == arity && n
            <= s.len(),
    decreases arity,
{
    if arity > 0 {
        lemma_parse_tuple_len::<T>(s, section, (arity - 1) as nat);
        if let Ok((_, n)) = parse_tuple::<T>(s, section, (arity - 1) as nat) {
            T::lemma_parse_len(s.skip(n as int));
        }
    }
}

/// Once a record has failed, no greater arity makes the tuple succeed.
pub proof fn lemma_parse_tuple_failed<T: Record>(
    s: Seq<u8>,
    section: Section,
    short: nat,
    arity: nat,
)
    requires
        short <= arity,
        parse_tuple::<T>(s, section, short) is Err,
    ensures
        parse_tuple::<T>(s, section, arity) == parse_tuple::<T>(s, section, short),
    decreases arity,
{
    if short < arity {
        lemma_parse_tuple_failed::<T>(s, section, short, (arity - 1) as nat);
    }
}

/// A tuple is decoded from its own bytes alone.
pub proof fn lemma_parse_tuple_prefix<T: Record>(s: Seq<u8>, section: Section, arity: nat, k: int)
    requires
        0 <= k <= s.len(),
        parse_tuple::<T>(s, section, arity) is Ok,
    ensures
        parse_tuple::<T>(s, section, arity)->Ok_0.1 <= k ==> parse_tuple::<T>(
            s.take(k),
            section,
            arity,
        ) == parse_tuple::<T>(s, section, arity),
        parse_tuple::<T>(s, section, arity)->Ok_0.1 > k ==> parse_tuple::<T>(
            s.take(k),
            section,
            arity,
        ) is Err && parse_tuple::<T>(s.take(k), section, arity)->Err_0.spec_kind()
            == ErrorKind::TruncatedInput,
    decreases arity,
{
    if arity > 0 {
        let before = (arity - 1) as nat;
        let n = parse_tuple::<T>(s, section, before)->Ok_0.1;
        lemma_parse_tuple_prefix::<T>(s, section, before, k);
        lemma_parse_tuple_len::<T>(s, section, before);
        if n <= k {
            assert(s.take(k).skip(n as int) == s.skip(n as int).take(k - n));
            T::lemma_parse_prefix(s.skip(n as int), k - n);
        }
    }
}

/// A sequence holds as many records as its count says, within the input.
pub proof fn lemma_parse_seq_len<T: Record>(s: Seq<u8>, section: Section)
    ensures
        parse_seq::<T>(s, section) matches Ok((items, n)) ==> items.len() == be_u32(s, 0) && 4 <= n
            <= s.len(),
{
    if s.len() >= 4 {
        lemma_parse_tuple_len::<T>(s.skip(4), section, be_u32(s, 0) as nat);
    }
}

/// A sequence is decoded from its own bytes alone.
pub proof fn lemma_parse_seq_prefix<T: Record>(s: Seq<u8>, section: Section, k: int)
    requires
        0 <= k <= s.len(),
        parse_seq::<T>(s, section) is Ok,
    ensures
        parse_seq::<T>(s, section)->Ok_0.1 <= k ==> parse_seq::<T>(s.take(k), section)
            == parse_seq::<T>(s, section),
        parse_seq::<T>(s, section)->Ok_0.1 > k ==> parse_seq::<T>(s.take(k), section) is Err
            && parse_seq::<T>(s.take(k), section)->Err_0.spec_kind() == ErrorKind::TruncatedInput,
{
    if k >= 4 {
        lemma_be_uint_take(s, k, 0, 4);
        assert(s.take(k).skip(4) == s.skip(4).take(k - 4));
        lemma_parse_tuple_prefix::<T>(s.skip(4), section, be_u32(s, 0) as nat, k - 4);
    }
}

impl<'de> Deserializer<'de> {
    /// The format has an encoding for integers of 16 and 32 bits, for
    /// floating-point numbers of 32 and 64 bits, and for tuples and
    /// sequences of those. A request for anything else is refused, and
    /// nothing is read.
    pub fn deserialize_any(&mut self) -> (r: Result<(), Error>)
        ensures
            r == Err::<(), Error>(Error::UnsupportedValue),
            final(self)@ == old(self)@,
    {
        Err(Error::UnsupportedValue)
    }

    /// Decodes `len` records of `section` that follow each other with no
    /// count in front.
    pub fn deserialize_tuple<T: Record>(&mut self, section: Section, len: u32) -> (r: Result<
        Vec<T>,
        Error,
    >)
        ensures
            match parse_tuple::<T>(old(self)@, section, len as nat) {
                Ok((items, n)) => r matches Ok(v) && views(v@) == items && final(self)@ == old(
                    self,
                )@.skip(n as int),
                Err(e) => r == Err::<Vec<T>, Error>(e),
            },
    {
        let ghost start = self@;
        let ghost mut taken: nat = 0;
        let mut records: Vec<T> = Vec::new();
        let mut index: u32 = 0;
        assert(views(records@) == Seq::<T::V>::empty());
        while index < len
            invariant
                start == old(self)@,
                index <= len,
                taken <= start.len(),
                self@ == start.skip(taken as int),
                parse_tuple::<T>(start, section, index as nat) == Ok::<(Seq<T::V>, nat), Error>(
                    (views(records@), taken),
                ),
            decreases len - index,
        {
            let ghost rest = self@;
            match T::deserialize(self) {
                Ok(record) => {
                    proof {
                        T::lemma_parse_len(rest);
                        let m = T::parse(rest)->Ok_0.1;
                        assert(rest.skip(m as int) == start.skip((taken + m) as int));
                        assert(views(records@.push(record)) == views(records@).push(record@));
                        taken = taken + m;
                    }
                    records.push(record);
                    index = index + 1;
                },
                Err(e) => {
                    proof {
                        assert(parse_tuple::<T>(start, section, (index + 1) as nat) == Err::<
                            (Seq<T::V>, nat),
                            Error,
                        >(located(e, section, index)));
                        lemma_parse_tuple_failed::<T>(
                            start,
                            section,
                            (index + 1) as nat,
                            len as nat,
                        );
                    }
                    return Err(locate(e, section, index));
                },
            }
        }
        Ok(records)
    }

    /// Decodes a counted sequence: a 32-bit count, then as many records of
    /// `section`.
    pub fn deserialize_seq<T: Record>(&mut self, section: Section) -> (r: Result<Vec<T>, Error>)
        ensures
            match parse_seq::<T>(old(self)@, section) {
                Ok((items, n)) => r matches Ok(v) && views(v@) == items && final(self)@ == old(
                    self,
                )@.skip(n as int),
                Err(e) => r == Err::<Vec<T>, Error>(e),
            },
    {
        let ghost start = self@;
        let size = match self.parse_u32() {
            Ok(size) => size,
            Err(e) => {
                return Err(e);
            },
        };
        proof {
            lemma_parse_tuple_len::<T>(start.skip(4), section, size as nat);
            if let Ok((_, n)) = parse_tuple::<T>(start.skip(4), section, size as nat) {
                assert(start.skip(4).skip(n as int) == start.skip((4 + n) as int));
            }
        }
        self.deserialize_tuple::<T>(section, size)
    }
}

} // verus!
