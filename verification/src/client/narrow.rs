//! Filtering and narrowing of element readings.
//!
//! A reading is what one element of a wire array yields when it is read as
//! a boolean, a number or a string: a value, or nothing. An element that
//! yields nothing, or whose number does not fit the target width, is left
//! out; the others keep their order.
use vstd::prelude::*;

verus! {

/// The values of the readings that are present, in order.
pub open spec fn kept<T>(readings: Seq<Option<T>>) -> Seq<T>
    decreases readings.len(),
{
    if readings.len() == 0 {
        Seq::empty()
    } else {
        match readings.last() {
            Some(x) => kept(readings.drop_last()).push(x),
            None => kept(readings.drop_last()),
        }
    }
}

/// One more reading adds its value, if it has one, at the end.
pub proof fn lemma_kept_push<T>(readings: Seq<Option<T>>, next: Option<T>)
    ensures
        kept(readings.push(next)) == match next {
            Some(x) => kept(readings).push(x),
            None => kept(readings),
        },
{
    assert(readings.push(next).drop_last() =~= readings);
}

/// Nothing is left out where every reading is present.
pub proof fn lemma_kept_all_present<T>(readings: Seq<Option<T>>, values: Seq<T>)
    requires
        readings.len() == values.len(),
        forall|i: int| 0 <= i < values.len() ==> readings[i] == Some(values[i]),
    ensures
        kept(readings) == values,
    decreases readings.len(),
{
    if readings.len() > 0 {
        lemma_kept_all_present(readings.drop_last(), values.drop_last());
        assert(values.drop_last().push(values.last()) =~= values);
    } else {
        assert(values =~= Seq::empty());
    }
}

/// What is kept is never longer than what was read.
pub proof fn lemma_kept_len<T>(readings: Seq<Option<T>>)
    ensures
        kept(readings).len() <= readings.len(),
    decreases readings.len(),
{
    if readings.len() > 0 {
        lemma_kept_len(readings.drop_last());
    }
}

pub open spec fn narrow_u8_spec(n: u64) -> Option<u8> {
    if n <= u8::MAX {
        Some(n as u8)
    } else {
        None
    }
}

pub open spec fn narrow_u16_spec(n: u64) -> Option<u16> {
    if n <= u16::MAX {
        Some(n as u16)
    } else {
        None
    }
}

pub open spec fn narrow_i8_spec(n: i64) -> Option<i8> {
    if i8::MIN <= n <= i8::MAX {
        Some(n as i8)
    } else {
        None
    }
}

pub open spec fn narrow_i16_spec(n: i64) -> Option<i16> {
    if i16::MIN <= n <= i16::MAX {
        Some(n as i16)
    } else {
        None
    }
}

pub open spec fn narrow_i32_spec(n: i64) -> Option<i32> {
    if i32::MIN <= n <= i32::MAX {
        Some(n as i32)
    } else {
        None
    }
}

/// The number as an 8-bit unsigned integer, if it is one.
pub fn narrow_u8(n: u64) -> (r: Option<u8>)
    ensures
        r == narrow_u8_spec(n),
{
    if n <= 255 {
        Some(n as u8)
    } else {
        None
    }
}

/// The number as a 16-bit unsigned integer, if it is one.
pub fn narrow_u16(n: u64) -> (r: Option<u16>)
    ensures
        r == narrow_u16_spec(n),
{
    if n <= 65535 {
        Some(n as u16)
    } else {
        None
    }
}

/// The number as an 8-bit signed integer, if it is one.
pub fn narrow_i8(n: i64) -> (r: Option<i8>)
    ensures
        r == narrow_i8_spec(n),
{
    if -128 <= n && n <= 127 {
        Some(n as i8)
    } else {
        None
    }
}

/// The number as a 16-bit signed integer, if it is one.
pub fn narrow_i16(n: i64) -> (r: Option<i16>)
    ensures
        r == narrow_i16_spec(n),
{
    if -32768 <= n && n <= 32767 {
        Some(n as i16)
    } else {
        None
    }
}

/// The number as a 32-bit signed integer, if it is one.
pub fn narrow_i32(n: i64) -> (r: Option<i32>)
    ensures
        r == narrow_i32_spec(n),
{
    if -2147483648 <= n && n <= 2147483647 {
        Some(n as i32)
    } else {
        None
    }
}

/// Each number narrowed to 8 bits unsigned.
pub open spec fn narrowings_u8(s: Seq<u64>) -> Seq<Option<u8>> {
    Seq::new(s.len(), |i: int| narrow_u8_spec(s[i]))
}

/// Each number narrowed to 16 bits unsigned.
pub open spec fn narrowings_u16(s: Seq<u64>) -> Seq<Option<u16>> {
    Seq::new(s.len(), |i: int| narrow_u16_spec(s[i]))
}

/// Each number narrowed to 8 bits signed.
pub open spec fn narrowings_i8(s: Seq<i64>) -> Seq<Option<i8>> {
    Seq::new(s.len(), |i: int| narrow_i8_spec(s[i]))
}

/// Each number narrowed to 16 bits signed.
pub open spec fn narrowings_i16(s: Seq<i64>) -> Seq<Option<i16>> {
    Seq::new(s.len(), |i: int| narrow_i16_spec(s[i]))
}

/// Each number narrowed to 32 bits signed.
pub open spec fn narrowings_i32(s: Seq<i64>) -> Seq<Option<i32>> {
    Seq::new(s.len(), |i: int| narrow_i32_spec(s[i]))
}

/// The numbers that fit in 8 bits unsigned, in order.
pub fn keep_u8(v: &Vec<u64>) -> (out: Vec<u8>)
    ensures
        out@ == kept(narrowings_u8(v@)),
{
    let mut out: Vec<u8> = Vec::new();
    let mut i: usize = 0;
    while i < v.len()
        invariant
            i <= v.len(),
            out@ == kept(narrowings_u8(v@.subrange(0, i as int))),
        decreases v.len() - i,
    {
        let reading = narrow_u8(v[i]);
        proof {
            let before = narrowings_u8(v@.subrange(0, i as int));
            assert(narrowings_u8(v@.subrange(0, i as int + 1)) =~= before.push(reading));
            lemma_kept_push(before, reading);
        }
        if let Some(x) = reading {
            out.push(x);
        }
        i = i + 1;
    }
    assert(v@.subrange(0, i as int) =~= v@);
    out
}

/// The numbers that fit in 16 bits unsigned, in order.
pub fn keep_u16(v: &Vec<u64>) -> (out: Vec<u16>)
    ensures
        out@ == kept(narrowings_u16(v@)),
{
    let mut out: Vec<u16> = Vec::new();
    let mut i: usize = 0;
    while i < v.len()
        invariant
            i <= v.len(),
            out@ == kept(narrowings_u16(v@.subrange(0, i as int))),
        decreases v.len() - i,
    {
        let reading = narrow_u16(v[i]);
        proof {
            let before = narrowings_u16(v@.subrange(0, i as int));
            assert(narrowings_u16(v@.subrange(0, i as int + 1)) =~= before.push(reading));
            lemma_kept_push(before, reading);
        }
        if let Some(x) = reading {
            out.push(x);
        }
        i = i + 1;
    }
    assert(v@.subrange(0, i as int) =~= v@);
    out
}

/// The numbers that fit in 8 bits signed, in order.
pub fn keep_i8(v: &Vec<i64>) -> (out: Vec<i8>)
    ensures
        out@ == kept(narrowings_i8(v@)),
{
    let mut out: Vec<i8> = Vec::new();
    let mut i: usize = 0;
    while i < v.len()
        invariant
            i <= v.len(),
            out@ == kept(narrowings_i8(v@.subrange(0, i as int))),
        decreases v.len() - i,
    {
        let reading = narrow_i8(v[i]);
        proof {
            let before = narrowings_i8(v@.subrange(0, i as int));
            assert(narrowings_i8(v@.subrange(0, i as int + 1)) =~= before.push(reading));
            lemma_kept_push(before, reading);
        }
        if let Some(x) = reading {
            out.push(x);
        }
        i = i + 1;
    }
    assert(v@.subrange(0, i as int) =~= v@);
    out
}

/// The numbers that fit in 16 bits signed, in order.
pub fn keep_i16(v: &Vec<i64>) -> (out: Vec<i16>)
    ensures
        out@ == kept(narrowings_i16(v@)),
{
    let mut out: Vec<i16> = Vec::new();
    let mut i: usize = 0;
    while i < v.len()
        invariant
            i <= v.len(),
            out@ == kept(narrowings_i16(v@.subrange(0, i as int))),
        decreases v.len() - i,
    {
        let reading = narrow_i16(v[i]);
        proof {
            let before = narrowings_i16(v@.subrange(0, i as int));
            assert(narrowings_i16(v@.subrange(0, i as int + 1)) =~= before.push(reading));
            lemma_kept_push(before, reading);
        }
        if let Some(x) = reading {
            out.push(x);
        }
        i = i + 1;
    }
    assert(v@.subrange(0, i as int) =~= v@);
    out
}

/// The numbers that fit in 32 bits signed, in order.
pub fn keep_i32(v: &Vec<i64>) -> (out: Vec<i32>)
    ensures
        out@ == kept(narrowings_i32(v@)),
{
    let mut out: Vec<i32> = Vec::new();
    let mut i: usize = 0;
    while i < v.len()
        invariant
            i <= v.len(),
            out@ == kept(narrowings_i32(v@.subrange(0, i as int))),
        decreases v.len() - i,
    {
        let reading = narrow_i32(v[i]);
        proof {
            let before = narrowings_i32(v@.subrange(0, i as int));
            assert(narrowings_i32(v@.subrange(0, i as int + 1)) =~= before.push(reading));
            lemma_kept_push(before, reading);
        }
        if let Some(x) = reading {
            out.push(x);
        }
        i = i + 1;
    }
    assert(v@.subrange(0, i as int) =~= v@);
    out
}

} // verus!
