//! The project file codec.
//!
//! A project is saved as plain text: one unsigned decimal number per line,
//! each line ended by a single line-feed byte. Every record starts with its
//! variant's stable tag, every list with its length, and every string with
//! its character count followed by one code point per line; numbers carry
//! bit patterns for the single-precision fields. Decoding accepts exactly
//! the texts this module writes: anything else fails with a structured
//! error carrying the byte offset, and a decoded document equals the
//! encoded one field for field.

use vstd::prelude::*;

use crate::attr::{attr_from_tag, attr_tag, lemma_attr_tag_roundtrip, spec_attr_from_tag,
    spec_attr_tag, AttrKind};
use crate::document::{spec_doc_view, ProjectDocument};
use crate::effect::{opt_string_view, CpuValue, EffectDescriptor, EffectDescriptorView,
    SpawnerSettings};
use crate::expr::{ExprNode, ExprOp};
use crate::modifier::{ColorBlendMask, ColorBlendMode, EventEmitCondition, GradientKeyVec3,
    GradientKeyVec4, GradientVec3, GradientVec4, ModifierDescriptor, RenderModView,
    RenderModifierDescriptor, ShapeDimension};
use crate::values::{FloatBits, Vec3Bits, Vec4Bits};

verus! {

/// A decimal digit byte.
pub open spec fn is_ascii_digit(b: u8) -> bool {
    48 <= b <= 57
}

/// The decimal digits of `n`, most significant first.
pub open spec fn spec_digits(n: nat) -> Seq<u8>
    decreases n,
{
    if n < 10 {
        seq![(48 + n) as u8]
    } else {
        spec_digits(n / 10).push((48 + n % 10) as u8)
    }
}

/// One encoded number: its digits and the line feed that ends the line.
pub open spec fn spec_enc_u64(n: u64) -> Seq<u8> {
    spec_digits(n as nat).push(10u8)
}

/// How many leading bytes of `s` are decimal digits.
pub open spec fn spec_digit_run(s: Seq<u8>) -> nat
    decreases s.len(),
{
    if s.len() == 0 || !is_ascii_digit(s[0]) {
        0
    } else {
        1 + spec_digit_run(s.skip(1))
    }
}

/// The value of a digit string, most significant first.
pub open spec fn spec_digits_val(ds: Seq<u8>) -> int
    decreases ds.len(),
{
    if ds.len() == 0 {
        0
    } else {
        spec_digits_val(ds.drop_last()) * 10 + (ds.last() - 48)
    }
}

/// Parse one number line off the front of `s`: its value and the rest.
pub open spec fn spec_parse_u64(s: Seq<u8>) -> Option<(u64, Seq<u8>)> {
    let k = spec_digit_run(s) as int;
    if k == 0 {
        None
    } else {
        let v = spec_digits_val(s.take(k));
        if v > u64::MAX {
            None
        } else if k >= s.len() {
            None
        } else if s[k] != 10u8 {
            None
        } else {
            Some((v as u64, s.skip(k + 1)))
        }
    }
}

pub(crate) proof fn seq_add_assoc(a: Seq<u8>, b: Seq<u8>, c: Seq<u8>)
    ensures
        a + b + c == a + (b + c),
{
    assert(a + b + c =~= a + (b + c));
}

/// Digit strings hold digits only, and are never empty.
proof fn lemma_digits_wf(n: nat)
    ensures
        spec_digits(n).len() >= 1,
        forall|i: int| 0 <= i < spec_digits(n).len() ==> is_ascii_digit(
            #[trigger] spec_digits(n)[i],
        ),
    decreases n,
{
    if n >= 10 {
        lemma_digits_wf(n / 10);
    }
}

/// The value of the digits of `n` is `n`.
proof fn lemma_digits_val(n: nat)
    ensures
        spec_digits_val(spec_digits(n)) == n,
    decreases n,
{
    if n < 10 {
        let ds = spec_digits(n);
        assert(ds.drop_last() =~= Seq::<u8>::empty());
        assert(spec_digits_val(Seq::<u8>::empty()) == 0);
        assert(ds.last() == (48 + n) as u8);
        assert((48 + n) as u8 == 48 + n);
    } else {
        lemma_digits_val(n / 10);
        let ds = spec_digits(n);
        assert(ds.drop_last() =~= spec_digits(n / 10));
        assert(ds.last() == (48 + n % 10) as u8);
        assert((48 + n % 10) as u8 == 48 + n % 10);
    }
}

/// The digit run is no longer than the input, and covers digits only.
proof fn lemma_digit_run_bounds(s: Seq<u8>)
    ensures
        spec_digit_run(s) <= s.len(),
        forall|i: int| 0 <= i < spec_digit_run(s) ==> is_ascii_digit(#[trigger] s[i]),
    decreases s.len(),
{
    if s.len() > 0 && is_ascii_digit(s[0]) {
        lemma_digit_run_bounds(s.skip(1));
        assert forall|i: int| 0 <= i < spec_digit_run(s) implies is_ascii_digit(s[i]) by {
            if i > 0 {
                assert(is_ascii_digit(s.skip(1)[i - 1]));
            }
        }
    }
}

/// The digit run of digits followed by a non-digit covers the digits.
proof fn lemma_digit_run_exact(ds: Seq<u8>, rest: Seq<u8>)
    requires
        forall|i: int| 0 <= i < ds.len() ==> is_ascii_digit(#[trigger] ds[i]),
        rest.len() > 0,
        !is_ascii_digit(rest[0]),
    ensures
        spec_digit_run(ds + rest) == ds.len(),
    decreases ds.len(),
{
    let s = ds + rest;
    if ds.len() == 0 {
        assert(s =~= rest);
    } else {
        assert(s[0] == ds[0]);
        assert(s.skip(1) =~= ds.skip(1) + rest);
        lemma_digit_run_exact(ds.skip(1), rest);
    }
}

/// Parsing a number line written by the encoder gives the number back and
/// leaves exactly the rest.
proof fn lemma_rt_u64(n: u64, rest: Seq<u8>)
    ensures
        spec_parse_u64(spec_enc_u64(n) + rest) == Some((n, rest)),
{
    let ds = spec_digits(n as nat);
    let s = spec_enc_u64(n) + rest;
    lemma_digits_wf(n as nat);
    lemma_digits_val(n as nat);
    assert(s =~= ds + (seq![10u8] + rest));
    lemma_digit_run_exact(ds, seq![10u8] + rest);
    let k = ds.len() as int;
    assert(s.take(k) =~= ds);
    assert(s[k] == (seq![10u8] + rest)[0]);
    assert(s.skip(k + 1) =~= rest);
}

/// In whatever it returns, the parser consumed at least one byte.
pub proof fn lemma_parse_u64_shortens(s: Seq<u8>)
    ensures
        spec_parse_u64(s) matches Some((v, r)) ==> r.len() < s.len(),
{
}

/// Append the decimal digits of `n`.
fn emit_digits(out: &mut Vec<u8>, n: u64)
    ensures
        final(out)@ == old(out)@ + spec_digits(n as nat),
    decreases n,
{
    if n < 10 {
        out.push((48 + n) as u8);
        proof {
            assert(old(out)@ + spec_digits(n as nat) =~= old(out)@.push((48 + n) as u8));
        }
    } else {
        emit_digits(out, n / 10);
        let d: u8 = (48 + n % 10) as u8;
        out.push(d);
        proof {
            assert(old(out)@ + spec_digits(n as nat) =~= (old(out)@ + spec_digits(
                n as nat / 10,
            )).push(d));
        }
    }
}

/// Append one number line.
pub(crate) fn emit_u64(out: &mut Vec<u8>, n: u64)
    ensures
        final(out)@ == old(out)@ + spec_enc_u64(n),
{
    emit_digits(out, n);
    out.push(10u8);
    proof {
        assert(old(out)@ + spec_enc_u64(n) =~= (old(out)@ + spec_digits(n as nat)).push(10u8));
    }
}

/// Values of digit strings are never negative.
proof fn lemma_digits_val_nonneg(ds: Seq<u8>)
    requires
        forall|i: int| 0 <= i < ds.len() ==> is_ascii_digit(#[trigger] ds[i]),
    ensures
        spec_digits_val(ds) >= 0,
    decreases ds.len(),
{
    if ds.len() > 0 {
        lemma_digits_val_nonneg(ds.drop_last());
    }
}

/// Whether the byte at `j` is a decimal digit.
fn byte_is_digit(s: &Vec<u8>, j: usize) -> (r: bool)
    requires
        j < s@.len(),
    ensures
        r == is_ascii_digit(s@[j as int]),
{
    let b = s[j];
    48 <= b && b <= 57
}

/// Parse one number line at byte offset `i`: the value and the offset after
/// the line feed, or the offset of the malformed byte.
fn parse_u64(s: &Vec<u8>, i: usize) -> (r: Result<(u64, usize), usize>)
    requires
        i <= s@.len(),
    ensures
        r matches Ok((v, j)) ==> i < j <= s@.len() && spec_parse_u64(s@.skip(i as int))
            == Some((v, s@.skip(j as int))),
        r is Err ==> spec_parse_u64(s@.skip(i as int)) is None,
        r matches Err(e) ==> i <= e <= s@.len(),
{
    let ghost tail = s@.skip(i as int);
    let n = s.len();
    let mut j: usize = i;
    let mut acc: u64 = 0;
    while j < n && byte_is_digit(s, j)
        invariant
            i <= j <= n == s@.len(),
            i <= s@.len(),
            tail == s@.skip(i as int),
            forall|m: int| i <= m < j ==> is_ascii_digit(#[trigger] s@[m]),
            acc == spec_digits_val(tail.take(j - i)),
            spec_digits_val(tail.take(j - i)) >= 0,
        decreases n - j,
    {
        let b = s[j];
        let d: u64 = (b - 48) as u64;
        if acc > (u64::MAX - d) / 10 {
            // The digit run continues but its value no longer fits: the
            // line cannot have been written by the encoder.
            proof {
                let k = spec_digit_run(tail) as int;
                assert forall|m2: int| 0 <= m2 <= j - i implies is_ascii_digit(tail[m2]) by {
                    assert(tail[m2] == s@[i + m2]);
                }
                lemma_digit_run_prefix(tail, j - i);
                lemma_digit_run_bounds(tail);
                lemma_digits_val_monotone(tail, j - i + 1, k);
                assert(tail.take(j - i + 1).drop_last() =~= tail.take(j - i));
                assert(tail.take(j - i + 1).last() == tail[j - i]);
                assert(tail[j - i] == s@[j as int]);
                assert(spec_digits_val(tail.take(j - i + 1)) == acc * 10 + d);
                assert(spec_digits_val(tail.take(k)) > u64::MAX);
            }
            return Err(j);
        }
        proof {
            assert(tail.take(j - i + 1).drop_last() =~= tail.take(j - i));
            assert(tail.take(j - i + 1).last() == tail[j - i]);
            assert(tail[j - i] == s@[j as int]);
        }
        acc = acc * 10 + d;
        j = j + 1;
    }
    proof {
        assert forall|m2: int| 0 <= m2 < j - i implies is_ascii_digit(tail[m2]) by {
            assert(tail[m2] == s@[i + m2]);
        }
        if j < n {
            assert(tail[j - i] == s@[j as int]);
        }
        lemma_digit_run_is(tail, j - i);
    }
    if j == i {
        return Err(j);
    }
    if j == n {
        return Err(j);
    }
    if s[j] != 10 {
        return Err(j);
    }
    proof {
        assert(tail.skip(j - i + 1) =~= s@.skip(j + 1 as int));
        assert(tail[j - i] == s@[j as int]);
    }
    Ok((acc, j + 1))
}

/// A digit run covers at least every position known to hold a digit.
proof fn lemma_digit_run_prefix(s: Seq<u8>, m: int)
    requires
        0 <= m < s.len(),
        forall|k: int| 0 <= k <= m ==> is_ascii_digit(#[trigger] s[k]),
    ensures
        spec_digit_run(s) > m,
    decreases m,
{
    if m > 0 {
        assert(forall|k: int| 0 <= k <= m - 1 ==> is_ascii_digit(#[trigger] s.skip(1)[k]));
        lemma_digit_run_prefix(s.skip(1), m - 1);
    }
}

/// A run of digits ended by the end of input or a non-digit is the digit
/// run.
proof fn lemma_digit_run_is(s: Seq<u8>, m: int)
    requires
        0 <= m <= s.len(),
        forall|k: int| 0 <= k < m ==> is_ascii_digit(#[trigger] s[k]),
        m == s.len() || !is_ascii_digit(s[m]),
    ensures
        spec_digit_run(s) == m,
    decreases m,
{
    if m == 0 {
    } else {
        assert(forall|k: int| 0 <= k < m - 1 ==> is_ascii_digit(#[trigger] s.skip(1)[k]));
        assert(m - 1 == s.skip(1).len() || !is_ascii_digit(s.skip(1)[m - 1]));
        lemma_digit_run_is(s.skip(1), m - 1);
    }
}

/// Longer digit prefixes have values at least as large.
proof fn lemma_digits_val_monotone(s: Seq<u8>, a: int, b: int)
    requires
        0 <= a <= b <= s.len(),
        forall|k: int| 0 <= k < b ==> is_ascii_digit(#[trigger] s[k]),
    ensures
        spec_digits_val(s.take(b)) >= spec_digits_val(s.take(a)),
    decreases b - a,
{
    if a < b {
        lemma_digits_val_monotone(s, a, b - 1);
        assert(forall|k: int| 0 <= k < b - 1 ==> is_ascii_digit(#[trigger] s.take(b - 1)[k]));
        lemma_digits_val_nonneg(s.take(b - 1));
        assert(s.take(b).drop_last() =~= s.take(b - 1));
        assert(spec_digits_val(s.take(b)) == spec_digits_val(s.take(b - 1)) * 10 + (s.take(
            b,
        ).last() - 48));
    }
}

/// Parse a number that must fit a 32-bit field.
pub open spec fn spec_parse_u32(s: Seq<u8>) -> Option<(u32, Seq<u8>)> {
    match spec_parse_u64(s) {
        None => None,
        Some((v, r)) => if v > u32::MAX {
            None
        } else {
            Some((v as u32, r))
        },
    }
}

/// Parse a number that must fit an index.
pub open spec fn spec_parse_usize(s: Seq<u8>) -> Option<(usize, Seq<u8>)> {
    match spec_parse_u64(s) {
        None => None,
        Some((v, r)) => if v > usize::MAX {
            None
        } else {
            Some((v as usize, r))
        },
    }
}

/// One single-precision number, written as its bit pattern.
pub open spec fn spec_enc_float(f: FloatBits) -> Seq<u8> {
    spec_enc_u64(f.bits as u64)
}

/// Parse one single-precision bit pattern.
pub open spec fn spec_parse_float(s: Seq<u8>) -> Option<(FloatBits, Seq<u8>)> {
    match spec_parse_u32(s) {
        None => None,
        Some((v, r)) => Some((FloatBits { bits: v }, r)),
    }
}

proof fn lemma_rt_float(f: FloatBits, rest: Seq<u8>)
    ensures
        spec_parse_float(spec_enc_float(f) + rest) == Some((f, rest)),
{
    lemma_rt_u64(f.bits as u64, rest);
}

fn parse_u32(s: &Vec<u8>, i: usize) -> (r: Result<(u32, usize), usize>)
    requires
        i <= s@.len(),
    ensures
        r matches Ok((v, j)) ==> i < j <= s@.len() && spec_parse_u32(s@.skip(i as int)) == Some(
            (v, s@.skip(j as int)),
        ),
        r is Err ==> spec_parse_u32(s@.skip(i as int)) is None,
        r matches Err(e) ==> i <= e <= s@.len(),
{
    let (v, j) = parse_u64(s, i)?;
    if v > 0xFFFF_FFFFu64 {
        return Err(i);
    }
    Ok((v as u32, j))
}

fn parse_usize(s: &Vec<u8>, i: usize) -> (r: Result<(usize, usize), usize>)
    requires
        i <= s@.len(),
    ensures
        r matches Ok((v, j)) ==> i < j <= s@.len() && spec_parse_usize(s@.skip(i as int))
            == Some((v, s@.skip(j as int))),
        r is Err ==> spec_parse_usize(s@.skip(i as int)) is None,
        r matches Err(e) ==> i <= e <= s@.len(),
{
    let (v, j) = parse_u64(s, i)?;
    if v > usize::MAX as u64 {
        return Err(i);
    }
    Ok((v as usize, j))
}

fn parse_float(s: &Vec<u8>, i: usize) -> (r: Result<(FloatBits, usize), usize>)
    requires
        i <= s@.len(),
    ensures
        r matches Ok((v, j)) ==> i < j <= s@.len() && spec_parse_float(s@.skip(i as int))
            == Some((v, s@.skip(j as int))),
        r is Err ==> spec_parse_float(s@.skip(i as int)) is None,
        r matches Err(e) ==> i <= e <= s@.len(),
{
    let (v, j) = parse_u32(s, i)?;
    Ok((FloatBits { bits: v }, j))
}

/// A three-component vector: its three bit patterns.
pub open spec fn spec_enc_vec3(v: Vec3Bits) -> Seq<u8> {
    spec_enc_float(v.x) + spec_enc_float(v.y) + spec_enc_float(v.z)
}

pub open spec fn spec_parse_vec3(s: Seq<u8>) -> Option<(Vec3Bits, Seq<u8>)> {
    match spec_parse_float(s) {
        None => None,
        Some((x, r1)) => match spec_parse_float(r1) {
            None => None,
            Some((y, r2)) => match spec_parse_float(r2) {
                None => None,
                Some((z, r3)) => Some((Vec3Bits { x, y, z }, r3)),
            },
        },
    }
}

proof fn lemma_rt_vec3(v: Vec3Bits, rest: Seq<u8>)
    ensures
        spec_parse_vec3(spec_enc_vec3(v) + rest) == Some((v, rest)),
{
    let ex = spec_enc_float(v.x);
    let ey = spec_enc_float(v.y);
    let ez = spec_enc_float(v.z);
    assert(ex + ey + ez + rest =~= ex + (ey + (ez + rest)));
    lemma_rt_float(v.x, ey + (ez + rest));
    lemma_rt_float(v.y, ez + rest);
    lemma_rt_float(v.z, rest);
}

fn parse_vec3(s: &Vec<u8>, i: usize) -> (r: Result<(Vec3Bits, usize), usize>)
    requires
        i <= s@.len(),
    ensures
        r matches Ok((v, j)) ==> i < j <= s@.len() && spec_parse_vec3(s@.skip(i as int))
            == Some((v, s@.skip(j as int))),
        r is Err ==> spec_parse_vec3(s@.skip(i as int)) is None,
        r matches Err(e) ==> i <= e <= s@.len(),
{
    let (x, j1) = parse_float(s, i)?;
    let (y, j2) = parse_float(s, j1)?;
    let (z, j3) = parse_float(s, j2)?;
    Ok((Vec3Bits { x, y, z }, j3))
}

/// A four-component vector: its four bit patterns.
pub open spec fn spec_enc_vec4(v: Vec4Bits) -> Seq<u8> {
    spec_enc_float(v.x) + spec_enc_float(v.y) + spec_enc_float(v.z) + spec_enc_float(v.w)
}

pub open spec fn spec_parse_vec4(s: Seq<u8>) -> Option<(Vec4Bits, Seq<u8>)> {
    match spec_parse_float(s) {
        None => None,
        Some((x, r1)) => match spec_parse_float(r1) {
            None => None,
            Some((y, r2)) => match spec_parse_float(r2) {
                None => None,
                Some((z, r3)) => match spec_parse_float(r3) {
                    None => None,
                    Some((w, r4)) => Some((Vec4Bits { x, y, z, w }, r4)),
                },
            },
        },
    }
}

proof fn lemma_rt_vec4(v: Vec4Bits, rest: Seq<u8>)
    ensures
        spec_parse_vec4(spec_enc_vec4(v) + rest) == Some((v, rest)),
{
    let ex = spec_enc_float(v.x);
    let ey = spec_enc_float(v.y);
    let ez = spec_enc_float(v.z);
    let ew = spec_enc_float(v.w);
    assert(ex + ey + ez + ew + rest =~= ex + (ey + (ez + (ew + rest))));
    lemma_rt_float(v.x, ey + (ez + (ew + rest)));
    lemma_rt_float(v.y, ez + (ew + rest));
    lemma_rt_float(v.z, ew + rest);
    lemma_rt_float(v.w, rest);
}

fn parse_vec4(s: &Vec<u8>, i: usize) -> (r: Result<(Vec4Bits, usize), usize>)
    requires
        i <= s@.len(),
    ensures
        r matches Ok((v, j)) ==> i < j <= s@.len() && spec_parse_vec4(s@.skip(i as int))
            == Some((v, s@.skip(j as int))),
        r is Err ==> spec_parse_vec4(s@.skip(i as int)) is None,
        r matches Err(e) ==> i <= e <= s@.len(),
{
    let (x, j1) = parse_float(s, i)?;
    let (y, j2) = parse_float(s, j1)?;
    let (z, j3) = parse_float(s, j2)?;
    let (w, j4) = parse_float(s, j3)?;
    Ok((Vec4Bits { x, y, z, w }, j4))
}

/// An attribute, written as its stable catalog tag.
pub open spec fn spec_enc_attr(a: AttrKind) -> Seq<u8> {
    spec_enc_u64(spec_attr_tag(a))
}

pub open spec fn spec_parse_attr(s: Seq<u8>) -> Option<(AttrKind, Seq<u8>)> {
    match spec_parse_u64(s) {
        None => None,
        Some((t, r)) => match spec_attr_from_tag(t) {
            None => None,
            Some(a) => Some((a, r)),
        },
    }
}

proof fn lemma_rt_attr(a: AttrKind, rest: Seq<u8>)
    ensures
        spec_parse_attr(spec_enc_attr(a) + rest) == Some((a, rest)),
{
    lemma_rt_u64(spec_attr_tag(a), rest);
    lemma_attr_tag_roundtrip(a);
}

fn parse_attr(s: &Vec<u8>, i: usize) -> (r: Result<(AttrKind, usize), usize>)
    requires
        i <= s@.len(),
    ensures
        r matches Ok((v, j)) ==> i < j <= s@.len() && spec_parse_attr(s@.skip(i as int))
            == Some((v, s@.skip(j as int))),
        r is Err ==> spec_parse_attr(s@.skip(i as int)) is None,
        r matches Err(e) ==> i <= e <= s@.len(),
{
    let (t, j) = parse_u64(s, i)?;
    match attr_from_tag(t) {
        Some(a) => Ok((a, j)),
        None => Err(i),
    }
}

/// Relies on String::push: it appends exactly the given character.
#[verifier::external_body]
fn push_char(s: &mut String, c: char)
    ensures
        final(s)@ == old(s)@.push(c),
{
    s.push(c);
}

/// Relies on char::from_u32: a Unicode scalar value converts to the
/// character with that code point; surrogates and values beyond the scalar
/// range give nothing.
#[verifier::external_body]
fn char_from_u32(v: u32) -> (r: Option<char>)
    ensures
        r is Some <==> vstd::utf8::is_scalar(v),
        r matches Some(c) ==> c as u32 == v,
{
    char::from_u32(v)
}

/// The characters of a string, one code point per line.
pub open spec fn spec_enc_chars(cs: Seq<char>) -> Seq<u8>
    decreases cs.len(),
{
    if cs.len() == 0 {
        Seq::<u8>::empty()
    } else {
        spec_enc_u64((cs[0] as u32) as u64) + spec_enc_chars(cs.skip(1))
    }
}

/// A string: its character count, then its code points.
pub open spec fn spec_enc_string(cs: Seq<char>) -> Seq<u8> {
    spec_enc_u64(cs.len() as u64) + spec_enc_chars(cs)
}

/// Parse `n` code point lines.
pub open spec fn spec_parse_chars(s: Seq<u8>, n: nat) -> Option<(Seq<char>, Seq<u8>)>
    decreases n,
{
    if n == 0 {
        Some((Seq::<char>::empty(), s))
    } else {
        match spec_parse_u64(s) {
            None => None,
            Some((v, r)) => if v > u32::MAX || !vstd::utf8::is_scalar(v as u32) {
                None
            } else {
                match spec_parse_chars(r, (n - 1) as nat) {
                    None => None,
                    Some((cs, r2)) => Some((seq![(v as u32) as char] + cs, r2)),
                }
            },
        }
    }
}

pub open spec fn spec_parse_string(s: Seq<u8>) -> Option<(Seq<char>, Seq<u8>)> {
    match spec_parse_u64(s) {
        None => None,
        Some((n, r)) => spec_parse_chars(r, n as nat),
    }
}

#[verifier::rlimit(100)]
#[verifier::spinoff_prover]
proof fn lemma_rt_chars(cs: Seq<char>, rest: Seq<u8>)
    ensures
        spec_parse_chars(spec_enc_chars(cs) + rest, cs.len()) == Some((cs, rest)),
    decreases cs.len(),
{
    if cs.len() == 0 {
        assert(spec_enc_chars(cs) + rest =~= rest);
    } else {
        let c = cs[0];
        let code: u64 = (c as u32) as u64;
        let e0 = spec_enc_u64(code);
        let etail = spec_enc_chars(cs.skip(1));
        assert(e0 + etail + rest =~= e0 + (etail + rest));
        lemma_rt_u64(code, etail + rest);
        vstd::utf8::char_is_scalar(c);
        assert((code as u32) == c as u32);
        vstd::utf8::char_u32_cast(c, c as u32);
        lemma_rt_chars(cs.skip(1), rest);
        assert(seq![(code as u32) as char] + cs.skip(1) =~= cs);
    }
}

proof fn lemma_rt_string(cs: Seq<char>, rest: Seq<u8>)
    requires
        cs.len() <= u64::MAX,
    ensures
        spec_parse_string(spec_enc_string(cs) + rest) == Some((cs, rest)),
{
    let en = spec_enc_u64(cs.len() as u64);
    let ecs = spec_enc_chars(cs);
    assert(en + ecs + rest =~= en + (ecs + rest));
    lemma_rt_u64(cs.len() as u64, ecs + rest);
    lemma_rt_chars(cs, rest);
}

pub(crate) fn emit_string(out: &mut Vec<u8>, name: &String)
    ensures
        final(out)@ == old(out)@ + spec_enc_string(name@),
{
    let chars = name.as_str();
    let n = chars.unicode_len();
    emit_u64(out, n as u64);
    let ghost mid = out@;
    for k in 0..n
        invariant
            n == chars@.len(),
            chars@ == name@,
            out@ == mid + spec_enc_chars(chars@.take(k as int)),
            mid == old(out)@ + spec_enc_u64(n as u64),
        decreases n - k,
    {
        let c = chars.get_char(k);
        let code: u32 = c as u32;
        emit_u64(out, code as u64);
        proof {
            lemma_enc_chars_snoc(chars@.take(k as int), c);
            assert(chars@.take(k + 1 as int) =~= chars@.take(k as int).push(c));
        }
    }
    proof {
        assert(chars@.take(n as int) =~= chars@);
    }
}

/// Encoding one more character appends its line.
proof fn lemma_enc_chars_snoc(cs: Seq<char>, c: char)
    ensures
        spec_enc_chars(cs.push(c)) == spec_enc_chars(cs) + spec_enc_u64((c as u32) as u64),
    decreases cs.len(),
{
    let ec = spec_enc_u64((c as u32) as u64);
    if cs.len() == 0 {
        assert(cs.push(c)[0] == c);
        assert(cs.push(c).skip(1) =~= Seq::<char>::empty());
        assert(spec_enc_chars(Seq::<char>::empty()) == Seq::<u8>::empty());
        assert(ec + Seq::<u8>::empty() =~= ec);
        assert(spec_enc_chars(cs) + ec =~= ec);
    } else {
        assert(cs.push(c)[0] == cs[0]);
        assert(cs.push(c).skip(1) =~= cs.skip(1).push(c));
        lemma_enc_chars_snoc(cs.skip(1), c);
        let e0 = spec_enc_u64((cs[0] as u32) as u64);
        let etail = spec_enc_chars(cs.skip(1));
        assert(spec_enc_chars(cs.push(c)) == e0 + (etail + ec));
        assert(e0 + (etail + ec) =~= e0 + etail + ec);
    }
}

fn parse_string(s: &Vec<u8>, i: usize) -> (r: Result<(String, usize), usize>)
    requires
        i <= s@.len(),
    ensures
        r matches Ok((v, j)) ==> i < j <= s@.len() && spec_parse_string(s@.skip(i as int))
            == Some((v@, s@.skip(j as int))),
        r is Err ==> spec_parse_string(s@.skip(i as int)) is None,
        r matches Err(e) ==> i <= e <= s@.len(),
{
    let (n, j0) = parse_u64(s, i)?;
    let mut built = String::new();
    let mut j: usize = j0;
    let mut k: u64 = 0;
    while k < n
        invariant
            i < j0 <= j <= s@.len(),
            k <= n,
            spec_parse_u64(s@.skip(i as int)) == Some((n, s@.skip(j0 as int))),
            spec_parse_chars(s@.skip(j0 as int), n as nat) == (match spec_parse_chars(
                s@.skip(j as int),
                (n - k) as nat,
            ) {
                None => None::<(Seq<char>, Seq<u8>)>,
                Some((cs, r)) => Some((built@ + cs, r)),
            }),
        decreases n - k,
    {
        let parsed = parse_u64(s, j);
        match parsed {
            Err(e) => {
                return Err(e);
            },
            Ok((v, j2)) => {
                if v > 0xFFFF_FFFFu64 {
                    return Err(j);
                }
                let c = match char_from_u32(v as u32) {
                    Some(c) => c,
                    None => {
                        return Err(j);
                    },
                };
                proof {
                    vstd::utf8::char_u32_cast(c, v as u32);
                    let tail1 = s@.skip(j as int);
                    let tail2 = s@.skip(j2 as int);
                    match spec_parse_chars(tail2, (n - k - 1) as nat) {
                        None => {},
                        Some((cs, r)) => {
                            assert(built@.push(c) + cs =~= built@ + (seq![c] + cs));
                        },
                    }
                }
                push_char(&mut built, c);
                j = j2;
                k = k + 1;
            },
        }
    }
    proof {
        assert(built@ + Seq::<char>::empty() =~= built@);
    }
    Ok((built, j))
}

/// An optional string: a presence tag, then the string if present.
pub open spec fn spec_enc_opt_string(o: Option<Seq<char>>) -> Seq<u8> {
    match o {
        None => spec_enc_u64(0),
        Some(cs) => spec_enc_u64(1) + spec_enc_string(cs),
    }
}

pub open spec fn spec_parse_opt_string(s: Seq<u8>) -> Option<(Option<Seq<char>>, Seq<u8>)> {
    match spec_parse_u64(s) {
        None => None,
        Some((t, r)) => if t == 0 {
            Some((None, r))
        } else if t == 1 {
            match spec_parse_string(r) {
                None => None,
                Some((cs, r2)) => Some((Some(cs), r2)),
            }
        } else {
            None
        },
    }
}

proof fn lemma_rt_opt_string(o: Option<Seq<char>>, rest: Seq<u8>)
    requires
        o matches Some(cs) ==> cs.len() <= u64::MAX,
    ensures
        spec_parse_opt_string(spec_enc_opt_string(o) + rest) == Some((o, rest)),
{
    match o {
        None => {
            lemma_rt_u64(0, rest);
        },
        Some(cs) => {
            let e1 = spec_enc_u64(1);
            let es = spec_enc_string(cs);
            assert(e1 + es + rest =~= e1 + (es + rest));
            lemma_rt_u64(1, es + rest);
            lemma_rt_string(cs, rest);
        },
    }
}

pub(crate) fn emit_opt_string(out: &mut Vec<u8>, o: &Option<String>)
    ensures
        final(out)@ == old(out)@ + spec_enc_opt_string(crate::effect::opt_string_view(*o)),
{
    match o {
        None => {
            emit_u64(out, 0);
        },
        Some(cs) => {
            emit_u64(out, 1);
            emit_string(out, cs);
            proof {
                seq_add_assoc(old(out)@, spec_enc_u64(1), spec_enc_string(cs@));
            }
        },
    }
}

fn parse_opt_string(s: &Vec<u8>, i: usize) -> (r: Result<(Option<String>, usize), usize>)
    requires
        i <= s@.len(),
    ensures
        r matches Ok((v, j)) ==> i < j <= s@.len() && spec_parse_opt_string(s@.skip(i as int))
            == Some((crate::effect::opt_string_view(v), s@.skip(j as int))),
        r is Err ==> spec_parse_opt_string(s@.skip(i as int)) is None,
        r matches Err(e) ==> i <= e <= s@.len(),
{
    let (t, j) = parse_u64(s, i)?;
    if t == 0 {
        Ok((None, j))
    } else if t == 1 {
        let (cs, j2) = parse_string(s, j)?;
        Ok((Some(cs), j2))
    } else {
        Err(i)
    }
}

/// An optional index: a presence tag, then the index if present.
pub open spec fn spec_enc_opt_usize(o: Option<usize>) -> Seq<u8> {
    match o {
        None => spec_enc_u64(0),
        Some(v) => spec_enc_u64(1) + spec_enc_u64(v as u64),
    }
}

pub open spec fn spec_parse_opt_usize(s: Seq<u8>) -> Option<(Option<usize>, Seq<u8>)> {
    match spec_parse_u64(s) {
        None => None,
        Some((t, r)) => if t == 0 {
            Some((None, r))
        } else if t == 1 {
            match spec_parse_usize(r) {
                None => None,
                Some((v, r2)) => Some((Some(v), r2)),
            }
        } else {
            None
        },
    }
}

proof fn lemma_rt_opt_usize(o: Option<usize>, rest: Seq<u8>)
    ensures
        spec_parse_opt_usize(spec_enc_opt_usize(o) + rest) == Some((o, rest)),
{
    match o {
        None => {
            lemma_rt_u64(0, rest);
        },
        Some(v) => {
            let e1 = spec_enc_u64(1);
            let ev = spec_enc_u64(v as u64);
            assert(e1 + ev + rest =~= e1 + (ev + rest));
            lemma_rt_u64(1, ev + rest);
            lemma_rt_u64(v as u64, rest);
        },
    }
}

pub(crate) fn emit_opt_usize(out: &mut Vec<u8>, o: &Option<usize>)
    ensures
        final(out)@ == old(out)@ + spec_enc_opt_usize(*o),
{
    match o {
        None => {
            emit_u64(out, 0);
        },
        Some(v) => {
            emit_u64(out, 1);
            emit_u64(out, *v as u64);
            proof {
                seq_add_assoc(old(out)@, spec_enc_u64(1), spec_enc_u64(*v as u64));
            }
        },
    }
}

fn parse_opt_usize(s: &Vec<u8>, i: usize) -> (r: Result<(Option<usize>, usize), usize>)
    requires
        i <= s@.len(),
    ensures
        r matches Ok((v, j)) ==> i < j <= s@.len() && spec_parse_opt_usize(s@.skip(i as int))
            == Some((v, s@.skip(j as int))),
        r is Err ==> spec_parse_opt_usize(s@.skip(i as int)) is None,
        r matches Err(e) ==> i <= e <= s@.len(),
{
    let (t, j) = parse_u64(s, i)?;
    if t == 0 {
        Ok((None, j))
    } else if t == 1 {
        let (v, j2) = parse_usize(s, j)?;
        Ok((Some(v), j2))
    } else {
        Err(i)
    }
}

/// A spawner value: fixed, or uniform in a range.
pub open spec fn spec_enc_cpu(c: CpuValue) -> Seq<u8> {
    match c {
        CpuValue::Single(f) => spec_enc_u64(0) + spec_enc_float(f),
        CpuValue::Range(a, b) => spec_enc_u64(1) + spec_enc_float(a) + spec_enc_float(b),
    }
}

pub open spec fn spec_parse_cpu(s: Seq<u8>) -> Option<(CpuValue, Seq<u8>)> {
    match spec_parse_u64(s) {
        None => None,
        Some((t, r)) => if t == 0 {
            match spec_parse_float(r) {
                None => None,
                Some((f, r2)) => Some((CpuValue::Single(f), r2)),
            }
        } else if t == 1 {
            match spec_parse_float(r) {
                None => None,
                Some((a, r2)) => match spec_parse_float(r2) {
                    None => None,
                    Some((b, r3)) => Some((CpuValue::Range(a, b), r3)),
                },
            }
        } else {
            None
        },
    }
}

proof fn lemma_rt_cpu(c: CpuValue, rest: Seq<u8>)
    ensures
        spec_parse_cpu(spec_enc_cpu(c) + rest) == Some((c, rest)),
{
    match c {
        CpuValue::Single(f) => {
            let e0 = spec_enc_u64(0);
            let ef = spec_enc_float(f);
            assert(e0 + ef + rest =~= e0 + (ef + rest));
            lemma_rt_u64(0, ef + rest);
            lemma_rt_float(f, rest);
        },
        CpuValue::Range(a, b) => {
            let e1 = spec_enc_u64(1);
            let ea = spec_enc_float(a);
            let eb = spec_enc_float(b);
            assert(e1 + ea + eb + rest =~= e1 + (ea + (eb + rest)));
            lemma_rt_u64(1, ea + (eb + rest));
            lemma_rt_float(a, eb + rest);
            lemma_rt_float(b, rest);
        },
    }
}

pub(crate) fn emit_cpu(out: &mut Vec<u8>, c: &CpuValue)
    ensures
        final(out)@ == old(out)@ + spec_enc_cpu(*c),
{
    match c {
        CpuValue::Single(f) => {
            emit_u64(out, 0);
            emit_u64(out, f.bits as u64);
            proof {
                seq_add_assoc(old(out)@, spec_enc_u64(0), spec_enc_float(*f));
            }
        },
        CpuValue::Range(a, b) => {
            emit_u64(out, 1);
            emit_u64(out, a.bits as u64);
            emit_u64(out, b.bits as u64);
            proof {
                assert(old(out)@ + spec_enc_u64(1) + spec_enc_float(*a) + spec_enc_float(*b)
                    =~= old(out)@ + (spec_enc_u64(1) + spec_enc_float(*a) + spec_enc_float(
                    *b,
                )));
            }
        },
    }
}

fn parse_cpu(s: &Vec<u8>, i: usize) -> (r: Result<(CpuValue, usize), usize>)
    requires
        i <= s@.len(),
    ensures
        r matches Ok((v, j)) ==> i < j <= s@.len() && spec_parse_cpu(s@.skip(i as int))
            == Some((v, s@.skip(j as int))),
        r is Err ==> spec_parse_cpu(s@.skip(i as int)) is None,
        r matches Err(e) ==> i <= e <= s@.len(),
{
    let (t, j) = parse_u64(s, i)?;
    if t == 0 {
        let (f, j2) = parse_float(s, j)?;
        Ok((CpuValue::Single(f), j2))
    } else if t == 1 {
        let (a, j2) = parse_float(s, j)?;
        let (b, j3) = parse_float(s, j2)?;
        Ok((CpuValue::Range(a, b), j3))
    } else {
        Err(i)
    }
}

/// Spawner settings: the three spawner values, then the cycle count.
pub open spec fn spec_enc_spawner(sp: SpawnerSettings) -> Seq<u8> {
    spec_enc_cpu(sp.count) + spec_enc_cpu(sp.spawn_duration) + spec_enc_cpu(sp.period)
        + spec_enc_u64(sp.cycle_count as u64)
}

pub open spec fn spec_parse_spawner(s: Seq<u8>) -> Option<(SpawnerSettings, Seq<u8>)> {
    match spec_parse_cpu(s) {
        None => None,
        Some((count, r1)) => match spec_parse_cpu(r1) {
            None => None,
            Some((spawn_duration, r2)) => match spec_parse_cpu(r2) {
                None => None,
                Some((period, r3)) => match spec_parse_u32(r3) {
                    None => None,
                    Some((cycle_count, r4)) => Some(
                        (SpawnerSettings { count, spawn_duration, period, cycle_count }, r4),
                    ),
                },
            },
        },
    }
}

proof fn lemma_rt_spawner(sp: SpawnerSettings, rest: Seq<u8>)
    ensures
        spec_parse_spawner(spec_enc_spawner(sp) + rest) == Some((sp, rest)),
{
    let e1 = spec_enc_cpu(sp.count);
    let e2 = spec_enc_cpu(sp.spawn_duration);
    let e3 = spec_enc_cpu(sp.period);
    let e4 = spec_enc_u64(sp.cycle_count as u64);
    assert(e1 + e2 + e3 + e4 + rest =~= e1 + (e2 + (e3 + (e4 + rest))));
    lemma_rt_cpu(sp.count, e2 + (e3 + (e4 + rest)));
    lemma_rt_cpu(sp.spawn_duration, e3 + (e4 + rest));
    lemma_rt_cpu(sp.period, e4 + rest);
    lemma_rt_u64(sp.cycle_count as u64, rest);
}

pub(crate) fn emit_spawner(out: &mut Vec<u8>, sp: &SpawnerSettings)
    ensures
        final(out)@ == old(out)@ + spec_enc_spawner(*sp),
{
    emit_cpu(out, &sp.count);
    emit_cpu(out, &sp.spawn_duration);
    emit_cpu(out, &sp.period);
    emit_u64(out, sp.cycle_count as u64);
    proof {
        assert(old(out)@ + spec_enc_cpu(sp.count) + spec_enc_cpu(sp.spawn_duration)
            + spec_enc_cpu(sp.period) + spec_enc_u64(sp.cycle_count as u64) =~= old(out)@
            + spec_enc_spawner(*sp));
    }
}

fn parse_spawner(s: &Vec<u8>, i: usize) -> (r: Result<(SpawnerSettings, usize), usize>)
    requires
        i <= s@.len(),
    ensures
        r matches Ok((v, j)) ==> i < j <= s@.len() && spec_parse_spawner(s@.skip(i as int))
            == Some((v, s@.skip(j as int))),
        r is Err ==> spec_parse_spawner(s@.skip(i as int)) is None,
        r matches Err(e) ==> i <= e <= s@.len(),
{
    let (count, j1) = parse_cpu(s, i)?;
    let (spawn_duration, j2) = parse_cpu(s, j1)?;
    let (period, j3) = parse_cpu(s, j2)?;
    let (cycle_count, j4) = parse_u32(s, j3)?;
    Ok((SpawnerSettings { count, spawn_duration, period, cycle_count }, j4))
}

/// Every encoded number line is at least two bytes.
proof fn lemma_enc_u64_len(n: u64)
    ensures
        spec_enc_u64(n).len() >= 2,
{
    lemma_digits_wf(n as nat);
}

/// An expression node: its variant tag, then its payload, children in
/// declaration order.
pub open spec fn spec_enc_expr(n: ExprNode) -> Seq<u8>
    decreases n,
{
    match n {
        ExprNode::Placeholder => spec_enc_u64(0),
        ExprNode::RandU32 => spec_enc_u64(1),
        ExprNode::RandFloat => spec_enc_u64(2),
        ExprNode::RandVec3 => spec_enc_u64(3),
        ExprNode::Operator(op) => spec_enc_u64(4) + spec_enc_op(*op),
        ExprNode::Float(f) => spec_enc_u64(5) + spec_enc_float(f),
        ExprNode::U32(u) => spec_enc_u64(6) + spec_enc_u64(u as u64),
        ExprNode::Vec3(v) => spec_enc_u64(7) + spec_enc_vec3(v),
        ExprNode::Vec4(v) => spec_enc_u64(8) + spec_enc_vec4(v),
        ExprNode::Time => spec_enc_u64(9),
        ExprNode::Age => spec_enc_u64(10),
    }
}

/// An operator node: its kind tag, then its operands.
pub open spec fn spec_enc_op(op: ExprOp) -> Seq<u8>
    decreases op,
{
    match op {
        ExprOp::Uniform(a, b) => spec_enc_u64(0) + spec_enc_expr(a) + spec_enc_expr(b),
        ExprOp::Multiply(a, b) => spec_enc_u64(1) + spec_enc_expr(a) + spec_enc_expr(b),
        ExprOp::Subtract(a, b) => spec_enc_u64(2) + spec_enc_expr(a) + spec_enc_expr(b),
        ExprOp::Add(a, b) => spec_enc_u64(3) + spec_enc_expr(a) + spec_enc_expr(b),
        ExprOp::Sin(a) => spec_enc_u64(4) + spec_enc_expr(a),
        ExprOp::Cos(a) => spec_enc_u64(5) + spec_enc_expr(a),
        ExprOp::Distance(a, b) => spec_enc_u64(6) + spec_enc_expr(a) + spec_enc_expr(b),
        ExprOp::Vec3(a, b, c) => spec_enc_u64(7) + spec_enc_expr(a) + spec_enc_expr(b)
            + spec_enc_expr(c),
        ExprOp::Vec4(a, b, c, d) => spec_enc_u64(8) + spec_enc_expr(a) + spec_enc_expr(b)
            + spec_enc_expr(c) + spec_enc_expr(d),
        ExprOp::Pack4x8UNorm(a) => spec_enc_u64(9) + spec_enc_expr(a),
        ExprOp::Attr(at) => spec_enc_u64(10) + spec_enc_attr(at),
        ExprOp::ParentAttr(at) => spec_enc_u64(11) + spec_enc_attr(at),
        ExprOp::Normalized(a) => spec_enc_u64(12) + spec_enc_expr(a),
    }
}

/// Parse one expression node. The progress tests on parsed remainders can
/// never hold of a parser's result; they are what lets the recursion's
/// measure go through.
pub open spec fn spec_parse_expr(s: Seq<u8>) -> Option<(ExprNode, Seq<u8>)>
    decreases s.len(), 0int,
{
    match spec_parse_u64(s) {
        None => None,
        Some((t, r)) => {
            proof {
                lemma_parse_u64_shortens(s);
            }
            if t == 0 {
                Some((ExprNode::Placeholder, r))
            } else if t == 1 {
                Some((ExprNode::RandU32, r))
            } else if t == 2 {
                Some((ExprNode::RandFloat, r))
            } else if t == 3 {
                Some((ExprNode::RandVec3, r))
            } else if t == 4 {
                match spec_parse_op(r) {
                    None => None,
                    Some((op, r2)) => Some((ExprNode::Operator(Box::new(op)), r2)),
                }
            } else if t == 5 {
                match spec_parse_float(r) {
                    None => None,
                    Some((f, r2)) => Some((ExprNode::Float(f), r2)),
                }
            } else if t == 6 {
                match spec_parse_u32(r) {
                    None => None,
                    Some((u, r2)) => Some((ExprNode::U32(u), r2)),
                }
            } else if t == 7 {
                match spec_parse_vec3(r) {
                    None => None,
                    Some((v, r2)) => Some((ExprNode::Vec3(v), r2)),
                }
            } else if t == 8 {
                match spec_parse_vec4(r) {
                    None => None,
                    Some((v, r2)) => Some((ExprNode::Vec4(v), r2)),
                }
            } else if t == 9 {
                Some((ExprNode::Time, r))
            } else if t == 10 {
                Some((ExprNode::Age, r))
            } else {
                None
            }
        },
    }
}

/// Parse one operator node.
pub open spec fn spec_parse_op(s: Seq<u8>) -> Option<(ExprOp, Seq<u8>)>
    decreases s.len(), 1int,
{
    match spec_parse_u64(s) {
        None => None,
        Some((t, r)) => {
            proof {
                lemma_parse_u64_shortens(s);
            }
            if t == 0 || t == 1 || t == 2 || t == 3 || t == 6 {
                match spec_parse_expr(r) {
                    None => None,
                    Some((a, r1)) => if r1.len() >= r.len() {
                        None
                    } else {
                        match spec_parse_expr(r1) {
                            None => None,
                            Some((b, r2)) => Some(
                                (
                                    if t == 0 {
                                        ExprOp::Uniform(a, b)
                                    } else if t == 1 {
                                        ExprOp::Multiply(a, b)
                                    } else if t == 2 {
                                        ExprOp::Subtract(a, b)
                                    } else if t == 3 {
                                        ExprOp::Add(a, b)
                                    } else {
                                        ExprOp::Distance(a, b)
                                    },
                                    r2,
                                ),
                            ),
                        }
                    },
                }
            } else if t == 4 || t == 5 || t == 9 || t == 12 {
                match spec_parse_expr(r) {
                    None => None,
                    Some((a, r1)) => Some(
                        (
                            if t == 4 {
                                ExprOp::Sin(a)
                            } else if t == 5 {
                                ExprOp::Cos(a)
                            } else if t == 9 {
                                ExprOp::Pack4x8UNorm(a)
                            } else {
                                ExprOp::Normalized(a)
                            },
                            r1,
                        ),
                    ),
                }
            } else if t == 7 {
                match spec_parse_expr(r) {
                    None => None,
                    Some((a, r1)) => if r1.len() >= r.len() {
                        None
                    } else {
                        match spec_parse_expr(r1) {
                            None => None,
                            Some((b, r2)) => if r2.len() >= r1.len() {
                                None
                            } else {
                                match spec_parse_expr(r2) {
                                    None => None,
                                    Some((c, r3)) => Some((ExprOp::Vec3(a, b, c), r3)),
                                }
                            },
                        }
                    },
                }
            } else if t == 8 {
                match spec_parse_expr(r) {
                    None => None,
                    Some((a, r1)) => if r1.len() >= r.len() {
                        None
                    } else {
                        match spec_parse_expr(r1) {
                            None => None,
                            Some((b, r2)) => if r2.len() >= r1.len() {
                                None
                            } else {
                                match spec_parse_expr(r2) {
                                    None => None,
                                    Some((c, r3)) => if r3.len() >= r2.len() {
                                        None
                                    } else {
                                        match spec_parse_expr(r3) {
                                            None => None,
                                            Some((d, r4)) => Some(
                                                (ExprOp::Vec4(a, b, c, d), r4),
                                            ),
                                        }
                                    },
                                }
                            },
                        }
                    },
                }
            } else if t == 10 {
                match spec_parse_attr(r) {
                    None => None,
                    Some((at, r1)) => Some((ExprOp::Attr(at), r1)),
                }
            } else if t == 11 {
                match spec_parse_attr(r) {
                    None => None,
                    Some((at, r1)) => Some((ExprOp::ParentAttr(at), r1)),
                }
            } else {
                None
            }
        },
    }
}

/// Every encoded expression is at least one full line.
proof fn lemma_enc_expr_min_len(n: ExprNode)
    ensures
        spec_enc_expr(n).len() >= 2,
{
    match n {
        ExprNode::Placeholder => lemma_enc_u64_len(0),
        ExprNode::RandU32 => lemma_enc_u64_len(1),
        ExprNode::RandFloat => lemma_enc_u64_len(2),
        ExprNode::RandVec3 => lemma_enc_u64_len(3),
        ExprNode::Operator(_) => lemma_enc_u64_len(4),
        ExprNode::Float(_) => lemma_enc_u64_len(5),
        ExprNode::U32(_) => lemma_enc_u64_len(6),
        ExprNode::Vec3(_) => lemma_enc_u64_len(7),
        ExprNode::Vec4(_) => lemma_enc_u64_len(8),
        ExprNode::Time => lemma_enc_u64_len(9),
        ExprNode::Age => lemma_enc_u64_len(10),
    }
}

/// Parsing an encoded expression gives the node back, leaving the rest.
#[verifier::rlimit(100)]
#[verifier::spinoff_prover]
proof fn lemma_rt_expr(n: ExprNode, rest: Seq<u8>)
    ensures
        spec_parse_expr(spec_enc_expr(n) + rest) == Some((n, rest)),
    decreases n,
{
    match n {
        ExprNode::Placeholder => lemma_rt_u64(0, rest),
        ExprNode::RandU32 => lemma_rt_u64(1, rest),
        ExprNode::RandFloat => lemma_rt_u64(2, rest),
        ExprNode::RandVec3 => lemma_rt_u64(3, rest),
        ExprNode::Operator(op) => {
            let eo = spec_enc_op(*op);
            assert(spec_enc_u64(4) + eo + rest =~= spec_enc_u64(4) + (eo + rest));
            lemma_rt_u64(4, eo + rest);
            lemma_rt_op(*op, rest);
        },
        ExprNode::Float(f) => {
            let ef = spec_enc_float(f);
            assert(spec_enc_u64(5) + ef + rest =~= spec_enc_u64(5) + (ef + rest));
            lemma_rt_u64(5, ef + rest);
            lemma_rt_float(f, rest);
        },
        ExprNode::U32(u) => {
            let eu = spec_enc_u64(u as u64);
            assert(spec_enc_u64(6) + eu + rest =~= spec_enc_u64(6) + (eu + rest));
            lemma_rt_u64(6, eu + rest);
            lemma_rt_u64(u as u64, rest);
        },
        ExprNode::Vec3(v) => {
            let ev = spec_enc_vec3(v);
            assert(spec_enc_u64(7) + ev + rest =~= spec_enc_u64(7) + (ev + rest));
            lemma_rt_u64(7, ev + rest);
            lemma_rt_vec3(v, rest);
        },
        ExprNode::Vec4(v) => {
            let ev = spec_enc_vec4(v);
            assert(spec_enc_u64(8) + ev + rest =~= spec_enc_u64(8) + (ev + rest));
            lemma_rt_u64(8, ev + rest);
            lemma_rt_vec4(v, rest);
        },
        ExprNode::Time => lemma_rt_u64(9, rest),
        ExprNode::Age => lemma_rt_u64(10, rest),
    }
}

/// Parsing an encoded operator gives the node back, leaving the rest.
#[verifier::rlimit(100)]
#[verifier::spinoff_prover]
proof fn lemma_rt_op(op: ExprOp, rest: Seq<u8>)
    ensures
        spec_parse_op(spec_enc_op(op) + rest) == Some((op, rest)),
    decreases op,
{
    match op {
        ExprOp::Uniform(a, b) => {
            let et = spec_enc_u64(0);
            let ea = spec_enc_expr(a);
            let eb = spec_enc_expr(b);
            assert(et + ea + eb + rest =~= et + (ea + (eb + rest)));
            lemma_rt_u64(0, ea + (eb + rest));
            lemma_rt_expr(a, eb + rest);
            lemma_rt_expr(b, rest);
            lemma_enc_expr_min_len(a);
        },
        ExprOp::Multiply(a, b) => {
            let et = spec_enc_u64(1);
            let ea = spec_enc_expr(a);
            let eb = spec_enc_expr(b);
            assert(et + ea + eb + rest =~= et + (ea + (eb + rest)));
            lemma_rt_u64(1, ea + (eb + rest));
            lemma_rt_expr(a, eb + rest);
            lemma_rt_expr(b, rest);
            lemma_enc_expr_min_len(a);
        },
        ExprOp::Subtract(a, b) => {
            let et = spec_enc_u64(2);
            let ea = spec_enc_expr(a);
            let eb = spec_enc_expr(b);
            assert(et + ea + eb + rest =~= et + (ea + (eb + rest)));
            lemma_rt_u64(2, ea + (eb + rest));
            lemma_rt_expr(a, eb + rest);
            lemma_rt_expr(b, rest);
            lemma_enc_expr_min_len(a);
        },
        ExprOp::Add(a, b) => {
            let et = spec_enc_u64(3);
            let ea = spec_enc_expr(a);
            let eb = spec_enc_expr(b);
            assert(et + ea + eb + rest =~= et + (ea + (eb + rest)));
            lemma_rt_u64(3, ea + (eb + rest));
            lemma_rt_expr(a, eb + rest);
            lemma_rt_expr(b, rest);
            lemma_enc_expr_min_len(a);
        },
        ExprOp::Distance(a, b) => {
            let et = spec_enc_u64(6);
            let ea = spec_enc_expr(a);
            let eb = spec_enc_expr(b);
            assert(et + ea + eb + rest =~= et + (ea + (eb + rest)));
            lemma_rt_u64(6, ea + (eb + rest));
            lemma_rt_expr(a, eb + rest);
            lemma_rt_expr(b, rest);
            lemma_enc_expr_min_len(a);
        },
        ExprOp::Sin(a) => {
            let et = spec_enc_u64(4);
            let ea = spec_enc_expr(a);
            assert(et + ea + rest =~= et + (ea + rest));
            lemma_rt_u64(4, ea + rest);
            lemma_rt_expr(a, rest);
        },
        ExprOp::Cos(a) => {
            let et = spec_enc_u64(5);
            let ea = spec_enc_expr(a);
            assert(et + ea + rest =~= et + (ea + rest));
            lemma_rt_u64(5, ea + rest);
            lemma_rt_expr(a, rest);
        },
        ExprOp::Pack4x8UNorm(a) => {
            let et = spec_enc_u64(9);
            let ea = spec_enc_expr(a);
            assert(et + ea + rest =~= et + (ea + rest));
            lemma_rt_u64(9, ea + rest);
            lemma_rt_expr(a, rest);
        },
        ExprOp::Normalized(a) => {
            let et = spec_enc_u64(12);
            let ea = spec_enc_expr(a);
            assert(et + ea + rest =~= et + (ea + rest));
            lemma_rt_u64(12, ea + rest);
            lemma_rt_expr(a, rest);
        },
        ExprOp::Vec3(a, b, c) => {
            let et = spec_enc_u64(7);
            let ea = spec_enc_expr(a);
            let eb = spec_enc_expr(b);
            let ec = spec_enc_expr(c);
            assert(et + ea + eb + ec + rest =~= et + (ea + (eb + (ec + rest))));
            lemma_rt_u64(7, ea + (eb + (ec + rest)));
            lemma_rt_expr(a, eb + (ec + rest));
            lemma_rt_expr(b, ec + rest);
            lemma_rt_expr(c, rest);
            lemma_enc_expr_min_len(a);
            lemma_enc_expr_min_len(b);
        },
        ExprOp::Vec4(a, b, c, d) => {
            let et = spec_enc_u64(8);
            let ea = spec_enc_expr(a);
            let eb = spec_enc_expr(b);
            let ec = spec_enc_expr(c);
            let ed = spec_enc_expr(d);
            assert(et + ea + eb + ec + ed + rest =~= et + (ea + (eb + (ec + (ed + rest)))));
            lemma_rt_u64(8, ea + (eb + (ec + (ed + rest))));
            lemma_rt_expr(a, eb + (ec + (ed + rest)));
            lemma_rt_expr(b, ec + (ed + rest));
            lemma_rt_expr(c, ed + rest);
            lemma_rt_expr(d, rest);
            lemma_enc_expr_min_len(a);
            lemma_enc_expr_min_len(b);
            lemma_enc_expr_min_len(c);
        },
        ExprOp::Attr(at) => {
            let et = spec_enc_u64(10);
            let ea = spec_enc_attr(at);
            assert(et + ea + rest =~= et + (ea + rest));
            lemma_rt_u64(10, ea + rest);
            lemma_rt_attr(at, rest);
        },
        ExprOp::ParentAttr(at) => {
            let et = spec_enc_u64(11);
            let ea = spec_enc_attr(at);
            assert(et + ea + rest =~= et + (ea + rest));
            lemma_rt_u64(11, ea + rest);
            lemma_rt_attr(at, rest);
        },
    }
}

/// Append one encoded expression node.
fn emit_expr(out: &mut Vec<u8>, n: &ExprNode)
    ensures
        final(out)@ == old(out)@ + spec_enc_expr(*n),
    decreases *n,
{
    match n {
        ExprNode::Placeholder => emit_u64(out, 0),
        ExprNode::RandU32 => emit_u64(out, 1),
        ExprNode::RandFloat => emit_u64(out, 2),
        ExprNode::RandVec3 => emit_u64(out, 3),
        ExprNode::Operator(op) => {
            emit_u64(out, 4);
            emit_op(out, op);
            proof {
                seq_add_assoc(old(out)@, spec_enc_u64(4), spec_enc_op(**op));
            }
        },
        ExprNode::Float(f) => {
            emit_u64(out, 5);
            emit_u64(out, f.bits as u64);
            proof {
                seq_add_assoc(old(out)@, spec_enc_u64(5), spec_enc_float(*f));
            }
        },
        ExprNode::U32(u) => {
            emit_u64(out, 6);
            emit_u64(out, *u as u64);
            proof {
                seq_add_assoc(old(out)@, spec_enc_u64(6), spec_enc_u64(*u as u64));
            }
        },
        ExprNode::Vec3(v) => {
            emit_u64(out, 7);
            emit_u64(out, v.x.bits as u64);
            emit_u64(out, v.y.bits as u64);
            emit_u64(out, v.z.bits as u64);
            proof {
                assert(old(out)@ + spec_enc_u64(7) + spec_enc_float(v.x) + spec_enc_float(v.y)
                    + spec_enc_float(v.z) =~= old(out)@ + spec_enc_expr(*n));
            }
        },
        ExprNode::Vec4(v) => {
            emit_u64(out, 8);
            emit_u64(out, v.x.bits as u64);
            emit_u64(out, v.y.bits as u64);
            emit_u64(out, v.z.bits as u64);
            emit_u64(out, v.w.bits as u64);
            proof {
                assert(old(out)@ + spec_enc_u64(8) + spec_enc_float(v.x) + spec_enc_float(v.y)
                    + spec_enc_float(v.z) + spec_enc_float(v.w) =~= old(out)@ + spec_enc_expr(
                    *n,
                ));
            }
        },
        ExprNode::Time => emit_u64(out, 9),
        ExprNode::Age => emit_u64(out, 10),
    }
}

/// Append one encoded operator node.
fn emit_op(out: &mut Vec<u8>, op: &ExprOp)
    ensures
        final(out)@ == old(out)@ + spec_enc_op(*op),
    decreases *op,
{
    match op {
        ExprOp::Uniform(a, b) | ExprOp::Multiply(a, b) | ExprOp::Subtract(a, b)
            | ExprOp::Add(a, b) | ExprOp::Distance(a, b) => {
            let t: u64 = match op {
                ExprOp::Uniform(_, _) => 0,
                ExprOp::Multiply(_, _) => 1,
                ExprOp::Subtract(_, _) => 2,
                ExprOp::Add(_, _) => 3,
                _ => 6,
            };
            emit_u64(out, t);
            emit_expr(out, a);
            emit_expr(out, b);
            proof {
                assert(old(out)@ + spec_enc_u64(t) + spec_enc_expr(*a) + spec_enc_expr(*b)
                    =~= old(out)@ + spec_enc_op(*op));
            }
        },
        ExprOp::Sin(a) | ExprOp::Cos(a) | ExprOp::Pack4x8UNorm(a) | ExprOp::Normalized(a) => {
            let t: u64 = match op {
                ExprOp::Sin(_) => 4,
                ExprOp::Cos(_) => 5,
                ExprOp::Pack4x8UNorm(_) => 9,
                _ => 12,
            };
            emit_u64(out, t);
            emit_expr(out, a);
            proof {
                assert(old(out)@ + spec_enc_u64(t) + spec_enc_expr(*a) =~= old(out)@
                    + spec_enc_op(*op));
            }
        },
        ExprOp::Vec3(a, b, c) => {
            emit_u64(out, 7);
            emit_expr(out, a);
            emit_expr(out, b);
            emit_expr(out, c);
            proof {
                assert(old(out)@ + spec_enc_u64(7) + spec_enc_expr(*a) + spec_enc_expr(*b)
                    + spec_enc_expr(*c) =~= old(out)@ + spec_enc_op(*op));
            }
        },
        ExprOp::Vec4(a, b, c, d) => {
            emit_u64(out, 8);
            emit_expr(out, a);
            emit_expr(out, b);
            emit_expr(out, c);
            emit_expr(out, d);
            proof {
                assert(old(out)@ + spec_enc_u64(8) + spec_enc_expr(*a) + spec_enc_expr(*b)
                    + spec_enc_expr(*c) + spec_enc_expr(*d) =~= old(out)@ + spec_enc_op(*op));
            }
        },
        ExprOp::Attr(at) => {
            emit_u64(out, 10);
            emit_u64(out, attr_tag(*at));
            proof {
                seq_add_assoc(old(out)@, spec_enc_u64(10), spec_enc_attr(*at));
            }
        },
        ExprOp::ParentAttr(at) => {
            emit_u64(out, 11);
            emit_u64(out, attr_tag(*at));
            proof {
                seq_add_assoc(old(out)@, spec_enc_u64(11), spec_enc_attr(*at));
            }
        },
    }
}

/// Parse one expression node at byte offset `i`.
fn parse_expr_at(s: &Vec<u8>, i: usize) -> (r: Result<(ExprNode, usize), usize>)
    requires
        i <= s@.len(),
    ensures
        r matches Ok((v, j)) ==> i < j <= s@.len() && spec_parse_expr(s@.skip(i as int))
            == Some((v, s@.skip(j as int))),
        r is Err ==> spec_parse_expr(s@.skip(i as int)) is None,
        r matches Err(e) ==> i <= e <= s@.len(),
    decreases s@.len() - i,
{
    let (t, j) = parse_u64(s, i)?;
    if t == 0 {
        Ok((ExprNode::Placeholder, j))
    } else if t == 1 {
        Ok((ExprNode::RandU32, j))
    } else if t == 2 {
        Ok((ExprNode::RandFloat, j))
    } else if t == 3 {
        Ok((ExprNode::RandVec3, j))
    } else if t == 4 {
        let (op, j2) = parse_op_at(s, j)?;
        Ok((ExprNode::Operator(Box::new(op)), j2))
    } else if t == 5 {
        let (f, j2) = parse_float(s, j)?;
        Ok((ExprNode::Float(f), j2))
    } else if t == 6 {
        let (u, j2) = parse_u32(s, j)?;
        Ok((ExprNode::U32(u), j2))
    } else if t == 7 {
        let (v, j2) = parse_vec3(s, j)?;
        Ok((ExprNode::Vec3(v), j2))
    } else if t == 8 {
        let (v, j2) = parse_vec4(s, j)?;
        Ok((ExprNode::Vec4(v), j2))
    } else if t == 9 {
        Ok((ExprNode::Time, j))
    } else if t == 10 {
        Ok((ExprNode::Age, j))
    } else {
        Err(i)
    }
}

/// Parse one operator node at byte offset `i`.
fn parse_op_at(s: &Vec<u8>, i: usize) -> (r: Result<(ExprOp, usize), usize>)
    requires
        i <= s@.len(),
    ensures
        r matches Ok((v, j)) ==> i < j <= s@.len() && spec_parse_op(s@.skip(i as int))
            == Some((v, s@.skip(j as int))),
        r is Err ==> spec_parse_op(s@.skip(i as int)) is None,
        r matches Err(e) ==> i <= e <= s@.len(),
    decreases s@.len() - i,
{
    let (t, j) = parse_u64(s, i)?;
    if t == 0 || t == 1 || t == 2 || t == 3 || t == 6 {
        let (a, j1) = parse_expr_at(s, j)?;
        let (b, j2) = parse_expr_at(s, j1)?;
        let op = if t == 0 {
            ExprOp::Uniform(a, b)
        } else if t == 1 {
            ExprOp::Multiply(a, b)
        } else if t == 2 {
            ExprOp::Subtract(a, b)
        } else if t == 3 {
            ExprOp::Add(a, b)
        } else {
            ExprOp::Distance(a, b)
        };
        Ok((op, j2))
    } else if t == 4 || t == 5 || t == 9 || t == 12 {
        let (a, j1) = parse_expr_at(s, j)?;
        let op = if t == 4 {
            ExprOp::Sin(a)
        } else if t == 5 {
            ExprOp::Cos(a)
        } else if t == 9 {
            ExprOp::Pack4x8UNorm(a)
        } else {
            ExprOp::Normalized(a)
        };
        Ok((op, j1))
    } else if t == 7 {
        let (a, j1) = parse_expr_at(s, j)?;
        let (b, j2) = parse_expr_at(s, j1)?;
        let (c, j3) = parse_expr_at(s, j2)?;
        Ok((ExprOp::Vec3(a, b, c), j3))
    } else if t == 8 {
        let (a, j1) = parse_expr_at(s, j)?;
        let (b, j2) = parse_expr_at(s, j1)?;
        let (c, j3) = parse_expr_at(s, j2)?;
        let (d, j4) = parse_expr_at(s, j3)?;
        Ok((ExprOp::Vec4(a, b, c, d), j4))
    } else if t == 10 {
        let (at, j1) = parse_attr(s, j)?;
        Ok((ExprOp::Attr(at), j1))
    } else if t == 11 {
        let (at, j1) = parse_attr(s, j)?;
        Ok((ExprOp::ParentAttr(at), j1))
    } else {
        Err(i)
    }
}

/// A shape dimension: surface or volume.
pub open spec fn spec_enc_dim(d: ShapeDimension) -> Seq<u8> {
    match d {
        ShapeDimension::Surface => spec_enc_u64(0),
        ShapeDimension::Volume => spec_enc_u64(1),
    }
}

pub open spec fn spec_parse_dim(s: Seq<u8>) -> Option<(ShapeDimension, Seq<u8>)> {
    match spec_parse_u64(s) {
        None => None,
        Some((t, r)) => if t == 0 {
            Some((ShapeDimension::Surface, r))
        } else if t == 1 {
            Some((ShapeDimension::Volume, r))
        } else {
            None
        },
    }
}

proof fn lemma_rt_dim(d: ShapeDimension, rest: Seq<u8>)
    ensures
        spec_parse_dim(spec_enc_dim(d) + rest) == Some((d, rest)),
{
    match d {
        ShapeDimension::Surface => lemma_rt_u64(0, rest),
        ShapeDimension::Volume => lemma_rt_u64(1, rest),
    }
}

pub(crate) fn emit_dim(out: &mut Vec<u8>, d: &ShapeDimension)
    ensures
        final(out)@ == old(out)@ + spec_enc_dim(*d),
{
    match d {
        ShapeDimension::Surface => emit_u64(out, 0),
        ShapeDimension::Volume => emit_u64(out, 1),
    }
}

fn parse_dim(s: &Vec<u8>, i: usize) -> (r: Result<(ShapeDimension, usize), usize>)
    requires
        i <= s@.len(),
    ensures
        r matches Ok((v, j)) ==> i < j <= s@.len() && spec_parse_dim(s@.skip(i as int))
            == Some((v, s@.skip(j as int))),
        r is Err ==> spec_parse_dim(s@.skip(i as int)) is None,
        r matches Err(e) ==> i <= e <= s@.len(),
{
    let (t, j) = parse_u64(s, i)?;
    if t == 0 {
        Ok((ShapeDimension::Surface, j))
    } else if t == 1 {
        Ok((ShapeDimension::Volume, j))
    } else {
        Err(i)
    }
}

/// An emit condition: always, or on the particle's death.
pub open spec fn spec_enc_cond(c: EventEmitCondition) -> Seq<u8> {
    match c {
        EventEmitCondition::Always => spec_enc_u64(0),
        EventEmitCondition::OnDie => spec_enc_u64(1),
    }
}

pub open spec fn spec_parse_cond(s: Seq<u8>) -> Option<(EventEmitCondition, Seq<u8>)> {
    match spec_parse_u64(s) {
        None => None,
        Some((t, r)) => if t == 0 {
            Some((EventEmitCondition::Always, r))
        } else if t == 1 {
            Some((EventEmitCondition::OnDie, r))
        } else {
            None
        },
    }
}

proof fn lemma_rt_cond(c: EventEmitCondition, rest: Seq<u8>)
    ensures
        spec_parse_cond(spec_enc_cond(c) + rest) == Some((c, rest)),
{
    match c {
        EventEmitCondition::Always => lemma_rt_u64(0, rest),
        EventEmitCondition::OnDie => lemma_rt_u64(1, rest),
    }
}

pub(crate) fn emit_cond(out: &mut Vec<u8>, c: &EventEmitCondition)
    ensures
        final(out)@ == old(out)@ + spec_enc_cond(*c),
{
    match c {
        EventEmitCondition::Always => emit_u64(out, 0),
        EventEmitCondition::OnDie => emit_u64(out, 1),
    }
}

fn parse_cond(s: &Vec<u8>, i: usize) -> (r: Result<(EventEmitCondition, usize), usize>)
    requires
        i <= s@.len(),
    ensures
        r matches Ok((v, j)) ==> i < j <= s@.len() && spec_parse_cond(s@.skip(i as int))
            == Some((v, s@.skip(j as int))),
        r is Err ==> spec_parse_cond(s@.skip(i as int)) is None,
        r matches Err(e) ==> i <= e <= s@.len(),
{
    let (t, j) = parse_u64(s, i)?;
    if t == 0 {
        Ok((EventEmitCondition::Always, j))
    } else if t == 1 {
        Ok((EventEmitCondition::OnDie, j))
    } else {
        Err(i)
    }
}

/// An optional color blend mode.
pub open spec fn spec_enc_opt_blend(o: Option<ColorBlendMode>) -> Seq<u8> {
    match o {
        None => spec_enc_u64(0),
        Some(ColorBlendMode::Modulate) => spec_enc_u64(1),
        Some(ColorBlendMode::Add) => spec_enc_u64(2),
        Some(ColorBlendMode::Overwrite) => spec_enc_u64(3),
    }
}

pub open spec fn spec_parse_opt_blend(s: Seq<u8>) -> Option<(Option<ColorBlendMode>, Seq<u8>)> {
    match spec_parse_u64(s) {
        None => None,
        Some((t, r)) => if t == 0 {
            Some((None, r))
        } else if t == 1 {
            Some((Some(ColorBlendMode::Modulate), r))
        } else if t == 2 {
            Some((Some(ColorBlendMode::Add), r))
        } else if t == 3 {
            Some((Some(ColorBlendMode::Overwrite), r))
        } else {
            None
        },
    }
}

proof fn lemma_rt_opt_blend(o: Option<ColorBlendMode>, rest: Seq<u8>)
    ensures
        spec_parse_opt_blend(spec_enc_opt_blend(o) + rest) == Some((o, rest)),
{
    match o {
        None => lemma_rt_u64(0, rest),
        Some(ColorBlendMode::Modulate) => lemma_rt_u64(1, rest),
        Some(ColorBlendMode::Add) => lemma_rt_u64(2, rest),
        Some(ColorBlendMode::Overwrite) => lemma_rt_u64(3, rest),
    }
}

fn emit_opt_blend(out: &mut Vec<u8>, o: &Option<ColorBlendMode>)
    ensures
        final(out)@ == old(out)@ + spec_enc_opt_blend(*o),
{
    match o {
        None => emit_u64(out, 0),
        Some(ColorBlendMode::Modulate) => emit_u64(out, 1),
        Some(ColorBlendMode::Add) => emit_u64(out, 2),
        Some(ColorBlendMode::Overwrite) => emit_u64(out, 3),
    }
}

fn parse_opt_blend(s: &Vec<u8>, i: usize) -> (r: Result<(Option<ColorBlendMode>, usize), usize>)
    requires
        i <= s@.len(),
    ensures
        r matches Ok((v, j)) ==> i < j <= s@.len() && spec_parse_opt_blend(s@.skip(i as int))
            == Some((v, s@.skip(j as int))),
        r is Err ==> spec_parse_opt_blend(s@.skip(i as int)) is None,
        r matches Err(e) ==> i <= e <= s@.len(),
{
    let (t, j) = parse_u64(s, i)?;
    if t == 0 {
        Ok((None, j))
    } else if t == 1 {
        Ok((Some(ColorBlendMode::Modulate), j))
    } else if t == 2 {
        Ok((Some(ColorBlendMode::Add), j))
    } else if t == 3 {
        Ok((Some(ColorBlendMode::Overwrite), j))
    } else {
        Err(i)
    }
}

/// An optional color channel mask.
pub open spec fn spec_enc_opt_mask(o: Option<ColorBlendMask>) -> Seq<u8> {
    match o {
        None => spec_enc_u64(0),
        Some(ColorBlendMask::Rgb) => spec_enc_u64(1),
        Some(ColorBlendMask::Rgba) => spec_enc_u64(2),
    }
}

pub open spec fn spec_parse_opt_mask(s: Seq<u8>) -> Option<(Option<ColorBlendMask>, Seq<u8>)> {
    match spec_parse_u64(s) {
        None => None,
        Some((t, r)) => if t == 0 {
            Some((None, r))
        } else if t == 1 {
            Some((Some(ColorBlendMask::Rgb), r))
        } else if t == 2 {
            Some((Some(ColorBlendMask::Rgba), r))
        } else {
            None
        },
    }
}

proof fn lemma_rt_opt_mask(o: Option<ColorBlendMask>, rest: Seq<u8>)
    ensures
        spec_parse_opt_mask(spec_enc_opt_mask(o) + rest) == Some((o, rest)),
{
    match o {
        None => lemma_rt_u64(0, rest),
        Some(ColorBlendMask::Rgb) => lemma_rt_u64(1, rest),
        Some(ColorBlendMask::Rgba) => lemma_rt_u64(2, rest),
    }
}

fn emit_opt_mask(out: &mut Vec<u8>, o: &Option<ColorBlendMask>)
    ensures
        final(out)@ == old(out)@ + spec_enc_opt_mask(*o),
{
    match o {
        None => emit_u64(out, 0),
        Some(ColorBlendMask::Rgb) => emit_u64(out, 1),
        Some(ColorBlendMask::Rgba) => emit_u64(out, 2),
    }
}

fn parse_opt_mask(s: &Vec<u8>, i: usize) -> (r: Result<(Option<ColorBlendMask>, usize), usize>)
    requires
        i <= s@.len(),
    ensures
        r matches Ok((v, j)) ==> i < j <= s@.len() && spec_parse_opt_mask(s@.skip(i as int))
            == Some((v, s@.skip(j as int))),
        r is Err ==> spec_parse_opt_mask(s@.skip(i as int)) is None,
        r matches Err(e) ==> i <= e <= s@.len(),
{
    let (t, j) = parse_u64(s, i)?;
    if t == 0 {
        Ok((None, j))
    } else if t == 1 {
        Ok((Some(ColorBlendMask::Rgb), j))
    } else if t == 2 {
        Ok((Some(ColorBlendMask::Rgba), j))
    } else {
        Err(i)
    }
}

/// A modifier: its kind tag, then its fields in declaration order.
pub open spec fn spec_enc_modifier(d: ModifierDescriptor) -> Seq<u8> {
    match d {
        ModifierDescriptor::SetAttribute { attr, attr_expr } => spec_enc_u64(0) + spec_enc_attr(attr) + spec_enc_expr(attr_expr),
        ModifierDescriptor::InheritAttribute { attr } => spec_enc_u64(1) + spec_enc_attr(attr),
        ModifierDescriptor::SetPositionCircle { center_expr, axis_expr, radius_expr, dimension } => spec_enc_u64(2) + spec_enc_expr(center_expr) + spec_enc_expr(axis_expr) + spec_enc_expr(radius_expr) + spec_enc_dim(dimension),
        ModifierDescriptor::SetPositionSphere { center_expr, radius_expr, dimension } => spec_enc_u64(3) + spec_enc_expr(center_expr) + spec_enc_expr(radius_expr) + spec_enc_dim(dimension),
        ModifierDescriptor::SetVelocityCircle { center_expr, axis_expr, speed_expr } => spec_enc_u64(4) + spec_enc_expr(center_expr) + spec_enc_expr(axis_expr) + spec_enc_expr(speed_expr),
        ModifierDescriptor::SetVelocitySphere { center_expr, speed_expr } => spec_enc_u64(5) + spec_enc_expr(center_expr) + spec_enc_expr(speed_expr),
        ModifierDescriptor::SetVelocityTangent { origin_expr, axis_expr, speed_expr } => spec_enc_u64(6) + spec_enc_expr(origin_expr) + spec_enc_expr(axis_expr) + spec_enc_expr(speed_expr),
        ModifierDescriptor::Accel { accel_expr } => spec_enc_u64(7) + spec_enc_expr(accel_expr),
        ModifierDescriptor::LinearDrag { drag_expr } => spec_enc_u64(8) + spec_enc_expr(drag_expr),
        ModifierDescriptor::EmitSpawnEvent { condition, count_expr, child_index } => spec_enc_u64(9) + spec_enc_cond(condition) + spec_enc_expr(count_expr) + spec_enc_u64(child_index as u64),
        ModifierDescriptor::ConformToSphere { origin_expr, radius_expr, influence_dist_expr, attraction_accel_expr, max_attraction_speed_expr } => spec_enc_u64(10) + spec_enc_expr(origin_expr) + spec_enc_expr(radius_expr) + spec_enc_expr(influence_dist_expr) + spec_enc_expr(attraction_accel_expr) + spec_enc_expr(max_attraction_speed_expr),
    }
}

pub open spec fn spec_parse_modifier(s: Seq<u8>) -> Option<(ModifierDescriptor, Seq<u8>)> {
    match spec_parse_u64(s) {
        None => None,
        Some((t, r)) => {
            if t == 0 {
                match spec_parse_attr(r) {
                    None => None,
                    Some((x0, r0)) =>                     match spec_parse_expr(r0) {
                        None => None,
                        Some((x1, r1)) => Some((ModifierDescriptor::SetAttribute { attr: x0, attr_expr: x1 }, r1)),
                    },
                }
            } else if t == 1 {
                match spec_parse_attr(r) {
                    None => None,
                    Some((x0, r0)) => Some((ModifierDescriptor::InheritAttribute { attr: x0 }, r0)),
                }
            } else if t == 2 {
                match spec_parse_expr(r) {
                    None => None,
                    Some((x0, r0)) =>                     match spec_parse_expr(r0) {
                        None => None,
                        Some((x1, r1)) =>                         match spec_parse_expr(r1) {
                            None => None,
                            Some((x2, r2)) =>                             match spec_parse_dim(r2) {
                                None => None,
                                Some((x3, r3)) => Some((ModifierDescriptor::SetPositionCircle { center_expr: x0, axis_expr: x1, radius_expr: x2, dimension: x3 }, r3)),
                            },
                        },
                    },
                }
            } else if t == 3 {
                match spec_parse_expr(r) {
                    None => None,
                    Some((x0, r0)) =>                     match spec_parse_expr(r0) {
                        None => None,
                        Some((x1, r1)) =>                         match spec_parse_dim(r1) {
                            None => None,
                            Some((x2, r2)) => Some((ModifierDescriptor::SetPositionSphere { center_expr: x0, radius_expr: x1, dimension: x2 }, r2)),
                        },
                    },
                }
            } else if t == 4 {
                match spec_parse_expr(r) {
                    None => None,
                    Some((x0, r0)) =>                     match spec_parse_expr(r0) {
                        None => None,
                        Some((x1, r1)) =>                         match spec_parse_expr(r1) {
                            None => None,
                            Some((x2, r2)) => Some((ModifierDescriptor::SetVelocityCircle { center_expr: x0, axis_expr: x1, speed_expr: x2 }, r2)),
                        },
                    },
                }
            } else if t == 5 {
                match spec_parse_expr(r) {
                    None => None,
                    Some((x0, r0)) =>                     match spec_parse_expr(r0) {
                        None => None,
                        Some((x1, r1)) => Some((ModifierDescriptor::SetVelocitySphere { center_expr: x0, speed_expr: x1 }, r1)),
                    },
                }
            } else if t == 6 {
                match spec_parse_expr(r) {
                    None => None,
                    Some((x0, r0)) =>                     match spec_parse_expr(r0) {
                        None => None,
                        Some((x1, r1)) =>                         match spec_parse_expr(r1) {
                            None => None,
                            Some((x2, r2)) => Some((ModifierDescriptor::SetVelocityTangent { origin_expr: x0, axis_expr: x1, speed_expr: x2 }, r2)),
                        },
                    },
                }
            } else if t == 7 {
                match spec_parse_expr(r) {
                    None => None,
                    Some((x0, r0)) => Some((ModifierDescriptor::Accel { accel_expr: x0 }, r0)),
                }
            } else if t == 8 {
                match spec_parse_expr(r) {
                    None => None,
                    Some((x0, r0)) => Some((ModifierDescriptor::LinearDrag { drag_expr: x0 }, r0)),
                }
            } else if t == 9 {
                match spec_parse_cond(r) {
                    None => None,
                    Some((x0, r0)) =>                     match spec_parse_expr(r0) {
                        None => None,
                        Some((x1, r1)) =>                         match spec_parse_u32(r1) {
                            None => None,
                            Some((x2, r2)) => Some((ModifierDescriptor::EmitSpawnEvent { condition: x0, count_expr: x1, child_index: x2 }, r2)),
                        },
                    },
                }
            } else if t == 10 {
                match spec_parse_expr(r) {
                    None => None,
                    Some((x0, r0)) =>                     match spec_parse_expr(r0) {
                        None => None,
                        Some((x1, r1)) =>                         match spec_parse_expr(r1) {
                            None => None,
                            Some((x2, r2)) =>                             match spec_parse_expr(r2) {
                                None => None,
                                Some((x3, r3)) =>                                 match spec_parse_expr(r3) {
                                    None => None,
                                    Some((x4, r4)) => Some((ModifierDescriptor::ConformToSphere { origin_expr: x0, radius_expr: x1, influence_dist_expr: x2, attraction_accel_expr: x3, max_attraction_speed_expr: x4 }, r4)),
                                },
                            },
                        },
                    },
                }
            } else {
                None
            }
        },
    }
}

#[verifier::rlimit(100)]
#[verifier::spinoff_prover]
proof fn lemma_rt_modifier_part0(d: ModifierDescriptor, rest: Seq<u8>)
    requires
        d is SetAttribute || d is InheritAttribute || d is SetPositionCircle || d is SetPositionSphere,
    ensures
        spec_parse_modifier(spec_enc_modifier(d) + rest) == Some((d, rest)),
{
    match d {
        ModifierDescriptor::SetAttribute { attr, attr_expr } => {
            let e0 = spec_enc_attr(attr);
            let e1 = spec_enc_expr(attr_expr);
            assert(spec_enc_u64(0) + e0 + e1 + rest =~= spec_enc_u64(0) + (e0 + (e1 + rest)));
            lemma_rt_u64(0, e0 + (e1 + rest));
            lemma_rt_attr(attr, e1 + rest);
            lemma_rt_expr(attr_expr, rest);
        },
        ModifierDescriptor::InheritAttribute { attr } => {
            let e0 = spec_enc_attr(attr);
            assert(spec_enc_u64(1) + e0 + rest =~= spec_enc_u64(1) + (e0 + rest));
            lemma_rt_u64(1, e0 + rest);
            lemma_rt_attr(attr, rest);
        },
        ModifierDescriptor::SetPositionCircle { center_expr, axis_expr, radius_expr, dimension } => {
            let e0 = spec_enc_expr(center_expr);
            let e1 = spec_enc_expr(axis_expr);
            let e2 = spec_enc_expr(radius_expr);
            let e3 = spec_enc_dim(dimension);
            assert(spec_enc_u64(2) + e0 + e1 + e2 + e3 + rest =~= spec_enc_u64(2) + (e0 + (e1 + (e2 + (e3 + rest)))));
            lemma_rt_u64(2, e0 + (e1 + (e2 + (e3 + rest))));
            lemma_rt_expr(center_expr, e1 + (e2 + (e3 + rest)));
            lemma_rt_expr(axis_expr, e2 + (e3 + rest));
            lemma_rt_expr(radius_expr, e3 + rest);
            lemma_rt_dim(dimension, rest);
        },
        ModifierDescriptor::SetPositionSphere { center_expr, radius_expr, dimension } => {
            let e0 = spec_enc_expr(center_expr);
            let e1 = spec_enc_expr(radius_expr);
            let e2 = spec_enc_dim(dimension);
            assert(spec_enc_u64(3) + e0 + e1 + e2 + rest =~= spec_enc_u64(3) + (e0 + (e1 + (e2 + rest))));
            lemma_rt_u64(3, e0 + (e1 + (e2 + rest)));
            lemma_rt_expr(center_expr, e1 + (e2 + rest));
            lemma_rt_expr(radius_expr, e2 + rest);
            lemma_rt_dim(dimension, rest);
        },
        _ => {},
    }
}

#[verifier::rlimit(100)]
#[verifier::spinoff_prover]
proof fn lemma_rt_modifier_part1(d: ModifierDescriptor, rest: Seq<u8>)
    requires
        d is SetVelocityCircle || d is SetVelocitySphere || d is SetVelocityTangent || d is Accel,
    ensures
        spec_parse_modifier(spec_enc_modifier(d) + rest) == Some((d, rest)),
{
    match d {
        ModifierDescriptor::SetVelocityCircle { center_expr, axis_expr, speed_expr } => {
            let e0 = spec_enc_expr(center_expr);
            let e1 = spec_enc_expr(axis_expr);
            let e2 = spec_enc_expr(speed_expr);
            assert(spec_enc_u64(4) + e0 + e1 + e2 + rest =~= spec_enc_u64(4) + (e0 + (e1 + (e2 + rest))));
            lemma_rt_u64(4, e0 + (e1 + (e2 + rest)));
            lemma_rt_expr(center_expr, e1 + (e2 + rest));
            lemma_rt_expr(axis_expr, e2 + rest);
            lemma_rt_expr(speed_expr, rest);
        },
        ModifierDescriptor::SetVelocitySphere { center_expr, speed_expr } => {
            let e0 = spec_enc_expr(center_expr);
            let e1 = spec_enc_expr(speed_expr);
            assert(spec_enc_u64(5) + e0 + e1 + rest =~= spec_enc_u64(5) + (e0 + (e1 + rest)));
            lemma_rt_u64(5, e0 + (e1 + rest));
            lemma_rt_expr(center_expr, e1 + rest);
            lemma_rt_expr(speed_expr, rest);
        },
        ModifierDescriptor::SetVelocityTangent { origin_expr, axis_expr, speed_expr } => {
            let e0 = spec_enc_expr(origin_expr);
            let e1 = spec_enc_expr(axis_expr);
            let e2 = spec_enc_expr(speed_expr);
            assert(spec_enc_u64(6) + e0 + e1 + e2 + rest =~= spec_enc_u64(6) + (e0 + (e1 + (e2 + rest))));
            lemma_rt_u64(6, e0 + (e1 + (e2 + rest)));
            lemma_rt_expr(origin_expr, e1 + (e2 + rest));
            lemma_rt_expr(axis_expr, e2 + rest);
            lemma_rt_expr(speed_expr, rest);
        },
        ModifierDescriptor::Accel { accel_expr } => {
            let e0 = spec_enc_expr(accel_expr);
            assert(spec_enc_u64(7) + e0 + rest =~= spec_enc_u64(7) + (e0 + rest));
            lemma_rt_u64(7, e0 + rest);
            lemma_rt_expr(accel_expr, rest);
        },
        _ => {},
    }
}

#[verifier::rlimit(100)]
#[verifier::spinoff_prover]
proof fn lemma_rt_modifier_part2(d: ModifierDescriptor, rest: Seq<u8>)
    requires
        d is LinearDrag || d is EmitSpawnEvent || d is ConformToSphere,
    ensures
        spec_parse_modifier(spec_enc_modifier(d) + rest) == Some((d, rest)),
{
    match d {
        ModifierDescriptor::LinearDrag { drag_expr } => {
            let e0 = spec_enc_expr(drag_expr);
            assert(spec_enc_u64(8) + e0 + rest =~= spec_enc_u64(8) + (e0 + rest));
            lemma_rt_u64(8, e0 + rest);
            lemma_rt_expr(drag_expr, rest);
        },
        ModifierDescriptor::EmitSpawnEvent { condition, count_expr, child_index } => {
            let e0 = spec_enc_cond(condition);
            let e1 = spec_enc_expr(count_expr);
            let e2 = spec_enc_u64(child_index as u64);
            assert(spec_enc_u64(9) + e0 + e1 + e2 + rest =~= spec_enc_u64(9) + (e0 + (e1 + (e2 + rest))));
            lemma_rt_u64(9, e0 + (e1 + (e2 + rest)));
            lemma_rt_cond(condition, e1 + (e2 + rest));
            lemma_rt_expr(count_expr, e2 + rest);
            lemma_rt_u64(child_index as u64, rest);
        },
        ModifierDescriptor::ConformToSphere { origin_expr, radius_expr, influence_dist_expr, attraction_accel_expr, max_attraction_speed_expr } => {
            let e0 = spec_enc_expr(origin_expr);
            let e1 = spec_enc_expr(radius_expr);
            let e2 = spec_enc_expr(influence_dist_expr);
            let e3 = spec_enc_expr(attraction_accel_expr);
            let e4 = spec_enc_expr(max_attraction_speed_expr);
            assert(spec_enc_u64(10) + e0 + e1 + e2 + e3 + e4 + rest =~= spec_enc_u64(10) + (e0 + (e1 + (e2 + (e3 + (e4 + rest))))));
            lemma_rt_u64(10, e0 + (e1 + (e2 + (e3 + (e4 + rest)))));
            lemma_rt_expr(origin_expr, e1 + (e2 + (e3 + (e4 + rest))));
            lemma_rt_expr(radius_expr, e2 + (e3 + (e4 + rest)));
            lemma_rt_expr(influence_dist_expr, e3 + (e4 + rest));
            lemma_rt_expr(attraction_accel_expr, e4 + rest);
            lemma_rt_expr(max_attraction_speed_expr, rest);
        },
        _ => {},
    }
}

/// Parsing an encoded modifier gives it back, leaving the rest.
proof fn lemma_rt_modifier(d: ModifierDescriptor, rest: Seq<u8>)
    ensures
        spec_parse_modifier(spec_enc_modifier(d) + rest) == Some((d, rest)),
{
    match d {
        ModifierDescriptor::SetAttribute { .. } => lemma_rt_modifier_part0(d, rest),
        ModifierDescriptor::InheritAttribute { .. } => lemma_rt_modifier_part0(d, rest),
        ModifierDescriptor::SetPositionCircle { .. } => lemma_rt_modifier_part0(d, rest),
        ModifierDescriptor::SetPositionSphere { .. } => lemma_rt_modifier_part0(d, rest),
        ModifierDescriptor::SetVelocityCircle { .. } => lemma_rt_modifier_part1(d, rest),
        ModifierDescriptor::SetVelocitySphere { .. } => lemma_rt_modifier_part1(d, rest),
        ModifierDescriptor::SetVelocityTangent { .. } => lemma_rt_modifier_part1(d, rest),
        ModifierDescriptor::Accel { .. } => lemma_rt_modifier_part1(d, rest),
        ModifierDescriptor::LinearDrag { .. } => lemma_rt_modifier_part2(d, rest),
        ModifierDescriptor::EmitSpawnEvent { .. } => lemma_rt_modifier_part2(d, rest),
        ModifierDescriptor::ConformToSphere { .. } => lemma_rt_modifier_part2(d, rest),
    }
}


/// Append one encoded modifier.
#[verifier::rlimit(100)]
#[verifier::spinoff_prover]
fn emit_modifier(out: &mut Vec<u8>, d: &ModifierDescriptor)
    ensures
        final(out)@ == old(out)@ + spec_enc_modifier(*d),
{
    match d {
        ModifierDescriptor::SetAttribute { attr, attr_expr } => {
            emit_u64(out, 0);
            emit_u64(out, attr_tag(*attr));
            emit_expr(out, attr_expr);
            proof {
                assert(spec_enc_modifier(*d) == spec_enc_u64(0) + spec_enc_attr(*attr) + spec_enc_expr(*attr_expr));
                assert(old(out)@ + spec_enc_u64(0) + spec_enc_attr(*attr) + spec_enc_expr(*attr_expr) =~= old(out)@ + (spec_enc_u64(0) + spec_enc_attr(*attr) + spec_enc_expr(*attr_expr)));
            }
        },
        ModifierDescriptor::InheritAttribute { attr } => {
            emit_u64(out, 1);
            emit_u64(out, attr_tag(*attr));
            proof {
                assert(spec_enc_modifier(*d) == spec_enc_u64(1) + spec_enc_attr(*attr));
                assert(old(out)@ + spec_enc_u64(1) + spec_enc_attr(*attr) =~= old(out)@ + (spec_enc_u64(1) + spec_enc_attr(*attr)));
            }
        },
        ModifierDescriptor::SetPositionCircle { center_expr, axis_expr, radius_expr, dimension } => {
            emit_u64(out, 2);
            emit_expr(out, center_expr);
            emit_expr(out, axis_expr);
            emit_expr(out, radius_expr);
            emit_dim(out, dimension);
            proof {
                assert(spec_enc_modifier(*d) == spec_enc_u64(2) + spec_enc_expr(*center_expr) + spec_enc_expr(*axis_expr) + spec_enc_expr(*radius_expr) + spec_enc_dim(*dimension));
                assert(old(out)@ + spec_enc_u64(2) + spec_enc_expr(*center_expr) + spec_enc_expr(*axis_expr) + spec_enc_expr(*radius_expr) + spec_enc_dim(*dimension) =~= old(out)@ + (spec_enc_u64(2) + spec_enc_expr(*center_expr) + spec_enc_expr(*axis_expr) + spec_enc_expr(*radius_expr) + spec_enc_dim(*dimension)));
            }
        },
        ModifierDescriptor::SetPositionSphere { center_expr, radius_expr, dimension } => {
            emit_u64(out, 3);
            emit_expr(out, center_expr);
            emit_expr(out, radius_expr);
            emit_dim(out, dimension);
            proof {
                assert(spec_enc_modifier(*d) == spec_enc_u64(3) + spec_enc_expr(*center_expr) + spec_enc_expr(*radius_expr) + spec_enc_dim(*dimension));
                assert(old(out)@ + spec_enc_u64(3) + spec_enc_expr(*center_expr) + spec_enc_expr(*radius_expr) + spec_enc_dim(*dimension) =~= old(out)@ + (spec_enc_u64(3) + spec_enc_expr(*center_expr) + spec_enc_expr(*radius_expr) + spec_enc_dim(*dimension)));
            }
        },
        ModifierDescriptor::SetVelocityCircle { center_expr, axis_expr, speed_expr } => {
            emit_u64(out, 4);
            emit_expr(out, center_expr);
            emit_expr(out, axis_expr);
            emit_expr(out, speed_expr);
            proof {
                assert(spec_enc_modifier(*d) == spec_enc_u64(4) + spec_enc_expr(*center_expr) + spec_enc_expr(*axis_expr) + spec_enc_expr(*speed_expr));
                assert(old(out)@ + spec_enc_u64(4) + spec_enc_expr(*center_expr) + spec_enc_expr(*axis_expr) + spec_enc_expr(*speed_expr) =~= old(out)@ + (spec_enc_u64(4) + spec_enc_expr(*center_expr) + spec_enc_expr(*axis_expr) + spec_enc_expr(*speed_expr)));
            }
        },
        ModifierDescriptor::SetVelocitySphere { center_expr, speed_expr } => {
            emit_u64(out, 5);
            emit_expr(out, center_expr);
            emit_expr(out, speed_expr);
            proof {
                assert(spec_enc_modifier(*d) == spec_enc_u64(5) + spec_enc_expr(*center_expr) + spec_enc_expr(*speed_expr));
                assert(old(out)@ + spec_enc_u64(5) + spec_enc_expr(*center_expr) + spec_enc_expr(*speed_expr) =~= old(out)@ + (spec_enc_u64(5) + spec_enc_expr(*center_expr) + spec_enc_expr(*speed_expr)));
            }
        },
        ModifierDescriptor::SetVelocityTangent { origin_expr, axis_expr, speed_expr } => {
            emit_u64(out, 6);
            emit_expr(out, origin_expr);
            emit_expr(out, axis_expr);
            emit_expr(out, speed_expr);
            proof {
                assert(spec_enc_modifier(*d) == spec_enc_u64(6) + spec_enc_expr(*origin_expr) + spec_enc_expr(*axis_expr) + spec_enc_expr(*speed_expr));
                assert(old(out)@ + spec_enc_u64(6) + spec_enc_expr(*origin_expr) + spec_enc_expr(*axis_expr) + spec_enc_expr(*speed_expr) =~= old(out)@ + (spec_enc_u64(6) + spec_enc_expr(*origin_expr) + spec_enc_expr(*axis_expr) + spec_enc_expr(*speed_expr)));
            }
        },
        ModifierDescriptor::Accel { accel_expr } => {
            emit_u64(out, 7);
            emit_expr(out, accel_expr);
            proof {
                assert(spec_enc_modifier(*d) == spec_enc_u64(7) + spec_enc_expr(*accel_expr));
                assert(old(out)@ + spec_enc_u64(7) + spec_enc_expr(*accel_expr) =~= old(out)@ + (spec_enc_u64(7) + spec_enc_expr(*accel_expr)));
            }
        },
        ModifierDescriptor::LinearDrag { drag_expr } => {
            emit_u64(out, 8);
            emit_expr(out, drag_expr);
            proof {
                assert(spec_enc_modifier(*d) == spec_enc_u64(8) + spec_enc_expr(*drag_expr));
                assert(old(out)@ + spec_enc_u64(8) + spec_enc_expr(*drag_expr) =~= old(out)@ + (spec_enc_u64(8) + spec_enc_expr(*drag_expr)));
            }
        },
        ModifierDescriptor::EmitSpawnEvent { condition, count_expr, child_index } => {
            emit_u64(out, 9);
            emit_cond(out, condition);
            emit_expr(out, count_expr);
            emit_u64(out, *child_index as u64);
            proof {
                assert(spec_enc_modifier(*d) == spec_enc_u64(9) + spec_enc_cond(*condition) + spec_enc_expr(*count_expr) + spec_enc_u64((*child_index) as u64));
                assert(old(out)@ + spec_enc_u64(9) + spec_enc_cond(*condition) + spec_enc_expr(*count_expr) + spec_enc_u64((*child_index) as u64) =~= old(out)@ + (spec_enc_u64(9) + spec_enc_cond(*condition) + spec_enc_expr(*count_expr) + spec_enc_u64((*child_index) as u64)));
            }
        },
        ModifierDescriptor::ConformToSphere { origin_expr, radius_expr, influence_dist_expr, attraction_accel_expr, max_attraction_speed_expr } => {
            emit_u64(out, 10);
            emit_expr(out, origin_expr);
            emit_expr(out, radius_expr);
            emit_expr(out, influence_dist_expr);
            emit_expr(out, attraction_accel_expr);
            emit_expr(out, max_attraction_speed_expr);
            proof {
                assert(spec_enc_modifier(*d) == spec_enc_u64(10) + spec_enc_expr(*origin_expr) + spec_enc_expr(*radius_expr) + spec_enc_expr(*influence_dist_expr) + spec_enc_expr(*attraction_accel_expr) + spec_enc_expr(*max_attraction_speed_expr));
                assert(old(out)@ + spec_enc_u64(10) + spec_enc_expr(*origin_expr) + spec_enc_expr(*radius_expr) + spec_enc_expr(*influence_dist_expr) + spec_enc_expr(*attraction_accel_expr) + spec_enc_expr(*max_attraction_speed_expr) =~= old(out)@ + (spec_enc_u64(10) + spec_enc_expr(*origin_expr) + spec_enc_expr(*radius_expr) + spec_enc_expr(*influence_dist_expr) + spec_enc_expr(*attraction_accel_expr) + spec_enc_expr(*max_attraction_speed_expr)));
            }
        },
    }
}


/// Parse one modifier at byte offset `i`.
fn parse_modifier(s: &Vec<u8>, i: usize) -> (r: Result<(ModifierDescriptor, usize), usize>)
    requires
        i <= s@.len(),
    ensures
        r matches Ok((v, j)) ==> i < j <= s@.len() && spec_parse_modifier(s@.skip(i as int))
            == Some((v, s@.skip(j as int))),
        r is Err ==> spec_parse_modifier(s@.skip(i as int)) is None,
        r matches Err(e) ==> i <= e <= s@.len(),
{
    let (t, j) = parse_u64(s, i)?;
    if t == 0 {
        let (x0, j0) = parse_attr(s, j)?;
        let (x1, j1) = parse_expr_at(s, j0)?;
        Ok((ModifierDescriptor::SetAttribute { attr: x0, attr_expr: x1 }, j1))
    } else if t == 1 {
        let (x0, j0) = parse_attr(s, j)?;
        Ok((ModifierDescriptor::InheritAttribute { attr: x0 }, j0))
    } else if t == 2 {
        let (x0, j0) = parse_expr_at(s, j)?;
        let (x1, j1) = parse_expr_at(s, j0)?;
        let (x2, j2) = parse_expr_at(s, j1)?;
        let (x3, j3) = parse_dim(s, j2)?;
        Ok((ModifierDescriptor::SetPositionCircle { center_expr: x0, axis_expr: x1, radius_expr: x2, dimension: x3 }, j3))
    } else if t == 3 {
        let (x0, j0) = parse_expr_at(s, j)?;
        let (x1, j1) = parse_expr_at(s, j0)?;
        let (x2, j2) = parse_dim(s, j1)?;
        Ok((ModifierDescriptor::SetPositionSphere { center_expr: x0, radius_expr: x1, dimension: x2 }, j2))
    } else if t == 4 {
        let (x0, j0) = parse_expr_at(s, j)?;
        let (x1, j1) = parse_expr_at(s, j0)?;
        let (x2, j2) = parse_expr_at(s, j1)?;
        Ok((ModifierDescriptor::SetVelocityCircle { center_expr: x0, axis_expr: x1, speed_expr: x2 }, j2))
    } else if t == 5 {
        let (x0, j0) = parse_expr_at(s, j)?;
        let (x1, j1) = parse_expr_at(s, j0)?;
        Ok((ModifierDescriptor::SetVelocitySphere { center_expr: x0, speed_expr: x1 }, j1))
    } else if t == 6 {
        let (x0, j0) = parse_expr_at(s, j)?;
        let (x1, j1) = parse_expr_at(s, j0)?;
        let (x2, j2) = parse_expr_at(s, j1)?;
        Ok((ModifierDescriptor::SetVelocityTangent { origin_expr: x0, axis_expr: x1, speed_expr: x2 }, j2))
    } else if t == 7 {
        let (x0, j0) = parse_expr_at(s, j)?;
        Ok((ModifierDescriptor::Accel { accel_expr: x0 }, j0))
    } else if t == 8 {
        let (x0, j0) = parse_expr_at(s, j)?;
        Ok((ModifierDescriptor::LinearDrag { drag_expr: x0 }, j0))
    } else if t == 9 {
        let (x0, j0) = parse_cond(s, j)?;
        let (x1, j1) = parse_expr_at(s, j0)?;
        let (x2, j2) = parse_u32(s, j1)?;
        Ok((ModifierDescriptor::EmitSpawnEvent { condition: x0, count_expr: x1, child_index: x2 }, j2))
    } else if t == 10 {
        let (x0, j0) = parse_expr_at(s, j)?;
        let (x1, j1) = parse_expr_at(s, j0)?;
        let (x2, j2) = parse_expr_at(s, j1)?;
        let (x3, j3) = parse_expr_at(s, j2)?;
        let (x4, j4) = parse_expr_at(s, j3)?;
        Ok((ModifierDescriptor::ConformToSphere { origin_expr: x0, radius_expr: x1, influence_dist_expr: x2, attraction_accel_expr: x3, max_attraction_speed_expr: x4 }, j4))
    } else {
        Err(i)
    }
}

/// One three-component keyframe: its time, then its value.
pub open spec fn spec_enc_key3(k: GradientKeyVec3) -> Seq<u8> {
    spec_enc_float(k.t) + spec_enc_vec3(k.v)
}

pub open spec fn spec_parse_key3(s: Seq<u8>) -> Option<(GradientKeyVec3, Seq<u8>)> {
    match spec_parse_float(s) {
        None => None,
        Some((t, r)) => match spec_parse_vec3(r) {
            None => None,
            Some((v, r2)) => Some((GradientKeyVec3 { t, v }, r2)),
        },
    }
}

proof fn lemma_rt_key3(k: GradientKeyVec3, rest: Seq<u8>)
    ensures
        spec_parse_key3(spec_enc_key3(k) + rest) == Some((k, rest)),
{
    let et = spec_enc_float(k.t);
    let ev = spec_enc_vec3(k.v);
    assert(et + ev + rest =~= et + (ev + rest));
    lemma_rt_float(k.t, ev + rest);
    lemma_rt_vec3(k.v, rest);
}

fn parse_key3(s: &Vec<u8>, i: usize) -> (r: Result<(GradientKeyVec3, usize), usize>)
    requires
        i <= s@.len(),
    ensures
        r matches Ok((v, j)) ==> i < j <= s@.len() && spec_parse_key3(s@.skip(i as int))
            == Some((v, s@.skip(j as int))),
        r is Err ==> spec_parse_key3(s@.skip(i as int)) is None,
        r matches Err(e) ==> i <= e <= s@.len(),
{
    let (t, j1) = parse_float(s, i)?;
    let (v, j2) = parse_vec3(s, j1)?;
    Ok((GradientKeyVec3 { t, v }, j2))
}

/// One four-component keyframe.
pub open spec fn spec_enc_key4(k: GradientKeyVec4) -> Seq<u8> {
    spec_enc_float(k.t) + spec_enc_vec4(k.v)
}

pub open spec fn spec_parse_key4(s: Seq<u8>) -> Option<(GradientKeyVec4, Seq<u8>)> {
    match spec_parse_float(s) {
        None => None,
        Some((t, r)) => match spec_parse_vec4(r) {
            None => None,
            Some((v, r2)) => Some((GradientKeyVec4 { t, v }, r2)),
        },
    }
}

proof fn lemma_rt_key4(k: GradientKeyVec4, rest: Seq<u8>)
    ensures
        spec_parse_key4(spec_enc_key4(k) + rest) == Some((k, rest)),
{
    let et = spec_enc_float(k.t);
    let ev = spec_enc_vec4(k.v);
    assert(et + ev + rest =~= et + (ev + rest));
    lemma_rt_float(k.t, ev + rest);
    lemma_rt_vec4(k.v, rest);
}

fn parse_key4(s: &Vec<u8>, i: usize) -> (r: Result<(GradientKeyVec4, usize), usize>)
    requires
        i <= s@.len(),
    ensures
        r matches Ok((v, j)) ==> i < j <= s@.len() && spec_parse_key4(s@.skip(i as int))
            == Some((v, s@.skip(j as int))),
        r is Err ==> spec_parse_key4(s@.skip(i as int)) is None,
        r matches Err(e) ==> i <= e <= s@.len(),
{
    let (t, j1) = parse_float(s, i)?;
    let (v, j2) = parse_vec4(s, j1)?;
    Ok((GradientKeyVec4 { t, v }, j2))
}

/// The keyframes of a three-component gradient, in authored order.
pub open spec fn spec_enc_keys3(ks: Seq<GradientKeyVec3>) -> Seq<u8>
    decreases ks.len(),
{
    if ks.len() == 0 {
        Seq::<u8>::empty()
    } else {
        spec_enc_key3(ks[0]) + spec_enc_keys3(ks.skip(1))
    }
}

pub open spec fn spec_parse_keys3(s: Seq<u8>, n: nat) -> Option<(Seq<GradientKeyVec3>, Seq<u8>)>
    decreases n,
{
    if n == 0 {
        Some((Seq::<GradientKeyVec3>::empty(), s))
    } else {
        match spec_parse_key3(s) {
            None => None,
            Some((k, r)) => match spec_parse_keys3(r, (n - 1) as nat) {
                None => None,
                Some((ks, r2)) => Some((seq![k] + ks, r2)),
            },
        }
    }
}

#[verifier::rlimit(100)]
#[verifier::spinoff_prover]
proof fn lemma_rt_keys3(ks: Seq<GradientKeyVec3>, rest: Seq<u8>)
    ensures
        spec_parse_keys3(spec_enc_keys3(ks) + rest, ks.len()) == Some((ks, rest)),
    decreases ks.len(),
{
    if ks.len() == 0 {
        assert(spec_enc_keys3(ks) + rest =~= rest);
    } else {
        let e0 = spec_enc_key3(ks[0]);
        let etail = spec_enc_keys3(ks.skip(1));
        assert(e0 + etail + rest =~= e0 + (etail + rest));
        lemma_rt_key3(ks[0], etail + rest);
        lemma_rt_keys3(ks.skip(1), rest);
        assert(seq![ks[0]] + ks.skip(1) =~= ks);
    }
}

proof fn lemma_enc_keys3_snoc(ks: Seq<GradientKeyVec3>, k: GradientKeyVec3)
    ensures
        spec_enc_keys3(ks.push(k)) == spec_enc_keys3(ks) + spec_enc_key3(k),
    decreases ks.len(),
{
    let ek = spec_enc_key3(k);
    if ks.len() == 0 {
        assert(ks.push(k)[0] == k);
        assert(ks.push(k).skip(1) =~= Seq::<GradientKeyVec3>::empty());
        assert(spec_enc_keys3(Seq::<GradientKeyVec3>::empty()) == Seq::<u8>::empty());
        assert(ek + Seq::<u8>::empty() =~= ek);
        assert(spec_enc_keys3(ks) + ek =~= ek);
    } else {
        assert(ks.push(k)[0] == ks[0]);
        assert(ks.push(k).skip(1) =~= ks.skip(1).push(k));
        lemma_enc_keys3_snoc(ks.skip(1), k);
        let e0 = spec_enc_key3(ks[0]);
        let etail = spec_enc_keys3(ks.skip(1));
        assert(spec_enc_keys3(ks.push(k)) == e0 + (etail + ek));
        assert(e0 + (etail + ek) =~= e0 + etail + ek);
    }
}

/// A three-component gradient: its keyframe count, then its keyframes.
pub open spec fn spec_enc_gradient3(ks: Seq<GradientKeyVec3>) -> Seq<u8> {
    spec_enc_u64(ks.len() as u64) + spec_enc_keys3(ks)
}

pub open spec fn spec_parse_gradient3(s: Seq<u8>) -> Option<(Seq<GradientKeyVec3>, Seq<u8>)> {
    match spec_parse_u64(s) {
        None => None,
        Some((n, r)) => spec_parse_keys3(r, n as nat),
    }
}

proof fn lemma_rt_gradient3(ks: Seq<GradientKeyVec3>, rest: Seq<u8>)
    requires
        ks.len() <= u64::MAX,
    ensures
        spec_parse_gradient3(spec_enc_gradient3(ks) + rest) == Some((ks, rest)),
{
    let en = spec_enc_u64(ks.len() as u64);
    let eks = spec_enc_keys3(ks);
    assert(en + eks + rest =~= en + (eks + rest));
    lemma_rt_u64(ks.len() as u64, eks + rest);
    lemma_rt_keys3(ks, rest);
}

pub(crate) fn emit_gradient3(out: &mut Vec<u8>, g: &GradientVec3)
    ensures
        final(out)@ == old(out)@ + spec_enc_gradient3(g@),
{
    let n = g.keys.len();
    emit_u64(out, n as u64);
    let ghost mid = out@;
    for k in 0..n
        invariant
            n == g.keys@.len(),
            out@ == mid + spec_enc_keys3(g.keys@.take(k as int)),
            mid == old(out)@ + spec_enc_u64(n as u64),
        decreases n - k,
    {
        let ghost pre = out@;
        let key = g.keys[k];
        emit_u64(out, key.t.bits as u64);
        emit_u64(out, key.v.x.bits as u64);
        emit_u64(out, key.v.y.bits as u64);
        emit_u64(out, key.v.z.bits as u64);
        proof {
            assert(pre + spec_enc_float(key.t) + spec_enc_float(key.v.x) + spec_enc_float(
                key.v.y,
            ) + spec_enc_float(key.v.z) =~= pre + spec_enc_key3(key));
            lemma_enc_keys3_snoc(g.keys@.take(k as int), key);
            assert(g.keys@.take(k + 1 as int) =~= g.keys@.take(k as int).push(key));
            assert(mid + spec_enc_keys3(g.keys@.take(k as int)) + spec_enc_key3(key) =~= mid
                + spec_enc_keys3(g.keys@.take(k + 1 as int)));
        }
    }
    proof {
        assert(g.keys@.take(n as int) =~= g.keys@);
        assert(mid + spec_enc_keys3(g.keys@) =~= old(out)@ + spec_enc_gradient3(g@));
    }
}

fn parse_gradient3(s: &Vec<u8>, i: usize) -> (r: Result<(GradientVec3, usize), usize>)
    requires
        i <= s@.len(),
    ensures
        r matches Ok((v, j)) ==> i < j <= s@.len() && spec_parse_gradient3(s@.skip(i as int))
            == Some((v@, s@.skip(j as int))),
        r is Err ==> spec_parse_gradient3(s@.skip(i as int)) is None,
        r matches Err(e) ==> i <= e <= s@.len(),
{
    let (n, j0) = parse_u64(s, i)?;
    let mut keys: Vec<GradientKeyVec3> = Vec::new();
    let mut j: usize = j0;
    let mut k: u64 = 0;
    while k < n
        invariant
            i < j0 <= j <= s@.len(),
            k <= n,
            spec_parse_u64(s@.skip(i as int)) == Some((n, s@.skip(j0 as int))),
            spec_parse_keys3(s@.skip(j0 as int), n as nat) == (match spec_parse_keys3(
                s@.skip(j as int),
                (n - k) as nat,
            ) {
                None => None::<(Seq<GradientKeyVec3>, Seq<u8>)>,
                Some((ks, r)) => Some((keys@ + ks, r)),
            }),
        decreases n - k,
    {
        let parsed = parse_key3(s, j);
        match parsed {
            Err(e) => {
                return Err(e);
            },
            Ok((key, j2)) => {
                proof {
                    match spec_parse_keys3(s@.skip(j2 as int), (n - k - 1) as nat) {
                        None => {},
                        Some((ks, r)) => {
                            assert(keys@.push(key) + ks =~= keys@ + (seq![key] + ks));
                        },
                    }
                }
                keys.push(key);
                j = j2;
                k = k + 1;
            },
        }
    }
    proof {
        assert(keys@ + Seq::<GradientKeyVec3>::empty() =~= keys@);
    }
    Ok((GradientVec3 { keys }, j))
}

/// The keyframes of a four-component gradient, in authored order.
pub open spec fn spec_enc_keys4(ks: Seq<GradientKeyVec4>) -> Seq<u8>
    decreases ks.len(),
{
    if ks.len() == 0 {
        Seq::<u8>::empty()
    } else {
        spec_enc_key4(ks[0]) + spec_enc_keys4(ks.skip(1))
    }
}

pub open spec fn spec_parse_keys4(s: Seq<u8>, n: nat) -> Option<(Seq<GradientKeyVec4>, Seq<u8>)>
    decreases n,
{
    if n == 0 {
        Some((Seq::<GradientKeyVec4>::empty(), s))
    } else {
        match spec_parse_key4(s) {
            None => None,
            Some((k, r)) => match spec_parse_keys4(r, (n - 1) as nat) {
                None => None,
                Some((ks, r2)) => Some((seq![k] + ks, r2)),
            },
        }
    }
}

#[verifier::rlimit(100)]
#[verifier::spinoff_prover]
proof fn lemma_rt_keys4(ks: Seq<GradientKeyVec4>, rest: Seq<u8>)
    ensures
        spec_parse_keys4(spec_enc_keys4(ks) + rest, ks.len()) == Some((ks, rest)),
    decreases ks.len(),
{
    if ks.len() == 0 {
        assert(spec_enc_keys4(ks) + rest =~= rest);
    } else {
        let e0 = spec_enc_key4(ks[0]);
        let etail = spec_enc_keys4(ks.skip(1));
        assert(e0 + etail + rest =~= e0 + (etail + rest));
        lemma_rt_key4(ks[0], etail + rest);
        lemma_rt_keys4(ks.skip(1), rest);
        assert(seq![ks[0]] + ks.skip(1) =~= ks);
    }
}

proof fn lemma_enc_keys4_snoc(ks: Seq<GradientKeyVec4>, k: GradientKeyVec4)
    ensures
        spec_enc_keys4(ks.push(k)) == spec_enc_keys4(ks) + spec_enc_key4(k),
    decreases ks.len(),
{
    let ek = spec_enc_key4(k);
    if ks.len() == 0 {
        assert(ks.push(k)[0] == k);
        assert(ks.push(k).skip(1) =~= Seq::<GradientKeyVec4>::empty());
        assert(spec_enc_keys4(Seq::<GradientKeyVec4>::empty()) == Seq::<u8>::empty());
        assert(ek + Seq::<u8>::empty() =~= ek);
        assert(spec_enc_keys4(ks) + ek =~= ek);
    } else {
        assert(ks.push(k)[0] == ks[0]);
        assert(ks.push(k).skip(1) =~= ks.skip(1).push(k));
        lemma_enc_keys4_snoc(ks.skip(1), k);
        let e0 = spec_enc_key4(ks[0]);
        let etail = spec_enc_keys4(ks.skip(1));
        assert(spec_enc_keys4(ks.push(k)) == e0 + (etail + ek));
        assert(e0 + (etail + ek) =~= e0 + etail + ek);
    }
}

/// A four-component gradient: its keyframe count, then its keyframes.
pub open spec fn spec_enc_gradient4(ks: Seq<GradientKeyVec4>) -> Seq<u8> {
    spec_enc_u64(ks.len() as u64) + spec_enc_keys4(ks)
}

pub open spec fn spec_parse_gradient4(s: Seq<u8>) -> Option<(Seq<GradientKeyVec4>, Seq<u8>)> {
    match spec_parse_u64(s) {
        None => None,
        Some((n, r)) => spec_parse_keys4(r, n as nat),
    }
}

proof fn lemma_rt_gradient4(ks: Seq<GradientKeyVec4>, rest: Seq<u8>)
    requires
        ks.len() <= u64::MAX,
    ensures
        spec_parse_gradient4(spec_enc_gradient4(ks) + rest) == Some((ks, rest)),
{
    let en = spec_enc_u64(ks.len() as u64);
    let eks = spec_enc_keys4(ks);
    assert(en + eks + rest =~= en + (eks + rest));
    lemma_rt_u64(ks.len() as u64, eks + rest);
    lemma_rt_keys4(ks, rest);
}

pub(crate) fn emit_gradient4(out: &mut Vec<u8>, g: &GradientVec4)
    ensures
        final(out)@ == old(out)@ + spec_enc_gradient4(g@),
{
    let n = g.keys.len();
    emit_u64(out, n as u64);
    let ghost mid = out@;
    for k in 0..n
        invariant
            n == g.keys@.len(),
            out@ == mid + spec_enc_keys4(g.keys@.take(k as int)),
            mid == old(out)@ + spec_enc_u64(n as u64),
        decreases n - k,
    {
        let ghost pre = out@;
        let key = g.keys[k];
        emit_u64(out, key.t.bits as u64);
        emit_u64(out, key.v.x.bits as u64);
        emit_u64(out, key.v.y.bits as u64);
        emit_u64(out, key.v.z.bits as u64);
        emit_u64(out, key.v.w.bits as u64);
        proof {
            assert(pre + spec_enc_float(key.t) + spec_enc_float(key.v.x) + spec_enc_float(
                key.v.y,
            ) + spec_enc_float(key.v.z) + spec_enc_float(key.v.w) =~= pre + spec_enc_key4(key));
            lemma_enc_keys4_snoc(g.keys@.take(k as int), key);
            assert(g.keys@.take(k + 1 as int) =~= g.keys@.take(k as int).push(key));
            assert(mid + spec_enc_keys4(g.keys@.take(k as int)) + spec_enc_key4(key) =~= mid
                + spec_enc_keys4(g.keys@.take(k + 1 as int)));
        }
    }
    proof {
        assert(g.keys@.take(n as int) =~= g.keys@);
        assert(mid + spec_enc_keys4(g.keys@) =~= old(out)@ + spec_enc_gradient4(g@));
    }
}

fn parse_gradient4(s: &Vec<u8>, i: usize) -> (r: Result<(GradientVec4, usize), usize>)
    requires
        i <= s@.len(),
    ensures
        r matches Ok((v, j)) ==> i < j <= s@.len() && spec_parse_gradient4(s@.skip(i as int))
            == Some((v@, s@.skip(j as int))),
        r is Err ==> spec_parse_gradient4(s@.skip(i as int)) is None,
        r matches Err(e) ==> i <= e <= s@.len(),
{
    let (n, j0) = parse_u64(s, i)?;
    let mut keys: Vec<GradientKeyVec4> = Vec::new();
    let mut j: usize = j0;
    let mut k: u64 = 0;
    while k < n
        invariant
            i < j0 <= j <= s@.len(),
            k <= n,
            spec_parse_u64(s@.skip(i as int)) == Some((n, s@.skip(j0 as int))),
            spec_parse_keys4(s@.skip(j0 as int), n as nat) == (match spec_parse_keys4(
                s@.skip(j as int),
                (n - k) as nat,
            ) {
                None => None::<(Seq<GradientKeyVec4>, Seq<u8>)>,
                Some((ks, r)) => Some((keys@ + ks, r)),
            }),
        decreases n - k,
    {
        let parsed = parse_key4(s, j);
        match parsed {
            Err(e) => {
                return Err(e);
            },
            Ok((key, j2)) => {
                proof {
                    match spec_parse_keys4(s@.skip(j2 as int), (n - k - 1) as nat) {
                        None => {},
                        Some((ks, r)) => {
                            assert(keys@.push(key) + ks =~= keys@ + (seq![key] + ks));
                        },
                    }
                }
                keys.push(key);
                j = j2;
                k = k + 1;
            },
        }
    }
    proof {
        assert(keys@ + Seq::<GradientKeyVec4>::empty() =~= keys@);
    }
    Ok((GradientVec4 { keys }, j))
}

/// A render modifier: its kind tag, then its fields.
pub open spec fn spec_enc_render(r: RenderModView) -> Seq<u8> {
    match r {
        RenderModView::SizeOverLifetime { gradient } => spec_enc_u64(0) + spec_enc_gradient3(
            gradient,
        ),
        RenderModView::ColorOverLifetime { gradient, blend, mask } => spec_enc_u64(1)
            + spec_enc_gradient4(gradient) + spec_enc_opt_blend(blend) + spec_enc_opt_mask(mask),
    }
}

pub open spec fn spec_parse_render(s: Seq<u8>) -> Option<(RenderModView, Seq<u8>)> {
    match spec_parse_u64(s) {
        None => None,
        Some((t, r)) => if t == 0 {
            match spec_parse_gradient3(r) {
                None => None,
                Some((g, r1)) => Some((RenderModView::SizeOverLifetime { gradient: g }, r1)),
            }
        } else if t == 1 {
            match spec_parse_gradient4(r) {
                None => None,
                Some((g, r1)) => match spec_parse_opt_blend(r1) {
                    None => None,
                    Some((b, r2)) => match spec_parse_opt_mask(r2) {
                        None => None,
                        Some((m, r3)) => Some(
                            (
                                RenderModView::ColorOverLifetime {
                                    gradient: g,
                                    blend: b,
                                    mask: m,
                                },
                                r3,
                            ),
                        ),
                    },
                },
            }
        } else {
            None
        },
    }
}

/// Whether a render modifier's gradient is of writable size.
pub open spec fn spec_render_fits(r: RenderModView) -> bool {
    match r {
        RenderModView::SizeOverLifetime { gradient } => gradient.len() <= u64::MAX,
        RenderModView::ColorOverLifetime { gradient, .. } => gradient.len() <= u64::MAX,
    }
}

proof fn lemma_rt_render(r: RenderModView, rest: Seq<u8>)
    requires
        spec_render_fits(r),
    ensures
        spec_parse_render(spec_enc_render(r) + rest) == Some((r, rest)),
{
    match r {
        RenderModView::SizeOverLifetime { gradient } => {
            let eg = spec_enc_gradient3(gradient);
            assert(spec_enc_u64(0) + eg + rest =~= spec_enc_u64(0) + (eg + rest));
            lemma_rt_u64(0, eg + rest);
            lemma_rt_gradient3(gradient, rest);
        },
        RenderModView::ColorOverLifetime { gradient, blend, mask } => {
            let eg = spec_enc_gradient4(gradient);
            let eb = spec_enc_opt_blend(blend);
            let em = spec_enc_opt_mask(mask);
            assert(spec_enc_u64(1) + eg + eb + em + rest =~= spec_enc_u64(1) + (eg + (eb + (em
                + rest))));
            lemma_rt_u64(1, eg + (eb + (em + rest)));
            lemma_rt_gradient4(gradient, eb + (em + rest));
            lemma_rt_opt_blend(blend, em + rest);
            lemma_rt_opt_mask(mask, rest);
        },
    }
}

fn emit_render(out: &mut Vec<u8>, r: &RenderModifierDescriptor)
    ensures
        final(out)@ == old(out)@ + spec_enc_render(r@),
{
    match r {
        RenderModifierDescriptor::SizeOverLifetime { gradient } => {
            emit_u64(out, 0);
            emit_gradient3(out, gradient);
            proof {
                seq_add_assoc(old(out)@, spec_enc_u64(0), spec_enc_gradient3(gradient@));
            }
        },
        RenderModifierDescriptor::ColorOverLifetime { gradient, blend, mask } => {
            emit_u64(out, 1);
            emit_gradient4(out, gradient);
            emit_opt_blend(out, blend);
            emit_opt_mask(out, mask);
            proof {
                assert(old(out)@ + spec_enc_u64(1) + spec_enc_gradient4(gradient@)
                    + spec_enc_opt_blend(*blend) + spec_enc_opt_mask(*mask) =~= old(out)@
                    + spec_enc_render(r@));
            }
        },
    }
}

fn parse_render(s: &Vec<u8>, i: usize) -> (r: Result<(RenderModifierDescriptor, usize), usize>)
    requires
        i <= s@.len(),
    ensures
        r matches Ok((v, j)) ==> i < j <= s@.len() && spec_parse_render(s@.skip(i as int))
            == Some((v@, s@.skip(j as int))),
        r is Err ==> spec_parse_render(s@.skip(i as int)) is None,
        r matches Err(e) ==> i <= e <= s@.len(),
{
    let (t, j) = parse_u64(s, i)?;
    if t == 0 {
        let (g, j1) = parse_gradient3(s, j)?;
        Ok((RenderModifierDescriptor::SizeOverLifetime { gradient: g }, j1))
    } else if t == 1 {
        let (g, j1) = parse_gradient4(s, j)?;
        let (b, j2) = parse_opt_blend(s, j1)?;
        let (m, j3) = parse_opt_mask(s, j2)?;
        Ok((RenderModifierDescriptor::ColorOverLifetime { gradient: g, blend: b, mask: m }, j3))
    } else {
        Err(i)
    }
}

/// A modifier list's items, in authoring order.
pub open spec fn spec_enc_mods(ds: Seq<ModifierDescriptor>) -> Seq<u8>
    decreases ds.len(),
{
    if ds.len() == 0 {
        Seq::<u8>::empty()
    } else {
        spec_enc_modifier(ds[0]) + spec_enc_mods(ds.skip(1))
    }
}

pub open spec fn spec_parse_mods(s: Seq<u8>, n: nat) -> Option<(Seq<ModifierDescriptor>, Seq<u8>)>
    decreases n,
{
    if n == 0 {
        Some((Seq::<ModifierDescriptor>::empty(), s))
    } else {
        match spec_parse_modifier(s) {
            None => None,
            Some((d, r)) => match spec_parse_mods(r, (n - 1) as nat) {
                None => None,
                Some((ds, r2)) => Some((seq![d] + ds, r2)),
            },
        }
    }
}

#[verifier::rlimit(100)]
#[verifier::spinoff_prover]
proof fn lemma_rt_mods(ds: Seq<ModifierDescriptor>, rest: Seq<u8>)
    ensures
        spec_parse_mods(spec_enc_mods(ds) + rest, ds.len()) == Some((ds, rest)),
    decreases ds.len(),
{
    if ds.len() == 0 {
        assert(spec_enc_mods(ds) + rest =~= rest);
    } else {
        let e0 = spec_enc_modifier(ds[0]);
        let etail = spec_enc_mods(ds.skip(1));
        assert(e0 + etail + rest =~= e0 + (etail + rest));
        lemma_rt_modifier(ds[0], etail + rest);
        lemma_rt_mods(ds.skip(1), rest);
        assert(seq![ds[0]] + ds.skip(1) =~= ds);
    }
}

proof fn lemma_enc_mods_snoc(ds: Seq<ModifierDescriptor>, d: ModifierDescriptor)
    ensures
        spec_enc_mods(ds.push(d)) == spec_enc_mods(ds) + spec_enc_modifier(d),
    decreases ds.len(),
{
    let ed = spec_enc_modifier(d);
    if ds.len() == 0 {
        assert(ds.push(d)[0] == d);
        assert(ds.push(d).skip(1) =~= Seq::<ModifierDescriptor>::empty());
        assert(spec_enc_mods(Seq::<ModifierDescriptor>::empty()) == Seq::<u8>::empty());
        assert(ed + Seq::<u8>::empty() =~= ed);
        assert(spec_enc_mods(ds) + ed =~= ed);
    } else {
        assert(ds.push(d)[0] == ds[0]);
        assert(ds.push(d).skip(1) =~= ds.skip(1).push(d));
        lemma_enc_mods_snoc(ds.skip(1), d);
        let e0 = spec_enc_modifier(ds[0]);
        let etail = spec_enc_mods(ds.skip(1));
        assert(spec_enc_mods(ds.push(d)) == e0 + (etail + ed));
        assert(e0 + (etail + ed) =~= e0 + etail + ed);
    }
}

/// A modifier list: its length, then its items.
pub open spec fn spec_enc_modifier_list(ds: Seq<ModifierDescriptor>) -> Seq<u8> {
    spec_enc_u64(ds.len() as u64) + spec_enc_mods(ds)
}

pub open spec fn spec_parse_modifier_list(s: Seq<u8>) -> Option<(Seq<ModifierDescriptor>, Seq<u8>)> {
    match spec_parse_u64(s) {
        None => None,
        Some((n, r)) => spec_parse_mods(r, n as nat),
    }
}

proof fn lemma_rt_modifier_list(ds: Seq<ModifierDescriptor>, rest: Seq<u8>)
    requires
        ds.len() <= u64::MAX,
    ensures
        spec_parse_modifier_list(spec_enc_modifier_list(ds) + rest) == Some((ds, rest)),
{
    let en = spec_enc_u64(ds.len() as u64);
    let eds = spec_enc_mods(ds);
    assert(en + eds + rest =~= en + (eds + rest));
    lemma_rt_u64(ds.len() as u64, eds + rest);
    lemma_rt_mods(ds, rest);
}

fn emit_modifier_list(out: &mut Vec<u8>, v: &Vec<ModifierDescriptor>)
    ensures
        final(out)@ == old(out)@ + spec_enc_modifier_list(v@),
{
    let n = v.len();
    emit_u64(out, n as u64);
    let ghost mid = out@;
    for k in 0..n
        invariant
            n == v@.len(),
            out@ == mid + spec_enc_mods(v@.take(k as int)),
            mid == old(out)@ + spec_enc_u64(n as u64),
        decreases n - k,
    {
        let ghost pre = out@;
        emit_modifier(out, &v[k]);
        proof {
            lemma_enc_mods_snoc(v@.take(k as int), v@[k as int]);
            assert(v@.take(k + 1 as int) =~= v@.take(k as int).push(v@[k as int]));
            assert(mid + spec_enc_mods(v@.take(k as int)) + spec_enc_modifier(v@[k as int])
                =~= mid + spec_enc_mods(v@.take(k + 1 as int)));
        }
    }
    proof {
        assert(v@.take(n as int) =~= v@);
        assert(mid + spec_enc_mods(v@) =~= old(out)@ + spec_enc_modifier_list(v@));
    }
}

fn parse_modifier_list(s: &Vec<u8>, i: usize) -> (r: Result<(Vec<ModifierDescriptor>, usize), usize>)
    requires
        i <= s@.len(),
    ensures
        r matches Ok((v, j)) ==> i < j <= s@.len() && spec_parse_modifier_list(s@.skip(i as int))
            == Some((v@, s@.skip(j as int))),
        r is Err ==> spec_parse_modifier_list(s@.skip(i as int)) is None,
        r matches Err(e) ==> i <= e <= s@.len(),
{
    let (n, j0) = parse_u64(s, i)?;
    let mut items: Vec<ModifierDescriptor> = Vec::new();
    let mut j: usize = j0;
    let mut k: u64 = 0;
    while k < n
        invariant
            i < j0 <= j <= s@.len(),
            k <= n,
            spec_parse_u64(s@.skip(i as int)) == Some((n, s@.skip(j0 as int))),
            spec_parse_mods(s@.skip(j0 as int), n as nat) == (match spec_parse_mods(
                s@.skip(j as int),
                (n - k) as nat,
            ) {
                None => None::<(Seq<ModifierDescriptor>, Seq<u8>)>,
                Some((ds, r)) => Some((items@ + ds, r)),
            }),
        decreases n - k,
    {
        let parsed = parse_modifier(s, j);
        match parsed {
            Err(e) => {
                return Err(e);
            },
            Ok((d, j2)) => {
                proof {
                    match spec_parse_mods(s@.skip(j2 as int), (n - k - 1) as nat) {
                        None => {},
                        Some((ds, r)) => {
                            assert(items@.push(d) + ds =~= items@ + (seq![d] + ds));
                        },
                    }
                }
                items.push(d);
                j = j2;
                k = k + 1;
            },
        }
    }
    proof {
        assert(items@ + Seq::<ModifierDescriptor>::empty() =~= items@);
    }
    Ok((items, j))
}

/// The views of a list of render modifiers.
pub open spec fn spec_render_views(v: Seq<RenderModifierDescriptor>) -> Seq<RenderModView> {
    v.map_values(|r: RenderModifierDescriptor| r@)
}

/// A render list's items, in authoring order.
pub open spec fn spec_enc_renders(rs: Seq<RenderModView>) -> Seq<u8>
    decreases rs.len(),
{
    if rs.len() == 0 {
        Seq::<u8>::empty()
    } else {
        spec_enc_render(rs[0]) + spec_enc_renders(rs.skip(1))
    }
}

pub open spec fn spec_parse_renders(s: Seq<u8>, n: nat) -> Option<(Seq<RenderModView>, Seq<u8>)>
    decreases n,
{
    if n == 0 {
        Some((Seq::<RenderModView>::empty(), s))
    } else {
        match spec_parse_render(s) {
            None => None,
            Some((d, r)) => match spec_parse_renders(r, (n - 1) as nat) {
                None => None,
                Some((ds, r2)) => Some((seq![d] + ds, r2)),
            },
        }
    }
}

#[verifier::rlimit(100)]
#[verifier::spinoff_prover]
proof fn lemma_rt_renders(rs: Seq<RenderModView>, rest: Seq<u8>)
    requires
        forall|i: int| 0 <= i < rs.len() ==> spec_render_fits(#[trigger] rs[i]),
    ensures
        spec_parse_renders(spec_enc_renders(rs) + rest, rs.len()) == Some((rs, rest)),
    decreases rs.len(),
{
    if rs.len() == 0 {
        assert(spec_enc_renders(rs) + rest =~= rest);
    } else {
        let e0 = spec_enc_render(rs[0]);
        let etail = spec_enc_renders(rs.skip(1));
        assert(e0 + etail + rest =~= e0 + (etail + rest));
        lemma_rt_render(rs[0], etail + rest);
        assert(forall|i: int| 0 <= i < rs.skip(1).len() ==> spec_render_fits(
            #[trigger] rs.skip(1)[i],
        ));
        lemma_rt_renders(rs.skip(1), rest);
        assert(seq![rs[0]] + rs.skip(1) =~= rs);
    }
}

proof fn lemma_enc_renders_snoc(rs: Seq<RenderModView>, d: RenderModView)
    ensures
        spec_enc_renders(rs.push(d)) == spec_enc_renders(rs) + spec_enc_render(d),
    decreases rs.len(),
{
    let ed = spec_enc_render(d);
    if rs.len() == 0 {
        assert(rs.push(d)[0] == d);
        assert(rs.push(d).skip(1) =~= Seq::<RenderModView>::empty());
        assert(spec_enc_renders(Seq::<RenderModView>::empty()) == Seq::<u8>::empty());
        assert(ed + Seq::<u8>::empty() =~= ed);
        assert(spec_enc_renders(rs) + ed =~= ed);
    } else {
        assert(rs.push(d)[0] == rs[0]);
        assert(rs.push(d).skip(1) =~= rs.skip(1).push(d));
        lemma_enc_renders_snoc(rs.skip(1), d);
        let e0 = spec_enc_render(rs[0]);
        let etail = spec_enc_renders(rs.skip(1));
        assert(spec_enc_renders(rs.push(d)) == e0 + (etail + ed));
        assert(e0 + (etail + ed) =~= e0 + etail + ed);
    }
}

/// A render list: its length, then its items.
pub open spec fn spec_enc_render_list(rs: Seq<RenderModView>) -> Seq<u8> {
    spec_enc_u64(rs.len() as u64) + spec_enc_renders(rs)
}

pub open spec fn spec_parse_render_list(s: Seq<u8>) -> Option<(Seq<RenderModView>, Seq<u8>)> {
    match spec_parse_u64(s) {
        None => None,
        Some((n, r)) => spec_parse_renders(r, n as nat),
    }
}

proof fn lemma_rt_render_list(rs: Seq<RenderModView>, rest: Seq<u8>)
    requires
        rs.len() <= u64::MAX,
        forall|i: int| 0 <= i < rs.len() ==> spec_render_fits(#[trigger] rs[i]),
    ensures
        spec_parse_render_list(spec_enc_render_list(rs) + rest) == Some((rs, rest)),
{
    let en = spec_enc_u64(rs.len() as u64);
    let ers = spec_enc_renders(rs);
    assert(en + ers + rest =~= en + (ers + rest));
    lemma_rt_u64(rs.len() as u64, ers + rest);
    lemma_rt_renders(rs, rest);
}

fn emit_render_list(out: &mut Vec<u8>, v: &Vec<RenderModifierDescriptor>)
    ensures
        final(out)@ == old(out)@ + spec_enc_render_list(spec_render_views(v@)),
{
    let n = v.len();
    emit_u64(out, n as u64);
    let ghost mid = out@;
    let ghost views = spec_render_views(v@);
    for k in 0..n
        invariant
            n == v@.len(),
            views == spec_render_views(v@),
            views.len() == n,
            out@ == mid + spec_enc_renders(views.take(k as int)),
            mid == old(out)@ + spec_enc_u64(n as u64),
        decreases n - k,
    {
        let ghost pre = out@;
        emit_render(out, &v[k]);
        proof {
            assert(views[k as int] == v@[k as int]@);
            lemma_enc_renders_snoc(views.take(k as int), views[k as int]);
            assert(views.take(k + 1 as int) =~= views.take(k as int).push(views[k as int]));
            assert(mid + spec_enc_renders(views.take(k as int)) + spec_enc_render(
                views[k as int],
            ) =~= mid + spec_enc_renders(views.take(k + 1 as int)));
        }
    }
    proof {
        assert(views.take(n as int) =~= views);
        assert(mid + spec_enc_renders(views) =~= old(out)@ + spec_enc_render_list(views));
    }
}

fn parse_render_list(s: &Vec<u8>, i: usize) -> (r: Result<
    (Vec<RenderModifierDescriptor>, usize),
    usize,
>)
    requires
        i <= s@.len(),
    ensures
        r matches Ok((v, j)) ==> i < j <= s@.len() && spec_parse_render_list(s@.skip(i as int))
            == Some((spec_render_views(v@), s@.skip(j as int))),
        r is Err ==> spec_parse_render_list(s@.skip(i as int)) is None,
        r matches Err(e) ==> i <= e <= s@.len(),
{
    let (n, j0) = parse_u64(s, i)?;
    let mut items: Vec<RenderModifierDescriptor> = Vec::new();
    let mut j: usize = j0;
    let mut k: u64 = 0;
    while k < n
        invariant
            i < j0 <= j <= s@.len(),
            k <= n,
            spec_parse_u64(s@.skip(i as int)) == Some((n, s@.skip(j0 as int))),
            spec_parse_renders(s@.skip(j0 as int), n as nat) == (match spec_parse_renders(
                s@.skip(j as int),
                (n - k) as nat,
            ) {
                None => None::<(Seq<RenderModView>, Seq<u8>)>,
                Some((ds, r)) => Some((spec_render_views(items@) + ds, r)),
            }),
        decreases n - k,
    {
        let parsed = parse_render(s, j);
        match parsed {
            Err(e) => {
                return Err(e);
            },
            Ok((d, j2)) => {
                proof {
                    assert(spec_render_views(items@.push(d)) =~= spec_render_views(
                        items@,
                    ).push(d@));
                    match spec_parse_renders(s@.skip(j2 as int), (n - k - 1) as nat) {
                        None => {},
                        Some((ds, r)) => {
                            assert(spec_render_views(items@).push(d@) + ds =~= spec_render_views(
                                items@,
                            ) + (seq![d@] + ds));
                        },
                    }
                }
                items.push(d);
                j = j2;
                k = k + 1;
            },
        }
    }
    proof {
        assert(spec_render_views(items@) + Seq::<RenderModView>::empty() =~= spec_render_views(
            items@,
        ));
    }
    Ok((items, j))
}

/// An effect record: name, parent, capacity, spawner, texture, then the
/// three modifier lists, in this order.
pub open spec fn spec_enc_effect(d: EffectDescriptorView) -> Seq<u8> {
    spec_enc_string(d.name) + spec_enc_opt_string(d.parent) + spec_enc_u64(d.capacity as u64)
        + spec_enc_spawner(d.spawner_settings) + spec_enc_opt_usize(d.texture_index)
        + spec_enc_modifier_list(d.init_modifiers) + spec_enc_modifier_list(d.update_modifiers)
        + spec_enc_render_list(d.render_modifiers)
}

pub open spec fn spec_parse_effect(s: Seq<u8>) -> Option<(EffectDescriptorView, Seq<u8>)> {
    match spec_parse_string(s) {
        None => None,
        Some((name, r1)) => match spec_parse_opt_string(r1) {
            None => None,
            Some((parent, r2)) => match spec_parse_u32(r2) {
                None => None,
                Some((capacity, r3)) => match spec_parse_spawner(r3) {
                    None => None,
                    Some((spawner_settings, r4)) => match spec_parse_opt_usize(r4) {
                        None => None,
                        Some((texture_index, r5)) => match spec_parse_modifier_list(r5) {
                            None => None,
                            Some((init_modifiers, r6)) => match spec_parse_modifier_list(r6) {
                                None => None,
                                Some((update_modifiers, r7)) => match spec_parse_render_list(r7) {
                                    None => None,
                                    Some((render_modifiers, r8)) => Some(
                                        (
                                            EffectDescriptorView {
                                                name,
                                                parent,
                                                capacity,
                                                spawner_settings,
                                                texture_index,
                                                init_modifiers,
                                                update_modifiers,
                                                render_modifiers,
                                            },
                                            r8,
                                        ),
                                    ),
                                },
                            },
                        },
                    },
                },
            },
        },
    }
}

/// Whether an effect's strings and lists are of writable size.
pub open spec fn spec_effect_fits(d: EffectDescriptorView) -> bool {
    &&& d.name.len() <= u64::MAX
    &&& (d.parent matches Some(p) ==> p.len() <= u64::MAX)
    &&& d.init_modifiers.len() <= u64::MAX
    &&& d.update_modifiers.len() <= u64::MAX
    &&& d.render_modifiers.len() <= u64::MAX
    &&& forall|i: int| 0 <= i < d.render_modifiers.len() ==> spec_render_fits(
        #[trigger] d.render_modifiers[i],
    )
}

#[verifier::rlimit(100)]
#[verifier::spinoff_prover]
proof fn lemma_rt_effect(d: EffectDescriptorView, rest: Seq<u8>)
    requires
        spec_effect_fits(d),
    ensures
        spec_parse_effect(spec_enc_effect(d) + rest) == Some((d, rest)),
{
    let e1 = spec_enc_string(d.name);
    let e2 = spec_enc_opt_string(d.parent);
    let e3 = spec_enc_u64(d.capacity as u64);
    let e4 = spec_enc_spawner(d.spawner_settings);
    let e5 = spec_enc_opt_usize(d.texture_index);
    let e6 = spec_enc_modifier_list(d.init_modifiers);
    let e7 = spec_enc_modifier_list(d.update_modifiers);
    let e8 = spec_enc_render_list(d.render_modifiers);
    assert(e1 + e2 + e3 + e4 + e5 + e6 + e7 + e8 + rest =~= e1 + (e2 + (e3 + (e4 + (e5 + (e6 + (e7
        + (e8 + rest))))))));
    lemma_rt_string(d.name, e2 + (e3 + (e4 + (e5 + (e6 + (e7 + (e8 + rest)))))));
    lemma_rt_opt_string(d.parent, e3 + (e4 + (e5 + (e6 + (e7 + (e8 + rest))))));
    lemma_rt_u64(d.capacity as u64, e4 + (e5 + (e6 + (e7 + (e8 + rest)))));
    lemma_rt_spawner(d.spawner_settings, e5 + (e6 + (e7 + (e8 + rest))));
    lemma_rt_opt_usize(d.texture_index, e6 + (e7 + (e8 + rest)));
    lemma_rt_modifier_list(d.init_modifiers, e7 + (e8 + rest));
    lemma_rt_modifier_list(d.update_modifiers, e8 + rest);
    lemma_rt_render_list(d.render_modifiers, rest);
}

#[verifier::rlimit(100)]
#[verifier::spinoff_prover]
fn emit_effect(out: &mut Vec<u8>, e: &EffectDescriptor)
    ensures
        final(out)@ == old(out)@ + spec_enc_effect(e@),
{
    emit_string(out, &e.name);
    emit_opt_string(out, &e.parent);
    emit_u64(out, e.capacity as u64);
    emit_spawner(out, &e.spawner_settings);
    emit_opt_usize(out, &e.texture_index);
    emit_modifier_list(out, &e.init_modifiers);
    emit_modifier_list(out, &e.update_modifiers);
    emit_render_list(out, &e.render_modifiers);
    proof {
        assert(spec_render_views(e.render_modifiers@) =~= e@.render_modifiers);
        let e1 = spec_enc_string(e@.name);
        let e2 = spec_enc_opt_string(e@.parent);
        let e3 = spec_enc_u64(e@.capacity as u64);
        let e4 = spec_enc_spawner(e@.spawner_settings);
        let e5 = spec_enc_opt_usize(e@.texture_index);
        let e6 = spec_enc_modifier_list(e@.init_modifiers);
        let e7 = spec_enc_modifier_list(e@.update_modifiers);
        let e8 = spec_enc_render_list(e@.render_modifiers);
        assert(old(out)@ + e1 + e2 + e3 + e4 + e5 + e6 + e7 + e8 =~= old(out)@ + (e1 + e2 + e3
            + e4 + e5 + e6 + e7 + e8));
    }
}

#[verifier::rlimit(100)]
#[verifier::spinoff_prover]
fn parse_effect(s: &Vec<u8>, i: usize) -> (r: Result<(EffectDescriptor, usize), usize>)
    requires
        i <= s@.len(),
    ensures
        r matches Ok((v, j)) ==> i < j <= s@.len() && spec_parse_effect(s@.skip(i as int))
            == Some((v@, s@.skip(j as int))),
        r is Err ==> spec_parse_effect(s@.skip(i as int)) is None,
        r matches Err(e) ==> i <= e <= s@.len(),
{
    let (name, j1) = parse_string(s, i)?;
    let (parent, j2) = parse_opt_string(s, j1)?;
    let (capacity, j3) = parse_u32(s, j2)?;
    let (spawner_settings, j4) = parse_spawner(s, j3)?;
    let (texture_index, j5) = parse_opt_usize(s, j4)?;
    let (init_modifiers, j6) = parse_modifier_list(s, j5)?;
    let (update_modifiers, j7) = parse_modifier_list(s, j6)?;
    let (render_modifiers, j8) = parse_render_list(s, j7)?;
    let e = EffectDescriptor {
        name,
        parent,
        capacity,
        spawner_settings,
        texture_index,
        init_modifiers,
        update_modifiers,
        render_modifiers,
    };
    proof {
        assert(e@.render_modifiers =~= spec_render_views(e.render_modifiers@));
    }
    Ok((e, j8))
}

/// A document's effect records, in order.
pub open spec fn spec_enc_effs(ds: Seq<EffectDescriptorView>) -> Seq<u8>
    decreases ds.len(),
{
    if ds.len() == 0 {
        Seq::<u8>::empty()
    } else {
        spec_enc_effect(ds[0]) + spec_enc_effs(ds.skip(1))
    }
}

pub open spec fn spec_parse_effs(s: Seq<u8>, n: nat) -> Option<(Seq<EffectDescriptorView>, Seq<u8>)>
    decreases n,
{
    if n == 0 {
        Some((Seq::<EffectDescriptorView>::empty(), s))
    } else {
        match spec_parse_effect(s) {
            None => None,
            Some((d, r)) => match spec_parse_effs(r, (n - 1) as nat) {
                None => None,
                Some((ds, r2)) => Some((seq![d] + ds, r2)),
            },
        }
    }
}

#[verifier::rlimit(100)]
#[verifier::spinoff_prover]
proof fn lemma_rt_effs(ds: Seq<EffectDescriptorView>, rest: Seq<u8>)
    requires
        forall|i: int| 0 <= i < ds.len() ==> spec_effect_fits(#[trigger] ds[i]),
    ensures
        spec_parse_effs(spec_enc_effs(ds) + rest, ds.len()) == Some((ds, rest)),
    decreases ds.len(),
{
    if ds.len() == 0 {
        assert(spec_enc_effs(ds) + rest =~= rest);
    } else {
        let e0 = spec_enc_effect(ds[0]);
        let etail = spec_enc_effs(ds.skip(1));
        seq_add_assoc(e0, etail, rest);
        lemma_rt_effect(ds[0], etail + rest);
        assert(forall|i: int| 0 <= i < ds.skip(1).len() ==> spec_effect_fits(
            #[trigger] ds.skip(1)[i],
        ));
        lemma_rt_effs(ds.skip(1), rest);
        assert(seq![ds[0]] + ds.skip(1) =~= ds);
    }
}

#[verifier::rlimit(100)]
#[verifier::spinoff_prover]
proof fn lemma_enc_effs_snoc(ds: Seq<EffectDescriptorView>, d: EffectDescriptorView)
    ensures
        spec_enc_effs(ds.push(d)) == spec_enc_effs(ds) + spec_enc_effect(d),
    decreases ds.len(),
{
    let ed = spec_enc_effect(d);
    if ds.len() == 0 {
        assert(ds.push(d)[0] == d);
        assert(ds.push(d).skip(1) =~= Seq::<EffectDescriptorView>::empty());
        assert(spec_enc_effs(Seq::<EffectDescriptorView>::empty()) == Seq::<u8>::empty());
        assert(ed + Seq::<u8>::empty() =~= ed);
        assert(spec_enc_effs(ds) + ed =~= ed);
    } else {
        assert(ds.push(d)[0] == ds[0]);
        assert(ds.push(d).skip(1) =~= ds.skip(1).push(d));
        lemma_enc_effs_snoc(ds.skip(1), d);
        let e0 = spec_enc_effect(ds[0]);
        let etail = spec_enc_effs(ds.skip(1));
        assert(spec_enc_effs(ds.push(d)) == e0 + (etail + ed));
        seq_add_assoc(e0, etail, ed);
    }
}

/// A whole project: its effect count, then its effect records, in document
/// order.
pub open spec fn spec_enc_project(ds: Seq<EffectDescriptorView>) -> Seq<u8> {
    spec_enc_u64(ds.len() as u64) + spec_enc_effs(ds)
}

pub open spec fn spec_parse_project(s: Seq<u8>) -> Option<(Seq<EffectDescriptorView>, Seq<u8>)> {
    match spec_parse_u64(s) {
        None => None,
        Some((n, r)) => spec_parse_effs(r, n as nat),
    }
}

/// The document a text decodes to, if it is exactly one encoded project.
pub open spec fn spec_decode_project(s: Seq<u8>) -> Option<Seq<EffectDescriptorView>> {
    match spec_parse_project(s) {
        None => None,
        Some((ds, r)) => if r.len() == 0 {
            Some(ds)
        } else {
            None
        },
    }
}

/// Whether a document's strings and lists are of writable size. Every
/// document held in memory satisfies this; only the mathematical views are
/// unbounded.
pub open spec fn spec_doc_fits(ds: Seq<EffectDescriptorView>) -> bool {
    &&& ds.len() <= u64::MAX
    &&& forall|i: int| 0 <= i < ds.len() ==> spec_effect_fits(#[trigger] ds[i])
}

/// Where decoding failed: the byte offset of the malformed input.
#[derive(Clone, Copy, Debug, PartialEq, Eq, Structural)]
pub struct DecodeError {
    pub offset: usize,
}

impl ProjectDocument {
    /// Write this document in the project file text.
    pub fn encode(&self) -> (out: Vec<u8>)
        ensures
            out@ == spec_enc_project(self@),
    {
        let mut out: Vec<u8> = Vec::new();
        let n = self.effects.len();
        emit_u64(&mut out, n as u64);
        let ghost mid = out@;
        let ghost dv = self@;
        for k in 0..n
            invariant
                n == self.effects@.len(),
                dv == self@,
                dv.len() == n,
                out@ == mid + spec_enc_effs(dv.take(k as int)),
                mid == spec_enc_u64(n as u64),
            decreases n - k,
        {
            emit_effect(&mut out, &self.effects[k]);
            proof {
                assert(dv[k as int] == self.effects@[k as int]@);
                lemma_enc_effs_snoc(dv.take(k as int), dv[k as int]);
                assert(dv.take(k + 1 as int) =~= dv.take(k as int).push(dv[k as int]));
                seq_add_assoc(mid, spec_enc_effs(dv.take(k as int)), spec_enc_effect(
                    dv[k as int],
                ));
            }
        }
        proof {
            assert(dv.take(n as int) =~= dv);
            assert(mid + spec_enc_effs(dv) =~= spec_enc_project(dv));
        }
        out
    }

    /// Read a document back from project file text. Exactly the texts that
    /// [`ProjectDocument::encode`] writes are accepted; anything else fails
    /// with the byte offset of the first malformed input.
    pub fn decode(data: &Vec<u8>) -> (r: Result<ProjectDocument, DecodeError>)
        ensures
            r matches Ok(doc) ==> spec_decode_project(data@) == Some(doc@),
            r is Err ==> spec_decode_project(data@) is None,
            r matches Err(e) ==> e.offset <= data@.len(),
    {
        let ghost whole = data@;
        proof {
            assert(whole.skip(0) =~= whole);
        }
        let first = parse_u64(data, 0);
        let (n, j0) = match first {
            Ok(v) => v,
            Err(e) => {
                return Err(DecodeError { offset: e });
            },
        };
        let mut effects: Vec<EffectDescriptor> = Vec::new();
        let mut j: usize = j0;
        let mut k: u64 = 0;
        while k < n
            invariant
                0 < j0 <= j <= data@.len(),
                k <= n,
                whole == data@,
                spec_parse_u64(data@) == Some((n, data@.skip(j0 as int))),
                spec_parse_effs(data@.skip(j0 as int), n as nat) == (match spec_parse_effs(
                    data@.skip(j as int),
                    (n - k) as nat,
                ) {
                    None => None::<(Seq<EffectDescriptorView>, Seq<u8>)>,
                    Some((ds, r)) => Some((spec_doc_view(effects@) + ds, r)),
                }),
            decreases n - k,
        {
            let parsed = parse_effect(data, j);
            match parsed {
                Err(e) => {
                    proof {
                        assert(whole.skip(0) =~= whole);
                    }
                    return Err(DecodeError { offset: e });
                },
                Ok((d, j2)) => {
                    proof {
                        assert(spec_doc_view(effects@.push(d)) =~= spec_doc_view(
                            effects@,
                        ).push(d@));
                        match spec_parse_effs(data@.skip(j2 as int), (n - k - 1) as nat) {
                            None => {},
                            Some((ds, r)) => {
                                assert(spec_doc_view(effects@).push(d@) + ds =~= spec_doc_view(
                                    effects@,
                                ) + (seq![d@] + ds));
                            },
                        }
                    }
                    effects.push(d);
                    j = j2;
                    k = k + 1;
                },
            }
        }
        proof {
            assert(spec_doc_view(effects@) + Seq::<EffectDescriptorView>::empty()
                =~= spec_doc_view(effects@));
            assert(whole.skip(0) =~= whole);
        }
        if j != data.len() {
            return Err(DecodeError { offset: j });
        }
        proof {
            assert(data@.skip(j as int).len() == 0);
        }
        Ok(ProjectDocument { effects })
    }
}

/// Whether an expression tree holds no unset slot.
pub open spec fn spec_expr_no_placeholder(n: ExprNode) -> bool
    decreases n,
{
    match n {
        ExprNode::Placeholder => false,
        ExprNode::Operator(op) => spec_op_no_placeholder(*op),
        _ => true,
    }
}

/// The operator half of [`spec_expr_no_placeholder`].
pub open spec fn spec_op_no_placeholder(op: ExprOp) -> bool
    decreases op,
{
    match op {
        ExprOp::Uniform(a, b) | ExprOp::Multiply(a, b) | ExprOp::Subtract(a, b)
            | ExprOp::Add(a, b) | ExprOp::Distance(a, b) => spec_expr_no_placeholder(a)
            && spec_expr_no_placeholder(b),
        ExprOp::Sin(a) | ExprOp::Cos(a) | ExprOp::Pack4x8UNorm(a) | ExprOp::Normalized(a) => {
            spec_expr_no_placeholder(a)
        },
        ExprOp::Vec3(a, b, c) => spec_expr_no_placeholder(a) && spec_expr_no_placeholder(b)
            && spec_expr_no_placeholder(c),
        ExprOp::Vec4(a, b, c, d) => spec_expr_no_placeholder(a) && spec_expr_no_placeholder(b)
            && spec_expr_no_placeholder(c) && spec_expr_no_placeholder(d),
        ExprOp::Attr(_) | ExprOp::ParentAttr(_) => true,
    }
}

/// Whether a modifier's expression fields hold no unset slot.
pub open spec fn spec_modifier_no_placeholder(d: ModifierDescriptor) -> bool {
    match d {
        ModifierDescriptor::SetAttribute { attr_expr, .. } => spec_expr_no_placeholder(attr_expr),
        ModifierDescriptor::InheritAttribute { .. } => true,
        ModifierDescriptor::SetPositionCircle { center_expr, axis_expr, radius_expr, .. } => {
            spec_expr_no_placeholder(center_expr) && spec_expr_no_placeholder(axis_expr)
                && spec_expr_no_placeholder(radius_expr)
        },
        ModifierDescriptor::SetPositionSphere { center_expr, radius_expr, .. } => {
            spec_expr_no_placeholder(center_expr) && spec_expr_no_placeholder(radius_expr)
        },
        ModifierDescriptor::SetVelocityCircle { center_expr, axis_expr, speed_expr } => {
            spec_expr_no_placeholder(center_expr) && spec_expr_no_placeholder(axis_expr)
                && spec_expr_no_placeholder(speed_expr)
        },
        ModifierDescriptor::SetVelocitySphere { center_expr, speed_expr } => {
            spec_expr_no_placeholder(center_expr) && spec_expr_no_placeholder(speed_expr)
        },
        ModifierDescriptor::SetVelocityTangent { origin_expr, axis_expr, speed_expr } => {
            spec_expr_no_placeholder(origin_expr) && spec_expr_no_placeholder(axis_expr)
                && spec_expr_no_placeholder(speed_expr)
        },
        ModifierDescriptor::Accel { accel_expr } => spec_expr_no_placeholder(accel_expr),
        ModifierDescriptor::LinearDrag { drag_expr } => spec_expr_no_placeholder(drag_expr),
        ModifierDescriptor::EmitSpawnEvent { count_expr, .. } => spec_expr_no_placeholder(
            count_expr,
        ),
        ModifierDescriptor::ConformToSphere {
            origin_expr,
            radius_expr,
            influence_dist_expr,
            attraction_accel_expr,
            max_attraction_speed_expr,
        } => {
            spec_expr_no_placeholder(origin_expr) && spec_expr_no_placeholder(radius_expr)
                && spec_expr_no_placeholder(influence_dist_expr) && spec_expr_no_placeholder(
                attraction_accel_expr,
            ) && spec_expr_no_placeholder(max_attraction_speed_expr)
        },
    }
}

/// Whether any expression of an effect holds an unset slot.
pub open spec fn spec_effect_no_placeholder(d: EffectDescriptorView) -> bool {
    &&& forall|i: int| 0 <= i < d.init_modifiers.len() ==> spec_modifier_no_placeholder(
        #[trigger] d.init_modifiers[i],
    )
    &&& forall|i: int| 0 <= i < d.update_modifiers.len() ==> spec_modifier_no_placeholder(
        #[trigger] d.update_modifiers[i],
    )
}

/// Whether any expression of a document holds an unset slot.
pub open spec fn spec_doc_no_placeholder(ds: Seq<EffectDescriptorView>) -> bool {
    forall|i: int| 0 <= i < ds.len() ==> spec_effect_no_placeholder(#[trigger] ds[i])
}

/// Saving and loading is the identity: decoding the text written for any
/// machine-sized document with no unset expression slot gives the document
/// back, field for field.
pub proof fn lemma_round_trip(ds: Seq<EffectDescriptorView>)
    requires
        spec_doc_fits(ds),
        spec_doc_no_placeholder(ds),
    ensures
        spec_decode_project(spec_enc_project(ds)) == Some(ds),
{
    let en = spec_enc_u64(ds.len() as u64);
    let eds = spec_enc_effs(ds);
    let empty = Seq::<u8>::empty();
    assert(en + eds + empty =~= en + (eds + empty));
    assert(spec_enc_project(ds) =~= en + eds + empty);
    lemma_rt_u64(ds.len() as u64, eds + empty);
    lemma_rt_effs(ds, empty);
    assert(eds + empty =~= eds);
}

} // verus!
