//! The on-disk settings record: a fixed-layout JSON object
//! `{"time":"TTTTTTTTTTTT","volume":"VV","brightness":"BBB"}` whose three
//! fields are zero-padded decimal strings. The timestamp field holds
//! seconds since the Unix epoch rather than a formatted calendar date —
//! a deliberate choice: the daemon is the file's only writer, and plain
//! seconds let the encoder and parser be proved exact inverses without
//! calendar arithmetic; the surrounding process renders dates where a
//! human needs one. The encoder is exact, and the parser accepts precisely
//! the encodings of well-formed states, which gives the round-trip and
//! corruption-recovery laws their footing.

use vstd::prelude::*;
use vstd::arithmetic::div_mod::lemma_multiply_divide_lt;

use crate::MAX_TIMESTAMP;
use crate::state::AlliumDState;

verus! {

/// Total length of a record in bytes.
pub const STATE_RECORD_LEN: usize = 56;

/// An ASCII decimal digit.
pub open spec fn is_digit(b: u8) -> bool {
    48 <= b && b <= 57
}

/// `n` printed as exactly `w` decimal digits, zero-padded, most significant
/// first.
pub open spec fn spec_digits(n: int, w: nat) -> Seq<u8>
    decreases w,
{
    if w == 0 {
        Seq::empty()
    } else {
        spec_digits(n / 10, (w - 1) as nat).push((48 + n % 10) as u8)
    }
}

/// The number a digit string denotes.
pub open spec fn seq_num(s: Seq<u8>) -> int
    decreases s.len(),
{
    if s.len() == 0 {
        0
    } else {
        seq_num(s.drop_last()) * 10 + (s.last() - 48)
    }
}

/// Ten to the `w`.
pub open spec fn pow10(w: nat) -> int
    decreases w,
{
    if w == 0 {
        1
    } else {
        10 * pow10((w - 1) as nat)
    }
}

proof fn lemma_digits_len(n: int, w: nat)
    ensures
        spec_digits(n, w).len() == w,
    decreases w,
{
    if w > 0 {
        lemma_digits_len(n / 10, (w - 1) as nat);
    }
}

proof fn lemma_digits_are_digits(n: int, w: nat)
    ensures
        forall|i: int| 0 <= i < w ==> is_digit(#[trigger] spec_digits(n, w)[i]),
    decreases w,
{
    lemma_digits_len(n, w);
    if w > 0 {
        lemma_digits_are_digits(n / 10, (w - 1) as nat);
        lemma_digits_len(n / 10, (w - 1) as nat);
        assert(0 <= n % 10 < 10);
        assert forall|i: int| 0 <= i < w implies is_digit(#[trigger] spec_digits(n, w)[i]) by {
            if i < w - 1 {
                assert(spec_digits(n, w)[i] == spec_digits(n / 10, (w - 1) as nat)[i]);
            }
        }
    }
}

proof fn lemma_digits_value(n: int, w: nat)
    requires
        0 <= n < pow10(w),
    ensures
        seq_num(spec_digits(n, w)) == n,
    decreases w,
{
    if w == 0 {
        assert(n == 0);
    } else {
        let rec = spec_digits(n / 10, (w - 1) as nat);
        let d = (48 + n % 10) as u8;
        assert(spec_digits(n, w) == rec.push(d));
        assert(rec.push(d).drop_last() =~= rec);
        assert(rec.push(d).last() == d);
        assert(0 <= n % 10 < 10);
        assert(pow10(w) == 10 * pow10((w - 1) as nat));
        lemma_multiply_divide_lt(n, 10, pow10((w - 1) as nat));
        lemma_digits_value(n / 10, (w - 1) as nat);
        assert(seq_num(spec_digits(n, w)) == (n / 10) * 10 + n % 10);
    }
}

proof fn lemma_pow10_pos(w: nat)
    ensures
        pow10(w) >= 1,
    decreases w,
{
    if w > 0 {
        lemma_pow10_pos((w - 1) as nat);
    }
}

proof fn lemma_pow10_mono(a: nat, b: nat)
    requires
        a <= b,
    ensures
        1 <= pow10(a) <= pow10(b),
    decreases b,
{
    lemma_pow10_pos(a);
    if a < b {
        lemma_pow10_mono(a, (b - 1) as nat);
        lemma_pow10_pos((b - 1) as nat);
    }
}

/// The literal bytes `{"time":"`.
pub open spec fn lit_time() -> Seq<u8> {
    seq![123u8, 34u8, 116u8, 105u8, 109u8, 101u8, 34u8, 58u8, 34u8]
}

/// The literal bytes `","volume":"`.
pub open spec fn lit_volume() -> Seq<u8> {
    seq![34u8, 44u8, 34u8, 118u8, 111u8, 108u8, 117u8, 109u8, 101u8, 34u8, 58u8, 34u8]
}

/// The literal bytes `","brightness":"`.
pub open spec fn lit_brightness() -> Seq<u8> {
    seq![34u8, 44u8, 34u8, 98u8, 114u8, 105u8, 103u8, 104u8, 116u8, 110u8, 101u8, 115u8, 115u8, 34u8, 58u8, 34u8]
}

/// The record of a state: the three fields as fixed-width decimals between
/// the literal framing bytes.
pub open spec fn spec_encode(s: AlliumDState) -> Seq<u8> {
    lit_time() + spec_digits(s.time as int, 12) + lit_volume() + spec_digits(s.volume as int, 2)
        + lit_brightness() + spec_digits(s.brightness as int, 3) + seq![34u8, 125u8]
}

/// Where each piece of the record lies.
pub proof fn lemma_encode_layout(s: AlliumDState)
    ensures
        spec_encode(s).len() == 56,
        spec_encode(s).subrange(9, 21) == spec_digits(s.time as int, 12),
        spec_encode(s).subrange(33, 35) == spec_digits(s.volume as int, 2),
        spec_encode(s).subrange(51, 54) == spec_digits(s.brightness as int, 3),
{
    lemma_digits_len(s.time as int, 12);
    lemma_digits_len(s.volume as int, 2);
    lemma_digits_len(s.brightness as int, 3);
    assert(spec_encode(s).subrange(9, 21) =~= spec_digits(s.time as int, 12));
    assert(spec_encode(s).subrange(33, 35) =~= spec_digits(s.volume as int, 2));
    assert(spec_encode(s).subrange(51, 54) =~= spec_digits(s.brightness as int, 3));
}

/// The three numeric fields of a well-formed state's record read back as
/// exactly its field values.
pub proof fn lemma_encode_values(s: AlliumDState)
    requires
        s.wf(),
    ensures
        seq_num(spec_encode(s).subrange(9, 21)) == s.time,
        seq_num(spec_encode(s).subrange(33, 35)) == s.volume,
        seq_num(spec_encode(s).subrange(51, 54)) == s.brightness,
{
    lemma_encode_layout(s);
    reveal_with_fuel(pow10, 13);
    assert(pow10(12) == 1_000_000_000_000int);
    lemma_digits_value(s.time as int, 12);
    lemma_digits_value(s.volume as int, 2);
    lemma_digits_value(s.brightness as int, 3);
}

/// Two well-formed states with the same record are the same state: the
/// record determines the state, so a load sees exactly what was saved.
pub proof fn lemma_encode_injective(a: AlliumDState, b: AlliumDState)
    requires
        a.wf(),
        b.wf(),
        spec_encode(a) == spec_encode(b),
    ensures
        a == b,
{
    lemma_encode_values(a);
    lemma_encode_values(b);
    assert(seq_num(spec_encode(a).subrange(9, 21)) == seq_num(spec_encode(b).subrange(9, 21)));
    assert(seq_num(spec_encode(a).subrange(33, 35)) == seq_num(spec_encode(b).subrange(33, 35)));
    assert(seq_num(spec_encode(a).subrange(51, 54)) == seq_num(spec_encode(b).subrange(51, 54)));
}

/// `n` rendered as exactly `w` zero-padded decimal digit bytes.
fn encode_digits(n: u64, w: usize) -> (v: Vec<u8>)
    ensures
        v@ == spec_digits(n as int, w as nat),
    decreases w,
{
    if w == 0 {
        Vec::new()
    } else {
        let mut v = encode_digits(n / 10, w - 1);
        proof {
            assert((n / 10) as int == (n as int) / 10);
        }
        v.push((48 + (n % 10)) as u8);
        proof {
            assert((48 + (n % 10)) as u8 == (48 + (n as int) % 10) as u8);
        }
        v
    }
}

/// Append a copy of `src` to `out`.
fn push_all(out: &mut Vec<u8>, src: &Vec<u8>)
    ensures
        final(out)@ == old(out)@ + src@,
{
    let mut i: usize = 0;
    while i < src.len()
        invariant
            i <= src.len(),
            out@ == old(out)@ + src@.subrange(0, i as int),
        decreases src.len() - i,
    {
        let b = src[i];
        out.push(b);
        proof {
            assert(old(out)@ + src@.subrange(0, (i + 1) as int) =~= (old(out)@ + src@.subrange(
                0,
                i as int,
            )).push(src@[i as int]));
        }
        i = i + 1;
    }
    proof {
        assert(src@.subrange(0, src@.len() as int) =~= src@);
    }
}

/// Write the record of a well-formed state.
pub fn encode_state(s: &AlliumDState) -> (v: Vec<u8>)
    requires
        s.wf(),
    ensures
        v@ == spec_encode(*s),
        v@.len() == 56,
{
    let mut v: Vec<u8> = Vec::new();
    v.push(123);
    v.push(34);
    v.push(116);
    v.push(105);
    v.push(109);
    v.push(101);
    v.push(34);
    v.push(58);
    v.push(34);
    proof {
        assert(v@ =~= lit_time());
    }
    let digits = encode_digits(s.time as u64, 12);
    push_all(&mut v, &digits);
    proof {
        assert(s.time as u64 as int == s.time as int);
    }
    v.push(34);
    v.push(44);
    v.push(34);
    v.push(118);
    v.push(111);
    v.push(108);
    v.push(117);
    v.push(109);
    v.push(101);
    v.push(34);
    v.push(58);
    v.push(34);
    proof {
        assert(v@ =~= lit_time() + spec_digits(s.time as int, 12) + lit_volume());
    }
    let digits = encode_digits(s.volume as u64, 2);
    push_all(&mut v, &digits);
    proof {
        assert(s.volume as u64 as int == s.volume as int);
    }
    v.push(34);
    v.push(44);
    v.push(34);
    v.push(98);
    v.push(114);
    v.push(105);
    v.push(103);
    v.push(104);
    v.push(116);
    v.push(110);
    v.push(101);
    v.push(115);
    v.push(115);
    v.push(34);
    v.push(58);
    v.push(34);
    proof {
        assert(v@ =~= lit_time() + spec_digits(s.time as int, 12) + lit_volume() + spec_digits(
            s.volume as int,
            2,
        ) + lit_brightness());
    }
    let digits = encode_digits(s.brightness as u64, 3);
    push_all(&mut v, &digits);
    proof {
        assert(s.brightness as u64 as int == s.brightness as int);
    }
    v.push(34);
    v.push(125);
    proof {
        assert(v@ =~= spec_encode(*s));
        lemma_encode_layout(*s);
    }
    v
}

/// Read a fixed-width decimal field; `None` exactly when a byte in the field
/// is not a digit.
fn parse_field(data: &Vec<u8>, start: usize, width: usize) -> (r: Option<u64>)
    requires
        start + width <= data@.len(),
        width <= 12,
    ensures
        match r {
            Option::Some(n) => {
                &&& forall|i: int| start <= i < start + width ==> is_digit(#[trigger] data@[i])
                &&& n == seq_num(data@.subrange(start as int, (start + width) as int))
                &&& 0 <= n < pow10(width as nat)
            },
            Option::None => exists|i: int|
                start <= i < start + width && !is_digit(#[trigger] data@[i]),
        },
{
    proof {
        reveal_with_fuel(pow10, 13);
    }
    let dlen = data.len();
    let mut acc: u64 = 0;
    let mut k: usize = 0;
    while k < width
        invariant
            k <= width,
            width <= 12,
            start + width <= data@.len(),
            start + width <= usize::MAX,
            forall|i: int| start <= i < start + k ==> is_digit(#[trigger] data@[i]),
            acc == seq_num(data@.subrange(start as int, (start + k) as int)),
            0 <= acc < pow10(k as nat),
            pow10(12) == 1_000_000_000_000int,
        decreases width - k,
    {
        let b = data[start + k];
        if b < 48 || b > 57 {
            return Option::None;
        }
        proof {
            lemma_pow10_mono(k as nat, 12);
            let pre = data@.subrange(start as int, (start + k) as int);
            let post = data@.subrange(start as int, (start + k + 1) as int);
            assert(post.drop_last() =~= pre);
            assert(post.last() == data@[(start + k) as int]);
            assert(pow10((k + 1) as nat) == 10 * pow10(k as nat));
        }
        acc = acc * 10 + ((b - 48) as u64);
        k = k + 1;
    }
    proof {
        lemma_pow10_mono(width as nat, 12);
    }
    Option::Some(acc)
}

/// Decide byte-for-byte equality of two buffers.
fn bytes_eq(a: &Vec<u8>, b: &Vec<u8>) -> (r: bool)
    ensures
        r == (a@ == b@),
{
    if a.len() != b.len() {
        return false;
    }
    let mut i: usize = 0;
    while i < a.len()
        invariant
            a@.len() == b@.len(),
            i <= a@.len(),
            forall|j: int| 0 <= j < i ==> a@[j] == b@[j],
        decreases a@.len() - i,
    {
        if a[i] != b[i] {
            return false;
        }
        i = i + 1;
    }
    proof {
        assert(a@ =~= b@);
    }
    true
}

/// Parse a record. Returns the well-formed state whose record `data` is, and
/// `None` exactly when `data` is the record of no well-formed state — the
/// operational meaning of a corrupt or foreign file.
pub fn parse_state(data: &Vec<u8>) -> (r: Option<AlliumDState>)
    ensures
        match r {
            Option::Some(s) => s.wf() && data@ == spec_encode(s),
            Option::None => forall|s: AlliumDState| s.wf() ==> data@ != spec_encode(s),
        },
{
    if data.len() != STATE_RECORD_LEN {
        proof {
            assert forall|s: AlliumDState| s.wf() implies data@ != spec_encode(s) by {
                lemma_encode_layout(s);
            }
        }
        return Option::None;
    }
    let t = match parse_field(data, 9, 12) {
        Option::Some(t) => t,
        Option::None => {
            proof {
                assert forall|s: AlliumDState| s.wf() implies data@ != spec_encode(s) by {
                    if data@ == spec_encode(s) {
                        lemma_encode_layout(s);
                        lemma_digits_are_digits(s.time as int, 12);
                        assert forall|i: int| 9 <= i < 21 implies is_digit(#[trigger] data@[i]) by {
                            assert(data@[i] == spec_encode(s).subrange(9, 21)[i - 9]);
                        }
                    }
                }
            }
            return Option::None;
        },
    };
    let vol = match parse_field(data, 33, 2) {
        Option::Some(v) => v,
        Option::None => {
            proof {
                assert forall|s: AlliumDState| s.wf() implies data@ != spec_encode(s) by {
                    if data@ == spec_encode(s) {
                        lemma_encode_layout(s);
                        lemma_digits_are_digits(s.volume as int, 2);
                        assert forall|i: int| 33 <= i < 35 implies is_digit(#[trigger] data@[i]) by {
                            assert(data@[i] == spec_encode(s).subrange(33, 35)[i - 33]);
                        }
                    }
                }
            }
            return Option::None;
        },
    };
    let bri = match parse_field(data, 51, 3) {
        Option::Some(b) => b,
        Option::None => {
            proof {
                assert forall|s: AlliumDState| s.wf() implies data@ != spec_encode(s) by {
                    if data@ == spec_encode(s) {
                        lemma_encode_layout(s);
                        lemma_digits_are_digits(s.brightness as int, 3);
                        assert forall|i: int| 51 <= i < 54 implies is_digit(#[trigger] data@[i]) by {
                            assert(data@[i] == spec_encode(s).subrange(51, 54)[i - 51]);
                        }
                    }
                }
            }
            return Option::None;
        },
    };
    if t > (MAX_TIMESTAMP as u64) || vol > 20 || bri > 100 {
        proof {
            assert forall|s: AlliumDState| s.wf() implies data@ != spec_encode(s) by {
                if data@ == spec_encode(s) {
                    lemma_encode_values(s);
                }
            }
        }
        return Option::None;
    }
    let candidate = AlliumDState { time: t as i64, volume: vol as i32, brightness: bri as u8 };
    let canon = encode_state(&candidate);
    if bytes_eq(data, &canon) {
        Option::Some(candidate)
    } else {
        proof {
            assert forall|s: AlliumDState| s.wf() implies data@ != spec_encode(s) by {
                if data@ == spec_encode(s) {
                    lemma_encode_values(s);
                    assert(s.time == t as i64);
                    assert(s.volume == vol as i32);
                    assert(s.brightness == bri as u8);
                    assert(s == candidate);
                }
            }
        }
        Option::None
    }
}

} // verus!
