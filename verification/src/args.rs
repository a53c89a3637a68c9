use vstd::prelude::*;

verus! {

use vstd::string::StringSliceAdditionalSpecFns;
use crate::object::Object;

/// The decimal digits of `n`, most significant first, as ASCII bytes.
pub open spec fn spec_digits_u8(n: nat) -> Seq<u8>
    decreases n,
{
    if n < 10 {
        seq![(48 + n) as u8]
    } else {
        spec_digits_u8(n / 10).push((48 + n % 10) as u8)
    }
}

/// The fractional digits of a three-decimal value `f` in `0..1000`, with
/// trailing zeros trimmed but at least one digit kept, exactly as a binary
/// float that holds the value would print.
pub open spec fn spec_frac_bytes(f: nat) -> Seq<u8> {
    let d1 = (48 + f / 100) as u8;
    let d2 = (48 + (f / 10) % 10) as u8;
    let d3 = (48 + f % 10) as u8;
    if f % 10 != 0 {
        seq![d1, d2, d3]
    } else if (f / 10) % 10 != 0 {
        seq![d1, d2]
    } else {
        seq![d1]
    }
}

/// The decimal rendering of the exact value `v / 1000`: optional sign,
/// integer digits, a point, and the trimmed fractional digits.
pub open spec fn spec_milli_bytes(v: int) -> Seq<u8> {
    let m = if v < 0 {
        -v
    } else {
        v
    };
    let sign: Seq<u8> = if v < 0 {
        seq![45u8]
    } else {
        Seq::empty()
    };
    sign + spec_digits_u8((m / 1000) as nat) + seq![46u8] + spec_frac_bytes((m % 1000) as nat)
}

/// Each backslash doubled, every other byte kept.
pub open spec fn spec_escape_bytes(s: Seq<u8>) -> Seq<u8>
    decreases s.len(),
{
    if s.len() == 0 {
        Seq::empty()
    } else {
        spec_escape_bytes(s.drop_last()) + (if s.last() == 92 {
            seq![92u8, 92u8]
        } else {
            seq![s.last()]
        })
    }
}

/// The positional argument passed to the slicer for one object: a JSON
/// fragment pairing the escaped source path with the object's model matrix
/// in row-major form, every entry an exact three-decimal number, and a
/// trailing space.
pub open spec fn spec_arg_bytes(path: Seq<u8>, s: int, tx: int, ty: int, tz: int) -> Seq<u8> {
    "{\"Raw\":[\"".spec_bytes() + spec_escape_bytes(path) + "\",[[".spec_bytes()
        + spec_milli_bytes(s) + ", 0.0, 0.0, ".spec_bytes() + spec_milli_bytes(tx) + "], [0.0, ".spec_bytes()
        + spec_milli_bytes(s) + ", 0.0, ".spec_bytes() + spec_milli_bytes(ty)
        + "], [0.0, 0.0, ".spec_bytes() + spec_milli_bytes(s) + ", ".spec_bytes()
        + spec_milli_bytes(tz) + "], [0.0, 0.0, 0.0, 1.0]]]} ".spec_bytes()
}

/// Append the UTF-8 bytes of `s`.
fn push_str_bytes(out: &mut Vec<u8>, s: &str)
    ensures
        final(out)@ == old(out)@ + s.spec_bytes(),
{
    let bs: &[u8] = s.as_bytes();
    let ghost orig = old(out)@;
    let mut i: usize = 0;
    while i < bs.len()
        invariant
            i <= bs@.len(),
            bs@ == s.spec_bytes(),
            out@ == orig + bs@.take(i as int),
        decreases bs@.len() - i,
    {
        let b = bs[i];
        out.push(b);
        proof {
            assert(bs@.take(i + 1) =~= bs@.take(i as int).push(bs@[i as int]));
            assert(orig + bs@.take(i as int).push(bs@[i as int]) =~= (orig + bs@.take(
                i as int,
            )).push(bs@[i as int]));
        }
        i += 1;
    }
    proof {
        assert(bs@.take(bs@.len() as int) =~= bs@);
    }
}

/// Append the UTF-8 bytes of `s` with every backslash doubled.
pub fn push_escaped_bytes(out: &mut Vec<u8>, s: &str)
    ensures
        final(out)@ == old(out)@ + spec_escape_bytes(s.spec_bytes()),
{
    let bs: &[u8] = s.as_bytes();
    let ghost orig = old(out)@;
    let mut i: usize = 0;
    while i < bs.len()
        invariant
            i <= bs@.len(),
            bs@ == s.spec_bytes(),
            out@ == orig + spec_escape_bytes(bs@.take(i as int)),
        decreases bs@.len() - i,
    {
        let b = bs[i];
        proof {
            assert(bs@.take(i + 1).drop_last() =~= bs@.take(i as int));
            assert(bs@.take(i + 1).last() == bs@[i as int]);
        }
        if b == 92 {
            out.push(92);
            out.push(92);
            proof {
                assert(orig + spec_escape_bytes(bs@.take(i + 1)) =~= (orig + spec_escape_bytes(
                    bs@.take(i as int),
                )).push(92u8).push(92u8));
            }
        } else {
            out.push(b);
            proof {
                assert(orig + spec_escape_bytes(bs@.take(i + 1)) =~= (orig + spec_escape_bytes(
                    bs@.take(i as int),
                )).push(b));
            }
        }
        i += 1;
    }
    proof {
        assert(bs@.take(bs@.len() as int) =~= bs@);
    }
}

/// Append the decimal digits of `n`.
fn push_digits(out: &mut Vec<u8>, n: u128)
    ensures
        final(out)@ == old(out)@ + spec_digits_u8(n as nat),
    decreases n,
{
    if n < 10 {
        out.push(48 + n as u8);
        proof {
            assert(old(out)@ + spec_digits_u8(n as nat) =~= old(out)@.push((48 + n) as u8));
        }
    } else {
        push_digits(out, n / 10);
        out.push(48 + (n % 10) as u8);
        proof {
            assert(old(out)@ + spec_digits_u8(n as nat) =~= (old(out)@ + spec_digits_u8(
                (n / 10) as nat,
            )).push((48 + n % 10) as u8));
        }
    }
}

/// Append the decimal rendering of the exact value `v / 1000`.
#[verifier::rlimit(60)]
fn push_milli(out: &mut Vec<u8>, v: i128)
    requires
        v > i128::MIN,
    ensures
        final(out)@ == old(out)@ + spec_milli_bytes(v as int),
{
    let ghost orig = old(out)@;
    let m: u128 = if v < 0 {
        out.push(45);
        (-v) as u128
    } else {
        v as u128
    };
    let ghost sign: Seq<u8> = if v < 0 {
        seq![45u8]
    } else {
        Seq::<u8>::empty()
    };
    proof {
        assert(out@ =~= orig + sign);
    }
    push_digits(out, m / 1000);
    out.push(46);
    proof {
        assert(out@ =~= orig + sign + spec_digits_u8((m / 1000) as nat) + seq![46u8]);
    }
    let f: u128 = m % 1000;
    let d1: u8 = 48 + (f / 100) as u8;
    let d2: u8 = 48 + ((f / 10) % 10) as u8;
    let d3: u8 = 48 + (f % 10) as u8;
    if f % 10 != 0 {
        out.push(d1);
        out.push(d2);
        out.push(d3);
        proof {
            assert(out@ =~= orig + sign + spec_digits_u8((m / 1000) as nat) + seq![46u8]
                + spec_frac_bytes((f % 1000) as nat));
        }
    } else if (f / 10) % 10 != 0 {
        out.push(d1);
        out.push(d2);
        proof {
            assert(out@ =~= orig + sign + spec_digits_u8((m / 1000) as nat) + seq![46u8]
                + spec_frac_bytes((f % 1000) as nat));
        }
    } else {
        out.push(d1);
        proof {
            assert(out@ =~= orig + sign + spec_digits_u8((m / 1000) as nat) + seq![46u8]
                + spec_frac_bytes((f % 1000) as nat));
        }
    }
    proof {
        assert(f % 1000 == f);
        assert(m as int == if v < 0 {
            -(v as int)
        } else {
            v as int
        });
    }
}

/// Build the slicer argument for one object.
pub fn build_arg(obj: &Object) -> (r: Vec<u8>)
    requires
        obj.wf(),
    ensures
        r@ == spec_arg_bytes(
            vstd::utf8::encode_utf8(obj.file_path@),
            obj.scale_milli as int,
            1000 * obj.location.x + obj.scale_milli * obj.default_offset.x,
            1000 * obj.location.y + obj.scale_milli * obj.default_offset.y,
            1000 * obj.location.z + obj.scale_milli * obj.default_offset.z,
        ),
{
    let mm = obj.get_model_matrix();
    let mut out: Vec<u8> = Vec::new();
    push_str_bytes(&mut out, "{\"Raw\":[\"");
    push_escaped_bytes(&mut out, obj.file_path.as_str());
    push_str_bytes(&mut out, "\",[[");
    push_milli(&mut out, mm.scale_milli as i128);
    push_str_bytes(&mut out, ", 0.0, 0.0, ");
    push_milli(&mut out, mm.tx_milli);
    push_str_bytes(&mut out, "], [0.0, ");
    push_milli(&mut out, mm.scale_milli as i128);
    push_str_bytes(&mut out, ", 0.0, ");
    push_milli(&mut out, mm.ty_milli);
    push_str_bytes(&mut out, "], [0.0, 0.0, ");
    push_milli(&mut out, mm.scale_milli as i128);
    push_str_bytes(&mut out, ", ");
    push_milli(&mut out, mm.tz_milli);
    push_str_bytes(&mut out, "], [0.0, 0.0, 0.0, 1.0]]]} ");
    out
}

} // verus!
