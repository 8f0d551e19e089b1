use crate::text::{char_from_scalar, push_char};
use vstd::prelude::*;

verus! {

/// A code unit that encodes a character on its own (not a surrogate).
pub open spec fn is_bmp_unit(u: u16) -> bool {
    u < 0xD800 || 0xE000 <= u
}

/// The first unit of a surrogate pair.
pub open spec fn is_high_surrogate(u: u16) -> bool {
    0xD800 <= u < 0xDC00
}

/// The second unit of a surrogate pair.
pub open spec fn is_low_surrogate(u: u16) -> bool {
    0xDC00 <= u < 0xE000
}

/// The Unicode scalar value a surrogate pair encodes.
pub open spec fn pair_scalar(hi: u16, lo: u16) -> int {
    0x10000 + (hi - 0xD800) * 0x400 + (lo - 0xDC00)
}

/// The units form a valid UTF-16 encoding: every high surrogate is followed
/// by a low surrogate, and no low surrogate stands alone.
pub open spec fn utf16_valid(units: Seq<u16>) -> bool
    decreases units.len(),
{
    if units.len() == 0 {
        true
    } else if is_bmp_unit(units[0]) {
        utf16_valid(units.skip(1))
    } else if is_high_surrogate(units[0]) {
        units.len() >= 2 && is_low_surrogate(units[1]) && utf16_valid(units.skip(2))
    } else {
        false
    }
}

/// The characters a valid UTF-16 unit sequence encodes.
pub open spec fn utf16_decode(units: Seq<u16>) -> Seq<char>
    decreases units.len(),
{
    if units.len() == 0 {
        Seq::<char>::empty()
    } else if is_bmp_unit(units[0]) {
        seq![(units[0] as u32) as char] + utf16_decode(units.skip(1))
    } else if is_high_surrogate(units[0]) && units.len() >= 2 {
        seq![(pair_scalar(units[0], units[1]) as u32) as char] + utf16_decode(units.skip(2))
    } else {
        Seq::<char>::empty()
    }
}

/// Splitting a unit sequence after a fully valid prefix splits its
/// validity and its decoding.
pub proof fn lemma_utf16_concat(a: Seq<u16>, b: Seq<u16>)
    requires
        utf16_valid(a),
    ensures
        utf16_valid(a + b) == utf16_valid(b),
        utf16_valid(b) ==> utf16_decode(a + b) == utf16_decode(a) + utf16_decode(b),
    decreases a.len(),
{
    if a.len() == 0 {
        assert(a + b =~= b);
        if utf16_valid(b) {
            assert(utf16_decode(a) + utf16_decode(b) =~= utf16_decode(b));
        }
    } else if is_bmp_unit(a[0]) {
        let rest = a.skip(1);
        assert((a + b).skip(1) =~= rest + b);
        lemma_utf16_concat(rest, b);
        if utf16_valid(b) {
            assert(utf16_decode(a + b) =~= utf16_decode(a) + utf16_decode(b));
        }
    } else {
        let rest = a.skip(2);
        assert((a + b).skip(2) =~= rest + b);
        lemma_utf16_concat(rest, b);
        if utf16_valid(b) {
            assert(utf16_decode(a + b) =~= utf16_decode(a) + utf16_decode(b));
        }
    }
}

/// Decodes a UTF-16 unit sequence, `None` when it is not valid UTF-16.
pub fn decode_utf16_units(units: &[u16]) -> (r: Option<String>)
    ensures
        match r {
            Some(s) => utf16_valid(units@) && s@ == utf16_decode(units@),
            None => !utf16_valid(units@),
        },
{
    let n: usize = units.len();
    let mut out: String = String::new();
    let mut i: usize = 0;
    while i < n
        invariant
            i <= n,
            n == units@.len(),
            utf16_valid(units@.take(i as int)),
            out@ == utf16_decode(units@.take(i as int)),
        decreases n - i,
    {
        let ghost prefix = units@.take(i as int);
        let ghost suffix = units@.skip(i as int);
        proof {
            assert(units@ =~= prefix + suffix);
        }
        let u: u16 = units[i];
        if u < 0xD800 || u >= 0xE000 {
            let c: char = char_from_scalar(u as u32);
            push_char(&mut out, c);
            proof {
                let step = seq![u];
                assert(utf16_valid(Seq::<u16>::empty()));
                assert(utf16_decode(Seq::<u16>::empty()) =~= Seq::<char>::empty());
                assert(step.skip(1) =~= Seq::<u16>::empty());
                assert(utf16_valid(step));
                assert(utf16_decode(step) =~= seq![c]);
                lemma_utf16_concat(prefix, step);
                assert(units@.take(i + 1) =~= prefix + step);
                assert(out@ =~= utf16_decode(units@.take(i + 1)));
            }
            i += 1;
        } else if u < 0xDC00 {
            if i + 1 < n {
                let v: u16 = units[i + 1];
                if 0xDC00 <= v && v < 0xE000 {
                    let scalar: u32 = 0x10000 + ((u as u32) - 0xD800) * 0x400 + ((v as u32)
                        - 0xDC00);
                    let c: char = char_from_scalar(scalar);
                    push_char(&mut out, c);
                    proof {
                        let step = seq![u, v];
                        assert(utf16_valid(Seq::<u16>::empty()));
                        assert(utf16_decode(Seq::<u16>::empty()) =~= Seq::<char>::empty());
                        assert(step.skip(2) =~= Seq::<u16>::empty());
                        assert(utf16_valid(step));
                        assert(scalar == pair_scalar(u, v));
                        assert(utf16_decode(step) =~= seq![c]);
                        lemma_utf16_concat(prefix, step);
                        assert(units@.take(i + 2) =~= prefix + step);
                        assert(out@ =~= utf16_decode(units@.take(i + 2)));
                    }
                    i += 2;
                } else {
                    proof {
                        lemma_utf16_concat(prefix, suffix);
                        assert(suffix[0] == u && suffix[1] == v);
                        assert(!utf16_valid(suffix));
                    }
                    return None;
                }
            } else {
                proof {
                    lemma_utf16_concat(prefix, suffix);
                    assert(suffix.len() == 1 && suffix[0] == u);
                    assert(!utf16_valid(suffix));
                }
                return None;
            }
        } else {
            proof {
                lemma_utf16_concat(prefix, suffix);
                assert(suffix[0] == u);
                assert(!utf16_valid(suffix));
            }
            return None;
        }
    }
    proof {
        assert(units@.take(n as int) =~= units@);
    }
    Some(out)
}

} // verus!
