use vstd::prelude::*;
use vstd::string::*;

verus! {

// ---------------------------------------------------------------------------
// Characters and decimal digits
// ---------------------------------------------------------------------------

/// Relies on char::from_u32: for every Unicode scalar value (below 0x110000
/// and outside the surrogate range) it returns Some of the char with exactly
/// that value.
#[verifier::external_body]
pub(crate) fn char_from_scalar(v: u32) -> (c: char)
    requires
        v < 0xD800 || (0xE000 <= v && v < 0x110000),
    ensures
        c == (v as char),
{
    char::from_u32(v).unwrap()
}

/// Relies on String::push: appends exactly one character.
#[verifier::external_body]
pub(crate) fn push_char(s: &mut String, c: char)
    ensures
        final(s)@ == old(s)@.push(c),
{
    s.push(c);
}

/// The character for the decimal digit `d`.
pub open spec fn digit_char(d: int) -> char {
    ((0x30 + d) as u32) as char
}

/// The decimal representation of `n`, most significant digit first,
/// without leading zeros (a single '0' for zero itself).
pub open spec fn decimal_digits(n: int) -> Seq<char>
    decreases n,
{
    if n < 10 {
        seq![digit_char(n)]
    } else {
        decimal_digits(n / 10).push(digit_char(n % 10))
    }
}

/// The character for the decimal digit `d`.
pub fn digit_to_char(d: u64) -> (c: char)
    requires
        d < 10,
    ensures
        c == digit_char(d as int),
{
    char_from_scalar(0x30 + (d as u32))
}

/// Appends the decimal representation of `n` to `out`.
pub fn push_decimal(out: &mut String, n: u64)
    ensures
        final(out)@ == old(out)@ + decimal_digits(n as int),
    decreases n,
{
    if n >= 10 {
        push_decimal(out, n / 10);
    }
    let d: u64 = n % 10;
    let c: char = digit_to_char(d);
    push_char(out, c);
    proof {
        if n < 10 {
            assert(old(out)@ + decimal_digits(n as int) =~= old(out)@.push(c));
        } else {
            assert(old(out)@ + decimal_digits(n as int) =~= (old(out)@ + decimal_digits(
                n as int / 10,
            )).push(c));
        }
    }
}

/// Every character of a decimal representation is one of the ten digit
/// characters '0' through '9', and there is at least one of them.
pub proof fn lemma_decimal_digits_form(n: int)
    requires
        n >= 0,
    ensures
        decimal_digits(n).len() >= 1,
        forall|i: int|
            0 <= i < decimal_digits(n).len() ==> 0x30 <= (#[trigger] decimal_digits(n)[i]) as int
                <= 0x39,
    decreases n,
{
    if n < 10 {
        assert(decimal_digits(n)[0] == digit_char(n));
        assert(digit_char(n) as int == 0x30 + n);
    } else {
        lemma_decimal_digits_form(n / 10);
        assert(digit_char(n % 10) as int == 0x30 + n % 10);
        assert forall|i: int| 0 <= i < decimal_digits(n).len() implies 0x30 <= (
        #[trigger] decimal_digits(n)[i]) as int <= 0x39 by {
            if i < decimal_digits(n / 10).len() {
                assert(decimal_digits(n)[i] == decimal_digits(n / 10)[i]);
            } else {
                assert(decimal_digits(n)[i] == digit_char(n % 10));
            }
        }
    }
}

// ---------------------------------------------------------------------------
// Substring search
// ---------------------------------------------------------------------------

/// `needle` occurs as a contiguous run of characters inside `hay`.
pub open spec fn has_substring(hay: Seq<char>, needle: Seq<char>) -> bool {
    exists|i: int|
        0 <= i && i + needle.len() <= hay.len() && #[trigger] hay.subrange(
            i,
            i + needle.len() as int,
        ) == needle
}

/// Whether `needle`, read from position `i`, matches `hay` character by
/// character.
fn match_at(hay: &str, needle: &str, i: usize) -> (b: bool)
    requires
        i + needle@.len() <= hay@.len(),
    ensures
        b == (hay@.subrange(i as int, i + needle@.len() as int) == needle@),
{
    let n: usize = hay.unicode_len();
    let m: usize = needle.unicode_len();
    let mut j: usize = 0;
    while j < m
        invariant
            j <= m,
            i + m <= n,
            n == hay@.len(),
            m == needle@.len(),
            forall|l: int| 0 <= l < j ==> hay@[i + l] == needle@[l],
        decreases m - j,
    {
        if hay.get_char(i + j) != needle.get_char(j) {
            proof {
                assert(hay@.subrange(i as int, i + m as int)[j as int] != needle@[j as int]);
            }
            return false;
        }
        j += 1;
    }
    proof {
        assert(hay@.subrange(i as int, i + m as int) =~= needle@);
    }
    true
}

/// Whether `needle` occurs anywhere inside `hay`.
pub fn str_contains(hay: &str, needle: &str) -> (b: bool)
    ensures
        b == has_substring(hay@, needle@),
{
    let n: usize = hay.unicode_len();
    let m: usize = needle.unicode_len();
    if m == 0 {
        proof {
            assert(hay@.subrange(0, 0 + needle@.len() as int) =~= needle@);
        }
        return true;
    }
    if m > n {
        return false;
    }
    let mut i: usize = 0;
    while i <= n - m
        invariant
            1 <= m <= n,
            n == hay@.len(),
            m == needle@.len(),
            i <= n - m + 1,
            forall|k: int|
                0 <= k < i ==> #[trigger] hay@.subrange(k, k + m as int) != needle@,
        decreases n - i,
    {
        if match_at(hay, needle, i) {
            return true;
        }
        i += 1;
    }
    false
}

// ---------------------------------------------------------------------------
// File names and extensions
// ---------------------------------------------------------------------------

/// A path separator; the platform accepts both forms.
pub open spec fn is_separator(c: char) -> bool {
    c == '\\' || c == '/'
}

/// Whether `c` is a path separator.
pub fn is_separator_char(c: char) -> (b: bool)
    ensures
        b == is_separator(c),
{
    c == '\\' || c == '/'
}

/// The final path component: the characters after the last separator
/// (empty when the path is empty or ends with a separator).
pub open spec fn file_name_of(path: Seq<char>) -> Seq<char>
    decreases path.len(),
{
    if path.len() == 0 || is_separator(path[path.len() - 1]) {
        Seq::<char>::empty()
    } else {
        file_name_of(path.drop_last()).push(path[path.len() - 1])
    }
}

/// The path's final component carries a file extension: it is not the
/// parent-directory component ".." and holds a '.' after its first
/// character position.
pub open spec fn has_extension(path: Seq<char>) -> bool {
    let name = file_name_of(path);
    name != seq!['.', '.'] && exists|i: int| 0 < i < name.len() && #[trigger] name[i] == '.'
}

/// When no separator occurs at or after position `k` and `k` either starts
/// the path or follows a separator, the final component is exactly the
/// suffix from `k`.
pub proof fn lemma_file_name_suffix(path: Seq<char>, k: int)
    requires
        0 <= k <= path.len(),
        forall|j: int| k <= j < path.len() ==> !is_separator(#[trigger] path[j]),
        k == 0 || is_separator(path[k - 1]),
    ensures
        file_name_of(path) == path.subrange(k, path.len() as int),
    decreases path.len() - k,
{
    if k == path.len() {
        assert(path.subrange(k, path.len() as int) =~= Seq::<char>::empty());
    } else {
        let prefix = path.drop_last();
        assert(!is_separator(path[path.len() - 1]));
        lemma_file_name_suffix(prefix, k);
        assert(file_name_of(path) =~= path.subrange(k, path.len() as int));
    }
}

/// Whether the path's final component carries a file extension.
pub fn path_has_extension(path: &str) -> (b: bool)
    ensures
        b == has_extension(path@),
{
    let n: usize = path.unicode_len();
    // Find the start of the final component.
    let mut k: usize = n;
    let mut found: bool = false;
    while !found && k > 0
        invariant
            k <= n,
            n == path@.len(),
            forall|j: int| k <= j < n ==> !is_separator(#[trigger] path@[j]),
            found ==> k >= 1 && is_separator(path@[k - 1]),
        decreases 2 * k + (if found {
            0int
        } else {
            1int
        }),
    {
        if is_separator_char(path.get_char(k - 1)) {
            found = true;
        } else {
            k -= 1;
        }
    }
    proof {
        lemma_file_name_suffix(path@, k as int);
    }
    let ghost name = file_name_of(path@);
    if n == k {
        proof {
            assert(name =~= Seq::<char>::empty());
        }
        return false;
    }
    if n - k == 2 && path.get_char(k) == '.' && path.get_char(k + 1) == '.' {
        proof {
            assert(name =~= seq!['.', '.']);
        }
        return false;
    }
    proof {
        assert(name[0] == path@[k as int]);
        if name =~= seq!['.', '.'] {
            assert(n - k == 2 && path@[k as int] == '.' && path@[k + 1] == '.');
        }
    }
    let mut a: usize = k + 1;
    let mut has_dot: bool = false;
    while a < n
        invariant
            k < a <= n,
            n == path@.len(),
            name == path@.subrange(k as int, n as int),
            has_dot == exists|i: int| k < i < a && #[trigger] path@[i] == '.',
        decreases n - a,
    {
        if path.get_char(a) == '.' {
            has_dot = true;
        }
        a += 1;
    }
    proof {
        if has_dot {
            let i = choose|i: int| k < i < n && #[trigger] path@[i] == '.';
            assert(name[i - k] == '.');
            assert(0 < i - k < name.len());
        }
        if exists|i: int| 0 < i < name.len() && #[trigger] name[i] == '.' {
            let i = choose|i: int| 0 < i < name.len() && #[trigger] name[i] == '.';
            assert(path@[k + i] == '.');
        }
    }
    has_dot
}

} // verus!
