//! Verified character-level string helpers.
//!
//! Tensor names, operation names and file names are compared and searched
//! character by character, so every use has an exact contract over the
//! strings' character sequences.

use vstd::prelude::*;

use vstd::string::StrSliceExecFns;

verus! {

/// Character-for-character equality of two string slices.
pub fn str_eq(a: &str, b: &str) -> (r: bool)
    ensures
        r == (a@ == b@),
{
    let la = a.unicode_len();
    let lb = b.unicode_len();
    if la != lb {
        return false;
    }
    let mut i: usize = 0;
    while i < la
        invariant
            i <= la,
            la == a@.len(),
            la == b@.len(),
            forall|j: int| 0 <= j < i ==> a@[j] == b@[j],
        decreases la - i,
    {
        if a.get_char(i) != b.get_char(i) {
            return false;
        }
        i = i + 1;
    }
    proof {
        assert(a@ =~= b@);
    }
    true
}

/// Character-for-character equality of two strings.
pub fn string_eq(a: &String, b: &String) -> (r: bool)
    ensures
        r == (a@ == b@),
{
    str_eq(a.as_str(), b.as_str())
}

/// Whether `hay` starts with `prefix`, character for character.
pub fn starts_with_str(hay: &str, prefix: &str) -> (r: bool)
    ensures
        r == (hay@.len() >= prefix@.len() && hay@.subrange(0, prefix@.len() as int) == prefix@),
{
    let lh = hay.unicode_len();
    let lp = prefix.unicode_len();
    if lh < lp {
        return false;
    }
    let mut i: usize = 0;
    while i < lp
        invariant
            i <= lp,
            lp == prefix@.len(),
            lh == hay@.len(),
            lp <= lh,
            forall|j: int| 0 <= j < i ==> hay@[j] == prefix@[j],
        decreases lp - i,
    {
        if hay.get_char(i) != prefix.get_char(i) {
            proof {
                assert(hay@.subrange(0, lp as int)[i as int] == hay@[i as int]);
            }
            return false;
        }
        i = i + 1;
    }
    proof {
        assert(hay@.subrange(0, lp as int) =~= prefix@);
    }
    true
}

/// Whether `needle` occurs in `hay` as a contiguous run of characters.
pub open spec fn spec_contains_str(hay: Seq<char>, needle: Seq<char>) -> bool {
    exists|k: int|
        0 <= k <= hay.len() - needle.len() && #[trigger] hay.subrange(k, k + needle.len() as int)
            == needle
}

/// Searches `hay` for `needle` as a contiguous run of characters.
pub fn contains_str(hay: &str, needle: &str) -> (r: bool)
    ensures
        r == spec_contains_str(hay@, needle@),
{
    let lh = hay.unicode_len();
    let ln = needle.unicode_len();
    if ln > lh {
        return false;
    }
    let mut k: usize = 0;
    while k <= lh - ln
        invariant
            0 <= k <= lh - ln + 1,
            ln <= lh,
            lh == hay@.len(),
            ln == needle@.len(),
            forall|p: int|
                0 <= p < k ==> #[trigger] hay@.subrange(p, p + needle@.len() as int) != needle@,
        decreases lh - ln + 1 - k,
    {
        let mut i: usize = 0;
        let mut matches = true;
        while i < ln
            invariant
                i <= ln,
                ln <= lh,
                k <= lh - ln,
                lh == hay@.len(),
                ln == needle@.len(),
                matches == (forall|j: int| 0 <= j < i ==> hay@[k + j] == needle@[j]),
            decreases ln - i,
        {
            if hay.get_char(k + i) != needle.get_char(i) {
                proof {
                    assert(!(forall|j: int| 0 <= j < i + 1 ==> hay@[k + j] == needle@[j]));
                }
                matches = false;
                i = ln;
            } else {
                i = i + 1;
            }
        }
        if matches {
            proof {
                assert(hay@.subrange(k as int, k + needle@.len() as int) =~= needle@);
            }
            return true;
        }
        proof {
            assert(hay@.subrange(k as int, k + needle@.len() as int) != needle@) by {
                if hay@.subrange(k as int, k + needle@.len() as int) == needle@ {
                    assert(forall|j: int|
                        0 <= j < ln ==> hay@[k + j] == #[trigger] hay@.subrange(
                            k as int,
                            k + needle@.len() as int,
                        )[j]);
                }
            }
        }
        k = k + 1;
    }
    proof {
        assert forall|p: int| 0 <= p <= lh - ln implies #[trigger] hay@.subrange(
            p,
            p + needle@.len() as int,
        ) != needle@ by {}
    }
    false
}

/// One past the position of the last dot in `s`, or zero when `s` holds no
/// dot: where a file name's extension starts.
pub open spec fn spec_ext_start(s: Seq<char>) -> int
    decreases s.len(),
{
    if s.len() == 0 {
        0
    } else if s.last() == '.' {
        s.len() as int
    } else {
        spec_ext_start(s.drop_last())
    }
}

/// Where the extension starts never lies beyond the string's end.
pub proof fn lemma_ext_start_le_len(s: Seq<char>)
    ensures
        0 <= spec_ext_start(s) <= s.len(),
    decreases s.len(),
{
    if s.len() > 0 && s.last() != '.' {
        lemma_ext_start_le_len(s.drop_last());
    }
}

/// The characters after the last dot of `s`; all of `s` when it holds no
/// dot, empty when it ends with a dot.
pub fn file_extension<'a>(s: &'a str) -> (r: &'a str)
    ensures
        r@ == s@.subrange(spec_ext_start(s@), s@.len() as int),
{
    let len = s.unicode_len();
    let mut i: usize = len;
    proof {
        assert(s@.take(len as int) =~= s@);
    }
    while i > 0
        invariant
            i <= len,
            len == s@.len(),
            spec_ext_start(s@) == spec_ext_start(s@.take(i as int)),
        decreases i,
    {
        proof {
            assert(s@.take(i as int).drop_last() =~= s@.take(i - 1));
            assert(s@.take(i as int).last() == s@[i - 1]);
        }
        if s.get_char(i - 1) == '.' {
            return s.substring_char(i, len);
        }
        i = i - 1;
    }
    proof {
        assert(s@.take(0) =~= Seq::<char>::empty());
    }
    s.substring_char(0, len)
}

/// The character's code with an ASCII capital letter folded to lower case.
pub open spec fn lower_code(c: char) -> int {
    if 65 <= c as int <= 90 {
        c as int + 32
    } else {
        c as int
    }
}

/// Equality of two character sequences up to ASCII case.
pub open spec fn eq_ignore_case(a: Seq<char>, b: Seq<char>) -> bool {
    a.len() == b.len() && forall|i: int| 0 <= i < a.len() ==> lower_code(a[i]) == lower_code(#[trigger] b[i])
}

/// Compares two string slices up to ASCII case.
pub fn str_eq_ignore_case(a: &str, b: &str) -> (r: bool)
    ensures
        r == eq_ignore_case(a@, b@),
{
    let la = a.unicode_len();
    let lb = b.unicode_len();
    if la != lb {
        return false;
    }
    let mut i: usize = 0;
    while i < la
        invariant
            i <= la,
            la == a@.len(),
            la == b@.len(),
            forall|j: int| 0 <= j < i ==> lower_code(a@[j]) == lower_code(#[trigger] b@[j]),
        decreases la - i,
    {
        let ua = a.get_char(i) as u32;
        let ub = b.get_char(i) as u32;
        let fa = if ua >= 65 && ua <= 90 {
            ua + 32
        } else {
            ua
        };
        let fb = if ub >= 65 && ub <= 90 {
            ub + 32
        } else {
            ub
        };
        if fa != fb {
            return false;
        }
        i = i + 1;
    }
    true
}


/// The character for one decimal digit.
pub open spec fn digit_char(d: int) -> char
    recommends
        0 <= d <= 9,
{
    ((48 + d) as u8) as char
}

/// The decimal numeral of `n`, most significant digit first.
pub open spec fn spec_decimal(n: int) -> Seq<char>
    recommends
        n >= 0,
    decreases n,
{
    if n < 10 {
        seq![digit_char(n)]
    } else {
        spec_decimal(n / 10).push(digit_char(n % 10))
    }
}

/// One decimal digit as a string slice.
fn digit_str(d: u64) -> (r: &'static str)
    requires
        d < 10,
    ensures
        r@ =~= seq![digit_char(d as int)],
{
    proof {
        reveal_strlit("0123456789");
    }
    let digits = "0123456789";
    proof {
        assert(digits@[0] == '0' && digits@[1] == '1' && digits@[2] == '2' && digits@[3] == '3'
            && digits@[4] == '4' && digits@[5] == '5' && digits@[6] == '6' && digits@[7] == '7'
            && digits@[8] == '8' && digits@[9] == '9');
        assert(digits.is_ascii()) by {
            assert(forall|i: int| #![auto] 0 <= i < 10 ==> (digits@[i] as int) < 128);
        }
    }
    digits.substring_ascii(d as usize, d as usize + 1)
}

/// Writes `n` in decimal.
pub fn u64_to_string(n: u64) -> (r: String)
    ensures
        r@ == spec_decimal(n as int),
    decreases n,
{
    if n < 10 {
        digit_str(n).to_owned()
    } else {
        let mut s = u64_to_string(n / 10);
        s.append(digit_str(n % 10));
        proof {
            assert(s@ =~= spec_decimal(n as int));
        }
        s
    }
}


} // verus!
