//! Recognizing the resize sentinel on the UI side.
use vstd::prelude::*;
use crate::script::{resize_sentinel, resize_sentinel_text, same_text};
use crate::text::{decimal, digit_char};

verus! {

/// Whether `c` is a decimal digit.
pub open spec fn is_digit(c: char) -> bool {
    48 <= (c as u32) <= 57
}

/// Value of the decimal digits `s`, most significant first.
pub open spec fn digits_value(s: Seq<char>) -> nat
    decreases s.len(),
{
    if s.len() == 0 {
        0
    } else {
        digits_value(s.drop_last()) * 10 + ((s.last() as u32) - 48) as nat
    }
}

proof fn lemma_digit_char(d: nat)
    requires
        d < 10,
    ensures
        is_digit(digit_char(d)),
        (digit_char(d) as u32) - 48 == d,
{
    let digits = seq!['0', '1', '2', '3', '4', '5', '6', '7', '8', '9'];
    assert(digit_char(d) == digits[d as int]);
    if d == 0 { assert(digits[0] == '0'); }
    else if d == 1 { assert(digits[1] == '1'); }
    else if d == 2 { assert(digits[2] == '2'); }
    else if d == 3 { assert(digits[3] == '3'); }
    else if d == 4 { assert(digits[4] == '4'); }
    else if d == 5 { assert(digits[5] == '5'); }
    else if d == 6 { assert(digits[6] == '6'); }
    else if d == 7 { assert(digits[7] == '7'); }
    else if d == 8 { assert(digits[8] == '8'); }
    else { assert(digits[9] == '9'); }
}

proof fn lemma_decimal_digits(n: nat)
    ensures
        decimal(n).len() >= 1,
        forall|i: int| 0 <= i < decimal(n).len() ==> is_digit(#[trigger] decimal(n)[i]),
        digits_value(decimal(n)) == n,
    decreases n,
{
    if n < 10 {
        lemma_digit_char(n);
        assert(decimal(n).drop_last() =~= Seq::<char>::empty());
        assert(decimal(n).last() == digit_char(n));
        assert(digits_value(decimal(n).drop_last()) == 0);
        assert(digits_value(decimal(n)) == digits_value(decimal(n).drop_last()) * 10 + ((
        decimal(n).last() as u32) - 48) as nat);
    } else {
        lemma_decimal_digits(n / 10);
        lemma_digit_char(n % 10);
        let d = decimal(n);
        assert(d.drop_last() =~= decimal(n / 10));
        assert(d.last() == digit_char(n % 10));
        assert((n / 10) * 10 + n % 10 == n);
        assert(digits_value(d) == digits_value(d.drop_last()) * 10 + ((d.last() as u32) - 48) as nat);
        assert forall|i: int| 0 <= i < d.len() implies is_digit(#[trigger] d[i]) by {
            if i < d.len() - 1 {
                assert(d[i] == decimal(n / 10)[i]);
            }
        }
    }
}

proof fn lemma_prefix_value_le(s: Seq<char>, k: int)
    requires
        0 <= k <= s.len(),
    ensures
        digits_value(s.subrange(0, k)) <= digits_value(s),
    decreases s.len(),
{
    if k < s.len() {
        let t = s.drop_last();
        lemma_prefix_value_le(t, k);
        assert(t.subrange(0, k) =~= s.subrange(0, k));
    } else {
        assert(s.subrange(0, k) =~= s);
    }
}

/// The value of the digits of `s` from `from` to `to`, when they are all
/// digits and the value fits in a `u32`.
fn parse_digits(s: &str, from: usize, to: usize) -> (r: Option<u32>)
    requires
        from <= to <= s@.len(),
    ensures
        r matches Some(v) ==> v as nat == digits_value(s@.subrange(from as int, to as int)),
        (forall|i: int| from <= i < to ==> is_digit(#[trigger] s@[i])) && digits_value(
            s@.subrange(from as int, to as int),
        ) <= u32::MAX ==> r is Some,
{
    let mut v: u64 = 0;
    let mut i: usize = from;
    while i < to
        invariant
            from <= i <= to <= s@.len(),
            v <= u32::MAX,
            v as nat == digits_value(s@.subrange(from as int, i as int)),
            forall|j: int| from <= j < i ==> is_digit(#[trigger] s@[j]),
        decreases to - i,
    {
        let c = s.get_char(i);
        let code = c as u32;
        if code < 48 || code > 57 {
            return None;
        }
        proof {
            let next = s@.subrange(from as int, i + 1);
            assert(next.drop_last() =~= s@.subrange(from as int, i as int));
            assert(next.last() == c);
            if (forall|j: int| from <= j < to ==> is_digit(#[trigger] s@[j])) {
                let whole = s@.subrange(from as int, to as int);
                lemma_prefix_value_le(whole, i + 1 - from);
                assert(whole.subrange(0, i + 1 - from) =~= next);
            }
        }
        v = v * 10 + (code - 48) as u64;
        if v > 4294967295 {
            return None;
        }
        i += 1;
    }
    Some(v as u32)
}

/// The size that `s` asks for, when `s` is exactly a resize sentinel.
pub fn parse_resize_sentinel(s: &str) -> (r: Option<(u32, u32)>)
    ensures
        r matches Some((w, h)) ==> s@ == resize_sentinel(w as nat, h as nat),
        forall|w: u32, h: u32| s@ == resize_sentinel(w as nat, h as nat) ==> r == Some((w, h)),
{
    let prefix = "__BRIDGE_RESIZE__";
    proof {
        reveal_strlit("__BRIDGE_RESIZE__");
        reveal_strlit("x");
        reveal_strlit("__");
    }
    // The prefix is 17 characters long; the shortest sentinel, with one
    // digit on each side of the `x`, is 22.
    let n = s.unicode_len();
    proof {
        assert forall|w0: u32, h0: u32| s@ == resize_sentinel(w0 as nat, h0 as nat) implies n >= 22
            && s@.subrange(0, 17) == prefix@ by {
            lemma_decimal_digits(w0 as nat);
            lemma_decimal_digits(h0 as nat);
            assert(s@.subrange(0, 17) =~= prefix@);
        }
    }
    if n < 22 {
        return None;
    }
    if !same_text(s.substring_char(0, 17), prefix) {
        return None;
    }
    let mut x: usize = 17;
    while x < n && s.get_char(x) != 'x'
        invariant
            17 <= x <= n,
            n == s@.len(),
            forall|j: int| 17 <= j < x ==> s@[j] != 'x',
        decreases n - x,
    {
        x += 1;
    }
    proof {
        assert forall|w0: u32, h0: u32| s@ == resize_sentinel(w0 as nat, h0 as nat) implies {
            &&& x + 3 <= n
            &&& s@.subrange(17, x as int) == decimal(w0 as nat)
            &&& s@.subrange(x + 1, n - 2) == decimal(h0 as nat)
            &&& digits_value(s@.subrange(17, x as int)) == w0
            &&& digits_value(s@.subrange(x + 1, n - 2)) == h0
            &&& forall|i: int| 17 <= i < x ==> is_digit(#[trigger] s@[i])
            &&& forall|i: int| x + 1 <= i < n - 2 ==> is_digit(#[trigger] s@[i])
        } by {
            let dw = decimal(w0 as nat);
            let dh = decimal(h0 as nat);
            lemma_decimal_digits(w0 as nat);
            lemma_decimal_digits(h0 as nat);
            let p: int = 17 + dw.len() as int;
            assert(s@[p] == 'x');
            assert forall|j: int| 17 <= j < p implies s@[j] != 'x' by {
                assert(s@[j] == dw[j - 17]);
                assert(is_digit(dw[j - 17]));
            }
            assert(x == p);
            assert(s@.subrange(17, x as int) =~= dw);
            assert(s@.subrange(x + 1, n - 2) =~= dh);
            assert forall|i: int| 17 <= i < x implies is_digit(#[trigger] s@[i]) by {
                assert(s@[i] == dw[i - 17]);
            }
            assert forall|i: int| x + 1 <= i < n - 2 implies is_digit(#[trigger] s@[i]) by {
                assert(s@[i] == dh[i - x - 1]);
            }
        }
    }
    if n - x < 3 {
        return None;
    }
    let w = match parse_digits(s, 17, x) {
        Some(w) => w,
        None => return None,
    };
    let h = match parse_digits(s, x + 1, n - 2) {
        Some(h) => h,
        None => return None,
    };
    let rebuilt = resize_sentinel_text(w, h);
    if same_text(s, rebuilt.as_str()) {
        Some((w, h))
    } else {
        None
    }
}

} // verus!
