//! Numbers and their texts.

use crate::text::{self, decimal, is_digit, signed_decimal, value_of};
use vstd::prelude::*;

verus! {

/// The digit that a character is, where it is one.
pub open spec fn digit_of(c: char) -> Option<int> {
    if '0' <= c && c <= '9' {
        Some(c as int - '0' as int)
    } else {
        None
    }
}

/// A number's text is its digits, the last of them the number's ones, without a zero in
/// front.
pub proof fn a_number_is_written_in_decimal(n: nat)
    ensures
        decimal(n).len() > 0,
        digit_of(decimal(n).last()) == Some((n % 10) as int),
        n < 10 ==> decimal(n).len() == 1,
        n >= 10 ==> decimal(n).drop_last() == decimal(n / 10),
        n > 0 ==> decimal(n)[0] != '0',
    decreases n,
{
    if n >= 10 {
        a_number_is_written_in_decimal(n / 10);
        assert(decimal(n).drop_last() =~= decimal(n / 10));
        assert(decimal(n)[0] == decimal(n / 10)[0]);
    }
}

/// What is written of a number is its decimal text, a negative one after a minus.
pub proof fn numbers_are_written_out(n: u64, i: i32, width: usize, r: (String, String, String))
    requires
        call_ensures(text::u64_text, (n,), r.0),
        call_ensures(text::i32_text, (i,), r.1),
        call_ensures(text::padded_text, (n, width), r.2),
    ensures
        r.0@ == decimal(n as nat),
        i >= 0 ==> r.1@ == decimal(i as nat),
        i < 0 ==> r.1@ == seq!['-'] + decimal((-i) as nat),
        r.0@.len() >= width ==> r.2@ == r.0@,
        r.0@.len() < width ==> {
            &&& r.2@.len() == width
            &&& r.2@.skip(width - r.0@.len()) == r.0@
            &&& forall|k: int| 0 <= k < width - r.0@.len() ==> #[trigger] r.2@[k] == '0'
        },
{
    if r.0@.len() < width {
        assert(r.2@.skip(width - r.0@.len()) =~= r.0@);
    }
}

proof fn digits_of_decimal(n: nat)
    ensures
        value_of(decimal(n)) == n,
        forall|i: int| 0 <= i < decimal(n).len() ==> is_digit(#[trigger] decimal(n)[i]),
        decimal(n).len() > 0,
    decreases n,
{
    reveal_with_fuel(value_of, 2);
    if n < 10 {
        assert(decimal(n).drop_last() =~= Seq::<char>::empty());
    } else {
        digits_of_decimal(n / 10);
        assert(decimal(n).drop_last() =~= decimal(n / 10));
    }
}

/// A number that is written, with a sign or without, is read back.
pub proof fn written_numbers_are_read_back(n: i64, s: &str, r: Option<i64>)
    requires
        call_ensures(text::i64_of, (s,), r),
        s@ == signed_decimal(n as int) || (n >= 0 && s@ == seq!['+'] + decimal(n as nat)),
    ensures
        r == Some(n),
{
    let m: nat = if n < 0 {
        (-n) as nat
    } else {
        n as nat
    };
    digits_of_decimal(m);
    let d = decimal(m);
    assert(is_digit(d[0]));
    if s@ == seq!['+'] + d {
        assert(s@.skip(1) =~= d);
    } else if n < 0 {
        assert(s@.skip(1) =~= d);
    }
}

/// A longer run of digits is ten times the number and the new digit; anything else behind
/// a number makes it none.
pub proof fn digits_are_read_one_by_one(s: &str, t: &str, r: Option<i64>, u: Option<i64>)
    requires
        call_ensures(text::i64_of, (s,), r),
        call_ensures(text::i64_of, (t,), u),
        t@.len() > 1,
        t@.drop_last() == s@,
    ensures
        digit_of(t@.last()) is None ==> u is None,
        u is Some && r is Some ==> (digit_of(t@.last()) matches Some(d) && (s@[0] != '-' ==> u->0
            == 10 * r->0 + d) && (s@[0] == '-' ==> u->0 == 10 * r->0 - d)),
        r matches Some(n) ==> (digit_of(t@.last()) matches Some(d) ==> (u is Some <==> if s@[0]
            == '-' {
            -0x8000_0000_0000_0000 <= 10 * n - d
        } else {
            10 * n + d <= 0x7fff_ffff_ffff_ffff
        })),
{
    let a = text::unsigned_part(s@);
    let b = text::unsigned_part(t@);
    assert(s@[0] == t@[0]);
    assert(b.drop_last() =~= a);
    assert(b.last() == t@.last());
    if digit_of(t@.last()) is None {
        assert(!is_digit(b[b.len() - 1]));
    }
    if r is Some {
        if digit_of(t@.last()) is Some {
            assert forall|i: int| 0 <= i < b.len() implies is_digit(#[trigger] b[i]) by {
                if i < a.len() {
                    assert(b[i] == a[i]);
                }
            }
        }
    }
}

/// What holds no digits is no number: nothing, a sign alone, or any other character in it.
pub proof fn only_digits_are_a_number(s: &str, i: int, r: Option<i64>)
    requires
        call_ensures(text::i64_of, (s,), r),
    ensures
        s@.len() == 0 ==> r is None,
        s@.len() == 1 && digit_of(s@[0]) is None ==> r is None,
        0 < i < s@.len() && digit_of(s@[i]) is None ==> r is None,
        s@.len() > 0 && digit_of(s@[0]) is None && s@[0] != '-' && s@[0] != '+' ==> r is None,
{
    let a = text::unsigned_part(s@);
    if 0 < i < s@.len() && digit_of(s@[i]) is None {
        if a.len() < s@.len() {
            assert(a[i - 1] == s@[i]);
            assert(!is_digit(a[i - 1]));
        } else {
            assert(!is_digit(a[i]));
        }
    }
    if s@.len() > 0 && digit_of(s@[0]) is None && s@[0] != '-' && s@[0] != '+' {
        assert(!is_digit(a[0]));
    }
}

/// Two texts are the same exactly where they have the same characters; one begins another
/// where the other is it and more; and one is in another where it stands there.
pub proof fn texts_are_compared_by_their_characters(
    a: &str,
    b: &str,
    equal: bool,
    begins: bool,
    within: bool,
)
    requires
        call_ensures(text::same, (a, b), equal),
        call_ensures(text::has_prefix, (a, b), begins),
        call_ensures(text::has_text, (a, b), within),
    ensures
        equal <==> a@ == b@,
        begins <==> exists|rest: Seq<char>| a@ == #[trigger] (b@ + rest),
        within <==> exists|front: Seq<char>, rest: Seq<char>| a@ == #[trigger] (front + b@ + rest),
{
    if begins {
        assert(a@ =~= b@ + a@.skip(b@.len() as int));
    }
    if exists|rest: Seq<char>| a@ == #[trigger] (b@ + rest) {
        let rest = choose|rest: Seq<char>| a@ == #[trigger] (b@ + rest);
        assert(b@ =~= (b@ + rest).subrange(0, b@.len() as int));
    }
    if within {
        let i = choose|i: int|
            0 <= i <= a@.len() - b@.len() && #[trigger] a@.subrange(i, i + b@.len()) == b@;
        assert(a@ =~= a@.take(i) + b@ + a@.skip(i + b@.len()));
    }
    if exists|front: Seq<char>, rest: Seq<char>| a@ == #[trigger] (front + b@ + rest) {
        let (front, rest) = choose|front: Seq<char>, rest: Seq<char>|
            a@ == #[trigger] (front + b@ + rest);
        let i = front.len() as int;
        assert(a@.subrange(i, i + b@.len()) =~= b@);
    }
}

} // verus!
