//! Text at the C boundary.

use crate::text::{
    c_string, c_string_bytes, c_string_text, decimal, is_nul_free, join, lemma_c_string_ends,
    lemma_without_nul, push_decimal, remove_nul, utf8_lossy, views,
};
use vstd::prelude::*;
use vstd::utf8::*;

verus! {

/// The number that decimal digits stand for.
pub open spec fn number(digits: Seq<char>) -> nat
    decreases digits.len(),
{
    if digits.len() == 0 {
        0
    } else {
        10 * number(digits.drop_last()) + (digits.last() as nat - '0' as nat) as nat
    }
}

/// `digits` is how `n` is written: decimal digits that stand for it, without leading zeros.
pub open spec fn is_numeral(digits: Seq<char>, n: nat) -> bool {
    &&& digits.len() > 0
    &&& forall|i: int| 0 <= i < digits.len() ==> '0' <= #[trigger] digits[i] <= '9'
    &&& digits.len() > 1 ==> digits[0] != '0'
    &&& number(digits) == n
}

/// `n` is the place of the first NUL of `memory`.
pub open spec fn is_first_nul(memory: Seq<u8>, n: int) -> bool {
    &&& 0 <= n < memory.len()
    &&& memory[n] == 0
    &&& forall|i: int| 0 <= i < n ==> #[trigger] memory[i] != 0
}

/// Every text loses exactly its NULs, and keeps every other character in its place among the others.
pub proof fn lemma_remove_nul(text: &str, r: String)
    requires
        call_ensures(remove_nul, (text,), r),
    ensures
        r@ == text@.filter(|c: char| c != '\0'),
        !r@.contains('\0'),
        !text@.contains('\0') ==> r@ == text@,
{
    lemma_without_nul(text@);
}

/// Removing NULs goes piece by piece.
pub proof fn lemma_remove_nul_piecewise(
    text: &str,
    front: &str,
    back: &str,
    r: String,
    r_front: String,
    r_back: String,
)
    requires
        text@ == front@ + back@,
        call_ensures(remove_nul, (text,), r),
        call_ensures(remove_nul, (front,), r_front),
        call_ensures(remove_nul, (back,), r_back),
    ensures
        r@ == r_front@ + r_back@,
{
    Seq::filter_distributes_over_add(front@, back@, |c: char| c != '\0');
}

/// `is_nul_free` tells whether no character is a NUL.
pub proof fn lemma_is_nul_free(text: &str, r: bool)
    requires
        call_ensures(is_nul_free, (text,), r),
    ensures
        r <==> forall|i: int| 0 <= i < text@.len() ==> #[trigger] text@[i] != '\0',
{
    if !r {
        let i = choose|i: int| 0 <= i < text@.len() && text@[i] == '\0';
        assert(text@[i] == '\0');
    } else {
        assert forall|i: int| 0 <= i < text@.len() implies #[trigger] text@[i] != '\0' by {
            assert(text@.contains(text@[i]));
        }
    }
}

/// A C string can be read wherever there is a NUL. It is what stands before the first one.
pub proof fn lemma_c_string_bytes(memory: &[u8], n: int, r: Vec<u8>)
    requires
        is_first_nul(memory@, n),
        call_ensures(c_string_bytes, (memory,), r),
    ensures
        call_requires(c_string_bytes, (memory,)),
        r@ == memory@.take(n),
{
    lemma_c_string_is_prefix(memory@, n);
    assert(memory@.contains(memory@[n]));
}

/// The text of a C string is what stands before the first NUL, decoded where it is well-formed UTF-8.
pub proof fn lemma_c_string_text(memory: &[u8], n: int, r: String)
    requires
        is_first_nul(memory@, n),
        call_ensures(c_string_text, (memory,), r),
    ensures
        call_requires(c_string_text, (memory,)),
        r@ == utf8_lossy(memory@.take(n)),
        valid_utf8(memory@.take(n)) ==> r@ == decode_utf8(memory@.take(n)),
        !valid_utf8(memory@.take(n)) ==> r@.contains('\u{FFFD}'),
{
    lemma_c_string_is_prefix(memory@, n);
    assert(memory@.contains(memory@[n]));
}

/// A C string is what stands before the first NUL.
pub proof fn lemma_c_string_is_prefix(memory: Seq<u8>, n: int)
    requires
        is_first_nul(memory, n),
    ensures
        c_string(memory) == memory.take(n),
{
    let bytes = memory.take(n);
    assert forall|b: u8| bytes.contains(b) implies b != 0 by {
        let i = choose|i: int| 0 <= i < bytes.len() && bytes[i] == b;
        assert(memory[i] == b);
    }
    lemma_c_string_ends(bytes, memory.skip(n + 1));
    assert(memory =~= bytes.push(0) + memory.skip(n + 1));
}

/// Joining no part gives nothing, one part gives that part, and each further part comes behind the
/// separator, after the join of those before it.
pub proof fn lemma_join(
    parts: &[&str],
    front: &[&str],
    separator: &str,
    r: String,
    r_front: String,
)
    requires
        parts@.len() > 0 ==> front@ == parts@.drop_last(),
        call_ensures(join, (parts, separator), r),
        call_ensures(join, (front, separator), r_front),
    ensures
        parts@.len() == 0 ==> r@.len() == 0,
        parts@.len() == 1 ==> r@ == parts@[0]@,
        parts@.len() > 1 ==> r@ == r_front@ + separator@ + parts@.last()@,
{
    if parts@.len() > 0 {
        assert(views(parts@).drop_last() =~= views(front@));
    }
}

/// `push_decimal` keeps the text and appends the number as it is written.
pub proof fn lemma_push_decimal(text: &mut String, n: u16, r: ())
    requires
        call_ensures(push_decimal, (text, n), r),
    ensures
        exists|digits: Seq<char>|
            final(text)@ == old(text)@ + digits && #[trigger] is_numeral(digits, n as nat),
{
    lemma_decimal(n as nat);
}

/// A number is written in exactly one way.
pub proof fn lemma_numeral_is_unique(one: Seq<char>, two: Seq<char>, n: nat)
    requires
        is_numeral(one, n),
        is_numeral(two, n),
    ensures
        one == two,
    decreases one.len(),
{
    let (a, b) = (one.drop_last(), two.drop_last());
    let (c, d) = (one.last(), two.last());
    assert(c == one[one.len() - 1] && d == two[two.len() - 1]);
    assert(c == d && number(a) == number(b));
    if a.len() > 0 {
        lemma_number_is_positive(a);
    }
    if b.len() > 0 {
        lemma_number_is_positive(b);
    }
    if a.len() > 0 {
        assert(is_numeral(a, number(a)));
        assert(is_numeral(b, number(b)));
        lemma_numeral_is_unique(a, b, number(a));
    }
    assert(one =~= a.push(c));
    assert(two =~= b.push(d));
}

proof fn lemma_number_is_positive(digits: Seq<char>)
    requires
        digits.len() > 0,
        digits[0] != '0',
        forall|i: int| 0 <= i < digits.len() ==> '0' <= #[trigger] digits[i] <= '9',
    ensures
        number(digits) > 0,
    decreases digits.len(),
{
    if digits.len() > 1 {
        lemma_number_is_positive(digits.drop_last());
    } else {
        assert(digits.last() == digits[0]);
    }
}

/// The numeral of a number is how it is written.
pub proof fn lemma_decimal(n: nat)
    ensures
        is_numeral(decimal(n), n),
    decreases n,
{
    let digits = decimal(n);
    if n < 10 {
        assert(digits.drop_last().len() == 0);
        assert(number(digits.drop_last()) == 0);
    } else {
        let front = decimal(n / 10);
        lemma_decimal(n / 10);
        assert(digits.drop_last() =~= front);
        assert(digits[0] == front[0]);
        if front.len() == 1 {
            assert(number(front.drop_last()) == 0);
            assert(front.last() == front[0]);
        }
        assert(number(digits) == 10 * (n / 10) + n % 10);
    }
}

} // verus!
