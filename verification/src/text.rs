//! Numbers and byte strings as readable text.

use vstd::prelude::*;

verus! {

/// The ten decimal digits, in order.
pub const DIGITS: &'static str = "0123456789";

/// `n` in decimal, without leading zeros.
pub open spec fn decimal(n: nat) -> Seq<char>
    decreases n,
{
    if n < 10 {
        seq![DIGITS@[n as int]]
    } else {
        decimal(n / 10).push(DIGITS@[(n % 10) as int])
    }
}

/// The numbers of `bytes` in decimal, with a comma and a space between them.
pub open spec fn listed(bytes: Seq<u8>) -> Seq<char>
    decreases bytes.len(),
{
    if bytes.len() == 0 {
        Seq::empty()
    } else if bytes.len() == 1 {
        decimal(bytes[0] as nat)
    } else {
        listed(bytes.drop_last()) + ", "@ + decimal(bytes.last() as nat)
    }
}

proof fn lemma_digits()
    ensures
        DIGITS@.len() == 10,
        DIGITS.is_ascii(),
{
    reveal_strlit("0123456789");
}

/// Add `n` in decimal to the end of `text`.
pub fn append_decimal(text: &mut String, n: usize)
    ensures
        final(text)@ == old(text)@ + decimal(n as nat),
    decreases n,
{
    proof {
        lemma_digits();
    }
    if n >= 10 {
        append_decimal(text, n / 10);
    }
    let digit: usize = n % 10;
    text.append(DIGITS.substring_ascii(digit, digit + 1));
    assert(text@ =~= old(text)@ + decimal(n as nat));
}

/// Add the numbers of `bytes` to the end of `text`, as [`listed`] has them.
pub fn append_listed(text: &mut String, bytes: &Vec<u8>)
    ensures
        final(text)@ == old(text)@ + listed(bytes@),
{
    let mut i: usize = 0;
    assert(text@ =~= old(text)@ + listed(bytes@.take(0)));
    while i < bytes.len()
        invariant
            i <= bytes.len(),
            text@ == old(text)@ + listed(bytes@.take(i as int)),
        decreases bytes.len() - i,
    {
        if i > 0 {
            text.append(", ");
        }
        append_decimal(text, bytes[i] as usize);
        proof {
            let next = bytes@.take(i + 1);
            assert(next.drop_last() =~= bytes@.take(i as int));
            assert(next.last() == bytes@[i as int]);
            assert(text@ =~= old(text)@ + listed(next));
        }
        i = i + 1;
    }
    assert(bytes@.take(i as int) =~= bytes@);
}

/// The number that decimal digits spell.
pub open spec fn number(digits: Seq<char>) -> int
    decreases digits.len(),
{
    if digits.len() == 0 {
        0
    } else {
        10 * number(digits.drop_last()) + (digits.last() as int - '0' as int)
    }
}

/// A number's text spells that number, in decimal digits and without a leading
/// zero. So no two numbers have the same text.
pub proof fn law_decimal_spells_the_number(n: nat)
    ensures
        number(decimal(n)) == n,
        decimal(n).len() > 0,
        n > 0 ==> decimal(n)[0] != '0',
        forall|i: int| 0 <= i < decimal(n).len() ==> '0' <= #[trigger] decimal(n)[i] <= '9',
    decreases n,
{
    reveal_strlit("0123456789");
    let digit = DIGITS@[(n % 10) as int];
    assert(digit as int == '0' as int + n % 10);
    if n < 10 {
        assert(decimal(n).drop_last() =~= Seq::empty());
        assert(number(decimal(n).drop_last()) == 0);
    } else {
        law_decimal_spells_the_number(n / 10);
        assert(decimal(n).drop_last() =~= decimal(n / 10));
    }
}

/// A list of bytes is the lists of its two parts with a comma and a space
/// between them, wherever it is cut.
pub proof fn law_lists_are_joined_by_commas(a: Seq<u8>, b: Seq<u8>)
    requires
        a.len() > 0,
        b.len() > 0,
    ensures
        listed(a + b) == listed(a) + ", "@ + listed(b),
        forall|x: u8| #[trigger] listed(seq![x]) == decimal(x as nat),
        listed(Seq::empty()).len() == 0,
    decreases b.len(),
{
    assert((a + b).last() == b.last());
    if b.len() == 1 {
        assert((a + b).drop_last() =~= a);
    } else {
        let rest = b.drop_last();
        assert((a + b).drop_last() =~= a + rest);
        law_lists_are_joined_by_commas(a, rest);
        assert(listed(a + b) =~= listed(a) + ", "@ + listed(b));
    }
}

} // verus!
