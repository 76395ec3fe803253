//! Decimal rendering of integers, shared by the types that render themselves as text.

use vstd::prelude::*;
use vstd::string::StringExecFns;

verus! {

/// The character of one decimal digit.
pub open spec fn digit_char(d: int) -> char {
    if d == 0 {
        '0'
    } else if d == 1 {
        '1'
    } else if d == 2 {
        '2'
    } else if d == 3 {
        '3'
    } else if d == 4 {
        '4'
    } else if d == 5 {
        '5'
    } else if d == 6 {
        '6'
    } else if d == 7 {
        '7'
    } else if d == 8 {
        '8'
    } else {
        '9'
    }
}

/// The decimal digits of a natural number, most significant first, without leading zeros.
pub open spec fn decimal_nat(n: nat) -> Seq<char>
    decreases n,
{
    if n < 10 {
        seq![digit_char(n as int)]
    } else {
        decimal_nat(n / 10).push(digit_char((n % 10) as int))
    }
}

/// The decimal text of an integer: a minus sign for a negative one, then its digits.
pub open spec fn decimal(v: int) -> Seq<char> {
    if v < 0 {
        seq!['-'] + decimal_nat((-v) as nat)
    } else {
        decimal_nat(v as nat)
    }
}

/// The text of one decimal digit.
fn digit_str(d: u8) -> (s: &'static str)
    requires
        d < 10,
    ensures
        s@ == seq![digit_char(d as int)],
{
    proof {
        reveal_strlit("0");
        reveal_strlit("1");
        reveal_strlit("2");
        reveal_strlit("3");
        reveal_strlit("4");
        reveal_strlit("5");
        reveal_strlit("6");
        reveal_strlit("7");
        reveal_strlit("8");
        reveal_strlit("9");
    }
    let s = if d == 0 {
        "0"
    } else if d == 1 {
        "1"
    } else if d == 2 {
        "2"
    } else if d == 3 {
        "3"
    } else if d == 4 {
        "4"
    } else if d == 5 {
        "5"
    } else if d == 6 {
        "6"
    } else if d == 7 {
        "7"
    } else if d == 8 {
        "8"
    } else {
        "9"
    };
    assert(s@ =~= seq![digit_char(d as int)]);
    s
}

/// Appends the decimal digits of `n` to `text`.
pub fn push_unsigned(text: &mut String, n: u64)
    ensures
        final(text)@ == old(text)@ + decimal(n as int),
    decreases n,
{
    if n >= 10 {
        push_unsigned(text, n / 10);
    }
    let d: u8 = (n % 10) as u8;
    text.append(digit_str(d));
    assert(text@ =~= old(text)@ + decimal_nat(n as nat));
}

/// Appends the decimal text of `v` to `text`.
pub fn push_signed(text: &mut String, v: i64)
    ensures
        final(text)@ == old(text)@ + decimal(v as int),
{
    if v < 0 {
        proof {
            reveal_strlit("-");
        }
        text.append("-");
        let magnitude: u64 = ((-(v + 1)) as u64) + 1;
        push_unsigned(text, magnitude);
        assert("-"@ =~= seq!['-']);
        assert(text@ =~= old(text)@ + decimal(v as int));
    } else {
        push_unsigned(text, v as u64);
    }
}

/// The items in order, with a comma and a space between two neighbours.
pub open spec fn joined(items: Seq<Seq<char>>) -> Seq<char>
    decreases items.len(),
{
    if items.len() == 0 {
        Seq::<char>::empty()
    } else if items.len() == 1 {
        items[0]
    } else {
        joined(items.drop_last()) + ", "@ + items.last()
    }
}

/// Joining one more item appends it, after a separator where items stand before it.
pub proof fn lemma_joined_push(items: Seq<Seq<char>>, item: Seq<char>)
    ensures
        joined(items.push(item)) == if items.len() == 0 {
            item
        } else {
            joined(items) + ", "@ + item
        },
{
    assert(items.push(item).drop_last() =~= items);
}

/// The decimal texts of the bytes, joined.
pub open spec fn byte_list(bytes: Seq<u8>) -> Seq<char> {
    joined(Seq::new(bytes.len(), |i: int| decimal(bytes[i] as int)))
}

/// Appends the decimal texts of the bytes, joined, to `text`.
pub fn push_byte_list(text: &mut String, bytes: &[u8])
    ensures
        final(text)@ == old(text)@ + byte_list(bytes@),
{
    let ghost before = text@;
    let n = bytes.len();
    let mut i: usize = 0;
    assert(text@ =~= before + byte_list(bytes@.take(0)));
    while i < n
        invariant
            n == bytes@.len(),
            i <= n,
            text@ == before + byte_list(bytes@.take(i as int)),
        decreases n - i,
    {
        let ghost done = Seq::new(i as nat, |j: int| decimal(bytes@.take(i as int)[j] as int));
        let ghost item = decimal(bytes@[i as int] as int);
        if i != 0 {
            text.append(", ");
        }
        push_unsigned(text, bytes[i] as u64);
        proof {
            lemma_joined_push(done, item);
            assert(Seq::new((i + 1) as nat, |j: int| decimal(bytes@.take(i + 1)[j] as int))
                =~= done.push(item));
            assert(text@ =~= before + byte_list(bytes@.take(i + 1)));
        }
        i += 1;
    }
    assert(bytes@.take(n as int) =~= bytes@);
}

} // verus!
