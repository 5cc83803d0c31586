//! Numbers and bytes written out as text.

use vstd::prelude::*;
use vstd::string::*;

verus! {

/// The lower-case hexadecimal digit of a value below sixteen.
pub open spec fn digit(value: int) -> char {
    if value < 10 {
        ('0' as int + value) as char
    } else {
        ('a' as int + (value - 10)) as char
    }
}

/// The decimal digits of `value`, without leading zeros.
pub open spec fn digits(value: nat) -> Seq<char>
    decreases value,
{
    if value < 10 {
        seq![digit(value as int)]
    } else {
        digits(value / 10).push(digit((value % 10) as int))
    }
}

/// `value` in decimal notation.
pub open spec fn decimal(value: int) -> Seq<char> {
    if value < 0 {
        seq!['-'] + digits((-value) as nat)
    } else {
        digits(value as nat)
    }
}

/// The two lower-case hexadecimal digits of each byte, in order.
pub open spec fn hexadecimal(bytes: Seq<u8>) -> Seq<char>
    decreases bytes.len(),
{
    if bytes.len() == 0 {
        Seq::empty()
    } else {
        hexadecimal(bytes.drop_last()).push(digit(bytes.last() as int / 16)).push(
            digit(bytes.last() as int % 16),
        )
    }
}

/// The digit of a value below sixteen, as text.
fn digit_text(value: u8) -> (result: &'static str)
    requires
        value < 16,
    ensures
        result@ == seq![digit(value as int)],
{
    proof {
        reveal_strlit("0");
        reveal_strlit("1");
        reveal_strlit("2");
        reveal_strlit("3");
        reveal_strlit("4");
        reveal_strlit("5");
        reveal_strlit("6");
        reveal_strlit("7");
        reveal_strlit("8");
        reveal_strlit("9");
        reveal_strlit("a");
        reveal_strlit("b");
        reveal_strlit("c");
        reveal_strlit("d");
        reveal_strlit("e");
        reveal_strlit("f");
    }
    match value {
        0 => "0",
        1 => "1",
        2 => "2",
        3 => "3",
        4 => "4",
        5 => "5",
        6 => "6",
        7 => "7",
        8 => "8",
        9 => "9",
        10 => "a",
        11 => "b",
        12 => "c",
        13 => "d",
        14 => "e",
        _ => "f",
    }
}

/// Appends the decimal digits of `value`.
fn append_digits(out: &mut String, value: u64)
    ensures
        final(out)@ == old(out)@ + digits(value as nat),
    decreases value,
{
    if value >= 10 {
        append_digits(out, value / 10);
    }
    out.append(digit_text((value % 10) as u8));
}

/// `value` in decimal notation.
pub fn decimal_text(value: i64) -> (result: String)
    ensures
        result@ == decimal(value as int),
{
    let mut result = String::new();
    if value < 0 {
        proof {
            reveal_strlit("-");
        }
        result.append("-");
        assert(result@ == seq!['-']);
        let magnitude: u64 = (-(value + 1)) as u64 + 1;
        append_digits(&mut result, magnitude);
    } else {
        append_digits(&mut result, value as u64);
    }
    result
}

/// Appends the two lower-case hexadecimal digits of each byte.
pub fn append_hexadecimal(out: &mut String, bytes: &[u8])
    ensures
        final(out)@ == old(out)@ + hexadecimal(bytes@),
{
    let ghost start = out@;
    let mut i: usize = 0;
    assert(bytes@.subrange(0, 0) == Seq::<u8>::empty());
    assert(start + Seq::<char>::empty() == start);
    while i < bytes.len()
        invariant
            i <= bytes@.len(),
            out@ == start + hexadecimal(bytes@.subrange(0, i as int)),
        decreases bytes@.len() - i,
    {
        let byte: u8 = bytes[i];
        let ghost before = hexadecimal(bytes@.subrange(0, i as int));
        out.append(digit_text(byte / 16));
        out.append(digit_text(byte % 16));
        proof {
            assert(bytes@.subrange(0, i + 1).drop_last() == bytes@.subrange(0, i as int));
            assert(out@ == start + before.push(digit(byte as int / 16)).push(
                digit(byte as int % 16),
            ));
        }
        i = i + 1;
    }
    assert(bytes@.subrange(0, bytes@.len() as int) == bytes@);
}

/// The hexadecimal notation of n bytes has twice as many digits, all of them
/// lower-case hexadecimal.
pub proof fn lemma_hexadecimal_shape(bytes: Seq<u8>)
    ensures
        hexadecimal(bytes).len() == 2 * bytes.len(),
        forall|i: int|
            0 <= i < hexadecimal(bytes).len() ==> {
                let c = #[trigger] hexadecimal(bytes)[i];
                '0' <= c <= '9' || 'a' <= c <= 'f'
            },
    decreases bytes.len(),
{
    if bytes.len() > 0 {
        lemma_hexadecimal_shape(bytes.drop_last());
    }
}

/// The two digits of each byte stand at twice its place.
pub proof fn lemma_hexadecimal_digits(bytes: Seq<u8>, i: int)
    requires
        0 <= i < bytes.len(),
    ensures
        hexadecimal(bytes)[2 * i] == digit(bytes[i] as int / 16),
        hexadecimal(bytes)[2 * i + 1] == digit(bytes[i] as int % 16),
    decreases bytes.len(),
{
    lemma_hexadecimal_shape(bytes.drop_last());
    if i < bytes.len() - 1 {
        lemma_hexadecimal_digits(bytes.drop_last(), i);
    }
}

/// The hexadecimal notation tells any two byte sequences apart.
pub proof fn lemma_hexadecimal_injective(left: Seq<u8>, right: Seq<u8>)
    ensures
        hexadecimal(left) == hexadecimal(right) ==> left == right,
    decreases left.len(),
{
    lemma_hexadecimal_shape(left);
    lemma_hexadecimal_shape(right);
    if hexadecimal(left) == hexadecimal(right) {
        if left.len() == 0 {
            assert(left == right);
        } else {
            let a = hexadecimal(left.drop_last());
            let b = hexadecimal(right.drop_last());
            let whole = hexadecimal(left);
            assert(whole.drop_last().drop_last() == a);
            assert(hexadecimal(right).drop_last().drop_last() == b);
            lemma_hexadecimal_injective(left.drop_last(), right.drop_last());
            assert(whole.last() == hexadecimal(right).last());
            assert(whole[whole.len() - 2] == hexadecimal(right)[whole.len() - 2]);
            assert(left.last() as int / 16 == right.last() as int / 16);
            assert(left.last() as int % 16 == right.last() as int % 16);
            assert(left.last() == right.last());
            assert(left == left.drop_last().push(left.last()));
            assert(right == right.drop_last().push(right.last()));
        }
    }
}

proof fn lemma_digits_shape(value: nat)
    ensures
        digits(value).len() >= 1,
        value >= 10 ==> digits(value).len() >= 2,
        forall|i: int| 0 <= i < digits(value).len() ==> '0' <= #[trigger] digits(value)[i] <= '9',
    decreases value,
{
    if value >= 10 {
        lemma_digits_shape(value / 10);
    }
}

proof fn lemma_digits_injective(left: nat, right: nat)
    ensures
        digits(left) == digits(right) ==> left == right,
    decreases left,
{
    lemma_digits_shape(left);
    lemma_digits_shape(right);
    if digits(left) == digits(right) {
        if left >= 10 && right >= 10 {
            assert(digits(left).drop_last() == digits(left / 10));
            assert(digits(right).drop_last() == digits(right / 10));
            lemma_digits_injective(left / 10, right / 10);
            assert(digits(left).last() == digits(right).last());
        } else if left >= 10 || right >= 10 {
            lemma_digits_shape(left / 10);
            lemma_digits_shape(right / 10);
        } else {
            assert(digits(left)[0] == digits(right)[0]);
        }
    }
}

/// The decimal notation tells any two integers apart, so a revision can be
/// read back from its text.
pub proof fn law_decimal_is_injective(left: int, right: int)
    requires
        decimal(left) == decimal(right),
    ensures
        left == right,
{
    let a = if left < 0 { (-left) as nat } else { left as nat };
    let b = if right < 0 { (-right) as nat } else { right as nat };
    lemma_digits_shape(a);
    lemma_digits_shape(b);
    lemma_digits_injective(a, b);
    assert(decimal(left)[0] == decimal(right)[0]);
    if left < 0 && right < 0 {
        assert(decimal(left).drop_first() == digits(a));
        assert(decimal(right).drop_first() == digits(b));
    } else if left < 0 || right < 0 {
        assert('0' <= digits(a)[0] && '0' <= digits(b)[0]);
    }
}

} // verus!
