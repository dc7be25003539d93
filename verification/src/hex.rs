//! Lower-case hexadecimal text of a byte string.

use vstd::prelude::*;
use vstd::string::*;

verus! {

/// The hexadecimal digit of a value below 16.
pub open spec fn hex_digit(nibble: int) -> char
    recommends
        0 <= nibble < 16,
{
    if nibble < 10 {
        ('0' as int + nibble) as char
    } else {
        ('a' as int + nibble - 10) as char
    }
}

/// The hexadecimal text of `bytes`: two digits for each byte, the high half
/// first.
pub open spec fn hex_encode(bytes: Seq<u8>) -> Seq<char> {
    Seq::new(
        2 * bytes.len(),
        |i: int|
            if i % 2 == 0 {
                hex_digit(bytes[i / 2] as int / 16)
            } else {
                hex_digit(bytes[i / 2] as int % 16)
            },
    )
}

/// Different values below 16 have different digits.
pub proof fn lemma_hex_digit_injective(m: int, n: int)
    requires
        0 <= m < 16,
        0 <= n < 16,
        hex_digit(m) == hex_digit(n),
    ensures
        m == n,
{
    assert(hex_digit(m) as int == if m < 10 {
        '0' as int + m
    } else {
        'a' as int + m - 10
    });
    assert(hex_digit(n) as int == if n < 10 {
        '0' as int + n
    } else {
        'a' as int + n - 10
    });
}

/// Different byte strings have different hexadecimal texts.
pub proof fn lemma_hex_encode_injective(a: Seq<u8>, b: Seq<u8>)
    requires
        hex_encode(a) == hex_encode(b),
    ensures
        a == b,
{
    assert(hex_encode(a).len() == 2 * a.len());
    assert(hex_encode(b).len() == 2 * b.len());
    assert(a.len() == b.len());
    assert forall|k: int| 0 <= k < a.len() implies a[k] == b[k] by {
        let x = a[k] as int;
        let y = b[k] as int;
        assert(hex_encode(a)[2 * k] == hex_digit(x / 16));
        assert(hex_encode(b)[2 * k] == hex_digit(y / 16));
        assert(hex_encode(a)[2 * k + 1] == hex_digit(x % 16));
        assert(hex_encode(b)[2 * k + 1] == hex_digit(y % 16));
        lemma_hex_digit_injective(x / 16, y / 16);
        lemma_hex_digit_injective(x % 16, y % 16);
    }
    assert(a =~= b);
}

/// The digit of `nibble`, as a string of one character.
fn digit(nibble: u8) -> (text: &'static str)
    requires
        nibble < 16,
    ensures
        text@ == seq![hex_digit(nibble as int)],
{
    let digits: &'static str = "0123456789abcdef";
    proof {
        reveal_strlit("0123456789abcdef");
        assert(digits@.len() == 16);
        assert(digits@[nibble as int] == hex_digit(nibble as int));
    }
    let nibble_index: usize = nibble as usize;
    let text = digits.substring_ascii(nibble_index, nibble_index + 1);
    assert(text@ =~= seq![hex_digit(nibble as int)]);
    text
}

/// Writes `bytes` in hexadecimal.
pub fn to_hex(bytes: &[u8]) -> (text: String)
    ensures
        text@ == hex_encode(bytes@),
{
    let mut text = String::new();
    let mut i: usize = 0;
    while i < bytes.len()
        invariant
            i <= bytes.len(),
            text@ == hex_encode(bytes@.take(i as int)),
        decreases bytes.len() - i,
    {
        let byte: u8 = bytes[i];
        let ghost before = text@;
        text.append(digit(byte / 16));
        text.append(digit(byte % 16));
        proof {
            let done = bytes@.take(i as int);
            let next = bytes@.take(i as int + 1);
            assert(next =~= done.push(byte));
            assert(text@ =~= hex_encode(next)) by {
                assert forall|j: int| 0 <= j < 2 * next.len() implies text@[j] == hex_encode(
                    next,
                )[j] by {
                    if j < 2 * i {
                        assert(text@[j] == before[j]);
                        assert(next[j / 2] == done[j / 2]);
                    }
                }
            }
        }
        i += 1;
    }
    assert(bytes@.take(i as int) =~= bytes@);
    text
}

} // verus!
