//! Text as the fields need it: numbers in decimal, texts compared, and the
//! NUL that a window property's string cannot hold.

use vstd::prelude::*;
use vstd::string::*;
use vstd::utf8::*;

verus! {

/// The character that stands for one decimal digit.
pub open spec fn digit(d: nat) -> char {
    if d == 0 {
        '0'
    } else if d == 1 {
        '1'
    } else if d == 2 {
        '2'
    } else if d == 3 {
        '3'
    } else if d == 4 {
        '4'
    } else if d == 5 {
        '5'
    } else if d == 6 {
        '6'
    } else if d == 7 {
        '7'
    } else if d == 8 {
        '8'
    } else {
        '9'
    }
}

/// A number in decimal, most significant digit first, with no leading zero
/// but for zero itself.
pub open spec fn decimal(n: nat) -> Seq<char>
    decreases n,
{
    if n < 10 {
        seq![digit(n)]
    } else {
        decimal(n / 10).push(digit(n % 10))
    }
}

/// Only numbers below ten are written with a single digit.
pub proof fn lemma_decimal_len(n: nat)
    ensures
        decimal(n).len() >= 1,
        n < 10 <==> decimal(n).len() == 1,
    decreases n,
{
    if n >= 10 {
        lemma_decimal_len(n / 10);
    }
}

/// True when `c` is one of the ten decimal digits.
pub open spec fn is_digit_char(c: char) -> bool {
    c == '0' || c == '1' || c == '2' || c == '3' || c == '4' || c == '5' || c == '6' || c == '7'
        || c == '8' || c == '9'
}

/// The number that a decimal digit stands for; 0 for any other character.
pub open spec fn digit_value(c: char) -> nat {
    if c == '1' {
        1
    } else if c == '2' {
        2
    } else if c == '3' {
        3
    } else if c == '4' {
        4
    } else if c == '5' {
        5
    } else if c == '6' {
        6
    } else if c == '7' {
        7
    } else if c == '8' {
        8
    } else if c == '9' {
        9
    } else {
        0
    }
}

/// True when no character of `text` is NUL.
pub open spec fn nul_free(text: Seq<char>) -> bool {
    forall|i: int| 0 <= i < text.len() ==> text[i] != '\0'
}

/// Decimal text holds no NUL.
pub proof fn lemma_decimal_nul_free(n: nat)
    ensures
        nul_free(decimal(n)),
    decreases n,
{
    if n >= 10 {
        lemma_decimal_nul_free(n / 10);
        assert forall|i: int| 0 <= i < decimal(n).len() implies decimal(n)[i] != '\0' by {
            if i < decimal(n / 10).len() {
                assert(decimal(n)[i] == decimal(n / 10)[i]);
            } else {
                assert(decimal(n)[i] == digit(n % 10));
            }
        }
    }
}

fn digit_text(d: u64) -> (text: &'static str)
    requires
        d < 10,
    ensures
        text@ == seq![digit(d as nat)],
{
    proof {
        reveal_strlit("0");
        reveal_strlit("1");
        reveal_strlit("2");
        reveal_strlit("3");
        reveal_strlit("4");
        reveal_strlit("5");
        reveal_strlit("6");
        reveal_strlit("7");
        reveal_strlit("8");
        reveal_strlit("9");
    }
    let text = if d == 0 {
        "0"
    } else if d == 1 {
        "1"
    } else if d == 2 {
        "2"
    } else if d == 3 {
        "3"
    } else if d == 4 {
        "4"
    } else if d == 5 {
        "5"
    } else if d == 6 {
        "6"
    } else if d == 7 {
        "7"
    } else if d == 8 {
        "8"
    } else {
        "9"
    };
    assert(text@ =~= seq![digit(d as nat)]);
    text
}

/// Writes `n` in decimal at the end of `out`.
pub fn append_decimal(out: &mut String, n: u64)
    ensures
        final(out)@ == old(out)@ + decimal(n as nat),
    decreases n,
{
    if n >= 10 {
        append_decimal(out, n / 10);
    }
    out.append(digit_text(n % 10));
}

/// `n` in decimal.
pub fn render_decimal(n: u64) -> (text: String)
    ensures
        text@ == decimal(n as nat),
{
    let mut text = String::new();
    append_decimal(&mut text, n);
    text
}

/// Whether two texts are the same, character for character.
pub fn same_text(a: &str, b: &str) -> (same: bool)
    ensures
        same == (a@ == b@),
{
    let left = a.as_bytes();
    let right = b.as_bytes();
    if left.len() != right.len() {
        return false;
    }
    let mut i: usize = 0;
    while i < left.len()
        invariant
            i <= left.len(),
            left.len() == right.len(),
            left@ == encode_utf8(a@),
            right@ == encode_utf8(b@),
            forall|k: int| 0 <= k < i ==> left@[k] == right@[k],
        decreases left.len() - i,
    {
        if left[i] != right[i] {
            return false;
        }
        i += 1;
    }
    proof {
        assert(left@ =~= right@);
        encode_utf8_decode_utf8(a@);
        encode_utf8_decode_utf8(b@);
    }
    true
}

/// True when `position` is where the first NUL byte of `bytes` stands.
pub open spec fn first_nul(bytes: Seq<u8>, position: int) -> bool {
    &&& 0 <= position < bytes.len()
    &&& bytes[position] == 0
    &&& forall|k: int| 0 <= k < position ==> bytes[k] != 0
}

/// Where the first NUL byte of `bytes` stands, if there is one.
pub open spec fn nul_position(bytes: Seq<u8>) -> int {
    choose|position: int| first_nul(bytes, position)
}

/// There is one first NUL byte at most.
pub proof fn lemma_first_nul_unique(bytes: Seq<u8>, position: int)
    requires
        first_nul(bytes, position),
    ensures
        nul_position(bytes) == position,
{
    let other: int = nul_position(bytes);
    assert(first_nul(bytes, other));
    if other < position {
        assert(bytes[other] != 0);
    } else if position < other {
        assert(bytes[position] != 0);
    }
}

proof fn lemma_encoded_bytes(c: u32)
    by (bit_vector)
    ensures
        has_width_1_encoding(c) ==> (leading_byte_width_1(c) == 0 <==> c == 0),
        leading_byte_width_2(c) != 0,
        leading_byte_width_3(c) != 0,
        leading_byte_width_4(c) != 0,
        last_continuation_byte(c) != 0,
        second_last_continuation_byte(c) != 0,
        third_last_continuation_byte(c) != 0,
{
}

proof fn lemma_scalar_nul(c: char)
    ensures
        encode_scalar(c as u32).contains(0u8) <==> c == '\0',
{
    let bytes = encode_scalar(c as u32);
    lemma_encoded_bytes(c as u32);
    char_is_scalar(c);
    if c == '\0' {
        assert(has_width_1_encoding(c as u32));
        assert(bytes[0] == 0);
    } else {
        assert(c as u32 != 0);
        assert forall|i: int| 0 <= i < bytes.len() implies bytes[i] != 0 by {}
    }
}

/// A text's UTF-8 encoding holds a NUL byte exactly when the text holds a
/// NUL character.
pub proof fn lemma_nul_byte_iff_nul_char(text: Seq<char>)
    ensures
        encode_utf8(text).contains(0u8) <==> !nul_free(text),
    decreases text.len(),
{
    if text.len() > 0 {
        let head = encode_scalar(text[0] as u32);
        let rest = text.drop_first();
        let tail = encode_utf8(rest);
        lemma_scalar_nul(text[0]);
        lemma_nul_byte_iff_nul_char(rest);
        assert(encode_utf8(text) == head + tail);
        if head.contains(0u8) {
            let i: int = choose|i: int| 0 <= i < head.len() && head[i] == 0u8;
            assert((head + tail)[i] == 0u8);
            assert(text[0] == '\0');
        } else if tail.contains(0u8) {
            let i: int = choose|i: int| 0 <= i < tail.len() && tail[i] == 0u8;
            assert((head + tail)[head.len() + i] == 0u8);
            let k: int = choose|k: int| 0 <= k < rest.len() && rest[k] == '\0';
            assert(text[k + 1] == '\0');
        } else {
            assert forall|i: int| 0 <= i < (head + tail).len() implies (head + tail)[i]
                != 0u8 by {
                if i < head.len() {
                    assert(head[i] == (head + tail)[i]);
                } else {
                    assert(tail[i - head.len()] == (head + tail)[i]);
                }
            }
            assert forall|k: int| 0 <= k < text.len() implies text[k] != '\0' by {
                if k > 0 {
                    assert(rest[k - 1] == text[k]);
                }
            }
        }
    }
}

/// Texts put end to end hold a NUL exactly when one of them does.
pub proof fn lemma_nul_free_concat(a: Seq<char>, b: Seq<char>)
    ensures
        nul_free(a + b) <==> nul_free(a) && nul_free(b),
{
    if nul_free(a + b) {
        assert forall|i: int| 0 <= i < a.len() implies a[i] != '\0' by {
            assert((a + b)[i] == a[i]);
        }
        assert forall|i: int| 0 <= i < b.len() implies b[i] != '\0' by {
            assert((a + b)[a.len() + i] == b[i]);
        }
    }
}

} // verus!
