//! The line that the bar shows, and its bytes for the window property.
//!
//! The line is six fields in a fixed order with fixed labels between them.
//! Numbers are set flush right in two columns, the battery token flush left
//! in two, and the clock is taken as it is.

use vstd::prelude::*;
use vstd::slice::slice_to_vec;
use vstd::string::*;
use vstd::utf8::*;
use crate::text::{
    append_decimal, decimal, lemma_decimal_len, lemma_decimal_nul_free, lemma_first_nul_unique,
    lemma_nul_byte_iff_nul_char, lemma_nul_free_concat, nul_free, nul_position,
};
use crate::warning::Warning;

verus! {

/// The fields of one tick, in the order in which the line shows them.
#[derive(Debug)]
pub struct DisplayLine {
    pub volume: u16,
    pub temperature: u16,
    pub battery: String,
    pub cpu: u32,
    pub memory: u64,
    pub clock: String,
}

/// What a `DisplayLine` holds, as numbers and texts.
pub struct Fields {
    pub volume: nat,
    pub temperature: nat,
    pub battery: Seq<char>,
    pub cpu: nat,
    pub memory: nat,
    pub clock: Seq<char>,
}

impl View for DisplayLine {
    type V = Fields;

    open spec fn view(&self) -> Fields {
        Fields {
            volume: self.volume as nat,
            temperature: self.temperature as nat,
            battery: self.battery@,
            cpu: self.cpu as nat,
            memory: self.memory as nat,
            clock: self.clock@,
        }
    }
}

/// `n` blanks.
pub open spec fn blanks(n: nat) -> Seq<char> {
    Seq::new(n, |i: int| ' ')
}

/// `text` with blanks before it up to `width` characters; a longer text is
/// left as it is.
pub open spec fn flush_right(text: Seq<char>, width: nat) -> Seq<char> {
    if text.len() >= width {
        text
    } else {
        blanks((width - text.len()) as nat) + text
    }
}

/// `text` with blanks after it up to `width` characters; a longer text is
/// left as it is.
pub open spec fn flush_left(text: Seq<char>, width: nat) -> Seq<char> {
    if text.len() >= width {
        text
    } else {
        text + blanks((width - text.len()) as nat)
    }
}

/// A number as the line shows it: in decimal, flush right in two columns.
pub open spec fn number(n: nat) -> Seq<char> {
    flush_right(decimal(n), 2)
}

/// The line's text.
pub open spec fn layout(fields: Fields) -> Seq<char> {
    " vol: "@ + number(fields.volume) + "%  temp: "@ + number(fields.temperature) + "C  bat: "@
        + flush_left(fields.battery, 2) + "%  cpu: "@ + number(fields.cpu) + "%  mem: "@ + number(
        fields.memory,
    ) + "%  "@ + fields.clock
}

/// A number as the line shows it holds no NUL.
pub proof fn lemma_number_nul_free(n: nat)
    ensures
        nul_free(number(n)),
{
    lemma_decimal_nul_free(n);
    lemma_nul_free_concat(blanks((2 - decimal(n).len()) as nat), decimal(n));
}

/// The line holds a NUL exactly when the battery token or the clock does:
/// the labels and the numbers never bring one in.
pub proof fn lemma_layout_nul_free(fields: Fields)
    ensures
        nul_free(layout(fields)) <==> nul_free(fields.battery) && nul_free(fields.clock),
{
    reveal_strlit(" vol: ");
    reveal_strlit("%  temp: ");
    reveal_strlit("C  bat: ");
    reveal_strlit("%  cpu: ");
    reveal_strlit("%  mem: ");
    reveal_strlit("%  ");
    lemma_number_nul_free(fields.volume);
    lemma_number_nul_free(fields.temperature);
    lemma_number_nul_free(fields.cpu);
    lemma_number_nul_free(fields.memory);
    let battery = flush_left(fields.battery, 2);
    lemma_nul_free_concat(fields.battery, blanks((2 - fields.battery.len()) as nat));
    let s1 = " vol: "@ + number(fields.volume);
    lemma_nul_free_concat(" vol: "@, number(fields.volume));
    let s2 = s1 + "%  temp: "@;
    lemma_nul_free_concat(s1, "%  temp: "@);
    let s3 = s2 + number(fields.temperature);
    lemma_nul_free_concat(s2, number(fields.temperature));
    let s4 = s3 + "C  bat: "@;
    lemma_nul_free_concat(s3, "C  bat: "@);
    let s5 = s4 + battery;
    lemma_nul_free_concat(s4, battery);
    let s6 = s5 + "%  cpu: "@;
    lemma_nul_free_concat(s5, "%  cpu: "@);
    let s7 = s6 + number(fields.cpu);
    lemma_nul_free_concat(s6, number(fields.cpu));
    let s8 = s7 + "%  mem: "@;
    lemma_nul_free_concat(s7, "%  mem: "@);
    let s9 = s8 + number(fields.memory);
    lemma_nul_free_concat(s8, number(fields.memory));
    let s10 = s9 + "%  "@;
    lemma_nul_free_concat(s9, "%  "@);
    lemma_nul_free_concat(s10, fields.clock);
    assert(layout(fields) == s10 + fields.clock);
}

fn append_number(out: &mut String, n: u64)
    ensures
        final(out)@ == old(out)@ + number(n as nat),
{
    proof {
        lemma_decimal_len(n as nat);
        reveal_strlit(" ");
    }
    if n < 10 {
        out.append(" ");
        assert(" "@ =~= blanks(1));
    }
    append_decimal(out, n);
    assert(out@ =~= old(out)@ + number(n as nat));
}

fn append_token(out: &mut String, token: &str)
    ensures
        final(out)@ == old(out)@ + flush_left(token@, 2),
{
    proof {
        reveal_strlit(" ");
        reveal_strlit("  ");
    }
    let len: usize = token.unicode_len();
    out.append(token);
    if len == 0 {
        out.append("  ");
        assert("  "@ =~= blanks(2));
    } else if len == 1 {
        out.append(" ");
        assert(" "@ =~= blanks(1));
    }
    assert(out@ =~= old(out)@ + flush_left(token@, 2));
}

/// The bytes of `text`, unless one of them is NUL: then a warning that says
/// where the first one stands.
pub fn encode_text(text: &str) -> (encoded: Result<Vec<u8>, Warning>)
    ensures
        match encoded {
            Ok(bytes) => bytes@ == encode_utf8(text@) && !bytes@.contains(0u8),
            Err(warning) => encode_utf8(text@).contains(0u8) && warning == (Warning::NulInLine {
                position: nul_position(encode_utf8(text@)) as usize,
            }),
        },
        encoded is Ok <==> nul_free(text@),
{
    proof {
        lemma_nul_byte_iff_nul_char(text@);
    }
    let bytes = text.as_bytes();
    let mut i: usize = 0;
    while i < bytes.len()
        invariant
            i <= bytes.len(),
            bytes@ == encode_utf8(text@),
            encode_utf8(text@).contains(0u8) <==> !nul_free(text@),
            forall|k: int| 0 <= k < i ==> bytes@[k] != 0,
        decreases bytes.len() - i,
    {
        if bytes[i] == 0 {
            proof {
                lemma_first_nul_unique(encode_utf8(text@), i as int);
            }
            return Err(Warning::NulInLine { position: i });
        }
        i += 1;
    }
    Ok(slice_to_vec(bytes))
}

impl DisplayLine {
    /// The line's text.
    pub fn format(&self) -> (text: String)
        ensures
            text@ == layout(self@),
    {
        let mut text = String::from_str(" vol: ");
        append_number(&mut text, self.volume as u64);
        text.append("%  temp: ");
        append_number(&mut text, self.temperature as u64);
        text.append("C  bat: ");
        append_token(&mut text, self.battery.as_str());
        text.append("%  cpu: ");
        append_number(&mut text, self.cpu as u64);
        text.append("%  mem: ");
        append_number(&mut text, self.memory);
        text.append("%  ");
        text.append(self.clock.as_str());
        text
    }

    /// The line's bytes for the window property, or the reason why the line
    /// cannot be published.
    ///
    /// The line is refused exactly when its battery token or its clock holds
    /// a NUL character.
    pub fn encode(&self) -> (encoded: Result<Vec<u8>, Warning>)
        ensures
            match encoded {
                Ok(bytes) => bytes@ == encode_utf8(layout(self@)) && !bytes@.contains(0u8),
                Err(warning) => encode_utf8(layout(self@)).contains(0u8) && warning
                    == (Warning::NulInLine {
                    position: nul_position(encode_utf8(layout(self@))) as usize,
                }),
            },
            encoded is Ok <==> nul_free(self.battery@) && nul_free(self.clock@),
    {
        proof {
            lemma_layout_nul_free(self@);
        }
        let text = self.format();
        encode_text(text.as_str())
    }
}

} // verus!
