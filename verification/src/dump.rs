//! The text of the register dump: the thirty-two registers, four to a line,
//! each with its number, its name and its value in hexadecimal.

use crate::register::Register;
use vstd::prelude::*;
use vstd::string::*;

verus! {

/// The bytes of a text whose characters are all ASCII: one byte for each
/// character.
pub open spec fn ascii(text: Seq<char>) -> Seq<u8> {
    Seq::new(text.len(), |i: int| text[i] as u8)
}

/// The character that stands for the digit `d` in hexadecimal notation:
/// `0` to `9` for zero to nine, `a` to `f` for ten to fifteen.
pub open spec fn digit(d: nat) -> u8 {
    ascii("0123456789abcdef"@)[d as int]
}

/// The hexadecimal notation of `value`, most significant digit first, with
/// no zeros in front and a single `0` for zero.
pub open spec fn hex_digits(value: nat) -> Seq<u8>
    decreases value,
{
    if value < 16 {
        seq![digit(value)]
    } else {
        hex_digits(value / 16).push(digit(value % 16))
    }
}

/// `text` at the right end of a field of `width` columns: as many blanks
/// in front of it as it is shorter than the field.
pub open spec fn right_aligned(text: Seq<u8>, width: nat) -> Seq<u8> {
    let blanks = if text.len() < width {
        width - text.len()
    } else {
        0
    };
    Seq::new(blanks as nat, |i: int| ' ' as u8) + text
}

/// The value of a register as it is dumped: `0x` and its hexadecimal
/// notation, at the right end of a field of 18 columns.
pub open spec fn hex_field(value: u64) -> Seq<u8> {
    right_aligned(ascii("0x"@) + hex_digits(value as nat), 18)
}

/// The entry of register `r` with the value `value`: `x`, the number of the
/// register in two decimal digits, its name in brackets, `=` and the value.
pub open spec fn entry(r: Register, value: u64) -> Seq<u8> {
    ascii("x"@) + seq![digit((r.index() / 10) as nat), digit((r.index() % 10) as nat)] + ascii(
        "("@,
    ) + ascii(r.spec_abi_name()) + ascii(")="@) + hex_field(value)
}

/// Line number `row` of the dump: the entries of four registers in a row,
/// with a blank between two of them and a line feed at the end.
pub open spec fn line(regs: Seq<u64>, row: int) -> Seq<u8> {
    entry(Register::of(4 * row), regs[4 * row]) + ascii(" "@) + entry(
        Register::of(4 * row + 1),
        regs[4 * row + 1],
    ) + ascii(" "@) + entry(Register::of(4 * row + 2), regs[4 * row + 2]) + ascii(" "@) + entry(
        Register::of(4 * row + 3),
        regs[4 * row + 3],
    ) + ascii("\n"@)
}

/// The first `rows` lines of the dump of the registers `regs`.
pub open spec fn lines(regs: Seq<u64>, rows: nat) -> Seq<u8>
    decreases rows,
{
    if rows == 0 {
        Seq::empty()
    } else {
        lines(regs, (rows - 1) as nat) + line(regs, rows - 1)
    }
}

/// The dump of the registers `regs`: eight lines of four registers each.
pub open spec fn dump_text(regs: Seq<u64>) -> Seq<u8> {
    lines(regs, 8)
}

/// Appends the bytes of an ASCII text.
fn push_text(out: &mut Vec<u8>, text: &str)
    requires
        text.is_ascii(),
    ensures
        final(out)@ == old(out)@ + ascii(text@),
{
    proof {
        is_ascii_spec_bytes(text);
    }
    out.extend_from_slice(text.as_bytes());
}

/// Appends the character of one hexadecimal digit.
fn push_digit(out: &mut Vec<u8>, d: u64)
    requires
        d < 16,
    ensures
        final(out)@ == old(out)@.push(digit(d as nat)),
{
    let digits = "0123456789abcdef";
    proof {
        reveal_strlit("0123456789abcdef");
        is_ascii_spec_bytes(digits);
    }
    out.push(digits.as_bytes()[d as usize]);
}

/// Appends the hexadecimal notation of `value`.
fn push_hex(out: &mut Vec<u8>, value: u64)
    ensures
        final(out)@ == old(out)@ + hex_digits(value as nat),
    decreases value,
{
    if value >= 16 {
        push_hex(out, value / 16);
    }
    push_digit(out, value % 16);
}

/// Appends the value of a register in its field of 18 columns.
fn push_hex_field(out: &mut Vec<u8>, value: u64)
    ensures
        final(out)@ == old(out)@ + hex_field(value),
{
    let mut text: Vec<u8> = Vec::new();
    proof {
        reveal_strlit("0x");
    }
    push_text(&mut text, "0x");
    push_hex(&mut text, value);
    let ghost before = out@;
    let mut width: usize = text.len();
    while width < 18
        invariant
            text@.len() <= width <= 18 || width == text@.len(),
            out@ == before + Seq::new((width - text@.len()) as nat, |i: int| ' ' as u8),
        decreases 18 - width,
    {
        out.push(' ' as u8);
        width += 1;
    }
    out.extend_from_slice(text.as_slice());
}

/// Appends the entry of register `r` with the value `value`.
fn push_entry(out: &mut Vec<u8>, r: Register, value: u64)
    ensures
        final(out)@ == old(out)@ + entry(r, value),
{
    proof {
        reveal_strlit("x");
        reveal_strlit("(");
        reveal_strlit(")=");
    }
    let number: u64 = r.index() as u64;
    push_text(out, "x");
    push_digit(out, number / 10);
    push_digit(out, number % 10);
    push_text(out, "(");
    push_text(out, r.abi_name());
    push_text(out, ")=");
    push_hex_field(out, value);
}

/// Returns the entry of register `r` with the value `value`.
fn render_entry(r: Register, value: u64) -> (text: Vec<u8>)
    ensures
        text@ == entry(r, value),
{
    let mut text: Vec<u8> = Vec::new();
    push_entry(&mut text, r, value);
    assert(text@ =~= entry(r, value));
    text
}

/// Returns line number `row` of the dump of the registers `regs`.
fn render_line(regs: &[u64; 32], row: usize) -> (text: Vec<u8>)
    requires
        row < 8,
    ensures
        text@ == line(regs@, row as int),
{
    proof {
        reveal_strlit(" ");
        reveal_strlit("\n");
    }
    let first: usize = 4 * row;
    let mut text = render_entry(Register::from_index(first).unwrap(), regs[first]);
    push_text(&mut text, " ");
    push_entry(&mut text, Register::from_index(first + 1).unwrap(), regs[first + 1]);
    push_text(&mut text, " ");
    push_entry(&mut text, Register::from_index(first + 2).unwrap(), regs[first + 2]);
    push_text(&mut text, " ");
    push_entry(&mut text, Register::from_index(first + 3).unwrap(), regs[first + 3]);
    push_text(&mut text, "\n");
    text
}

/// Returns the dump of the registers `regs` as ASCII text.
pub fn render(regs: &[u64; 32]) -> (text: Vec<u8>)
    ensures
        text@ == dump_text(regs@),
{
    let mut text: Vec<u8> = Vec::new();
    let mut row: usize = 0;
    while row < 8
        invariant
            row <= 8,
            text@ == lines(regs@, row as nat),
        decreases 8 - row,
    {
        let next = render_line(regs, row);
        text.extend_from_slice(next.as_slice());
        row += 1;
    }
    text
}

} // verus!
