//! Disassembly: decoding a chunk instruction by instruction, and the text
//! that shows each instruction.
use vstd::prelude::*;
use crate::chunk::Chunk;
use crate::operation::{decode, op_name, op_width, Operation};

verus! {

/// The line column of a disassembled instruction.
#[derive(Debug, Clone, Copy, PartialEq, Eq, Structural)]
pub enum LineMark {
    /// Same line as the byte just before the instruction.
    Continued,
    /// The instruction's source line.
    Line(usize),
}

/// What the bytes at an offset decode to.
#[derive(Debug, Clone, Copy, PartialEq, Eq, Structural)]
pub enum Decoded {
    /// An operation without operand.
    Simple(Operation),
    /// A constant load, with its pool index.
    Constant(u8),
    /// A constant load whose pool index names no constant.
    MissingConstant(u8),
    /// An operation whose operand lies past the end of the code.
    Truncated(Operation),
    /// A byte that encodes no operation.
    Unknown(u8),
}

/// One disassembled instruction.
#[derive(Debug, Clone, Copy, PartialEq, Eq, Structural)]
pub struct Disassembled {
    pub offset: usize,
    pub line: LineMark,
    pub decoded: Decoded,
    /// Offset of the instruction that follows.
    pub next: usize,
}

/// The line column for the instruction at `offset`.
pub open spec fn line_mark_at(lines: Seq<usize>, offset: nat) -> LineMark {
    if offset > 0 && lines[offset as int] == lines[offset - 1] {
        LineMark::Continued
    } else {
        LineMark::Line(lines[offset as int])
    }
}

/// What the code at `offset` decodes to, with `n_consts` constants in the pool.
pub open spec fn decoded_at(code: Seq<u8>, n_consts: nat, offset: nat) -> Decoded {
    match decode(code[offset as int]) {
        None => Decoded::Unknown(code[offset as int]),
        Some(Operation::Constant) => if offset + 1 >= code.len() {
            Decoded::Truncated(Operation::Constant)
        } else if code[offset + 1int] >= n_consts {
            Decoded::MissingConstant(code[offset + 1int])
        } else {
            Decoded::Constant(code[offset + 1int])
        },
        Some(op) => Decoded::Simple(op),
    }
}

/// Bytes taken by the instruction at `offset`; an unknown byte counts as one.
pub open spec fn width_at(code: Seq<u8>, offset: nat) -> nat {
    match decode(code[offset as int]) {
        None => 1,
        Some(op) => op_width(op),
    }
}

/// The instruction at `offset` of a chunk with this code, line table and
/// number of constants.
pub open spec fn instruction_at(
    code: Seq<u8>,
    lines: Seq<usize>,
    n_consts: nat,
    offset: nat,
) -> Disassembled {
    Disassembled {
        offset: offset as usize,
        line: line_mark_at(lines, offset),
        decoded: decoded_at(code, n_consts, offset),
        next: (offset + width_at(code, offset)) as usize,
    }
}

impl<V> Chunk<V> {
    /// Decodes the instruction at `offset`.
    pub fn disassemble_instruction(&self, offset: usize) -> (r: Disassembled)
        requires
            self.wf(),
            offset < self.code().len(),
        ensures
            r == instruction_at(self.code(), self.lines(), self.constants().len(), offset as nat),
    {
        proof {
            self.lemma_tables_in_step();
        }
        let line = self.line(offset);
        let mark = if offset > 0 && line == self.line(offset - 1) {
            LineMark::Continued
        } else {
            LineMark::Line(line)
        };
        let byte = self.instruction(offset);
        let (decoded, width) = match Operation::try_from_byte(byte) {
            Err(b) => (Decoded::Unknown(b), 1),
            Ok(Operation::Constant) => {
                if offset + 1 >= self.code_count() {
                    (Decoded::Truncated(Operation::Constant), Operation::Constant.width())
                } else {
                    let index = self.instruction(offset + 1);
                    if index as usize >= self.constant_count() {
                        (Decoded::MissingConstant(index), Operation::Constant.width())
                    } else {
                        (Decoded::Constant(index), Operation::Constant.width())
                    }
                }
            },
            Ok(op) => (Decoded::Simple(op), op.width()),
        };
        Disassembled { offset, line: mark, decoded, next: offset + width }
    }

    /// Decodes the whole chunk from offset 0, each instruction's width giving
    /// where the next one starts.
    pub fn disassemble(&self) -> (r: Vec<Disassembled>)
        requires
            self.wf(),
        ensures
            r@.len() == 0 <==> self.code().len() == 0,
            r@.len() > 0 ==> r@[0].offset == 0,
            r@.len() > 0 ==> r@.last().next >= self.code().len(),
            forall|k: int|
                0 <= k < r@.len() ==> r@[k].offset < self.code().len() && #[trigger] r@[k]
                    == instruction_at(
                        self.code(),
                        self.lines(),
                        self.constants().len(),
                        r@[k].offset as nat,
                    ),
            forall|k: int| 0 <= k < r@.len() - 1 ==> #[trigger] r@[k + 1].offset == r@[k].next,
    {
        proof {
            self.lemma_tables_in_step();
        }
        let mut out: Vec<Disassembled> = Vec::new();
        let mut offset: usize = 0;
        let count = self.code_count();
        while offset < count
            invariant
                self.wf(),
                count == self.code().len(),
                count <= usize::MAX / 2,
                out@.len() == 0 <==> offset == 0,
                out@.len() > 0 ==> out@[0].offset == 0,
                out@.len() > 0 ==> out@.last().next == offset,
                offset <= count + 1,
                forall|k: int|
                    0 <= k < out@.len() ==> out@[k].offset < count && #[trigger] out@[k]
                        == instruction_at(
                            self.code(),
                            self.lines(),
                            self.constants().len(),
                            out@[k].offset as nat,
                        ),
                forall|k: int|
                    0 <= k < out@.len() - 1 ==> #[trigger] out@[k + 1].offset == out@[k].next,
            decreases count + 1 - offset,
        {
            let d = self.disassemble_instruction(offset);
            out.push(d);
            offset = d.next;
        }
        out
    }
}

/// The decimal digit `d`.
pub open spec fn digit(d: nat) -> char {
    if d == 0 {
        '0'
    } else if d == 1 {
        '1'
    } else if d == 2 {
        '2'
    } else if d == 3 {
        '3'
    } else if d == 4 {
        '4'
    } else if d == 5 {
        '5'
    } else if d == 6 {
        '6'
    } else if d == 7 {
        '7'
    } else if d == 8 {
        '8'
    } else {
        '9'
    }
}

/// `n` written in decimal, without leading zeros.
pub open spec fn decimal(n: nat) -> Seq<char>
    decreases n,
{
    if n < 10 {
        seq![digit(n)]
    } else {
        decimal(n / 10) + seq![digit(n % 10)]
    }
}

/// `n` copies of `c`.
pub open spec fn repeat_char(c: char, n: nat) -> Seq<char> {
    Seq::new(n, |_i: int| c)
}

/// `s` right-aligned in a field of `w` characters filled with `c`.
pub open spec fn pad_left(s: Seq<char>, c: char, w: nat) -> Seq<char> {
    if s.len() >= w {
        s
    } else {
        repeat_char(c, (w - s.len()) as nat) + s
    }
}

/// `s` left-aligned in a field of `w` characters filled with spaces.
pub open spec fn pad_right(s: Seq<char>, w: nat) -> Seq<char> {
    if s.len() >= w {
        s
    } else {
        s + repeat_char(' ', (w - s.len()) as nat)
    }
}

/// The line column, with its trailing space.
pub open spec fn line_text(m: LineMark) -> Seq<char> {
    match m {
        LineMark::Continued => seq![' ', ' ', ' ', '|', ' '],
        LineMark::Line(l) => pad_left(decimal(l as nat), ' ', 4) + seq![' '],
    }
}

/// A constant load's name column and pool index.
pub open spec fn constant_prefix(i: u8) -> Seq<char> {
    pad_right(op_name(Operation::Constant), 16) + seq![' '] + decimal(i as nat)
}

/// The instruction column; `value` is the constant's text.
pub open spec fn decoded_text(d: Decoded, value: Seq<char>) -> Seq<char> {
    match d {
        Decoded::Simple(op) => op_name(op),
        Decoded::Constant(i) => constant_prefix(i) + seq![' ', '\''] + value + seq!['\''],
        Decoded::MissingConstant(i) => constant_prefix(i) + seq![
            ' ',
            '<',
            'm',
            'i',
            's',
            's',
            'i',
            'n',
            'g',
            '>',
        ],
        Decoded::Truncated(op) => op_name(op),
        Decoded::Unknown(b) => seq![
            'U',
            'n',
            'k',
            'n',
            'o',
            'w',
            'n',
            ' ',
            'o',
            'p',
            'c',
            'o',
            'd',
            'e',
            ' ',
        ] + decimal(b as nat),
    }
}

/// The text of one instruction: offset padded with zeros to four digits,
/// the line column, then the instruction.
pub open spec fn instruction_text(d: Disassembled, value: Seq<char>) -> Seq<char> {
    pad_left(decimal(d.offset as nat), '0', 4) + seq![' '] + line_text(d.line) + decoded_text(
        d.decoded,
        value,
    )
}

/// The heading printed above a chunk's instructions.
pub open spec fn header_text(name: Seq<char>) -> Seq<char> {
    seq!['=', '=', ' '] + name + seq![' ', '=', '=']
}

/// The one-character string of digit `d`.
fn digit_str(d: usize) -> (r: &'static str)
    requires
        d < 10,
    ensures
        r@ == seq![digit(d as nat)],
{
    proof {
        reveal_strlit("0");
        reveal_strlit("1");
        reveal_strlit("2");
        reveal_strlit("3");
        reveal_strlit("4");
        reveal_strlit("5");
        reveal_strlit("6");
        reveal_strlit("7");
        reveal_strlit("8");
        reveal_strlit("9");
    }
    match d {
        0 => "0",
        1 => "1",
        2 => "2",
        3 => "3",
        4 => "4",
        5 => "5",
        6 => "6",
        7 => "7",
        8 => "8",
        _ => "9",
    }
}

/// Appends `n` in decimal.
fn push_decimal(s: &mut String, n: usize)
    ensures
        final(s)@ == old(s)@ + decimal(n as nat),
    decreases n,
{
    if n >= 10 {
        push_decimal(s, n / 10);
    }
    s.append(digit_str(n % 10));
    proof {
        assert(final(s)@ =~= old(s)@ + decimal(n as nat));
    }
}

/// `n` in decimal, with its length in characters.
fn decimal_string(n: usize) -> (r: (String, usize))
    ensures
        r.0@ == decimal(n as nat),
        r.1 == r.0@.len(),
{
    let mut s = String::new();
    push_decimal(&mut s, n);
    let len = s.as_str().unicode_len();
    (s, len)
}

/// Appends `n` copies of the single character of `unit`.
fn push_repeat(s: &mut String, unit: &str, n: usize)
    requires
        unit@.len() == 1,
    ensures
        final(s)@ == old(s)@ + repeat_char(unit@[0], n as nat),
{
    let mut i: usize = 0;
    while i < n
        invariant
            unit@.len() == 1,
            i <= n,
            s@ == old(s)@ + repeat_char(unit@[0], i as nat),
        decreases n - i,
    {
        s.append(unit);
        i = i + 1;
        proof {
            assert(s@ =~= old(s)@ + repeat_char(unit@[0], i as nat));
        }
    }
}

/// Appends `n` in decimal, right-aligned in `w` characters filled with `fill`.
fn push_padded_decimal(s: &mut String, n: usize, fill: &str, w: usize)
    requires
        fill@.len() == 1,
    ensures
        final(s)@ == old(s)@ + pad_left(decimal(n as nat), fill@[0], w as nat),
{
    let (digits, len) = decimal_string(n);
    if len < w {
        push_repeat(s, fill, w - len);
    }
    s.append(digits.as_str());
    proof {
        assert(final(s)@ =~= old(s)@ + pad_left(decimal(n as nat), fill@[0], w as nat));
    }
}

/// The heading shown above a chunk named `name`.
pub fn header(name: &str) -> (r: String)
    ensures
        r@ == header_text(name@),
{
    proof {
        reveal_strlit("== ");
        reveal_strlit(" ==");
    }
    let mut s = String::new();
    s.append("== ");
    s.append(name);
    s.append(" ==");
    proof {
        assert(s@ =~= header_text(name@));
    }
    s
}

/// Appends the line column for `m`.
fn push_line_text(s: &mut String, m: LineMark)
    ensures
        final(s)@ == old(s)@ + line_text(m),
{
    proof {
        reveal_strlit(" ");
        reveal_strlit("   | ");
    }
    match m {
        LineMark::Continued => s.append("   | "),
        LineMark::Line(l) => {
            push_padded_decimal(s, l, " ", 4);
            s.append(" ");
        },
    }
    assert(final(s)@ =~= old(s)@ + line_text(m));
}

/// Appends a constant load's name column and pool index.
fn push_constant_prefix(s: &mut String, i: u8)
    ensures
        final(s)@ == old(s)@ + constant_prefix(i),
{
    proof {
        reveal_strlit(" ");
    }
    let name = Operation::Constant.name();
    s.append(name);
    let n = name.unicode_len();
    if n < 16 {
        push_repeat(s, " ", 16 - n);
    }
    s.append(" ");
    push_decimal(s, i as usize);
    assert(final(s)@ =~= old(s)@ + constant_prefix(i));
}

/// Appends the instruction column for `d`.
fn push_decoded_text(s: &mut String, d: Decoded, value: &str)
    ensures
        final(s)@ == old(s)@ + decoded_text(d, value@),
{
    proof {
        reveal_strlit("Unknown opcode ");
        reveal_strlit(" '");
        reveal_strlit("'");
        reveal_strlit(" <missing>");
    }
    match d {
        Decoded::Simple(op) => s.append(op.name()),
        Decoded::Constant(i) => {
            push_constant_prefix(s, i);
            s.append(" '");
            s.append(value);
            s.append("'");
            assert(final(s)@ =~= old(s)@ + decoded_text(d, value@));
        },
        Decoded::MissingConstant(i) => {
            push_constant_prefix(s, i);
            s.append(" <missing>");
            assert(final(s)@ =~= old(s)@ + decoded_text(d, value@));
        },
        Decoded::Truncated(op) => s.append(op.name()),
        Decoded::Unknown(b) => {
            s.append("Unknown opcode ");
            push_decimal(s, b as usize);
            assert(final(s)@ =~= old(s)@ + decoded_text(d, value@));
        },
    }
}

/// The text that shows `d`; `value` is how the caller writes the constant
/// that a constant load refers to, and is used for nothing else.
pub fn render_instruction(d: &Disassembled, value: &str) -> (r: String)
    ensures
        r@ == instruction_text(*d, value@),
{
    proof {
        reveal_strlit("0");
        reveal_strlit(" ");
    }
    let mut s = String::new();
    push_padded_decimal(&mut s, d.offset, "0", 4);
    s.append(" ");
    push_line_text(&mut s, d.line);
    push_decoded_text(&mut s, d.decoded, value);
    assert(s@ =~= instruction_text(*d, value@));
    s
}

} // verus!
