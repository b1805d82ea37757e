use vstd::prelude::*;

use vstd::string::StringExecFns;

use crate::listing::{InsnRecord, Unit};

verus! {

/// The uppercase hexadecimal digit for a value below 16.
pub open spec fn hex_char(n: int) -> char {
    if n == 0 {
        '0'
    } else if n == 1 {
        '1'
    } else if n == 2 {
        '2'
    } else if n == 3 {
        '3'
    } else if n == 4 {
        '4'
    } else if n == 5 {
        '5'
    } else if n == 6 {
        '6'
    } else if n == 7 {
        '7'
    } else if n == 8 {
        '8'
    } else if n == 9 {
        '9'
    } else if n == 10 {
        'A'
    } else if n == 11 {
        'B'
    } else if n == 12 {
        'C'
    } else if n == 13 {
        'D'
    } else if n == 14 {
        'E'
    } else {
        'F'
    }
}

/// The two uppercase hexadecimal digits of a byte.
pub open spec fn byte_pair(b: u8) -> Seq<char> {
    seq![hex_char(b as int / 16), hex_char(b as int % 16)]
}

/// Slot `i` of a byte column: the digit pair of byte `i` while one exists,
/// two blank spaces from there on.
pub open spec fn slot(bytes: Seq<u8>, i: int) -> Seq<char> {
    if 0 <= i < bytes.len() {
        byte_pair(bytes[i])
    } else {
        seq![' ', ' ']
    }
}

/// The first `n` slots of a byte column, separated by single spaces.
pub open spec fn column_prefix(bytes: Seq<u8>, n: int) -> Seq<char>
    decreases n,
{
    if n <= 0 {
        Seq::empty()
    } else if n == 1 {
        slot(bytes, 0)
    } else {
        column_prefix(bytes, n - 1) + seq![' '] + slot(bytes, n - 1)
    }
}

/// The byte column of a span: 16 space-separated two-character slots
/// (more when the span is longer than 16 bytes), blank-padded past the
/// span's end.
pub open spec fn byte_column(bytes: Seq<u8>) -> Seq<char> {
    column_prefix(
        bytes,
        if bytes.len() < 16 {
            16
        } else {
            bytes.len() as int
        },
    )
}

/// The uppercase hexadecimal digits of a value, most significant first,
/// with no leading zeros.
pub open spec fn hex_rep(a: nat) -> Seq<char>
    decreases a,
{
    if a < 16 {
        seq![hex_char(a as int)]
    } else {
        hex_rep(a / 16).push(hex_char((a % 16) as int))
    }
}

/// An address: uppercase hexadecimal, zero-padded to at least four digits.
pub open spec fn addr_chars(a: nat) -> Seq<char> {
    if a < 0x10 {
        seq!['0', '0', '0'] + hex_rep(a)
    } else if a < 0x100 {
        seq!['0', '0'] + hex_rep(a)
    } else if a < 0x1000 {
        seq!['0'] + hex_rep(a)
    } else {
        hex_rep(a)
    }
}

/// `n` blank spaces.
pub open spec fn spaces(n: int) -> Seq<char>
    decreases n,
{
    if n <= 0 {
        Seq::empty()
    } else {
        spaces(n - 1).push(' ')
    }
}

/// Text left-justified in a field of eight characters: shorter text is
/// blank-padded to eight, longer text stands as it is.
pub open spec fn pad8(s: Seq<char>) -> Seq<char> {
    s + spaces(8 - s.len())
}

/// The mnemonic column of a record; empty when the engine reported none.
pub open spec fn mnemonic_text(rec: InsnRecord) -> Seq<char> {
    match rec.mnemonic {
        Some(m) => m@,
        None => Seq::empty(),
    }
}

/// The assembly text of a record: the mnemonic alone when there is no
/// operand text, else the mnemonic in an eight-character field followed by
/// the operands.
pub open spec fn asm_text(rec: InsnRecord) -> Seq<char> {
    match rec.op_str {
        Some(op) => pad8(mnemonic_text(rec)) + seq![' '] + op@,
        None => mnemonic_text(rec),
    }
}

/// An instruction line: address, `": "`, the byte column, one space, and
/// the assembly text.
pub open spec fn insn_line(rec: InsnRecord) -> Seq<char> {
    addr_chars(rec.address as nat) + seq![':', ' '] + byte_column(rec.bytes@) + seq![' ']
        + asm_text(rec)
}

/// An invalid-byte line: address, `": "`, the byte column of that single
/// byte, one space, and `"??"` in place of assembly text.
pub open spec fn invalid_line(address: u64, byte: u8) -> Seq<char> {
    addr_chars(address as nat) + seq![':', ' '] + byte_column(seq![byte]) + seq![' ', '?', '?']
}

/// The line a unit renders to.
pub open spec fn unit_line(u: Unit) -> Seq<char> {
    match u {
        Unit::Instruction(rec) => insn_line(rec),
        Unit::InvalidByte { address, byte } => invalid_line(address, byte),
    }
}

fn hex_digit_str(n: u8) -> (r: &'static str)
    requires
        n < 16,
    ensures
        r@ == seq![hex_char(n as int)],
{
    let r: &'static str = match n {
        0 => "0",
        1 => "1",
        2 => "2",
        3 => "3",
        4 => "4",
        5 => "5",
        6 => "6",
        7 => "7",
        8 => "8",
        9 => "9",
        10 => "A",
        11 => "B",
        12 => "C",
        13 => "D",
        14 => "E",
        _ => "F",
    };
    proof {
        reveal_strlit("0");
        reveal_strlit("1");
        reveal_strlit("2");
        reveal_strlit("3");
        reveal_strlit("4");
        reveal_strlit("5");
        reveal_strlit("6");
        reveal_strlit("7");
        reveal_strlit("8");
        reveal_strlit("9");
        reveal_strlit("A");
        reveal_strlit("B");
        reveal_strlit("C");
        reveal_strlit("D");
        reveal_strlit("E");
        reveal_strlit("F");
        assert(r@ =~= seq![hex_char(n as int)]);
    }
    r
}

fn push_byte_hex(s: &mut String, b: u8)
    ensures
        final(s)@ == old(s)@ + byte_pair(b),
{
    s.append(hex_digit_str(b / 16));
    s.append(hex_digit_str(b % 16));
    proof {
        assert(old(s)@ + seq![hex_char(b as int / 16)] + seq![hex_char(b as int % 16)] =~= old(s)@
            + byte_pair(b));
    }
}

/// Renders the byte column of a span: 16 space-separated two-digit slots
/// (more for a longer span), blank-padded past the span's end.
pub fn format_bytes(bytes: &[u8]) -> (r: String)
    ensures
        r@ == byte_column(bytes@),
{
    let len = bytes.len();
    let count = if len < 16 {
        16
    } else {
        len
    };
    let mut s = String::new();
    let mut i: usize = 0;
    while i < count
        invariant
            len == bytes@.len(),
            count == if len < 16 {
                16int
            } else {
                len as int
            },
            i <= count,
            s@ == column_prefix(bytes@, i as int),
        decreases count - i,
    {
        proof {
            reveal_strlit(" ");
            reveal_strlit("  ");
        }
        if i > 0 {
            s.append(" ");
        }
        if i < len {
            push_byte_hex(&mut s, bytes[i]);
        } else {
            s.append("  ");
        }
        proof {
            assert(s@ =~= column_prefix(bytes@, i as int + 1));
        }
        i += 1;
    }
    s
}

fn hex_rep_exec(a: u64) -> (r: String)
    ensures
        r@ == hex_rep(a as nat),
    decreases a,
{
    if a < 16 {
        String::from_str(hex_digit_str(a as u8))
    } else {
        let mut s = hex_rep_exec(a / 16);
        s.append(hex_digit_str((a % 16) as u8));
        proof {
            assert(hex_rep((a / 16) as nat) + seq![hex_char((a % 16) as int)] =~= hex_rep(
                a as nat,
            ));
        }
        s
    }
}

/// Renders an address as uppercase hexadecimal, zero-padded to at least
/// four digits.
pub fn format_address(a: u64) -> (r: String)
    ensures
        r@ == addr_chars(a as nat),
{
    proof {
        reveal_strlit("000");
        reveal_strlit("00");
        reveal_strlit("0");
    }
    let mut s = if a < 0x10 {
        String::from_str("000")
    } else if a < 0x100 {
        String::from_str("00")
    } else if a < 0x1000 {
        String::from_str("0")
    } else {
        String::new()
    };
    let rest = hex_rep_exec(a);
    s.append(rest.as_str());
    proof {
        assert(s@ =~= addr_chars(a as nat));
    }
    s
}

fn append_pad8(s: &mut String, m: &str)
    ensures
        final(s)@ == old(s)@ + pad8(m@),
{
    s.append(m);
    let mut k = m.unicode_len();
    let ghost mlen = m@.len() as int;
    while k < 8
        invariant
            mlen == m@.len(),
            mlen <= k,
            mlen < 8 ==> k <= 8,
            mlen >= 8 ==> k == mlen,
            s@ == old(s)@ + m@ + spaces(k - mlen),
        decreases 8 - k,
    {
        proof {
            reveal_strlit(" ");
        }
        s.append(" ");
        proof {
            assert(old(s)@ + m@ + spaces(k - mlen) + seq![' '] =~= old(s)@ + m@ + spaces(
                k + 1 - mlen,
            ));
        }
        k += 1;
    }
    proof {
        assert(s@ =~= old(s)@ + pad8(m@));
    }
}

/// Renders one instruction line: the address, the byte column of the
/// instruction's machine bytes, then the mnemonic, left-justified in an
/// eight-character field when operand text follows it.
pub fn render_instruction(rec: &InsnRecord) -> (r: String)
    ensures
        r@ == insn_line(*rec),
{
    proof {
        reveal_strlit(": ");
        reveal_strlit(" ");
        reveal_strlit("");
    }
    let mut s = format_address(rec.address);
    s.append(": ");
    let col = format_bytes(rec.bytes.as_slice());
    s.append(col.as_str());
    s.append(" ");
    let mnemonic: &str = match &rec.mnemonic {
        Some(m) => m.as_str(),
        None => "",
    };
    match &rec.op_str {
        Some(op) => {
            append_pad8(&mut s, mnemonic);
            s.append(" ");
            s.append(op.as_str());
        },
        None => {
            s.append(mnemonic);
        },
    }
    proof {
        assert(s@ =~= insn_line(*rec));
    }
    s
}

/// Renders one invalid-byte line: the address, the byte column of the
/// single byte, and `??` in place of assembly text.
pub fn render_invalid_byte(address: u64, byte: u8) -> (r: String)
    ensures
        r@ == invalid_line(address, byte),
{
    proof {
        reveal_strlit(": ");
        reveal_strlit(" ??");
    }
    let mut s = format_address(address);
    s.append(": ");
    let mut one: Vec<u8> = Vec::new();
    one.push(byte);
    let col = format_bytes(one.as_slice());
    s.append(col.as_str());
    s.append(" ??");
    proof {
        assert(one@ =~= seq![byte]);
        assert(s@ =~= invalid_line(address, byte));
    }
    s
}

/// Renders any listing unit to its output line.
pub fn render_unit(u: &Unit) -> (r: String)
    ensures
        r@ == unit_line(*u),
{
    match u {
        Unit::Instruction(rec) => render_instruction(rec),
        Unit::InvalidByte { address, byte } => render_invalid_byte(*address, *byte),
    }
}

/// The byte column of a span of at most 16 bytes is always exactly 16
/// two-character slots separated by single spaces, 47 characters in all:
/// slot `i` holds the two hexadecimal digits of byte `i` while one exists
/// and two blank spaces from there on.
pub proof fn lemma_byte_column_fixed_width(bytes: Seq<u8>)
    requires
        bytes.len() <= 16,
    ensures
        byte_column(bytes).len() == 47,
        forall|i: int|
            0 <= i < 16 ==> #[trigger] byte_column(bytes).subrange(3 * i, 3 * i + 2) == slot(
                bytes,
                i,
            ),
        forall|i: int| 1 <= i < 16 ==> #[trigger] byte_column(bytes)[3 * i - 1] == ' ',
{
    lemma_column_prefix_shape(bytes, 16);
}

proof fn lemma_column_prefix_shape(bytes: Seq<u8>, n: int)
    requires
        1 <= n,
    ensures
        column_prefix(bytes, n).len() == 3 * n - 1,
        forall|i: int|
            0 <= i < n ==> #[trigger] column_prefix(bytes, n).subrange(3 * i, 3 * i + 2) == slot(
                bytes,
                i,
            ),
        forall|i: int| 1 <= i < n ==> #[trigger] column_prefix(bytes, n)[3 * i - 1] == ' ',
    decreases n,
{
    let c = column_prefix(bytes, n);
    if n == 1 {
        assert(c.subrange(0, 2) =~= slot(bytes, 0));
    } else {
        lemma_column_prefix_shape(bytes, n - 1);
        let p = column_prefix(bytes, n - 1);
        assert(c == p + seq![' '] + slot(bytes, n - 1));
        assert forall|i: int| 0 <= i < n implies #[trigger] c.subrange(3 * i, 3 * i + 2) == slot(
            bytes,
            i,
        ) by {
            if i < n - 1 {
                assert(c.subrange(3 * i, 3 * i + 2) =~= p.subrange(3 * i, 3 * i + 2));
            } else {
                assert(c.subrange(3 * i, 3 * i + 2) =~= slot(bytes, n - 1));
            }
        }
        assert forall|i: int| 1 <= i < n implies #[trigger] c[3 * i - 1] == ' ' by {
            if i < n - 1 {
                assert(c[3 * i - 1] == p[3 * i - 1]);
            } else {
                assert(c[3 * i - 1] == ' ');
            }
        }
    }
}

} // verus!
