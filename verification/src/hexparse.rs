use vstd::prelude::*;

verus! {

/// Why a hex payload was rejected.
#[derive(Clone, Copy, Debug, PartialEq, Eq, Structural)]
pub enum HexError {
    /// After whitespace removal an odd number of characters remained.
    OddLength,
    /// After whitespace removal a character was not a hexadecimal digit.
    InvalidDigit,
}

/// Whitespace, as Unicode's White_Space property defines it: the ASCII
/// whitespace characters plus the next line, no-break space, ogham space
/// mark, en/em and figure/punctuation spaces, line and paragraph
/// separators, narrow no-break space, medium mathematical space and
/// ideographic space.
pub open spec fn is_ws_char(c: char) -> bool {
    ||| 0x09 <= c as u32 <= 0x0D
    ||| c as u32 == 0x20
    ||| c as u32 == 0x85
    ||| c as u32 == 0xA0
    ||| c as u32 == 0x1680
    ||| 0x2000 <= c as u32 <= 0x200A
    ||| c as u32 == 0x2028
    ||| c as u32 == 0x2029
    ||| c as u32 == 0x202F
    ||| c as u32 == 0x205F
    ||| c as u32 == 0x3000
}

/// The characters of `s` that are not whitespace, in order.
pub open spec fn strip_ws(s: Seq<char>) -> Seq<char>
    decreases s.len(),
{
    if s.len() == 0 {
        Seq::empty()
    } else {
        let rest = strip_ws(s.drop_last());
        if is_ws_char(s.last()) {
            rest
        } else {
            rest.push(s.last())
        }
    }
}

/// A hexadecimal digit: `0`-`9`, `a`-`f` or `A`-`F`.
pub open spec fn is_hex_digit(c: char) -> bool {
    (0x30 <= c as u32 && c as u32 <= 0x39) || (0x61 <= c as u32 && c as u32 <= 0x66) || (0x41
        <= c as u32 && c as u32 <= 0x46)
}

/// The numeric value of a hexadecimal digit.
pub open spec fn hex_val(c: char) -> u8 {
    if 0x30 <= c as u32 && c as u32 <= 0x39 {
        (c as u32 - 0x30) as u8
    } else if 0x61 <= c as u32 && c as u32 <= 0x66 {
        (c as u32 - 0x61 + 10) as u8
    } else {
        (c as u32 - 0x41 + 10) as u8
    }
}

/// Every character of `s` is a hexadecimal digit.
pub open spec fn all_hex(s: Seq<char>) -> bool {
    forall|i: int| 0 <= i < s.len() ==> is_hex_digit(#[trigger] s[i])
}

/// The bytes denoted by an even-length sequence of hexadecimal digits:
/// byte `i` is the value of the digit pair at positions `2i` and `2i + 1`.
pub open spec fn hex_bytes(s: Seq<char>) -> Seq<u8> {
    Seq::new((s.len() / 2) as nat, |i: int| ((hex_val(s[2 * i]) * 16 + hex_val(s[2 * i + 1])) as u8))
}

fn is_ws(c: char) -> (b: bool)
    ensures
        b == is_ws_char(c),
{
    let n = c as u32;
    (0x09 <= n && n <= 0x0D) || n == 0x20 || n == 0x85 || n == 0xA0 || n == 0x1680 || (0x2000 <= n
        && n <= 0x200A) || n == 0x2028 || n == 0x2029 || n == 0x202F || n == 0x205F || n == 0x3000
}

fn is_hex(c: char) -> (b: bool)
    ensures
        b == is_hex_digit(c),
{
    let n = c as u32;
    (0x30 <= n && n <= 0x39) || (0x61 <= n && n <= 0x66) || (0x41 <= n && n <= 0x46)
}

fn hex_digit_val(c: char) -> (v: u8)
    requires
        is_hex_digit(c),
    ensures
        v == hex_val(c),
        v < 16,
{
    let n = c as u32;
    if 0x30 <= n && n <= 0x39 {
        (n - 0x30) as u8
    } else if 0x61 <= n && n <= 0x66 {
        (n - 0x61 + 10) as u8
    } else {
        (n - 0x41 + 10) as u8
    }
}

/// Decodes a whitespace-tolerant hexadecimal payload. All whitespace
/// characters are removed first; the remainder must consist of an even
/// number of hexadecimal digits and yields one byte per digit pair.
/// An odd remainder is reported as `OddLength`; an even remainder holding
/// a non-digit is reported as `InvalidDigit`.
pub fn decode_hex(s: &str) -> (r: Result<Vec<u8>, HexError>)
    ensures
        ({
            let t = strip_ws(s@);
            &&& (r is Ok <==> t.len() % 2 == 0 && all_hex(t))
            &&& (r matches Ok(bytes) ==> bytes@ == hex_bytes(t))
            &&& (r == Err::<Vec<u8>, HexError>(HexError::OddLength) <==> t.len() % 2 != 0)
            &&& (r == Err::<Vec<u8>, HexError>(HexError::InvalidDigit) <==> t.len() % 2 == 0
                && !all_hex(t))
        }),
{
    let n = s.unicode_len();
    let mut stripped: Vec<char> = Vec::new();
    let mut i: usize = 0;
    while i < n
        invariant
            n == s@.len(),
            i <= n,
            stripped@ == strip_ws(s@.take(i as int)),
        decreases n - i,
    {
        let c = s.get_char(i);
        proof {
            assert(s@.take(i + 1).drop_last() =~= s@.take(i as int));
            assert(s@.take(i + 1).last() == s@[i as int]);
        }
        if !is_ws(c) {
            stripped.push(c);
        }
        i += 1;
    }
    proof {
        assert(s@.take(n as int) =~= s@);
    }
    let ghost t = strip_ws(s@);
    if stripped.len() % 2 != 0 {
        return Err(HexError::OddLength);
    }
    let m = stripped.len();
    let mut bytes: Vec<u8> = Vec::new();
    let mut j: usize = 0;
    while j < m
        invariant
            t == strip_ws(s@),
            stripped@ == t,
            m == t.len(),
            m % 2 == 0,
            j % 2 == 0,
            j <= m,
            forall|k: int| 0 <= k < j ==> is_hex_digit(#[trigger] t[k]),
            bytes@.len() == j / 2,
            forall|k: int|
                0 <= k < j / 2 ==> bytes@[k] == ((hex_val(t[2 * k]) * 16 + hex_val(
                    t[2 * k + 1],
                )) as u8),
        decreases m - j,
    {
        assert(j + 1 < m);
        let c1 = stripped[j];
        let c2 = stripped[j + 1];
        if !is_hex(c1) {
            proof {
                assert(!is_hex_digit(t[j as int]));
            }
            return Err(HexError::InvalidDigit);
        }
        if !is_hex(c2) {
            proof {
                assert(!is_hex_digit(t[j + 1]));
            }
            return Err(HexError::InvalidDigit);
        }
        let b = hex_digit_val(c1) * 16 + hex_digit_val(c2);
        bytes.push(b);
        j += 2;
    }
    proof {
        assert(bytes@ =~= hex_bytes(t));
    }
    Ok(bytes)
}

} // verus!
