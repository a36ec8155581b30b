//! Text helpers: decimal rendering of integers, comparison of strings and
//! the rendering of byte sequences used in error messages.
use vstd::prelude::*;
use vstd::string::*;

verus! {

/// The character of a decimal digit.
pub open spec fn digit_char(d: nat) -> char {
    if d == 0 {
        '0'
    } else if d == 1 {
        '1'
    } else if d == 2 {
        '2'
    } else if d == 3 {
        '3'
    } else if d == 4 {
        '4'
    } else if d == 5 {
        '5'
    } else if d == 6 {
        '6'
    } else if d == 7 {
        '7'
    } else if d == 8 {
        '8'
    } else {
        '9'
    }
}

/// Decimal rendering of a natural number, without leading zeros.
pub open spec fn decimal(n: nat) -> Seq<char>
    decreases n,
{
    if n < 10 {
        seq![digit_char(n)]
    } else {
        decimal(n / 10).push(digit_char(n % 10))
    }
}

/// Decimal rendering of an integer, with a leading '-' when negative.
pub open spec fn signed_decimal(n: int) -> Seq<char> {
    if n < 0 {
        seq!['-'] + decimal((-n) as nat)
    } else {
        decimal(n as nat)
    }
}

/// The one-character string of a decimal digit.
fn digit_str(d: u64) -> (r: &'static str)
    requires
        d < 10,
    ensures
        r@ == seq![digit_char(d as nat)],
{
    proof {
        reveal_strlit("0");
        reveal_strlit("1");
        reveal_strlit("2");
        reveal_strlit("3");
        reveal_strlit("4");
        reveal_strlit("5");
        reveal_strlit("6");
        reveal_strlit("7");
        reveal_strlit("8");
        reveal_strlit("9");
    }
    if d == 0 {
        "0"
    } else if d == 1 {
        "1"
    } else if d == 2 {
        "2"
    } else if d == 3 {
        "3"
    } else if d == 4 {
        "4"
    } else if d == 5 {
        "5"
    } else if d == 6 {
        "6"
    } else if d == 7 {
        "7"
    } else if d == 8 {
        "8"
    } else {
        "9"
    }
}

/// Renders `n` in decimal.
pub fn decimal_string(n: u64) -> (r: String)
    ensures
        r@ == decimal(n as nat),
    decreases n,
{
    if n < 10 {
        digit_str(n).to_owned()
    } else {
        let head = decimal_string(n / 10);
        head.concat(digit_str(n % 10))
    }
}

/// Renders `n` in decimal, with a leading '-' when negative.
pub fn signed_decimal_string(n: i64) -> (r: String)
    ensures
        r@ == signed_decimal(n as int),
{
    if n < 0 {
        let magnitude: u64 = if n == i64::MIN {
            0x8000_0000_0000_0000u64
        } else {
            (-n) as u64
        };
        proof {
            reveal_strlit("-");
        }
        "-".to_owned().concat(decimal_string(magnitude).as_str())
    } else {
        decimal_string(n as u64)
    }
}

/// The text of an optional string.
pub open spec fn opt_text(s: Option<String>) -> Option<Seq<char>> {
    match s {
        Some(t) => Some(t@),
        None => None,
    }
}

/// Whether two strings hold the same characters.
pub fn text_equals(a: &str, b: &str) -> (r: bool)
    ensures
        r == (a@ == b@),
{
    let n = a.unicode_len();
    if n != b.unicode_len() {
        return false;
    }
    let mut i: usize = 0;
    while i < n
        invariant
            n == a@.len(),
            n == b@.len(),
            i <= n,
            forall|j: int| 0 <= j < i ==> a@[j] == b@[j],
        decreases n - i,
    {
        if a.get_char(i) != b.get_char(i) {
            return false;
        }
        i = i + 1;
    }
    assert(a@ =~= b@);
    true
}

/// Debug rendering of a byte list: "[1, 2, 3]".
pub open spec fn byte_list_text(s: Seq<u8>) -> Seq<char> {
    "["@ + byte_list_items(s) + "]"@
}

/// Comma separated decimal rendering of bytes.
pub open spec fn byte_list_items(s: Seq<u8>) -> Seq<char>
    decreases s.len(),
{
    if s.len() == 0 {
        Seq::empty()
    } else if s.len() == 1 {
        decimal(s[0] as nat)
    } else {
        byte_list_items(s.drop_last()) + ", "@ + decimal(s.last() as nat)
    }
}

/// Renders bytes as a list: "[1, 2, 3]".
pub fn byte_list_string(s: &[u8]) -> (r: String)
    ensures
        r@ == byte_list_text(s@),
{
    let mut items = String::new();
    let n = s.len();
    let mut i: usize = 0;
    while i < n
        invariant
            n == s@.len(),
            i <= n,
            items@ == byte_list_items(s@.take(i as int)),
        decreases n - i,
    {
        let ghost before = s@.take(i as int);
        let d = decimal_string(s[i] as u64);
        if i > 0 {
            items.append(", ");
        }
        items.append(d.as_str());
        i = i + 1;
        proof {
            let now = s@.take(i as int);
            assert(now.drop_last() =~= before);
            if i == 1 {
                assert(before.len() == 0);
                assert(items@ =~= decimal(s@[0] as nat));
            }
        }
    }
    assert(s@.take(n as int) =~= s@);
    "[".to_owned().concat(items.as_str()).concat("]")
}

/// Lower-case hexadecimal digit.
pub open spec fn hex_char(d: nat) -> char {
    if d < 10 {
        digit_char(d)
    } else if d == 10 {
        'a'
    } else if d == 11 {
        'b'
    } else if d == 12 {
        'c'
    } else if d == 13 {
        'd'
    } else if d == 14 {
        'e'
    } else {
        'f'
    }
}

/// Lower-case hexadecimal rendering of a natural number, without leading zeros.
pub open spec fn hex(n: nat) -> Seq<char>
    decreases n,
{
    if n < 16 {
        seq![hex_char(n)]
    } else {
        hex(n / 16).push(hex_char(n % 16))
    }
}

/// Renders `n` in lower-case hexadecimal.
pub fn hex_string(n: u64) -> (r: String)
    ensures
        r@ == hex(n as nat),
    decreases n,
{
    if n < 16 {
        hex_str(n as u8).to_owned()
    } else {
        let head = hex_string(n / 16);
        head.concat(hex_str((n % 16) as u8))
    }
}

/// Rendering of one byte inside a byte string literal.
pub open spec fn byte_string_char(b: u8) -> Seq<char> {
    if b == 10 {
        "\\n"@
    } else if b == 13 {
        "\\r"@
    } else if b == 9 {
        "\\t"@
    } else if b == 92 {
        "\\\\"@
    } else if b == 34 {
        "\\\""@
    } else if b == 0 {
        "\\0"@
    } else if 0x20 <= b < 0x7f {
        seq![(b as u32) as char]
    } else {
        "\\x"@ + seq![hex_char((b / 16) as nat), hex_char((b % 16) as nat)]
    }
}

/// Rendering of bytes inside a byte string literal, without the quotes.
pub open spec fn byte_string_body(s: Seq<u8>) -> Seq<char>
    decreases s.len(),
{
    if s.len() == 0 {
        Seq::empty()
    } else {
        byte_string_body(s.drop_last()) + byte_string_char(s.last())
    }
}

/// Debug rendering of a `Bytes` buffer: b"..." with escapes.
pub open spec fn byte_string_text(s: Seq<u8>) -> Seq<char> {
    "b\""@ + byte_string_body(s) + "\""@
}

/// The one-character string of a printable ASCII byte.
fn printable_str(b: u8) -> (r: &'static str)
    requires
        0x20 <= b < 0x7f,
    ensures
        r@ == seq![(b as u32) as char],
{
    proof {
        reveal_strlit(" ");
        reveal_strlit("!");
        reveal_strlit("\"");
        reveal_strlit("#");
        reveal_strlit("$");
        reveal_strlit("%");
        reveal_strlit("&");
        reveal_strlit("'");
        reveal_strlit("(");
        reveal_strlit(")");
        reveal_strlit("*");
        reveal_strlit("+");
        reveal_strlit(",");
        reveal_strlit("-");
        reveal_strlit(".");
        reveal_strlit("/");
        reveal_strlit("0");
        reveal_strlit("1");
        reveal_strlit("2");
        reveal_strlit("3");
        reveal_strlit("4");
        reveal_strlit("5");
        reveal_strlit("6");
        reveal_strlit("7");
        reveal_strlit("8");
        reveal_strlit("9");
        reveal_strlit(":");
        reveal_strlit(";");
        reveal_strlit("<");
        reveal_strlit("=");
        reveal_strlit(">");
        reveal_strlit("?");
        reveal_strlit("@");
        reveal_strlit("A");
        reveal_strlit("B");
        reveal_strlit("C");
        reveal_strlit("D");
        reveal_strlit("E");
        reveal_strlit("F");
        reveal_strlit("G");
        reveal_strlit("H");
        reveal_strlit("I");
        reveal_strlit("J");
        reveal_strlit("K");
        reveal_strlit("L");
        reveal_strlit("M");
        reveal_strlit("N");
        reveal_strlit("O");
        reveal_strlit("P");
        reveal_strlit("Q");
        reveal_strlit("R");
        reveal_strlit("S");
        reveal_strlit("T");
        reveal_strlit("U");
        reveal_strlit("V");
        reveal_strlit("W");
        reveal_strlit("X");
        reveal_strlit("Y");
        reveal_strlit("Z");
        reveal_strlit("[");
        reveal_strlit("\\");
        reveal_strlit("]");
        reveal_strlit("^");
        reveal_strlit("_");
        reveal_strlit("`");
        reveal_strlit("a");
        reveal_strlit("b");
        reveal_strlit("c");
        reveal_strlit("d");
        reveal_strlit("e");
        reveal_strlit("f");
        reveal_strlit("g");
        reveal_strlit("h");
        reveal_strlit("i");
        reveal_strlit("j");
        reveal_strlit("k");
        reveal_strlit("l");
        reveal_strlit("m");
        reveal_strlit("n");
        reveal_strlit("o");
        reveal_strlit("p");
        reveal_strlit("q");
        reveal_strlit("r");
        reveal_strlit("s");
        reveal_strlit("t");
        reveal_strlit("u");
        reveal_strlit("v");
        reveal_strlit("w");
        reveal_strlit("x");
        reveal_strlit("y");
        reveal_strlit("z");
        reveal_strlit("{");
        reveal_strlit("|");
        reveal_strlit("}");
        reveal_strlit("~");
    }
    match b {
        32 => " ",
        33 => "!",
        34 => "\"",
        35 => "#",
        36 => "$",
        37 => "%",
        38 => "&",
        39 => "'",
        40 => "(",
        41 => ")",
        42 => "*",
        43 => "+",
        44 => ",",
        45 => "-",
        46 => ".",
        47 => "/",
        48 => "0",
        49 => "1",
        50 => "2",
        51 => "3",
        52 => "4",
        53 => "5",
        54 => "6",
        55 => "7",
        56 => "8",
        57 => "9",
        58 => ":",
        59 => ";",
        60 => "<",
        61 => "=",
        62 => ">",
        63 => "?",
        64 => "@",
        65 => "A",
        66 => "B",
        67 => "C",
        68 => "D",
        69 => "E",
        70 => "F",
        71 => "G",
        72 => "H",
        73 => "I",
        74 => "J",
        75 => "K",
        76 => "L",
        77 => "M",
        78 => "N",
        79 => "O",
        80 => "P",
        81 => "Q",
        82 => "R",
        83 => "S",
        84 => "T",
        85 => "U",
        86 => "V",
        87 => "W",
        88 => "X",
        89 => "Y",
        90 => "Z",
        91 => "[",
        92 => "\\",
        93 => "]",
        94 => "^",
        95 => "_",
        96 => "`",
        97 => "a",
        98 => "b",
        99 => "c",
        100 => "d",
        101 => "e",
        102 => "f",
        103 => "g",
        104 => "h",
        105 => "i",
        106 => "j",
        107 => "k",
        108 => "l",
        109 => "m",
        110 => "n",
        111 => "o",
        112 => "p",
        113 => "q",
        114 => "r",
        115 => "s",
        116 => "t",
        117 => "u",
        118 => "v",
        119 => "w",
        120 => "x",
        121 => "y",
        122 => "z",
        123 => "{",
        124 => "|",
        125 => "}",
        _ => "~",
    }
}

/// The one-character string of a hexadecimal digit.
fn hex_str(d: u8) -> (r: &'static str)
    requires
        d < 16,
    ensures
        r@ == seq![hex_char(d as nat)],
{
    if d < 10 {
        digit_str(d as u64)
    } else {
        proof {
            reveal_strlit("a");
            reveal_strlit("b");
            reveal_strlit("c");
            reveal_strlit("d");
            reveal_strlit("e");
            reveal_strlit("f");
        }
        if d == 10 {
            "a"
        } else if d == 11 {
            "b"
        } else if d == 12 {
            "c"
        } else if d == 13 {
            "d"
        } else if d == 14 {
            "e"
        } else {
            "f"
        }
    }
}

/// Renders one byte as inside a byte string literal.
fn byte_string_piece(b: u8) -> (r: String)
    ensures
        r@ == byte_string_char(b),
{
    if b == 10 {
        "\\n".to_owned()
    } else if b == 13 {
        "\\r".to_owned()
    } else if b == 9 {
        "\\t".to_owned()
    } else if b == 92 {
        "\\\\".to_owned()
    } else if b == 34 {
        "\\\"".to_owned()
    } else if b == 0 {
        "\\0".to_owned()
    } else if 0x20 <= b && b < 0x7f {
        printable_str(b).to_owned()
    } else {
        "\\x".to_owned().concat(hex_str(b / 16)).concat(hex_str(b % 16))
    }
}

/// Renders bytes as a byte string literal: b"..." with escapes.
pub fn byte_string_string(s: &[u8]) -> (r: String)
    ensures
        r@ == byte_string_text(s@),
{
    let mut body = String::new();
    let n = s.len();
    let mut i: usize = 0;
    while i < n
        invariant
            n == s@.len(),
            i <= n,
            body@ == byte_string_body(s@.take(i as int)),
        decreases n - i,
    {
        let ghost before = s@.take(i as int);
        let piece = byte_string_piece(s[i]);
        body.append(piece.as_str());
        i = i + 1;
        proof {
            assert(s@.take(i as int).drop_last() =~= before);
        }
    }
    assert(s@.take(n as int) =~= s@);
    "b\"".to_owned().concat(body.as_str()).concat("\"")
}

/// Why a byte sequence is not UTF-8: the length of its longest valid
/// prefix and the length of the invalid sequence that follows (`None` when
/// the input ends in the middle of a character).
#[derive(Debug, Clone, Copy, PartialEq, Eq)]
pub struct Utf8Failure {
    pub valid_up_to: usize,
    pub error_len: Option<usize>,
}

/// `f` describes why `s` is not UTF-8: `valid_up_to` is the length of the
/// longest prefix of `s` that is valid UTF-8; an invalid sequence follows it
/// (`Some` of its length), or the input ends 1 to 3 bytes after it (`None`).
pub open spec fn utf8_failure_fits(s: Seq<u8>, f: Utf8Failure) -> bool {
    &&& f.valid_up_to <= s.len()
    &&& vstd::utf8::valid_utf8(s.take(f.valid_up_to as int))
    &&& forall|k: int|
        f.valid_up_to < k <= s.len() ==> !vstd::utf8::valid_utf8(#[trigger] s.take(k))
    &&& match f.error_len {
        Some(n) => 1 <= n && f.valid_up_to + n <= s.len(),
        None => 1 <= s.len() - f.valid_up_to <= 3,
    }
}

/// Decodes UTF-8 bytes (`std::str::from_utf8`). On failure, the error's
/// `valid_up_to` and `error_len` are returned.
#[verifier::external_body]
pub(crate) fn decode_utf8(s: &[u8]) -> (r: Result<&str, Utf8Failure>)
    ensures
        r is Ok <==> vstd::utf8::valid_utf8(s@),
        r matches Ok(t) ==> vstd::utf8::encode_utf8(t@) == s@,
        r matches Err(f) ==> utf8_failure_fits(s@, f),
{
    match std::str::from_utf8(s) {
        Ok(t) => Ok(t),
        Err(e) => Err(Utf8Failure { valid_up_to: e.valid_up_to(), error_len: e.error_len() }),
    }
}

/// Text of a decoding failure, as the `Debug` rendering of the error prints it.
pub open spec fn utf8_failure_text(f: Utf8Failure) -> Seq<char> {
    "Utf8Error { valid_up_to: "@ + decimal(f.valid_up_to as nat) + ", error_len: "@ + match f.error_len {
        Some(n) => "Some("@ + decimal(n as nat) + ")"@,
        None => "None"@,
    } + " }"@
}

/// Renders a decoding failure.
pub fn utf8_failure_string(f: &Utf8Failure) -> (r: String)
    ensures
        r@ == utf8_failure_text(*f),
{
    let mut m = "Utf8Error { valid_up_to: ".to_owned();
    m.append(decimal_string(f.valid_up_to as u64).as_str());
    m.append(", error_len: ");
    match f.error_len {
        Some(n) => {
            m.append("Some(");
            m.append(decimal_string(n as u64).as_str());
            m.append(")");
        },
        None => {
            m.append("None");
        },
    }
    m.append(" }");
    m
}

/// The `Debug` rendering of a string: quoted, with escapes.
pub uninterp spec fn debug_str_text(s: Seq<char>) -> Seq<char>;

/// Printable ASCII text without quote nor backslash: its `Debug` rendering
/// is the text between double quotes.
pub open spec fn is_plain_ascii(s: Seq<char>) -> bool {
    forall|i: int|
        0 <= i < s.len() ==> 0x20 <= (#[trigger] s[i]) as u32 && (s[i] as u32) < 0x7f && s[i]
            != '"' && s[i] != '\\'
}

/// Renders a string with `format!("{:?}", s)`.
#[verifier::external_body]
pub(crate) fn debug_str(s: &str) -> (r: String)
    ensures
        r@ == debug_str_text(s@),
        is_plain_ascii(s@) ==> r@ == "\""@ + s@ + "\""@,
{
    format!("{:?}", s)
}

} // verus!
