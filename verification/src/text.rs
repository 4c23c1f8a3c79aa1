//! Text helpers: suffix and equality tests on string slices, and decimal
//! rendering of integers.
use vstd::prelude::*;
use vstd::string::StrSliceExecFns;
use vstd::string::StringExecFns;

verus! {

broadcast use vstd::string::group_string_axioms;

/// `end` is a suffix of `s`.
pub open spec fn has_suffix(s: Seq<char>, end: Seq<char>) -> bool {
    end.len() <= s.len() && s.subrange(s.len() - end.len(), s.len() as int) == end
}

/// Does `str` end with `end`?
pub fn ends_with(str: &str, end: &str) -> (r: bool)
    ensures
        r == has_suffix(str@, end@),
{
    let n = str.unicode_len();
    let m = end.unicode_len();
    if m > n {
        return false;
    }
    let mut i: usize = 0;
    while i < m
        invariant
            n == str@.len(),
            m == end@.len(),
            m <= n,
            i <= m,
            forall|j: int| 0 <= j < i ==> str@[n - m + j] == end@[j],
        decreases m - i,
    {
        if str.get_char(n - m + i) != end.get_char(i) {
            assert(str@.subrange(n - m, n as int)[i as int] != end@[i as int]);
            return false;
        }
        i += 1;
    }
    assert(str@.subrange(n - m, n as int) =~= end@);
    true
}

/// Are the two strings the same text?
pub fn str_eq(a: &str, b: &str) -> (r: bool)
    ensures
        r == (a@ == b@),
{
    let n = a.unicode_len();
    let m = b.unicode_len();
    if n != m {
        return false;
    }
    let mut i: usize = 0;
    while i < n
        invariant
            n == a@.len(),
            m == b@.len(),
            n == m,
            i <= n,
            forall|j: int| 0 <= j < i ==> a@[j] == b@[j],
        decreases n - i,
    {
        if a.get_char(i) != b.get_char(i) {
            return false;
        }
        i += 1;
    }
    assert(a@ =~= b@);
    true
}

/// The decimal digit character for `d` in `0..10`.
pub open spec fn digit_char(d: int) -> char {
    if d == 0 {
        '0'
    } else if d == 1 {
        '1'
    } else if d == 2 {
        '2'
    } else if d == 3 {
        '3'
    } else if d == 4 {
        '4'
    } else if d == 5 {
        '5'
    } else if d == 6 {
        '6'
    } else if d == 7 {
        '7'
    } else if d == 8 {
        '8'
    } else {
        '9'
    }
}

/// The decimal digits of a natural number, most significant first.
pub open spec fn nat_digits(n: nat) -> Seq<char>
    decreases n,
{
    if n < 10 {
        seq![digit_char(n as int)]
    } else {
        nat_digits(n / 10).push(digit_char((n % 10) as int))
    }
}

/// The decimal text of an integer, with a leading `-` when negative.
pub open spec fn int_text(v: int) -> Seq<char> {
    if v < 0 {
        seq!['-'] + nat_digits((-v) as nat)
    } else {
        nat_digits(v as nat)
    }
}

/// The number a decimal digit character stands for.
pub open spec fn digit_value(c: char) -> int {
    (c as int) - ('0' as int)
}

/// The number that a text of decimal digits, most significant first,
/// stands for.
pub open spec fn decimal_value(s: Seq<char>) -> int
    decreases s.len(),
{
    if s.len() == 0 {
        0
    } else {
        10 * decimal_value(s.drop_last()) + digit_value(s.last())
    }
}

/// The decimal text of a natural number is made of the digits `0` to `9`,
/// reads back as the number, and has no leading zero.
pub proof fn lemma_nat_digits_read_back(n: nat)
    ensures
        forall|i: int| 0 <= i < nat_digits(n).len() ==> '0' <= #[trigger] nat_digits(n)[i] <= '9',
        decimal_value(nat_digits(n)) == n,
        nat_digits(n).len() >= 1,
        nat_digits(n)[0] == '0' ==> n == 0,
    decreases n,
{
    lemma_digit_value((n % 10) as int);
    if n >= 10 {
        lemma_nat_digits_read_back(n / 10);
        let s = nat_digits(n);
        assert(s.drop_last() =~= nat_digits(n / 10));
        assert(s[0] == nat_digits(n / 10)[0]);
        assert(n == 10 * (n / 10) + n % 10);
    } else {
        let s = nat_digits(n);
        assert(s.drop_last() =~= Seq::<char>::empty());
        assert(decimal_value(Seq::<char>::empty()) == 0);
        assert(n % 10 == n);
    }
}

proof fn lemma_digit_value(d: int)
    requires
        0 <= d < 10,
    ensures
        digit_value(digit_char(d)) == d,
        '0' <= digit_char(d) <= '9',
{
}

/// The decimal text of an integer reads back as the integer: its digits
/// after a `-` for a negative one.
pub proof fn lemma_int_text_read_back(v: int)
    ensures
        v >= 0 ==> decimal_value(int_text(v)) == v,
        v < 0 ==> int_text(v)[0] == '-' && decimal_value(int_text(v).drop_first()) == -v,
{
    if v >= 0 {
        lemma_nat_digits_read_back(v as nat);
    } else {
        lemma_nat_digits_read_back((-v) as nat);
        assert(int_text(v).drop_first() =~= nat_digits((-v) as nat));
    }
}

/// Appends the digit character for `d`.
fn push_digit(s: &mut String, d: u64)
    requires
        d < 10,
    ensures
        final(s)@ == old(s)@.push(digit_char(d as int)),
{
    let t = if d == 0 {
        "0"
    } else if d == 1 {
        "1"
    } else if d == 2 {
        "2"
    } else if d == 3 {
        "3"
    } else if d == 4 {
        "4"
    } else if d == 5 {
        "5"
    } else if d == 6 {
        "6"
    } else if d == 7 {
        "7"
    } else if d == 8 {
        "8"
    } else {
        "9"
    };
    proof {
        reveal_strlit("0");
        reveal_strlit("1");
        reveal_strlit("2");
        reveal_strlit("3");
        reveal_strlit("4");
        reveal_strlit("5");
        reveal_strlit("6");
        reveal_strlit("7");
        reveal_strlit("8");
        reveal_strlit("9");
    }
    s.append(t);
    assert(s@ =~= old(s)@.push(digit_char(d as int)));
}

/// Appends the decimal digits of `n`.
fn push_nat_digits(s: &mut String, n: u64)
    ensures
        final(s)@ == old(s)@ + nat_digits(n as nat),
    decreases n,
{
    if n < 10 {
        push_digit(s, n);
        assert(old(s)@.push(digit_char(n as int)) =~= old(s)@ + nat_digits(n as nat));
    } else {
        push_nat_digits(s, n / 10);
        push_digit(s, n % 10);
        assert(s@ =~= old(s)@ + nat_digits(n as nat));
    }
}

/// The decimal text of `v`.
pub fn int_to_string(v: i64) -> (r: String)
    ensures
        r@ == int_text(v as int),
{
    let mut s = String::new();
    if v < 0 {
        s.append("-");
        proof {
            reveal_strlit("-");
        }
        let mag: u64 = if v == i64::MIN {
            9223372036854775808u64
        } else {
            (-v) as u64
        };
        push_nat_digits(&mut s, mag);
        assert(s@ =~= int_text(v as int));
    } else {
        push_nat_digits(&mut s, v as u64);
        assert(s@ =~= int_text(v as int));
    }
    s
}

/// Appends `t` to `s`.
pub fn push_str(s: &mut String, t: &str)
    ensures
        final(s)@ == old(s)@ + t@,
{
    s.append(t);
}

/// Printable ASCII text, which `{:?}` renders with only `"` and `\\`
/// escaped.
pub open spec fn printable(s: Seq<char>) -> bool {
    forall|i: int| 0 <= i < s.len() ==> ' ' <= #[trigger] s[i] <= '~'
}

/// The characters that `{:?}` writes for one printable character.
pub open spec fn escape_char(c: char) -> Seq<char> {
    if c == '"' || c == '\\' {
        seq!['\\', c]
    } else {
        seq![c]
    }
}

/// The body of `{:?}` of printable text, without the surrounding quotes.
pub open spec fn escaped(s: Seq<char>) -> Seq<char>
    decreases s.len(),
{
    if s.len() == 0 {
        seq![]
    } else {
        escaped(s.drop_last()) + escape_char(s.last())
    }
}

/// `{:?}` of printable text: quoted and escaped.
pub open spec fn quoted(s: Seq<char>) -> Seq<char> {
    seq!['"'] + escaped(s) + seq!['"']
}

/// The message for a parameter that was given an invalid value; `expected`
/// and `actual` are source text describing the valid values and the value
/// given.
pub open spec fn invalid_param(name: Seq<char>, expected: Seq<char>, actual: Seq<char>) -> Seq<
    char,
> {
    "Expected "@ + quoted(expected) + " for "@ + quoted(name) + " but received "@ + quoted(actual)
}

/// Appends `{:?}` of printable text.
pub(crate) fn push_quoted(s: &mut String, t: &str)
    requires
        printable(t@),
    ensures
        final(s)@ == old(s)@ + quoted(t@),
{
    s.append("\"");
    proof {
        reveal_strlit("\"");
    }
    let ghost start = s@;
    let n = t.unicode_len();
    let mut i: usize = 0;
    while i < n
        invariant
            n == t@.len(),
            i <= n,
            printable(t@),
            s@ == start + escaped(t@.subrange(0, i as int)),
        decreases n - i,
    {
        let c = t.get_char(i);
        assert(' ' <= t@[i as int] <= '~');
        assert(t@.subrange(0, i + 1).drop_last() =~= t@.subrange(0, i as int));
        if c == '"' {
            s.append("\\\"");
            proof {
                reveal_strlit("\\\"");
            }
        } else if c == '\\' {
            s.append("\\\\");
            proof {
                reveal_strlit("\\\\");
            }
        } else {
            push_char(s, c);
        }
        i += 1;
        assert(s@ =~= start + escaped(t@.subrange(0, i as int)));
    }
    assert(t@.subrange(0, n as int) =~= t@);
    s.append("\"");
    assert(s@ =~= old(s)@ + quoted(t@));
}

/// Appends one printable character.
fn push_char(s: &mut String, c: char)
    requires
        ' ' <= c <= '~',
    ensures
        final(s)@ == old(s)@.push(c),
{
    let ghost start = s@;
    let t = printable_char_str(c);
    s.append(t);
    assert(s@ =~= start.push(c));
}

/// The one-character text for a printable character.
fn printable_char_str(c: char) -> (r: &'static str)
    requires
        ' ' <= c <= '~',
    ensures
        r@ == seq![c],
{
    if c == ' ' {
        proof {
            reveal_strlit(" ");
        }
        " "
    }     else if c == '!' {
        proof {
            reveal_strlit("!");
        }
        "!"
    }     else if c == '"' {
        proof {
            reveal_strlit("\"");
        }
        "\""
    }     else if c == '#' {
        proof {
            reveal_strlit("#");
        }
        "#"
    }     else if c == '$' {
        proof {
            reveal_strlit("$");
        }
        "$"
    }     else if c == '%' {
        proof {
            reveal_strlit("%");
        }
        "%"
    }     else if c == '&' {
        proof {
            reveal_strlit("&");
        }
        "&"
    }     else if c == '\'' {
        proof {
            reveal_strlit("'");
        }
        "'"
    }     else if c == '(' {
        proof {
            reveal_strlit("(");
        }
        "("
    }     else if c == ')' {
        proof {
            reveal_strlit(")");
        }
        ")"
    }     else if c == '*' {
        proof {
            reveal_strlit("*");
        }
        "*"
    }     else if c == '+' {
        proof {
            reveal_strlit("+");
        }
        "+"
    }     else if c == ',' {
        proof {
            reveal_strlit(",");
        }
        ","
    }     else if c == '-' {
        proof {
            reveal_strlit("-");
        }
        "-"
    }     else if c == '.' {
        proof {
            reveal_strlit(".");
        }
        "."
    }     else if c == '/' {
        proof {
            reveal_strlit("/");
        }
        "/"
    }     else if c == '0' {
        proof {
            reveal_strlit("0");
        }
        "0"
    }     else if c == '1' {
        proof {
            reveal_strlit("1");
        }
        "1"
    }     else if c == '2' {
        proof {
            reveal_strlit("2");
        }
        "2"
    }     else if c == '3' {
        proof {
            reveal_strlit("3");
        }
        "3"
    }     else if c == '4' {
        proof {
            reveal_strlit("4");
        }
        "4"
    }     else if c == '5' {
        proof {
            reveal_strlit("5");
        }
        "5"
    }     else if c == '6' {
        proof {
            reveal_strlit("6");
        }
        "6"
    }     else if c == '7' {
        proof {
            reveal_strlit("7");
        }
        "7"
    }     else if c == '8' {
        proof {
            reveal_strlit("8");
        }
        "8"
    }     else if c == '9' {
        proof {
            reveal_strlit("9");
        }
        "9"
    }     else if c == ':' {
        proof {
            reveal_strlit(":");
        }
        ":"
    }     else if c == ';' {
        proof {
            reveal_strlit(";");
        }
        ";"
    }     else if c == '<' {
        proof {
            reveal_strlit("<");
        }
        "<"
    }     else if c == '=' {
        proof {
            reveal_strlit("=");
        }
        "="
    }     else if c == '>' {
        proof {
            reveal_strlit(">");
        }
        ">"
    }     else if c == '?' {
        proof {
            reveal_strlit("?");
        }
        "?"
    }     else if c == '@' {
        proof {
            reveal_strlit("@");
        }
        "@"
    }     else if c == 'A' {
        proof {
            reveal_strlit("A");
        }
        "A"
    }     else if c == 'B' {
        proof {
            reveal_strlit("B");
        }
        "B"
    }     else if c == 'C' {
        proof {
            reveal_strlit("C");
        }
        "C"
    }     else if c == 'D' {
        proof {
            reveal_strlit("D");
        }
        "D"
    }     else if c == 'E' {
        proof {
            reveal_strlit("E");
        }
        "E"
    }     else if c == 'F' {
        proof {
            reveal_strlit("F");
        }
        "F"
    }     else if c == 'G' {
        proof {
            reveal_strlit("G");
        }
        "G"
    }     else if c == 'H' {
        proof {
            reveal_strlit("H");
        }
        "H"
    }     else if c == 'I' {
        proof {
            reveal_strlit("I");
        }
        "I"
    }     else if c == 'J' {
        proof {
            reveal_strlit("J");
        }
        "J"
    }     else if c == 'K' {
        proof {
            reveal_strlit("K");
        }
        "K"
    }     else if c == 'L' {
        proof {
            reveal_strlit("L");
        }
        "L"
    }     else if c == 'M' {
        proof {
            reveal_strlit("M");
        }
        "M"
    }     else if c == 'N' {
        proof {
            reveal_strlit("N");
        }
        "N"
    }     else if c == 'O' {
        proof {
            reveal_strlit("O");
        }
        "O"
    }     else if c == 'P' {
        proof {
            reveal_strlit("P");
        }
        "P"
    }     else if c == 'Q' {
        proof {
            reveal_strlit("Q");
        }
        "Q"
    }     else if c == 'R' {
        proof {
            reveal_strlit("R");
        }
        "R"
    }     else if c == 'S' {
        proof {
            reveal_strlit("S");
        }
        "S"
    }     else if c == 'T' {
        proof {
            reveal_strlit("T");
        }
        "T"
    }     else if c == 'U' {
        proof {
            reveal_strlit("U");
        }
        "U"
    }     else if c == 'V' {
        proof {
            reveal_strlit("V");
        }
        "V"
    }     else if c == 'W' {
        proof {
            reveal_strlit("W");
        }
        "W"
    }     else if c == 'X' {
        proof {
            reveal_strlit("X");
        }
        "X"
    }     else if c == 'Y' {
        proof {
            reveal_strlit("Y");
        }
        "Y"
    }     else if c == 'Z' {
        proof {
            reveal_strlit("Z");
        }
        "Z"
    }     else if c == '[' {
        proof {
            reveal_strlit("[");
        }
        "["
    }     else if c == '\\' {
        proof {
            reveal_strlit("\\");
        }
        "\\"
    }     else if c == ']' {
        proof {
            reveal_strlit("]");
        }
        "]"
    }     else if c == '^' {
        proof {
            reveal_strlit("^");
        }
        "^"
    }     else if c == '_' {
        proof {
            reveal_strlit("_");
        }
        "_"
    }     else if c == '`' {
        proof {
            reveal_strlit("`");
        }
        "`"
    }     else if c == 'a' {
        proof {
            reveal_strlit("a");
        }
        "a"
    }     else if c == 'b' {
        proof {
            reveal_strlit("b");
        }
        "b"
    }     else if c == 'c' {
        proof {
            reveal_strlit("c");
        }
        "c"
    }     else if c == 'd' {
        proof {
            reveal_strlit("d");
        }
        "d"
    }     else if c == 'e' {
        proof {
            reveal_strlit("e");
        }
        "e"
    }     else if c == 'f' {
        proof {
            reveal_strlit("f");
        }
        "f"
    }     else if c == 'g' {
        proof {
            reveal_strlit("g");
        }
        "g"
    }     else if c == 'h' {
        proof {
            reveal_strlit("h");
        }
        "h"
    }     else if c == 'i' {
        proof {
            reveal_strlit("i");
        }
        "i"
    }     else if c == 'j' {
        proof {
            reveal_strlit("j");
        }
        "j"
    }     else if c == 'k' {
        proof {
            reveal_strlit("k");
        }
        "k"
    }     else if c == 'l' {
        proof {
            reveal_strlit("l");
        }
        "l"
    }     else if c == 'm' {
        proof {
            reveal_strlit("m");
        }
        "m"
    }     else if c == 'n' {
        proof {
            reveal_strlit("n");
        }
        "n"
    }     else if c == 'o' {
        proof {
            reveal_strlit("o");
        }
        "o"
    }     else if c == 'p' {
        proof {
            reveal_strlit("p");
        }
        "p"
    }     else if c == 'q' {
        proof {
            reveal_strlit("q");
        }
        "q"
    }     else if c == 'r' {
        proof {
            reveal_strlit("r");
        }
        "r"
    }     else if c == 's' {
        proof {
            reveal_strlit("s");
        }
        "s"
    }     else if c == 't' {
        proof {
            reveal_strlit("t");
        }
        "t"
    }     else if c == 'u' {
        proof {
            reveal_strlit("u");
        }
        "u"
    }     else if c == 'v' {
        proof {
            reveal_strlit("v");
        }
        "v"
    }     else if c == 'w' {
        proof {
            reveal_strlit("w");
        }
        "w"
    }     else if c == 'x' {
        proof {
            reveal_strlit("x");
        }
        "x"
    }     else if c == 'y' {
        proof {
            reveal_strlit("y");
        }
        "y"
    }     else if c == 'z' {
        proof {
            reveal_strlit("z");
        }
        "z"
    }     else if c == '{' {
        proof {
            reveal_strlit("{");
        }
        "{"
    }     else if c == '|' {
        proof {
            reveal_strlit("|");
        }
        "|"
    }     else if c == '}' {
        proof {
            reveal_strlit("}");
        }
        "}"
    }     else {
        proof {
            reveal_strlit("~");
        }
        "~"
    }
}

/// The message for a parameter that was given an invalid value.
pub fn invalid_parameter_error(name: &str, expected: &str, actual: &str) -> (r: String)
    requires
        printable(name@),
        printable(expected@),
        printable(actual@),
    ensures
        r@ == invalid_param(name@, expected@, actual@),
{
    let mut s = String::new();
    s.append("Expected ");
    push_quoted(&mut s, expected);
    s.append(" for ");
    push_quoted(&mut s, name);
    s.append(" but received ");
    push_quoted(&mut s, actual);
    s
}

} // verus!
