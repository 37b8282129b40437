//! Socket addresses as text.

use vstd::prelude::*;
use vstd::utf8::*;

verus! {

/// The character of a decimal digit.
pub open spec fn digit_char(digit: nat) -> char {
    (48 + digit) as char
}

/// A number in decimal, without leading zeros.
pub open spec fn decimal(n: nat) -> Seq<char>
    decreases n,
{
    if n < 10 {
        seq![digit_char(n)]
    } else {
        decimal(n / 10).push(digit_char(n % 10))
    }
}

/// The number that a row of decimal digits stands for.
pub open spec fn decimal_value(text: Seq<char>) -> int
    decreases text.len(),
{
    if text.len() == 0 {
        0
    } else {
        decimal_value(text.drop_last()) * 10 + (text.last() as int - 48)
    }
}

/// An IPv4 address in dotted decimal.
pub open spec fn ipv4_text(a: u8, b: u8, c: u8, d: u8) -> Seq<char> {
    decimal(a as nat) + "."@ + decimal(b as nat) + "."@ + decimal(c as nat) + "."@ + decimal(
        d as nat,
    )
}

/// A host and a port, with a colon between them.
pub open spec fn host_port(host: Seq<char>, port: u16) -> Seq<char> {
    host + ":"@ + decimal(port as nat)
}

fn digit_text(digit: u16) -> (text: &'static str)
    requires
        digit < 10,
    ensures
        text@ == seq![digit_char(digit as nat)],
{
    proof {
        reveal_strlit("0");
        reveal_strlit("1");
        reveal_strlit("2");
        reveal_strlit("3");
        reveal_strlit("4");
        reveal_strlit("5");
        reveal_strlit("6");
        reveal_strlit("7");
        reveal_strlit("8");
        reveal_strlit("9");
    }
    let text: &'static str = match digit {
        0 => "0",
        1 => "1",
        2 => "2",
        3 => "3",
        4 => "4",
        5 => "5",
        6 => "6",
        7 => "7",
        8 => "8",
        _ => "9",
    };
    assert(text@ =~= seq![digit_char(digit as nat)]);
    text
}

/// Appends a number in decimal.
pub fn push_decimal(out: &mut String, n: u16)
    ensures
        final(out)@ == old(out)@ + decimal(n as nat),
    decreases n,
{
    if n >= 10 {
        push_decimal(out, n / 10);
    }
    out.append(digit_text(n % 10));
    assert(out@ =~= old(out)@ + decimal(n as nat));
}

/// An IPv4 address in dotted decimal.
pub fn format_ipv4(a: u8, b: u8, c: u8, d: u8) -> (text: String)
    ensures
        text@ == ipv4_text(a, b, c, d),
{
    let mut out = String::new();
    push_decimal(&mut out, a as u16);
    out.append(".");
    push_decimal(&mut out, b as u16);
    out.append(".");
    push_decimal(&mut out, c as u16);
    out.append(".");
    push_decimal(&mut out, d as u16);
    assert(out@ =~= ipv4_text(a, b, c, d));
    out
}

/// A host and a port, with a colon between them.
pub fn format_host_port(host: String, port: u16) -> (text: String)
    ensures
        text@ == host_port(host@, port),
{
    let mut out = host;
    out.append(":");
    push_decimal(&mut out, port);
    out
}

/// A number can be read back from its decimal digits.
pub proof fn lemma_decimal_read_back(n: nat)
    ensures
        decimal_value(decimal(n)) == n,
    decreases n,
{
    reveal_with_fuel(decimal_value, 2);
    if n < 10 {
        assert(decimal(n).drop_last() =~= seq![]);
    } else {
        lemma_decimal_read_back(n / 10);
        assert(decimal(n).drop_last() =~= decimal(n / 10));
    }
}

/// Decimal digits are ASCII, and a port has at most five of them.
pub proof fn lemma_decimal_shape(n: nat)
    ensures
        is_ascii_chars(decimal(n)),
        0 < decimal(n).len(),
        n < 100000 ==> decimal(n).len() <= 5,
    decreases n,
{
    reveal_with_fuel(decimal, 6);
    if n >= 10 {
        lemma_decimal_shape(n / 10);
    }
    assert forall|i: int| 0 <= i < decimal(n).len() implies (#[trigger] decimal(n)[i] as nat) < 128 by {
        if n >= 10 && i < decimal(n).len() - 1 {
            assert(decimal(n)[i] == decimal(n / 10)[i]);
        }
    }
}

/// A number is written with the digits `0` to `9`, without a zero before them.
pub proof fn lemma_decimal_digits(n: nat)
    ensures
        forall|i: int| 0 <= i < decimal(n).len() ==> '0' <= #[trigger] decimal(n)[i] <= '9',
        n > 0 ==> decimal(n)[0] != '0',
        n == 0 ==> decimal(n) == seq!['0'],
    decreases n,
{
    if n >= 10 {
        lemma_decimal_digits(n / 10);
        lemma_decimal_shape(n / 10);
        assert(decimal(n)[0] == decimal(n / 10)[0]);
        assert forall|i: int| 0 <= i < decimal(n).len() implies '0' <= #[trigger] decimal(n)[i]
            <= '9' by {
            if i < decimal(n).len() - 1 {
                assert(decimal(n)[i] == decimal(n / 10)[i]);
            }
        }
    }
}

/// A row of digits stands for ten times what it stands for without the last, and the
/// last.
pub proof fn lemma_decimal_value_digits(text: Seq<char>, last: char)
    ensures
        decimal_value(Seq::<char>::empty()) == 0,
        decimal_value(text.push(last)) == 10 * decimal_value(text) + (last as int - '0' as int),
{
    assert(text.push(last).drop_last() =~= text);
}

/// An IPv4 address is its four numbers with a dot between each two, and a host stands
/// before its port with a colon between them.
pub proof fn lemma_address_texts(a: u8, b: u8, c: u8, d: u8, host: Seq<char>, port: u16)
    ensures
        ipv4_text(a, b, c, d) == decimal(a as nat) + seq!['.'] + decimal(b as nat) + seq!['.']
            + decimal(c as nat) + seq!['.'] + decimal(d as nat),
        host_port(host, port) == host + seq![':'] + decimal(port as nat),
{
    reveal_strlit(".");
    reveal_strlit(":");
    assert("."@ =~= seq!['.']);
    assert(":"@ =~= seq![':']);
}

} // verus!
