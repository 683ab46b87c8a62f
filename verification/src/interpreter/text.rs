use super::data_reader::push_byte_char;
use vstd::prelude::*;
use vstd::string::StringExecFns;

verus! {

/// The character of the decimal digit `d`.
pub open spec fn spec_digit(d: nat) -> char {
    ((48 + d) as u8) as char
}

/// The decimal numeral of `n`, without leading zeros.
pub open spec fn spec_decimal(n: nat) -> Seq<char>
    decreases n,
{
    if n < 10 {
        seq![spec_digit(n)]
    } else {
        spec_decimal(n / 10).push(spec_digit(n % 10))
    }
}

/// The decimal numeral of a number is not empty.
pub proof fn lemma_decimal_not_empty(n: nat)
    ensures
        spec_decimal(n).len() >= 1,
    decreases n,
{
    if n >= 10 {
        lemma_decimal_not_empty(n / 10);
    }
}

/// Two numbers with the same decimal numeral are the same number.
pub proof fn lemma_decimal_injective(a: nat, b: nat)
    requires
        spec_decimal(a) == spec_decimal(b),
    ensures
        a == b,
    decreases a,
{
    lemma_decimal_not_empty(a / 10);
    lemma_decimal_not_empty(b / 10);
    if a < 10 && b < 10 {
        assert(spec_decimal(a)[0] == spec_digit(a));
        assert(spec_decimal(b)[0] == spec_digit(b));
    } else if a >= 10 && b >= 10 {
        let x = spec_decimal(a / 10);
        let y = spec_decimal(b / 10);
        assert(x.push(spec_digit(a % 10)).drop_last() =~= x);
        assert(y.push(spec_digit(b % 10)).drop_last() =~= y);
        assert(x.push(spec_digit(a % 10)).last() == spec_digit(a % 10));
        assert(y.push(spec_digit(b % 10)).last() == spec_digit(b % 10));
        lemma_decimal_injective(a / 10, b / 10);
    } else if a < 10 {
        assert(spec_decimal(a).len() == 1);
        assert(spec_decimal(b).len() == spec_decimal(b / 10).len() + 1);
    } else {
        assert(spec_decimal(b).len() == 1);
        assert(spec_decimal(a).len() == spec_decimal(a / 10).len() + 1);
    }
}

/// The decimal numeral of `n`, with a minus sign before it where `n` is negative.
pub open spec fn spec_signed_decimal(n: int) -> Seq<char> {
    if n < 0 {
        seq!['-'] + spec_decimal((-n) as nat)
    } else {
        spec_decimal(n as nat)
    }
}

/// Adds the decimal numeral of `n` to `text`.
pub fn push_decimal(text: &mut String, n: u64)
    ensures
        final(text)@ == old(text)@ + spec_decimal(n as nat),
    decreases n,
{
    if n >= 10 {
        push_decimal(text, n / 10);
    }
    let digit: u8 = 48 + (n % 10) as u8;
    push_byte_char(text, digit);
    proof {
        if n >= 10 {
            assert(text@ =~= old(text)@ + spec_decimal(n as nat));
        } else {
            assert(text@ =~= old(text)@ + spec_decimal(n as nat));
        }
    }
}

/// The decimal numeral of `n`.
pub fn u64_to_string(n: u64) -> (text: String)
    ensures
        text@ == spec_decimal(n as nat),
{
    let mut text = String::new();
    push_decimal(&mut text, n);
    assert(text@ =~= spec_decimal(n as nat));
    text
}

/// The decimal numeral of `n`, with its sign.
pub fn i64_to_string(n: i64) -> (text: String)
    ensures
        text@ == spec_signed_decimal(n as int),
{
    let mut text = String::new();
    if n < 0 {
        push_byte_char(&mut text, 45);
        let magnitude: u64 = if n == i64::MIN {
            0x8000_0000_0000_0000
        } else {
            (-n) as u64
        };
        push_decimal(&mut text, magnitude);
        assert(text@ =~= spec_signed_decimal(n as int));
    } else {
        push_decimal(&mut text, n as u64);
        assert(text@ =~= spec_signed_decimal(n as int));
    }
    text
}

/// The full name of a type: its namespace, a dot, and its name.
pub open spec fn spec_full_name(namespace: Seq<char>, name: Seq<char>) -> Seq<char> {
    namespace + seq!['.'] + name
}

pub fn full_name(namespace: &String, name: &String) -> (full: String)
    ensures
        full@ == spec_full_name(namespace@, name@),
{
    let mut full: String = namespace.clone();
    push_byte_char(&mut full, 46);
    full.append(name.as_str());
    full
}

/// The name `name` with a backquote and the decimal numeral of `n` behind it.
pub open spec fn spec_suffixed(name: Seq<char>, n: nat) -> Seq<char> {
    name + seq!['`'] + spec_decimal(n)
}

pub fn suffixed(name: &String, n: u32) -> (out: String)
    ensures
        out@ == spec_suffixed(name@, n as nat),
{
    let mut out: String = name.clone();
    push_byte_char(&mut out, 96);
    push_decimal(&mut out, n as u64);
    assert(out@ =~= spec_suffixed(name@, n as nat));
    out
}

} // verus!
