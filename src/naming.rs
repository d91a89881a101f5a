use vstd::prelude::*;
use vstd::string::*;

verus! {

/// Prefix that turns a method name into the name under which the guest
/// exports it; the host uses the same prefix to address the export.
pub open spec fn wire_name(name: Seq<char>) -> Seq<char> {
    "plugin_"@ + name
}

/// The character of a decimal digit.
pub open spec fn digit_char(d: nat) -> char {
    if d == 0 { '0' }
    else if d == 1 { '1' }
    else if d == 2 { '2' }
    else if d == 3 { '3' }
    else if d == 4 { '4' }
    else if d == 5 { '5' }
    else if d == 6 { '6' }
    else if d == 7 { '7' }
    else if d == 8 { '8' }
    else { '9' }
}

/// The decimal rendering of a natural number, without leading zeros.
pub open spec fn decimal(n: nat) -> Seq<char>
    decreases n,
{
    if n < 10 {
        seq![digit_char(n)]
    } else {
        decimal(n / 10).push(digit_char(n % 10))
    }
}

/// The binding name given to the parameter at position `i`.
pub open spec fn arg_name(i: nat) -> Seq<char> {
    "arg"@ + decimal(i)
}

/// Name of the boundary-handle parameter that host wrappers take first.
pub open spec fn handle_param_name() -> Seq<char> {
    "__plugin__"@
}

proof fn lemma_digit_char_injective(a: nat, b: nat)
    requires
        a < 10,
        b < 10,
        digit_char(a) == digit_char(b),
    ensures
        a == b,
{
}

proof fn lemma_decimal_nonempty(n: nat)
    ensures
        decimal(n).len() >= 1,
    decreases n,
{
    if n >= 10 {
        lemma_decimal_nonempty(n / 10);
    }
}

/// Different numbers have different decimal renderings.
pub proof fn lemma_decimal_injective(a: nat, b: nat)
    requires
        decimal(a) == decimal(b),
    ensures
        a == b,
    decreases a + b,
{
    if a < 10 && b < 10 {
        assert(decimal(a)[0] == digit_char(a));
        assert(decimal(b)[0] == digit_char(b));
        lemma_digit_char_injective(a, b);
    } else if a < 10 {
        lemma_decimal_nonempty(b / 10);
        assert(decimal(b).len() >= 2);
    } else if b < 10 {
        lemma_decimal_nonempty(a / 10);
        assert(decimal(a).len() >= 2);
    } else {
        let da = decimal(a);
        let db = decimal(b);
        assert(da.drop_last() == decimal(a / 10));
        assert(db.drop_last() == decimal(b / 10));
        lemma_decimal_injective(a / 10, b / 10);
        assert(da.last() == digit_char(a % 10));
        assert(db.last() == digit_char(b % 10));
        lemma_digit_char_injective(a % 10, b % 10);
    }
}

/// Synthesised parameter names are collision-free: two positions get the
/// same name only if they are the same position.
pub proof fn lemma_arg_name_injective(i: nat, j: nat)
    requires
        arg_name(i) == arg_name(j),
    ensures
        i == j,
{
    let p = "arg"@;
    assert(arg_name(i).subrange(p.len() as int, arg_name(i).len() as int) == decimal(i));
    assert(arg_name(j).subrange(p.len() as int, arg_name(j).len() as int) == decimal(j));
    lemma_decimal_injective(i, j);
}

/// No synthesised parameter name is the name of the boundary handle.
pub proof fn lemma_arg_name_not_handle(i: nat)
    ensures
        arg_name(i) != handle_param_name(),
{
    reveal_strlit("arg");
    reveal_strlit("__plugin__");
    assert(arg_name(i)[0] == 'a');
    assert(handle_param_name()[0] == '_');
}

/// The wire name of a method: the export prefix followed by the method name.
pub fn export_name(name: &str) -> (r: String)
    ensures
        r@ == wire_name(name@),
{
    let mut r = String::from_str("plugin_");
    r.append(name);
    r
}

fn digit_str(d: usize) -> (r: &'static str)
    requires
        d < 10,
    ensures
        r@ == seq![digit_char(d as nat)],
{
    proof {
        reveal_strlit("0");
        reveal_strlit("1");
        reveal_strlit("2");
        reveal_strlit("3");
        reveal_strlit("4");
        reveal_strlit("5");
        reveal_strlit("6");
        reveal_strlit("7");
        reveal_strlit("8");
        reveal_strlit("9");
    }
    if d == 0 { "0" }
    else if d == 1 { "1" }
    else if d == 2 { "2" }
    else if d == 3 { "3" }
    else if d == 4 { "4" }
    else if d == 5 { "5" }
    else if d == 6 { "6" }
    else if d == 7 { "7" }
    else if d == 8 { "8" }
    else { "9" }
}

/// Appends the decimal rendering of `n` to `out`.
pub fn push_decimal(out: &mut String, n: usize)
    ensures
        final(out)@ == old(out)@ + decimal(n as nat),
    decreases n,
{
    if n < 10 {
        out.append(digit_str(n));
    } else {
        push_decimal(out, n / 10);
        out.append(digit_str(n % 10));
        assert(decimal(n as nat) == decimal((n / 10) as nat).push(digit_char((n % 10) as nat)));
    }
}

/// The synthesised binding name of the parameter at position `i`.
pub fn param_name(i: usize) -> (r: String)
    ensures
        r@ == arg_name(i as nat),
{
    let mut r = String::from_str("arg");
    push_decimal(&mut r, i);
    r
}

} // verus!
