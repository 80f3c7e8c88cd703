//! Text of the messages that the library hands to its callers.
use crate::cache_type::digits_value;
use vstd::prelude::*;
use vstd::string::*;

verus! {

/// The decimal digit for a value below ten.
pub open spec fn digit(d: nat) -> char
    recommends
        d < 10,
{
    (48 + d) as char
}

/// A natural number in decimal notation, without leading zeros.
pub open spec fn decimal(n: nat) -> Seq<char>
    decreases n,
{
    if n < 10 {
        seq![digit(n)]
    } else {
        decimal(n / 10).push(digit(n % 10))
    }
}

/// The debug notation of a list of sizes, such as `[2, 3]`, up to but without the closing bracket.
pub open spec fn size_list_open(dims: Seq<usize>) -> Seq<char>
    decreases dims.len(),
{
    if dims.len() == 0 {
        "["@
    } else if dims.len() == 1 {
        "["@ + decimal(dims[0] as nat)
    } else {
        size_list_open(dims.drop_last()) + ", "@ + decimal(dims.last() as nat)
    }
}

/// The debug notation of a list of sizes, such as `[2, 3]`.
pub open spec fn size_list(dims: Seq<usize>) -> Seq<char> {
    size_list_open(dims) + "]"@
}

/// The digit of `d` as text.
fn digit_text(d: usize) -> (r: &'static str)
    requires
        d < 10,
    ensures
        r@ == seq![digit(d as nat)],
{
    proof {
        reveal_strlit("0");
        reveal_strlit("1");
        reveal_strlit("2");
        reveal_strlit("3");
        reveal_strlit("4");
        reveal_strlit("5");
        reveal_strlit("6");
        reveal_strlit("7");
        reveal_strlit("8");
        reveal_strlit("9");
    }
    if d == 0 {
        "0"
    } else if d == 1 {
        "1"
    } else if d == 2 {
        "2"
    } else if d == 3 {
        "3"
    } else if d == 4 {
        "4"
    } else if d == 5 {
        "5"
    } else if d == 6 {
        "6"
    } else if d == 7 {
        "7"
    } else if d == 8 {
        "8"
    } else {
        "9"
    }
}

/// `n` in decimal notation.
pub fn decimal_text(n: usize) -> (r: String)
    ensures
        r@ == decimal(n as nat),
    decreases n,
{
    if n < 10 {
        digit_text(n).to_owned()
    } else {
        let mut r = decimal_text(n / 10);
        r.append(digit_text(n % 10));
        r
    }
}

/// Appends `n` in decimal notation.
pub fn append_decimal(s: &mut String, n: usize)
    ensures
        final(s)@ == old(s)@ + decimal(n as nat),
{
    let t = decimal_text(n);
    s.append(t.as_str());
}

/// `dims` in debug notation.
pub fn size_list_text(dims: &Vec<usize>) -> (r: String)
    ensures
        r@ == size_list(dims@),
{
    let mut r = "[".to_owned();
    let mut i: usize = 0;
    while i < dims.len()
        invariant
            i <= dims@.len(),
            r@ == size_list_open(dims@.take(i as int)),
        decreases dims@.len() - i,
    {
        if i > 0 {
            r.append(", ");
        }
        append_decimal(&mut r, dims[i]);
        proof {
            let next = dims@.take(i + 1);
            assert(next.drop_last() =~= dims@.take(i as int));
        }
        i += 1;
    }
    assert(dims@.take(dims@.len() as int) =~= dims@);
    r.append("]");
    r
}

/// Whether two texts are the same.
pub fn same_text(a: &str, b: &str) -> (r: bool)
    ensures
        r == (a@ == b@),
{
    a.to_owned() == b.to_owned()
}

/// A number in decimal notation is read as that number, digit by digit, and has no leading zero.
pub proof fn lemma_decimals_are_read_back(n: nat)
    ensures
        digits_value(decimal(n)) == n,
        decimal(n).len() > 0,
        forall|i: int| 0 <= i < decimal(n).len() ==> '0' <= #[trigger] decimal(n)[i] && decimal(n)[i]
            <= '9',
        n > 0 ==> decimal(n)[0] != '0',
    decreases n,
{
    if n < 10 {
        assert(decimal(n).drop_last() =~= Seq::<char>::empty());
        assert(digits_value(Seq::<char>::empty()) == 0);
    } else {
        lemma_decimals_are_read_back(n / 10);
        assert(decimal(n).drop_last() =~= decimal(n / 10));
    }
}

/// A list of sizes is written between brackets, with a comma and a space before each but the first.
pub proof fn lemma_lists_grow(dims: Seq<usize>, n: usize)
    ensures
        size_list(Seq::<usize>::empty()) == seq!['[', ']'],
        size_list(dims).len() >= 2,
        size_list(dims).last() == ']',
        size_list(dims.push(n)) == size_list(dims).drop_last() + (if dims.len() == 0 {
            Seq::<char>::empty()
        } else {
            seq![',', ' ']
        }) + decimal(n as nat) + seq![']'],
{
    reveal_strlit("[");
    reveal_strlit("]");
    reveal_strlit(", ");
    assert("["@ =~= seq!['[']);
    assert("]"@ =~= seq![']']);
    assert(", "@ =~= seq![',', ' ']);
    assert(size_list(Seq::<usize>::empty()) =~= seq!['[', ']']);
    lemma_list_opens(dims);
    assert(size_list(dims).drop_last() =~= size_list_open(dims));
    assert(dims.push(n).drop_last() =~= dims);
    if dims.len() == 0 {
        assert(dims =~= Seq::<usize>::empty());
        assert(size_list_open(dims) =~= seq!['[']);
    }
    assert(size_list(dims.push(n)) =~= size_list(dims).drop_last() + (if dims.len() == 0 {
        Seq::<char>::empty()
    } else {
        seq![',', ' ']
    }) + decimal(n as nat) + seq![']']);
}

/// A list starts with its bracket.
proof fn lemma_list_opens(dims: Seq<usize>)
    ensures
        size_list_open(dims).len() >= 1,
    decreases dims.len(),
{
    reveal_strlit("[");
    if dims.len() > 1 {
        lemma_list_opens(dims.drop_last());
    }
}

} // verus!
