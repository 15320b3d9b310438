//! Record ids drawn from a counter: a fixed prefix followed by the counter's
//! decimal digits. Two counters never give the same id.

use vstd::prelude::*;

verus! {

/// The character for a decimal digit.
pub open spec fn digit_char(digit: nat) -> char {
    if digit == 0 {
        '0'
    } else if digit == 1 {
        '1'
    } else if digit == 2 {
        '2'
    } else if digit == 3 {
        '3'
    } else if digit == 4 {
        '4'
    } else if digit == 5 {
        '5'
    } else if digit == 6 {
        '6'
    } else if digit == 7 {
        '7'
    } else if digit == 8 {
        '8'
    } else {
        '9'
    }
}

/// The decimal digits of `n`, most significant first, without leading zeros.
pub open spec fn decimal_text(n: nat) -> Seq<char>
    decreases n,
{
    if n < 10 {
        seq![digit_char(n)]
    } else {
        decimal_text(n / 10).push(digit_char(n % 10))
    }
}

/// The id that a counter value gets under `prefix`.
pub open spec fn tagged_id(prefix: Seq<char>, n: nat) -> Seq<char> {
    prefix + decimal_text(n)
}

/// Every key in `keys` is the id of a counter value below `next`.
pub open spec fn issued_below(keys: Set<Seq<char>>, prefix: Seq<char>, next: nat) -> bool {
    forall|key: Seq<char>| #[trigger]
        keys.contains(key) ==> exists|n: nat| n < next && key == #[trigger] tagged_id(prefix, n)
}

/// A number has at least one decimal digit.
pub proof fn lemma_decimal_nonempty(n: nat)
    ensures
        decimal_text(n).len() >= 1,
    decreases n,
{
    if n >= 10 {
        lemma_decimal_nonempty(n / 10);
    }
}

/// Different numbers have different decimal digits.
pub proof fn lemma_decimal_injective(a: nat, b: nat)
    requires
        decimal_text(a) == decimal_text(b),
    ensures
        a == b,
    decreases a,
{
    lemma_decimal_nonempty(a / 10);
    lemma_decimal_nonempty(b / 10);
    if a < 10 && b < 10 {
        assert(decimal_text(a)[0] == digit_char(a));
        assert(decimal_text(b)[0] == digit_char(b));
        assert(a == b);
    } else if a >= 10 && b >= 10 {
        let ta = decimal_text(a / 10);
        let tb = decimal_text(b / 10);
        assert(decimal_text(a).len() == ta.len() + 1);
        assert(decimal_text(b).len() == tb.len() + 1);
        assert(decimal_text(a)[ta.len() as int] == digit_char(a % 10));
        assert(decimal_text(b)[tb.len() as int] == digit_char(b % 10));
        assert(ta =~= decimal_text(a).drop_last());
        assert(tb =~= decimal_text(b).drop_last());
        lemma_decimal_injective(a / 10, b / 10);
        assert(digit_char(a % 10) == digit_char(b % 10));
        assert(a % 10 == b % 10);
        assert(a == b);
    } else if a < 10 {
        assert(decimal_text(a).len() == 1);
        assert(decimal_text(b).len() == decimal_text(b / 10).len() + 1);
    } else {
        assert(decimal_text(b).len() == 1);
        assert(decimal_text(a).len() == decimal_text(a / 10).len() + 1);
    }
}

/// Different counter values get different ids under one prefix.
pub proof fn lemma_tagged_id_injective(prefix: Seq<char>, a: nat, b: nat)
    requires
        tagged_id(prefix, a) == tagged_id(prefix, b),
    ensures
        a == b,
{
    let ta = tagged_id(prefix, a);
    let tb = tagged_id(prefix, b);
    assert(decimal_text(a) =~= ta.subrange(prefix.len() as int, ta.len() as int));
    assert(decimal_text(b) =~= tb.subrange(prefix.len() as int, tb.len() as int));
    lemma_decimal_injective(a, b);
}

/// The id of the next counter value is not among the ids issued so far.
pub proof fn lemma_next_id_is_fresh(keys: Set<Seq<char>>, prefix: Seq<char>, next: nat)
    requires
        issued_below(keys, prefix, next),
    ensures
        !keys.contains(tagged_id(prefix, next)),
        issued_below(keys.insert(tagged_id(prefix, next)), prefix, next + 1),
{
    if keys.contains(tagged_id(prefix, next)) {
        let n = choose|n: nat| n < next && tagged_id(prefix, next) == tagged_id(prefix, n);
        lemma_tagged_id_injective(prefix, next, n);
    }
    assert forall|key: Seq<char>| #[trigger]
        keys.insert(tagged_id(prefix, next)).contains(key) implies exists|n: nat|
        n < next + 1 && key == #[trigger] tagged_id(prefix, n) by {
        if key == tagged_id(prefix, next) {
            assert(next < next + 1 && key == tagged_id(prefix, next));
        } else {
            let n = choose|n: nat| n < next && key == tagged_id(prefix, n);
            assert(n < next + 1 && key == tagged_id(prefix, n));
        }
    }
}

fn digit_text(digit: u64) -> (text: &'static str)
    requires
        digit < 10,
    ensures
        text@ == seq![digit_char(digit as nat)],
{
    proof {
        reveal_strlit("0");
        reveal_strlit("1");
        reveal_strlit("2");
        reveal_strlit("3");
        reveal_strlit("4");
        reveal_strlit("5");
        reveal_strlit("6");
        reveal_strlit("7");
        reveal_strlit("8");
        reveal_strlit("9");
    }
    let text = if digit == 0 {
        "0"
    } else if digit == 1 {
        "1"
    } else if digit == 2 {
        "2"
    } else if digit == 3 {
        "3"
    } else if digit == 4 {
        "4"
    } else if digit == 5 {
        "5"
    } else if digit == 6 {
        "6"
    } else if digit == 7 {
        "7"
    } else if digit == 8 {
        "8"
    } else {
        "9"
    };
    assert(text@ =~= seq![digit_char(digit as nat)]);
    text
}

/// Writes `n` in decimal.
pub fn decimal(n: u64) -> (text: String)
    ensures
        text@ == decimal_text(n as nat),
    decreases n,
{
    if n < 10 {
        String::from_str(digit_text(n))
    } else {
        let head = decimal(n / 10);
        let text = head.concat(digit_text(n % 10));
        assert(text@ =~= decimal_text(n as nat));
        text
    }
}

/// The id of counter value `n` under `prefix`.
pub fn make_id(prefix: &str, n: u64) -> (id: String)
    ensures
        id@ == tagged_id(prefix@, n as nat),
        id@.len() > 0,
{
    proof {
        lemma_decimal_nonempty(n as nat);
    }
    let digits = decimal(n);
    String::from_str(prefix).concat(digits.as_str())
}

} // verus!
