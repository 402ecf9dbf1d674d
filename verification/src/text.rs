//! Generated names and lists of names.

use vstd::prelude::*;

verus! {

/// The decimal digit of a number below ten.
pub open spec fn digit(d: nat) -> char {
    if d == 0 {
        '0'
    } else if d == 1 {
        '1'
    } else if d == 2 {
        '2'
    } else if d == 3 {
        '3'
    } else if d == 4 {
        '4'
    } else if d == 5 {
        '5'
    } else if d == 6 {
        '6'
    } else if d == 7 {
        '7'
    } else if d == 8 {
        '8'
    } else {
        '9'
    }
}

/// A number in decimal notation, without leading zeros.
pub open spec fn decimal(n: nat) -> Seq<char>
    decreases n,
{
    if n < 10 {
        seq![digit(n)]
    } else {
        decimal(n / 10).push(digit(n % 10))
    }
}

/// The name of the generated identifier with the given number.
pub open spec fn action_name(n: nat) -> Seq<char> {
    "$$ACTION_"@ + decimal(n)
}

/// The parts of a list of texts, views of `String`s.
pub open spec fn texts_view(v: Seq<String>) -> Seq<Seq<char>> {
    Seq::new(v.len(), |i: int| v[i]@)
}

/// The parts one after the other, with a separator between any two.
pub open spec fn join_texts(parts: Seq<Seq<char>>, separator: Seq<char>) -> Seq<char>
    decreases parts.len(),
{
    if parts.len() == 0 {
        Seq::empty()
    } else if parts.len() == 1 {
        parts[0]
    } else {
        join_texts(parts.drop_last(), separator) + separator + parts.last()
    }
}

/// Appends the decimal digit of a number below ten.
fn push_digit(text: &mut String, d: u32)
    requires
        d < 10,
    ensures
        final(text)@ == old(text)@.push(digit(d as nat)),
{
    proof {
        reveal_strlit("0");
        reveal_strlit("1");
        reveal_strlit("2");
        reveal_strlit("3");
        reveal_strlit("4");
        reveal_strlit("5");
        reveal_strlit("6");
        reveal_strlit("7");
        reveal_strlit("8");
        reveal_strlit("9");
    }
    if d == 0 {
        text.append("0");
    } else if d == 1 {
        text.append("1");
    } else if d == 2 {
        text.append("2");
    } else if d == 3 {
        text.append("3");
    } else if d == 4 {
        text.append("4");
    } else if d == 5 {
        text.append("5");
    } else if d == 6 {
        text.append("6");
    } else if d == 7 {
        text.append("7");
    } else if d == 8 {
        text.append("8");
    } else {
        text.append("9");
    }
}

/// Appends a number in decimal notation.
fn push_decimal(text: &mut String, n: u32)
    ensures
        final(text)@ == old(text)@ + decimal(n as nat),
    decreases n,
{
    if n >= 10 {
        push_decimal(text, n / 10);
    }
    push_digit(text, n % 10);
}

/// The next generated name: `$$ACTION_` and the count, which goes up by one.
pub fn gen_ident(cnt: &mut u32) -> (name: String)
    requires
        *old(cnt) < u32::MAX,
    ensures
        name@ == action_name(*old(cnt) as nat),
        *final(cnt) == *old(cnt) + 1,
{
    let mut name = "$$ACTION_".to_string();
    push_decimal(&mut name, *cnt);
    *cnt = *cnt + 1;
    name
}

/// Joins texts with a separator.
pub fn join(parts: &Vec<String>, separator: &str) -> (text: String)
    ensures
        text@ == join_texts(texts_view(parts@), separator@),
{
    let ghost views = texts_view(parts@);
    let mut text = String::new();
    for i in 0..parts.len()
        invariant
            views == texts_view(parts@),
            text@ == join_texts(views.take(i as int), separator@),
    {
        assert(views.take(i + 1).drop_last() =~= views.take(i as int));
        if i > 0 {
            text.append(separator);
        }
        text.append(parts[i].as_str());
    }
    assert(views.take(views.len() as int) =~= views);
    text
}

/// Different numbers are written differently.
pub proof fn decimal_injective(m: nat, n: nat)
    requires
        decimal(m) == decimal(n),
    ensures
        m == n,
    decreases m,
{
    decimal_not_empty(m / 10);
    decimal_not_empty(n / 10);
    assert(decimal(m).last() == digit(m % 10));
    assert(decimal(n).last() == digit(n % 10));
    if m >= 10 && n >= 10 {
        assert(decimal(m).drop_last() =~= decimal(m / 10));
        assert(decimal(n).drop_last() =~= decimal(n / 10));
        decimal_injective(m / 10, n / 10);
    } else if m >= 10 {
        assert(decimal(m).len() >= 2);
    } else if n >= 10 {
        assert(decimal(n).len() >= 2);
    }
}

proof fn decimal_not_empty(n: nat)
    ensures
        decimal(n).len() >= 1,
    decreases n,
{
    if n >= 10 {
        decimal_not_empty(n / 10);
    }
}

/// No two generated names are the same.
pub proof fn action_names_differ(m: nat, n: nat)
    requires
        m != n,
    ensures
        action_name(m) != action_name(n),
{
    if action_name(m) == action_name(n) {
        let prefix = "$$ACTION_"@;
        assert(decimal(m) =~= action_name(m).subrange(
            prefix.len() as int,
            action_name(m).len() as int,
        ));
        assert(decimal(n) =~= action_name(n).subrange(
            prefix.len() as int,
            action_name(n).len() as int,
        ));
        decimal_injective(m, n);
    }
}

} // verus!
