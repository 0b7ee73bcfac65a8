//! The compact JSON text of integers, strings and arrays, as the canonical
//! envelope payload is written: no whitespace, strings escaped the way
//! `serde_json` escapes them.
use vstd::prelude::*;

use crate::crypto::hex_digit;

verus! {

/// How one character stands inside a JSON string.  A quote and a backslash
/// get a backslash before them; backspace, tab, line feed, form feed and
/// carriage return get their short escapes; any other control character
/// below U+0020 becomes `\u00` and two lowercase hex digits; every other
/// character stands as itself.
pub open spec fn json_escaped_char(c: char) -> Seq<char> {
    let code = c as int;
    if c == '"' {
        seq!['\\', '"']
    } else if c == '\\' {
        seq!['\\', '\\']
    } else if code == 8 {
        seq!['\\', 'b']
    } else if code == 9 {
        seq!['\\', 't']
    } else if code == 10 {
        seq!['\\', 'n']
    } else if code == 12 {
        seq!['\\', 'f']
    } else if code == 13 {
        seq!['\\', 'r']
    } else if code < 32 {
        seq!['\\', 'u', '0', '0', hex_digit(code / 16), hex_digit(code % 16)]
    } else {
        seq![c]
    }
}

/// The characters of a text, each escaped as inside a JSON string.
pub open spec fn json_escaped(s: Seq<char>) -> Seq<char>
    decreases s.len(),
{
    if s.len() == 0 {
        Seq::empty()
    } else {
        json_escaped_char(s[0]) + json_escaped(s.drop_first())
    }
}

/// A text as a JSON string: its escaped characters between quotes.
pub open spec fn json_string(s: Seq<char>) -> Seq<char> {
    seq!['"'] + json_escaped(s) + seq!['"']
}

/// The decimal digits of a natural number, with no leading zero.
pub open spec fn decimal_digits(n: nat) -> Seq<char>
    decreases n,
{
    if n < 10 {
        seq![(48 + n) as char]
    } else {
        decimal_digits(n / 10) + seq![(48 + n % 10) as char]
    }
}

/// An integer as a JSON number: a minus sign where it is negative, then its
/// decimal digits.
pub open spec fn json_integer(n: int) -> Seq<char> {
    if n < 0 {
        seq!['-'] + decimal_digits((-n) as nat)
    } else {
        decimal_digits(n as nat)
    }
}

/// The items written one after another with a comma between each two.
pub open spec fn comma_joined(items: Seq<Seq<char>>) -> Seq<char>
    decreases items.len(),
{
    if items.len() == 0 {
        Seq::empty()
    } else if items.len() == 1 {
        items[0]
    } else {
        items[0] + seq![','] + comma_joined(items.drop_first())
    }
}

/// A JSON array of items already written as JSON text.
pub open spec fn json_array(items: Seq<Seq<char>>) -> Seq<char> {
    seq!['['] + comma_joined(items) + seq![']']
}

/// A JSON array of strings.
pub open spec fn json_string_array(strings: Seq<Seq<char>>) -> Seq<char> {
    json_array(strings.map_values(|s: Seq<char>| json_string(s)))
}

proof fn lemma_escaped_char_prefix(c: char, d: char, r1: Seq<char>, r2: Seq<char>)
    requires
        json_escaped_char(c) + r1 == json_escaped_char(d) + r2,
    ensures
        c == d,
        r1 == r2,
{
    let ec = json_escaped_char(c);
    let ed = json_escaped_char(d);
    let l = ec + r1;
    let r = ed + r2;
    assert(l[0] == ec[0] && r[0] == ed[0]);
    if ec.len() >= 2 && ed.len() >= 2 {
        assert(l[1] == ec[1] && r[1] == ed[1]);
    }
    if ec.len() == 6 && ed.len() == 6 {
        assert(l[4] == ec[4] && r[4] == ed[4]);
        assert(l[5] == ec[5] && r[5] == ed[5]);
    }
    assert(c == d);
    assert(r1 =~= l.subrange(ec.len() as int, l.len() as int));
    assert(r2 =~= r.subrange(ed.len() as int, r.len() as int));
}

proof fn lemma_escaped_prefix(s: Seq<char>, t: Seq<char>, r1: Seq<char>, r2: Seq<char>)
    requires
        json_escaped(s) + (seq!['"'] + r1) == json_escaped(t) + (seq!['"'] + r2),
    ensures
        s == t,
        r1 == r2,
    decreases s.len(),
{
    let l = json_escaped(s) + (seq!['"'] + r1);
    if s.len() == 0 || t.len() == 0 {
        if s.len() > 0 {
            let e = json_escaped_char(s[0]);
            assert(l =~= e + (json_escaped(s.drop_first()) + (seq!['"'] + r1)));
            assert(l[0] == e[0]);
        }
        if t.len() > 0 {
            let e = json_escaped_char(t[0]);
            assert(l =~= e + (json_escaped(t.drop_first()) + (seq!['"'] + r2)));
            assert(l[0] == e[0]);
        }
        assert(s.len() == 0 && t.len() == 0);
        assert(s =~= t);
        assert(r1 =~= l.drop_first());
        assert(r2 =~= (json_escaped(t) + (seq!['"'] + r2)).drop_first());
    } else {
        let rs = json_escaped(s.drop_first()) + (seq!['"'] + r1);
        let rt = json_escaped(t.drop_first()) + (seq!['"'] + r2);
        assert(l =~= json_escaped_char(s[0]) + rs);
        assert(json_escaped(t) + (seq!['"'] + r2) =~= json_escaped_char(t[0]) + rt);
        lemma_escaped_char_prefix(s[0], t[0], rs, rt);
        lemma_escaped_prefix(s.drop_first(), t.drop_first(), r1, r2);
        assert(s =~= seq![s[0]] + s.drop_first());
        assert(t =~= seq![t[0]] + t.drop_first());
    }
}

/// A JSON string ends where its closing quote stands: two strings followed by
/// anything are equal only for the same text followed by the same rest.
pub proof fn lemma_string_prefix(s: Seq<char>, t: Seq<char>, r1: Seq<char>, r2: Seq<char>)
    requires
        json_string(s) + r1 == json_string(t) + r2,
    ensures
        s == t,
        r1 == r2,
{
    let l = json_string(s) + r1;
    let r = json_string(t) + r2;
    assert(l.drop_first() =~= json_escaped(s) + (seq!['"'] + r1));
    assert(r.drop_first() =~= json_escaped(t) + (seq!['"'] + r2));
    lemma_escaped_prefix(s, t, r1, r2);
}

proof fn lemma_decimal_digits_shape(n: nat)
    ensures
        decimal_digits(n).len() >= 1,
        forall|i: int|
            0 <= i < decimal_digits(n).len() ==> '0' <= #[trigger] decimal_digits(n)[i] <= '9',
    decreases n,
{
    if n >= 10 {
        lemma_decimal_digits_shape(n / 10);
    }
}

proof fn lemma_decimal_digits_injective(a: nat, b: nat)
    requires
        decimal_digits(a) == decimal_digits(b),
    ensures
        a == b,
    decreases a,
{
    let d = decimal_digits(a);
    lemma_decimal_digits_shape(a / 10);
    lemma_decimal_digits_shape(b / 10);
    assert(d.last() == decimal_digits(b).last());
    if a >= 10 && b >= 10 {
        assert(decimal_digits(a / 10) =~= d.drop_last());
        assert(decimal_digits(b / 10) =~= decimal_digits(b).drop_last());
        lemma_decimal_digits_injective(a / 10, b / 10);
    }
}

/// An integer ends before the comma that follows it: two integers followed
/// by a comma and anything are equal only for the same number followed by
/// the same rest.
pub proof fn lemma_integer_prefix(n: int, m: int, r1: Seq<char>, r2: Seq<char>)
    requires
        json_integer(n) + (seq![','] + r1) == json_integer(m) + (seq![','] + r2),
    ensures
        n == m,
        r1 == r2,
{
    let jn = json_integer(n);
    let jm = json_integer(m);
    let l = jn + (seq![','] + r1);
    let r = jm + (seq![','] + r2);
    lemma_decimal_digits_shape(if n < 0 { (-n) as nat } else { n as nat });
    lemma_decimal_digits_shape(if m < 0 { (-m) as nat } else { m as nat });
    assert forall|i: int| 0 <= i < jn.len() implies #[trigger] jn[i] != ',' by {
        if n < 0 && i > 0 {
            assert(jn[i] == decimal_digits((-n) as nat)[i - 1]);
        }
    }
    assert forall|i: int| 0 <= i < jm.len() implies #[trigger] jm[i] != ',' by {
        if m < 0 && i > 0 {
            assert(jm[i] == decimal_digits((-m) as nat)[i - 1]);
        }
    }
    if jn.len() < jm.len() {
        assert(l[jn.len() as int] == ',');
        assert(r[jn.len() as int] == jm[jn.len() as int]);
    }
    if jm.len() < jn.len() {
        assert(r[jm.len() as int] == ',');
        assert(l[jm.len() as int] == jn[jm.len() as int]);
    }
    assert(jn =~= l.subrange(0, jn.len() as int));
    assert(jm =~= r.subrange(0, jm.len() as int));
    assert(r1 =~= l.subrange(jn.len() as int + 1, l.len() as int));
    assert(r2 =~= r.subrange(jm.len() as int + 1, r.len() as int));
    assert(jn[0] == '-' <==> n < 0);
    assert(jm[0] == '-' <==> m < 0);
    if n < 0 && m < 0 {
        assert(decimal_digits((-n) as nat) =~= jn.drop_first());
        assert(decimal_digits((-m) as nat) =~= jm.drop_first());
        lemma_decimal_digits_injective((-n) as nat, (-m) as nat);
    } else if n >= 0 && m >= 0 {
        lemma_decimal_digits_injective(n as nat, m as nat);
    }
}

proof fn lemma_items_prefix<A>(
    f: spec_fn(A) -> Seq<char>,
    xs: Seq<A>,
    ys: Seq<A>,
    r1: Seq<char>,
    r2: Seq<char>,
)
    requires
        forall|x: A, y: A, a: Seq<char>, b: Seq<char>|
            #![trigger f(x) + a, f(y) + b]
            f(x) + a == f(y) + b ==> x == y && a == b,
        forall|x: A| #![trigger f(x)] f(x).len() > 0 && f(x)[0] != ']',
        comma_joined(xs.map_values(f)) + (seq![']'] + r1) == comma_joined(ys.map_values(f)) + (
        seq![']'] + r2),
    ensures
        xs == ys,
        r1 == r2,
    decreases xs.len(),
{
    let mx = xs.map_values(f);
    let my = ys.map_values(f);
    let l = comma_joined(mx) + (seq![']'] + r1);
    let r = comma_joined(my) + (seq![']'] + r2);
    if xs.len() == 0 || ys.len() == 0 {
        if xs.len() > 0 {
            assert(mx[0] == f(xs[0]));
            let fx = f(xs[0]);
            assert(fx.len() > 0 && fx[0] != ']');
            if xs.len() == 1 {
                assert(l =~= fx + (seq![']'] + r1));
            } else {
                assert(l =~= fx + (seq![','] + comma_joined(mx.drop_first()) + (seq![']'] + r1)));
            }
            assert(l[0] == fx[0]);
        }
        if ys.len() > 0 {
            assert(my[0] == f(ys[0]));
            let fy = f(ys[0]);
            assert(fy.len() > 0 && fy[0] != ']');
            if ys.len() == 1 {
                assert(r =~= fy + (seq![']'] + r2));
            } else {
                assert(r =~= fy + (seq![','] + comma_joined(my.drop_first()) + (seq![']'] + r2)));
            }
            assert(r[0] == fy[0]);
        }
        assert(xs.len() == 0 && ys.len() == 0);
        assert(xs =~= ys);
        assert(r1 =~= l.drop_first());
        assert(r2 =~= r.drop_first());
    } else {
        assert(mx[0] == f(xs[0]));
        assert(my[0] == f(ys[0]));
        let tx = if xs.len() == 1 {
            seq![']'] + r1
        } else {
            seq![','] + comma_joined(mx.drop_first()) + (seq![']'] + r1)
        };
        let ty = if ys.len() == 1 {
            seq![']'] + r2
        } else {
            seq![','] + comma_joined(my.drop_first()) + (seq![']'] + r2)
        };
        assert(l =~= f(xs[0]) + tx);
        assert(r =~= f(ys[0]) + ty);
        assert(f(xs[0]) + tx == f(ys[0]) + ty);
        assert(xs[0] == ys[0] && tx == ty);
        assert(tx[0] == ty[0]);
        if xs.len() == 1 {
            assert(ys.len() == 1);
            assert(r1 =~= tx.drop_first());
            assert(r2 =~= ty.drop_first());
            assert(xs =~= ys);
        } else {
            assert(ys.len() > 1);
            assert(mx.drop_first() =~= xs.drop_first().map_values(f));
            assert(my.drop_first() =~= ys.drop_first().map_values(f));
            assert(tx.drop_first() =~= comma_joined(xs.drop_first().map_values(f)) + (seq![']']
                + r1));
            assert(ty.drop_first() =~= comma_joined(ys.drop_first().map_values(f)) + (seq![']']
                + r2));
            lemma_items_prefix(f, xs.drop_first(), ys.drop_first(), r1, r2);
            assert(xs =~= seq![xs[0]] + xs.drop_first());
            assert(ys =~= seq![ys[0]] + ys.drop_first());
        }
    }
}

/// A JSON array of strings ends at its closing bracket: two such arrays
/// followed by anything are equal only for the same strings followed by the
/// same rest.
pub proof fn lemma_string_array_prefix(
    s: Seq<Seq<char>>,
    t: Seq<Seq<char>>,
    r1: Seq<char>,
    r2: Seq<char>,
)
    requires
        json_string_array(s) + r1 == json_string_array(t) + r2,
    ensures
        s == t,
        r1 == r2,
{
    let f = |x: Seq<char>| json_string(x);
    assert forall|x: Seq<char>, y: Seq<char>, a: Seq<char>, b: Seq<char>|
        #[trigger] (f(x) + a) == #[trigger] (f(y) + b) implies x == y && a == b by {
        lemma_string_prefix(x, y, a, b);
    }
    let l = json_string_array(s) + r1;
    let r = json_string_array(t) + r2;
    assert(l.drop_first() =~= comma_joined(s.map_values(f)) + (seq![']'] + r1));
    assert(r.drop_first() =~= comma_joined(t.map_values(f)) + (seq![']'] + r2));
    lemma_items_prefix(f, s, t, r1, r2);
}

/// A JSON array of arrays of strings ends at its closing bracket: two such
/// arrays followed by anything are equal only for the same lists followed by
/// the same rest.
pub proof fn lemma_string_arrays_prefix(
    s: Seq<Seq<Seq<char>>>,
    t: Seq<Seq<Seq<char>>>,
    r1: Seq<char>,
    r2: Seq<char>,
)
    requires
        json_array(s.map_values(|x: Seq<Seq<char>>| json_string_array(x))) + r1 == json_array(
            t.map_values(|x: Seq<Seq<char>>| json_string_array(x)),
        ) + r2,
    ensures
        s == t,
        r1 == r2,
{
    let f = |x: Seq<Seq<char>>| json_string_array(x);
    assert forall|x: Seq<Seq<char>>, y: Seq<Seq<char>>, a: Seq<char>, b: Seq<char>|
        #[trigger] (f(x) + a) == #[trigger] (f(y) + b) implies x == y && a == b by {
        lemma_string_array_prefix(x, y, a, b);
    }
    let l = json_array(s.map_values(f)) + r1;
    let r = json_array(t.map_values(f)) + r2;
    assert(l.drop_first() =~= comma_joined(s.map_values(f)) + (seq![']'] + r1));
    assert(r.drop_first() =~= comma_joined(t.map_values(f)) + (seq![']'] + r2));
    lemma_items_prefix(f, s, t, r1, r2);
}

} // verus!
