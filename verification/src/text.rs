use vstd::prelude::*;

verus! {

use vstd::std_specs::iter::IteratorSpec;

/// The character for a single decimal digit.
pub open spec fn digit_char(d: nat) -> char {
    if d == 0 {
        '0'
    } else if d == 1 {
        '1'
    } else if d == 2 {
        '2'
    } else if d == 3 {
        '3'
    } else if d == 4 {
        '4'
    } else if d == 5 {
        '5'
    } else if d == 6 {
        '6'
    } else if d == 7 {
        '7'
    } else if d == 8 {
        '8'
    } else {
        '9'
    }
}

/// Decimal rendering of `n`, most significant digit first, no leading zeros.
pub open spec fn decimal_of(n: nat) -> Seq<char>
    decreases n,
{
    if n < 10 {
        seq![digit_char(n)]
    } else {
        decimal_of(n / 10).push(digit_char(n % 10))
    }
}

/// The items joined with a single space between neighbours.
pub open spec fn space_joined(items: Seq<Seq<char>>) -> Seq<char>
    decreases items.len(),
{
    if items.len() == 0 {
        Seq::empty()
    } else if items.len() == 1 {
        items[0]
    } else {
        items[0] + seq![' '] + space_joined(items.drop_first())
    }
}

pub proof fn lemma_space_joined_push(items: Seq<Seq<char>>, last: Seq<char>)
    ensures
        space_joined(items.push(last)) == if items.len() == 0 {
            last
        } else {
            space_joined(items) + seq![' '] + last
        },
    decreases items.len(),
{
    if items.len() == 0 {
        assert(items.push(last) =~= seq![last]);
        assert(space_joined(seq![last]) == last);
    } else {
        lemma_space_joined_push(items.drop_first(), last);
        assert(items.push(last).drop_first() =~= items.drop_first().push(last));
        if items.len() == 1 {
            assert(items.drop_first().len() == 0);
            assert(space_joined(items) == items[0]);
        }
    }
}

/// Relies on String::push: appends exactly the given character.
#[verifier::external_body]
pub(crate) fn push_char(s: &mut String, c: char)
    ensures
        final(s)@ == old(s)@.push(c),
{
    s.push(c);
}

fn digit_to_char(d: u64) -> (c: char)
    requires
        d < 10,
    ensures
        c == digit_char(d as nat),
{
    match d {
        0 => '0',
        1 => '1',
        2 => '2',
        3 => '3',
        4 => '4',
        5 => '5',
        6 => '6',
        7 => '7',
        8 => '8',
        _ => '9',
    }
}

/// Appends the decimal rendering of `n` to `out`.
pub fn push_decimal(n: u64, out: &mut String)
    ensures
        final(out)@ == old(out)@ + decimal_of(n as nat),
    decreases n,
{
    if n >= 10 {
        proof {
            assert(n / 10 < n) by (nonlinear_arith)
                requires n >= 10;
        }
        push_decimal(n / 10, out);
        let d = digit_to_char(n % 10);
        push_char(out, d);
        assert(final(out)@ =~= old(out)@ + decimal_of(n as nat));
    } else {
        let d = digit_to_char(n);
        push_char(out, d);
        assert(final(out)@ =~= old(out)@ + decimal_of(n as nat));
    }
}

/// Decimal rendering of `n` as a fresh string.
pub fn decimal_string(n: u64) -> (r: String)
    ensures
        r@ == decimal_of(n as nat),
{
    let mut out = String::new();
    push_decimal(n, &mut out);
    proof {
        assert(out@ =~= decimal_of(n as nat));
    }
    out
}

/// The items joined with single spaces, e.g. a scope list for a query.
pub fn join_with_spaces(items: &Vec<String>) -> (r: String)
    ensures
        r@ == space_joined(items.deep_view()),
{
    let ghost model = items.deep_view();
    let mut out = String::new();
    let mut i: usize = 0;
    proof {
        assert(model.take(0) =~= Seq::<Seq<char>>::empty());
    }
    while i < items.len()
        invariant
            i <= items.len(),
            model == items.deep_view(),
            model.len() == items.len(),
            forall|k: int| 0 <= k < items.len() ==> model[k] == items@[k]@,
            out@ == space_joined(model.take(i as int)),
        decreases items.len() - i,
    {
        if i > 0 {
            out.append(" ");
            proof {
                reveal_strlit(" ");
                assert(" "@ =~= seq![' ']);
            }
        }
        out.append(items[i].as_str());
        proof {
            lemma_space_joined_push(model.take(i as int), model[i as int]);
            assert(model.take(i + 1) =~= model.take(i as int).push(model[i as int]));
        }
        i = i + 1;
    }
    proof {
        assert(model.take(items.len() as int) =~= model);
    }
    out
}

/// Whether two string slices hold the same characters.
pub fn eq_str(a: &str, b: &str) -> (r: bool)
    ensures
        r == (a@ == b@),
{
    let owned_a = a.to_owned();
    let owned_b = b.to_owned();
    owned_a == owned_b
}

/// Whether two strings hold the same characters, scanning the whole
/// shared length with no early exit on the first difference: a
/// defence-in-depth measure for comparing secrets, where a short-circuit
/// would leak the length of the matching prefix through timing.
pub fn fixed_scan_eq_str(a: &str, b: &str) -> (r: bool)
    ensures
        r == (a@ == b@),
{
    let av = to_char_vec(a);
    let bv = to_char_vec(b);
    let mut equal: bool = av.len() == bv.len();
    let shared = if av.len() < bv.len() {
        av.len()
    } else {
        bv.len()
    };
    let mut i: usize = 0;
    while i < shared
        invariant
            i <= shared,
            av@ == a@,
            bv@ == b@,
            shared <= av@.len(),
            shared <= bv@.len(),
            equal == (a@.len() == b@.len() && (forall|k: int| 0 <= k < i ==> a@[k] == b@[k])),
        decreases shared - i,
    {
        if av[i] != bv[i] {
            equal = false;
        }
        i = i + 1;
    }
    proof {
        if a@.len() == b@.len() {
            if equal {
                assert(a@ =~= b@);
            }
            if a@ == b@ {
                assert(forall|k: int| 0 <= k < shared ==> a@[k] == b@[k]);
            }
        }
    }
    equal
}

/// The characters of `s` as a vector.
pub fn to_char_vec(s: &str) -> (v: Vec<char>)
    ensures
        v@ == s@,
{
    let mut it = s.chars();
    let mut v: Vec<char> = Vec::new();
    proof {
        assert(v@ + it.remaining() =~= s@);
    }
    loop
        invariant
            v@ + it.remaining() =~= s@,
            v@.len() <= s@.len(),
        ensures
            v@ =~= s@,
        decreases s@.len() - v@.len(),
    {
        match it.next() {
            Some(c) => {
                v.push(c);
                proof {
                    assert(v@ + it.remaining() =~= s@);
                }
            },
            None => {
                proof {
                    assert(v@ + it.remaining() =~= s@);
                }
                break;
            },
        }
    }
    proof {
        assert(v@ =~= s@);
    }
    v
}

} // verus!
