use crate::primitives::{random_below, shuffle_bytes};
use vstd::prelude::*;

verus! {

broadcast use vstd::seq_lib::group_to_multiset_ensures;

/// Upper-case letters, without `I` and `O`: `ABCDEFGHJKLMNPQRSTUVWXYZ`.
pub open spec fn upper_pool() -> Seq<u8> {
    seq![
        65u8, 66u8, 67u8, 68u8, 69u8, 70u8, 71u8, 72u8, 74u8, 75u8, 76u8, 77u8,
        78u8, 80u8, 81u8, 82u8, 83u8, 84u8, 85u8, 86u8, 87u8, 88u8, 89u8, 90u8,
    ]
}

/// Lower-case letters, without `l`: `abcdefghijkmnopqrstuvwxyz`.
pub open spec fn lower_pool() -> Seq<u8> {
    seq![
        97u8, 98u8, 99u8, 100u8, 101u8, 102u8, 103u8, 104u8, 105u8, 106u8, 107u8, 109u8, 110u8,
        111u8, 112u8, 113u8, 114u8, 115u8, 116u8, 117u8, 118u8, 119u8, 120u8, 121u8, 122u8,
    ]
}

/// Digits, without `0`: `123456789`.
pub open spec fn number_pool() -> Seq<u8> {
    seq![49u8, 50u8, 51u8, 52u8, 53u8, 54u8, 55u8, 56u8, 57u8]
}

/// The symbols that a password may hold: `!@#$%^&*_`.
pub open spec fn symbol_pool() -> Seq<u8> {
    seq![33u8, 64u8, 35u8, 36u8, 37u8, 94u8, 38u8, 42u8, 95u8]
}

/// The pool of a class if it is selected, else nothing.
pub open spec fn selected(on: bool, pool: Seq<u8>) -> Seq<u8> {
    if on {
        pool
    } else {
        Seq::empty()
    }
}

/// All characters that the selected classes allow.
pub open spec fn allowed_chars(upper: bool, lower: bool, number: bool, symbol: bool) -> Seq<u8> {
    selected(upper, upper_pool()) + selected(lower, lower_pool()) + selected(number, number_pool())
        + selected(symbol, symbol_pool())
}

/// How many classes are selected.
pub open spec fn class_count(upper: bool, lower: bool, number: bool, symbol: bool) -> nat {
    (if upper { 1nat } else { 0 }) + (if lower { 1nat } else { 0 }) + (if number { 1nat } else { 0 })
        + (if symbol { 1nat } else { 0 })
}

/// Whether the password holds a character of the pool, if the class is
/// selected.
pub open spec fn covers(p: Seq<u8>, on: bool, pool: Seq<u8>) -> bool {
    on ==> exists|c: u8| pool.contains(c) && p.contains(c)
}

/// Whether `p` is a password that the generator can give: of the asked
/// length, drawn from the selected classes, with at least one character of
/// each of them.
pub open spec fn is_password(
    p: Seq<u8>,
    length: nat,
    upper: bool,
    lower: bool,
    number: bool,
    symbol: bool,
) -> bool {
    &&& p.len() == length
    &&& forall|i: int| 0 <= i < p.len() ==> allowed_chars(upper, lower, number, symbol).contains(#[trigger] p[i])
    &&& covers(p, upper, upper_pool())
    &&& covers(p, lower, lower_pool())
    &&& covers(p, number, number_pool())
    &&& covers(p, symbol, symbol_pool())
}

fn upper_chars() -> (r: Vec<u8>)
    ensures
        r@ == upper_pool(),
{
    let r = vec![
        65u8, 66u8, 67u8, 68u8, 69u8, 70u8, 71u8, 72u8, 74u8, 75u8, 76u8, 77u8,
        78u8, 80u8, 81u8, 82u8, 83u8, 84u8, 85u8, 86u8, 87u8, 88u8, 89u8, 90u8,
    ];
    assert(r@ =~= upper_pool());
    r
}

fn lower_chars() -> (r: Vec<u8>)
    ensures
        r@ == lower_pool(),
{
    let r = vec![
        97u8, 98u8, 99u8, 100u8, 101u8, 102u8, 103u8, 104u8, 105u8, 106u8, 107u8, 109u8, 110u8,
        111u8, 112u8, 113u8, 114u8, 115u8, 116u8, 117u8, 118u8, 119u8, 120u8, 121u8, 122u8,
    ];
    assert(r@ =~= lower_pool());
    r
}

fn number_chars() -> (r: Vec<u8>)
    ensures
        r@ == number_pool(),
{
    let r = vec![49u8, 50u8, 51u8, 52u8, 53u8, 54u8, 55u8, 56u8, 57u8];
    assert(r@ =~= number_pool());
    r
}

fn symbol_chars() -> (r: Vec<u8>)
    ensures
        r@ == symbol_pool(),
{
    let r = vec![33u8, 64u8, 35u8, 36u8, 37u8, 94u8, 38u8, 42u8, 95u8];
    assert(r@ =~= symbol_pool());
    r
}

/// Whether every character of `p` is one of `pool`.
pub open spec fn drawn_from(p: Seq<u8>, pool: Seq<u8>) -> bool {
    forall|i: int| 0 <= i < p.len() ==> pool.contains(#[trigger] p[i])
}

proof fn lemma_contains_concat(s: Seq<u8>, t: Seq<u8>, x: u8)
    requires
        s.contains(x) || t.contains(x),
    ensures
        (s + t).contains(x),
{
    if s.contains(x) {
        let i = choose|i: int| 0 <= i < s.len() && s[i] == x;
        assert((s + t)[i] == x);
    } else {
        let j = choose|j: int| 0 <= j < t.len() && t[j] == x;
        assert((s + t)[s.len() + j] == x);
    }
}

proof fn lemma_covers_push(p: Seq<u8>, x: u8, on: bool, pool: Seq<u8>)
    requires
        covers(p, on, pool),
    ensures
        covers(p.push(x), on, pool),
{
    if on {
        let c = choose|c: u8| pool.contains(c) && p.contains(c);
        let i = choose|i: int| 0 <= i < p.len() && p[i] == c;
        assert(p.push(x)[i] == c);
    }
}

proof fn lemma_covers_last(p: Seq<u8>, x: u8, pool: Seq<u8>)
    requires
        pool.contains(x),
    ensures
        covers(p.push(x), true, pool),
{
    assert(p.push(x)[p.len() as int] == x);
}

proof fn lemma_covers_permuted(p: Seq<u8>, q: Seq<u8>, on: bool, pool: Seq<u8>)
    requires
        covers(p, on, pool),
        p.to_multiset() == q.to_multiset(),
    ensures
        covers(q, on, pool),
{
    if on {
        let c = choose|c: u8| pool.contains(c) && p.contains(c);
        assert(p.to_multiset().count(c) > 0);
        assert(q.contains(c));
    }
}

proof fn lemma_drawn_permuted(p: Seq<u8>, q: Seq<u8>, pool: Seq<u8>)
    requires
        drawn_from(p, pool),
        p.to_multiset() == q.to_multiset(),
    ensures
        drawn_from(q, pool),
{
    assert forall|i: int| 0 <= i < q.len() implies pool.contains(#[trigger] q[i]) by {
        let x = q[i];
        assert(q.contains(x));
        assert(q.to_multiset().count(x) > 0);
        assert(p.contains(x));
        let j = choose|j: int| 0 <= j < p.len() && p[j] == x;
        assert(pool.contains(p[j]));
    }
}

/// Picks one character of a class for the password and adds the class to
/// the pool.
fn take_class(chars: &mut Vec<u8>, password: &mut Vec<u8>, class: Vec<u8>)
    requires
        class@.len() > 0,
        drawn_from(old(password)@, old(chars)@),
    ensures
        final(chars)@ == old(chars)@ + class@,
        final(password)@ == old(password)@.push(final(password)@.last()),
        class@.contains(final(password)@.last()),
        drawn_from(final(password)@, final(chars)@),
{
    let k = random_below(class.len());
    let c = class[k];
    let ghost before = password@;
    let ghost pool = chars@;
    password.push(c);
    let mut class = class;
    let ghost added = class@;
    chars.append(&mut class);
    proof {
        assert(added[k as int] == c);
        assert forall|i: int| 0 <= i < password@.len() implies chars@.contains(#[trigger] password@[i]) by {
            if i < before.len() {
                assert(password@[i] == before[i]);
                lemma_contains_concat(pool, added, before[i]);
            } else {
                lemma_contains_concat(pool, added, c);
            }
        }
        assert(password@.last() == c);
    }
}

/// Generates a random password of `length` characters from the selected
/// classes, with at least one character of each selected class, in random
/// order. At least one class must be selected where `length` is not zero,
/// and `length` must leave room for one character of each.
pub fn process_genpass(length: u8, upper: bool, lower: bool, number: bool, symbol: bool) -> (r: Vec<u8>)
    requires
        class_count(upper, lower, number, symbol) <= length,
        class_count(upper, lower, number, symbol) == 0 ==> length == 0,
    ensures
        is_password(r@, length as nat, upper, lower, number, symbol),
{
    let mut password: Vec<u8> = Vec::new();
    let mut chars: Vec<u8> = Vec::new();
    if upper {
        take_class(&mut chars, &mut password, upper_chars());
        proof { lemma_covers_last(password@.drop_last(), password@.last(), upper_pool()); }
    }
    assert(chars@ =~= selected(upper, upper_pool()));
    if lower {
        let ghost p = password@;
        take_class(&mut chars, &mut password, lower_chars());
        proof {
            lemma_covers_push(p, password@.last(), upper, upper_pool());
            lemma_covers_last(p, password@.last(), lower_pool());
        }
    }
    assert(chars@ =~= selected(upper, upper_pool()) + selected(lower, lower_pool()));
    if number {
        let ghost p = password@;
        take_class(&mut chars, &mut password, number_chars());
        proof {
            lemma_covers_push(p, password@.last(), upper, upper_pool());
            lemma_covers_push(p, password@.last(), lower, lower_pool());
            lemma_covers_last(p, password@.last(), number_pool());
        }
    }
    assert(chars@ =~= selected(upper, upper_pool()) + selected(lower, lower_pool()) + selected(
        number,
        number_pool(),
    ));
    if symbol {
        let ghost p = password@;
        take_class(&mut chars, &mut password, symbol_chars());
        proof {
            lemma_covers_push(p, password@.last(), upper, upper_pool());
            lemma_covers_push(p, password@.last(), lower, lower_pool());
            lemma_covers_push(p, password@.last(), number, number_pool());
            lemma_covers_last(p, password@.last(), symbol_pool());
        }
    }
    assert(chars@ =~= allowed_chars(upper, lower, number, symbol));
    while password.len() < length as usize
        invariant
            chars@ == allowed_chars(upper, lower, number, symbol),
            chars@.len() > 0 || password@.len() >= length,
            password@.len() <= length,
            drawn_from(password@, chars@),
            covers(password@, upper, upper_pool()),
            covers(password@, lower, lower_pool()),
            covers(password@, number, number_pool()),
            covers(password@, symbol, symbol_pool()),
        decreases length - password@.len(),
    {
        let c = chars[random_below(chars.len())];
        let ghost p = password@;
        password.push(c);
        proof {
            lemma_covers_push(p, c, upper, upper_pool());
            lemma_covers_push(p, c, lower, lower_pool());
            lemma_covers_push(p, c, number, number_pool());
            lemma_covers_push(p, c, symbol, symbol_pool());
            assert(password@[password@.len() - 1] == c);
        }
    }
    let ghost unshuffled = password@;
    shuffle_bytes(&mut password);
    proof {
        lemma_drawn_permuted(unshuffled, password@, chars@);
        lemma_covers_permuted(unshuffled, password@, upper, upper_pool());
        lemma_covers_permuted(unshuffled, password@, lower, lower_pool());
        lemma_covers_permuted(unshuffled, password@, number, number_pool());
        lemma_covers_permuted(unshuffled, password@, symbol, symbol_pool());
        assert(password@.len() == password@.to_multiset().len());
        assert(unshuffled.len() == unshuffled.to_multiset().len());
    }
    password
}

} // verus!
