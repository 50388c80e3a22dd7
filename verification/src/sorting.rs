//! Lexicographic order on character sequences, the order in which Rust
//! compares `String`s, and a stable sort by such keys.

use vstd::prelude::*;

verus! {

/// `a` comes no later than `b` when compared character by character, by code
/// point, a proper prefix coming first. This is the order of `String::cmp`,
/// since UTF-8 keeps the order of code points.
pub open spec fn chars_le(a: Seq<char>, b: Seq<char>) -> bool
    decreases a.len(),
{
    if a.len() == 0 {
        true
    } else if b.len() == 0 {
        false
    } else if a[0] != b[0] {
        (a[0] as int) < (b[0] as int)
    } else {
        chars_le(a.drop_first(), b.drop_first())
    }
}

/// The order is reflexive.
pub proof fn lemma_chars_le_refl(a: Seq<char>)
    ensures
        chars_le(a, a),
    decreases a.len(),
{
    if a.len() > 0 {
        lemma_chars_le_refl(a.drop_first());
    }
}

/// The order is total.
pub proof fn lemma_chars_le_total(a: Seq<char>, b: Seq<char>)
    ensures
        chars_le(a, b) || chars_le(b, a),
    decreases a.len(),
{
    if a.len() > 0 && b.len() > 0 {
        if a[0] == b[0] {
            lemma_chars_le_total(a.drop_first(), b.drop_first());
        } else {
            assert((a[0] as int) != (b[0] as int));
        }
    }
}

/// The order is antisymmetric.
pub proof fn lemma_chars_le_antisym(a: Seq<char>, b: Seq<char>)
    requires
        chars_le(a, b),
        chars_le(b, a),
    ensures
        a == b,
    decreases a.len(),
{
    if a.len() > 0 && b.len() > 0 {
        if a[0] == b[0] {
            lemma_chars_le_antisym(a.drop_first(), b.drop_first());
            assert(a =~= seq![a[0]] + a.drop_first());
            assert(b =~= seq![b[0]] + b.drop_first());
        } else {
            assert((a[0] as int) != (b[0] as int));
        }
    } else {
        assert(a.len() == 0 && b.len() == 0);
        assert(a =~= b);
    }
}

/// The order is transitive.
pub proof fn lemma_chars_le_trans(a: Seq<char>, b: Seq<char>, c: Seq<char>)
    requires
        chars_le(a, b),
        chars_le(b, c),
    ensures
        chars_le(a, c),
    decreases a.len(),
{
    if a.len() > 0 && b.len() > 0 && c.len() > 0 {
        if a[0] == b[0] && b[0] == c[0] {
            lemma_chars_le_trans(a.drop_first(), b.drop_first(), c.drop_first());
        } else {
            assert((a[0] as int) != (b[0] as int) || a[0] == b[0]);
            assert((b[0] as int) != (c[0] as int) || b[0] == c[0]);
            assert((a[0] as int) == (c[0] as int) ==> a[0] == c[0]);
        }
    }
}

/// Whether `a` comes no later than `b` in `String` order.
pub fn chars_le_exec(a: &Vec<char>, b: &Vec<char>) -> (r: bool)
    ensures
        r == chars_le(a@, b@),
{
    let mut i: usize = 0;
    assert(a@.skip(0) =~= a@);
    assert(b@.skip(0) =~= b@);
    while i < a.len() && i < b.len() && a[i] == b[i]
        invariant
            i <= a.len(),
            i <= b.len(),
            chars_le(a@.skip(i as int), b@.skip(i as int)) == chars_le(a@, b@),
        decreases a.len() - i,
    {
        assert(a@.skip(i as int).drop_first() =~= a@.skip(i + 1));
        assert(b@.skip(i as int).drop_first() =~= b@.skip(i + 1));
        i = i + 1;
    }
    if i == a.len() {
        true
    } else if i == b.len() {
        false
    } else {
        a[i] < b[i]
    }
}

/// `out` is `input` sorted by `key`, stably: `p` says where each element of
/// `out` stood in `input`; keys never decrease along `out`, and elements
/// with equal keys keep their order.
pub open spec fn is_stable_sort_of<T>(
    out: Seq<T>,
    input: Seq<T>,
    key: spec_fn(T) -> Seq<char>,
    p: Seq<int>,
) -> bool {
    &&& out.len() == input.len()
    &&& p.len() == input.len()
    &&& forall|i: int| 0 <= i < p.len() ==> 0 <= #[trigger] p[i] < input.len()
    &&& forall|i: int, j: int| 0 <= i < j < p.len() ==> #[trigger] p[i] != #[trigger] p[j]
    &&& forall|i: int| 0 <= i < out.len() ==> #[trigger] out[i] == input[p[i]]
    &&& forall|i: int, j: int|
        0 <= i < j < out.len() ==> chars_le(key(#[trigger] out[i]), key(#[trigger] out[j]))
    &&& forall|i: int, j: int|
        0 <= i < j < out.len() && key(#[trigger] out[i]) == key(#[trigger] out[j]) ==> p[i] < p[j]
}

/// `input` sorted stably by `key`.
pub open spec fn stably_sorted<T>(out: Seq<T>, input: Seq<T>, key: spec_fn(T) -> Seq<char>) -> bool {
    exists|p: Seq<int>| is_stable_sort_of(out, input, key, p)
}

/// Sorts `items` stably by `keys`, the key of `items[i]` being `keys[i]`.
pub(crate) fn sort_by_keys<T>(items: Vec<T>, keys: Vec<Vec<char>>, Ghost(key): Ghost<spec_fn(T) -> Seq<char>>) -> (r: Vec<T>)
    requires
        items.len() == keys.len(),
        forall|i: int| 0 <= i < items.len() ==> #[trigger] keys@[i]@ == key(items@[i]),
    ensures
        stably_sorted(r@, items@, key),
{
    let ghost input = items@;
    let n = items.len();
    let mut rest = items;
    let mut rest_keys = keys;
    let mut out: Vec<T> = Vec::new();
    let mut out_keys: Vec<Vec<char>> = Vec::new();
    let ghost mut p: Seq<int> = Seq::empty();
    let mut taken: usize = 0;
    while taken < n
        invariant
            n == input.len(),
            taken <= n,
            rest.len() == n - taken,
            rest_keys.len() == n - taken,
            forall|i: int| 0 <= i < rest.len() ==> #[trigger] rest@[i] == input[taken + i],
            forall|i: int| 0 <= i < rest_keys.len() ==> #[trigger] rest_keys@[i]@ == key(input[taken + i]),
            out.len() == taken,
            out_keys.len() == taken,
            forall|i: int| 0 <= i < out.len() ==> #[trigger] out_keys@[i]@ == key(out@[i]),
            p.len() == taken,
            forall|i: int| 0 <= i < p.len() ==> 0 <= #[trigger] p[i] < taken,
            forall|i: int, j: int| 0 <= i < j < p.len() ==> #[trigger] p[i] != #[trigger] p[j],
            forall|i: int| 0 <= i < out.len() ==> #[trigger] out@[i] == input[p[i]],
            forall|i: int, j: int|
                0 <= i < j < out.len() ==> chars_le(key(#[trigger] out@[i]), key(#[trigger] out@[j])),
            forall|i: int, j: int|
                0 <= i < j < out.len() && key(#[trigger] out@[i]) == key(#[trigger] out@[j])
                    ==> p[i] < p[j],
        decreases n - taken,
    {
        let x = rest.remove(0);
        let xk = rest_keys.remove(0);
        assert(x == input[taken as int]);
        assert(xk@ == key(x));
        let mut pos: usize = 0;
        while pos < out.len() && chars_le_exec(&out_keys[pos], &xk)
            invariant
                pos <= out.len(),
                out.len() == out_keys.len(),
                forall|i: int| 0 <= i < out.len() ==> #[trigger] out_keys@[i]@ == key(out@[i]),
                forall|i: int| 0 <= i < pos ==> chars_le(key(#[trigger] out@[i]), xk@),
            decreases out.len() - pos,
        {
            pos = pos + 1;
        }
        let ghost old_out = out@;
        let ghost old_p = p;
        proof {
            assert forall|i: int| pos <= i < old_out.len() implies !chars_le(
                key(#[trigger] old_out[i]),
                xk@,
            ) by {
                assert(!chars_le(key(old_out[pos as int]), xk@));
                if i > pos && chars_le(key(old_out[i]), xk@) {
                    lemma_chars_le_trans(key(old_out[pos as int]), key(old_out[i]), xk@);
                }
            }
        }
        out.insert(pos, x);
        out_keys.insert(pos, xk);
        proof {
            p = old_p.insert(pos as int, taken as int);
            assert forall|i: int| 0 <= i < out.len() implies #[trigger] out@[i] == input[p[i]] by {
                if i < pos {
                    assert(out@[i] == old_out[i]);
                } else if i > pos {
                    assert(out@[i] == old_out[i - 1]);
                }
            }
            assert forall|i: int| 0 <= i < out.len() implies #[trigger] out_keys@[i]@ == key(out@[i]) by {
                if i < pos {
                    assert(out@[i] == old_out[i]);
                } else if i > pos {
                    assert(out@[i] == old_out[i - 1]);
                }
            }
            assert forall|i: int| 0 <= i < p.len() implies 0 <= #[trigger] p[i] < taken + 1 by {
                if i < pos {
                    assert(p[i] == old_p[i]);
                } else if i > pos {
                    assert(p[i] == old_p[i - 1]);
                }
            }
            assert forall|i: int, j: int| 0 <= i < j < p.len() implies #[trigger] p[i] != #[trigger] p[j] by {
                if i != pos && j != pos {
                    let oi = if i < pos { i } else { i - 1 };
                    let oj = if j < pos { j } else { j - 1 };
                    assert(p[i] == old_p[oi]);
                    assert(p[j] == old_p[oj]);
                } else if i == pos {
                    assert(p[j] == old_p[j - 1]);
                } else {
                    assert(p[i] == old_p[i]);
                }
            }
            assert forall|i: int, j: int| 0 <= i < j < out.len() implies chars_le(
                key(#[trigger] out@[i]),
                key(#[trigger] out@[j]),
            ) by {
                if i != pos && j != pos {
                    let oi = if i < pos { i } else { i - 1 };
                    let oj = if j < pos { j } else { j - 1 };
                    assert(out@[i] == old_out[oi]);
                    assert(out@[j] == old_out[oj]);
                } else if i == pos {
                    assert(out@[j] == old_out[j - 1]);
                    lemma_chars_le_total(key(old_out[j - 1]), xk@);
                } else {
                    assert(out@[i] == old_out[i]);
                }
            }
            assert forall|i: int, j: int|
                0 <= i < j < out.len() && key(#[trigger] out@[i]) == key(#[trigger] out@[j])
                    implies p[i] < p[j] by {
                if i != pos && j != pos {
                    let oi = if i < pos { i } else { i - 1 };
                    let oj = if j < pos { j } else { j - 1 };
                    assert(out@[i] == old_out[oi]);
                    assert(out@[j] == old_out[oj]);
                    assert(p[i] == old_p[oi]);
                    assert(p[j] == old_p[oj]);
                } else if i == pos {
                    assert(out@[j] == old_out[j - 1]);
                    lemma_chars_le_refl(xk@);
                } else {
                    assert(p[i] == old_p[i]);
                }
            }
        }
        taken = taken + 1;
    }
    assert(is_stable_sort_of(out@, input, key, p));
    out
}

} // verus!
