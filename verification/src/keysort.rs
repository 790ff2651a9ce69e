//! Stable sorts of items by a key: by text (character by character) or by number. Items with
//! equal keys keep their order, as the lists the tool shows expect.
use vstd::prelude::*;

verus! {

// ---------------------------------------------------------------------------------------------
// Text order

/// Whether `a` comes before `b` character by character (by code point), a proper prefix first.
pub open spec fn chars_less(a: Seq<char>, b: Seq<char>) -> bool
    decreases a.len(),
{
    if a.len() == 0 {
        b.len() > 0
    } else if b.len() == 0 {
        false
    } else if a[0] != b[0] {
        a[0] < b[0]
    } else {
        chars_less(a.drop_first(), b.drop_first())
    }
}

/// Whether `a` comes before `b` (see `chars_less`).
pub fn less_chars(a: &[char], b: &[char]) -> (r: bool)
    ensures
        r == chars_less(a@, b@),
{
    let mut i: usize = 0;
    assert(a@.skip(0) =~= a@);
    assert(b@.skip(0) =~= b@);
    while i < a.len() && i < b.len()
        invariant
            i <= a@.len(),
            i <= b@.len(),
            chars_less(a@, b@) == chars_less(a@.skip(i as int), b@.skip(i as int)),
        decreases a@.len() - i,
    {
        assert(a@.skip(i as int)[0] == a@[i as int]);
        assert(b@.skip(i as int)[0] == b@[i as int]);
        if a[i] != b[i] {
            return a[i] < b[i];
        }
        assert(a@.skip(i as int).drop_first() =~= a@.skip(i + 1));
        assert(b@.skip(i as int).drop_first() =~= b@.skip(i + 1));
        i += 1;
    }
    proof {
        if i == a@.len() {
            assert(a@.skip(i as int).len() == 0);
        } else {
            assert(b@.skip(i as int).len() == 0);
        }
    }
    i == a.len() && i < b.len()
}

/// `chars_less` never holds both ways.
pub proof fn lemma_chars_less_asym(a: Seq<char>, b: Seq<char>)
    ensures
        chars_less(a, b) ==> !chars_less(b, a),
    decreases a.len(),
{
    if a.len() > 0 && b.len() > 0 && a[0] == b[0] {
        lemma_chars_less_asym(a.drop_first(), b.drop_first());
    }
}

/// `chars_less` is transitive.
pub proof fn lemma_chars_less_trans(a: Seq<char>, b: Seq<char>, c: Seq<char>)
    requires
        chars_less(a, b),
        chars_less(b, c),
    ensures
        chars_less(a, c),
    decreases a.len(),
{
    if a.len() > 0 && a[0] == b[0] && b[0] == c[0] {
        lemma_chars_less_trans(a.drop_first(), b.drop_first(), c.drop_first());
    }
}

/// Of two different character sequences, one comes before the other.
pub proof fn lemma_chars_less_total(a: Seq<char>, b: Seq<char>)
    ensures
        a != b ==> chars_less(a, b) || chars_less(b, a),
    decreases a.len(),
{
    if a.len() > 0 && b.len() > 0 && a[0] == b[0] {
        lemma_chars_less_total(a.drop_first(), b.drop_first());
        if a.drop_first() == b.drop_first() {
            assert(a =~= seq![a[0]] + a.drop_first());
            assert(b =~= seq![b[0]] + b.drop_first());
        }
    } else if a.len() == 0 && b.len() == 0 {
        assert(a =~= b);
    }
}

proof fn lemma_not_less_trans(a: Seq<char>, b: Seq<char>, c: Seq<char>)
    requires
        !chars_less(b, a),
        !chars_less(c, b),
    ensures
        !chars_less(c, a),
{
    if chars_less(c, a) {
        lemma_chars_less_total(b, c);
        if chars_less(b, c) {
            lemma_chars_less_trans(b, c, a);
        }
    }
}

// ---------------------------------------------------------------------------------------------
// Sorting by text

/// Keyed items with their keys as plain text.
pub open spec fn text_keyed<T>(s: Seq<(Vec<char>, T)>) -> Seq<(Seq<char>, T)> {
    s.map_values(|p: (Vec<char>, T)| (p.0@, p.1))
}

/// `x` placed into ordered items after every item whose key is not after its own.
pub open spec fn insert_by_text<T>(s: Seq<(Seq<char>, T)>, x: (Seq<char>, T)) -> Seq<(Seq<char>, T)>
    decreases s.len(),
{
    if s.len() == 0 {
        seq![x]
    } else if chars_less(x.0, s.last().0) {
        insert_by_text(s.drop_last(), x).push(s.last())
    } else {
        s.push(x)
    }
}

/// The items ordered by key, items with equal keys in their original order.
pub open spec fn sort_by_text<T>(s: Seq<(Seq<char>, T)>) -> Seq<(Seq<char>, T)>
    decreases s.len(),
{
    if s.len() == 0 {
        seq![]
    } else {
        insert_by_text(sort_by_text(s.drop_last()), s.last())
    }
}

/// Whether no item's key comes before an earlier item's key.
pub open spec fn text_ordered<T>(s: Seq<(Seq<char>, T)>) -> bool {
    forall|i: int, j: int| 0 <= i < j < s.len() ==> !chars_less((#[trigger] s[j]).0, (#[trigger] s[i]).0)
}

proof fn lemma_insert_by_text<T>(s: Seq<(Seq<char>, T)>, x: (Seq<char>, T))
    requires
        text_ordered(s),
    ensures
        text_ordered(insert_by_text(s, x)),
        insert_by_text(s, x).to_multiset() == s.to_multiset().insert(x),
    decreases s.len(),
{
    broadcast use vstd::seq_lib::group_to_multiset_ensures;
    if s.len() == 0 {
        assert(insert_by_text(s, x) =~= Seq::<(Seq<char>, T)>::empty().push(x));
    } else {
        let d = s.drop_last();
        let l = s.last();
        assert(s =~= d.push(l));
        assert forall|i: int, j: int| 0 <= i < j < d.len() implies !chars_less((#[trigger] d[j]).0, (#[trigger] d[i]).0) by {
            assert(d[i] == s[i] && d[j] == s[j]);
        }
        if chars_less(x.0, l.0) {
            lemma_insert_by_text(d, x);
            let t = insert_by_text(d, x);
            let r = t.push(l);
            assert(r.to_multiset() == s.to_multiset().insert(x)) by {
                assert(r.to_multiset() == t.to_multiset().insert(l));
                assert(s.to_multiset() == d.to_multiset().insert(l));
            }
            assert forall|i: int, j: int| 0 <= i < j < r.len() implies !chars_less((#[trigger] r[j]).0, (#[trigger] r[i]).0) by {
                if j == r.len() - 1 {
                    let e = r[i];
                    assert(t[i] == e);
                    assert(t.to_multiset().count(e) > 0);
                    assert(d.to_multiset().insert(x).count(e) > 0);
                    if e == x {
                        lemma_chars_less_asym(x.0, l.0);
                    } else {
                        assert(d.to_multiset().count(e) > 0);
                        assert(d.contains(e));
                        let k = choose|k: int| 0 <= k < d.len() && d[k] == e;
                        assert(s[k] == e);
                        assert(!chars_less(s[s.len() - 1].0, s[k].0));
                    }
                } else {
                    assert(r[i] == t[i] && r[j] == t[j]);
                }
            }
        } else {
            let r = s.push(x);
            assert forall|i: int, j: int| 0 <= i < j < r.len() implies !chars_less((#[trigger] r[j]).0, (#[trigger] r[i]).0) by {
                if j == r.len() - 1 {
                    if i < s.len() - 1 {
                        assert(!chars_less(s[s.len() - 1].0, s[i].0));
                        lemma_not_less_trans(s[i].0, l.0, x.0);
                    }
                } else {
                    assert(r[i] == s[i] && r[j] == s[j]);
                }
            }
        }
    }
}

/// Sorting by text puts the items in order by key and keeps every item: the result is ordered
/// and holds the same items as many times as the input.
pub proof fn lemma_sort_by_text<T>(s: Seq<(Seq<char>, T)>)
    ensures
        text_ordered(sort_by_text(s)),
        sort_by_text(s).to_multiset() == s.to_multiset(),
    decreases s.len(),
{
    broadcast use vstd::seq_lib::group_to_multiset_ensures;
    if s.len() == 0 {
        assert(sort_by_text(s) =~= s);
    } else {
        lemma_sort_by_text(s.drop_last());
        lemma_insert_by_text(sort_by_text(s.drop_last()), s.last());
        assert(s =~= s.drop_last().push(s.last()));
    }
}

fn insert_text_keyed<T>(v: &mut Vec<(Vec<char>, T)>, x: (Vec<char>, T))
    ensures
        text_keyed(final(v)@) == insert_by_text(text_keyed(old(v)@), (x.0@, x.1)),
{
    let ghost xm = (x.0@, x.1);
    let ghost ms = text_keyed(v@);
    let mut pos: usize = v.len();
    assert(ms.take(ms.len() as int) =~= ms);
    assert(ms.skip(ms.len() as int) =~= Seq::<(Seq<char>, T)>::empty());
    while pos > 0 && less_chars(x.0.as_slice(), v[pos - 1].0.as_slice())
        invariant
            pos <= v@.len(),
            ms == text_keyed(v@),
            xm == (x.0@, x.1),
            insert_by_text(ms, xm) == insert_by_text(ms.take(pos as int), xm) + ms.skip(pos as int),
        decreases pos,
    {
        let ghost t = ms.take(pos as int);
        assert(t.last() == ms[pos - 1]);
        assert(ms[pos - 1] == (v@[pos - 1].0@, v@[pos - 1].1));
        assert(chars_less(xm.0, t.last().0));
        assert(t.drop_last() =~= ms.take(pos - 1));
        assert(ms.skip(pos - 1) =~= seq![t.last()] + ms.skip(pos as int));
        assert(insert_by_text(ms.take(pos - 1), xm).push(t.last()) + ms.skip(pos as int) =~= insert_by_text(
            ms.take(pos - 1),
            xm,
        ) + ms.skip(pos - 1));
        pos -= 1;
    }
    proof {
        if pos > 0 {
            assert(ms.take(pos as int).last() == ms[pos - 1]);
            assert(ms[pos - 1] == (v@[pos - 1].0@, v@[pos - 1].1));
            assert(insert_by_text(ms.take(pos as int), xm) == ms.take(pos as int).push(xm));
        } else {
            assert(ms.take(0) =~= Seq::<(Seq<char>, T)>::empty());
        }
    }
    let ghost before = v@;
    v.insert(pos, x);
    proof {
        assert(v@ == before.insert(pos as int, x));
        assert(text_keyed(v@) =~= ms.take(pos as int).push(xm) + ms.skip(pos as int));
    }
}

/// The items ordered by their text keys, items with equal keys in their original order (see
/// `sort_by_text`; `lemma_sort_by_text` shows the result ordered and a permutation).
pub fn sort_text_keyed<T>(items: Vec<(Vec<char>, T)>) -> (r: Vec<(Vec<char>, T)>)
    ensures
        text_keyed(r@) == sort_by_text(text_keyed(items@)),
{
    let ghost all = text_keyed(items@);
    let mut rest = items;
    let n = rest.len();
    let mut out: Vec<(Vec<char>, T)> = Vec::new();
    let mut i: usize = 0;
    assert(all.take(0) =~= Seq::<(Seq<char>, T)>::empty());
    assert(text_keyed(out@) =~= Seq::<(Seq<char>, T)>::empty());
    while rest.len() > 0
        invariant
            i + rest@.len() == all.len(),
            all.len() == n,
            text_keyed(rest@) == all.skip(i as int),
            text_keyed(out@) == sort_by_text(all.take(i as int)),
        decreases rest@.len(),
    {
        let ghost before = rest@;
        let x = rest.remove(0);
        assert((x.0@, x.1) == all[i as int]) by {
            assert(text_keyed(before)[0] == all.skip(i as int)[0]);
        }
        assert(text_keyed(rest@) =~= all.skip(i + 1)) by {
            assert(rest@ =~= before.subrange(1, before.len() as int));
            assert forall|k: int| 0 <= k < rest@.len() implies text_keyed(rest@)[k] == all.skip(i + 1)[k] by {
                assert(rest@[k] == before[k + 1]);
                assert(text_keyed(before)[k + 1] == all.skip(i as int)[k + 1]);
            }
        }
        insert_text_keyed(&mut out, x);
        assert(all.take(i + 1).drop_last() =~= all.take(i as int));
        assert(all.take(i + 1).last() == all[i as int]);
        i += 1;
    }
    assert(all.take(i as int) =~= all);
    out
}

// ---------------------------------------------------------------------------------------------
// Sorting by number

/// `x` placed into ordered items after every item whose key is not above its own.
pub open spec fn insert_by_number<T>(s: Seq<(u64, T)>, x: (u64, T)) -> Seq<(u64, T)>
    decreases s.len(),
{
    if s.len() == 0 {
        seq![x]
    } else if x.0 < s.last().0 {
        insert_by_number(s.drop_last(), x).push(s.last())
    } else {
        s.push(x)
    }
}

/// The items ordered by key, items with equal keys in their original order.
pub open spec fn sort_by_number<T>(s: Seq<(u64, T)>) -> Seq<(u64, T)>
    decreases s.len(),
{
    if s.len() == 0 {
        seq![]
    } else {
        insert_by_number(sort_by_number(s.drop_last()), s.last())
    }
}

fn insert_number_keyed<T>(v: &mut Vec<(u64, T)>, x: (u64, T))
    ensures
        final(v)@ == insert_by_number(old(v)@, x),
{
    let ghost ms = v@;
    let mut pos: usize = v.len();
    assert(ms.take(ms.len() as int) =~= ms);
    assert(ms.skip(ms.len() as int) =~= Seq::<(u64, T)>::empty());
    while pos > 0 && x.0 < v[pos - 1].0
        invariant
            pos <= v@.len(),
            ms == v@,
            insert_by_number(ms, x) == insert_by_number(ms.take(pos as int), x) + ms.skip(pos as int),
        decreases pos,
    {
        let ghost t = ms.take(pos as int);
        assert(t.last() == ms[pos - 1]);
        assert(t.drop_last() =~= ms.take(pos - 1));
        assert(ms.skip(pos - 1) =~= seq![t.last()] + ms.skip(pos as int));
        assert(insert_by_number(ms.take(pos - 1), x).push(t.last()) + ms.skip(pos as int) =~= insert_by_number(
            ms.take(pos - 1),
            x,
        ) + ms.skip(pos - 1));
        pos -= 1;
    }
    proof {
        if pos > 0 {
            assert(ms.take(pos as int).last() == ms[pos - 1]);
            assert(insert_by_number(ms.take(pos as int), x) == ms.take(pos as int).push(x));
        } else {
            assert(ms.take(0) =~= Seq::<(u64, T)>::empty());
        }
    }
    v.insert(pos, x);
    proof {
        assert(v@ =~= ms.take(pos as int).push(x) + ms.skip(pos as int));
    }
}

/// The items ordered by their number keys, items with equal keys in their original order.
pub fn sort_number_keyed<T>(items: Vec<(u64, T)>) -> (r: Vec<(u64, T)>)
    ensures
        r@ == sort_by_number(items@),
{
    let ghost all = items@;
    let mut rest = items;
    let n = rest.len();
    let mut out: Vec<(u64, T)> = Vec::new();
    let mut i: usize = 0;
    assert(all.take(0) =~= Seq::<(u64, T)>::empty());
    while rest.len() > 0
        invariant
            i + rest@.len() == all.len(),
            all.len() == n,
            rest@ == all.skip(i as int),
            out@ == sort_by_number(all.take(i as int)),
        decreases rest@.len(),
    {
        let ghost before = rest@;
        let x = rest.remove(0);
        assert(x == all[i as int]);
        assert(rest@ =~= all.skip(i + 1));
        insert_number_keyed(&mut out, x);
        assert(all.take(i + 1).drop_last() =~= all.take(i as int));
        assert(all.take(i + 1).last() == all[i as int]);
        i += 1;
    }
    assert(all.take(i as int) =~= all);
    out
}

/// Whether no item's key is below an earlier item's key.
pub open spec fn number_ordered<T>(s: Seq<(u64, T)>) -> bool {
    forall|i: int, j: int| 0 <= i < j < s.len() ==> (#[trigger] s[i]).0 <= (#[trigger] s[j]).0
}

proof fn lemma_insert_by_number<T>(s: Seq<(u64, T)>, x: (u64, T))
    requires
        number_ordered(s),
    ensures
        number_ordered(insert_by_number(s, x)),
        insert_by_number(s, x).to_multiset() == s.to_multiset().insert(x),
    decreases s.len(),
{
    broadcast use vstd::seq_lib::group_to_multiset_ensures;
    if s.len() == 0 {
        assert(insert_by_number(s, x) =~= Seq::<(u64, T)>::empty().push(x));
    } else {
        let d = s.drop_last();
        let l = s.last();
        assert(s =~= d.push(l));
        assert forall|i: int, j: int| 0 <= i < j < d.len() implies (#[trigger] d[i]).0 <= (#[trigger] d[j]).0 by {
            assert(d[i] == s[i] && d[j] == s[j]);
        }
        if x.0 < l.0 {
            lemma_insert_by_number(d, x);
            let t = insert_by_number(d, x);
            let r = t.push(l);
            assert(r.to_multiset() == s.to_multiset().insert(x)) by {
                assert(r.to_multiset() == t.to_multiset().insert(l));
                assert(s.to_multiset() == d.to_multiset().insert(l));
            }
            assert forall|i: int, j: int| 0 <= i < j < r.len() implies (#[trigger] r[i]).0 <= (#[trigger] r[j]).0 by {
                if j == r.len() - 1 {
                    let e = r[i];
                    assert(t[i] == e);
                    assert(t.to_multiset().count(e) > 0);
                    assert(d.to_multiset().insert(x).count(e) > 0);
                    if e != x {
                        assert(d.to_multiset().count(e) > 0);
                        assert(d.contains(e));
                        let k = choose|k: int| 0 <= k < d.len() && d[k] == e;
                        assert(s[k] == e);
                        assert(s[k].0 <= s[s.len() - 1].0);
                    }
                } else {
                    assert(r[i] == t[i] && r[j] == t[j]);
                }
            }
        } else {
            let r = s.push(x);
            assert forall|i: int, j: int| 0 <= i < j < r.len() implies (#[trigger] r[i]).0 <= (#[trigger] r[j]).0 by {
                if j == r.len() - 1 {
                    if i < s.len() - 1 {
                        assert(s[i].0 <= s[s.len() - 1].0);
                    }
                } else {
                    assert(r[i] == s[i] && r[j] == s[j]);
                }
            }
        }
    }
}

/// Sorting by number puts the items in order by key and keeps every item.
pub proof fn lemma_sort_by_number<T>(s: Seq<(u64, T)>)
    ensures
        number_ordered(sort_by_number(s)),
        sort_by_number(s).to_multiset() == s.to_multiset(),
    decreases s.len(),
{
    broadcast use vstd::seq_lib::group_to_multiset_ensures;
    if s.len() == 0 {
        assert(sort_by_number(s) =~= s);
    } else {
        lemma_sort_by_number(s.drop_last());
        lemma_insert_by_number(sort_by_number(s.drop_last()), s.last());
        assert(s =~= s.drop_last().push(s.last()));
    }
}

/// The items of keyed items, keys dropped.
pub fn strip_keys<K, T>(items: Vec<(K, T)>) -> (r: Vec<T>)
    ensures
        r@ == items@.map_values(|p: (K, T)| p.1),
{
    let ghost all = items@;
    let mut rest = items;
    let n = rest.len();
    let mut out: Vec<T> = Vec::new();
    let mut i: usize = 0;
    while rest.len() > 0
        invariant
            i + rest@.len() == all.len(),
            all.len() == n,
            rest@ == all.skip(i as int),
            out@ == all.take(i as int).map_values(|p: (K, T)| p.1),
        decreases rest@.len(),
    {
        let x = rest.remove(0);
        assert(x == all[i as int]);
        assert(rest@ =~= all.skip(i + 1));
        out.push(x.1);
        i += 1;
        assert(out@ =~= all.take(i as int).map_values(|p: (K, T)| p.1));
    }
    assert(all.take(i as int) =~= all);
    out
}

} // verus!
