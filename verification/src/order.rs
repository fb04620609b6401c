//! A total, locale-independent lexicographic order on strings, and a stable
//! insertion sort keyed by a string field, shared by every listing that the
//! session returns in deterministic order.
use vstd::prelude::*;
use vstd::string::*;

verus! {

/// Lexicographic order on character sequences, comparing scalar values:
/// the empty sequence comes first, and a proper prefix precedes its extensions.
pub open spec fn lex_le(a: Seq<char>, b: Seq<char>) -> bool
    decreases a.len(),
{
    if a.len() == 0 {
        true
    } else if b.len() == 0 {
        false
    } else if (a[0] as u32) == (b[0] as u32) {
        lex_le(a.skip(1), b.skip(1))
    } else {
        (a[0] as u32) < (b[0] as u32)
    }
}

/// `lex_le` relates every pair of sequences one way or the other.
pub proof fn lemma_lex_le_total(a: Seq<char>, b: Seq<char>)
    ensures
        lex_le(a, b) || lex_le(b, a),
    decreases a.len(),
{
    if a.len() == 0 {
    } else if b.len() == 0 {
    } else if (a[0] as u32) == (b[0] as u32) {
        lemma_lex_le_total(a.skip(1), b.skip(1));
    }
}

/// `lex_le` is transitive.
pub proof fn lemma_lex_le_trans(a: Seq<char>, b: Seq<char>, c: Seq<char>)
    requires
        lex_le(a, b),
        lex_le(b, c),
    ensures
        lex_le(a, c),
    decreases a.len(),
{
    if a.len() == 0 {
    } else {
        if b.len() == 0 {
            assert(false);
        } else if c.len() == 0 {
            assert(false);
        } else if (a[0] as u32) == (b[0] as u32) && (b[0] as u32) == (c[0] as u32) {
            lemma_lex_le_trans(a.skip(1), b.skip(1), c.skip(1));
        }
    }
}

/// Two sequences that agree on their first `i` characters compare the same
/// way as their remainders.
pub proof fn lemma_lex_le_common_prefix(a: Seq<char>, b: Seq<char>, i: int)
    requires
        0 <= i <= a.len(),
        i <= b.len(),
        forall|j: int| 0 <= j < i ==> (a[j] as u32) == (b[j] as u32),
    ensures
        lex_le(a, b) == lex_le(a.skip(i), b.skip(i)),
    decreases i,
{
    if i == 0 {
        assert(a.skip(0) =~= a);
        assert(b.skip(0) =~= b);
    } else {
        assert((a[0] as u32) == (b[0] as u32));
        lemma_lex_le_common_prefix(a.skip(1), b.skip(1), i - 1);
        assert(a.skip(1).skip(i - 1) =~= a.skip(i));
        assert(b.skip(1).skip(i - 1) =~= b.skip(i));
    }
}

/// Decides `lex_le` on string slices.
pub fn str_le(a: &str, b: &str) -> (r: bool)
    ensures
        r == lex_le(a@, b@),
{
    let a_len = a.unicode_len();
    let b_len = b.unicode_len();
    let mut i: usize = 0;
    loop
        invariant
            i <= a_len,
            i <= b_len,
            a_len == a@.len(),
            b_len == b@.len(),
            forall|j: int| 0 <= j < i ==> (a@[j] as u32) == (b@[j] as u32),
        decreases a_len - i,
    {
        proof {
            lemma_lex_le_common_prefix(a@, b@, i as int);
        }
        if i == a_len {
            return true;
        }
        if i == b_len {
            return false;
        }
        let ca = a.get_char(i) as u32;
        let cb = b.get_char(i) as u32;
        assert(a@.skip(i as int)[0] == a@[i as int]);
        assert(b@.skip(i as int)[0] == b@[i as int]);
        if ca != cb {
            return ca < cb;
        }
        i = i + 1;
    }
}

/// An element that carries a string sort key.
pub trait SortKey: Sized {
    /// The key this element is ordered by.
    spec fn skey(&self) -> Seq<char>;

    /// The executable view of the key.
    fn key_str(&self) -> (r: &str)
        ensures
            r@ == self.skey(),
    ;
}

/// The key function of a `SortKey` element, as a value.
pub open spec fn elem_key<T: SortKey>() -> spec_fn(T) -> Seq<char> {
    |t: T| t.skey()
}

/// `x` placed into `s` after every element whose key does not exceed `x`'s:
/// one step of a stable insertion sort.
pub open spec fn insert_keyed<T>(s: Seq<T>, x: T, key: spec_fn(T) -> Seq<char>) -> Seq<T>
    decreases s.len(),
{
    if s.len() == 0 {
        seq![x]
    } else if lex_le(key(s.last()), key(x)) {
        s.push(x)
    } else {
        insert_keyed(s.drop_last(), x, key).push(s.last())
    }
}

/// The stable sort of `s` by `key`, ascending: elements with equal keys keep
/// their original relative order.
pub open spec fn sort_keyed<T>(s: Seq<T>, key: spec_fn(T) -> Seq<char>) -> Seq<T>
    decreases s.len(),
{
    if s.len() == 0 {
        Seq::<T>::empty()
    } else {
        insert_keyed(sort_keyed(s.drop_last(), key), s.last(), key)
    }
}

/// `s` is ordered by `key`, ascending.
pub open spec fn sorted_keyed<T>(s: Seq<T>, key: spec_fn(T) -> Seq<char>) -> bool {
    forall|i: int, j: int| 0 <= i < j < s.len() ==> lex_le(key(s[i]), key(s[j]))
}

/// Inserting into a sorted sequence keeps it sorted, adds one element, and
/// adds no element but `x`.
pub proof fn lemma_insert_keyed_props<T>(s: Seq<T>, x: T, key: spec_fn(T) -> Seq<char>)
    requires
        sorted_keyed(s, key),
    ensures
        sorted_keyed(insert_keyed(s, x, key), key),
        insert_keyed(s, x, key).len() == s.len() + 1,
        forall|i: int|
            0 <= i < s.len() + 1 ==> (insert_keyed(s, x, key)[i] == x || s.contains(
                insert_keyed(s, x, key)[i],
            )),
    decreases s.len(),
{
    let t = insert_keyed(s, x, key);
    if s.len() == 0 {
    } else if lex_le(key(s.last()), key(x)) {
        assert forall|i: int, j: int| 0 <= i < j < t.len() implies lex_le(
            key(t[i]),
            key(t[j]),
        ) by {
            if j == t.len() - 1 {
                if i < s.len() - 1 {
                    lemma_lex_le_trans(key(s[i]), key(s.last()), key(x));
                }
            }
        }
        assert forall|i: int| 0 <= i < s.len() + 1 implies (t[i] == x || s.contains(t[i])) by {
            if i < s.len() {
                assert(s[i] == t[i]);
            }
        }
    } else {
        lemma_lex_le_total(key(s.last()), key(x));
        let u = insert_keyed(s.drop_last(), x, key);
        assert(sorted_keyed(s.drop_last(), key)) by {
            assert forall|i: int, j: int|
                0 <= i < j < s.drop_last().len() implies lex_le(
                key(s.drop_last()[i]),
                key(s.drop_last()[j]),
            ) by {
                assert(s.drop_last()[i] == s[i]);
                assert(s.drop_last()[j] == s[j]);
            }
        }
        lemma_insert_keyed_props(s.drop_last(), x, key);
        assert(t =~= u.push(s.last()));
        assert forall|i: int, j: int| 0 <= i < j < t.len() implies lex_le(
            key(t[i]),
            key(t[j]),
        ) by {
            if j == t.len() - 1 {
                assert(t[j] == s.last());
                assert(u[i] == x || s.drop_last().contains(u[i]));
                if u[i] == x {
                    assert(lex_le(key(x), key(s.last())));
                } else {
                    let w = choose|w: int|
                        0 <= w < s.drop_last().len() && s.drop_last()[w] == u[i];
                    assert(s[w] == u[i]);
                    assert(lex_le(key(s[w]), key(s.last())));
                }
            }
        }
        assert forall|i: int| 0 <= i < s.len() + 1 implies (t[i] == x || s.contains(t[i])) by {
            if i < u.len() {
                assert(t[i] == u[i]);
                if u[i] != x {
                    let w = choose|w: int|
                        0 <= w < s.drop_last().len() && s.drop_last()[w] == u[i];
                    assert(s[w] == u[i]);
                }
            } else {
                assert(t[i] == s.last());
                assert(s[s.len() - 1] == s.last());
            }
        }
    }
}

/// The stable sort of any sequence is sorted and has the same length.
/// This is the ordering guarantee behind every listing the session returns.
pub proof fn lemma_sort_keyed_sorted<T>(s: Seq<T>, key: spec_fn(T) -> Seq<char>)
    ensures
        sorted_keyed(sort_keyed(s, key), key),
        sort_keyed(s, key).len() == s.len(),
    decreases s.len(),
{
    if s.len() > 0 {
        lemma_sort_keyed_sorted(s.drop_last(), key);
        lemma_insert_keyed_props(sort_keyed(s.drop_last(), key), s.last(), key);
    }
}

/// Where exactly `insert_keyed` lands: at the boundary index `p` between the
/// keys that do not exceed `x`'s and the rest.
pub proof fn lemma_insert_keyed_at<T>(s: Seq<T>, x: T, key: spec_fn(T) -> Seq<char>, p: int)
    requires
        sorted_keyed(s, key),
        0 <= p <= s.len(),
        forall|i: int| 0 <= i < p ==> lex_le(key(s[i]), key(x)),
        p < s.len() ==> !lex_le(key(s[p]), key(x)),
    ensures
        insert_keyed(s, x, key) == s.insert(p, x),
    decreases s.len(),
{
    if s.len() == 0 {
        assert(insert_keyed(s, x, key) =~= s.insert(0, x));
    } else if lex_le(key(s.last()), key(x)) {
        if p < s.len() {
            if p < s.len() - 1 {
                lemma_lex_le_trans(key(s[p]), key(s.last()), key(x));
            }
            assert(false);
        }
        assert(insert_keyed(s, x, key) =~= s.insert(s.len() as int, x));
    } else {
        if p == s.len() {
            assert(lex_le(key(s.last()), key(x)));
            assert(false);
        }
        assert(sorted_keyed(s.drop_last(), key)) by {
            assert forall|i: int, j: int|
                0 <= i < j < s.drop_last().len() implies lex_le(
                key(s.drop_last()[i]),
                key(s.drop_last()[j]),
            ) by {
                assert(s.drop_last()[i] == s[i]);
                assert(s.drop_last()[j] == s[j]);
            }
        }
        assert forall|i: int| 0 <= i < p implies lex_le(key(s.drop_last()[i]), key(x)) by {
            assert(s.drop_last()[i] == s[i]);
        }
        lemma_insert_keyed_at(s.drop_last(), x, key, p);
        assert(insert_keyed(s.drop_last(), x, key).push(s.last()) =~= s.insert(p, x));
    }
}

/// Converting each element commutes with one insertion step, when the
/// conversion preserves keys.
pub proof fn lemma_insert_keyed_map<T, M>(
    s: Seq<T>,
    x: T,
    f: spec_fn(T) -> M,
    tk: spec_fn(T) -> Seq<char>,
    mk: spec_fn(M) -> Seq<char>,
)
    requires
        forall|t: T| #[trigger] mk(f(t)) == tk(t),
    ensures
        insert_keyed(s, x, tk).map_values(f) == insert_keyed(s.map_values(f), f(x), mk),
    decreases s.len(),
{
    if s.len() == 0 {
        assert(insert_keyed(s, x, tk).map_values(f) =~= seq![f(x)]);
        assert(insert_keyed(s.map_values(f), f(x), mk) =~= seq![f(x)]);
    } else {
        let sm = s.map_values(f);
        assert(sm.last() == f(s.last()));
        if lex_le(tk(s.last()), tk(x)) {
            assert(s.push(x).map_values(f) =~= sm.push(f(x)));
        } else {
            lemma_insert_keyed_map(s.drop_last(), x, f, tk, mk);
            assert(s.drop_last().map_values(f) =~= sm.drop_last());
            assert(insert_keyed(s.drop_last(), x, tk).push(s.last()).map_values(f)
                =~= insert_keyed(sm.drop_last(), f(x), mk).push(sm.last()));
        }
    }
}

/// Extending a converted prefix by one element: where the first `k` source
/// elements convert to `before`, and `x` converts like the source's `k`-th
/// element, `before` with `x` appended converts like the first `k + 1`.
pub proof fn lemma_map_values_extend<T, M, U>(
    before: Seq<T>,
    x: T,
    f: spec_fn(T) -> M,
    src: Seq<U>,
    k: int,
    g: spec_fn(U) -> M,
)
    requires
        0 <= k < src.len(),
        before.map_values(f) == src.subrange(0, k).map_values(g),
        f(x) == g(src[k]),
    ensures
        before.push(x).map_values(f) == src.subrange(0, k + 1).map_values(g),
{
    assert(before.map_values(f).len() == before.len());
    assert(src.subrange(0, k).map_values(g).len() == k);
    assert(before.push(x).map_values(f) =~= src.subrange(0, k + 1).map_values(g)) by {
        assert forall|i: int| 0 <= i < k implies #[trigger] before.push(x).map_values(f)[i]
            == src.subrange(0, k + 1).map_values(g)[i] by {
            assert(before.push(x)[i] == before[i]);
            assert(before.push(x).map_values(f)[i] == f(before.push(x)[i]));
            assert(before.map_values(f)[i] == f(before[i]));
            assert(before.map_values(f)[i] == src.subrange(0, k).map_values(g)[i]);
            assert(src.subrange(0, k).map_values(g)[i] == g(src.subrange(0, k)[i]));
            assert(src.subrange(0, k)[i] == src.subrange(0, k + 1)[i]);
            assert(src.subrange(0, k + 1).map_values(g)[i] == g(src.subrange(0, k + 1)[i]));
        }
        assert(before.push(x)[k] == x);
        assert(src.subrange(0, k + 1)[k] == src[k]);
    }
}

/// Converting each element commutes with the stable sort, when the conversion
/// preserves keys.
pub proof fn lemma_sort_keyed_map<T, M>(
    s: Seq<T>,
    f: spec_fn(T) -> M,
    tk: spec_fn(T) -> Seq<char>,
    mk: spec_fn(M) -> Seq<char>,
)
    requires
        forall|t: T| #[trigger] mk(f(t)) == tk(t),
    ensures
        sort_keyed(s, tk).map_values(f) == sort_keyed(s.map_values(f), mk),
    decreases s.len(),
{
    if s.len() == 0 {
        assert(sort_keyed(s, tk).map_values(f) =~= Seq::<M>::empty());
        assert(s.map_values(f) =~= Seq::<M>::empty());
    } else {
        lemma_sort_keyed_map(s.drop_last(), f, tk, mk);
        lemma_insert_keyed_map(sort_keyed(s.drop_last(), tk), s.last(), f, tk, mk);
        assert(s.map_values(f).drop_last() =~= s.drop_last().map_values(f));
        assert(s.map_values(f).last() == f(s.last()));
        assert(s.map_values(f).len() == s.len());
    }
}

/// Sorts `v` by each element's key, ascending and stably.
pub fn sort_by_key<T: SortKey>(v: Vec<T>) -> (res: Vec<T>)
    ensures
        res@ == sort_keyed(v@, elem_key::<T>()),
        sorted_keyed(res@, elem_key::<T>()),
{
    let ghost orig = v@;
    let ghost key = elem_key::<T>();
    let mut rest = v;
    let mut out: Vec<T> = Vec::new();
    while rest.len() > 0
        invariant
            key == elem_key::<T>(),
            rest@ == orig.skip(orig.len() - rest@.len()),
            rest@.len() <= orig.len(),
            out@ == sort_keyed(orig.subrange(0, orig.len() - rest@.len()), key),
            sorted_keyed(out@, key),
        decreases rest.len(),
    {
        let ghost k = orig.len() - rest@.len();
        let x = rest.remove(0);
        assert(x == orig[k]);
        assert(rest@ =~= orig.skip(k + 1));
        let mut p: usize = 0;
        while p < out.len() && str_le(out[p].key_str(), x.key_str())
            invariant
                key == elem_key::<T>(),
                p <= out@.len(),
                forall|i: int| 0 <= i < p ==> lex_le(key(out@[i]), key(x)),
                sorted_keyed(out@, key),
            decreases out@.len() - p,
        {
            assert(key(out@[p as int]) == out@[p as int].skey());
            assert(key(x) == x.skey());
            p = p + 1;
        }
        proof {
            assert(key(x) == x.skey());
            if (p as int) < out@.len() {
                assert(key(out@[p as int]) == out@[p as int].skey());
            }
            lemma_insert_keyed_at(out@, x, key, p as int);
            lemma_insert_keyed_props(out@, x, key);
            assert(orig.subrange(0, k + 1).drop_last() =~= orig.subrange(0, k));
            assert(orig.subrange(0, k + 1).last() == orig[k]);
        }
        out.insert(p, x);
        assert(out@ == sort_keyed(orig.subrange(0, k + 1), key));
    }
    proof {
        assert(orig.subrange(0, orig.len() as int) =~= orig);
    }
    out
}

} // verus!
