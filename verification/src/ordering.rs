//! Ordering of sessions: lexicographic text comparison, per-mode sort keys and a
//! stable insertion sort of session indices.

use vstd::prelude::*;
use crate::text::chars_of;
use crate::types::{agent_rank, Session, SortMode};

verus! {

// ───────────────────────── lexicographic order on text ─────────────────────────

/// Strict lexicographic order on character sequences, comparing code points
/// (the order `Ord for String` gives, since UTF-8 preserves code-point order).
pub open spec fn lex_lt(a: Seq<char>, b: Seq<char>) -> bool
    decreases a.len(),
{
    if a.len() == 0 {
        b.len() > 0
    } else if b.len() == 0 {
        false
    } else if a[0] < b[0] {
        true
    } else if a[0] == b[0] {
        lex_lt(a.drop_first(), b.drop_first())
    } else {
        false
    }
}

/// No sequence is lexicographically below itself.
pub proof fn lemma_lex_irreflexive(a: Seq<char>)
    ensures
        !lex_lt(a, a),
    decreases a.len(),
{
    if a.len() > 0 {
        lemma_lex_irreflexive(a.drop_first());
    }
}

/// The lexicographic order is transitive.
pub proof fn lemma_lex_transitive(a: Seq<char>, b: Seq<char>, c: Seq<char>)
    requires
        lex_lt(a, b),
        lex_lt(b, c),
    ensures
        lex_lt(a, c),
    decreases a.len(),
{
    if a.len() > 0 && b.len() > 0 && c.len() > 0 {
        if a[0] == b[0] && b[0] == c[0] {
            lemma_lex_transitive(a.drop_first(), b.drop_first(), c.drop_first());
        }
    }
}

/// Of two different sequences, one is lexicographically below the other.
pub proof fn lemma_lex_total(a: Seq<char>, b: Seq<char>)
    ensures
        a == b || lex_lt(a, b) || lex_lt(b, a),
    decreases a.len(),
{
    if a.len() > 0 && b.len() > 0 {
        if a[0] == b[0] {
            lemma_lex_total(a.drop_first(), b.drop_first());
            if a.drop_first() == b.drop_first() {
                assert(a =~= seq![a[0]] + a.drop_first());
                assert(b =~= seq![b[0]] + b.drop_first());
            }
        }
    } else if a.len() == 0 && b.len() == 0 {
        assert(a =~= b);
    }
}

/// Two sequences are never each below the other.
pub proof fn lemma_lex_asymmetric(a: Seq<char>, b: Seq<char>)
    requires
        lex_lt(a, b),
    ensures
        !lex_lt(b, a),
{
    if lex_lt(b, a) {
        lemma_lex_transitive(a, b, a);
        lemma_lex_irreflexive(a);
    }
}

/// Executable lexicographic comparison of two character vectors.
pub fn chars_lt(a: &Vec<char>, b: &Vec<char>) -> (r: bool)
    ensures
        r == lex_lt(a@, b@),
{
    let mut i: usize = 0;
    assert(a@.skip(0) =~= a@);
    assert(b@.skip(0) =~= b@);
    while i < a.len() && i < b.len()
        invariant
            i <= a.len(),
            i <= b.len(),
            lex_lt(a@, b@) == lex_lt(a@.skip(i as int), b@.skip(i as int)),
        decreases a.len() - i,
    {
        let ca = a[i];
        let cb = b[i];
        assert(a@.skip(i as int)[0] == ca);
        assert(b@.skip(i as int)[0] == cb);
        if ca < cb {
            return true;
        }
        if ca != cb {
            return false;
        }
        assert(a@.skip(i as int).drop_first() =~= a@.skip(i + 1));
        assert(b@.skip(i as int).drop_first() =~= b@.skip(i + 1));
        i = i + 1;
    }
    i == a.len() && i < b.len()
}

// ───────────────────────── Unicode lowercasing (std) ─────────────────────────

/// What `str::to_lowercase` returns for a string with the given characters.
pub uninterp spec fn lowercase(s: Seq<char>) -> Seq<char>;

/// Calls `str::to_lowercase`; the result is named `lowercase` of the input.
#[verifier::external_body]
pub(crate) fn to_lowercase(s: &str) -> (r: String)
    ensures
        r@ == lowercase(s@),
{
    s.to_lowercase()
}

// ───────────────────────── per-mode session keys ─────────────────────────

/// The values a session is ordered by: pin state, last activity, lowercased
/// title and agent rank.
pub struct SortKey {
    pub pinned: bool,
    pub last_active: u64,
    pub name: Vec<char>,
    pub rank: u8,
}

/// The sort key of a session: pinned flag, last activity, lower-cased title and agent rank.
pub open spec fn key_of(s: Session) -> (bool, u64, Seq<char>, nat) {
    (s.pinned, s.last_active, lowercase(s.title@), agent_rank(s.agent))
}

/// The mathematical value of a computed sort key.
pub open spec fn sort_key_view(k: SortKey) -> (bool, u64, Seq<char>, nat) {
    (k.pinned, k.last_active, k.name@, k.rank as nat)
}

/// "`x` comes strictly before `y`" under the given mode: pinned sessions
/// first, then the mode's own ordering.
pub open spec fn key_lt(mode: SortMode, x: (bool, u64, Seq<char>, nat), y: (bool, u64, Seq<char>, nat)) -> bool {
    if x.0 != y.0 {
        x.0
    } else {
        match mode {
            SortMode::TimeDesc => x.1 > y.1,
            SortMode::TimeAsc => x.1 < y.1,
            SortMode::NameAsc => lex_lt(x.2, y.2),
            SortMode::NameDesc => lex_lt(y.2, x.2),
            SortMode::AgentGroup => x.3 < y.3 || (x.3 == y.3 && x.1 > y.1),
        }
    }
}

/// Order of two sessions under a mode.
pub open spec fn session_lt(mode: SortMode, a: Session, b: Session) -> bool {
    key_lt(mode, key_of(a), key_of(b))
}

/// Indices into `ss` ordered by the mode's session order.
pub open spec fn index_lt(mode: SortMode, ss: Seq<Session>) -> spec_fn(usize, usize) -> bool {
    |a: usize, b: usize| session_lt(mode, ss[a as int], ss[b as int])
}

/// `key_lt` is a strict weak order: irreflexive, and both it and its
/// complement are transitive.
pub proof fn lemma_key_lt_strict_weak(mode: SortMode, x: (bool, u64, Seq<char>, nat), y: (bool, u64, Seq<char>, nat), z: (bool, u64, Seq<char>, nat))
    ensures
        !key_lt(mode, x, x),
        key_lt(mode, x, y) && key_lt(mode, y, z) ==> key_lt(mode, x, z),
        !key_lt(mode, y, x) && !key_lt(mode, z, y) ==> !key_lt(mode, z, x),
{
    lemma_lex_irreflexive(x.2);
    if key_lt(mode, x, y) && key_lt(mode, y, z) && x.0 == y.0 && y.0 == z.0 {
        match mode {
            SortMode::NameAsc => lemma_lex_transitive(x.2, y.2, z.2),
            SortMode::NameDesc => lemma_lex_transitive(z.2, y.2, x.2),
            _ => {},
        }
    }
    if !key_lt(mode, y, x) && !key_lt(mode, z, y) && x.0 == y.0 && y.0 == z.0 {
        lemma_lex_total(x.2, y.2);
        lemma_lex_total(y.2, z.2);
        match mode {
            SortMode::NameAsc => {
                if lex_lt(x.2, z.2) {
                    // x ≤ y ≤ z by totality; x < z forbids z < x
                    lemma_lex_asymmetric(x.2, z.2);
                } else if lex_lt(z.2, x.2) {
                    if lex_lt(y.2, x.2) {
                    } else if y.2 == x.2 {
                        if lex_lt(z.2, y.2) {
                        } else {
                            lemma_lex_total(z.2, y.2);
                        }
                    } else {
                        lemma_lex_transitive(z.2, x.2, y.2);
                    }
                }
            },
            SortMode::NameDesc => {
                if lex_lt(x.2, z.2) {
                    if lex_lt(x.2, y.2) {
                    } else if x.2 == y.2 {
                    } else {
                        lemma_lex_transitive(y.2, x.2, z.2);
                        if lex_lt(z.2, y.2) {
                            lemma_lex_asymmetric(y.2, z.2);
                        }
                    }
                }
            },
            _ => {},
        }
    }
}

/// Builds the sort key of one session, lowercasing its title.
pub fn session_key(s: &Session) -> (k: SortKey)
    ensures
        sort_key_view(k) == key_of(*s),
{
    let low = to_lowercase(s.title.as_str());
    let name = chars_of(low.as_str());
    SortKey { pinned: s.pinned, last_active: s.last_active, name, rank: s.agent.rank() }
}

/// Executable `key_lt`.
pub fn key_lt_exec(mode: SortMode, x: &SortKey, y: &SortKey) -> (r: bool)
    ensures
        r == key_lt(mode, sort_key_view(*x), sort_key_view(*y)),
{
    if x.pinned != y.pinned {
        return x.pinned;
    }
    match mode {
        SortMode::TimeDesc => x.last_active > y.last_active,
        SortMode::TimeAsc => x.last_active < y.last_active,
        SortMode::NameAsc => chars_lt(&x.name, &y.name),
        SortMode::NameDesc => chars_lt(&y.name, &x.name),
        SortMode::AgentGroup => x.rank < y.rank || (x.rank == y.rank && x.last_active > y.last_active),
    }
}

// ───────────────────────── stable sort ─────────────────────────

/// Inserts `x` into `sorted` in front of the first element that `x` strictly
/// precedes, so that elements equal to `x` keep coming first.
pub open spec fn insert_sorted(sorted: Seq<usize>, x: usize, lt: spec_fn(usize, usize) -> bool) -> Seq<usize>
    decreases sorted.len(),
{
    if sorted.len() == 0 {
        seq![x]
    } else if lt(x, sorted[0]) {
        seq![x] + sorted
    } else {
        seq![sorted[0]] + insert_sorted(sorted.drop_first(), x, lt)
    }
}

/// The stable sort of `s` under `lt` (what `slice::sort_by` yields for a
/// comparator that orders by `lt`).
pub open spec fn stable_sort(s: Seq<usize>, lt: spec_fn(usize, usize) -> bool) -> Seq<usize>
    decreases s.len(),
{
    if s.len() == 0 {
        Seq::empty()
    } else {
        insert_sorted(stable_sort(s.drop_last(), lt), s.last(), lt)
    }
}

/// First position whose element `x` strictly precedes (or the length).
pub open spec fn insert_pos(sorted: Seq<usize>, x: usize, lt: spec_fn(usize, usize) -> bool, k: int) -> bool {
    &&& 0 <= k <= sorted.len()
    &&& forall|j: int| 0 <= j < k ==> !lt(x, #[trigger] sorted[j])
    &&& k < sorted.len() ==> lt(x, sorted[k])
}

pub(crate) proof fn lemma_insert_sorted_at(sorted: Seq<usize>, x: usize, lt: spec_fn(usize, usize) -> bool, k: int)
    requires
        insert_pos(sorted, x, lt, k),
    ensures
        insert_sorted(sorted, x, lt) == sorted.take(k) + seq![x] + sorted.skip(k),
    decreases sorted.len(),
{
    if sorted.len() == 0 {
        assert(sorted.take(k) + seq![x] + sorted.skip(k) =~= seq![x]);
    } else if k == 0 {
        assert(sorted.take(k) + seq![x] + sorted.skip(k) =~= seq![x] + sorted);
    } else {
        assert(!lt(x, sorted[0]));
        let rest = sorted.drop_first();
        assert forall|j: int| 0 <= j < k - 1 implies !lt(x, #[trigger] rest[j]) by {
            assert(rest[j] == sorted[j + 1]);
        }
        if k - 1 < rest.len() {
            assert(rest[k - 1] == sorted[k]);
        }
        lemma_insert_sorted_at(rest, x, lt, k - 1);
        assert(sorted.take(k) + seq![x] + sorted.skip(k) =~= seq![sorted[0]] + (rest.take(k - 1) + seq![x] + rest.skip(k - 1)));
    }
}

/// Order of indices by the keys they point to.
pub open spec fn keys_lt(mode: SortMode, keys: Seq<SortKey>) -> spec_fn(usize, usize) -> bool {
    |a: usize, b: usize| key_lt(mode, sort_key_view(keys[a as int]), sort_key_view(keys[b as int]))
}

/// Stably sorts `v` (indices) under the order of the keys they point to.
fn stable_sort_by_keys(mode: SortMode, keys: &Vec<SortKey>, v: &Vec<usize>) -> (out: Vec<usize>)
    requires
        forall|i: int| 0 <= i < v.len() ==> (#[trigger] v[i]) < keys.len(),
    ensures
        out@ == stable_sort(v@, keys_lt(mode, keys@)),
{
    let ghost lt = keys_lt(mode, keys@);
    let mut out: Vec<usize> = Vec::new();
    let mut j: usize = 0;
    while j < v.len()
        invariant
            j <= v.len(),
            forall|i: int| 0 <= i < v.len() ==> (#[trigger] v[i]) < keys.len(),
            forall|i: int| 0 <= i < out.len() ==> (#[trigger] out[i]) < keys.len(),
            out@ == stable_sort(v@.take(j as int), lt),
            lt == keys_lt(mode, keys@),
        decreases v.len() - j,
    {
        let x = v[j];
        let mut k: usize = 0;
        while k < out.len() && !key_lt_exec(mode, &keys[x], &keys[out[k]])
            invariant
                k <= out.len(),
                x < keys.len(),
                forall|i: int| 0 <= i < out.len() ==> (#[trigger] out[i]) < keys.len(),
                lt == keys_lt(mode, keys@),
                forall|i: int| 0 <= i < k ==> !lt(x, #[trigger] out@[i]),
            decreases out.len() - k,
        {
            k = k + 1;
        }
        proof {
            lemma_insert_sorted_at(out@, x, lt, k as int);
            assert(v@.take(j + 1).drop_last() =~= v@.take(j as int));
            assert(v@.take(j + 1).last() == x);
        }
        out.insert(k, x);
        assert(out@ =~= stable_sort(v@.take(j as int), lt).take(k as int) + seq![x] + stable_sort(v@.take(j as int), lt).skip(k as int));
        j = j + 1;
    }
    assert(v@.take(v.len() as int) =~= v@);
    out
}

/// Orders `indices` (into `sessions`) by the sort mode, stably; pinned
/// sessions always come first.
pub fn sort_session_indices(sessions: &Vec<Session>, mode: SortMode, indices: &mut Vec<usize>)
    requires
        forall|i: int| 0 <= i < old(indices).len() ==> (#[trigger] old(indices)[i]) < sessions.len(),
    ensures
        final(indices)@ == stable_sort(old(indices)@, index_lt(mode, sessions@)),
{
    let mut keys: Vec<SortKey> = Vec::new();
    let mut i: usize = 0;
    while i < sessions.len()
        invariant
            i <= sessions.len(),
            keys.len() == i,
            forall|t: int| 0 <= t < i ==> sort_key_view(#[trigger] keys[t]) == key_of(sessions[t]),
        decreases sessions.len() - i,
    {
        let k = session_key(&sessions[i]);
        keys.push(k);
        i = i + 1;
    }
    let sorted = stable_sort_by_keys(mode, &keys, indices);
    proof {
        let lt1 = keys_lt(mode, keys@);
        let lt2 = index_lt(mode, sessions@);
        lemma_stable_sort_congruent(indices@, lt1, lt2, sessions.len() as nat);
    }
    *indices = sorted;
}

/// Two orders that agree on every pair of in-range indices sort alike.
pub proof fn lemma_stable_sort_congruent(s: Seq<usize>, lt1: spec_fn(usize, usize) -> bool, lt2: spec_fn(usize, usize) -> bool, n: nat)
    requires
        forall|i: int| 0 <= i < s.len() ==> (#[trigger] s[i]) < n,
        forall|a: usize, b: usize| #![trigger lt1(a, b)] #![trigger lt2(a, b)] a < n && b < n ==> lt1(a, b) == lt2(a, b),
    ensures
        stable_sort(s, lt1) == stable_sort(s, lt2),
    decreases s.len(),
{
    if s.len() > 0 {
        lemma_stable_sort_congruent(s.drop_last(), lt1, lt2, n);
        lemma_stable_sort_elems(s.drop_last(), lt1, n);
        lemma_insert_congruent(stable_sort(s.drop_last(), lt1), s.last(), lt1, lt2, n);
    }
}

proof fn lemma_insert_congruent(s: Seq<usize>, x: usize, lt1: spec_fn(usize, usize) -> bool, lt2: spec_fn(usize, usize) -> bool, n: nat)
    requires
        x < n,
        forall|i: int| 0 <= i < s.len() ==> (#[trigger] s[i]) < n,
        forall|a: usize, b: usize| #![trigger lt1(a, b)] #![trigger lt2(a, b)] a < n && b < n ==> lt1(a, b) == lt2(a, b),
    ensures
        insert_sorted(s, x, lt1) == insert_sorted(s, x, lt2),
    decreases s.len(),
{
    if s.len() > 0 {
        assert(s[0] < n);
        lemma_insert_congruent(s.drop_first(), x, lt1, lt2, n);
    }
}

/// Sorting and inserting keep exactly the same elements (as a multiset).
pub proof fn lemma_insert_sorted_multiset(s: Seq<usize>, x: usize, lt: spec_fn(usize, usize) -> bool)
    ensures
        insert_sorted(s, x, lt).to_multiset() == s.to_multiset().insert(x),
        insert_sorted(s, x, lt).len() == s.len() + 1,
    decreases s.len(),
{
    broadcast use vstd::seq_lib::group_to_multiset_ensures;
    if s.len() == 0 {
        assert(seq![x] =~= Seq::<usize>::empty().push(x));
    } else if lt(x, s[0]) {
        assert(seq![x] + s =~= s.insert(0, x));
    } else {
        lemma_insert_sorted_multiset(s.drop_first(), x, lt);
        let r = insert_sorted(s.drop_first(), x, lt);
        assert(seq![s[0]] + r =~= r.insert(0, s[0]));
        assert(s =~= s.drop_first().insert(0, s[0]));
    }
}

pub(crate) proof fn lemma_stable_sort_elems(s: Seq<usize>, lt: spec_fn(usize, usize) -> bool, n: nat)
    requires
        forall|i: int| 0 <= i < s.len() ==> (#[trigger] s[i]) < n,
    ensures
        forall|i: int| 0 <= i < stable_sort(s, lt).len() ==> (#[trigger] stable_sort(s, lt)[i]) < n,
        stable_sort(s, lt).to_multiset() == s.to_multiset(),
        stable_sort(s, lt).len() == s.len(),
{
    lemma_stable_sort_multiset(s, lt);
    assert forall|i: int| 0 <= i < stable_sort(s, lt).len() implies (#[trigger] stable_sort(s, lt)[i]) < n by {
        let e = stable_sort(s, lt)[i];
        broadcast use vstd::seq_lib::group_to_multiset_ensures;
        assert(stable_sort(s, lt).to_multiset().count(e) > 0);
        assert(s.contains(e));
    }
}

/// A stable sort is a permutation of its input.
pub proof fn lemma_stable_sort_multiset(s: Seq<usize>, lt: spec_fn(usize, usize) -> bool)
    ensures
        stable_sort(s, lt).to_multiset() == s.to_multiset(),
        stable_sort(s, lt).len() == s.len(),
    decreases s.len(),
{
    broadcast use vstd::seq_lib::group_to_multiset_ensures;
    if s.len() > 0 {
        lemma_stable_sort_multiset(s.drop_last(), lt);
        lemma_insert_sorted_multiset(stable_sort(s.drop_last(), lt), s.last(), lt);
        assert(s =~= s.drop_last().push(s.last()));
    }
}


/// `lt` is irreflexive and transitive.
pub open spec fn strict_order(lt: spec_fn(usize, usize) -> bool) -> bool {
    &&& forall|a: usize| !#[trigger] lt(a, a)
    &&& forall|a: usize, b: usize, c: usize| #[trigger] lt(a, b) && #[trigger] lt(b, c) ==> lt(a, c)
}

/// No element comes strictly before an earlier one.
pub open spec fn sorted_by(r: Seq<usize>, lt: spec_fn(usize, usize) -> bool) -> bool {
    forall|i: int, j: int| 0 <= i < j < r.len() ==> !lt(#[trigger] r[j], #[trigger] r[i])
}

proof fn lemma_insert_sorted_members(r: Seq<usize>, x: usize, lt: spec_fn(usize, usize) -> bool)
    ensures
        forall|i: int| 0 <= i < insert_sorted(r, x, lt).len() ==>
            (#[trigger] insert_sorted(r, x, lt)[i] == x || r.contains(insert_sorted(r, x, lt)[i])),
    decreases r.len(),
{
    if r.len() > 0 && !lt(x, r[0]) {
        let rest = r.drop_first();
        lemma_insert_sorted_members(rest, x, lt);
        let t = insert_sorted(r, x, lt);
        assert forall|i: int| 0 <= i < t.len() implies (#[trigger] t[i] == x || r.contains(t[i])) by {
            if i == 0 {
                assert(r[0] == t[0]);
            } else {
                let e = insert_sorted(rest, x, lt)[i - 1];
                assert(t[i] == e);
                if e != x {
                    let k = choose|k: int| 0 <= k < rest.len() && rest[k] == e;
                    assert(r[k + 1] == e);
                }
            }
        }
    } else if r.len() > 0 {
        let t = insert_sorted(r, x, lt);
        assert forall|i: int| 0 <= i < t.len() implies (#[trigger] t[i] == x || r.contains(t[i])) by {
            if i > 0 {
                assert(t[i] == r[i - 1]);
            }
        }
    }
}

proof fn lemma_insert_sorted_sorted(r: Seq<usize>, x: usize, lt: spec_fn(usize, usize) -> bool)
    requires
        strict_order(lt),
        sorted_by(r, lt),
    ensures
        sorted_by(insert_sorted(r, x, lt), lt),
    decreases r.len(),
{
    if r.len() == 0 {
    } else if lt(x, r[0]) {
        let t = insert_sorted(r, x, lt);
        assert forall|i: int, j: int| 0 <= i < j < t.len() implies !lt(#[trigger] t[j], #[trigger] t[i]) by {
            if i == 0 {
                assert(t[j] == r[j - 1]);
                if lt(r[j - 1], x) {
                    assert(lt(r[j - 1], r[0]));
                    if j - 1 == 0 {
                        assert(!lt(r[0], r[0]));
                    } else {
                        assert(!lt(r[j - 1], r[0]));
                    }
                }
            } else {
                assert(t[i] == r[i - 1] && t[j] == r[j - 1]);
            }
        }
    } else {
        let rest = r.drop_first();
        assert(sorted_by(rest, lt)) by {
            assert forall|i: int, j: int| 0 <= i < j < rest.len() implies !lt(#[trigger] rest[j], #[trigger] rest[i]) by {
                assert(rest[i] == r[i + 1] && rest[j] == r[j + 1]);
            }
        }
        lemma_insert_sorted_sorted(rest, x, lt);
        lemma_insert_sorted_members(rest, x, lt);
        let u = insert_sorted(rest, x, lt);
        let t = insert_sorted(r, x, lt);
        assert forall|i: int, j: int| 0 <= i < j < t.len() implies !lt(#[trigger] t[j], #[trigger] t[i]) by {
            if i == 0 {
                let e = u[j - 1];
                assert(t[j] == e && t[0] == r[0]);
                if e != x {
                    let k = choose|k: int| 0 <= k < rest.len() && rest[k] == e;
                    assert(r[k + 1] == e);
                }
            } else {
                assert(t[i] == u[i - 1] && t[j] == u[j - 1]);
            }
        }
    }
}


/// `lt` is a strict weak order: a strict order whose "not after" relation
/// is transitive too, so that incomparable elements form classes.
pub open spec fn strict_weak_order(lt: spec_fn(usize, usize) -> bool) -> bool {
    &&& strict_order(lt)
    &&& forall|a: usize, b: usize, c: usize| !#[trigger] lt(b, a) && !#[trigger] lt(c, b) ==> !lt(c, a)
}

/// Neither comes before the other.
pub open spec fn equiv(lt: spec_fn(usize, usize) -> bool, a: usize, b: usize) -> bool {
    !lt(a, b) && !lt(b, a)
}

/// The elements of `r` in the class of `x`, in order.
pub open spec fn class_of(r: Seq<usize>, lt: spec_fn(usize, usize) -> bool, x: usize) -> Seq<usize>
    decreases r.len(),
{
    if r.len() == 0 {
        Seq::empty()
    } else {
        class_of(r.drop_last(), lt, x) + (if equiv(lt, r.last(), x) { seq![r.last()] } else { Seq::empty() })
    }
}

proof fn lemma_class_of_add(a: Seq<usize>, b: Seq<usize>, lt: spec_fn(usize, usize) -> bool, x: usize)
    ensures
        class_of(a + b, lt, x) == class_of(a, lt, x) + class_of(b, lt, x),
    decreases b.len(),
{
    if b.len() == 0 {
        assert(a + b =~= a);
        assert(class_of(a, lt, x) + class_of(b, lt, x) =~= class_of(a, lt, x));
    } else {
        lemma_class_of_add(a, b.drop_last(), lt, x);
        assert((a + b).drop_last() =~= a + b.drop_last());
        assert((a + b).last() == b.last());
        assert(class_of(a + b, lt, x) =~= class_of(a, lt, x) + class_of(b, lt, x));
    }
}

proof fn lemma_class_of_none(r: Seq<usize>, lt: spec_fn(usize, usize) -> bool, x: usize)
    requires
        forall|i: int| 0 <= i < r.len() ==> !equiv(lt, #[trigger] r[i], x),
    ensures
        class_of(r, lt, x) == Seq::<usize>::empty(),
    decreases r.len(),
{
    if r.len() > 0 {
        assert forall|i: int| 0 <= i < r.drop_last().len() implies !equiv(lt, #[trigger] r.drop_last()[i], x) by {
            assert(r.drop_last()[i] == r[i]);
        }
        lemma_class_of_none(r.drop_last(), lt, x);
        assert(!equiv(lt, r[r.len() - 1], x));
    }
}

proof fn lemma_insert_pos_exists(r: Seq<usize>, y: usize, lt: spec_fn(usize, usize) -> bool) -> (k: int)
    ensures
        insert_pos(r, y, lt, k),
    decreases r.len(),
{
    if r.len() == 0 {
        0
    } else if lt(y, r[0]) {
        0
    } else {
        let k1 = lemma_insert_pos_exists(r.drop_first(), y, lt);
        assert forall|j: int| 0 <= j < k1 + 1 implies !lt(y, #[trigger] r[j]) by {
            if j > 0 {
                assert(r[j] == r.drop_first()[j - 1]);
            }
        }
        if k1 + 1 < r.len() {
            assert(r[k1 + 1] == r.drop_first()[k1]);
        }
        k1 + 1
    }
}

proof fn lemma_insert_class(r: Seq<usize>, y: usize, lt: spec_fn(usize, usize) -> bool, x: usize)
    requires
        strict_weak_order(lt),
        sorted_by(r, lt),
    ensures
        class_of(insert_sorted(r, y, lt), lt, x)
            == class_of(r, lt, x) + (if equiv(lt, y, x) { seq![y] } else { Seq::<usize>::empty() }),
{
    let k = lemma_insert_pos_exists(r, y, lt);
    lemma_insert_sorted_at(r, y, lt, k);
    let a = r.take(k);
    let b = r.skip(k);
    assert(r =~= a + b);
    lemma_class_of_add(a, b, lt, x);
    lemma_class_of_add(a + seq![y], b, lt, x);
    lemma_class_of_add(a, seq![y], lt, x);
    assert(seq![y].drop_last() =~= Seq::<usize>::empty());
    assert(class_of(Seq::<usize>::empty(), lt, x) =~= Seq::<usize>::empty());
    let cy: Seq<usize> = if equiv(lt, y, x) { seq![y] } else { Seq::<usize>::empty() };
    assert(class_of(seq![y], lt, x) =~= cy);
    assert(insert_sorted(r, y, lt) =~= (a + seq![y]) + b);
    if equiv(lt, y, x) {
        assert forall|i: int| 0 <= i < b.len() implies !equiv(lt, #[trigger] b[i], x) by {
            let e = b[i];
            assert(e == r[k + i]);
            assert(lt(y, r[k]));
            if equiv(lt, e, x) {
                // e ~ x ~ y and y < r[k] would put e before r[k], against sortedness
                if i > 0 {
                    assert(!lt(r[k + i], r[k]));
                } else {
                    assert(!lt(r[k], r[k]));
                }
            }
        }
        lemma_class_of_none(b, lt, x);
        assert(class_of(r, lt, x) =~= class_of(a, lt, x));
        assert(class_of(insert_sorted(r, y, lt), lt, x) =~= class_of(a, lt, x) + cy);
    } else {
        assert(class_of(insert_sorted(r, y, lt), lt, x) =~= class_of(a, lt, x) + class_of(b, lt, x));
    }
}

/// The stable sort keeps the input order within each class of equivalent
/// elements: sorting changes nothing among elements neither of which comes
/// before the other.
pub proof fn lemma_stable_sort_stable(s: Seq<usize>, lt: spec_fn(usize, usize) -> bool, x: usize)
    requires
        strict_weak_order(lt),
    ensures
        class_of(stable_sort(s, lt), lt, x) == class_of(s, lt, x),
    decreases s.len(),
{
    if s.len() > 0 {
        lemma_stable_sort_stable(s.drop_last(), lt, x);
        lemma_stable_sort_sorted(s.drop_last(), lt);
        lemma_insert_class(stable_sort(s.drop_last(), lt), s.last(), lt, x);
    }
}

/// The session order of every mode is a strict weak order on indices.
pub proof fn lemma_index_lt_weak(mode: SortMode, ss: Seq<Session>)
    ensures
        strict_weak_order(index_lt(mode, ss)),
{
    let lt = index_lt(mode, ss);
    lemma_index_lt_strict(mode, ss);
    assert forall|a: usize, b: usize, c: usize| !#[trigger] lt(b, a) && !#[trigger] lt(c, b) implies !lt(c, a) by {
        lemma_key_lt_strict_weak(mode, key_of(ss[a as int]), key_of(ss[b as int]), key_of(ss[c as int]));
    }
}

/// Sessions that sort alike keep their relative order when sorted.
pub proof fn lemma_session_order_stable(mode: SortMode, ss: Seq<Session>, idx: Seq<usize>, x: usize)
    ensures
        class_of(stable_sort(idx, index_lt(mode, ss)), index_lt(mode, ss), x) == class_of(idx, index_lt(mode, ss), x),
{
    lemma_index_lt_weak(mode, ss);
    lemma_stable_sort_stable(idx, index_lt(mode, ss), x);
}

/// Under an irreflexive, transitive order the stable sort is sorted: no
/// element comes strictly before one placed ahead of it.
pub proof fn lemma_stable_sort_sorted(s: Seq<usize>, lt: spec_fn(usize, usize) -> bool)
    requires
        strict_order(lt),
    ensures
        sorted_by(stable_sort(s, lt), lt),
    decreases s.len(),
{
    if s.len() > 0 {
        lemma_stable_sort_sorted(s.drop_last(), lt);
        lemma_insert_sorted_sorted(stable_sort(s.drop_last(), lt), s.last(), lt);
    }
}

/// The session order of every mode is irreflexive and transitive on
/// indices.
pub proof fn lemma_index_lt_strict(mode: SortMode, ss: Seq<Session>)
    ensures
        strict_order(index_lt(mode, ss)),
{
    let lt = index_lt(mode, ss);
    assert forall|a: usize| !#[trigger] lt(a, a) by {
        let x = key_of(ss[a as int]);
        lemma_key_lt_strict_weak(mode, x, x, x);
    }
    assert forall|a: usize, b: usize, c: usize| #[trigger] lt(a, b) && #[trigger] lt(b, c) implies lt(a, c) by {
        lemma_key_lt_strict_weak(mode, key_of(ss[a as int]), key_of(ss[b as int]), key_of(ss[c as int]));
    }
}

/// Sorted session indices never put a session after one it sorts before:
/// pinned sessions lead, then the mode's own order.
pub proof fn lemma_session_order_sorted(mode: SortMode, ss: Seq<Session>, idx: Seq<usize>)
    ensures
        sorted_by(stable_sort(idx, index_lt(mode, ss)), index_lt(mode, ss)),
{
    lemma_index_lt_strict(mode, ss);
    lemma_stable_sort_sorted(idx, index_lt(mode, ss));
}

/// Newer sessions first (the order `sort_by` on descending last activity gives).
pub open spec fn newer_lt(ss: Seq<Session>) -> spec_fn(usize, usize) -> bool {
    |a: usize, b: usize| ss[a as int].last_active > ss[b as int].last_active
}

/// Stably sorts session indices so that more recently active sessions come first.
pub fn sort_by_recency(sessions: &Vec<Session>, v: &Vec<usize>) -> (out: Vec<usize>)
    requires
        forall|i: int| 0 <= i < v.len() ==> (#[trigger] v[i]) < sessions.len(),
    ensures
        out@ == stable_sort(v@, newer_lt(sessions@)),
        forall|i: int| 0 <= i < out.len() ==> (#[trigger] out[i]) < sessions.len(),
{
    let ghost lt = newer_lt(sessions@);
    let mut out: Vec<usize> = Vec::new();
    let mut j: usize = 0;
    while j < v.len()
        invariant
            j <= v.len(),
            forall|i: int| 0 <= i < v.len() ==> (#[trigger] v[i]) < sessions.len(),
            forall|i: int| 0 <= i < out.len() ==> (#[trigger] out[i]) < sessions.len(),
            out@ == stable_sort(v@.take(j as int), lt),
            lt == newer_lt(sessions@),
        decreases v.len() - j,
    {
        let x = v[j];
        let mut k: usize = 0;
        while k < out.len() && !(sessions[x].last_active > sessions[out[k]].last_active)
            invariant
                k <= out.len(),
                x < sessions.len(),
                forall|i: int| 0 <= i < out.len() ==> (#[trigger] out[i]) < sessions.len(),
                lt == newer_lt(sessions@),
                forall|i: int| 0 <= i < k ==> !lt(x, #[trigger] out@[i]),
            decreases out.len() - k,
        {
            k = k + 1;
        }
        proof {
            lemma_insert_sorted_at(out@, x, lt, k as int);
            assert(v@.take(j + 1).drop_last() =~= v@.take(j as int));
            assert(v@.take(j + 1).last() == x);
        }
        out.insert(k, x);
        assert(out@ =~= stable_sort(v@.take(j as int), lt).take(k as int) + seq![x] + stable_sort(v@.take(j as int), lt).skip(k as int));
        j = j + 1;
    }
    assert(v@.take(v.len() as int) =~= v@);
    out
}


/// In every sort order pinned sessions come before the others; in the
/// agent order, sessions of the same pin state follow the agents'
/// declaration order, and among sessions of one agent the more recently
/// active comes first.
pub proof fn lemma_agent_order(ss: Seq<Session>, idx: Seq<usize>, mode: SortMode, p: int, q: int)
    requires
        0 <= p < q < stable_sort(idx, index_lt(mode, ss)).len(),
    ensures
        ({
            let r = stable_sort(idx, index_lt(mode, ss));
            let a = ss[r[p] as int];
            let b = ss[r[q] as int];
            &&& (b.pinned ==> a.pinned)
            &&& (mode == SortMode::AgentGroup && a.pinned == b.pinned ==> agent_rank(a.agent) <= agent_rank(b.agent))
            &&& (mode == SortMode::AgentGroup && a.pinned == b.pinned && a.agent == b.agent ==> a.last_active >= b.last_active)
        }),
{
    lemma_session_order_sorted(mode, ss, idx);
    let r = stable_sort(idx, index_lt(mode, ss));
    assert(!index_lt(mode, ss)(r[q], r[p]));
}

} // verus!
