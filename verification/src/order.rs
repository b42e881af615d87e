//! Orderings used to sort the lists the interface shows.
//!
//! Every list sort of this crate is a stable sort by a key. A key is a
//! sequence of fields compared lexicographically; text is compared character
//! by character by code point, which is the order of `str` in Rust. A stable
//! sort by a key is the sort of the positions `0..n` by the pair
//! (key, position), which is a total order: `sorted_positions` is that sort.
use vstd::prelude::*;
use vstd::relations::*;

verus! {

/// Lexicographic comparison of two texts by code point: -1, 0 or 1.
pub open spec fn text_order(a: Seq<char>, b: Seq<char>) -> int
    decreases a.len(),
{
    if a.len() == 0 {
        if b.len() == 0 {
            0
        } else {
            -1
        }
    } else if b.len() == 0 {
        1
    } else if a[0] < b[0] {
        -1
    } else if a[0] > b[0] {
        1
    } else {
        text_order(a.drop_first(), b.drop_first())
    }
}

pub proof fn lemma_text_order_basic(a: Seq<char>, b: Seq<char>)
    ensures
        -1 <= text_order(a, b) <= 1,
        text_order(a, b) == -text_order(b, a),
        text_order(a, b) == 0 <==> a == b,
    decreases a.len(),
{
    if a.len() > 0 && b.len() > 0 {
        lemma_text_order_basic(a.drop_first(), b.drop_first());
        if a[0] == b[0] && a.drop_first() == b.drop_first() {
            assert(a =~= seq![a[0]] + a.drop_first());
            assert(b =~= seq![b[0]] + b.drop_first());
        }
        if a == b {
            assert(a.drop_first() == b.drop_first());
        }
    } else if a.len() == 0 && b.len() == 0 {
        assert(a =~= b);
    }
}

pub proof fn lemma_text_order_trans(a: Seq<char>, b: Seq<char>, c: Seq<char>)
    requires
        text_order(a, b) <= 0,
        text_order(b, c) <= 0,
    ensures
        text_order(a, c) <= 0,
        text_order(a, b) < 0 || text_order(b, c) < 0 ==> text_order(a, c) < 0,
    decreases a.len(),
{
    lemma_text_order_basic(a, b);
    lemma_text_order_basic(b, c);
    lemma_text_order_basic(a, c);
    if a.len() > 0 && b.len() > 0 && c.len() > 0 && a[0] == b[0] && b[0] == c[0] {
        lemma_text_order_trans(a.drop_first(), b.drop_first(), c.drop_first());
    }
}

/// One field of a sort key. Fields of different kinds never meet in one
/// sort; they are ordered by kind so that the order is total on all values.
pub enum SortField {
    Rank(nat),
    Text(Seq<char>),
    TextRev(Seq<char>),
}

pub open spec fn field_kind(f: SortField) -> int {
    match f {
        SortField::Rank(_) => 0,
        SortField::Text(_) => 1,
        SortField::TextRev(_) => 2,
    }
}

/// Comparison of two fields: ranks by number, text ascending, reversed text
/// descending.
pub open spec fn field_order(a: SortField, b: SortField) -> int {
    match (a, b) {
        (SortField::Rank(x), SortField::Rank(y)) => if x < y {
            -1
        } else if x > y {
            1
        } else {
            0
        },
        (SortField::Text(s), SortField::Text(t)) => text_order(s, t),
        (SortField::TextRev(s), SortField::TextRev(t)) => text_order(t, s),
        _ => if field_kind(a) < field_kind(b) {
            -1
        } else {
            1
        },
    }
}

pub proof fn lemma_field_order_props(a: SortField, b: SortField, c: SortField)
    ensures
        -1 <= field_order(a, b) <= 1,
        field_order(a, b) == -field_order(b, a),
        field_order(a, a) == 0,
        field_order(a, b) <= 0 && field_order(b, c) <= 0 ==> field_order(a, c) <= 0,
        field_order(a, b) <= 0 && field_order(b, c) <= 0 && (field_order(a, b) < 0 || field_order(b, c)
            < 0) ==> field_order(a, c) < 0,
{
    match (a, b, c) {
        (SortField::Text(s), SortField::Text(t), SortField::Text(u)) => {
            lemma_text_order_basic(s, t);
            lemma_text_order_basic(s, s);
            if text_order(s, t) <= 0 && text_order(t, u) <= 0 {
                lemma_text_order_trans(s, t, u);
            }
        },
        (SortField::TextRev(s), SortField::TextRev(t), SortField::TextRev(u)) => {
            lemma_text_order_basic(s, t);
            lemma_text_order_basic(s, s);
            if text_order(t, s) <= 0 && text_order(u, t) <= 0 {
                lemma_text_order_trans(u, t, s);
            }
        },
        _ => {
            match a {
                SortField::Text(s) => lemma_text_order_basic(s, s),
                SortField::TextRev(s) => lemma_text_order_basic(s, s),
                _ => {},
            }
            match (a, b) {
                (SortField::Text(s), SortField::Text(t)) => lemma_text_order_basic(s, t),
                (SortField::TextRev(s), SortField::TextRev(t)) => lemma_text_order_basic(s, t),
                _ => {},
            }
            match (b, c) {
                (SortField::Text(s), SortField::Text(t)) => lemma_text_order_basic(s, t),
                (SortField::TextRev(s), SortField::TextRev(t)) => lemma_text_order_basic(s, t),
                _ => {},
            }
            match (a, c) {
                (SortField::Text(s), SortField::Text(t)) => lemma_text_order_basic(s, t),
                (SortField::TextRev(s), SortField::TextRev(t)) => lemma_text_order_basic(s, t),
                _ => {},
            }
        },
    }
}

/// Lexicographic comparison of two keys, field by field.
pub open spec fn key_order(a: Seq<SortField>, b: Seq<SortField>) -> int
    decreases a.len(),
{
    if a.len() == 0 {
        if b.len() == 0 {
            0
        } else {
            -1
        }
    } else if b.len() == 0 {
        1
    } else if field_order(a[0], b[0]) != 0 {
        field_order(a[0], b[0])
    } else {
        key_order(a.drop_first(), b.drop_first())
    }
}

pub proof fn lemma_key_order_props(a: Seq<SortField>, b: Seq<SortField>, c: Seq<SortField>)
    ensures
        -1 <= key_order(a, b) <= 1,
        key_order(a, b) == -key_order(b, a),
        key_order(a, a) == 0,
        key_order(a, b) <= 0 && key_order(b, c) <= 0 ==> key_order(a, c) <= 0,
        key_order(a, b) <= 0 && key_order(b, c) <= 0 && (key_order(a, b) < 0 || key_order(b, c) < 0)
            ==> key_order(a, c) < 0,
    decreases a.len(),
{
    if a.len() > 0 {
        lemma_field_order_props(a[0], a[0], a[0]);
        lemma_key_order_props(a.drop_first(), a.drop_first(), a.drop_first());
    }
    if a.len() > 0 && b.len() > 0 {
        lemma_field_order_props(a[0], b[0], b[0]);
        lemma_key_order_props(a.drop_first(), b.drop_first(), b.drop_first());
    }
    if a.len() > 0 && b.len() > 0 && c.len() > 0 {
        lemma_field_order_props(a[0], b[0], c[0]);
        lemma_field_order_props(b[0], c[0], a[0]);
        lemma_field_order_props(a[0], c[0], b[0]);
        lemma_key_order_props(a.drop_first(), b.drop_first(), c.drop_first());
    }
}

/// The order of positions in a stable sort by `keys`: by key, then by position.
pub open spec fn position_leq(keys: Seq<Seq<SortField>>) -> spec_fn(usize, usize) -> bool {
    |i: usize, j: usize|
        key_order(keys[i as int], keys[j as int]) < 0 || (key_order(keys[i as int], keys[j as int])
            == 0 && i <= j)
}

/// The positions `0..n` in order.
pub open spec fn positions(n: nat) -> Seq<usize> {
    Seq::new(n, |k: int| k as usize)
}

/// The positions of `keys`, in the order in which a stable sort by key
/// places them.
pub open spec fn sorted_positions(keys: Seq<Seq<SortField>>) -> Seq<usize> {
    positions(keys.len()).sort_by(position_leq(keys))
}

/// Sorting by key then position is a total order.
pub proof fn lemma_position_leq_total(keys: Seq<Seq<SortField>>)
    ensures
        total_ordering(position_leq(keys)),
{
    let leq = position_leq(keys);
    assert forall|x: usize| #[trigger] leq(x, x) by {
        lemma_key_order_props(keys[x as int], keys[x as int], keys[x as int]);
    }
    assert forall|x: usize, y: usize| #[trigger] leq(x, y) && #[trigger] leq(y, x) implies x == y by {
        lemma_key_order_props(keys[x as int], keys[y as int], keys[y as int]);
    }
    assert forall|x: usize, y: usize, z: usize| #[trigger] leq(x, y) && #[trigger] leq(y, z) implies leq(
        x,
        z,
    ) by {
        lemma_key_order_props(keys[x as int], keys[y as int], keys[z as int]);
    }
    assert forall|x: usize, y: usize| #[trigger] leq(x, y) || #[trigger] leq(y, x) by {
        lemma_key_order_props(keys[x as int], keys[y as int], keys[y as int]);
    }
}

/// The key of a stable sort pins the order down: any arrangement of the
/// positions `0..n` that is sorted by key, then by position, is the one that
/// `sorted_positions` gives.
pub proof fn lemma_sorted_positions_unique(keys: Seq<Seq<SortField>>, p: Seq<usize>)
    requires
        p.to_multiset() == positions(keys.len()).to_multiset(),
        sorted_by(p, position_leq(keys)),
    ensures
        p == sorted_positions(keys),
{
    lemma_position_leq_total(keys);
    positions(keys.len()).lemma_sort_by_ensures(position_leq(keys));
    vstd::seq_lib::lemma_sorted_unique(p, sorted_positions(keys), position_leq(keys));
}

pub proof fn lemma_sorted_positions_len(keys: Seq<Seq<SortField>>)
    ensures
        sorted_positions(keys).len() == keys.len(),
        forall|k: int|
            0 <= k < keys.len() ==> (#[trigger] sorted_positions(keys)[k] as int) < keys.len(),
{
    broadcast use vstd::seq_lib::group_to_multiset_ensures;

    lemma_position_leq_total(keys);
    positions(keys.len()).lemma_sort_by_ensures(position_leq(keys));
    let s = sorted_positions(keys);
    assert(s.len() == s.to_multiset().len());
    assert(positions(keys.len()).len() == positions(keys.len()).to_multiset().len());
    assert forall|k: int| 0 <= k < keys.len() implies (#[trigger] s[k] as int) < keys.len() by {
        assert(s.contains(s[k]));
        assert(s.to_multiset().count(s[k]) > 0);
        assert(positions(keys.len()).to_multiset().count(s[k]) > 0);
        assert(positions(keys.len()).contains(s[k]));
    }
}

/// A stable sort places each position once.
pub proof fn lemma_sorted_positions_distinct(keys: Seq<Seq<SortField>>)
    requires
        keys.len() <= usize::MAX + 1,
    ensures
        sorted_positions(keys).no_duplicates(),
{
    lemma_position_leq_total(keys);
    positions(keys.len()).lemma_sort_by_ensures(position_leq(keys));
    let s = sorted_positions(keys);
    let ps = positions(keys.len());
    assert forall|i: int, j: int| 0 <= i < ps.len() && 0 <= j < ps.len() && i != j implies ps[i]
        != ps[j] by {
        assert(ps[i] as int == i);
        assert(ps[j] as int == j);
    }
    assert(ps.no_duplicates());
    ps.lemma_multiset_has_no_duplicates();
    s.lemma_multiset_has_no_duplicates_conv();
}

/// One field of a sort key, as the program holds it.
pub enum KeyPart {
    Rank(u64),
    Text(Vec<char>),
    TextRev(Vec<char>),
}

impl View for KeyPart {
    type V = SortField;

    open spec fn view(&self) -> SortField {
        match self {
            KeyPart::Rank(r) => SortField::Rank(*r as nat),
            KeyPart::Text(t) => SortField::Text(t@),
            KeyPart::TextRev(t) => SortField::TextRev(t@),
        }
    }
}

pub open spec fn key_view(k: Seq<KeyPart>) -> Seq<SortField> {
    k.map_values(|f: KeyPart| f@)
}

pub open spec fn keys_view(keys: Seq<Vec<KeyPart>>) -> Seq<Seq<SortField>> {
    keys.map_values(|k: Vec<KeyPart>| key_view(k@))
}

pub fn compare_text(a: &Vec<char>, b: &Vec<char>) -> (r: i8)
    ensures
        r as int == text_order(a@, b@),
{
    let mut i: usize = 0;
    assert(a@.skip(0) =~= a@);
    assert(b@.skip(0) =~= b@);
    while i < a.len() && i < b.len()
        invariant
            i <= a.len(),
            i <= b.len(),
            text_order(a@, b@) == text_order(a@.skip(i as int), b@.skip(i as int)),
        decreases a.len() - i,
    {
        let x = a[i];
        let y = b[i];
        if x < y {
            return -1;
        }
        if x > y {
            return 1;
        }
        assert(a@.skip(i as int).drop_first() =~= a@.skip(i + 1));
        assert(b@.skip(i as int).drop_first() =~= b@.skip(i + 1));
        i = i + 1;
    }
    if i < a.len() {
        1
    } else if i < b.len() {
        -1
    } else {
        0
    }
}

fn compare_field(a: &KeyPart, b: &KeyPart) -> (r: i8)
    ensures
        r as int == field_order(a@, b@),
{
    match (a, b) {
        (KeyPart::Rank(x), KeyPart::Rank(y)) => {
            if *x < *y {
                -1
            } else if *x > *y {
                1
            } else {
                0
            }
        },
        (KeyPart::Text(s), KeyPart::Text(t)) => compare_text(s, t),
        (KeyPart::TextRev(s), KeyPart::TextRev(t)) => compare_text(t, s),
        (KeyPart::Rank(_), _) => -1,
        (KeyPart::Text(_), KeyPart::Rank(_)) => 1,
        (KeyPart::Text(_), _) => -1,
        (KeyPart::TextRev(_), _) => 1,
    }
}

pub fn compare_keys(a: &Vec<KeyPart>, b: &Vec<KeyPart>) -> (r: i8)
    ensures
        r as int == key_order(key_view(a@), key_view(b@)),
{
    let mut i: usize = 0;
    assert(key_view(a@).skip(0) =~= key_view(a@));
    assert(key_view(b@).skip(0) =~= key_view(b@));
    while i < a.len() && i < b.len()
        invariant
            i <= a.len(),
            i <= b.len(),
            key_order(key_view(a@), key_view(b@)) == key_order(
                key_view(a@).skip(i as int),
                key_view(b@).skip(i as int),
            ),
        decreases a.len() - i,
    {
        let c = compare_field(&a[i], &b[i]);
        if c != 0 {
            return c;
        }
        assert(key_view(a@).skip(i as int).drop_first() =~= key_view(a@).skip(i + 1));
        assert(key_view(b@).skip(i as int).drop_first() =~= key_view(b@).skip(i + 1));
        i = i + 1;
    }
    if i < a.len() {
        1
    } else if i < b.len() {
        -1
    } else {
        0
    }
}

/// Stable sort of the positions of `keys` by key.
pub fn sort_positions(keys: &Vec<Vec<KeyPart>>) -> (p: Vec<usize>)
    ensures
        p@ == sorted_positions(keys_view(keys@)),
{
    broadcast use vstd::seq_lib::group_to_multiset_ensures;

    let ghost kv = keys_view(keys@);
    let ghost leq = position_leq(kv);
    proof {
        lemma_position_leq_total(kv);
    }
    let n = keys.len();
    let mut out: Vec<usize> = Vec::new();
    let mut i: usize = 0;
    while i < n
        invariant
            n == keys.len(),
            kv == keys_view(keys@),
            leq == position_leq(kv),
            total_ordering(leq),
            i <= n,
            out@.len() == i,
            sorted_by(out@, leq),
            out@.to_multiset() == positions(i as nat).to_multiset(),
            forall|k: int| 0 <= k < out@.len() ==> out@[k] < i,
        decreases n - i,
    {
        let mut pos: usize = 0;
        while pos < out.len() && compare_keys(&keys[out[pos]], &keys[i]) <= 0
            invariant
                n == keys.len(),
                kv == keys_view(keys@),
                leq == position_leq(kv),
                i < n,
                pos <= out@.len(),
                forall|k: int| 0 <= k < out@.len() ==> out@[k] < i,
                forall|k: int| 0 <= k < pos ==> #[trigger] leq(out@[k], i),
            decreases out@.len() - pos,
        {
            proof {
                lemma_key_order_props(kv[out@[pos as int] as int], kv[i as int], kv[i as int]);
            }
            pos = pos + 1;
        }
        proof {
            if pos < out@.len() {
                assert forall|k: int| pos <= k < out@.len() implies #[trigger] leq(i, out@[k]) by {
                    let a = kv[out@[pos as int] as int];
                    let b = kv[out@[k] as int];
                    let c = kv[i as int];
                    assert(leq(out@[pos as int], out@[k]));
                    lemma_key_order_props(c, a, b);
                    lemma_key_order_props(a, b, c);
                }
            }
        }
        let ghost old_out = out@;
        out.insert(pos, i);
        proof {
            assert(out@ == old_out.insert(pos as int, i));
            vstd::seq_lib::to_multiset_insert(old_out, pos as int, i);
            assert(out@.to_multiset() == old_out.to_multiset().insert(i));
            assert(positions((i + 1) as nat) =~= positions(i as nat).push(i));
            vstd::seq_lib::to_multiset_build(positions(i as nat), i);
            assert(positions((i + 1) as nat).to_multiset() == positions(i as nat).to_multiset().insert(i));
            assert forall|a: int, b: int| 0 <= a < b < out@.len() implies #[trigger] leq(
                out@[a],
                out@[b],
            ) by {
                if a < pos && b < pos {
                } else if a < pos && b == pos {
                } else if a < pos && b > pos {
                    assert(leq(old_out[a], old_out[b - 1]));
                } else if a == pos {
                } else {
                    assert(leq(old_out[a - 1], old_out[b - 1]));
                }
            }
        }
        i = i + 1;
    }
    proof {
        assert(positions(n as nat) == positions(kv.len()));
        lemma_sorted_positions_unique(kv, out@);
    }
    out
}

} // verus!
