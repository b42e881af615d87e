//! Text helpers: characters of a string, lower case, trimming, prefixes.
use vstd::prelude::*;

verus! {

/// What `str::to_lowercase` returns for a text: its lower-case form under
/// the Unicode `Lowercase` property.
pub uninterp spec fn lowercase(s: Seq<char>) -> Seq<char>;

/// The lower-case form of `s` (`str::to_lowercase`).
#[verifier::external_body]
pub(crate) fn to_lowercase(s: &str) -> (r: String)
    ensures
        r@ == lowercase(s@),
{
    s.to_lowercase()
}

/// Whether `c` has the Unicode `White_Space` property, the whitespace that
/// `str::trim` removes.
pub open spec fn is_white_space(c: char) -> bool {
    let u = c as u32;
    ||| 0x09 <= u <= 0x0D
    ||| u == 0x20
    ||| u == 0x85
    ||| u == 0xA0
    ||| u == 0x1680
    ||| 0x2000 <= u <= 0x200A
    ||| u == 0x2028
    ||| u == 0x2029
    ||| u == 0x202F
    ||| u == 0x205F
    ||| u == 0x3000
}

/// `s` without its leading whitespace.
pub open spec fn trim_start_spec(s: Seq<char>) -> Seq<char>
    decreases s.len(),
{
    if s.len() > 0 && is_white_space(s[0]) {
        trim_start_spec(s.drop_first())
    } else {
        s
    }
}

/// `s` without its trailing whitespace.
pub open spec fn trim_end_spec(s: Seq<char>) -> Seq<char>
    decreases s.len(),
{
    if s.len() > 0 && is_white_space(s.last()) {
        trim_end_spec(s.drop_last())
    } else {
        s
    }
}

/// `s` without leading and trailing whitespace.
pub open spec fn trim_spec(s: Seq<char>) -> Seq<char> {
    trim_end_spec(trim_start_spec(s))
}

fn is_ws(c: char) -> (r: bool)
    ensures
        r == is_white_space(c),
{
    let u = c as u32;
    (0x09 <= u && u <= 0x0D) || u == 0x20 || u == 0x85 || u == 0xA0 || u == 0x1680 || (0x2000 <= u
        && u <= 0x200A) || u == 0x2028 || u == 0x2029 || u == 0x202F || u == 0x205F || u == 0x3000
}

/// `s` with leading and trailing whitespace removed, as `str::trim` does.
pub(crate) fn trim(s: &str) -> (r: String)
    ensures
        r@ == trim_spec(s@),
{
    let c = chars_of(s);
    let n = c.len();
    let mut start: usize = 0;
    let mut scanning = true;
    assert(c@.skip(0) =~= c@);
    while scanning && start < n
        invariant
            start <= n == c@.len(),
            trim_start_spec(c@) == trim_start_spec(c@.skip(start as int)),
            !scanning ==> start < n && !is_white_space(c@[start as int]),
        decreases n - start + if scanning { 1int } else { 0int },
    {
        if is_ws(c[start]) {
            assert(c@.skip(start as int).drop_first() =~= c@.skip(start + 1));
            start = start + 1;
        } else {
            scanning = false;
        }
    }
    assert(start < n ==> c@.skip(start as int)[0] == c@[start as int]);
    assert(start == n ==> c@.skip(start as int).len() == 0);
    assert(trim_start_spec(c@) == c@.skip(start as int));
    assert(c@.skip(start as int) =~= c@.subrange(start as int, n as int));
    let mut end: usize = n;
    scanning = true;
    while scanning && end > start
        invariant
            start <= end <= n == c@.len(),
            trim_start_spec(c@) == c@.skip(start as int),
            trim_end_spec(c@.skip(start as int)) == trim_end_spec(
                c@.subrange(start as int, end as int),
            ),
            !scanning ==> end > start && !is_white_space(c@[end - 1]),
        decreases end - start + if scanning { 1int } else { 0int },
    {
        if is_ws(c[end - 1]) {
            assert(c@.subrange(start as int, end as int).drop_last() =~= c@.subrange(
                start as int,
                end - 1,
            ));
            end = end - 1;
        } else {
            scanning = false;
        }
    }
    assert(end > start ==> c@.subrange(start as int, end as int).last() == c@[end - 1]);
    assert(end == start ==> c@.subrange(start as int, end as int).len() == 0);
    string_of(&c, start, end)
}

/// The characters of `s`.
pub fn chars_of(s: &str) -> (v: Vec<char>)
    ensures
        v@ == s@,
{
    let n = s.unicode_len();
    let mut v: Vec<char> = Vec::new();
    let mut i: usize = 0;
    while i < n
        invariant
            n == s@.len(),
            i <= n,
            v@ == s@.take(i as int),
        decreases n - i,
    {
        let c = s.get_char(i);
        v.push(c);
        assert(s@.take(i + 1) =~= s@.take(i as int).push(c));
        i = i + 1;
    }
    assert(s@.take(n as int) =~= s@);
    v
}

/// Whether two texts are equal.
pub fn str_eq(a: &str, b: &str) -> (r: bool)
    ensures
        r == (a@ == b@),
{
    let x = chars_of(a);
    let y = chars_of(b);
    if x.len() != y.len() {
        return false;
    }
    let mut i: usize = 0;
    while i < x.len()
        invariant
            x@ == a@,
            y@ == b@,
            x.len() == y.len(),
            i <= x.len(),
            forall|k: int| 0 <= k < i ==> x@[k] == y@[k],
        decreases x.len() - i,
    {
        if x[i] != y[i] {
            return false;
        }
        i = i + 1;
    }
    assert(x@ =~= y@);
    true
}

/// Whether `p` is a prefix of `s`.
pub open spec fn has_prefix(s: Seq<char>, p: Seq<char>) -> bool {
    p.len() <= s.len() && s.take(p.len() as int) == p
}

/// Whether `p` is a suffix of `s`.
pub open spec fn has_suffix(s: Seq<char>, p: Seq<char>) -> bool {
    p.len() <= s.len() && s.skip(s.len() - p.len()) == p
}

/// `s` with every leading copy of a non-empty `p` removed
/// (`str::trim_start_matches` with a text pattern).
pub open spec fn strip_prefixes(s: Seq<char>, p: Seq<char>) -> Seq<char>
    decreases s.len(),
{
    if p.len() > 0 && has_prefix(s, p) {
        strip_prefixes(s.skip(p.len() as int), p)
    } else {
        s
    }
}

/// `s` with every trailing copy of a non-empty `p` removed
/// (`str::trim_end_matches` with a text pattern).
pub open spec fn strip_suffixes(s: Seq<char>, p: Seq<char>) -> Seq<char>
    decreases s.len(),
{
    if p.len() > 0 && has_suffix(s, p) {
        strip_suffixes(s.take(s.len() - p.len()), p)
    } else {
        s
    }
}

pub fn seq_has_prefix(s: &Vec<char>, start: usize, end: usize, p: &Vec<char>) -> (r: bool)
    requires
        start <= end <= s.len(),
    ensures
        r == has_prefix(s@.subrange(start as int, end as int), p@),
{
    if p.len() > end - start {
        return false;
    }
    let mut i: usize = 0;
    while i < p.len()
        invariant
            start <= end <= s.len(),
            p.len() <= end - start,
            i <= p.len(),
            forall|k: int| 0 <= k < i ==> s@[start + k] == p@[k],
        decreases p.len() - i,
    {
        if s[start + i] != p[i] {
            assert(s@.subrange(start as int, end as int).take(p.len() as int)[i as int] != p@[i as int]);
            return false;
        }
        i = i + 1;
    }
    assert(s@.subrange(start as int, end as int).take(p.len() as int) =~= p@);
    true
}

pub fn seq_has_suffix(s: &Vec<char>, start: usize, end: usize, p: &Vec<char>) -> (r: bool)
    requires
        start <= end <= s.len(),
    ensures
        r == has_suffix(s@.subrange(start as int, end as int), p@),
{
    if p.len() > end - start {
        return false;
    }
    let off = end - p.len();
    let mut i: usize = 0;
    while i < p.len()
        invariant
            start <= off <= end <= s.len(),
            off + p.len() == end,
            i <= p.len(),
            forall|k: int| 0 <= k < i ==> s@[off + k] == p@[k],
        decreases p.len() - i,
    {
        if s[off + i] != p[i] {
            let ghost t = s@.subrange(start as int, end as int);
            assert(t.skip(t.len() - p@.len())[i as int] != p@[i as int]);
            return false;
        }
        i = i + 1;
    }
    let ghost t = s@.subrange(start as int, end as int);
    assert(t.skip(t.len() - p@.len()) =~= p@);
    true
}

/// The text of the characters `v[start..end]`.
pub fn string_of(v: &Vec<char>, start: usize, end: usize) -> (r: String)
    requires
        start <= end <= v.len(),
    ensures
        r@ == v@.subrange(start as int, end as int),
{
    let mut r = String::new();
    let mut i = start;
    while i < end
        invariant
            start <= i <= end <= v.len(),
            r@ == v@.subrange(start as int, i as int),
        decreases end - i,
    {
        let c = v[i];
        push_char(&mut r, c);
        assert(v@.subrange(start as int, i + 1) =~= v@.subrange(start as int, i as int).push(c));
        i = i + 1;
    }
    r
}

/// Appends `c` to `s` (`String::push`).
#[verifier::external_body]
pub(crate) fn push_char(s: &mut String, c: char)
    ensures
        final(s)@ == old(s)@.push(c),
{
    s.push(c);
}

} // verus!
