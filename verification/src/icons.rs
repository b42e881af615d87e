//! Where the icon of a snap comes from.
use vstd::prelude::*;
use crate::text::{chars_of, has_prefix, seq_has_prefix, seq_has_suffix, string_of, strip_prefixes, strip_suffixes};

verus! {

/// The source of an icon.
pub enum IconSource {
    /// An installed snap's icon, served by snapd for the snap of this name.
    Snapd(String),
    /// An address on the web.
    Web(String),
}

/// Where the icon at `url` comes from: installed snaps expose theirs at
/// `/v2/icons/<name>/icon` on the snapd socket; anything else is fetched
/// from the web as it is.
pub open spec fn icon_source_of(url: Seq<char>) -> (bool, Seq<char>) {
    if has_prefix(url, "/v2/icons/"@) {
        (true, strip_suffixes(strip_prefixes(url, "/v2/icons/"@), "/icon"@))
    } else {
        (false, url)
    }
}

/// Where the icon at `url` comes from.
pub fn icon_source(url: &str) -> (r: IconSource)
    ensures
        match r {
            IconSource::Snapd(name) => icon_source_of(url@) == (true, name@),
            IconSource::Web(u) => icon_source_of(url@) == (false, u@),
        },
{
    let c = chars_of(url);
    let prefix = chars_of("/v2/icons/");
    let suffix = chars_of("/icon");
    let n = c.len();
    assert(c@.subrange(0, n as int) =~= c@);
    if !seq_has_prefix(&c, 0, n, &prefix) {
        return IconSource::Web(url.to_owned());
    }
    let mut start: usize = 0;
    while prefix.len() > 0 && seq_has_prefix(&c, start, n, &prefix)
        invariant
            start <= n == c@.len(),
            prefix@ == "/v2/icons/"@,
            strip_prefixes(c@, prefix@) == strip_prefixes(c@.subrange(start as int, n as int), prefix@),
        decreases n - start,
    {
        assert(c@.subrange(start as int, n as int).skip(prefix@.len() as int) =~= c@.subrange(
            start + prefix@.len(),
            n as int,
        ));
        start = start + prefix.len();
    }
    let mut end: usize = n;
    while suffix.len() > 0 && seq_has_suffix(&c, start, end, &suffix)
        invariant
            start <= end <= n == c@.len(),
            suffix@ == "/icon"@,
            strip_suffixes(strip_prefixes(c@, "/v2/icons/"@), suffix@) == strip_suffixes(
                c@.subrange(start as int, end as int),
                suffix@,
            ),
        decreases end - start,
    {
        assert(c@.subrange(start as int, end as int).take(
            (end - start) - suffix@.len(),
        ) =~= c@.subrange(start as int, end - suffix@.len()));
        end = end - suffix.len();
    }
    IconSource::Snapd(string_of(&c, start, end))
}

/// Whether a text in `v` is `url`.
pub open spec fn has_url(v: Seq<String>, url: Seq<char>) -> bool {
    exists|k: int| 0 <= k < v.len() && (#[trigger] v[k])@ == url
}

/// `v` without the texts equal to `url`, the others in order.
pub open spec fn without_url(v: Seq<String>, url: Seq<char>) -> Seq<String>
    decreases v.len(),
{
    if v.len() == 0 {
        v
    } else {
        let rest = without_url(v.drop_last(), url);
        if v.last()@ == url {
            rest
        } else {
            rest.push(v.last())
        }
    }
}

/// Whether no two texts in `v` are equal.
pub open spec fn distinct_urls(v: Seq<String>) -> bool {
    forall|i: int, j: int| 0 <= i < j < v.len() ==> (#[trigger] v[i])@ != (#[trigger] v[j])@
}

/// What `without_url` keeps: no text equal to `url`, only texts of `v`, and
/// no two equal ones when `v` had none.
pub proof fn lemma_without_url(v: Seq<String>, url: Seq<char>)
    ensures
        forall|k: int|
            0 <= k < without_url(v, url).len() ==> (#[trigger] without_url(v, url)[k])@ != url,
        forall|k: int|
            0 <= k < without_url(v, url).len() ==> has_url(v, (#[trigger] without_url(v, url)[k])@),
        distinct_urls(v) ==> distinct_urls(without_url(v, url)),
    decreases v.len(),
{
    if v.len() > 0 {
        let d = v.drop_last();
        lemma_without_url(d, url);
        let rest = without_url(d, url);
        let w = without_url(v, url);
        assert forall|k: int| 0 <= k < w.len() implies has_url(v, (#[trigger] w[k])@) by {
            if k < rest.len() {
                assert(w[k] == rest[k]);
                let j = choose|j: int| 0 <= j < d.len() && (#[trigger] d[j])@ == rest[k]@;
                assert(v[j] == d[j]);
            } else {
                assert(w[k] == v[v.len() - 1]);
            }
        }
        if distinct_urls(v) && v.last()@ != url {
            assert(distinct_urls(d)) by {
                assert forall|i: int, j: int| 0 <= i < j < d.len() implies (#[trigger] d[i])@
                    != (#[trigger] d[j])@ by {
                    assert(d[i] == v[i] && d[j] == v[j]);
                }
            }
            assert forall|i: int, j: int| 0 <= i < j < w.len() implies (#[trigger] w[i])@
                != (#[trigger] w[j])@ by {
                if j == w.len() - 1 {
                    assert(w[i] == rest[i]);
                    let m = choose|m: int| 0 <= m < d.len() && (#[trigger] d[m])@ == rest[i]@;
                    assert(d[m] == v[m]);
                    assert(v[v.len() - 1]@ != v[m]@);
                } else {
                    assert(w[i] == rest[i] && w[j] == rest[j]);
                }
            }
        }
        if distinct_urls(v) && v.last()@ == url {
            assert(distinct_urls(d)) by {
                assert forall|i: int, j: int| 0 <= i < j < d.len() implies (#[trigger] d[i])@
                    != (#[trigger] d[j])@ by {
                    assert(d[i] == v[i] && d[j] == v[j]);
                }
            }
        }
    }
}

/// Which icons were fetched and which are being fetched, by address.
pub struct IconFetches {
    /// Addresses whose fetch has finished, whether or not it gave an image.
    pub done: Vec<String>,
    /// Addresses being fetched.
    pub fetching: Vec<String>,
}

fn contains_url(v: &Vec<String>, url: &str) -> (r: bool)
    ensures
        r == has_url(v@, url@),
{
    let mut i: usize = 0;
    while i < v.len()
        invariant
            i <= v.len(),
            forall|k: int| 0 <= k < i ==> (#[trigger] v@[k])@ != url@,
        decreases v.len() - i,
    {
        if crate::text::str_eq(v[i].as_str(), url) {
            return true;
        }
        i = i + 1;
    }
    false
}

impl IconFetches {
    /// Each address is listed once, and never both as fetched and as being
    /// fetched.
    pub open spec fn wf(self) -> bool {
        &&& distinct_urls(self.done@)
        &&& distinct_urls(self.fetching@)
        &&& forall|k: int|
            0 <= k < self.fetching@.len() ==> !has_url(self.done@, (#[trigger] self.fetching@[k])@)
    }

    /// Nothing fetched yet.
    pub fn new() -> (f: IconFetches)
        ensures
            f.wf(),
            f.done@.len() == 0,
            f.fetching@.len() == 0,
    {
        IconFetches { done: Vec::new(), fetching: Vec::new() }
    }

    /// Whether the icon at `url` is to be fetched now: only when icons can
    /// be shown, and it was neither fetched nor is being fetched. When it
    /// is, it is marked as being fetched.
    pub fn start(&mut self, url: &str, can_show: bool) -> (go: bool)
        requires
            old(self).wf(),
        ensures
            final(self).wf(),
            go == (can_show && !has_url(old(self).done@, url@) && !has_url(
                old(self).fetching@,
                url@,
            )),
            final(self).done@ == old(self).done@,
            go ==> final(self).fetching@.len() == old(self).fetching@.len() + 1
                && final(self).fetching@.drop_last() == old(self).fetching@
                && final(self).fetching@.last()@ == url@,
            !go ==> final(self).fetching@ == old(self).fetching@,
    {
        if !can_show || contains_url(&self.done, url) || contains_url(&self.fetching, url) {
            return false;
        }
        self.fetching.push(url.to_owned());
        assert(self.fetching@.drop_last() =~= old(self).fetching@);
        assert forall|k: int| 0 <= k < self.fetching@.len() implies !has_url(
            self.done@,
            (#[trigger] self.fetching@[k])@,
        ) by {
            if k < old(self).fetching@.len() {
                assert(self.fetching@[k] == old(self).fetching@[k]);
            }
        }
        assert forall|i: int, j: int| 0 <= i < j < self.fetching@.len() implies (#[
            trigger
        ] self.fetching@[i])@ != (#[trigger] self.fetching@[j])@ by {
            assert(self.fetching@[i] == old(self).fetching@[i]);
            if j < old(self).fetching@.len() {
                assert(self.fetching@[j] == old(self).fetching@[j]);
            }
        }
        true
    }

    /// Records that the fetch of `url` has finished: it is no longer being
    /// fetched and counts as fetched (once).
    pub fn finish(&mut self, url: &str)
        requires
            old(self).wf(),
        ensures
            final(self).wf(),
            final(self).fetching@ == without_url(old(self).fetching@, url@),
            has_url(old(self).done@, url@) ==> final(self).done@ == old(self).done@,
            !has_url(old(self).done@, url@) ==> final(self).done@.len() == old(self).done@.len() + 1
                && final(self).done@.drop_last() == old(self).done@ && final(self).done@.last()@
                == url@,
    {
        let mut kept: Vec<String> = Vec::new();
        let mut i: usize = 0;
        while i < self.fetching.len()
            invariant
                i <= self.fetching.len(),
                self.fetching@ == old(self).fetching@,
                kept@ == without_url(self.fetching@.take(i as int), url@),
            decreases self.fetching.len() - i,
        {
            assert(self.fetching@.take(i + 1).drop_last() =~= self.fetching@.take(i as int));
            if !crate::text::str_eq(self.fetching[i].as_str(), url) {
                kept.push(self.fetching[i].clone());
            }
            i = i + 1;
        }
        assert(self.fetching@.take(self.fetching@.len() as int) =~= self.fetching@);
        proof {
            lemma_without_url(old(self).fetching@, url@);
        }
        self.fetching = kept;
        let ghost w = self.fetching@;
        assert forall|k: int| 0 <= k < w.len() implies !has_url(old(self).done@, (#[trigger] w[k])@) by {
            let j = choose|j: int|
                0 <= j < old(self).fetching@.len() && (#[trigger] old(self).fetching@[j])@ == w[k]@;
            if has_url(old(self).done@, w[k]@) {
                assert(!has_url(old(self).done@, old(self).fetching@[j]@));
            }
        }
        if !contains_url(&self.done, url) {
            self.done.push(url.to_owned());
            assert(self.done@.drop_last() =~= old(self).done@);
            assert forall|i: int, j: int| 0 <= i < j < self.done@.len() implies (#[trigger] self.done@[i])@
                != (#[trigger] self.done@[j])@ by {
                assert(self.done@[i] == old(self).done@[i]);
                if j < old(self).done@.len() {
                    assert(self.done@[j] == old(self).done@[j]);
                }
            }
            assert forall|k: int| 0 <= k < w.len() implies !has_url(self.done@, (#[trigger] w[k])@) by {
                if has_url(self.done@, w[k]@) {
                    let m = choose|m: int| 0 <= m < self.done@.len() && (#[trigger] self.done@[m])@ == w[k]@;
                    if m < old(self).done@.len() {
                        assert(self.done@[m] == old(self).done@[m]);
                    }
                }
            }
        }
    }
}

} // verus!
