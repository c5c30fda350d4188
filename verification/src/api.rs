//! Dependents of a crate as the registry lists them, and which of them to
//! test.
//!
//! The registry hands out the reverse dependencies of a crate page by page.
//! Fetching the pages is the caller's business; how many to fetch, when to
//! stop and what to make of them is decided here.

use vstd::prelude::*;
use vstd::string::*;
use crate::text::owned;

verus! {

/// A crate that depends on the subject.
#[derive(Debug, Clone)]
pub struct ReverseDependency {
    pub name: String,
    /// How often the crate was downloaded.
    pub downloads: u64,
}

/// Entries on a full page of the registry's answer.
pub const PER_PAGE: usize = 100;

/// Pages that are fetched at most when no limit is set.
pub const MAX_PAGES: usize = 100;

/// How many pages hold `limit` entries; the most that are fetched when
/// there is no limit.
pub open spec fn pages_for(limit: Option<usize>) -> nat {
    match limit {
        Some(n) => ((n + PER_PAGE - 1) / PER_PAGE as int) as nat,
        None => MAX_PAGES as nat,
    }
}

/// How many pages to fetch at most. Pages are numbered from 1.
pub fn pages_needed(limit: Option<usize>) -> (pages: usize)
    ensures
        pages == pages_for(limit),
{
    match limit {
        Some(n) => {
            if n % PER_PAGE == 0 {
                n / PER_PAGE
            } else {
                n / PER_PAGE + 1
            }
        },
        None => MAX_PAGES,
    }
}

/// Whether another page is fetched after one that held `page_size` entries,
/// when `collected` entries are held in all: not after a page that was not
/// full, and not once the limit is reached.
pub fn wants_next_page(page_size: usize, collected: usize, limit: Option<usize>) -> (more: bool)
    ensures
        more == (page_size >= PER_PAGE && match limit {
            Some(n) => collected < n,
            None => true,
        }),
{
    if page_size < PER_PAGE {
        return false;
    }
    match limit {
        Some(n) => collected < n,
        None => true,
    }
}

/// `s` with `x` put in behind the last entry that was downloaded at least
/// as often, looking at the first `n` entries.
pub open spec fn inserted(s: Seq<ReverseDependency>, x: ReverseDependency, n: int) -> Seq<
    ReverseDependency,
>
    decreases n,
{
    if n <= 0 {
        seq![x] + s
    } else if s[n - 1].downloads >= x.downloads {
        s.take(n) + seq![x] + s.skip(n)
    } else {
        inserted(s, x, n - 1)
    }
}

/// The first `n` entries of `s` ordered by downloads, the most downloaded
/// first; entries with the same count stay in the order in which they
/// came.
pub open spec fn ranked(s: Seq<ReverseDependency>, n: int) -> Seq<ReverseDependency>
    decreases n,
{
    if n <= 0 {
        Seq::<ReverseDependency>::empty()
    } else {
        inserted(ranked(s, n - 1), s[n - 1], ranked(s, n - 1).len() as int)
    }
}

/// No entry is followed by one that was downloaded more often.
pub open spec fn descending(s: Seq<ReverseDependency>) -> bool {
    forall|i: int, j: int| 0 <= i <= j < s.len() ==> s[i].downloads >= s[j].downloads
}

/// Inserting an element adds exactly that element.
proof fn lemma_insert_multiset(s: Seq<ReverseDependency>, n: int, x: ReverseDependency)
    requires
        0 <= n <= s.len(),
    ensures
        s.insert(n, x).to_multiset() =~= s.to_multiset().insert(x),
{
    let r = s.insert(n, x);
    assert(r.remove(n) =~= s);
    vstd::seq_lib::to_multiset_remove(r, n);
    r.to_multiset_ensures();
    assert(r[n] == x);
    assert(r.contains(x));
}

/// Putting an entry in keeps the order and adds exactly that entry.
pub proof fn lemma_inserted(s: Seq<ReverseDependency>, x: ReverseDependency, n: int)
    requires
        0 <= n <= s.len(),
        descending(s),
        forall|k: int| n <= k < s.len() ==> s[k].downloads < x.downloads,
    ensures
        descending(inserted(s, x, n)),
        inserted(s, x, n).len() == s.len() + 1,
        inserted(s, x, n).to_multiset() == s.to_multiset().insert(x),
    decreases n,
{
    if n <= 0 {
        let r = seq![x] + s;
        assert(r =~= s.insert(0, x));
        lemma_insert_multiset(s, 0, x);
    } else if s[n - 1].downloads >= x.downloads {
        let r = s.take(n) + seq![x] + s.skip(n);
        assert(r =~= s.insert(n, x));
        lemma_insert_multiset(s, n, x);
        assert forall|i: int, j: int| 0 <= i <= j < r.len() implies r[i].downloads
            >= r[j].downloads by {
            if i < n && j == n {
                assert(s[i].downloads >= s[n - 1].downloads);
            }
        }
    } else {
        lemma_inserted(s, x, n - 1);
    }
}

/// Ranking orders the entries and neither drops nor adds any.
pub proof fn lemma_ranked(s: Seq<ReverseDependency>, n: int)
    requires
        0 <= n <= s.len(),
    ensures
        descending(ranked(s, n)),
        ranked(s, n).len() == n,
        ranked(s, n).to_multiset() == s.take(n).to_multiset(),
    decreases n,
{
    if n > 0 {
        lemma_ranked(s, n - 1);
        let before = ranked(s, n - 1);
        lemma_inserted(before, s[n - 1], before.len() as int);
        assert(s.take(n) =~= s.take(n - 1).push(s[n - 1]));
        s.take(n - 1).to_multiset_ensures();
    } else {
        assert(s.take(0) =~= Seq::<ReverseDependency>::empty());
    }
}

/// The dependents to test: all that were fetched, the most downloaded
/// first, cut to the limit if there is one.
pub open spec fn chosen(all: Seq<ReverseDependency>, limit: Option<usize>) -> Seq<
    ReverseDependency,
> {
    let r = ranked(all, all.len() as int);
    match limit {
        Some(n) => if r.len() > n {
            r.take(n as int)
        } else {
            r
        },
        None => r,
    }
}

/// The entries of the pages one after the other.
pub open spec fn flattened(pages: Seq<Vec<ReverseDependency>>, n: int) -> Seq<ReverseDependency>
    decreases n,
{
    if n <= 0 {
        Seq::<ReverseDependency>::empty()
    } else {
        flattened(pages, n - 1) + pages[n - 1]@
    }
}

fn copy_dependency(d: &ReverseDependency) -> (r: ReverseDependency)
    ensures
        r == *d,
{
    ReverseDependency { name: d.name.clone(), downloads: d.downloads }
}

fn insert_ranked(sorted: &mut Vec<ReverseDependency>, x: ReverseDependency)
    ensures
        final(sorted)@ == inserted(old(sorted)@, x, old(sorted)@.len() as int),
{
    let mut n: usize = sorted.len();
    while n > 0 && sorted[n - 1].downloads < x.downloads
        invariant
            n <= sorted.len(),
            sorted@ == old(sorted)@,
            inserted(sorted@, x, sorted@.len() as int) == inserted(sorted@, x, n as int),
        decreases n,
    {
        n = n - 1;
    }
    let ghost s = sorted@;
    sorted.insert(n, x);
    proof {
        if n == 0 {
            assert(sorted@ =~= seq![x] + s);
        } else {
            assert(sorted@ =~= s.take(n as int) + seq![x] + s.skip(n as int));
        }
    }
}

/// Orders dependents by downloads, the most downloaded first. Dependents
/// with the same count stay in the order in which they came.
pub fn rank_dependents(all: &Vec<ReverseDependency>) -> (r: Vec<ReverseDependency>)
    ensures
        r@ == ranked(all@, all@.len() as int),
        descending(r@),
        r@.to_multiset() == all@.to_multiset(),
{
    let mut sorted: Vec<ReverseDependency> = Vec::new();
    let mut i: usize = 0;
    while i < all.len()
        invariant
            i <= all.len(),
            sorted@ == ranked(all@, i as int),
        decreases all.len() - i,
    {
        insert_ranked(&mut sorted, copy_dependency(&all[i]));
        i = i + 1;
    }
    proof {
        lemma_ranked(all@, all@.len() as int);
        assert(all@.take(all@.len() as int) =~= all@);
    }
    sorted
}

/// The dependents to test, from the pages that the registry handed out:
/// all entries of all pages, the most downloaded first, cut to `limit` if
/// there is one.
pub fn get_reverse_dependencies(pages: &Vec<Vec<ReverseDependency>>, limit: Option<usize>) -> (r:
    Vec<ReverseDependency>)
    ensures
        r@ == chosen(flattened(pages@, pages@.len() as int), limit),
        descending(r@),
        limit matches Some(n) ==> r@.len() <= n,
{
    let mut all: Vec<ReverseDependency> = Vec::new();
    let mut p: usize = 0;
    while p < pages.len()
        invariant
            p <= pages.len(),
            all@ == flattened(pages@, p as int),
        decreases pages.len() - p,
    {
        let page = &pages[p];
        let ghost before = all@;
        let mut k: usize = 0;
        while k < page.len()
            invariant
                k <= page.len(),
                all@ == before + page@.take(k as int),
            decreases page.len() - k,
        {
            all.push(copy_dependency(&page[k]));
            k = k + 1;
            assert(all@ =~= before + page@.take(k as int));
        }
        assert(page@.take(page.len() as int) =~= page@);
        p = p + 1;
    }
    let mut r = rank_dependents(&all);
    match limit {
        Some(n) => {
            if r.len() > n {
                r.truncate(n);
                assert(r@ =~= ranked(all@, all@.len() as int).take(n as int));
            }
        },
        None => {},
    }
    r
}

/// The `limit` most downloaded dependents from the pages that the registry
/// handed out.
pub fn get_top_dependents(pages: &Vec<Vec<ReverseDependency>>, limit: usize) -> (r: Vec<
    ReverseDependency,
>)
    ensures
        r@ == chosen(flattened(pages@, pages@.len() as int), Some(limit)),
        descending(r@),
        r@.len() <= limit,
{
    get_reverse_dependencies(pages, Some(limit))
}

/// The names of the dependents in the order in which the registry listed
/// them, cut to `limit` if there is one.
pub open spec fn listed_names(listed: Seq<ReverseDependency>, limit: Option<usize>) -> Seq<
    Seq<char>,
> {
    let n = match limit {
        Some(l) => if listed.len() > l {
            l as nat
        } else {
            listed.len()
        },
        None => listed.len(),
    };
    Seq::new(n, |i: int| listed[i].name@)
}

/// The names of the dependents of a crate as the registry listed them,
/// the first `limit` of them if a limit is set.
pub fn get_rev_deps(listed: &Vec<ReverseDependency>, limit: Option<usize>) -> (names: Vec<String>)
    ensures
        crate::text::texts_of(names@) == listed_names(listed@, limit),
{
    let n = match limit {
        Some(l) => if listed.len() > l {
            l
        } else {
            listed.len()
        },
        None => listed.len(),
    };
    let mut names: Vec<String> = Vec::new();
    let mut i: usize = 0;
    while i < n
        invariant
            i <= n <= listed.len(),
            names@.len() == i,
            forall|k: int| 0 <= k < i ==> (#[trigger] names@[k])@ == listed@[k].name@,
        decreases n - i,
    {
        names.push(listed[i].name.clone());
        i = i + 1;
    }
    assert(crate::text::texts_of(names@) =~= listed_names(listed@, limit));
    names
}

/// The address of a crate, or of a call on a crate, in the registry's API.
pub open spec fn crate_address(krate: Seq<char>, call: Option<Seq<char>>) -> Seq<char> {
    "https://crates.io/api/v1/crates/"@ + krate + match call {
        Some(c) => "/"@ + c,
        None => Seq::<char>::empty(),
    }
}

/// The query made of the first `n` parameters: `key=value`, joined by `&`.
pub open spec fn query_text(parms: Seq<(String, String)>, n: int) -> Seq<char>
    decreases n,
{
    if n <= 0 {
        Seq::<char>::empty()
    } else if n == 1 {
        parms[0].0@ + "="@ + parms[0].1@
    } else {
        query_text(parms, n - 1) + "&"@ + parms[n - 1].0@ + "="@ + parms[n - 1].1@
    }
}

/// The address with its parameters, if there are any.
pub open spec fn crate_address_with(
    krate: Seq<char>,
    call: Option<Seq<char>>,
    parms: Seq<(String, String)>,
) -> Seq<char> {
    if parms.len() == 0 {
        crate_address(krate, call)
    } else {
        crate_address(krate, call) + "?"@ + query_text(parms, parms.len() as int)
    }
}

/// The address of a crate in the registry's API, with a call on it if one
/// is given.
pub fn crate_url(krate: &str, call: Option<&str>) -> (s: String)
    ensures
        s@ == crate_address(
            krate@,
            match call {
                Some(c) => Some(c@),
                None => None,
            },
        ),
{
    let mut s = owned("https://crates.io/api/v1/crates/");
    s.append(krate);
    match call {
        Some(c) => {
            let ghost head = s@;
            s.append("/");
            s.append(c);
            assert(s@ =~= head + ("/"@ + c@));
        },
        None => {
            assert(s@ =~= s@ + Seq::<char>::empty());
        },
    }
    s
}

/// The address of a crate in the registry's API with parameters.
pub fn crate_url_with_parms(krate: &str, call: Option<&str>, parms: &Vec<(String, String)>) -> (s:
    String)
    ensures
        s@ == crate_address_with(
            krate@,
            match call {
                Some(c) => Some(c@),
                None => None,
            },
            parms@,
        ),
{
    let mut s = crate_url(krate, call);
    if parms.len() == 0 {
        return s;
    }
    let ghost head = s@;
    s.append("?");
    s.append(parms[0].0.as_str());
    s.append("=");
    s.append(parms[0].1.as_str());
    assert(s@ =~= head + "?"@ + query_text(parms@, 1));
    let mut i: usize = 1;
    while i < parms.len()
        invariant
            1 <= i <= parms.len(),
            s@ == head + "?"@ + query_text(parms@, i as int),
        decreases parms.len() - i,
    {
        s.append("&");
        s.append(parms[i].0.as_str());
        s.append("=");
        s.append(parms[i].1.as_str());
        i = i + 1;
        assert(s@ =~= head + "?"@ + query_text(parms@, i as int));
    }
    s
}

/// The address from which a version of a crate is downloaded.
pub fn download_url(krate: &str, version: &str) -> (s: String)
    ensures
        s@ == crate_address(krate@, Some(version@ + "/download"@)),
{
    let mut call = owned(version);
    call.append("/download");
    crate_url(krate, Some(call.as_str()))
}

} // verus!
