//! Header lists: lookup, last-value-wins insertion, and the whitelist of
//! downstream headers forwarded to agents.
use crate::text::str_eq;
use crate::types::{headers_view, names_unique};
use vstd::prelude::*;

verus! {

/// `m` with `name` set to `value`: replaced in place when present, else
/// appended.
pub open spec fn upsert(m: Seq<(Seq<char>, Seq<char>)>, name: Seq<char>, value: Seq<char>) -> Seq<
    (Seq<char>, Seq<char>),
> {
    if exists|i: int| 0 <= i < m.len() && m[i].0 == name {
        let i = choose|i: int| 0 <= i < m.len() && m[i].0 == name;
        m.update(i, (name, value))
    } else {
        m.push((name, value))
    }
}

/// The downstream headers that are forwarded to agents.
pub open spec fn is_forwarded_header(name: Seq<char>) -> bool {
    ||| name == "host"@
    ||| name == "user-agent"@
    ||| name == "accept"@
    ||| name == "accept-encoding"@
    ||| name == "accept-language"@
    ||| name == "authorization"@
    ||| name == "cookie"@
    ||| name == "x-forwarded-for"@
    ||| name == "x-forwarded-proto"@
    ||| name == "x-forwarded-host"@
    ||| name == "x-real-ip"@
    ||| name == "content-type"@
    ||| name == "content-length"@
    ||| name == "x-test-route"@
}

/// The whitelisted headers of `h`, each name once with its last value, in
/// order of first appearance.
pub open spec fn filtered_headers(h: Seq<(Seq<char>, Seq<char>)>) -> Seq<(Seq<char>, Seq<char>)>
    decreases h.len(),
{
    if h.len() == 0 {
        seq![]
    } else {
        let prev = filtered_headers(h.drop_last());
        let last = h.last();
        if is_forwarded_header(last.0) {
            upsert(prev, last.0, last.1)
        } else {
            prev
        }
    }
}

/// The value of the first header named `name` in `h`.
pub open spec fn first_value(h: Seq<(String, String)>, name: Seq<char>) -> Option<Seq<char>> {
    if exists|i: int| 0 <= i < h.len() && h[i].0@ == name {
        let i = choose|i: int|
            0 <= i < h.len() && h[i].0@ == name && forall|j: int| 0 <= j < i ==> h[j].0@ != name;
        Some(h[i].1@)
    } else {
        None
    }
}

/// The value of the first header named `name`.
pub fn header_get<'a>(headers: &'a [(String, String)], name: &str) -> (r: Option<&'a String>)
    ensures
        match r {
            Some(v) => first_value(headers@, name@) == Some(v@),
            None => first_value(headers@, name@) is None,
        },
{
    let n = headers.len();
    let mut i: usize = 0;
    while i < n
        invariant
            n == headers@.len(),
            i <= n,
            forall|j: int| 0 <= j < i ==> headers@[j].0@ != name@,
        decreases n - i,
    {
        if str_eq(headers[i].0.as_str(), name) {
            proof {
                let h = headers@;
                let c = choose|c: int|
                    0 <= c < h.len() && h[c].0@ == name@ && forall|j: int| 0 <= j < c ==> h[j].0@ != name@;
                assert(0 <= i < h.len() && h[i as int].0@ == name@);
                if c > i {
                    assert(h[i as int].0@ != name@);
                }
                assert(c == i);
            }
            return Some(&headers[i].1);
        }
        i = i + 1;
    }
    None
}

/// Sets `name` to `value`, replacing an earlier value of that name.
pub fn header_insert(map: &mut Vec<(String, String)>, name: String, value: String)
    requires
        names_unique(headers_view(old(map)@)),
    ensures
        names_unique(headers_view(final(map)@)),
        headers_view(final(map)@) == upsert(headers_view(old(map)@), name@, value@),
{
    let ghost m = headers_view(map@);
    let n = map.len();
    let mut i: usize = 0;
    while i < n
        invariant
            n == map@.len(),
            m == headers_view(map@),
            m == headers_view(old(map)@),
            names_unique(m),
            i <= n,
            forall|j: int| 0 <= j < i ==> map@[j].0@ != name@,
        decreases n - i,
    {
        if str_eq(map[i].0.as_str(), name.as_str()) {
            proof {
                assert(m[i as int].0 == name@);
                let k = choose|k: int| 0 <= k < m.len() && m[k].0 == name@;
                assert(m[k].0 == map@[k].0@);
                if k < i {
                    assert(map@[k].0@ != name@);
                }
                if k > i {
                    assert(m[i as int].0 != m[k].0);
                }
                assert(k == i as int);
                assert(upsert(m, name@, value@) == m.update(i as int, (name@, value@)));
            }
            map[i] = (name, value);
            proof {
                let m2 = headers_view(map@);
                assert(m2 =~= m.update(i as int, (name@, value@)));
                assert forall|a: int| 0 <= a < m2.len() implies m2[a].0 == m[a].0 by {}
                assert(m2 == upsert(m, name@, value@));
            }
            return;
        }
        i = i + 1;
    }
    map.push((name, value));
    proof {
        assert(headers_view(map@) =~= m.push((name@, value@)));
    }
}

/// Whether a downstream header is forwarded to agents.
pub fn is_forwarded_header_name(name: &str) -> (r: bool)
    ensures
        r == is_forwarded_header(name@),
{
    str_eq(name, "host") || str_eq(name, "user-agent") || str_eq(name, "accept") || str_eq(
        name,
        "accept-encoding",
    ) || str_eq(name, "accept-language") || str_eq(name, "authorization") || str_eq(
        name,
        "cookie",
    ) || str_eq(name, "x-forwarded-for") || str_eq(name, "x-forwarded-proto") || str_eq(
        name,
        "x-forwarded-host",
    ) || str_eq(name, "x-real-ip") || str_eq(name, "content-type") || str_eq(
        name,
        "content-length",
    ) || str_eq(name, "x-test-route")
}

/// The whitelisted downstream headers, last value winning.
pub fn filter_proxy_headers(headers: &[(String, String)]) -> (r: Vec<(String, String)>)
    ensures
        names_unique(headers_view(r@)),
        headers_view(r@) == filtered_headers(headers_view(headers@)),
{
    let n = headers.len();
    let mut out: Vec<(String, String)> = Vec::new();
    let mut i: usize = 0;
    while i < n
        invariant
            n == headers@.len(),
            i <= n,
            names_unique(headers_view(out@)),
            headers_view(out@) == filtered_headers(headers_view(headers@.subrange(0, i as int))),
        decreases n - i,
    {
        proof {
            let s = headers@.subrange(0, i + 1);
            assert(s.drop_last() == headers@.subrange(0, i as int));
            assert(headers_view(s).drop_last() == headers_view(s.drop_last()));
            assert(headers_view(s).last() == (headers@[i as int].0@, headers@[i as int].1@));
        }
        if is_forwarded_header_name(headers[i].0.as_str()) {
            header_insert(&mut out, headers[i].0.clone(), headers[i].1.clone());
        }
        i = i + 1;
    }
    assert(headers@.subrange(0, n as int) == headers@);
    out
}

/// Each entry of `upsert(m, name, value)` is `(name, value)` or an entry
/// of `m`.
pub proof fn lemma_upsert_entries(m: Seq<(Seq<char>, Seq<char>)>, name: Seq<char>, value: Seq<char>)
    ensures
        forall|i: int|
            0 <= i < upsert(m, name, value).len() ==> #[trigger] upsert(m, name, value)[i] == (name, value)
                || m.contains(upsert(m, name, value)[i]),
{
    let u = upsert(m, name, value);
    assert forall|i: int| 0 <= i < u.len() implies #[trigger] u[i] == (name, value) || m.contains(u[i]) by {
        if u[i] != (name, value) {
            assert(i < m.len());
            assert(u[i] == m[i]);
        }
    }
}

/// Every header kept by the filter is on the whitelist.
pub proof fn lemma_filtered_only_whitelisted(h: Seq<(Seq<char>, Seq<char>)>)
    ensures
        forall|i: int|
            0 <= i < filtered_headers(h).len() ==> is_forwarded_header(
                #[trigger] filtered_headers(h)[i].0,
            ),
    decreases h.len(),
{
    if h.len() > 0 {
        lemma_filtered_only_whitelisted(h.drop_last());
        let prev = filtered_headers(h.drop_last());
        let last = h.last();
        if is_forwarded_header(last.0) {
            if exists|i: int| 0 <= i < prev.len() && prev[i].0 == last.0 {
                let k = choose|i: int| 0 <= i < prev.len() && prev[i].0 == last.0;
                assert(filtered_headers(h) == prev.update(k, (last.0, last.1)));
                assert forall|i: int| 0 <= i < filtered_headers(h).len() implies is_forwarded_header(
                    #[trigger] filtered_headers(h)[i].0,
                ) by {
                    if i != k {
                        assert(filtered_headers(h)[i] == prev[i]);
                    }
                }
            } else {
                assert(filtered_headers(h) == prev.push((last.0, last.1)));
                assert forall|i: int| 0 <= i < filtered_headers(h).len() implies is_forwarded_header(
                    #[trigger] filtered_headers(h)[i].0,
                ) by {
                    if i < prev.len() {
                        assert(filtered_headers(h)[i] == prev[i]);
                    }
                }
            }
        }
    }
}

} // verus!
