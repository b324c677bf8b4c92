//! What an HTTP request to a provider is made of: the address with its query
//! parameters, and the headers.

use crate::strings::text_eq;
use vstd::prelude::*;

verus! {

/// Pairs of name and value as a mathematical value.
pub open spec fn pairs(v: Seq<(String, String)>) -> Seq<(Seq<char>, Seq<char>)> {
    v.map_values(|p: (String, String)| (p.0@, p.1@))
}

/// A copy of a list of pairs.
pub fn copy_pairs(v: &Vec<(String, String)>) -> (r: Vec<(String, String)>)
    ensures
        pairs(r@) == pairs(v@),
{
    let mut r: Vec<(String, String)> = Vec::new();
    let n: usize = v.len();
    let mut i: usize = 0;
    while i < n
        invariant
            i <= n,
            n == v.len(),
            r.len() == i,
            forall|k: int| 0 <= k < i ==> pairs(r@)[k] == pairs(v@)[k],
        decreases n - i,
    {
        r.push((v[i].0.clone(), v[i].1.clone()));
        i += 1;
    }
    assert(pairs(r@) =~= pairs(v@));
    r
}

/// The first index at or after `from` of a pair named `key`.
pub open spec fn key_index(ps: Seq<(Seq<char>, Seq<char>)>, key: Seq<char>, from: int) -> Option<
    int,
>
    decreases ps.len() - from,
{
    if from < 0 || from >= ps.len() {
        None
    } else if ps[from].0 == key {
        Some(from)
    } else {
        key_index(ps, key, from + 1)
    }
}

/// The pairs with `key` set to `value`: the first pair of that name takes
/// the value, and where there is none, the pair is added at the end.
pub open spec fn with_pair(ps: Seq<(Seq<char>, Seq<char>)>, key: Seq<char>, value: Seq<char>) -> Seq<
    (Seq<char>, Seq<char>),
> {
    match key_index(ps, key, 0) {
        Some(i) => ps.update(i, (key, value)),
        None => ps.push((key, value)),
    }
}

/// The pairs written as `name=value`, with `&` between them.
pub open spec fn joined_pairs(ps: Seq<(Seq<char>, Seq<char>)>) -> Seq<char>
    decreases ps.len(),
{
    if ps.len() == 0 {
        Seq::empty()
    } else if ps.len() == 1 {
        ps[0].0 + "="@ + ps[0].1
    } else {
        joined_pairs(ps.drop_last()) + "&"@ + ps.last().0 + "="@ + ps.last().1
    }
}

/// The query part of an address: empty without parameters, else `?` and the
/// parameters.
pub open spec fn query_text(ps: Seq<(Seq<char>, Seq<char>)>) -> Seq<char> {
    if ps.len() == 0 {
        Seq::empty()
    } else {
        "?"@ + joined_pairs(ps)
    }
}

/// An HTTP client as a mathematical value.
pub struct HttpClientView {
    pub base_url: Seq<char>,
    pub auth_header: Option<(Seq<char>, Seq<char>)>,
    pub extra_headers: Seq<(Seq<char>, Seq<char>)>,
    pub query_params: Seq<(Seq<char>, Seq<char>)>,
}

/// The settings of the HTTP requests to one provider.
#[derive(Debug)]
pub struct HttpClient {
    pub base_url: String,
    pub auth_header: Option<(String, String)>,
    pub extra_headers: Vec<(String, String)>,
    pub query_params: Vec<(String, String)>,
}

/// An optional pair as a mathematical value.
pub open spec fn opt_pair(o: Option<(String, String)>) -> Option<(Seq<char>, Seq<char>)> {
    match o {
        Some(p) => Some((p.0@, p.1@)),
        None => None,
    }
}

impl View for HttpClient {
    type V = HttpClientView;

    open spec fn view(&self) -> HttpClientView {
        HttpClientView {
            base_url: self.base_url@,
            auth_header: opt_pair(self.auth_header),
            extra_headers: pairs(self.extra_headers@),
            query_params: pairs(self.query_params@),
        }
    }
}

impl Clone for HttpClient {
    fn clone(&self) -> (r: HttpClient)
        ensures
            r@ == self@,
    {
        HttpClient {
            base_url: self.base_url.clone(),
            auth_header: match &self.auth_header {
                Some(p) => Some((p.0.clone(), p.1.clone())),
                None => None,
            },
            extra_headers: copy_pairs(&self.extra_headers),
            query_params: copy_pairs(&self.query_params),
        }
    }
}

/// The address of a request: the base, a slash, the path, and the query.
pub open spec fn url_of(client: HttpClientView, path: Seq<char>) -> Seq<char> {
    client.base_url + "/"@ + path + query_text(client.query_params)
}

/// The headers of a request: the content type, the authentication where
/// there is one, and the extra headers.
pub open spec fn headers_of(client: HttpClientView) -> Seq<(Seq<char>, Seq<char>)> {
    let first = seq![("Content-Type"@, "application/json"@)];
    match client.auth_header {
        Some(auth) => first.push(auth) + client.extra_headers,
        None => first + client.extra_headers,
    }
}

impl HttpClient {
    /// A client for `base_url` without query parameters.
    pub fn new(
        base_url: String,
        auth_header: Option<(String, String)>,
        extra_headers: Option<Vec<(String, String)>>,
    ) -> (r: HttpClient)
        ensures
            r@ == (HttpClientView {
                base_url: base_url@,
                auth_header: opt_pair(auth_header),
                extra_headers: match extra_headers {
                    Some(h) => pairs(h@),
                    None => Seq::empty(),
                },
                query_params: Seq::empty(),
            }),
    {
        let headers = match extra_headers {
            Some(h) => h,
            None => {
                assert(pairs(Seq::<(String, String)>::empty()) =~= Seq::empty());
                Vec::new()
            },
        };
        let r = HttpClient { base_url, auth_header, extra_headers: headers, query_params: Vec::new() };
        assert(r@.query_params =~= Seq::empty());
        r
    }

    /// Sets the query parameter `key` to `value`.
    pub fn add_query_param(&mut self, key: &str, value: String)
        ensures
            final(self)@ == (HttpClientView {
                query_params: with_pair(old(self)@.query_params, key@, value@),
                ..old(self)@
            }),
    {
        let ghost before = self.query_params@;
        let n: usize = self.query_params.len();
        let mut i: usize = 0;
        while i < n
            invariant
                i <= n,
                n == self.query_params.len(),
                *self == *old(self),
                self.query_params@ == before,
                key_index(pairs(before), key@, 0) == key_index(pairs(before), key@, i as int),
            decreases n - i,
        {
            assert(pairs(before)[i as int].0 == before[i as int].0@);
            if text_eq(self.query_params[i].0.as_str(), key) {
                self.query_params.set(i, (String::from_str(key), value));
                assert(pairs(self.query_params@) =~= pairs(before).update(
                    i as int,
                    (key@, value@),
                ));
                return ;
            }
            i += 1;
        }
        self.query_params.push((String::from_str(key), value));
        assert(pairs(self.query_params@) =~= pairs(before).push((key@, value@)));
    }

    /// The address of a request for `path`.
    pub fn request_url(&self, path: &str) -> (r: String)
        ensures
            r@ == url_of(self@, path@),
    {
        let mut url = self.base_url.clone();
        url.append("/");
        url.append(path);
        let n: usize = self.query_params.len();
        if n == 0 {
            assert(url@ =~= url_of(self@, path@));
            return url;
        }
        url.append("?");
        let ghost head = url@;
        let ghost ps = pairs(self.query_params@);
        let mut i: usize = 0;
        while i < n
            invariant
                i <= n,
                n == self.query_params.len(),
                ps == pairs(self.query_params@),
                url@ == head + joined_pairs(ps.take(i as int)),
            decreases n - i,
        {
            let ghost done = ps.take(i as int);
            let ghost next = ps.take(i + 1);
            assert(next.drop_last() =~= done);
            assert(next.last() == ps[i as int]);
            assert(ps[i as int] == (self.query_params@[i as int].0@, self.query_params@[i as int].1@));
            if i > 0 {
                url.append("&");
            }
            url.append(self.query_params[i].0.as_str());
            url.append("=");
            url.append(self.query_params[i].1.as_str());
            assert(url@ =~= head + joined_pairs(next));
            i += 1;
        }
        assert(ps.take(n as int) =~= ps);
        assert(url@ =~= url_of(self@, path@));
        url
    }

    /// The headers of a request.
    pub fn headers(&self) -> (r: Vec<(String, String)>)
        ensures
            pairs(r@) == headers_of(self@),
    {
        let mut r: Vec<(String, String)> = Vec::new();
        r.push((String::from_str("Content-Type"), String::from_str("application/json")));
        match &self.auth_header {
            Some(auth) => {
                r.push((auth.0.clone(), auth.1.clone()));
            },
            None => {},
        }
        let ghost first = pairs(r@);
        let n: usize = self.extra_headers.len();
        let mut i: usize = 0;
        while i < n
            invariant
                i <= n,
                n == self.extra_headers.len(),
                pairs(r@) == first + pairs(self.extra_headers@).take(i as int),
            decreases n - i,
        {
            let ghost before = pairs(r@);
            r.push((self.extra_headers[i].0.clone(), self.extra_headers[i].1.clone()));
            assert(pairs(r@) =~= before.push(pairs(self.extra_headers@)[i as int]));
            assert(pairs(self.extra_headers@).take(i + 1) =~= pairs(self.extra_headers@).take(
                i as int,
            ).push(pairs(self.extra_headers@)[i as int]));
            i += 1;
        }
        assert(pairs(self.extra_headers@).take(n as int) =~= pairs(self.extra_headers@));
        assert(first =~= match self@.auth_header {
            Some(auth) => seq![("Content-Type"@, "application/json"@)].push(auth),
            None => seq![("Content-Type"@, "application/json"@)],
        });
        r
    }
}

} // verus!
