//! An outbound HTTP call, described as plain values.

use vstd::prelude::*;

verus! {

#[derive(Clone, Copy, Debug, PartialEq, Eq, Structural)]
pub enum HttpMethod {
    Get,
    /// A POST whose parameters travel as a form-encoded body.
    Post,
}

/// One call to the Web API: its method, URL, headers, and parameters (the
/// query string of a GET, the form body of a POST), in the order they are
/// sent.
#[derive(Clone, Debug)]
pub struct Request {
    pub method: HttpMethod,
    pub url: String,
    pub headers: Vec<(String, String)>,
    pub params: Vec<(String, String)>,
}

pub struct RequestView {
    pub method: HttpMethod,
    pub url: Seq<char>,
    pub headers: Seq<(Seq<char>, Seq<char>)>,
    pub params: Seq<(Seq<char>, Seq<char>)>,
}

pub open spec fn pairs_view(v: Seq<(String, String)>) -> Seq<(Seq<char>, Seq<char>)> {
    v.map_values(|p: (String, String)| (p.0@, p.1@))
}

pub open spec fn strings_view(v: Seq<String>) -> Seq<Seq<char>> {
    v.map_values(|s: String| s@)
}

impl View for Request {
    type V = RequestView;

    open spec fn view(&self) -> RequestView {
        RequestView {
            method: self.method,
            url: self.url@,
            headers: pairs_view(self.headers@),
            params: pairs_view(self.params@),
        }
    }
}

/// Appends the pair `(key, value)` to `list`.
pub fn push_pair(list: &mut Vec<(String, String)>, key: &str, value: String)
    ensures
        pairs_view(final(list)@) == pairs_view(old(list)@).push((key@, value@)),
{
    let k = String::from_str(key);
    list.push((k, value));
    assert(pairs_view(list@) =~= pairs_view(old(list)@).push((key@, value@)));
}

/// `https://` followed by `domain` and `path`.
pub open spec fn endpoint(domain: Seq<char>, path: Seq<char>) -> Seq<char> {
    "https://"@ + domain + path
}

pub fn endpoint_url(domain: &str, path: &str) -> (r: String)
    ensures
        r@ == endpoint(domain@, path@),
{
    let mut url = String::from_str("https://");
    url.append(domain);
    url.append(path);
    url
}

} // verus!
