//! API requests: method, path (with its query string) and JSON body.
use vstd::prelude::*;

use crate::json::{BodyModel, RequestBody};
use crate::number::{decimal_text, push_decimal};
use crate::text::string_views;
use crate::urlenc::{form_urlencode, form_urlencoded};

verus! {

/// The HTTP method of a request.
#[derive(Debug, Clone, Copy, PartialEq, Eq)]
pub enum Method {
    Get,
    Post,
    Patch,
}

/// A request to the Internode API.
#[derive(Debug, Clone, PartialEq, Eq)]
pub struct ApiRequest {
    pub method: Method,
    /// Path below the API base URL, query string included.
    pub path: String,
    pub body: Option<RequestBody>,
}

/// The model of a request.
pub struct RequestModel {
    pub method: Method,
    pub path: Seq<char>,
    pub body: Option<BodyModel>,
}

impl View for ApiRequest {
    type V = RequestModel;

    open spec fn view(&self) -> RequestModel {
        RequestModel {
            method: self.method,
            path: self.path@,
            body: match self.body {
                Some(b) => Some(b@),
                None => None,
            },
        }
    }
}

/// A GET of `path`, without a body.
pub open spec fn get_request(path: Seq<char>) -> RequestModel {
    RequestModel { method: Method::Get, path, body: None }
}

/// A POST of `body` to `path`.
pub open spec fn post_request(path: Seq<char>, body: BodyModel) -> RequestModel {
    RequestModel { method: Method::Post, path, body: Some(body) }
}

/// A PATCH of `body` to `path`.
pub open spec fn patch_request(path: Seq<char>, body: BodyModel) -> RequestModel {
    RequestModel { method: Method::Patch, path, body: Some(body) }
}

impl ApiRequest {
    /// A GET of `path`.
    pub fn get(path: String) -> (r: Self)
        ensures
            r@ == get_request(path@),
    {
        ApiRequest { method: Method::Get, path, body: None }
    }

    /// A POST of `body` to `path`.
    pub fn post(path: String, body: RequestBody) -> (r: Self)
        ensures
            r@ == post_request(path@, body@),
    {
        ApiRequest { method: Method::Post, path, body: Some(body) }
    }

    /// A PATCH of `body` to `path`.
    pub fn patch(path: String, body: RequestBody) -> (r: Self)
        ensures
            r@ == patch_request(path@, body@),
    {
        ApiRequest { method: Method::Patch, path, body: Some(body) }
    }
}

/// `base/id` followed by `tail`.
pub fn item_path(base: &str, id: &str, tail: &str) -> (r: String)
    ensures
        r@ == base@ + "/"@ + id@ + tail@,
{
    let mut p = String::from_str(base);
    p.append("/");
    p.append(id);
    p.append(tail);
    p
}

/// `base/id`.
pub fn id_path(base: &str, id: &str) -> (r: String)
    ensures
        r@ == base@ + "/"@ + id@,
{
    let mut p = String::from_str(base);
    p.append("/");
    p.append(id);
    p
}

/// `base` followed by `tail`.
pub fn sub_path(base: &str, tail: &str) -> (r: String)
    ensures
        r@ == base@ + tail@,
{
    let mut p = String::from_str(base);
    p.append(tail);
    p
}

/// The parameters joined with `&`.
pub open spec fn join_params(ps: Seq<Seq<char>>) -> Seq<char>
    decreases ps.len(),
{
    if ps.len() == 0 {
        Seq::empty()
    } else if ps.len() == 1 {
        ps[0]
    } else {
        join_params(ps.drop_last()) + seq!['&'] + ps.last()
    }
}

/// The query string for `ps`: empty without parameters, otherwise `?`
/// and the parameters joined with `&`.
pub open spec fn query_text(ps: Seq<Seq<char>>) -> Seq<char> {
    if ps.len() == 0 {
        Seq::empty()
    } else {
        seq!['?'] + join_params(ps)
    }
}

/// The parameter `name=<decimal>` when a number is given, none otherwise.
pub open spec fn int_param(name: Seq<char>, v: Option<i64>) -> Seq<Seq<char>> {
    match v {
        Some(n) => seq![name + seq!['='] + decimal_text(n as int)],
        None => Seq::empty(),
    }
}

/// The parameter `name=<form-urlencoded text>` when a text is given, none
/// otherwise.
pub open spec fn text_param(name: Seq<char>, v: Option<&str>) -> Seq<Seq<char>> {
    match v {
        Some(s) => seq![name + seq!['='] + form_urlencoded(vstd::utf8::encode_utf8(s@))],
        None => Seq::empty(),
    }
}

/// The parameters of a query string, in order.
pub struct QueryParams {
    pub items: Vec<String>,
}

impl View for QueryParams {
    type V = Seq<Seq<char>>;

    open spec fn view(&self) -> Seq<Seq<char>> {
        string_views(self.items@)
    }
}

impl QueryParams {
    /// No parameters.
    pub fn new() -> (r: Self)
        ensures
            r@ == Seq::<Seq<char>>::empty(),
    {
        QueryParams { items: Vec::new() }
    }

    fn push(&mut self, item: String)
        ensures
            final(self)@ == old(self)@.push(item@),
    {
        self.items.push(item);
        assert(string_views(self.items@) == string_views(old(self).items@).push(item@));
    }

    /// Adds `name=<n>` when `value` is `Some(n)`.
    pub fn push_int(&mut self, name: &str, value: Option<i64>)
        ensures
            final(self)@ == old(self)@ + int_param(name@, value),
    {
        if let Some(n) = value {
            let mut p = String::from_str(name);
            p.append("=");
            push_decimal(&mut p, n);
            proof {
                reveal_strlit("=");
                assert("="@ =~= seq!['=']);
                assert(p@ == name@ + seq!['='] + decimal_text(n as int));
            }
            self.push(p);
            assert(old(self)@ + int_param(name@, value) == old(self)@.push(
                name@ + seq!['='] + decimal_text(n as int),
            ));
        } else {
            assert(old(self)@ + int_param(name@, value) == old(self)@);
        }
    }

    /// Adds `name=<form-urlencoded s>` when `value` is `Some(s)`.
    pub fn push_text(&mut self, name: &str, value: Option<&str>)
        ensures
            final(self)@ == old(self)@ + text_param(name@, value),
    {
        if let Some(s) = value {
            let mut p = String::from_str(name);
            p.append("=");
            let enc = form_urlencode(s);
            p.append(enc.as_str());
            proof {
                reveal_strlit("=");
                assert("="@ =~= seq!['=']);
            }
            self.push(p);
            assert(old(self)@ + text_param(name@, value) == old(self)@.push(
                name@ + seq!['='] + form_urlencoded(vstd::utf8::encode_utf8(s@)),
            ));
        } else {
            assert(old(self)@ + text_param(name@, value) == old(self)@);
        }
    }

    /// The query string: empty without parameters, otherwise `?` and the
    /// parameters joined with `&`.
    pub fn query_string(&self) -> (r: String)
        ensures
            r@ == query_text(self@),
    {
        let n: usize = self.items.len();
        let mut r = String::new();
        if n == 0 {
            return r;
        }
        r.append("?");
        r.append(self.items[0].as_str());
        proof {
            reveal_strlit("?");
            assert(self@.take(1) == seq![self@[0]]);
        }
        let mut i: usize = 1;
        while i < n
            invariant
                1 <= i <= n,
                n == self.items.len(),
                r@ == seq!['?'] + join_params(self@.take(i as int)),
            decreases n - i,
        {
            r.append("&");
            r.append(self.items[i].as_str());
            proof {
                reveal_strlit("&");
                let t = self@.take(i + 1);
                assert(t.drop_last() == self@.take(i as int));
                assert(t.last() == self.items@[i as int]@);
            }
            i = i + 1;
        }
        assert(self@.take(n as int) == self@);
        r
    }
}

} // verus!
