//! A plain-value model of the HTTP responses that the publication pipeline
//! caches and replays: a status code, an ordered list of header pairs
//! (duplicates allowed), and a raw byte body.

use vstd::prelude::*;
use vstd::string::*;

verus! {

/// One response header: a name and its raw byte value.
pub struct HeaderPair {
    pub name: String,
    pub value: Vec<u8>,
}

/// Mathematical value of a `HeaderPair`.
pub struct HeaderPairModel {
    pub name: Seq<char>,
    pub value: Seq<u8>,
}

impl View for HeaderPair {
    type V = HeaderPairModel;

    open spec fn view(&self) -> HeaderPairModel {
        HeaderPairModel { name: self.name@, value: self.value@ }
    }
}

/// An HTTP response reduced to the concrete values the idempotency store
/// persists: status code, ordered headers, serialized body bytes.
pub struct StoredResponse {
    pub status_code: u16,
    pub headers: Vec<HeaderPair>,
    pub body: Vec<u8>,
}

/// Mathematical value of a `StoredResponse`.
pub struct ResponseModel {
    pub status_code: u16,
    pub headers: Seq<HeaderPairModel>,
    pub body: Seq<u8>,
}

/// The models of a sequence of header pairs, in order.
pub open spec fn header_views(s: Seq<HeaderPair>) -> Seq<HeaderPairModel> {
    s.map_values(|h: HeaderPair| h@)
}

/// Mapping to models commutes with appending one header.
pub proof fn lemma_header_views_push(s: Seq<HeaderPair>, h: HeaderPair)
    ensures
        header_views(s.push(h)) == header_views(s).push(h@),
{
    assert(header_views(s.push(h)) =~= header_views(s).push(h@));
}

impl View for StoredResponse {
    type V = ResponseModel;

    open spec fn view(&self) -> ResponseModel {
        ResponseModel {
            status_code: self.status_code,
            headers: header_views(self.headers@),
            body: self.body@,
        }
    }
}

impl HeaderPair {
    /// An exact copy; the contract (unlike a derived `Clone`'s) states it.
    pub fn duplicate(&self) -> (r: Self)
        ensures
            r@ == self@,
    {
        HeaderPair { name: self.name.clone(), value: vstd::slice::slice_to_vec(self.value.as_slice()) }
    }
}

impl StoredResponse {
    /// An exact copy; the contract (unlike a derived `Clone`'s) states it.
    pub fn duplicate(&self) -> (r: Self)
        ensures
            r@ == self@,
    {
        let mut headers: Vec<HeaderPair> = Vec::new();
        let mut i: usize = 0;
        while i < self.headers.len()
            invariant
                0 <= i <= self.headers.len(),
                header_views(headers@) == header_views(self.headers@.take(i as int)),
            decreases self.headers.len() - i,
        {
            let h = self.headers[i].duplicate();
            proof {
                lemma_header_views_push(headers@, h);
                lemma_header_views_push(
                    self.headers@.take(i as int),
                    self.headers@[i as int],
                );
                assert(self.headers@.take(i + 1)
                    =~= self.headers@.take(i as int).push(self.headers@[i as int]));
            }
            headers.push(h);
            i = i + 1;
        }
        proof {
            assert(self.headers@.take(self.headers@.len() as int) =~= self.headers@);
        }
        let r = StoredResponse {
            status_code: self.status_code,
            headers,
            body: vstd::slice::slice_to_vec(self.body.as_slice()),
        };
        r
    }
}

/// Model of the response that `redirect_to` builds: a `303 See Other`
/// whose single header sends the client to `location`.
pub open spec fn see_other_model(location: Seq<char>) -> ResponseModel {
    ResponseModel {
        status_code: 303,
        headers: seq![
            HeaderPairModel { name: "Location"@, value: vstd::utf8::encode_utf8(location) },
        ],
        body: Seq::<u8>::empty(),
    }
}

/// A redirect response pointing at `location`, as the routes build it.
pub fn redirect_to(location: &str) -> (r: StoredResponse)
    ensures
        r@ == see_other_model(location@),
{
    let mut headers: Vec<HeaderPair> = Vec::new();
    let value = vstd::slice::slice_to_vec(location.as_bytes());
    headers.push(HeaderPair { name: String::from_str("Location"), value });
    let r = StoredResponse { status_code: 303, headers, body: Vec::new() };
    proof {
        assert(r@.headers =~= see_other_model(location@).headers);
        assert(r@.body =~= see_other_model(location@).body);
    }
    r
}

/// Model of the response that `ok_to` builds: a `200 OK` carrying an HTML
/// body.
pub open spec fn ok_html_model(body: Seq<char>) -> ResponseModel {
    ResponseModel {
        status_code: 200,
        headers: seq![
            HeaderPairModel {
                name: "Content-Type"@,
                value: vstd::utf8::encode_utf8("text/html; charset=utf-8"@),
            },
        ],
        body: vstd::utf8::encode_utf8(body),
    }
}

/// A `200 OK` HTML response with the given body.
pub fn ok_to(body: String) -> (r: StoredResponse)
    ensures
        r@ == ok_html_model(body@),
{
    let mut headers: Vec<HeaderPair> = Vec::new();
    let value = vstd::slice::slice_to_vec("text/html; charset=utf-8".as_bytes());
    headers.push(HeaderPair { name: String::from_str("Content-Type"), value });
    let body_bytes = vstd::slice::slice_to_vec(body.as_str().as_bytes());
    let r = StoredResponse { status_code: 200, headers, body: body_bytes };
    proof {
        assert(r@.headers =~= ok_html_model(body@).headers);
    }
    r
}

} // verus!
