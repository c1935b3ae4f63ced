//! Requests and responses as plain values, so that a request can be issued
//! any number of times.

use vstd::prelude::*;

verus! {

/// The HTTP method of a request.
#[derive(Clone, Copy, Debug, PartialEq, Eq, Structural)]
pub enum Method {
    Get,
    Post,
    Put,
    Delete,
}

/// One header line: a name and its value.
#[derive(Debug)]
pub struct Header {
    pub name: String,
    pub value: String,
}

impl View for Header {
    type V = (Seq<char>, Seq<char>);

    open spec fn view(&self) -> (Seq<char>, Seq<char>) {
        (self.name@, self.value@)
    }
}

impl Clone for Header {
    fn clone(&self) -> (copy: Header)
        ensures
            copy@ == self@,
    {
        Header { name: self.name.clone(), value: self.value.clone() }
    }
}

/// The mathematical content of a [`Request`].
pub ghost struct RequestView {
    pub method: Method,
    pub url: Seq<char>,
    pub headers: Seq<(Seq<char>, Seq<char>)>,
    pub body: Option<Seq<u8>>,
}

/// An immutable request: method, URL, headers and an optional body. It holds
/// no single-use state, so it can be replayed.
#[derive(Debug)]
pub struct Request {
    pub method: Method,
    pub url: String,
    pub headers: Vec<Header>,
    pub body: Option<Vec<u8>>,
}

/// The views of a list of headers, in order.
pub open spec fn header_views(headers: Seq<Header>) -> Seq<(Seq<char>, Seq<char>)> {
    Seq::new(headers.len(), |i: int| headers[i]@)
}

impl View for Request {
    type V = RequestView;

    open spec fn view(&self) -> RequestView {
        RequestView {
            method: self.method,
            url: self.url@,
            headers: header_views(self.headers@),
            body: match self.body {
                Some(bytes) => Some(bytes@),
                None => None,
            },
        }
    }
}

impl Request {
    /// A request with the given method and URL, no headers and no body.
    pub fn new(method: Method, url: String) -> (request: Request)
        ensures
            request@ == (RequestView {
                method,
                url: url@,
                headers: Seq::<(Seq<char>, Seq<char>)>::empty(),
                body: None,
            }),
    {
        let request = Request { method, url, headers: Vec::new(), body: None };
        assert(request@.headers =~= Seq::<(Seq<char>, Seq<char>)>::empty());
        request
    }

    /// The same request with one more header at the end.
    pub fn header(self, name: String, value: String) -> (request: Request)
        ensures
            request@ == (RequestView { headers: self@.headers.push((name@, value@)), ..self@ }),
    {
        let ghost before = self@;
        let mut request = self;
        request.headers.push(Header { name, value });
        assert(request@.headers =~= before.headers.push((name@, value@)));
        request
    }
}

impl Clone for Request {
    fn clone(&self) -> (copy: Request)
        ensures
            copy@ == self@,
    {
        let mut headers: Vec<Header> = Vec::new();
        let mut i: usize = 0;
        while i < self.headers.len()
            invariant
                i <= self.headers.len(),
                headers.len() == i,
                forall|j: int| 0 <= j < i ==> headers[j]@ == self.headers[j]@,
            decreases self.headers.len() - i,
        {
            headers.push(self.headers[i].clone());
            i = i + 1;
        }
        let body = match &self.body {
            Some(bytes) => Some(bytes.clone()),
            None => None,
        };
        let copy = Request { method: self.method, url: self.url.clone(), headers, body };
        assert(copy@.headers =~= self@.headers);
        copy
    }
}

/// What the transport handed back: a status code and the body bytes.
#[derive(Debug)]
pub struct Response {
    pub status: u16,
    pub body: Vec<u8>,
}

impl View for Response {
    type V = (u16, Seq<u8>);

    open spec fn view(&self) -> (u16, Seq<u8>) {
        (self.status, self.body@)
    }
}

} // verus!
