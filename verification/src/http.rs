//! The text of an HTTP exchange: request line, headers, query string and
//! the head of a response.
//!
//! Named values (the pairs of a query, the headers) are kept in the order
//! in which they were given; of two values under one name the later one
//! counts.

use vstd::prelude::*;
use crate::text::{
    decimal, decimal_text, parse_u32, same_text, spec_parse_u32, spec_split, spec_split_once,
    spec_trim, spec_words, split, split_once, texts, trim, words,
};

verus! {

/// Named values, in the order in which they were given.
pub struct Entries<V> {
    pub pairs: Vec<(String, V)>,
}

/// The pairs of a query string: a name and, where an equals sign
/// follows it, a value.
pub type Query = Entries<Option<String>>;

/// The headers of a request or of a response.
pub type Headers = Entries<String>;

pub struct Target {
    pub path: String,
    pub query: Option<Query>,
}

/// Why a request cannot be read.
#[derive(Clone, Copy, Debug, PartialEq, Eq, Structural)]
pub enum HttpError {
    /// The first line does not hold three words.
    InvalidFirstLine,
    /// A header line holds no colon.
    InvalidHeader,
    /// The header `Content-Length` does not write a `u32`.
    InvalidContentLength,
}

/// A request as read: the words of its first line, its headers and its
/// body.
pub struct Request {
    method: String,
    target: Target,
    version: String,
    headers: Headers,
    body: Option<Vec<u8>>,
}

/// The map that a sequence of named values stands for: of two values
/// under one name the later one counts.
pub open spec fn assoc_map<T>(pairs: Seq<(Seq<char>, T)>) -> Map<Seq<char>, T>
    decreases pairs.len(),
{
    if pairs.len() == 0 {
        Map::empty()
    } else {
        assoc_map(pairs.drop_last()).insert(pairs.last().0, pairs.last().1)
    }
}

/// The pairs that a query string writes: one for each piece between
/// ampersands, cut at the piece's first equals sign.
pub open spec fn spec_parse_query(query: Seq<char>) -> Seq<(Seq<char>, Option<Seq<char>>)> {
    spec_split(query, '&').map_values(|piece: Seq<char>| spec_split_once(piece, '='))
}

/// What a header line writes: nothing if it is blank, which ends the
/// headers; else the name before its first colon and the value after it,
/// both trimmed.
pub open spec fn spec_parse_header(line: Seq<char>) -> Result<
    Option<(Seq<char>, Seq<char>)>,
    HttpError,
> {
    if spec_trim(line).len() == 0 {
        Ok(None)
    } else {
        match spec_split_once(line, ':') {
            (name, Some(value)) => Ok(Some((spec_trim(name), spec_trim(value)))),
            (_, None) => Err(HttpError::InvalidHeader),
        }
    }
}

/// The name of the header that gives the length of the body.
pub open spec fn content_length_name() -> Seq<char> {
    "Content-Length"@
}

/// The name of the header that gives the kind of the body.
pub open spec fn content_type_name() -> Seq<char> {
    "Content-Type"@
}

/// The length of the body that the headers announce, if they announce
/// one.
pub open spec fn spec_body_length(headers: Map<Seq<char>, Seq<char>>) -> Result<
    Option<u32>,
    HttpError,
> {
    if headers.contains_key(content_length_name()) {
        match spec_parse_u32(headers[content_length_name()]) {
            Some(len) => Ok(Some(len)),
            None => Err(HttpError::InvalidContentLength),
        }
    } else {
        Ok(None)
    }
}

/// The pair at index `at` counts: no later pair has its name.
pub open spec fn in_effect<T>(pairs: Seq<(Seq<char>, T)>, at: int) -> bool {
    forall|j: int| at < j < pairs.len() ==> (#[trigger] pairs[j]).0 != pairs[at].0
}

/// The header lines of the first `upto` pairs, one line for each pair
/// that counts among all of `pairs`.
pub open spec fn spec_header_lines(pairs: Seq<(Seq<char>, Seq<char>)>, upto: int) -> Seq<char>
    decreases upto,
{
    if upto <= 0 {
        Seq::empty()
    } else if in_effect(pairs, upto - 1) {
        spec_header_lines(pairs, upto - 1) + pairs[upto - 1].0 + ": "@ + pairs[upto - 1].1
            + "\r\n"@
    } else {
        spec_header_lines(pairs, upto - 1)
    }
}

/// The head of a response: status line, header lines, blank line.
pub open spec fn spec_response_head(
    version: Seq<char>,
    status: Seq<char>,
    headers: Seq<(Seq<char>, Seq<char>)>,
) -> Seq<char> {
    version + " "@ + status + "\r\n"@ + spec_header_lines(headers, headers.len() as int)
        + "\r\n"@
}

/// The place of a file that is served.
pub open spec fn spec_file_path(filename: Seq<char>) -> Seq<char> {
    "html/"@ + filename
}

/// A name that no pair has is not in the map.
pub proof fn lemma_assoc_absent<T>(pairs: Seq<(Seq<char>, T)>, key: Seq<char>)
    requires
        forall|j: int| 0 <= j < pairs.len() ==> (#[trigger] pairs[j]).0 != key,
    ensures
        !assoc_map(pairs).contains_key(key),
    decreases pairs.len(),
{
    if pairs.len() > 0 {
        let front = pairs.drop_last();
        lemma_assoc_absent(front, key);
    }
}

/// The map holds under a name the value of the pair that counts.
pub proof fn lemma_assoc_value<T>(pairs: Seq<(Seq<char>, T)>, at: int)
    requires
        0 <= at < pairs.len(),
        in_effect(pairs, at),
    ensures
        assoc_map(pairs).contains_key(pairs[at].0),
        assoc_map(pairs)[pairs[at].0] == pairs[at].1,
    decreases pairs.len(),
{
    if at < pairs.len() - 1 {
        lemma_assoc_value(pairs.drop_last(), at);
    }
}

impl<V: DeepView> Entries<V> {
    /// The names and values, in order.
    pub open spec fn entries(&self) -> Seq<(Seq<char>, V::V)> {
        self.pairs@.map_values(|p: (String, V)| (p.0@, p.1.deep_view()))
    }

    /// The value that counts under each name.
    pub open spec fn map(&self) -> Map<Seq<char>, V::V> {
        assoc_map(self.entries())
    }

    /// No named values.
    pub fn new() -> (r: Entries<V>)
        ensures
            r.entries() == Seq::<(Seq<char>, V::V)>::empty(),
            r.map() == Map::<Seq<char>, V::V>::empty(),
    {
        let r = Entries { pairs: Vec::new() };
        r
    }

    /// Gives `value` the name `key`, in place of any value that had it.
    pub fn insert(&mut self, key: String, value: V)
        ensures
            final(self).entries() == old(self).entries().push((key@, value.deep_view())),
            final(self).map() == old(self).map().insert(key@, value.deep_view()),
    {
        self.pairs.push((key, value));
        assert(self.entries().drop_last() =~= old(self).entries());
    }

    /// The index of the pair that counts under `key`.
    pub fn index_of(&self, key: &str) -> (r: Option<usize>)
        ensures
            match r {
                Some(i) => {
                    &&& i < self.pairs@.len()
                    &&& self.entries()[i as int].0 == key@
                    &&& in_effect(self.entries(), i as int)
                    &&& self.map().contains_key(key@)
                    &&& self.map()[key@] == self.entries()[i as int].1
                },
                None => !self.map().contains_key(key@),
            },
    {
        let mut found: Option<usize> = None;
        let mut i: usize = 0;
        while i < self.pairs.len()
            invariant
                i <= self.pairs@.len(),
                match found {
                    Some(at) => {
                        &&& at < i
                        &&& self.entries()[at as int].0 == key@
                        &&& forall|j: int| at < j < i ==> (#[trigger] self.entries()[j]).0 != key@
                    },
                    None => forall|j: int| 0 <= j < i ==> (#[trigger] self.entries()[j]).0 != key@,
                },
            decreases self.pairs@.len() - i,
        {
            if same_text(self.pairs[i].0.as_str(), key) {
                found = Some(i);
            }
            i += 1;
        }
        proof {
            match found {
                Some(at) => {
                    lemma_assoc_value(self.entries(), at as int);
                },
                None => {
                    lemma_assoc_absent(self.entries(), key@);
                },
            }
        }
        found
    }

    /// The value that counts under `key`.
    pub fn get(&self, key: &str) -> (r: Option<&V>)
        ensures
            match r {
                Some(v) => self.map().contains_key(key@) && self.map()[key@] == v.deep_view(),
                None => !self.map().contains_key(key@),
            },
    {
        match self.index_of(key) {
            Some(i) => Some(&self.pairs[i].1),
            None => None,
        }
    }
}

/// The pairs that a query string writes.
pub fn parse_query(query: String) -> (q: Query)
    ensures
        q.entries() == spec_parse_query(query@),
{
    let pieces = split(query.as_str(), '&');
    let mut pairs: Vec<(String, Option<String>)> = Vec::new();
    let mut i: usize = 0;
    while i < pieces.len()
        invariant
            i <= pieces@.len(),
            texts(pieces@) == spec_split(query@, '&'),
            pairs@.len() == i,
            forall|j: int|
                0 <= j < i ==> ((#[trigger] pairs@[j]).0@, pairs@[j].1.deep_view())
                    == spec_split_once(pieces@[j]@, '='),
        decreases pieces@.len() - i,
    {
        let pair = split_once(pieces[i].as_str(), '=');
        pairs.push(pair);
        i += 1;
    }
    let q = Entries { pairs };
    assert(q.entries() =~= spec_parse_query(query@));
    q
}

/// The target of a request: the path before its first question mark and
/// the query after it.
pub fn parse_target(target: &str) -> (t: Target)
    ensures
        t.path@ == spec_split_once(target@, '?').0,
        match spec_split_once(target@, '?').1 {
            Some(query) => t.query matches Some(q) && q.entries() == spec_parse_query(query),
            None => t.query is None,
        },
{
    let (path, query) = split_once(target, '?');
    match query {
        Some(query) => Target { path, query: Some(parse_query(query)) },
        None => Target { path, query: None },
    }
}

/// The method, the target and the version that a first line writes. The
/// line must hold three words.
pub fn parse_first_line(line: &str) -> (r: Result<(String, Target, String), HttpError>)
    ensures
        match r {
            Ok((method, target, version)) => {
                &&& spec_words(line@).len() == 3
                &&& method@ == spec_words(line@)[0]
                &&& version@ == spec_words(line@)[2]
                &&& target.path@ == spec_split_once(spec_words(line@)[1], '?').0
                &&& match spec_split_once(spec_words(line@)[1], '?').1 {
                    Some(query) => target.query matches Some(q) && q.entries()
                        == spec_parse_query(query),
                    None => target.query is None,
                }
            },
            Err(e) => spec_words(line@).len() != 3 && e == HttpError::InvalidFirstLine,
        },
{
    let mut parts = words(line);
    if parts.len() != 3 {
        return Err(HttpError::InvalidFirstLine);
    }
    let target = parse_target(parts[1].as_str());
    let version = parts[2].clone();
    let method = parts[0].clone();
    Ok((method, target, version))
}

/// What a header line writes.
pub fn parse_header(line: &str) -> (r: Result<Option<(String, String)>, HttpError>)
    ensures
        match r {
            Ok(Some((name, value))) => spec_parse_header(line@) == Ok::<
                Option<(Seq<char>, Seq<char>)>,
                HttpError,
            >(Some((name@, value@))),
            Ok(None) => spec_parse_header(line@) == Ok::<
                Option<(Seq<char>, Seq<char>)>,
                HttpError,
            >(None),
            Err(e) => spec_parse_header(line@) == Err::<
                Option<(Seq<char>, Seq<char>)>,
                HttpError,
            >(e),
        },
{
    let trimmed = trim(line);
    if trimmed.as_str().unicode_len() == 0 {
        return Ok(None);
    }
    let (name, value) = split_once(line, ':');
    match value {
        Some(value) => Ok(Some((trim(name.as_str()), trim(value.as_str())))),
        None => Err(HttpError::InvalidHeader),
    }
}

/// The length of the body that the headers announce, if they announce
/// one.
pub fn body_length(headers: &Headers) -> (r: Result<Option<u32>, HttpError>)
    ensures
        r == spec_body_length(headers.map()),
{
    proof {
        reveal_strlit("Content-Length");
    }
    match headers.get("Content-Length") {
        Some(value) => match parse_u32(value.as_str()) {
            Some(len) => Ok(Some(len)),
            None => Err(HttpError::InvalidContentLength),
        },
        None => Ok(None),
    }
}

impl HttpError {
    /// The words of the error.
    pub fn message(&self) -> (r: &'static str)
        ensures
            r@ == (match *self {
                HttpError::InvalidFirstLine => "Invalid First Line"@,
                HttpError::InvalidHeader => "Invalid Header"@,
                HttpError::InvalidContentLength => "Invalid Content-Length"@,
            }),
    {
        match self {
            HttpError::InvalidFirstLine => "Invalid First Line",
            HttpError::InvalidHeader => "Invalid Header",
            HttpError::InvalidContentLength => "Invalid Content-Length",
        }
    }
}

/// Where the reading of a request stands. A reader is fed the lines of the
/// request one by one, and then the body if one is announced.
pub enum RequestReader {
    /// The first line is awaited.
    FirstLine,
    /// A header line is awaited.
    Header { method: String, target: Target, version: String, headers: Headers },
    /// A body of `len` bytes is awaited.
    Body { method: String, target: Target, version: String, headers: Headers, len: u32 },
    /// The request is read.
    Done(Request),
    /// The request cannot be read.
    Failed(HttpError),
}

impl Request {
    pub open spec fn is_made_of(
        &self,
        method: String,
        target: Target,
        version: String,
        headers: Headers,
        body: Option<Vec<u8>>,
    ) -> bool {
        &&& self.spec_method() == method
        &&& self.spec_target() == target
        &&& self.spec_version() == version
        &&& self.spec_headers() == headers
        &&& self.spec_body() == body
    }

    pub closed spec fn spec_method(&self) -> String {
        self.method
    }

    pub closed spec fn spec_target(&self) -> Target {
        self.target
    }

    pub closed spec fn spec_version(&self) -> String {
        self.version
    }

    pub closed spec fn spec_headers(&self) -> Headers {
        self.headers
    }

    pub closed spec fn spec_body(&self) -> Option<Vec<u8>> {
        self.body
    }

    /// The request with these parts.
    pub fn new(
        method: String,
        target: Target,
        version: String,
        headers: Headers,
        body: Option<Vec<u8>>,
    ) -> (r: Request)
        ensures
            r.is_made_of(method, target, version, headers, body),
    {
        Request { method, target, version, headers, body }
    }

    pub fn method(&self) -> (r: &str)
        ensures
            r@ == self.spec_method()@,
    {
        self.method.as_str()
    }

    pub fn target(&self) -> (r: &Target)
        ensures
            *r == self.spec_target(),
    {
        &self.target
    }

    pub fn version(&self) -> (r: &str)
        ensures
            r@ == self.spec_version()@,
    {
        self.version.as_str()
    }

    /// The value of the header `key`, if the request has it.
    pub fn header(&self, key: &str) -> (r: Option<&str>)
        ensures
            match r {
                Some(value) => self.spec_headers().map().contains_key(key@)
                    && self.spec_headers().map()[key@] == value@,
                None => !self.spec_headers().map().contains_key(key@),
            },
    {
        match self.headers.get(key) {
            Some(s) => Some(s.as_str()),
            None => None,
        }
    }

    pub fn body(&self) -> (r: Option<Vec<u8>>)
        ensures
            match r {
                Some(bytes) => self.spec_body() matches Some(held) && bytes@ == held@,
                None => self.spec_body() is None,
            },
    {
        match &self.body {
            Some(bytes) => Some(bytes.clone()),
            None => None,
        }
    }

    /// The bytes of a response to this request: the head in UTF-8, with
    /// the version of the request, then the body.
    pub fn respond(&self, status: &str, headers: &Headers, body: Vec<u8>) -> (bytes: Vec<u8>)
        ensures
            bytes@ == vstd::utf8::encode_utf8(
                spec_response_head(self.spec_version()@, status@, headers.entries()),
            ) + body@,
    {
        let head = response_head(self.version.as_str(), status, headers);
        let mut bytes = head.as_str().as_bytes_vec();
        let mut body = body;
        bytes.append(&mut body);
        bytes
    }

    /// The bytes of a response that serves a file of kind `filetype`
    /// with the content `content`: the headers given, then the kind and
    /// the length of the content.
    pub fn respond_with_file(
        &self,
        status: &str,
        headers: Headers,
        content: Vec<u8>,
        filetype: &str,
    ) -> (bytes: Vec<u8>)
        ensures
            bytes@ == vstd::utf8::encode_utf8(
                spec_response_head(
                    self.spec_version()@,
                    status@,
                    headers.entries().push((content_type_name(), filetype@)).push(
                        (content_length_name(), decimal(content@.len())),
                    ),
                ),
            ) + content@,
    {
        let headers = file_headers(headers, filetype, content.len());
        self.respond(status, &headers, content)
    }
}

/// The place of the file named `filename` that is served.
pub fn file_path(filename: &str) -> (path: String)
    ensures
        path@ == spec_file_path(filename@),
{
    let mut path = String::from_str("html/");
    path.append(filename);
    path
}

/// The headers given, then the kind and the length of a file's content.
pub fn file_headers(headers: Headers, filetype: &str, len: usize) -> (r: Headers)
    ensures
        r.entries() == headers.entries().push((content_type_name(), filetype@)).push(
            (content_length_name(), decimal(len as nat)),
        ),
        r.map() == headers.map().insert(content_type_name(), filetype@).insert(
            content_length_name(),
            decimal(len as nat),
        ),
{
    let mut r = headers;
    r.insert(String::from_str("Content-Type"), String::from_str(filetype));
    r.insert(String::from_str("Content-Length"), decimal_text(len as u64));
    r
}

/// Whether the header at index `at` counts: no later header has its
/// name.
pub fn header_counts(headers: &Headers, at: usize) -> (r: bool)
    requires
        at < headers.pairs@.len(),
    ensures
        r == in_effect(headers.entries(), at as int),
{
    let n: usize = headers.pairs.len();
    let mut j: usize = at + 1;
    while j < n
        invariant
            n == headers.pairs@.len(),
            at < j <= n,
            forall|k: int| at < k < j ==> (#[trigger] headers.entries()[k]).0 != headers.entries()[at as int].0,
        decreases n - j,
    {
        if same_text(headers.pairs[j].0.as_str(), headers.pairs[at].0.as_str()) {
            assert(headers.entries()[j as int].0 == headers.entries()[at as int].0);
            return false;
        }
        j += 1;
    }
    true
}

/// The head of a response.
pub fn response_head(version: &str, status: &str, headers: &Headers) -> (head: String)
    ensures
        head@ == spec_response_head(version@, status@, headers.entries()),
{
    let mut head = String::from_str(version);
    head.append(" ");
    head.append(status);
    head.append("\r\n");
    let ghost start = head@;
    let mut i: usize = 0;
    while i < headers.pairs.len()
        invariant
            i <= headers.pairs@.len(),
            head@ == start + spec_header_lines(headers.entries(), i as int),
        decreases headers.pairs@.len() - i,
    {
        if header_counts(headers, i) {
            head.append(headers.pairs[i].0.as_str());
            head.append(": ");
            head.append(headers.pairs[i].1.as_str());
            head.append("\r\n");
        }
        i += 1;
    }
    head.append("\r\n");
    head
}

impl RequestReader {
    /// `next` is this reader after the line `line`.
    ///
    /// The first line gives method, target and version, or fails the
    /// reader. A header line is added to the headers; a blank line ends
    /// them, and the reader then awaits the body that they announce or is
    /// done without a body; a line without a colon, or an announced length
    /// that is no number, fails the reader. A reader that awaits no line
    /// is unchanged.
    pub open spec fn reads_line(&self, line: Seq<char>, next: RequestReader) -> bool {
        match *self {
            RequestReader::FirstLine => {
                if spec_words(line).len() == 3 {
                    &&& next matches RequestReader::Header { method, target, version, headers }
                    &&& method@ == spec_words(line)[0]
                    &&& version@ == spec_words(line)[2]
                    &&& target.path@ == spec_split_once(spec_words(line)[1], '?').0
                    &&& match spec_split_once(spec_words(line)[1], '?').1 {
                        Some(query) => target.query matches Some(q) && q.entries()
                            == spec_parse_query(query),
                        None => target.query is None,
                    }
                    &&& headers.entries() == Seq::<(Seq<char>, Seq<char>)>::empty()
                } else {
                    next == RequestReader::Failed(HttpError::InvalidFirstLine)
                }
            },
            RequestReader::Header { method, target, version, headers } => {
                match spec_parse_header(line) {
                    Ok(Some((name, value))) => {
                        &&& next matches RequestReader::Header {
                            method: m,
                            target: t,
                            version: v,
                            headers: h,
                        }
                        &&& m == method
                        &&& t == target
                        &&& v == version
                        &&& h.entries() == headers.entries().push((name, value))
                    },
                    Ok(None) => match spec_body_length(headers.map()) {
                        Ok(Some(len)) => next == (RequestReader::Body {
                            method,
                            target,
                            version,
                            headers,
                            len,
                        }),
                        Ok(None) => next matches RequestReader::Done(request)
                            && request.is_made_of(method, target, version, headers, None),
                        Err(e) => next == RequestReader::Failed(e),
                    },
                    Err(e) => next == RequestReader::Failed(e),
                }
            },
            _ => next == *self,
        }
    }

    /// `next` is this reader after the body `bytes`: a reader that awaits
    /// a body is done, any other is unchanged.
    pub open spec fn reads_body(&self, bytes: Vec<u8>, next: RequestReader) -> bool {
        match *self {
            RequestReader::Body { method, target, version, headers, len } => {
                next matches RequestReader::Done(request) && request.is_made_of(
                    method,
                    target,
                    version,
                    headers,
                    Some(bytes),
                )
            },
            _ => next == *self,
        }
    }

    /// A reader that awaits the first line.
    pub fn new() -> (r: RequestReader)
        ensures
            r is FirstLine,
    {
        RequestReader::FirstLine
    }

    /// Feeds the reader a line.
    pub fn line(self, line: &str) -> (next: RequestReader)
        ensures
            self.reads_line(line@, next),
    {
        match self {
            RequestReader::FirstLine => match parse_first_line(line) {
                Ok((method, target, version)) => RequestReader::Header {
                    method,
                    target,
                    version,
                    headers: Entries::new(),
                },
                Err(e) => RequestReader::Failed(e),
            },
            RequestReader::Header { method, target, version, headers } => {
                match parse_header(line) {
                    Ok(Some((name, value))) => {
                        let mut headers = headers;
                        headers.insert(name, value);
                        RequestReader::Header { method, target, version, headers }
                    },
                    Ok(None) => match body_length(&headers) {
                        Ok(Some(len)) => RequestReader::Body {
                            method,
                            target,
                            version,
                            headers,
                            len,
                        },
                        Ok(None) => RequestReader::Done(
                            Request::new(method, target, version, headers, None),
                        ),
                        Err(e) => RequestReader::Failed(e),
                    },
                    Err(e) => RequestReader::Failed(e),
                }
            },
            other => other,
        }
    }

    /// Feeds the reader the body.
    pub fn body(self, bytes: Vec<u8>) -> (next: RequestReader)
        ensures
            self.reads_body(bytes, next),
    {
        match self {
            RequestReader::Body { method, target, version, headers, len } => RequestReader::Done(
                Request::new(method, target, version, headers, Some(bytes)),
            ),
            other => other,
        }
    }
}

} // verus!
