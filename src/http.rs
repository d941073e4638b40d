//! The streaming server's request handling: routing a request path, refusing
//! photo names that could leave the photo directory, and framing responses,
//! including one multipart part per live frame.

use vstd::prelude::*;
use vstd::string::StringSliceAdditionalSpecFns;

verus! {

pub const SLASH: u8 = 47;
pub const BACKSLASH: u8 = 92;
pub const DOT: u8 = 46;
pub const SPACE: u8 = 32;
pub const CR: u8 = 13;
pub const LF: u8 = 10;
pub const ZERO: u8 = 48;

/// A photo name that could reach outside the photo directory: it holds a
/// path separator or a parent-directory reference.
pub open spec fn escapes_dir(n: Seq<u8>) -> bool {
    exists|i: int| #[trigger] escape_at(n, i)
}

/// Position `i` of `n` holds a path separator or begins a `..`.
pub open spec fn escape_at(n: Seq<u8>, i: int) -> bool {
    0 <= i < n.len() && (n[i] == SLASH || n[i] == BACKSLASH || (i + 1 < n.len() && n[i] == DOT
        && n[i + 1] == DOT))
}

/// Where a request path leads.
pub enum RouteView {
    Stream,
    Photo(Seq<u8>),
    Forbidden,
    NotFound,
}

pub open spec fn stream_path() -> Seq<u8> {
    "/stream".spec_bytes()
}

pub open spec fn photos_prefix() -> Seq<u8> {
    "/photos/".spec_bytes()
}

/// The route of path `p`.
pub open spec fn route_spec(p: Seq<u8>) -> RouteView {
    if p == stream_path() {
        RouteView::Stream
    } else if p.len() > photos_prefix().len() && p.take(photos_prefix().len() as int)
        == photos_prefix() {
        let name = p.skip(photos_prefix().len() as int);
        if escapes_dir(name) {
            RouteView::Forbidden
        } else {
            RouteView::Photo(name)
        }
    } else {
        RouteView::NotFound
    }
}

/// Where a request leads; a photo carries the name to look up in the photo
/// directory, which never escapes it.
#[derive(Debug, PartialEq, Eq)]
pub enum Route {
    Stream,
    Photo(Vec<u8>),
    Forbidden,
    NotFound,
}

impl View for Route {
    type V = RouteView;

    open spec fn view(&self) -> RouteView {
        match self {
            Route::Stream => RouteView::Stream,
            Route::Photo(n) => RouteView::Photo(n@),
            Route::Forbidden => RouteView::Forbidden,
            Route::NotFound => RouteView::NotFound,
        }
    }
}

/// `a` and `b` hold the same bytes.
fn same_bytes(a: &[u8], b: &[u8]) -> (r: bool)
    ensures
        r == (a@ == b@),
{
    if a.len() != b.len() {
        return false;
    }
    let mut i: usize = 0;
    while i < a.len()
        invariant
            a@.len() == b@.len(),
            i <= a@.len(),
            a@.take(i as int) == b@.take(i as int),
        decreases a@.len() - i,
    {
        if a[i] != b[i] {
            assert(a@.take(i + 1)[i as int] != b@.take(i + 1)[i as int]);
            return false;
        }
        assert(a@.take(i + 1) =~= a@.take(i as int).push(a@[i as int]));
        assert(b@.take(i + 1) =~= b@.take(i as int).push(b@[i as int]));
        i = i + 1;
    }
    assert(a@.take(i as int) =~= a@);
    assert(b@.take(i as int) =~= b@);
    true
}

/// `p` begins with `prefix`.
fn starts_with(p: &[u8], prefix: &[u8]) -> (r: bool)
    ensures
        r == (p@.len() >= prefix@.len() && p@.take(prefix@.len() as int) == prefix@),
{
    if p.len() < prefix.len() {
        return false;
    }
    let mut i: usize = 0;
    while i < prefix.len()
        invariant
            prefix@.len() <= p@.len(),
            i <= prefix@.len(),
            p@.take(i as int) == prefix@.take(i as int),
        decreases prefix@.len() - i,
    {
        if p[i] != prefix[i] {
            assert(p@.take(prefix@.len() as int)[i as int] != prefix@[i as int]);
            return false;
        }
        assert(p@.take(i + 1) =~= p@.take(i as int).push(p@[i as int]));
        assert(prefix@.take(i + 1) =~= prefix@.take(i as int).push(prefix@[i as int]));
        i = i + 1;
    }
    assert(prefix@.take(i as int) =~= prefix@);
    true
}

/// Whether the photo name `n` could escape the photo directory.
pub fn name_escapes(n: &[u8]) -> (r: bool)
    ensures
        r == escapes_dir(n@),
{
    let mut i: usize = 0;
    while i < n.len()
        invariant
            i <= n@.len(),
            forall|j: int| 0 <= j < i ==> !#[trigger] escape_at(n@, j),
        decreases n@.len() - i,
    {
        if n[i] == SLASH || n[i] == BACKSLASH {
            assert(escape_at(n@, i as int));
            return true;
        }
        if i + 1 < n.len() && n[i] == DOT && n[i + 1] == DOT {
            assert(escape_at(n@, i as int));
            return true;
        }
        i = i + 1;
    }
    assert forall|j: int| !#[trigger] escape_at(n@, j) by {
        if 0 <= j < i {
        }
    }
    false
}

/// Routes a request path: `/stream`, `/photos/<name>` with a name that stays
/// inside the photo directory, a refused name, or anything else.
pub fn route(path: &[u8]) -> (r: Route)
    ensures
        r@ == route_spec(path@),
{
    let stream = "/stream".as_bytes();
    let prefix = "/photos/".as_bytes();
    if same_bytes(path, stream) {
        Route::Stream
    } else if path.len() > prefix.len() && starts_with(path, prefix) {
        let name = slice_tail(path, prefix.len());
        if name_escapes(name.as_slice()) {
            Route::Forbidden
        } else {
            Route::Photo(name)
        }
    } else {
        Route::NotFound
    }
}

/// A photo route always names a file directly inside the photo directory:
/// a non-empty name with no separator and no parent-directory reference.
pub proof fn lemma_photo_stays_inside(p: Seq<u8>)
    ensures
        route_spec(p) matches RouteView::Photo(n) ==> !escapes_dir(n) && n.len() > 0,
{
}

/// The bytes of `s` from index `k` on.
fn slice_tail(s: &[u8], k: usize) -> (r: Vec<u8>)
    requires
        k <= s@.len(),
    ensures
        r@ == s@.skip(k as int),
{
    let mut out: Vec<u8> = Vec::new();
    let mut i: usize = k;
    while i < s.len()
        invariant
            k <= i <= s@.len(),
            out@ == s@.subrange(k as int, i as int),
        decreases s@.len() - i,
    {
        out.push(s[i]);
        assert(out@ =~= s@.subrange(k as int, i + 1));
        i = i + 1;
    }
    assert(out@ =~= s@.skip(k as int));
    out
}

/// The decimal digits of `n`, most significant first.
pub open spec fn decimal(n: nat) -> Seq<u8>
    decreases n,
{
    if n < 10 {
        seq![(ZERO + n) as u8]
    } else {
        decimal(n / 10).push((ZERO + n % 10) as u8)
    }
}

/// Appends the decimal digits of `n`.
pub fn push_decimal(out: &mut Vec<u8>, n: usize)
    ensures
        final(out)@ == old(out)@ + decimal(n as nat),
    decreases n,
{
    if n >= 10 {
        push_decimal(out, n / 10);
    }
    out.push(ZERO + (n % 10) as u8);
    proof {
        if n >= 10 {
            assert(final(out)@ =~= old(out)@ + decimal(n as nat));
        } else {
            assert(final(out)@ =~= old(out)@ + decimal(n as nat));
        }
    }
}

/// Appends the bytes of `s`.
pub(crate) fn push_str(out: &mut Vec<u8>, s: &str)
    ensures
        final(out)@ == old(out)@ + s.spec_bytes(),
{
    let b = s.as_bytes();
    let mut i: usize = 0;
    let ghost start = out@;
    while i < b.len()
        invariant
            i <= b@.len(),
            b@ == s.spec_bytes(),
            out@ == start + b@.take(i as int),
        decreases b@.len() - i,
    {
        out.push(b[i]);
        assert(b@.take(i + 1) =~= b@.take(i as int).push(b@[i as int]));
        assert(out@ =~= start + b@.take(i + 1));
        i = i + 1;
    }
    assert(b@.take(i as int) =~= b@);
}

/// Appends the bytes of `b`.
fn push_bytes(out: &mut Vec<u8>, b: &[u8])
    ensures
        final(out)@ == old(out)@ + b@,
{
    let mut i: usize = 0;
    let ghost start = out@;
    while i < b.len()
        invariant
            i <= b@.len(),
            out@ == start + b@.take(i as int),
        decreases b@.len() - i,
    {
        out.push(b[i]);
        assert(b@.take(i + 1) =~= b@.take(i as int).push(b@[i as int]));
        assert(out@ =~= start + b@.take(i + 1));
        i = i + 1;
    }
    assert(b@.take(i as int) =~= b@);
}

/// The head of the live stream's response.
pub open spec fn stream_head_spec() -> Seq<u8> {
    "HTTP/1.1 200 OK\r\nContent-Type: multipart/x-mixed-replace; boundary=frame\r\nCache-Control: no-cache\r\n\r\n".spec_bytes()
}

/// The head of the live stream's response: multipart, replacing each part by
/// the next.
pub fn stream_head() -> (r: Vec<u8>)
    ensures
        r@ == stream_head_spec(),
{
    let mut out: Vec<u8> = Vec::new();
    push_str(
        &mut out,
        "HTTP/1.1 200 OK\r\nContent-Type: multipart/x-mixed-replace; boundary=frame\r\nCache-Control: no-cache\r\n\r\n",
    );
    assert(out@ =~= stream_head_spec());
    out
}

/// One part of the live stream carrying `frame`.
pub open spec fn stream_part_spec(frame: Seq<u8>) -> Seq<u8> {
    "--frame\r\nContent-Type: image/jpeg\r\nContent-Length: ".spec_bytes() + decimal(frame.len())
        + "\r\n\r\n".spec_bytes() + frame + "\r\n".spec_bytes()
}

/// One part of the live stream: boundary line, JPEG content type, the exact
/// length, a blank line, the frame and a line break.
pub fn stream_part(frame: &[u8]) -> (r: Vec<u8>)
    ensures
        r@ == stream_part_spec(frame@),
{
    let mut out: Vec<u8> = Vec::new();
    push_str(&mut out, "--frame\r\nContent-Type: image/jpeg\r\nContent-Length: ");
    push_decimal(&mut out, frame.len());
    push_str(&mut out, "\r\n\r\n");
    push_bytes(&mut out, frame);
    push_str(&mut out, "\r\n");
    assert(out@ =~= stream_part_spec(frame@));
    out
}

/// A reply to a request other than the live stream: a status and, on
/// success, the JPEG bytes of a photo.
#[derive(Debug, PartialEq, Eq)]
pub struct Response {
    pub status: u16,
    pub body: Option<Vec<u8>>,
}

/// The reply to `route`, given what reading the named photo gave (`None`: no
/// such file). The live stream is answered by `stream_head` and parts instead;
/// here it gets a bare success.
pub fn respond(route: &Route, file: Option<Vec<u8>>) -> (r: Response)
    ensures
        route@ is Forbidden ==> r.status == 403 && r.body is None,
        route@ is NotFound ==> r.status == 404 && r.body is None,
        route@ is Stream ==> r.status == 200 && r.body is None,
        route@ is Photo ==> match file {
            Some(b) => r.status == 200 && r.body == Some(b),
            None => r.status == 404 && r.body is None,
        },
{
    match route {
        Route::Stream => Response { status: 200, body: None },
        Route::Forbidden => Response { status: 403, body: None },
        Route::NotFound => Response { status: 404, body: None },
        Route::Photo(_) => match file {
            Some(b) => Response { status: 200, body: Some(b) },
            None => Response { status: 404, body: None },
        },
    }
}

/// The reason phrase of `status`.
pub open spec fn reason_spec(status: u16) -> Seq<u8> {
    if status == 200 {
        "OK".spec_bytes()
    } else if status == 403 {
        "Forbidden".spec_bytes()
    } else if status == 404 {
        "Not Found".spec_bytes()
    } else {
        "Unknown".spec_bytes()
    }
}

fn push_reason(out: &mut Vec<u8>, status: u16)
    ensures
        final(out)@ == old(out)@ + reason_spec(status),
{
    if status == 200 {
        push_str(out, "OK");
    } else if status == 403 {
        push_str(out, "Forbidden");
    } else if status == 404 {
        push_str(out, "Not Found");
    } else {
        push_str(out, "Unknown");
    }
}

/// The bytes of response `r`.
pub open spec fn encode_spec(status: u16, body: Option<Seq<u8>>) -> Seq<u8> {
    let len: nat = match body {
        Some(b) => b.len(),
        None => 0,
    };
    let kind = match body {
        Some(_) => "Content-Type: image/jpeg\r\n".spec_bytes(),
        None => Seq::empty(),
    };
    let content = match body {
        Some(b) => b,
        None => Seq::empty(),
    };
    "HTTP/1.1 ".spec_bytes() + decimal(status as nat) + " ".spec_bytes() + reason_spec(status)
        + "\r\n".spec_bytes() + kind + "Content-Length: ".spec_bytes() + decimal(len)
        + "\r\n\r\n".spec_bytes() + content
}

impl Response {
    /// The response as sent: status line, content type when a photo is
    /// carried, its exact length, a blank line and the photo's bytes.
    pub fn encode(&self) -> (r: Vec<u8>)
        ensures
            r@ == encode_spec(
                self.status,
                match self.body {
                    Some(b) => Some(b@),
                    None => None,
                },
            ),
    {
        let mut out: Vec<u8> = Vec::new();
        push_str(&mut out, "HTTP/1.1 ");
        push_decimal(&mut out, self.status as usize);
        push_str(&mut out, " ");
        push_reason(&mut out, self.status);
        push_str(&mut out, "\r\n");
        match &self.body {
            Some(b) => {
                push_str(&mut out, "Content-Type: image/jpeg\r\n");
                push_str(&mut out, "Content-Length: ");
                push_decimal(&mut out, b.len());
                push_str(&mut out, "\r\n\r\n");
                push_bytes(&mut out, b.as_slice());
            },
            None => {
                let ghost before = out@;
                push_str(&mut out, "Content-Length: ");
                push_decimal(&mut out, 0);
                push_str(&mut out, "\r\n\r\n");
                assert(before + Seq::<u8>::empty() =~= before);
            },
        }
        assert(out@ =~= encode_spec(
            self.status,
            match self.body {
                Some(b) => Some(b@),
                None => None,
            },
        ));
        out
    }
}

/// The index at which the request target that starts at `i` ends: the first
/// space or line break from `i` on, or the end.
pub open spec fn target_end(req: Seq<u8>, i: int) -> int
    decreases req.len() - i,
{
    if i >= req.len() || i < 0 || req[i] == SPACE || req[i] == CR || req[i] == LF {
        i
    } else {
        target_end(req, i + 1)
    }
}

pub open spec fn get_prefix() -> Seq<u8> {
    "GET ".spec_bytes()
}

/// The path of a `GET` request, or `None` for any other request.
pub open spec fn request_path_spec(req: Seq<u8>) -> Option<Seq<u8>> {
    let n = get_prefix().len() as int;
    if req.len() >= n && req.take(n) == get_prefix() {
        Some(req.subrange(n, target_end(req, n)))
    } else {
        None
    }
}

proof fn lemma_target_end_bounds(req: Seq<u8>, i: int)
    requires
        0 <= i <= req.len(),
    ensures
        i <= target_end(req, i) <= req.len(),
    decreases req.len() - i,
{
    if i < req.len() && !(req[i] == SPACE || req[i] == CR || req[i] == LF) {
        lemma_target_end_bounds(req, i + 1);
    }
}

/// The path that a request's first line asks for, if it is a `GET`.
pub fn request_path(req: &[u8]) -> (r: Option<Vec<u8>>)
    ensures
        match r {
            Some(p) => request_path_spec(req@) == Some(p@),
            None => request_path_spec(req@) is None,
        },
{
    let get = "GET ".as_bytes();
    if !starts_with(req, get) {
        return None;
    }
    let n = get.len();
    let mut out: Vec<u8> = Vec::new();
    let mut i: usize = n;
    proof {
        lemma_target_end_bounds(req@, n as int);
    }
    while i < req.len() && req[i] != SPACE && req[i] != CR && req[i] != LF
        invariant
            n == get_prefix().len(),
            n <= i <= req@.len(),
            target_end(req@, n as int) == target_end(req@, i as int),
            out@ == req@.subrange(n as int, i as int),
        decreases req@.len() - i,
    {
        out.push(req[i]);
        assert(out@ =~= req@.subrange(n as int, i + 1));
        i = i + 1;
    }
    Some(out)
}

/// Routes a whole request: a `GET` of a known path goes where `route` says;
/// anything else is not found.
pub fn route_request(req: &[u8]) -> (r: Route)
    ensures
        match request_path_spec(req@) {
            Some(p) => r@ == route_spec(p),
            None => r@ is NotFound,
        },
{
    match request_path(req) {
        Some(p) => route(p.as_slice()),
        None => Route::NotFound,
    }
}

} // verus!
