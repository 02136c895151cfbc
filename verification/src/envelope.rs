//! The request and response envelopes, and the splitting of a request path.

use vstd::prelude::*;
use vstd::string::StrSliceExecFns;
use vstd::string::StringExecFns;

verus! {

#[derive(Clone, Copy, Debug, PartialEq, Eq, Structural)]
pub enum Method {
    Get,
    Post,
    Put,
    Delete,
}

#[derive(Clone, Copy, Debug, PartialEq, Eq, Structural)]
pub enum Status {
    Success,
    BadRequest,
    Unauthorized,
    Forbidden,
    NotFound,
    MethodNotAllowed,
    Conflict,
    InternalServerError,
    NotImplemented,
}

impl Status {
    pub open spec fn spec_code(self) -> u16 {
        match self {
            Status::Success => 200,
            Status::BadRequest => 400,
            Status::Unauthorized => 401,
            Status::Forbidden => 403,
            Status::NotFound => 404,
            Status::MethodNotAllowed => 405,
            Status::Conflict => 409,
            Status::InternalServerError => 500,
            Status::NotImplemented => 501,
        }
    }

    /// The number that stands for this status on the wire.
    #[verifier::when_used_as_spec(spec_code)]
    pub fn code(self) -> (c: u16)
        ensures
            c == self.spec_code(),
    {
        match self {
            Status::Success => 200,
            Status::BadRequest => 400,
            Status::Unauthorized => 401,
            Status::Forbidden => 403,
            Status::NotFound => 404,
            Status::MethodNotAllowed => 405,
            Status::Conflict => 409,
            Status::InternalServerError => 500,
            Status::NotImplemented => 501,
        }
    }

    /// The status that `code` stands for, if it stands for one.
    pub fn from_code(code: u16) -> (s: Option<Status>)
        ensures
            match s {
                Some(status) => status.spec_code() == code,
                None => forall|status: Status| status.spec_code() != code,
            },
    {
        if code == 200 {
            Some(Status::Success)
        } else if code == 400 {
            Some(Status::BadRequest)
        } else if code == 401 {
            Some(Status::Unauthorized)
        } else if code == 403 {
            Some(Status::Forbidden)
        } else if code == 404 {
            Some(Status::NotFound)
        } else if code == 405 {
            Some(Status::MethodNotAllowed)
        } else if code == 409 {
            Some(Status::Conflict)
        } else if code == 500 {
            Some(Status::InternalServerError)
        } else if code == 501 {
            Some(Status::NotImplemented)
        } else {
            None
        }
    }
}

/// The head of a request. The body travels beside it as opaque bytes. A
/// request may come without a method, or with one that is not known.
#[derive(Clone, Debug, PartialEq, Eq)]
pub struct Request {
    pub id: u32,
    pub method: Option<Method>,
    pub path: String,
    pub has_body: bool,
}

pub struct RequestView {
    pub id: u32,
    pub method: Option<Method>,
    pub path: Seq<char>,
    pub has_body: bool,
}

impl View for Request {
    type V = RequestView;

    open spec fn view(&self) -> RequestView {
        RequestView { id: self.id, method: self.method, path: self.path@, has_body: self.has_body }
    }
}

/// The texts of a sequence of strings.
pub open spec fn texts(v: Seq<String>) -> Seq<Seq<char>> {
    v.map_values(|s: String| s@)
}

/// A path is cut into at most this many segments.
pub const MAX_SEGMENTS: usize = 5;

/// The first position at or after `from` that holds no `/`.
pub open spec fn skip_slashes(s: Seq<char>, from: int) -> int
    decreases s.len() - from,
{
    if 0 <= from < s.len() && s[from] == '/' {
        skip_slashes(s, from + 1)
    } else {
        from
    }
}

/// The first position at or after `from` that holds a `/`, or the end of `s`.
pub open spec fn next_slash(s: Seq<char>, from: int) -> int
    decreases s.len() - from,
{
    if 0 <= from < s.len() && s[from] != '/' {
        next_slash(s, from + 1)
    } else {
        from
    }
}

/// `s` from position `from` on, cut at each `/` into at most `limit` pieces.
/// The last piece takes whatever is left, slashes included.
pub open spec fn split_from(s: Seq<char>, from: int, limit: nat) -> Seq<Seq<char>>
    decreases limit,
{
    let end = next_slash(s, from);
    if limit <= 1 || end >= s.len() {
        seq![s.subrange(from, s.len() as int)]
    } else {
        seq![s.subrange(from, end)] + split_from(s, end + 1, (limit - 1) as nat)
    }
}

/// The segments of a request path: leading slashes are dropped, and the rest
/// is cut at each `/` into at most [`MAX_SEGMENTS`] segments.
pub open spec fn split_path(path: Seq<char>) -> Seq<Seq<char>> {
    split_from(path, skip_slashes(path, 0), MAX_SEGMENTS as nat)
}

/// The segments put together again, with a `/` between each two.
pub open spec fn rejoined(segments: Seq<Seq<char>>) -> Seq<char>
    decreases segments.len(),
{
    if segments.len() == 0 {
        Seq::empty()
    } else if segments.len() == 1 {
        segments[0]
    } else {
        segments[0] + seq!['/'] + rejoined(segments.drop_first())
    }
}

pub open spec fn has_slash(s: Seq<char>) -> bool {
    exists|i: int| 0 <= i < s.len() && s[i] == '/'
}

proof fn lemma_next_slash_bounds(s: Seq<char>, from: int)
    requires
        0 <= from <= s.len(),
    ensures
        from <= next_slash(s, from) <= s.len(),
        next_slash(s, from) < s.len() ==> s[next_slash(s, from)] == '/',
        forall|i: int| from <= i < next_slash(s, from) ==> s[i] != '/',
    decreases s.len() - from,
{
    if from < s.len() && s[from] != '/' {
        lemma_next_slash_bounds(s, from + 1);
    }
}

proof fn lemma_skip_slashes_bounds(s: Seq<char>, from: int)
    requires
        0 <= from <= s.len(),
    ensures
        from <= skip_slashes(s, from) <= s.len(),
        skip_slashes(s, from) < s.len() ==> s[skip_slashes(s, from)] != '/',
        forall|i: int| from <= i < skip_slashes(s, from) ==> s[i] == '/',
    decreases s.len() - from,
{
    if from < s.len() && s[from] == '/' {
        lemma_skip_slashes_bounds(s, from + 1);
    }
}

proof fn lemma_split_from(s: Seq<char>, from: int, limit: nat)
    requires
        0 <= from <= s.len(),
        limit >= 1,
    ensures
        1 <= split_from(s, from, limit).len() <= limit,
        rejoined(split_from(s, from, limit)) == s.subrange(from, s.len() as int),
        forall|k: int|
            0 <= k < split_from(s, from, limit).len() - 1 ==> !has_slash(
                #[trigger] split_from(s, from, limit)[k],
            ),
        split_from(s, from, limit).len() < limit ==> !has_slash(split_from(s, from, limit).last()),
    decreases limit,
{
    lemma_next_slash_bounds(s, from);
    let end = next_slash(s, from);
    let pieces = split_from(s, from, limit);
    if limit <= 1 || end >= s.len() {
        assert(pieces[0] == s.subrange(from, s.len() as int));
        if limit > 1 {
            assert(!has_slash(pieces.last()));
        }
    } else {
        let rest = split_from(s, end + 1, (limit - 1) as nat);
        lemma_split_from(s, end + 1, (limit - 1) as nat);
        let head = s.subrange(from, end);
        assert(pieces == seq![head] + rest);
        assert(pieces.drop_first() =~= rest);
        assert(pieces[0] == head);
        assert(rejoined(pieces) == head + seq!['/'] + rejoined(rest));
        assert(head + seq!['/'] + s.subrange(end + 1, s.len() as int) =~= s.subrange(
            from,
            s.len() as int,
        ));
        assert(!has_slash(head));
        assert forall|k: int| 0 <= k < pieces.len() - 1 implies !has_slash(
            #[trigger] pieces[k],
        ) by {
            if k > 0 {
                assert(pieces[k] == rest[k - 1]);
            }
        }
        assert(pieces.last() == rest.last());
    }
}

/// What the cutting of a path comes to: between one and [`MAX_SEGMENTS`]
/// segments, which give back the path without its leading slashes when they
/// are joined by `/`. Only the last of [`MAX_SEGMENTS`] segments can hold a
/// `/`, and the first segment never begins with one.
pub proof fn lemma_split_path(path: Seq<char>)
    ensures
        1 <= split_path(path).len() <= MAX_SEGMENTS,
        rejoined(split_path(path)) == path.subrange(skip_slashes(path, 0), path.len() as int),
        0 <= skip_slashes(path, 0) <= path.len(),
        forall|i: int| 0 <= i < skip_slashes(path, 0) ==> path[i] == '/',
        forall|k: int|
            0 <= k < split_path(path).len() - 1 ==> !has_slash(#[trigger] split_path(path)[k]),
        split_path(path).len() < MAX_SEGMENTS ==> !has_slash(split_path(path).last()),
        split_path(path)[0].len() > 0 ==> split_path(path)[0][0] != '/',
{
    lemma_skip_slashes_bounds(path, 0);
    let start = skip_slashes(path, 0);
    lemma_split_from(path, start, MAX_SEGMENTS as nat);
    lemma_next_slash_bounds(path, start);
}

/// Cuts `path` into its segments.
pub fn path_segments(path: &str) -> (segments: Vec<String>)
    ensures
        texts(segments@) == split_path(path@),
        1 <= segments.len() <= MAX_SEGMENTS,
{
    let n = path.unicode_len();
    let ghost s = path@;
    let mut start: usize = 0;
    while start < n && path.get_char(start) == '/'
        invariant
            n == s.len(),
            s == path@,
            start <= n,
            skip_slashes(s, 0) == skip_slashes(s, start as int),
        decreases n - start,
    {
        start += 1;
    }
    let mut segments: Vec<String> = Vec::new();
    let mut seg_start: usize = start;
    let mut i: usize = start;
    while i < n && segments.len() + 1 < MAX_SEGMENTS
        invariant
            n == s.len(),
            s == path@,
            start <= seg_start <= i <= n,
            segments.len() < MAX_SEGMENTS,
            next_slash(s, seg_start as int) == next_slash(s, i as int),
            split_from(s, start as int, MAX_SEGMENTS as nat) == texts(segments@) + split_from(
                s,
                seg_start as int,
                (MAX_SEGMENTS - segments.len()) as nat,
            ),
        decreases n - i,
    {
        if path.get_char(i) == '/' {
            let piece = String::from_str(path.substring_char(seg_start, i));
            proof {
                assert(next_slash(s, i as int) == i);
                assert(texts(segments@.push(piece)) == texts(segments@).push(piece@));
                assert(texts(segments@) + (seq![piece@] + split_from(
                    s,
                    i + 1,
                    (MAX_SEGMENTS - segments.len() - 1) as nat,
                )) == texts(segments@).push(piece@) + split_from(
                    s,
                    i + 1,
                    (MAX_SEGMENTS - segments.len() - 1) as nat,
                ));
            }
            segments.push(piece);
            seg_start = i + 1;
        }
        i += 1;
    }
    let rest = String::from_str(path.substring_char(seg_start, n));
    proof {
        lemma_next_slash_bounds(s, i as int);
        assert(texts(segments@.push(rest)) == texts(segments@).push(rest@));
        assert(texts(segments@) + seq![rest@] == texts(segments@).push(rest@));
    }
    segments.push(rest);
    segments
}

} // verus!
