//! The address of an object: `s3://bucket/key`, with exactly one key segment.

use vstd::prelude::*;
use vstd::string::*;

verus! {

/// Why a URL is not the address of an object.
#[derive(Clone, Copy, Debug, PartialEq, Eq, Structural)]
pub enum ParseError {
    /// The URL does not begin with `s3://`.
    InvalidScheme,
    /// What follows `s3://` is not a non-empty bucket, one `/` and a non-empty key.
    InvalidPath,
}

/// A location as contracts speak of it.
pub struct LocationView {
    pub bucket: Seq<char>,
    pub key: Seq<char>,
}

/// The bucket and key of one stored object.
#[derive(Debug)]
pub struct S3Location {
    bucket: String,
    key: String,
}

impl View for S3Location {
    type V = LocationView;

    closed spec fn view(&self) -> LocationView {
        LocationView { bucket: self.bucket@, key: self.key@ }
    }
}

/// The prefix every object URL begins with: `s3://`.
pub open spec fn scheme() -> Seq<char> {
    seq!['s', '3', ':', '/', '/']
}

/// `url` begins with the store prefix.
pub open spec fn has_scheme(url: Seq<char>) -> bool {
    scheme().is_prefix_of(url)
}

/// A bucket or a key: not empty, and without a `/`.
pub open spec fn is_segment(s: Seq<char>) -> bool {
    s.len() > 0 && !s.contains('/')
}

/// Both parts of a location are segments.
pub open spec fn well_formed(loc: LocationView) -> bool {
    is_segment(loc.bucket) && is_segment(loc.key)
}

/// The URL that names `loc`.
pub open spec fn url_of(loc: LocationView) -> Seq<char> {
    scheme() + loc.bucket + seq!['/'] + loc.key
}

/// What follows the store prefix in `url`.
pub open spec fn path_of(url: Seq<char>) -> Seq<char> {
    url.skip(scheme().len() as int)
}

/// How many times `/` occurs in `s`.
pub open spec fn slash_count(s: Seq<char>) -> nat
    decreases s.len(),
{
    if s.len() == 0 {
        0
    } else {
        slash_count(s.drop_last()) + if s.last() == '/' { 1nat } else { 0nat }
    }
}

/// The location a URL names, or why it names none: the path is cut at its
/// first `/`, and both sides have to be segments.
pub open spec fn parse_url(url: Seq<char>) -> Result<LocationView, ParseError> {
    if !has_scheme(url) {
        Err(ParseError::InvalidScheme)
    } else {
        let path = path_of(url);
        match path.index_of_first('/') {
            None => Err(ParseError::InvalidPath),
            Some(at) => {
                let loc = LocationView { bucket: path.take(at), key: path.skip(at + 1) };
                if well_formed(loc) {
                    Ok(loc)
                } else {
                    Err(ParseError::InvalidPath)
                }
            },
        }
    }
}

/// The result of a parse as contracts speak of it.
pub open spec fn parsed_view(r: Result<S3Location, ParseError>) -> Result<LocationView, ParseError> {
    match r {
        Ok(loc) => Ok(loc@),
        Err(e) => Err(e),
    }
}

/// Whether `url` begins with `s3://`.
fn starts_with_scheme(url: &str, len: usize) -> (b: bool)
    requires
        len == url@.len(),
    ensures
        b == has_scheme(url@),
{
    if len < 5 {
        return false;
    }
    let b: bool = url.get_char(0) == 's' && url.get_char(1) == '3' && url.get_char(2) == ':'
        && url.get_char(3) == '/' && url.get_char(4) == '/';
    proof {
        if b {
            assert(url@.subrange(0, 5) =~= scheme());
        } else {
            assert(forall|i: int| 0 <= i < 5 ==> url@.subrange(0, 5)[i] == url@[i]);
        }
    }
    b
}

/// The index of the first `/` of `url` at or after `from`, or `len` if there is none.
fn find_slash(url: &str, from: usize, len: usize) -> (at: usize)
    requires
        from <= len == url@.len(),
    ensures
        from <= at <= len,
        at < len ==> url@[at as int] == '/',
        forall|j: int| from <= j < at ==> url@[j] != '/',
{
    let mut at: usize = from;
    while at < len
        invariant
            from <= at <= len == url@.len(),
            forall|j: int| from <= j < at ==> url@[j] != '/',
        decreases len - at,
    {
        if url.get_char(at) == '/' {
            return at;
        }
        at = at + 1;
    }
    at
}

/// Parses `s3://bucket/key`. The URL is taken as it stands: nothing is
/// normalised or decoded, and a key with a `/` in it is refused.
pub fn parse_s3_url(url: &str) -> (r: Result<S3Location, ParseError>)
    ensures
        parsed_view(r) == parse_url(url@),
{
    let len: usize = url.unicode_len();
    if !starts_with_scheme(url, len) {
        return Err(ParseError::InvalidScheme);
    }
    let ghost path = path_of(url@);
    proof {
        path.index_of_first_ensures('/');
    }
    let at: usize = find_slash(url, 5, len);
    if at == len {
        proof {
            if path.contains('/') {
                let j = choose|j: int| 0 <= j < path.len() && path[j] == '/';
                assert(url@[j + 5] == '/');
            }
        }
        return Err(ParseError::InvalidPath);
    }
    let ghost cut = at - 5;
    proof {
        assert(path[cut] == '/');
        let first = path.index_of_first('/').unwrap();
        assert(first == cut) by {
            if first < cut {
                assert(url@[first + 5] == '/');
            }
            if cut < first {
                assert(path[cut] != '/');
            }
        }
    }
    let end: usize = find_slash(url, at + 1, len);
    if at == 5 || at + 1 == len || end < len {
        proof {
            if end < len {
                let key = path.skip(cut + 1);
                assert(key[end - at - 1] == '/');
            }
        }
        return Err(ParseError::InvalidPath);
    }
    let bucket = String::from_str(url.substring_char(5, at));
    let key = String::from_str(url.substring_char(at + 1, len));
    proof {
        assert(bucket@ =~= path.take(cut));
        assert(key@ =~= path.skip(cut + 1));
        assert(!bucket@.contains('/')) by {
            if bucket@.contains('/') {
                let j = choose|j: int| 0 <= j < bucket@.len() && bucket@[j] == '/';
                assert(url@[j + 5] == '/');
            }
        }
        assert(!key@.contains('/')) by {
            if key@.contains('/') {
                let j = choose|j: int| 0 <= j < key@.len() && key@[j] == '/';
                assert(url@[j + at + 1] == '/');
            }
        }
    }
    Ok(S3Location { bucket, key })
}

impl S3Location {
    #[verifier::type_invariant]
    spec fn parts_are_segments(self) -> bool {
        is_segment(self.bucket@) && is_segment(self.key@)
    }

    /// A location from its two parts, each of which has to be a segment.
    pub fn new(bucket: String, key: String) -> (loc: S3Location)
        requires
            is_segment(bucket@),
            is_segment(key@),
        ensures
            loc@ == (LocationView { bucket: bucket@, key: key@ }),
    {
        S3Location { bucket, key }
    }

    /// The location that `url` names.
    pub fn new_from_url(url: &str) -> (r: Result<S3Location, ParseError>)
        ensures
            parsed_view(r) == parse_url(url@),
    {
        parse_s3_url(url)
    }

    /// The bucket.
    pub fn bucket(&self) -> (b: &str)
        ensures
            b@ == self@.bucket,
            is_segment(b@),
    {
        proof {
            use_type_invariant(self);
        }
        self.bucket.as_str()
    }

    /// The key.
    pub fn key(&self) -> (k: &str)
        ensures
            k@ == self@.key,
            is_segment(k@),
    {
        proof {
            use_type_invariant(self);
        }
        self.key.as_str()
    }

    /// The URL that names this location. Parsing it gives the location back.
    pub fn to_url(&self) -> (url: String)
        ensures
            url@ == url_of(self@),
            parse_url(url@) == Ok::<LocationView, ParseError>(self@),
    {
        let mut url = String::from_str("s3://");
        proof {
            reveal_strlit("s3://");
            reveal_strlit("/");
            use_type_invariant(self);
            lemma_url_of_parses(self@);
            assert("s3://"@ =~= scheme());
            assert("/"@ =~= seq!['/']);
        }
        url.append(self.bucket.as_str());
        url.append("/");
        url.append(self.key.as_str());
        url
    }
}

impl Clone for S3Location {
    fn clone(&self) -> (loc: S3Location)
        ensures
            loc == *self,
    {
        proof {
            use_type_invariant(self);
        }
        S3Location { bucket: self.bucket.clone(), key: self.key.clone() }
    }
}

/// Whether `s` can be a bucket or a key.
pub fn is_valid_segment(s: &str) -> (b: bool)
    ensures
        b == is_segment(s@),
{
    let len: usize = s.unicode_len();
    if len == 0 {
        return false;
    }
    let at: usize = find_slash(s, 0, len);
    proof {
        if at == len && s@.contains('/') {
            let j = choose|j: int| 0 <= j < s@.len() && s@[j] == '/';
            assert(s@[j] != '/');
        }
    }
    at == len
}

/// A segment has no `/`, and a sequence without `/` counts none.
pub proof fn lemma_slash_count_zero(s: Seq<char>)
    ensures
        slash_count(s) == 0 <==> !s.contains('/'),
    decreases s.len(),
{
    if s.len() > 0 {
        lemma_slash_count_zero(s.drop_last());
        if s.last() != '/' && s.contains('/') {
            let j = choose|j: int| 0 <= j < s.len() && s[j] == '/';
            assert(s.drop_last()[j] == '/');
        }
        if s.drop_last().contains('/') {
            let j = choose|j: int| 0 <= j < s.drop_last().len() && s.drop_last()[j] == '/';
            assert(s[j] == '/');
        }
    }
}

/// The slashes of two sequences put together are those of both.
pub proof fn lemma_slash_count_concat(a: Seq<char>, b: Seq<char>)
    ensures
        slash_count(a + b) == slash_count(a) + slash_count(b),
    decreases b.len(),
{
    if b.len() == 0 {
        assert(a + b =~= a);
    } else {
        assert((a + b).drop_last() =~= a + b.drop_last());
        lemma_slash_count_concat(a, b.drop_last());
    }
}

/// Every well-formed URL `s3://b/k` parses to bucket `b` and key `k`.
pub proof fn lemma_url_of_parses(loc: LocationView)
    requires
        well_formed(loc),
    ensures
        has_scheme(url_of(loc)),
        parse_url(url_of(loc)) == Ok::<LocationView, ParseError>(loc),
{
    let url = url_of(loc);
    let path = path_of(url);
    let cut = loc.bucket.len() as int;
    assert(url.subrange(0, 5) =~= scheme());
    assert(path =~= loc.bucket + seq!['/'] + loc.key);
    assert(path[cut] == '/');
    path.index_of_first_ensures('/');
    let first = path.index_of_first('/').unwrap();
    if first < cut {
        assert(loc.bucket[first] == '/');
    }
    assert(path.take(cut) =~= loc.bucket);
    assert(path.skip(cut + 1) =~= loc.key);
}

/// A URL parses to a location exactly when the location is well formed and
/// the URL is the one that names it.
pub proof fn lemma_parse_is_exact(url: Seq<char>, loc: LocationView)
    ensures
        parse_url(url) == Ok::<LocationView, ParseError>(loc) <==> well_formed(loc) && url == url_of(
            loc,
        ),
{
    if well_formed(loc) && url == url_of(loc) {
        lemma_url_of_parses(loc);
    }
    if parse_url(url) == Ok::<LocationView, ParseError>(loc) {
        let path = path_of(url);
        path.index_of_first_ensures('/');
        let at = path.index_of_first('/').unwrap();
        assert(url =~= scheme() + path);
        assert(path =~= path.take(at) + seq!['/'] + path.skip(at + 1));
        assert(url =~= url_of(loc));
    }
}

/// A URL without the `s3://` prefix is refused for its scheme.
pub proof fn lemma_missing_scheme(url: Seq<char>)
    requires
        !has_scheme(url),
    ensures
        parse_url(url) == Err::<LocationView, ParseError>(ParseError::InvalidScheme),
{
}

/// A URL with the prefix parses exactly when its path holds one `/`, which
/// is neither its first nor its last character: a bucket, and one segment
/// after it. With no segment after the bucket, or with two or more, the URL
/// is refused for its path.
pub proof fn lemma_one_segment_after_bucket(url: Seq<char>)
    requires
        has_scheme(url),
    ensures
        parse_url(url) is Ok <==> slash_count(path_of(url)) == 1 && path_of(url).first() != '/'
            && path_of(url).last() != '/',
        !(parse_url(url) is Ok) ==> parse_url(url) == Err::<LocationView, ParseError>(
            ParseError::InvalidPath,
        ),
        slash_count(path_of(url)) != 1 ==> parse_url(url) == Err::<LocationView, ParseError>(
            ParseError::InvalidPath,
        ),
{
    let path = path_of(url);
    path.index_of_first_ensures('/');
    lemma_slash_count_zero(path);
    if path.contains('/') {
        let at = path.index_of_first('/').unwrap();
        let bucket = path.take(at);
        let key = path.skip(at + 1);
        assert(path =~= bucket + seq!['/'] + key);
        lemma_slash_count_concat(bucket + seq!['/'], key);
        lemma_slash_count_concat(bucket, seq!['/']);
        lemma_slash_count_zero(bucket);
        lemma_slash_count_zero(key);
        assert(seq!['/'].drop_last() =~= Seq::<char>::empty());
        assert(slash_count(seq!['/']) == 1) by {
            reveal_with_fuel(slash_count, 2);
        }
        if bucket.contains('/') {
            let j = choose|j: int| 0 <= j < bucket.len() && bucket[j] == '/';
            assert(path[j] == '/');
        }
        if key.len() > 0 {
            assert(key.last() == path.last());
        }
    }
}

} // verus!
