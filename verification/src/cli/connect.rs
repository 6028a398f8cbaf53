//! Joining a game server: the game's id is the last segment of the server
//! URL's path.

use vstd::prelude::*;
use vstd::string::StrSliceExecFns;

verus! {

/// The command that connects to a game server and follows its updates.
#[derive(Debug, Clone)]
pub struct ConnectCmd {
    /// The WebSocket server URL.
    pub url: String,
}

/// The path of the URL that `url::Url::parse` reads from the text, or
/// `None` when it does not accept the text as an absolute URL.
pub uninterp spec fn url_parse_path(input: Seq<char>) -> Option<Seq<char>>;

/// Calls `url::Url::parse` on the text and reads the parsed URL's path with
/// `url::Url::path`, so that only plain text leaves the url crate. Claimed: the
/// result is `None` exactly when the parse fails, and otherwise the path, as
/// `url_parse_path` names it; the parse depends on the text alone.
#[verifier::external_body]
fn parsed_url_path(input: &str) -> (path: Option<String>)
    ensures
        path is Some <==> url_parse_path(input@) is Some,
        path matches Some(p) ==> url_parse_path(input@) == Some(p@),
{
    url::Url::parse(input).ok().map(|u| u.path().to_string())
}

/// The text after the last '/' of `s`, or all of `s` when it has none.
pub open spec fn after_last_slash(s: Seq<char>) -> Seq<char>
    decreases s.len(),
{
    if s.len() == 0 {
        s
    } else if s.last() == '/' {
        Seq::empty()
    } else {
        after_last_slash(s.drop_last()).push(s.last())
    }
}

/// The last segment of a URL path: for a path that starts with '/', the text
/// after its last '/'; none for any other path (a URL that cannot be a base).
pub open spec fn spec_last_path_segment(path: Seq<char>) -> Option<Seq<char>> {
    if path.len() > 0 && path[0] == '/' {
        Some(after_last_slash(path))
    } else {
        None
    }
}

/// The last segment of a URL path, as `url::Url::path_segments` and its last
/// item give it: `None` unless the path starts with '/', else the text after
/// the path's last '/'.
pub fn last_path_segment(path: &str) -> (segment: Option<String>)
    ensures
        segment matches Some(s) ==> spec_last_path_segment(path@) == Some(s@),
        segment is None ==> spec_last_path_segment(path@) is None,
{
    let n: usize = path.unicode_len();
    if n == 0 || path.get_char(0) != '/' {
        return None;
    }
    let mut start: usize = 0;
    let mut i: usize = 0;
    while i < n
        invariant
            n == path@.len(),
            start <= i <= n,
            after_last_slash(path@.take(i as int)) == path@.subrange(start as int, i as int),
        decreases n - i,
    {
        let c: char = path.get_char(i);
        proof {
            assert(path@.take(i + 1).drop_last() =~= path@.take(i as int));
            assert(path@.take(i + 1).last() == c);
        }
        if c == '/' {
            start = i + 1;
            proof {
                assert(path@.subrange(start as int, i + 1) =~= Seq::<char>::empty());
            }
        } else {
            proof {
                assert(path@.subrange(start as int, i + 1) =~= path@.subrange(start as int, i as int).push(c));
            }
        }
        i = i + 1;
    }
    proof {
        assert(path@.take(n as int) =~= path@);
    }
    let segment = path.substring_char(start, n);
    Some(segment.to_owned())
}

/// The game id's text in a server URL: the last segment of the parsed URL's
/// path; none when the URL does not parse or its path has no segments.
pub open spec fn spec_game_id_segment(url: Seq<char>) -> Option<Seq<char>> {
    match url_parse_path(url) {
        Some(path) => spec_last_path_segment(path),
        None => None,
    }
}

impl ConnectCmd {
    /// The game id's hex text: the last segment of the server URL's path, or
    /// `None` when the URL does not parse or has no path segments.
    pub fn game_id_segment(&self) -> (segment: Option<String>)
        ensures
            segment matches Some(s) ==> spec_game_id_segment(self.url@) == Some(s@),
            segment is None ==> spec_game_id_segment(self.url@) is None,
    {
        match parsed_url_path(self.url.as_str()) {
            Some(path) => last_path_segment(path.as_str()),
            None => None,
        }
    }
}

proof fn lemma_after_last_slash(s: Seq<char>)
    ensures
        after_last_slash(s).len() <= s.len(),
        after_last_slash(s) =~= s.subrange(s.len() - after_last_slash(s).len(), s.len() as int),
        !after_last_slash(s).contains('/'),
        after_last_slash(s).len() < s.len() ==> s[s.len() - after_last_slash(s).len() - 1] == '/',
        s.contains('/') ==> after_last_slash(s).len() < s.len(),
    decreases s.len(),
{
    if s.len() > 0 {
        let r = after_last_slash(s);
        if s.last() != '/' {
            lemma_after_last_slash(s.drop_last());
            let q = after_last_slash(s.drop_last());
            assert(r =~= q.push(s.last()));
            if r.contains('/') {
                let j = choose|j: int| 0 <= j < r.len() && r[j] == '/';
                assert(j < q.len() ==> q[j] == '/');
            }
            if s.contains('/') {
                let j = choose|j: int| 0 <= j < s.len() && s[j] == '/';
                assert(s.drop_last()[j] == '/');
            }
        }
    }
}

/// The last segment of a path that starts with '/' is the text after its last
/// '/': it ends the path, holds no '/', and a '/' stands right before it. A path
/// that does not start with '/' has no segments.
pub proof fn law_last_segment(path: Seq<char>)
    ensures
        spec_last_path_segment(path) is None <==> !(path.len() > 0 && path[0] == '/'),
        spec_last_path_segment(path) matches Some(seg) ==> {
            &&& seg.len() < path.len()
            &&& path.subrange(path.len() - seg.len(), path.len() as int) == seg
            &&& path[path.len() - seg.len() - 1] == '/'
            &&& !seg.contains('/')
        },
{
    if path.len() > 0 && path[0] == '/' {
        lemma_after_last_slash(path);
        assert(path.contains('/'));
    }
}

} // verus!
