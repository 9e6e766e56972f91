use vstd::prelude::*;
use vstd::string::StrSliceExecFns;
use vstd::string::StringExecFns;

use crate::error::GitxError;
use crate::strutil::{
    find_char, lemma_before_char_at, lemma_before_char_len, spec_before_char, spec_starts_with,
    spec_strip_suffix_once, spec_trim, spec_trim_end_char, spec_trim_start,
    spec_trim_start_char, str_eq, strip_suffix_once, trim, trim_end_char, trim_start,
    trim_start_char,
};
use crate::trusted::{url_path, url_path_of};

verus! {

/// Owner and repository name pair extracted from a git remote.
#[derive(Debug, Clone)]
pub struct RepoInfo {
    pub owner: String,
    pub repo: String,
}

/// Split at the first occurrence of `c`: the characters before it and the
/// characters after it, or None when `c` does not occur.
pub open spec fn spec_split_first(t: Seq<char>, c: char) -> Option<(Seq<char>, Seq<char>)>
    decreases t.len(),
{
    if t.len() == 0 {
        None
    } else if t[0] == c {
        Some((Seq::empty(), t.subrange(1, t.len() as int)))
    } else {
        match spec_split_first(t.subrange(1, t.len() as int), c) {
            Some(pair) => Some((seq![t[0]] + pair.0, pair.1)),
            None => None,
        }
    }
}

proof fn lemma_split_first_found(t: Seq<char>, c: char, i: int)
    requires
        0 <= i < t.len(),
        t[i] == c,
        forall|j: int| 0 <= j < i ==> t[j] != c,
    ensures
        spec_split_first(t, c) == Some((t.subrange(0, i), t.subrange(i + 1, t.len() as int))),
    decreases t.len(),
{
    if i == 0 {
        assert(t.subrange(0, 0) =~= Seq::<char>::empty());
    } else {
        let t1 = t.subrange(1, t.len() as int);
        lemma_split_first_found(t1, c, i - 1);
        assert(seq![t[0]] + t1.subrange(0, i - 1) =~= t.subrange(0, i));
        assert(t1.subrange(i, t1.len() as int) =~= t.subrange(i + 1, t.len() as int));
    }
}

proof fn lemma_split_first_none(t: Seq<char>, c: char)
    requires
        forall|j: int| 0 <= j < t.len() ==> t[j] != c,
    ensures
        spec_split_first(t, c) is None,
    decreases t.len(),
{
    if t.len() > 0 {
        lemma_split_first_none(t.subrange(1, t.len() as int), c);
    }
}

/// Split a string at the first occurrence of `c`.
fn split_first<'a>(t: &'a str, c: char) -> (r: Option<(&'a str, &'a str)>)
    ensures
        match r {
            Some(pair) => spec_split_first(t@, c) == Some((pair.0@, pair.1@)),
            None => spec_split_first(t@, c) is None,
        },
{
    let n = t.unicode_len();
    match find_char(t, c, 0) {
        Some(i) => {
            proof {
                lemma_split_first_found(t@, c, i as int);
            }
            Some((t.substring_char(0, i), t.substring_char(i + 1, n)))
        },
        None => {
            proof {
                lemma_split_first_none(t@, c);
            }
            None
        },
    }
}

/// A remote path cleaned for coordinate extraction: one trailing `.git`
/// suffix removed, then surrounding slashes removed.
pub open spec fn spec_clean_path(p: Seq<char>) -> Seq<char> {
    spec_trim_start_char(spec_trim_end_char(spec_strip_suffix_once(p, ".git"@), '/'), '/')
}

/// The owner and name taken from a cleaned path: the first two
/// slash-separated segments. None when the path has no slash at all; any
/// third segment is discarded.
pub open spec fn spec_extract_owner_repo(p: Seq<char>) -> Option<(Seq<char>, Seq<char>)> {
    let t = spec_clean_path(p);
    match spec_split_first(t, '/') {
        None => None,
        Some(pair) => Some(
            (
                pair.0,
                match spec_split_first(pair.1, '/') {
                    Some(pair2) => pair2.0,
                    None => pair.1,
                },
            ),
        ),
    }
}

/// The failure message for a path that holds fewer than two segments.
pub open spec fn spec_extract_err(p: Seq<char>) -> Seq<char> {
    "Cannot extract owner/repo from path: "@ + spec_clean_path(p)
}

/// Extract owner/repo from a path like `owner/repo.git` or `owner/repo`.
pub fn extract_owner_repo(path: &str) -> (r: Result<RepoInfo, GitxError>)
    ensures
        match r {
            Ok(info) => spec_extract_owner_repo(path@) == Some((info.owner@, info.repo@)),
            Err(e) => {
                &&& spec_extract_owner_repo(path@) is None
                &&& e matches GitxError::RepoResolution(m) && m@ == spec_extract_err(path@)
            },
        },
{
    let cleaned = trim_start_char(trim_end_char(strip_suffix_once(path, ".git"), '/'), '/');
    match split_first(cleaned, '/') {
        None => {
            let mut m = String::from_str("Cannot extract owner/repo from path: ");
            m.append(cleaned);
            Err(GitxError::RepoResolution(m))
        },
        Some((owner, rest)) => {
            let repo = match split_first(rest, '/') {
                Some((second, _)) => second,
                None => rest,
            };
            Ok(RepoInfo { owner: String::from_str(owner), repo: String::from_str(repo) })
        },
    }
}

/// The string a remote URL hands to coordinate extraction, by the first
/// matching form: the part after the colon of an SSH shorthand
/// `user@host:path`; the part after the first slash following `ssh://`;
/// the path component of an HTTP(S) URL with leading slashes removed; or
/// the whole (trimmed) string.
pub open spec fn spec_remote_path(u0: Seq<char>) -> Seq<char> {
    let u = spec_trim(u0);
    if spec_starts_with(u, "git@"@) && spec_split_first(
        u.subrange(4, u.len() as int),
        ':',
    ) is Some {
        spec_split_first(u.subrange(4, u.len() as int), ':')->Some_0.1
    } else if spec_starts_with(u, "ssh://"@) && spec_split_first(
        u.subrange(6, u.len() as int),
        '/',
    ) is Some {
        spec_split_first(u.subrange(6, u.len() as int), '/')->Some_0.1
    } else if (spec_starts_with(u, "http://"@) || spec_starts_with(u, "https://"@)) && url_path_of(
        u,
    ) is Some {
        spec_trim_start_char(url_path_of(u)->Some_0, '/')
    } else {
        u
    }
}

/// Parse a git remote URL into owner/repo.
pub fn parse_remote_url(url: &str) -> (r: Result<RepoInfo, GitxError>)
    ensures
        match r {
            Ok(info) => spec_extract_owner_repo(spec_remote_path(url@)) == Some(
                (info.owner@, info.repo@),
            ),
            Err(e) => {
                &&& spec_extract_owner_repo(spec_remote_path(url@)) is None
                &&& e matches GitxError::RepoResolution(m) && m@ == spec_extract_err(
                    spec_remote_path(url@),
                )
            },
        },
{
    let u = trim(url);
    let n = u.unicode_len();
    if crate::strutil::starts_with(u, "git@") {
        proof {
            reveal_strlit("git@");
        }
        let rest = u.substring_char(4, n);
        if let Some((_, path)) = split_first(rest, ':') {
            return extract_owner_repo(path);
        }
    }
    if crate::strutil::starts_with(u, "ssh://") {
        proof {
            reveal_strlit("ssh://");
        }
        let rest = u.substring_char(6, n);
        if let Some((_, path)) = split_first(rest, '/') {
            return extract_owner_repo(path);
        }
    }
    if crate::strutil::starts_with(u, "http://") || crate::strutil::starts_with(u, "https://") {
        if let Some(p) = url_path(u) {
            let path = trim_start_char(p.as_str(), '/');
            return extract_owner_repo(path);
        }
    }
    extract_owner_repo(u)
}

/// The `url` value of the `[remote "origin"]` section in git configuration
/// text: sections switch at headers, and the first `url = value` assignment
/// inside the origin section wins, whitespace around `=` tolerated.
pub open spec fn spec_scan_config(s: Seq<char>, in_origin: bool) -> Option<Seq<char>>
    decreases s.len(),
    when s.len() >= 0
    via spec_scan_config_dec
{
    if s.len() == 0 {
        None
    } else {
        let line = spec_before_char(s, '\n');
        let rest = if line.len() == s.len() {
            Seq::<char>::empty()
        } else {
            s.subrange(line.len() as int + 1, s.len() as int)
        };
        let t = spec_trim(line);
        if t.len() > 0 && t[0] == '[' {
            spec_scan_config(rest, t == "[remote \"origin\"]"@)
        } else {
            if in_origin && spec_line_url_value(t) is Some {
                spec_line_url_value(t)
            } else {
                spec_scan_config(rest, in_origin)
            }
        }
    }
}

/// The value of a `url = value` line, or None where the line is no such
/// assignment.
pub open spec fn spec_line_url_value(t: Seq<char>) -> Option<Seq<char>> {
    if spec_starts_with(t, "url"@) {
        let u2 = spec_trim_start(t.subrange(3, t.len() as int));
        if u2.len() > 0 && u2[0] == '=' {
            Some(spec_trim(u2.subrange(1, u2.len() as int)))
        } else {
            None
        }
    } else {
        None
    }
}

#[via_fn]
proof fn spec_scan_config_dec(s: Seq<char>, in_origin: bool) {
    lemma_before_char_len(s, '\n');
}

fn line_url_value(t: &str) -> (r: Option<String>)
    ensures
        match r {
            Some(v) => spec_line_url_value(t@) == Some(v@),
            None => spec_line_url_value(t@) is None,
        },
{
    let n = t.unicode_len();
    if crate::strutil::starts_with(t, "url") {
        proof {
            reveal_strlit("url");
        }
        let u2 = trim_start(t.substring_char(3, n));
        let m = u2.unicode_len();
        if m > 0 && u2.get_char(0) == '=' {
            Some(String::from_str(trim(u2.substring_char(1, m))))
        } else {
            None
        }
    } else {
        None
    }
}

fn scan_config(s: &str, in_origin: bool) -> (r: Option<String>)
    ensures
        match r {
            Some(v) => spec_scan_config(s@, in_origin) == Some(v@),
            None => spec_scan_config(s@, in_origin) is None,
        },
    decreases s@.len(),
{
    let n = s.unicode_len();
    if n == 0 {
        return None;
    }
    let (line, rest) = match find_char(s, '\n', 0) {
        Some(i) => {
            proof {
                lemma_before_char_at(s@, '\n', i as int);
            }
            (s.substring_char(0, i), s.substring_char(i + 1, n))
        },
        None => {
            proof {
                lemma_before_char_at(s@, '\n', s@.len() as int);
                assert(s@.subrange(0, s@.len() as int) =~= s@);
            }
            (s, "")
        },
    };
    proof {
        reveal_strlit("");
        assert(""@ =~= Seq::<char>::empty());
    }
    let t = trim(line);
    let tn = t.unicode_len();
    if tn > 0 && t.get_char(0) == '[' {
        scan_config(rest, str_eq(t, "[remote \"origin\"]"))
    } else {
        if in_origin {
            match line_url_value(t) {
                Some(v) => Some(v),
                None => scan_config(rest, in_origin),
            }
        } else {
            scan_config(rest, in_origin)
        }
    }
}

/// The failure message when no origin remote URL is present.
pub open spec fn spec_no_origin_err() -> Seq<char> {
    "No remote 'origin' URL found in .git/config"@
}

/// Resolve owner/repo from the text of a repository's `.git/config` file.
///
/// Scans for the `[remote "origin"]` section, takes its first `url`
/// assignment, and parses that URL into coordinates. Fails with a message
/// identifying the missing remote when no such assignment exists.
pub fn resolve_repo_config(content: &str) -> (r: Result<RepoInfo, GitxError>)
    ensures
        match spec_scan_config(content@, false) {
            Some(u) => match r {
                Ok(info) => spec_extract_owner_repo(spec_remote_path(u)) == Some(
                    (info.owner@, info.repo@),
                ),
                Err(e) => {
                    &&& spec_extract_owner_repo(spec_remote_path(u)) is None
                    &&& e matches GitxError::RepoResolution(m) && m@ == spec_extract_err(
                        spec_remote_path(u),
                    )
                },
            },
            None => r matches Err(GitxError::RepoResolution(m)) && m@ == spec_no_origin_err(),
        },
{
    match scan_config(content, false) {
        Some(u) => parse_remote_url(u.as_str()),
        None => Err(
            GitxError::RepoResolution(
                String::from_str("No remote 'origin' URL found in .git/config"),
            ),
        ),
    }
}

} // verus!
