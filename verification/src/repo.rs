//! Repository identity: who hosts it, and under which owner and name.

use vstd::prelude::*;

use crate::text::{find_from, has_prefix, str_to_chars, string_from_chars, subvec};

verus! {

/// Where a repository lives, as far as its remote reveals it.
pub struct RepoInfo {
    /// Owner (user or organisation) part of the remote path.
    pub owner: String,
    /// Repository name part of the remote path.
    pub name: String,
    /// The remote points at github.com.
    pub is_github_repo: bool,
    /// The remote points at gitlab.com.
    pub is_gitlab_repo: bool,
    /// The remote points at bitbucket.org.
    pub is_bitbucket_repo: bool,
}

/// Model of a [`RepoInfo`].
pub ghost struct RepoInfoView {
    /// Owner part.
    pub owner: Seq<char>,
    /// Name part.
    pub name: Seq<char>,
    /// Hosted on github.com.
    pub is_github_repo: bool,
    /// Hosted on gitlab.com.
    pub is_gitlab_repo: bool,
    /// Hosted on bitbucket.org.
    pub is_bitbucket_repo: bool,
}

impl View for RepoInfo {
    type V = RepoInfoView;

    open spec fn view(&self) -> RepoInfoView {
        RepoInfoView {
            owner: self.owner@,
            name: self.name@,
            is_github_repo: self.is_github_repo,
            is_gitlab_repo: self.is_gitlab_repo,
            is_bitbucket_repo: self.is_bitbucket_repo,
        }
    }
}

impl RepoInfo {
    /// An empty identity: no owner, no name, no recognized host.
    pub fn new() -> (r: RepoInfo)
        ensures
            r@ == (RepoInfoView {
                owner: Seq::<char>::empty(),
                name: Seq::<char>::empty(),
                is_github_repo: false,
                is_gitlab_repo: false,
                is_bitbucket_repo: false,
            }),
    {
        let r = RepoInfo {
            owner: String::new(),
            name: String::new(),
            is_github_repo: false,
            is_gitlab_repo: false,
            is_bitbucket_repo: false,
        };
        assert(r@.owner =~= Seq::<char>::empty());
        assert(r@.name =~= Seq::<char>::empty());
        r
    }
}

/// `p` ends `s`.
pub open spec fn has_suffix(s: Seq<char>, p: Seq<char>) -> bool {
    p.len() <= s.len() && s.subrange(s.len() - p.len(), s.len() as int) == p
}

/// `s` with every trailing `".git"` removed.
pub open spec fn trim_dot_git(s: Seq<char>) -> Seq<char>
    decreases s.len(),
{
    if has_suffix(s, ".git"@) && s.len() >= 4 {
        trim_dot_git(s.subrange(0, s.len() - 4))
    } else {
        s
    }
}

/// `s` with every leading `'/'` removed.
pub open spec fn trim_leading_slashes(s: Seq<char>) -> Seq<char>
    decreases s.len(),
{
    if s.len() > 0 && s[0] == '/' {
        trim_leading_slashes(s.drop_first())
    } else {
        s
    }
}

/// The owner and name read from a host path: the first two
/// slash-separated parts, provided a slash exists at all.
pub open spec fn owner_name_of_path(path: Seq<char>) -> Option<(Seq<char>, Seq<char>)> {
    let d1 = find_from(path, '/', 0);
    if d1 < path.len() {
        let d2 = find_from(path, '/', d1 + 1);
        Some((path.subrange(0, d1), path.subrange(d1 + 1, d2)))
    } else {
        None
    }
}

/// What an SSH-shaped remote (`git@host:owner/name`) yields: the host
/// between the first `'@'` and the following `':'`, and owner and name from
/// the path behind the first `':'`, its `".git"` endings removed.  `None`
/// when the remote is not SSH-shaped or its path has no slash.
pub open spec fn ssh_repo_info(s: Seq<char>) -> Option<(Seq<char>, Seq<char>, Seq<char>)> {
    if has_prefix(s, "git@"@) && find_from(s, ':', 0) < s.len() {
        let a1 = find_from(s, '@', 0);
        let a2 = find_from(s, '@', a1 + 1);
        let piece = s.subrange(a1 + 1, a2);
        let host = piece.subrange(0, find_from(piece, ':', 0));
        let c1 = find_from(s, ':', 0);
        let c2 = find_from(s, ':', c1 + 1);
        let path = trim_dot_git(s.subrange(c1 + 1, c2));
        match owner_name_of_path(path) {
            Some((owner, name)) => Some((host, owner, name)),
            None => None,
        }
    } else {
        None
    }
}

/// What `url::Url::parse` reads out of a string: its host and path texts,
/// `None` when the string is no URL or has no host.  The result is a
/// function of the characters alone.
pub uninterp spec fn url_parts_of(s: Seq<char>) -> Option<(Seq<char>, Seq<char>)>;

/// Relies on `url::Url::parse`, `Url::host_str` and `Url::path`: what they
/// yield depends on the input text alone.
#[verifier::external_body]
fn url_host_path(s: &str) -> (r: Option<(String, String)>)
    ensures
        match r {
            Some((h, p)) => url_parts_of(s@) == Some((h@, p@)),
            None => url_parts_of(s@) is None,
        },
{
    url::Url::parse(s).ok().and_then(
        |u| u.host_str().map(|h| (h.to_string(), u.path().to_string())),
    )
}

/// What a URL-shaped remote yields: the parsed host, and owner and name
/// from the parsed path with leading slashes and `".git"` endings removed.
pub open spec fn url_repo_info(s: Seq<char>) -> Option<(Seq<char>, Seq<char>, Seq<char>)> {
    match url_parts_of(s) {
        Some((host, path0)) => {
            let path = trim_dot_git(trim_leading_slashes(path0));
            match owner_name_of_path(path) {
                Some((owner, name)) => Some((host, owner, name)),
                None => None,
            }
        },
        None => None,
    }
}

/// What [`extract_repo_info`] yields: the SSH reading where it applies,
/// else the URL reading.
pub open spec fn repo_info_spec(s: Seq<char>) -> Option<(Seq<char>, Seq<char>, Seq<char>)> {
    match ssh_repo_info(s) {
        Some(t) => Some(t),
        None => url_repo_info(s),
    }
}

/// Removes every trailing `".git"` of `v`; see [`trim_dot_git`].
fn trim_dot_git_chars(v: &Vec<char>) -> (r: Vec<char>)
    ensures
        r@ == trim_dot_git(v@),
{
    let mut end = v.len();
    proof {
        assert(v@.subrange(0, v@.len() as int) =~= v@);
    }
    loop
        invariant
            0 <= end <= v@.len(),
            trim_dot_git(v@) == trim_dot_git(v@.subrange(0, end as int)),
        decreases end,
    {
        let mut matched = false;
        if end >= 4 {
            let tail = subvec(v, end - 4, end);
            matched = crate::text::starts_with_str(&tail, ".git");
            proof {
                reveal_strlit(".git");
                let cur = v@.subrange(0, end as int);
                assert(cur.subrange(cur.len() - 4, cur.len() as int) =~= tail@);
                assert(tail@.subrange(0, 4) =~= tail@);
                if matched {
                    assert(has_suffix(cur, ".git"@));
                } else {
                    assert(!has_suffix(cur, ".git"@));
                }
            }
        }
        if matched {
            proof {
                let cur = v@.subrange(0, end as int);
                assert(cur.subrange(0, cur.len() - 4) =~= v@.subrange(0, end - 4));
            }
            end -= 4;
        } else {
            proof {
                reveal_strlit(".git");
                let cur = v@.subrange(0, end as int);
                if end < 4 {
                    assert(!has_suffix(cur, ".git"@));
                }
                assert(trim_dot_git(cur) == cur);
            }
            return subvec(v, 0, end);
        }
    }
}

/// Reads host, owner and name out of a remote URL, SSH-shaped remotes
/// first; see [`repo_info_spec`].
pub fn extract_repo_info(remote_url: &str) -> (r: Option<(String, String, String)>)
    ensures
        match r {
            Some((h, o, n)) => repo_info_spec(remote_url@) == Some((h@, o@, n@)),
            None => repo_info_spec(remote_url@) is None,
        },
{
    let chars = str_to_chars(remote_url);
    let colon = crate::text::find_char_from(&chars, ':', 0);
    if crate::text::starts_with_str(&chars, "git@") && colon < chars.len() {
        proof {
            reveal_strlit("git@");
            assert(chars@.subrange(0, 4)[3] == '@');
            crate::text::lemma_find_from_found(chars@, '@', 0, 3);
        }
        let a1 = crate::text::find_char_from(&chars, '@', 0);
        let a2 = crate::text::find_char_from(&chars, '@', a1 + 1);
        let piece = subvec(&chars, a1 + 1, a2);
        let hcolon = crate::text::find_char_from(&piece, ':', 0);
        let host = subvec(&piece, 0, hcolon);
        let c2 = crate::text::find_char_from(&chars, ':', colon + 1);
        let rawpath = subvec(&chars, colon + 1, c2);
        let path = trim_dot_git_chars(&rawpath);
        let d1 = crate::text::find_char_from(&path, '/', 0);
        if d1 < path.len() {
            let d2 = crate::text::find_char_from(&path, '/', d1 + 1);
            let owner = subvec(&path, 0, d1);
            let name = subvec(&path, d1 + 1, d2);
            return Some(
                (string_from_chars(&host), string_from_chars(&owner), string_from_chars(&name)),
            );
        }
    }
    match url_host_path(remote_url) {
        Some((host, path0)) => {
            let pchars = str_to_chars(path0.as_str());
            proof {
                assert(pchars@.subrange(0, pchars@.len() as int) =~= pchars@);
            }
            let mut k: usize = 0;
            while k < pchars.len() && pchars[k] == '/'
                invariant
                    0 <= k <= pchars@.len(),
                    trim_leading_slashes(pchars@) == trim_leading_slashes(
                        pchars@.subrange(k as int, pchars@.len() as int),
                    ),
                decreases pchars@.len() - k,
            {
                proof {
                    let cur = pchars@.subrange(k as int, pchars@.len() as int);
                    assert(cur.drop_first() =~= pchars@.subrange(
                        k + 1 as int,
                        pchars@.len() as int,
                    ));
                }
                k += 1;
            }
            let noslash = subvec(&pchars, k, pchars.len());
            proof {
                let cur = pchars@.subrange(k as int, pchars@.len() as int);
                if (k as int) < pchars@.len() {
                    assert(cur[0] == pchars@[k as int]);
                }
                assert(trim_leading_slashes(cur) == cur);
            }
            let path = trim_dot_git_chars(&noslash);
            let d1 = crate::text::find_char_from(&path, '/', 0);
            if d1 < path.len() {
                let d2 = crate::text::find_char_from(&path, '/', d1 + 1);
                let owner = subvec(&path, 0, d1);
                let name = subvec(&path, d1 + 1, d2);
                Some((host, string_from_chars(&owner), string_from_chars(&name)))
            } else {
                None
            }
        }
        None => None,
    }
}

/// The github.com host text.
pub open spec fn github_host() -> Seq<char> {
    "github.com"@
}

/// The gitlab.com host text.
pub open spec fn gitlab_host() -> Seq<char> {
    "gitlab.com"@
}

/// The bitbucket.org host text.
pub open spec fn bitbucket_host() -> Seq<char> {
    "bitbucket.org"@
}

/// The identity a remote URL yields.
///
/// When the URL reads as `(host, owner, name)`, the identity carries that
/// owner and name, and exactly one host flag is set when the host is a
/// recognized one, tested in the order github.com, gitlab.com,
/// bitbucket.org; a URL that yields nothing gives the empty identity.
pub fn repo_info_of_url(url: &str) -> (r: RepoInfo)
    ensures
        match repo_info_spec(url@) {
            Some((h, o, n)) => {
                &&& r@.owner == o
                &&& r@.name == n
                &&& r@.is_github_repo == (h == github_host())
                &&& r@.is_gitlab_repo == (h != github_host() && h == gitlab_host())
                &&& r@.is_bitbucket_repo == (h != github_host() && h != gitlab_host() && h
                    == bitbucket_host())
            },
            None => r@ == (RepoInfoView {
                owner: Seq::<char>::empty(),
                name: Seq::<char>::empty(),
                is_github_repo: false,
                is_gitlab_repo: false,
                is_bitbucket_repo: false,
            }),
        },
{
    match extract_repo_info(url) {
        Some((host, owner, name)) => {
            let github = host.eq(&String::from_str("github.com"));
            let gitlab = !github && host.eq(&String::from_str("gitlab.com"));
            let bitbucket = !github && !gitlab && host.eq(&String::from_str("bitbucket.org"));
            RepoInfo {
                owner,
                name,
                is_github_repo: github,
                is_gitlab_repo: gitlab,
                is_bitbucket_repo: bitbucket,
            }
        }
        None => RepoInfo::new(),
    }
}

/// Reads owner and name out of a remote URL when, and only when, its host
/// is github.com.
pub fn is_github_repo(remote_url: &str) -> (r: Option<(String, String)>)
    ensures
        match r {
            Some((o, n)) => repo_info_spec(remote_url@) matches Some((h, os, ns)) && h
                == github_host() && os == o@ && ns == n@,
            None => !(repo_info_spec(remote_url@) matches Some((h, _o, _n)) && h
                == github_host()),
        },
{
    match extract_repo_info(remote_url) {
        Some((host, owner, name)) => {
            let gh = String::from_str("github.com");
            if host.eq(&gh) {
                Some((owner, name))
            } else {
                None
            }
        }
        None => None,
    }
}

} // verus!
