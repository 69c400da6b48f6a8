//! The address at which a branch can be proposed for merging.
use vstd::prelude::*;
use crate::reconcile::local_branch_name;
use crate::text::{find, occurs_at, same_text, text_view};
use crate::trusted::git::{find_remote, reference_shorthand, remote_url, repo_head};
use crate::trusted::url::{
    address_host,
    azure_repository,
    generic_repository,
    gitlab_repository,
    parse_azure,
    parse_generic,
    parse_gitlab,
    parse_host,
};

verus! {

/// The forge behind a host name.
#[derive(Debug, Clone, Copy, PartialEq, Eq, Structural)]
pub enum Forge {
    GitHub,
    GitLab,
    Bitbucket,
    /// Any other host; it is taken to speak GitHub's address scheme.
    Other,
}

/// The view of a parsed host.
pub open spec fn host_view(host: Option<Option<String>>) -> Option<Option<Seq<char>>> {
    match host {
        Some(h) => Some(text_view(h)),
        None => None,
    }
}

/// The view of an optional pair of texts.
pub open spec fn pair_view(pair: Option<(String, String)>) -> Option<(Seq<char>, Seq<char>)> {
    match pair {
        Some((a, b)) => Some((a@, b@)),
        None => None,
    }
}

/// Whether an address has `ssh` in it somewhere before a `://`. The parser
/// takes such a scheme for the ssh form and cuts the first character off the
/// path without looking whether there is one.
pub open spec fn names_ssh_scheme(url: Seq<char>) -> bool {
    exists|j: int, i: int|
        occurs_at(url, "ssh"@, j) && occurs_at(url, "://"@, i) && j + 3
            <= i
}

/// Whether a character is an ASCII letter.
pub open spec fn is_letter(c: char) -> bool {
    ('a' <= c && c <= 'z') || ('A' <= c && c <= 'Z')
}

/// Whether a character is an ASCII digit.
pub open spec fn is_digit(c: char) -> bool {
    '0' <= c && c <= '9'
}

/// Whether a character can stand in a scheme.
pub open spec fn is_scheme_char(c: char) -> bool {
    is_letter(c) || is_digit(c) || c == '+' || c == '-' || c == '.'
}

/// Whether a character can stand in a plain user or host name.
pub open spec fn is_name_char(c: char) -> bool {
    is_letter(c) || is_digit(c) || c == '-' || c == '.' || c == '_' || c == '~'
}

/// Where the run of scheme characters that starts at `from` ends.
pub open spec fn scheme_end(url: Seq<char>, from: int) -> int
    decreases url.len() - from,
{
    if 0 <= from < url.len() && is_scheme_char(url[from]) {
        scheme_end(url, from + 1)
    } else {
        from
    }
}

/// Where the run of name characters that starts at `from` ends.
pub open spec fn name_end(url: Seq<char>, from: int) -> int
    decreases url.len() - from,
{
    if 0 <= from < url.len() && is_name_char(url[from]) {
        name_end(url, from + 1)
    } else {
        from
    }
}

/// Whether an address has the plain form `scheme://host/...`, with or
/// without `user@` before the host and `:word` after it: the scheme starts
/// with a letter; user, host and word are made of letters, digits, `-`, `.`,
/// `_` and `~` and are not empty; the host starts with a letter or a digit;
/// a `/` follows the host, or the word where there is one. The word is a
/// port, or the first part of a path written with a colon. What follows the
/// `/` is free.
pub open spec fn plain_ssh_address(url: Seq<char>) -> bool {
    let s = scheme_end(url, 0);
    let k = name_end(url, s + 3);
    let with_user = s + 3 < k && k < url.len() && url[k] == '@';
    let host = if with_user {
        k + 1
    } else {
        s + 3
    };
    let end = if with_user {
        name_end(url, k + 1)
    } else {
        k
    };
    let word_end = name_end(url, end + 1);
    &&& 0 < s && is_letter(url[0])
    &&& s + 3 <= url.len() && url[s] == ':' && url[s + 1] == '/' && url[s + 2] == '/'
    &&& host < end && end < url.len()
    &&& is_letter(url[host]) || is_digit(url[host])
    &&& url[end] == '/' || (url[end] == ':' && end + 1 < word_end && word_end < url.len()
        && url[word_end] == '/')
}

/// Whether the parser is handed an address: every address without an ssh
/// scheme, and those with one that have the plain form. Of the others the
/// parser cuts a path that may be empty.
pub open spec fn parser_takes(url: Seq<char>) -> bool {
    !names_ssh_scheme(url) || plain_ssh_address(url)
}

/// The forge that serves a host.
pub open spec fn forge_of(host: Seq<char>) -> Forge {
    if host == "github.com"@ {
        Forge::GitHub
    } else if host == "gitlab.com"@ {
        Forge::GitLab
    } else if host == "bitbucket.org"@ {
        Forge::Bitbucket
    } else {
        Forge::Other
    }
}

/// The page on which `branch` of the repository at `path` is proposed.
pub open spec fn proposal_url(forge: Forge, host: Seq<char>, path: Seq<char>, branch: Seq<char>) -> Seq<
    char,
> {
    match forge {
        Forge::GitHub => "https://github.com/"@ + path + "/compare/"@ + branch + "?expand=1"@,
        Forge::GitLab => "https://gitlab.com/"@ + path
            + "/-/merge_requests/new?merge_request[source_branch]="@ + branch,
        Forge::Bitbucket => "https://bitbucket.org/"@ + path + "/pull-requests/new?source="@
            + branch,
        Forge::Other => "https://"@ + host + "/"@ + path + "/pull/new/"@ + branch,
    }
}

/// Owner and repository as one path.
pub open spec fn joined(pair: (Seq<char>, Seq<char>)) -> Seq<char> {
    pair.0 + "/"@ + pair.1
}

/// The repository path a forge reads from an address, if it can read one.
pub open spec fn repository_path(forge: Forge, url: Seq<char>) -> Option<Seq<char>> {
    match forge {
        Forge::GitHub => match generic_repository(url) {
            Some(pair) => Some(joined(pair)),
            None => None,
        },
        Forge::GitLab => match gitlab_repository(url) {
            Some(pair) => Some(joined(pair)),
            None => None,
        },
        Forge::Bitbucket => azure_repository(url),
        Forge::Other => match generic_repository(url) {
            Some(pair) => Some(joined(pair)),
            None => None,
        },
    }
}

/// The host an address is taken to name: the empty text where it names none.
pub open spec fn host_or_empty(host: Option<Seq<char>>) -> Seq<char> {
    match host {
        Some(h) => h,
        None => Seq::empty(),
    }
}

/// The proposal page for `branch` at the remote address `url`: none where
/// the address is not handed to the parser, does not parse, or has no
/// repository path in the form its forge expects.
pub open spec fn link_of(url: Seq<char>, branch: Seq<char>) -> Option<Seq<char>> {
    if !parser_takes(url) {
        None
    } else {
        match address_host(url) {
            None => None,
            Some(host) => {
                let host = host_or_empty(host);
                match repository_path(forge_of(host), url) {
                    Some(path) => Some(proposal_url(forge_of(host), host, path, branch)),
                    None => None,
                }
            },
        }
    }
}

/// Tells the forge from the host name.
pub fn forge_for(host: &str) -> (forge: Forge)
    ensures
        forge == forge_of(host@),
{
    if same_text(host, "github.com") {
        Forge::GitHub
    } else if same_text(host, "gitlab.com") {
        Forge::GitLab
    } else if same_text(host, "bitbucket.org") {
        Forge::Bitbucket
    } else {
        Forge::Other
    }
}

/// Builds the proposal page; see [`proposal_url`].
pub fn make_proposal_url(forge: Forge, host: &str, path: &str, branch: &str) -> (url: String)
    ensures
        url@ == proposal_url(forge, host@, path@, branch@),
{
    match forge {
        Forge::GitHub => {
            let mut url = String::from_str("https://github.com/");
            url.append(path);
            url.append("/compare/");
            url.append(branch);
            url.append("?expand=1");
            url
        },
        Forge::GitLab => {
            let mut url = String::from_str("https://gitlab.com/");
            url.append(path);
            url.append("/-/merge_requests/new?merge_request[source_branch]=");
            url.append(branch);
            url
        },
        Forge::Bitbucket => {
            let mut url = String::from_str("https://bitbucket.org/");
            url.append(path);
            url.append("/pull-requests/new?source=");
            url.append(branch);
            url
        },
        Forge::Other => {
            let mut url = String::from_str("https://");
            url.append(host);
            url.append("/");
            url.append(path);
            url.append("/pull/new/");
            url.append(branch);
            url
        },
    }
}

/// Whether an address has `ssh` somewhere before a `://`.
pub fn has_ssh_scheme(url: &str) -> (r: bool)
    ensures
        r == names_ssh_scheme(url@),
{
    let n = url.unicode_len();
    match find(url, "ssh") {
        None => {
            assert(!names_ssh_scheme(url@)) by {
                if names_ssh_scheme(url@) {
                    let (j, i) = choose|j: int, i: int|
                        occurs_at(url@, "ssh"@, j) && occurs_at(url@, "://"@, i) && j + 3 <= i;
                    assert(occurs_at(url@, "ssh"@, j));
                }
            }
            false
        },
        Some(j) => {
            proof {
                reveal_strlit("ssh");
                reveal_strlit("://");
            }
            let rest = url.substring_char(j + 3, n);
            match find(rest, "://") {
                Some(p) => {
                    proof {
                        assert(rest@.subrange(p as int, p + 3) =~= url@.subrange(
                            j + 3 + p,
                            j + 3 + p + 3,
                        ));
                        assert(occurs_at(url@, "://"@, j + 3 + p));
                    }
                    true
                },
                None => {
                    assert(!names_ssh_scheme(url@)) by {
                        if names_ssh_scheme(url@) {
                            let (j2, i) = choose|j2: int, i: int|
                                occurs_at(url@, "ssh"@, j2) && occurs_at(url@, "://"@, i) && j2
                                    + 3 <= i;
                            assert(j <= j2);
                            assert(rest@.subrange(i - (j + 3), i - (j + 3) + 3) =~= url@.subrange(
                                i,
                                i + 3,
                            ));
                            assert(occurs_at(rest@, "://"@, i - (j + 3)));
                        }
                    }
                    false
                },
            }
        },
    }
}

/// The proposal page for `branch` from what the parser read of an address.
///
/// `host` is the parsed host, and `path` the repository path in the form of
/// the host's forge; the page is the one of [`proposal_url`], and there is
/// none without a path.
pub fn compose_link(host: &Option<String>, path: Option<String>, branch: &str) -> (link: Option<
    String,
>)
    ensures
        text_view(link) == match path {
            Some(p) => Some(
                proposal_url(
                    forge_of(host_or_empty(text_view(*host))),
                    host_or_empty(text_view(*host)),
                    p@,
                    branch@,
                ),
            ),
            None => None,
        },
{
    let host_name = match host {
        Some(h) => h.clone(),
        None => String::new(),
    };
    match path {
        Some(p) => Some(
            make_proposal_url(
                forge_for(host_name.as_str()),
                host_name.as_str(),
                p.as_str(),
                branch,
            ),
        ),
        None => None,
    }
}

fn join_pair(pair: Option<(String, String)>) -> (path: Option<String>)
    ensures
        text_view(path) == match pair_view(pair) {
            Some(p) => Some(joined(p)),
            None => None,
        },
{
    match pair {
        Some((owner, repo)) => {
            let mut path = owner;
            path.append("/");
            path.append(repo.as_str());
            Some(path)
        },
        None => None,
    }
}

fn is_letter_char(c: char) -> (r: bool)
    ensures
        r == is_letter(c),
{
    ('a' <= c && c <= 'z') || ('A' <= c && c <= 'Z')
}

fn is_digit_char(c: char) -> (r: bool)
    ensures
        r == is_digit(c),
{
    '0' <= c && c <= '9'
}

fn scan_scheme(url: &str, from: usize, len: usize) -> (end: usize)
    requires
        from <= len,
        len == url@.len(),
    ensures
        end == scheme_end(url@, from as int),
        from <= end <= len,
{
    let mut i = from;
    while i < len
        invariant
            from <= i <= len,
            len == url@.len(),
            scheme_end(url@, from as int) == scheme_end(url@, i as int),
        decreases len - i,
    {
        let c = url.get_char(i);
        if !(is_letter_char(c) || is_digit_char(c) || c == '+' || c == '-' || c == '.') {
            return i;
        }
        i += 1;
    }
    i
}

fn scan_name(url: &str, from: usize, len: usize) -> (end: usize)
    requires
        from <= len,
        len == url@.len(),
    ensures
        end == name_end(url@, from as int),
        from <= end <= len,
{
    let mut i = from;
    while i < len
        invariant
            from <= i <= len,
            len == url@.len(),
            name_end(url@, from as int) == name_end(url@, i as int),
        decreases len - i,
    {
        let c = url.get_char(i);
        if !(is_letter_char(c) || is_digit_char(c) || c == '-' || c == '.' || c == '_' || c == '~') {
            return i;
        }
        i += 1;
    }
    i
}

/// Whether an address has the plain form; see [`plain_ssh_address`].
pub fn is_plain_ssh_address(url: &str) -> (r: bool)
    ensures
        r == plain_ssh_address(url@),
{
    let len = url.unicode_len();
    let s = scan_scheme(url, 0, len);
    if s == 0 || !is_letter_char(url.get_char(0)) {
        return false;
    }
    if len - s < 3 {
        return false;
    }
    if url.get_char(s) != ':' || url.get_char(s + 1) != '/' || url.get_char(s + 2) != '/' {
        return false;
    }
    let k = scan_name(url, s + 3, len);
    let with_user = s + 3 < k && k < len && url.get_char(k) == '@';
    let host = if with_user {
        k + 1
    } else {
        s + 3
    };
    let end = if with_user {
        scan_name(url, k + 1, len)
    } else {
        k
    };
    if !(host < end && end < len) {
        return false;
    }
    let first = url.get_char(host);
    if !(is_letter_char(first) || is_digit_char(first)) {
        return false;
    }
    let after = url.get_char(end);
    if after == '/' {
        return true;
    }
    if after != ':' {
        return false;
    }
    let word_end = scan_name(url, end + 1, len);
    end + 1 < word_end && word_end < len && url.get_char(word_end) == '/'
}

/// Whether the parser is handed an address; see [`parser_takes`].
pub fn takes_address(url: &str) -> (r: bool)
    ensures
        r == parser_takes(url@),
{
    !has_ssh_scheme(url) || is_plain_ssh_address(url)
}

/// The proposal page for `branch` at a remote address; see [`link_of`].
pub fn link_for(url: &str, branch: &str) -> (link: Option<String>)
    ensures
        text_view(link) == link_of(url@, branch@),
{
    if !takes_address(url) {
        return None;
    }
    let host = match parse_host(url) {
        Some(host) => host,
        None => {
            return None;
        },
    };
    let host_name = match &host {
        Some(h) => h.clone(),
        None => String::new(),
    };
    let path = match forge_for(host_name.as_str()) {
        Forge::GitHub => join_pair(parse_generic(url)),
        Forge::GitLab => join_pair(parse_gitlab(url)),
        Forge::Bitbucket => parse_azure(url),
        Forge::Other => join_pair(parse_generic(url)),
    };
    compose_link(&host, path, branch)
}

/// The page on which the current branch can be proposed for merging into the
/// repository behind `origin`.
///
/// There is none without a HEAD, without a remote `origin`, or where the
/// remote's address cannot be read; else it is what [`link_for`] gives for the
/// address and the current branch, `main` where the branch has no readable
/// name.
pub fn get_pr_link(repo: &git2::Repository) -> (link: Option<String>)
    ensures
        link matches Some(page) ==> exists|url: Seq<char>, branch: Seq<char>|
            #[trigger] link_of(url, branch) == Some(page@),
{
    let head = match repo_head(repo) {
        Ok(head) => head,
        Err(_) => {
            return None;
        },
    };
    let branch = local_branch_name(reference_shorthand(&head));
    let remote = match find_remote(repo, "origin") {
        Ok(remote) => remote,
        Err(_) => {
            return None;
        },
    };
    let url = match remote_url(&remote) {
        Some(url) => url,
        None => {
            return None;
        },
    };
    let link = link_for(url.as_str(), branch.as_str());
    assert(link_of(url@, branch@) == text_view(link));
    link
}

} // verus!
