//! The repository on GitHub: its identity, the requests for its files and
//! what the contents API answers.

use crate::codec::{
    base64_decode, base64_decoded, decode_error_text, string_from_utf8, strip_line_breaks,
    utf8_error_text, without_line_breaks,
};
use crate::error::{MonitorError, Result};
use crate::text::{
    chars_of, ends_with, find_char, find_char_from, lemma_find_char_bounds, starts_with,
    trim_bounds, trimmed,
};
use vstd::prelude::*;
use vstd::slice::slice_subrange;
use vstd::utf8::*;

verus! {

/// What is left of a trimmed URL behind the part that names GitHub; `None`
/// where the URL has none of the three supported forms.
pub open spec fn repository_path(url: Seq<char>) -> Option<Seq<char>> {
    if "git@github.com:"@.is_prefix_of(url) {
        Some(url.subrange("git@github.com:"@.len() as int, url.len() as int))
    } else if "https://github.com/"@.is_prefix_of(url) {
        Some(url.subrange("https://github.com/"@.len() as int, url.len() as int))
    } else if "http://github.com/"@.is_prefix_of(url) {
        Some(url.subrange("http://github.com/"@.len() as int, url.len() as int))
    } else {
        None
    }
}

/// `path` without one trailing `.git`.
pub open spec fn without_git_suffix(path: Seq<char>) -> Seq<char> {
    if ".git"@.is_suffix_of(path) {
        path.subrange(0, path.len() - ".git"@.len())
    } else {
        path
    }
}

/// The two parts of a path that holds exactly one `/`.
pub open spec fn owner_and_name(path: Seq<char>) -> Option<(Seq<char>, Seq<char>)> {
    let i = find_char(path, '/', 0);
    if i < path.len() && find_char(path, '/', i + 1) == path.len() {
        Some((path.subrange(0, i), path.subrange(i + 1, path.len() as int)))
    } else {
        None
    }
}

/// The path of a repository: owner, `/`, name.
pub open spec fn repository_path_of(owner: Seq<char>, name: Seq<char>) -> Seq<char> {
    owner + seq!['/'] + name
}

/// A path has an owner and a name exactly where it is an owner, a `/` and a
/// name, neither of which holds a `/`; and these are the two.
pub proof fn lemma_owner_and_name(path: Seq<char>)
    ensures
        match owner_and_name(path) {
            Some((owner, name)) => {
                &&& path == repository_path_of(owner, name)
                &&& !owner.contains('/')
                &&& !name.contains('/')
            },
            None => forall|owner: Seq<char>, name: Seq<char>|
                !owner.contains('/') && !name.contains('/') ==> path != #[trigger] repository_path_of(
                    owner,
                    name,
                ),
        },
{
    let i = find_char(path, '/', 0);
    lemma_find_char_bounds(path, '/', 0);
    if i < path.len() {
        lemma_find_char_bounds(path, '/', i + 1);
    } else {
        assert forall|owner: Seq<char>, name: Seq<char>|
            !owner.contains('/') && !name.contains('/') implies path
            != #[trigger] repository_path_of(owner, name) by {
            let whole = repository_path_of(owner, name);
            if path == whole {
                assert(whole[owner.len() as int] == '/');
            }
        }
    }
}

/// Owner and name of the repository that `url` points to, or the reason why
/// the URL is refused.
pub open spec fn parsed_repository_url(url: Seq<char>) -> core::result::Result<
    (Seq<char>, Seq<char>),
    Seq<char>,
> {
    let url = trimmed(url);
    match repository_path(url) {
        None => Err("Unsupported repository URL format: "@ + url),
        Some(path) => match owner_and_name(without_git_suffix(path)) {
            Some(pair) => Ok(pair),
            None => Err("Invalid repository URL format: "@ + url),
        },
    }
}

/// The address of a file in the contents API.
pub open spec fn contents_url_text(owner: Seq<char>, repo: Seq<char>, file_path: Seq<char>) -> Seq<
    char,
> {
    "https://api.github.com/repos/"@ + owner + "/"@ + repo + "/contents/"@ + file_path
}

/// The message for a request that the API answered with a failure status.
pub open spec fn fetch_failure_text(
    file_path: Seq<char>,
    status: Seq<char>,
    body: Seq<char>,
) -> Seq<char> {
    "Failed to fetch file '"@ + file_path + "': "@ + status + " - "@ + body
}

/// The outcome of fetching files one after the other: the first failure,
/// or each path with its content.
pub open spec fn collected(
    paths: Seq<String>,
    fetched: Seq<Result<String>>,
    n: int,
) -> core::result::Result<Seq<(String, String)>, MonitorError>
    decreases n,
{
    if n <= 0 {
        Ok(Seq::empty())
    } else {
        match collected(paths, fetched, n - 1) {
            Err(e) => Err(e),
            Ok(done) => match fetched[n - 1] {
                Err(e) => Err(e),
                Ok(content) => Ok(done.push((paths[n - 1], content))),
            },
        }
    }
}

/// How many paths have an outcome.
pub open spec fn paired_count(paths: Seq<String>, fetched: Seq<Result<String>>) -> int {
    if paths.len() <= fetched.len() {
        paths.len() as int
    } else {
        fetched.len() as int
    }
}

/// A failure among the first `i` outcomes is the failure of any longer run.
pub proof fn lemma_collected_failure(
    paths: Seq<String>,
    fetched: Seq<Result<String>>,
    i: int,
    n: int,
)
    requires
        0 <= i <= n,
        collected(paths, fetched, i) is Err,
    ensures
        collected(paths, fetched, n) == collected(paths, fetched, i),
    decreases n - i,
{
    if i < n {
        lemma_collected_failure(paths, fetched, i + 1, n);
    }
}

/// A file as the contents API describes it.
#[derive(Debug, Clone, PartialEq, Eq)]
pub struct GitHubFileResponse {
    pub content: String,
    pub encoding: String,
}

/// The identity of the tracked repository and the token to read it with.
pub struct GitHubClient {
    api_token: String,
    repository_url: String,
    owner: String,
    repo: String,
}

impl GitHubClient {
    /// The token that requests are made with.
    pub closed spec fn token_text(&self) -> Seq<char> {
        self.api_token@
    }

    /// The URL that the client was made for.
    pub closed spec fn url_text(&self) -> Seq<char> {
        self.repository_url@
    }

    /// The repository owner's name.
    pub closed spec fn owner_text(&self) -> Seq<char> {
        self.owner@
    }

    /// The repository's name.
    pub closed spec fn repo_text(&self) -> Seq<char> {
        self.repo@
    }

    /// A client for the repository at `repository_url`.
    pub fn new(api_token: String, repository_url: String) -> (r: Result<Self>)
        ensures
            match r {
                Ok(client) => {
                    &&& parsed_repository_url(repository_url@) == Ok::<_, Seq<char>>(
                        (client.owner_text(), client.repo_text()),
                    )
                    &&& client.token_text() == api_token@
                    &&& client.url_text() == repository_url@
                },
                Err(e) => e matches MonitorError::Config(m) && parsed_repository_url(
                    repository_url@,
                ) == Err::<(Seq<char>, Seq<char>), _>(m@),
            },
    {
        match Self::parse_repository_url(repository_url.as_str()) {
            Ok((owner, repo)) => Ok(GitHubClient { api_token, repository_url, owner, repo }),
            Err(e) => Err(e),
        }
    }

    /// Takes owner and name out of a repository URL of one of the forms
    /// `https://github.com/owner/repo`, `https://github.com/owner/repo.git`
    /// (also with `http`) and `git@github.com:owner/repo.git`. Whitespace
    /// around the URL is ignored.
    pub fn parse_repository_url(url: &str) -> (r: Result<(String, String)>)
        ensures
            match r {
                Ok((owner, name)) => parsed_repository_url(url@) == Ok::<_, Seq<char>>(
                    (owner@, name@),
                ),
                Err(e) => e matches MonitorError::Config(m) && parsed_repository_url(url@) == Err::<
                    (Seq<char>, Seq<char>),
                    _,
                >(m@),
            },
    {
        let chars = chars_of(url);
        let (a, b) = trim_bounds(chars.as_slice());
        let trimmed_url = slice_subrange(chars.as_slice(), a, b);
        let ssh = chars_of("git@github.com:");
        let https = chars_of("https://github.com/");
        let http = chars_of("http://github.com/");
        let start = if starts_with(trimmed_url, ssh.as_slice()) {
            ssh.len()
        } else if starts_with(trimmed_url, https.as_slice()) {
            https.len()
        } else if starts_with(trimmed_url, http.as_slice()) {
            http.len()
        } else {
            let m = String::from_str("Unsupported repository URL format: ").concat(
                url.substring_char(a, b),
            );
            return Err(MonitorError::Config(m));
        };
        let path = slice_subrange(trimmed_url, start, trimmed_url.len());
        let git = chars_of(".git");
        let end = if ends_with(path, git.as_slice()) {
            path.len() - git.len()
        } else {
            path.len()
        };
        let stem = slice_subrange(path, 0, end);
        assert(stem@ == without_git_suffix(path@));
        let i = find_char_from(stem, '/', 0);
        if i < end && find_char_from(stem, '/', i + 1) == end {
            let owner = url.substring_char(a + start, a + start + i).to_owned();
            let name = url.substring_char(a + start + i + 1, a + start + end).to_owned();
            assert(owner@ =~= stem@.subrange(0, i as int));
            assert(name@ =~= stem@.subrange(i + 1, end as int));
            Ok((owner, name))
        } else {
            let m = String::from_str("Invalid repository URL format: ").concat(
                url.substring_char(a, b),
            );
            Err(MonitorError::Config(m))
        }
    }

    /// The repository owner's name.
    pub fn owner(&self) -> (r: &str)
        ensures
            r@ == self.owner_text(),
    {
        self.owner.as_str()
    }

    /// The repository's name.
    pub fn repo(&self) -> (r: &str)
        ensures
            r@ == self.repo_text(),
    {
        self.repo.as_str()
    }

    /// The token that requests are signed with.
    pub fn api_token(&self) -> (r: &str)
        ensures
            r@ == self.token_text(),
    {
        self.api_token.as_str()
    }

    /// The address to request for the file at `file_path`.
    pub fn contents_url(&self, file_path: &str) -> (url: String)
        ensures
            url@ == contents_url_text(self.owner_text(), self.repo_text(), file_path@),
    {
        let mut url = String::from_str("https://api.github.com/repos/");
        url.append(self.owner.as_str());
        url.append("/");
        url.append(self.repo.as_str());
        url.append("/contents/");
        url.append(file_path);
        url
    }

    /// The value of the `Authorization` header.
    pub fn authorization(&self) -> (value: String)
        ensures
            value@ == "Bearer "@ + self.token_text(),
    {
        String::from_str("Bearer ").concat(self.api_token.as_str())
    }

    /// Whether an HTTP status stands for success: those from 200 to 299.
    pub fn status_is_success(status: u16) -> (r: bool)
        ensures
            r == (200 <= status < 300),
    {
        200 <= status && status < 300
    }

    /// The error for a request that was answered with a failure status.
    /// `status` is the status line and `body` what came with it.
    pub fn fetch_failure(file_path: &str, status: &str, body: &str) -> (e: MonitorError)
        ensures
            e matches MonitorError::GitHubApi(m) && m@ == fetch_failure_text(
                file_path@,
                status@,
                body@,
            ),
    {
        let mut m = String::from_str("Failed to fetch file '");
        m.append(file_path);
        m.append("': ");
        m.append(status);
        m.append(" - ");
        m.append(body);
        MonitorError::GitHubApi(m)
    }

    /// Puts together what fetching `file_paths` one after the other gave,
    /// `fetched[i]` being the outcome for `file_paths[i]`: the first failure
    /// ends it, and without one each path comes with its content. Outcomes
    /// without a path and paths without an outcome are left out.
    pub fn collect_files(file_paths: &[String], fetched: Vec<Result<String>>) -> (r: Result<
        Vec<(String, String)>,
    >)
        ensures
            ({
                let n = paired_count(file_paths@, fetched@);
                match r {
                    Ok(files) => collected(file_paths@, fetched@, n) == Ok::<_, MonitorError>(
                        files@,
                    ),
                    Err(e) => collected(file_paths@, fetched@, n) == Err::<
                        Seq<(String, String)>,
                        _,
                    >(e),
                }
            }),
    {
        let ghost outcomes = fetched@;
        let total = file_paths.len();
        let mut files: Vec<(String, String)> = Vec::new();
        let mut i: usize = 0;
        for outcome in it: fetched
            invariant
                it.seq() == outcomes,
                total == file_paths@.len(),
                i == it.index() || (i == total && i <= it.index()),
                i <= total,
                collected(file_paths@, outcomes, i as int) == Ok::<_, MonitorError>(files@),
        {
            if i < total {
                match outcome {
                    Ok(content) => {
                        files.push((file_paths[i].clone(), content));
                        i += 1;
                    },
                    Err(e) => {
                        proof {
                            lemma_collected_failure(
                                file_paths@,
                                outcomes,
                                i + 1,
                                paired_count(file_paths@, outcomes),
                            );
                        }
                        return Err(e);
                    },
                }
            }
        }
        Ok(files)
    }

    /// The text of a file whose base64 content has been decoded.
    pub fn content_from_bytes(decoded: Vec<u8>) -> (r: Result<String>)
        ensures
            match r {
                Ok(text) => valid_utf8(decoded@) && text@ == decode_utf8(decoded@),
                Err(e) => {
                    &&& !valid_utf8(decoded@)
                    &&& e matches MonitorError::GitHubApi(m)
                    &&& "Failed to convert file content to UTF-8: "@.is_prefix_of(m@)
                },
            },
    {
        match string_from_utf8(decoded) {
            Ok(text) => {
                proof {
                    encode_utf8_decode_utf8(text@);
                }
                Ok(text)
            },
            Err(e) => {
                let detail = utf8_error_text(&e);
                let m = String::from_str("Failed to convert file content to UTF-8: ").concat(
                    detail.as_str(),
                );
                Err(MonitorError::GitHubApi(m))
            },
        }
    }

    /// The text of the file that `response` carries. The content has to be
    /// base64, possibly broken into lines, of well-formed UTF-8.
    pub fn decode_content(response: &GitHubFileResponse) -> (r: Result<String>)
        ensures
            match r {
                Ok(text) => {
                    &&& response.encoding@ == "base64"@
                    &&& base64_decoded(
                        without_line_breaks(encode_utf8(response.content@)),
                    ) matches Some(bytes)
                    &&& valid_utf8(bytes)
                    &&& text@ == decode_utf8(bytes)
                },
                Err(e) => {
                    &&& e matches MonitorError::GitHubApi(m)
                    &&& if response.encoding@ != "base64"@ {
                        m@ == "Unexpected encoding: "@ + response.encoding@
                    } else {
                        match base64_decoded(without_line_breaks(encode_utf8(response.content@))) {
                            None => "Failed to decode base64 content: "@.is_prefix_of(m@),
                            Some(bytes) => !valid_utf8(bytes)
                                && "Failed to convert file content to UTF-8: "@.is_prefix_of(m@),
                        }
                    }
                },
            },
    {
        let base64 = String::from_str("base64");
        if !(response.encoding == base64) {
            let m = String::from_str("Unexpected encoding: ").concat(response.encoding.as_str());
            return Err(MonitorError::GitHubApi(m));
        }
        let joined = strip_line_breaks(response.content.as_str().as_bytes());
        match base64_decode(joined.as_slice()) {
            Ok(bytes) => Self::content_from_bytes(bytes),
            Err(e) => {
                let detail = decode_error_text(&e);
                let m = String::from_str("Failed to decode base64 content: ").concat(
                    detail.as_str(),
                );
                Err(MonitorError::GitHubApi(m))
            },
        }
    }
}

} // verus!
