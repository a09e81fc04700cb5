//! The log store: the exact text of a persisted run artifact, where it
//! lives on disk, and the public address that serves it.
//!
//! Writing the file is I/O and stays with the caller; everything the caller
//! writes and every address it forms comes from here.

use vstd::prelude::*;
use crate::numfmt::int_seq;
use crate::numfmt::i32_to_string;

verus! {

/// Relies on `uuid::Uuid::new_v4` and its hyphenated `Display` form: the
/// text of a version-4 identifier is always 36 characters. The identifier
/// itself is random, so nothing more is promised of it.
#[verifier::external_body]
pub(crate) fn fresh_run_id() -> (r: String)
    ensures
        r@.len() == 36,
{
    format!("{}", uuid::Uuid::new_v4())
}

/// The exit-code text in the artifact: the numeral, or `???` when the code
/// is unavailable.
pub open spec fn exit_code_text(code: Option<i32>) -> Seq<char> {
    match code {
        Some(n) => int_seq(n as int),
        None => "???"@,
    }
}

/// The trailing status line of the artifact.
pub open spec fn status_line_spec(code: Option<i32>) -> Seq<char> {
    "Build exited with code "@ + exit_code_text(code)
}

/// The whole artifact: the captured output, a blank line, the status line.
pub open spec fn artifact_spec(output: Seq<char>, code: Option<i32>) -> Seq<char> {
    output + "\n\n"@ + status_line_spec(code) + "\n"@
}

/// Render the status line that closes an artifact.
pub fn status_line(code: Option<i32>) -> (r: String)
    ensures
        r@ == status_line_spec(code),
{
    let mut s = String::from_str("Build exited with code ");
    match code {
        Some(n) => {
            let t = i32_to_string(n);
            s.append(t.as_str());
        },
        None => {
            s.append("???");
        },
    }
    proof {
        assert(s@ =~= status_line_spec(code));
    }
    s
}

/// Render the full artifact text for a run's captured output and exit code.
pub fn format_artifact(output: &str, code: Option<i32>) -> (r: String)
    ensures
        r@ == artifact_spec(output@, code),
{
    let mut s = output.to_owned();
    s.append("\n\n");
    let line = status_line(code);
    s.append(line.as_str());
    s.append("\n");
    proof {
        assert(s@ =~= artifact_spec(output@, code));
    }
    s
}

/// Where a run's artifact stands below a root: the repository's directory,
/// then the run identifier with a fixed suffix. The same shape serves the
/// on-disk path and the public address, so both name the same artifact.
pub open spec fn artifact_address_spec(root: Seq<char>, repo: Seq<char>, id: Seq<char>) -> Seq<
    char,
> {
    root + "/"@ + repo + "/"@ + id + ".txt"@
}

/// The repository's directory below a root.
pub open spec fn repo_dir_spec(root: Seq<char>, repo: Seq<char>) -> Seq<char> {
    root + "/"@ + repo
}

/// Form the directory that holds a repository's artifacts.
pub fn repo_dir(root: &str, repo: &str) -> (r: String)
    ensures
        r@ == repo_dir_spec(root@, repo@),
{
    let mut s = root.to_owned();
    s.append("/");
    s.append(repo);
    proof {
        assert(s@ =~= repo_dir_spec(root@, repo@));
    }
    s
}

/// Form an artifact's address below a root: the on-disk path when given the
/// log root path, the public address when given the root URL.
pub fn artifact_address(root: &str, repo: &str, id: &str) -> (r: String)
    ensures
        r@ == artifact_address_spec(root@, repo@, id@),
{
    let mut s = repo_dir(root, repo);
    s.append("/");
    s.append(id);
    s.append(".txt");
    proof {
        assert(s@ =~= artifact_address_spec(root@, repo@, id@));
    }
    s
}

/// The path and the address of one run's artifact agree on everything below
/// the root: the same repository directory and the same identifier.
pub proof fn lemma_path_and_url_share_identifier(
    path_root: Seq<char>,
    url_root: Seq<char>,
    repo: Seq<char>,
    id: Seq<char>,
)
    ensures
        artifact_address_spec(path_root, repo, id).skip(path_root.len() as int)
            == artifact_address_spec(url_root, repo, id).skip(url_root.len() as int),
{
    assert(artifact_address_spec(path_root, repo, id).skip(path_root.len() as int) =~= "/"@
        + repo + "/"@ + id + ".txt"@);
    assert(artifact_address_spec(url_root, repo, id).skip(url_root.len() as int) =~= "/"@ + repo
        + "/"@ + id + ".txt"@);
}

} // verus!
