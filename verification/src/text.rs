//! Text utilities of the runner: trimming the whitespace around a command's
//! captured output (a commit hash arrives with a trailing newline), and
//! splitting a repository identifier into its owner and name.

use vstd::prelude::*;

verus! {

/// The whitespace characters stripped from the ends of captured output.
pub open spec fn is_ws(c: char) -> bool {
    c == ' ' || c == '\t' || c == '\n' || c == '\r' || c == '\x0c'
}

/// Check one character against `is_ws`.
pub fn is_ws_char(c: char) -> (r: bool)
    ensures
        r == is_ws(c),
{
    c == ' ' || c == '\t' || c == '\n' || c == '\r' || c == '\x0c'
}

/// The text without its leading whitespace.
pub open spec fn trim_left_spec(s: Seq<char>) -> Seq<char>
    decreases s.len(),
{
    if s.len() > 0 && is_ws(s[0]) {
        trim_left_spec(s.drop_first())
    } else {
        s
    }
}

/// The text without its trailing whitespace.
pub open spec fn trim_right_spec(s: Seq<char>) -> Seq<char>
    decreases s.len(),
{
    if s.len() > 0 && is_ws(s[s.len() - 1]) {
        trim_right_spec(s.drop_last())
    } else {
        s
    }
}

/// The text without the whitespace at either end.
pub open spec fn trim_spec(s: Seq<char>) -> Seq<char> {
    trim_right_spec(trim_left_spec(s))
}

proof fn lemma_trim_left_subrange(s: Seq<char>, i: int)
    requires
        0 <= i <= s.len(),
        forall|k: int| 0 <= k < i ==> is_ws(s[k]),
        i == s.len() || !is_ws(s[i]),
    ensures
        trim_left_spec(s) == s.subrange(i, s.len() as int),
    decreases i,
{
    if i == 0 {
        assert(s.subrange(0, s.len() as int) =~= s);
    } else {
        let t = s.drop_first();
        assert(is_ws(s[0]));
        assert forall|k: int| 0 <= k < i - 1 implies is_ws(t[k]) by {
            assert(t[k] == s[k + 1]);
        }
        lemma_trim_left_subrange(t, i - 1);
        assert(t.subrange(i - 1, t.len() as int) =~= s.subrange(i, s.len() as int));
    }
}

proof fn lemma_trim_right_subrange(s: Seq<char>, j: int)
    requires
        0 <= j <= s.len(),
        forall|k: int| j <= k < s.len() ==> is_ws(s[k]),
        j == 0 || !is_ws(s[j - 1]),
    ensures
        trim_right_spec(s) == s.subrange(0, j),
    decreases s.len() - j,
{
    if j == s.len() {
        assert(s.subrange(0, j) =~= s);
    } else {
        let t = s.drop_last();
        assert(is_ws(s[s.len() - 1]));
        assert forall|k: int| j <= k < t.len() implies is_ws(t[k]) by {
            assert(t[k] == s[k]);
        }
        lemma_trim_right_subrange(t, j);
        assert(t.subrange(0, j) =~= s.subrange(0, j));
    }
}

/// Strip the whitespace at both ends of the text.
pub fn trim_ascii_whitespace(s: &str) -> (r: &str)
    ensures
        r@ == trim_spec(s@),
{
    let len = s.unicode_len();
    let mut i: usize = 0;
    while i < len && is_ws_char(s.get_char(i))
        invariant
            i <= len,
            len == s@.len(),
            forall|k: int| 0 <= k < i ==> is_ws(s@[k]),
        decreases len - i,
    {
        i += 1;
    }
    let mut j: usize = len;
    while j > i && is_ws_char(s.get_char(j - 1))
        invariant
            i <= j <= len,
            len == s@.len(),
            forall|k: int| j <= k < len ==> is_ws(s@[k]),
        decreases j,
    {
        j -= 1;
    }
    let r = s.substring_char(i, j);
    proof {
        lemma_trim_left_subrange(s@, i as int);
        let sub = s@.subrange(i as int, len as int);
        assert forall|k: int| j - i <= k < sub.len() implies is_ws(sub[k]) by {
            assert(sub[k] == s@[k + i]);
        }
        lemma_trim_right_subrange(sub, j - i);
        assert(sub.subrange(0, j - i) =~= s@.subrange(i as int, j as int));
    }
    r
}

/// Split a repository identifier in `owner/name` form at its first slash.
/// `None` exactly when the identifier holds no slash at all.
pub fn split_repo(repo: &str) -> (r: Option<(String, String)>)
    ensures
        match r {
            Some(pair) => {
                &&& repo@ == pair.0@ + seq!['/'] + pair.1@
                &&& forall|k: int| 0 <= k < pair.0@.len() ==> pair.0@[k] != '/'
            },
            None => forall|k: int| 0 <= k < repo@.len() ==> repo@[k] != '/',
        },
{
    let len = repo.unicode_len();
    let mut i: usize = 0;
    while i < len && !(repo.get_char(i) == '/')
        invariant
            i <= len,
            len == repo@.len(),
            forall|k: int| 0 <= k < i ==> repo@[k] != '/',
        decreases len - i,
    {
        i += 1;
    }
    if i == len {
        None
    } else {
        let owner = repo.substring_char(0, i).to_owned();
        let name = repo.substring_char(i + 1, len).to_owned();
        proof {
            assert(repo@ =~= owner@ + seq!['/'] + name@);
        }
        Some((owner, name))
    }
}

} // verus!
