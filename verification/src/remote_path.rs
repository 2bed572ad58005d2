use vstd::prelude::*;
use vstd::string::{StrSliceExecFns, StringExecFns};

verus! {

/// `s` with every trailing `'/'` removed.
pub open spec fn trim_trailing_slashes(s: Seq<char>) -> Seq<char>
    decreases s.len(),
{
    if s.len() > 0 && s[s.len() - 1] == '/' {
        trim_trailing_slashes(s.take(s.len() - 1))
    } else {
        s
    }
}

/// The remote destination for `name` under the configured directory
/// `dir`: `name` alone when `dir` is empty, otherwise the directory with
/// trailing separators collapsed, one `'/'`, and the filename.
pub open spec fn remote_path_of(dir: Seq<char>, name: Seq<char>) -> Seq<char> {
    if dir.len() == 0 {
        name
    } else {
        trim_trailing_slashes(dir) + seq!['/'] + name
    }
}

/// Join the configured remote directory with a filename.
///
/// An empty directory means "the session's default directory", so the
/// filename is returned unchanged; otherwise trailing `'/'` characters
/// of the directory are stripped before the single separator is added,
/// so no double slash ever appears at the joining point.
pub fn join_remote_path(dir: &str, name: &str) -> (r: String)
    ensures
        r@ == remote_path_of(dir@, name@),
{
    if dir.is_empty() {
        name.to_owned()
    } else {
        let len: usize = dir.unicode_len();
        let mut end: usize = len;
        proof {
            assert(dir@.take(len as int) =~= dir@);
        }
        while end > 0 && dir.get_char(end - 1) == '/'
            invariant
                end <= len,
                len == dir@.len(),
                trim_trailing_slashes(dir@) == trim_trailing_slashes(dir@.take(end as int)),
            decreases end,
        {
            end = end - 1;
            proof {
                let t = dir@.take((end + 1) as int);
                assert(t.len() == end + 1);
                assert(t[t.len() - 1] == dir@[end as int]);
                assert(t.take(t.len() - 1) =~= dir@.take(end as int));
            }
        }
        proof {
            let t = dir@.take(end as int);
            if t.len() > 0 {
                assert(t[t.len() - 1] == dir@[end - 1]);
            }
            assert(trim_trailing_slashes(t) == t);
        }
        let stem = dir.substring_char(0, end);
        let mut out = stem.to_owned();
        out.append("/");
        out.append(name);
        proof {
            reveal_strlit("/");
            assert("/"@ =~= seq!['/']);
            assert(out@ =~= remote_path_of(dir@, name@));
        }
        out
    }
}

} // verus!
