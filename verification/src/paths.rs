//! Candidate path construction for the discovery strategies: the binary
//! location under a package manager's global prefix, and the fixed list of
//! well-known locations with home-directory expansion.

use vstd::prelude::*;
use vstd::string::{StrSliceExecFns, StringExecFns};

verus! {

/// The candidate binary location under a package manager's global prefix.
pub fn npm_global_candidate(prefix: &str) -> (r: String)
    ensures
        r@ == prefix@ + "/bin/gemini"@,
{
    let mut s = prefix.to_owned();
    s.append("/bin/gemini");
    s
}

/// A path written `~/rest` expanded against the home directory `h` the way
/// a path join expands it: `h`, a separator, then `rest`. Any other path
/// is left unchanged.
pub open spec fn spec_expand_home(p: Seq<char>, h: Seq<char>) -> Seq<char> {
    if p.len() >= 2 && p[0] == '~' && p[1] == '/' {
        h + seq!['/'] + p.skip(2)
    } else {
        p
    }
}

pub fn expand_home_path(path: &str, home: &str) -> (r: String)
    ensures
        r@ == spec_expand_home(path@, home@),
{
    let n = path.unicode_len();
    if n >= 2 && path.get_char(0) == '~' && path.get_char(1) == '/' {
        let mut s = home.to_owned();
        s.append("/");
        let rest = path.substring_char(2, n);
        s.append(rest);
        proof {
            reveal_strlit("/");
            assert(rest@ =~= path@.skip(2));
            assert("/"@ =~= seq!['/']);
            assert(s@ =~= home@ + seq!['/'] + path@.skip(2));
        }
        s
    } else {
        path.to_owned()
    }
}

/// The fixed, ordered list of well-known locations, with a leading home
/// marker expanded via the given home directory; the home-relative
/// candidate is dropped when no home directory is known.
pub fn well_known_gemini_paths(home: Option<&String>) -> (r: Vec<String>)
    ensures
        r.deep_view() == match home {
            Some(h) => seq![
                "/usr/local/bin/gemini"@,
                "/opt/homebrew/bin/gemini"@,
                spec_expand_home("~/.local/bin/gemini"@, h@),
            ],
            None => seq!["/usr/local/bin/gemini"@, "/opt/homebrew/bin/gemini"@],
        },
{
    let mut r: Vec<String> = Vec::new();
    r.push(String::from_str("/usr/local/bin/gemini"));
    r.push(String::from_str("/opt/homebrew/bin/gemini"));
    match home {
        Some(h) => {
            r.push(expand_home_path("~/.local/bin/gemini", h.as_str()));
            proof {
                assert(r.deep_view() =~= seq![
                    "/usr/local/bin/gemini"@,
                    "/opt/homebrew/bin/gemini"@,
                    spec_expand_home("~/.local/bin/gemini"@, h@),
                ]);
            }
        },
        None => {
            proof {
                assert(r.deep_view() =~= seq![
                    "/usr/local/bin/gemini"@,
                    "/opt/homebrew/bin/gemini"@,
                ]);
            }
        },
    }
    r
}

} // verus!
