//! The saved games: which files hold them.
use vstd::prelude::*;

use crate::text::chars_of;

verus! {

broadcast use vstd::string::group_string_axioms;

/// The saves found on disk, by path.
#[derive(Debug, Clone)]
pub struct SaveManager {
    pub available_saves: Vec<String>,
}

/// The file name `name` has the extension `json`: after its last dot, which is not
/// its first character, come exactly the letters `json`.
pub open spec fn is_json_file(name: Seq<char>) -> bool {
    exists|k: int|
        0 < k < name.len() && name[k] == '.' && (forall|m: int| k < m < name.len() ==> name[m] != '.')
            && name.subrange(k + 1, name.len() as int) == "json"@
}

impl SaveManager {
    /// The manager of the saves found.
    pub fn new(available_saves: Vec<String>) -> (m: Self)
        ensures
            m.available_saves == available_saves,
    {
        SaveManager { available_saves }
    }

    /// Whether a file with this name holds a save.
    pub fn is_save_file(file_name: &str) -> (b: bool)
        ensures
            b == is_json_file(file_name@),
    {
        let s = chars_of(file_name);
        let n = s.len();
        let mut k = n;
        while k > 0 && s[k - 1] != '.'
            invariant
                n == s@.len(),
                k <= n,
                forall|m: int| k <= m < n ==> s@[m] != '.',
            decreases k,
        {
            k = k - 1;
        }
        proof {
            reveal_strlit("json");
        }
        if k <= 1 {
            proof {
                if is_json_file(file_name@) {
                    let w = choose|j: int|
                        0 < j < s@.len() && s@[j] == '.' && (forall|m: int|
                            j < m < s@.len() ==> s@[m] != '.') && s@.subrange(j + 1, s@.len() as int)
                            == "json"@;
                    if k == 1 {
                        assert(s@[0] == '.');
                    }
                    assert(s@[w] == '.');
                }
            }
            return false;
        }
        let dot = k - 1;
        let b = n - dot == 5 && s[dot + 1] == 'j' && s[dot + 2] == 's' && s[dot + 3] == 'o' && s[dot
            + 4] == 'n';
        proof {
            if b {
                assert(s@.subrange(dot + 1, n as int) =~= "json"@);
            }
            if is_json_file(file_name@) {
                let w = choose|j: int|
                    0 < j < s@.len() && s@[j] == '.' && (forall|m: int|
                        j < m < s@.len() ==> s@[m] != '.') && s@.subrange(j + 1, s@.len() as int)
                        == "json"@;
                if w < dot {
                    assert(s@[dot as int] == '.');
                }
                assert(w == dot);
                assert(s@.subrange(dot + 1, n as int).len() == 4);
                assert(s@.subrange(dot + 1, n as int)[0] == 'j');
                assert(s@.subrange(dot + 1, n as int)[1] == 's');
                assert(s@.subrange(dot + 1, n as int)[2] == 'o');
                assert(s@.subrange(dot + 1, n as int)[3] == 'n');
            }
        }
        b
    }
}

} // verus!
