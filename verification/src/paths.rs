//! Where a provisioned release lives on disk, and which working-directory
//! entries a cleanup pass removes.

use vstd::prelude::*;
use vstd::string::StringExecFns;

verus! {

/// The version-scoped installation directory of a release.
pub open spec fn spec_version_dir(version: Seq<char>) -> Seq<char> {
    "dhall-haskell-"@ + version
}

/// The expected binary path inside a version directory.
pub open spec fn spec_binary_path(version_dir: Seq<char>, binary_name: Seq<char>) -> Seq<char> {
    version_dir + "/bin/"@ + binary_name
}

/// Where a downloaded asset lands inside a version directory.
pub open spec fn spec_download_path(version_dir: Seq<char>, asset_name: Seq<char>) -> Seq<char> {
    version_dir + "/"@ + asset_name
}

/// Names the installation directory scoped to one release version.
pub fn version_dir_name(version: &str) -> (r: String)
    ensures
        r@ == spec_version_dir(version@),
{
    String::from_str("dhall-haskell-").concat(version)
}

/// Names the expected binary path inside a version directory.
pub fn binary_path_in(version_dir: &str, binary_name: &str) -> (r: String)
    ensures
        r@ == spec_binary_path(version_dir@, binary_name@),
{
    String::from_str(version_dir).concat("/bin/").concat(binary_name)
}

/// Names the path a downloaded asset lands at inside a version directory.
pub fn download_path_in(version_dir: &str, asset_name: &str) -> (r: String)
    ensures
        r@ == spec_download_path(version_dir@, asset_name@),
{
    String::from_str(version_dir).concat("/").concat(asset_name)
}

/// A cleanup pass removes a working-directory entry exactly when it is not
/// the version directory being kept.
pub fn should_remove_entry(entry_name: &String, keep_dir: &String) -> (r: bool)
    ensures
        r == (entry_name@ != keep_dir@),
{
    !(*entry_name == *keep_dir)
}

/// Some element of `s` views to the character sequence `x`.
pub open spec fn seq_has_string(s: Seq<String>, x: Seq<char>) -> bool {
    exists|j: int| 0 <= j < s.len() && (#[trigger] s[j])@ == x
}

proof fn lemma_has_string_push(s: Seq<String>, y: String, x: Seq<char>)
    requires
        seq_has_string(s, x),
    ensures
        seq_has_string(s.push(y), x),
{
    let j = choose|j: int| 0 <= j < s.len() && (#[trigger] s[j])@ == x;
    assert(s.push(y)[j]@ == x);
}

/// Selects, in order, the working-directory entries a cleanup pass removes:
/// every entry except the version directory being kept.
pub fn entries_to_remove(entries: &Vec<String>, keep_dir: &String) -> (r: Vec<String>)
    ensures
        forall|k: int| #![trigger r@[k]] 0 <= k < r@.len() ==> r@[k]@ != keep_dir@,
        forall|k: int| #![trigger r@[k]]
            0 <= k < r@.len() ==> seq_has_string(entries@, r@[k]@),
        forall|j: int| #![trigger entries@[j]]
            0 <= j < entries@.len() && entries@[j]@ != keep_dir@ ==> seq_has_string(
                r@,
                entries@[j]@,
            ),
{
    let mut r: Vec<String> = Vec::new();
    let mut i: usize = 0;
    while i < entries.len()
        invariant
            i <= entries@.len(),
            forall|k: int| #![trigger r@[k]] 0 <= k < r@.len() ==> r@[k]@ != keep_dir@,
            forall|k: int| #![trigger r@[k]]
                0 <= k < r@.len() ==> seq_has_string(entries@, r@[k]@),
            forall|j: int| #![trigger entries@[j]]
                0 <= j < i && entries@[j]@ != keep_dir@ ==> seq_has_string(r@, entries@[j]@),
        decreases entries@.len() - i,
    {
        let remove = should_remove_entry(&entries[i], keep_dir);
        if remove {
            let ghost r_old = r@;
            r.push(entries[i].clone());
            proof {
                assert(r@ =~= r_old.push(entries@[i as int]));
                assert forall|k: int| #![trigger r@[k]] 0 <= k < r@.len() implies seq_has_string(
                    entries@,
                    r@[k]@,
                ) by {
                    if k < r_old.len() {
                        assert(r@[k] == r_old[k]);
                    } else {
                        assert(r@[k]@ == entries@[i as int]@);
                        assert(seq_has_string(entries@, entries@[i as int]@));
                    }
                }
                assert forall|j: int| #![trigger entries@[j]]
                    0 <= j <= i && entries@[j]@ != keep_dir@ implies seq_has_string(
                    r@,
                    entries@[j]@,
                ) by {
                    if j < i {
                        lemma_has_string_push(r_old, entries@[i as int], entries@[j]@);
                    } else {
                        assert(r@[r@.len() - 1]@ == entries@[j]@);
                    }
                }
            }
        }
        i += 1;
    }
    r
}

} // verus!
