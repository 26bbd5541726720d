use vstd::prelude::*;

verus! {

/// The suffix under the home directory where the application keeps its data.
pub open spec fn app_data_suffix() -> Seq<char> {
    "/.local/share/speedtest"@
}

/// Directory that holds the application's data for the user whose home
/// directory is `home`.
pub fn app_data_dir(home: &str) -> (dir: String)
    ensures
        dir@ == home@ + app_data_suffix(),
{
    let mut dir = String::from_str(home);
    dir.append("/.local/share/speedtest");
    dir
}

/// Whether `s` begins with `prefix`, character by character.
pub fn starts_with(s: &str, prefix: &str) -> (b: bool)
    ensures
        b == prefix@.is_prefix_of(s@),
{
    let n = prefix.unicode_len();
    let m = s.unicode_len();
    if n > m {
        return false;
    }
    let mut i: usize = 0;
    while i < n
        invariant
            n == prefix@.len(),
            m == s@.len(),
            n <= m,
            i <= n,
            forall|j: int| 0 <= j < i ==> prefix@[j] == s@[j],
        decreases n - i,
    {
        if s.get_char(i) != prefix.get_char(i) {
            return false;
        }
        i = i + 1;
    }
    assert(prefix@ =~= s@.subrange(0, n as int));
    true
}

/// Whether something exists at `path` on the file system.
///
/// Calls `std::path::Path::exists`. What it returns depends on the disk at
/// the moment of the call, so no clause states it.
#[verifier::external_body]
pub(crate) fn path_exists(path: &str) -> bool {
    std::path::Path::new(path).exists()
}

} // verus!
