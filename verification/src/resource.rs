use vstd::prelude::*;

use vstd::string::StringSliceAdditionalSpecFns;

use crate::apis::Resource;

verus! {

/// All accepted file extensions.
///
/// A file is collected as a resource only when its path ends with one of these
/// suffixes.
pub const ACCEPTED_EXTENSION: [&'static str; 1] = [".mp3"];

/// `suffix` is a suffix of `s`.
pub open spec fn bytes_end_with(s: Seq<u8>, suffix: Seq<u8>) -> bool {
    &&& suffix.len() <= s.len()
    &&& s.subrange(s.len() - suffix.len(), s.len() as int) == suffix
}

/// The path, as UTF-8 bytes, ends with one of the accepted extensions.
pub open spec fn is_accepted_path(path: Seq<u8>) -> bool {
    exists|i: int|
        0 <= i < ACCEPTED_EXTENSION@.len() && bytes_end_with(
            path,
            #[trigger] ACCEPTED_EXTENSION@[i].spec_bytes(),
        )
}

/// Whether the bytes of `s` end with the bytes of `suffix`, as `str::ends_with`
/// compares them.
pub fn ends_with(s: &str, suffix: &str) -> (r: bool)
    ensures
        r == bytes_end_with(s.spec_bytes(), suffix.spec_bytes()),
{
    let sb = s.as_bytes();
    let xb = suffix.as_bytes();
    let n = sb.len();
    let m = xb.len();
    if m > n {
        return false;
    }
    let start = n - m;
    let mut i: usize = 0;
    while i < m
        invariant
            sb@ == s.spec_bytes(),
            xb@ == suffix.spec_bytes(),
            n == sb@.len(),
            m == xb@.len(),
            m <= n,
            start == n - m,
            i <= m,
            forall|j: int| 0 <= j < i ==> sb@[start + j] == xb@[j],
        decreases m - i,
    {
        if sb[start + i] != xb[i] {
            assert(sb@.subrange(start as int, n as int)[i as int] != xb@[i as int]);
            return false;
        }
        i = i + 1;
    }
    assert(sb@.subrange(start as int, n as int) =~= xb@);
    true
}

/// Whether a file is an audio file that the player collects, judged by the
/// extension at the end of its path.
pub fn has_accepted_extension(file_path: &str) -> (r: bool)
    ensures
        r == is_accepted_path(file_path.spec_bytes()),
{
    let mut i: usize = 0;
    while i < ACCEPTED_EXTENSION.len()
        invariant
            i <= ACCEPTED_EXTENSION@.len(),
            forall|j: int|
                0 <= j < i ==> !bytes_end_with(
                    file_path.spec_bytes(),
                    #[trigger] ACCEPTED_EXTENSION@[j].spec_bytes(),
                ),
        decreases ACCEPTED_EXTENSION@.len() - i,
    {
        if ends_with(file_path, ACCEPTED_EXTENSION[i]) {
            return true;
        }
        i = i + 1;
    }
    false
}

/// The resource for a file found while scanning a resource directory: `Some`
/// exactly when the file has an accepted extension.
pub fn collect_file(file_path: &str) -> (r: Option<Resource>)
    ensures
        r is Some <==> is_accepted_path(file_path.spec_bytes()),
        r matches Some(res) ==> res.file_path@ == file_path@,
{
    if has_accepted_extension(file_path) {
        Some(Resource { file_path: file_path.to_owned() })
    } else {
        None
    }
}

} // verus!
