use vstd::prelude::*;

verus! {

/// True when `suffix` matches the tail of `s`.
pub open spec fn has_suffix(s: Seq<char>, suffix: Seq<char>) -> bool {
    s.len() >= suffix.len() && s.subrange(s.len() - suffix.len(), s.len() as int) == suffix
}

/// Whether the name already carries a recognized image extension. The check
/// is deliberately case-sensitive and limited to ".jpg" and ".png": an
/// uppercase extension is not recognized and gets the default appended.
pub open spec fn has_recognized_extension(name: Seq<char>) -> bool {
    has_suffix(name, ".jpg"@) || has_suffix(name, ".png"@)
}

/// The output filename of a record: the source name verbatim when it already
/// ends with a recognized extension, otherwise the name with the default
/// ".jpg" extension appended. No collision handling: equal names resolve to
/// the same file, and a later write overwrites an earlier one.
pub open spec fn derived_name(name: Seq<char>) -> Seq<char> {
    if has_recognized_extension(name) {
        name
    } else {
        name + ".jpg"@
    }
}

/// Whether `s` ends with `suffix`, compared character by character.
pub fn ends_with_str(s: &str, suffix: &str) -> (r: bool)
    ensures
        r == has_suffix(s@, suffix@),
{
    let n = s.unicode_len();
    let m = suffix.unicode_len();
    if m > n {
        return false;
    }
    let mut i: usize = 0;
    while i < m
        invariant
            m <= n,
            n == s@.len(),
            m == suffix@.len(),
            i <= m,
            forall|j: int| 0 <= j < i ==> s@[n - m + j] == suffix@[j],
        decreases m - i,
    {
        if s.get_char(n - m + i) != suffix.get_char(i) {
            proof {
                let tail = s@.subrange(n - m, n as int);
                assert(tail[i as int] == s@[n - m + i]);
                assert(tail != suffix@);
            }
            return false;
        }
        i += 1;
    }
    proof {
        assert(s@.subrange(n - m, n as int) =~= suffix@);
    }
    true
}

/// Derives the output filename for a record name: used verbatim when it
/// already carries a recognized extension, otherwise with the default
/// extension appended.
pub fn derive_filename(image_name: &String) -> (r: String)
    ensures
        r@ == derived_name(image_name@),
{
    if ends_with_str(image_name.as_str(), ".jpg") || ends_with_str(image_name.as_str(), ".png") {
        image_name.clone()
    } else {
        let mut out = image_name.clone();
        out.append(".jpg");
        out
    }
}

} // verus!
