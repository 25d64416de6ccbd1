//! File-name extensions.
//!
//! The store lists only documents whose extension is exactly `json`,
//! and the importer reads text only for the recognized document
//! extensions `md`, `markdown` and `txt`. The extension of a bare file
//! name is the part after the last `.`; there is none when the name
//! holds no `.` at all, or when the only `.` leads the name (a hidden
//! file). This matches how the platform's path type reads a file name.

use vstd::prelude::*;

verus! {

/// Index of the last '.' in `s`, or -1 when there is none.
pub open spec fn last_dot(s: Seq<char>) -> int
    decreases s.len(),
{
    if s.len() == 0 {
        -1
    } else if s[s.len() - 1] == '.' {
        s.len() - 1
    } else {
        last_dot(s.drop_last())
    }
}

/// The extension of the bare file name `name`, when it has one.
pub open spec fn extension_spec(name: Seq<char>) -> Option<Seq<char>> {
    if last_dot(name) <= 0 {
        None
    } else {
        Some(name.subrange(last_dot(name) + 1, name.len() as int))
    }
}

/// The name carries the document extension used by the store's listing.
pub open spec fn is_json_name(name: Seq<char>) -> bool {
    extension_spec(name) == Some("json"@)
}

/// The name carries one of the extensions whose text the importer reads.
pub open spec fn is_text_doc_name(name: Seq<char>) -> bool {
    ||| extension_spec(name) == Some("md"@)
    ||| extension_spec(name) == Some("markdown"@)
    ||| extension_spec(name) == Some("txt"@)
}

proof fn lemma_last_dot_found(s: Seq<char>, k: int)
    requires
        0 <= k < s.len(),
        s[k] == '.',
        forall|j: int| k < j < s.len() ==> s[j] != '.',
    ensures
        last_dot(s) == k,
    decreases s.len(),
{
    if s.len() - 1 == k {
    } else {
        assert(s[s.len() - 1] != '.');
        assert(s.drop_last() == s.subrange(0, s.len() - 1));
        lemma_last_dot_found(s.drop_last(), k);
    }
}

proof fn lemma_no_dot(s: Seq<char>)
    requires
        forall|j: int| 0 <= j < s.len() ==> s[j] != '.',
    ensures
        last_dot(s) == -1,
    decreases s.len(),
{
    if s.len() > 0 {
        lemma_no_dot(s.drop_last());
    }
}

/// The extension of `name`, as the platform's path type would read it.
pub fn extension_of(name: &str) -> (r: Option<String>)
    ensures
        r.deep_view() == extension_spec(name@),
{
    let n: usize = name.unicode_len();
    let mut i: usize = n;
    while i > 0
        invariant
            i <= n,
            n == name@.len(),
            forall|j: int| i <= j < n ==> name@[j] != '.',
        decreases i,
    {
        if name.get_char(i - 1) == '.' {
            proof {
                lemma_last_dot_found(name@, i - 1);
            }
            if i - 1 == 0 {
                return None;
            }
            let ext = name.substring_char(i, n).to_owned();
            return Some(ext);
        }
        i = i - 1;
    }
    proof {
        lemma_no_dot(name@);
    }
    None
}

/// Compares an optional extension against one fixed extension.
fn extension_is(ext: &Option<String>, fixed: &str) -> (r: bool)
    ensures
        r == (ext.deep_view() == Some(fixed@)),
{
    match ext {
        Some(e) => {
            let r = e.as_str().to_owned() == fixed.to_owned();
            r
        },
        None => false,
    }
}

/// Decides whether `name` ends in the `json` document extension.
pub fn has_json_extension(name: &str) -> (r: bool)
    ensures
        r == is_json_name(name@),
{
    let ext = extension_of(name);
    extension_is(&ext, "json")
}

/// Decides whether the importer reads the text of a file named `name`.
pub fn is_recognized_text_name(name: &str) -> (r: bool)
    ensures
        r == is_text_doc_name(name@),
{
    let ext = extension_of(name);
    if extension_is(&ext, "md") {
        true
    } else if extension_is(&ext, "markdown") {
        true
    } else {
        extension_is(&ext, "txt")
    }
}

} // verus!
