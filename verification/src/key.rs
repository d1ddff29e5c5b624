//! Window identity: normalization of raw window metadata and the composite
//! aggregation key.
//!
//! A window is identified by its title and the executable name of the owning
//! process. Either string may be empty (some windows expose no title, some
//! processes no name); an empty field is replaced by a fixed sentinel so that
//! all such windows fall into one bucket. The aggregation key is the
//! normalized title and the normalized executable name joined by a literal
//! hyphen. No escaping is performed, so a title containing a hyphen can
//! collide with another title/executable pair; this ambiguity is an accepted
//! limitation of the key format.

use vstd::prelude::*;

verus! {

/// The normalized title: the sentinel `<untitled>` for an empty title,
/// otherwise the title unchanged.
pub open spec fn spec_normalize_title(title: Seq<char>) -> Seq<char> {
    if title.len() == 0 {
        "<untitled>"@
    } else {
        title
    }
}

/// The normalized executable name: the sentinel `<unknown-exec>` for an empty
/// name, otherwise the name unchanged.
pub open spec fn spec_normalize_exec_name(exec_name: Seq<char>) -> Seq<char> {
    if exec_name.len() == 0 {
        "<unknown-exec>"@
    } else {
        exec_name
    }
}

/// The aggregation key: normalized title, a hyphen, normalized executable
/// name. Two samples share a key exactly when their raw fields are equal
/// after normalization.
pub open spec fn spec_window_key(title: Seq<char>, exec_name: Seq<char>) -> Seq<char> {
    spec_normalize_title(title) + "-"@ + spec_normalize_exec_name(exec_name)
}

/// Substitutes the `<untitled>` sentinel for an empty title.
pub fn normalize_title(title: &str) -> (r: String)
    ensures
        r@ == spec_normalize_title(title@),
{
    if title.is_empty() {
        String::from_str("<untitled>")
    } else {
        String::from_str(title)
    }
}

/// Substitutes the `<unknown-exec>` sentinel for an empty executable name.
pub fn normalize_exec_name(exec_name: &str) -> (r: String)
    ensures
        r@ == spec_normalize_exec_name(exec_name@),
{
    if exec_name.is_empty() {
        String::from_str("<unknown-exec>")
    } else {
        String::from_str(exec_name)
    }
}

/// Builds the aggregation key for one sample from its raw fields.
pub fn window_key(title: &str, exec_name: &str) -> (r: String)
    ensures
        r@ == spec_window_key(title@, exec_name@),
{
    let mut key = normalize_title(title);
    key.append("-");
    let exec_part = normalize_exec_name(exec_name);
    key.append(exec_part.as_str());
    key
}

} // verus!
