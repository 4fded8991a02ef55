//! The fetcher's computation: deriving the local persistence filename from
//! the URL the server actually resolved to. The HTTP GET itself is the
//! driver's work; it hands the resolved URL back to the pipeline.

use crate::rewrite::last_segment;
use crate::rewrite::url_last_segment;
use crate::text::chars_to_string;
use vstd::prelude::*;

verus! {

/// The characters of the fixed placeholder filename `tmp.bin`.
pub open spec fn placeholder_name() -> Seq<char> {
    seq!['t', 'm', 'p', '.', 'b', 'i', 'n']
}

fn placeholder_string() -> (r: String)
    ensures
        r@ == placeholder_name(),
{
    let mut v: Vec<char> = Vec::new();
    v.push('t');
    v.push('m');
    v.push('p');
    v.push('.');
    v.push('b');
    v.push('i');
    v.push('n');
    assert(v@ =~= placeholder_name());
    chars_to_string(&v)
}

/// The local filename derived from the resolved response URL: its last path
/// segment, or the fixed placeholder when that segment is empty or absent.
pub open spec fn derived_filename(resolved: Seq<char>) -> Seq<char> {
    match last_segment(resolved) {
        Some(f) => if f.len() > 0 {
            f
        } else {
            placeholder_name()
        },
        None => placeholder_name(),
    }
}

/// The derived filename is never the empty string: an empty or missing
/// final path segment yields the placeholder instead.
pub proof fn lemma_derived_filename_nonempty(resolved: Seq<char>)
    ensures
        derived_filename(resolved).len() > 0,
{
}

/// Derive the local persistence filename from the resolved response URL.
pub fn derive_filename(resolved_url: &str) -> (r: String)
    ensures
        r@ == derived_filename(resolved_url@),
        r@.len() > 0,
{
    match url_last_segment(resolved_url) {
        Some(f) => {
            if !f.as_str().is_empty() {
                f
            } else {
                placeholder_string()
            }
        },
        None => placeholder_string(),
    }
}

} // verus!
