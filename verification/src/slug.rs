//! Slugs: the URL form of a clerk's display name or a post title, written
//! in lowercase with hyphens in place of spaces (`Mestre Ana` ->
//! `mestre-ana`). Profile pages, mails and the sitemap link clerks by it.

use vstd::prelude::*;
use crate::text::{replace_char, replace_spec};

verus! {

/// The lowercase form of a text as `str::to_lowercase` computes it
/// (Unicode lowercase mapping).
pub uninterp spec fn lowercase_spec(s: Seq<char>) -> Seq<char>;

/// std's `str::to_lowercase`; its result is named by `lowercase_spec`.
#[verifier::external_body]
pub(crate) fn lowercase(s: &str) -> (res: String)
    ensures
        res@ == lowercase_spec(s@),
{
    s.to_lowercase()
}

/// The slug of a name: lowercase, each space turned into a hyphen.
pub open spec fn slug_spec(name: Seq<char>) -> Seq<char> {
    replace_spec(lowercase_spec(name), ' ', '-')
}

/// The slug of a name.
pub fn slugify(name: &str) -> (res: String)
    ensures
        res@ == slug_spec(name@),
{
    let lower = lowercase(name);
    replace_char(lower.as_str(), ' ', '-')
}

/// A slug holds no space, so it can stand in a URL path segment as it is.
pub proof fn lemma_slug_has_no_space(name: Seq<char>)
    ensures
        forall|i: int| 0 <= i < slug_spec(name).len() ==> #[trigger] slug_spec(name)[i] != ' ',
{
}

/// The display name and slug of a clerk, from the clerk's stored display
/// name (the first row found, if any). A clerk without a display name is
/// shown and linked as `-`.
pub fn clerk_name_and_slug(exhibition: Option<&str>) -> (res: (String, String))
    ensures
        match exhibition {
            Some(name) => res.0@ == name@ && res.1@ == slug_spec(name@),
            None => res.0@ == "-"@ && res.1@ == "-"@,
        },
{
    match exhibition {
        Some(name) => (String::from_str(name), slugify(name)),
        None => (String::from_str("-"), String::from_str("-")),
    }
}

} // verus!
