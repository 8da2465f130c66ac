use vstd::prelude::*;

verus! {

/// What `std::path::Path::parent` gives for a path, as text: the path
/// without its final component, or none where the path ends in a root or a
/// prefix, or is empty.
pub uninterp spec fn parent_of(p: Seq<char>) -> Option<Seq<char>>;

/// What `std::path::Path::join` gives for a base path and a further path, as text.
pub uninterp spec fn joined(base: Seq<char>, name: Seq<char>) -> Seq<char>;

/// The text of an optional path.
pub open spec fn text_of(o: Option<String>) -> Option<Seq<char>> {
    match o {
        Some(s) => Some(s@),
        None => None,
    }
}

/// Relies on `std::path::Path::parent`, which works on the text of the path
/// alone. The parent of UTF-8 text is a prefix of it, so it converts back
/// to text without loss.
#[verifier::external_body]
pub(crate) fn parent(p: &str) -> (r: Option<String>)
    ensures
        text_of(r) == parent_of(p@),
{
    std::path::Path::new(p).parent().map(|q| q.to_string_lossy().into_owned())
}

/// Relies on `std::path::Path::join`, which works on the text of the two
/// paths alone. Joining UTF-8 text gives UTF-8 text, so it converts back
/// without loss.
#[verifier::external_body]
pub(crate) fn join(base: &str, name: &str) -> (r: String)
    ensures
        r@ == joined(base@, name@),
{
    std::path::Path::new(base).join(name).to_string_lossy().into_owned()
}

} // verus!
