use vstd::prelude::*;

verus! {

/// `list` with `sep` between each two neighbours.
pub open spec fn seq_join(list: Seq<Seq<char>>, sep: Seq<char>) -> Seq<char>
    decreases list.len(),
{
    if list.len() == 0 {
        Seq::empty()
    } else if list.len() == 1 {
        list[0]
    } else {
        seq_join(list.drop_last(), sep) + sep + list.last()
    }
}

/// Appends one character (`String::push`).
#[verifier::external_body]
pub(crate) fn push_char(s: &mut String, c: char)
    ensures
        final(s)@ == old(s)@.push(c),
{
    s.push(c);
}

/// The texts of `items`, in order.
pub open spec fn texts_of(items: Seq<String>) -> Seq<Seq<char>> {
    items.map_values(|s: String| s@)
}

/// `itertools::join`: writes the items in order with `sep` between each two
/// neighbours; no items give the empty string. Each item is written through
/// `Display`, which for a `String` is its text unchanged.
#[verifier::external_body]
pub(crate) fn join_texts(items: &Vec<String>, sep: &str) -> (res: String)
    ensures
        res@ == seq_join(texts_of(items@), sep@),
{
    itertools::join(items.iter(), sep)
}

/// The text that `Debug` writes for a string: the string in double quotes,
/// with the characters that need it escaped.
pub uninterp spec fn spec_debug_quoted(s: Seq<char>) -> Seq<char>;

/// `format!("{:?}", s)`: the `Debug` text of a string slice.
#[verifier::external_body]
pub(crate) fn debug_quoted(s: &str) -> (res: String)
    ensures
        res@ == spec_debug_quoted(s@),
{
    format!("{:?}", s)
}

} // verus!
