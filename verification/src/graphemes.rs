//! Grapheme clusters of a text, and the strings built from them.

use unicode_segmentation::UnicodeSegmentation;
use vstd::prelude::*;

verus! {

/// The extended grapheme clusters of `text`, in order, as
/// `unicode_segmentation` cuts a non-empty text.
pub uninterp spec fn grapheme_clusters(text: Seq<char>) -> Seq<Seq<char>>;

/// The clusters of `text`: none for the empty text, and the extended grapheme
/// clusters otherwise.
pub open spec fn clusters(text: Seq<char>) -> Seq<Seq<char>> {
    if text.len() == 0 {
        Seq::empty()
    } else {
        grapheme_clusters(text)
    }
}

/// The text that the clusters `from..to` of `parts` spell.
pub open spec fn spelled(parts: Seq<Seq<char>>, from: int, to: int) -> Seq<char> {
    parts.subrange(from, to).flatten()
}

/// Calls `UnicodeSegmentation::graphemes` with extended clusters switched on
/// and copies each cluster into a `String`.
///
/// Trusted: the clusters are those named by `grapheme_clusters`, and they are
/// successive slices of `text` that cover it, so joined they give `text` back.
#[verifier::external_body]
fn segment(text: &str) -> (parts: Vec<String>)
    ensures
        parts.deep_view() == grapheme_clusters(text@),
        parts.deep_view().flatten() == text@,
{
    let mut parts: Vec<String> = Vec::new();
    for cluster in text.graphemes(true) {
        parts.push(cluster.to_string());
    }
    parts
}

/// Appends `c` to `out` with `String::push`.
///
/// Trusted: the text grows by exactly that character at its end.
#[verifier::external_body]
pub(crate) fn push_char(out: &mut String, c: char)
    ensures
        final(out)@ == old(out)@.push(c),
{
    out.push(c);
}

/// Splits `text` into its clusters.
pub fn clusters_of(text: &str) -> (parts: Vec<String>)
    ensures
        parts.deep_view() == clusters(text@),
        parts.deep_view().flatten() == text@,
{
    if text.is_empty() {
        let parts: Vec<String> = Vec::new();
        assert(parts.deep_view() =~= Seq::<Seq<char>>::empty());
        parts
    } else {
        segment(text)
    }
}

/// Appends the clusters `from..to` of `parts` to `out`.
pub(crate) fn append_clusters(out: &mut String, parts: &Vec<String>, from: usize, to: usize)
    requires
        from <= to <= parts.len(),
    ensures
        final(out)@ == old(out)@ + spelled(parts.deep_view(), from as int, to as int),
{
    let ghost all = parts.deep_view();
    let mut i: usize = from;
    assert(all.subrange(from as int, from as int) =~= Seq::<Seq<char>>::empty());
    while i < to
        invariant
            from <= i <= to <= parts.len(),
            all == parts.deep_view(),
            out@ == old(out)@ + spelled(all, from as int, i as int),
        decreases to - i,
    {
        proof {
            let before = all.subrange(from as int, i as int);
            assert(all.subrange(from as int, i + 1) =~= before.push(all[i as int]));
            before.lemma_flatten_push(all[i as int]);
            assert(all[i as int] == parts[i as int]@);
        }
        out.append(parts[i].as_str());
        i = i + 1;
    }
}

} // verus!
