//! What holds of the line that the bar composes.

use crate::status_bar::{fallback_text, fragment, joined, status_line};
use vstd::prelude::*;

verus! {

/// A fragment opens with `[`, closes with `]`, and holds the text between
/// them, or the fallback text where the render failed.
pub proof fn lemma_fragment_shape(text: Option<Seq<char>>)
    ensures
        fragment(text).len() == 2 + (match text {
            Some(t) => t.len(),
            None => 3,
        }),
        fragment(text).first() == '[',
        fragment(text).last() == ']',
        fragment(text).subrange(1, fragment(text).len() - 1) == (match text {
            Some(t) => t,
            None => fallback_text(),
        }),
        fragment(None) == seq!['[', 'N', '/', 'A', ']'],
{
    let body = match text {
        Some(t) => t,
        None => fallback_text(),
    };
    assert(fragment(text).subrange(1, fragment(text).len() - 1) =~= body);
    assert(fragment(None) =~= seq!['[', 'N', '/', 'A', ']']);
}

/// The line is empty exactly when there are no sources. Otherwise it opens
/// with the `[` of the first fragment and closes with the `]` of the last: no
/// space stands before or after it.
pub proof fn lemma_status_line_ends(texts: Seq<Option<Seq<char>>>)
    ensures
        texts.len() == 0 <==> status_line(texts).len() == 0,
        texts.len() > 0 ==> status_line(texts).first() == '[' && status_line(texts).last() == ']',
    decreases texts.len(),
{
    if texts.len() == 1 {
        lemma_fragment_shape(texts[0]);
    } else if texts.len() > 1 {
        lemma_status_line_ends(texts.drop_last());
        lemma_fragment_shape(texts.last());
    }
}

/// The line of two runs of sources, one after the other, is the line of the
/// first and the line of the second, with one space between them where both
/// have sources.
pub proof fn lemma_status_line_concat(
    left: Seq<Option<Seq<char>>>,
    right: Seq<Option<Seq<char>>>,
)
    ensures
        status_line(left + right) == joined(status_line(left), status_line(right)),
    decreases right.len(),
{
    lemma_status_line_ends(left);
    lemma_status_line_ends(right);
    if right.len() == 0 {
        assert(left + right =~= left);
    } else if left.len() == 0 {
        assert(left + right =~= right);
    } else {
        let all = left + right;
        assert(all.drop_last() =~= left + right.drop_last());
        assert(all.last() == right.last());
        lemma_status_line_concat(left, right.drop_last());
        lemma_status_line_ends(right.drop_last());
        if right.len() == 1 {
            assert(left + right.drop_last() =~= left);
        } else {
            assert(status_line(all) =~= status_line(left) + seq![' '] + status_line(right));
        }
    }
}

/// With at least one source, the line is the first source's fragment and then,
/// for each further source in order, one space and that source's fragment.
pub proof fn lemma_status_line_first(texts: Seq<Option<Seq<char>>>)
    requires
        texts.len() > 0,
    ensures
        status_line(texts) == joined(fragment(texts[0]), status_line(texts.drop_first())),
        texts.len() > 1 ==> status_line(texts) == fragment(texts[0]) + seq![' '] + status_line(
            texts.drop_first(),
        ),
{
    let head = seq![texts[0]];
    assert(head + texts.drop_first() =~= texts);
    assert(status_line(head) == fragment(texts[0]));
    lemma_status_line_concat(head, texts.drop_first());
    lemma_status_line_ends(head);
    lemma_status_line_ends(texts.drop_first());
}

/// A source whose render fails shows as `[N/A]`, and the sources before and
/// after it show as they would without the failure: the line is the line of
/// those before, `[N/A]`, and the line of those after.
pub proof fn lemma_failed_render_is_local(texts: Seq<Option<Seq<char>>>, at: int)
    requires
        0 <= at < texts.len(),
    ensures
        status_line(texts.update(at, None)) == joined(
            joined(status_line(texts.take(at)), seq!['[', 'N', '/', 'A', ']']),
            status_line(texts.skip(at + 1)),
        ),
{
    let failed = texts.update(at, None);
    let middle = seq![None::<Seq<char>>];
    assert(failed =~= (texts.take(at) + middle) + texts.skip(at + 1));
    lemma_status_line_concat(texts.take(at) + middle, texts.skip(at + 1));
    lemma_status_line_concat(texts.take(at), middle);
    assert(status_line(middle) == fragment(None));
    lemma_fragment_shape(None);
}

/// Every source's render shows in the line in its place: the line is the line
/// of the sources before it, its fragment, and the line of those after.
pub proof fn lemma_status_line_at(texts: Seq<Option<Seq<char>>>, at: int)
    requires
        0 <= at < texts.len(),
    ensures
        status_line(texts) == joined(
            joined(status_line(texts.take(at)), fragment(texts[at])),
            status_line(texts.skip(at + 1)),
        ),
{
    let middle = seq![texts[at]];
    assert(texts =~= (texts.take(at) + middle) + texts.skip(at + 1));
    lemma_status_line_concat(texts.take(at) + middle, texts.skip(at + 1));
    lemma_status_line_concat(texts.take(at), middle);
    assert(status_line(middle) == fragment(texts[at]));
}

} // verus!
