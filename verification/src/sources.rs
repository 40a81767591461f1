//! The text in which GNOME exchanges its ordered list of input sources, such
//! as `[('xkb', 'us'), ('xkb', 'ca+eng')]`: reading the sources out of it,
//! finding one of them, and writing one more at its end.

use vstd::prelude::*;
use vstd::string::*;
use crate::text::{find_last, last_index_of, to_chars};
use crate::word::{is_word_char, word_char_at};

verus! {

/// One input source: its layout, and its variant where it has one.
pub type Source = (Seq<char>, Option<Seq<char>>);

/// Whether the text `('xkb', '` stands at `at`.
pub open spec fn opens_at(text: Seq<char>, at: int) -> bool {
    &&& 0 <= at
    &&& at + 9 <= text.len()
    &&& text[at] == '('
    &&& text[at + 1] == '\''
    &&& text[at + 2] == 'x'
    &&& text[at + 3] == 'k'
    &&& text[at + 4] == 'b'
    &&& text[at + 5] == '\''
    &&& text[at + 6] == ','
    &&& text[at + 7] == ' '
    &&& text[at + 8] == '\''
}

/// Whether the text `')` stands at `at`.
pub open spec fn closes_at(text: Seq<char>, at: int) -> bool {
    &&& 0 <= at
    &&& at + 2 <= text.len()
    &&& text[at] == '\''
    &&& text[at + 1] == ')'
}

/// Where the longest run of word characters that starts at `from` ends: the
/// position of the first character at or after `from` that is no word
/// character, or the end of the text.
pub open spec fn word_end(text: Seq<char>, from: int) -> int
    decreases text.len() - from,
{
    if 0 <= from < text.len() && is_word_char(text[from]) {
        word_end(text, from + 1)
    } else {
        from
    }
}

/// The input source whose tuple starts at `at`, with the position just behind
/// the tuple. A tuple is `('xkb', '`, a layout token, optionally `+` and a
/// variant token, and `')`. A token is a run of word characters, which may be
/// empty.
pub open spec fn source_at(text: Seq<char>, at: int) -> Option<(Source, int)> {
    if !opens_at(text, at) {
        None
    } else {
        let layout_end = word_end(text, at + 9);
        if closes_at(text, layout_end) {
            Some(((text.subrange(at + 9, layout_end), None), layout_end + 2))
        } else if layout_end < text.len() && text[layout_end] == '+' {
            let variant_end = word_end(text, layout_end + 1);
            if closes_at(text, variant_end) {
                Some(
                    (
                        (
                            text.subrange(at + 9, layout_end),
                            Some(text.subrange(layout_end + 1, variant_end)),
                        ),
                        variant_end + 2,
                    ),
                )
            } else {
                None
            }
        } else {
            None
        }
    }
}

/// The input sources found in `text` at or after `from`, in the order of the
/// text. The search goes from left to right: where a tuple starts it is
/// taken and the search goes on behind it, anything else is passed over.
pub open spec fn sources_from(text: Seq<char>, from: int) -> Seq<Source>
    decreases text.len() - from,
    via sources_from_terminates
{
    if from < 0 || from >= text.len() {
        Seq::empty()
    } else {
        match source_at(text, from) {
            Some((source, end)) => seq![source] + sources_from(text, end),
            None => sources_from(text, from + 1),
        }
    }
}

#[via_fn]
proof fn sources_from_terminates(text: Seq<char>, from: int) {
    if source_at(text, from) is Some {
        lemma_source_at_advances(text, from);
    }
}

/// The input sources that `text` lists.
pub open spec fn decode(text: Seq<char>) -> Seq<Source> {
    sources_from(text, 0)
}

/// The position of the first source in `sources`, at or after `from`, that is
/// `wanted`.
pub open spec fn position_from(sources: Seq<Source>, wanted: Source, from: int) -> Option<int>
    decreases sources.len() - from,
{
    if from < 0 || from >= sources.len() {
        None
    } else if sources[from] == wanted {
        Some(from)
    } else {
        position_from(sources, wanted, from + 1)
    }
}

/// The position of the first source in `sources` that is `wanted`: the same
/// layout and the same variant, where no variant matches no variant only.
pub open spec fn position(sources: Seq<Source>, wanted: Source) -> Option<int> {
    position_from(sources, wanted, 0)
}

/// The text of the tuple that stands for a source.
pub open spec fn tuple_text(layout: Seq<char>, variant: Option<Seq<char>>) -> Seq<char> {
    "('xkb', '"@ + layout + match variant {
        Some(variant) => "+"@ + variant,
        None => Seq::empty(),
    } + "')"@
}

/// The list text `blob` with one more source at its end. An empty text
/// becomes a list of that one source. In any other text the new tuple goes
/// in front of the last closing bracket, after a comma and a space, and the
/// rest of the text stays as it is; a text without a closing bracket stays
/// as it is altogether.
pub open spec fn appended(blob: Seq<char>, layout: Seq<char>, variant: Option<Seq<char>>) -> Seq<
    char,
> {
    if blob.len() == 0 {
        "["@ + tuple_text(layout, variant) + "]"@
    } else {
        let bracket = last_index_of(blob, ']');
        if bracket < 0 {
            blob
        } else {
            blob.subrange(0, bracket) + ", "@ + tuple_text(layout, variant) + blob.subrange(
                bracket,
                blob.len() as int,
            )
        }
    }
}

/// The run of word characters from `from` stays inside the text, holds word
/// characters only, and ends before a character that is none.
pub proof fn lemma_word_end(text: Seq<char>, from: int)
    requires
        0 <= from <= text.len(),
    ensures
        from <= word_end(text, from) <= text.len(),
        forall|k: int| from <= k < word_end(text, from) ==> is_word_char(#[trigger] text[k]),
        word_end(text, from) < text.len() ==> !is_word_char(text[word_end(text, from)]),
    decreases text.len() - from,
{
    if from < text.len() && is_word_char(text[from]) {
        lemma_word_end(text, from + 1);
    }
}

/// A tuple is never empty: it ends behind its start, inside the text.
pub proof fn lemma_source_at_advances(text: Seq<char>, at: int)
    requires
        source_at(text, at) is Some,
    ensures
        at + 11 <= source_at(text, at).unwrap().1 <= text.len(),
{
    lemma_word_end(text, at + 9);
    let layout_end = word_end(text, at + 9);
    if !closes_at(text, layout_end) {
        lemma_word_end(text, layout_end + 1);
    }
}

/// Whether `token` holds word characters only, as a layout or a variant has
/// to if the tuple written for it is to be read back.
pub open spec fn is_token(token: Seq<char>) -> bool {
    forall|k: int| 0 <= k < token.len() ==> is_word_char(#[trigger] token[k])
}

/// Whether `blob` is a list that can take one more source: the empty text,
/// which stands for a list that was never set, or a text with a closing
/// bracket behind whose last one no input source is found.
pub open spec fn is_open_list(blob: Seq<char>) -> bool {
    blob.len() == 0 || (last_index_of(blob, ']') >= 0 && sources_from(
        blob,
        last_index_of(blob, ']'),
    ).len() == 0)
}

/// Whether `text` ends the way GNOME writes a list: in a closing bracket, or
/// in a closing bracket and a line break.
pub open spec fn ends_as_list(text: Seq<char>) -> bool {
    ||| text.len() >= 1 && text.last() == ']'
    ||| text.len() >= 2 && text[text.len() - 2] == ']' && text.last() == '\n'
}

/// A text that ends the way GNOME writes a list can take one more source,
/// whatever stands in front of its end.
pub proof fn lemma_list_can_take_a_source(text: Seq<char>)
    requires
        ends_as_list(text),
    ensures
        is_open_list(text),
{
    let end: int = text.len() as int;
    assert(sources_from(text, end) =~= Seq::<Source>::empty());
    assert(!opens_at(text, end - 1));
    assert(sources_from(text, end - 1) =~= Seq::<Source>::empty());
    if text.last() == ']' {
        assert(last_index_of(text, ']') == end - 1);
    } else {
        assert(!opens_at(text, end - 2));
        assert(sources_from(text, end - 2) =~= Seq::<Source>::empty());
        assert(text.drop_last().last() == text[end - 2]);
        assert(last_index_of(text.drop_last(), ']') == end - 2);
        assert(last_index_of(text, ']') == end - 2);
    }
}

/// Whether `a` from `i` on holds the characters that `b` holds from `j` on.
pub open spec fn same_from(a: Seq<char>, i: int, b: Seq<char>, j: int) -> bool {
    &&& 0 <= i <= a.len()
    &&& 0 <= j <= b.len()
    &&& a.len() - i == b.len() - j
    &&& forall|p: int| i <= p < a.len() ==> #[trigger] a[p] == b[p - i + j]
}

/// Two texts that hold the same characters from `from` up to `limit`, and
/// no word character at `limit`, have the same run of word characters from
/// `from`, and it ends at `limit` or before.
proof fn lemma_word_end_agrees(a: Seq<char>, b: Seq<char>, from: int, limit: int)
    requires
        0 <= from <= limit,
        limit <= a.len(),
        limit <= b.len(),
        forall|k: int| from <= k < limit ==> a[k] == b[k],
        limit < a.len() ==> !is_word_char(a[limit]),
        limit < b.len() ==> !is_word_char(b[limit]),
    ensures
        word_end(a, from) == word_end(b, from),
        word_end(a, from) <= limit,
    decreases limit - from,
{
    if from < limit && is_word_char(a[from]) {
        lemma_word_end_agrees(a, b, from + 1, limit);
    }
}

/// A token that stands at `from`, with no word character behind it, is the
/// whole run of word characters from `from`.
proof fn lemma_word_end_of_token(text: Seq<char>, from: int, token: Seq<char>)
    requires
        0 <= from,
        from + token.len() <= text.len(),
        forall|k: int| 0 <= k < token.len() ==> text[from + k] == token[k],
        is_token(token),
        from + token.len() < text.len() ==> !is_word_char(text[from + token.len()]),
    ensures
        word_end(text, from) == from + token.len(),
    decreases token.len(),
{
    if token.len() > 0 {
        let shorter = token.drop_first();
        assert(text[from] == token[0]);
        assert forall|k: int| 0 <= k < shorter.len() implies text[from + 1 + k] == shorter[k] by {
            assert(shorter[k] == token[k + 1]);
            assert(text[from + (k + 1)] == token[k + 1]);
        }
        assert forall|k: int| 0 <= k < shorter.len() implies is_word_char(
            #[trigger] shorter[k],
        ) by {
            assert(shorter[k] == token[k + 1]);
        }
        lemma_word_end_of_token(text, from + 1, shorter);
    }
}

/// The tuple written for a layout and a variant that are tokens is read
/// back as that layout and that variant, and as nothing more.
pub proof fn lemma_tuple_is_read(
    text: Seq<char>,
    at: int,
    layout: Seq<char>,
    variant: Option<Seq<char>>,
)
    requires
        0 <= at,
        at + tuple_text(layout, variant).len() <= text.len(),
        forall|k: int|
            0 <= k < tuple_text(layout, variant).len() ==> text[at + k] == tuple_text(
                layout,
                variant,
            )[k],
        is_token(layout),
        variant is Some ==> is_token(variant->0),
    ensures
        source_at(text, at) == Some(
            ((layout, variant), at + tuple_text(layout, variant).len()),
        ),
{
    reveal_strlit("('xkb', '");
    reveal_strlit("+");
    reveal_strlit("')");
    let tuple = tuple_text(layout, variant);
    let opening = "('xkb', '"@;
    assert forall|k: int| 0 <= k < 9 implies text[at + k] == opening[k] by {
        assert(tuple[k] == opening[k]);
    }
    assert(text[at] == opening[0]);
    assert(text[at + 1] == opening[1]);
    assert(text[at + 2] == opening[2]);
    assert(text[at + 3] == opening[3]);
    assert(text[at + 4] == opening[4]);
    assert(text[at + 5] == opening[5]);
    assert(text[at + 6] == opening[6]);
    assert(text[at + 7] == opening[7]);
    assert(text[at + 8] == opening[8]);
    assert(opens_at(text, at));
    let width: int = layout.len() as int;
    let layout_start: int = at + 9;
    let layout_end: int = layout_start + width;
    assert forall|k: int| 0 <= k < layout.len() implies text[layout_start + k] == layout[k] by {
        assert(tuple[9 + k] == layout[k]);
        assert(text[at + (9 + k)] == tuple[9 + k]);
    }
    assert(text.subrange(layout_start, layout_end) =~= layout);
    match variant {
        None => {
            assert(tuple[9 + width] == '\'');
            assert(tuple[9 + width + 1] == ')');
            assert(text[at + (9 + width)] == '\'');
            assert(text[at + (9 + width + 1)] == ')');
            lemma_word_end_of_token(text, layout_start, layout);
            assert(closes_at(text, layout_end));
        },
        Some(given) => {
            let given_width: int = given.len() as int;
            let variant_start: int = layout_end + 1;
            let variant_end: int = variant_start + given_width;
            assert(tuple[9 + width] == '+');
            assert(text[at + (9 + width)] == '+');
            lemma_word_end_of_token(text, layout_start, layout);
            assert(!closes_at(text, layout_end));
            assert forall|k: int| 0 <= k < given.len() implies text[variant_start + k]
                == given[k] by {
                assert(tuple[10 + width + k] == given[k]);
                assert(text[at + (10 + width + k)] == tuple[10 + width + k]);
            }
            assert(tuple[10 + width + given_width] == '\'');
            assert(tuple[10 + width + given_width + 1] == ')');
            assert(text[at + (10 + width + given_width)] == '\'');
            assert(text[at + (10 + width + given_width + 1)] == ')');
            lemma_word_end_of_token(text, variant_start, given);
            assert(text.subrange(variant_start, variant_end) =~= given);
            assert(closes_at(text, variant_end));
        },
    }
}

/// In front of a closing bracket, and in front of a comma, a space and an
/// opening parenthesis, the same tuples are found, and none of them reaches
/// over that place.
proof fn lemma_source_at_agrees(a: Seq<char>, b: Seq<char>, at: int, limit: int)
    requires
        0 <= at < limit,
        limit < a.len(),
        limit + 3 <= b.len(),
        forall|k: int| 0 <= k < limit ==> a[k] == b[k],
        a[limit] == ']',
        b[limit] == ',',
        b[limit + 1] == ' ',
        b[limit + 2] == '(',
    ensures
        source_at(a, at) == source_at(b, at),
        source_at(a, at) is Some ==> source_at(a, at).unwrap().1 <= limit,
{
    if at + 9 <= limit {
        assert(opens_at(a, at) == opens_at(b, at));
        if opens_at(a, at) {
            lemma_word_end_agrees(a, b, at + 9, limit);
            let layout_end = word_end(a, at + 9);
            lemma_word_end(a, at + 9);
            assert(a.subrange(at + 9, layout_end) =~= b.subrange(at + 9, layout_end));
            assert(closes_at(a, layout_end) == closes_at(b, layout_end));
            if !closes_at(a, layout_end) && layout_end < limit && a[layout_end] == '+' {
                lemma_word_end_agrees(a, b, layout_end + 1, limit);
                let variant_end = word_end(a, layout_end + 1);
                lemma_word_end(a, layout_end + 1);
                assert(a.subrange(layout_end + 1, variant_end) =~= b.subrange(
                    layout_end + 1,
                    variant_end,
                ));
                assert(closes_at(a, variant_end) == closes_at(b, variant_end));
            }
        }
    } else {
        assert(!opens_at(a, at));
        assert(!opens_at(b, at));
    }
}

/// The sources found in front of `limit` are the same in both texts: each
/// list of sources is that common head, and then what is found from `limit`
/// on.
proof fn lemma_sources_before(a: Seq<char>, b: Seq<char>, from: int, limit: int) -> (head: Seq<
    Source,
>)
    requires
        0 <= from <= limit,
        limit < a.len(),
        limit + 3 <= b.len(),
        forall|k: int| 0 <= k < limit ==> a[k] == b[k],
        a[limit] == ']',
        b[limit] == ',',
        b[limit + 1] == ' ',
        b[limit + 2] == '(',
    ensures
        sources_from(a, from) == head + sources_from(a, limit),
        sources_from(b, from) == head + sources_from(b, limit),
    decreases limit - from,
{
    if from == limit {
        let head = Seq::<Source>::empty();
        assert(head + sources_from(a, limit) =~= sources_from(a, limit));
        assert(head + sources_from(b, limit) =~= sources_from(b, limit));
        head
    } else {
        lemma_source_at_agrees(a, b, from, limit);
        match source_at(a, from) {
            Some((source, end)) => {
                lemma_source_at_advances(a, from);
                let rest = lemma_sources_before(a, b, end, limit);
                let head = seq![source] + rest;
                assert(seq![source] + (rest + sources_from(a, limit)) =~= head + sources_from(
                    a,
                    limit,
                ));
                assert(seq![source] + (rest + sources_from(b, limit)) =~= head + sources_from(
                    b,
                    limit,
                ));
                head
            },
            None => lemma_sources_before(a, b, from + 1, limit),
        }
    }
}

/// Texts that go on in the same way have the same run of word characters.
proof fn lemma_word_end_shifts(a: Seq<char>, i: int, b: Seq<char>, j: int)
    requires
        same_from(a, i, b, j),
    ensures
        word_end(a, i) - i == word_end(b, j) - j,
    decreases a.len() - i,
{
    if i < a.len() {
        assert(a[i] == b[i - i + j]);
        if is_word_char(a[i]) {
            lemma_same_from_later(a, i, b, j, 1);
            lemma_word_end_shifts(a, i + 1, b, j + 1);
        }
    }
}

/// Texts that go on in the same way still do so further on.
proof fn lemma_same_from_later(a: Seq<char>, i: int, b: Seq<char>, j: int, by: int)
    requires
        same_from(a, i, b, j),
        0 <= by <= a.len() - i,
    ensures
        same_from(a, i + by, b, j + by),
{
    assert forall|p: int| i + by <= p < a.len() implies #[trigger] a[p] == b[p - (i + by) + (j
        + by)] by {
        assert(a[p] == b[p - i + j]);
    }
}

/// Texts that go on in the same way hold the same tuple there, or none.
proof fn lemma_source_at_shifts(a: Seq<char>, i: int, b: Seq<char>, j: int)
    requires
        same_from(a, i, b, j),
    ensures
        match source_at(a, i) {
            Some((source, end)) => source_at(b, j) == Some((source, end - i + j)),
            None => source_at(b, j) is None,
        },
{
    if i + 9 <= a.len() {
        assert(a[i] == b[i - i + j]);
        assert(a[i + 1] == b[i + 1 - i + j]);
        assert(a[i + 2] == b[i + 2 - i + j]);
        assert(a[i + 3] == b[i + 3 - i + j]);
        assert(a[i + 4] == b[i + 4 - i + j]);
        assert(a[i + 5] == b[i + 5 - i + j]);
        assert(a[i + 6] == b[i + 6 - i + j]);
        assert(a[i + 7] == b[i + 7 - i + j]);
        assert(a[i + 8] == b[i + 8 - i + j]);
    }
    if opens_at(a, i) {
        lemma_same_from_later(a, i, b, j, 9);
        lemma_word_end_shifts(a, i + 9, b, j + 9);
        lemma_word_end(a, i + 9);
        lemma_word_end(b, j + 9);
        let end_a = word_end(a, i + 9);
        let end_b = word_end(b, j + 9);
        let by = end_a - i;
        assert(end_b == j + by);
        assert(a.subrange(i + 9, end_a) =~= b.subrange(j + 9, end_b));
        if end_a < a.len() {
            assert(a[end_a] == b[end_a - i + j]);
        }
        if end_a + 1 < a.len() {
            assert(a[end_a + 1] == b[end_a + 1 - i + j]);
        }
        assert(closes_at(a, end_a) == closes_at(b, end_b));
        if !closes_at(a, end_a) && end_a < a.len() && a[end_a] == '+' {
            lemma_same_from_later(a, i, b, j, by + 1);
            lemma_word_end_shifts(a, end_a + 1, b, end_b + 1);
            lemma_word_end(a, end_a + 1);
            lemma_word_end(b, end_b + 1);
            let last_a = word_end(a, end_a + 1);
            let last_b = word_end(b, end_b + 1);
            let far = last_a - i;
            assert(last_b == j + far);
            assert(a.subrange(end_a + 1, last_a) =~= b.subrange(end_b + 1, last_b));
            if last_a < a.len() {
                assert(a[last_a] == b[last_a - i + j]);
            }
            if last_a + 1 < a.len() {
                assert(a[last_a + 1] == b[last_a + 1 - i + j]);
            }
            assert(closes_at(a, last_a) == closes_at(b, last_b));
        }
    }
}

/// Texts that go on in the same way list the same sources there.
proof fn lemma_sources_shift(a: Seq<char>, i: int, b: Seq<char>, j: int)
    requires
        same_from(a, i, b, j),
    ensures
        sources_from(a, i) == sources_from(b, j),
    decreases a.len() - i,
{
    if i < a.len() {
        lemma_source_at_shifts(a, i, b, j);
        match source_at(a, i) {
            Some((source, end)) => {
                lemma_source_at_advances(a, i);
                lemma_same_from_later(a, i, b, j, end - i);
                lemma_sources_shift(a, end, b, end - i + j);
            },
            None => {
                lemma_same_from_later(a, i, b, j, 1);
                lemma_sources_shift(a, i + 1, b, j + 1);
            },
        }
    }
}

/// A list written for a single source is read as that source.
proof fn lemma_single_source_is_read(layout: Seq<char>, variant: Option<Seq<char>>)
    requires
        is_token(layout),
        variant is Some ==> is_token(variant->0),
    ensures
        decode("["@ + tuple_text(layout, variant) + "]"@) == seq![(layout, variant)],
{
    reveal_strlit("('xkb', '");
    reveal_strlit("')");
    reveal_strlit("[");
    reveal_strlit("]");
    let tuple = tuple_text(layout, variant);
    let text = "["@ + tuple + "]"@;
    let source = (layout, variant);
    let end: int = 1 + tuple.len() as int;
    assert(text.len() == end + 1);
    assert(text[0] == '[');
    assert(!opens_at(text, 0));
    assert forall|k: int| 0 <= k < tuple.len() implies text[1 + k] == tuple[k] by {}
    lemma_tuple_is_read(text, 1, layout, variant);
    assert(!opens_at(text, end));
    assert(sources_from(text, end + 1) =~= Seq::<Source>::empty());
    assert(sources_from(text, end) =~= Seq::<Source>::empty());
    assert(sources_from(text, 1) =~= seq![source]);
    assert(sources_from(text, 0) =~= seq![source]);
}

/// A source written in front of a closing bracket is read between the
/// sources in front of the bracket and those behind it, which are read as
/// before.
proof fn lemma_source_before_bracket(
    blob: Seq<char>,
    bracket: int,
    layout: Seq<char>,
    variant: Option<Seq<char>>,
) -> (head: Seq<Source>)
    requires
        0 <= bracket < blob.len(),
        blob[bracket] == ']',
        is_token(layout),
        variant is Some ==> is_token(variant->0),
    ensures
        decode(blob) == head + sources_from(blob, bracket),
        decode(
            blob.subrange(0, bracket) + ", "@ + tuple_text(layout, variant) + blob.subrange(
                bracket,
                blob.len() as int,
            ),
        ) == head.push((layout, variant)) + sources_from(blob, bracket),
{
    reveal_strlit("('xkb', '");
    reveal_strlit("')");
    reveal_strlit(", ");
    let tuple = tuple_text(layout, variant);
    let text = blob.subrange(0, bracket) + ", "@ + tuple + blob.subrange(
        bracket,
        blob.len() as int,
    );
    let source = (layout, variant);
    let added: int = 2 + tuple.len() as int;
    assert(text.len() == blob.len() + added);
    assert forall|k: int| 0 <= k < bracket implies blob[k] == text[k] by {}
    assert(text[bracket] == ',');
    assert(text[bracket + 1] == ' ');
    assert(text[bracket + 2] == tuple[0]);
    let head = lemma_sources_before(blob, text, 0, bracket);
    assert(!opens_at(text, bracket));
    assert(!opens_at(text, bracket + 1));
    assert forall|k: int| 0 <= k < tuple.len() implies text[bracket + 2 + k] == tuple[k] by {}
    lemma_tuple_is_read(text, bracket + 2, layout, variant);
    assert(same_from(text, bracket + added, blob, bracket)) by {
        assert forall|p: int| bracket + added <= p < text.len() implies #[trigger] text[p]
            == blob[p - (bracket + added) + bracket] by {}
    }
    lemma_sources_shift(text, bracket + added, blob, bracket);
    let tail = sources_from(blob, bracket);
    assert(sources_from(text, bracket + 2) =~= seq![source] + tail);
    assert(sources_from(text, bracket + 1) =~= seq![source] + tail);
    assert(sources_from(text, bracket) =~= seq![source] + tail);
    assert(head + (seq![source] + tail) =~= head.push(source) + tail);
    head
}

/// Reading a list, writing one more source at its end and reading it again
/// gives every source that was read at first, in the same order, and behind
/// them the new source and nothing else. This holds of every list that can
/// take a source, for a layout and a variant that are tokens.
pub proof fn lemma_append_then_decode(
    blob: Seq<char>,
    layout: Seq<char>,
    variant: Option<Seq<char>>,
)
    requires
        is_open_list(blob),
        is_token(layout),
        variant is Some ==> is_token(variant->0),
    ensures
        decode(appended(blob, layout, variant)) == decode(blob).push((layout, variant)),
{
    let source = (layout, variant);
    if blob.len() == 0 {
        lemma_single_source_is_read(layout, variant);
        assert(decode(blob) =~= Seq::<Source>::empty());
        assert(seq![source] =~= decode(blob).push(source));
    } else {
        let bracket = last_index_of(blob, ']');
        crate::text::lemma_last_index_of(blob, ']');
        let head = lemma_source_before_bracket(blob, bracket, layout, variant);
        let tail = sources_from(blob, bracket);
        assert(tail =~= Seq::<Source>::empty());
        assert(head + tail =~= head);
        assert(head.push(source) + tail =~= head.push(source));
    }
}

/// The position that is found holds the source looked for, and no position
/// in front of it does; where none is found, no position holds it.
pub proof fn lemma_position(sources: Seq<Source>, wanted: Source)
    ensures
        match position(sources, wanted) {
            Some(index) => {
                &&& 0 <= index < sources.len()
                &&& sources[index] == wanted
                &&& forall|k: int| 0 <= k < index ==> sources[k] != wanted
            },
            None => forall|k: int| 0 <= k < sources.len() ==> sources[k] != wanted,
        },
{
    lemma_position_from(sources, wanted, 0);
}

proof fn lemma_position_from(sources: Seq<Source>, wanted: Source, from: int)
    requires
        0 <= from,
    ensures
        match position_from(sources, wanted, from) {
            Some(index) => {
                &&& from <= index < sources.len()
                &&& sources[index] == wanted
                &&& forall|k: int| from <= k < index ==> sources[k] != wanted
            },
            None => forall|k: int| from <= k < sources.len() ==> sources[k] != wanted,
        },
    decreases sources.len() - from,
{
    if from < sources.len() && sources[from] != wanted {
        lemma_position_from(sources, wanted, from + 1);
    }
}

/// A source that is looked for in a list and in one more source behind it
/// is found where it is found in the list; where the list has it not, it is
/// found behind the list exactly if the one more source is the one looked
/// for.
pub proof fn lemma_position_after_push(sources: Seq<Source>, last: Source, wanted: Source)
    ensures
        position(sources.push(last), wanted) == match position(sources, wanted) {
            Some(index) => Some(index),
            None => if last == wanted {
                Some(sources.len() as int)
            } else {
                None
            },
        },
{
    lemma_position_from_after_push(sources, last, wanted, 0);
}

proof fn lemma_position_from_after_push(
    sources: Seq<Source>,
    last: Source,
    wanted: Source,
    from: int,
)
    requires
        0 <= from <= sources.len(),
    ensures
        position_from(sources.push(last), wanted, from) == match position_from(
            sources,
            wanted,
            from,
        ) {
            Some(index) => Some(index),
            None => if last == wanted {
                Some(sources.len() as int)
            } else {
                None
            },
        },
    decreases sources.len() - from,
{
    if from < sources.len() {
        if sources[from] != wanted {
            lemma_position_from_after_push(sources, last, wanted, from + 1);
        }
    } else {
        reveal_with_fuel(position_from, 2);
    }
}

/// A source that a list lacks stands, once it is written at the end of the
/// list, at the position that is the length the list had: that is where the
/// index has to point. This holds of every list that can take a source, for
/// a layout and a variant that are tokens.
pub proof fn lemma_appended_source_is_found(
    blob: Seq<char>,
    layout: Seq<char>,
    variant: Option<Seq<char>>,
)
    requires
        is_open_list(blob),
        is_token(layout),
        variant is Some ==> is_token(variant->0),
        position(decode(blob), (layout, variant)) is None,
    ensures
        position(decode(appended(blob, layout, variant)), (layout, variant)) == Some(
            decode(blob).len() as int,
        ),
{
    lemma_append_then_decode(blob, layout, variant);
    lemma_position_after_push(decode(blob), (layout, variant), (layout, variant));
}

/// Where the run of word characters from `from` ends.
fn scan_word(text: &str, chars: &Vec<char>, from: usize) -> (end: usize)
    requires
        chars@ == text@,
        from <= chars.len(),
    ensures
        end == word_end(text@, from as int),
        from <= end <= chars.len(),
{
    let mut end: usize = from;
    while end < chars.len() && word_char_at(text, chars, end)
        invariant
            chars@ == text@,
            from <= end <= chars.len(),
            word_end(text@, from as int) == word_end(text@, end as int),
        decreases chars.len() - end,
    {
        end = end + 1;
    }
    end
}

/// Whether the text `')` stands at `at`.
fn closes(chars: &Vec<char>, at: usize) -> (found: bool)
    requires
        at <= chars.len(),
    ensures
        found == closes_at(chars@, at as int),
{
    chars.len() - at >= 2 && chars[at] == '\'' && chars[at + 1] == ')'
}

/// Whether the text `('xkb', '` stands at `at`.
fn opens(chars: &Vec<char>, at: usize) -> (found: bool)
    requires
        at <= chars.len(),
    ensures
        found == opens_at(chars@, at as int),
{
    chars.len() - at >= 9 && chars[at] == '(' && chars[at + 1] == '\'' && chars[at + 2] == 'x'
        && chars[at + 3] == 'k' && chars[at + 4] == 'b' && chars[at + 5] == '\'' && chars[at + 6]
        == ',' && chars[at + 7] == ' ' && chars[at + 8] == '\''
}

/// Reads the tuple that starts at `at`, if one does.
fn read_source(text: &str, chars: &Vec<char>, at: usize) -> (found: Option<
    ((String, Option<String>), usize),
>)
    requires
        chars@ == text@,
        at <= chars.len(),
    ensures
        match found {
            Some((source, end)) => source_at(text@, at as int) == Some(
                (source.deep_view(), end as int),
            ),
            None => source_at(text@, at as int) is None,
        },
{
    if !opens(chars, at) {
        return None;
    }
    let layout_end = scan_word(text, chars, at + 9);
    if closes(chars, layout_end) {
        let layout = String::from_str(text.substring_char(at + 9, layout_end));
        return Some(((layout, None), layout_end + 2));
    }
    if layout_end < chars.len() && chars[layout_end] == '+' {
        let variant_end = scan_word(text, chars, layout_end + 1);
        if closes(chars, variant_end) {
            let layout = String::from_str(text.substring_char(at + 9, layout_end));
            let variant = String::from_str(text.substring_char(layout_end + 1, variant_end));
            return Some(((layout, Some(variant)), variant_end + 2));
        }
    }
    None
}

/// Reads the list of input sources out of `formats`, the text in which GNOME
/// hands it out. Every tuple that is found counts, in the order of the
/// text; whatever else the text holds is passed over, so no text is refused
/// and an empty text gives an empty list.
pub fn parse_gnome_output(formats: &str) -> (sources: Vec<(String, Option<String>)>)
    ensures
        sources.deep_view() == decode(formats@),
{
    let chars = to_chars(formats);
    let mut sources: Vec<(String, Option<String>)> = Vec::new();
    let mut at: usize = 0;
    assert(sources.deep_view() =~= Seq::empty());
    while at < chars.len()
        invariant
            chars@ == formats@,
            at <= chars.len(),
            decode(formats@) == sources.deep_view() + sources_from(formats@, at as int),
        decreases chars.len() - at,
    {
        let ghost before = sources.deep_view();
        match read_source(formats, &chars, at) {
            Some((source, end)) => {
                proof {
                    lemma_source_at_advances(formats@, at as int);
                }
                let ghost found = source.deep_view();
                sources.push(source);
                proof {
                    assert(sources.deep_view() =~= before.push(found));
                    assert(before + (seq![found] + sources_from(formats@, end as int))
                        =~= before.push(found) + sources_from(formats@, end as int));
                }
                at = end;
            },
            None => {
                at = at + 1;
            },
        }
    }
    assert(sources.deep_view() + sources_from(formats@, at as int) =~= sources.deep_view());
    sources
}

/// Whether `source` has this layout and this variant.
fn is_source(source: &(String, Option<String>), layout: &String, variant: &Option<String>) -> (same:
    bool)
    ensures
        same == (source.deep_view() == (layout@, variant.deep_view())),
{
    if source.0 != *layout {
        return false;
    }
    match (&source.1, variant) {
        (Some(own), Some(wanted)) => *own == *wanted,
        (None, None) => true,
        _ => false,
    }
}

/// Looks for the source with this layout and this variant, and returns the
/// position of the first one. A source with another variant, or with one
/// where none is asked for, does not count.
pub fn find_source(
    sources: &Vec<(String, Option<String>)>,
    layout: &String,
    variant: &Option<String>,
) -> (found: Option<usize>)
    ensures
        match found {
            Some(index) => position(sources.deep_view(), (layout@, variant.deep_view())) == Some(
                index as int,
            ),
            None => position(sources.deep_view(), (layout@, variant.deep_view())) is None,
        },
{
    let ghost listed = sources.deep_view();
    let ghost wanted = (layout@, variant.deep_view());
    let mut index: usize = 0;
    while index < sources.len()
        invariant
            index <= sources.len(),
            listed == sources.deep_view(),
            wanted == (layout@, variant.deep_view()),
            position(listed, wanted) == position_from(listed, wanted, index as int),
        decreases sources.len() - index,
    {
        if is_source(&sources[index], layout, variant) {
            return Some(index);
        }
        index = index + 1;
    }
    None
}

/// Writes one more source at the end of the list text `blob`, as
/// [`appended`] says. What the text held stays in it, letter for letter.
pub fn append_source(blob: &str, layout: &str, variant: &Option<String>) -> (text: String)
    ensures
        text@ == appended(blob@, layout@, variant.deep_view()),
{
    let mut tuple = String::from_str("('xkb', '");
    tuple.append(layout);
    match variant {
        Some(variant) => {
            tuple.append("+");
            tuple.append(variant.as_str());
        },
        None => {},
    }
    tuple.append("')");
    assert(tuple@ =~= tuple_text(layout@, variant.deep_view()));
    let chars = to_chars(blob);
    if chars.len() == 0 {
        let mut text = String::from_str("[");
        text.append(tuple.as_str());
        text.append("]");
        return text;
    }
    match find_last(&chars, ']') {
        None => String::from_str(blob),
        Some(bracket) => {
            proof {
                crate::text::lemma_last_index_of(blob@, ']');
            }
            let mut text = String::from_str(blob.substring_char(0, bracket));
            text.append(", ");
            text.append(tuple.as_str());
            text.append(blob.substring_char(bracket, chars.len()));
            text
        },
    }
}

} // verus!
