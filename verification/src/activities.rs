//! Picking the "extern" activities by their names.

use crate::rows::IdName;
use vstd::prelude::*;
use vstd::string::*;

verus! {

/// What the name of an extern activity begins with, once it is in lower
/// case and trimmed.
pub const EXTERN_PREFIX: &'static str = "extern";

/// Whether `c` is white space, as `char::is_whitespace` tells.
pub uninterp spec fn is_white_space(c: char) -> bool;

/// The lower-case form of a text, as `str::to_lowercase` makes it.
pub uninterp spec fn lowercase_text(text: Seq<char>) -> Seq<char>;

/// `char::is_whitespace`: whether the character has the Unicode property
/// White_Space. Trusted: the answer depends on the character alone.
pub assume_specification[ char::is_whitespace ](c: char) -> (white: bool)
    ensures
        white == is_white_space(c),
;

/// `str::to_lowercase`: the lower-case equivalent of the text as a new
/// `String`. Trusted: the result depends on the text alone.
pub assume_specification[ str::to_lowercase ](text: &str) -> (lowered: String)
    ensures
        lowered@ == lowercase_text(text@),
;

/// `text` without the white space it begins with.
pub open spec fn strip_leading(text: Seq<char>) -> Seq<char>
    decreases text.len(),
{
    if text.len() > 0 && is_white_space(text.first()) {
        strip_leading(text.drop_first())
    } else {
        text
    }
}

/// `text` without the white space it ends with.
pub open spec fn strip_trailing(text: Seq<char>) -> Seq<char>
    decreases text.len(),
{
    if text.len() > 0 && is_white_space(text.last()) {
        strip_trailing(text.drop_last())
    } else {
        text
    }
}

/// `text` without the white space at either end.
pub open spec fn trimmed(text: Seq<char>) -> Seq<char> {
    strip_trailing(strip_leading(text))
}

/// The number of white-space characters that `text` begins with.
pub open spec fn leading_space(text: Seq<char>) -> nat
    decreases text.len(),
{
    if text.len() > 0 && is_white_space(text.first()) {
        1 + leading_space(text.drop_first())
    } else {
        0
    }
}

/// The number of white-space characters that `text` ends with.
pub open spec fn trailing_space(text: Seq<char>) -> nat
    decreases text.len(),
{
    if text.len() > 0 && is_white_space(text.last()) {
        1 + trailing_space(text.drop_last())
    } else {
        0
    }
}

/// Where the trimmed text begins in `text`.
pub open spec fn trim_start(text: Seq<char>) -> int {
    leading_space(text) as int
}

/// Where the trimmed text ends in `text`.
pub open spec fn trim_end(text: Seq<char>) -> int {
    text.len() - trailing_space(text.skip(trim_start(text)))
}

/// Stripping at the front drops the white space that the text begins
/// with, up to its first other character, and nothing else.
pub proof fn lemma_strip_leading(text: Seq<char>)
    ensures
        leading_space(text) <= text.len(),
        strip_leading(text) == text.skip(leading_space(text) as int),
        forall|i: int| 0 <= i < leading_space(text) ==> is_white_space(#[trigger] text[i]),
        leading_space(text) < text.len() ==> !is_white_space(text[leading_space(text) as int]),
    decreases text.len(),
{
    if text.len() > 0 && is_white_space(text.first()) {
        let rest = text.drop_first();
        lemma_strip_leading(rest);
        assert(rest.skip(leading_space(rest) as int) =~= text.skip(leading_space(text) as int));
        assert forall|i: int| 0 <= i < leading_space(text) implies is_white_space(
            #[trigger] text[i],
        ) by {
            if i > 0 {
                assert(text[i] == rest[i - 1]);
            }
        }
        if leading_space(text) < text.len() {
            assert(text[leading_space(text) as int] == rest[leading_space(rest) as int]);
        }
    } else {
        assert(text.skip(0) =~= text);
    }
}

/// Stripping at the back drops the white space that the text ends with,
/// up to its last other character, and nothing else.
pub proof fn lemma_strip_trailing(text: Seq<char>)
    ensures
        trailing_space(text) <= text.len(),
        strip_trailing(text) == text.take(text.len() - trailing_space(text)),
        forall|i: int|
            text.len() - trailing_space(text) <= i < text.len() ==> is_white_space(
                #[trigger] text[i],
            ),
        trailing_space(text) < text.len() ==> !is_white_space(
            text[text.len() - trailing_space(text) - 1],
        ),
    decreases text.len(),
{
    if text.len() > 0 && is_white_space(text.last()) {
        let rest = text.drop_last();
        lemma_strip_trailing(rest);
        assert(rest.take(rest.len() - trailing_space(rest)) =~= text.take(
            text.len() - trailing_space(text),
        ));
        assert forall|i: int|
            text.len() - trailing_space(text) <= i < text.len() implies is_white_space(
            #[trigger] text[i],
        ) by {
            if i < text.len() - 1 {
                assert(text[i] == rest[i]);
            }
        }
        if trailing_space(text) < text.len() {
            assert(text[text.len() - trailing_space(text) - 1] == rest[rest.len() - trailing_space(
                rest,
            ) - 1]);
        }
    } else {
        assert(text.take(text.len() as int) =~= text);
    }
}

/// The trimmed text is the run of the text between its first and its last
/// character that is not white space: only white space stands before and
/// after it, and none at its ends.
pub proof fn lemma_trimmed_is_inner(text: Seq<char>)
    ensures
        0 <= trim_start(text) <= trim_end(text) <= text.len(),
        trimmed(text) == text.subrange(trim_start(text), trim_end(text)),
        forall|i: int| 0 <= i < trim_start(text) ==> is_white_space(#[trigger] text[i]),
        forall|i: int| trim_end(text) <= i < text.len() ==> is_white_space(#[trigger] text[i]),
        trim_start(text) < trim_end(text) ==> !is_white_space(text[trim_start(text)])
            && !is_white_space(text[trim_end(text) - 1]),
{
    let start = trim_start(text);
    let tail = text.skip(start);
    lemma_strip_leading(text);
    lemma_strip_trailing(tail);
    assert(tail.take(tail.len() - trailing_space(tail)) =~= text.subrange(start, trim_end(text)));
    assert forall|i: int| trim_end(text) <= i < text.len() implies is_white_space(
        #[trigger] text[i],
    ) by {
        assert(text[i] == tail[i - start]);
    }
    if start < trim_end(text) {
        assert(text[trim_end(text) - 1] == tail[tail.len() - trailing_space(tail) - 1]);
    }
}

/// Trimming a trimmed text changes nothing.
pub proof fn lemma_trimmed_twice(text: Seq<char>)
    ensures
        trimmed(trimmed(text)) == trimmed(text),
{
    lemma_trimmed_is_inner(text);
    let inner = trimmed(text);
    if inner.len() > 0 {
        assert(inner.first() == text[trim_start(text)]);
        assert(inner.last() == text[trim_end(text) - 1]);
    }
}

/// Whether `text` begins with `prefix`.
pub open spec fn has_prefix(text: Seq<char>, prefix: Seq<char>) -> bool {
    prefix.len() <= text.len() && text.subrange(0, prefix.len() as int) == prefix
}

/// Whether a name is that of an extern activity: in lower case and
/// without the white space around it, it begins with `extern`.
pub open spec fn is_extern_name(name: Seq<char>) -> bool {
    has_prefix(trimmed(lowercase_text(name)), EXTERN_PREFIX@)
}

/// The ids of the activities with an extern name, in the order of the
/// activities.
pub open spec fn extern_ids(activities: Seq<IdName>) -> Seq<i32> {
    activities.filter(|activity: IdName| is_extern_name(activity.name@)).map_values(
        |activity: IdName| activity.id,
    )
}

/// One more activity adds its id at the end where its name is extern, and
/// nothing where it is not.
pub proof fn lemma_extern_ids_push(activities: Seq<IdName>, activity: IdName)
    ensures
        extern_ids(activities.push(activity)) == if is_extern_name(activity.name@) {
            extern_ids(activities).push(activity.id)
        } else {
            extern_ids(activities)
        },
{
    let wanted = |activity: IdName| is_extern_name(activity.name@);
    activities.lemma_filter_push(activity, wanted);
    if is_extern_name(activity.name@) {
        assert(activities.filter(wanted).push(activity).map_values(|activity: IdName| activity.id)
            =~= activities.filter(wanted).map_values(|activity: IdName| activity.id).push(
            activity.id,
        ));
    }
}

/// Where no activity has an extern name, no id is picked.
pub proof fn lemma_extern_ids_of_none(activities: Seq<IdName>)
    requires
        forall|i: int| 0 <= i < activities.len() ==> !is_extern_name(#[trigger] activities[i].name@),
    ensures
        extern_ids(activities) == Seq::<i32>::empty(),
    decreases activities.len(),
{
    if activities.len() == 0 {
        assert(activities =~= Seq::empty());
        reveal(Seq::filter);
        assert(extern_ids(activities) =~= Seq::<i32>::empty());
    } else {
        lemma_extern_ids_of_none(activities.drop_last());
        lemma_extern_ids_push(activities.drop_last(), activities.last());
        assert(activities.drop_last().push(activities.last()) =~= activities);
    }
}

/// Removes the white space at either end of `text`.
pub fn trim(text: &str) -> (inner: &str)
    ensures
        inner@ == trimmed(text@),
{
    let length = text.unicode_len();
    let mut start: usize = 0;
    assert(text@.skip(0) =~= text@);
    while start < length && text.get_char(start).is_whitespace()
        invariant
            length == text@.len(),
            start <= length,
            strip_leading(text@) == strip_leading(text@.skip(start as int)),
        decreases length - start,
    {
        proof {
            assert(text@.skip(start as int).drop_first() =~= text@.skip(start + 1));
        }
        start = start + 1;
    }
    let mut end: usize = length;
    assert(text@.skip(start as int) =~= text@.subrange(start as int, end as int));
    while end > start && text.get_char(end - 1).is_whitespace()
        invariant
            length == text@.len(),
            start <= end <= length,
            trimmed(text@) == strip_trailing(text@.subrange(start as int, end as int)),
        decreases end - start,
    {
        proof {
            assert(text@.subrange(start as int, end as int).drop_last() =~= text@.subrange(
                start as int,
                end - 1,
            ));
        }
        end = end - 1;
    }
    text.substring_char(start, end)
}

/// Whether `text` begins with `prefix`.
pub fn starts_with(text: &str, prefix: &str) -> (found: bool)
    ensures
        found == has_prefix(text@, prefix@),
{
    let needed = prefix.unicode_len();
    if text.unicode_len() < needed {
        return false;
    }
    let mut i: usize = 0;
    while i < needed
        invariant
            i <= needed,
            needed == prefix@.len(),
            needed <= text@.len(),
            text@.subrange(0, i as int) == prefix@.subrange(0, i as int),
        decreases needed - i,
    {
        if text.get_char(i) != prefix.get_char(i) {
            assert(text@.subrange(0, needed as int)[i as int] != prefix@[i as int]);
            return false;
        }
        assert(text@.subrange(0, i + 1) =~= text@.subrange(0, i as int).push(text@[i as int]));
        assert(prefix@.subrange(0, i + 1) =~= prefix@.subrange(0, i as int).push(prefix@[i as int]));
        i = i + 1;
    }
    assert(prefix@.subrange(0, needed as int) =~= prefix@);
    true
}

/// Whether `name` is the name of an extern activity.
pub fn is_extern_activity(name: &str) -> (found: bool)
    ensures
        found == is_extern_name(name@),
{
    let lowered = name.to_lowercase();
    starts_with(trim(lowered.as_str()), EXTERN_PREFIX)
}

/// The ids of the activities with an extern name, in the order in which
/// the activities were given; none where no name is extern.
pub fn extern_activity_ids(activities: &Vec<IdName>) -> (ids: Vec<i32>)
    ensures
        ids@ == extern_ids(activities@),
{
    let mut ids: Vec<i32> = Vec::new();
    let mut i: usize = 0;
    proof {
        lemma_extern_ids_of_none(activities@.take(0));
    }
    while i < activities.len()
        invariant
            i <= activities.len(),
            ids@ == extern_ids(activities@.take(i as int)),
        decreases activities.len() - i,
    {
        proof {
            lemma_extern_ids_push(activities@.take(i as int), activities@[i as int]);
            assert(activities@.take(i as int).push(activities@[i as int]) =~= activities@.take(
                i + 1,
            ));
        }
        if is_extern_activity(activities[i].name.as_str()) {
            ids.push(activities[i].id);
        }
        i = i + 1;
    }
    assert(activities@.take(i as int) =~= activities@);
    ids
}

} // verus!
