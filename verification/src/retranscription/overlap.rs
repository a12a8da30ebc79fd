//! Removing what two neighbouring pieces of text say twice.
//!
//! When speech has to be cut, the later piece begins with a little audio of the earlier one, so a
//! few words may come out twice. Punctuation and spaces do not count when they are compared.

use vstd::prelude::*;

use crate::text;

verus! {

/// The longest repetition that is looked for, in letters and digits.
pub const MAX_OVERLAP_CHARS: usize = 16;

/// The shortest repetition that is removed: a shorter one may be meant.
pub const MIN_OVERLAP_CHARS: usize = 4;

/// Whether a character is a letter or a digit, by `char::is_alphanumeric`.
pub uninterp spec fn alphanumeric(c: char) -> bool;

/// `char::is_alphanumeric` tells letters and digits, by tables of the Unicode standard.
pub assume_specification[ char::is_alphanumeric ](c: char) -> (r: bool)
    ensures
        r == alphanumeric(c),
;

/// The characters of a text that are marked.
pub open spec fn marked_chars(chars: Seq<char>, marks: Seq<bool>) -> Seq<char>
    decreases chars.len(),
{
    if chars.len() == 0 {
        Seq::empty()
    } else if marks[chars.len() - 1] {
        marked_chars(chars.drop_last(), marks).push(chars.last())
    } else {
        marked_chars(chars.drop_last(), marks)
    }
}

/// The positions of the characters of a text that are marked.
pub open spec fn marked_positions(len: nat, marks: Seq<bool>) -> Seq<nat>
    decreases len,
{
    if len == 0 {
        Seq::empty()
    } else if marks[len - 1] {
        marked_positions((len - 1) as nat, marks).push((len - 1) as nat)
    } else {
        marked_positions((len - 1) as nat, marks)
    }
}

/// The last `length` marked characters of `previous` are the first ones of `current`.
pub open spec fn repeats(previous: Seq<char>, current: Seq<char>, length: int) -> bool {
    &&& MIN_OVERLAP_CHARS <= length <= MAX_OVERLAP_CHARS
    &&& length <= previous.len()
    &&& length <= current.len()
    &&& previous.skip(previous.len() - length) == current.take(length)
}

/// `length` is the longest repetition.
pub open spec fn is_longest_repeat(previous: Seq<char>, current: Seq<char>, length: int) -> bool {
    repeats(previous, current, length) && forall|other: int| #[trigger]
        repeats(previous, current, other) ==> other <= length
}

/// `result` is `current` without the longest repetition and what stands before its end, or all of
/// `current` where there is none.
pub open spec fn is_deduped(
    previous: Seq<char>,
    previous_marks: Seq<bool>,
    current: Seq<char>,
    current_marks: Seq<bool>,
    result: Seq<char>,
) -> bool {
    let before = marked_chars(previous, previous_marks);
    let after = marked_chars(current, current_marks);
    ||| (forall|length: int| !#[trigger] repeats(before, after, length)) && result == current
    ||| exists|length: int| #[trigger]
        is_longest_repeat(before, after, length) && result == current.skip(
            marked_positions(current.len(), current_marks)[length - 1] as int + 1)
}

/// Which characters of a text are letters or digits.
pub open spec fn significant(chars: Seq<char>) -> Seq<bool> {
    Seq::new(chars.len(), |i: int| alphanumeric(chars[i]))
}

proof fn marked_lengths(chars: Seq<char>, marks: Seq<bool>)
    requires
        chars.len() <= marks.len(),
    ensures
        marked_chars(chars, marks).len() == marked_positions(chars.len(), marks).len(),
        forall|i: int|
            0 <= i < marked_positions(chars.len(), marks).len() ==> #[trigger] marked_positions(
                chars.len(), marks)[i] < chars.len(),
        forall|i: int|
            0 <= i < marked_positions(chars.len(), marks).len() ==> #[trigger] marked_chars(
                chars, marks)[i] == chars[marked_positions(chars.len(), marks)[i] as int],
    decreases chars.len(),
{
    if chars.len() > 0 {
        marked_lengths(chars.drop_last(), marks);
        assert forall|i: int| 0 <= i < marked_positions(chars.len(), marks).len() implies
            #[trigger] marked_chars(chars, marks)[i] == chars[marked_positions(
            chars.len(), marks)[i] as int] by {
            let shorter = marked_positions((chars.len() - 1) as nat, marks);
            if i < shorter.len() {
                assert(marked_chars(chars.drop_last(), marks)[i] == chars.drop_last()[shorter[i]
                    as int]);
            }
        }
    }
}

/// The marked characters of a text, and where they stand.
fn collect_marked(chars: &Vec<char>, marks: &Vec<bool>) -> (r: (Vec<char>, Vec<usize>))
    requires
        chars@.len() == marks@.len(),
    ensures
        r.0@ == marked_chars(chars@, marks@),
        r.1@.len() == r.0@.len(),
        r.1@.len() == marked_positions(chars@.len(), marks@).len(),
        forall|i: int| 0 <= i < r.1@.len() ==> #[trigger] r.1@[i] == marked_positions(
            chars@.len(), marks@)[i],
{
    let mut found: Vec<char> = Vec::new();
    let mut positions: Vec<usize> = Vec::new();
    let mut i: usize = 0;
    while i < chars.len()
        invariant
            i <= chars@.len(),
            chars@.len() == marks@.len(),
            found@ == marked_chars(chars@.take(i as int), marks@),
            positions@.len() == found@.len(),
            positions@.len() == marked_positions(i as nat, marks@).len(),
            forall|j: int| 0 <= j < positions@.len() ==> #[trigger] positions@[j]
                == marked_positions(i as nat, marks@)[j],
        decreases chars@.len() - i,
    {
        assert(chars@.take(i + 1).drop_last() =~= chars@.take(i as int));
        if marks[i] {
            found.push(chars[i]);
            positions.push(i);
        }
        i = i + 1;
    }
    assert(chars@.take(i as int) =~= chars@);
    (found, positions)
}

/// Whether the last `length` characters of one list are the first ones of another.
fn tail_is_head(previous: &Vec<char>, current: &Vec<char>, length: usize) -> (r: bool)
    requires
        MIN_OVERLAP_CHARS <= length <= MAX_OVERLAP_CHARS,
        length <= previous@.len(),
        length <= current@.len(),
    ensures
        r == repeats(previous@, current@, length as int),
{
    let offset: usize = previous.len() - length;
    let mut i: usize = 0;
    while i < length
        invariant
            i <= length,
            offset + length == previous@.len(),
            length <= current@.len(),
            offset + length <= usize::MAX,
            forall|j: int| 0 <= j < i ==> previous@[offset + j] == current@[j],
        decreases length - i,
    {
        if previous[offset + i] != current[i] {
            assert(previous@.skip(offset as int)[i as int] != current@.take(
                length as int)[i as int]);
            return false;
        }
        i = i + 1;
    }
    assert(previous@.skip(offset as int) =~= current@.take(length as int));
    true
}

/// Removes from `current` the longest repetition of the end of `previous`. The marks say which
/// characters count.
pub fn drop_repetition(
    previous: &Vec<char>,
    previous_marks: &Vec<bool>,
    current: &Vec<char>,
    current_marks: &Vec<bool>,
) -> (r: String)
    requires
        previous@.len() == previous_marks@.len(),
        current@.len() == current_marks@.len(),
    ensures
        is_deduped(previous@, previous_marks@, current@, current_marks@, r@),
{
    let (before, _) = collect_marked(previous, previous_marks);
    let (after, positions) = collect_marked(current, current_marks);
    proof {
        marked_lengths(current@, current_marks@);
        assert(current@.subrange(0, current@.len() as int) =~= current@);
    }
    let total: usize = current.len();
    let mut length: usize = MAX_OVERLAP_CHARS;
    if before.len() < length {
        length = before.len();
    }
    if after.len() < length {
        length = after.len();
    }
    while length >= MIN_OVERLAP_CHARS
        invariant
            total == current@.len(),
            length <= MAX_OVERLAP_CHARS,
            length <= before@.len(),
            length <= after@.len(),
            before@ == marked_chars(previous@, previous_marks@),
            after@ == marked_chars(current@, current_marks@),
            positions@.len() == after@.len(),
            positions@.len() == marked_positions(current@.len(), current_marks@).len(),
            forall|i: int| 0 <= i < positions@.len() ==> #[trigger] positions@[i]
                == marked_positions(current@.len(), current_marks@)[i],
            forall|i: int|
                0 <= i < positions@.len() ==> #[trigger] marked_positions(
                    current@.len(), current_marks@)[i] < current@.len(),
            forall|other: int|
                other > length ==> !#[trigger] repeats(before@, after@, other),
        decreases length,
    {
        if tail_is_head(&before, &after, length) {
            let cut: usize = positions[length - 1];
            assert(cut == marked_positions(current@.len(), current_marks@)[length - 1]);
            assert(is_longest_repeat(before@, after@, length as int));
            let r = text::string_of(current, cut + 1, total);
            assert(current@.subrange(cut + 1, current@.len() as int) =~= current@.skip(cut + 1));
            return r;
        }
        length = length - 1;
    }
    text::string_of(current, 0, current.len())
}

/// Which characters of a text are letters or digits.
fn mark_significant(chars: &Vec<char>) -> (marks: Vec<bool>)
    ensures
        marks@ == significant(chars@),
{
    let mut marks: Vec<bool> = Vec::new();
    let mut i: usize = 0;
    while i < chars.len()
        invariant
            i <= chars@.len(),
            marks@.len() == i,
            forall|j: int| 0 <= j < i ==> marks@[j] == alphanumeric(chars@[j]),
        decreases chars@.len() - i,
    {
        marks.push(chars[i].is_alphanumeric());
        i = i + 1;
    }
    assert(marks@ =~= significant(chars@));
    marks
}

/// Removes from `current` what it repeats of the end of `previous`.
pub fn dedupe_leading_overlap(previous: &str, current: &str) -> (r: String)
    ensures
        is_deduped(previous@, significant(previous@), current@, significant(current@), r@),
{
    let previous_chars = text::chars_of(previous);
    let current_chars = text::chars_of(current);
    let previous_marks = mark_significant(&previous_chars);
    let current_marks = mark_significant(&current_chars);
    drop_repetition(&previous_chars, &previous_marks, &current_chars, &current_marks)
}

/// Law: what is left is the end of the text, and at most the letters and digits of the repetition
/// are taken away.
pub proof fn dedupe_keeps_the_end(
    previous: Seq<char>,
    previous_marks: Seq<bool>,
    current: Seq<char>,
    current_marks: Seq<bool>,
    result: Seq<char>,
)
    requires
        previous.len() == previous_marks.len(),
        current.len() == current_marks.len(),
        is_deduped(previous, previous_marks, current, current_marks, result),
    ensures
        result.len() <= current.len(),
        result == current.skip(current.len() - result.len()),
{
    marked_lengths(current, current_marks);
    assert(current.skip(0) =~= current);
}

/// Law: a text is left as it is unless at least four letters or digits in a row are repeated.
pub proof fn short_repetitions_are_kept(
    previous: Seq<char>,
    previous_marks: Seq<bool>,
    current: Seq<char>,
    current_marks: Seq<bool>,
    result: Seq<char>,
)
    requires
        marked_chars(previous, previous_marks).len() < MIN_OVERLAP_CHARS || marked_chars(
            current, current_marks).len() < MIN_OVERLAP_CHARS,
        is_deduped(previous, previous_marks, current, current_marks, result),
    ensures
        result == current,
{
}

/// The letters and digits of a text, in order.
pub open spec fn letters(chars: Seq<char>) -> Seq<char> {
    chars.filter(|c: char| alphanumeric(c))
}

proof fn letters_step(chars: Seq<char>)
    requires
        chars.len() > 0,
    ensures
        letters(chars) == if alphanumeric(chars.last()) {
            letters(chars.drop_last()).push(chars.last())
        } else {
            letters(chars.drop_last())
        },
{
    reveal(Seq::filter);
}

proof fn letters_of_nothing()
    ensures
        letters(Seq::empty()) == Seq::<char>::empty(),
{
    reveal(Seq::filter);
}

proof fn marked_are_letters(chars: Seq<char>, marks: Seq<bool>)
    requires
        chars.len() <= marks.len(),
        forall|i: int| 0 <= i < chars.len() ==> #[trigger] marks[i] == alphanumeric(chars[i]),
    ensures
        marked_chars(chars, marks) == letters(chars),
    decreases chars.len(),
{
    if chars.len() > 0 {
        letters_step(chars);
        assert forall|i: int| 0 <= i < chars.drop_last().len() implies #[trigger] marks[i]
            == alphanumeric(chars.drop_last()[i]) by {}
        marked_are_letters(chars.drop_last(), marks);
        assert(marks[chars.len() - 1] == alphanumeric(chars[chars.len() - 1]));
    } else {
        assert(chars =~= Seq::empty());
        letters_of_nothing();
    }
}

proof fn letters_up_to_a_position(chars: Seq<char>, marks: Seq<bool>, k: int)
    requires
        chars.len() <= marks.len(),
        forall|i: int| 0 <= i < chars.len() ==> #[trigger] marks[i] == alphanumeric(chars[i]),
        0 <= k < marked_positions(chars.len(), marks).len(),
    ensures
        ({
            let position = marked_positions(chars.len(), marks)[k] as int;
            &&& 0 <= position < chars.len()
            &&& alphanumeric(chars[position])
            &&& letters(chars.take(position + 1)) == letters(chars).take(k + 1)
            &&& k < letters(chars).len()
        }),
    decreases chars.len(),
{
    let shorter = chars.drop_last();
    let before = marked_positions((chars.len() - 1) as nat, marks);
    letters_step(chars);
    marked_are_letters(chars, marks);
    marked_are_letters(shorter, marks);
    marked_lengths(chars, marks);
    marked_lengths(shorter, marks);
    assert forall|i: int| 0 <= i < shorter.len() implies #[trigger] marks[i] == alphanumeric(
        shorter[i]) by {}
    if k < before.len() {
        letters_up_to_a_position(shorter, marks, k);
        let position = before[k] as int;
        assert(chars.take(position + 1) =~= shorter.take(position + 1));
        assert(letters(chars).take(k + 1) =~= letters(shorter).take(k + 1));
    } else {
        assert(marks[chars.len() - 1] == alphanumeric(chars[chars.len() - 1]));
        assert(chars.take(chars.len() as int) =~= chars);
        assert(letters(chars).take(k + 1) =~= letters(chars));
    }
}

/// Law: what is taken from the start of a text says again, in its letters and digits, how the text
/// before it ends. It is the longest such repetition of at least four and at most sixteen of them,
/// it ends with one of them, and nothing else is taken.
pub proof fn the_longest_repetition_is_removed(
    previous: Seq<char>,
    current: Seq<char>,
    result: Seq<char>,
)
    requires
        is_deduped(previous, significant(previous), current, significant(current), result),
    ensures
        result.len() <= current.len(),
        ({
            let removed = current.take(current.len() - result.len());
            let before = letters(previous);
            let said = letters(current);
            let repeated = letters(removed);
            &&& current == removed + result
            &&& removed.len() > 0 ==> {
                &&& 4 <= repeated.len() <= 16
                &&& repeated.len() <= before.len()
                &&& repeated == before.skip(before.len() - repeated.len())
                &&& alphanumeric(removed.last())
            }
            &&& forall|k: int|
                4 <= k <= 16 && repeated.len() < k <= before.len() && k <= said.len()
                    ==> before.skip(before.len() - k) != #[trigger] said.take(k)
        }),
{
    let marks = significant(current);
    marked_are_letters(previous, significant(previous));
    marked_are_letters(current, marks);
    marked_lengths(current, marks);
    let before = letters(previous);
    let said = letters(current);
    let removed = current.take(current.len() - result.len());
    if forall|length: int| !#[trigger] repeats(before, said, length) {
        assert(removed =~= Seq::empty());
        letters_of_nothing();
        assert(current =~= removed + result);
        assert forall|k: int|
            4 <= k <= 16 && letters(removed).len() < k <= before.len() && k <= said.len() implies
            before.skip(before.len() - k) != #[trigger] said.take(k) by {
            assert(!repeats(before, said, k));
        }
    } else {
        let length = choose|length: int| #[trigger]
            is_longest_repeat(before, said, length) && result == current.skip(
                marked_positions(current.len(), marks)[length - 1] as int + 1);
        letters_up_to_a_position(current, marks, length - 1);
        let position = marked_positions(current.len(), marks)[length - 1] as int;
        assert(removed =~= current.take(position + 1));
        assert(current =~= removed + result);
        assert forall|k: int|
            4 <= k <= 16 && letters(removed).len() < k <= before.len() && k <= said.len() implies
            before.skip(before.len() - k) != #[trigger] said.take(k) by {
            if repeats(before, said, k) {
                assert(k <= length);
            }
        }
    }
}

/// Law: what is left of a text is fixed by the two texts alone.
pub proof fn what_is_left_is_unique(
    previous: Seq<char>,
    current: Seq<char>,
    a: Seq<char>,
    b: Seq<char>,
)
    requires
        is_deduped(previous, significant(previous), current, significant(current), a),
        is_deduped(previous, significant(previous), current, significant(current), b),
    ensures
        a == b,
{
    let before = marked_chars(previous, significant(previous));
    let after = marked_chars(current, significant(current));
    let marks = significant(current);
    if exists|length: int| #[trigger] repeats(before, after, length) {
        let x = choose|length: int| #[trigger]
            is_longest_repeat(before, after, length) && a == current.skip(
                marked_positions(current.len(), marks)[length - 1] as int + 1);
        let y = choose|length: int| #[trigger]
            is_longest_repeat(before, after, length) && b == current.skip(
                marked_positions(current.len(), marks)[length - 1] as int + 1);
        assert(repeats(before, after, x) && repeats(before, after, y));
        assert(x == y);
    }
}

} // verus!
