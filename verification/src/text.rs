//! The few operations on text that translating packets needs.

use vstd::prelude::*;
use vstd::string::*;

verus! {

/// `text` with every occurrence of `pattern` replaced, found from left to
/// right and without overlap. An empty pattern occurs nowhere.
pub open spec fn replaced(text: Seq<char>, pattern: Seq<char>, replacement: Seq<char>) -> Seq<char>
    decreases text.len(),
{
    if pattern.len() == 0 || text.len() < pattern.len() {
        text
    } else if text.take(pattern.len() as int) == pattern {
        replacement + replaced(text.skip(pattern.len() as int), pattern, replacement)
    } else {
        seq![text[0]] + replaced(text.skip(1), pattern, replacement)
    }
}

/// Text that is shorter than the pattern holds no occurrence of it.
pub proof fn lemma_replaced_short(text: Seq<char>, pattern: Seq<char>, replacement: Seq<char>)
    requires
        text.len() < pattern.len(),
    ensures
        replaced(text, pattern, replacement) == text,
{
}

/// Whether `text` holds `pattern` at `position`.
fn holds_at(text: &str, position: usize, pattern: &str, length: usize) -> (found: bool)
    requires
        length == pattern@.len(),
        position + length <= text@.len() <= usize::MAX,
    ensures
        found == (text@.subrange(position as int, position + length) == pattern@),
{
    let mut index: usize = 0;
    while index < length
        invariant
            index <= length,
            length == pattern@.len(),
            position + length <= text@.len() <= usize::MAX,
            forall|i: int| 0 <= i < index ==> text@[position + i] == pattern@[i],
        decreases length - index,
    {
        if text.get_char(position + index) != pattern.get_char(index) {
            assert(text@.subrange(position as int, position + length)[index as int] != pattern@[index as int]);
            return false;
        }
        index += 1;
    }
    assert(text@.subrange(position as int, position + length) =~= pattern@);
    true
}

/// Replaces every occurrence of `pattern` in `text`, found from left to right
/// and without overlap. An empty pattern occurs nowhere.
pub fn replace(text: &str, pattern: &str, replacement: &str) -> (result: String)
    ensures
        result@ == replaced(text@, pattern@, replacement@),
{
    let length = text.unicode_len();
    let pattern_length = pattern.unicode_len();
    let mut result = String::new();
    let mut position: usize = 0;

    assert(text@.skip(0) =~= text@);
    assert(result@ + replaced(text@, pattern@, replacement@) =~= replaced(text@, pattern@, replacement@));

    while position < length
        invariant
            length == text@.len(),
            pattern_length == pattern@.len(),
            position <= length,
            result@ + replaced(text@.skip(position as int), pattern@, replacement@) == replaced(
                text@,
                pattern@,
                replacement@,
            ),
        decreases length - position,
    {
        let ghost rest = text@.skip(position as int);
        let ghost done = result@;
        if pattern_length > 0 && pattern_length <= length - position && holds_at(
            text,
            position,
            pattern,
            pattern_length,
        ) {
            result.append(replacement);
            proof {
                assert(rest.take(pattern_length as int) =~= text@.subrange(
                    position as int,
                    position + pattern_length,
                ));
                assert(rest.skip(pattern_length as int) =~= text@.skip(position + pattern_length));
                assert(done + replacement@ + replaced(
                    text@.skip(position + pattern_length),
                    pattern@,
                    replacement@,
                ) =~= done + (replacement@ + replaced(rest.skip(pattern_length as int), pattern@, replacement@)));
            }
            position += pattern_length;
        } else {
            result.append(text.substring_char(position, position + 1));
            proof {
                let next = text@.skip(position + 1);
                assert(rest.skip(1) =~= next);
                assert(text@.subrange(position as int, position + 1) =~= seq![rest[0]]);
                if pattern_length > 0 && pattern_length <= length - position {
                    assert(rest.take(pattern_length as int) =~= text@.subrange(
                        position as int,
                        position + pattern_length,
                    ));
                } else if pattern_length > 0 {
                    lemma_replaced_short(rest, pattern@, replacement@);
                    lemma_replaced_short(next, pattern@, replacement@);
                    assert(rest =~= seq![rest[0]] + next);
                } else {
                    assert(rest =~= seq![rest[0]] + next);
                }
                assert(done + seq![rest[0]] + replaced(next, pattern@, replacement@) =~= done + (seq![rest[0]]
                    + replaced(next, pattern@, replacement@)));
            }
            position += 1;
        }
    }
    proof {
        assert(text@.skip(position as int) =~= Seq::<char>::empty());
        assert(result@ + Seq::<char>::empty() =~= result@);
    }
    result
}

/// The parts collected so far and the part under way, after reading `text`
/// from left to right and closing a part at every separator. A part that is
/// empty when it is closed is dropped.
pub open spec fn split_progress(text: Seq<char>, separator: char) -> (Seq<Seq<char>>, Seq<char>)
    decreases text.len(),
{
    if text.len() == 0 {
        (Seq::empty(), Seq::empty())
    } else {
        let (parts, current) = split_progress(text.drop_last(), separator);
        if text.last() == separator {
            (with_part(parts, current), Seq::empty())
        } else {
            (parts, current.push(text.last()))
        }
    }
}

/// `parts` with `part` at its end, unless `part` is empty.
pub open spec fn with_part(parts: Seq<Seq<char>>, part: Seq<char>) -> Seq<Seq<char>> {
    if part.len() == 0 {
        parts
    } else {
        parts.push(part)
    }
}

/// The parts of `text` between separators, in order, without the empty ones.
pub open spec fn nonempty_parts(text: Seq<char>, separator: char) -> Seq<Seq<char>> {
    with_part(split_progress(text, separator).0, split_progress(text, separator).1)
}

/// The texts of a list of strings.
pub open spec fn texts(strings: Seq<String>) -> Seq<Seq<char>> {
    strings.map_values(|string: String| string@)
}

/// Splits `text` at every `separator` and keeps the parts that are not
/// empty.
pub fn split_nonempty(text: &str, separator: char) -> (parts: Vec<String>)
    ensures
        texts(parts@) == nonempty_parts(text@, separator),
{
    let length = text.unicode_len();
    let mut parts: Vec<String> = Vec::new();
    let mut start: usize = 0;
    let mut position: usize = 0;

    assert(text@.take(0) =~= Seq::<char>::empty());
    assert(texts(parts@) =~= Seq::<Seq<char>>::empty());
    assert(text@.subrange(0, 0) =~= Seq::<char>::empty());

    while position < length
        invariant
            length == text@.len(),
            start <= position <= length,
            split_progress(text@.take(position as int), separator) == (
                texts(parts@),
                text@.subrange(start as int, position as int),
            ),
        decreases length - position,
    {
        let character = text.get_char(position);
        proof {
            assert(text@.take(position + 1).drop_last() =~= text@.take(position as int));
            assert(text@.take(position + 1).last() == character);
        }
        if character == separator {
            if start < position {
                let ghost before = parts@;
                let part = String::from_str(text.substring_char(start, position));
                parts.push(part);
                assert(texts(parts@) =~= texts(before).push(part@));
            }
            start = position + 1;
            assert(text@.subrange(start as int, position + 1) =~= Seq::<char>::empty());
        } else {
            assert(text@.subrange(start as int, position + 1) =~= text@.subrange(
                start as int,
                position as int,
            ).push(character));
        }
        position += 1;
    }

    assert(text@.take(position as int) =~= text@);
    if start < position {
        let ghost before = parts@;
        let part = String::from_str(text.substring_char(start, position));
        parts.push(part);
        assert(texts(parts@) =~= texts(before).push(part@));
    }
    parts
}

/// The texts `first`, `second` and `third` joined into one string.
pub fn join3(first: &str, second: &str, third: &str) -> (joined: String)
    ensures
        joined@ == first@ + second@ + third@,
{
    String::from_str(first).concat(second).concat(third)
}

} // verus!
