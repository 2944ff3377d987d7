//! The line buffer: an ordered sequence of lines with atomic insertion,
//! removal, split and merge of lines.

use crate::errors::OutOfRangeError;
use crate::text::slice;
use vstd::prelude::*;
use vstd::string::*;

verus! {

/// The buffer with the lines `index` and `index + 1` joined into one.
pub open spec fn merged(lines: Seq<Seq<char>>, index: int) -> Seq<Seq<char>>
    recommends
        0 <= index,
        index + 1 < lines.len(),
{
    lines.take(index) + seq![lines[index] + lines[index + 1]] + lines.skip(index + 2)
}

/// The buffer without line `index`; the only line of a buffer is emptied
/// instead, so that a buffer never has no line.
pub open spec fn without_line(lines: Seq<Seq<char>>, index: int) -> Seq<Seq<char>>
    recommends
        0 <= index < lines.len(),
{
    if lines.len() == 1 {
        seq![Seq::<char>::empty()]
    } else {
        lines.remove(index)
    }
}

/// The number of characters of line `index`. Fails if there is no such line.
pub fn char_count(lines: &Vec<String>, index: usize) -> (r: Result<usize, OutOfRangeError>)
    ensures
        r is Ok <==> index < lines.len(),
        r matches Ok(n) ==> n == lines.deep_view()[index as int].len(),
        r matches Err(e) ==> e.index == index && e.limit == lines.len(),
{
    if index < lines.len() {
        Ok(lines[index].as_str().unicode_len())
    } else {
        Err(OutOfRangeError { index, limit: lines.len() })
    }
}

/// Sets `content` in as line `index`; the lines from there on move down by
/// one. Fails, and changes nothing, if `index` exceeds the number of lines.
pub fn insert_line(lines: &mut Vec<String>, index: usize, content: String) -> (r: Result<
    (),
    OutOfRangeError,
>)
    ensures
        r is Ok <==> index <= old(lines).len(),
        r is Ok ==> final(lines).deep_view() == old(lines).deep_view().insert(
            index as int,
            content@,
        ),
        r matches Err(e) ==> e.index == index && e.limit == old(lines).len() && final(lines).deep_view() == old(lines).deep_view(),
{
    if index <= lines.len() {
        let ghost was = lines.deep_view();
        lines.insert(index, content);
        assert(lines.deep_view() =~= was.insert(index as int, content@));
        Ok(())
    } else {
        Err(OutOfRangeError { index, limit: lines.len() })
    }
}

/// Takes line `index` out of the buffer and gives its content; the only
/// line of a buffer leaves an empty line behind. Fails, and changes nothing,
/// if there is no such line.
pub fn remove_line(lines: &mut Vec<String>, index: usize) -> (r: Result<String, OutOfRangeError>)
    ensures
        r is Ok <==> index < old(lines).len(),
        r matches Ok(content) ==> content@ == old(lines).deep_view()[index as int] && final(lines).deep_view() == without_line(old(lines).deep_view(), index as int),
        r matches Err(e) ==> e.index == index && e.limit == old(lines).len() && final(lines).deep_view() == old(lines).deep_view(),
{
    if index < lines.len() {
        let ghost was = lines.deep_view();
        let content = lines.remove(index);
        if lines.len() == 0 {
            lines.push(String::new());
        }
        assert(lines.deep_view() =~= without_line(was, index as int));
        Ok(content)
    } else {
        Err(OutOfRangeError { index, limit: lines.len() })
    }
}

/// The two halves of line `index` around the character offset `at_char`.
/// The buffer does not change. Fails if there is no such line or the offset
/// lies behind the end of the line.
pub fn split_line(lines: &Vec<String>, index: usize, at_char: usize) -> (r: Result<
    (String, String),
    OutOfRangeError,
>)
    ensures
        r is Ok <==> index < lines.len() && at_char <= lines.deep_view()[index as int].len(),
        r matches Ok((left, right)) ==> left@ == lines.deep_view()[index as int].take(
            at_char as int,
        ) && right@ == lines.deep_view()[index as int].skip(at_char as int),
        r matches Err(e) ==> if index < lines.len() {
            e.index == at_char && e.limit == lines.deep_view()[index as int].len()
        } else {
            e.index == index && e.limit == lines.len()
        },
{
    if index >= lines.len() {
        return Err(OutOfRangeError { index, limit: lines.len() });
    }
    let len = lines[index].as_str().unicode_len();
    if at_char > len {
        return Err(OutOfRangeError { index: at_char, limit: len });
    }
    Ok((slice(&lines[index], 0, at_char), slice(&lines[index], at_char, len)))
}

/// Appends line `index + 1` onto line `index` and takes it out of the
/// buffer. Fails, and changes nothing, if there is no line `index + 1`.
pub fn merge_line(lines: &mut Vec<String>, index: usize) -> (r: Result<(), OutOfRangeError>)
    ensures
        r is Ok <==> index + 1 < old(lines).len(),
        r is Ok ==> final(lines).deep_view() == merged(old(lines).deep_view(), index as int),
        r matches Err(e) ==> e.index == index && e.limit == old(lines).len() && final(lines).deep_view() == old(lines).deep_view(),
{
    let count = lines.len();
    if index >= count || index + 1 >= count {
        return Err(OutOfRangeError { index, limit: count });
    }
    let ghost was = lines.deep_view();
    let below = lines.remove(index + 1);
    lines[index].append(below.as_str());
    assert(lines.deep_view() =~= merged(was, index as int));
    Ok(())
}

} // verus!
