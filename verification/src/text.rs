//! Lines of text as sequences of Unicode scalar values.
//!
//! Every offset in this crate counts scalar values, never bytes. A line is
//! viewed as a `Seq<char>` and a document as a `Seq<Seq<char>>`.

use vstd::prelude::*;
use vstd::string::*;

verus! {

/// `String::push` appends one scalar value to the end of the string, as its
/// documentation says. Verus does not check this.
pub assume_specification[ String::push ](s: &mut String, ch: char)
    ensures
        final(s)@ == old(s)@.push(ch),
;

/// The character that ends a line in a file and therefore never occurs inside
/// a line of the buffer.
pub open spec fn is_line_terminator(c: char) -> bool {
    c == '\n'
}

/// A line is clean when it holds no line terminator.
pub open spec fn line_is_clean(line: Seq<char>) -> bool {
    forall|i: int| 0 <= i < line.len() ==> !is_line_terminator(#[trigger] line[i])
}

/// A document is clean when each of its lines is.
pub open spec fn text_is_clean(lines: Seq<Seq<char>>) -> bool {
    forall|i: int| 0 <= i < lines.len() ==> line_is_clean(#[trigger] lines[i])
}

/// The number of characters of all lines together; line breaks do not count.
pub open spec fn total_chars(lines: Seq<Seq<char>>) -> nat
    decreases lines.len(),
{
    if lines.len() == 0 {
        0
    } else {
        total_chars(lines.drop_last()) + lines.last().len()
    }
}

/// The column that follows `col` once a tab is written there: the next
/// multiple of `tab_width` strictly to the right of `col`.
pub open spec fn next_tab_stop(col: nat, tab_width: nat) -> nat
    recommends
        tab_width > 0,
{
    (col + tab_width - (col % tab_width)) as nat
}

/// The column on screen of offset `x` in `line`: every character before `x`
/// takes one column, except a tab, which reaches to the next tab stop.
pub open spec fn visual_column(line: Seq<char>, x: nat, tab_width: nat) -> nat
    recommends
        x <= line.len(),
        tab_width > 0,
    decreases x,
{
    if x == 0 {
        0
    } else {
        let before = visual_column(line, (x - 1) as nat, tab_width);
        if line[x - 1] == '\t' {
            next_tab_stop(before, tab_width)
        } else {
            before + 1
        }
    }
}

/// A visual column never exceeds the offset times the tab width.
pub proof fn lemma_visual_column_bound(line: Seq<char>, x: nat, tab_width: nat)
    requires
        tab_width > 0,
    ensures
        visual_column(line, x, tab_width) <= x * tab_width,
    decreases x,
{
    if x > 0 {
        lemma_visual_column_bound(line, (x - 1) as nat, tab_width);
        let before = visual_column(line, (x - 1) as nat, tab_width);
        assert(before + tab_width <= x * tab_width) by (nonlinear_arith)
            requires
                before <= (x - 1) * tab_width,
        ;
        assert(before % tab_width >= 0) by (nonlinear_arith)
            requires
                tab_width > 0,
        ;
    }
}

/// The scalar values of a string, in order.
pub fn chars_of(line: &str) -> (v: Vec<char>)
    ensures
        v@ == line@,
{
    let mut v: Vec<char> = Vec::new();
    for c in it: line.chars()
        invariant
            v@ == it.seq().take(it.index() as int),
            it.seq() == line@,
    {
        v.push(c);
    }
    v
}

/// The string made of the scalar values `chars[from..to]`.
pub fn string_of(chars: &Vec<char>, from: usize, to: usize) -> (s: String)
    requires
        from <= to <= chars.len(),
    ensures
        s@ == chars@.subrange(from as int, to as int),
{
    let mut s = String::new();
    let mut i: usize = from;
    while i < to
        invariant
            from <= i <= to <= chars.len(),
            s@ == chars@.subrange(from as int, i as int),
        decreases to - i,
    {
        s.push(chars[i]);
        i = i + 1;
        assert(s@ =~= chars@.subrange(from as int, i as int));
    }
    s
}

/// The number of scalar values in a line.
pub fn char_count(line: &String) -> (n: usize)
    ensures
        n == line@.len(),
{
    line.as_str().unicode_len()
}

/// The part of a line between two character offsets.
pub fn slice(line: &String, from: usize, to: usize) -> (r: String)
    requires
        from <= to <= line@.len(),
    ensures
        r@ == line@.subrange(from as int, to as int),
{
    line.as_str().substring_char(from, to).to_owned()
}

/// Executable form of [`is_line_terminator`].
pub fn is_terminator(c: char) -> (b: bool)
    ensures
        b == is_line_terminator(c),
{
    c == '\n'
}

/// Whether a line holds no line terminator.
pub fn check_line_clean(line: &String) -> (b: bool)
    ensures
        b == line_is_clean(line@),
{
    let chars = chars_of(line.as_str());
    let mut i: usize = 0;
    while i < chars.len()
        invariant
            i <= chars.len(),
            chars@ == line@,
            line_is_clean(line@.take(i as int)),
        decreases chars.len() - i,
    {
        if is_terminator(chars[i]) {
            assert(is_line_terminator(line@[i as int]));
            return false;
        }
        assert forall|j: int| 0 <= j < i + 1 implies !is_line_terminator(
            #[trigger] line@.take(i + 1)[j],
        ) by {
            if j < i {
                assert(line@.take(i as int)[j] == line@[j]);
            }
        }
        i = i + 1;
    }
    assert(line@.take(i as int) == line@);
    true
}

/// Whether no line of a document holds a line terminator.
pub fn check_text_clean(lines: &Vec<String>) -> (b: bool)
    ensures
        b == text_is_clean(lines.deep_view()),
{
    let mut i: usize = 0;
    while i < lines.len()
        invariant
            i <= lines.len(),
            forall|j: int| 0 <= j < i ==> line_is_clean(#[trigger] lines.deep_view()[j]),
        decreases lines.len() - i,
    {
        if !check_line_clean(&lines[i]) {
            assert(!line_is_clean(lines.deep_view()[i as int]));
            return false;
        }
        i = i + 1;
    }
    true
}

/// Computes [`visual_column`]. The result is wide enough for any line and any
/// tab width that fit in memory.
pub fn compute_visual_column(line: &String, x: usize, tab_width: usize) -> (col: u128)
    requires
        x <= line@.len(),
        tab_width > 0,
    ensures
        col == visual_column(line@, x as nat, tab_width as nat),
{
    let chars = chars_of(line.as_str());
    let mut col: u128 = 0;
    let mut i: usize = 0;
    while i < x
        invariant
            i <= x <= chars.len(),
            chars@ == line@,
            tab_width > 0,
            col == visual_column(line@, i as nat, tab_width as nat),
        decreases x - i,
    {
        proof {
            lemma_visual_column_bound(line@, (i + 1) as nat, tab_width as nat);
            assert((i + 1) * tab_width <= usize::MAX * usize::MAX) by (nonlinear_arith)
                requires
                    0 <= i + 1 <= usize::MAX,
                    0 <= tab_width <= usize::MAX,
            ;
            assert(usize::MAX * usize::MAX <= u128::MAX) by (nonlinear_arith)
                requires
                    usize::MAX <= 0xffff_ffff_ffff_ffff,
            ;
        }
        if chars[i] == '\t' {
            let width = tab_width as u128;
            col = col + (width - col % width);
        } else {
            col = col + 1;
        }
        i = i + 1;
    }
    col
}

} // verus!
