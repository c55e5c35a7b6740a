//! Lines and surrounding white space in UTF-8 text held as bytes.

use vstd::prelude::*;
use vstd::slice::slice_subrange;
use crate::bytes::{has_at, matches_at};

verus! {

pub const LINE_FEED: u8 = 0x0A;

pub const CARRIAGE_RETURN: u8 = 0x0D;

/// Whether `b` encodes a white space character of one byte: a space, or one
/// of U+0009 to U+000D.
pub open spec fn is_space_1(b: u8) -> bool {
    b == 0x20 || (0x09 <= b && b <= 0x0D)
}

/// Whether two bytes encode a white space character: U+0085 or U+00A0.
pub open spec fn is_space_2(b0: u8, b1: u8) -> bool {
    b0 == 0xC2 && (b1 == 0x85 || b1 == 0xA0)
}

/// Whether three bytes encode a white space character: U+1680, U+2000 to
/// U+200A, U+2028, U+2029, U+202F, U+205F or U+3000.
pub open spec fn is_space_3(b0: u8, b1: u8, b2: u8) -> bool {
    ||| (b0 == 0xE1 && b1 == 0x9A && b2 == 0x80)
    ||| (b0 == 0xE2 && b1 == 0x80 && ((0x80 <= b2 && b2 <= 0x8A) || b2 == 0xA8 || b2 == 0xA9 || b2
        == 0xAF))
    ||| (b0 == 0xE2 && b1 == 0x81 && b2 == 0x9F)
    ||| (b0 == 0xE3 && b1 == 0x80 && b2 == 0x80)
}

/// The length in bytes of the white space character that `s` starts with, or
/// zero if it starts with none.
pub open spec fn leading_space(s: Seq<u8>) -> int {
    if s.len() >= 1 && is_space_1(s[0]) {
        1
    } else if s.len() >= 2 && is_space_2(s[0], s[1]) {
        2
    } else if s.len() >= 3 && is_space_3(s[0], s[1], s[2]) {
        3
    } else {
        0
    }
}

/// The length in bytes of the white space character that `s` ends with, or
/// zero if it ends with none.
pub open spec fn trailing_space(s: Seq<u8>) -> int {
    let n = s.len() as int;
    if n >= 1 && is_space_1(s[n - 1]) {
        1
    } else if n >= 2 && is_space_2(s[n - 2], s[n - 1]) {
        2
    } else if n >= 3 && is_space_3(s[n - 3], s[n - 2], s[n - 1]) {
        3
    } else {
        0
    }
}

/// `s` without the white space it starts with.
pub open spec fn trim_start(s: Seq<u8>) -> Seq<u8>
    decreases s.len(),
{
    if leading_space(s) > 0 {
        trim_start(s.skip(leading_space(s)))
    } else {
        s
    }
}

/// `s` without the white space it ends with.
pub open spec fn trim_end(s: Seq<u8>) -> Seq<u8>
    decreases s.len(),
{
    if trailing_space(s) > 0 {
        trim_end(s.take(s.len() - trailing_space(s)))
    } else {
        s
    }
}

/// `s` without the white space around it.
pub open spec fn trim(s: Seq<u8>) -> Seq<u8> {
    trim_end(trim_start(s))
}

/// The place of the first line feed at or behind `from`, or the length of
/// `data` if there is none.
pub open spec fn line_feed_from(data: Seq<u8>, from: int) -> int
    decreases data.len() - from,
{
    if from >= data.len() {
        data.len() as int
    } else if data[from] == LINE_FEED {
        from
    } else {
        line_feed_from(data, from + 1)
    }
}

/// Where the text of the line that starts at `from` ends: at its line feed,
/// or at the carriage return that stands directly before the line feed.
pub open spec fn line_stop(data: Seq<u8>, from: int) -> int {
    let feed = line_feed_from(data, from);
    if feed < data.len() && from < feed && data[feed - 1] == CARRIAGE_RETURN {
        feed - 1
    } else {
        feed
    }
}

/// The text of the line that starts at `from`, without its line ending.
pub open spec fn line_at(data: Seq<u8>, from: int) -> Seq<u8> {
    data.subrange(from, line_stop(data, from))
}

/// The first line, among those that start at or behind `from`, that begins
/// with `prefix`. `from` is the start of a line. Text that ends in a line feed
/// has no empty line behind it.
pub open spec fn find_line(data: Seq<u8>, from: int, prefix: Seq<u8>) -> Option<Seq<u8>>
    decreases data.len() - from,
    via find_line_decreases
{
    if from < 0 || from >= data.len() {
        None
    } else if has_at(line_at(data, from), 0, prefix) {
        Some(line_at(data, from))
    } else if line_feed_from(data, from) >= data.len() {
        None
    } else {
        find_line(data, line_feed_from(data, from) + 1, prefix)
    }
}

/// A line feed found from `from` on stands at or behind `from`.
pub proof fn lemma_line_feed_bounds(data: Seq<u8>, from: int)
    requires
        from <= data.len(),
    ensures
        from <= line_feed_from(data, from) <= data.len(),
    decreases data.len() - from,
{
    if from < data.len() && data[from] != LINE_FEED {
        lemma_line_feed_bounds(data, from + 1);
    }
}

#[via_fn]
proof fn find_line_decreases(data: Seq<u8>, from: int, prefix: Seq<u8>) {
    if from <= data.len() {
        lemma_line_feed_bounds(data, from);
    }
}

fn leading_space_len(s: &[u8]) -> (w: usize)
    ensures
        w == leading_space(s@),
{
    let n: usize = s.len();
    if n >= 1 && (s[0] == 0x20 || (0x09 <= s[0] && s[0] <= 0x0D)) {
        1
    } else if n >= 2 && s[0] == 0xC2 && (s[1] == 0x85 || s[1] == 0xA0) {
        2
    } else if n >= 3 && wide_space(s[0], s[1], s[2]) {
        3
    } else {
        0
    }
}

fn trailing_space_len(s: &[u8]) -> (w: usize)
    ensures
        w == trailing_space(s@),
{
    let n: usize = s.len();
    if n >= 1 && (s[n - 1] == 0x20 || (0x09 <= s[n - 1] && s[n - 1] <= 0x0D)) {
        1
    } else if n >= 2 && s[n - 2] == 0xC2 && (s[n - 1] == 0x85 || s[n - 1] == 0xA0) {
        2
    } else if n >= 3 && wide_space(s[n - 3], s[n - 2], s[n - 1]) {
        3
    } else {
        0
    }
}

fn wide_space(b0: u8, b1: u8, b2: u8) -> (r: bool)
    ensures
        r == is_space_3(b0, b1, b2),
{
    (b0 == 0xE1 && b1 == 0x9A && b2 == 0x80) || (b0 == 0xE2 && b1 == 0x80 && ((0x80 <= b2 && b2
        <= 0x8A) || b2 == 0xA8 || b2 == 0xA9 || b2 == 0xAF)) || (b0 == 0xE2 && b1 == 0x81 && b2
        == 0x9F) || (b0 == 0xE3 && b1 == 0x80 && b2 == 0x80)
}

/// Strips the white space around `s`.
pub fn trimmed<'a>(s: &'a [u8]) -> (t: &'a [u8])
    ensures
        t@ == trim(s@),
{
    let mut t: &'a [u8] = s;
    let mut w: usize = leading_space_len(t);
    while w > 0
        invariant
            w == leading_space(t@),
            trim_start(t@) == trim_start(s@),
        decreases t@.len(),
    {
        t = slice_subrange(t, w, t.len());
        w = leading_space_len(t);
    }
    let ghost front = t@;
    w = trailing_space_len(t);
    while w > 0
        invariant
            w == trailing_space(t@),
            trim_end(t@) == trim_end(front),
        decreases t@.len(),
    {
        t = slice_subrange(t, 0, t.len() - w);
        w = trailing_space_len(t);
    }
    t
}

/// Finds the place of the first line feed at or behind `from`.
pub fn next_line_feed(data: &[u8], from: usize) -> (at: usize)
    requires
        from <= data.len(),
    ensures
        at == line_feed_from(data@, from as int),
        from <= at <= data.len(),
{
    let mut i: usize = from;
    while i < data.len() && data[i] != LINE_FEED
        invariant
            from <= i <= data.len(),
            line_feed_from(data@, from as int) == line_feed_from(data@, i as int),
        decreases data.len() - i,
    {
        i += 1;
    }
    i
}

/// Finds the first line of `data` that begins with `prefix`.
pub fn first_line_with<'a>(data: &'a [u8], prefix: &[u8]) -> (r: Option<&'a [u8]>)
    ensures
        match r {
            Some(line) => find_line(data@, 0, prefix@) == Some(line@) && has_at(line@, 0, prefix@),
            None => find_line(data@, 0, prefix@) == None::<Seq<u8>>,
        },
{
    let mut from: usize = 0;
    while from < data.len()
        invariant
            from <= data.len(),
            find_line(data@, 0, prefix@) == find_line(data@, from as int, prefix@),
        decreases data.len() - from,
    {
        let feed: usize = next_line_feed(data, from);
        let stop: usize = if feed < data.len() && from < feed && data[feed - 1] == CARRIAGE_RETURN {
            feed - 1
        } else {
            feed
        };
        let line: &'a [u8] = slice_subrange(data, from, stop);
        if matches_at(line, 0, prefix) {
            return Some(line);
        }
        if feed == data.len() {
            return None;
        }
        from = feed + 1;
    }
    None
}

} // verus!
