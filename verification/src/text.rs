//! Text operations on `str` that the formatter needs, each proved against a
//! statement over sequences of characters.

use vstd::prelude::*;
use vstd::std_specs::iter::IteratorSpec;

verus! {

/// A text that may be absent, as a mathematical value.
pub open spec fn optional_text(text: Option<String>) -> Option<Seq<char>> {
    match text {
        Some(t) => Some(t@),
        None => None,
    }
}

/// Whether `text` has two colons in a row at `at`.
pub open spec fn separator_at(text: Seq<char>, at: int) -> bool {
    0 <= at && at + 1 < text.len() && text[at] == ':' && text[at + 1] == ':'
}

/// Where the last segment of `text` begins when `text` is cut at each `::`,
/// the separators being found from the left and never overlapping: the scan
/// stands at `from`, and `start` is where the segment it is in began.
pub open spec fn last_segment_start(text: Seq<char>, from: int, start: int) -> int
    decreases text.len() - from,
{
    if from < 0 || from + 1 >= text.len() {
        start
    } else if separator_at(text, from) {
        last_segment_start(text, from + 2, from + 2)
    } else {
        last_segment_start(text, from + 1, start)
    }
}

/// The part of a qualified name behind its last `::`; the whole name where it
/// has none.
pub open spec fn simple_name(name: Seq<char>) -> Seq<char> {
    name.subrange(last_segment_start(name, 0, 0), name.len() as int)
}

/// The scan never leaves the text: its result lies between `start` and the end.
pub proof fn lemma_last_segment_start_bounds(text: Seq<char>, from: int, start: int)
    requires
        0 <= start <= from <= text.len(),
    ensures
        start <= last_segment_start(text, from, start) <= text.len(),
    decreases text.len() - from,
{
    if from + 1 >= text.len() {
    } else if separator_at(text, from) {
        lemma_last_segment_start_bounds(text, from + 2, from + 2);
    } else {
        lemma_last_segment_start_bounds(text, from + 1, start);
    }
}

/// Whether two texts hold the same characters.
pub fn str_eq(a: &str, b: &str) -> (same: bool)
    ensures
        same == (a@ == b@),
{
    let mut left = a.chars();
    let mut right = b.chars();
    let ghost mut i: int = 0;
    loop
        invariant
            0 <= i <= a@.len(),
            i <= b@.len(),
            left.remaining() == a@.subrange(i, a@.len() as int),
            right.remaining() == b@.subrange(i, b@.len() as int),
            a@.subrange(0, i) == b@.subrange(0, i),
        decreases a@.len() - i,
    {
        match left.next() {
            None => {
                let rest = right.next();
                proof {
                    if rest is None {
                        assert(a@ =~= a@.subrange(0, i));
                        assert(b@ =~= b@.subrange(0, i));
                    }
                }
                return rest.is_none();
            },
            Some(x) => {
                match right.next() {
                    None => {
                        return false;
                    },
                    Some(y) => {
                        if x != y {
                            assert(a@[i] != b@[i]);
                            return false;
                        }
                        proof {
                            assert(a@.subrange(0, i + 1) =~= a@.subrange(0, i).push(a@[i]));
                            assert(b@.subrange(0, i + 1) =~= b@.subrange(0, i).push(b@[i]));
                            i = i + 1;
                        }
                    },
                }
            },
        }
    }
}

/// Whether `text` begins with the characters of `prefix`.
pub fn starts_with(text: &str, prefix: &str) -> (found: bool)
    ensures
        found == prefix@.is_prefix_of(text@),
{
    let mut rest = text.chars();
    let mut wanted = prefix.chars();
    let ghost mut i: int = 0;
    loop
        invariant
            0 <= i <= prefix@.len(),
            i <= text@.len(),
            rest.remaining() == text@.subrange(i, text@.len() as int),
            wanted.remaining() == prefix@.subrange(i, prefix@.len() as int),
            text@.subrange(0, i) == prefix@.subrange(0, i),
        decreases prefix@.len() - i,
    {
        match wanted.next() {
            None => {
                assert(prefix@ =~= prefix@.subrange(0, i));
                return true;
            },
            Some(w) => {
                match rest.next() {
                    None => {
                        return false;
                    },
                    Some(c) => {
                        if c != w {
                            return false;
                        }
                        proof {
                            assert(text@.subrange(0, i + 1) =~= text@.subrange(0, i).push(text@[i]));
                            assert(prefix@.subrange(0, i + 1) =~= prefix@.subrange(0, i).push(
                                prefix@[i],
                            ));
                            i = i + 1;
                        }
                    },
                }
            },
        }
    }
}

/// The last segment of a `::`-qualified name.
pub fn last_segment(name: &str) -> (segment: String)
    ensures
        segment@ == simple_name(name@),
{
    let total = name.unicode_len();
    let mut rest = name.chars();
    let mut index: usize = 0;
    let mut start: usize = 0;
    let mut pending: bool = false;
    loop
        invariant
            0 <= start <= index <= total == name@.len(),
            rest.remaining() == name@.subrange(index as int, name@.len() as int),
            pending ==> index >= 1 && name@[index - 1] == ':' && start <= index - 1,
            last_segment_start(name@, 0, 0) == last_segment_start(
                name@,
                if pending { index - 1 } else { index as int },
                start as int,
            ),
        ensures
            index == total,
            0 <= start <= total == name@.len(),
            pending ==> index >= 1 && start <= index - 1,
            last_segment_start(name@, 0, 0) == last_segment_start(
                name@,
                if pending { index - 1 } else { index as int },
                start as int,
            ),
        decreases name@.len() - index,
    {
        match rest.next() {
            None => {
                break;
            },
            Some(c) => {
                assert(c == name@[index as int]);
                if c == ':' && pending {
                    assert(separator_at(name@, index - 1));
                    index = index + 1;
                    start = index;
                    pending = false;
                } else {
                    proof {
                        if pending {
                            assert(!separator_at(name@, index - 1));
                        }
                        if c != ':' {
                            assert(!separator_at(name@, index as int));
                            assert(last_segment_start(name@, index as int, start as int)
                                == last_segment_start(name@, index + 1, start as int));
                        }
                    }
                    pending = c == ':';
                    index = index + 1;
                }
            },
        }
    }
    name.substring_char(start, total).to_owned()
}

/// A scan that meets no separator ends where it began.
pub proof fn lemma_scan_without_separator(text: Seq<char>, from: int, start: int)
    requires
        0 <= from,
        forall|i: int| from <= i ==> !separator_at(text, i),
    ensures
        last_segment_start(text, from, start) == start,
    decreases text.len() - from,
{
    if from + 1 < text.len() {
        assert(!separator_at(text, from));
        lemma_scan_without_separator(text, from + 1, start);
    }
}

/// No separator lies behind the point where a scan ends.
pub proof fn lemma_scan_leaves_no_separator(text: Seq<char>, from: int, start: int)
    requires
        0 <= start <= from,
        forall|i: int| start <= i < from ==> !separator_at(text, i),
    ensures
        forall|i: int| last_segment_start(text, from, start) <= i ==> !separator_at(text, i),
    decreases text.len() - from,
{
    if from + 1 >= text.len() {
    } else if separator_at(text, from) {
        lemma_scan_leaves_no_separator(text, from + 2, from + 2);
    } else {
        lemma_scan_leaves_no_separator(text, from + 1, start);
    }
}

/// A scan ends at the beginning of the text or right behind a separator.
pub proof fn lemma_scan_ends_behind_separator(text: Seq<char>, from: int, start: int)
    requires
        0 <= start <= from,
        start == 0 || separator_at(text, start - 2),
    ensures
        last_segment_start(text, from, start) == 0 || separator_at(
            text,
            last_segment_start(text, from, start) - 2,
        ),
    decreases text.len() - from,
{
    if from + 1 >= text.len() {
    } else if separator_at(text, from) {
        lemma_scan_ends_behind_separator(text, from + 2, from + 2);
    } else {
        lemma_scan_ends_behind_separator(text, from + 1, start);
    }
}

/// A name without `::` is its own simple name.
pub proof fn lemma_simple_name_of_unqualified(name: Seq<char>)
    requires
        forall|i: int| !separator_at(name, i),
    ensures
        simple_name(name) == name,
{
    lemma_scan_without_separator(name, 0, 0);
    assert(name.subrange(0, name.len() as int) =~= name);
}

/// A simple name is an end piece of the name it was taken from, holds no `::`
/// itself, and either is the whole name or stands right behind a `::`.
pub proof fn lemma_simple_name_is_last_segment(name: Seq<char>)
    ensures
        simple_name(name).len() <= name.len(),
        simple_name(name) == name.subrange(
            name.len() - simple_name(name).len(),
            name.len() as int,
        ),
        forall|i: int| !separator_at(simple_name(name), i),
        simple_name(name) == name || separator_at(
            name,
            name.len() - simple_name(name).len() - 2,
        ),
{
    let cut = last_segment_start(name, 0, 0);
    lemma_last_segment_start_bounds(name, 0, 0);
    lemma_scan_leaves_no_separator(name, 0, 0);
    lemma_scan_ends_behind_separator(name, 0, 0);
    assert forall|i: int| !separator_at(simple_name(name), i) by {
        if separator_at(simple_name(name), i) {
            assert(separator_at(name, cut + i));
        }
    }
    if cut == 0 {
        assert(name.subrange(0, name.len() as int) =~= name);
    }
}

} // verus!
