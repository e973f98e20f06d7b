//! A shell profile as the installer sees it: a sequence of bytes that is
//! read line by line, and to which one line may be added.
//!
//! A profile is never rewritten. The only change ever made to it is that
//! one line, closed by a line feed, is put behind everything it holds;
//! and that is done only while no line of the profile holds the wanted
//! line as a substring. A line that says more than the wanted line, before
//! or behind it, therefore counts as the wanted line being there already.
//! The comparison is made on bytes, without regard to spaces, to the
//! spelling of the directory or to what the bytes mean as text.

use vstd::prelude::*;

use crate::text::{lemma_tail_start, lemma_tail_start_unique, tail_start};

verus! {

/// The byte that closes a line.
pub const LINE_FEED: u8 = 10;

/// The byte that may stand before a line feed and then belongs to the
/// line's end, not to the line.
pub const CARRIAGE_RETURN: u8 = 13;

/// "Is a line feed", as a predicate on bytes.
pub open spec fn line_feed() -> spec_fn(u8) -> bool {
    |b: u8| b == LINE_FEED
}

/// Whether `needle` stands in `hay` at offset `k`.
pub open spec fn occurs_at(needle: Seq<u8>, hay: Seq<u8>, k: int) -> bool {
    0 <= k && k + needle.len() <= hay.len() && hay.subrange(k, k + needle.len()) == needle
}

/// Whether `needle` is a substring of `hay`.
pub open spec fn occurs_in(needle: Seq<u8>, hay: Seq<u8>) -> bool {
    exists|k: int| occurs_at(needle, hay, k)
}

/// A line without the carriage return at its end, if it has one.
pub open spec fn without_carriage_return(line: Seq<u8>) -> Seq<u8> {
    if line.len() > 0 && line.last() == CARRIAGE_RETURN {
        line.drop_last()
    } else {
        line
    }
}

/// The lines of a profile, first to last.
///
/// A line ends at a line feed or at the end of the profile. The line feed
/// is not part of the line, nor is a carriage return directly before it.
/// Bytes behind the last line feed form a last line of their own, which
/// keeps a carriage return at its end; where nothing follows the last line
/// feed there is no further line. So `a\r\n\nb` has the lines `a`, the
/// empty line and `b`, and the empty profile has no line.
pub open spec fn lines(content: Seq<u8>) -> Seq<Seq<u8>>
    decreases content.len(),
{
    if content.len() == 0 {
        Seq::empty()
    } else if content.last() == LINE_FEED {
        let body = content.drop_last();
        let start = tail_start(body, line_feed());
        proof {
            lemma_tail_start(body, line_feed());
        }
        lines(content.take(start)).push(without_carriage_return(body.skip(start)))
    } else {
        let start = tail_start(content, line_feed());
        proof {
            lemma_tail_start(content.drop_last(), line_feed());
        }
        lines(content.take(start)).push(content.skip(start))
    }
}

/// Whether one of `lines` holds `needle` as a substring.
pub open spec fn any_holds(lines: Seq<Seq<u8>>, needle: Seq<u8>) -> bool {
    exists|i: int| 0 <= i < lines.len() && occurs_in(needle, #[trigger] lines[i])
}

/// How many of `lines` hold `needle` as a substring.
pub open spec fn count_holding(lines: Seq<Seq<u8>>, needle: Seq<u8>) -> nat
    decreases lines.len(),
{
    if lines.len() == 0 {
        0
    } else {
        count_holding(lines.drop_last(), needle) + if occurs_in(needle, lines.last()) {
            1nat
        } else {
            0nat
        }
    }
}

/// Whether the profile counts as holding `line` already: one of its lines
/// holds `line` as a substring.
pub open spec fn registered(content: Seq<u8>, line: Seq<u8>) -> bool {
    any_holds(lines(content), line)
}

/// The number of lines of the profile that hold `line` as a substring.
pub open spec fn occurrences(content: Seq<u8>, line: Seq<u8>) -> nat {
    count_holding(lines(content), line)
}

/// What is written to a profile to add `line` to it: the line and a line
/// feed.
pub open spec fn entry(line: Seq<u8>) -> Seq<u8> {
    line.push(LINE_FEED)
}

/// The profile after `line` was registered in it: unchanged where it
/// counts as holding the line, and otherwise longer by the line's entry.
pub open spec fn updated(content: Seq<u8>, line: Seq<u8>) -> Seq<u8> {
    if registered(content, line) {
        content
    } else {
        content + entry(line)
    }
}

/// Whether registering `line` twice is sure to add it once only: it holds
/// no line feed and does not end in a carriage return. Reading the profile
/// back would cut such a line in two, or take its last byte for a part of
/// the line's end.
pub open spec fn keeps_to_one_line(line: Seq<u8>) -> bool {
    &&& forall|i: int| 0 <= i < line.len() ==> line[i] != LINE_FEED
    &&& line.len() > 0 ==> line.last() != CARRIAGE_RETURN
}

proof fn lemma_any_holds_push(lines: Seq<Seq<u8>>, last: Seq<u8>, needle: Seq<u8>)
    ensures
        any_holds(lines.push(last), needle) <==> any_holds(lines, needle) || occurs_in(needle, last),
{
    let all = lines.push(last);
    if any_holds(all, needle) {
        let i = choose|i: int| 0 <= i < all.len() && occurs_in(needle, #[trigger] all[i]);
        if i < lines.len() {
            assert(all[i] == lines[i]);
        }
    }
    if any_holds(lines, needle) {
        let i = choose|i: int| 0 <= i < lines.len() && occurs_in(needle, #[trigger] lines[i]);
        assert(all[i] == lines[i]);
    }
    if occurs_in(needle, last) {
        assert(all[lines.len() as int] == last);
    }
}

proof fn lemma_count_holding(lines: Seq<Seq<u8>>, needle: Seq<u8>)
    ensures
        count_holding(lines, needle) == 0 <==> !any_holds(lines, needle),
    decreases lines.len(),
{
    if lines.len() > 0 {
        lemma_count_holding(lines.drop_last(), needle);
        lemma_any_holds_push(lines.drop_last(), lines.last(), needle);
        assert(lines.drop_last().push(lines.last()) == lines);
    }
}

/// Whether a profile may be cut behind `front`: it is empty or ends in a
/// line feed, so that what follows begins a line.
pub open spec fn ends_lines(front: Seq<u8>) -> bool {
    front.len() == 0 || front.last() == LINE_FEED
}

/// Whether a stretch of bytes holds no line feed.
pub open spec fn within_one_line(body: Seq<u8>) -> bool {
    forall|i: int| 0 <= i < body.len() ==> body[i] != LINE_FEED
}

/// A line feed closes a line: the bytes between the line end before it
/// and the line feed itself are one more line, cut by a carriage return at
/// their end.
pub proof fn law_line_feed_closes_a_line(front: Seq<u8>, body: Seq<u8>)
    requires
        ends_lines(front),
        within_one_line(body),
    ensures
        lines(front + body.push(LINE_FEED)) == lines(front).push(without_carriage_return(body)),
{
    let whole = front + body.push(LINE_FEED);
    let rest = whole.drop_last();
    assert(rest == front + body);
    lemma_start_of_open_line(front, body);
    assert(whole.take(front.len() as int) == front);
    assert(rest.skip(front.len() as int) == body);
}

/// Bytes behind the last line feed are a line of their own, as they
/// stand.
pub proof fn law_open_line_is_a_line(front: Seq<u8>, body: Seq<u8>)
    requires
        ends_lines(front),
        within_one_line(body),
        body.len() > 0,
    ensures
        lines(front + body) == lines(front).push(body),
{
    let whole = front + body;
    assert(whole.last() == body.last());
    lemma_start_of_open_line(front, body);
    assert(whole.take(front.len() as int) == front);
    assert(whole.skip(front.len() as int) == body);
}

/// The last line of `front + body` begins where `body` begins.
proof fn lemma_start_of_open_line(front: Seq<u8>, body: Seq<u8>)
    requires
        ends_lines(front),
        within_one_line(body),
    ensures
        tail_start(front + body, line_feed()) == front.len(),
{
    let whole = front + body;
    assert forall|i: int| front.len() <= i < whole.len() implies !line_feed()(
        #[trigger] whole[i],
    ) by {
        assert(whole[i] == body[i - front.len()]);
    }
    if front.len() > 0 {
        assert(whole[front.len() - 1] == front.last());
    }
    lemma_tail_start_unique(whole, line_feed(), front.len() as int);
}

/// What stands behind a line end has no part in the lines before it: the
/// lines of a profile cut behind a line feed are the first lines of the
/// whole profile.
pub proof fn law_earlier_lines_stay(content: Seq<u8>, cut: int)
    requires
        0 <= cut <= content.len(),
        ends_lines(content.take(cut)),
    ensures
        lines(content.take(cut)).is_prefix_of(lines(content)),
    decreases content.len(),
{
    if cut == content.len() {
        assert(content.take(cut) == content);
    } else {
        let rest = if content.last() == LINE_FEED {
            content.drop_last()
        } else {
            content
        };
        let start = tail_start(rest, line_feed());
        lemma_tail_start(rest, line_feed());
        if cut > 0 {
            assert(content.take(cut).last() == content[cut - 1]);
            assert(rest[cut - 1] == content[cut - 1]);
        }
        if start < cut {
            assert(line_feed()(rest[cut - 1]));
            assert(!line_feed()(rest[cut - 1]));
        }
        let front = content.take(start);
        assert(front.take(cut) == content.take(cut));
        law_earlier_lines_stay(front, cut);
        assert(lines(content).drop_last() == lines(front));
        assert(lines(front).is_prefix_of(lines(content)));
    }
}

/// A line that is found in a profile cut behind a line feed is found in
/// the whole profile.
proof fn lemma_found_early(content: Seq<u8>, cut: int, needle: Seq<u8>)
    requires
        0 <= cut <= content.len(),
        ends_lines(content.take(cut)),
        any_holds(lines(content.take(cut)), needle),
    ensures
        any_holds(lines(content), needle),
{
    law_earlier_lines_stay(content, cut);
    let early = lines(content.take(cut));
    let i = choose|i: int| 0 <= i < early.len() && occurs_in(needle, #[trigger] early[i]);
    assert(lines(content)[i] == early[i]);
}

/// Whether `needle` stands in `hay` at offset `at`.
fn stands_at(hay: &[u8], at: usize, needle: &[u8]) -> (same: bool)
    requires
        at + needle.len() <= hay.len(),
    ensures
        same == (hay@.subrange(at as int, at + needle.len()) == needle@),
{
    let ghost window = hay@.subrange(at as int, at + needle.len());
    let mut i: usize = 0;
    while i < needle.len()
        invariant
            i <= needle.len(),
            at + needle.len() <= hay.len(),
            window == hay@.subrange(at as int, at + needle.len()),
            window.take(i as int) == needle@.take(i as int),
        decreases needle.len() - i,
    {
        if hay[at + i] != needle[i] {
            assert(window[i as int] != needle@[i as int]);
            return false;
        }
        assert(window.take(i + 1) == window.take(i as int).push(window[i as int]));
        assert(needle@.take(i + 1) == needle@.take(i as int).push(needle@[i as int]));
        i = i + 1;
    }
    assert(window == window.take(i as int));
    assert(needle@ == needle@.take(i as int));
    true
}

/// Whether `needle` is a substring of the stretch of `hay` from `from` up
/// to, and without, `to`.
fn occurs_between(hay: &[u8], from: usize, to: usize, needle: &[u8]) -> (found: bool)
    requires
        from <= to <= hay.len(),
    ensures
        found == occurs_in(needle@, hay@.subrange(from as int, to as int)),
{
    let ghost window = hay@.subrange(from as int, to as int);
    if needle.len() > to - from {
        return false;
    }
    let last: usize = to - from - needle.len();
    let mut k: usize = 0;
    loop
        invariant
            from <= to <= hay.len(),
            needle.len() <= to - from,
            last == to - from - needle.len(),
            k <= last,
            window == hay@.subrange(from as int, to as int),
            forall|j: int| 0 <= j < k ==> !occurs_at(needle@, window, j),
        decreases last - k,
    {
        let here = stands_at(hay, from + k, needle);
        assert(window.subrange(k as int, k + needle.len()) == hay@.subrange(
            from + k,
            from + k + needle.len(),
        ));
        if here {
            assert(occurs_at(needle@, window, k as int));
            return true;
        }
        if k == last {
            assert forall|j: int| !occurs_at(needle@, window, j) by {}
            return false;
        }
        k = k + 1;
    }
}

/// Whether `needle` is a substring of `hay`.
pub fn contains(hay: &[u8], needle: &[u8]) -> (found: bool)
    ensures
        found == occurs_in(needle@, hay@),
{
    assert(hay@.subrange(0, hay@.len() as int) == hay@);
    occurs_between(hay, 0, hay.len(), needle)
}

/// Reads a profile line by line and says whether it counts as holding
/// `line`. The reading ends at the first line that holds it.
pub fn is_registered(content: &[u8], line: &[u8]) -> (found: bool)
    ensures
        found == registered(content@, line@),
{
    let n = content.len();
    let mut start: usize = 0;
    let mut i: usize = 0;
    assert(content@.take(0) == Seq::<u8>::empty());
    while i < n
        invariant
            n == content.len(),
            start <= i <= n,
            ends_lines(content@.take(start as int)),
            within_one_line(content@.subrange(start as int, i as int)),
            !any_holds(lines(content@.take(start as int)), line@),
        decreases n - i,
    {
        let ghost front = content@.take(start as int);
        let ghost body = content@.subrange(start as int, i as int);
        if content[i] == LINE_FEED {
            let end = if start < i && content[i - 1] == CARRIAGE_RETURN {
                i - 1
            } else {
                i
            };
            let here = occurs_between(content, start, end, line);
            proof {
                assert(content@.subrange(start as int, end as int) == without_carriage_return(
                    body,
                ));
                assert(content@.take(i + 1) == front + body.push(LINE_FEED));
                law_line_feed_closes_a_line(front, body);
                lemma_any_holds_push(lines(front), without_carriage_return(body), line@);
            }
            if here {
                proof {
                    lemma_found_early(content@, i + 1, line@);
                }
                return true;
            }
            start = i + 1;
            assert(content@.subrange(start as int, start as int) == Seq::<u8>::empty());
        } else {
            assert(content@.subrange(start as int, i + 1) == body.push(content@[i as int]));
        }
        i = i + 1;
    }
    let ghost front = content@.take(start as int);
    if start < n {
        let here = occurs_between(content, start, n, line);
        proof {
            let body = content@.subrange(start as int, n as int);
            assert(content@ == front + body);
            law_open_line_is_a_line(front, body);
            lemma_any_holds_push(lines(front), body, line@);
        }
        here
    } else {
        assert(front == content@);
        false
    }
}

/// The bytes that add `line` to a profile: the line and a line feed.
pub fn entry_for(line: &[u8]) -> (bytes: Vec<u8>)
    ensures
        bytes@ == entry(line@),
{
    let mut bytes: Vec<u8> = Vec::new();
    let mut i: usize = 0;
    while i < line.len()
        invariant
            i <= line.len(),
            bytes@ == line@.take(i as int),
        decreases line.len() - i,
    {
        bytes.push(line[i]);
        assert(line@.take(i + 1) == line@.take(i as int).push(line@[i as int]));
        i = i + 1;
    }
    assert(line@.take(i as int) == line@);
    bytes.push(LINE_FEED);
    bytes
}

/// Registers `line` in a profile held in memory, and says whether the
/// profile was changed. A profile that counts as holding the line stays as
/// it is, byte for byte; any other gets the line's entry behind its last
/// byte.
pub fn register(content: &mut Vec<u8>, line: &[u8]) -> (appended: bool)
    ensures
        final(content)@ == updated(old(content)@, line@),
        appended == !registered(old(content)@, line@),
{
    if is_registered(content.as_slice(), line) {
        false
    } else {
        let mut addition = entry_for(line);
        content.append(&mut addition);
        true
    }
}

/// A profile in which a line of its own holds `line` counts as holding it,
/// whatever else that line says, and registering `line` leaves every byte
/// of the profile as it was.
pub proof fn law_found_line_leaves_profile_unchanged(content: Seq<u8>, line: Seq<u8>, i: int)
    requires
        0 <= i < lines(content).len(),
        occurs_in(line, lines(content)[i]),
    ensures
        registered(content, line),
        updated(content, line) == content,
{
}

/// Once its entry stands at the end of a profile, a line that keeps to one
/// line is found there, whatever the profile held before. The entry closes
/// the last line of the profile: it makes a line of its own where the
/// profile is empty or ends in a line feed, and otherwise it is joined to
/// the bytes behind the last line feed. The lines before it stay as they
/// were.
pub proof fn law_entry_is_found(content: Seq<u8>, line: Seq<u8>)
    requires
        keeps_to_one_line(line),
    ensures
        registered(content + entry(line), line),
        lines(content + entry(line)) == lines(content.take(tail_start(content, line_feed()))).push(
            without_carriage_return(content.skip(tail_start(content, line_feed())) + line),
        ),
{
    let start = tail_start(content, line_feed());
    lemma_tail_start(content, line_feed());
    let front = content.take(start);
    let open = content.skip(start);
    let last = open + line;
    if start > 0 {
        assert(front.last() == content[start - 1]);
        assert(line_feed()(content[start - 1]));
    }
    assert forall|i: int| 0 <= i < last.len() implies last[i] != LINE_FEED by {
        if i < open.len() {
            assert(last[i] == content[start + i]);
            assert(!line_feed()(content[start + i]));
        } else {
            assert(last[i] == line[i - open.len()]);
        }
    }
    assert(content + entry(line) == front + last.push(LINE_FEED));
    law_line_feed_closes_a_line(front, last);
    let kept = without_carriage_return(last);
    assert(occurs_in(line, kept)) by {
        if line.len() > 0 {
            assert(last.last() == line.last());
            assert(last.subrange(open.len() as int, (open.len() + line.len()) as int) == line);
            assert(occurs_at(line, kept, open.len() as int));
        } else {
            assert(kept.subrange(0, 0) == line);
            assert(occurs_at(line, kept, 0));
        }
    }
    lemma_any_holds_push(lines(front), kept, line);
}

/// Registering a line twice leaves the profile as registering it once
/// does: the second run finds the line and writes nothing.
pub proof fn law_registration_is_idempotent(content: Seq<u8>, line: Seq<u8>)
    requires
        keeps_to_one_line(line),
    ensures
        registered(updated(content, line), line),
        updated(updated(content, line), line) == updated(content, line),
{
    if !registered(content, line) {
        law_entry_is_found(content, line);
    }
}

/// A profile of which no line holds `line` has exactly one such line after
/// the line was registered, and still exactly one after it was registered
/// once more.
pub proof fn law_registration_adds_one_occurrence(content: Seq<u8>, line: Seq<u8>)
    requires
        keeps_to_one_line(line),
        occurrences(content, line) == 0,
    ensures
        occurrences(updated(content, line), line) == 1,
        occurrences(updated(updated(content, line), line), line) == 1,
{
    let start = tail_start(content, line_feed());
    lemma_tail_start(content, line_feed());
    let front = content.take(start);
    if start > 0 {
        assert(front.last() == content[start - 1]);
        assert(line_feed()(content[start - 1]));
    }
    lemma_count_holding(lines(content), line);
    law_entry_is_found(content, line);
    law_registration_is_idempotent(content, line);
    assert(!any_holds(lines(front), line)) by {
        if any_holds(lines(front), line) {
            lemma_found_early(content, start, line);
        }
    }
    lemma_count_holding(lines(front), line);
    let after = lines(content + entry(line));
    assert(after.drop_last() == lines(front));
}

} // verus!
