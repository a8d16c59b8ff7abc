//! Text as the proxy reads it: characters, white space, and the line format
//! shared by blocklist documents and trust anchor files. That format has one
//! entry per line, surrounding white space dropped, blank lines and lines
//! that start with `#` ignored.

use vstd::hash_set::StringHashSet;
use vstd::prelude::*;

verus! {

/// `String::push`: afterwards the string holds what it held before, followed
/// by `ch`.
pub assume_specification[ String::push ](s: &mut String, ch: char)
    ensures
        final(s)@ == old(s)@.push(ch),
;

/// Whether `c` is white space: a character with the Unicode property
/// `White_Space`.
pub open spec fn is_space(c: char) -> bool {
    let code = c as u32;
    ||| 0x09 <= code <= 0x0D
    ||| code == 0x20
    ||| code == 0x85
    ||| code == 0xA0
    ||| code == 0x1680
    ||| 0x2000 <= code <= 0x200A
    ||| code == 0x2028
    ||| code == 0x2029
    ||| code == 0x202F
    ||| code == 0x205F
    ||| code == 0x3000
}

/// `s` without the white space at its start.
pub open spec fn trim_start(s: Seq<char>) -> Seq<char>
    decreases s.len(),
{
    if s.len() > 0 && is_space(s.first()) {
        trim_start(s.drop_first())
    } else {
        s
    }
}

/// `s` without the white space at its end.
pub open spec fn trim_end(s: Seq<char>) -> Seq<char>
    decreases s.len(),
{
    if s.len() > 0 && is_space(s.last()) {
        trim_end(s.drop_last())
    } else {
        s
    }
}

/// `s` without the white space at its start and at its end.
pub open spec fn trim(s: Seq<char>) -> Seq<char> {
    trim_end(trim_start(s))
}

/// The length of the first line of `text`: the number of characters before
/// its first line feed, or all of them where it has none.
pub open spec fn first_line_len(text: Seq<char>) -> nat
    decreases text.len(),
{
    if text.len() == 0 || text.first() == '\n' {
        0
    } else {
        1 + first_line_len(text.drop_first())
    }
}

/// Whether a trimmed line is an entry: it is neither blank nor a comment.
pub open spec fn is_entry(line: Seq<char>) -> bool {
    line.len() > 0 && line.first() != '#'
}

/// The entries of `text`, in the order of their lines: each line is trimmed,
/// and kept if it is an entry.
pub open spec fn entries(text: Seq<char>) -> Seq<Seq<char>>
    decreases text.len(),
{
    if text.len() == 0 {
        Seq::empty()
    } else {
        let len = first_line_len(text) as int;
        let line = trim(text.take(len));
        let rest = if len < text.len() {
            entries(text.skip(len + 1))
        } else {
            Seq::empty()
        };
        if is_entry(line) {
            seq![line] + rest
        } else {
            rest
        }
    }
}

/// The contents of each string of `strings`.
pub open spec fn views(strings: Seq<String>) -> Seq<Seq<char>> {
    strings.map_values(|s: String| s@)
}

/// The first line of a text is as long as its line feed is far, and no
/// longer than the text.
pub proof fn lemma_first_line_len(text: Seq<char>, len: int)
    requires
        0 <= len <= text.len(),
        forall|i: int| 0 <= i < len ==> text[i] != '\n',
        len == text.len() || text[len] == '\n',
    ensures
        first_line_len(text) == len,
    decreases len,
{
    if len > 0 {
        let tail = text.drop_first();
        assert forall|i: int| 0 <= i < len - 1 implies tail[i] != '\n' by {
            assert(tail[i] == text[i + 1]);
        }
        lemma_first_line_len(tail, len - 1);
    }
}

/// Trimming the start drops exactly the white space that `s` starts with:
/// what is left is `s` from its first character that is no white space on.
pub proof fn lemma_trim_start_drops_leading_space(s: Seq<char>) -> (dropped: int)
    ensures
        0 <= dropped <= s.len(),
        trim_start(s) == s.skip(dropped),
        forall|i: int| 0 <= i < dropped ==> is_space(s[i]),
        dropped < s.len() ==> !is_space(s[dropped]),
    decreases s.len(),
{
    if s.len() > 0 && is_space(s.first()) {
        let tail = s.drop_first();
        let inner = lemma_trim_start_drops_leading_space(tail);
        assert(tail.skip(inner) == s.skip(inner + 1));
        assert forall|i: int| 0 <= i < inner + 1 implies is_space(s[i]) by {
            if i > 0 {
                assert(tail[i - 1] == s[i]);
            }
        }
        if inner + 1 < s.len() {
            assert(tail[inner] == s[inner + 1]);
        }
        inner + 1
    } else {
        assert(s.skip(0) == s);
        0
    }
}

/// Trimming the end drops exactly the white space that `s` ends with: what
/// is left is `s` up to its last character that is no white space.
pub proof fn lemma_trim_end_drops_trailing_space(s: Seq<char>) -> (kept: int)
    ensures
        0 <= kept <= s.len(),
        trim_end(s) == s.take(kept),
        forall|i: int| kept <= i < s.len() ==> is_space(s[i]),
        kept > 0 ==> !is_space(s[kept - 1]),
    decreases s.len(),
{
    if s.len() > 0 && is_space(s.last()) {
        let front = s.drop_last();
        let inner = lemma_trim_end_drops_trailing_space(front);
        assert(front.take(inner) == s.take(inner));
        assert forall|i: int| inner <= i < s.len() implies is_space(s[i]) by {
            if i < s.len() - 1 {
                assert(front[i] == s[i]);
            }
        }
        if inner > 0 {
            assert(front[inner - 1] == s[inner - 1]);
        }
        inner
    } else {
        assert(s.take(s.len() as int) == s);
        s.len() as int
    }
}

/// A trimmed text neither starts nor ends with white space, and all its
/// characters are characters of the text, in their order.
pub proof fn lemma_trim_is_a_trimmed_part(s: Seq<char>) -> (bounds: (int, int))
    ensures
        0 <= bounds.0 <= bounds.1 <= s.len(),
        trim(s) == s.subrange(bounds.0, bounds.1),
        trim(s).len() > 0 ==> !is_space(trim(s).first()) && !is_space(trim(s).last()),
        forall|i: int| 0 <= i < bounds.0 ==> is_space(s[i]),
        forall|i: int| bounds.1 <= i < s.len() ==> is_space(s[i]),
{
    let dropped = lemma_trim_start_drops_leading_space(s);
    let rest = s.skip(dropped);
    let kept = lemma_trim_end_drops_trailing_space(rest);
    assert(rest.take(kept) == s.subrange(dropped, dropped + kept));
    assert forall|i: int| dropped + kept <= i < s.len() implies is_space(s[i]) by {
        assert(rest[i - dropped] == s[i]);
    }
    if kept > 0 {
        assert(rest[kept - 1] == s[dropped + kept - 1]);
        assert(rest[0] == s[dropped]);
    }
    (dropped, dropped + kept)
}

/// The first line of a text holds no line feed, and is followed by one
/// unless it ends the text.
pub proof fn lemma_first_line_ends_at_line_feed(text: Seq<char>)
    ensures
        first_line_len(text) <= text.len(),
        forall|i: int| 0 <= i < first_line_len(text) ==> text[i] != '\n',
        first_line_len(text) < text.len() ==> text[first_line_len(text) as int] == '\n',
    decreases text.len(),
{
    if text.len() == 0 || text.first() == '\n' {
    } else {
        let tail = text.drop_first();
        lemma_first_line_ends_at_line_feed(tail);
        assert forall|i: int| 0 <= i < first_line_len(text) implies text[i] != '\n' by {
            if i > 0 {
                assert(tail[i - 1] == text[i]);
            }
        }
        if first_line_len(text) < text.len() {
            assert(tail[first_line_len(tail) as int] == text[first_line_len(text) as int]);
        }
    }
}

/// Every entry of a text is a line of it, trimmed: it is not empty, does not
/// start with `#`, neither starts nor ends with white space, and holds no
/// line feed.
pub proof fn lemma_entries_are_trimmed_lines(text: Seq<char>, i: int)
    requires
        0 <= i < entries(text).len(),
    ensures
        is_entry(entries(text)[i]),
        !is_space(entries(text)[i].first()),
        !is_space(entries(text)[i].last()),
        forall|j: int| 0 <= j < entries(text)[i].len() ==> entries(text)[i][j] != '\n',
    decreases text.len(),
{
    let len = first_line_len(text) as int;
    lemma_first_line_ends_at_line_feed(text);
    let raw = text.take(len);
    let line = trim(raw);
    if is_entry(line) && i == 0 {
        let bounds = lemma_trim_is_a_trimmed_part(raw);
        assert forall|j: int| 0 <= j < line.len() implies line[j] != '\n' by {
            assert(line[j] == raw[bounds.0 + j]);
            assert(raw[bounds.0 + j] == text[bounds.0 + j]);
        }
    } else {
        let rest = entries(text.skip(len + 1));
        if is_entry(line) {
            assert(entries(text)[i] == rest[i - 1]);
            lemma_entries_are_trimmed_lines(text.skip(len + 1), i - 1);
        } else {
            lemma_entries_are_trimmed_lines(text.skip(len + 1), i);
        }
    }
}

/// A text without characters other than white space has no entries.
pub proof fn lemma_blank_text_has_no_entries(text: Seq<char>)
    requires
        forall|i: int| 0 <= i < text.len() ==> is_space(text[i]),
    ensures
        entries(text).len() == 0,
    decreases text.len(),
{
    if text.len() > 0 {
        let len = first_line_len(text) as int;
        lemma_first_line_ends_at_line_feed(text);
        let raw = text.take(len);
        let bounds = lemma_trim_is_a_trimmed_part(raw);
        if trim(raw).len() > 0 {
            assert(trim(raw).first() == raw[bounds.0]);
            assert(raw[bounds.0] == text[bounds.0]);
        }
        if len < text.len() {
            let after = text.skip(len + 1);
            assert forall|i: int| 0 <= i < after.len() implies is_space(after[i]) by {
                assert(after[i] == text[len + 1 + i]);
            }
            lemma_blank_text_has_no_entries(after);
        }
    }
}

/// Two texts joined by a line feed have the entries of the first, then
/// those of the second.
pub proof fn lemma_entries_of_joined_texts(first: Seq<char>, second: Seq<char>)
    ensures
        entries(first + seq!['\n'] + second) == entries(first) + entries(second),
    decreases first.len(),
{
    let joined = first + seq!['\n'] + second;
    let len = first_line_len(first) as int;
    lemma_first_line_ends_at_line_feed(first);
    assert(joined[len] == '\n') by {
        if len < first.len() {
            assert(joined[len] == first[len]);
        }
    }
    assert forall|i: int| 0 <= i < len implies joined[i] != '\n' by {
        assert(joined[i] == first[i]);
    }
    lemma_first_line_len(joined, len);
    assert(joined.take(len) == first.take(len));
    if len < first.len() {
        let rest = first.skip(len + 1);
        assert(joined.skip(len + 1) == rest + seq!['\n'] + second);
        lemma_entries_of_joined_texts(rest, second);
        assert(entries(joined) == entries(first) + entries(second));
    } else {
        assert(joined.skip(len + 1) == second);
        if first.len() == 0 {
            assert(trim(joined.take(len)).len() == 0);
        }
        assert(entries(joined) == entries(first) + entries(second));
    }
}

/// Whether `c` is white space.
pub fn is_whitespace(c: char) -> (space: bool)
    ensures
        space == is_space(c),
{
    let code = c as u32;
    (0x09 <= code && code <= 0x0D) || code == 0x20 || code == 0x85 || code == 0xA0 || code == 0x1680 || (0x2000
        <= code && code <= 0x200A) || code == 0x2028 || code == 0x2029 || code == 0x202F || code == 0x205F || code
        == 0x3000
}

/// Collects the characters of `text`.
pub fn chars_of(text: &str) -> (chars: Vec<char>)
    ensures
        chars@ == text@,
{
    broadcast use vstd::string::group_string_axioms;

    let mut chars: Vec<char> = Vec::new();
    for c in it: text.chars()
        invariant
            it.seq() == text@,
            chars@ == it.seq().take(it.index()),
    {
        chars.push(c);
    }
    chars
}

/// Builds the string of the characters `chars[from..to]`.
pub fn string_of(chars: &Vec<char>, from: usize, to: usize) -> (s: String)
    requires
        from <= to <= chars.len(),
    ensures
        s@ == chars@.subrange(from as int, to as int),
{
    let mut s = String::new();
    let mut i = from;
    while i < to
        invariant
            from <= i <= to <= chars.len(),
            s@ == chars@.subrange(from as int, i as int),
        decreases to - i,
    {
        s.push(chars[i]);
        i += 1;
    }
    s
}

/// Tells whether `text` starts with `prefix`.
pub fn starts_with(text: &str, prefix: &str) -> (found: bool)
    ensures
        found == prefix@.is_prefix_of(text@),
{
    let whole = chars_of(text);
    let start = chars_of(prefix);
    if start.len() > whole.len() {
        return false;
    }
    let mut i: usize = 0;
    while i < start.len()
        invariant
            whole@ == text@,
            start@ == prefix@,
            i <= start.len() <= whole.len(),
            forall|j: int| 0 <= j < i ==> whole[j] == start[j],
        decreases start.len() - i,
    {
        if whole[i] != start[i] {
            assert(whole@.subrange(0, start@.len() as int)[i as int] != start@[i as int]);
            return false;
        }
        i += 1;
    }
    assert(whole@.subrange(0, start@.len() as int) =~= start@);
    true
}

/// Finds where the line that starts at `start` ends: at the next line feed,
/// or at the end of `chars`.
fn line_end(chars: &Vec<char>, start: usize) -> (end: usize)
    requires
        start <= chars.len(),
    ensures
        start <= end <= chars.len(),
        end - start == first_line_len(chars@.skip(start as int)),
{
    let mut end = start;
    while end < chars.len() && chars[end] != '\n'
        invariant
            start <= end <= chars.len(),
            forall|i: int| start <= i < end ==> chars[i] != '\n',
        decreases chars.len() - end,
    {
        end += 1;
    }
    proof {
        lemma_first_line_len(chars@.skip(start as int), end - start);
    }
    end
}

/// Finds the bounds of what trimming leaves of `chars[start..end]`.
fn trim_bounds(chars: &Vec<char>, start: usize, end: usize) -> (bounds: (usize, usize))
    requires
        start <= end <= chars.len(),
    ensures
        start <= bounds.0 <= bounds.1 <= end,
        chars@.subrange(bounds.0 as int, bounds.1 as int) == trim(chars@.subrange(start as int, end as int)),
{
    let mut from = start;
    while from < end && is_whitespace(chars[from])
        invariant
            start <= from <= end <= chars.len(),
            trim_start(chars@.subrange(start as int, end as int)) == trim_start(
                chars@.subrange(from as int, end as int),
            ),
        decreases end - from,
    {
        assert(chars@.subrange(from as int, end as int).drop_first() == chars@.subrange(from + 1, end as int));
        from += 1;
    }
    let mut to = end;
    while to > from && is_whitespace(chars[to - 1])
        invariant
            from <= to <= end <= chars.len(),
            trim_end(chars@.subrange(from as int, end as int)) == trim_end(chars@.subrange(from as int, to as int)),
        decreases to - from,
    {
        assert(chars@.subrange(from as int, to as int).drop_last() == chars@.subrange(from as int, to - 1));
        to -= 1;
    }
    (from, to)
}

/// Reads the entries of `text`.
pub fn parse_entries(text: &str) -> (found: Vec<String>)
    ensures
        views(found@) == entries(text@),
{
    let chars = chars_of(text);
    let mut found: Vec<String> = Vec::new();
    let mut start: usize = 0;
    assert(chars@.skip(0) == chars@);
    while start < chars.len()
        invariant
            start <= chars.len(),
            views(found@) + entries(chars@.skip(start as int)) == entries(chars@),
        decreases chars.len() - start,
    {
        let end = line_end(&chars, start);
        let (from, to) = trim_bounds(&chars, start, end);
        let ghost rest = chars@.skip(start as int);
        let ghost before = found@;
        proof {
            assert(rest.take(end - start) == chars@.subrange(start as int, end as int));
            if end < chars.len() {
                assert(rest.skip(end - start + 1) == chars@.skip(end + 1));
            }
        }
        if from < to && chars[from] != '#' {
            let entry = string_of(&chars, from, to);
            found.push(entry);
            assert(views(found@) == views(before) + seq![entry@]);
        }
        if end < chars.len() {
            start = end + 1;
        } else {
            start = end;
            assert(entries(chars@.skip(start as int)) == Seq::<Seq<char>>::empty());
        }
    }
    assert(entries(chars@.skip(start as int)) == Seq::<Seq<char>>::empty());
    found
}

/// Adds every string of `names` to `set`.
pub(crate) fn insert_all(set: &mut StringHashSet, names: &Vec<String>)
    ensures
        final(set)@ == old(set)@.union(views(names@).to_set()),
{
    let mut i: usize = 0;
    while i < names.len()
        invariant
            i <= names.len(),
            set@ == old(set)@.union(views(names@).take(i as int).to_set()),
        decreases names.len() - i,
    {
        set.insert(names[i].clone());
        proof {
            let before = views(names@).take(i as int);
            let after = views(names@).take(i + 1);
            assert(after == before.push(names[i as int]@));
            assert forall|name: Seq<char>| after.to_set().contains(name) <==> before.to_set().insert(
                names[i as int]@,
            ).contains(name) by {
                if after.contains(name) {
                    let at = choose|at: int| 0 <= at < after.len() && after[at] == name;
                    if at < i {
                        assert(before[at] == name);
                    }
                }
                if before.contains(name) {
                    let at = choose|at: int| 0 <= at < before.len() && before[at] == name;
                    assert(after[at] == name);
                }
                if name == names[i as int]@ {
                    assert(after[i as int] == name);
                }
            }
            assert(after.to_set() =~= before.to_set().insert(names[i as int]@));
            assert(set@ =~= old(set)@.union(after.to_set()));
        }
        i += 1;
    }
    assert(views(names@).take(i as int) == views(names@));
}

} // verus!
