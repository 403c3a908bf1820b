//! Work on text, character by character.

use vstd::prelude::*;
use vstd::string::*;

verus! {

/// The texts of several strings.
pub open spec fn texts(names: Seq<String>) -> Seq<Seq<char>> {
    Seq::new(names.len(), |i: int| names[i]@)
}

/// The view of a text that may be missing.
pub open spec fn view_of(text: Option<String>) -> Option<Seq<char>> {
    match text {
        Some(text) => Some(text@),
        None => None,
    }
}

/// The view of a slice of text that may be missing.
pub open spec fn str_of(text: Option<&str>) -> Option<Seq<char>> {
    match text {
        Some(text) => Some(text@),
        None => None,
    }
}

/// How often a character stands in a text.
pub open spec fn count(text: Seq<char>, c: char) -> nat
    decreases text.len(),
{
    if text.len() == 0 {
        0
    } else if text.last() == c {
        count(text.drop_last(), c) + 1
    } else {
        count(text.drop_last(), c)
    }
}

/// How often a character follows itself in a text.
pub open spec fn count_doubled(text: Seq<char>, c: char) -> nat
    decreases text.len(),
{
    if text.len() < 2 {
        0
    } else if text.last() == c && text[text.len() - 2] == c {
        count_doubled(text.drop_last(), c) + 1
    } else {
        count_doubled(text.drop_last(), c)
    }
}

/// Whether a character has the Unicode property White_Space.
pub open spec fn is_white(c: char) -> bool {
    let code = c as u32;
    ||| 0x9 <= code <= 0xd
    ||| code == 0x20
    ||| code == 0x85
    ||| code == 0xa0
    ||| code == 0x1680
    ||| 0x2000 <= code <= 0x200a
    ||| code == 0x2028
    ||| code == 0x2029
    ||| code == 0x202f
    ||| code == 0x205f
    ||| code == 0x3000
}

/// Finds whether a character is white space.
pub fn is_white_space(c: char) -> (white: bool)
    ensures
        white == is_white(c),
{
    let code: u32 = c as u32;
    (0x9 <= code && code <= 0xd) || code == 0x20 || code == 0x85 || code == 0xa0 || code == 0x1680
        || (0x2000 <= code && code <= 0x200a) || code == 0x2028 || code == 0x2029 || code == 0x202f
        || code == 0x205f || code == 0x3000
}

/// The text without the white space at its front.
pub open spec fn trimmed_front(text: Seq<char>) -> Seq<char>
    decreases text.len(),
{
    if text.len() > 0 && is_white(text[0]) {
        trimmed_front(text.skip(1))
    } else {
        text
    }
}

/// The text without the white space at its back.
pub open spec fn trimmed_back(text: Seq<char>) -> Seq<char>
    decreases text.len(),
{
    if text.len() > 0 && is_white(text.last()) {
        trimmed_back(text.drop_last())
    } else {
        text
    }
}

/// The text without the white space at either end.
pub open spec fn trimmed(text: Seq<char>) -> Seq<char> {
    trimmed_back(trimmed_front(text))
}

/// The parts of a text between the places where `separator` stands, of which there is one more than
/// separators.
pub open spec fn split_on(text: Seq<char>, separator: char) -> Seq<Seq<char>>
    decreases text.len(),
{
    if text.len() == 0 {
        seq![Seq::<char>::empty()]
    } else {
        let parts = split_on(text.drop_last(), separator);
        if text.last() == separator {
            parts.push(Seq::empty())
        } else {
            parts.drop_last().push(parts.last().push(text.last()))
        }
    }
}

/// Whether a text begins with another.
pub open spec fn begins_with(text: Seq<char>, prefix: Seq<char>) -> bool {
    prefix.len() <= text.len() && text.take(prefix.len() as int) == prefix
}

/// Whether a text stands somewhere in another.
pub open spec fn has_part(text: Seq<char>, part: Seq<char>) -> bool {
    exists|i: int| 0 <= i <= text.len() && begins_with(#[trigger] text.skip(i), part)
}

/// The text in which every occurrence of `from`, looked for from the left, gives way to `to`.
pub open spec fn replaced(text: Seq<char>, from: Seq<char>, to: Seq<char>) -> Seq<char>
    decreases text.len(),
{
    if text.len() == 0 || from.len() == 0 {
        text
    } else if begins_with(text, from) {
        to + replaced(text.skip(from.len() as int), from, to)
    } else {
        seq![text[0]] + replaced(text.skip(1), from, to)
    }
}

/// The digit for a number below ten.
pub open spec fn digit(n: nat) -> char {
    "0123456789"@[n as int]
}

/// A number in decimal digits.
pub open spec fn decimal(n: nat) -> Seq<char>
    decreases n,
{
    if n < 10 {
        seq![digit(n)]
    } else {
        decimal(n / 10).push(digit(n % 10))
    }
}

/// Writes a number in decimal digits.
pub fn decimal_text(n: u64) -> (text: String)
    ensures
        text@ == decimal(n as nat),
    decreases n,
{
    proof {
        reveal_strlit("0123456789");
    }
    let last: char = "0123456789".get_char((n % 10) as usize);
    let mut text = if n < 10 {
        String::new()
    } else {
        decimal_text(n / 10)
    };
    push_char(&mut text, last);
    assert(n < 10 ==> text@ =~= seq![digit(n as nat)]);
    text
}

/// `String::push` puts one character at the end.
#[verifier::external_body]
pub(crate) fn push_char(text: &mut String, c: char)
    ensures
        final(text)@ == old(text)@.push(c),
{
    text.push(c);
}

/// Puts two texts behind one another.
pub fn joined(first: &str, second: &str) -> (text: String)
    ensures
        text@ == first@ + second@,
{
    let mut text = String::new();
    text.append(first);
    text.append(second);
    assert(text@ =~= first@ + second@);
    text
}

/// Counts how often a character stands in a list of characters.
pub fn count_char(chars: &Vec<char>, c: char) -> (times: usize)
    ensures
        times == count(chars@, c),
{
    let mut times: usize = 0;
    let mut i: usize = 0;
    while i < chars.len()
        invariant
            i <= chars@.len(),
            times <= i,
            times == count(chars@.take(i as int), c),
        decreases chars@.len() - i,
    {
        assert(chars@.take(i + 1).drop_last() =~= chars@.take(i as int));
        if chars[i] == c {
            times = times + 1;
        }
        i = i + 1;
    }
    assert(chars@.take(i as int) =~= chars@);
    times
}

/// Counts how often a character follows itself in a list of characters.
pub fn count_doubles(chars: &Vec<char>, c: char) -> (times: usize)
    ensures
        times == count_doubled(chars@, c),
{
    let mut times: usize = 0;
    let mut i: usize = 0;
    while i < chars.len()
        invariant
            i <= chars@.len(),
            times <= i,
            times == count_doubled(chars@.take(i as int), c),
        decreases chars@.len() - i,
    {
        assert(chars@.take(i + 1).drop_last() =~= chars@.take(i as int));
        if i > 0 && chars[i] == c && chars[i - 1] == c {
            times = times + 1;
        }
        i = i + 1;
    }
    assert(chars@.take(i as int) =~= chars@);
    times
}

/// Lists the characters of a text.
pub fn chars_of(text: &str) -> (chars: Vec<char>)
    ensures
        chars@ == text@,
{
    let mut chars: Vec<char> = Vec::new();
    let count: usize = text.unicode_len();
    let mut i: usize = 0;
    while i < count
        invariant
            count == text@.len(),
            i <= count,
            chars@ == text@.take(i as int),
        decreases count - i,
    {
        chars.push(text.get_char(i));
        assert(text@.take(i + 1) =~= text@.take(i as int).push(text@[i as int]));
        i = i + 1;
    }
    assert(text@.take(i as int) =~= text@);
    chars
}

/// Makes a text of characters.
pub fn text_of(chars: &[char]) -> (text: String)
    ensures
        text@ == chars@,
{
    let mut text = String::new();
    let mut i: usize = 0;
    while i < chars.len()
        invariant
            i <= chars.len(),
            text@ == chars@.take(i as int),
        decreases chars.len() - i,
    {
        push_char(&mut text, chars[i]);
        assert(chars@.take(i + 1) =~= chars@.take(i as int).push(chars@[i as int]));
        i = i + 1;
    }
    assert(chars@.take(i as int) =~= chars@);
    text
}

/// Makes a text of a part of a list of characters.
pub fn text_between(chars: &Vec<char>, from: usize, to: usize) -> (text: String)
    requires
        from <= to <= chars@.len(),
    ensures
        text@ == chars@.subrange(from as int, to as int),
{
    let mut text = String::new();
    let mut i: usize = from;
    while i < to
        invariant
            from <= i <= to <= chars@.len(),
            text@ == chars@.subrange(from as int, i as int),
        decreases to - i,
    {
        push_char(&mut text, chars[i]);
        assert(chars@.subrange(from as int, i + 1) =~= chars@.subrange(from as int, i as int).push(
            chars@[i as int],
        ));
        i = i + 1;
    }
    text
}

/// Finds whether two lists of characters are the same.
pub fn same_chars(a: &Vec<char>, b: &Vec<char>) -> (same: bool)
    ensures
        same == (a@ == b@),
{
    if a.len() != b.len() {
        return false;
    }
    let mut i: usize = 0;
    while i < a.len()
        invariant
            i <= a.len(),
            a@.len() == b@.len(),
            forall|j: int| 0 <= j < i ==> a@[j] == b@[j],
        decreases a.len() - i,
    {
        if a[i] != b[i] {
            assert(a@[i as int] != b@[i as int]);
            return false;
        }
        i = i + 1;
    }
    assert(a@ =~= b@);
    true
}

/// Finds whether two texts are the same.
pub fn same_text(a: &str, b: &str) -> (same: bool)
    ensures
        same == (a@ == b@),
{
    same_chars(&chars_of(a), &chars_of(b))
}

/// Finds whether `part` stands in a list of characters from `start` on.
pub fn stands_at(chars: &Vec<char>, start: usize, part: &Vec<char>) -> (stands: bool)
    requires
        start <= chars@.len(),
    ensures
        stands == begins_with(chars@.skip(start as int), part@),
{
    let count: usize = chars.len();
    if part.len() > count - start {
        return false;
    }
    let mut i: usize = 0;
    while i < part.len()
        invariant
            count == chars@.len(),
            i <= part@.len() <= count - start,
            forall|j: int| 0 <= j < i ==> chars@[start + j] == part@[j],
        decreases part.len() - i,
    {
        if chars[start + i] != part[i] {
            assert(chars@.skip(start as int).take(part@.len() as int)[i as int] != part@[i as int]);
            return false;
        }
        i = i + 1;
    }
    assert(chars@.skip(start as int).take(part@.len() as int) =~= part@);
    true
}

/// Finds whether a text begins with another.
pub fn text_begins_with(text: &str, prefix: &str) -> (begins: bool)
    ensures
        begins == begins_with(text@, prefix@),
{
    let chars = chars_of(text);
    assert(chars@.skip(0) =~= chars@);
    stands_at(&chars, 0, &chars_of(prefix))
}

/// Finds whether a text stands somewhere in another.
pub fn text_has_part(text: &str, part: &str) -> (has: bool)
    ensures
        has == has_part(text@, part@),
{
    let chars = chars_of(text);
    let wanted = chars_of(part);
    let mut i: usize = 0;
    loop
        invariant
            chars@ == text@,
            wanted@ == part@,
            i <= chars@.len(),
            forall|j: int| 0 <= j < i ==> !begins_with(#[trigger] chars@.skip(j), part@),
        decreases chars@.len() - i,
    {
        if stands_at(&chars, i, &wanted) {
            return true;
        }
        if i == chars.len() {
            return false;
        }
        i = i + 1;
    }
}

/// Takes the white space from either end of a list of characters.
pub fn trim_chars(chars: &Vec<char>) -> (result: Vec<char>)
    ensures
        result@ == trimmed(chars@),
{
    let mut start: usize = 0;
    assert(chars@.skip(0) =~= chars@);
    while start < chars.len() && is_white_space(chars[start])
        invariant
            start <= chars@.len(),
            trimmed_front(chars@) == trimmed_front(chars@.skip(start as int)),
        decreases chars@.len() - start,
    {
        assert(chars@.skip(start as int).skip(1) =~= chars@.skip(start + 1));
        start = start + 1;
    }
    let ghost front = chars@.skip(start as int);
    assert(trimmed_front(chars@) == front);
    let mut end: usize = chars.len();
    assert(front.take(front.len() as int) =~= front);
    while end > start && is_white_space(chars[end - 1])
        invariant
            start <= end <= chars@.len(),
            front == chars@.skip(start as int),
            trimmed_back(front) == trimmed_back(front.take(end - start)),
        decreases end,
    {
        assert(front.take(end - start).drop_last() =~= front.take(end - start - 1));
        end = end - 1;
    }
    let mut result: Vec<char> = Vec::new();
    let mut i: usize = start;
    while i < end
        invariant
            start <= i <= end <= chars@.len(),
            front == chars@.skip(start as int),
            result@ == front.take(i - start),
        decreases end - i,
    {
        result.push(chars[i]);
        assert(front.take(i + 1 - start) =~= front.take(i - start).push(chars@[i as int]));
        i = i + 1;
    }
    result
}

/// Parts a list of characters where `separator` stands.
pub fn split_chars(chars: &Vec<char>, separator: char) -> (parts: Vec<Vec<char>>)
    ensures
        parts@.len() == split_on(chars@, separator).len(),
        forall|i: int|
            0 <= i < parts@.len() ==> (#[trigger] parts@[i])@ == split_on(chars@, separator)[i],
{
    let mut parts: Vec<Vec<char>> = Vec::new();
    let mut part: Vec<char> = Vec::new();
    let mut i: usize = 0;
    assert(chars@.take(0) =~= Seq::<char>::empty());
    while i < chars.len()
        invariant
            i <= chars@.len(),
            split_on(chars@.take(i as int), separator).len() == parts@.len() + 1,
            part@ == split_on(chars@.take(i as int), separator).last(),
            forall|j: int|
                0 <= j < parts@.len() ==> (#[trigger] parts@[j])@ == split_on(
                    chars@.take(i as int),
                    separator,
                )[j],
        decreases chars@.len() - i,
    {
        let c = chars[i];
        proof {
            assert(chars@.take(i + 1).drop_last() =~= chars@.take(i as int));
            assert(chars@.take(i + 1).last() == c);
        }
        if c == separator {
            parts.push(part);
            part = Vec::new();
            assert(part@ =~= Seq::<char>::empty());
        } else {
            part.push(c);
        }
        i = i + 1;
    }
    assert(chars@.take(i as int) =~= chars@);
    parts.push(part);
    parts
}

/// Replaces every occurrence of `from` in a text.
pub fn replace_all(text: &str, from: &str, to: &str) -> (result: String)
    requires
        from@.len() > 0,
    ensures
        result@ == replaced(text@, from@, to@),
{
    let chars = chars_of(text);
    let pattern = chars_of(from);
    let mut result = String::new();
    let mut i: usize = 0;
    assert(chars@.skip(0) =~= chars@);
    assert(result@ + replaced(chars@, from@, to@) =~= replaced(chars@, from@, to@));
    while i < chars.len()
        invariant
            i <= chars@.len(),
            pattern@ == from@,
            from@.len() > 0,
            replaced(chars@, from@, to@) == result@ + replaced(
                chars@.skip(i as int),
                from@,
                to@,
            ),
        decreases chars@.len() - i,
    {
        let ghost before = result@;
        let ghost rest = chars@.skip(i as int);
        if stands_at(&chars, i, &pattern) {
            result.append(to);
            proof {
                assert(rest.skip(from@.len() as int) =~= chars@.skip(i + from@.len()));
                assert(before + (to@ + replaced(rest.skip(from@.len() as int), from@, to@))
                    =~= result@ + replaced(chars@.skip(i + from@.len()), from@, to@));
            }
            i = i + pattern.len();
        } else {
            push_char(&mut result, chars[i]);
            proof {
                assert(rest.skip(1) =~= chars@.skip(i + 1));
                assert(before + (seq![rest[0]] + replaced(rest.skip(1), from@, to@)) =~= result@
                    + replaced(chars@.skip(i + 1), from@, to@));
            }
            i = i + 1;
        }
    }
    assert(chars@.skip(i as int) =~= Seq::<char>::empty());
    assert(result@ + Seq::<char>::empty() =~= result@);
    result
}

/// A path with a part put below it. A part that begins at the root stands alone, and no slash is put
/// behind nothing or behind another slash.
pub open spec fn path_joined(base: Seq<char>, part: Seq<char>) -> Seq<char> {
    if part.len() > 0 && part[0] == '/' {
        part
    } else if base.len() == 0 || base.last() == '/' {
        base + part
    } else {
        base + "/"@ + part
    }
}

/// Puts a part below a path.
pub fn join_path(base: &str, part: &str) -> (path: String)
    ensures
        path@ == path_joined(base@, part@),
{
    if part.unicode_len() > 0 && part.get_char(0) == '/' {
        return part.to_owned();
    }
    let count: usize = base.unicode_len();
    if count == 0 || base.get_char(count - 1) == '/' {
        return joined(base, part);
    }
    let below = joined(base, "/");
    joined(below.as_str(), part)
}

/// A path in which every separator is a slash. On Windows a backslash is one too.
pub open spec fn with_slashes(path: Seq<char>, windows: bool) -> Seq<char> {
    if windows {
        path.map_values(
            |c: char|
                if c == '\\' {
                    '/'
                } else {
                    c
                },
        )
    } else {
        path
    }
}

/// Lists the characters of a path, with a slash for every separator.
pub fn slashed_chars(path: &str, windows: bool) -> (chars: Vec<char>)
    ensures
        chars@ == with_slashes(path@, windows),
{
    if !windows {
        return chars_of(path);
    }
    let count: usize = path.unicode_len();
    let mut chars: Vec<char> = Vec::new();
    let mut i: usize = 0;
    while i < count
        invariant
            windows,
            count == path@.len(),
            i <= count,
            chars@ == with_slashes(path@, windows).take(i as int),
        decreases count - i,
    {
        let c: char = path.get_char(i);
        chars.push(
            if c == '\\' {
                '/'
            } else {
                c
            },
        );
        assert(with_slashes(path@, windows).take(i + 1) =~= with_slashes(path@, windows).take(
            i as int,
        ).push(with_slashes(path@, windows)[i as int]));
        i = i + 1;
    }
    assert(with_slashes(path@, windows).take(i as int) =~= with_slashes(path@, windows));
    chars
}

/// How often `part` stands in a text, looked for from the left, without overlap.
pub open spec fn occurrences(text: Seq<char>, part: Seq<char>) -> nat
    decreases text.len(),
{
    if text.len() == 0 || part.len() == 0 {
        0
    } else if begins_with(text, part) {
        1 + occurrences(text.skip(part.len() as int), part)
    } else {
        occurrences(text.skip(1), part)
    }
}

/// Whether a text is a variable: it begins with a dollar sign and has no other.
pub open spec fn is_variable(text: Seq<char>) -> bool {
    &&& text.len() > 0
    &&& text[0] == '$'
    &&& forall|i: int| 1 <= i < text.len() ==> #[trigger] text[i] != '$'
}

/// Whether two texts differ at a place that both have.
pub open spec fn differ(a: Seq<char>, b: Seq<char>) -> bool {
    exists|i: int| 0 <= i < a.len() && i < b.len() && #[trigger] a[i] != #[trigger] b[i]
}

/// A text does not begin with what differs from its front.
proof fn lemma_begins_apart(text: Seq<char>, front: Seq<char>, part: Seq<char>)
    requires
        begins_with(text, front),
        differ(front, part),
    ensures
        !begins_with(text, part),
{
    let i = choose|i: int|
        0 <= i < front.len() && i < part.len() && #[trigger] front[i] != #[trigger] part[i];
    assert(text.take(front.len() as int)[i] == text[i]);
    if begins_with(text, part) {
        assert(text.take(part.len() as int)[i] == text[i]);
    }
}

/// Inside of a variable at the front no other begins.
proof fn lemma_inside_variable(text: Seq<char>, front: Seq<char>, part: Seq<char>, k: int)
    requires
        begins_with(text, front),
        is_variable(front),
        is_variable(part),
        1 <= k < front.len(),
    ensures
        !begins_with(text.skip(k), part),
{
    assert(text.take(front.len() as int)[k] == text[k]);
    if begins_with(text.skip(k), part) {
        assert(text.skip(k).take(part.len() as int)[0] == text[k]);
    }
}

/// A variable stands in a text that begins with one if it is that one or stands behind it.
proof fn lemma_has_behind_variable(text: Seq<char>, front: Seq<char>, part: Seq<char>)
    requires
        begins_with(text, front),
        is_variable(front),
        is_variable(part),
        front == part || differ(front, part),
    ensures
        has_part(text, part) <==> front == part || has_part(text.skip(front.len() as int), part),
{
    let count = front.len() as int;
    assert(text.skip(0) =~= text);
    if front == part {
        assert(begins_with(text.skip(0), part));
    } else {
        lemma_begins_apart(text, front, part);
    }
    if has_part(text, part) && front != part {
        let i = choose|i: int| 0 <= i <= text.len() && begins_with(#[trigger] text.skip(i), part);
        if 1 <= i < count {
            lemma_inside_variable(text, front, part, i);
        }
        assert(text.skip(count).skip(i - count) =~= text.skip(i));
    }
    if has_part(text.skip(count), part) {
        let i = choose|i: int|
            0 <= i <= text.skip(count).len() && begins_with(
                #[trigger] text.skip(count).skip(i),
                part,
            );
        assert(text.skip(count).skip(i) =~= text.skip(count + i));
    }
}

/// A text has a part at its front or behind its first character.
proof fn lemma_has_unfolds(text: Seq<char>, part: Seq<char>)
    requires
        text.len() > 0,
    ensures
        has_part(text, part) <==> begins_with(text, part) || has_part(text.skip(1), part),
{
    assert(text.skip(0) =~= text);
    if has_part(text, part) {
        let i = choose|i: int| 0 <= i <= text.len() && begins_with(#[trigger] text.skip(i), part);
        if i > 0 {
            assert(text.skip(1).skip(i - 1) =~= text.skip(i));
        }
    }
    if begins_with(text, part) {
        assert(begins_with(text.skip(0), part));
    }
    if has_part(text.skip(1), part) {
        let i = choose|i: int|
            0 <= i <= text.skip(1).len() && begins_with(#[trigger] text.skip(1).skip(i), part);
        assert(text.skip(1).skip(i) =~= text.skip(i + 1));
    }
}

/// Replacing variables keeps every front that has no dollar sign.
proof fn lemma_replacing_keeps_front(
    text: Seq<char>,
    from: Seq<char>,
    to: Seq<char>,
    front: Seq<char>,
)
    requires
        is_variable(from),
        is_variable(to),
        forall|i: int| 0 <= i < front.len() ==> #[trigger] front[i] != '$',
    ensures
        begins_with(replaced(text, from, to), front) <==> begins_with(text, front),
    decreases text.len(),
{
    let result = replaced(text, from, to);
    if front.len() == 0 {
        assert(text.take(0) =~= front);
        assert(result.take(0) =~= front);
    } else if text.len() > 0 {
        if begins_with(text, from) {
            assert(text.take(from.len() as int)[0] == text[0]);
            assert(result[0] == '$');
        } else {
            assert(result[0] == text[0]);
            assert(result.skip(1) =~= replaced(text.skip(1), from, to));
            lemma_replacing_keeps_front(text.skip(1), from, to, front.skip(1));
            lemma_begins_unfolds(text, front);
            lemma_begins_unfolds(result, front);
        }
        if begins_with(text, front) {
            assert(text.take(front.len() as int)[0] == text[0]);
        }
        if begins_with(result, front) {
            assert(result.take(front.len() as int)[0] == result[0]);
        }
    }
}

/// A text begins with another if the first characters are the same, and the rest begins with the
/// rest.
proof fn lemma_begins_unfolds(text: Seq<char>, front: Seq<char>)
    requires
        text.len() > 0,
        front.len() > 0,
    ensures
        begins_with(text, front) <==> text[0] == front[0] && begins_with(
            text.skip(1),
            front.skip(1),
        ),
{
    if begins_with(text, front) {
        assert(text.take(front.len() as int)[0] == text[0]);
        assert(text.skip(1).take(front.len() - 1) =~= text.take(front.len() as int).skip(1));
    }
    if text[0] == front[0] && begins_with(text.skip(1), front.skip(1)) {
        assert forall|i: int| 0 <= i < front.len() implies text[i] == front[i] by {
            if i > 0 {
                assert(text.skip(1).take(front.len() - 1)[i - 1] == text[i]);
                assert(front.skip(1)[i - 1] == front[i]);
            }
        }
        assert(text.take(front.len() as int) =~= front);
    }
}

/// Replacing one variable by another takes the first away, brings the second in its place, and
/// leaves every other.
pub proof fn replacing_variables(text: Seq<char>, from: Seq<char>, to: Seq<char>, part: Seq<char>)
    requires
        is_variable(from),
        is_variable(to),
        is_variable(part),
        differ(from, to),
        part == from || differ(from, part),
        part == to || differ(to, part),
    ensures
        has_part(replaced(text, from, to), part) <==> (if part == to {
            has_part(text, from) || has_part(text, to)
        } else {
            part != from && has_part(text, part)
        }),
    decreases text.len(),
{
    let result = replaced(text, from, to);
    let i = choose|i: int| 0 <= i < from.len() && i < to.len() && #[trigger] from[i] != #[trigger] to[i];
    assert(from != to);
    assert(differ(to, from));
    if text.len() == 0 {
        assert forall|other: Seq<char>| is_variable(other) implies !has_part(text, other) by {
            if has_part(text, other) {
                let k = choose|k: int|
                    0 <= k <= text.len() && begins_with(#[trigger] text.skip(k), other);
            }
        }
    } else if begins_with(text, from) {
        let rest = text.skip(from.len() as int);
        assert(result.take(to.len() as int) =~= to);
        assert(result.skip(to.len() as int) =~= replaced(rest, from, to));
        replacing_variables(rest, from, to, part);
        lemma_has_behind_variable(text, from, part);
        lemma_has_behind_variable(text, from, to);
        lemma_has_behind_variable(text, from, from);
        lemma_has_behind_variable(result, to, part);
    } else {
        let rest = text.skip(1);
        assert(result.skip(1) =~= replaced(rest, from, to));
        replacing_variables(rest, from, to, part);
        lemma_has_unfolds(text, part);
        lemma_has_unfolds(text, to);
        lemma_has_unfolds(text, from);
        lemma_has_unfolds(result, part);
        lemma_begins_unfolds(text, part);
        lemma_begins_unfolds(result, part);
        assert forall|i: int| 0 <= i < part.skip(1).len() implies #[trigger] part.skip(1)[i]
            != '$' by {
            assert(part.skip(1)[i] == part[i + 1]);
        }
        lemma_replacing_keeps_front(rest, from, to, part.skip(1));
    }
}

/// Replacing what does not stand in a text changes nothing.
pub proof fn replacing_nothing(text: Seq<char>, from: Seq<char>, to: Seq<char>)
    requires
        from.len() > 0,
        !has_part(text, from),
    ensures
        replaced(text, from, to) == text,
    decreases text.len(),
{
    if text.len() > 0 {
        lemma_has_unfolds(text, from);
        replacing_nothing(text.skip(1), from, to);
        assert(seq![text[0]] + text.skip(1) =~= text);
    }
}

/// Every replacement adds what the new text is longer by.
pub proof fn replacing_adds_length(text: Seq<char>, from: Seq<char>, to: Seq<char>)
    requires
        from.len() > 0,
    ensures
        replaced(text, from, to).len() == text.len() + occurrences(text, from) * (to.len()
            - from.len()),
    decreases text.len(),
{
    if text.len() > 0 {
        if begins_with(text, from) {
            let rest = text.skip(from.len() as int);
            replacing_adds_length(rest, from, to);
            assert((1 + occurrences(rest, from)) * (to.len() - from.len()) == (to.len()
                - from.len()) + occurrences(rest, from) * (to.len() - from.len()))
                by (nonlinear_arith);
        } else {
            replacing_adds_length(text.skip(1), from, to);
        }
    } else {
        assert(0 * (to.len() - from.len()) == 0) by (nonlinear_arith);
    }
}

/// Where `part` begins at none of the first places, those are passed over.
proof fn lemma_pass_over(text: Seq<char>, part: Seq<char>, to: Seq<char>, count: int)
    requires
        0 <= count <= text.len(),
        part.len() > 0,
        forall|k: int| 0 <= k < count ==> !begins_with(#[trigger] text.skip(k), part),
    ensures
        occurrences(text, part) == occurrences(text.skip(count), part),
        replaced(text, part, to) == text.take(count) + replaced(text.skip(count), part, to),
    decreases count,
{
    if count == 0 {
        assert(text.skip(0) =~= text);
        assert(text.take(0) + replaced(text, part, to) =~= replaced(text, part, to));
    } else {
        assert(text.skip(0) =~= text);
        let rest = text.skip(1);
        assert forall|k: int| 0 <= k < count - 1 implies !begins_with(#[trigger] rest.skip(k), part) by {
            assert(rest.skip(k) =~= text.skip(k + 1));
        }
        lemma_pass_over(rest, part, to, count - 1);
        assert(rest.skip(count - 1) =~= text.skip(count));
        assert(!begins_with(text.skip(0), part));
        assert(seq![text[0]] + (rest.take(count - 1) + replaced(text.skip(count), part, to))
            =~= text.take(count) + replaced(text.skip(count), part, to));
    }
}

/// A variable at the front is passed over in the search for another.
proof fn lemma_pass_variable(text: Seq<char>, front: Seq<char>, part: Seq<char>, to: Seq<char>)
    requires
        begins_with(text, front),
        is_variable(front),
        is_variable(part),
        differ(front, part),
    ensures
        occurrences(text, part) == occurrences(text.skip(front.len() as int), part),
        replaced(text, part, to) == front + replaced(text.skip(front.len() as int), part, to),
{
    assert forall|k: int| 0 <= k < front.len() implies !begins_with(#[trigger] text.skip(k), part) by {
        if k == 0 {
            assert(text.skip(0) =~= text);
            lemma_begins_apart(text, front, part);
        } else {
            lemma_inside_variable(text, front, part, k);
        }
    }
    lemma_pass_over(text, part, to, front.len() as int);
}

/// Replacing one variable does not change how often a third stands in a text.
pub proof fn replacing_keeps_count(text: Seq<char>, from: Seq<char>, to: Seq<char>, part: Seq<char>)
    requires
        is_variable(from),
        is_variable(to),
        is_variable(part),
        differ(from, part),
        differ(to, part),
    ensures
        occurrences(replaced(text, from, to), part) == occurrences(text, part),
    decreases text.len(),
{
    let result = replaced(text, from, to);
    if text.len() > 0 {
        if begins_with(text, from) {
            let rest = text.skip(from.len() as int);
            assert(result.take(to.len() as int) =~= to);
            assert(result.skip(to.len() as int) =~= replaced(rest, from, to));
            replacing_keeps_count(rest, from, to, part);
            lemma_pass_variable(text, from, part, to);
            lemma_pass_variable(result, to, part, to);
        } else if begins_with(text, part) {
            let rest = text.skip(part.len() as int);
            let i = choose|i: int|
                0 <= i < from.len() && i < part.len() && #[trigger] from[i] != #[trigger] part[i];
            assert(differ(part, from));
            lemma_pass_variable(text, part, from, to);
            assert(result.take(part.len() as int) =~= part);
            assert(result.skip(part.len() as int) =~= replaced(rest, from, to));
            replacing_keeps_count(rest, from, to, part);
        } else {
            let rest = text.skip(1);
            assert(result.skip(1) =~= replaced(rest, from, to));
            replacing_keeps_count(rest, from, to, part);
            lemma_begins_unfolds(text, part);
            lemma_begins_unfolds(result, part);
            assert forall|i: int| 0 <= i < part.skip(1).len() implies #[trigger] part.skip(1)[i]
                != '$' by {
                assert(part.skip(1)[i] == part[i + 1]);
            }
            lemma_replacing_keeps_front(rest, from, to, part.skip(1));
        }
    }
}

} // verus!
