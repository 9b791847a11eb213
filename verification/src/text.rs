//! Text, as the sequence of its characters.

use vstd::prelude::*;
use vstd::string::*;

verus! {

/// `String::push` appends one character and leaves the rest as it was.
pub assume_specification[ String::push ](string: &mut String, ch: char)
    ensures
        final(string)@ == old(string)@.push(ch),
;

/// The characters of every string in a list.
pub open spec fn texts(list: Seq<String>) -> Seq<Seq<char>> {
    Seq::new(list.len(), |i: int| list[i]@)
}

/// The characters of an optional string.
pub open spec fn text_option(text: Option<String>) -> Option<Seq<char>> {
    match text {
        Some(text) => Some(text@),
        None => None,
    }
}

/// What a byte string reads as when every malformed sequence in it is replaced.
pub uninterp spec fn lossy_text(bytes: Seq<u8>) -> Seq<char>;

/// Read bytes as text, replacing what is not UTF-8.
///
/// Calls `String::from_utf8_lossy`. Trusted: the result is determined by the
/// bytes, and well-formed UTF-8 reads as exactly the characters it encodes.
#[verifier::external_body]
pub(crate) fn read_lossy(bytes: &Vec<u8>) -> (text: String)
    ensures
        text@ == lossy_text(bytes@),
        vstd::utf8::valid_utf8(bytes@) ==> text@ == vstd::utf8::decode_utf8(bytes@),
{
    String::from_utf8_lossy(bytes).into_owned()
}

/// How a string is shown between quotation marks, with what is unprintable in
/// it escaped.
pub uninterp spec fn debug_text(text: Seq<char>) -> Seq<char>;

/// Show text between quotation marks, escaping what cannot be printed.
///
/// Calls the `Debug` formatting of `str`. Trusted: the result is determined by
/// the characters shown.
#[verifier::external_body]
pub(crate) fn show_debug(text: &str) -> (shown: String)
    ensures
        shown@ == debug_text(text@),
{
    format!("{:?}", text)
}

/// The bytes that carry a text.
pub fn to_bytes(text: &str) -> (bytes: Vec<u8>)
    ensures
        bytes@ == vstd::utf8::encode_utf8(text@),
{
    text.as_bytes_vec()
}

/// The characters of a text, one by one.
pub fn characters(text: &str) -> (list: Vec<char>)
    ensures
        list@ == text@,
{
    let mut list: Vec<char> = Vec::new();
    for character in it: text.chars()
        invariant
            it.seq() == text@,
            list@ == text@.take(it.index()),
    {
        list.push(character);
    }
    list
}

/// Whether two texts hold the same characters.
pub fn same(left: &str, right: &str) -> (equal: bool)
    ensures
        equal == (left@ == right@),
{
    left.to_owned() == right.to_owned()
}

/// Several texts, one after the other.
pub fn concat3(first: &str, second: &str, third: &str) -> (text: String)
    ensures
        text@ == first@ + second@ + third@,
{
    let mut text: String = first.to_owned();
    text.append(second);
    text.append(third);
    text
}

/// Several texts, one after the other.
pub fn concat5(first: &str, second: &str, third: &str, fourth: &str, fifth: &str) -> (text: String)
    ensures
        text@ == first@ + second@ + third@ + fourth@ + fifth@,
{
    let mut text: String = concat3(first, second, third);
    text.append(fourth);
    text.append(fifth);
    text
}

/// Add a text to the end of a list.
pub fn add_to(list: &mut Vec<String>, text: &str)
    ensures
        texts(final(list)@) == texts(old(list)@).push(text@),
{
    list.push(text.to_owned());
    assert(texts(list@) =~= texts(old(list)@).push(text@));
}

/// Add every text of a list to the end of another.
pub fn add_all_to(list: &mut Vec<String>, more: &Vec<String>)
    ensures
        texts(final(list)@) == texts(old(list)@) + texts(more@),
{
    let ghost before = list@;
    for i in 0..more.len()
        invariant
            texts(list@) == texts(before) + texts(more@).take(i as int),
    {
        add_to(list, more[i].as_str());
        assert(texts(more@).take(i + 1) =~= texts(more@).take(i as int).push(more@[i as int]@));
        assert(texts(list@) =~= texts(before) + texts(more@).take(i + 1));
    }
    assert(texts(more@).take(more@.len() as int) =~= texts(more@));
}

/// A copy of a list of strings.
pub fn copy_list(list: &Vec<String>) -> (copy: Vec<String>)
    ensures
        texts(copy@) == texts(list@),
{
    let mut copy: Vec<String> = Vec::new();
    for i in 0..list.len()
        invariant
            copy@.len() == i,
            forall|j: int| 0 <= j < i ==> copy@[j]@ == list@[j]@,
    {
        copy.push(list[i].clone());
    }
    assert(texts(copy@) =~= texts(list@));
    copy
}

/// A copy of an optional string.
pub fn copy_option(text: &Option<String>) -> (copy: Option<String>)
    ensures
        text_option(copy) == text_option(*text),
{
    match text {
        Some(text) => Some(text.clone()),
        None => None,
    }
}

/// Whether a character is white space, as Unicode classifies it.
pub open spec fn is_space(character: char) -> bool {
    let code = character as u32;
    ||| 0x9 <= code <= 0xd
    ||| code == 0x20
    ||| code == 0x85
    ||| code == 0xa0
    ||| code == 0x1680
    ||| 0x2000 <= code <= 0x200a
    ||| code == 0x2028
    ||| code == 0x2029
    ||| code == 0x202f
    ||| code == 0x205f
    ||| code == 0x3000
}

/// Whether a character is white space.
pub fn space(character: char) -> (answer: bool)
    ensures
        answer == is_space(character),
{
    let code: u32 = character as u32;
    (0x9 <= code && code <= 0xd) || code == 0x20 || code == 0x85 || code == 0xa0 || code == 0x1680
        || (0x2000 <= code && code <= 0x200a) || code == 0x2028 || code == 0x2029 || code == 0x202f
        || code == 0x205f || code == 0x3000
}

/// Text without the white space it starts with.
pub open spec fn without_leading(text: Seq<char>) -> Seq<char>
    decreases text.len(),
{
    if text.len() > 0 && is_space(text.first()) {
        without_leading(text.skip(1))
    } else {
        text
    }
}

/// Text without the white space it ends with.
pub open spec fn without_trailing(text: Seq<char>) -> Seq<char>
    decreases text.len(),
{
    if text.len() > 0 && is_space(text.last()) {
        without_trailing(text.drop_last())
    } else {
        text
    }
}

/// Text without the white space around it.
pub open spec fn trimmed(text: Seq<char>) -> Seq<char> {
    without_trailing(without_leading(text))
}

/// Remove the white space around a text.
pub fn trim(text: &str) -> (inner: String)
    ensures
        inner@ == trimmed(text@),
{
    let list: Vec<char> = characters(text);
    let mut start: usize = 0;
    assert(text@.skip(0) =~= text@);
    while start < list.len() && space(list[start])
        invariant
            start <= list.len(),
            list@ == text@,
            without_leading(text@.skip(start as int)) == without_leading(text@),
        decreases list.len() - start,
    {
        assert(text@.skip(start as int).skip(1) =~= text@.skip(start as int + 1));
        start = start + 1;
    }
    let ghost rest = text@.skip(start as int);
    assert(without_leading(text@) == rest);
    let mut end: usize = list.len();
    assert(text@.subrange(start as int, end as int) =~= rest);
    while end > start && space(list[end - 1])
        invariant
            start <= end <= list.len(),
            list@ == text@,
            rest == text@.skip(start as int),
            without_trailing(text@.subrange(start as int, end as int)) == without_trailing(rest),
        decreases end,
    {
        assert(text@.subrange(start as int, end as int).drop_last() =~= text@.subrange(
            start as int,
            end as int - 1,
        ));
        end = end - 1;
    }
    text.substring_char(start, end).to_owned()
}

/// A text split at the first occurrence of `separator`, if it has one.
pub open spec fn is_split(text: Seq<char>, separator: char, before: Seq<char>, after: Seq<char>) -> bool {
    &&& text == before.push(separator) + after
    &&& !before.contains(separator)
}

/// Split a text at the first occurrence of `separator`.
pub fn split_once(text: &str, separator: char) -> (halves: Option<(String, String)>)
    ensures
        match halves {
            Some((before, after)) => is_split(text@, separator, before@, after@),
            None => !text@.contains(separator),
        },
{
    let list: Vec<char> = characters(text);
    let mut i: usize = 0;
    while i < list.len()
        invariant
            i <= list.len(),
            list@ == text@,
            forall|j: int| 0 <= j < i ==> text@[j] != separator,
        decreases list.len() - i,
    {
        if list[i] == separator {
            let before: String = text.substring_char(0, i).to_owned();
            let after: String = text.substring_char(i + 1, list.len()).to_owned();
            assert(text@ =~= before@.push(separator) + after@);
            return Some((before, after));
        }
        i = i + 1;
    }
    None
}

/// A text has one split at a separator, and no more.
pub proof fn split_is_unique(
    text: Seq<char>,
    separator: char,
    before: Seq<char>,
    after: Seq<char>,
    other_before: Seq<char>,
    other_after: Seq<char>,
)
    requires
        is_split(text, separator, before, after),
        is_split(text, separator, other_before, other_after),
    ensures
        before == other_before,
        after == other_after,
{
    assert(text[before.len() as int] == separator);
    assert(text[other_before.len() as int] == separator);
    if before.len() < other_before.len() {
        assert(other_before[before.len() as int] == separator);
    }
    if other_before.len() < before.len() {
        assert(before[other_before.len() as int] == separator);
    }
    assert(before =~= text.take(before.len() as int));
    assert(other_before =~= text.take(before.len() as int));
    assert(after =~= text.skip(before.len() as int + 1));
    assert(other_after =~= text.skip(before.len() as int + 1));
}

/// Parts of a text with `separator` between each two of them.
pub open spec fn joined(parts: Seq<Seq<char>>, separator: Seq<char>) -> Seq<char>
    decreases parts.len(),
{
    if parts.len() == 0 {
        Seq::empty()
    } else {
        parts.first() + continued(parts.skip(1), separator)
    }
}

/// Parts of a text with `separator` in front of each of them.
pub open spec fn continued(parts: Seq<Seq<char>>, separator: Seq<char>) -> Seq<char>
    decreases parts.len(),
{
    if parts.len() == 0 {
        Seq::empty()
    } else {
        separator + parts.first() + continued(parts.skip(1), separator)
    }
}

/// Put `separator` between the parts of a text.
pub fn join(parts: &Vec<String>, separator: &str) -> (text: String)
    ensures
        text@ == joined(texts(parts@), separator@),
{
    let ghost all = texts(parts@);
    if parts.len() == 0 {
        return String::new();
    }
    let mut text: String = parts[0].clone();
    let mut i: usize = 1;
    assert(joined(all, separator@) == text@ + continued(all.skip(1), separator@));
    while i < parts.len()
        invariant
            1 <= i <= parts.len(),
            all == texts(parts@),
            joined(all, separator@) == text@ + continued(all.skip(i as int), separator@),
        decreases parts.len() - i,
    {
        let ghost earlier = text@;
        text.append(separator);
        text.append(parts[i].as_str());
        proof {
            let rest = all.skip(i as int);
            assert(rest.first() == parts@[i as int]@);
            assert(rest.skip(1) =~= all.skip(i as int + 1));
            assert(earlier + (separator@ + rest.first() + continued(rest.skip(1), separator@))
                =~= text@ + continued(rest.skip(1), separator@));
        }
        i = i + 1;
    }
    assert(all.skip(i as int).len() == 0);
    assert(text@ =~= joined(all, separator@));
    text
}

/// What follows `prefix` in `text`, if `text` starts with it.
pub fn strip_prefix(text: &str, prefix: &str) -> (rest: Option<String>)
    ensures
        match rest {
            Some(rest) => text@ == prefix@ + rest@,
            None => !prefix@.is_prefix_of(text@),
        },
{
    let long: usize = text.unicode_len();
    let short: usize = prefix.unicode_len();
    if long < short {
        return None;
    }
    if same(text.substring_char(0, short), prefix) {
        let rest: String = text.substring_char(short, long).to_owned();
        assert(text@ =~= prefix@ + rest@);
        return Some(rest);
    }
    proof {
        if prefix@.is_prefix_of(text@) {
            assert(prefix@ =~= text@.subrange(0, short as int));
        }
    }
    None
}

/// Leading white space goes, one character after the other.
proof fn leading_goes(lead: Seq<char>, rest: Seq<char>)
    requires
        forall|i: int| 0 <= i < lead.len() ==> is_space(#[trigger] lead[i]),
        rest.len() > 0 ==> !is_space(rest[0]),
    ensures
        without_leading(lead + rest) == rest,
    decreases lead.len(),
{
    if lead.len() == 0 {
        assert(lead + rest =~= rest);
    } else {
        assert((lead + rest).first() == lead[0]);
        assert((lead + rest).skip(1) =~= lead.skip(1) + rest);
        leading_goes(lead.skip(1), rest);
    }
}

/// Trailing white space goes, one character after the other.
proof fn trailing_goes(rest: Seq<char>, trail: Seq<char>)
    requires
        forall|i: int| 0 <= i < trail.len() ==> is_space(#[trigger] trail[i]),
        rest.len() > 0 ==> !is_space(rest.last()),
    ensures
        without_trailing(rest + trail) == rest,
    decreases trail.len(),
{
    if trail.len() == 0 {
        assert(rest + trail =~= rest);
    } else {
        assert((rest + trail).last() == trail.last());
        assert((rest + trail).drop_last() =~= rest + trail.drop_last());
        trailing_goes(rest, trail.drop_last());
    }
}

/// Trimming takes away the white space on both sides, all of it, and nothing
/// else.
pub proof fn trimming_keeps_what_is_inside(lead: Seq<char>, inside: Seq<char>, trail: Seq<char>)
    requires
        forall|i: int| 0 <= i < lead.len() ==> is_space(#[trigger] lead[i]),
        forall|i: int| 0 <= i < trail.len() ==> is_space(#[trigger] trail[i]),
        inside.len() > 0 ==> !is_space(inside[0]) && !is_space(inside.last()),
    ensures
        trimmed(lead + inside + trail) == inside,
{
    if inside.len() == 0 {
        assert(lead + inside + trail =~= (lead + trail) + inside);
        assert forall|i: int| 0 <= i < (lead + trail).len() implies is_space(
            #[trigger] (lead + trail)[i],
        ) by {
            if i >= lead.len() {
                assert(is_space(trail[i - lead.len()]));
            }
        }
        leading_goes(lead + trail, inside);
    } else {
        assert(lead + inside + trail =~= lead + (inside + trail));
        assert((inside + trail)[0] == inside[0]);
        leading_goes(lead, inside + trail);
        trailing_goes(inside, trail);
    }
}

/// Every text is what trimming leaves of it, with white space around.
pub proof fn trimming_takes_only_white_space(text: Seq<char>) -> (sides: (Seq<char>, Seq<char>))
    ensures
        text == sides.0 + trimmed(text) + sides.1,
        forall|i: int| 0 <= i < sides.0.len() ==> is_space(#[trigger] sides.0[i]),
        forall|i: int| 0 <= i < sides.1.len() ==> is_space(#[trigger] sides.1[i]),
{
    let lead = leading_side(text);
    let trail = trailing_side(without_leading(text));
    assert(text =~= lead + trimmed(text) + trail);
    (lead, trail)
}

/// What is taken away in front is white space.
proof fn leading_side(text: Seq<char>) -> (lead: Seq<char>)
    ensures
        text == lead + without_leading(text),
        forall|i: int| 0 <= i < lead.len() ==> is_space(#[trigger] lead[i]),
    decreases text.len(),
{
    if text.len() > 0 && is_space(text.first()) {
        let rest = leading_side(text.skip(1));
        let lead = seq![text.first()] + rest;
        assert(text =~= seq![text.first()] + text.skip(1));
        assert(text =~= lead + without_leading(text));
        assert forall|i: int| 0 <= i < lead.len() implies is_space(#[trigger] lead[i]) by {
            if i > 0 {
                assert(is_space(rest[i - 1]));
            }
        }
        lead
    } else {
        assert(text =~= Seq::empty() + text);
        Seq::empty()
    }
}

/// What is taken away behind is white space.
proof fn trailing_side(text: Seq<char>) -> (trail: Seq<char>)
    ensures
        text == without_trailing(text) + trail,
        forall|i: int| 0 <= i < trail.len() ==> is_space(#[trigger] trail[i]),
    decreases text.len(),
{
    if text.len() > 0 && is_space(text.last()) {
        let rest = trailing_side(text.drop_last());
        let trail = rest.push(text.last());
        assert(text =~= text.drop_last().push(text.last()));
        assert(text =~= without_trailing(text) + trail);
        trail
    } else {
        assert(text =~= text + Seq::empty());
        Seq::empty()
    }
}

/// The white space of a terminal is white space, and nothing that is printed in
/// ASCII is.
pub proof fn white_space_is_not_printed(character: char)
    ensures
        is_space(' '),
        is_space('\n'),
        is_space('\t'),
        is_space('\r'),
        '!' <= character <= '~' ==> !is_space(character),
{
}

/// A text is split at its first separator: what is before holds none, and what
/// is after may hold any number.
pub proof fn a_split_is_at_the_first_separator(
    before: Seq<char>,
    separator: char,
    after: Seq<char>,
    other_before: Seq<char>,
    other_after: Seq<char>,
)
    requires
        !before.contains(separator),
    ensures
        is_split(before + seq![separator] + after, separator, before, after),
        is_split(before + seq![separator] + after, separator, other_before, other_after)
            ==> other_before == before && other_after == after,
{
    let text = before + seq![separator] + after;
    assert(text =~= before.push(separator) + after);
    if is_split(text, separator, other_before, other_after) {
        split_is_unique(text, separator, other_before, other_after, before, after);
    }
}

/// Continuing over two lists is continuing over one and then the other.
proof fn continued_over_both(
    left: Seq<Seq<char>>,
    right: Seq<Seq<char>>,
    separator: Seq<char>,
)
    ensures
        continued(left + right, separator) == continued(left, separator) + continued(
            right,
            separator,
        ),
    decreases left.len(),
{
    if left.len() == 0 {
        assert(left + right =~= right);
        assert(continued(left, separator) + continued(right, separator) =~= continued(
            right,
            separator,
        ));
    } else {
        assert((left + right).first() == left.first());
        assert((left + right).skip(1) =~= left.skip(1) + right);
        continued_over_both(left.skip(1), right, separator);
        assert(continued(left + right, separator) =~= continued(left, separator) + continued(
            right,
            separator,
        ));
    }
}

/// Joining puts the separator between two parts and nowhere else: nothing gives
/// nothing, one part is itself, and two lists join with one separator between
/// them.
pub proof fn joining_separates(
    part: Seq<char>,
    left: Seq<Seq<char>>,
    right: Seq<Seq<char>>,
    separator: Seq<char>,
)
    ensures
        joined(Seq::empty(), separator).len() == 0,
        joined(seq![part], separator) == part,
        left.len() > 0 && right.len() > 0 ==> joined(left + right, separator) == joined(
            left,
            separator,
        ) + separator + joined(right, separator),
{
    let one = seq![part];
    assert(one.skip(1).len() == 0);
    assert(joined(one, separator) =~= part);
    if left.len() > 0 && right.len() > 0 {
        assert((left + right).first() == left.first());
        assert((left + right).skip(1) =~= left.skip(1) + right);
        continued_over_both(left.skip(1), right, separator);
        assert(joined(left + right, separator) =~= joined(left, separator) + separator + joined(
            right,
            separator,
        ));
    }
}

/// The characters of a list are those of its strings, one for one.
pub proof fn texts_are_the_strings(list: Seq<String>, text: Option<String>)
    ensures
        texts(list).len() == list.len(),
        forall|i: int| 0 <= i < list.len() ==> #[trigger] texts(list)[i] == list[i]@,
        text is None ==> text_option(text) is None,
        text matches Some(inner) ==> text_option(text) == Some(inner@),
{
}

} // verus!
