//! Operations on the text that a script hands over: what a setter reads off
//! a value, and the tests that say which text the URL parser can take.

use crate::url_calls::optional_view;
use vstd::prelude::*;
use vstd::std_specs::iter::IteratorSpec;
use vstd::string::next_postcondition;

verus! {

/// `text` without a single leading `marker`, if it has one.
pub open spec fn without_leading(text: Seq<char>, marker: char) -> Seq<char> {
    if text.len() > 0 && text[0] == marker {
        text.skip(1)
    } else {
        text
    }
}

/// How many characters stand before the first `marker` in `text`: all of
/// them where `text` holds no `marker`.
pub open spec fn length_before(text: Seq<char>, marker: char) -> nat
    decreases text.len(),
{
    if text.len() == 0 || text[0] == marker {
        0
    } else {
        1 + length_before(text.drop_first(), marker)
    }
}

/// The part of `text` before the first `marker`, or the whole of it.
pub open spec fn before_first(text: Seq<char>, marker: char) -> Seq<char> {
    text.take(length_before(text, marker) as int)
}

/// The lower-case form of an ASCII capital; any other character unchanged.
pub open spec fn ascii_lower(c: char) -> char {
    if 'A' <= c && c <= 'Z' {
        ((c as u8) + 32u8) as char
    } else {
        c
    }
}

/// The two texts are equal once ASCII capitals are read as lower case.
pub open spec fn same_ignoring_ascii_case(left: Seq<char>, right: Seq<char>) -> bool {
    &&& left.len() == right.len()
    &&& forall|i: int|
        0 <= i < left.len() ==> ascii_lower(#[trigger] left[i]) == ascii_lower(right[i])
}

/// `length_before` never passes the end, no `marker` stands before it, and
/// one stands at it unless it is the end.
pub proof fn lemma_length_before(text: Seq<char>, marker: char)
    ensures
        length_before(text, marker) <= text.len(),
        forall|i: int| 0 <= i < length_before(text, marker) ==> text[i] != marker,
        length_before(text, marker) < text.len() ==> text[length_before(text, marker) as int]
            == marker,
    decreases text.len(),
{
    if text.len() == 0 || text[0] == marker {
    } else {
        let rest = text.drop_first();
        lemma_length_before(rest, marker);
        assert forall|i: int| 0 <= i < length_before(text, marker) implies text[i] != marker by {
            if i > 0 {
                assert(text[i] == rest[i - 1]);
            }
        }
        if length_before(text, marker) < text.len() {
            let found = length_before(rest, marker) as int;
            assert(text[found + 1] == rest[found]);
        }
    }
}

/// A position that holds the first `marker` is `length_before`; so is the
/// length of a text without one.
pub proof fn lemma_length_before_is(text: Seq<char>, marker: char, at: int)
    requires
        0 <= at <= text.len(),
        forall|i: int| 0 <= i < at ==> text[i] != marker,
        at < text.len() ==> text[at] == marker,
    ensures
        length_before(text, marker) == at,
{
    lemma_length_before(text, marker);
    let found = length_before(text, marker) as int;
    if found < at {
        assert(text[found] == marker);
    } else if found > at {
        assert(text[at] == marker);
    }
}

/// Removes a single leading `marker`.
pub fn strip_leading(text: &str, marker: char) -> (rest: &str)
    ensures
        rest@ == without_leading(text@, marker),
{
    let length: usize = text.unicode_len();
    if length > 0 && text.get_char(0) == marker {
        let rest = text.substring_char(1, length);
        assert(text@.subrange(1, length as int) == text@.skip(1));
        rest
    } else {
        text
    }
}

/// Cuts `text` before its first `marker`.
pub fn cut_before(text: &str, marker: char) -> (head: &str)
    ensures
        head@ == before_first(text@, marker),
{
    let length: usize = text.unicode_len();
    let mut chars = text.chars();
    let mut at: usize = 0;
    let mut found = false;
    while !found && at < length
        invariant
            at <= length,
            length == text@.len(),
            chars.obeys_prophetic_iter_laws(),
            !found ==> chars.remaining() == text@.skip(at as int),
            forall|i: int| 0 <= i < at ==> text@[i] != marker,
            found ==> at < length && text@[at as int] == marker,
        decreases length - at + if found { 0int } else { 1int },
    {
        let ghost before = chars;
        let next = chars.next();
        proof {
            next_postcondition(&before, &chars, next);
        }
        match next {
            Some(c) => {
                if c == marker {
                    found = true;
                } else {
                    at = at + 1;
                }
            },
            None => {},
        }
    }
    proof {
        lemma_length_before_is(text@, marker, at as int);
    }
    text.substring_char(0, at)
}

/// Lower case of an ASCII capital.
pub fn to_ascii_lower(c: char) -> (lower: char)
    ensures
        lower == ascii_lower(c),
{
    if 'A' <= c && c <= 'Z' {
        ((c as u8) + 32u8) as char
    } else {
        c
    }
}

/// Compares two texts, reading ASCII capitals as lower case.
pub fn eq_ignore_ascii_case(left: &str, right: &str) -> (same: bool)
    ensures
        same == same_ignoring_ascii_case(left@, right@),
{
    let length: usize = left.unicode_len();
    if length != right.unicode_len() {
        return false;
    }
    let mut left_chars = left.chars();
    let mut right_chars = right.chars();
    let mut at: usize = 0;
    while at < length
        invariant
            at <= length,
            length == left@.len(),
            length == right@.len(),
            left_chars.obeys_prophetic_iter_laws(),
            right_chars.obeys_prophetic_iter_laws(),
            left_chars.remaining() == left@.skip(at as int),
            right_chars.remaining() == right@.skip(at as int),
            forall|i: int|
                0 <= i < at ==> ascii_lower(#[trigger] left@[i]) == ascii_lower(right@[i]),
        decreases length - at,
    {
        let ghost left_before = left_chars;
        let ghost right_before = right_chars;
        let left_next = left_chars.next();
        let right_next = right_chars.next();
        proof {
            next_postcondition(&left_before, &left_chars, left_next);
            next_postcondition(&right_before, &right_chars, right_next);
        }
        match (left_next, right_next) {
            (Some(l), Some(r)) => {
                if to_ascii_lower(l) != to_ascii_lower(r) {
                    return false;
                }
            },
            _ => {},
        }
        at = at + 1;
    }
    true
}

/// The most characters that a text may hold for the URL parser, which counts
/// positions in 32 bits and encodes a character in at most twelve bytes.
pub const TEXT_LIMIT: usize = 100_000_000;

/// The most characters that a label may hold where the parser reads a host
/// name. The parser's encoding of a host label multiplies in 32 bits; a
/// label grows at most eighteenfold before it is encoded, and what is
/// encoded stays in range under 3,855 characters.
pub const LABEL_LIMIT: usize = 200;

/// A character that ends a label of a host name: a dot, or a slash, which
/// ends the host.
pub open spec fn is_break(c: char) -> bool {
    c == '.' || c == '/' || c == '\\'
}

/// A character without which no label is encoded: one outside ASCII, a `%`
/// that may stand for one, or the `-` of an encoded label's prefix.
pub open spec fn is_trigger(c: char) -> bool {
    c == '%' || c == '-' || c > '\u{7f}'
}

/// No character of `text` could make the parser encode a label.
pub open spec fn is_plain(text: Seq<char>) -> bool {
    forall|i: int| 0 <= i < text.len() ==> !is_trigger(#[trigger] text[i])
}

/// How many characters just before `end` hold no break.
pub open spec fn run_before(text: Seq<char>, end: int) -> nat
    decreases end,
{
    if end <= 0 || end > text.len() || is_break(text[end - 1]) {
        0
    } else {
        1 + run_before(text, end - 1)
    }
}

/// No stretch of `text` without a break is longer than [`LABEL_LIMIT`].
pub open spec fn has_short_labels(text: Seq<char>) -> bool {
    forall|end: int| 0 <= end <= text.len() ==> #[trigger] run_before(text, end) <= LABEL_LIMIT
}

/// A kind of character that the URL parser treats alike.
#[derive(Clone, Copy, Debug, PartialEq, Eq, Structural)]
pub enum Class {
    /// A control character or a space, which the parser trims from the start
    /// of its input.
    Blank,
    /// A slash of either kind, or a tab, line feed or carriage return, which
    /// the parser passes over wherever it stands.
    Slash,
    /// Anything but `/`, `\`, `?` and `#`, which end the part of a URL that
    /// holds the host.
    Host,
    /// A character of a scheme: an ASCII letter or digit, `+`, `-` or `.`.
    Scheme,
    /// A tab, line feed or carriage return, which the parser passes over.
    Passed,
}

/// The character is of the class.
pub open spec fn in_class(class: Class, c: char) -> bool {
    match class {
        Class::Blank => c <= ' ',
        Class::Slash => c == '/' || c == '\\' || c == '\t' || c == '\n' || c == '\r',
        Class::Host => !(c == '/' || c == '\\' || c == '?' || c == '#'),
        Class::Scheme => ('a' <= c && c <= 'z') || ('A' <= c && c <= 'Z') || ('0' <= c && c <= '9')
            || c == '+' || c == '-' || c == '.',
        Class::Passed => c == '\t' || c == '\n' || c == '\r',
    }
}

/// How many characters at the start of `text` are of the class.
pub open spec fn length_in(text: Seq<char>, class: Class) -> nat
    decreases text.len(),
{
    if text.len() == 0 || !in_class(class, text[0]) {
        0
    } else {
        1 + length_in(text.drop_first(), class)
    }
}

/// `text` without the characters of the class at its start.
pub open spec fn drop_in(text: Seq<char>, class: Class) -> Seq<char> {
    text.skip(length_in(text, class) as int)
}

/// The characters of the class at the start of `text`.
pub open spec fn take_in(text: Seq<char>, class: Class) -> Seq<char> {
    text.take(length_in(text, class) as int)
}

/// What comes before the first `?` or `#`.
pub open spec fn before_query(text: Seq<char>) -> Seq<char> {
    before_first(before_first(text, '#'), '?')
}

/// What comes behind the first `:`.
pub open spec fn behind_colon(text: Seq<char>) -> Seq<char> {
    text.skip(length_before(text, ':') as int + 1)
}

/// The text may begin with an authority of its own: once it is trimmed, it
/// begins with two slashes.
pub open spec fn has_leading_slashes(text: Seq<char>) -> bool {
    length_in(drop_in(text, Class::Blank), Class::Slash) >= 2
}

/// Where a host can stand in a text that begins with slashes: behind them,
/// up to the next `/`, `\`, `?` or `#`.
pub open spec fn leading_host(text: Seq<char>) -> Seq<char> {
    take_in(drop_in(drop_in(text, Class::Blank), Class::Slash), Class::Host)
}

/// The text may begin with a scheme: it holds a `:` with no `/`, `\`, `?` or
/// `#` before it.
pub open spec fn has_scheme_mark(text: Seq<char>) -> bool {
    let lead = before_first(text, ':');
    lead.len() < text.len() && length_in(lead, Class::Host) == lead.len()
}

/// What stands behind the slash that `text` begins with, if it begins with
/// one.
pub open spec fn behind_slash(text: Seq<char>) -> Option<Seq<char>> {
    let passed = drop_in(text, Class::Passed);
    if passed.len() > 0 && (passed[0] == '/' || passed[0] == '\\') {
        Some(passed.skip(1))
    } else {
        None
    }
}

/// Where the host of a `file` URL stands in what follows the scheme: behind
/// exactly two slashes, up to the next `/`, `\`, `?` or `#`. Without two
/// slashes there is no host.
pub open spec fn file_host(text: Seq<char>) -> Seq<char> {
    match behind_slash(text) {
        Some(once) => match behind_slash(once) {
            Some(twice) => take_in(twice, Class::Host),
            None => Seq::empty(),
        },
        None => Seq::empty(),
    }
}

/// The scheme may be `file`.
pub open spec fn may_be_file(text: Seq<char>) -> bool {
    spells(before_first(text, ':'), "file"@)
}

/// Where a host can stand in a text that begins with a scheme: behind the
/// `:` and the slashes that follow it, up to the next `/`, `\`, `?` or `#`.
/// A `file` URL takes two slashes and no more.
pub open spec fn scheme_host(text: Seq<char>) -> Seq<char> {
    if may_be_file(text) {
        file_host(behind_colon(text))
    } else {
        take_in(drop_in(behind_colon(text), Class::Slash), Class::Host)
    }
}

/// The text spells `word` once control characters and spaces are left out
/// and ASCII capitals are read as lower case.
pub open spec fn spells(text: Seq<char>, word: Seq<char>) -> bool
    decreases text.len(),
{
    if text.len() == 0 {
        word.len() == 0
    } else if text[0] <= ' ' {
        spells(text.drop_first(), word)
    } else {
        word.len() > 0 && ascii_lower(text[0]) == word[0] && spells(
            text.drop_first(),
            word.drop_first(),
        )
    }
}

/// The scheme may be `blob`, whose path holds a URL of its own.
pub open spec fn may_be_blob(text: Seq<char>) -> bool {
    spells(before_first(text, ':'), "blob"@)
}

/// The URL that the path of a `blob` URL holds: what stands behind the `:`
/// and before the query.
pub open spec fn blob_path(text: Seq<char>) -> Seq<char> {
    before_query(behind_colon(text))
}

/// The parser can read host labels off the text: it is plain or has short
/// labels.
pub open spec fn is_label_text(text: Seq<char>) -> bool {
    is_plain(text) || has_short_labels(text)
}

/// How deep `blob` URLs may stand in one another. The parser reads the
/// origin of each from the one inside it and needs room for that.
pub const BLOB_DEPTH: usize = 8;

/// Where a text begins with a scheme, the parser can read the labels of its
/// host; and where the scheme may be `blob`, the same holds of the URL in
/// its path, down to `depth` of them.
pub open spec fn has_readable_hosts(text: Seq<char>, depth: nat) -> bool
    decreases depth,
{
    has_scheme_mark(text) ==> {
        &&& is_label_text(scheme_host(text))
        &&& may_be_blob(text) ==> depth > 0 && has_readable_hosts(
            blob_path(text),
            (depth - 1) as nat,
        )
    }
}

/// The text can be handed to the URL parser: it is no longer than
/// [`TEXT_LIMIT`], and wherever a host can stand in it the parser can read
/// the labels.
pub open spec fn is_parser_input(text: Seq<char>) -> bool {
    &&& text.len() <= TEXT_LIMIT
    &&& has_leading_slashes(text) ==> is_label_text(leading_host(text))
    &&& has_readable_hosts(text, BLOB_DEPTH as nat)
}

/// The text can be handed to the URL parser as a host: it is plain, or no
/// longer than [`LABEL_LIMIT`], or free of `/`, `\`, `?` and `#` with short
/// labels between its dots.
pub open spec fn is_host_input(text: Seq<char>) -> bool {
    ||| is_plain(text)
    ||| text.len() <= LABEL_LIMIT
    ||| (length_in(text, Class::Host) == text.len() && has_short_labels(text))
}

/// The text begins with a scheme that is not `file`: before its first `:`
/// stand an ASCII letter and then only characters of a scheme, and they do
/// not spell `file`.
pub open spec fn has_other_scheme(text: Seq<char>) -> bool {
    let lead = before_first(text, ':');
    &&& lead.len() < text.len()
    &&& lead.len() > 0
    &&& (('a' <= lead[0] && lead[0] <= 'z') || ('A' <= lead[0] && lead[0] <= 'Z'))
    &&& length_in(lead, Class::Scheme) == lead.len()
    &&& !same_ignoring_ascii_case(lead, "file"@)
}

/// The text begins with the scheme `file`, spelt without anything between
/// its letters.
pub open spec fn has_file_scheme(text: Seq<char>) -> bool {
    let lead = before_first(text, ':');
    lead.len() < text.len() && same_ignoring_ascii_case(lead, "file"@)
}

/// The text is not empty and does not begin with `/`, `\`, `?` or `#`.
pub open spec fn begins_a_path(text: Seq<char>) -> bool {
    text.len() > 0 && in_class(Class::Host, text[0])
}

/// Resolved against a `file` URL, the text is read as a path that goes on
/// from the base's. With the scheme `file` in front, what follows the scheme
/// begins a path; without it, the trimmed text begins a path and has no
/// other scheme.
pub open spec fn is_base_path(text: Seq<char>) -> bool {
    if has_file_scheme(text) {
        begins_a_path(drop_in(behind_colon(text), Class::Passed))
    } else {
        begins_a_path(drop_in(text, Class::Blank)) && !has_other_scheme(text)
    }
}

/// The text before the query and fragment ends in a segment that is a drive
/// letter: `/`, an ASCII letter, and `:` or `|`.
pub open spec fn ends_in_drive_letter(text: Seq<char>) -> bool {
    let head = before_query(text);
    &&& head.len() >= 3
    &&& head[head.len() - 3] == '/'
    &&& ('a' <= head[head.len() - 2] <= 'z' || 'A' <= head[head.len() - 2] <= 'Z')
    &&& (head[head.len() - 1] == ':' || head[head.len() - 1] == '|')
}

/// The text is a `file` URL whose path ends in a drive letter. Nothing can
/// be resolved against such a URL.
pub open spec fn is_drive_letter_base(text: Seq<char>) -> bool {
    same_ignoring_ascii_case(before_first(text, ':'), "file"@) && ends_in_drive_letter(text)
}

/// Whether no character of `text` could make the parser encode a label.
pub fn plain(text: &str) -> (all: bool)
    ensures
        all == is_plain(text@),
{
    let length: usize = text.unicode_len();
    let mut chars = text.chars();
    let mut at: usize = 0;
    while at < length
        invariant
            at <= length,
            length == text@.len(),
            chars.obeys_prophetic_iter_laws(),
            chars.remaining() == text@.skip(at as int),
            forall|i: int| 0 <= i < at ==> !is_trigger(#[trigger] text@[i]),
        decreases length - at,
    {
        let ghost before = chars;
        let next = chars.next();
        proof {
            next_postcondition(&before, &chars, next);
        }
        match next {
            Some(c) => {
                if c == '%' || c == '-' || c > '\u{7f}' {
                    assert(is_trigger(text@[at as int]));
                    return false;
                }
            },
            None => {},
        }
        at = at + 1;
    }
    true
}

/// Whether no stretch of `text` without a break is longer than
/// [`LABEL_LIMIT`].
pub fn short_labels(text: &str) -> (all: bool)
    ensures
        all == has_short_labels(text@),
{
    let length: usize = text.unicode_len();
    let mut chars = text.chars();
    let mut at: usize = 0;
    let mut run: usize = 0;
    while at < length
        invariant
            at <= length,
            length == text@.len(),
            chars.obeys_prophetic_iter_laws(),
            chars.remaining() == text@.skip(at as int),
            run == run_before(text@, at as int),
            run <= LABEL_LIMIT,
            forall|end: int| 0 <= end <= at ==> #[trigger] run_before(text@, end) <= LABEL_LIMIT,
        decreases length - at,
    {
        let ghost before = chars;
        let next = chars.next();
        proof {
            next_postcondition(&before, &chars, next);
        }
        match next {
            Some(c) => {
                if c == '.' || c == '/' || c == '\\' {
                    run = 0;
                } else {
                    run = run + 1;
                }
            },
            None => {},
        }
        at = at + 1;
        assert(run == run_before(text@, at as int));
        if run > LABEL_LIMIT {
            return false;
        }
    }
    true
}

/// What `length_in` says: it never passes the end, every character before
/// it is of the class, and the one at it is not.
pub proof fn lemma_length_in(text: Seq<char>, class: Class)
    ensures
        length_in(text, class) <= text.len(),
        forall|i: int| 0 <= i < length_in(text, class) ==> in_class(class, #[trigger] text[i]),
        length_in(text, class) < text.len() ==> !in_class(
            class,
            text[length_in(text, class) as int],
        ),
    decreases text.len(),
{
    if text.len() == 0 || !in_class(class, text[0]) {
    } else {
        let rest = text.drop_first();
        lemma_length_in(rest, class);
        assert forall|i: int| 0 <= i < length_in(text, class) implies in_class(
            class,
            #[trigger] text[i],
        ) by {
            if i > 0 {
                assert(text[i] == rest[i - 1]);
            }
        }
        if length_in(text, class) < text.len() {
            let found = length_in(rest, class) as int;
            assert(text[found + 1] == rest[found]);
        }
    }
}

/// A position with only characters of the class before it and none of the
/// class at it is `length_in`.
pub proof fn lemma_length_in_is(text: Seq<char>, class: Class, at: int)
    requires
        0 <= at <= text.len(),
        forall|i: int| 0 <= i < at ==> in_class(class, #[trigger] text[i]),
        at < text.len() ==> !in_class(class, text[at]),
    ensures
        length_in(text, class) == at,
{
    lemma_length_in(text, class);
    let found = length_in(text, class) as int;
    if found < at {
        assert(in_class(class, text[found]));
    } else if found > at {
        assert(in_class(class, text[at]));
    }
}

/// Whether the character is of the class.
pub fn is_in(class: Class, c: char) -> (found: bool)
    ensures
        found == in_class(class, c),
{
    match class {
        Class::Blank => c <= ' ',
        Class::Slash => c == '/' || c == '\\' || c == '\t' || c == '\n' || c == '\r',
        Class::Host => !(c == '/' || c == '\\' || c == '?' || c == '#'),
        Class::Scheme => ('a' <= c && c <= 'z') || ('A' <= c && c <= 'Z') || ('0' <= c && c <= '9')
            || c == '+' || c == '-' || c == '.',
        Class::Passed => c == '\t' || c == '\n' || c == '\r',
    }
}

/// Counts the characters of the class at the start of `text`.
pub fn count_in(text: &str, class: Class) -> (count: usize)
    ensures
        count == length_in(text@, class),
{
    let length: usize = text.unicode_len();
    let mut chars = text.chars();
    let mut at: usize = 0;
    let mut ended = false;
    while !ended && at < length
        invariant
            at <= length,
            length == text@.len(),
            chars.obeys_prophetic_iter_laws(),
            !ended ==> chars.remaining() == text@.skip(at as int),
            forall|i: int| 0 <= i < at ==> in_class(class, #[trigger] text@[i]),
            ended ==> at < length && !in_class(class, text@[at as int]),
        decreases length - at + if ended { 0int } else { 1int },
    {
        let ghost before = chars;
        let next = chars.next();
        proof {
            next_postcondition(&before, &chars, next);
        }
        match next {
            Some(c) => {
                if is_in(class, c) {
                    at = at + 1;
                } else {
                    ended = true;
                }
            },
            None => {},
        }
    }
    proof {
        lemma_length_in_is(text@, class, at as int);
    }
    at
}

/// Drops the characters of the class at the start of `text`.
pub fn drop_leading(text: &str, class: Class) -> (rest: &str)
    ensures
        rest@ == drop_in(text@, class),
{
    let count = count_in(text, class);
    proof {
        lemma_length_in(text@, class);
    }
    let length: usize = text.unicode_len();
    let rest = text.substring_char(count, length);
    assert(text@.subrange(count as int, length as int) == text@.skip(count as int));
    rest
}

/// Takes the characters of the class at the start of `text`.
pub fn take_leading(text: &str, class: Class) -> (head: &str)
    ensures
        head@ == take_in(text@, class),
{
    let count = count_in(text, class);
    proof {
        lemma_length_in(text@, class);
    }
    text.substring_char(0, count)
}

/// Whether the parser can read host labels off the text.
pub fn label_text(text: &str) -> (fit: bool)
    ensures
        fit == is_label_text(text@),
{
    plain(text) || short_labels(text)
}

/// Whether the text spells `word`, which is in lower case, once control
/// characters and spaces are left out.
pub fn spells_word(text: &str, word: &str) -> (found: bool)
    ensures
        found == spells(text@, word@),
{
    let length: usize = text.unicode_len();
    let letters: usize = word.unicode_len();
    let mut chars = text.chars();
    let mut at: usize = 0;
    let mut matched: usize = 0;
    assert(text@.skip(0) == text@ && word@.skip(0) == word@);
    while at < length
        invariant
            at <= length,
            matched <= letters,
            length == text@.len(),
            letters == word@.len(),
            chars.obeys_prophetic_iter_laws(),
            chars.remaining() == text@.skip(at as int),
            spells(text@, word@) == spells(text@.skip(at as int), word@.skip(matched as int)),
        decreases length - at,
    {
        let ghost before = chars;
        let next = chars.next();
        proof {
            next_postcondition(&before, &chars, next);
            assert(text@.skip(at as int).drop_first() == text@.skip(at + 1));
            if matched < letters {
                assert(word@.skip(matched as int).drop_first() == word@.skip(matched + 1));
            }
        }
        match next {
            Some(c) => {
                if c <= ' ' {
                } else if matched < letters && to_ascii_lower(c) == word.get_char(matched) {
                    matched = matched + 1;
                } else {
                    return false;
                }
            },
            None => {},
        }
        at = at + 1;
    }
    matched == letters
}

/// What stands behind the slash that `text` begins with.
pub fn cut_slash(text: &str) -> (rest: Option<&str>)
    ensures
        optional_view(rest) == behind_slash(text@),
{
    let passed = drop_leading(text, Class::Passed);
    let length: usize = passed.unicode_len();
    if length == 0 {
        return None;
    }
    let first = passed.get_char(0);
    if first == '/' || first == '\\' {
        let rest = passed.substring_char(1, length);
        assert(passed@.subrange(1, length as int) == passed@.skip(1));
        Some(rest)
    } else {
        None
    }
}

/// Where the host of a `file` URL stands in what follows the scheme.
pub fn cut_file_host(text: &str) -> (host: &str)
    ensures
        host@ == file_host(text@),
{
    match cut_slash(text) {
        Some(once) => match cut_slash(once) {
            Some(twice) => take_leading(twice, Class::Host),
            None => {
                let none = text.substring_char(0, 0);
                assert(none@ == Seq::<char>::empty());
                none
            },
        },
        None => {
            let none = text.substring_char(0, 0);
            assert(none@ == Seq::<char>::empty());
            none
        },
    }
}

/// Whether the parser can read the hosts of a text that begins with a
/// scheme, `blob` URLs inside it included.
pub fn readable_hosts(text: &str) -> (fit: bool)
    ensures
        fit == has_readable_hosts(text@, BLOB_DEPTH as nat),
{
    let mut rest: &str = text;
    let mut depth: usize = BLOB_DEPTH;
    loop
        invariant
            depth <= BLOB_DEPTH,
            has_readable_hosts(text@, BLOB_DEPTH as nat) == has_readable_hosts(rest@, depth as nat),
        decreases depth,
    {
        let length: usize = rest.unicode_len();
        let lead = cut_before(rest, ':');
        let mark: usize = lead.unicode_len();
        proof {
            lemma_length_before(rest@, ':');
        }
        if !(mark < length && count_in(lead, Class::Host) == mark) {
            return true;
        }
        let behind = rest.substring_char(mark + 1, length);
        assert(rest@.subrange(mark + 1, length as int) == behind_colon(rest@));
        let host = if spells_word(lead, "file") {
            cut_file_host(behind)
        } else {
            take_leading(drop_leading(behind, Class::Slash), Class::Host)
        };
        if !label_text(host) {
            return false;
        }
        if !spells_word(lead, "blob") {
            return true;
        }
        if depth == 0 {
            return false;
        }
        rest = cut_before(cut_before(behind, '#'), '?');
        depth = depth - 1;
    }
}

/// Whether the text can be handed to the URL parser.
pub fn parser_input(text: &str) -> (fit: bool)
    ensures
        fit == is_parser_input(text@),
{
    if text.unicode_len() > TEXT_LIMIT {
        return false;
    }
    let trimmed = drop_leading(text, Class::Blank);
    if count_in(trimmed, Class::Slash) >= 2 {
        let host = take_leading(drop_leading(trimmed, Class::Slash), Class::Host);
        if !label_text(host) {
            return false;
        }
    }
    readable_hosts(text)
}

/// Whether the text can be handed to the URL parser as a host.
pub fn host_input(text: &str) -> (fit: bool)
    ensures
        fit == is_host_input(text@),
{
    let length: usize = text.unicode_len();
    plain(text) || length <= LABEL_LIMIT || (count_in(text, Class::Host) == length && short_labels(
        text,
    ))
}

/// Whether the text begins with a scheme that is not `file`.
pub fn other_scheme(text: &str) -> (found: bool)
    ensures
        found == has_other_scheme(text@),
{
    let lead = cut_before(text, ':');
    let mark: usize = lead.unicode_len();
    proof {
        lemma_length_before(text@, ':');
    }
    if mark >= text.unicode_len() || mark == 0 {
        return false;
    }
    let first = lead.get_char(0);
    (('a' <= first && first <= 'z') || ('A' <= first && first <= 'Z')) && count_in(
        lead,
        Class::Scheme,
    ) == mark && !eq_ignore_ascii_case(lead, "file")
}

/// Whether the text, resolved against a `file` URL, is read as a path that
/// goes on from the base's.
pub fn base_path(text: &str) -> (found: bool)
    ensures
        found == is_base_path(text@),
{
    let lead = cut_before(text, ':');
    let mark: usize = lead.unicode_len();
    let length: usize = text.unicode_len();
    proof {
        lemma_length_before(text@, ':');
    }
    if mark < length && eq_ignore_ascii_case(lead, "file") {
        let behind = text.substring_char(mark + 1, length);
        assert(text@.subrange(mark + 1, length as int) == behind_colon(text@));
        path_start(drop_leading(behind, Class::Passed))
    } else {
        path_start(drop_leading(text, Class::Blank)) && !other_scheme(text)
    }
}

/// Whether the text is not empty and does not begin with `/`, `\`, `?` or
/// `#`.
pub fn path_start(text: &str) -> (found: bool)
    ensures
        found == begins_a_path(text@),
{
    text.unicode_len() > 0 && is_in(Class::Host, text.get_char(0))
}

/// Whether the text is a `file` URL whose path ends in a drive letter.
pub fn drive_letter_base(text: &str) -> (found: bool)
    ensures
        found == is_drive_letter_base(text@),
{
    if !eq_ignore_ascii_case(cut_before(text, ':'), "file") {
        return false;
    }
    let head = cut_before(cut_before(text, '#'), '?');
    let length: usize = head.unicode_len();
    if length < 3 {
        return false;
    }
    let slash = head.get_char(length - 3);
    let letter = head.get_char(length - 2);
    let mark = head.get_char(length - 1);
    slash == '/' && (('a' <= letter && letter <= 'z') || ('A' <= letter && letter <= 'Z')) && (mark
        == ':' || mark == '|')
}

/// A part of a plain text is plain.
pub proof fn lemma_plain_part(text: Seq<char>, from: int, to: int)
    requires
        is_plain(text),
        0 <= from <= to <= text.len(),
    ensures
        is_plain(text.subrange(from, to)),
{
    let part = text.subrange(from, to);
    assert forall|i: int| 0 <= i < part.len() implies !is_trigger(#[trigger] part[i]) by {
        assert(part[i] == text[from + i]);
    }
}

/// `about:blank` can be handed to the URL parser.
pub proof fn lemma_blank_is_parser_input()
    ensures
        is_parser_input("about:blank"@),
{
    reveal_strlit("about:blank");
    reveal_strlit("blob");
    reveal_strlit("file");
    let text = "about:blank"@;
    assert(is_plain(text));
    let whole = text.len() as int;
    lemma_length_in(text, Class::Blank);
    assert(length_in(text, Class::Blank) == 0);
    assert(drop_in(text, Class::Blank) == text);
    assert(length_in(text, Class::Slash) == 0);
    lemma_length_before_is(text, ':', 5);
    let mark = length_before(text, ':') as int;
    let lead = before_first(text, ':');
    assert(lead[0] == 'a');
    assert(!spells(lead, "blob"@));
    assert(!spells(lead, "file"@));
    let behind = behind_colon(text);
    assert(behind == text.subrange(mark + 1, whole));
    lemma_plain_part(text, mark + 1, whole);
    lemma_length_in(behind, Class::Slash);
    let open = drop_in(behind, Class::Slash);
    assert(open == behind.subrange(length_in(behind, Class::Slash) as int, behind.len() as int));
    lemma_plain_part(behind, length_in(behind, Class::Slash) as int, behind.len() as int);
    lemma_length_in(open, Class::Host);
    assert(scheme_host(text) == open.subrange(0, length_in(open, Class::Host) as int));
    lemma_plain_part(open, 0, length_in(open, Class::Host) as int);
}

} // verus!
