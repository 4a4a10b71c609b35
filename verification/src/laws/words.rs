//! What holds of the words of the protocol.
use vstd::prelude::*;

use crate::cache::{ItemView, Kind};
use crate::client::Reply;

verus! {

/// Whether `text` is white space throughout.
pub open spec fn blank(text: Seq<char>) -> bool {
    forall|i: int| 0 <= i < text.len() ==> crate::text::is_white_space(#[trigger] text[i])
}

/// White space around a word does not count.
pub proof fn trimming_leaves_the_word(left: Seq<char>, word: Seq<char>, right: Seq<char>)
    requires
        blank(left),
        blank(right),
        word.len() > 0,
        !crate::text::is_white_space(word.first()),
        !crate::text::is_white_space(word.last()),
    ensures
        crate::text::trimmed(left + word + right) == word,
{
    trim_start_drops_blank(left, word + right);
    assert(left + word + right =~= left + (word + right));
    trim_end_drops_blank(word, right);
}

/// Leading white space is taken off.
proof fn trim_start_drops_blank(left: Seq<char>, rest: Seq<char>)
    requires
        blank(left),
        rest.len() > 0,
        !crate::text::is_white_space(rest.first()),
    ensures
        crate::text::trim_start(left + rest) == rest,
    decreases left.len(),
{
    if left.len() == 0 {
        assert(left + rest =~= rest);
    } else {
        assert((left + rest).first() == left[0]);
        assert((left + rest).drop_first() =~= left.drop_first() + rest);
        trim_start_drops_blank(left.drop_first(), rest);
    }
}

/// Trailing white space is taken off.
proof fn trim_end_drops_blank(rest: Seq<char>, right: Seq<char>)
    requires
        blank(right),
        rest.len() > 0,
        !crate::text::is_white_space(rest.last()),
    ensures
        crate::text::trim_end(rest + right) == rest,
    decreases right.len(),
{
    if right.len() == 0 {
        assert(rest + right =~= rest);
    } else {
        assert((rest + right).last() == right.last());
        assert((rest + right).drop_last() =~= rest + right.drop_last());
        trim_end_drops_blank(rest, right.drop_last());
    }
}

/// The decimal notation of a number consists of digits, and there is at least one.
proof fn decimal_has_digits(n: nat)
    ensures
        crate::text::decimal(n).len() > 0,
        forall|i: int|
            0 <= i < crate::text::decimal(n).len() ==> '0' <= #[trigger] crate::text::decimal(n)[i]
                <= '9',
    decreases n,
{
    if n >= 10 {
        decimal_has_digits(n / 10);
    }
}

/// Different numbers have different decimal notations.
pub proof fn decimal_is_unambiguous(m: nat, n: nat)
    requires
        crate::text::decimal(m) == crate::text::decimal(n),
    ensures
        m == n,
    decreases m,
{
    let a = crate::text::decimal(m);
    let b = crate::text::decimal(n);
    if m >= 10 {
        decimal_has_digits(m / 10);
    }
    if n >= 10 {
        decimal_has_digits(n / 10);
    }
    assert(a.last() == crate::text::digit(m % 10));
    assert(b.last() == crate::text::digit(n % 10));
    if m >= 10 && n >= 10 {
        assert(a.drop_last() =~= crate::text::decimal(m / 10));
        assert(b.drop_last() =~= crate::text::decimal(n / 10));
        decimal_is_unambiguous(m / 10, n / 10);
    }
}

/// `GET` asks for an item, whatever white space is around it, such as the end of the line.
pub proof fn get_is_a_request(left: Seq<char>, right: Seq<char>)
    requires
        blank(left),
        blank(right),
    ensures
        crate::client::is_request(left + "GET"@ + right),
{
    reveal_strlit("GET");
    trimming_leaves_the_word(left, "GET"@, right);
}

/// `ACK` and the number of an item acknowledge that item, whatever white space is around them,
/// such as the end of the line.
pub proof fn ack_with_the_number_is_an_ack(left: Seq<char>, id: u64, right: Seq<char>)
    requires
        blank(left),
        blank(right),
    ensures
        crate::client::is_ack(left + ("ACK "@ + crate::text::decimal(id as nat)) + right, id),
{
    reveal_strlit("ACK ");
    decimal_has_digits(id as nat);
    let word = "ACK "@ + crate::text::decimal(id as nat);
    assert(word.last() == crate::text::decimal(id as nat).last());
    trimming_leaves_the_word(left, word, right);
}

/// A line acknowledges one item at most.
pub proof fn ack_names_one_item(line: Seq<char>, first: u64, second: u64)
    requires
        crate::client::is_ack(line, first),
        crate::client::is_ack(line, second),
    ensures
        first == second,
{
    let a = crate::text::decimal(first as nat);
    let b = crate::text::decimal(second as nat);
    let prefix = "ACK "@;
    assert((prefix + a).skip(prefix.len() as int) =~= a);
    assert((prefix + b).skip(prefix.len() as int) =~= b);
    decimal_is_unambiguous(first as nat, second as nat);
}

/// The number that decimal digits stand for.
pub open spec fn number(digits: Seq<char>) -> int
    decreases digits.len(),
{
    if digits.len() == 0 {
        0
    } else {
        10 * number(digits.drop_last()) + (digits.last() as int - '0' as int)
    }
}

/// Whether `text` is a number as it is usually written: digits, and no zero in front unless it
/// stands alone.
pub open spec fn is_numeral(text: Seq<char>) -> bool {
    &&& text.len() > 0
    &&& forall|i: int| 0 <= i < text.len() ==> '0' <= #[trigger] text[i] <= '9'
    &&& text[0] == '0' ==> text.len() == 1
}

/// The decimal notation of a number is a numeral, and reads back as that number.
pub proof fn decimal_reads_back(n: nat)
    ensures
        is_numeral(crate::text::decimal(n)),
        number(crate::text::decimal(n)) == n,
    decreases n,
{
    decimal_has_digits(n);
    if n >= 10 {
        let rest = crate::text::decimal(n / 10);
        decimal_reads_back(n / 10);
        assert(crate::text::decimal(n).drop_last() =~= rest);
        assert(crate::text::decimal(n)[0] == rest[0]);
        if rest[0] == '0' {
            assert(rest.drop_last() =~= Seq::empty());
            assert(number(rest.drop_last()) == 0);
            assert(number(rest) == 0);
        }
    } else {
        assert(crate::text::decimal(n).drop_last() =~= Seq::empty());
        assert(number(crate::text::decimal(n).drop_last()) == 0);
    }
}

/// Among the ASCII characters, white space is what ends or sets off a line, from the tab to the
/// carriage return, and the blank. The others are the next line, the no-break space, and the spaces
/// and separators from U+1680 on.
pub proof fn white_space_is_what_sets_words_apart(c: char)
    ensures
        c as u32 <= 0x7f ==> (crate::text::is_white_space(c) <==> c == '\t' || c == '\n' || c as u32
            == 0x0b || c as u32 == 0x0c || c == '\r' || c == ' '),
        c as u32 > 0x7f ==> (crate::text::is_white_space(c) <==> c == '\u{85}' || c == '\u{a0}' || c
            == '\u{1680}' || '\u{2000}' <= c <= '\u{200a}' || c == '\u{2028}' || c == '\u{2029}'
            || c == '\u{202f}' || c == '\u{205f}' || c == '\u{3000}'),
{
}

/// What trimming takes off is white space, at either end, and what it leaves neither starts nor
/// ends in white space.
pub proof fn trimming_takes_off_white_space(text: Seq<char>) -> (ends: (Seq<char>, Seq<char>))
    ensures
        text == ends.0 + crate::text::trimmed(text) + ends.1,
        blank(ends.0),
        blank(ends.1),
        crate::text::trimmed(text).len() > 0 ==> !crate::text::is_white_space(
            crate::text::trimmed(text)[0],
        ) && !crate::text::is_white_space(crate::text::trimmed(text).last()),
{
    let left = trim_start_splits(text);
    let rest = crate::text::trim_start(text);
    let right = trim_end_splits(rest);
    assert(text =~= left + crate::text::trim_end(rest) + right);
    if crate::text::trim_end(rest).len() > 0 {
        assert(crate::text::trim_end(rest)[0] == rest[0]);
    }
    (left, right)
}

/// Text is the white space it starts with and the rest.
proof fn trim_start_splits(text: Seq<char>) -> (left: Seq<char>)
    ensures
        text == left + crate::text::trim_start(text),
        blank(left),
        crate::text::trim_start(text).len() > 0 ==> !crate::text::is_white_space(
            crate::text::trim_start(text)[0],
        ),
    decreases text.len(),
{
    if text.len() > 0 && crate::text::is_white_space(text.first()) {
        let rest = trim_start_splits(text.drop_first());
        let left = seq![text.first()] + rest;
        assert(text =~= seq![text.first()] + text.drop_first());
        assert(text =~= left + crate::text::trim_start(text.drop_first()));
        assert forall|i: int| 0 <= i < left.len() implies crate::text::is_white_space(
            #[trigger] left[i],
        ) by {
            assert(i > 0 ==> left[i] == rest[i - 1]);
        }
        left
    } else {
        assert(text =~= Seq::empty() + text);
        Seq::empty()
    }
}

/// Text is the white space it ends with, after the rest.
proof fn trim_end_splits(text: Seq<char>) -> (right: Seq<char>)
    ensures
        text == crate::text::trim_end(text) + right,
        blank(right),
        crate::text::trim_end(text).len() > 0 ==> !crate::text::is_white_space(
            crate::text::trim_end(text).last(),
        ),
    decreases text.len(),
{
    if text.len() > 0 && crate::text::is_white_space(text.last()) {
        let rest = trim_end_splits(text.drop_last());
        let right = rest.push(text.last());
        assert(text =~= text.drop_last().push(text.last()));
        assert(text =~= crate::text::trim_end(text.drop_last()) + right);
        right
    } else {
        assert(text =~= text + Seq::empty());
        Seq::empty()
    }
}

/// A line asks for an item only if it is `GET` with nothing but white space around it.
pub proof fn request_is_get_alone(line: Seq<char>) -> (ends: (Seq<char>, Seq<char>))
    requires
        crate::client::is_request(line),
    ensures
        line == ends.0 + "GET"@ + ends.1,
        blank(ends.0),
        blank(ends.1),
{
    trimming_takes_off_white_space(line)
}

/// A line acknowledges an item only if it is `ACK`, a blank and the number of the item with nothing
/// but white space around them.
pub proof fn ack_is_ack_and_number_alone(line: Seq<char>, id: u64) -> (parts: (
    Seq<char>,
    Seq<char>,
    Seq<char>,
))
    requires
        crate::client::is_ack(line, id),
    ensures
        line == parts.0 + ("ACK "@ + parts.1) + parts.2,
        blank(parts.0),
        is_numeral(parts.1),
        number(parts.1) == id,
        blank(parts.2),
{
    let ends = trimming_takes_off_white_space(line);
    decimal_reads_back(id as nat);
    (ends.0, crate::text::decimal(id as nat), ends.1)
}

/// The header of an item names it: it reads `ITEM`, the number of the item, the word for its kind
/// and the number of its bytes, with one blank between each, and ends in a backslash and an `n`.
pub proof fn header_names_the_item(item: ItemView) -> (numerals: (Seq<char>, Seq<char>))
    ensures
        crate::client::item_header(item) == "ITEM "@ + numerals.0 + (match item.kind {
            Kind::Logs => " logs "@,
            Kind::Traces => " traces "@,
        }) + numerals.1 + "\\n"@,
        is_numeral(numerals.0),
        number(numerals.0) == item.id,
        is_numeral(numerals.1),
        number(numerals.1) == item.bytes.len(),
{
    let id = crate::text::decimal(item.id as nat);
    let length = crate::text::decimal(item.bytes.len());
    decimal_reads_back(item.id as nat);
    decimal_reads_back(item.bytes.len());
    reveal_strlit(" ");
    reveal_strlit("logs");
    reveal_strlit(" logs ");
    reveal_strlit("traces");
    reveal_strlit(" traces ");
    assert(" "@ + "logs"@ + " "@ =~= " logs "@);
    assert(" "@ + "traces"@ + " "@ =~= " traces "@);
    assert(crate::client::item_header(item) =~= "ITEM "@ + id + (" "@ + item.kind.word() + " "@)
        + length + "\\n"@);
    (id, length)
}

/// Each reply has words of its own. A client that is told `OK` has been told that its
/// acknowledgement counted; every other reply starts with `ERR`. All end in a backslash and an `n`.
pub proof fn replies_have_words_of_their_own(reply: Reply, other: Reply)
    ensures
        reply.text() == other.text() ==> reply == other,
        reply is Done ==> reply.text() == seq!['O', 'K', '\\', 'n'],
        reply !is Done ==> reply.text().len() > 4 && reply.text().take(4) == seq!['E', 'R', 'R', ' '],
        reply.text().skip(reply.text().len() - 2) == seq!['\\', 'n'],
        reply is ExpectedGet ==> reply.text() == "ERR expected 'GET'"@ + "\\n"@,
        reply is StateMismatch ==> reply.text() == "ERR state mismatch"@ + "\\n"@,
        reply is BadAck ==> reply.text() == "ERR bad ack"@ + "\\n"@,
        reply is AckTimeout ==> reply.text() == "ERR ack timeout"@ + "\\n"@,
{
    reveal_strlit("ERR expected 'GET'\\n");
    reveal_strlit("OK\\n");
    reveal_strlit("ERR state mismatch\\n");
    reveal_strlit("ERR bad ack\\n");
    reveal_strlit("ERR ack timeout\\n");
    reveal_strlit("ERR expected 'GET'");
    reveal_strlit("ERR state mismatch");
    reveal_strlit("ERR bad ack");
    reveal_strlit("ERR ack timeout");
    reveal_strlit("\\n");
    let mine = reply.text();
    let theirs = other.text();
    assert(reply != other ==> mine.len() != theirs.len() || mine[4] != theirs[4]);
    assert(reply is Done ==> mine =~= seq!['O', 'K', '\\', 'n']);
    assert(reply !is Done ==> mine.take(4) =~= seq!['E', 'R', 'R', ' ']);
    assert(mine.skip(mine.len() - 2) =~= seq!['\\', 'n']);
    assert(reply is ExpectedGet ==> mine =~= "ERR expected 'GET'"@ + "\\n"@);
    assert(reply is StateMismatch ==> mine =~= "ERR state mismatch"@ + "\\n"@);
    assert(reply is BadAck ==> mine =~= "ERR bad ack"@ + "\\n"@);
    assert(reply is AckTimeout ==> mine =~= "ERR ack timeout"@ + "\\n"@);
}

} // verus!
