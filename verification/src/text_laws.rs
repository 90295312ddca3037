//! Laws of texts: what is left of them when they are trimmed, which lines and
//! words they have, and how numbers are written.

use vstd::prelude::*;

verus! {

/// Whether a text is made of white space alone.
pub open spec fn is_blank(s: Seq<char>) -> bool {
    forall|i: int| 0 <= i < s.len() ==> crate::text::white_space(#[trigger] s[i])
}

/// Blanks, tabs and line ends are white space; printable ASCII characters are not.
pub proof fn white_space_is_what_cannot_be_seen(c: char)
    ensures
        c == ' ' || c == '\t' || c == '\n' || c == '\r' ==> crate::text::white_space(c),
        '!' <= c <= '~' ==> !crate::text::white_space(c),
{
}

/// A text is what is left of it when it is trimmed, with white space around; what
/// is left neither begins nor ends with any.
pub proof fn trimming_takes_white_space_alone(s: Seq<char>)
    ensures
        exists|before: Seq<char>, behind: Seq<char>| #[trigger]
            surrounds(before, crate::text::trimmed(s), behind, s),
        crate::text::trimmed(s).len() > 0 ==> {
            &&& !crate::text::white_space(crate::text::trimmed(s)[0])
            &&& !crate::text::white_space(crate::text::trimmed(s).last())
        },
        is_blank(s) <==> crate::text::trimmed(s).len() == 0,
{
    let t = crate::text::trim_start(s);
    let u = crate::text::trim_end(t);
    let before = lemma_trim_start(s);
    let behind = lemma_trim_end(t);
    assert(before + u + behind =~= s);
    assert(surrounds(before, crate::text::trimmed(s), behind, s));
    if u.len() > 0 {
        assert(u[0] == t[0]);
        assert(s[before.len() as int] == u[0]);
    } else {
        assert forall|i: int| 0 <= i < s.len() implies crate::text::white_space(#[trigger] s[i]) by {
            if i < before.len() {
                assert(s[i] == before[i]);
            } else {
                assert(s[i] == behind[i - before.len()]);
            }
        }
    }
}

/// Whether a text is another with white space around it.
pub open spec fn surrounds(
    before: Seq<char>,
    inner: Seq<char>,
    behind: Seq<char>,
    s: Seq<char>,
) -> bool {
    is_blank(before) && is_blank(behind) && s == before + inner + behind
}

proof fn lemma_trim_start(s: Seq<char>) -> (before: Seq<char>)
    ensures
        is_blank(before),
        s == before + crate::text::trim_start(s),
        crate::text::trim_start(s).len() > 0 ==> !crate::text::white_space(
            crate::text::trim_start(s)[0],
        ),
    decreases s.len(),
{
    if s.len() > 0 && crate::text::white_space(s[0]) {
        let rest = lemma_trim_start(s.drop_first());
        let before = seq![s[0]] + rest;
        let t = crate::text::trim_start(s.drop_first());
        assert(s =~= seq![s[0]] + (rest + t));
        assert(s =~= before + t);
        before
    } else {
        assert(s =~= Seq::<char>::empty() + s);
        Seq::empty()
    }
}

proof fn lemma_trim_end(s: Seq<char>) -> (behind: Seq<char>)
    ensures
        is_blank(behind),
        s == crate::text::trim_end(s) + behind,
        crate::text::trim_end(s).len() > 0 ==> !crate::text::white_space(
            crate::text::trim_end(s).last(),
        ),
    decreases s.len(),
{
    if s.len() > 0 && crate::text::white_space(s.last()) {
        let rest = lemma_trim_end(s.drop_last());
        let behind = rest.push(s.last());
        let t = crate::text::trim_end(s.drop_last());
        assert(s =~= (t + rest).push(s.last()));
        assert(s =~= t + behind);
        behind
    } else {
        assert(s =~= s + Seq::<char>::empty());
        Seq::empty()
    }
}

/// In small letters a text keeps every character that is no ASCII capital; a
/// capital becomes its small letter.
pub proof fn small_letters_stand_for_capitals(s: Seq<char>, i: int)
    requires
        0 <= i < s.len(),
    ensures
        crate::text::ascii_lower(s).len() == s.len(),
        !('A' <= s[i] <= 'Z') ==> crate::text::ascii_lower(s)[i] == s[i],
        'A' <= s[i] <= 'Z' ==> crate::text::ascii_lower(s)[i] as int == s[i] as int + 32,
        crate::text::ascii_lower(crate::text::ascii_lower(s)) == crate::text::ascii_lower(s),
{
    assert(crate::text::ascii_lower(crate::text::ascii_lower(s)) =~= crate::text::ascii_lower(s));
}

/// A text begins with another if it is that one with something behind it, and
/// holds another if it is that one with something around it.
pub proof fn parts_occur(head: Seq<char>, part: Seq<char>, tail: Seq<char>)
    ensures
        crate::text::has_prefix(part + tail, part),
        crate::text::occurs_in(head + part + tail, part),
{
    assert((part + tail).subrange(0, part.len() as int) =~= part);
    let all = head + part + tail;
    let at = head.len() as int;
    assert(all.subrange(at, at + part.len()) =~= part);
    assert(crate::text::occurs_at(all, part, at));
}

/// What begins with another text is that text with something behind it, and what
/// holds another is that text with something around it.
pub proof fn only_parts_occur(s: Seq<char>, part: Seq<char>)
    ensures
        crate::text::has_prefix(s, part) ==> part.len() <= s.len() && s == part + s.skip(
            part.len() as int,
        ),
        crate::text::occurs_in(s, part) ==> exists|head: Seq<char>, tail: Seq<char>|
            s == #[trigger] (head + part + tail),
{
    if crate::text::has_prefix(s, part) {
        assert(s =~= part + s.skip(part.len() as int));
    }
    if crate::text::occurs_in(s, part) {
        let at = choose|at: int| crate::text::occurs_at(s, part, at);
        let head = s.take(at);
        let tail = s.skip(at + part.len());
        assert(s =~= head + part + tail);
    }
}

// ---------------------------------------------------------------------------
// Lines and words
// ---------------------------------------------------------------------------

proof fn lemma_line(line: Seq<char>, rest: Seq<char>)
    requires
        forall|i: int| 0 <= i < line.len() ==> line[i] != '\n',
    ensures
        crate::text::first_line(line.push('\n') + rest) == line,
        crate::text::later_lines(line.push('\n') + rest) == Some(rest),
{
    let s = line.push('\n') + rest;
    crate::text::lemma_run_before(s, '\n');
    let n = crate::text::run_before(s, '\n');
    assert(s[line.len() as int] == '\n');
    if n < line.len() {
        assert(s[n] == line[n]);
    }
    assert(n == line.len());
    assert(s.take(n) =~= line);
    assert(s.skip(n + 1) =~= rest);
}

/// The first line that is not blank is what counts: blank lines before it are
/// passed over, and what stands behind it does not matter.
pub proof fn the_first_line_that_says_something_counts(line: Seq<char>, rest: Seq<char>)
    requires
        forall|i: int| 0 <= i < line.len() ==> line[i] != '\n',
    ensures
        !is_blank(line) ==> {
            &&& crate::text::first_text_line(line.push('\n') + rest) == Some(
                crate::text::trimmed(line),
            )
            &&& crate::text::first_text_line(line) == Some(crate::text::trimmed(line))
        },
        is_blank(line) ==> {
            &&& crate::text::first_text_line(line.push('\n') + rest)
                == crate::text::first_text_line(rest)
            &&& crate::text::first_text_line(line) is None
        },
{
    lemma_line(line, rest);
    trimming_takes_white_space_alone(line);
    crate::text::lemma_run_before(line, '\n');
    let n = crate::text::run_before(line, '\n');
    if n < line.len() {
        assert(line[n] == '\n');
    }
    assert(line.take(n) =~= line);
}

/// A text begins with its first word, and white space parts it from the others;
/// white space before it does not matter.
pub proof fn words_are_parted_by_white_space(word: Seq<char>, space: char, rest: Seq<char>)
    requires
        word.len() > 0,
        forall|i: int| 0 <= i < word.len() ==> !crate::text::white_space(#[trigger] word[i]),
        crate::text::white_space(space),
    ensures
        crate::text::words(word.push(space) + rest) == seq![word] + crate::text::words(rest),
        crate::text::words(word) == seq![word],
        crate::text::words(seq![space] + rest) == crate::text::words(rest),
        crate::text::words(Seq::empty()).len() == 0,
{
    let s = word.push(space) + rest;
    assert(s[0] == word[0]);
    assert(crate::text::trim_start(s) == s);
    lemma_word_len(word, s);
    assert(s.take(word.len() as int) =~= word);
    let behind = s.skip(word.len() as int);
    assert(behind =~= seq![space] + rest);
    lemma_leading_space(space, rest);
    assert(crate::text::trim_start(word) == word);
    lemma_word_len(word, word);
    assert(word.take(word.len() as int) =~= word);
    assert(word.skip(word.len() as int) =~= Seq::<char>::empty());
    assert(crate::text::words(Seq::empty()) =~= Seq::<Seq<char>>::empty());
    assert(crate::text::words(word) =~= seq![word]);
}

proof fn lemma_leading_space(space: char, rest: Seq<char>)
    requires
        crate::text::white_space(space),
    ensures
        crate::text::words(seq![space] + rest) == crate::text::words(rest),
{
    let s = seq![space] + rest;
    assert(s.drop_first() =~= rest);
    assert(crate::text::trim_start(s) == crate::text::trim_start(rest));
}

proof fn lemma_word_len(word: Seq<char>, s: Seq<char>)
    requires
        word.len() <= s.len(),
        forall|i: int| 0 <= i < word.len() ==> s[i] == word[i],
        forall|i: int| 0 <= i < word.len() ==> !crate::text::white_space(#[trigger] word[i]),
        word.len() < s.len() ==> crate::text::white_space(s[word.len() as int]),
    ensures
        crate::text::word_len(s) == word.len(),
    decreases word.len(),
{
    if word.len() > 0 {
        assert(!crate::text::white_space(word[0]));
        let rest = word.drop_first();
        assert forall|i: int| 0 <= i < rest.len() implies !crate::text::white_space(
            #[trigger] rest[i],
        ) by {
            assert(rest[i] == word[i + 1]);
        }
        lemma_word_len(rest, s.drop_first());
    }
}

/// A list of checksums gives for a file the checksum on the first line that names
/// it; a line that names another is passed over.
pub proof fn the_checksum_is_on_the_line_of_the_file(
    hash: Seq<char>,
    name: Seq<char>,
    wanted: Seq<char>,
    rest: Seq<char>,
)
    requires
        hash.len() > 0,
        name.len() > 0,
        forall|i: int| 0 <= i < hash.len() ==> !crate::text::white_space(#[trigger] hash[i]),
        forall|i: int| 0 <= i < name.len() ==> !crate::text::white_space(#[trigger] name[i]),
    ensures
        ({
            let line = hash.push(' ').push(' ') + name;
            let listed = crate::yt_dlp::listed_checksum(line.push('\n') + rest, wanted);
            &&& name == wanted ==> listed == Some(hash)
            &&& name != wanted ==> listed == crate::yt_dlp::listed_checksum(rest, wanted)
        }),
        crate::yt_dlp::listed_checksum(Seq::empty(), wanted) is None,
{
    let line = hash.push(' ').push(' ') + name;
    assert forall|i: int| 0 <= i < line.len() implies line[i] != '\n' by {
        if i < hash.len() {
            assert(!crate::text::white_space(hash[i]));
        } else if i >= hash.len() + 2 {
            assert(!crate::text::white_space(name[i - hash.len() - 2]));
        }
    }
    lemma_line(line, rest);
    words_are_parted_by_white_space(hash, ' ', seq![' '] + name);
    words_are_parted_by_white_space(name, ' ', Seq::empty());
    lemma_leading_space(' ', name);
    assert(hash.push(' ') + (seq![' '] + name) =~= line);
    assert(crate::text::words(line) =~= seq![hash, name]);
    let none = Seq::<char>::empty();
    assert(crate::text::first_line(none) =~= none);
    assert(crate::text::words(none).len() == 0);
}

// ---------------------------------------------------------------------------
// Numbers
// ---------------------------------------------------------------------------

/// A number is written with digits alone, without a leading zero, and they stand
/// for that number; padding puts zeros in front of it, up to the width.
pub proof fn a_number_is_written_with_its_digits(n: nat, width: nat)
    ensures
        crate::text::decimal(n).len() > 0,
        forall|i: int|
            0 <= i < crate::text::decimal(n).len() ==> '0' <= (#[trigger] crate::text::decimal(
                n,
            )[i]) <= '9',
        n > 0 ==> crate::text::decimal(n)[0] != '0',
        crate::text::decimal(n).last() as int == 48 + n % 10,
        n >= 10 ==> crate::text::decimal(n).drop_last() == crate::text::decimal(n / 10),
        n < 10 ==> crate::text::decimal(n).len() == 1,
        crate::text::zero_padded(crate::text::decimal(n), width).len() >= width,
        ({
            let written = crate::text::decimal(n);
            let padded = crate::text::zero_padded(written, width);
            let zeros = padded.len() - written.len();
            &&& zeros >= 0
            &&& padded.skip(zeros) == written
            &&& forall|i: int| 0 <= i < zeros ==> #[trigger] padded[i] == '0'
            &&& zeros > 0 ==> padded.len() == width
        }),
    decreases n,
{
    if n >= 10 {
        a_number_is_written_with_its_digits(n / 10, width);
        let shorter = crate::text::decimal(n / 10);
        let written = crate::text::decimal(n);
        assert(written.drop_last() =~= shorter);
        assert forall|i: int| 0 <= i < written.len() implies '0' <= (#[trigger] written[i])
            <= '9' by {
            if i < shorter.len() {
                assert(written[i] == shorter[i]);
            }
        }
        assert(written[0] == shorter[0]);
    }
    let written = crate::text::decimal(n);
    let padded = crate::text::zero_padded(written, width);
    let zeros = padded.len() - written.len();
    assert(padded.skip(zeros) =~= written);
}

/// Texts are ordered by the first character in which they differ, and a text
/// comes before any longer one that begins with it.
pub proof fn texts_are_ordered_by_their_first_difference(
    common: Seq<char>,
    a: char,
    b: char,
    x: Seq<char>,
    y: Seq<char>,
)
    ensures
        a < b ==> crate::text::text_less(common.push(a) + x, common.push(b) + y),
        a > b ==> !crate::text::text_less(common.push(a) + x, common.push(b) + y),
        crate::text::text_less(common, common.push(a) + x),
        !crate::text::text_less(common.push(a) + x, common),
        !crate::text::text_less(common, common),
    decreases common.len(),
{
    let s = common.push(a) + x;
    let t = common.push(b) + y;
    if common.len() > 0 {
        let rest = common.drop_first();
        texts_are_ordered_by_their_first_difference(rest, a, b, x, y);
        assert(s.drop_first() =~= rest.push(a) + x);
        assert(t.drop_first() =~= rest.push(b) + y);
        assert(s[0] == common[0] && t[0] == common[0]);
    } else {
        assert(s[0] == a && t[0] == b);
    }
}

} // verus!
