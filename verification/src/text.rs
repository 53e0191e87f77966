//! Verified text helpers: whitespace trimming, decimal formatting, and
//! the human-readable size text of the model picker.

use vstd::prelude::*;
use vstd::string::StrSliceExecFns;
use vstd::string::StringExecFns;

verus! {

broadcast use vstd::seq_lib::group_seq_lib_default;

/// Whether a character carries the Unicode `White_Space` property.
pub open spec fn is_ws_char(c: char) -> bool {
    ||| c as u32 == 0x20
    ||| (0x09 <= c as u32 && c as u32 <= 0x0d)
    ||| c as u32 == 0x85
    ||| c as u32 == 0xa0
    ||| c as u32 == 0x1680
    ||| (0x2000 <= c as u32 && c as u32 <= 0x200a)
    ||| c as u32 == 0x2028
    ||| c as u32 == 0x2029
    ||| c as u32 == 0x202f
    ||| c as u32 == 0x205f
    ||| c as u32 == 0x3000
}

/// Whether a character carries the Unicode `White_Space` property.
pub fn is_ws(c: char) -> (r: bool)
    ensures
        r == is_ws_char(c),
{
    let u = c as u32;
    u == 0x20 || (0x09 <= u && u <= 0x0d) || u == 0x85 || u == 0xa0 || u == 0x1680 || (0x2000 <= u
        && u <= 0x200a) || u == 0x2028 || u == 0x2029 || u == 0x202f || u == 0x205f || u == 0x3000
}

/// The text with its leading whitespace removed.
pub open spec fn trim_start_spec(s: Seq<char>) -> Seq<char>
    decreases s.len(),
{
    if s.len() > 0 && is_ws_char(s[0]) {
        trim_start_spec(s.drop_first())
    } else {
        s
    }
}

/// The text with its trailing whitespace removed.
pub open spec fn trim_end_spec(s: Seq<char>) -> Seq<char>
    decreases s.len(),
{
    if s.len() > 0 && is_ws_char(s.last()) {
        trim_end_spec(s.drop_last())
    } else {
        s
    }
}

/// The text with leading and trailing whitespace removed.
pub open spec fn trim_spec(s: Seq<char>) -> Seq<char> {
    trim_end_spec(trim_start_spec(s))
}

/// The text with leading and trailing whitespace removed.
pub fn trim(s: &str) -> (r: &str)
    ensures
        r@ == trim_spec(s@),
{
    let len = s.unicode_len();
    let mut a: usize = 0;
    proof {
        assert(s@.skip(0) =~= s@);
    }
    while a < len && is_ws(s.get_char(a))
        invariant
            a <= len,
            len == s@.len(),
            trim_start_spec(s@) == trim_start_spec(s@.skip(a as int)),
        decreases len - a,
    {
        proof {
            assert(s@.skip(a as int).drop_first() =~= s@.skip(a as int + 1));
        }
        a += 1;
    }
    proof {
        assert(trim_start_spec(s@) =~= s@.skip(a as int));
    }
    let mut b: usize = len;
    proof {
        assert(s@.skip(a as int).take(len - a as int) =~= s@.skip(a as int));
    }
    while b > a && is_ws(s.get_char(b - 1))
        invariant
            a <= b <= len,
            len == s@.len(),
            trim_start_spec(s@) == s@.skip(a as int),
            trim_end_spec(s@.skip(a as int)) == trim_end_spec(
                s@.skip(a as int).take(b - a as int),
            ),
        decreases b,
    {
        proof {
            let u = s@.skip(a as int);
            assert(u.take(b - a as int).last() == s@[b - 1]);
            assert(u.take(b - a as int).drop_last() =~= u.take(b - 1 - a as int));
        }
        b -= 1;
    }
    proof {
        let u = s@.skip(a as int);
        if b > a {
            assert(u.take(b - a as int).last() == s@[b - 1]);
        }
        assert(trim_end_spec(u.take(b - a as int)) =~= u.take(b - a as int));
        assert(u.take(b - a as int) =~= s@.subrange(a as int, b as int));
    }
    s.substring_char(a, b)
}

/// Whether the text is empty or whitespace alone.
pub fn is_blank(s: &str) -> (r: bool)
    ensures
        r == (trim_spec(s@).len() == 0),
{
    let t = trim(s);
    t.unicode_len() == 0
}

/// The decimal digit character for a value below ten.
pub open spec fn spec_digit_char(d: int) -> char {
    seq!['0', '1', '2', '3', '4', '5', '6', '7', '8', '9'][d]
}

/// The decimal text of a number, most significant digit first, with no
/// leading zeros except on zero itself.
pub open spec fn spec_u64_string(n: nat) -> Seq<char>
    decreases n,
{
    if n < 10 {
        seq![spec_digit_char(n as int)]
    } else {
        spec_u64_string(n / 10).push(spec_digit_char((n % 10) as int))
    }
}

/// The one-character text of a decimal digit.
fn digit_str(d: u64) -> (r: &'static str)
    requires
        d < 10,
    ensures
        r@ == seq![spec_digit_char(d as int)],
{
    proof {
        reveal_strlit("0");
        reveal_strlit("1");
        reveal_strlit("2");
        reveal_strlit("3");
        reveal_strlit("4");
        reveal_strlit("5");
        reveal_strlit("6");
        reveal_strlit("7");
        reveal_strlit("8");
        reveal_strlit("9");
    }
    match d {
        0 => "0",
        1 => "1",
        2 => "2",
        3 => "3",
        4 => "4",
        5 => "5",
        6 => "6",
        7 => "7",
        8 => "8",
        _ => "9",
    }
}

/// The decimal text of a number.
pub fn u64_to_string(n: u64) -> (r: String)
    ensures
        r@ == spec_u64_string(n as nat),
    decreases n,
{
    if n < 10 {
        digit_str(n).to_owned()
    } else {
        let mut s = u64_to_string(n / 10);
        s.append(digit_str(n % 10));
        proof {
            assert(s@ =~= spec_u64_string(n as nat));
        }
        s
    }
}

/// Bytes in a kibibyte.
pub const KB: u64 = 1024;

/// Bytes in a mebibyte.
pub const MB: u64 = 1024 * 1024;

/// Bytes in a gibibyte.
pub const GB: u64 = 1024 * 1024 * 1024;

/// A size scaled by a unit, in tenths, rounded to the nearest tenth.
pub open spec fn spec_scaled_tenths(bytes: u64, unit: u64) -> int {
    (bytes * 10 + unit / 2) / (unit as int)
}

/// The text `W.T` followed by the unit's suffix, where `W.T` is the size
/// scaled by the unit and rounded to one decimal place.
pub open spec fn spec_sized_text(bytes: u64, unit: u64, suffix: Seq<char>) -> Seq<char> {
    let tenths = spec_scaled_tenths(bytes, unit);
    spec_u64_string((tenths / 10) as nat) + seq!['.', spec_digit_char(tenths % 10)] + suffix
}

/// The human-readable size text: whole bytes below a kibibyte, otherwise
/// one decimal place of the largest unit the size reaches.
pub open spec fn spec_format_size(bytes: u64) -> Seq<char> {
    if bytes >= GB {
        spec_sized_text(bytes, GB, " GB"@)
    } else if bytes >= MB {
        spec_sized_text(bytes, MB, " MB"@)
    } else if bytes >= KB {
        spec_sized_text(bytes, KB, " KB"@)
    } else {
        spec_u64_string(bytes as nat) + " B"@
    }
}

/// The scaled size of `sized_text`, computed without overflow.
fn scaled_tenths(bytes: u64, unit: u64) -> (r: u64)
    requires
        1024 <= unit,
        unit == KB || unit == MB || unit == GB,
        bytes >= unit,
    ensures
        r == spec_scaled_tenths(bytes, unit),
{
    let wide: u128 = (bytes as u128) * 10 + (unit as u128) / 2;
    let t: u128 = wide / (unit as u128);
    proof {
        assert(wide / (unit as u128) <= wide / 1024) by (nonlinear_arith)
            requires
                1024 <= unit as u128,
                wide >= 0,
        ;
        assert(wide / 1024 < 0x1_0000_0000_0000_0000u128);
    }
    t as u64
}

/// The text `W.T` followed by the unit's suffix.
fn sized_text(bytes: u64, unit: u64, suffix: &str) -> (r: String)
    requires
        unit == KB || unit == MB || unit == GB,
        bytes >= unit,
    ensures
        r@ == spec_sized_text(bytes, unit, suffix@),
{
    let tenths = scaled_tenths(bytes, unit);
    let mut s = u64_to_string(tenths / 10);
    s.append(".");
    s.append(digit_str(tenths % 10));
    s.append(suffix);
    proof {
        reveal_strlit(".");
        assert(s@ =~= spec_sized_text(bytes, unit, suffix@));
    }
    s
}

/// The characters of one slice of the buffer, as a string.
fn string_of_range(chars: &Vec<char>, from: usize, to: usize) -> (r: String)
    requires
        from <= to <= chars@.len(),
    ensures
        r@ == chars@.subrange(from as int, to as int),
{
    let mut piece: Vec<char> = Vec::new();
    let mut k = from;
    while k < to
        invariant
            from <= k <= to <= chars@.len(),
            piece@ == chars@.subrange(from as int, k as int),
        decreases to - k,
    {
        piece.push(chars[k]);
        proof {
            assert(piece@ =~= chars@.subrange(from as int, k + 1));
        }
        k += 1;
    }
    crate::externs::chars_to_string(&piece)
}

/// The characters of a text that are not whitespace, in order.
pub open spec fn visible(s: Seq<char>) -> Seq<char> {
    s.filter(|c: char| !is_ws_char(c))
}

/// The visible characters of the empty text: none.
proof fn lemma_visible_empty()
    ensures
        visible(Seq::<char>::empty()) == Seq::<char>::empty(),
{
    reveal(Seq::filter);
}

/// One more character stays visible exactly when it is not whitespace.
proof fn lemma_visible_push(s: Seq<char>, c: char)
    ensures
        visible(s.push(c)) == if is_ws_char(c) {
            visible(s)
        } else {
            visible(s).push(c)
        },
{
    reveal(Seq::filter);
    assert(s.push(c).drop_last() =~= s);
    assert(s.push(c).last() == c);
}

/// A text without whitespace is its own visible part.
proof fn lemma_visible_of_visible(s: Seq<char>)
    requires
        forall|j: int| 0 <= j < s.len() ==> !is_ws_char(#[trigger] s[j]),
    ensures
        visible(s) == s,
    decreases s.len(),
{
    reveal(Seq::filter);
    if s.len() > 0 {
        lemma_visible_of_visible(s.drop_last());
        assert(visible(s.drop_last()).push(s.last()) =~= s);
    }
}

/// Where the visible run starting at `i` ends: the position of the next
/// whitespace character, or the end of the text.
pub open spec fn word_end(s: Seq<char>, i: int) -> int
    decreases s.len() - i,
{
    if i < 0 || i >= s.len() || is_ws_char(s[i]) {
        i
    } else {
        word_end(s, i + 1)
    }
}

/// The whitespace-separated words that start in `[i, end)`: one entry
/// per maximal run of visible characters, in order, each run taken to
/// its own end.
pub open spec fn words_upto(s: Seq<char>, i: int, end: int) -> Seq<Seq<char>>
    decreases end - i,
{
    if i < 0 || i >= end {
        Seq::<Seq<char>>::empty()
    } else if is_ws_char(s[i]) {
        words_upto(s, i + 1, end)
    } else if i == 0 || is_ws_char(s[i - 1]) {
        seq![s.subrange(i, word_end(s, i))] + words_upto(s, i + 1, end)
    } else {
        words_upto(s, i + 1, end)
    }
}

/// The whitespace-separated words of a text, oldest first.
pub open spec fn words_of(s: Seq<char>) -> Seq<Seq<char>> {
    words_upto(s, 0, s.len() as int)
}

/// A word as the wrapped output carries it: itself when it fits the
/// width, otherwise split into width-sized pieces.
pub open spec fn chunks_of(word: Seq<char>, w: nat) -> Seq<Seq<char>>
    decreases word.len(),
{
    if word.len() == 0 {
        Seq::<Seq<char>>::empty()
    } else if w == 0 || word.len() <= w {
        seq![word]
    } else {
        seq![word.take(w as int)] + chunks_of(word.skip(w as int), w)
    }
}

/// Every word of the sequence, split into width-sized pieces, in order.
pub open spec fn chunked_words(ws: Seq<Seq<char>>, w: nat) -> Seq<Seq<char>>
    decreases ws.len(),
{
    if ws.len() == 0 {
        Seq::<Seq<char>>::empty()
    } else {
        chunks_of(ws.first(), w) + chunked_words(ws.drop_first(), w)
    }
}

/// The words of a sequence of lines, line by line, in order.
pub open spec fn words_of_lines(ls: Seq<String>) -> Seq<Seq<char>>
    decreases ls.len(),
{
    if ls.len() == 0 {
        Seq::<Seq<char>>::empty()
    } else {
        words_of_lines(ls.drop_last()) + words_of(ls.last()@)
    }
}

/// A word runs at least to its start and at most to the text's end.
proof fn lemma_word_end_bounds(s: Seq<char>, i: int)
    requires
        0 <= i <= s.len(),
    ensures
        i <= word_end(s, i) <= s.len(),
    decreases s.len() - i,
{
    if i < s.len() && !is_ws_char(s[i]) {
        lemma_word_end_bounds(s, i + 1);
    }
}

/// A run cannot pass a whitespace seam.
proof fn lemma_word_end_seam(s: Seq<char>, c: int, i: int)
    requires
        0 <= i <= c <= s.len(),
        c == s.len() || is_ws_char(s[c]),
    ensures
        word_end(s, i) <= c,
    decreases c - i,
{
    if i < c && !is_ws_char(s[i]) {
        lemma_word_end_seam(s, c, i + 1);
    }
}

/// Two texts that agree up to a whitespace seam have the same runs
/// before it.
proof fn lemma_word_end_agree(a: Seq<char>, b: Seq<char>, c: int, i: int)
    requires
        0 <= i <= c,
        c <= a.len(),
        c <= b.len(),
        forall|j: int| 0 <= j < c ==> a[j] == b[j],
        c == a.len() || is_ws_char(a[c]),
        c == b.len() || is_ws_char(b[c]),
    ensures
        word_end(a, i) == word_end(b, i),
    decreases c - i,
{
    if i < c && !is_ws_char(a[i]) {
        lemma_word_end_agree(a, b, c, i + 1);
    }
}

/// Splitting the scan bound splits the emitted words at the seam.
proof fn lemma_words_split(s: Seq<char>, p: int, q: int, end: int)
    requires
        0 <= p <= q <= end,
    ensures
        words_upto(s, p, end) == words_upto(s, p, q) + words_upto(s, q, end),
    decreases q - p,
{
    if p == q {
        assert(words_upto(s, p, q) == Seq::<Seq<char>>::empty());
        assert(Seq::<Seq<char>>::empty() + words_upto(s, q, end) =~= words_upto(s, q, end));
    } else {
        lemma_words_split(s, p + 1, q, end);
        if !is_ws_char(s[p]) && (p == 0 || is_ws_char(s[p - 1])) {
            assert(seq![s.subrange(p, word_end(s, p))] + (words_upto(s, p + 1, q) + words_upto(
                s,
                q,
                end,
            )) =~= (seq![s.subrange(p, word_end(s, p))] + words_upto(s, p + 1, q)) + words_upto(
                s,
                q,
                end,
            ));
        }
    }
}

/// Positions strictly inside a run emit nothing.
proof fn lemma_words_interior(s: Seq<char>, i: int, end: int)
    requires
        1 <= i,
        forall|j: int| i <= j < end ==> !is_ws_char(#[trigger] s[j]) && !is_ws_char(s[j - 1]),
    ensures
        words_upto(s, i, end) == Seq::<Seq<char>>::empty(),
    decreases end - i,
{
    if i < end {
        lemma_words_interior(s, i + 1, end);
    }
}

/// A run of visible characters alone reaches the text's end.
proof fn lemma_word_end_nonws(s: Seq<char>, i: int)
    requires
        0 <= i <= s.len(),
        forall|j: int| i <= j < s.len() ==> !is_ws_char(#[trigger] s[j]),
    ensures
        word_end(s, i) == s.len(),
    decreases s.len() - i,
{
    if i < s.len() {
        lemma_word_end_nonws(s, i + 1);
    }
}

/// A nonempty text of visible characters alone is one word.
proof fn lemma_words_of_single(w: Seq<char>)
    requires
        w.len() > 0,
        forall|j: int| 0 <= j < w.len() ==> !is_ws_char(#[trigger] w[j]),
    ensures
        words_of(w) == seq![w],
{
    lemma_word_end_nonws(w, 0);
    assert(w.subrange(0, w.len() as int) =~= w);
    if w.len() > 1 {
        lemma_words_interior(w, 1, w.len() as int);
    }
    assert(words_upto(w, 1, w.len() as int) == Seq::<Seq<char>>::empty());
    assert(seq![w] + Seq::<Seq<char>>::empty() =~= seq![w]);
}

/// Two texts that agree up to a whitespace seam have the same words
/// before it.
proof fn lemma_words_upto_agree(a: Seq<char>, b: Seq<char>, c: int, i: int)
    requires
        0 <= i <= c,
        c <= a.len(),
        c <= b.len(),
        forall|j: int| 0 <= j < c ==> a[j] == b[j],
        c == a.len() || is_ws_char(a[c]),
        c == b.len() || is_ws_char(b[c]),
    ensures
        words_upto(a, i, c) == words_upto(b, i, c),
    decreases c - i,
{
    if i < c {
        lemma_words_upto_agree(a, b, c, i + 1);
        if !is_ws_char(a[i]) && (i == 0 || is_ws_char(a[i - 1])) {
            lemma_word_end_agree(a, b, c, i);
            lemma_word_end_bounds(a, i);
            lemma_word_end_seam(a, c, i);
            assert(a.subrange(i, word_end(a, i)) =~= b.subrange(i, word_end(b, i)));
        }
    }
}

/// Appending a separator and one more visible run appends exactly that
/// word.
proof fn lemma_words_append_sep_word(cur: Seq<char>, w: Seq<char>)
    requires
        w.len() > 0,
        forall|j: int| 0 <= j < w.len() ==> !is_ws_char(#[trigger] w[j]),
    ensures
        words_of(cur + seq![' '] + w) == words_of(cur) + seq![w],
{
    let t = cur + seq![' '] + w;
    let c = cur.len() as int;
    let n = t.len() as int;
    assert(t[c] == ' ');
    assert(is_ws_char(' '));
    assert(forall|j: int| 0 <= j < c ==> t[j] == cur[j]);
    assert(forall|j: int| c + 1 <= j < n ==> t[j] == w[j - c - 1] && !is_ws_char(#[trigger] t[j]));
    lemma_words_split(t, 0, c, n);
    lemma_words_split(t, c, c + 1, n);
    assert(words_upto(t, c, c + 1) == Seq::<Seq<char>>::empty());
    lemma_words_upto_agree(t, cur, c, 0);
    lemma_word_end_nonws(t, c + 1);
    assert(t.subrange(c + 1, n) =~= w);
    if c + 2 <= n {
        lemma_words_interior(t, c + 2, n);
    }
    assert(words_upto(t, c + 2, n) == Seq::<Seq<char>>::empty());
    assert(words_upto(t, c + 1, n) =~= seq![w]);
    assert(words_upto(t, 0, n) =~= words_of(cur) + seq![w]);
}

/// Splitting one more word into pieces appends its pieces.
proof fn lemma_chunked_push(ws: Seq<Seq<char>>, w: Seq<char>, width: nat)
    ensures
        chunked_words(ws.push(w), width) == chunked_words(ws, width) + chunks_of(w, width),
    decreases ws.len(),
{
    if ws.len() == 0 {
        assert(ws.push(w).first() == w);
        assert(ws.push(w).drop_first() =~= Seq::<Seq<char>>::empty());
        assert(chunks_of(w, width) + chunked_words(Seq::<Seq<char>>::empty(), width)
            =~= chunks_of(w, width));
        assert(chunked_words(ws, width) + chunks_of(w, width) =~= chunks_of(w, width));
    } else {
        assert(ws.push(w).first() == ws.first());
        assert(ws.push(w).drop_first() =~= ws.drop_first().push(w));
        lemma_chunked_push(ws.drop_first(), w, width);
        assert(chunks_of(ws.first(), width) + (chunked_words(ws.drop_first(), width) + chunks_of(
            w,
            width,
        )) =~= (chunks_of(ws.first(), width) + chunked_words(ws.drop_first(), width)) + chunks_of(
            w,
            width,
        ));
    }
}

/// Splitting a concatenation of words splits piecewise.
proof fn lemma_chunked_concat(a: Seq<Seq<char>>, b: Seq<Seq<char>>, width: nat)
    ensures
        chunked_words(a + b, width) == chunked_words(a, width) + chunked_words(b, width),
    decreases a.len(),
{
    if a.len() == 0 {
        assert(a + b =~= b);
        assert(chunked_words(a, width) + chunked_words(b, width) =~= chunked_words(b, width));
    } else {
        assert((a + b).len() > 0);
        assert((a + b).first() == a.first());
        assert((a + b).drop_first() =~= a.drop_first() + b);
        lemma_chunked_concat(a.drop_first(), b, width);
        assert(chunks_of(a.first(), width) + (chunked_words(a.drop_first(), width)
            + chunked_words(b, width)) =~= (chunks_of(a.first(), width) + chunked_words(
            a.drop_first(),
            width,
        )) + chunked_words(b, width));
    }
}

/// One more line contributes its words at the end.
proof fn lemma_words_of_lines_push(ls: Seq<String>, line: String)
    ensures
        words_of_lines(ls.push(line)) == words_of_lines(ls) + words_of(line@),
{
    assert(ls.push(line).drop_last() =~= ls);
    assert(ls.push(line).last() == line);
}

/// The text of a sequence of lines, concatenated in order.
pub open spec fn lines_text(ls: Seq<String>) -> Seq<char>
    decreases ls.len(),
{
    if ls.len() == 0 {
        Seq::<char>::empty()
    } else {
        lines_text(ls.drop_last()) + ls.last()@
    }
}

/// Appending a line appends its text.
proof fn lemma_lines_text_push(ls: Seq<String>, line: String)
    ensures
        lines_text(ls.push(line)) == lines_text(ls) + line@,
{
    assert(ls.push(line).drop_last() =~= ls);
    assert(ls.push(line).last() == line);
}

/// Word-wraps text to a width, one paragraph per newline: words are
/// packed greedily with single spaces, a word longer than the width is
/// split into width-sized pieces, an empty paragraph yields an empty
/// line, and a width of zero returns the text unwrapped. Every returned
/// line fits the width, there is always at least one, and wrapping
/// neither loses nor invents anything: read in order, the visible
/// characters of the result are exactly those of the text.
pub fn wrap_text(text: &str, max_width: usize) -> (r: Vec<String>)
    ensures
        r@.len() >= 1,
        max_width == 0 ==> r@.len() == 1 && r@[0]@ == text@,
        max_width > 0 ==> forall|i: int| 0 <= i < r@.len() ==> (#[trigger] r@[i])@.len()
            <= max_width,
        visible(lines_text(r@)) == visible(text@),
        max_width > 0 ==> words_of_lines(r@) == chunked_words(
            words_of(text@),
            max_width as nat,
        ),
{
    if max_width == 0 {
        let mut lines: Vec<String> = Vec::new();
        lines.push(text.to_owned());
        proof {
            assert(lines@.drop_last() =~= Seq::<String>::empty());
            assert(lines_text(Seq::<String>::empty()) == Seq::<char>::empty());
            assert(lines_text(lines@) == lines_text(lines@.drop_last()) + lines@.last()@);
            assert(lines_text(lines@) =~= text@);
        }
        return lines;
    }
    let n = text.unicode_len();
    let mut chars: Vec<char> = Vec::new();
    let mut k: usize = 0;
    while k < n
        invariant
            k <= n,
            n == text@.len(),
            chars@ == text@.subrange(0, k as int),
        decreases n - k,
    {
        chars.push(text.get_char(k));
        proof {
            assert(chars@ =~= text@.subrange(0, k + 1));
        }
        k += 1;
    }
    proof {
        assert(chars@ =~= text@);
    }
    let mut lines: Vec<String> = Vec::new();
    let mut p: usize = 0;
    let mut done: bool = false;
    proof {
        lemma_visible_empty();
        assert(chars@.take(0) =~= Seq::<char>::empty());
        assert(words_upto(chars@, 0, 0) == Seq::<Seq<char>>::empty());
        assert(chunked_words(Seq::<Seq<char>>::empty(), max_width as nat)
            == Seq::<Seq<char>>::empty());
    }
    while !done
        invariant
            p <= n,
            n == chars@.len(),
            max_width > 0,
            forall|i: int| 0 <= i < lines@.len() ==> (#[trigger] lines@[i])@.len() <= max_width,
            !done ==> visible(lines_text(lines@)) == visible(chars@.take(p as int)),
            done ==> visible(lines_text(lines@)) == visible(chars@),
            p == 0 || is_ws_char(chars@[p - 1]),
            !done ==> words_of_lines(lines@) == chunked_words(
                words_upto(chars@, 0, p as int),
                max_width as nat,
            ),
            done ==> words_of_lines(lines@) == chunked_words(words_of(chars@), max_width as nat),
        decreases n - p + (if done {
            0int
        } else {
            1int
        }),
    {
        // The paragraph runs from p to the next newline or the end.
        let mut q: usize = p;
        while q < n && chars[q] != '\n'
            invariant
                p <= q <= n,
                n == chars@.len(),
            decreases n - q,
        {
            q += 1;
        }
        proof {
            assert('\n' as u32 == 0x0a);
        }
        if p == q {
            let blank = String::new();
            let ghost prev = lines@;
            let ghost pv: String = blank;
            lines.push(blank);
            proof {
                lemma_lines_text_push(prev, pv);
                assert(lines_text(lines@) =~= lines_text(prev));
                lemma_words_of_lines_push(prev, pv);
                assert(words_upto(pv@, 0, pv@.len() as int) == Seq::<Seq<char>>::empty());
                assert(words_of_lines(lines@) =~= words_of_lines(prev));
            }
        } else {
            wrap_paragraph(&chars, p, q, max_width, &mut lines);
        }
        proof {
            assert(chars@.take(q as int) =~= chars@.take(p as int) + chars@.subrange(
                p as int,
                q as int,
            ));
            assert(visible(lines_text(lines@)) == visible(chars@.take(q as int)));
            lemma_words_split(chars@, 0, p as int, q as int);
            lemma_chunked_concat(
                words_upto(chars@, 0, p as int),
                words_upto(chars@, p as int, q as int),
                max_width as nat,
            );
            assert(words_of_lines(lines@) == chunked_words(
                words_upto(chars@, 0, q as int),
                max_width as nat,
            ));
        }
        if q >= n {
            done = true;
            proof {
                assert(chars@.take(n as int) =~= chars@);
            }
        } else {
            proof {
                assert(chars@.take(q + 1) =~= chars@.take(q as int).push(chars@[q as int]));
                lemma_visible_push(chars@.take(q as int), chars@[q as int]);
                lemma_words_split(chars@, 0, q as int, q + 1);
                assert(words_upto(chars@, q + 1, q + 1) == Seq::<Seq<char>>::empty());
                assert(words_upto(chars@, q as int, q + 1) == Seq::<Seq<char>>::empty());
                assert(words_upto(chars@, 0, q + 1) =~= words_upto(chars@, 0, q as int));
            }
            p = q + 1;
        }
    }
    if lines.len() == 0 {
        let blank = String::new();
        let ghost prev = lines@;
        let ghost pv: String = blank;
        lines.push(blank);
        proof {
            lemma_lines_text_push(prev, pv);
            assert(lines_text(lines@) =~= lines_text(prev));
            lemma_words_of_lines_push(prev, pv);
            assert(words_upto(pv@, 0, pv@.len() as int) == Seq::<Seq<char>>::empty());
            assert(words_of_lines(lines@) =~= words_of_lines(prev));
        }
    }
    lines
}

/// Wraps one paragraph of the buffer, appending its lines. The visible
/// characters of the appended lines are exactly those of the paragraph,
/// and their words are exactly the paragraph's words, each split into
/// width-sized pieces where it exceeds the width.
fn wrap_paragraph(
    chars: &Vec<char>,
    from: usize,
    to: usize,
    max_width: usize,
    lines: &mut Vec<String>,
)
    requires
        from <= to <= chars@.len(),
        max_width > 0,
        from == 0 || is_ws_char(chars@[from - 1]),
        to == chars@.len() || is_ws_char(chars@[to as int]),
        forall|i: int|
            0 <= i < old(lines)@.len() ==> (#[trigger] old(lines)@[i])@.len() <= max_width,
    ensures
        forall|i: int| 0 <= i < final(lines)@.len() ==> (#[trigger] final(lines)@[i])@.len()
            <= max_width,
        visible(lines_text(final(lines)@)) == visible(lines_text(old(lines)@)) + visible(
            chars@.subrange(from as int, to as int),
        ),
        words_of_lines(final(lines)@) == words_of_lines(old(lines)@) + chunked_words(
            words_upto(chars@, from as int, to as int),
            max_width as nat,
        ),
{
    let ghost base: Seq<char> = visible(lines_text(lines@));
    let ghost wbase: Seq<Seq<char>> = words_of_lines(lines@);
    let ghost width: nat = max_width as nat;
    let mut current: Vec<char> = Vec::new();
    proof {
        lemma_visible_empty();
        assert(chars@.subrange(from as int, from as int) =~= Seq::<char>::empty());
        assert(words_of(Seq::<char>::empty()) == Seq::<Seq<char>>::empty());
        assert(words_upto(chars@, from as int, from as int) == Seq::<Seq<char>>::empty());
        assert(chunked_words(Seq::<Seq<char>>::empty(), width) == Seq::<Seq<char>>::empty());
    }
    let mut k = from;
    while k < to
        invariant
            from <= k,
            k <= to <= chars@.len(),
            max_width > 0,
            width == max_width as nat,
            from == 0 || is_ws_char(chars@[from - 1]),
            to == chars@.len() || is_ws_char(chars@[to as int]),
            k == from || k == to || is_ws_char(chars@[k - 1]) || (k < chars@.len()
                && is_ws_char(chars@[k as int])),
            current@.len() <= max_width,
            forall|i: int| 0 <= i < lines@.len() ==> (#[trigger] lines@[i])@.len() <= max_width,
            visible(lines_text(lines@)) + visible(current@) == base + visible(
                chars@.subrange(from as int, k as int),
            ),
            words_of_lines(lines@) + words_of(current@) == wbase + chunked_words(
                words_upto(chars@, from as int, k as int),
                width,
            ),
        decreases to - k,
    {
        if is_ws(chars[k]) {
            proof {
                assert(chars@.subrange(from as int, k + 1) =~= chars@.subrange(
                    from as int,
                    k as int,
                ).push(chars@[k as int]));
                lemma_visible_push(chars@.subrange(from as int, k as int), chars@[k as int]);
                lemma_words_split(chars@, from as int, k as int, k + 1);
                assert(words_upto(chars@, k + 1, k + 1) == Seq::<Seq<char>>::empty());
                assert(words_upto(chars@, k as int, k + 1) == Seq::<Seq<char>>::empty());
                assert(words_upto(chars@, from as int, k + 1) =~= words_upto(
                    chars@,
                    from as int,
                    k as int,
                ));
            }
            k += 1;
        } else {
            // The word runs from k to the next whitespace or the end.
            let mut we = k;
            while we < to && !is_ws(chars[we])
                invariant
                    k <= we <= to <= chars@.len(),
                    forall|j: int| k <= j < we ==> !is_ws_char(#[trigger] chars@[j]),
                    word_end(chars@, k as int) == word_end(chars@, we as int),
                decreases to - we,
            {
                we += 1;
            }
            let ghost wfull = chars@.subrange(k as int, we as int);
            proof {
                if we < to {
                    assert(word_end(chars@, we as int) == we as int);
                } else {
                    assert(word_end(chars@, we as int) == we as int);
                }
                lemma_word_end_bounds(chars@, k + 1);
                assert(we as int >= k + 1);
                assert(wfull.len() == we - k);
                assert(forall|j: int| 0 <= j < wfull.len() ==> !is_ws_char(#[trigger] wfull[j]));
                assert(k as int == 0 || is_ws_char(chars@[k - 1]));
                if k + 1 < we {
                    lemma_words_interior(chars@, k + 1, we as int);
                }
                assert(words_upto(chars@, k + 1, we as int) == Seq::<Seq<char>>::empty());
                assert(words_upto(chars@, k as int, we as int) =~= seq![wfull]);
                lemma_words_split(chars@, from as int, k as int, we as int);
                assert(words_upto(chars@, from as int, we as int) =~= words_upto(
                    chars@,
                    from as int,
                    k as int,
                ).push(wfull));
                lemma_chunked_push(words_upto(chars@, from as int, k as int), wfull, width);
            }
            let word_len = we - k;
            if current.len() == 0 {
                if word_len > max_width {
                    // Split an over-long word into width-sized pieces.
                    let ghost wtarget = words_of_lines(lines@) + chunks_of(wfull, width);
                    let mut c = k;
                    proof {
                        assert(chars@.subrange(k as int, we as int) =~= wfull);
                    }
                    while c < we
                        invariant
                            from <= k <= c <= we <= chars@.len(),
                            max_width > 0,
                            width == max_width as nat,
                            current@.len() == 0,
                            forall|j: int| c <= j < we ==> !is_ws_char(#[trigger] chars@[j]),
                            forall|i: int|
                                0 <= i < lines@.len() ==> (#[trigger] lines@[i])@.len()
                                    <= max_width,
                            visible(lines_text(lines@)) + visible(current@) == base + visible(
                                chars@.subrange(from as int, c as int),
                            ),
                            words_of_lines(lines@) + chunks_of(
                                chars@.subrange(c as int, we as int),
                                width,
                            ) == wtarget,
                        decreases we - c,
                    {
                        let end = if we - c > max_width {
                            c + max_width
                        } else {
                            we
                        };
                        let piece = string_of_range(chars, c, end);
                        let ghost prev = lines@;
                        let ghost pv: String = piece;
                        lines.push(piece);
                        proof {
                            lemma_lines_text_push(prev, pv);
                            lemma_visible_of_visible(chars@.subrange(c as int, end as int));
                            assert(chars@.subrange(from as int, end as int) =~= chars@.subrange(
                                from as int,
                                c as int,
                            ) + chars@.subrange(c as int, end as int));
                            lemma_words_of_lines_push(prev, pv);
                            lemma_words_of_single(pv@);
                            if end < we {
                                assert(chars@.subrange(c as int, we as int).take(
                                    max_width as int,
                                ) =~= chars@.subrange(c as int, end as int));
                                assert(chars@.subrange(c as int, we as int).skip(
                                    max_width as int,
                                ) =~= chars@.subrange(end as int, we as int));
                                assert(chunks_of(chars@.subrange(c as int, we as int), width)
                                    == seq![chars@.subrange(c as int, end as int)] + chunks_of(
                                    chars@.subrange(end as int, we as int),
                                    width,
                                ));
                            } else {
                                assert(chunks_of(chars@.subrange(c as int, we as int), width)
                                    == seq![chars@.subrange(c as int, end as int)]);
                                assert(chars@.subrange(end as int, we as int) =~= Seq::<
                                    char,
                                >::empty());
                                assert(chunks_of(Seq::<char>::empty(), width) == Seq::<
                                    Seq<char>,
                                >::empty());
                            }
                            assert((words_of_lines(prev) + seq![pv@]) + chunks_of(
                                chars@.subrange(end as int, we as int),
                                width,
                            ) =~= words_of_lines(prev) + (seq![pv@] + chunks_of(
                                chars@.subrange(end as int, we as int),
                                width,
                            )));
                        }
                        c = end;
                    }
                    proof {
                        assert(chars@.subrange(we as int, we as int) =~= Seq::<char>::empty());
                        assert(chunks_of(Seq::<char>::empty(), width) == Seq::<
                            Seq<char>,
                        >::empty());
                        assert(words_of(current@) == Seq::<Seq<char>>::empty());
                    }
                } else {
                    current = Vec::new();
                    let mut w = k;
                    while w < we
                        invariant
                            from <= k <= w <= we <= chars@.len(),
                            current@ == chars@.subrange(k as int, w as int),
                            current@.len() == w - k,
                            we - k <= max_width,
                            forall|j: int| w <= j < we ==> !is_ws_char(#[trigger] chars@[j]),
                            visible(lines_text(lines@)) + visible(current@) == base + visible(
                                chars@.subrange(from as int, w as int),
                            ),
                        decreases we - w,
                    {
                        let ghost cur0 = current@;
                        let ghost c0 = chars@[w as int];
                        proof {
                            assert(chars@.subrange(from as int, w + 1) =~= chars@.subrange(
                                from as int,
                                w as int,
                            ).push(c0));
                            lemma_visible_push(chars@.subrange(from as int, w as int), c0);
                            lemma_visible_push(cur0, c0);
                        }
                        current.push(chars[w]);
                        proof {
                            assert(current@ =~= chars@.subrange(k as int, w + 1));
                            let sub = visible(chars@.subrange(from as int, w as int));
                            assert(visible(lines_text(lines@)) + visible(cur0).push(c0) =~= (
                            visible(lines_text(lines@)) + visible(cur0)).push(c0));
                            assert((base + sub).push(c0) =~= base + sub.push(c0));
                        }
                        w += 1;
                    }
                    proof {
                        assert(current@ =~= wfull);
                        lemma_words_of_single(wfull);
                        assert(chunks_of(wfull, width) == seq![wfull]);
                        assert(wbase + chunked_words(
                            words_upto(chars@, from as int, k as int),
                            width,
                        ) + seq![wfull] =~= wbase + (chunked_words(
                            words_upto(chars@, from as int, k as int),
                            width,
                        ) + seq![wfull]));
                    }
                }
            } else if (current.len() as u128) + 1 + (word_len as u128) <= (max_width as u128) {
                let ghost cur0 = current@;
                proof {
                    lemma_visible_push(current@, ' ');
                }
                current.push(' ');
                let ghost grown = current@.len();
                let mut w = k;
                while w < we
                    invariant
                        from <= k <= w <= we <= chars@.len(),
                        current@ == cur0.push(' ') + chars@.subrange(k as int, w as int),
                        current@.len() == grown + (w - k),
                        grown + (we - k) <= max_width,
                        forall|j: int| w <= j < we ==> !is_ws_char(#[trigger] chars@[j]),
                        forall|i: int|
                            0 <= i < lines@.len() ==> (#[trigger] lines@[i])@.len() <= max_width,
                        visible(lines_text(lines@)) + visible(current@) == base + visible(
                            chars@.subrange(from as int, w as int),
                        ),
                    decreases we - w,
                {
                    let ghost curw = current@;
                    let ghost c0 = chars@[w as int];
                    proof {
                        assert(chars@.subrange(from as int, w + 1) =~= chars@.subrange(
                            from as int,
                            w as int,
                        ).push(c0));
                        lemma_visible_push(chars@.subrange(from as int, w as int), c0);
                        lemma_visible_push(curw, c0);
                    }
                    current.push(chars[w]);
                    proof {
                        assert(current@ =~= cur0.push(' ') + chars@.subrange(k as int, w + 1));
                        let sub = visible(chars@.subrange(from as int, w as int));
                        assert(visible(lines_text(lines@)) + visible(curw).push(c0) =~= (
                        visible(lines_text(lines@)) + visible(curw)).push(c0));
                        assert((base + sub).push(c0) =~= base + sub.push(c0));
                    }
                    w += 1;
                }
                proof {
                    assert(current@ =~= cur0 + seq![' '] + wfull);
                    lemma_words_append_sep_word(cur0, wfull);
                    assert(chunks_of(wfull, width) == seq![wfull]);
                    assert(words_of_lines(lines@) + (words_of(cur0) + seq![wfull]) =~= (
                    words_of_lines(lines@) + words_of(cur0)) + seq![wfull]);
                    assert(wbase + chunked_words(
                        words_upto(chars@, from as int, k as int),
                        width,
                    ) + seq![wfull] =~= wbase + (chunked_words(
                        words_upto(chars@, from as int, k as int),
                        width,
                    ) + seq![wfull]));
                }
            } else {
                let full = crate::externs::chars_to_string(&current);
                let ghost prev = lines@;
                let ghost pv: String = full;
                lines.push(full);
                proof {
                    lemma_lines_text_push(prev, pv);
                    lemma_visible_empty();
                    lemma_words_of_lines_push(prev, pv);
                    assert(words_of(Seq::<char>::empty()) == Seq::<Seq<char>>::empty());
                }
                current = Vec::new();
                if word_len <= max_width {
                    let mut w = k;
                    while w < we
                        invariant
                            from <= k <= w <= we <= chars@.len(),
                            current@ == chars@.subrange(k as int, w as int),
                            current@.len() == w - k,
                            we - k <= max_width,
                            forall|j: int| w <= j < we ==> !is_ws_char(#[trigger] chars@[j]),
                            forall|i: int|
                                0 <= i < lines@.len() ==> (#[trigger] lines@[i])@.len()
                                    <= max_width,
                            visible(lines_text(lines@)) + visible(current@) == base + visible(
                                chars@.subrange(from as int, w as int),
                            ),
                        decreases we - w,
                    {
                        let ghost cur0 = current@;
                        let ghost c0 = chars@[w as int];
                        proof {
                            assert(chars@.subrange(from as int, w + 1) =~= chars@.subrange(
                                from as int,
                                w as int,
                            ).push(c0));
                            lemma_visible_push(chars@.subrange(from as int, w as int), c0);
                            lemma_visible_push(cur0, c0);
                        }
                        current.push(chars[w]);
                        proof {
                            assert(current@ =~= chars@.subrange(k as int, w + 1));
                            let sub = visible(chars@.subrange(from as int, w as int));
                            assert(visible(lines_text(lines@)) + visible(cur0).push(c0) =~= (
                            visible(lines_text(lines@)) + visible(cur0)).push(c0));
                            assert((base + sub).push(c0) =~= base + sub.push(c0));
                        }
                        w += 1;
                    }
                    proof {
                        assert(current@ =~= wfull);
                        lemma_words_of_single(wfull);
                        assert(chunks_of(wfull, width) == seq![wfull]);
                        assert(wbase + chunked_words(
                            words_upto(chars@, from as int, k as int),
                            width,
                        ) + seq![wfull] =~= wbase + (chunked_words(
                            words_upto(chars@, from as int, k as int),
                            width,
                        ) + seq![wfull]));
                    }
                } else {
                    // As in the greedy scheme, an over-long word that
                    // follows a full line still starts a line of its own
                    // pieces.
                    let ghost wtarget = words_of_lines(lines@) + chunks_of(wfull, width);
                    let mut c = k;
                    proof {
                        assert(chars@.subrange(k as int, we as int) =~= wfull);
                    }
                    while c < we
                        invariant
                            from <= k <= c <= we <= chars@.len(),
                            max_width > 0,
                            width == max_width as nat,
                            current@.len() == 0,
                            forall|j: int| c <= j < we ==> !is_ws_char(#[trigger] chars@[j]),
                            forall|i: int|
                                0 <= i < lines@.len() ==> (#[trigger] lines@[i])@.len()
                                    <= max_width,
                            visible(lines_text(lines@)) + visible(current@) == base + visible(
                                chars@.subrange(from as int, c as int),
                            ),
                            words_of_lines(lines@) + chunks_of(
                                chars@.subrange(c as int, we as int),
                                width,
                            ) == wtarget,
                        decreases we - c,
                    {
                        let end = if we - c > max_width {
                            c + max_width
                        } else {
                            we
                        };
                        let piece = string_of_range(chars, c, end);
                        let ghost prev = lines@;
                        let ghost pv: String = piece;
                        lines.push(piece);
                        proof {
                            lemma_lines_text_push(prev, pv);
                            lemma_visible_of_visible(chars@.subrange(c as int, end as int));
                            assert(chars@.subrange(from as int, end as int) =~= chars@.subrange(
                                from as int,
                                c as int,
                            ) + chars@.subrange(c as int, end as int));
                            lemma_words_of_lines_push(prev, pv);
                            lemma_words_of_single(pv@);
                            if end < we {
                                assert(chars@.subrange(c as int, we as int).take(
                                    max_width as int,
                                ) =~= chars@.subrange(c as int, end as int));
                                assert(chars@.subrange(c as int, we as int).skip(
                                    max_width as int,
                                ) =~= chars@.subrange(end as int, we as int));
                                assert(chunks_of(chars@.subrange(c as int, we as int), width)
                                    == seq![chars@.subrange(c as int, end as int)] + chunks_of(
                                    chars@.subrange(end as int, we as int),
                                    width,
                                ));
                            } else {
                                assert(chunks_of(chars@.subrange(c as int, we as int), width)
                                    == seq![chars@.subrange(c as int, end as int)]);
                                assert(chars@.subrange(end as int, we as int) =~= Seq::<
                                    char,
                                >::empty());
                                assert(chunks_of(Seq::<char>::empty(), width) == Seq::<
                                    Seq<char>,
                                >::empty());
                            }
                            assert((words_of_lines(prev) + seq![pv@]) + chunks_of(
                                chars@.subrange(end as int, we as int),
                                width,
                            ) =~= words_of_lines(prev) + (seq![pv@] + chunks_of(
                                chars@.subrange(end as int, we as int),
                                width,
                            )));
                        }
                        c = end;
                    }
                    proof {
                        assert(chars@.subrange(we as int, we as int) =~= Seq::<char>::empty());
                        assert(chunks_of(Seq::<char>::empty(), width) == Seq::<
                            Seq<char>,
                        >::empty());
                        assert(words_of(current@) == Seq::<Seq<char>>::empty());
                    }
                }
            }
            k = we;
        }
    }
    if current.len() > 0 {
        let tail = crate::externs::chars_to_string(&current);
        let ghost prev = lines@;
        let ghost pv: String = tail;
        lines.push(tail);
        proof {
            lemma_lines_text_push(prev, pv);
            lemma_words_of_lines_push(prev, pv);
        }
    } else {
        proof {
            lemma_visible_empty();
            assert(words_of(current@) == Seq::<Seq<char>>::empty());
        }
    }
}

/// The human-readable form of a byte count, as shown beside each model:
/// `500 B`, `1.5 KB`, `1.4 MB`, `3.7 GB`.
pub fn format_size(bytes: u64) -> (r: String)
    ensures
        r@ == spec_format_size(bytes),
{
    if bytes >= GB {
        sized_text(bytes, GB, " GB")
    } else if bytes >= MB {
        sized_text(bytes, MB, " MB")
    } else if bytes >= KB {
        sized_text(bytes, KB, " KB")
    } else {
        let mut s = u64_to_string(bytes);
        s.append(" B");
        proof {
            assert(s@ =~= spec_format_size(bytes));
        }
        s
    }
}

} // verus!
