//! Text building blocks for the widget renderers: terminal styling,
//! grapheme-aware width, and verified decimal formatting.

use vstd::prelude::*;

use crossterm::style::Stylize;
use unicode_segmentation::UnicodeSegmentation;

verus! {

/// The decomposition of a string into extended grapheme clusters, in
/// order; their concatenation is the string itself.
pub uninterp spec fn graphemes_of(s: Seq<char>) -> Seq<Seq<char>>;

/// Relies on `unicode_segmentation::UnicodeSegmentation::graphemes` (with
/// extended clusters) and `Iterator::count`: the clusters are a function
/// of the characters alone.
#[verifier::external_body]
pub(crate) fn count_graphemes(s: &str) -> (n: usize)
    ensures
        n == graphemes_of(s@).len(),
{
    s.graphemes(true).count()
}

/// Relies on `unicode_segmentation::UnicodeSegmentation::graphemes` and
/// `Iterator::take`: the first `n` grapheme clusters of the string,
/// concatenated (the whole string when it has fewer clusters).
#[verifier::external_body]
pub(crate) fn take_graphemes(s: &str, n: usize) -> (r: String)
    ensures
        ({
            let g = graphemes_of(s@);
            let k = if n <= g.len() {
                n as int
            } else {
                g.len() as int
            };
            r@ == g.take(k).flatten()
        }),
{
    s.graphemes(true).take(n).collect()
}

/// A string as the terminal prints it with the bold attribute applied.
pub uninterp spec fn bold_of(s: Seq<char>) -> Seq<char>;

/// Relies on `crossterm::style::Stylize::bold` and the `Display` of
/// `StyledContent`: the styled text is a function of the content alone.
#[verifier::external_body]
pub(crate) fn bold(s: &str) -> (r: String)
    ensures
        r@ == bold_of(s@),
{
    format!("{}", s.bold())
}

/// A string as the terminal prints it with the italic attribute applied.
pub uninterp spec fn italic_of(s: Seq<char>) -> Seq<char>;

/// Relies on `crossterm::style::Stylize::italic` and the `Display` of
/// `StyledContent`: the styled text is a function of the content alone.
#[verifier::external_body]
pub(crate) fn italic(s: &str) -> (r: String)
    ensures
        r@ == italic_of(s@),
{
    format!("{}", s.italic())
}

/// A string as the terminal prints it with the underline attribute
/// applied.
pub uninterp spec fn underlined_of(s: Seq<char>) -> Seq<char>;

/// Relies on `crossterm::style::Stylize::underlined` and the `Display` of
/// `StyledContent`: the styled text is a function of the content alone.
#[verifier::external_body]
pub(crate) fn underlined(s: &str) -> (r: String)
    ensures
        r@ == underlined_of(s@),
{
    format!("{}", s.underlined())
}

/// Relies on `String::push`: appends exactly the given character.
#[verifier::external_body]
pub(crate) fn push_char(s: &mut String, c: char)
    ensures
        final(s)@ == old(s)@ + seq![c],
{
    s.push(c);
}

/// `n` copies of one character.
pub open spec fn char_repeat(c: char, n: nat) -> Seq<char> {
    Seq::new(n, |i: int| c)
}

/// A string of `n` copies of one character.
pub fn repeat_char(c: char, n: usize) -> (r: String)
    ensures
        r@ == char_repeat(c, n as nat),
{
    let mut r = String::new();
    let mut i: usize = 0;
    while i < n
        invariant
            i <= n,
            r@ == char_repeat(c, i as nat),
        decreases n - i,
    {
        push_char(&mut r, c);
        proof {
            assert(r@ =~= char_repeat(c, (i + 1) as nat));
        }
        i = i + 1;
    }
    r
}

/// The decimal digit character for a value below ten.
pub open spec fn digit_char(d: int) -> char {
    ((d + 48) as u8) as char
}

/// The decimal representation of a number, most significant digit first,
/// without leading zeros (a single zero for zero itself).
pub open spec fn dec_rep(n: nat) -> Seq<char>
    decreases n,
{
    if n < 10 {
        seq![digit_char(n as int)]
    } else {
        dec_rep(n / 10).push(digit_char((n % 10) as int))
    }
}

/// The decimal string of a number.
pub fn u64_to_dec(n: u64) -> (r: String)
    ensures
        r@ == dec_rep(n as nat),
    decreases n,
{
    if n < 10 {
        let mut r = String::new();
        push_char(&mut r, ((n as u8) + 48) as char);
        proof {
            assert(r@ =~= dec_rep(n as nat));
        }
        r
    } else {
        let mut r = u64_to_dec(n / 10);
        push_char(&mut r, (((n % 10) as u8) + 48) as char);
        proof {
            assert(r@ =~= dec_rep(n as nat));
        }
        r
    }
}

/// The decimal representation padded with `'0'` to at least two digits.
pub open spec fn pad2_rep(n: nat) -> Seq<char> {
    if n < 10 {
        seq!['0'] + dec_rep(n)
    } else {
        dec_rep(n)
    }
}

/// The decimal string of a number, zero-padded to at least two digits.
pub fn pad2(n: u64) -> (r: String)
    ensures
        r@ == pad2_rep(n as nat),
{
    if n < 10 {
        let mut r = String::new();
        push_char(&mut r, '0');
        let d = u64_to_dec(n);
        r.append(d.as_str());
        proof {
            assert(r@ =~= pad2_rep(n as nat));
        }
        r
    } else {
        u64_to_dec(n)
    }
}

/// A duration in seconds as `mm:ss`, each part zero-padded to two digits
/// (the minutes keep all their digits beyond two).
pub open spec fn duration_rep(total_secs: nat) -> Seq<char> {
    pad2_rep(total_secs / 60) + seq![':'] + pad2_rep(total_secs % 60)
}

/// Format a duration in seconds as `mm:ss`.
pub fn format_duration(total_secs: u64) -> (r: String)
    ensures
        r@ == duration_rep(total_secs as nat),
{
    let mut r = pad2(total_secs / 60);
    push_char(&mut r, ':');
    let secs = pad2(total_secs % 60);
    r.append(secs.as_str());
    proof {
        assert(r@ =~= duration_rep(total_secs as nat));
    }
    r
}

/// Parts joined with a separator between consecutive parts.
pub open spec fn join_seqs(parts: Seq<Seq<char>>, sep: Seq<char>) -> Seq<char>
    decreases parts.len(),
{
    if parts.len() == 0 {
        Seq::empty()
    } else if parts.len() == 1 {
        parts[0]
    } else {
        parts[0] + sep + join_seqs(parts.drop_first(), sep)
    }
}

/// Joining one more part appends the separator and that part.
pub proof fn lemma_join_push(parts: Seq<Seq<char>>, sep: Seq<char>, part: Seq<char>)
    requires
        parts.len() >= 1,
    ensures
        join_seqs(parts.push(part), sep) == join_seqs(parts, sep) + sep + part,
    decreases parts.len(),
{
    let pushed = parts.push(part);
    assert(pushed[0] == parts[0]);
    if parts.len() == 1 {
        assert(pushed.drop_first() =~= seq![part]);
        assert(join_seqs(seq![part], sep) == part);
        assert(join_seqs(pushed, sep) == pushed[0] + sep + join_seqs(pushed.drop_first(), sep));
    } else {
        lemma_join_push(parts.drop_first(), sep, part);
        assert(pushed.drop_first() =~= parts.drop_first().push(part));
        assert(join_seqs(pushed, sep) == pushed[0] + sep + join_seqs(pushed.drop_first(), sep));
        assert(join_seqs(parts, sep) == parts[0] + sep + join_seqs(parts.drop_first(), sep));
        assert(join_seqs(pushed, sep) =~= join_seqs(parts, sep) + sep + part);
    }
}

/// The views of a vector of strings.
pub open spec fn string_views(parts: Seq<String>) -> Seq<Seq<char>> {
    parts.map_values(|p: String| p@)
}

/// Join strings with a separator between consecutive parts.
pub fn join_strings(parts: &Vec<String>, sep: &str) -> (r: String)
    ensures
        r@ == join_seqs(string_views(parts@), sep@),
{
    let mut r = String::new();
    let mut i: usize = 0;
    while i < parts.len()
        invariant
            i <= parts.len(),
            r@ == join_seqs(string_views(parts@.take(i as int)), sep@),
        decreases parts.len() - i,
    {
        if i > 0 {
            r.append(sep);
        }
        r.append(parts[i].as_str());
        proof {
            let prev = string_views(parts@.take(i as int));
            let next = string_views(parts@.take(i + 1));
            assert(next =~= prev.push(parts@[i as int]@));
            if i > 0 {
                lemma_join_push(prev, sep@, parts@[i as int]@);
            } else {
                assert(next.len() == 1);
            }
        }
        i = i + 1;
    }
    proof {
        assert(parts@.take(parts@.len() as int) =~= parts@);
    }
    r
}

/// Whether `p` is a prefix of `s`.
pub open spec fn is_prefix(s: Seq<char>, p: Seq<char>) -> bool {
    s.len() >= p.len() && s.take(p.len() as int) == p
}

/// Whether a string starts with the given prefix.
pub fn str_starts_with(s: &str, p: &str) -> (b: bool)
    ensures
        b == is_prefix(s@, p@),
{
    let n = p.unicode_len();
    if s.unicode_len() < n {
        proof {
            assert(!is_prefix(s@, p@));
        }
        return false;
    }
    let mut i: usize = 0;
    while i < n
        invariant
            i <= n,
            n == p@.len(),
            s@.len() >= n,
            forall|j: int| 0 <= j < i ==> s@[j] == p@[j],
        decreases n - i,
    {
        if s.get_char(i) != p.get_char(i) {
            proof {
                assert(s@.take(p@.len() as int)[i as int] != p@[i as int]);
            }
            return false;
        }
        i = i + 1;
    }
    proof {
        assert(s@.take(p@.len() as int) =~= p@);
    }
    true
}

/// The position of the first newline at or after `i`, if any.
pub open spec fn first_nl_from(s: Seq<char>, i: int) -> Option<int>
    decreases s.len() - i,
{
    if i < 0 || i >= s.len() {
        None
    } else if s[i] == '\n' {
        Some(i)
    } else {
        first_nl_from(s, i + 1)
    }
}

/// A found newline lies within the string, is a newline, and nothing
/// before it (from the search start) is one.
pub proof fn lemma_first_nl_bounds(s: Seq<char>, i: int)
    requires
        0 <= i <= s.len(),
    ensures
        match first_nl_from(s, i) {
            Some(j) => i <= j < s.len() && s[j] == '\n' && (forall|t: int|
                i <= t < j ==> s[t] != '\n'),
            None => forall|t: int| i <= t < s.len() ==> s[t] != '\n',
        },
    decreases s.len() - i,
{
    if i < s.len() && s[i] != '\n' {
        lemma_first_nl_bounds(s, i + 1);
    }
}

/// The segments of `s` between its newlines: always one more segment than
/// there are newlines.
pub open spec fn split_nl(s: Seq<char>) -> Seq<Seq<char>>
    decreases s.len(),
    via split_nl_decreases
{
    match first_nl_from(s, 0) {
        None => seq![s],
        Some(i) => seq![s.take(i)] + split_nl(s.skip(i + 1)),
    }
}

#[via_fn]
proof fn split_nl_decreases(s: Seq<char>) {
    lemma_first_nl_bounds(s, 0);
}

/// The lines of a string, as line terminators cut them: splitting on
/// newlines, where a final newline ends the last line rather than opening
/// an empty one, and an empty string has no lines.
pub open spec fn lines_spec(s: Seq<char>) -> Seq<Seq<char>> {
    if s.len() == 0 {
        Seq::empty()
    } else if s.last() == '\n' {
        split_nl(s.drop_last())
    } else {
        split_nl(s)
    }
}

/// The position of the first newline at or after `i`, if any.
fn find_nl(s: &str, i: usize) -> (r: Option<usize>)
    requires
        i <= s@.len(),
    ensures
        match r {
            Some(j) => first_nl_from(s@, i as int) == Some(j as int),
            None => first_nl_from(s@, i as int) is None,
        },
    decreases s@.len() - i,
{
    if i >= s.unicode_len() {
        None
    } else if s.get_char(i) == '\n' {
        Some(i)
    } else {
        find_nl(s, i + 1)
    }
}

/// Split a string at its newlines.
fn split_nl_exec(s: &str) -> (r: Vec<String>)
    ensures
        string_views(r@) == split_nl(s@),
    decreases s@.len(),
{
    proof {
        lemma_first_nl_bounds(s@, 0);
    }
    match find_nl(s, 0) {
        None => {
            let mut r: Vec<String> = Vec::new();
            r.push(s.to_owned());
            proof {
                assert(string_views(r@) =~= split_nl(s@));
            }
            r
        },
        Some(i) => {
            let n = s.unicode_len();
            let head = s.substring_char(0, i).to_owned();
            let rest = s.substring_char(i + 1, n);
            let mut tail = split_nl_exec(rest);
            let mut r: Vec<String> = Vec::new();
            r.push(head);
            r.append(&mut tail);
            proof {
                assert(rest@ =~= s@.skip(i + 1));
                assert(head@ =~= s@.take(i as int));
                assert(string_views(r@) =~= split_nl(s@));
            }
            r
        },
    }
}

/// The lines of a string, a final newline ending the last line.
pub fn lines_of(s: &str) -> (r: Vec<String>)
    ensures
        string_views(r@) == lines_spec(s@),
    {
    let n = s.unicode_len();
    if n == 0 {
        let r: Vec<String> = Vec::new();
        proof {
            assert(string_views(r@) =~= lines_spec(s@));
        }
        r
    } else if s.get_char(n - 1) == '\n' {
        let trimmed = s.substring_char(0, n - 1);
        let r = split_nl_exec(trimmed);
        proof {
            assert(trimmed@ =~= s@.drop_last());
        }
        r
    } else {
        split_nl_exec(s)
    }
}

/// `s` padded on the left with `c` to at least `width` characters.
pub open spec fn left_padded(s: Seq<char>, width: nat, c: char) -> Seq<char> {
    if s.len() >= width {
        s
    } else {
        char_repeat(c, (width - s.len()) as nat) + s
    }
}

/// Pad a string on the left to at least `width` characters.
pub fn pad_left(s: &str, width: usize, c: char) -> (r: String)
    ensures
        r@ == left_padded(s@, width as nat, c),
{
    let len = s.unicode_len();
    if len >= width {
        s.to_owned()
    } else {
        let mut r = repeat_char(c, width - len);
        r.append(s);
        r
    }
}

} // verus!
