use case::CaseExt;
use vstd::prelude::*;

verus! {

/// Lower-case counterpart of an ASCII capital letter.
pub open spec fn ascii_lower(c: char) -> char {
    ((c as u8) + 32u8) as char
}

pub open spec fn is_ascii_upper(c: char) -> bool {
    'A' <= c && c <= 'Z'
}

/// The characters that one input character becomes in snake case: a capital letter
/// becomes its lower-case form, preceded by `_` unless it opens the text.
pub open spec fn snake_piece(c: char, first: bool) -> Seq<char> {
    if is_ascii_upper(c) {
        if first {
            seq![ascii_lower(c)]
        } else {
            seq!['_', ascii_lower(c)]
        }
    } else {
        seq![c]
    }
}

/// Snake case of an identifier, character by character.
pub open spec fn snake_case(s: Seq<char>) -> Seq<char>
    decreases s.len(),
{
    if s.len() == 0 {
        seq![]
    } else {
        snake_case(s.drop_last()) + snake_piece(s.last(), s.len() == 1)
    }
}

/// The words of `s`, its runs of characters other than `_`, joined by single spaces:
/// every character other than `_` is kept, and one space stands before each word but
/// the first.
pub open spec fn words_joined(s: Seq<char>) -> Seq<char>
    decreases s.len(),
{
    if s.len() == 0 {
        seq![]
    } else {
        let p = words_joined(s.drop_last());
        let c = s.last();
        if c == '_' {
            p
        } else if s.len() >= 2 && s[s.len() - 2] == '_' && p.len() > 0 {
            p + seq![' ', c]
        } else {
            p.push(c)
        }
    }
}

/// The characters of Unicode's `White_Space` property.
pub open spec fn is_white_space(c: char) -> bool {
    let u = c as u32;
    ||| 0x9 <= u <= 0xd
    ||| u == 0x20
    ||| u == 0x85
    ||| u == 0xa0
    ||| u == 0x1680
    ||| 0x2000 <= u <= 0x200a
    ||| u == 0x2028
    ||| u == 0x2029
    ||| u == 0x202f
    ||| u == 0x205f
    ||| u == 0x3000
}

pub open spec fn trim_start(s: Seq<char>) -> Seq<char>
    decreases s.len(),
{
    if s.len() > 0 && is_white_space(s[0]) {
        trim_start(s.drop_first())
    } else {
        s
    }
}

pub open spec fn trim_end(s: Seq<char>) -> Seq<char>
    decreases s.len(),
{
    if s.len() > 0 && is_white_space(s.last()) {
        trim_end(s.drop_last())
    } else {
        s
    }
}

/// `s` without its leading and trailing white space.
pub open spec fn trim_ws(s: Seq<char>) -> Seq<char> {
    trim_end(trim_start(s))
}

/// What Unicode lower-casing makes of a text.
pub uninterp spec fn lower_of(s: Seq<char>) -> Seq<char>;

/// `s` without any number of leading `///` markers.
pub open spec fn strip_doc_marker(s: Seq<char>) -> Seq<char>
    decreases s.len(),
{
    if s.len() >= 3 && s[0] == '/' && s[1] == '/' && s[2] == '/' {
        strip_doc_marker(s.subrange(3, s.len() as int))
    } else {
        s
    }
}

/// The pieces of `s` between newline characters: one more than it has newlines.
pub open spec fn newline_pieces(s: Seq<char>) -> Seq<Seq<char>>
    decreases s.len(),
{
    if s.len() == 0 {
        seq![seq![]]
    } else {
        let p = newline_pieces(s.drop_last());
        if s.last() == '\n' {
            p.push(seq![])
        } else {
            p.update(p.len() - 1, p.last().push(s.last()))
        }
    }
}

/// A line that was ended by `\r\n` loses its `\r`.
pub open spec fn drop_cr(l: Seq<char>) -> Seq<char> {
    if l.len() > 0 && l.last() == '\r' {
        l.drop_last()
    } else {
        l
    }
}

/// The lines of a text: split at each newline, a `\r` before the newline dropped,
/// and an empty piece after the last newline left out.
pub open spec fn lines_of(s: Seq<char>) -> Seq<Seq<char>> {
    let p = newline_pieces(s);
    let ended = p.drop_last().map_values(|l: Seq<char>| drop_cr(l));
    if p.last().len() == 0 {
        ended
    } else {
        ended.push(p.last())
    }
}

/// Relies on case::CaseExt::to_snake, which walks the characters and replaces each
/// ASCII capital by `_` (none before the first character) and its lower-case form.
#[verifier::external_body]
fn to_snake(s: &str) -> (r: String)
    ensures
        r@ == snake_case(s@),
{
    s.to_snake()
}

/// Relies on str::trim: leading and trailing `White_Space` characters removed.
#[verifier::external_body]
pub(crate) fn trim(s: &str) -> (r: &str)
    ensures
        r@ == trim_ws(s@),
{
    s.trim()
}

/// Relies on str::to_lowercase, whose result depends on the characters alone; ASCII
/// characters other than capitals are their own lower case.
#[verifier::external_body]
fn to_lowercase(s: &str) -> (r: String)
    ensures
        r@ == lower_of(s@),
        (forall|i: int| 0 <= i < s@.len() ==> (s@[i] as u32) < 0x80 && !is_ascii_upper(#[trigger] s@[i]))
            ==> r@ == s@,
{
    s.to_lowercase()
}

/// Whether two texts hold the same characters.
pub fn text_is(a: &str, b: &str) -> (r: bool)
    ensures
        r == (a@ == b@),
{
    let n = a.unicode_len();
    if n != b.unicode_len() {
        return false;
    }
    let mut i: usize = 0;
    while i < n
        invariant
            n == a@.len(),
            n == b@.len(),
            i <= n,
            a@.take(i as int) == b@.take(i as int),
        decreases n - i,
    {
        if a.get_char(i) != b.get_char(i) {
            return false;
        }
        assert(a@.take(i + 1) =~= a@.take(i as int).push(a@[i as int]));
        assert(b@.take(i + 1) =~= b@.take(i as int).push(b@[i as int]));
        i = i + 1;
    }
    assert(a@ =~= a@.take(n as int));
    assert(b@ =~= b@.take(n as int));
    true
}

/// Joins the words of `s` that underscores separate with single spaces.
pub fn join_words(s: &str) -> (r: String)
    ensures
        r@ == words_joined(s@),
{
    let n = s.unicode_len();
    let mut out = String::new();
    let mut i: usize = 0;
    while i < n
        invariant
            n == s@.len(),
            i <= n,
            out@ == words_joined(s@.take(i as int)),
        decreases n - i,
    {
        let c = s.get_char(i);
        assert(s@.take(i + 1).drop_last() =~= s@.take(i as int));
        assert(s@.take(i + 1).last() == c);
        if c != '_' {
            if i > 0 && s.get_char(i - 1) == '_' && out.as_str().unicode_len() > 0 {
                out.append(" ");
                proof {
                    reveal_strlit(" ");
                }
                assert(" "@ =~= seq![' ']);
            }
            out.append(s.substring_char(i, i + 1));
            assert(s@.subrange(i as int, i + 1) =~= seq![c]);
            if i > 0 {
                assert(s@.take(i + 1)[i - 1] == s@[i - 1]);
            }
            assert(out@ =~= words_joined(s@.take(i + 1)));
        }
        i = i + 1;
    }
    assert(s@ =~= s@.take(n as int));
    out
}

/// The label made from an identifier: split into words at its capitals and
/// underscores, joined by single spaces, trimmed and lower-cased (`ErrorKindTwo` and
/// `Error_kind__two` give `error kind two`).
pub open spec fn label(ident: Seq<char>) -> Seq<char> {
    lower_of(trim_ws(words_joined(snake_case(ident))))
}

/// Makes the human-readable label of a case or type from its identifier.
pub fn label_str(ident: &str) -> (r: String)
    ensures
        r@ == label(ident@),
{
    let snake = to_snake(ident);
    let words = join_words(snake.as_str());
    to_lowercase(trim(words.as_str()))
}

/// Removes the leading `///` markers of a documentation line.
pub fn strip_marker(line: &str) -> (r: &str)
    ensures
        r@ == strip_doc_marker(line@),
{
    let n = line.unicode_len();
    let mut i: usize = 0;
    assert(line@.subrange(0, n as int) =~= line@);
    while n - i >= 3 && line.get_char(i) == '/' && line.get_char(i + 1) == '/' && line.get_char(
        i + 2,
    ) == '/'
        invariant
            n == line@.len(),
            i <= n,
            strip_doc_marker(line@) == strip_doc_marker(line@.subrange(i as int, n as int)),
        decreases n - i,
    {
        assert(line@.subrange(i as int, n as int).subrange(3, n - i) =~= line@.subrange(
            i + 3,
            n as int,
        ));
        i = i + 3;
    }
    line.substring_char(i, n)
}

/// Drops the `\r` that ends a line.
fn without_cr(l: String) -> (r: String)
    ensures
        r@ == drop_cr(l@),
{
    let n = l.as_str().unicode_len();
    if n > 0 && l.as_str().get_char(n - 1) == '\r' {
        l.as_str().substring_char(0, n - 1).to_owned()
    } else {
        l
    }
}

/// Splits a text into its lines, as `str::lines` does.
pub fn split_lines(s: &str) -> (r: Vec<String>)
    ensures
        r@.map_values(|l: String| l@) == lines_of(s@),
{
    let n = s.unicode_len();
    let mut out: Vec<String> = Vec::new();
    let mut cur = String::new();
    let mut i: usize = 0;
    proof {
        assert(s@.take(0) =~= Seq::<char>::empty());
    }
    while i < n
        invariant
            n == s@.len(),
            i <= n,
            out@.map_values(|l: String| l@) == newline_pieces(s@.take(i as int)).drop_last().map_values(
                |l: Seq<char>| drop_cr(l),
            ),
            cur@ == newline_pieces(s@.take(i as int)).last(),
            newline_pieces(s@.take(i as int)).len() >= 1,
        decreases n - i,
    {
        let ghost old_out = out@;
        let ghost p = newline_pieces(s@.take(i as int));
        let c = s.get_char(i);
        assert(s@.take(i + 1).drop_last() =~= s@.take(i as int));
        if c == '\n' {
            let line = without_cr(cur);
            out.push(line);
            cur = String::new();
            let ghost q = newline_pieces(s@.take(i + 1));
            assert(q == p.push(seq![]));
            assert(q.drop_last() =~= p);
            assert(p =~= p.drop_last().push(p.last()));
            assert(out@ =~= old_out.push(line));
            assert(out@.map_values(|l: String| l@) =~= old_out.map_values(|l: String| l@).push(
                line@,
            ));
            assert(p.map_values(|l: Seq<char>| drop_cr(l)) =~= p.drop_last().map_values(
                |l: Seq<char>| drop_cr(l),
            ).push(drop_cr(p.last())));
            assert(out@.map_values(|l: String| l@) =~= newline_pieces(s@.take(i + 1)).drop_last().map_values(
                |l: Seq<char>| drop_cr(l),
            ));
        } else {
            cur.append(s.substring_char(i, i + 1));
            assert(newline_pieces(s@.take(i + 1)).drop_last() =~= p.drop_last());
            assert(cur@ =~= p.last().push(c));
        }
        i = i + 1;
    }
    assert(s@ =~= s@.take(n as int));
    if cur.as_str().unicode_len() > 0 {
        let ghost before = out@;
        out.push(cur);
        assert(out@.map_values(|l: String| l@) =~= before.map_values(|l: String| l@).push(
            newline_pieces(s@).last(),
        ));
    }
    out
}

} // verus!
