//! Shared text helpers: separator joining, backtick quoting,
//! pluralization, and the line-indentation rule used for long help text.

use vstd::prelude::*;
use vstd::string::StrSliceExecFns;
use vstd::string::StringExecFns;

verus! {

/// Relies on String::push: appends one character at the end.
#[verifier::external_body]
pub(crate) fn push_char(s: &mut String, c: char)
    ensures
        final(s)@ == old(s)@ + seq![c],
{
    s.push(c);
}

/// The parts joined with the separator between neighbours.
pub open spec fn spec_join(parts: Seq<Seq<char>>, sep: Seq<char>) -> Seq<char>
    decreases parts.len(),
{
    if parts.len() == 0 {
        Seq::empty()
    } else if parts.len() == 1 {
        parts[0]
    } else {
        parts[0] + sep + spec_join(parts.drop_first(), sep)
    }
}

/// Joining one more part at the end appends a separator (when anything
/// was joined before) and the part.
pub proof fn lemma_join_push(parts: Seq<Seq<char>>, sep: Seq<char>, x: Seq<char>)
    ensures
        parts.len() == 0 ==> spec_join(parts.push(x), sep) == x,
        parts.len() > 0 ==> spec_join(parts.push(x), sep) == spec_join(parts, sep) + sep + x,
    decreases parts.len(),
{
    if parts.len() == 0 {
        assert(parts.push(x).len() == 1);
        assert(spec_join(parts.push(x), sep) == parts.push(x)[0]);
    } else if parts.len() == 1 {
        assert(parts.push(x).drop_first() =~= seq![x]);
        assert(spec_join(seq![x], sep) == x);
        assert(spec_join(parts.push(x), sep) == parts[0] + sep + x);
    } else {
        lemma_join_push(parts.drop_first(), sep, x);
        assert(parts.push(x).drop_first() =~= parts.drop_first().push(x));
        assert(parts[0] + sep + (spec_join(parts.drop_first(), sep) + sep + x) =~= (parts[0]
            + sep + spec_join(parts.drop_first(), sep)) + sep + x);
    }
}

/// Join the parts with the separator between neighbours.
pub fn join_strings(parts: &Vec<String>, sep: &str) -> (r: String)
    ensures
        r@ == spec_join(parts.deep_view(), sep@),
{
    let mut r = String::new();
    let mut i: usize = 0;
    while i < parts.len()
        invariant
            i <= parts.len(),
            r@ == spec_join(parts.deep_view().take(i as int), sep@),
        decreases parts.len() - i,
    {
        if i > 0 {
            r.append(sep);
        }
        r.append(parts[i].as_str());
        proof {
            let pv = parts.deep_view();
            assert(pv.take(i + 1) =~= pv.take(i as int).push(pv[i as int]));
            lemma_join_push(pv.take(i as int), sep@, pv[i as int]);
            if i == 0 {
                assert(Seq::<char>::empty() + pv[0] =~= pv[0]);
            }
        }
        i += 1;
    }
    proof {
        assert(parts.deep_view().take(parts.len() as int) =~= parts.deep_view());
    }
    r
}

/// The text wrapped in backticks.
pub open spec fn spec_quote(s: Seq<char>) -> Seq<char> {
    "`"@ + s + "`"@
}

/// Each item backtick-quoted, comma-joined.
pub open spec fn spec_quoted_list(items: Seq<Seq<char>>) -> Seq<char> {
    spec_join(items.map(|i: int, s: Seq<char>| spec_quote(s)), ", "@)
}

/// Wrap the text in backticks.
pub fn quote(s: &str) -> (r: String)
    ensures
        r@ == spec_quote(s@),
{
    let mut r = "`".to_owned();
    r.append(s);
    r.append("`");
    r
}

/// Each item backtick-quoted, comma-joined.
pub fn quoted_list(items: &Vec<String>) -> (r: String)
    ensures
        r@ == spec_quoted_list(items.deep_view()),
{
    let mut quoted: Vec<String> = Vec::new();
    let mut i: usize = 0;
    while i < items.len()
        invariant
            i <= items.len(),
            quoted.deep_view() =~= items.deep_view().take(i as int).map(
                |j: int, s: Seq<char>| spec_quote(s),
            ),
        decreases items.len() - i,
    {
        quoted.push(quote(items[i].as_str()));
        proof {
            let iv = items.deep_view();
            assert(iv.take(i + 1) =~= iv.take(i as int).push(iv[i as int]));
            assert(iv.take(i + 1).map(|j: int, s: Seq<char>| spec_quote(s)) =~= iv.take(
                i as int,
            ).map(|j: int, s: Seq<char>| spec_quote(s)).push(spec_quote(iv[i as int])));
        }
        i += 1;
    }
    proof {
        assert(items.deep_view().take(items.len() as int) =~= items.deep_view());
    }
    join_strings(&quoted, ", ")
}

/// The singular label for a count of one, the plural label otherwise.
pub open spec fn spec_pluralize(count: nat, singular: Seq<char>, plural: Seq<char>) -> Seq<char> {
    if count == 1 {
        singular
    } else {
        plural
    }
}

/// Pick the singular label for a count of one, the plural label otherwise.
pub fn pluralize<'a>(count: usize, singular: &'a str, plural: &'a str) -> (r: &'a str)
    ensures
        r@ == spec_pluralize(count as nat, singular@, plural@),
{
    if count == 1 {
        singular
    } else {
        plural
    }
}

/// The comma-joined backtick-quoted aliases, when any exist.
pub open spec fn spec_alias_string(aliases: Seq<Seq<char>>) -> Option<Seq<char>> {
    if aliases.len() == 0 {
        None
    } else {
        Some(spec_quoted_list(aliases))
    }
}

/// Render the alias list: `None` when no alias exists, else each alias
/// backtick-quoted and comma-joined.
pub fn get_alias_string(aliases: &Vec<String>) -> (r: Option<String>)
    ensures
        r is Some <==> aliases@.len() > 0,
        r is Some ==> Some(r->0@) == spec_alias_string(aliases.deep_view()),
{
    if aliases.len() == 0 {
        None
    } else {
        Some(quoted_list(aliases))
    }
}

/// The character with a lower-case ASCII letter mapped to its upper-case
/// counterpart; every other character is kept.
pub open spec fn spec_upper_char(c: char) -> char {
    if 'a' <= c && c <= 'z' {
        ((c as u8) - 32) as char
    } else {
        c
    }
}

/// The text with every lower-case ASCII letter upper-cased.
pub open spec fn spec_upper(s: Seq<char>) -> Seq<char> {
    s.map(|i: int, c: char| spec_upper_char(c))
}

/// Upper-case every lower-case ASCII letter of the text.
pub fn ascii_uppercase(s: &str) -> (r: String)
    ensures
        r@ == spec_upper(s@),
{
    let n = s.unicode_len();
    let mut r = String::new();
    let mut i: usize = 0;
    while i < n
        invariant
            i <= n,
            n == s@.len(),
            r@ =~= spec_upper(s@).take(i as int),
        decreases n - i,
    {
        let c = s.get_char(i);
        let u = if c >= 'a' && c <= 'z' {
            ((c as u8) - 32) as char
        } else {
            c
        };
        push_char(&mut r, u);
        proof {
            assert(spec_upper(s@).take(i + 1) =~= spec_upper(s@).take(i as int) + seq![
                spec_upper_char(s@[i as int]),
            ]);
        }
        i += 1;
    }
    proof {
        assert(spec_upper(s@).take(n as int) =~= spec_upper(s@));
    }
    r
}

/// The index of the first newline of the text, or its length when it has
/// none.
pub open spec fn first_nl(s: Seq<char>) -> int
    decreases s.len(),
{
    if s.len() == 0 {
        0
    } else if s[0] == '\n' {
        0
    } else {
        1 + first_nl(s.drop_first())
    }
}

/// The first-newline index is in bounds, points at a newline when one
/// exists, and nothing before it is a newline.
pub proof fn lemma_first_nl(s: Seq<char>)
    ensures
        0 <= first_nl(s) <= s.len(),
        first_nl(s) < s.len() ==> s[first_nl(s)] == '\n',
        forall|k: int| 0 <= k < first_nl(s) ==> s[k] != '\n',
    decreases s.len(),
{
    if s.len() > 0 && s[0] != '\n' {
        lemma_first_nl(s.drop_first());
        assert(forall|k: int|
            1 <= k < first_nl(s) ==> s[k] == s.drop_first()[k - 1] && s.drop_first()[k - 1]
                != '\n');
    }
}

/// A position with no newline before it, and a newline (or the end) at
/// it, is the first-newline index.
pub proof fn lemma_first_nl_at(s: Seq<char>, j: int)
    requires
        0 <= j <= s.len(),
        forall|k: int| 0 <= k < j ==> s[k] != '\n',
        j < s.len() ==> s[j] == '\n',
    ensures
        first_nl(s) == j,
    decreases s.len(),
{
    if s.len() == 0 {
    } else if s[0] == '\n' {
        assert(j == 0);
    } else {
        assert(j >= 1);
        assert(forall|k: int| 0 <= k < j - 1 ==> s.drop_first()[k] == s[k + 1] && s[k + 1] != '\n');
        lemma_first_nl_at(s.drop_first(), j - 1);
    }
}

/// The line with one trailing carriage return removed, when it ends with
/// one.
pub open spec fn strip_cr(l: Seq<char>) -> Seq<char> {
    if l.len() > 0 && l[l.len() - 1] == '\r' {
        l.drop_last()
    } else {
        l
    }
}

/// The lines of the text: split at newlines, each line's trailing
/// carriage return removed when the line was ended by a newline, a
/// trailing newline opening no further line.
pub open spec fn spec_lines(s: Seq<char>) -> Seq<Seq<char>>
    decreases s.len(),
    via spec_lines_decreases
{
    if s.len() == 0 {
        Seq::empty()
    } else {
        let i = first_nl(s);
        if i >= s.len() {
            seq![s]
        } else {
            seq![strip_cr(s.take(i))] + spec_lines(s.skip(i + 1))
        }
    }
}

#[via_fn]
proof fn spec_lines_decreases(s: Seq<char>) {
    lemma_first_nl(s);
}

/// Find the first newline of the text, or its length when it has none.
fn find_newline(s: &str) -> (i: usize)
    ensures
        i as int == first_nl(s@),
        i <= s@.len(),
{
    let n = s.unicode_len();
    let mut i: usize = 0;
    while i < n && s.get_char(i) != '\n'
        invariant
            i <= n,
            n == s@.len(),
            forall|k: int| 0 <= k < i ==> s@[k] != '\n',
        decreases n - i,
    {
        i += 1;
    }
    proof {
        lemma_first_nl_at(s@, i as int);
    }
    i
}

/// Split the text into its lines.
pub fn split_lines(s: &str) -> (r: Vec<String>)
    ensures
        r.deep_view() == spec_lines(s@),
    decreases s@.len(),
{
    let n = s.unicode_len();
    if n == 0 {
        let r: Vec<String> = Vec::new();
        proof {
            assert(r.deep_view() =~= spec_lines(s@));
        }
        return r;
    }
    let i = find_newline(s);
    proof {
        lemma_first_nl(s@);
    }
    if i >= n {
        let mut r: Vec<String> = Vec::new();
        r.push(s.to_owned());
        proof {
            assert(r.deep_view() =~= spec_lines(s@));
        }
        r
    } else {
        let head = if i > 0 && s.get_char(i - 1) == '\r' {
            s.substring_char(0, i - 1)
        } else {
            s.substring_char(0, i)
        };
        proof {
            if i > 0 && s@[i - 1] == '\r' {
                assert(head@ =~= strip_cr(s@.take(i as int)));
            } else {
                assert(head@ =~= strip_cr(s@.take(i as int)));
            }
        }
        let tail = s.substring_char(i + 1, n);
        proof {
            assert(tail@ =~= s@.skip(i + 1));
        }
        let mut r = split_lines(tail);
        r.insert(0, head.to_owned());
        proof {
            assert(r.deep_view() =~= seq![strip_cr(s@.take(first_nl(s@)))] + spec_lines(
                s@.skip(first_nl(s@) + 1),
            ));
        }
        r
    }
}

/// The lines rendered one after the other: a blank line stays a bare
/// newline; the first non-blank line gets the first lead, every later
/// non-blank line the rest lead; every line is closed with a newline.
pub open spec fn spec_indent_lines(
    lines: Seq<Seq<char>>,
    first: Seq<char>,
    rest: Seq<char>,
    lead_pending: bool,
) -> Seq<char>
    decreases lines.len(),
{
    if lines.len() == 0 {
        Seq::empty()
    } else if lines[0].len() == 0 {
        seq!['\n'] + spec_indent_lines(lines.drop_first(), first, rest, lead_pending)
    } else {
        (if lead_pending {
            first
        } else {
            rest
        }) + lines[0] + seq!['\n'] + spec_indent_lines(lines.drop_first(), first, rest, false)
    }
}

/// The indentation rule for help text: empty input is a single newline;
/// otherwise the input's lines, each non-blank line prefixed by the first
/// lead (first non-blank line) or the rest lead (all later ones), blank
/// lines kept bare, and a newline closing every line.
pub open spec fn spec_indent(s: Seq<char>, first: Seq<char>, rest: Seq<char>) -> Seq<char> {
    if s.len() == 0 {
        seq!['\n']
    } else {
        spec_indent_lines(spec_lines(s), first, rest, true)
    }
}

/// Indent the non-blank lines of the text: the first lead before the
/// first non-blank line, the rest lead before every later one.  The
/// output always ends with a newline.
pub fn indent(s: &str, first: &str, rest: &str) -> (r: String)
    ensures
        r@ == spec_indent(s@, first@, rest@),
{
    if s.is_empty() {
        proof {
            reveal_strlit("\n");
        }
        return "\n".to_owned();
    }
    let lines = split_lines(s);
    let mut r = String::new();
    let mut lead_pending = true;
    let mut i: usize = 0;
    proof {
        reveal_strlit("\n");
        assert(lines.deep_view().skip(0) =~= lines.deep_view());
        assert(Seq::<char>::empty() + spec_indent_lines(lines.deep_view(), first@, rest@, true)
            =~= spec_indent_lines(lines.deep_view(), first@, rest@, true));
    }
    while i < lines.len()
        invariant
            i <= lines.len(),
            "\n"@ == seq!['\n'],
            r@ + spec_indent_lines(lines.deep_view().skip(i as int), first@, rest@, lead_pending)
                =~= spec_indent_lines(lines.deep_view(), first@, rest@, true),
        decreases lines.len() - i,
    {
        proof {
            assert(lines.deep_view().skip(i as int).drop_first() =~= lines.deep_view().skip(
                i + 1,
            ));
            assert(lines.deep_view().skip(i as int)[0] == lines@[i as int]@);
        }
        let line = &lines[i];
        if !line.as_str().is_empty() {
            if lead_pending {
                r.append(first);
            } else {
                r.append(rest);
            }
            r.append(line.as_str());
            lead_pending = false;
        }
        r.append("\n");
        i += 1;
    }
    proof {
        assert(lines.deep_view().skip(lines@.len() as int) =~= Seq::<Seq<char>>::empty());
        assert(r@ =~= spec_indent_lines(lines.deep_view(), first@, rest@, true));
    }
    r
}

} // verus!
