//! Plain text operations that the exporter and the editor build on: decimal
//! numbers, Lua string escaping, identifiers, whitespace trimming and lines.

use vstd::prelude::*;
use vstd::string::*;

verus! {

/// The decimal digits of `n`, as `Display` writes an unsigned integer.
pub open spec fn decimal(n: nat) -> Seq<char>
    decreases n,
{
    if n < 10 {
        seq![digit_char(n)]
    } else {
        decimal(n / 10).push(digit_char(n % 10))
    }
}

/// The character of a decimal digit.
pub open spec fn digit_char(d: nat) -> char {
    if d == 0 { '0' } else if d == 1 { '1' } else if d == 2 { '2' } else if d == 3 { '3' }
    else if d == 4 { '4' } else if d == 5 { '5' } else if d == 6 { '6' } else if d == 7 { '7' }
    else if d == 8 { '8' } else { '9' }
}

/// A decimal number has at least one digit, and at least two from ten on.
pub proof fn lemma_decimal_len(n: nat)
    ensures
        decimal(n).len() >= 1,
        n >= 10 ==> decimal(n).len() >= 2,
    decreases n,
{
    if n >= 10 {
        lemma_decimal_len(n / 10);
    }
}

/// Different numbers have different decimal digits.
pub proof fn lemma_decimal_injective(a: nat, b: nat)
    requires
        decimal(a) == decimal(b),
    ensures
        a == b,
    decreases a,
{
    lemma_decimal_len(a);
    lemma_decimal_len(b);
    if a < 10 && b < 10 {
        assert(decimal(a)[0] == digit_char(a));
        assert(decimal(b)[0] == digit_char(b));
    } else if a >= 10 && b >= 10 {
        let da = decimal(a);
        let db = decimal(b);
        assert(da.last() == digit_char(a % 10));
        assert(db.last() == digit_char(b % 10));
        assert(da.drop_last() =~= decimal(a / 10));
        assert(db.drop_last() =~= decimal(b / 10));
        lemma_decimal_injective(a / 10, b / 10);
    }
}

/// `String::push`: claimed to append the character to the text and change
/// nothing else.
#[verifier::external_body]
pub(crate) fn push_char(s: &mut String, c: char)
    ensures
        final(s)@ == old(s)@.push(c),
{
    s.push(c);
}

fn digit(d: u128) -> (c: char)
    requires
        d < 10,
    ensures
        c == digit_char(d as nat),
{
    if d == 0 { '0' } else if d == 1 { '1' } else if d == 2 { '2' } else if d == 3 { '3' }
    else if d == 4 { '4' } else if d == 5 { '5' } else if d == 6 { '6' } else if d == 7 { '7' }
    else if d == 8 { '8' } else { '9' }
}

/// Appends the decimal digits of `n` to `out`.
pub fn push_decimal(out: &mut String, n: u128)
    ensures
        final(out)@ == old(out)@ + decimal(n as nat),
    decreases n,
{
    if n < 10 {
        push_char(out, digit(n));
        assert(decimal(n as nat) == seq![digit_char(n as nat)]);
    } else {
        push_decimal(out, n / 10);
        push_char(out, digit(n % 10));
    }
}

/// Whether two strings hold the same characters.
pub fn str_eq(a: &str, b: &str) -> (r: bool)
    ensures
        r == (a@ == b@),
{
    let n = a.unicode_len();
    if n != b.unicode_len() {
        return false;
    }
    let mut i: usize = 0;
    while i < n
        invariant
            n == a@.len(),
            n == b@.len(),
            i <= n,
            forall|j: int| 0 <= j < i ==> a@[j] == b@[j],
        decreases n - i,
    {
        if a.get_char(i) != b.get_char(i) {
            return false;
        }
        i = i + 1;
    }
    assert(a@ =~= b@);
    true
}


/// The text of `s` with each backslash and each double quote escaped by a
/// backslash, as it must stand inside a double-quoted Lua string.
pub open spec fn escape_lua(s: Seq<char>) -> Seq<char>
    decreases s.len(),
{
    if s.len() == 0 {
        Seq::empty()
    } else {
        escape_lua(s.drop_last()) + escape_char(s.last())
    }
}

pub open spec fn escape_char(c: char) -> Seq<char> {
    if c == '\\' {
        seq!['\\', '\\']
    } else if c == '"' {
        seq!['\\', '"']
    } else {
        seq![c]
    }
}

/// Appends `s` escaped for a double-quoted Lua string to `out`.
pub fn push_escaped(out: &mut String, s: &str)
    ensures
        final(out)@ == old(out)@ + escape_lua(s@),
{
    let n = s.unicode_len();
    let mut i: usize = 0;
    while i < n
        invariant
            n == s@.len(),
            i <= n,
            out@ == old(out)@ + escape_lua(s@.subrange(0, i as int)),
        decreases n - i,
    {
        let c = s.get_char(i);
        assert(s@.subrange(0, i + 1).drop_last() =~= s@.subrange(0, i as int));
        if c == '\\' {
            push_char(out, '\\');
            push_char(out, '\\');
        } else if c == '"' {
            push_char(out, '\\');
            push_char(out, '"');
        } else {
            push_char(out, c);
        }
        assert(out@ =~= old(out)@ + escape_lua(s@.subrange(0, i + 1)));
        i = i + 1;
    }
    assert(s@.subrange(0, n as int) =~= s@);
}

/// `s` escaped for a double-quoted Lua string.
pub fn escape_lua_string(s: &str) -> (r: String)
    ensures
        r@ == escape_lua(s@),
{
    let mut r = String::new();
    push_escaped(&mut r, s);
    r
}

/// Whether `c` is an ASCII letter or digit.
pub open spec fn is_ascii_alnum(c: char) -> bool {
    ('0' <= c <= '9') || ('a' <= c <= 'z') || ('A' <= c <= 'Z')
}

pub open spec fn is_ascii_digit(c: char) -> bool {
    '0' <= c <= '9'
}

/// The reserved words of Lua.
pub open spec fn is_lua_keyword(s: Seq<char>) -> bool {
    ||| s == "and"@ ||| s == "break"@ ||| s == "do"@ ||| s == "else"@
    ||| s == "elseif"@ ||| s == "end"@ ||| s == "false"@ ||| s == "for"@
    ||| s == "function"@ ||| s == "goto"@ ||| s == "if"@ ||| s == "in"@
    ||| s == "local"@ ||| s == "nil"@ ||| s == "not"@ ||| s == "or"@
    ||| s == "repeat"@ ||| s == "return"@ ||| s == "then"@ ||| s == "true"@
    ||| s == "until"@ ||| s == "while"@
}

/// The reserved words of Lua are made of lower-case letters only.
pub proof fn lemma_keyword_letters(s: Seq<char>)
    requires
        is_lua_keyword(s),
    ensures
        forall|i: int| 0 <= i < s.len() ==> 'a' <= #[trigger] s[i] <= 'z',
{
    reveal_strlit("and");
    reveal_strlit("break");
    reveal_strlit("do");
    reveal_strlit("else");
    reveal_strlit("elseif");
    reveal_strlit("end");
    reveal_strlit("false");
    reveal_strlit("for");
    reveal_strlit("function");
    reveal_strlit("goto");
    reveal_strlit("if");
    reveal_strlit("in");
    reveal_strlit("local");
    reveal_strlit("nil");
    reveal_strlit("not");
    reveal_strlit("or");
    reveal_strlit("repeat");
    reveal_strlit("return");
    reveal_strlit("then");
    reveal_strlit("true");
    reveal_strlit("until");
    reveal_strlit("while");
}

/// Whether `s` can name a Lua local: a non-empty run of ASCII letters,
/// digits and underscores that does not start with a digit and is not a
/// reserved word.
pub open spec fn is_lua_local(s: Seq<char>) -> bool {
    &&& s.len() > 0
    &&& !is_ascii_digit(s[0])
    &&& forall|i: int| 0 <= i < s.len() ==> is_ascii_alnum(#[trigger] s[i]) || s[i] == '_'
    &&& !is_lua_keyword(s)
}

/// A text with an underscore is no reserved word.
pub proof fn lemma_underscore_not_keyword(s: Seq<char>, i: int)
    requires
        0 <= i < s.len(),
        s[i] == '_',
    ensures
        !is_lua_keyword(s),
{
    if is_lua_keyword(s) {
        lemma_keyword_letters(s);
        assert('a' <= s[i] <= 'z');
    }
}

/// Every element name becomes a name that a Lua local can have.
pub proof fn lemma_sanitize_var_local(name: Seq<char>)
    ensures
        is_lua_local(sanitize_var(name)),
{
    let s = identifier_chars(name);
    reveal_strlit("p_");
    if s.len() == 0 || is_ascii_digit(s[0]) || is_lua_keyword(s) {
        let r = "p_"@ + s;
        assert(r[1] == '_');
        lemma_underscore_not_keyword(r, 1);
        assert forall|i: int| 0 <= i < r.len() implies is_ascii_alnum(#[trigger] r[i]) || r[i] == '_' by {
            if i >= 2 {
                assert(r[i] == s[i - 2]);
            }
        }
    }
}

/// The digits of a decimal number are ASCII digits.
pub proof fn lemma_decimal_digits(n: nat)
    ensures
        forall|i: int| 0 <= i < decimal(n).len() ==> is_ascii_digit(#[trigger] decimal(n)[i]),
    decreases n,
{
    if n >= 10 {
        lemma_decimal_digits(n / 10);
        let d = decimal(n);
        assert forall|i: int| 0 <= i < d.len() implies is_ascii_digit(#[trigger] d[i]) by {
            if i < d.len() - 1 {
                assert(d[i] == decimal(n / 10)[i]);
            }
        }
    }
}

/// Whether `s` is one of the reserved words of Lua.
pub fn lua_keyword(s: &str) -> (r: bool)
    ensures
        r == is_lua_keyword(s@),
{
    str_eq(s, "and") || str_eq(s, "break") || str_eq(s, "do") || str_eq(s, "else")
        || str_eq(s, "elseif") || str_eq(s, "end") || str_eq(s, "false") || str_eq(s, "for")
        || str_eq(s, "function") || str_eq(s, "goto") || str_eq(s, "if") || str_eq(s, "in")
        || str_eq(s, "local") || str_eq(s, "nil") || str_eq(s, "not") || str_eq(s, "or")
        || str_eq(s, "repeat") || str_eq(s, "return") || str_eq(s, "then") || str_eq(s, "true")
        || str_eq(s, "until") || str_eq(s, "while")
}

/// `s` with every character that is not an ASCII letter, an ASCII digit or
/// an underscore replaced by an underscore.
pub open spec fn identifier_chars(s: Seq<char>) -> Seq<char> {
    s.map_values(|c: char| if is_ascii_alnum(c) || c == '_' { c } else { '_' })
}

/// The Lua local name for an element name: the name with its other
/// characters replaced by underscores, prefixed by `p_` when that is empty,
/// starts with a digit or is a reserved word.
pub open spec fn sanitize_var(name: Seq<char>) -> Seq<char> {
    let s = identifier_chars(name);
    if s.len() == 0 || is_ascii_digit(s[0]) || is_lua_keyword(s) {
        "p_"@ + s
    } else {
        s
    }
}

/// The Lua local name for an element name (see `sanitize_var`).
pub fn sanitize_var_name(name: &str) -> (r: String)
    ensures
        r@ == sanitize_var(name@),
{
    let n = name.unicode_len();
    let mut s = String::new();
    let mut i: usize = 0;
    while i < n
        invariant
            n == name@.len(),
            i <= n,
            s@ == identifier_chars(name@.subrange(0, i as int)),
        decreases n - i,
    {
        let c = name.get_char(i);
        let m = if ('0' <= c && c <= '9') || ('a' <= c && c <= 'z') || ('A' <= c && c <= 'Z') || c == '_' {
            c
        } else {
            '_'
        };
        push_char(&mut s, m);
        assert(s@ =~= identifier_chars(name@.subrange(0, i + 1)));
        i = i + 1;
    }
    assert(name@.subrange(0, n as int) =~= name@);
    let len = s.as_str().unicode_len();
    let needs_prefix = if len == 0 {
        true
    } else {
        let first = s.as_str().get_char(0);
        ('0' <= first && first <= '9') || lua_keyword(s.as_str())
    };
    if needs_prefix {
        let mut r = String::from_str("p_");
        r.append(s.as_str());
        r
    } else {
        s
    }
}

/// Whether `c` has the Unicode `White_Space` property (`char::is_whitespace`).
pub open spec fn is_whitespace(c: char) -> bool {
    ||| ('\u{9}' <= c <= '\u{d}')
    ||| c == ' ' ||| c == '\u{85}' ||| c == '\u{a0}' ||| c == '\u{1680}'
    ||| ('\u{2000}' <= c <= '\u{200a}')
    ||| c == '\u{2028}' ||| c == '\u{2029}' ||| c == '\u{202f}' ||| c == '\u{205f}'
    ||| c == '\u{3000}'
}

fn whitespace(c: char) -> (r: bool)
    ensures
        r == is_whitespace(c),
{
    ('\u{9}' <= c && c <= '\u{d}') || c == ' ' || c == '\u{85}' || c == '\u{a0}'
        || c == '\u{1680}' || ('\u{2000}' <= c && c <= '\u{200a}') || c == '\u{2028}'
        || c == '\u{2029}' || c == '\u{202f}' || c == '\u{205f}' || c == '\u{3000}'
}

/// The index of the first character of `s` at or after `i` that is not
/// whitespace, or the length of `s`.
pub open spec fn first_kept(s: Seq<char>, i: int) -> int
    decreases s.len() - i,
{
    if i >= s.len() {
        s.len() as int
    } else if is_whitespace(s[i]) {
        first_kept(s, i + 1)
    } else {
        i
    }
}

/// One past the index of the last character of `s` before `j` that is not
/// whitespace, or `lo` when there is none at or after `lo`.
pub open spec fn last_kept(s: Seq<char>, lo: int, j: int) -> int
    decreases j - lo,
{
    if j <= lo {
        lo
    } else if is_whitespace(s[j - 1]) {
        last_kept(s, lo, j - 1)
    } else {
        j
    }
}

/// `s` without its leading and trailing whitespace (`str::trim`).
pub open spec fn trim(s: Seq<char>) -> Seq<char> {
    let lo = first_kept(s, 0);
    s.subrange(lo, last_kept(s, lo, s.len() as int))
}

/// `s` without its leading and trailing whitespace (`str::trim`).
pub fn trimmed(s: &str) -> (r: String)
    ensures
        r@ == trim(s@),
{
    let n = s.unicode_len();
    let mut lo: usize = 0;
    while lo < n && whitespace(s.get_char(lo))
        invariant
            n == s@.len(),
            lo <= n,
            first_kept(s@, lo as int) == first_kept(s@, 0),
        decreases n - lo,
    {
        lo = lo + 1;
    }
    let mut hi: usize = n;
    while hi > lo && whitespace(s.get_char(hi - 1))
        invariant
            n == s@.len(),
            lo <= hi <= n,
            lo == first_kept(s@, 0),
            last_kept(s@, lo as int, hi as int) == last_kept(s@, lo as int, n as int),
        decreases hi - lo,
    {
        hi = hi - 1;
    }
    let mut r = String::new();
    let mut i = lo;
    while i < hi
        invariant
            n == s@.len(),
            lo <= i <= hi <= n,
            r@ == s@.subrange(lo as int, i as int),
        decreases hi - i,
    {
        push_char(&mut r, s.get_char(i));
        assert(r@ =~= s@.subrange(lo as int, i + 1));
        i = i + 1;
    }
    r
}

/// The index of the first line feed of `s` at or after `i`, or the length of `s`.
pub open spec fn next_newline(s: Seq<char>, i: int) -> int
    decreases s.len() - i,
{
    if i >= s.len() {
        s.len() as int
    } else if s[i] == '\n' {
        i
    } else {
        next_newline(s, i + 1)
    }
}

/// A line without the carriage return that preceded its line feed.
pub open spec fn strip_cr(line: Seq<char>) -> Seq<char> {
    if line.len() > 0 && line.last() == '\r' {
        line.drop_last()
    } else {
        line
    }
}

/// The lines of `s` from index `i` on, as `str::lines` splits them: at each
/// line feed, and at each carriage return followed by a line feed, with no
/// empty line after a final line feed.
pub open spec fn lines_from(s: Seq<char>, i: int) -> Seq<Seq<char>>
    decreases s.len() - i,
{
    if i < 0 || i >= s.len() {
        Seq::empty()
    } else {
        let j = next_newline(s, i);
        proof {
            lemma_next_newline(s, i);
        }
        if j < s.len() {
            seq![strip_cr(s.subrange(i, j))] + lines_from(s, j + 1)
        } else {
            seq![s.subrange(i, j)]
        }
    }
}

/// The lines of `s` (`str::lines`).
pub open spec fn lines(s: Seq<char>) -> Seq<Seq<char>> {
    lines_from(s, 0)
}

/// Each line preceded by `indent` and followed by a line feed.
pub open spec fn indented(indent: Seq<char>, lines: Seq<Seq<char>>) -> Seq<char>
    decreases lines.len(),
{
    if lines.len() == 0 {
        Seq::empty()
    } else {
        indent + lines[0] + "\n"@ + indented(indent, lines.drop_first())
    }
}

pub proof fn lemma_next_newline(s: Seq<char>, i: int)
    requires
        0 <= i <= s.len(),
    ensures
        i <= next_newline(s, i) <= s.len(),
        forall|k: int| i <= k < next_newline(s, i) ==> s[k] != '\n',
        next_newline(s, i) < s.len() ==> s[next_newline(s, i)] == '\n',
    decreases s.len() - i,
{
    if i < s.len() && s[i] != '\n' {
        lemma_next_newline(s, i + 1);
    }
}

/// Appends each line of `code`, preceded by `indent` and followed by a line
/// feed, to `out`.
pub fn push_indented_lines(out: &mut String, indent: &str, code: &str)
    ensures
        final(out)@ == old(out)@ + indented(indent@, lines(code@)),
{
    let n = code.unicode_len();
    let mut i: usize = 0;
    while i < n
        invariant
            n == code@.len(),
            i <= n,
            old(out)@ + indented(indent@, lines(code@)) == out@ + indented(indent@, lines_from(code@, i as int)),
        decreases n - i,
    {
        let ghost s = code@;
        let mut j = i;
        while j < n && code.get_char(j) != '\n'
            invariant
                n == s.len(),
                i <= j <= n,
                s == code@,
                next_newline(s, j as int) == next_newline(s, i as int),
            decreases n - j,
        {
            j = j + 1;
        }
        proof { lemma_next_newline(s, i as int); }
        let mut end = j;
        if j < n && end > i && code.get_char(end - 1) == '\r' {
            end = end - 1;
        }
        let ghost line = if j < n { strip_cr(s.subrange(i as int, j as int)) } else { s.subrange(i as int, j as int) };
        assert(line =~= s.subrange(i as int, end as int));
        out.append(indent);
        let mut k = i;
        let ghost before = out@;
        while k < end
            invariant
                n == s.len(),
                s == code@,
                i <= k <= end <= n,
                out@ == before + s.subrange(i as int, k as int),
            decreases end - k,
        {
            push_char(out, code.get_char(k));
            assert(out@ =~= before + s.subrange(i as int, k + 1));
            k = k + 1;
        }
        out.append("\n");
        let ghost rest = if j < n { lines_from(s, j + 1) } else { Seq::empty() };
        assert(lines_from(s, i as int) =~= seq![line] + rest);
        assert(indented(indent@, seq![line] + rest) =~= indent@ + line + "\n"@ + indented(indent@, rest)) by {
            assert((seq![line] + rest).drop_first() =~= rest);
        }
        if j < n {
            i = j + 1;
        } else {
            i = n;
        }
    }
}

/// Concatenation regroups to the left.
/// The text without the copies of `c` at its start.
pub open spec fn strip_leading(s: Seq<char>, c: char) -> Seq<char>
    decreases s.len(),
{
    if s.len() > 0 && s[0] == c {
        strip_leading(s.drop_first(), c)
    } else {
        s
    }
}

proof fn lemma_strip_leading(s: Seq<char>, c: char, i: int)
    requires
        0 <= i <= s.len(),
        forall|j: int| 0 <= j < i ==> s[j] == c,
        i == s.len() || s[i] != c,
    ensures
        strip_leading(s, c) == s.subrange(i, s.len() as int),
    decreases i,
{
    if i == 0 {
        assert(s.subrange(0, s.len() as int) =~= s);
    } else {
        let t = s.drop_first();
        assert forall|j: int| 0 <= j < i - 1 implies t[j] == c by {
            assert(t[j] == s[j + 1]);
        }
        lemma_strip_leading(t, c, i - 1);
        assert(t.subrange(i - 1, t.len() as int) =~= s.subrange(i, s.len() as int));
    }
}

/// `s` without the copies of `c` at its start (`str::trim_start_matches`
/// with one character).
pub fn trim_start_char(s: &str, c: char) -> (r: String)
    ensures
        r@ == strip_leading(s@, c),
{
    let n = s.unicode_len();
    let mut i: usize = 0;
    while i < n && s.get_char(i) == c
        invariant
            n == s@.len(),
            i <= n,
            forall|j: int| 0 <= j < i ==> s@[j] == c,
        decreases n - i,
    {
        i = i + 1;
    }
    proof { lemma_strip_leading(s@, c, i as int); }
    let mut r = String::new();
    let start = i;
    while i < n
        invariant
            n == s@.len(),
            start <= i <= n,
            r@ == s@.subrange(start as int, i as int),
        decreases n - i,
    {
        push_char(&mut r, s.get_char(i));
        assert(r@ =~= s@.subrange(start as int, i + 1));
        i = i + 1;
    }
    r
}

/// The text without any copy of `c`.
pub open spec fn without_char(s: Seq<char>, c: char) -> Seq<char>
    decreases s.len(),
{
    if s.len() == 0 {
        Seq::empty()
    } else {
        let rest = without_char(s.drop_last(), c);
        if s.last() == c { rest } else { rest.push(s.last()) }
    }
}

/// `s` without any copy of `c` (`str::replace` of `c` by nothing).
pub fn remove_char(s: &str, c: char) -> (r: String)
    ensures
        r@ == without_char(s@, c),
{
    let n = s.unicode_len();
    let mut r = String::new();
    let mut i: usize = 0;
    while i < n
        invariant
            n == s@.len(),
            i <= n,
            r@ == without_char(s@.subrange(0, i as int), c),
        decreases n - i,
    {
        assert(s@.subrange(0, i + 1).drop_last() =~= s@.subrange(0, i as int));
        let ch = s.get_char(i);
        if ch != c {
            push_char(&mut r, ch);
        }
        i = i + 1;
    }
    assert(s@.subrange(0, n as int) =~= s@);
    r
}

pub broadcast proof fn lemma_add_assoc(a: Seq<char>, b: Seq<char>, c: Seq<char>)
    ensures
        #[trigger] (a + (b + c)) == (a + b) + c,
{
    assert(a + (b + c) =~= (a + b) + c);
}

pub broadcast group group_text {
    lemma_add_assoc,
}


} // verus!
