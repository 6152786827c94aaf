//! Character-level text operations shared by the SQL generators and the
//! connection forms, each stated over `Seq<char>`.
use vstd::prelude::*;

verus! {

// ---------------------------------------------------------------------------
// Specifications
// ---------------------------------------------------------------------------

/// Unicode `White_Space`, the set that `char::is_whitespace` tests.
pub open spec fn is_ws(c: char) -> bool {
    let u = c as u32;
    ||| 9 <= u <= 13
    ||| u == 32
    ||| u == 0x85
    ||| u == 0xA0
    ||| u == 0x1680
    ||| 0x2000 <= u <= 0x200A
    ||| u == 0x2028
    ||| u == 0x2029
    ||| u == 0x202F
    ||| u == 0x205F
    ||| u == 0x3000
}

/// The text with its leading white space removed.
pub open spec fn trim_start(s: Seq<char>) -> Seq<char>
    decreases s.len(),
{
    if s.len() > 0 && is_ws(s[0]) {
        trim_start(s.drop_first())
    } else {
        s
    }
}

/// The text with its trailing white space removed.
pub open spec fn trim_end(s: Seq<char>) -> Seq<char>
    decreases s.len(),
{
    if s.len() > 0 && is_ws(s.last()) {
        trim_end(s.drop_last())
    } else {
        s
    }
}

/// The text with white space removed at both ends, as `str::trim` does.
pub open spec fn trim(s: Seq<char>) -> Seq<char> {
    trim_end(trim_start(s))
}

/// ASCII lower-casing of one character; other characters are unchanged.
pub open spec fn ascii_lower(c: char) -> char {
    if 'A' <= c <= 'Z' {
        ((c as u32) + 32) as char
    } else {
        c
    }
}

/// ASCII upper-casing of one character; other characters are unchanged.
pub open spec fn ascii_upper(c: char) -> char {
    if 'a' <= c <= 'z' {
        ((c as u32) - 32) as char
    } else {
        c
    }
}

/// ASCII lower-casing of a text.
pub open spec fn lower(s: Seq<char>) -> Seq<char> {
    s.map_values(|c: char| ascii_lower(c))
}

/// ASCII upper-casing of a text.
pub open spec fn upper(s: Seq<char>) -> Seq<char> {
    s.map_values(|c: char| ascii_upper(c))
}

/// Equality up to ASCII case, as `str::eq_ignore_ascii_case`.
pub open spec fn eq_ci(a: Seq<char>, b: Seq<char>) -> bool {
    lower(a) == lower(b)
}

/// Every occurrence of `from` replaced by the text `to`.
pub open spec fn replace(s: Seq<char>, from: char, to: Seq<char>) -> Seq<char>
    decreases s.len(),
{
    if s.len() == 0 {
        s
    } else {
        replace(s.drop_last(), from, to) + (if s.last() == from {
            to
        } else {
            seq![s.last()]
        })
    }
}

/// The pieces between occurrences of `sep`, as `str::split` with a `char`.
pub open spec fn split(s: Seq<char>, sep: char) -> Seq<Seq<char>>
    decreases s.len(),
{
    if s.len() == 0 {
        seq![Seq::<char>::empty()]
    } else {
        let rest = split(s.drop_last(), sep);
        if s.last() == sep {
            rest.push(Seq::<char>::empty())
        } else {
            rest.update(rest.len() - 1, rest.last().push(s.last()))
        }
    }
}

/// The pieces joined with `sep` between neighbours.
pub open spec fn join(parts: Seq<Seq<char>>, sep: Seq<char>) -> Seq<char>
    decreases parts.len(),
{
    if parts.len() == 0 {
        Seq::<char>::empty()
    } else if parts.len() == 1 {
        parts[0]
    } else {
        join(parts.drop_last(), sep) + sep + parts.last()
    }
}

/// `needle` occurs in `hay` at `i`.
pub open spec fn occurs_at(hay: Seq<char>, needle: Seq<char>, i: int) -> bool {
    0 <= i && i + needle.len() <= hay.len() && hay.subrange(i, i + needle.len()) == needle
}

/// `needle` occurs somewhere in `hay`, as `str::contains`.
pub open spec fn contains(hay: Seq<char>, needle: Seq<char>) -> bool {
    exists|i: int| occurs_at(hay, needle, i)
}

/// `prefix` begins `s`, as `str::starts_with`.
pub open spec fn starts_with(s: Seq<char>, prefix: Seq<char>) -> bool {
    prefix.len() <= s.len() && s.subrange(0, prefix.len() as int) == prefix
}

/// `suffix` ends `s`, as `str::ends_with`.
pub open spec fn ends_with(s: Seq<char>, suffix: Seq<char>) -> bool {
    suffix.len() <= s.len() && s.subrange(s.len() - suffix.len(), s.len() as int) == suffix
}

/// The text in Unicode upper case, as `str::to_uppercase` gives it.
pub uninterp spec fn unicode_upper(s: Seq<char>) -> Seq<char>;

/// Every character of the text is ASCII.
pub open spec fn ascii_text(s: Seq<char>) -> bool {
    forall|i: int| 0 <= i < s.len() ==> (s[i] as u32) < 128
}

/// The character of one decimal digit.
pub open spec fn digit_char(d: nat) -> char {
    (('0' as u32) + d) as char
}

/// The decimal notation of a natural number.
pub open spec fn decimal(n: nat) -> Seq<char>
    decreases n,
{
    if n < 10 {
        seq![digit_char(n)]
    } else {
        decimal(n / 10).push(digit_char(n % 10))
    }
}

/// The value of a run of ASCII digits; `None` when a character is no digit.
pub open spec fn digits_value(s: Seq<char>) -> Option<nat>
    decreases s.len(),
{
    if s.len() == 0 {
        Some(0)
    } else {
        match digits_value(s.drop_last()) {
            Some(v) => if '0' <= s.last() <= '9' {
                Some(v * 10 + ((s.last() as u32) - ('0' as u32)) as nat)
            } else {
                None
            },
            None => None,
        }
    }
}

/// The value of an unsigned decimal as `str::parse` reads it: an optional `+`,
/// then at least one ASCII digit, and a value not above `max`.
pub open spec fn parse_unsigned(s: Seq<char>, max: nat) -> Option<nat> {
    let digits = if s.len() > 0 && s[0] == '+' {
        s.drop_first()
    } else {
        s
    };
    if digits.len() == 0 {
        None
    } else {
        match digits_value(digits) {
            Some(v) => if v <= max {
                Some(v)
            } else {
                None
            },
            None => None,
        }
    }
}

/// The views of a list of strings.
pub open spec fn views(v: Seq<String>) -> Seq<Seq<char>> {
    v.map_values(|s: String| s@)
}

// ---------------------------------------------------------------------------
// Lemmas
// ---------------------------------------------------------------------------

/// Leading white space dropped from `s[i..]` gives `trim_start(s)`.
pub proof fn lemma_trim_start_skip(s: Seq<char>, i: int)
    requires
        0 <= i <= s.len(),
        forall|j: int| 0 <= j < i ==> is_ws(#[trigger] s[j]),
    ensures
        trim_start(s) == trim_start(s.subrange(i, s.len() as int)),
    decreases i,
{
    if i > 0 {
        assert(s.drop_first() == s.subrange(1, s.len() as int));
        let t = s.drop_first();
        assert forall|j: int| 0 <= j < i - 1 implies is_ws(#[trigger] t[j]) by {
            assert(t[j] == s[j + 1]);
        }
        lemma_trim_start_skip(t, i - 1);
        assert(t.subrange(i - 1, t.len() as int) == s.subrange(i, s.len() as int));
    } else {
        assert(s.subrange(0, s.len() as int) == s);
    }
}

/// Trailing white space dropped from `s[..i]` gives `trim_end(s)`.
proof fn lemma_trim_end_take(s: Seq<char>, i: int)
    requires
        0 <= i <= s.len(),
        forall|j: int| i <= j < s.len() ==> is_ws(#[trigger] s[j]),
    ensures
        trim_end(s) == trim_end(s.subrange(0, i)),
    decreases s.len() - i,
{
    if i < s.len() {
        let t = s.drop_last();
        assert forall|j: int| i <= j < t.len() implies is_ws(#[trigger] t[j]) by {
            assert(t[j] == s[j]);
        }
        assert(is_ws(s[s.len() - 1]));
        lemma_trim_end_take(t, i);
        assert(t.subrange(0, i) == s.subrange(0, i));
    } else {
        assert(s.subrange(0, s.len() as int) == s);
    }
}

/// `trim_end` leaves the text alone when its last character is no white space.
proof fn lemma_trim_end_keeps(s: Seq<char>)
    requires
        s.len() == 0 || !is_ws(s.last()),
    ensures
        trim_end(s) == s,
{
}

/// A trimmed text is empty exactly when every character is white space.
pub proof fn lemma_trim_empty(s: Seq<char>)
    ensures
        trim(s).len() == 0 <==> forall|j: int| 0 <= j < s.len() ==> is_ws(#[trigger] s[j]),
    decreases s.len(),
{
    lemma_trim_start_empty(s);
    lemma_trim_end_empty(trim_start(s));
    lemma_trim_start_head(s);
    let t = trim_start(s);
    if t.len() > 0 {
        assert(!is_ws(t[0]));
    }
}

/// What `trim_start` leaves does not begin with white space.
pub proof fn lemma_trim_start_head_pub(s: Seq<char>)
    ensures
        trim_start(s).len() > 0 ==> !is_ws(trim_start(s)[0]),
{
    lemma_trim_start_head(s);
}

/// What `trim_start` leaves does not begin with white space.
proof fn lemma_trim_start_head(s: Seq<char>)
    ensures
        trim_start(s).len() > 0 ==> !is_ws(trim_start(s)[0]),
    decreases s.len(),
{
    if s.len() > 0 && is_ws(s[0]) {
        lemma_trim_start_head(s.drop_first());
    }
}

proof fn lemma_trim_start_empty(s: Seq<char>)
    ensures
        trim_start(s).len() == 0 <==> forall|j: int| 0 <= j < s.len() ==> is_ws(#[trigger] s[j]),
    decreases s.len(),
{
    if s.len() > 0 && is_ws(s[0]) {
        let t = s.drop_first();
        lemma_trim_start_empty(t);
        if trim_start(s).len() == 0 {
            assert forall|j: int| 0 <= j < s.len() implies is_ws(#[trigger] s[j]) by {
                if j > 0 {
                    assert(s[j] == t[j - 1]);
                }
            }
        }
        if forall|j: int| 0 <= j < s.len() ==> is_ws(#[trigger] s[j]) {
            assert forall|j: int| 0 <= j < t.len() implies is_ws(#[trigger] t[j]) by {
                assert(t[j] == s[j + 1]);
            }
        }
    } else if s.len() > 0 {
        assert(!is_ws(s[0]));
    }
}

proof fn lemma_trim_end_empty(s: Seq<char>)
    ensures
        trim_end(s).len() == 0 <==> forall|j: int| 0 <= j < s.len() ==> is_ws(#[trigger] s[j]),
    decreases s.len(),
{
    if s.len() > 0 && is_ws(s.last()) {
        let t = s.drop_last();
        lemma_trim_end_empty(t);
        if trim_end(s).len() == 0 {
            assert forall|j: int| 0 <= j < s.len() implies is_ws(#[trigger] s[j]) by {
                if j < s.len() - 1 {
                    assert(s[j] == t[j]);
                }
            }
        }
        if forall|j: int| 0 <= j < s.len() ==> is_ws(#[trigger] s[j]) {
            assert forall|j: int| 0 <= j < t.len() implies is_ws(#[trigger] t[j]) by {
                assert(t[j] == s[j]);
            }
        }
    } else if s.len() > 0 {
        assert(!is_ws(s.last()));
    }
}

/// When all characters are white space, `trim_start` empties the text.
proof fn lemma_all_ws_trim_start(s: Seq<char>)
    requires
        forall|j: int| 0 <= j < s.len() ==> is_ws(#[trigger] s[j]),
    ensures
        trim_start(s) == Seq::<char>::empty(),
{
    lemma_trim_start_empty(s);
}

/// `split` never yields an empty list.
pub proof fn lemma_split_nonempty(s: Seq<char>, sep: char)
    ensures
        split(s, sep).len() >= 1,
    decreases s.len(),
{
    if s.len() > 0 {
        lemma_split_nonempty(s.drop_last(), sep);
    }
}

/// A text without `sep` splits into itself alone.
pub proof fn lemma_split_no_sep(s: Seq<char>, sep: char)
    requires
        forall|j: int| 0 <= j < s.len() ==> s[j] != sep,
    ensures
        split(s, sep) == seq![s],
    decreases s.len(),
{
    if s.len() > 0 {
        let t = s.drop_last();
        assert forall|j: int| 0 <= j < t.len() implies t[j] != sep by {
            assert(t[j] == s[j]);
        }
        lemma_split_no_sep(t, sep);
        assert(s.last() == s[s.len() - 1]);
        assert(t.push(s.last()) == s);
    } else {
        assert(s == Seq::<char>::empty());
    }
}

/// Splitting at a separator that stands between two texts splits each
/// side on its own.
pub proof fn lemma_split_concat(s: Seq<char>, t: Seq<char>, sep: char)
    ensures
        split(s + seq![sep] + t, sep) == split(s, sep) + split(t, sep),
    decreases t.len(),
{
    let whole = s + seq![sep] + t;
    if t.len() == 0 {
        assert(whole.drop_last() =~= s);
        assert(whole.last() == sep);
        assert(split(s, sep).push(Seq::<char>::empty()) =~= split(s, sep) + seq![
            Seq::<char>::empty(),
        ]);
    } else {
        let t2 = t.drop_last();
        lemma_split_concat(s, t2, sep);
        assert(whole.drop_last() =~= s + seq![sep] + t2);
        assert(whole.last() == t.last());
        lemma_split_nonempty(t2, sep);
        let a = split(s, sep);
        let b = split(t2, sep);
        if t.last() == sep {
            assert((a + b).push(Seq::<char>::empty()) =~= a + b.push(Seq::<char>::empty()));
        } else {
            let r = a + b;
            assert(r.update(r.len() - 1, r.last().push(t.last())) =~= a + b.update(
                b.len() - 1,
                b.last().push(t.last()),
            ));
        }
    }
}

/// No piece of a split holds the separator.
pub proof fn lemma_split_pieces(s: Seq<char>, sep: char)
    ensures
        forall|i: int, j: int|
            0 <= i < split(s, sep).len() && 0 <= j < split(s, sep)[i].len() ==> split(s, sep)[i][j]
                != sep,
    decreases s.len(),
{
    if s.len() > 0 {
        lemma_split_pieces(s.drop_last(), sep);
        lemma_split_nonempty(s.drop_last(), sep);
    }
}

/// Trimming keeps a text free of a character it does not hold.
pub proof fn lemma_trim_keeps_absent(x: Seq<char>, c: char)
    requires
        forall|j: int| 0 <= j < x.len() ==> x[j] != c,
    ensures
        forall|j: int| 0 <= j < trim(x).len() ==> trim(x)[j] != c,
{
    lemma_trim_start_absent(x, c);
    lemma_trim_end_absent(trim_start(x), c);
}

proof fn lemma_trim_start_absent(x: Seq<char>, c: char)
    requires
        forall|j: int| 0 <= j < x.len() ==> x[j] != c,
    ensures
        forall|j: int| 0 <= j < trim_start(x).len() ==> trim_start(x)[j] != c,
    decreases x.len(),
{
    if x.len() > 0 && is_ws(x[0]) {
        let y = x.drop_first();
        assert forall|j: int| 0 <= j < y.len() implies y[j] != c by {
            assert(y[j] == x[j + 1]);
        }
        lemma_trim_start_absent(y, c);
        assert(trim_start(x) == trim_start(y));
    }
}

proof fn lemma_trim_end_absent(x: Seq<char>, c: char)
    requires
        forall|j: int| 0 <= j < x.len() ==> x[j] != c,
    ensures
        forall|j: int| 0 <= j < trim_end(x).len() ==> trim_end(x)[j] != c,
    decreases x.len(),
{
    if x.len() > 0 && is_ws(x.last()) {
        let y = x.drop_last();
        assert forall|j: int| 0 <= j < y.len() implies y[j] != c by {
            assert(y[j] == x[j]);
        }
        lemma_trim_end_absent(y, c);
        assert(trim_end(x) == trim_end(y));
    }
}

/// A text that is not empty after trimming starts and ends with a
/// character that is no white space.
pub proof fn lemma_trim_ends(x: Seq<char>)
    ensures
        trim(x).len() > 0 ==> !is_ws(trim(x)[0]) && !is_ws(trim(x).last()),
{
    lemma_trim_start_head(x);
    lemma_trim_end_head(trim_start(x));
    lemma_trim_end_last(trim_start(x));
}

proof fn lemma_trim_end_head(y: Seq<char>)
    ensures
        trim_end(y).len() > 0 ==> trim_end(y)[0] == y[0],
    decreases y.len(),
{
    if y.len() > 0 && is_ws(y.last()) {
        lemma_trim_end_head(y.drop_last());
    }
}

proof fn lemma_trim_end_last(y: Seq<char>)
    ensures
        trim_end(y).len() > 0 ==> !is_ws(trim_end(y).last()),
    decreases y.len(),
{
    if y.len() > 0 && is_ws(y.last()) {
        lemma_trim_end_last(y.drop_last());
    }
}

/// Joining a single piece gives the piece.
pub proof fn lemma_join_single(p: Seq<char>, sep: Seq<char>)
    ensures
        join(seq![p], sep) == p,
{
}

/// Lower-casing distributes over a pushed character.
proof fn lemma_lower_push(s: Seq<char>, c: char)
    ensures
        lower(s.push(c)) == lower(s).push(ascii_lower(c)),
{
    assert(lower(s.push(c)) =~= lower(s).push(ascii_lower(c)));
}

// ---------------------------------------------------------------------------
// Trusted wrappers around std
// ---------------------------------------------------------------------------

/// `String::push`: appends one character to the end of the string.
#[verifier::external_body]
pub fn push_char(s: &mut String, c: char)
    ensures
        final(s)@ == old(s)@.push(c),
{
    s.push(c);
}

/// `str::to_uppercase`: the text with every character mapped to its Unicode
/// upper case. The mapping comes from the Unicode tables and is named
/// `unicode_upper`; of it, only the ASCII case is stated here: on ASCII text
/// it upper-cases `a..=z` and keeps every other character, as
/// `to_ascii_uppercase` does.
#[verifier::external_body]
pub(crate) fn to_uppercase(s: &str) -> (r: String)
    ensures
        r@ == unicode_upper(s@),
        ascii_text(s@) ==> r@ == upper(s@),
{
    s.to_uppercase()
}

// ---------------------------------------------------------------------------
// Executable operations
// ---------------------------------------------------------------------------

/// ASCII lower-casing of one character: `'A'..='Z'` become `'a'..='z'`, any
/// other character is unchanged.
pub fn char_ascii_lower(c: char) -> (r: char)
    ensures
        r == ascii_lower(c),
{
    if 'A' <= c && c <= 'Z' {
        ((c as u8) + 32) as char
    } else {
        c
    }
}

/// ASCII upper-casing of one character: `'a'..='z'` become `'A'..='Z'`, any
/// other character is unchanged.
pub fn char_ascii_upper(c: char) -> (r: char)
    ensures
        r == ascii_upper(c),
{
    if 'a' <= c && c <= 'z' {
        ((c as u8) - 32) as char
    } else {
        c
    }
}

/// The characters of a text, in order.
pub fn chars_of(s: &str) -> (v: Vec<char>)
    ensures
        v@ == s@,
{
    let mut v: Vec<char> = Vec::new();
    for c in it: s.chars()
        invariant
            v@ == it.seq().take(it.index() as int),
            it.seq() == s@,
    {
        v.push(c);
    }
    v
}

/// Whether a character is Unicode white space, as `char::is_whitespace`.
pub fn is_whitespace(c: char) -> (b: bool)
    ensures
        b == is_ws(c),
{
    let u = c as u32;
    (9 <= u && u <= 13) || u == 32 || u == 0x85 || u == 0xA0 || u == 0x1680 || (0x2000 <= u && u
        <= 0x200A) || u == 0x2028 || u == 0x2029 || u == 0x202F || u == 0x205F || u == 0x3000
}

/// The text without white space at either end.
pub fn trim_str<'a>(s: &'a str) -> (r: &'a str)
    ensures
        r@ == trim(s@),
{
    let v = chars_of(s);
    let n = v.len();
    let mut start: usize = 0;
    while start < n && is_whitespace(v[start])
        invariant
            v@ == s@,
            n == v.len(),
            start <= n,
            forall|j: int| 0 <= j < start ==> is_ws(#[trigger] v@[j]),
        decreases n - start,
    {
        start += 1;
    }
    proof {
        lemma_trim_start_skip(s@, start as int);
    }
    let ghost rest = s@.subrange(start as int, n as int);
    if start == n {
        proof {
            assert(rest.len() == 0);
        }
        return s.substring_char(n, n);
    }
    proof {
        assert(!is_ws(rest[0]));
        assert(trim_start(rest) == rest);
    }
    let mut end: usize = n;
    while end > start && is_whitespace(v[end - 1])
        invariant
            v@ == s@,
            n == v.len(),
            start < n,
            start <= end <= n,
            !is_ws(v@[start as int]),
            forall|j: int| end <= j < n ==> is_ws(#[trigger] v@[j]),
        decreases end,
    {
        end -= 1;
    }
    proof {
        assert(end > start);
        lemma_trim_end_take(rest, end - start);
        assert(rest.subrange(0, end - start) == s@.subrange(start as int, end as int));
        let k = s@.subrange(start as int, end as int);
        assert(k.last() == v@[end - 1]);
        lemma_trim_end_keeps(k);
    }
    s.substring_char(start, end)
}

/// Whether the text holds only white space (or nothing).
pub fn is_blank(s: &str) -> (b: bool)
    ensures
        b == (trim(s@).len() == 0),
{
    let t = trim_str(s);
    t.unicode_len() == 0
}

/// Whether a text has no characters.
pub fn is_empty_text(s: &str) -> (b: bool)
    ensures
        b == (s@.len() == 0),
{
    s.is_empty()
}

/// A copy of a text as an owned string.
pub fn owned(s: &str) -> (r: String)
    ensures
        r@ == s@,
{
    s.to_owned()
}

/// Whether two texts are equal.
pub fn str_eq(a: &str, b: &str) -> (r: bool)
    ensures
        r == (a@ == b@),
{
    let x = a.to_owned();
    let y = b.to_owned();
    x == y
}

/// The text with ASCII letters lower-cased, as `str::to_ascii_lowercase`.
pub fn to_ascii_lower(s: &str) -> (r: String)
    ensures
        r@ == lower(s@),
{
    let v = chars_of(s);
    let mut r = String::new();
    let mut i: usize = 0;
    while i < v.len()
        invariant
            v@ == s@,
            i <= v.len(),
            r@ == lower(s@.take(i as int)),
        decreases v.len() - i,
    {
        let c = char_ascii_lower(v[i]);
        proof {
            lemma_lower_push(s@.take(i as int), v@[i as int]);
            assert(s@.take(i as int).push(v@[i as int]) == s@.take(i + 1));
        }
        push_char(&mut r, c);
        i += 1;
    }
    proof {
        assert(s@.take(v.len() as int) == s@);
    }
    r
}

/// The text with ASCII letters upper-cased, as `str::to_ascii_uppercase`.
pub fn to_ascii_upper_string(s: &str) -> (r: String)
    ensures
        r@ == upper(s@),
{
    let v = chars_of(s);
    let mut r = String::new();
    let mut i: usize = 0;
    while i < v.len()
        invariant
            v@ == s@,
            i <= v.len(),
            r@ == upper(s@.take(i as int)),
        decreases v.len() - i,
    {
        let c = char_ascii_upper(v[i]);
        proof {
            assert(upper(s@.take(i + 1)) =~= upper(s@.take(i as int)).push(ascii_upper(v@[i as int])));
        }
        push_char(&mut r, c);
        i += 1;
    }
    proof {
        assert(s@.take(v.len() as int) == s@);
    }
    r
}

/// Whether two texts are equal up to ASCII case.
pub fn eq_ignore_ascii_case(a: &str, b: &str) -> (r: bool)
    ensures
        r == eq_ci(a@, b@),
{
    let la = to_ascii_lower(a);
    let lb = to_ascii_lower(b);
    la == lb
}

/// Every occurrence of `from` in `s` replaced by `to`.
pub fn replace_char(s: &str, from: char, to: &str) -> (r: String)
    ensures
        r@ == replace(s@, from, to@),
{
    let v = chars_of(s);
    let mut r = String::new();
    let mut i: usize = 0;
    while i < v.len()
        invariant
            v@ == s@,
            i <= v.len(),
            r@ == replace(s@.take(i as int), from, to@),
        decreases v.len() - i,
    {
        let c = v[i];
        proof {
            let t = s@.take(i + 1);
            assert(t.drop_last() == s@.take(i as int));
            assert(t.last() == c);
        }
        if c == from {
            r.append(to);
        } else {
            push_char(&mut r, c);
        }
        i += 1;
    }
    proof {
        assert(s@.take(v.len() as int) == s@);
    }
    r
}

/// The pieces of `s` between occurrences of `sep`.
pub fn split_char(s: &str, sep: char) -> (r: Vec<String>)
    ensures
        views(r@) == split(s@, sep),
{
    let v = chars_of(s);
    let mut parts: Vec<String> = Vec::new();
    let mut cur = String::new();
    let mut i: usize = 0;
    while i < v.len()
        invariant
            v@ == s@,
            i <= v.len(),
            views(parts@).push(cur@) == split(s@.take(i as int), sep),
        decreases v.len() - i,
    {
        let c = v[i];
        let ghost before = views(parts@).push(cur@);
        proof {
            let t = s@.take(i + 1);
            assert(t.drop_last() == s@.take(i as int));
            assert(t.last() == c);
        }
        if c == sep {
            let done = cur;
            parts.push(done);
            cur = String::new();
            proof {
                assert(views(parts@).push(cur@) == before.push(Seq::<char>::empty()));
            }
        } else {
            push_char(&mut cur, c);
            proof {
                assert(views(parts@).push(cur@) == before.update(
                    before.len() - 1,
                    before.last().push(c),
                ));
            }
        }
        i += 1;
    }
    parts.push(cur);
    proof {
        assert(s@.take(v.len() as int) == s@);
    }
    parts
}

/// The strings joined with `sep` between neighbours.
pub fn join_strings(parts: &Vec<String>, sep: &str) -> (r: String)
    ensures
        r@ == join(views(parts@), sep@),
{
    let mut r = String::new();
    let mut i: usize = 0;
    while i < parts.len()
        invariant
            i <= parts.len(),
            r@ == join(views(parts@).take(i as int), sep@),
        decreases parts.len() - i,
    {
        proof {
            let t = views(parts@).take(i + 1);
            assert(t.drop_last() == views(parts@).take(i as int));
            assert(t.last() == parts@[i as int]@);
            if i == 0 {
                assert(t == seq![parts@[0]@]);
            }
        }
        if i > 0 {
            r.append(sep);
        }
        r.append(parts[i].as_str());
        i += 1;
    }
    proof {
        assert(views(parts@).take(parts.len() as int) == views(parts@));
    }
    r
}

/// Whether `needle` occurs in `hay`.
pub fn contains_str(hay: &str, needle: &str) -> (r: bool)
    ensures
        r == contains(hay@, needle@),
{
    let h = chars_of(hay);
    let n = chars_of(needle);
    if n.len() > h.len() {
        proof {
            assert forall|i: int| !occurs_at(hay@, needle@, i) by {}
        }
        return false;
    }
    let last = h.len() - n.len();
    let mut i: usize = 0;
    while i <= last
        invariant
            h@ == hay@,
            n@ == needle@,
            n.len() <= h.len(),
            last == h.len() - n.len(),
            forall|k: int| 0 <= k < i ==> !occurs_at(hay@, needle@, k),
        decreases last + 1 - i,
    {
        let mut j: usize = 0;
        let mut same = true;
        while j < n.len()
            invariant
                h@ == hay@,
                n@ == needle@,
                i <= last,
                last == h.len() - n.len(),
                j <= n.len(),
                same ==> forall|k: int| 0 <= k < j ==> h@[i + k] == n@[k],
                !same ==> !occurs_at(hay@, needle@, i as int),
            decreases n.len() - j,
        {
            if h[i + j] != n[j] {
                proof {
                    if occurs_at(hay@, needle@, i as int) {
                        assert(hay@.subrange(i as int, i + needle@.len())[j as int] == h@[i + j]);
                    }
                }
                same = false;
            }
            j += 1;
        }
        if same {
            proof {
                assert(hay@.subrange(i as int, i + needle@.len()) =~= needle@);
                assert(occurs_at(hay@, needle@, i as int));
            }
            return true;
        }
        if i == last {
            proof {
                assert forall|k: int| !occurs_at(hay@, needle@, k) by {
                    if 0 <= k && k + needle@.len() <= hay@.len() {
                        assert(k <= last);
                    }
                }
            }
            return false;
        }
        i += 1;
    }
    false
}

/// Whether `s` begins with `prefix`.
pub fn starts_with_str(s: &str, prefix: &str) -> (r: bool)
    ensures
        r == starts_with(s@, prefix@),
{
    let a = chars_of(s);
    let b = chars_of(prefix);
    if b.len() > a.len() {
        return false;
    }
    let mut j: usize = 0;
    while j < b.len()
        invariant
            a@ == s@,
            b@ == prefix@,
            b.len() <= a.len(),
            j <= b.len(),
            forall|k: int| 0 <= k < j ==> a@[k] == b@[k],
        decreases b.len() - j,
    {
        if a[j] != b[j] {
            proof {
                assert(s@.subrange(0, prefix@.len() as int)[j as int] == a@[j as int]);
            }
            return false;
        }
        j += 1;
    }
    proof {
        assert(s@.subrange(0, prefix@.len() as int) =~= prefix@);
    }
    true
}

/// Whether `s` ends with `suffix`.
pub fn ends_with_str(s: &str, suffix: &str) -> (r: bool)
    ensures
        r == ends_with(s@, suffix@),
{
    let a = chars_of(s);
    let b = chars_of(suffix);
    if b.len() > a.len() {
        return false;
    }
    let off = a.len() - b.len();
    let mut j: usize = 0;
    while j < b.len()
        invariant
            a@ == s@,
            b@ == suffix@,
            off + b.len() == a.len(),
            j <= b.len(),
            forall|k: int| 0 <= k < j ==> a@[off + k] == b@[k],
        decreases b.len() - j,
    {
        if a[off + j] != b[j] {
            proof {
                assert(s@.subrange(off as int, s@.len() as int)[j as int] == a@[off + j]);
            }
            return false;
        }
        j += 1;
    }
    proof {
        assert(s@.subrange(off as int, s@.len() as int) =~= suffix@);
    }
    true
}

/// The first `n` characters of a text.
pub fn prefix_string(s: &str, n: usize) -> (r: String)
    requires
        n <= s@.len(),
    ensures
        r@ == s@.take(n as int),
{
    let v = chars_of(s);
    let mut r = String::new();
    let mut i: usize = 0;
    while i < n
        invariant
            v@ == s@,
            n <= v.len(),
            i <= n,
            r@ == s@.take(i as int),
        decreases n - i,
    {
        push_char(&mut r, v[i]);
        assert(s@.take(i + 1) == s@.take(i as int).push(v@[i as int]));
        i += 1;
    }
    r
}

/// The decimal notation of a number.
pub fn u128_to_decimal(n: u128) -> (r: String)
    ensures
        r@ == decimal(n as nat),
    decreases n,
{
    let d: u128 = n % 10;
    let c = digit(d);
    if n < 10 {
        let mut r = String::new();
        push_char(&mut r, c);
        r
    } else {
        let mut r = u128_to_decimal(n / 10);
        push_char(&mut r, c);
        r
    }
}

/// The decimal notation of a `usize`.
pub fn usize_to_decimal(n: usize) -> (r: String)
    ensures
        r@ == decimal(n as nat),
{
    u128_to_decimal(n as u128)
}

fn digit(d: u128) -> (c: char)
    requires
        d < 10,
    ensures
        c == digit_char(d as nat),
{
    if d == 0 {
        '0'
    } else if d == 1 {
        '1'
    } else if d == 2 {
        '2'
    } else if d == 3 {
        '3'
    } else if d == 4 {
        '4'
    } else if d == 5 {
        '5'
    } else if d == 6 {
        '6'
    } else if d == 7 {
        '7'
    } else if d == 8 {
        '8'
    } else {
        '9'
    }
}

/// An unsigned decimal read as `str::parse` does for a type whose largest
/// value is `max`: `None` for an empty text, a character other than an ASCII
/// digit (after one optional `+`), or a value above `max`.
pub fn parse_unsigned_str(s: &str, max: u64) -> (r: Option<u64>)
    ensures
        match r {
            Some(v) => parse_unsigned(s@, max as nat) == Some(v as nat),
            None => parse_unsigned(s@, max as nat) is None,
        },
{
    let v = chars_of(s);
    let mut i: usize = 0;
    if v.len() > 0 && v[0] == '+' {
        i = 1;
    }
    let ghost digits = s@.subrange(i as int, s@.len() as int);
    proof {
        if s@.len() > 0 && s@[0] == '+' {
            assert(digits == s@.drop_first());
        } else {
            assert(digits == s@);
        }
    }
    if i == v.len() {
        return None;
    }
    let start = i;
    let mut value: u64 = 0;
    while i < v.len()
        invariant
            v@ == s@,
            start <= i <= v.len(),
            digits == s@.subrange(start as int, s@.len() as int),
            digits == (if s@.len() > 0 && s@[0] == '+' {
                s@.drop_first()
            } else {
                s@
            }),
            value <= max,
            digits_value(s@.subrange(start as int, i as int)) == Some(value as nat),
        decreases v.len() - i,
    {
        let c = v[i];
        let ghost pre = s@.subrange(start as int, i as int);
        let ghost nxt = s@.subrange(start as int, i + 1);
        proof {
            assert(nxt.drop_last() == pre);
            assert(nxt.last() == c);
        }
        if !('0' <= c && c <= '9') {
            proof {
                assert(nxt == digits.subrange(0, (i - start) + 1));
                assert(digits_value(nxt) is None);
                lemma_digits_prefix_none(digits, (i - start) as int);
            }
            return None;
        }
        let d = (c as u32 - '0' as u32) as u64;
        let next: u128 = value as u128 * 10 + d as u128;
        if next > max as u128 {
            proof {
                assert(nxt == digits.subrange(0, (i - start) + 1));
                assert(digits_value(nxt) == Some(next as nat));
                lemma_digits_prefix_big(digits, (i - start) as int, max as nat);
            }
            return None;
        }
        value = next as u64;
        i += 1;
    }
    proof {
        assert(s@.subrange(start as int, v.len() as int) == digits);
    }
    Some(value)
}

/// Once a prefix of the digits holds a non-digit, the whole has no value.
proof fn lemma_digits_prefix_none(s: Seq<char>, k: int)
    requires
        0 <= k < s.len(),
        digits_value(s.subrange(0, k + 1)) is None,
    ensures
        digits_value(s) is None,
    decreases s.len() - k,
{
    if k + 1 < s.len() {
        let t = s.subrange(0, k + 2);
        assert(t.drop_last() == s.subrange(0, k + 1));
        lemma_digits_prefix_none(s, k + 1);
    } else {
        assert(s.subrange(0, k + 1) == s);
    }
}

/// Once a prefix of the digits is above `max`, so is the whole.
proof fn lemma_digits_prefix_big(s: Seq<char>, k: int, max: nat)
    requires
        0 <= k < s.len(),
        match digits_value(s.subrange(0, k + 1)) {
            Some(v) => v > max,
            None => true,
        },
    ensures
        match digits_value(s) {
            Some(v) => v > max,
            None => true,
        },
    decreases s.len() - k,
{
    if k + 1 < s.len() {
        let t = s.subrange(0, k + 2);
        assert(t.drop_last() == s.subrange(0, k + 1));
        match digits_value(s.subrange(0, k + 1)) {
            Some(v) => {
                match digits_value(t) {
                    Some(w) => {
                        assert(w >= v * 10) by (nonlinear_arith)
                            requires
                                w == v * 10 + ((t.last() as u32) - ('0' as u32)) as nat,
                        ;
                        assert(v * 10 >= v) by (nonlinear_arith);
                    },
                    None => {},
                }
            },
            None => {},
        }
        lemma_digits_prefix_big(s, k + 1, max);
    } else {
        assert(s.subrange(0, k + 1) == s);
    }
}

/// A text occurs in any text built around it.
pub proof fn lemma_contains_middle(a: Seq<char>, n: Seq<char>, b: Seq<char>)
    ensures
        contains(a + n + b, n),
{
    let h = a + n + b;
    assert(h.subrange(a.len() as int, (a.len() + n.len()) as int) =~= n);
    assert(occurs_at(h, n, a.len() as int));
}

/// What occurs in a text occurs in any text built around it.
pub proof fn lemma_contains_grow(a: Seq<char>, n: Seq<char>, p: Seq<char>, q: Seq<char>)
    requires
        contains(a, n),
    ensures
        contains(p + a + q, n),
{
    let i = choose|i: int| occurs_at(a, n, i);
    let h = p + a + q;
    assert(h.subrange(p.len() + i, p.len() + i + n.len()) =~= a.subrange(i, i + n.len()));
    assert(occurs_at(h, n, p.len() + i));
}

/// Every piece occurs in the pieces joined.
pub proof fn lemma_join_contains(parts: Seq<Seq<char>>, sep: Seq<char>, i: int)
    requires
        0 <= i < parts.len(),
    ensures
        contains(join(parts, sep), parts[i]),
    decreases parts.len(),
{
    let e = Seq::<char>::empty();
    if parts.len() == 1 {
        lemma_contains_middle(e, parts[0], e);
        assert(e + parts[0] + e =~= parts[0]);
    } else if i == parts.len() - 1 {
        let head = join(parts.drop_last(), sep) + sep;
        lemma_contains_middle(head, parts.last(), e);
        assert(head + parts.last() + e =~= join(parts, sep));
    } else {
        lemma_join_contains(parts.drop_last(), sep, i);
        lemma_contains_grow(join(parts.drop_last(), sep), parts[i], e, sep + parts.last());
        assert(e + join(parts.drop_last(), sep) + (sep + parts.last()) =~= join(parts, sep));
    }
}

/// A text begins with its first part.
pub proof fn lemma_starts_with_concat(a: Seq<char>, b: Seq<char>)
    ensures
        starts_with(a + b, a),
{
    assert((a + b).subrange(0, a.len() as int) =~= a);
}

/// A text ends with its last part.
pub proof fn lemma_ends_with_concat(a: Seq<char>, b: Seq<char>)
    ensures
        ends_with(a + b, b),
{
    assert((a + b).subrange(a.len() as int, (a + b).len() as int) =~= b);
}

/// A join of pieces begins with the first piece.
pub proof fn lemma_join_starts_with_first(parts: Seq<Seq<char>>, sep: Seq<char>)
    requires
        parts.len() > 0,
    ensures
        starts_with(join(parts, sep), parts[0]),
    decreases parts.len(),
{
    if parts.len() > 1 {
        lemma_join_starts_with_first(parts.drop_last(), sep);
        let j = join(parts.drop_last(), sep);
        assert(parts.drop_last()[0] == parts[0]);
        assert((j + sep + parts.last()).subrange(0, parts[0].len() as int) =~= j.subrange(
            0,
            parts[0].len() as int,
        ));
    } else {
        assert(join(parts, sep).subrange(0, parts[0].len() as int) =~= parts[0]);
    }
}

/// A join of pieces ends with the last piece.
pub proof fn lemma_join_ends_with_last(parts: Seq<Seq<char>>, sep: Seq<char>)
    requires
        parts.len() > 0,
    ensures
        ends_with(join(parts, sep), parts.last()),
{
    if parts.len() > 1 {
        lemma_ends_with_concat(join(parts.drop_last(), sep) + sep, parts.last());
    } else {
        assert(join(parts, sep).subrange(0, parts[0].len() as int) =~= parts[0]);
    }
}

/// Every piece but the first occurs in the join right after a separator.
pub proof fn lemma_join_contains_after_sep(parts: Seq<Seq<char>>, sep: Seq<char>, i: int)
    requires
        1 <= i < parts.len(),
    ensures
        contains(join(parts, sep), sep + parts[i]),
    decreases parts.len(),
{
    let e = Seq::<char>::empty();
    let head = join(parts.drop_last(), sep);
    let needle = sep + parts[i];
    assert(join(parts, sep) == head + sep + parts.last());
    if i == parts.len() - 1 {
        assert(head + needle + e =~= join(parts, sep));
        lemma_contains_middle(head, needle, e);
    } else {
        assert(parts.drop_last()[i] == parts[i]);
        lemma_join_contains_after_sep(parts.drop_last(), sep, i);
        assert(e + head + (sep + parts.last()) =~= join(parts, sep));
        lemma_contains_grow(head, needle, e, sep + parts.last());
    }
}

/// Trimming a trimmed text changes nothing.
pub proof fn lemma_trim_idempotent(x: Seq<char>)
    ensures
        trim(trim(x)) == trim(x),
{
    lemma_trim_ends(x);
    let t = trim(x);
    assert(trim_start(t) == t);
    assert(trim_end(t) == t);
}

/// What occurs in a text that occurs in another occurs in that other.
pub proof fn lemma_contains_trans(a: Seq<char>, b: Seq<char>, c: Seq<char>)
    requires
        contains(a, b),
        contains(b, c),
    ensures
        contains(a, c),
{
    let i = choose|i: int| occurs_at(a, b, i);
    let k = choose|k: int| occurs_at(b, c, k);
    assert(a.subrange(i + k, i + k + c.len()) =~= b.subrange(k, k + c.len()));
    assert(occurs_at(a, c, i + k));
}

/// A prefix of a prefix is a prefix.
pub proof fn lemma_starts_with_trans(a: Seq<char>, b: Seq<char>, c: Seq<char>)
    requires
        starts_with(a, b),
        starts_with(b, c),
    ensures
        starts_with(a, c),
{
    assert(a.subrange(0, c.len() as int) =~= b.subrange(0, c.len() as int));
}

/// What follows a prefix's head occurs in the text, whatever is appended.
pub proof fn lemma_prefix_part_contained(a: Seq<char>, p: Seq<char>, x: Seq<char>, c: Seq<char>)
    requires
        starts_with(a, p + x),
    ensures
        contains(a + c, x),
{
    let q = p + x;
    assert(a.subrange(0, q.len() as int) == q);
    assert((a + c).subrange(p.len() as int, q.len() as int) =~= a.subrange(0, q.len() as int).subrange(
        p.len() as int,
        q.len() as int,
    ));
    assert(q.subrange(p.len() as int, q.len() as int) =~= x);
    assert(occurs_at(a + c, x, p.len() as int));
}

/// Appending the same text keeps an ending.
pub proof fn lemma_ends_with_append(a: Seq<char>, b: Seq<char>, c: Seq<char>)
    requires
        ends_with(a, b),
    ensures
        ends_with(a + c, b + c),
{
    let x = a.subrange(0, a.len() - b.len());
    assert(a =~= x + b);
    assert(a + c =~= x + (b + c));
    lemma_ends_with_concat(x, b + c);
}

} // verus!
