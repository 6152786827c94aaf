//! The resident memory of the process as the status bar shows it: read from
//! a Linux status report and written in binary units.
use vstd::prelude::*;
use crate::text::{
    chars_of, decimal, digit_char, is_whitespace, is_ws, lemma_trim_start_skip, owned,
    parse_unsigned, parse_unsigned_str, push_char, split, split_char, starts_with,
    starts_with_str, trim_start, u128_to_decimal, views,
};

verus! {

// ---------------------------------------------------------------------------
// Reading the status report
// ---------------------------------------------------------------------------

/// What follows `prefix` on the first line that starts with it.
pub open spec fn first_prefixed(lines: Seq<Seq<char>>, prefix: Seq<char>) -> Option<Seq<char>>
    decreases lines.len(),
{
    if lines.len() == 0 {
        None
    } else if starts_with(lines[0], prefix) {
        Some(lines[0].skip(prefix.len() as int))
    } else {
        first_prefixed(lines.drop_first(), prefix)
    }
}

/// The characters before the first white space.
pub open spec fn leading_word(t: Seq<char>) -> Seq<char> {
    if exists|i: int| 0 <= i < t.len() && is_ws(t[i]) {
        t.take(
            choose|i: int|
                0 <= i < t.len() && is_ws(t[i]) && forall|j: int| 0 <= j < i ==> !is_ws(t[j]),
        )
    } else {
        t
    }
}

/// The first word of a text, as `split_whitespace().next()`.
pub open spec fn first_word(s: Seq<char>) -> Option<Seq<char>> {
    let t = trim_start(s);
    if t.len() == 0 {
        None
    } else {
        Some(leading_word(t))
    }
}

/// The resident set size, in KiB, that a Linux `/proc/<pid>/status` report
/// gives on its `VmRSS:` line.
pub open spec fn rss_kib(status: Seq<char>) -> Option<nat> {
    match first_prefixed(split(status, '\n'), "VmRSS:"@) {
        None => None,
        Some(rest) => match first_word(rest) {
            None => None,
            Some(w) => parse_unsigned(w, u64::MAX as nat),
        },
    }
}

fn first_word_of(s: &str) -> (r: Option<String>)
    ensures
        match r {
            Some(w) => first_word(s@) == Some(w@),
            None => first_word(s@) is None,
        },
{
    let v = chars_of(s);
    let mut start: usize = 0;
    while start < v.len() && is_whitespace(v[start])
        invariant
            v@ == s@,
            start <= v.len(),
            forall|j: int| 0 <= j < start ==> is_ws(#[trigger] v@[j]),
        decreases v.len() - start,
    {
        start += 1;
    }
    proof {
        lemma_trim_start_skip(s@, start as int);
        crate::text::lemma_trim_start_head_pub(s@.subrange(start as int, s@.len() as int));
    }
    let ghost t = s@.subrange(start as int, s@.len() as int);
    assert(trim_start(s@) == trim_start(t));
    if start == v.len() {
        assert(t.len() == 0);
        return None;
    }
    assert(!is_ws(t[0]));
    assert(trim_start(t) == t);
    let mut word = String::new();
    let mut k: usize = start;
    while k < v.len() && !is_whitespace(v[k])
        invariant
            v@ == s@,
            start <= k <= v.len(),
            t == s@.subrange(start as int, s@.len() as int),
            word@ == t.take(k - start),
            forall|j: int| 0 <= j < k - start ==> !is_ws(#[trigger] t[j]),
        decreases v.len() - k,
    {
        push_char(&mut word, v[k]);
        assert(t.take(k + 1 - start) == t.take(k - start).push(v@[k as int]));
        k += 1;
    }
    proof {
        let n = k - start;
        if k < v.len() {
            assert(is_ws(t[n as int]));
            let w = choose|i: int|
                0 <= i < t.len() && is_ws(t[i]) && forall|j: int| 0 <= j < i ==> !is_ws(t[j]);
            if w < n {
                assert(!is_ws(t[w]));
            }
            if w > n {
                assert(!is_ws(t[n as int]));
            }
            assert(leading_word(t) == t.take(n as int));
        } else {
            assert(t.take(n as int) == t);
            assert(!exists|i: int| 0 <= i < t.len() && is_ws(t[i]));
        }
    }
    Some(word)
}

/// The resident memory in KiB from a Linux status report: the first number
/// of the `VmRSS:` line. `None` when the line, its number, or a valid
/// number is missing.
pub fn status_rss_kib(status: &str) -> (r: Option<u64>)
    ensures
        match rss_kib(status@) {
            Some(k) => r == Some(k as u64),
            None => r is None,
        },
{
    let lines = split_char(status, '\n');
    let prefix_len = chars_of("VmRSS:").len();
    let ghost ls = views(lines@);
    let mut i: usize = 0;
    assert(ls.skip(0) =~= ls);
    while i < lines.len()
        invariant
            i <= lines.len(),
            ls == views(lines@),
            ls == split(status@, '\n'),
            prefix_len == "VmRSS:"@.len(),
            first_prefixed(ls, "VmRSS:"@) == first_prefixed(ls.skip(i as int), "VmRSS:"@),
        decreases lines.len() - i,
    {
        proof {
            assert(ls.skip(i as int)[0] == ls[i as int]);
            assert(ls.skip(i as int).drop_first() =~= ls.skip(i + 1));
        }
        if starts_with_str(lines[i].as_str(), "VmRSS:") {
            let line = lines[i].as_str();
            let lv = chars_of(line);
            let mut rest = String::new();
            let mut k: usize = prefix_len;
            while k < lv.len()
                invariant
                    lv@ == line@,
                    prefix_len <= k <= lv.len(),
                    rest@ == line@.subrange(prefix_len as int, k as int),
                decreases lv.len() - k,
            {
                push_char(&mut rest, lv[k]);
                assert(line@.subrange(prefix_len as int, k + 1) == line@.subrange(
                    prefix_len as int,
                    k as int,
                ).push(lv@[k as int]));
                k += 1;
            }
            assert(rest@ == line@.skip(prefix_len as int));
            match first_word_of(rest.as_str()) {
                None => {
                    return None;
                },
                Some(w) => {
                    return parse_unsigned_str(w.as_str(), u64::MAX);
                },
            }
        }
        i += 1;
    }
    None
}

/// The resident memory in bytes from a Linux status report: the first
/// number of the `VmRSS:` line, read as KiB. `None` when the line, its
/// number, or a valid number is missing. The size in bytes must fit in a
/// `u64`.
pub fn parse_linux_status_rss_bytes(status: &str) -> (r: Option<u64>)
    requires
        rss_kib(status@) matches Some(k) ==> k * 1024 <= u64::MAX,
    ensures
        match rss_kib(status@) {
            Some(k) => r == Some((k * 1024) as u64),
            None => r is None,
        },
{
    match status_rss_kib(status) {
        Some(kib) => Some(kib * 1024),
        None => None,
    }
}

// ---------------------------------------------------------------------------
// Writing sizes
// ---------------------------------------------------------------------------

/// `1024` to the power `k`.
pub open spec fn pow1024(k: nat) -> nat
    decreases k,
{
    if k == 0 {
        1
    } else {
        1024 * pow1024((k - 1) as nat)
    }
}

/// The unit a size is written in: the largest of B, KiB, MiB, GiB and TiB
/// that is not above it (B for sizes under one KiB).
pub open spec fn size_unit(bytes: nat) -> nat {
    if bytes < pow1024(1) {
        0
    } else if bytes < pow1024(2) {
        1
    } else if bytes < pow1024(3) {
        2
    } else if bytes < pow1024(4) {
        3
    } else {
        4
    }
}

/// The name of a unit.
pub open spec fn unit_name(k: nat) -> Seq<char> {
    if k == 0 {
        "B"@
    } else if k == 1 {
        "KiB"@
    } else if k == 2 {
        "MiB"@
    } else if k == 3 {
        "GiB"@
    } else {
        "TiB"@
    }
}

/// `n / d` rounded to the nearest whole number, halves to the even one.
pub open spec fn round_half_even(n: nat, d: nat) -> nat {
    let q = n / d;
    let r = n % d;
    if 2 * r > d || (2 * r == d && q % 2 == 1) {
        q + 1
    } else {
        q
    }
}

/// A size in bytes as the status bar writes it: whole bytes under one KiB,
/// else the value in its unit with one decimal.
pub open spec fn bytes_text(bytes: nat) -> Seq<char> {
    let k = size_unit(bytes);
    if k == 0 {
        decimal(bytes) + " B"@
    } else {
        let tenths = round_half_even(bytes * 10, pow1024(k));
        decimal(tenths / 10) + seq!['.', digit_char(tenths % 10)] + " "@ + unit_name(k)
    }
}

fn unit_text(k: u64) -> (r: &'static str)
    requires
        1 <= k <= 4,
    ensures
        r@ == unit_name(k as nat),
{
    if k == 1 {
        "KiB"
    } else if k == 2 {
        "MiB"
    } else if k == 3 {
        "GiB"
    } else {
        "TiB"
    }
}

/// A size in bytes in B, KiB, MiB, GiB or TiB, with one decimal above
/// bytes.
pub fn format_bytes(bytes: u64) -> (r: String)
    ensures
        r@ == bytes_text(bytes as nat),
{
    proof {
        assert(pow1024(0) == 1);
        assert(pow1024(1) == 1024);
        assert(pow1024(2) == 1048576);
        assert(pow1024(3) == 1073741824);
        assert(pow1024(4) == 1099511627776);
    }
    if bytes < 1024 {
        let mut r = u128_to_decimal(bytes as u128);
        r.append(" B");
        return r;
    }
    let k: u64 = if bytes < 1048576 {
        1
    } else if bytes < 1073741824 {
        2
    } else if bytes < 1099511627776 {
        3
    } else {
        4
    };
    let d: u128 = if k == 1 {
        1024
    } else if k == 2 {
        1048576
    } else if k == 3 {
        1073741824
    } else {
        1099511627776
    };
    assert(d == pow1024(k as nat));
    let n: u128 = (bytes as u128) * 10;
    let q: u128 = n / d;
    let rem: u128 = n % d;
    let tenths: u128 = if 2 * rem > d || (2 * rem == d && q % 2 == 1) {
        q + 1
    } else {
        q
    };
    assert(size_unit(bytes as nat) == k as nat);
    assert(n as nat == (bytes as nat) * 10);
    assert(tenths as nat == round_half_even((bytes as nat) * 10, pow1024(k as nat)));
    let mut r = u128_to_decimal(tenths / 10);
    push_char(&mut r, '.');
    let last = u128_to_decimal(tenths % 10);
    proof {
        let t = (tenths % 10) as nat;
        assert(decimal(t) == seq![digit_char(t)]);
    }
    r.append(last.as_str());
    r.append(" ");
    r.append(unit_text(k));
    assert(r@ =~= decimal((tenths / 10) as nat) + seq!['.', digit_char((tenths % 10) as nat)] + " "@
        + unit_name(k as nat));
    r
}

/// The memory label of the status bar: the size, or `--` when it is not
/// known.
pub fn process_memory_label(resident_bytes: Option<u64>) -> (r: String)
    ensures
        r@ == match resident_bytes {
            Some(b) => bytes_text(b as nat),
            None => "--"@,
        },
{
    match resident_bytes {
        Some(b) => format_bytes(b),
        None => owned("--"),
    }
}

} // verus!
