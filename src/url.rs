use vstd::prelude::*;

verus! {

/// The characters with the Unicode White_Space property.
pub open spec fn is_white_space(c: char) -> bool {
    ('\u{9}' <= c && c <= '\u{d}') || c == ' ' || c == '\u{85}' || c == '\u{a0}' || c
        == '\u{1680}' || ('\u{2000}' <= c && c <= '\u{200a}') || c == '\u{2028}' || c
        == '\u{2029}' || c == '\u{202f}' || c == '\u{205f}' || c == '\u{3000}'
}

/// `s` without its leading white space.
pub open spec fn trim_start(s: Seq<char>) -> Seq<char>
    decreases s.len(),
{
    if s.len() > 0 && is_white_space(s[0]) {
        trim_start(s.drop_first())
    } else {
        s
    }
}

/// `s` without its trailing white space.
pub open spec fn trim_end(s: Seq<char>) -> Seq<char>
    decreases s.len(),
{
    if s.len() > 0 && is_white_space(s.last()) {
        trim_end(s.drop_last())
    } else {
        s
    }
}

/// `s` without leading and trailing white space.
pub open spec fn trimmed(s: Seq<char>) -> Seq<char> {
    trim_end(trim_start(s))
}

fn white_space(c: char) -> (r: bool)
    ensures
        r == is_white_space(c),
{
    ('\u{9}' <= c && c <= '\u{d}') || c == ' ' || c == '\u{85}' || c == '\u{a0}' || c
        == '\u{1680}' || ('\u{2000}' <= c && c <= '\u{200a}') || c == '\u{2028}' || c
        == '\u{2029}' || c == '\u{202f}' || c == '\u{205f}' || c == '\u{3000}'
}

/// `s` without leading and trailing white space.
pub fn trim(s: &str) -> (r: &str)
    ensures
        r@ == trimmed(s@),
{
    let n = s.unicode_len();
    let mut lo: usize = 0;
    let mut done = false;
    assert(s@.subrange(0, n as int) =~= s@);
    while !done && lo < n
        invariant
            n == s@.len(),
            lo <= n,
            trim_start(s@) == trim_start(s@.subrange(lo as int, n as int)),
            done ==> lo < n && !is_white_space(s@[lo as int]),
        decreases n - lo, if done { 0int } else { 1int },
    {
        if white_space(s.get_char(lo)) {
            assert(s@.subrange(lo as int, n as int).drop_first() =~= s@.subrange(lo + 1, n as int));
            lo = lo + 1;
        } else {
            done = true;
        }
    }
    let mut hi: usize = n;
    let mut stop = false;
    assert(trim_start(s@.subrange(lo as int, n as int)) == s@.subrange(lo as int, n as int));
    while !stop && hi > lo
        invariant
            n == s@.len(),
            lo <= hi <= n,
            trim_start(s@) == trim_start(s@.subrange(lo as int, n as int)),
            trim_start(s@.subrange(lo as int, n as int)) == s@.subrange(lo as int, n as int),
            trim_end(s@.subrange(lo as int, n as int)) == trim_end(s@.subrange(lo as int, hi as int)),
            stop ==> hi > lo && !is_white_space(s@[hi - 1]),
        decreases hi - lo, if stop { 0int } else { 1int },
    {
        if white_space(s.get_char(hi - 1)) {
            assert(s@.subrange(lo as int, hi as int).drop_last() =~= s@.subrange(lo as int, hi - 1));
            hi = hi - 1;
        } else {
            stop = true;
        }
    }
    assert(trim_end(s@.subrange(lo as int, hi as int)) == s@.subrange(lo as int, hi as int));
    s.substring_char(lo, hi)
}

/// The scheme prefixes that a broker address may carry.
pub open spec fn schemes() -> Seq<Seq<char>> {
    seq!["mqtt://"@, "mqtts://"@, "tcp://"@, "ssl://"@, "ws://"@, "wss://"@]
}

pub open spec fn has_prefix(s: Seq<char>, p: Seq<char>) -> bool {
    p.len() <= s.len() && s.subrange(0, p.len() as int) == p
}

/// `s` without the first of `schemes()[i..]` that begins it, or `s` itself.
pub open spec fn without_scheme_from(s: Seq<char>, i: nat) -> Seq<char>
    decreases schemes().len() - i,
{
    if i >= schemes().len() {
        s
    } else if has_prefix(s, schemes()[i as int]) {
        s.subrange(schemes()[i as int].len() as int, s.len() as int)
    } else {
        without_scheme_from(s, i + 1)
    }
}

/// `s` without the first recognised scheme prefix that begins it, if any.
pub open spec fn without_scheme(s: Seq<char>) -> Seq<char> {
    without_scheme_from(s, 0)
}

fn starts_with(s: &str, p: &str) -> (r: bool)
    ensures
        r == has_prefix(s@, p@),
{
    let n = p.unicode_len();
    let m = s.unicode_len();
    if n > m {
        return false;
    }
    let mut i: usize = 0;
    while i < n
        invariant
            n == p@.len(),
            m == s@.len(),
            n <= m,
            i <= n,
            forall|j: int| 0 <= j < i ==> s@[j] == p@[j],
        decreases n - i,
    {
        if s.get_char(i) != p.get_char(i) {
            return false;
        }
        i = i + 1;
    }
    assert(s@.subrange(0, n as int) =~= p@);
    true
}

/// Removes the first recognised scheme prefix (`mqtt://`, `mqtts://`,
/// `tcp://`, `ssl://`, `ws://`, `wss://`, matched exactly) from an address
/// that is already trimmed; any other text is returned unchanged.
pub fn strip_scheme(s: &str) -> (r: &str)
    ensures
        r@ == without_scheme(s@),
{
    let prefixes: [&str; 6] = ["mqtt://", "mqtts://", "tcp://", "ssl://", "ws://", "wss://"];
    proof {
        reveal_strlit("mqtt://");
        reveal_strlit("mqtts://");
        reveal_strlit("tcp://");
        reveal_strlit("ssl://");
        reveal_strlit("ws://");
        reveal_strlit("wss://");
        assert(prefixes@.map_values(|p: &str| p@) =~= schemes());
    }
    let mut i: usize = 0;
    while i < 6
        invariant
            i <= 6,
            prefixes@.map_values(|p: &str| p@) == schemes(),
            without_scheme(s@) == without_scheme_from(s@, i as nat),
        decreases 6 - i,
    {
        let p = prefixes[i];
        assert(p@ == schemes()[i as int]);
        if starts_with(s, p) {
            let len = p.unicode_len();
            return s.substring_char(len, s.unicode_len());
        }
        i = i + 1;
    }
    s
}

/// The host part of a broker address: surrounding white space trimmed, then
/// one recognised scheme prefix removed.
pub fn strip_protocol(url: &str) -> (r: &str)
    ensures
        r@ == without_scheme(trimmed(url@)),
{
    strip_scheme(trim(url))
}

} // verus!
