//! Reading hosts and ports out of endpoint texts.

use vstd::prelude::*;
use vstd::string::*;

verus! {

/// The character has the Unicode property White_Space.
pub open spec fn white_space(c: char) -> bool {
    '\u{9}' <= c <= '\u{d}' || c == ' ' || c == '\u{85}' || c == '\u{a0}' || c == '\u{1680}' || '\u{2000}' <= c
        <= '\u{200a}' || c == '\u{2028}' || c == '\u{2029}' || c == '\u{202f}' || c == '\u{205f}' || c == '\u{3000}'
}

/// Whether the character has the Unicode property White_Space.
pub fn is_white_space(c: char) -> (white: bool)
    ensures
        white == white_space(c),
{
    ('\u{9}' <= c && c <= '\u{d}') || c == ' ' || c == '\u{85}' || c == '\u{a0}' || c == '\u{1680}' || (
    '\u{2000}' <= c && c <= '\u{200a}') || c == '\u{2028}' || c == '\u{2029}' || c == '\u{202f}' || c == '\u{205f}'
        || c == '\u{3000}'
}

/// Characters that are cut off the ends of a text.
#[derive(Clone, Copy, PartialEq, Eq, Structural)]
pub enum Trim {
    /// `[` and `]`.
    Brackets,
    WhiteSpace,
}

/// The character is of the kind.
pub open spec fn is_of(kind: Trim, c: char) -> bool {
    match kind {
        Trim::Brackets => c == '[' || c == ']',
        Trim::WhiteSpace => white_space(c),
    }
}

/// The text without characters of the kind at its start.
pub open spec fn trim_start(s: Seq<char>, kind: Trim) -> Seq<char>
    decreases s.len(),
{
    if s.len() > 0 && is_of(kind, s[0]) {
        trim_start(s.drop_first(), kind)
    } else {
        s
    }
}

/// The text without characters of the kind at its end.
pub open spec fn trim_end(s: Seq<char>, kind: Trim) -> Seq<char>
    decreases s.len(),
{
    if s.len() > 0 && is_of(kind, s.last()) {
        trim_end(s.drop_last(), kind)
    } else {
        s
    }
}

/// The text without characters of the kind at either end.
pub open spec fn trimmed(s: Seq<char>, kind: Trim) -> Seq<char> {
    trim_end(trim_start(s, kind), kind)
}

/// `pattern` stands in the text at `i`.
pub open spec fn occurs_at(s: Seq<char>, pattern: Seq<char>, i: int) -> bool {
    0 <= i && i + pattern.len() <= s.len() && s.subrange(i, i + pattern.len()) == pattern
}

/// The last place at or before `from` where the pattern stands, or -1.
pub open spec fn last_before(s: Seq<char>, pattern: Seq<char>, from: int) -> int
    decreases from + 1,
{
    if from < 0 {
        -1
    } else if occurs_at(s, pattern, from) {
        from
    } else {
        last_before(s, pattern, from - 1)
    }
}

/// What follows the last occurrence of the pattern, or the whole text.
pub open spec fn after_last(s: Seq<char>, pattern: Seq<char>) -> Seq<char> {
    let at = last_before(s, pattern, s.len() as int);
    if at < 0 {
        s
    } else {
        s.skip(at + pattern.len())
    }
}

/// What precedes the last occurrence of the pattern, or the whole text.
pub open spec fn before_last(s: Seq<char>, pattern: Seq<char>) -> Seq<char> {
    let at = last_before(s, pattern, s.len() as int);
    if at < 0 {
        s
    } else {
        s.take(at)
    }
}

/// The host of an endpoint: scheme, port and brackets cut off. Nothing where nothing is left.
pub open spec fn host_of(endpoint: Seq<char>) -> Option<Seq<char>> {
    let host = trimmed(trimmed(before_last(after_last(endpoint, "://"@), ":"@), Trim::Brackets), Trim::WhiteSpace);
    if host.len() == 0 {
        None
    } else {
        Some(host)
    }
}

/// The last place of the pattern in the text.
pub fn find_last(s: &str, pattern: &str) -> (at: Option<usize>)
    ensures
        match at {
            Some(i) => i == last_before(s@, pattern@, s@.len() as int) && occurs_at(s@, pattern@, i as int),
            None => last_before(s@, pattern@, s@.len() as int) == -1,
        },
{
    let n = s.unicode_len();
    let m = pattern.unicode_len();
    let mut i: usize = n;
    loop
        invariant
            n == s@.len(),
            m == pattern@.len(),
            i <= n,
            last_before(s@, pattern@, n as int) == last_before(s@, pattern@, i as int),
        decreases i,
    {
        if m <= n - i {
            let part = s.substring_char(i, i + m);
            if crate::text::same(part, pattern) {
                return Some(i);
            }
        }
        if i == 0 {
            assert(last_before(s@, pattern@, -1) == -1);
            return None;
        }
        i -= 1;
    }
}

fn is_kind(kind: Trim, c: char) -> (is: bool)
    ensures
        is == is_of(kind, c),
{
    match kind {
        Trim::Brackets => c == '[' || c == ']',
        Trim::WhiteSpace => is_white_space(c),
    }
}

/// The text without characters of the kind at either end.
pub fn trim<'a>(s: &'a str, kind: Trim) -> (rest: &'a str)
    ensures
        rest@ == trimmed(s@, kind),
{
    let n = s.unicode_len();
    let mut start: usize = 0;
    proof {
        assert(s@.subrange(0, n as int) =~= s@);
    }
    while start < n && is_kind(kind, s.get_char(start))
        invariant
            n == s@.len(),
            start <= n,
            trim_start(s@, kind) == trim_start(s@.subrange(start as int, n as int), kind),
        decreases n - start,
    {
        proof {
            assert(s@.subrange(start as int, n as int).drop_first() =~= s@.subrange(start + 1, n as int));
        }
        start += 1;
    }
    let mut end: usize = n;
    assert(trim_start(s@, kind) == s@.subrange(start as int, n as int));
    while end > start && is_kind(kind, s.get_char(end - 1))
        invariant
            n == s@.len(),
            start <= end <= n,
            trimmed(s@, kind) == trim_end(s@.subrange(start as int, end as int), kind),
        decreases end,
    {
        proof {
            assert(s@.subrange(start as int, end as int).drop_last() =~= s@.subrange(start as int, end - 1));
        }
        end -= 1;
    }
    assert(trimmed(s@, kind) == s@.subrange(start as int, end as int));
    s.substring_char(start, end)
}

/// The host of an endpoint.
pub fn endpoint_host(endpoint: &str) -> (host: Option<String>)
    ensures
        match host {
            Some(h) => host_of(endpoint@) == Some(h@),
            None => host_of(endpoint@) is None,
        },
{
    proof {
        reveal_strlit("://");
        reveal_strlit(":");
    }
    let n = endpoint.unicode_len();
    let rest = match find_last(endpoint, "://") {
        Some(i) => {
            let rest = endpoint.substring_char(i + 3, n);
            assert(rest@ =~= endpoint@.skip(i + 3));
            rest
        },
        None => endpoint,
    };
    let named = match find_last(rest, ":") {
        Some(i) => {
            let named = rest.substring_char(0, i);
            assert(named@ =~= rest@.take(i as int));
            named
        },
        None => rest,
    };
    let host = trim(trim(named, Trim::Brackets), Trim::WhiteSpace);
    if host.is_empty() {
        None
    } else {
        Some(crate::text::literal(host))
    }
}

proof fn lemma_trim_start(s: Seq<char>, kind: Trim) -> (a: int)
    ensures
        0 <= a <= s.len(),
        trim_start(s, kind) == s.skip(a),
        forall|i: int| 0 <= i < a ==> is_of(kind, #[trigger] s[i]),
        a < s.len() ==> !is_of(kind, s[a]),
    decreases s.len(),
{
    if s.len() > 0 && is_of(kind, s[0]) {
        let rest = s.drop_first();
        let b = lemma_trim_start(rest, kind);
        assert(rest.skip(b) =~= s.skip(b + 1));
        assert forall|i: int| 0 <= i < b + 1 implies is_of(kind, #[trigger] s[i]) by {
            if i > 0 {
                assert(rest[i - 1] == s[i]);
            }
        }
        b + 1
    } else {
        assert(s.skip(0) =~= s);
        0
    }
}

proof fn lemma_trim_end(s: Seq<char>, kind: Trim) -> (b: int)
    ensures
        0 <= b <= s.len(),
        trim_end(s, kind) == s.take(b),
        forall|i: int| b <= i < s.len() ==> is_of(kind, #[trigger] s[i]),
        b > 0 ==> !is_of(kind, s[b - 1]),
    decreases s.len(),
{
    if s.len() > 0 && is_of(kind, s.last()) {
        let rest = s.drop_last();
        let b = lemma_trim_end(rest, kind);
        assert(rest.take(b) =~= s.take(b));
        assert forall|i: int| b <= i < s.len() implies is_of(kind, #[trigger] s[i]) by {
            if i < rest.len() {
                assert(rest[i] == s[i]);
            }
        }
        b
    } else {
        assert(s.take(s.len() as int) =~= s);
        s.len() as int
    }
}

/// Trimming cuts characters of the kind off both ends, all of them, and nothing else.
pub proof fn law_trimming_cuts_the_ends(s: Seq<char>, kind: Trim)
    ensures
        exists|a: int, b: int|
            0 <= a <= b <= s.len() && trimmed(s, kind) == #[trigger] s.subrange(a, b) && (forall|i: int|
                (0 <= i < a || b <= i < s.len()) ==> is_of(kind, #[trigger] s[i])) && (a < b ==> !is_of(kind, s[a])
                && !is_of(kind, s[b - 1])),
        trimmed(s, kind).len() == 0 <==> forall|i: int| 0 <= i < s.len() ==> is_of(kind, #[trigger] s[i]),
{
    let a = lemma_trim_start(s, kind);
    let rest = s.skip(a);
    let n = lemma_trim_end(rest, kind);
    let b = a + n;
    assert(rest.take(n) =~= s.subrange(a, b));
    assert forall|i: int| (0 <= i < a || b <= i < s.len()) implies is_of(kind, #[trigger] s[i]) by {
        if i >= b {
            assert(rest[i - a] == s[i]);
        }
    }
    if a < b {
        assert(rest[n - 1] == s[b - 1]);
    }
    if n == 0 && a < s.len() {
        assert(rest[0] == s[a]);
        assert(is_of(kind, rest[0]));
    }
}

proof fn lemma_last_before(s: Seq<char>, pattern: Seq<char>, from: int, at: int)
    requires
        0 <= at <= from,
        occurs_at(s, pattern, at),
        forall|i: int| at < i <= from ==> !(#[trigger] occurs_at(s, pattern, i)),
    ensures
        last_before(s, pattern, from) == at,
    decreases from,
{
    if from > at {
        lemma_last_before(s, pattern, from - 1, at);
    }
}

/// The character stands in a host or a port without need of brackets or quotes.
pub open spec fn is_plain(c: char) -> bool {
    c != '/' && c != ':' && c != '[' && c != ']' && !white_space(c)
}

/// The host of an endpoint is what stands between its scheme and its port.
pub proof fn law_hosts_stand_between_scheme_and_port(scheme: Seq<char>, host: Seq<char>, port: Seq<char>)
    requires
        host.len() > 0,
        forall|i: int| 0 <= i < host.len() ==> is_plain(#[trigger] host[i]),
        forall|i: int| 0 <= i < port.len() ==> is_plain(#[trigger] port[i]),
    ensures
        host_of(scheme + "://"@ + host + ":"@ + port) == Some(host),
{
    reveal_strlit("://");
    reveal_strlit(":");
    let whole = scheme + "://"@ + host + ":"@ + port;
    let rest = host + ":"@ + port;
    let at = scheme.len() as int;
    assert(whole.subrange(at, at + 3) =~= "://"@);
    assert forall|i: int| at < i <= whole.len() implies !(#[trigger] occurs_at(whole, "://"@, i)) by {
        if occurs_at(whole, "://"@, i) {
            assert(whole.subrange(i, i + 3)[2] == '/');
            assert(whole[i + 2] == '/');
            let j = i + 2 - (at + 3);
            assert(whole[i + 2] == rest[j]);
            if j < host.len() {
                assert(rest[j] == host[j]);
            } else if j > host.len() {
                assert(rest[j] == port[j - host.len() - 1]);
            }
        }
    }
    lemma_last_before(whole, "://"@, whole.len() as int, at);
    assert(whole.skip(at + 3) =~= rest);
    let colon = host.len() as int;
    assert(rest.subrange(colon, colon + 1) =~= ":"@);
    assert forall|i: int| colon < i <= rest.len() implies !(#[trigger] occurs_at(rest, ":"@, i)) by {
        if occurs_at(rest, ":"@, i) {
            assert(rest.subrange(i, i + 1)[0] == ':');
            assert(rest[i] == port[i - colon - 1]);
        }
    }
    lemma_last_before(rest, ":"@, rest.len() as int, colon);
    assert(rest.take(colon) =~= host);
    lemma_plain_stays(host, Trim::Brackets);
    lemma_plain_stays(host, Trim::WhiteSpace);
}

proof fn lemma_plain_stays(host: Seq<char>, kind: Trim)
    requires
        host.len() > 0,
        forall|i: int| 0 <= i < host.len() ==> is_plain(#[trigger] host[i]),
    ensures
        trimmed(host, kind) == host,
{
    assert(is_plain(host[0]) && is_plain(host[host.len() - 1]));
}

proof fn lemma_wrapped_is_cut(core: Seq<char>, kind: Trim, open: char, close: char)
    requires
        core.len() > 0,
        !is_of(kind, core[0]),
        !is_of(kind, core.last()),
        is_of(kind, open),
        is_of(kind, close),
    ensures
        trimmed(seq![open] + core + seq![close], kind) == core,
        trimmed(core, kind) == core,
{
    reveal_with_fuel(trim_start, 3);
    reveal_with_fuel(trim_end, 3);
    let whole = seq![open] + core + seq![close];
    assert(whole.drop_first() =~= core + seq![close]);
    assert((core + seq![close])[0] == core[0]);
    assert((core + seq![close]).drop_last() =~= core);
}

/// A pair of brackets round a text is cut off, and blanks round it are, and nothing of the text
/// itself where it neither starts nor ends in such a character.
pub proof fn law_brackets_and_blanks_are_cut(core: Seq<char>)
    requires
        core.len() > 0,
    ensures
        core[0] != '[' && core[0] != ']' && core.last() != '[' && core.last() != ']' ==> trimmed(
            seq!['['] + core + seq![']'],
            Trim::Brackets,
        ) == core && trimmed(core, Trim::Brackets) == core,
        is_plain(core[0]) && is_plain(core.last()) ==> trimmed(seq![' '] + core + seq!['\n'], Trim::WhiteSpace) == core
            && trimmed(seq!['\t'] + core + seq!['\r'], Trim::WhiteSpace) == core && trimmed(core, Trim::WhiteSpace)
            == core,
{
    if core[0] != '[' && core[0] != ']' && core.last() != '[' && core.last() != ']' {
        lemma_wrapped_is_cut(core, Trim::Brackets, '[', ']');
    }
    if is_plain(core[0]) && is_plain(core.last()) {
        lemma_wrapped_is_cut(core, Trim::WhiteSpace, ' ', '\n');
        lemma_wrapped_is_cut(core, Trim::WhiteSpace, '\t', '\r');
    }
}

proof fn lemma_nowhere_before(s: Seq<char>, pattern: Seq<char>, from: int)
    requires
        forall|i: int| 0 <= i <= from ==> !(#[trigger] occurs_at(s, pattern, i)),
    ensures
        last_before(s, pattern, from) == -1,
    decreases from + 1,
{
    if from >= 0 {
        lemma_nowhere_before(s, pattern, from - 1);
    }
}

/// The host of an endpoint is found without a scheme and without a port as well, and where nothing
/// stands before the port there is none.
pub proof fn law_schemes_and_ports_may_be_left_out(host: Seq<char>, port: Seq<char>)
    requires
        host.len() > 0,
        forall|i: int| 0 <= i < host.len() ==> is_plain(#[trigger] host[i]),
        forall|i: int| 0 <= i < port.len() ==> is_plain(#[trigger] port[i]),
    ensures
        host_of(host + ":"@ + port) == Some(host),
        host_of(host) == Some(host),
        host_of(":"@ + port) is None,
{
    reveal_strlit("://");
    reveal_strlit(":");
    let rest = host + ":"@ + port;
    let colon = host.len() as int;
    assert forall|i: int| 0 <= i <= rest.len() implies !(#[trigger] occurs_at(rest, "://"@, i)) by {
        if occurs_at(rest, "://"@, i) {
            assert(rest.subrange(i, i + 3)[2] == '/');
            assert(rest[i + 2] == '/');
            if i + 2 < colon {
                assert(rest[i + 2] == host[i + 2]);
            } else if i + 2 > colon {
                assert(rest[i + 2] == port[i + 2 - colon - 1]);
            }
        }
    }
    lemma_nowhere_before(rest, "://"@, rest.len() as int);
    assert(rest.subrange(colon, colon + 1) =~= ":"@);
    assert forall|i: int| colon < i <= rest.len() implies !(#[trigger] occurs_at(rest, ":"@, i)) by {
        if occurs_at(rest, ":"@, i) {
            assert(rest.subrange(i, i + 1)[0] == ':');
            assert(rest[i] == port[i - colon - 1]);
        }
    }
    lemma_last_before(rest, ":"@, rest.len() as int, colon);
    assert(rest.take(colon) =~= host);
    lemma_plain_stays(host, Trim::Brackets);
    lemma_plain_stays(host, Trim::WhiteSpace);
    assert forall|i: int| 0 <= i <= host.len() implies !(#[trigger] occurs_at(host, "://"@, i)) && !occurs_at(
        host,
        ":"@,
        i,
    ) by {
        if occurs_at(host, "://"@, i) {
            assert(host.subrange(i, i + 3)[0] == ':');
            assert(is_plain(host[i]));
        }
        if occurs_at(host, ":"@, i) {
            assert(host.subrange(i, i + 1)[0] == ':');
            assert(is_plain(host[i]));
        }
    }
    lemma_nowhere_before(host, "://"@, host.len() as int);
    assert forall|i: int| 0 <= i <= host.len() implies !(#[trigger] occurs_at(host, ":"@, i)) by {
        assert(!occurs_at(host, "://"@, i) && !occurs_at(host, ":"@, i));
    }
    lemma_nowhere_before(host, ":"@, host.len() as int);
    let bare = ":"@ + port;
    assert forall|i: int| 0 <= i <= bare.len() implies !(#[trigger] occurs_at(bare, "://"@, i)) by {
        if occurs_at(bare, "://"@, i) {
            assert(bare.subrange(i, i + 3)[2] == '/');
            assert(bare[i + 2] == port[i + 1]);
        }
    }
    lemma_nowhere_before(bare, "://"@, bare.len() as int);
    assert(bare.subrange(0, 1) =~= ":"@);
    assert forall|i: int| 0 < i <= bare.len() implies !(#[trigger] occurs_at(bare, ":"@, i)) by {
        if occurs_at(bare, ":"@, i) {
            assert(bare.subrange(i, i + 1)[0] == ':');
            assert(bare[i] == port[i - 1]);
        }
    }
    lemma_last_before(bare, ":"@, bare.len() as int, 0);
    assert(bare.take(0) =~= Seq::<char>::empty());
}

} // verus!
