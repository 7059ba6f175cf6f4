//! Characters, order and assembly of the short strings that names, keys and
//! messages are made of.

use vstd::prelude::*;

verus! {

/// `a` comes before `b` in the order of `str`: character by character, a
/// proper prefix first.
pub open spec fn lt(a: Seq<char>, b: Seq<char>) -> bool
    decreases a.len(),
{
    if b.len() == 0 {
        false
    } else if a.len() == 0 {
        true
    } else if a[0] != b[0] {
        (a[0] as int) < (b[0] as int)
    } else {
        lt(a.drop_first(), b.drop_first())
    }
}

/// No string comes before itself.
pub proof fn lt_irreflexive(a: Seq<char>)
    ensures
        !lt(a, a),
    decreases a.len(),
{
    if a.len() > 0 {
        lt_irreflexive(a.drop_first());
    }
}

/// The order of strings is transitive.
pub proof fn lt_transitive(a: Seq<char>, b: Seq<char>, c: Seq<char>)
    requires
        lt(a, b),
        lt(b, c),
    ensures
        lt(a, c),
    decreases a.len(),
{
    if a.len() > 0 && a[0] == b[0] && b[0] == c[0] {
        lt_transitive(a.drop_first(), b.drop_first(), c.drop_first());
    }
}

/// Of two different strings one comes before the other.
pub proof fn lt_total(a: Seq<char>, b: Seq<char>)
    ensures
        lt(a, b) || a == b || lt(b, a),
    decreases a.len(),
{
    if a.len() > 0 && b.len() > 0 {
        if a[0] == b[0] {
            lt_total(a.drop_first(), b.drop_first());
            if a.drop_first() == b.drop_first() {
                assert(a =~= seq![a[0]] + a.drop_first());
                assert(b =~= seq![b[0]] + b.drop_first());
            }
        }
    } else if a.len() == 0 && b.len() == 0 {
        assert(a =~= b);
    }
}

/// Two strings that share their first `n` characters are ordered by what
/// follows those.
proof fn lt_skip(a: Seq<char>, b: Seq<char>, n: int)
    requires
        0 <= n <= a.len(),
        n <= b.len(),
        a.take(n) == b.take(n),
    ensures
        lt(a, b) == lt(a.skip(n), b.skip(n)),
    decreases n,
{
    if n == 0 {
        assert(a.skip(0) =~= a);
        assert(b.skip(0) =~= b);
    } else {
        assert(a[0] == a.take(n)[0]);
        assert(b[0] == b.take(n)[0]);
        assert(a.drop_first().take(n - 1) =~= a.take(n).drop_first());
        assert(b.drop_first().take(n - 1) =~= b.take(n).drop_first());
        lt_skip(a.drop_first(), b.drop_first(), n - 1);
        assert(a.drop_first().skip(n - 1) =~= a.skip(n));
        assert(b.drop_first().skip(n - 1) =~= b.skip(n));
    }
}

/// The characters of `s`, in order.
pub fn chars_of(s: &str) -> (r: Vec<char>)
    ensures
        r@ == s@,
{
    let mut r: Vec<char> = Vec::new();
    for c in it: s.chars()
        invariant
            it.seq() == s@,
            r@ == s@.take(it.index@),
    {
        r.push(c);
        assert(s@.take(it.index@ + 1) =~= s@.take(it.index@).push(c));
    }
    assert(s@.take(s@.len() as int) =~= s@);
    r
}

/// Reports whether the two strings hold the same characters.
pub fn same(a: &str, b: &str) -> (r: bool)
    ensures
        r == (a@ == b@),
{
    a.to_owned() == b.to_owned()
}

/// Reports whether `a` comes before `b`.
pub fn less(a: &str, b: &str) -> (r: bool)
    ensures
        r == lt(a@, b@),
{
    let x = chars_of(a);
    let y = chars_of(b);
    let mut i: usize = 0;
    while i < x.len() && i < y.len() && x[i] == y[i]
        invariant
            i <= x.len(),
            i <= y.len(),
            x@.take(i as int) == y@.take(i as int),
        decreases x.len() - i,
    {
        assert(x@.take(i as int + 1) =~= x@.take(i as int).push(x@[i as int]));
        assert(y@.take(i as int + 1) =~= y@.take(i as int).push(y@[i as int]));
        i = i + 1;
    }
    proof {
        lt_skip(x@, y@, i as int);
    }
    if i == y.len() {
        false
    } else if i == x.len() {
        true
    } else {
        let c: char = x[i];
        let d: char = y[i];
        c < d
    }
}

/// `a` followed by `b`.
pub fn cat(a: &str, b: &str) -> (r: String)
    ensures
        r@ == a@ + b@,
{
    String::from_str(a).concat(b)
}

/// The three strings one after the other.
pub fn cat3(a: &str, b: &str, c: &str) -> (r: String)
    ensures
        r@ == a@ + b@ + c@,
{
    String::from_str(a).concat(b).concat(c)
}

/// The four strings one after the other.
pub fn cat4(a: &str, b: &str, c: &str, d: &str) -> (r: String)
    ensures
        r@ == a@ + b@ + c@ + d@,
{
    String::from_str(a).concat(b).concat(c).concat(d)
}

/// The five strings one after the other.
pub fn cat5(a: &str, b: &str, c: &str, d: &str, e: &str) -> (r: String)
    ensures
        r@ == a@ + b@ + c@ + d@ + e@,
{
    String::from_str(a).concat(b).concat(c).concat(d).concat(e)
}

/// The last `tail.len()` characters of `s` are `tail`.
pub open spec fn has_suffix(s: Seq<char>, tail: Seq<char>) -> bool {
    tail.len() <= s.len() && s.skip(s.len() - tail.len()) == tail
}

/// The first `head.len()` characters of `s` are `head`.
pub open spec fn has_prefix(s: Seq<char>, head: Seq<char>) -> bool {
    head.len() <= s.len() && s.take(head.len() as int) == head
}

/// Reports whether `s` ends in `tail`.
pub fn ends_with(s: &str, tail: &str) -> (r: bool)
    ensures
        r == has_suffix(s@, tail@),
{
    let n: usize = s.unicode_len();
    let m: usize = tail.unicode_len();
    if m > n {
        return false;
    }
    assert(s@.subrange(n - m, n as int) =~= s@.skip(n - m));
    same(s.substring_char(n - m, n), tail)
}

/// `part` stands in `s` at `i`.
pub open spec fn stands_at(s: Seq<char>, part: Seq<char>, i: int) -> bool {
    0 <= i <= s.len() - part.len() && s.subrange(i, i + part.len()) == part
}

/// `part` stands somewhere in `s`.
pub open spec fn occurs(s: Seq<char>, part: Seq<char>) -> bool {
    exists|i: int| stands_at(s, part, i)
}

/// Reports whether `part` stands somewhere in `s`.
pub fn mentions(s: &str, part: &str) -> (r: bool)
    ensures
        r == occurs(s@, part@),
{
    let n: usize = s.unicode_len();
    let m: usize = part.unicode_len();
    if m > n {
        return false;
    }
    let last: usize = n - m;
    let mut i: usize = 0;
    while i < last
        invariant
            n == s@.len(),
            m == part@.len(),
            last + m == n,
            i <= last,
            forall|j: int| 0 <= j < i ==> !stands_at(s@, part@, j),
        decreases last - i,
    {
        if same(s.substring_char(i, i + m), part) {
            assert(stands_at(s@, part@, i as int));
            return true;
        }
        i = i + 1;
    }
    let r = same(s.substring_char(last, n), part);
    assert(r == stands_at(s@, part@, last as int));
    r
}

/// What follows `head` in `s`, where `s` starts with it.
pub fn strip_prefix<'a>(s: &'a str, head: &str) -> (r: Option<&'a str>)
    ensures
        match r {
            Some(t) => has_prefix(s@, head@) && t@ == s@.skip(head@.len() as int),
            None => !has_prefix(s@, head@),
        },
{
    let n: usize = s.unicode_len();
    let m: usize = head.unicode_len();
    if m > n {
        return None;
    }
    assert(s@.subrange(0, m as int) =~= s@.take(m as int));
    assert(s@.subrange(m as int, n as int) =~= s@.skip(m as int));
    if same(s.substring_char(0, m), head) {
        Some(s.substring_char(m, n))
    } else {
        None
    }
}

/// The path without slashes at its end, and without dots there that stand for the directory that
/// they are in.
pub open spec fn trimmed_end(path: Seq<char>) -> Seq<char>
    decreases path.len(),
{
    if path.len() > 0 && (path.last() == '/' || has_suffix(path, "/."@)) {
        trimmed_end(path.drop_last())
    } else {
        path
    }
}

/// The path without slashes at its start, and without dots there that stand for the directory that
/// they are in.
pub open spec fn trimmed_start(path: Seq<char>) -> Seq<char>
    decreases path.len(),
{
    if path.len() > 0 && (path[0] == '/' || has_prefix(path, "./"@)) {
        trimmed_start(path.skip(1))
    } else {
        path
    }
}

/// What is left of the path `s` from `from` on, once its ends are trimmed.
pub fn trim_path(s: &str, from: usize) -> (r: &str)
    requires
        from <= s@.len(),
    ensures
        r@ == trimmed_start(trimmed_end(s@.skip(from as int))),
{
    proof {
        reveal_strlit("/.");
        reveal_strlit("./");
    }
    let v = chars_of(s);
    let ghost rest = s@.skip(from as int);
    let n: usize = s.unicode_len();
    let mut end: usize = n;
    assert(rest.take(rest.len() as int) =~= rest);
    while end > from && (v[end - 1] == '/' || end - from >= 2 && v[end - 1] == '.' && v[end - 2]
        == '/')
        invariant
            v@ == s@,
            n == s@.len(),
            rest == s@.skip(from as int),
            from <= end <= n,
            trimmed_end(rest) == trimmed_end(rest.take(end - from)),
            "/."@ =~= seq!['/', '.'],
        decreases end,
    {
        let ghost t = rest.take(end - from);
        assert(t.last() == v@[end - 1]);
        assert(t.drop_last() =~= rest.take(end - from - 1));
        assert(t.last() != '/' ==> t.skip(t.len() - 2) =~= "/."@);
        end = end - 1;
    }
    let ghost t = rest.take(end - from);
    assert(trimmed_end(t) == t) by {
        if t.len() > 0 {
            assert(t.last() == v@[end - 1]);
            if has_suffix(t, "/."@) {
                assert(t.skip(t.len() - 2)[0] == '/' && t.skip(t.len() - 2)[1] == '.');
            }
        }
    }
    let mut start: usize = from;
    assert(t.skip(0) =~= t);
    while start < end && (v[start] == '/' || end - start >= 2 && v[start] == '.' && v[start + 1]
        == '/')
        invariant
            v@ == s@,
            n == s@.len(),
            rest == s@.skip(from as int),
            t == rest.take(end - from),
            from <= start <= end <= n,
            trimmed_start(t) == trimmed_start(t.skip(start - from)),
            "./"@ =~= seq!['.', '/'],
        decreases end - start,
    {
        let ghost u = t.skip(start - from);
        assert(u[0] == v@[start as int]);
        assert(u.skip(1) =~= t.skip(start - from + 1));
        assert(u[0] != '/' ==> u.take(2) =~= "./"@);
        start = start + 1;
    }
    let r = s.substring_char(start, end);
    let ghost u = t.skip(start - from);
    assert(trimmed_start(u) == u) by {
        if u.len() > 0 {
            assert(u[0] == v@[start as int]);
            if has_prefix(u, "./"@) {
                assert(u.take(2)[0] == '.' && u.take(2)[1] == '/');
            }
        }
    }
    assert(r@ =~= u);
    r
}

/// The first `n` characters of `s`, or all if there are fewer.
pub open spec fn at_most(s: Seq<char>, n: int) -> Seq<char> {
    if s.len() > n {
        s.take(n)
    } else {
        s
    }
}

/// The first `n` characters of `s`, or all if there are fewer.
pub fn truncate(s: &str, n: usize) -> (r: &str)
    ensures
        r@ == at_most(s@, n as int),
{
    if s.unicode_len() > n {
        let r = s.substring_char(0, n);
        assert(r@ =~= s@.take(n as int));
        r
    } else {
        s
    }
}

/// `i` is where `c` stands last in `s`.
pub open spec fn last_at(s: Seq<char>, c: char, i: int) -> bool {
    &&& 0 <= i < s.len()
    &&& s[i] == c
    &&& forall|j: int| i < j < s.len() ==> s[j] != c
}

/// Where `c` stands last in `s`.
pub open spec fn last_index(s: Seq<char>, c: char) -> int {
    choose|i: int| last_at(s, c, i)
}

/// What follows the last `c` in `s`.
pub open spec fn after_last(s: Seq<char>, c: char) -> Option<Seq<char>> {
    if s.contains(c) {
        Some(s.skip(last_index(s, c) + 1))
    } else {
        None
    }
}

/// Splits `s` at the last `c`, which belongs to neither part.
pub fn rsplit_once<'a>(s: &'a str, c: char) -> (r: Option<(&'a str, &'a str)>)
    ensures
        match r {
            Some(p) => {
                &&& last_at(s@, c, last_index(s@, c))
                &&& p.0@ == s@.take(last_index(s@, c))
                &&& Some(p.1@) == after_last(s@, c)
            },
            None => after_last(s@, c) is None,
        },
{
    let v = chars_of(s);
    let n: usize = v.len();
    let mut i: usize = n;
    while i > 0
        invariant
            v@ == s@,
            n == v@.len(),
            i <= n,
            forall|j: int| i <= j < n ==> s@[j] != c,
        decreases i,
    {
        i = i - 1;
        if v[i] == c {
            let _ = s.unicode_len();
            let p = (s.substring_char(0, i), s.substring_char(i + 1, n));
            assert(last_at(s@, c, i as int));
            assert(s@.contains(c));
            assert(last_index(s@, c) == i);
            assert(p.0@ =~= s@.take(i as int));
            assert(p.1@ =~= s@.skip(i as int + 1));
            return Some(p);
        }
    }
    None
}

/// `c` with an ASCII capital made small.
pub open spec fn lower_char(c: char) -> char {
    if 'A' <= c && c <= 'Z' {
        "abcdefghijklmnopqrstuvwxyz"@[c as int - 'A' as int]
    } else {
        c
    }
}

/// `s` with its ASCII capitals made small.
pub open spec fn lower(s: Seq<char>) -> Seq<char> {
    s.map_values(|c: char| lower_char(c))
}

/// No small letter, and nothing that is no letter, is changed by [`lower_char`].
pub proof fn lower_char_twice(c: char)
    ensures
        lower_char(lower_char(c)) == lower_char(c),
        'A' <= c && c <= 'Z' ==> 'a' <= lower_char(c) && lower_char(c) <= 'z',
{
    reveal_strlit("abcdefghijklmnopqrstuvwxyz");
}

/// The character at `i` of `s` in lower case, as a string.
pub fn lower_at(s: &str, i: usize) -> (r: &str)
    requires
        i < s@.len(),
    ensures
        r@ == seq![lower_char(s@[i as int])],
{
    let _ = s.unicode_len();
    let c: char = s.get_char(i);
    if 'A' <= c && c <= 'Z' {
        proof {
            reveal_strlit("abcdefghijklmnopqrstuvwxyz");
        }
        let k: usize = (c as u32 - 'A' as u32) as usize;
        let r = "abcdefghijklmnopqrstuvwxyz".substring_char(k, k + 1);
        assert(r@ =~= seq![lower_char(c)]);
        r
    } else {
        let r = s.substring_char(i, i + 1);
        assert(r@ =~= seq![lower_char(c)]);
        r
    }
}

/// `s` with its ASCII capitals made small.
pub fn to_lower(s: &str) -> (r: String)
    ensures
        r@ == lower(s@),
{
    let n: usize = s.unicode_len();
    let mut out = String::new();
    let mut i: usize = 0;
    assert(out@ =~= lower(s@).take(0));
    while i < n
        invariant
            n == s@.len(),
            i <= n,
            out@ == lower(s@).take(i as int),
        decreases n - i,
    {
        out.append(lower_at(s, i));
        i = i + 1;
        assert(out@ =~= lower(s@).take(i as int));
    }
    assert(lower(s@).take(n as int) =~= lower(s@));
    out
}

/// The decimal digits of `n`, most significant first.
pub open spec fn decimal(n: nat) -> Seq<char>
    decreases n,
{
    if n < 10 {
        seq![digit(n)]
    } else {
        decimal(n / 10).push(digit(n % 10))
    }
}

/// The character for a digit below ten.
pub open spec fn digit(d: nat) -> char {
    "0123456789"@[d as int]
}

/// `n` in decimal, without leading zeros.
pub fn show(n: u64) -> (r: String)
    ensures
        r@ == decimal(n as nat),
    decreases n,
{
    let head = if n < 10 {
        String::new()
    } else {
        show(n / 10)
    };
    let d: usize = (n % 10) as usize;
    proof {
        reveal_strlit("0123456789");
    }
    let last = "0123456789".substring_char(d, d + 1);
    assert(last@ =~= seq![digit((n % 10) as nat)]);
    assert(head@ + last@ =~= decimal(n as nat));
    head.concat(last)
}

/// `n` in decimal, with a sign if it is negative.
pub open spec fn signed_decimal(n: int) -> Seq<char> {
    if n < 0 {
        "-"@ + decimal((-n) as nat)
    } else {
        decimal(n as nat)
    }
}

/// `n` in decimal, with a sign if it is negative.
pub fn show_signed(n: i64) -> (r: String)
    ensures
        r@ == signed_decimal(n as int),
{
    if n >= 0 {
        show(n as u64)
    } else {
        let m: u64 = (-1 - n) as u64 + 1;
        cat("-", show(m).as_str())
    }
}

/// Where the first `c` is in `s` from `i` on, or the end.
pub open spec fn find_from(s: Seq<char>, c: char, i: int) -> int
    decreases s.len() - i,
{
    if i >= s.len() {
        s.len() as int
    } else if s[i] == c {
        i
    } else {
        find_from(s, c, i + 1)
    }
}

/// The place of a character is in the string, or at its end.
proof fn find_from_bounds(s: Seq<char>, c: char, i: int)
    requires
        0 <= i <= s.len(),
    ensures
        i <= find_from(s, c, i) <= s.len(),
        find_from(s, c, i) < s.len() ==> s[find_from(s, c, i)] == c,
    decreases s.len() - i,
{
    if i < s.len() && s[i] != c {
        find_from_bounds(s, c, i + 1);
    }
}

/// A line that was ended: without a carriage return at its end.
pub open spec fn ended_line(s: Seq<char>) -> Seq<char> {
    if s.len() > 0 && s.last() == '\r' {
        s.drop_last()
    } else {
        s
    }
}

/// The lines of `s` from `i` on. A line ends with a line feed, which a carriage return may precede;
/// neither belongs to the line. The last line need not be ended.
pub open spec fn lines_from(s: Seq<char>, i: int) -> Seq<Seq<char>>
    decreases s.len() - i,
    via lines_from_decreases
{
    if i < 0 || i >= s.len() {
        Seq::empty()
    } else {
        let end = find_from(s, '\n', i);
        if end < s.len() {
            seq![ended_line(s.subrange(i, end))] + lines_from(s, end + 1)
        } else {
            seq![s.skip(i)]
        }
    }
}

#[via_fn]
proof fn lines_from_decreases(s: Seq<char>, i: int) {
    if 0 <= i < s.len() {
        find_from_bounds(s, '\n', i);
    }
}

/// The lines of `s`.
pub open spec fn lines_of(s: Seq<char>) -> Seq<Seq<char>> {
    lines_from(s, 0)
}

/// The lines of `s`.
pub fn lines(s: &str) -> (r: Vec<String>)
    ensures
        r.deep_view() == lines_of(s@),
{
    let v = chars_of(s);
    let n: usize = v.len();
    let _ = s.unicode_len();
    let mut r: Vec<String> = Vec::new();
    let mut i: usize = 0;
    assert(r.deep_view() + lines_from(s@, 0) =~= lines_of(s@));
    while i < n
        invariant
            v@ == s@,
            n == v@.len(),
            i <= n,
            r.deep_view() + lines_from(s@, i as int) == lines_of(s@),
        decreases n - i,
    {
        let ghost before = r.deep_view();
        let mut end: usize = i;
        while end < n && v[end] != '\n'
            invariant
                v@ == s@,
                n == v@.len(),
                i <= end <= n,
                find_from(s@, '\n', i as int) == find_from(s@, '\n', end as int),
            decreases n - end,
        {
            end = end + 1;
        }
        if end < n {
            let stop: usize = if end > i && v[end - 1] == '\r' {
                end - 1
            } else {
                end
            };
            let line = s.substring_char(i, stop).to_owned();
            assert(line@ =~= ended_line(s@.subrange(i as int, end as int)));
            r.push(line);
            assert(r.deep_view() =~= before.push(line@));
            assert(r.deep_view() + lines_from(s@, end + 1) =~= before + (seq![line@] + lines_from(
                s@,
                end + 1,
            )));
            i = end + 1;
        } else {
            let line = s.substring_char(i, n).to_owned();
            assert(line@ =~= s@.skip(i as int));
            r.push(line);
            assert(r.deep_view() =~= before.push(line@));
            assert(lines_from(s@, n as int) =~= Seq::empty());
            assert(r.deep_view() + lines_from(s@, n as int) =~= before + seq![line@]);
            i = n;
        }
    }
    assert(r.deep_view() + Seq::empty() =~= r.deep_view());
    r
}

/// The parts of `s` from `i` on, each ended by a line feed but perhaps for the last.
pub open spec fn parts_from(s: Seq<char>, i: int) -> Seq<Seq<char>>
    decreases s.len() - i,
    via parts_from_decreases
{
    if i < 0 || i >= s.len() {
        Seq::empty()
    } else {
        let end = find_from(s, '\n', i);
        if end < s.len() {
            seq![s.subrange(i, end)] + parts_from(s, end + 1)
        } else {
            seq![s.skip(i)]
        }
    }
}

#[via_fn]
proof fn parts_from_decreases(s: Seq<char>, i: int) {
    if 0 <= i < s.len() {
        find_from_bounds(s, '\n', i);
    }
}

/// The parts of `s`, each ended by a line feed but perhaps for the last.
pub fn split_lines(s: &str) -> (r: Vec<String>)
    ensures
        r.deep_view() == parts_from(s@, 0),
{
    let v = chars_of(s);
    let n: usize = v.len();
    let _ = s.unicode_len();
    let mut r: Vec<String> = Vec::new();
    let mut i: usize = 0;
    assert(r.deep_view() + parts_from(s@, 0) =~= parts_from(s@, 0));
    while i < n
        invariant
            v@ == s@,
            n == v@.len(),
            i <= n,
            r.deep_view() + parts_from(s@, i as int) == parts_from(s@, 0),
        decreases n - i,
    {
        let ghost before = r.deep_view();
        let mut end: usize = i;
        while end < n && v[end] != '\n'
            invariant
                v@ == s@,
                n == v@.len(),
                i <= end <= n,
                find_from(s@, '\n', i as int) == find_from(s@, '\n', end as int),
            decreases n - end,
        {
            end = end + 1;
        }
        let part = s.substring_char(i, end).to_owned();
        assert(end == n ==> part@ =~= s@.skip(i as int));
        r.push(part);
        assert(r.deep_view() =~= before.push(part@));
        if end < n {
            assert(r.deep_view() + parts_from(s@, end + 1) =~= before + (seq![part@] + parts_from(
                s@,
                end + 1,
            )));
            i = end + 1;
        } else {
            assert(parts_from(s@, n as int) =~= Seq::empty());
            assert(r.deep_view() + parts_from(s@, n as int) =~= before + seq![part@]);
            i = n;
        }
    }
    assert(r.deep_view() + Seq::empty() =~= r.deep_view());
    r
}

/// The strings one after the other, with a separator between them.
pub open spec fn joined(parts: Seq<Seq<char>>, sep: Seq<char>) -> Seq<char>
    decreases parts.len(),
{
    if parts.len() == 0 {
        Seq::empty()
    } else if parts.len() == 1 {
        parts[0]
    } else {
        joined(parts.drop_last(), sep) + sep + parts.last()
    }
}

/// The strings one after the other, with a separator between them.
pub fn join(parts: &Vec<String>, sep: &str) -> (r: String)
    ensures
        r@ == joined(parts.deep_view(), sep@),
{
    let ghost all = parts.deep_view();
    if parts.len() == 0 {
        return String::new();
    }
    let mut out = parts[0].clone();
    let mut i: usize = 1;
    assert(all.take(1)[0] == parts@[0]@);
    while i < parts.len()
        invariant
            all == parts.deep_view(),
            1 <= i <= parts@.len(),
            out@ == joined(all.take(i as int), sep@),
        decreases parts.len() - i,
    {
        assert(all.take(i as int + 1).drop_last() =~= all.take(i as int));
        assert(all.take(i as int + 1).last() == parts@[i as int]@);
        out.append(sep);
        out.append(parts[i].as_str());
        i = i + 1;
    }
    assert(all.take(i as int) =~= all);
    out
}

} // verus!
