//! Text on characters: comparison, trimming, splitting, numbers.

use vstd::prelude::*;

verus! {

/// Whether two texts hold the same characters.
pub fn same_text(a: &str, b: &str) -> (r: bool)
    ensures
        r == (a@ == b@),
{
    a.to_owned() == b.to_owned()
}

/// Whether a character has the Unicode property `White_Space`.
pub open spec fn white_space(c: char) -> bool {
    let n = c as u32;
    ||| 0x09 <= n <= 0x0d
    ||| n == 0x20
    ||| n == 0x85
    ||| n == 0xa0
    ||| n == 0x1680
    ||| 0x2000 <= n <= 0x200a
    ||| n == 0x2028
    ||| n == 0x2029
    ||| n == 0x202f
    ||| n == 0x205f
    ||| n == 0x3000
}

/// Whether a character has the Unicode property `White_Space`.
pub fn is_whitespace(c: char) -> (r: bool)
    ensures
        r == white_space(c),
{
    match c as u32 {
        0x09..=0x0d | 0x20 | 0x85 | 0xa0 | 0x1680 => true,
        0x2000..=0x200a | 0x2028 | 0x2029 | 0x202f | 0x205f | 0x3000 => true,
        _ => false,
    }
}

/// The characters of a text.
pub fn chars_of(text: &str) -> (r: Vec<char>)
    ensures
        r@ == text@,
{
    let mut r: Vec<char> = Vec::new();
    let n: usize = text.unicode_len();
    let mut i: usize = 0;
    while i < n
        invariant
            i <= n,
            n == text@.len(),
            r@ == text@.take(i as int),
        decreases n - i,
    {
        r.push(text.get_char(i));
        i = i + 1;
        assert(r@ =~= text@.take(i as int));
    }
    assert(text@.take(n as int) =~= text@);
    r
}

/// Whether `text` begins with `prefix`.
pub open spec fn begins_with(text: Seq<char>, prefix: Seq<char>) -> bool {
    prefix.len() <= text.len() && text.take(prefix.len() as int) == prefix
}

/// Whether `text` begins with `prefix`.
pub fn starts_with(text: &str, prefix: &str) -> (r: bool)
    ensures
        r == begins_with(text@, prefix@),
{
    let n: usize = prefix.unicode_len();
    if text.unicode_len() < n {
        return false;
    }
    same_text(text.substring_char(0, n), prefix)
}

/// `s` without the white space at its start.
pub open spec fn trimmed_start(s: Seq<char>) -> Seq<char>
    decreases s.len(),
{
    if s.len() > 0 && white_space(s[0]) {
        trimmed_start(s.drop_first())
    } else {
        s
    }
}

/// `s` without the white space at its end.
pub open spec fn trimmed_end(s: Seq<char>) -> Seq<char>
    decreases s.len(),
{
    if s.len() > 0 && white_space(s.last()) {
        trimmed_end(s.drop_last())
    } else {
        s
    }
}

/// `s` without the white space around it.
pub open spec fn trimmed(s: Seq<char>) -> Seq<char> {
    trimmed_end(trimmed_start(s))
}

/// Position of the first character from `from` on that is not white space.
fn skip_white(chars: &Vec<char>, from: usize) -> (at: usize)
    requires
        from <= chars@.len(),
    ensures
        from <= at <= chars@.len(),
        chars@.skip(at as int) == trimmed_start(chars@.skip(from as int)),
        at < chars@.len() ==> !white_space(chars@[at as int]),
{
    let mut at: usize = from;
    while at < chars.len() && is_whitespace(chars[at])
        invariant
            from <= at <= chars@.len(),
            trimmed_start(chars@.skip(at as int)) == trimmed_start(chars@.skip(from as int)),
        ensures
            from <= at <= chars@.len(),
            trimmed_start(chars@.skip(at as int)) == trimmed_start(chars@.skip(from as int)),
            at < chars@.len() ==> !white_space(chars@[at as int]),
        decreases chars@.len() - at,
    {
        assert(chars@.skip(at as int)[0] == chars@[at as int]);
        assert(chars@.skip(at as int).drop_first() =~= chars@.skip(at + 1));
        at = at + 1;
    }
    assert(at < chars@.len() ==> chars@.skip(at as int)[0] == chars@[at as int]);
    at
}

/// `text` without the white space around it.
pub fn trim(text: &str) -> (r: String)
    ensures
        r@ == trimmed(text@),
{
    let chars = chars_of(text);
    assert(chars@.skip(0) =~= chars@);
    let from = skip_white(&chars, 0);
    let mut to: usize = chars.len();
    let ghost rest = chars@.skip(from as int);
    assert(chars@.subrange(from as int, to as int) =~= rest);
    while to > from && is_whitespace(chars[to - 1])
        invariant
            from <= to <= chars@.len(),
            rest == chars@.skip(from as int),
            trimmed_end(chars@.subrange(from as int, to as int)) == trimmed_end(rest),
        ensures
            from <= to <= chars@.len(),
            trimmed_end(chars@.subrange(from as int, to as int)) == trimmed_end(rest),
            to > from ==> !white_space(chars@[to - 1]),
        decreases to,
    {
        let ghost now = chars@.subrange(from as int, to as int);
        assert(now.last() == chars@[to - 1]);
        assert(now.drop_last() =~= chars@.subrange(from as int, to - 1));
        to = to - 1;
    }
    assert(to > from ==> chars@.subrange(from as int, to as int).last() == chars@[to - 1]);
    text.substring_char(from, to).to_owned()
}

/// The pieces of `s` between the separators `c`.
pub open spec fn split_on(s: Seq<char>, c: char) -> Seq<Seq<char>>
    decreases s.len(),
{
    if s.len() == 0 {
        seq![s]
    } else if s.last() == c {
        split_on(s.drop_last(), c).push(seq![])
    } else {
        let before = split_on(s.drop_last(), c);
        before.drop_last().push(before.last().push(s.last()))
    }
}

/// What a list of texts says.
pub open spec fn views(texts: Seq<String>) -> Seq<Seq<char>> {
    texts.map_values(|t: String| t@)
}

/// The pieces of `text` between the separators `c`.
pub fn split(text: &str, c: char) -> (r: Vec<String>)
    ensures
        views(r@) == split_on(text@, c),
        r@.len() > 0,
{
    let chars = chars_of(text);
    let mut r: Vec<String> = Vec::new();
    let mut from: usize = 0;
    let mut i: usize = 0;
    proof {
        assert(text@.take(0) =~= Seq::<char>::empty());
        assert(text@.subrange(0, 0) =~= Seq::<char>::empty());
        assert(views(r@).push(text@.subrange(0, 0)) =~= split_on(text@.take(0), c));
    }
    while i < chars.len()
        invariant
            from <= i <= chars@.len(),
            chars@ == text@,
            views(r@).push(text@.subrange(from as int, i as int)) == split_on(
                text@.take(i as int),
                c,
            ),
        decreases chars@.len() - i,
    {
        let ghost before = split_on(text@.take(i as int), c);
        let ghost list = views(r@);
        let ghost piece = text@.subrange(from as int, i as int);
        assert(text@.take(i + 1).drop_last() =~= text@.take(i as int));
        if chars[i] == c {
            let s = text.substring_char(from, i).to_owned();
            r.push(s);
            assert(views(r@) =~= list.push(piece));
            from = i + 1;
            assert(text@.subrange(from as int, i + 1) =~= Seq::<char>::empty());
        } else {
            assert(text@.subrange(from as int, i + 1) =~= piece.push(text@[i as int]));
            assert(before.last() == piece);
            assert(before.drop_last() =~= list);
        }
        i = i + 1;
    }
    let s = text.substring_char(from, i).to_owned();
    let ghost list = views(r@);
    r.push(s);
    proof {
        assert(views(r@) =~= list.push(text@.subrange(from as int, i as int)));
        assert(text@.take(i as int) =~= text@);
    }
    r
}

/// `s` cut at the first `c`: what stands before it and what stands behind it.
pub open spec fn cut_at(s: Seq<char>, c: char) -> Option<(Seq<char>, Seq<char>)> {
    match s.index_of_first(c) {
        Some(i) => Some((s.take(i), s.skip(i + 1))),
        None => None,
    }
}

/// `text` cut at the first `c`.
pub fn split_once(text: &str, c: char) -> (r: Option<(String, String)>)
    ensures
        r is Some <==> cut_at(text@, c) is Some,
        r matches Some((a, b)) ==> cut_at(text@, c) == Some((a@, b@)),
{
    let chars = chars_of(text);
    let mut i: usize = 0;
    while i < chars.len()
        invariant
            i <= chars@.len(),
            chars@ == text@,
            forall|j: int| 0 <= j < i ==> text@[j] != c,
        decreases chars@.len() - i,
    {
        if chars[i] == c {
            proof {
                assert(text@.contains(c));
                text@.index_of_first_ensures(c);
                assert(text@.index_of_first(c)->0 == i);
                assert(text@.subrange(0, i as int) =~= text@.take(i as int));
                assert(text@.subrange(i + 1, text@.len() as int) =~= text@.skip(i + 1));
            }
            let a = text.substring_char(0, i).to_owned();
            let b = text.substring_char(i + 1, chars.len()).to_owned();
            return Some((a, b));
        }
        i = i + 1;
    }
    proof {
        text@.index_of_first_ensures(c);
    }
    None
}

/// The words of `s`: its longest runs without white space.
pub open spec fn words_of(s: Seq<char>) -> Seq<Seq<char>>
    decreases s.len(),
{
    if s.len() == 0 {
        seq![]
    } else if white_space(s.last()) {
        words_of(s.drop_last())
    } else if s.len() == 1 || white_space(s[s.len() - 2]) {
        words_of(s.drop_last()).push(seq![s.last()])
    } else {
        let before = words_of(s.drop_last());
        before.drop_last().push(before.last().push(s.last()))
    }
}

/// The words of `text`.
pub fn words(text: &str) -> (r: Vec<String>)
    ensures
        views(r@) == words_of(text@),
{
    let chars = chars_of(text);
    let mut r: Vec<String> = Vec::new();
    let mut from: usize = 0;
    let mut inside = false;
    let mut i: usize = 0;
    proof {
        assert(text@.take(0) =~= Seq::<char>::empty());
        assert(views(r@) =~= words_of(text@.take(0)));
    }
    while i < chars.len()
        invariant
            from <= i <= chars@.len(),
            chars@ == text@,
            inside == (i > 0 && !white_space(text@[i - 1])),
            inside ==> from < i,
            inside ==> views(r@).push(text@.subrange(from as int, i as int)) == words_of(
                text@.take(i as int),
            ),
            !inside ==> views(r@) == words_of(text@.take(i as int)),
        decreases chars@.len() - i,
    {
        let ghost before = words_of(text@.take(i as int));
        let ghost list = views(r@);
        let ghost piece = text@.subrange(from as int, i as int);
        let ghost next = text@.take(i + 1);
        assert(next.drop_last() =~= text@.take(i as int));
        assert(next.last() == text@[i as int]);
        assert(i > 0 ==> next[next.len() - 2] == text@[i - 1]);
        if is_whitespace(chars[i]) {
            if inside {
                let s = text.substring_char(from, i).to_owned();
                r.push(s);
                assert(views(r@) =~= list.push(piece));
            }
            inside = false;
        } else {
            if !inside {
                from = i;
                assert(text@.subrange(from as int, i + 1) =~= seq![text@[i as int]]);
            } else {
                assert(text@.subrange(from as int, i + 1) =~= piece.push(text@[i as int]));
                assert(before.last() == piece);
                assert(before.drop_last() =~= list);
            }
            inside = true;
        }
        i = i + 1;
    }
    assert(text@.take(i as int) =~= text@);
    if inside {
        let ghost list = views(r@);
        let s = text.substring_char(from, i).to_owned();
        r.push(s);
        assert(views(r@) =~= list.push(text@.subrange(from as int, i as int)));
    }
    r
}

/// What stands behind the last `c` of `s`, the whole of it without one.
pub open spec fn behind_last(s: Seq<char>, c: char) -> Seq<char>
    decreases s.len(),
{
    if s.len() == 0 || s.last() == c {
        seq![]
    } else {
        behind_last(s.drop_last(), c).push(s.last())
    }
}

/// What stands behind the last `c` of `text`.
pub fn last_piece(text: &str, c: char) -> (r: String)
    ensures
        r@ == behind_last(text@, c),
{
    let chars = chars_of(text);
    let n: usize = chars.len();
    let mut from: usize = n;
    assert(text@.subrange(n as int, n as int) =~= Seq::<char>::empty());
    while from > 0 && chars[from - 1] != c
        invariant
            from <= n,
            n == chars@.len(),
            chars@ == text@,
            forall|j: int| from <= j < n ==> text@[j] != c,
        ensures
            from <= n,
            from == 0 || text@[from - 1] == c,
            forall|j: int| from <= j < n ==> text@[j] != c,
        decreases from,
    {
        from = from - 1;
    }
    proof {
        tail_is_behind_last(text@, c, from as int);
    }
    text.substring_char(from, n).to_owned()
}

proof fn tail_is_behind_last(s: Seq<char>, c: char, from: int)
    requires
        0 <= from <= s.len(),
        from == 0 || s[from - 1] == c,
        forall|j: int| from <= j < s.len() ==> s[j] != c,
    ensures
        s.subrange(from, s.len() as int) == behind_last(s, c),
    decreases s.len(),
{
    if from < s.len() {
        let d = s.drop_last();
        tail_is_behind_last(d, c, from);
        assert(s.subrange(from, s.len() as int) =~= d.subrange(from, d.len() as int).push(
            s.last(),
        ));
    } else {
        assert(s.subrange(from, s.len() as int) =~= Seq::<char>::empty());
    }
}

/// `s` without the `prefix`es at its start.
pub open spec fn without_prefixes(s: Seq<char>, prefix: Seq<char>) -> Seq<char>
    decreases s.len(),
{
    if prefix.len() > 0 && begins_with(s, prefix) {
        without_prefixes(s.skip(prefix.len() as int), prefix)
    } else {
        s
    }
}

/// `text` without the `prefix`es at its start.
pub fn trim_start_matches(text: &str, prefix: &str) -> (r: String)
    requires
        prefix@.len() > 0,
    ensures
        r@ == without_prefixes(text@, prefix@),
    decreases text@.len(),
{
    if starts_with(text, prefix) {
        let n: usize = prefix.unicode_len();
        let rest = text.substring_char(n, text.unicode_len());
        assert(rest@ =~= text@.skip(n as int));
        trim_start_matches(rest, prefix)
    } else {
        text.to_owned()
    }
}

/// Value of a digit, up to the 36 digits `0` to `z`; upper case counts as
/// lower case.
pub open spec fn digit_of(c: char) -> nat {
    if '0' <= c && c <= '9' {
        (c as int - '0' as int) as nat
    } else if 'a' <= c && c <= 'z' {
        (c as int - 'a' as int + 10) as nat
    } else if 'A' <= c && c <= 'Z' {
        (c as int - 'A' as int + 10) as nat
    } else {
        36
    }
}

fn digit(c: char) -> (d: u64)
    ensures
        d == digit_of(c),
{
    if '0' <= c && c <= '9' {
        (c as u32 - '0' as u32) as u64
    } else if 'a' <= c && c <= 'z' {
        (c as u32 - 'a' as u32 + 10) as u64
    } else if 'A' <= c && c <= 'Z' {
        (c as u32 - 'A' as u32 + 10) as u64
    } else {
        36
    }
}

/// The number that a row of digits writes, `None` when there is no digit or
/// something else among them.
pub open spec fn number(s: Seq<char>, radix: nat) -> Option<nat>
    decreases s.len(),
{
    if s.len() == 0 {
        None
    } else if digit_of(s.last()) >= radix {
        None
    } else if s.len() == 1 {
        Some(digit_of(s.last()))
    } else {
        match number(s.drop_last(), radix) {
            Some(n) => Some(n * radix + digit_of(s.last())),
            None => None,
        }
    }
}

/// A row of digits without its sign.
pub open spec fn unsigned_part(s: Seq<char>) -> Seq<char> {
    if s.len() > 0 && s[0] == '+' {
        s.drop_first()
    } else {
        s
    }
}

/// The number up to `max` that `s` writes: digits, after a plus sign at will.
pub open spec fn unsigned(s: Seq<char>, radix: nat, max: nat) -> Option<nat> {
    match number(unsigned_part(s), radix) {
        Some(n) if n <= max => Some(n),
        _ => None,
    }
}

proof fn number_grows(s: Seq<char>, radix: nat, k: int)
    requires
        0 < k <= s.len(),
        radix >= 2,
    ensures
        number(s, radix) matches Some(n) ==> (number(s.take(k), radix) matches Some(m) && m <= n),
    decreases s.len() - k,
{
    if k == s.len() {
        assert(s.take(k) =~= s);
    } else {
        number_grows(s, radix, k + 1);
        assert(s.take(k + 1).drop_last() =~= s.take(k));
        if let Some(m) = number(s.take(k), radix) {
            assert(m * radix >= m) by (nonlinear_arith)
                requires
                    radix >= 2,
            ;
        }
    }
}

/// Reads digits from `from` on as a number up to `max`.
fn read_number(chars: &Vec<char>, from: usize, radix: u64, max: u64) -> (r: Option<u64>)
    requires
        from <= chars@.len(),
        2 <= radix <= 36,
        max <= 0xffff_ffff_ffff_ffff,
    ensures
        r is Some <==> (number(chars@.skip(from as int), radix as nat) matches Some(n) && n <= max),
        r matches Some(v) ==> number(chars@.skip(from as int), radix as nat) == Some(v as nat),
{
    let ghost body = chars@.skip(from as int);
    if from == chars.len() {
        return None;
    }
    let mut acc: u128 = 0;
    let mut i: usize = from;
    while i < chars.len()
        invariant
            from <= i <= chars@.len(),
            from < chars@.len(),
            body == chars@.skip(from as int),
            2 <= radix <= 36,
            acc <= max,
            i == from ==> acc == 0,
            i > from ==> number(body.take(i - from), radix as nat) == Some(acc as nat),
        decreases chars@.len() - i,
    {
        let d: u64 = digit(chars[i]);
        let ghost k = i - from + 1;
        assert(body.take(k).last() == chars@[i as int]);
        assert(body.take(k).drop_last() =~= body.take(k - 1));
        if d >= radix {
            proof {
                number_grows(body, radix as nat, k);
            }
            return None;
        }
        assert(acc * radix <= 0xffff_ffff_ffff_ffff * 36) by (nonlinear_arith)
            requires
                acc <= max,
                max <= 0xffff_ffff_ffff_ffff,
                radix <= 36,
        ;
        acc = acc * radix as u128 + d as u128;
        assert(number(body.take(k), radix as nat) == Some(acc as nat));
        if acc > max as u128 {
            proof {
                number_grows(body, radix as nat, k);
            }
            return None;
        }
        i = i + 1;
    }
    assert(body.take(i - from) =~= body);
    Some(acc as u64)
}

/// Reads an unsigned number up to `max`, as the integer types of Rust do.
pub fn parse_unsigned(text: &str, radix: u64, max: u64) -> (r: Option<u64>)
    requires
        2 <= radix <= 36,
    ensures
        r is Some <==> unsigned(text@, radix as nat, max as nat) is Some,
        r matches Some(v) ==> unsigned(text@, radix as nat, max as nat) == Some(v as nat),
{
    let chars = chars_of(text);
    assert(chars@.skip(0) =~= chars@);
    assert(chars@.len() > 0 ==> chars@.skip(1) =~= chars@.drop_first());
    let from: usize = if chars.len() > 0 && chars[0] == '+' {
        1
    } else {
        0
    };
    read_number(&chars, from, radix, max)
}

/// The number between `-max - 1` and `max` that `s` writes: digits, after a
/// sign at will.
pub open spec fn signed(s: Seq<char>, radix: nat, max: nat) -> Option<int> {
    if s.len() > 0 && s[0] == '-' {
        match number(s.drop_first(), radix) {
            Some(n) if n <= max + 1 => Some(-n),
            _ => None,
        }
    } else {
        match unsigned(s, radix, max) {
            Some(n) => Some(n as int),
            None => None,
        }
    }
}

/// Reads a signed 32-bit number, as the integer types of Rust do.
pub fn parse_i32(text: &str, radix: u64) -> (r: Option<i32>)
    requires
        2 <= radix <= 36,
    ensures
        r is Some <==> signed(text@, radix as nat, 0x7fff_ffff) is Some,
        r matches Some(v) ==> signed(text@, radix as nat, 0x7fff_ffff) == Some(v as int),
{
    let chars = chars_of(text);
    if chars.len() > 0 && chars[0] == '-' {
        assert(chars@.skip(1) =~= chars@.drop_first());
        return match read_number(&chars, 1, radix, 0x8000_0000) {
            Some(v) => Some((-(v as i64)) as i32),
            None => None,
        };
    }
    match parse_unsigned(text, radix, 0x7fff_ffff) {
        Some(v) => Some(v as i32),
        None => None,
    }
}

/// The character of a digit.
pub open spec fn digit_char(d: nat) -> char {
    if d < 10 {
        ('0' as int + d) as char
    } else {
        ('a' as int + d - 10) as char
    }
}

/// A number in decimal.
pub open spec fn dec(n: nat) -> Seq<char>
    decreases n,
{
    if n < 10 {
        seq![digit_char(n)]
    } else {
        dec(n / 10).push(digit_char(n % 10))
    }
}

/// A signed number in decimal.
pub open spec fn signed_dec(n: int) -> Seq<char> {
    if n < 0 {
        seq!['-'] + dec((-n) as nat)
    } else {
        dec(n as nat)
    }
}

fn digit_text(d: u64) -> (r: &'static str)
    requires
        d < 16,
    ensures
        r@ == seq![digit_char(d as nat)],
{
    proof {
        reveal_strlit("0");
        reveal_strlit("1");
        reveal_strlit("2");
        reveal_strlit("3");
        reveal_strlit("4");
        reveal_strlit("5");
        reveal_strlit("6");
        reveal_strlit("7");
        reveal_strlit("8");
        reveal_strlit("9");
        reveal_strlit("a");
        reveal_strlit("b");
        reveal_strlit("c");
        reveal_strlit("d");
        reveal_strlit("e");
        reveal_strlit("f");
    }
    let r = match d {
        0 => "0",
        1 => "1",
        2 => "2",
        3 => "3",
        4 => "4",
        5 => "5",
        6 => "6",
        7 => "7",
        8 => "8",
        9 => "9",
        10 => "a",
        11 => "b",
        12 => "c",
        13 => "d",
        14 => "e",
        _ => "f",
    };
    assert(r@ =~= seq![digit_char(d as nat)]);
    r
}

/// A number in decimal.
pub fn decimal(n: u64) -> (r: String)
    ensures
        r@ == dec(n as nat),
    decreases n,
{
    if n < 10 {
        digit_text(n).to_owned()
    } else {
        let mut r = decimal(n / 10);
        r.append(digit_text(n % 10));
        assert(r@ =~= dec(n as nat));
        r
    }
}

/// A signed number in decimal.
pub fn signed_decimal(n: i32) -> (r: String)
    ensures
        r@ == signed_dec(n as int),
{
    if n < 0 {
        proof {
            reveal_strlit("-");
        }
        let mut r = "-".to_owned();
        let digits = decimal((-(n as i64)) as u64);
        r.append(digits.as_str());
        assert(r@ =~= signed_dec(n as int));
        r
    } else {
        decimal(n as u64)
    }
}

/// A byte in two hexadecimal digits.
pub open spec fn hex2(b: u8) -> Seq<char> {
    seq![digit_char((b / 16) as nat), digit_char((b % 16) as nat)]
}

/// A byte in two hexadecimal digits.
pub fn hex_byte(b: u8) -> (r: String)
    ensures
        r@ == hex2(b),
{
    let mut r = digit_text((b / 16) as u64).to_owned();
    r.append(digit_text((b % 16) as u64));
    assert(r@ =~= hex2(b));
    r
}

/// `n` spaces.
pub open spec fn spaces(n: nat) -> Seq<char> {
    Seq::new(n, |i: int| ' ')
}

/// `s` filled up with spaces to `width` characters; a longer text stays as it
/// is.
pub open spec fn filled(s: Seq<char>, width: nat) -> Seq<char> {
    s + spaces(
        if s.len() < width {
            (width - s.len()) as nat
        } else {
            0
        },
    )
}

/// `text` filled up with spaces to `width` characters.
pub fn pad(text: &str, width: usize) -> (r: String)
    ensures
        r@ == filled(text@, width as nat),
{
    let mut r = text.to_owned();
    let n: usize = text.unicode_len();
    let mut i: usize = n;
    assert(r@ =~= text@ + spaces(0));
    proof {
        reveal_strlit(" ");
    }
    while i < width
        invariant
            n == text@.len(),
            n <= i,
            i <= width || i == n,
            r@ == text@ + spaces((i - n) as nat),
            " "@ == seq![' '],
        decreases width - i,
    {
        r.append(" ");
        i = i + 1;
        assert(r@ =~= text@ + spaces((i - n) as nat));
    }
    r
}

/// Pieces joined by a separator.
pub open spec fn joined(pieces: Seq<Seq<char>>, separator: Seq<char>) -> Seq<char>
    decreases pieces.len(),
{
    if pieces.len() == 0 {
        seq![]
    } else if pieces.len() == 1 {
        pieces[0]
    } else {
        joined(pieces.drop_last(), separator) + separator + pieces.last()
    }
}

/// Texts joined by a separator.
pub fn join(pieces: &Vec<String>, separator: &str) -> (r: String)
    ensures
        r@ == joined(views(pieces@), separator@),
{
    let mut r = String::new();
    let mut i: usize = 0;
    let ghost all = views(pieces@);
    assert(all.take(0) =~= Seq::<Seq<char>>::empty());
    while i < pieces.len()
        invariant
            i <= pieces@.len(),
            all == views(pieces@),
            r@ == joined(all.take(i as int), separator@),
        decreases pieces@.len() - i,
    {
        let ghost next = all.take(i + 1);
        assert(next.drop_last() =~= all.take(i as int));
        assert(next.last() == pieces@[i as int]@);
        if i > 0 {
            r.append(separator);
        }
        r.append(pieces[i].as_str());
        assert(r@ =~= joined(next, separator@));
        i = i + 1;
    }
    assert(all.take(i as int) =~= all);
    r
}

/// What is written in decimal is read back.
pub proof fn decimal_is_read_back(n: nat, max: nat)
    requires
        n <= max,
    ensures
        unsigned(dec(n), 10, max) == Some(n),
{
    dec_is_number(n);
}

proof fn dec_is_number(n: nat)
    ensures
        number(dec(n), 10) == Some(n),
        dec(n).len() > 0,
        dec(n)[0] != '+',
    decreases n,
{
    if n >= 10 {
        dec_is_number(n / 10);
        assert(dec(n).drop_last() =~= dec(n / 10));
        assert(dec(n)[0] == dec(n / 10)[0]);
    }
}

/// The pieces of a text, joined by the separator again, are the text, and no
/// piece holds the separator.
pub proof fn pieces_join_to_the_text(s: Seq<char>, c: char)
    ensures
        split_on(s, c).len() > 0,
        joined(split_on(s, c), seq![c]) == s,
        forall|i: int| 0 <= i < split_on(s, c).len() ==> !(#[trigger] split_on(s, c)[i]).contains(c),
    decreases s.len(),
{
    let all = split_on(s, c);
    if s.len() == 0 {
        assert(all =~= seq![s]);
    } else {
        let rest = s.drop_last();
        let before = split_on(rest, c);
        pieces_join_to_the_text(rest, c);
        assert(s =~= rest.push(s.last()));
        if s.last() == c {
            assert(all.drop_last() =~= before);
            assert(joined(all, seq![c]) =~= rest + seq![c]);
        } else {
            let piece = before.last().push(s.last());
            assert(all.drop_last() =~= before.drop_last());
            assert(all.last() == piece);
            assert(before[before.len() - 1] == before.last());
            assert(joined(all, seq![c]) =~= joined(before, seq![c]).push(s.last()));
            assert forall|i: int| 0 <= i < all.len() implies !(#[trigger] all[i]).contains(c) by {
                if i == all.len() - 1 {
                    if piece.contains(c) {
                        let k = choose|k: int| 0 <= k < piece.len() && piece[k] == c;
                        assert(k < before.last().len());
                        assert(before.last()[k] == c);
                        assert(before.last().contains(c));
                    }
                } else {
                    assert(all[i] == before[i]);
                }
            }
        }
    }
}

/// A text that is cut is put together again by the separator, and the first
/// part does not hold it. One that does not hold it is not cut.
pub proof fn a_cut_is_at_the_first_separator(s: Seq<char>, c: char)
    ensures
        cut_at(s, c) is Some <==> s.contains(c),
        cut_at(s, c) matches Some((a, b)) ==> a + seq![c] + b == s && !a.contains(c),
{
    s.index_of_first_ensures(c);
    if let Some((a, b)) = cut_at(s, c) {
        let i = s.index_of_first(c)->0;
        assert(a + seq![c] + b =~= s);
        if a.contains(c) {
            let k = choose|k: int| 0 <= k < a.len() && a[k] == c;
            assert(s[k] == c);
        }
    }
}

/// Trimming takes white space away at both ends and nothing else: a text that
/// has none there stays as it is.
pub proof fn trimming_ends_at_the_text(s: Seq<char>)
    ensures
        s.len() > 0 && !white_space(s[0]) && !white_space(s.last()) ==> trimmed(s) == s,
        trimmed(s).len() > 0 ==> !white_space(trimmed(s)[0]) && !white_space(trimmed(s).last()),
{
    start_is_trimmed(s);
    end_is_trimmed(trimmed_start(s));
}

proof fn start_is_trimmed(s: Seq<char>)
    ensures
        trimmed_start(s).len() > 0 ==> !white_space(trimmed_start(s)[0]),
    decreases s.len(),
{
    if s.len() > 0 && white_space(s[0]) {
        start_is_trimmed(s.drop_first());
    }
}

proof fn end_is_trimmed(s: Seq<char>)
    ensures
        trimmed_end(s).len() > 0 ==> !white_space(trimmed_end(s).last()) && s.len() > 0
            && trimmed_end(s)[0] == s[0],
    decreases s.len(),
{
    if s.len() > 0 && white_space(s.last()) {
        end_is_trimmed(s.drop_last());
    }
}

/// A number in decimal is made of digits, without white space or a colon.
pub proof fn decimals_are_digits(n: nat)
    ensures
        dec(n).len() > 0,
        forall|i: int| 0 <= i < dec(n).len() ==> '0' <= #[trigger] dec(n)[i] <= '9',
        n > 0 ==> dec(n)[0] != '0',
    decreases n,
{
    if n >= 10 {
        decimals_are_digits(n / 10);
        assert(dec(n)[0] == dec(n / 10)[0]);
    }
}

/// A signed number in decimal is read back, and so is a byte in hexadecimal.
pub proof fn signed_and_hexadecimal_are_read_back(n: int, max: nat, b: u8)
    requires
        -max <= n <= max,
    ensures
        signed(signed_dec(n), 10, max) == Some(n),
        unsigned(hex2(b), 16, 255) == Some(b as nat),
        hex2(b).len() == 2,
{
    decimals_are_digits(n as nat);
    if n < 0 {
        dec_is_number((-n) as nat);
        assert(signed_dec(n).drop_first() =~= dec((-n) as nat));
    } else {
        dec_is_number(n as nat);
        decimal_is_read_back(n as nat, max);
        assert('0' <= dec(n as nat)[0] <= '9');
    }
    reveal_with_fuel(number, 2);
    assert(hex2(b).drop_last() =~= seq![hex2(b)[0]]);
}

} // verus!
