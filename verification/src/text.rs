//! Text helpers over `Seq<char>`: comparison, case folding, decimal numerals,
//! padding and substring search.

use vstd::prelude::*;

verus! {

/// `String::push` appends one character.
pub assume_specification[ String::push ](s: &mut String, c: char)
    ensures
        final(s)@ == old(s)@.push(c),
;

/// Whether a character has the Unicode `White_Space` property.
pub open spec fn white_space(c: char) -> bool {
    let n = c as u32;
    ||| 0x9 <= n <= 0xd
    ||| n == 0x20
    ||| n == 0x85
    ||| n == 0xa0
    ||| n == 0x1680
    ||| 0x2000 <= n <= 0x200a
    ||| n == 0x2028
    ||| n == 0x2029
    ||| n == 0x202f
    ||| n == 0x205f
    ||| n == 0x3000
}

/// `char::is_whitespace` tells whether a character has the `White_Space`
/// property of the Unicode character database.
pub assume_specification[ char::is_whitespace ](c: char) -> (b: bool)
    ensures
        b == white_space(c),
;

/// Whether two texts hold the same characters.
pub fn text_eq(a: &str, b: &str) -> (same: bool)
    ensures
        same == (a@ == b@),
{
    a.to_owned() == b.to_owned()
}

/// The characters of a text.
pub fn chars_of(s: &str) -> (chars: Vec<char>)
    ensures
        chars@ == s@,
{
    let mut chars: Vec<char> = Vec::new();
    for c in it: s.chars()
        invariant
            it.seq() == s@,
            chars@ == s@.take(it.index() as int),
    {
        chars.push(c);
    }
    chars
}

/// The text made of the given characters.
pub fn text_of(chars: &Vec<char>) -> (s: String)
    ensures
        s@ == chars@,
{
    let mut s = String::new();
    let mut i: usize = 0;
    while i < chars.len()
        invariant
            i <= chars.len(),
            s@ == chars@.take(i as int),
        decreases chars.len() - i,
    {
        s.push(chars[i]);
        i += 1;
    }
    assert(chars@.take(chars@.len() as int) == chars@);
    s
}

/// Number of characters in a text.
pub fn char_count(s: &str) -> (n: usize)
    ensures
        n == s@.len(),
{
    s.unicode_len()
}

/// Text `a` followed by text `b`.
pub fn join2(a: &str, b: &str) -> (s: String)
    ensures
        s@ == a@ + b@,
{
    let mut s = a.to_owned();
    s.append(b);
    s
}

/// The lower-case form of an ASCII letter; any other character unchanged.
pub open spec fn lower(c: char) -> char {
    if 'A' <= c && c <= 'Z' {
        (c as int + 32) as char
    } else {
        c
    }
}

/// The upper-case form of an ASCII letter; any other character unchanged.
pub open spec fn upper(c: char) -> char {
    if 'a' <= c && c <= 'z' {
        (c as int - 32) as char
    } else {
        c
    }
}

/// A text with its ASCII letters in lower case.
pub open spec fn lowered(s: Seq<char>) -> Seq<char> {
    s.map_values(|c: char| lower(c))
}

/// A text with its ASCII letters in upper case.
pub open spec fn uppered(s: Seq<char>) -> Seq<char> {
    s.map_values(|c: char| upper(c))
}

fn lower_char(c: char) -> (r: char)
    ensures
        r == lower(c),
{
    if 'A' <= c && c <= 'Z' {
        (c as u8 + 32) as char
    } else {
        c
    }
}

fn upper_char(c: char) -> (r: char)
    ensures
        r == upper(c),
{
    if 'a' <= c && c <= 'z' {
        (c as u8 - 32) as char
    } else {
        c
    }
}

/// ASCII lower case of a text.
pub fn to_lower(s: &str) -> (r: String)
    ensures
        r@ == lowered(s@),
{
    let mut r = String::new();
    for c in it: s.chars()
        invariant
            it.seq() == s@,
            r@ == lowered(s@.take(it.index() as int)),
    {
        proof {
            let k = it.index() as int;
            assert(lowered(s@.take(k + 1)) == lowered(s@.take(k)).push(lower(s@[k])));
        }
        r.push(lower_char(c));
    }
    assert(s@.take(s@.len() as int) == s@);
    r
}

/// ASCII upper case of a text.
pub fn to_upper(s: &str) -> (r: String)
    ensures
        r@ == uppered(s@),
{
    let mut r = String::new();
    for c in it: s.chars()
        invariant
            it.seq() == s@,
            r@ == uppered(s@.take(it.index() as int)),
    {
        proof {
            let k = it.index() as int;
            assert(uppered(s@.take(k + 1)) == uppered(s@.take(k)).push(upper(s@[k])));
        }
        r.push(upper_char(c));
    }
    assert(s@.take(s@.len() as int) == s@);
    r
}

/// Lowering twice changes nothing more.
pub proof fn law_lowered_idempotent(s: Seq<char>)
    ensures
        lowered(lowered(s)) == lowered(s),
{
    assert forall|i: int| 0 <= i < s.len() implies lowered(lowered(s))[i] == lowered(s)[i] by {
        assert(lower(lower(s[i])) == lower(s[i]));
    }
    assert(lowered(lowered(s)) =~= lowered(s));
}

/// Number of white-space characters at the front of a text.
pub open spec fn leading_space(s: Seq<char>) -> nat
    decreases s.len(),
{
    if s.len() > 0 && white_space(s[0]) {
        1 + leading_space(s.drop_first())
    } else {
        0
    }
}

/// Number of white-space characters at the end of a text.
pub open spec fn trailing_space(s: Seq<char>) -> nat
    decreases s.len(),
{
    if s.len() > 0 && white_space(s.last()) {
        1 + trailing_space(s.drop_last())
    } else {
        0
    }
}

/// A text without the white space around it.
pub open spec fn trimmed(s: Seq<char>) -> Seq<char> {
    let rest = s.skip(leading_space(s) as int);
    rest.take(rest.len() - trailing_space(rest))
}

/// A text that has no white space at either end is its own trimmed form.
pub proof fn law_trimming_keeps_inner_text(s: Seq<char>)
    requires
        s.len() > 0 ==> !white_space(s[0]) && !white_space(s.last()),
    ensures
        trimmed(s) == s,
{
    assert(s.skip(0) =~= s);
    assert(s.take(s.len() as int) =~= s);
}

/// Strips the white space around a text.
pub fn trim_text(s: &str) -> (r: String)
    ensures
        r@ == trimmed(s@),
{
    let chars = chars_of(s);
    let mut from: usize = 0;
    assert(chars@.skip(0) == chars@);
    while from < chars.len() && chars[from].is_whitespace()
        invariant
            from <= chars.len(),
            leading_space(chars@) == from + leading_space(chars@.skip(from as int)),
        decreases chars.len() - from,
    {
        assert(chars@.skip(from as int).drop_first() == chars@.skip(from + 1));
        from += 1;
    }
    let ghost rest = chars@.skip(from as int);
    assert(leading_space(rest) == 0);
    let mut to: usize = chars.len();
    assert(rest.take(to - from) == rest);
    while to > from && chars[to - 1].is_whitespace()
        invariant
            from <= to <= chars.len(),
            rest == chars@.skip(from as int),
            trailing_space(rest) == chars.len() - to + trailing_space(rest.take(to - from)),
        decreases to,
    {
        assert(rest.take(to - from).drop_last() == rest.take(to - from - 1));
        assert(rest.take(to - from).last() == chars[to - 1]);
        to -= 1;
    }
    proof {
        let tail = rest.take(to - from);
        assert(tail.len() > 0 ==> tail.last() == chars[to - 1]);
        assert(trailing_space(tail) == 0);
    }
    let mut r = String::new();
    let mut i: usize = from;
    while i < to
        invariant
            from <= i <= to <= chars.len(),
            r@ == chars@.subrange(from as int, i as int),
        decreases to - i,
    {
        r.push(chars[i]);
        i += 1;
    }
    assert(trimmed(s@) =~= chars@.subrange(from as int, to as int));
    r
}

/// The numeral of a single digit.
pub open spec fn digit(d: int) -> char {
    (48 + d) as char
}

/// The decimal numeral of a number, without leading zeros.
pub open spec fn dec(n: nat) -> Seq<char>
    decreases n,
{
    if n < 10 {
        seq![digit(n as int)]
    } else {
        dec(n / 10).push(digit((n % 10) as int))
    }
}

/// The decimal numeral of a number.
pub fn decimal(n: u64) -> (s: String)
    ensures
        s@ == dec(n as nat),
    decreases n,
{
    if n < 10 {
        let mut s = String::new();
        s.push((48 + n as u8) as char);
        s
    } else {
        let mut s = decimal(n / 10);
        s.push((48 + (n % 10) as u8) as char);
        s
    }
}

/// The decimal numeral of a count.
pub fn decimal_usize(n: usize) -> (s: String)
    ensures
        s@ == dec(n as nat),
{
    decimal(n as u64)
}

/// Distinct numbers have distinct numerals.
pub proof fn law_numerals_distinct(m: nat, n: nat)
    ensures
        dec(m) == dec(n) ==> m == n,
    decreases m,
{
    lemma_dec_nonempty(m);
    lemma_dec_nonempty(n);
    if dec(m) == dec(n) {
        assert(dec(m).last() == digit((m % 10) as int));
        assert(dec(n).last() == digit((n % 10) as int));
        if m < 10 || n < 10 {
            if m >= 10 {
                lemma_dec_nonempty(m / 10);
            }
            if n >= 10 {
                lemma_dec_nonempty(n / 10);
            }
        } else {
            assert(dec(m).drop_last() == dec(m / 10));
            assert(dec(n).drop_last() == dec(n / 10));
            law_numerals_distinct(m / 10, n / 10);
        }
    }
}

proof fn lemma_dec_nonempty(n: nat)
    ensures
        dec(n).len() >= 1,
    decreases n,
{
    if n >= 10 {
        lemma_dec_nonempty(n / 10);
    }
}

/// The hexadecimal numeral of a value below sixteen, in lower case.
pub open spec fn hex_digit(d: int) -> char {
    if d < 10 {
        (48 + d) as char
    } else {
        (87 + d) as char
    }
}

/// Each byte as two lower-case hexadecimal digits, high half first.
pub open spec fn hex(bytes: Seq<u8>) -> Seq<char>
    decreases bytes.len(),
{
    if bytes.len() == 0 {
        seq![]
    } else {
        hex(bytes.drop_last()).push(hex_digit(bytes.last() as int / 16)).push(
            hex_digit(bytes.last() as int % 16),
        )
    }
}

fn hex_char(d: u8) -> (c: char)
    requires
        d < 16,
    ensures
        c == hex_digit(d as int),
{
    if d < 10 {
        (48 + d) as char
    } else {
        (87 + d) as char
    }
}

/// Lower-case hexadecimal form of a byte string.
pub fn hex_text(bytes: &Vec<u8>) -> (s: String)
    ensures
        s@ == hex(bytes@),
        s@.len() == 2 * bytes@.len(),
{
    let mut s = String::new();
    let mut i: usize = 0;
    while i < bytes.len()
        invariant
            i <= bytes.len(),
            s@ == hex(bytes@.take(i as int)),
            s@.len() == 2 * i,
        decreases bytes.len() - i,
    {
        assert(bytes@.take(i + 1).drop_last() == bytes@.take(i as int));
        s.push(hex_char(bytes[i] / 16));
        s.push(hex_char(bytes[i] % 16));
        i += 1;
    }
    assert(bytes@.take(bytes@.len() as int) == bytes@);
    s
}

/// A run of `n` copies of a character.
pub open spec fn run_of(c: char, n: nat) -> Seq<char> {
    Seq::new(n, |i: int| c)
}

/// A run of `n` copies of a character.
pub fn repeat_char(c: char, n: usize) -> (s: String)
    ensures
        s@ == run_of(c, n as nat),
{
    let mut s = String::new();
    let mut i: usize = 0;
    while i < n
        invariant
            i <= n,
            s@ == run_of(c, i as nat),
        decreases n - i,
    {
        s.push(c);
        assert(run_of(c, i as nat).push(c) == run_of(c, (i + 1) as nat));
        i += 1;
    }
    s
}

/// How many characters a text lacks to be `width` characters long.
pub open spec fn shortfall(s: Seq<char>, width: nat) -> nat {
    if s.len() < width {
        (width - s.len()) as nat
    } else {
        0
    }
}

/// A text filled up with spaces on the right to a width.
pub open spec fn padded_right(s: Seq<char>, width: nat) -> Seq<char> {
    s + run_of(' ', shortfall(s, width))
}

/// A text filled up with spaces on the left to a width.
pub open spec fn padded_left(s: Seq<char>, width: nat) -> Seq<char> {
    run_of(' ', shortfall(s, width)) + s
}

/// Left-aligns a text in a field.
pub fn pad_right(s: &str, width: usize) -> (r: String)
    ensures
        r@ == padded_right(s@, width as nat),
{
    let len: usize = char_count(s);
    let fill: usize = if len < width {
        width - len
    } else {
        0
    };
    join2(s, repeat_char(' ', fill).as_str())
}

/// Right-aligns a text in a field.
pub fn pad_left(s: &str, width: usize) -> (r: String)
    ensures
        r@ == padded_left(s@, width as nat),
{
    let len: usize = char_count(s);
    let fill: usize = if len < width {
        width - len
    } else {
        0
    };
    join2(repeat_char(' ', fill).as_str(), s)
}

/// Position of the first line feed; the length of a text without one.
pub open spec fn feed_at(s: Seq<char>) -> nat
    decreases s.len(),
{
    if s.len() == 0 || s[0] == '\n' {
        0
    } else {
        1 + feed_at(s.drop_first())
    }
}

/// No line feed stands before the first one, and there is none where none is found.
pub proof fn law_first_feed(s: Seq<char>)
    ensures
        feed_at(s) <= s.len(),
        feed_at(s) < s.len() ==> s[feed_at(s) as int] == '\n',
        forall|i: int| 0 <= i < feed_at(s) ==> s[i] != '\n',
    decreases s.len(),
{
    if s.len() > 0 && s[0] != '\n' {
        let rest = s.drop_first();
        law_first_feed(rest);
        assert forall|i: int| 0 <= i < feed_at(s) implies s[i] != '\n' by {
            if i > 0 {
                assert(s[i] == rest[i - 1]);
            }
        }
    }
}

/// Position of the first line feed from a position on; the length without one.
pub fn next_feed(chars: &Vec<char>, from: usize) -> (at: usize)
    requires
        from <= chars@.len(),
    ensures
        from <= at <= chars@.len(),
        at - from == feed_at(chars@.skip(from as int)),
{
    let mut at: usize = from;
    while at < chars.len() && chars[at] != '\n'
        invariant
            from <= at <= chars@.len(),
            feed_at(chars@.skip(from as int)) == at - from + feed_at(chars@.skip(at as int)),
        decreases chars@.len() - at,
    {
        assert(chars@.skip(at as int).drop_first() =~= chars@.skip(at + 1));
        at += 1;
    }
    at
}

/// A text without the carriage return at its end.
pub open spec fn without_return(s: Seq<char>) -> Seq<char> {
    if s.len() > 0 && s.last() == '\r' {
        s.drop_last()
    } else {
        s
    }
}

/// A text with every line after the first one indented by two spaces. A line ends
/// in a line feed, or in a carriage return and a line feed.
pub open spec fn indented_text(s: Seq<char>) -> Seq<char>
    decreases s.len(),
{
    if s.len() == 0 {
        s
    } else if s.last() == '\n' {
        indented_text(without_return(s.drop_last())) + seq!['\n', ' ', ' ']
    } else {
        indented_text(s.drop_last()).push(s.last())
    }
}

/// Indents every line of a text after the first one by two spaces.
pub fn indent_text(s: &str) -> (r: String)
    ensures
        r@ == indented_text(s@),
{
    let chars = chars_of(s);
    let mut out: Vec<char> = Vec::new();
    let mut k: usize = 0;
    while k < chars.len()
        invariant
            chars@ == s@,
            k <= chars@.len(),
            out@ == indented_text(s@.take(k as int)),
        decreases chars@.len() - k,
    {
        let ghost done = s@.take(k as int);
        assert(s@.take(k + 1).drop_last() =~= done);
        assert(s@.take(k + 1).last() == chars@[k as int]);
        if chars[k] == '\n' {
            if k > 0 && chars[k - 1] == '\r' {
                assert(done.last() == '\r');
                assert(out@.drop_last() =~= indented_text(done.drop_last()));
                out.pop();
            }
            assert(out@ == indented_text(without_return(done)));
            out.push('\n');
            out.push(' ');
            out.push(' ');
            assert(out@ =~= indented_text(without_return(done)) + seq!['\n', ' ', ' ']);
        } else {
            out.push(chars[k]);
        }
        k += 1;
    }
    assert(s@.take(k as int) =~= s@);
    text_of(&out)
}

/// Whether `part` stands in `whole` at position `at`.
pub open spec fn stands_at(whole: Seq<char>, part: Seq<char>, at: int) -> bool {
    &&& 0 <= at
    &&& at + part.len() <= whole.len()
    &&& whole.subrange(at, at + part.len()) == part
}

/// Whether `part` is a contiguous piece of `whole`.
pub open spec fn contains_text(whole: Seq<char>, part: Seq<char>) -> bool {
    exists|at: int| stands_at(whole, part, at)
}

fn matches_at(whole: &Vec<char>, part: &Vec<char>, at: usize) -> (b: bool)
    requires
        at <= whole.len(),
    ensures
        b == stands_at(whole@, part@, at as int),
{
    if part.len() > whole.len() - at {
        return false;
    }
    let mut i: usize = 0;
    while i < part.len()
        invariant
            i <= part.len(),
            at + part.len() <= whole.len(),
            forall|k: int| 0 <= k < i ==> whole@[at + k] == part@[k],
        decreases part.len() - i,
    {
        if whole[at + i] != part[i] {
            assert(whole@.subrange(at as int, at + part@.len())[i as int] != part@[i as int]);
            return false;
        }
        i += 1;
    }
    assert(whole@.subrange(at as int, at + part@.len()) =~= part@);
    true
}

/// Whether `whole` begins with `part`.
pub fn starts_with(whole: &str, part: &str) -> (b: bool)
    ensures
        b == stands_at(whole@, part@, 0),
{
    let w = chars_of(whole);
    let p = chars_of(part);
    matches_at(&w, &p, 0)
}

/// Whether `part` occurs in `whole`.
pub fn contains(whole: &str, part: &str) -> (b: bool)
    ensures
        b == contains_text(whole@, part@),
{
    let w = chars_of(whole);
    let p = chars_of(part);
    let mut at: usize = 0;
    loop
        invariant
            at <= w.len(),
            w@ == whole@,
            p@ == part@,
            forall|k: int| 0 <= k < at ==> !stands_at(w@, p@, k),
        decreases w.len() - at,
    {
        if matches_at(&w, &p, at) {
            return true;
        }
        if at == w.len() {
            assert forall|k: int| !stands_at(whole@, part@, k) by {}
            return false;
        }
        at += 1;
    }
}

/// Whether text `a` comes before text `b` in code-point order.
pub open spec fn precedes(a: Seq<char>, b: Seq<char>) -> bool
    decreases a.len(),
{
    if b.len() == 0 {
        false
    } else if a.len() == 0 {
        true
    } else {
        a[0] < b[0] || a[0] == b[0] && precedes(a.drop_first(), b.drop_first())
    }
}

/// Of two texts, exactly one comes first, or they are equal.
pub proof fn law_text_order_total(a: Seq<char>, b: Seq<char>)
    ensures
        precedes(a, b) || a == b || precedes(b, a),
        !(precedes(a, b) && precedes(b, a)),
        !precedes(a, a),
    decreases a.len() + b.len(),
{
    if a.len() > 0 && b.len() > 0 {
        law_text_order_total(a.drop_first(), b.drop_first());
        if a[0] == b[0] && a.drop_first() == b.drop_first() {
            assert(a =~= seq![a[0]] + a.drop_first());
            assert(b =~= seq![b[0]] + b.drop_first());
        }
    } else if a.len() == 0 && b.len() == 0 {
        assert(a =~= b);
    }
    if a.len() > 0 && b.len() == 0 {
        law_text_order_total(a.drop_first(), b);
    }
}

/// The order of texts is transitive.
pub proof fn law_text_order_transitive(a: Seq<char>, b: Seq<char>, c: Seq<char>)
    requires
        precedes(a, b),
        precedes(b, c),
    ensures
        precedes(a, c),
    decreases a.len(),
{
    if a.len() > 0 && a[0] == b[0] && b[0] == c[0] {
        law_text_order_transitive(a.drop_first(), b.drop_first(), c.drop_first());
    }
}

/// Whether text `a` comes before text `b` in code-point order.
pub fn text_before(a: &str, b: &str) -> (r: bool)
    ensures
        r == precedes(a@, b@),
{
    let x = chars_of(a);
    let y = chars_of(b);
    let mut i: usize = 0;
    assert(x@.skip(0) == a@);
    assert(y@.skip(0) == b@);
    while i < x.len() && i < y.len()
        invariant
            i <= x.len(),
            i <= y.len(),
            precedes(a@, b@) == precedes(x@.skip(i as int), y@.skip(i as int)),
        decreases x.len() - i,
    {
        assert(x@.skip(i as int).drop_first() == x@.skip(i + 1));
        assert(y@.skip(i as int).drop_first() == y@.skip(i + 1));
        if x[i] < y[i] {
            return true;
        }
        if y[i] < x[i] {
            return false;
        }
        i += 1;
    }
    i < y.len()
}

/// Padding keeps the text at its edge and fills up with spaces to the width; a text that is
/// too long stays as it is.
pub proof fn law_padding_fills_up(s: Seq<char>, width: nat, i: int)
    ensures
        padded_right(s, width).len() == if s.len() < width {
            width
        } else {
            s.len()
        },
        padded_left(s, width).len() == padded_right(s, width).len(),
        0 <= i < s.len() ==> padded_right(s, width)[i] == s[i],
        s.len() <= i < width ==> padded_right(s, width)[i] == ' ',
        0 <= i < s.len() ==> padded_left(s, width)[padded_left(s, width).len() - s.len() + i]
            == s[i],
        0 <= i < width - s.len() ==> padded_left(s, width)[i] == ' ',
{
}

/// Changing case keeps the length and everything but ASCII letters, and neither case is
/// lost by way of the other.
pub proof fn law_case_changes_letters_only(s: Seq<char>, i: int)
    requires
        0 <= i < s.len(),
    ensures
        lowered(s).len() == s.len(),
        uppered(s).len() == s.len(),
        !('A' <= s[i] <= 'Z') ==> lowered(s)[i] == s[i],
        'A' <= s[i] <= 'Z' ==> lowered(s)[i] as int == s[i] as int + 32,
        !('a' <= s[i] <= 'z') ==> uppered(s)[i] == s[i],
        'a' <= s[i] <= 'z' ==> uppered(s)[i] as int == s[i] as int - 32,
{
}

proof fn spaces_at_the_ends(s: Seq<char>)
    ensures
        leading_space(s) <= s.len(),
        forall|i: int| 0 <= i < leading_space(s) ==> white_space(#[trigger] s[i]),
        leading_space(s) < s.len() ==> !white_space(s[leading_space(s) as int]),
        trailing_space(s) <= s.len(),
        forall|i: int| s.len() - trailing_space(s) <= i < s.len() ==> white_space(#[trigger] s[i]),
        trailing_space(s) < s.len() ==> !white_space(s[s.len() - trailing_space(s) - 1]),
    decreases s.len(),
{
    if s.len() > 0 {
        let rest = s.drop_first();
        let front = s.drop_last();
        spaces_at_the_ends(rest);
        spaces_at_the_ends(front);
        assert forall|i: int| 0 <= i < leading_space(s) implies white_space(#[trigger] s[i]) by {
            if i > 0 {
                assert(s[i] == rest[i - 1]);
            }
        }
        assert forall|i: int| s.len() - trailing_space(s) <= i < s.len() implies white_space(
            #[trigger] s[i],
        ) by {
            if i < s.len() - 1 {
                assert(s[i] == front[i]);
            }
        }
    }
}

/// Trimming takes away white space at the ends and nothing else.
pub proof fn law_trimming_takes_outer_space_only(s: Seq<char>)
    ensures
        trimmed(s).len() > 0 ==> !white_space(trimmed(s)[0]) && !white_space(trimmed(s).last()),
        exists|from: int, to: int|
            0 <= from <= to <= s.len() && trimmed(s) == #[trigger] s.subrange(from, to) && (forall|
                i: int,
            |
                0 <= i < from || to <= i < s.len() ==> white_space(#[trigger] s[i])),
{
    spaces_at_the_ends(s);
    let from = leading_space(s) as int;
    let rest = s.skip(from);
    spaces_at_the_ends(rest);
    let to = s.len() - trailing_space(rest);
    assert(trimmed(s) =~= s.subrange(from, to));
    assert forall|i: int| 0 <= i < from || to <= i < s.len() implies white_space(
        #[trigger] s[i],
    ) by {
        if i >= to {
            assert(s[i] == rest[i - from]);
        }
    }
    if trimmed(s).len() > 0 {
        assert(trimmed(s)[0] == rest[0]);
        assert(trimmed(s).last() == rest[rest.len() - trailing_space(rest) - 1]);
    }
}

/// A hexadecimal text has two digits for each byte, and different bytes have different
/// texts.
pub proof fn law_hex_tells_bytes_apart(a: Seq<u8>, b: Seq<u8>)
    ensures
        hex(a).len() == 2 * a.len(),
        hex(a) == hex(b) ==> a == b,
    decreases a.len(),
{
    if a.len() > 0 {
        law_hex_tells_bytes_apart(a.drop_last(), if b.len() > 0 {
            b.drop_last()
        } else {
            b
        });
    }
    hex_length(b);
    if hex(a) == hex(b) {
        hex_length(a);
        if a.len() > 0 {
            let n = hex(a).len() as int;
            let (p, q) = (hex(a.drop_last()), hex(b.drop_last()));
            assert(hex(a)[n - 1] == hex_digit(a.last() as int % 16));
            assert(hex(b)[n - 1] == hex_digit(b.last() as int % 16));
            assert(hex(a)[n - 2] == hex_digit(a.last() as int / 16));
            assert(hex(b)[n - 2] == hex_digit(b.last() as int / 16));
            assert(hex(a).take(n - 2) =~= p);
            assert(hex(b).take(n - 2) =~= q);
            assert(a.last() == b.last());
            assert(a =~= a.drop_last().push(a.last()));
            assert(b =~= b.drop_last().push(b.last()));
        } else {
            assert(a =~= b);
        }
    }
}

proof fn hex_length(bytes: Seq<u8>)
    ensures
        hex(bytes).len() == 2 * bytes.len(),
    decreases bytes.len(),
{
    if bytes.len() > 0 {
        hex_length(bytes.drop_last());
    }
}

/// Capital letters differ from small ones by their case alone, and everything else stays.
pub proof fn law_upper_changes_small_letters_only(c: char)
    ensures
        'a' <= c && c <= 'z' <==> upper(c) != c,
        upper(upper(c)) == upper(c),
        'a' <= c && c <= 'z' ==> 'A' <= upper(c) && upper(c) <= 'Z' && upper(c) as int - 'A' as int
            == c as int - 'a' as int,
{
}

/// The sixteen digits are the ten numerals and the six small letters that follow.
pub proof fn law_hex_digits(d: int)
    requires
        0 <= d < 16,
    ensures
        d < 10 ==> '0' <= hex_digit(d) && hex_digit(d) <= '9' && hex_digit(d) as int - '0' as int == d,
        d >= 10 ==> 'a' <= hex_digit(d) && hex_digit(d) <= 'f' && hex_digit(d) as int - 'a' as int
            == d - 10,
{
}

/// A run holds one character as often as it is long.
pub proof fn law_run_repeats_its_character(c: char, n: nat, i: int)
    requires
        0 <= i < n,
    ensures
        run_of(c, n).len() == n,
        run_of(c, n)[i] == c,
{
}

/// A text without line breaks is not indented, and each line break of a text without
/// carriage returns adds two spaces.
pub proof fn law_indenting_adds_two_spaces(s: Seq<char>)
    ensures
        !s.contains('\n') ==> indented_text(s) == s,
        !s.contains('\r') ==> indented_text(s.push('\n')) == indented_text(s) + seq!['\n', ' ', ' '],
        forall|c: char| c != '\n' ==> #[trigger] indented_text(s.push(c)) == indented_text(s).push(c),
    decreases s.len(),
{
    assert(s.push('\n').drop_last() =~= s);
    assert forall|c: char| c != '\n' implies #[trigger] indented_text(s.push(c)) == indented_text(
        s,
    ).push(c) by {
        assert(s.push(c).drop_last() =~= s);
    }
    if s.len() > 0 {
        law_indenting_adds_two_spaces(s.drop_last());
        assert(s.contains(s.last()));
        assert(s.drop_last().push(s.last()) =~= s);
        if !s.contains('\n') {
            assert forall|i: int| 0 <= i < s.drop_last().len() implies s.drop_last()[i] != '\n' by {
                assert(s.contains(s[i]));
            }
            assert(!s.drop_last().contains('\n'));
        }
    }
}

/// Blanks, tabs and line breaks are white space; nothing that is printed in ASCII is.
pub proof fn law_white_space_in_ascii(c: char)
    ensures
        white_space(' ') && white_space('\t') && white_space('\n') && white_space('\r'),
        '!' <= c && c <= '~' ==> !white_space(c),
        c < '\t' ==> !white_space(c),
        '\t' <= c && c <= '\r' ==> white_space(c),
{
}

} // verus!
