//! Text helpers: comparison, splitting, trimming, decimal numbers and ordering.

use vstd::prelude::*;

verus! {

/// Whether two texts hold the same characters.
pub fn same(a: &str, b: &str) -> (r: bool)
    ensures
        r == (a@ == b@),
{
    a.to_owned() == b.to_owned()
}

/// The characters of a text, in order.
pub fn characters(s: &str) -> (r: Vec<char>)
    ensures
        r@ == s@,
{
    let mut out: Vec<char> = Vec::new();
    for c in it: s.chars()
        invariant
            out@ == it.seq().take(it.index()),
            it.seq() == s@,
    {
        out.push(c);
    }
    out
}

/// The text made of `a` followed by `b`.
pub fn joined(a: &str, b: &str) -> (r: String)
    ensures
        r@ == a@ + b@,
{
    a.to_owned().concat(b)
}

/// The pieces of `s` between occurrences of `sep`, in order; there is always at least one.
pub open spec fn split(s: Seq<char>, sep: char) -> Seq<Seq<char>>
    decreases s.len(),
{
    if s.len() == 0 {
        seq![Seq::<char>::empty()]
    } else {
        let before = split(s.drop_last(), sep);
        if s.last() == sep {
            before.push(Seq::<char>::empty())
        } else {
            before.drop_last().push(before.last().push(s.last()))
        }
    }
}

/// The contents of a list of texts.
pub open spec fn texts(v: Seq<String>) -> Seq<Seq<char>> {
    v.map_values(|s: String| s@)
}

/// A copy of a list of texts.
pub fn copied(v: &Vec<String>) -> (r: Vec<String>)
    ensures
        texts(r@) == texts(v@),
{
    let mut out: Vec<String> = Vec::new();
    for i in 0..v.len()
        invariant
            out@.len() == i,
            forall|j: int| 0 <= j < i ==> (#[trigger] out@[j])@ == v@[j]@,
    {
        out.push(v[i].clone());
    }
    assert(texts(out@) =~= texts(v@));
    out
}

/// A copy of an optional text.
pub fn copied_option(v: &Option<String>) -> (r: Option<String>)
    ensures
        optional(r) == optional(*v),
{
    match v {
        Some(s) => Some(s.clone()),
        None => None,
    }
}

/// The contents of an optional text.
pub open spec fn optional(v: Option<String>) -> Option<Seq<char>> {
    match v {
        Some(s) => Some(s@),
        None => None,
    }
}

/// Splits `s` at each `sep`.
pub fn pieces(s: &str, sep: char) -> (r: Vec<String>)
    ensures
        texts(r@) == split(s@, sep),
{
    let chars = characters(s);
    let mut out: Vec<String> = Vec::new();
    let mut start: usize = 0;
    proof {
        assert(s@.take(0) =~= Seq::<char>::empty());
        assert(s@.subrange(0, 0) =~= Seq::<char>::empty());
        assert(texts(out@).push(s@.subrange(0, 0)) =~= split(s@.take(0), sep));
    }
    for i in 0..chars.len()
        invariant
            chars@ == s@,
            start <= i <= chars@.len(),
            texts(out@).push(s@.subrange(start as int, i as int)) == split(s@.take(i as int), sep),
    {
        proof {
            let shorter = s@.take(i as int);
            let longer = s@.take(i + 1);
            assert(longer.drop_last() =~= shorter);
            assert(longer.last() == s@[i as int]);
            assert(split(shorter, sep).last() == s@.subrange(start as int, i as int));
            assert(split(shorter, sep).drop_last() =~= texts(out@));
            assert(s@.subrange(start as int, i + 1) =~= s@.subrange(start as int, i as int).push(
                s@[i as int],
            ));
        }
        if chars[i] == sep {
            let ghost before = out@;
            out.push(s.substring_char(start, i).to_owned());
            start = i + 1;
            proof {
                assert(texts(out@) =~= texts(before).push(out@.last()@));
                assert(s@.subrange(start as int, i + 1) =~= Seq::<char>::empty());
                assert(texts(out@).push(s@.subrange(start as int, i + 1)) =~= split(
                    s@.take(i + 1),
                    sep,
                ));
            }
        }
    }
    let ghost before = out@;
    out.push(s.substring_char(start, chars.len()).to_owned());
    proof {
        assert(s@.take(chars@.len() as int) =~= s@);
        assert(texts(out@) =~= texts(before).push(out@.last()@));
    }
    out
}

/// Whether a character has the Unicode property White_Space.
pub open spec fn is_white_space(c: char) -> bool {
    let n = c as u32;
    ||| 0x9 <= n <= 0xd
    ||| n == 0x20
    ||| n == 0x85
    ||| n == 0xa0
    ||| n == 0x1680
    ||| 0x2000 <= n <= 0x200a
    ||| n == 0x2028
    ||| n == 0x2029
    ||| n == 0x202f
    ||| n == 0x205f
    ||| n == 0x3000
}

/// Decides whether a character is white space.
pub fn white_space(c: char) -> (r: bool)
    ensures
        r == is_white_space(c),
{
    let n: u32 = c as u32;
    (0x9 <= n && n <= 0xd) || n == 0x20 || n == 0x85 || n == 0xa0 || n == 0x1680 || (0x2000 <= n
        && n <= 0x200a) || n == 0x2028 || n == 0x2029 || n == 0x202f || n == 0x205f || n == 0x3000
}

/// `s` without its leading white space.
pub open spec fn trim_start(s: Seq<char>) -> Seq<char>
    decreases s.len(),
{
    if s.len() > 0 && is_white_space(s.first()) {
        trim_start(s.drop_first())
    } else {
        s
    }
}

/// `s` without its trailing white space.
pub open spec fn trim_end(s: Seq<char>) -> Seq<char>
    decreases s.len(),
{
    if s.len() > 0 && is_white_space(s.last()) {
        trim_end(s.drop_last())
    } else {
        s
    }
}

/// `s` without its leading and trailing white space.
pub open spec fn trim(s: Seq<char>) -> Seq<char> {
    trim_end(trim_start(s))
}

/// Removes leading and trailing white space.
pub fn trimmed(s: &str) -> (r: String)
    ensures
        r@ == trim(s@),
{
    let chars = characters(s);
    let mut from: usize = 0;
    assert(s@.skip(0) =~= s@);
    while from < chars.len() && white_space(chars[from])
        invariant
            chars@ == s@,
            from <= chars@.len(),
            trim_start(s@) == trim_start(s@.skip(from as int)),
        decreases chars@.len() - from,
    {
        assert(s@.skip(from as int).drop_first() =~= s@.skip(from + 1));
        from = from + 1;
    }
    assert(trim_start(s@) == s@.skip(from as int));
    let mut to: usize = chars.len();
    assert(s@.subrange(from as int, to as int) =~= s@.skip(from as int));
    while from < to && white_space(chars[to - 1])
        invariant
            chars@ == s@,
            from <= to <= chars@.len(),
            trim(s@) == trim_end(s@.subrange(from as int, to as int)),
        decreases to,
    {
        assert(s@.subrange(from as int, to as int).drop_last() =~= s@.subrange(
            from as int,
            to - 1,
        ));
        to = to - 1;
    }
    s.substring_char(from, to).to_owned()
}

/// The text that `String::from_utf8_lossy` makes of bytes.
pub uninterp spec fn lossy(bytes: Seq<u8>) -> Seq<char>;

/// Reads bytes as UTF-8 with `String::from_utf8_lossy`. Valid UTF-8 is decoded;
/// what stands for the rest is a function of the bytes alone.
#[verifier::external_body]
pub(crate) fn utf8_lossy(bytes: &[u8]) -> (r: String)
    ensures
        r@ == lossy(bytes@),
        vstd::utf8::valid_utf8(bytes@) ==> r@ == vstd::utf8::decode_utf8(bytes@),
{
    String::from_utf8_lossy(bytes).into_owned()
}

/// The character for a digit below ten.
pub open spec fn digit(d: nat) -> char {
    ('0' as u32 + d) as char
}

/// A number in decimal notation, without leading zeros.
pub open spec fn decimal(n: nat) -> Seq<char>
    decreases n,
{
    if n < 10 {
        seq![digit(n)]
    } else {
        decimal(n / 10).push(digit(n % 10))
    }
}

fn digit_text(d: u64) -> (r: &'static str)
    requires
        d < 10,
    ensures
        r@ == seq![digit(d as nat)],
{
    proof {
        reveal_strlit("0");
        reveal_strlit("1");
        reveal_strlit("2");
        reveal_strlit("3");
        reveal_strlit("4");
        reveal_strlit("5");
        reveal_strlit("6");
        reveal_strlit("7");
        reveal_strlit("8");
        reveal_strlit("9");
    }
    if d == 0 {
        "0"
    } else if d == 1 {
        "1"
    } else if d == 2 {
        "2"
    } else if d == 3 {
        "3"
    } else if d == 4 {
        "4"
    } else if d == 5 {
        "5"
    } else if d == 6 {
        "6"
    } else if d == 7 {
        "7"
    } else if d == 8 {
        "8"
    } else {
        "9"
    }
}

/// Writes a number in decimal notation.
pub fn number_text(n: u64) -> (r: String)
    ensures
        r@ == decimal(n as nat),
    decreases n,
{
    if n < 10 {
        digit_text(n).to_owned()
    } else {
        let head = number_text(n / 10);
        let r = head.concat(digit_text(n % 10));
        assert(r@ =~= decimal(n as nat));
        r
    }
}

/// Different numbers have different decimal notations.
pub proof fn decimal_is_injective(a: nat, b: nat)
    requires
        decimal(a) == decimal(b),
    ensures
        a == b,
    decreases a,
{
    decimal_has_digits(a);
    decimal_has_digits(b);
    assert(decimal(a).last() == digit(a % 10));
    assert(decimal(b).last() == digit(b % 10));
    assert(digit(a % 10) as u32 == 48 + a % 10);
    assert(digit(b % 10) as u32 == 48 + b % 10);
    if a >= 10 && b >= 10 {
        assert(decimal(a).drop_last() =~= decimal(a / 10));
        assert(decimal(b).drop_last() =~= decimal(b / 10));
        decimal_is_injective(a / 10, b / 10);
    } else if a >= 10 {
        decimal_has_digits(a / 10);
    } else if b >= 10 {
        decimal_has_digits(b / 10);
    }
}

proof fn decimal_has_digits(n: nat)
    ensures
        decimal(n).len() >= 1,
    decreases n,
{
    if n >= 10 {
        decimal_has_digits(n / 10);
    }
}

/// Lexicographic order by code point.
pub open spec fn precedes_or_equals(a: Seq<char>, b: Seq<char>) -> bool
    decreases a.len(),
{
    if a.len() == 0 {
        true
    } else if b.len() == 0 {
        false
    } else if a.first() == b.first() {
        precedes_or_equals(a.drop_first(), b.drop_first())
    } else {
        a.first() < b.first()
    }
}

/// Strict lexicographic order by code point.
pub open spec fn precedes(a: Seq<char>, b: Seq<char>) -> bool {
    precedes_or_equals(a, b) && a != b
}

/// Of two texts one precedes or equals the other.
pub proof fn order_is_total(a: Seq<char>, b: Seq<char>)
    ensures
        precedes_or_equals(a, b) || precedes_or_equals(b, a),
    decreases a.len(),
{
    if a.len() > 0 && b.len() > 0 {
        if a.first() == b.first() {
            order_is_total(a.drop_first(), b.drop_first());
        }
    }
}

/// Two texts that precede or equal each other are the same.
pub proof fn order_is_antisymmetric(a: Seq<char>, b: Seq<char>)
    requires
        precedes_or_equals(a, b),
        precedes_or_equals(b, a),
    ensures
        a == b,
    decreases a.len(),
{
    if a.len() > 0 && b.len() > 0 {
        order_is_antisymmetric(a.drop_first(), b.drop_first());
        assert(a =~= seq![a.first()] + a.drop_first());
        assert(b =~= seq![b.first()] + b.drop_first());
    } else {
        assert(a =~= b);
    }
}

/// The order is transitive.
pub proof fn order_is_transitive(a: Seq<char>, b: Seq<char>, c: Seq<char>)
    requires
        precedes_or_equals(a, b),
        precedes_or_equals(b, c),
    ensures
        precedes_or_equals(a, c),
    decreases a.len(),
{
    if a.len() > 0 && b.len() > 0 && c.len() > 0 && a.first() == b.first() && b.first()
        == c.first() {
        order_is_transitive(a.drop_first(), b.drop_first(), c.drop_first());
    }
}

/// Decides whether `a` strictly precedes `b`.
pub fn before(a: &str, b: &str) -> (r: bool)
    ensures
        r == precedes(a@, b@),
{
    let x = characters(a);
    let y = characters(b);
    let mut i: usize = 0;
    assert(a@.skip(0) =~= a@);
    assert(b@.skip(0) =~= b@);
    while i < x.len() && i < y.len() && x[i] == y[i]
        invariant
            x@ == a@,
            y@ == b@,
            i <= x@.len(),
            i <= y@.len(),
            a@.take(i as int) == b@.take(i as int),
            precedes_or_equals(a@, b@) == precedes_or_equals(a@.skip(i as int), b@.skip(i as int)),
        decreases x@.len() - i,
    {
        proof {
            assert(a@.skip(i as int).drop_first() =~= a@.skip(i + 1));
            assert(b@.skip(i as int).drop_first() =~= b@.skip(i + 1));
            assert(a@.take(i + 1) =~= a@.take(i as int).push(a@[i as int]));
            assert(b@.take(i + 1) =~= b@.take(i as int).push(b@[i as int]));
        }
        i = i + 1;
    }
    if i == x.len() {
        proof {
            if i == y.len() {
                assert(a@ =~= a@.take(i as int));
                assert(b@ =~= b@.take(i as int));
            }
        }
        i < y.len()
    } else if i == y.len() {
        false
    } else {
        assert(a@.skip(i as int).first() == a@[i as int]);
        assert(b@.skip(i as int).first() == b@[i as int]);
        x[i] < y[i]
    }
}

/// What the texts of a list hold, and what an optional text holds.
pub proof fn texts_are_what_they_hold(v: Seq<String>, s: String)
    ensures
        texts(v).len() == v.len(),
        forall|i: int| 0 <= i < v.len() ==> #[trigger] texts(v)[i] == v[i]@,
        optional(Some(s)) == Some(s@),
        optional(None) is None,
{
}

/// Pieces with a separator between each two of them.
pub open spec fn join(list: Seq<Seq<char>>, sep: char) -> Seq<char>
    decreases list.len(),
{
    if list.len() == 0 {
        Seq::empty()
    } else if list.len() == 1 {
        list[0]
    } else {
        join(list.drop_last(), sep).push(sep) + list.last()
    }
}

/// Splitting a text loses nothing but the separators: the pieces hold none, and
/// joined by them they are the text again.
pub proof fn pieces_make_the_text(s: Seq<char>, sep: char)
    ensures
        split(s, sep).len() >= 1,
        join(split(s, sep), sep) == s,
        forall|i: int, k: int|
            0 <= i < split(s, sep).len() && 0 <= k < split(s, sep)[i].len() ==> #[trigger] split(
                s,
                sep,
            )[i][k] != sep,
    decreases s.len(),
{
    let p = split(s, sep);
    if s.len() == 0 {
        assert(join(p, sep) =~= s);
    } else {
        let t = s.drop_last();
        let q = split(t, sep);
        pieces_make_the_text(t, sep);
        assert(s =~= t.push(s.last()));
        if s.last() == sep {
            assert(p.drop_last() =~= q);
            assert(join(p, sep) =~= s);
            assert forall|i: int, k: int|
                0 <= i < p.len() && 0 <= k < p[i].len() implies #[trigger] p[i][k] != sep by {
                assert(i < q.len());
                assert(p[i] == q[i]);
                assert(q[i][k] != sep);
            }
        } else {
            assert(p.drop_last() =~= q.drop_last());
            assert(p.last() == q.last().push(s.last()));
            if q.len() == 1 {
                assert(q.last() == q[0]);
                assert(join(p, sep) =~= s);
            } else {
                assert(join(p, sep) =~= s);
            }
            assert forall|i: int, k: int|
                0 <= i < p.len() && 0 <= k < p[i].len() implies #[trigger] p[i][k] != sep by {
                if i < q.len() - 1 {
                    assert(p[i] == q[i]);
                    assert(q[i][k] != sep);
                } else {
                    let last = q.len() - 1;
                    assert(p[i] == q[last].push(s.last()));
                    if k < q[last].len() {
                        assert(p[i][k] == q[last][k]);
                        assert(q[last][k] != sep);
                    }
                }
            }
        }
    }
}

/// The characters that count as white space.
pub proof fn white_space_is_this(c: char)
    ensures
        is_white_space(c) <==> c == '\u{9}' || c == '\u{a}' || c == '\u{b}' || c == '\u{c}' || c
            == '\u{d}' || c == ' ' || c == '\u{85}' || c == '\u{a0}' || c == '\u{1680}' || (
        '\u{2000}' <= c && c <= '\u{200a}') || c == '\u{2028}' || c == '\u{2029}' || c
            == '\u{202f}' || c == '\u{205f}' || c == '\u{3000}',
{
}

/// Whether a text is white space alone.
pub open spec fn is_blank(s: Seq<char>) -> bool {
    forall|i: int| 0 <= i < s.len() ==> is_white_space(#[trigger] s[i])
}

proof fn start_is_trimmed(s: Seq<char>)
    ensures
        trim_start(s).len() <= s.len(),
        trim_start(s) == s.skip(s.len() - trim_start(s).len()),
        is_blank(s.take(s.len() - trim_start(s).len())),
        trim_start(s).len() > 0 ==> !is_white_space(trim_start(s).first()),
    decreases s.len(),
{
    if s.len() > 0 && is_white_space(s.first()) {
        let t = s.drop_first();
        start_is_trimmed(t);
        let n = s.len() - trim_start(s).len();
        assert(s.skip(n) =~= t.skip(n - 1));
        assert forall|i: int| 0 <= i < n implies is_white_space(#[trigger] s.take(n)[i]) by {
            if i > 0 {
                assert(s.take(n)[i] == t.take(n - 1)[i - 1]);
            }
        }
    } else {
        assert(s.skip(0) =~= s);
    }
}

proof fn end_is_trimmed(s: Seq<char>)
    ensures
        trim_end(s).len() <= s.len(),
        trim_end(s) == s.take(trim_end(s).len() as int),
        is_blank(s.skip(trim_end(s).len() as int)),
        trim_end(s).len() > 0 ==> !is_white_space(trim_end(s).last()),
    decreases s.len(),
{
    if s.len() > 0 && is_white_space(s.last()) {
        let t = s.drop_last();
        end_is_trimmed(t);
        let n = trim_end(s).len() as int;
        assert(s.take(n) =~= t.take(n));
        assert forall|i: int| 0 <= i < s.len() - n implies is_white_space(
            #[trigger] s.skip(n)[i],
        ) by {
            if i < t.len() - n {
                assert(s.skip(n)[i] == t.skip(n)[i]);
            }
        }
    } else {
        assert(s.take(s.len() as int) =~= s);
    }
}

/// Trimming takes white space from both ends and nothing else, and leaves none
/// there.
pub proof fn trimming_takes_white_space(s: Seq<char>)
    ensures
        exists|a: Seq<char>, b: Seq<char>|
            s == #[trigger] (a + trim(s) + b) && is_blank(a) && is_blank(b),
        trim(s).len() > 0 ==> !is_white_space(trim(s).first()) && !is_white_space(trim(s).last()),
        trim(s).len() == 0 <==> is_blank(s),
{
    start_is_trimmed(s);
    let t = trim_start(s);
    end_is_trimmed(t);
    let a = s.take(s.len() - t.len());
    let b = t.skip(trim(s).len() as int);
    assert(s =~= a + trim(s) + b);
    if trim(s).len() == 0 {
        assert forall|i: int| 0 <= i < s.len() implies is_white_space(#[trigger] s[i]) by {
            if i < a.len() {
                assert(a[i] == s[i]);
            } else {
                assert(b[i - a.len()] == s[i]);
            }
        }
    } else {
        assert(t.len() > 0);
        assert(t.first() == s[a.len() as int]);
        assert(trim(s).first() == t.first());
    }
}

/// The number that digits stand for.
pub open spec fn number_of(s: Seq<char>) -> int
    decreases s.len(),
{
    if s.len() == 0 {
        0
    } else {
        10 * number_of(s.drop_last()) + (s.last() as int - '0' as int)
    }
}

/// The decimal notation of a number stands for it: its characters are digits,
/// without a zero in front unless it is that alone.
pub proof fn decimals_stand_for_numbers(n: nat)
    ensures
        number_of(decimal(n)) == n,
        decimal(n).len() >= 1,
        forall|i: int| 0 <= i < decimal(n).len() ==> '0' <= #[trigger] decimal(n)[i] && decimal(
            n,
        )[i] <= '9',
        decimal(n)[0] == '0' ==> n == 0,
    decreases n,
{
    reveal_with_fuel(number_of, 2);
    let d = decimal(n);
    if n < 10 {
        assert(d.drop_last() =~= Seq::<char>::empty());
        assert(digit(n) as int == 48 + n);
    } else {
        decimals_stand_for_numbers(n / 10);
        assert(d.drop_last() =~= decimal(n / 10));
        assert(digit(n % 10) as int == 48 + n % 10);
        assert(d.last() == digit(n % 10));
        assert forall|i: int| 0 <= i < d.len() implies '0' <= #[trigger] d[i] && d[i] <= '9' by {
            if i < d.len() - 1 {
                assert(d[i] == decimal(n / 10)[i]);
            }
        }
        assert(d[0] == decimal(n / 10)[0]);
    }
}

/// One text precedes another if and only if it is a beginning of it, or has the
/// smaller character where they first differ.
pub proof fn order_is_lexicographic(a: Seq<char>, b: Seq<char>, k: int)
    requires
        0 <= k <= a.len(),
        k <= b.len(),
        a.take(k) == b.take(k),
    ensures
        k < a.len() && k < b.len() && a[k] < b[k] ==> precedes(a, b) && !precedes(b, a),
        k == a.len() && k < b.len() ==> precedes(a, b) && !precedes(b, a),
        !precedes(a, a),
    decreases k,
{
    if k > 0 {
        let x = a.drop_first();
        let y = b.drop_first();
        assert(a[0] == a.take(k)[0] && b[0] == b.take(k)[0]);
        assert forall|i: int| 0 <= i < k - 1 implies #[trigger] x.take(k - 1)[i] == y.take(
            k - 1,
        )[i] by {
            assert(a.take(k)[i + 1] == b.take(k)[i + 1]);
            assert(x[i] == a[i + 1] && y[i] == b[i + 1]);
            assert(a.take(k)[i + 1] == a[i + 1] && b.take(k)[i + 1] == b[i + 1]);
        }
        assert(x.take(k - 1) =~= y.take(k - 1));
        order_is_lexicographic(x, y, k - 1);
        if k < a.len() {
            assert(x[k - 1] == a[k]);
        }
        if k < b.len() {
            assert(y[k - 1] == b[k]);
        }
        assert(x != y ==> a != b);
    }
}

/// What is done with texts: they are compared, joined, copied, split, trimmed
/// and ordered.
pub proof fn texts_are_worked_with(
    a: &str,
    b: &str,
    same_text: bool,
    both: String,
    list: &Vec<String>,
    copies: Vec<String>,
    maybe: &Option<String>,
    copy: Option<String>,
    sep: char,
    parts: Vec<String>,
    inner: String,
    n: u64,
    digits: String,
    first: bool,
)
    requires
        call_ensures(same, (a, b), same_text),
        call_ensures(joined, (a, b), both),
        call_ensures(copied, (list,), copies),
        call_ensures(copied_option, (maybe,), copy),
        call_ensures(pieces, (a, sep), parts),
        call_ensures(trimmed, (a,), inner),
        call_ensures(number_text, (n,), digits),
        call_ensures(before, (a, b), first),
    ensures
        same_text <==> a@ == b@,
        both@.len() == a@.len() + b@.len() && both@.take(a@.len() as int) == a@ && both@.skip(
            a@.len() as int,
        ) == b@,
        texts(copies@) == texts(list@),
        optional(copy) == optional(*maybe),
        join(texts(parts@), sep) == a@,
        inner@.len() > 0 ==> !is_white_space(inner@.first()) && !is_white_space(inner@.last()),
        exists|x: Seq<char>, y: Seq<char>|
            a@ == #[trigger] (x + inner@ + y) && is_blank(x) && is_blank(y),
        number_of(digits@) == n,
        first ==> a@ != b@,
{
    pieces_make_the_text(a@, sep);
    trimming_takes_white_space(a@);
    decimals_stand_for_numbers(n as nat);
    assert(both@.take(a@.len() as int) =~= a@);
    assert(both@.skip(a@.len() as int) =~= b@);
}

/// The characters of a text are its own, and what counts as white space is the
/// same everywhere.
pub proof fn characters_are_looked_at(s: &str, r: Vec<char>, c: char, w: bool)
    requires
        call_ensures(characters, (s,), r),
        call_ensures(white_space, (c,), w),
    ensures
        r@.len() == s@.len(),
        forall|i: int| 0 <= i < r@.len() ==> #[trigger] r@[i] == s@[i],
        w <==> is_blank(seq![c]),
{
    if w {
        assert(is_blank(seq![c]));
    } else {
        assert(!is_white_space(seq![c][0]));
    }
}

} // verus!
