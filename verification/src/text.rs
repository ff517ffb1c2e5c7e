//! Text building blocks shared by the generators: decimal numbers,
//! padding, quoted lists and line splitting.

use vstd::prelude::*;

verus! {

/// The views of a sequence of strings.
pub open spec fn strs_view(v: Seq<String>) -> Seq<Seq<char>> {
    v.map_values(|s: String| s@)
}

/// The view of an optional string.
pub open spec fn opt_str_view(o: Option<String>) -> Option<Seq<char>> {
    match o {
        Some(s) => Some(s@),
        None => None,
    }
}

/// The character of the decimal digit `d` (`d` below ten).
pub open spec fn digit_char(d: nat) -> char {
    if d == 0 {
        '0'
    } else if d == 1 {
        '1'
    } else if d == 2 {
        '2'
    } else if d == 3 {
        '3'
    } else if d == 4 {
        '4'
    } else if d == 5 {
        '5'
    } else if d == 6 {
        '6'
    } else if d == 7 {
        '7'
    } else if d == 8 {
        '8'
    } else {
        '9'
    }
}

/// The decimal representation of `n`, without leading zeros.
pub open spec fn decimal(n: nat) -> Seq<char>
    decreases n,
{
    if n < 10 {
        seq![digit_char(n)]
    } else {
        decimal(n / 10).push(digit_char(n % 10))
    }
}

/// `n` written with at least two digits, padded on the left with `0`.
pub open spec fn two_digits(n: nat) -> Seq<char> {
    if n < 10 {
        seq!['0'] + decimal(n)
    } else {
        decimal(n)
    }
}

/// `s` followed by as many spaces as it takes to reach `width` characters.
pub open spec fn pad_right(s: Seq<char>, width: nat) -> Seq<char> {
    if s.len() >= width {
        s
    } else {
        s + Seq::new((width - s.len()) as nat, |i: int| ' ')
    }
}

/// `s` in single quotes.
pub open spec fn quoted(s: Seq<char>) -> Seq<char> {
    seq!['\''] + s + seq!['\'']
}

/// Each name in single quotes, separated by `, `.
pub open spec fn quoted_list(names: Seq<Seq<char>>) -> Seq<char>
    decreases names.len(),
{
    if names.len() == 0 {
        Seq::empty()
    } else if names.len() == 1 {
        quoted(names[0])
    } else {
        quoted_list(names.drop_last()) + seq![',', ' '] + quoted(names.last())
    }
}

/// `line` without one trailing carriage return.
pub open spec fn strip_cr(line: Seq<char>) -> Seq<char> {
    if line.len() > 0 && line.last() == '\r' {
        line.drop_last()
    } else {
        line
    }
}

/// Reading `s` from the start: the lines ended by a `\n` so far (each
/// without its `\n` and without a `\r` just before it), and the text after
/// the last `\n`.
pub open spec fn line_scan(s: Seq<char>) -> (Seq<Seq<char>>, Seq<char>)
    decreases s.len(),
{
    if s.len() == 0 {
        (Seq::empty(), Seq::empty())
    } else {
        let (done, cur) = line_scan(s.drop_last());
        if s.last() == '\n' {
            (done.push(strip_cr(cur)), Seq::empty())
        } else {
            (done, cur.push(s.last()))
        }
    }
}

/// The lines of `s`: split at `\n` or `\r\n`; a final line ending is
/// optional and adds no empty line.
pub open spec fn lines(s: Seq<char>) -> Seq<Seq<char>> {
    let (done, cur) = line_scan(s);
    if cur.len() == 0 {
        done
    } else {
        done.push(cur)
    }
}

/// Appends one character. Calls `String::push`, trusted to leave the old
/// text followed by `c`.
#[verifier::external_body]
pub(crate) fn push_char(s: &mut String, c: char)
    ensures
        final(s)@ == old(s)@.push(c),
{
    s.push(c)
}

/// Removes and returns the last character, or `None` when the string is
/// empty. Calls `String::pop`, trusted to do exactly that, as its
/// documentation says.
#[verifier::external_body]
pub(crate) fn pop_char(s: &mut String) -> (r: Option<char>)
    ensures
        old(s)@.len() == 0 ==> r is None && final(s)@ == old(s)@,
        old(s)@.len() > 0 ==> r == Some(old(s)@.last()) && final(s)@ == old(s)@.drop_last(),
{
    s.pop()
}

/// Whether two string slices hold the same characters. Calls
/// `<str as PartialEq>::eq`, trusted to compare the character sequences.
#[verifier::external_body]
pub(crate) fn str_equal(a: &str, b: &str) -> (r: bool)
    ensures
        r == (a@ == b@),
{
    a == b
}

/// The character of a decimal digit.
pub fn digit_to_char(d: u64) -> (c: char)
    requires
        d < 10,
    ensures
        c == digit_char(d as nat),
{
    if d == 0 {
        '0'
    } else if d == 1 {
        '1'
    } else if d == 2 {
        '2'
    } else if d == 3 {
        '3'
    } else if d == 4 {
        '4'
    } else if d == 5 {
        '5'
    } else if d == 6 {
        '6'
    } else if d == 7 {
        '7'
    } else if d == 8 {
        '8'
    } else {
        '9'
    }
}

/// Appends the decimal representation of `n`.
pub fn push_decimal(s: &mut String, n: u64)
    ensures
        final(s)@ == old(s)@ + decimal(n as nat),
    decreases n,
{
    if n >= 10 {
        push_decimal(s, n / 10);
    }
    let c = digit_to_char(n % 10);
    push_char(s, c);
    proof {
        if n >= 10 {
            assert(decimal(n as nat) == decimal((n / 10) as nat).push(digit_char((n % 10) as nat)));
        } else {
            assert(decimal(n as nat) == seq![digit_char(n as nat)]);
        }
        assert(final(s)@ =~= old(s)@ + decimal(n as nat));
    }
}

/// Appends `s`, then spaces up to `width` characters.
pub fn push_padded(out: &mut String, s: &str, width: usize)
    ensures
        final(out)@ == old(out)@ + pad_right(s@, width as nat),
{
    out.append(s);
    let n = s.unicode_len();
    let mut k = n;
    while k < width
        invariant
            n == s@.len(),
            n <= k <= width || (k == n && n >= width),
            out@ == old(out)@ + s@ + Seq::new((k - n) as nat, |i: int| ' '),
        decreases width - k,
    {
        push_char(out, ' ');
        k = k + 1;
        assert(out@ =~= old(out)@ + s@ + Seq::new((k - n) as nat, |i: int| ' '));
    }
    assert(out@ =~= old(out)@ + pad_right(s@, width as nat));
}

/// Splits `s` into its lines (`str::lines`).
pub fn split_lines(s: &str) -> (r: Vec<String>)
    ensures
        strs_view(r@) == lines(s@),
{
    let mut res: Vec<String> = Vec::new();
    let mut cur = String::new();
    proof {
        vstd::string::axiom_spec_iter(s);
    }
    for c in it: s.chars()
        invariant
            it.seq() == s@,
            (strs_view(res@), cur@) == line_scan(s@.take(it.index() as int)),
    {
        let ghost i = it.index() as int;
        let ghost cur0 = cur@;
        let ghost done0 = strs_view(res@);
        proof {
            assert(s@.take(i + 1).drop_last() =~= s@.take(i));
            assert(s@.take(i + 1).last() == c);
        }
        if c == '\n' {
            let last = pop_char(&mut cur);
            match last {
                Some(ch) => {
                    if ch != '\r' {
                        push_char(&mut cur, ch);
                    }
                },
                None => {},
            }
            proof {
                assert(cur@ =~= strip_cr(cur0));
            }
            let mut done = String::new();
            std::mem::swap(&mut done, &mut cur);
            res.push(done);
            proof {
                assert(strs_view(res@) =~= done0.push(done@));
                assert(cur@ =~= Seq::<char>::empty());
                assert(line_scan(s@.take(i + 1)) == (done0.push(strip_cr(cur0)), Seq::<char>::empty()));
            }
        } else {
            push_char(&mut cur, c);
            proof {
                assert(line_scan(s@.take(i + 1)) == (done0, cur0.push(c)));
            }
        }
    }
    proof {
        assert(s@.take(s@.len() as int) =~= s@);
    }
    if cur.as_str().unicode_len() > 0 {
        let ghost before = strs_view(res@);
        res.push(cur);
        proof {
            assert(strs_view(res@) =~= before.push(cur@));
        }
    }
    res
}

/// The decimal representation of `n` as a string.
pub fn decimal_string(n: u64) -> (r: String)
    ensures
        r@ == decimal(n as nat),
{
    let mut s = String::new();
    push_decimal(&mut s, n);
    proof {
        assert(s@ =~= decimal(n as nat));
    }
    s
}

/// Appends each name in single quotes, separated by `, `.
pub fn push_quoted_list(out: &mut String, names: &[String])
    ensures
        final(out)@ == old(out)@ + quoted_list(strs_view(names@)),
{
    let n = names.len();
    let mut i: usize = 0;
    while i < n
        invariant
            n == names@.len(),
            i <= n,
            out@ == old(out)@ + quoted_list(strs_view(names@.take(i as int))),
        decreases n - i,
    {
        let ghost prev = strs_view(names@.take(i as int));
        let ghost next = strs_view(names@.take(i + 1));
        proof {
            assert(next.drop_last() =~= prev);
            assert(next.last() == names@[i as int]@);
        }
        if i > 0 {
            out.append(", ");
        }
        out.append("'");
        out.append(names[i].as_str());
        out.append("'");
        proof {
            reveal_strlit(", ");
            reveal_strlit("'");
            if i > 0 {
                assert(quoted_list(next) == quoted_list(prev) + seq![',', ' '] + quoted(next.last()));
            } else {
                assert(quoted_list(next) == quoted(next[0]));
            }
            assert(out@ =~= old(out)@ + quoted_list(next));
        }
        i = i + 1;
    }
    proof {
        assert(names@.take(n as int) =~= names@);
    }
}

/// Distinct digits have distinct characters.
pub proof fn lemma_digit_char_injective(a: nat, b: nat)
    requires
        a < 10,
        b < 10,
        digit_char(a) == digit_char(b),
    ensures
        a == b,
{
}

/// A decimal has one digit below ten and at least two from ten on.
pub proof fn lemma_decimal_len(n: nat)
    ensures
        n < 10 ==> decimal(n).len() == 1,
        n >= 10 ==> decimal(n).len() >= 2,
    decreases n,
{
    if n >= 10 {
        lemma_decimal_len(n / 10);
    }
}

/// The decimal of a positive number does not start with `0`.
pub proof fn lemma_decimal_leading_digit(n: nat)
    requires
        n >= 1,
    ensures
        decimal(n)[0] != '0',
    decreases n,
{
    if n >= 10 {
        lemma_decimal_len(n / 10);
        lemma_decimal_leading_digit(n / 10);
        assert(decimal(n)[0] == decimal(n / 10)[0]);
    }
}

/// Different numbers have different decimals.
pub proof fn lemma_decimal_injective(a: nat, b: nat)
    requires
        decimal(a) == decimal(b),
    ensures
        a == b,
    decreases a,
{
    lemma_decimal_len(a);
    lemma_decimal_len(b);
    if a < 10 && b < 10 {
        assert(decimal(a)[0] == digit_char(a));
        assert(decimal(b)[0] == digit_char(b));
        lemma_digit_char_injective(a, b);
    } else if a >= 10 && b >= 10 {
        assert(decimal(a).last() == digit_char(a % 10));
        assert(decimal(b).last() == digit_char(b % 10));
        lemma_digit_char_injective(a % 10, b % 10);
        assert(decimal(a).drop_last() =~= decimal(a / 10));
        assert(decimal(b).drop_last() =~= decimal(b / 10));
        lemma_decimal_injective(a / 10, b / 10);
    }
}

/// Different positive numbers have different two-digit forms.
pub proof fn lemma_two_digits_injective(a: nat, b: nat)
    requires
        a >= 1,
        b >= 1,
        a != b,
    ensures
        two_digits(a) != two_digits(b),
{
    lemma_decimal_len(a);
    lemma_decimal_len(b);
    if two_digits(a) == two_digits(b) {
        if a < 10 && b < 10 {
            assert(two_digits(a).drop_first() =~= decimal(a));
            assert(two_digits(b).drop_first() =~= decimal(b));
            lemma_decimal_injective(a, b);
        } else if a >= 10 && b >= 10 {
            lemma_decimal_injective(a, b);
        } else if a < 10 {
            lemma_decimal_leading_digit(b);
            assert(two_digits(a)[0] == '0');
        } else {
            lemma_decimal_leading_digit(a);
            assert(two_digits(b)[0] == '0');
        }
    }
}

/// `t` occurs in `s` starting at position `p`.
pub open spec fn occurs_at(s: Seq<char>, p: int, t: Seq<char>) -> bool {
    0 <= p && p + t.len() <= s.len() && s.subrange(p, p + t.len()) == t
}

/// An occurrence inside an occurrence is an occurrence.
pub proof fn lemma_occurs_within(s: Seq<char>, p: int, block: Seq<char>, k: int, t: Seq<char>)
    requires
        occurs_at(s, p, block),
        occurs_at(block, k, t),
    ensures
        occurs_at(s, p + k, t),
{
    assert(s.subrange(p + k, p + k + t.len()) =~= block.subrange(k, k + t.len()));
}

/// The middle part of a concatenation occurs where the first part ends.
pub proof fn lemma_occurs_in_concat(x: Seq<char>, t: Seq<char>, y: Seq<char>)
    ensures
        occurs_at(x + t + y, x.len() as int, t),
{
    assert((x + t + y).subrange(x.len() as int, (x.len() + t.len()) as int) =~= t);
}

/// In a flattened sequence, part `i` sits right after the parts before it.
pub proof fn lemma_flatten_part<A>(parts: Seq<Seq<A>>, i: int)
    requires
        0 <= i < parts.len(),
    ensures
        parts.take(i).flatten().len() + parts[i].len() == parts.take(i + 1).flatten().len(),
        parts.take(i + 1).flatten().len() <= parts.flatten().len(),
        parts.flatten().subrange(
            parts.take(i).flatten().len() as int,
            (parts.take(i).flatten().len() + parts[i].len()) as int,
        ) == parts[i],
    decreases parts.len(),
{
    let dl = parts.drop_last();
    parts.drop_last().lemma_flatten_push(parts.last());
    assert(dl.push(parts.last()) =~= parts);
    parts.take(i).lemma_flatten_push(parts[i]);
    assert(parts.take(i).push(parts[i]) =~= parts.take(i + 1));
    if i == parts.len() - 1 {
        assert(dl =~= parts.take(i));
        assert(parts.take(i + 1) =~= parts);
        assert(parts.flatten().subrange(
            parts.take(i).flatten().len() as int,
            (parts.take(i).flatten().len() + parts[i].len()) as int,
        ) =~= parts[i]);
    } else {
        lemma_flatten_part(dl, i);
        assert(dl.take(i) =~= parts.take(i));
        assert(dl.take(i + 1) =~= parts.take(i + 1));
        assert(dl[i] == parts[i]);
        assert(parts.flatten().subrange(
            parts.take(i).flatten().len() as int,
            (parts.take(i).flatten().len() + parts[i].len()) as int,
        ) =~= dl.flatten().subrange(
            parts.take(i).flatten().len() as int,
            (parts.take(i).flatten().len() + parts[i].len()) as int,
        ));
    }
}

/// An item is in a flattened sequence exactly when it is in one of the parts.
pub proof fn lemma_flatten_contains<A>(parts: Seq<Seq<A>>, x: A)
    ensures
        parts.flatten().contains(x) <==> exists|i: int, k: int|
            0 <= i < parts.len() && 0 <= k < parts[i].len() && #[trigger] parts[i][k] == x,
    decreases parts.len(),
{
    if parts.len() > 0 {
        let dl = parts.drop_last();
        let last = parts.last();
        lemma_flatten_contains(dl, x);
        dl.lemma_flatten_push(last);
        assert(dl.push(last) =~= parts);
        let f = dl.flatten();
        if parts.flatten().contains(x) {
            let j = choose|j: int| 0 <= j < parts.flatten().len() && parts.flatten()[j] == x;
            if j < f.len() {
                assert(f[j] == x);
                let (i, k) = choose|i: int, k: int|
                    0 <= i < dl.len() && 0 <= k < dl[i].len() && #[trigger] dl[i][k] == x;
                assert(parts[i][k] == x);
            } else {
                assert(last[j - f.len()] == x);
                assert(parts[parts.len() - 1][j - f.len()] == x);
            }
        }
        if exists|i: int, k: int| 0 <= i < parts.len() && 0 <= k < parts[i].len() && #[trigger] parts[i][k] == x {
            let (i, k) = choose|i: int, k: int|
                0 <= i < parts.len() && 0 <= k < parts[i].len() && #[trigger] parts[i][k] == x;
            if i < parts.len() - 1 {
                assert(dl[i][k] == x);
                let j = choose|j: int| 0 <= j < f.len() && f[j] == x;
                assert(parts.flatten()[j] == x);
            } else {
                assert(parts.flatten()[f.len() + k] == x);
            }
        }
    }
}

/// An occurrence stays where it is when text is appended.
pub proof fn lemma_occurs_extend(a: Seq<char>, b: Seq<char>, p: int, x: Seq<char>)
    requires
        occurs_at(a, p, x),
    ensures
        occurs_at(a + b, p, x),
{
    assert((a + b).subrange(p, p + x.len()) =~= a.subrange(p, p + x.len()));
}

/// A text occurs at the end of anything it is appended to.
pub proof fn lemma_occurs_at_end(a: Seq<char>, x: Seq<char>)
    ensures
        occurs_at(a + x, a.len() as int, x),
{
    assert((a + x).subrange(a.len() as int, (a.len() + x.len()) as int) =~= x);
}

/// No line holds a line feed: the scan never keeps one.
proof fn lemma_line_scan_no_newline(s: Seq<char>)
    ensures
        forall|i: int| 0 <= i < line_scan(s).0.len() ==> !(#[trigger] line_scan(s).0[i]).contains('\n'),
        !line_scan(s).1.contains('\n'),
    decreases s.len(),
{
    if s.len() > 0 {
        lemma_line_scan_no_newline(s.drop_last());
        let (done, cur) = line_scan(s.drop_last());
        if s.last() == '\n' {
            assert(!strip_cr(cur).contains('\n')) by {
                if strip_cr(cur).contains('\n') {
                    let k = choose|k: int| 0 <= k < strip_cr(cur).len() && strip_cr(cur)[k] == '\n';
                    assert(cur[k] == '\n');
                }
            }
            assert forall|i: int| 0 <= i < done.push(strip_cr(cur)).len() implies !(
            #[trigger] done.push(strip_cr(cur))[i]).contains('\n') by {
                if i < done.len() {
                    assert(done.push(strip_cr(cur))[i] == done[i]);
                }
            }
        } else {
            assert(!cur.push(s.last()).contains('\n')) by {
                if cur.push(s.last()).contains('\n') {
                    let k = choose|k: int| 0 <= k < cur.push(s.last()).len() && cur.push(s.last())[k] == '\n';
                    if k < cur.len() {
                        assert(cur[k] == '\n');
                    }
                }
            }
        }
    }
}

/// The lines of a text hold no line feed, and a final line ending (`\n` or
/// `\r\n`) after a last line that has text adds no line.
pub proof fn lemma_lines_laws(s: Seq<char>)
    ensures
        forall|i: int| 0 <= i < lines(s).len() ==> !(#[trigger] lines(s)[i]).contains('\n'),
        (s.len() > 0 && s.last() != '\n' && s.last() != '\r') ==> lines(s.push('\n')) == lines(s),
        (s.len() > 0 && s.last() != '\n' && s.last() != '\r') ==> lines(s.push('\r').push('\n')) == lines(s),
{
    lemma_line_scan_no_newline(s);
    let (done, cur) = line_scan(s);
    assert forall|i: int| 0 <= i < lines(s).len() implies !(#[trigger] lines(s)[i]).contains('\n') by {
        if i < done.len() {
            assert(lines(s)[i] == done[i]);
        }
    }
    if s.len() > 0 && s.last() != '\n' && s.last() != '\r' {
        assert(s.push('\n').drop_last() =~= s);
        assert(s.push('\r').drop_last() =~= s);
        assert(s.push('\r').push('\n').drop_last() =~= s.push('\r'));
        let (d0, c0) = line_scan(s.drop_last());
        assert(cur == c0.push(s.last()));
        assert(cur.len() > 0);
        assert(cur.last() != '\r');
        assert(strip_cr(cur) == cur);
        assert(strip_cr(cur.push('\r')) =~= cur);
        let sr = s.push('\r');
        assert(sr.last() == '\r');
        assert(line_scan(sr) == (done, cur.push('\r')));
        assert(line_scan(sr.push('\n')) == (done.push(strip_cr(cur.push('\r'))), Seq::<char>::empty()));
        assert(lines(sr.push('\n')) == done.push(cur));
    }
}

/// The number that a string of decimal digits denotes.
pub open spec fn digits_value(s: Seq<char>) -> int
    decreases s.len(),
{
    if s.len() == 0 {
        0
    } else {
        digits_value(s.drop_last()) * 10 + (s.last() as int - '0' as int)
    }
}

/// The character of digit `d` stands for `d`.
proof fn lemma_digit_value(d: nat)
    requires
        d < 10,
    ensures
        digit_char(d) as int - '0' as int == d,
        '0' <= digit_char(d) <= '9',
{
}

/// The decimal of `n` is made of the digits `0` to `9`, starts with a
/// non-zero digit unless `n` is zero, and denotes `n`.
pub proof fn lemma_decimal_denotes(n: nat)
    ensures
        forall|i: int| 0 <= i < decimal(n).len() ==> '0' <= #[trigger] decimal(n)[i] <= '9',
        digits_value(decimal(n)) == n,
        decimal(n).len() >= 1,
        n > 0 ==> decimal(n)[0] != '0',
    decreases n,
{
    lemma_decimal_len(n);
    if n >= 1 {
        lemma_decimal_leading_digit(n);
    }
    lemma_digit_value(n % 10);
    let d0 = decimal(n);
    assert(digits_value(d0) == digits_value(d0.drop_last()) * 10 + (d0.last() as int - '0' as int));
    if n < 10 {
        assert(d0.drop_last() =~= Seq::<char>::empty());
        assert(n % 10 == n);
        assert(d0.last() == digit_char(n));
    } else {
        lemma_decimal_denotes(n / 10);
        vstd::arithmetic::div_mod::lemma_fundamental_div_mod(n as int, 10);
        let d = decimal(n);
        assert(d.drop_last() =~= decimal(n / 10));
        assert(d.last() == digit_char(n % 10));
        assert(digits_value(d) == (n / 10) * 10 + (n % 10) as int);
        assert forall|i: int| 0 <= i < d.len() implies '0' <= #[trigger] d[i] <= '9' by {
            if i < d.len() - 1 {
                assert(d[i] == decimal(n / 10)[i]);
            }
        }
    }
}

/// The two-digit form of `n` is made of the digits `0` to `9` and denotes
/// `n`; it is exactly two digits long below ten, and from ten on it is the
/// plain decimal, which does not start with `0`.
pub proof fn lemma_two_digits_denotes(n: nat)
    ensures
        forall|i: int| 0 <= i < two_digits(n).len() ==> '0' <= #[trigger] two_digits(n)[i] <= '9',
        digits_value(two_digits(n)) == n,
        n < 10 ==> two_digits(n).len() == 2,
        n >= 10 ==> two_digits(n).len() >= 2 && two_digits(n)[0] != '0',
{
    lemma_decimal_denotes(n);
    lemma_decimal_len(n);
    let t = two_digits(n);
    if n < 10 {
        lemma_digit_value(n);
        assert(t =~= seq!['0', digit_char(n)]);
        assert(t.drop_last() =~= seq!['0']);
        assert(seq!['0'].drop_last() =~= Seq::<char>::empty());
        let z = seq!['0'];
        assert(z.last() == '0');
        assert(digits_value(z) == digits_value(z.drop_last()) * 10 + (z.last() as int - '0' as int));
        assert(digits_value(z) == 0);
        assert(digits_value(t) == digits_value(t.drop_last()) * 10 + (t.last() as int - '0' as int));
    }
}

} // verus!
