use vstd::prelude::*;

verus! {

/// `a == b` on string slices: the same characters in the same order.
pub(crate) fn str_eq(a: &str, b: &str) -> (r: bool)
    ensures
        r == (a@ == b@),
{
    let n = a.unicode_len();
    if n != b.unicode_len() {
        return false;
    }
    let mut i: usize = 0;
    while i < n
        invariant
            n == a@.len(),
            n == b@.len(),
            i <= n,
            forall|j: int| 0 <= j < i ==> a@[j] == b@[j],
        decreases n - i,
    {
        if a.get_char(i) != b.get_char(i) {
            return false;
        }
        i = i + 1;
    }
    assert(a@ =~= b@);
    true
}

/// `s.strip_prefix(prefix)`: the rest of `s` after `prefix` when `s` starts
/// with `prefix`, and `None` otherwise.
pub(crate) fn str_strip_prefix<'a>(s: &'a str, prefix: &str) -> (r: Option<&'a str>)
    ensures
        r is Some <==> prefix@.is_prefix_of(s@),
        r matches Some(rest) ==> rest@ == s@.skip(prefix@.len() as int),
{
    let pn = prefix.unicode_len();
    let sn = s.unicode_len();
    if pn > sn {
        return None;
    }
    let mut i: usize = 0;
    while i < pn
        invariant
            pn == prefix@.len(),
            sn == s@.len(),
            pn <= sn,
            i <= pn,
            forall|j: int| 0 <= j < i ==> prefix@[j] == s@[j],
        decreases pn - i,
    {
        if prefix.get_char(i) != s.get_char(i) {
            assert(!(prefix@ =~= s@.subrange(0, pn as int)));
            return None;
        }
        i = i + 1;
    }
    assert(prefix@ =~= s@.subrange(0, pn as int));
    let rest = s.substring_char(pn, sn);
    assert(rest@ =~= s@.skip(pn as int));
    Some(rest)
}

/// `s.push(c)`. std documents that it appends `c` to the end of `s`; this
/// item states exactly that.
#[verifier::external_body]
pub(crate) fn push_char(s: &mut String, c: char)
    ensures
        final(s)@ == old(s)@.push(c),
{
    s.push(c);
}

/// The decimal digit character of `d`.
pub open spec fn digit_char(d: nat) -> char {
    if d == 0 {
        '0'
    } else if d == 1 {
        '1'
    } else if d == 2 {
        '2'
    } else if d == 3 {
        '3'
    } else if d == 4 {
        '4'
    } else if d == 5 {
        '5'
    } else if d == 6 {
        '6'
    } else if d == 7 {
        '7'
    } else if d == 8 {
        '8'
    } else {
        '9'
    }
}

/// The decimal notation of `n`, without leading zeros (`"0"` for zero), as
/// `Display` writes an unsigned integer.
pub open spec fn decimal(n: nat) -> Seq<char>
    decreases n,
{
    if n < 10 {
        seq![digit_char(n)]
    } else {
        decimal(n / 10).push(digit_char(n % 10))
    }
}

/// The decimal notation of a signed integer, with a leading `-` when it is
/// negative, as `Display` writes a signed integer.
pub open spec fn signed_decimal(i: int) -> Seq<char> {
    if i < 0 {
        seq!['-'] + decimal((-i) as nat)
    } else {
        decimal(i as nat)
    }
}

fn digit(d: u64) -> (c: char)
    requires
        d < 10,
    ensures
        c == digit_char(d as nat),
{
    if d == 0 {
        '0'
    } else if d == 1 {
        '1'
    } else if d == 2 {
        '2'
    } else if d == 3 {
        '3'
    } else if d == 4 {
        '4'
    } else if d == 5 {
        '5'
    } else if d == 6 {
        '6'
    } else if d == 7 {
        '7'
    } else if d == 8 {
        '8'
    } else {
        '9'
    }
}

/// Every character of a decimal notation is a digit, and there is at least
/// one.
pub proof fn lemma_decimal_digits(n: nat)
    ensures
        decimal(n).len() >= 1,
        forall|i: int| 0 <= i < decimal(n).len() ==> '0' <= #[trigger] decimal(n)[i] <= '9',
    decreases n,
{
    if n >= 10 {
        lemma_decimal_digits(n / 10);
    }
}

proof fn lemma_digit_char_injective(a: nat, b: nat)
    requires
        a < 10,
        b < 10,
        digit_char(a) == digit_char(b),
    ensures
        a == b,
{
}

/// Different numbers have different decimal notations.
pub proof fn lemma_decimal_injective(a: nat, b: nat)
    requires
        decimal(a) == decimal(b),
    ensures
        a == b,
    decreases a,
{
    if a < 10 && b < 10 {
        assert(decimal(a)[0] == digit_char(a));
        assert(decimal(b)[0] == digit_char(b));
        lemma_digit_char_injective(a, b);
    } else if a < 10 {
        lemma_decimal_digits(b / 10);
        assert(decimal(b).len() == decimal(b / 10).len() + 1);
    } else if b < 10 {
        lemma_decimal_digits(a / 10);
        assert(decimal(a).len() == decimal(a / 10).len() + 1);
    } else {
        assert(decimal(a).drop_last() =~= decimal(a / 10));
        assert(decimal(b).drop_last() =~= decimal(b / 10));
        lemma_decimal_injective(a / 10, b / 10);
        assert(decimal(a).last() == digit_char(a % 10));
        assert(decimal(b).last() == digit_char(b % 10));
        lemma_digit_char_injective(a % 10, b % 10);
    }
}

/// Appends the decimal notation of `n` to `s`.
pub fn push_decimal(s: &mut String, n: u64)
    ensures
        final(s)@ == old(s)@ + decimal(n as nat),
    decreases n,
{
    if n < 10 {
        push_char(s, digit(n));
        assert(old(s)@.push(digit_char(n as nat)) =~= old(s)@ + decimal(n as nat));
    } else {
        push_decimal(s, n / 10);
        push_char(s, digit(n % 10));
        assert(old(s)@ + decimal((n / 10) as nat) + seq![digit_char((n % 10) as nat)]
            =~= old(s)@ + decimal(n as nat));
    }
}

/// Appends the decimal notation of the signed `i` to `s`.
pub fn push_signed_decimal(s: &mut String, i: i64)
    ensures
        final(s)@ == old(s)@ + signed_decimal(i as int),
{
    if i < 0 {
        push_char(s, '-');
        let magnitude: u64 = ((-(i + 1)) as u64) + 1;
        push_decimal(s, magnitude);
        assert(old(s)@.push('-') + decimal(magnitude as nat) =~= old(s)@ + signed_decimal(
            i as int,
        ));
    } else {
        push_decimal(s, i as u64);
    }
}

/// The decimal notation of `n`, as `n.to_string()` gives it.
pub fn u64_to_decimal(n: u64) -> (r: String)
    ensures
        r@ == decimal(n as nat),
{
    let mut s = String::new();
    push_decimal(&mut s, n);
    assert(Seq::<char>::empty() + decimal(n as nat) =~= decimal(n as nat));
    s
}

/// `prefix` followed by `detail`, as `format!("{prefix}{detail}")` writes it.
pub fn join2(prefix: &str, detail: &str) -> (r: String)
    ensures
        r@ == prefix@ + detail@,
{
    let mut s = String::from_str(prefix);
    s.append(detail);
    s
}

} // verus!

verus! {

/// What `browser_type` writes for one character of the typed text: a
/// backslash or a double quote gets a backslash in front.
pub open spec fn escape_char(c: char) -> Seq<char> {
    if c == '\\' {
        seq!['\\', '\\']
    } else if c == '"' {
        seq!['\\', '"']
    } else {
        seq![c]
    }
}

/// `text.replace("\\", "\\\\").replace("\"", "\\\"")`: every backslash and
/// every double quote preceded by a backslash.
pub open spec fn escape_quoted(s: Seq<char>) -> Seq<char>
    decreases s.len(),
{
    if s.len() == 0 {
        Seq::empty()
    } else {
        escape_quoted(s.drop_last()) + escape_char(s.last())
    }
}

/// Escapes `text` for a double-quoted JavaScript string as `browser_type`
/// does.
pub fn escape_quoted_text(text: &str) -> (r: String)
    ensures
        r@ == escape_quoted(text@),
{
    broadcast use vstd::string::group_string_axioms;

    let mut out = String::new();
    let mut chars = text.chars();
    let ghost mut done: Seq<char> = Seq::empty();
    assert(done + vstd::std_specs::iter::IteratorSpec::remaining(&chars) =~= text@);
    loop
        invariant
            text@ == done + vstd::std_specs::iter::IteratorSpec::remaining(&chars),
            out@ == escape_quoted(done),
            vstd::std_specs::iter::IteratorSpec::decrease(&chars) is Some,
        ensures
            out@ == escape_quoted(text@),
        decreases vstd::std_specs::iter::IteratorSpec::decrease(&chars)->0,
    {
        let ghost before = vstd::std_specs::iter::IteratorSpec::remaining(&chars);
        match chars.next() {
            Some(c) => {
                if c == '\\' {
                    push_char(&mut out, '\\');
                    push_char(&mut out, '\\');
                } else if c == '"' {
                    push_char(&mut out, '\\');
                    push_char(&mut out, '"');
                } else {
                    push_char(&mut out, c);
                }
                proof {
                    assert(done.push(c).drop_last() =~= done);
                    assert(done.push(c) + vstd::std_specs::iter::IteratorSpec::remaining(&chars) =~= done + before);
                    done = done.push(c);
                }
            },
            None => {
                assert(done =~= text@);
                break ;
            },
        }
    }
    out
}

} // verus!

verus! {

/// How JavaScript reads the body of a double-quoted string literal with the
/// two escapes that `escape_quoted` writes: a backslash takes the next
/// character as it is.
pub open spec fn js_unescape(s: Seq<char>) -> Seq<char>
    decreases s.len(),
{
    if s.len() == 0 {
        Seq::empty()
    } else if s[0] == '\\' && s.len() >= 2 {
        seq![s[1]] + js_unescape(s.skip(2))
    } else {
        seq![s[0]] + js_unescape(s.skip(1))
    }
}

proof fn lemma_escape_front(s: Seq<char>)
    requires
        s.len() > 0,
    ensures
        escape_quoted(s) == escape_char(s[0]) + escape_quoted(s.drop_first()),
    decreases s.len(),
{
    if s.len() == 1 {
        assert(s.drop_last() =~= Seq::<char>::empty());
        assert(s.drop_first() =~= Seq::<char>::empty());
        assert(escape_quoted(s.drop_first()) == Seq::<char>::empty());
        assert(escape_char(s[0]) + Seq::<char>::empty() =~= escape_char(s[0]));
    } else {
        lemma_escape_front(s.drop_last());
        assert(s.drop_last().drop_first() =~= s.drop_first().drop_last());
        assert(s.drop_first().last() == s.last());
        assert(s.drop_last()[0] == s[0]);
        assert(escape_quoted(s.drop_first()) == escape_quoted(s.drop_first().drop_last())
            + escape_char(s.drop_first().last()));
        assert(escape_char(s[0]) + escape_quoted(s.drop_last().drop_first()) + escape_char(s.last())
            =~= escape_char(s[0]) + (escape_quoted(s.drop_last().drop_first()) + escape_char(
            s.last(),
        )));
    }
}

/// What `browser_type` writes into the page script reads back, in the
/// double-quoted string literal it stands in, as exactly the typed text.
pub proof fn lemma_escape_round_trip(s: Seq<char>)
    ensures
        js_unescape(escape_quoted(s)) == s,
    decreases s.len(),
{
    if s.len() == 0 {
        assert(escape_quoted(s) =~= Seq::<char>::empty());
    } else {
        lemma_escape_front(s);
        let rest = escape_quoted(s.drop_first());
        lemma_escape_round_trip(s.drop_first());
        let e = escape_char(s[0]) + rest;
        if s[0] == '\\' || s[0] == '"' {
            assert(e[0] == '\\');
            assert(e.skip(2) =~= rest);
            assert(e[1] == s[0]);
        } else {
            assert(e[0] == s[0]);
            assert(e.skip(1) =~= rest);
        }
        assert(seq![s[0]] + s.drop_first() =~= s);
    }
}

} // verus!

verus! {

/// `s` holds the text `f` somewhere: `s.contains(f)` on strings.
pub open spec fn contains_text(s: Seq<char>, f: Seq<char>) -> bool {
    exists|i: int| 0 <= i && i + f.len() <= s.len() && #[trigger] s.subrange(i, i + f.len()) == f
}

/// A text holds itself.
pub proof fn lemma_contains_whole(f: Seq<char>)
    ensures
        contains_text(f, f),
{
    let i: int = 0;
    assert(f.subrange(i, i + f.len()) =~= f);
}

/// A text that the front part holds, the whole holds.
pub broadcast proof fn lemma_contains_left(a: Seq<char>, b: Seq<char>, f: Seq<char>)
    requires
        contains_text(a, f),
    ensures
        #[trigger] contains_text(a + b, f),
{
    let i = choose|i: int| 0 <= i && i + f.len() <= a.len() && #[trigger] a.subrange(i, i + f.len()) == f;
    assert((a + b).subrange(i, i + f.len()) =~= a.subrange(i, i + f.len()));
}

/// A text that the back part holds, the whole holds.
pub broadcast proof fn lemma_contains_right(a: Seq<char>, b: Seq<char>, f: Seq<char>)
    requires
        contains_text(b, f),
    ensures
        #[trigger] contains_text(a + b, f),
{
    let i = choose|i: int| 0 <= i && i + f.len() <= b.len() && #[trigger] b.subrange(i, i + f.len()) == f;
    let j: int = a.len() + i;
    assert((a + b).subrange(j, j + f.len()) =~= b.subrange(i, i + f.len()));
}

/// The text `a + f + b` holds `f`.
pub proof fn lemma_contains_middle(a: Seq<char>, f: Seq<char>, b: Seq<char>)
    ensures
        contains_text(a + f + b, f),
{
    let i: int = a.len() as int;
    assert((a + f + b).subrange(i, i + f.len()) =~= f);
}

} // verus!
