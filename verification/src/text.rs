//! Text helpers: decimal formatting, whitespace trimming and joining.
use vstd::prelude::*;

verus! {

/// Calls `String::push`: `c` is appended to `s`.
#[verifier::external_body]
pub(crate) fn string_push(s: &mut String, c: char)
    ensures
        final(s)@ == old(s)@.push(c),
{
    s.push(c);
}

/// Calls `str::trim`, which removes leading and trailing whitespace, where
/// whitespace is what has the Unicode property `White_Space`.
#[verifier::external_body]
pub(crate) fn str_trim(s: &str) -> (res: &str)
    ensures
        res@ == trim(s@),
{
    s.trim()
}

/// Whether `c` has the Unicode property `White_Space`.
pub open spec fn is_white_space(c: char) -> bool {
    let n = c as int;
    ||| 0x09 <= n <= 0x0d
    ||| n == 0x20
    ||| n == 0x85
    ||| n == 0xa0
    ||| n == 0x1680
    ||| 0x2000 <= n <= 0x200a
    ||| n == 0x2028
    ||| n == 0x2029
    ||| n == 0x202f
    ||| n == 0x205f
    ||| n == 0x3000
}

/// `s` without its leading whitespace.
pub open spec fn trim_start(s: Seq<char>) -> Seq<char>
    decreases s.len(),
{
    if s.len() > 0 && is_white_space(s[0]) {
        trim_start(s.drop_first())
    } else {
        s
    }
}

/// `s` without its trailing whitespace.
pub open spec fn trim_end(s: Seq<char>) -> Seq<char>
    decreases s.len(),
{
    if s.len() > 0 && is_white_space(s.last()) {
        trim_end(s.drop_last())
    } else {
        s
    }
}

/// `s` without its leading and trailing whitespace.
pub open spec fn trim(s: Seq<char>) -> Seq<char> {
    trim_end(trim_start(s))
}

/// The character of the decimal digit `d`.
pub open spec fn digit_char(d: int) -> char {
    if d == 0 {
        '0'
    } else if d == 1 {
        '1'
    } else if d == 2 {
        '2'
    } else if d == 3 {
        '3'
    } else if d == 4 {
        '4'
    } else if d == 5 {
        '5'
    } else if d == 6 {
        '6'
    } else if d == 7 {
        '7'
    } else if d == 8 {
        '8'
    } else {
        '9'
    }
}

/// The decimal digits of `n`, most significant first, without leading zeros.
pub open spec fn decimal_digits(n: nat) -> Seq<char>
    decreases n,
{
    if n < 10 {
        seq![digit_char(n as int)]
    } else {
        decimal_digits(n / 10).push(digit_char((n % 10) as int))
    }
}

/// `x` in decimal, zero-padded after the sign to at least two characters, as
/// `format!("{:02}", x)` writes it.
pub open spec fn format_02(x: int) -> Seq<char> {
    if x < 0 {
        seq!['-'] + decimal_digits((-x) as nat)
    } else if x < 10 {
        seq!['0', digit_char(x)]
    } else {
        decimal_digits(x as nat)
    }
}

/// `parts` joined with `sep` between each two.
pub open spec fn join(parts: Seq<Seq<char>>, sep: Seq<char>) -> Seq<char>
    decreases parts.len(),
{
    if parts.len() == 0 {
        Seq::empty()
    } else if parts.len() == 1 {
        parts[0]
    } else {
        join(parts.drop_last(), sep) + sep + parts.last()
    }
}

/// Joining puts the separator between each two parts and nowhere else: no
/// parts give nothing, one part gives that part, and a part added at the
/// end of at least one comes after the separator.
pub proof fn lemma_join_part_by_part(parts: Seq<Seq<char>>, sep: Seq<char>, p: Seq<char>)
    ensures
        join(Seq::empty(), sep) == Seq::<char>::empty(),
        join(seq![p], sep) == p,
        parts.len() > 0 ==> join(parts.push(p), sep) == join(parts, sep) + sep + p,
{
    assert(parts.push(p).drop_last() =~= parts);
}

/// Joined parts take as many characters as the parts and the separators
/// between them.
pub proof fn lemma_join_len(parts: Seq<Seq<char>>, sep: Seq<char>, i: int)
    requires
        0 < i <= parts.len(),
    ensures
        join(parts.take(i), sep).len() == join(parts.take(i - 1), sep).len() + (if i > 1 {
            sep.len()
        } else {
            0
        }) + parts[i - 1].len(),
{
    assert(parts.take(i).drop_last() =~= parts.take(i - 1));
    if i == 1 {
        assert(parts.take(i - 1) =~= Seq::<Seq<char>>::empty());
    }
}

fn digit(d: u64) -> (c: char)
    requires
        d < 10,
    ensures
        c == digit_char(d as int),
{
    if d == 0 {
        '0'
    } else if d == 1 {
        '1'
    } else if d == 2 {
        '2'
    } else if d == 3 {
        '3'
    } else if d == 4 {
        '4'
    } else if d == 5 {
        '5'
    } else if d == 6 {
        '6'
    } else if d == 7 {
        '7'
    } else if d == 8 {
        '8'
    } else {
        '9'
    }
}

/// Appends the decimal digits of `n` to `s`.
pub fn push_decimal(s: &mut String, n: u64)
    ensures
        final(s)@ == old(s)@ + decimal_digits(n as nat),
    decreases n,
{
    if n >= 10 {
        push_decimal(s, n / 10);
    }
    string_push(s, digit(n % 10));
    proof {
        assert(old(s)@ + decimal_digits(n as nat) =~= if n >= 10 {
            (old(s)@ + decimal_digits((n / 10) as nat)).push(digit_char((n % 10) as int))
        } else {
            old(s)@.push(digit_char((n % 10) as int))
        });
    }
}

/// Appends `x` to `s` as `format!("{:02}", x)` writes it, where `x` is `-mag`
/// if `negative` and `mag` otherwise.
pub fn push_02(s: &mut String, negative: bool, mag: u64)
    requires
        negative ==> mag > 0,
    ensures
        final(s)@ == old(s)@ + format_02(if negative { -(mag as int) } else { mag as int }),
{
    if negative {
        string_push(s, '-');
        push_decimal(s, mag);
        assert(final(s)@ =~= old(s)@ + format_02(-(mag as int)));
    } else if mag < 10 {
        string_push(s, '0');
        string_push(s, digit(mag));
        assert(final(s)@ =~= old(s)@ + format_02(mag as int));
    } else {
        push_decimal(s, mag);
    }
}

/// `parts` joined with a single space between each two, as
/// `parts.join(" ")` builds it.
pub fn join_with_space(parts: &Vec<String>) -> (res: String)
    ensures
        res@ == join(parts@.map_values(|p: String| p@), seq![' ']),
{
    let ghost views = parts@.map_values(|p: String| p@);
    let mut res = String::new();
    let mut i: usize = 0;
    while i < parts.len()
        invariant
            i <= parts.len(),
            views == parts@.map_values(|p: String| p@),
            res@ == join(views.take(i as int), seq![' ']),
        decreases parts.len() - i,
    {
        if i > 0 {
            string_push(&mut res, ' ');
        }
        res.append(parts[i].as_str());
        proof {
            assert(views.take(i + 1).drop_last() =~= views.take(i as int));
            assert(views[i as int] == parts[i as int]@);
        }
        i = i + 1;
    }
    proof {
        assert(views.take(parts.len() as int) =~= views);
    }
    res
}

} // verus!
