//! Text as sequences of characters: decimal numerals, joining with a
//! separator, replacing a pattern, and filling positional placeholders.

use vstd::prelude::*;

verus! {

/// `String::push` puts one character at the end of the string and leaves the
/// characters before it as they were.
pub assume_specification[ std::string::String::push ](s: &mut std::string::String, ch: char)
    ensures
        final(s)@ == old(s)@.push(ch),
;

/// The character that writes the decimal digit `d`.
pub open spec fn digit(d: int) -> char {
    (d + 48) as char
}

/// The decimal numeral of `n`, without sign or leading zeros.
pub open spec fn decimal(n: nat) -> Seq<char>
    decreases n,
{
    if n < 10 {
        seq![digit(n as int)]
    } else {
        decimal(n / 10).push(digit((n % 10) as int))
    }
}

/// The decimal numeral of `i`, with a leading `-` when it is negative.
pub open spec fn signed_decimal(i: int) -> Seq<char> {
    if i < 0 {
        seq!['-'] + decimal((-i) as nat)
    } else {
        decimal(i as nat)
    }
}

/// The parts in order, with `sep` between each two neighbours.
pub open spec fn joined(parts: Seq<Seq<char>>, sep: Seq<char>) -> Seq<char>
    decreases parts.len(),
{
    if parts.len() == 0 {
        Seq::empty()
    } else if parts.len() == 1 {
        parts[0]
    } else {
        joined(parts.drop_last(), sep) + sep + parts.last()
    }
}

/// Whether `pat` stands in `s` at position `i`.
pub open spec fn occurs_at(s: Seq<char>, pat: Seq<char>, i: int) -> bool {
    0 <= i && i + pat.len() <= s.len() && s.subrange(i, i + pat.len()) == pat
}

/// What is left of `s` from position `i` on, once every occurrence of `pat`
/// found from there, leftmost first and without overlap, has given way to
/// `with`. An empty pattern occurs nowhere.
pub open spec fn replaced_from(s: Seq<char>, pat: Seq<char>, with: Seq<char>, i: int) -> Seq<char>
    decreases s.len() - i,
{
    if i < 0 || i > s.len() {
        Seq::empty()
    } else if i == s.len() || pat.len() == 0 {
        s.subrange(i, s.len() as int)
    } else if occurs_at(s, pat, i) {
        with + replaced_from(s, pat, with, i + pat.len())
    } else {
        seq![s[i]] + replaced_from(s, pat, with, i + 1)
    }
}

/// `s` with every occurrence of `pat` replaced by `with`.
pub open spec fn replaced(s: Seq<char>, pat: Seq<char>, with: Seq<char>) -> Seq<char> {
    replaced_from(s, pat, with, 0)
}

/// The placeholder that stands for the argument at `index`: `{0}`, `{1}`, ...
pub open spec fn placeholder(index: nat) -> Seq<char> {
    seq!['{'] + decimal(index) + seq!['}']
}

/// The template after the first `count` arguments have been filled in, one
/// placeholder index after the other.
pub open spec fn formatted_with(template: Seq<char>, args: Seq<Seq<char>>, count: nat) -> Seq<
    char,
>
    decreases count,
{
    if count == 0 {
        template
    } else {
        replaced(
            formatted_with(template, args, (count - 1) as nat),
            placeholder((count - 1) as nat),
            args[count - 1],
        )
    }
}

/// The template with every argument filled in for its placeholder.
pub open spec fn formatted(template: Seq<char>, args: Seq<Seq<char>>) -> Seq<char> {
    formatted_with(template, args, args.len())
}

/// Where the pattern occurs nowhere from position `i` on, nothing from there
/// on is replaced.
pub proof fn lemma_replaced_from_absent(s: Seq<char>, pat: Seq<char>, with: Seq<char>, i: int)
    requires
        0 <= i <= s.len(),
        forall|j: int| i <= j < s.len() ==> !occurs_at(s, pat, j),
    ensures
        replaced_from(s, pat, with, i) == s.subrange(i, s.len() as int),
    decreases s.len() - i,
{
    if i < s.len() && pat.len() > 0 {
        lemma_replaced_from_absent(s, pat, with, i + 1);
        assert(seq![s[i]] + s.subrange(i + 1, s.len() as int) =~= s.subrange(i, s.len() as int));
    }
}

/// A text in which the pattern occurs nowhere stays as it is.
pub proof fn lemma_replaced_absent(s: Seq<char>, pat: Seq<char>, with: Seq<char>)
    requires
        forall|j: int| 0 <= j < s.len() ==> !occurs_at(s, pat, j),
    ensures
        replaced(s, pat, with) == s,
{
    lemma_replaced_from_absent(s, pat, with, 0);
    assert(s.subrange(0, s.len() as int) =~= s);
}

/// Without arguments the template stays as it is, placeholders included.
pub proof fn lemma_formatted_without_arguments(template: Seq<char>)
    ensures
        formatted(template, Seq::empty()) == template,
{
}

/// A template that holds the placeholder of none of the arguments stays as
/// it is: arguments without a placeholder are not used.
pub proof fn lemma_formatted_unused_arguments(template: Seq<char>, args: Seq<Seq<char>>, count: nat)
    requires
        count <= args.len(),
        forall|k: nat, j: int|
            k < count && 0 <= j < template.len() ==> !occurs_at(template, placeholder(k), j),
    ensures
        formatted_with(template, args, count) == template,
    decreases count,
{
    if count > 0 {
        lemma_formatted_unused_arguments(template, args, (count - 1) as nat);
        lemma_replaced_absent(template, placeholder((count - 1) as nat), args[count - 1]);
    }
}

/// The characters of a string slice, in order.
pub fn chars_of(s: &str) -> (r: Vec<char>)
    ensures
        r@ == s@,
{
    let mut out: Vec<char> = Vec::new();
    for c in it: s.chars()
        invariant
            out@ == it.seq().take(it.index() as int),
            it.seq() == s@,
    {
        out.push(c);
    }
    out
}

/// The character for a digit below ten.
pub fn digit_char(d: u8) -> (c: char)
    requires
        d < 10,
    ensures
        c == digit(d as int),
{
    (d + 48) as char
}

/// Appends the decimal numeral of `n` to `out`.
pub fn push_decimal(out: &mut String, n: u64)
    ensures
        final(out)@ == old(out)@ + decimal(n as nat),
    decreases n,
{
    if n >= 10 {
        push_decimal(out, n / 10);
    }
    out.push(digit_char((n % 10) as u8));
}

/// Appends the decimal numeral of `i` to `out`, with its sign when negative.
pub fn push_signed_decimal(out: &mut String, i: i64)
    ensures
        final(out)@ == old(out)@ + signed_decimal(i as int),
{
    if i < 0 {
        out.push('-');
        let magnitude: u64 = (-(i + 1)) as u64 + 1;
        push_decimal(out, magnitude);
    } else {
        push_decimal(out, i as u64);
    }
}

/// Whether `pat` stands in `s` at position `i`.
pub fn matches_at(s: &Vec<char>, i: usize, pat: &Vec<char>) -> (r: bool)
    ensures
        r == occurs_at(s@, pat@, i as int),
{
    if i > s.len() || pat.len() > s.len() - i {
        return false;
    }
    let mut k: usize = 0;
    while k < pat.len()
        invariant
            k <= pat.len(),
            i + pat.len() <= s.len(),
            forall|j: int| 0 <= j < k ==> s@[i + j] == pat@[j],
        decreases pat.len() - k,
    {
        if s[i + k] != pat[k] {
            proof {
                assert(s@.subrange(i as int, i + pat.len())[k as int] == s@[i + k]);
            }
            return false;
        }
        k += 1;
    }
    proof {
        assert(s@.subrange(i as int, i + pat.len()) =~= pat@);
    }
    true
}

/// `s` with every occurrence of `pat` replaced by `with`, leftmost first and
/// without overlap. With an empty pattern the result is `s`.
pub fn replace_all(s: &str, pat: &str, with: &str) -> (r: String)
    ensures
        r@ == replaced(s@, pat@, with@),
{
    let src = chars_of(s);
    let p = chars_of(pat);
    let mut out = String::new();
    let mut i: usize = 0;
    while i < src.len()
        invariant
            i <= src.len(),
            src@ == s@,
            p@ == pat@,
            out@ + replaced_from(s@, pat@, with@, i as int) == replaced(s@, pat@, with@),
        decreases src.len() - i,
    {
        if p.len() > 0 && matches_at(&src, i, &p) {
            out.append(with);
            i += p.len();
        } else if p.len() > 0 {
            out.push(src[i]);
            i += 1;
        } else {
            out.push(src[i]);
            proof {
                assert(s@.subrange(i as int, s@.len() as int) =~= seq![s@[i as int]] + s@.subrange(
                    i + 1,
                    s@.len() as int,
                ));
            }
            i += 1;
        }
    }
    proof {
        assert(replaced_from(s@, pat@, with@, i as int) =~= Seq::<char>::empty());
    }
    out
}

/// The template with each argument filled in for its placeholder: `{0}` gives
/// way to the first argument, then `{1}` to the second, and so on. A
/// placeholder without an argument stays as it is.
pub fn format_template(template: &str, args: &Vec<String>) -> (r: String)
    ensures
        r@ == formatted(template@, args.deep_view()),
{
    let mut text = template.to_owned();
    let mut i: usize = 0;
    while i < args.len()
        invariant
            i <= args.len(),
            text@ == formatted_with(template@, args.deep_view(), i as nat),
        decreases args.len() - i,
    {
        let mut pattern = String::new();
        pattern.push('{');
        push_decimal(&mut pattern, i as u64);
        pattern.push('}');
        proof {
            assert(pattern@ =~= placeholder(i as nat));
            assert(args.deep_view()[i as int] == args@[i as int]@);
        }
        text = replace_all(text.as_str(), pattern.as_str(), args[i].as_str());
        i += 1;
    }
    text
}

} // verus!
