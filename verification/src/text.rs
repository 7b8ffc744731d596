//! Character- and string-level helpers, each with an exact specification:
//! decimal rendering of integers, white space and the splitting of text
//! into words, the unescaping of stored text, and string equality.

use vstd::prelude::*;
use vstd::string::*;

verus! {

pub open spec fn is_ascii_upper(c: char) -> bool {
    'A' <= c && c <= 'Z'
}

pub open spec fn is_ascii_digit(c: char) -> bool {
    '0' <= c && c <= '9'
}

/// The characters with the Unicode `White_Space` property, which is what
/// `char::is_whitespace` tests: U+0009..U+000D, U+0020, U+0085, U+00A0,
/// U+1680, U+2000..U+200A, U+2028, U+2029, U+202F, U+205F and U+3000.
pub open spec fn is_white_space(c: char) -> bool {
    ||| '\u{9}' <= c && c <= '\u{d}'
    ||| c == ' '
    ||| c == '\u{85}'
    ||| c == '\u{a0}'
    ||| c == '\u{1680}'
    ||| '\u{2000}' <= c && c <= '\u{200a}'
    ||| c == '\u{2028}'
    ||| c == '\u{2029}'
    ||| c == '\u{202f}'
    ||| c == '\u{205f}'
    ||| c == '\u{3000}'
}

/// Whether `c` is white space in the sense of `char::is_whitespace`.
pub fn is_whitespace(c: char) -> (b: bool)
    ensures
        b == is_white_space(c),
{
    ('\u{9}' <= c && c <= '\u{d}') || c == ' ' || c == '\u{85}' || c == '\u{a0}' || c
        == '\u{1680}' || ('\u{2000}' <= c && c <= '\u{200a}') || c == '\u{2028}' || c
        == '\u{2029}' || c == '\u{202f}' || c == '\u{205f}' || c == '\u{3000}'
}

/// The words of `s` as `str::split_whitespace` yields them: the maximal
/// runs of characters that are not white space, in order. Defined by how
/// each further character extends the words of the text before it.
pub open spec fn split_words(s: Seq<char>) -> Seq<Seq<char>>
    decreases s.len(),
{
    if s.len() == 0 {
        seq![]
    } else {
        let before = split_words(s.drop_last());
        let c = s.last();
        if is_white_space(c) {
            before
        } else if s.len() >= 2 && !is_white_space(s[s.len() - 2]) {
            before.drop_last().push(before.last().push(c))
        } else {
            before.push(seq![c])
        }
    }
}

/// The character views of a sequence of strings.
pub open spec fn string_views(v: Seq<String>) -> Seq<Seq<char>> {
    v.map_values(|w: String| w@)
}

/// Appends one character to a string; a wrapper around `String::push`,
/// which appends the character at the end and changes nothing else.
#[verifier::external_body]
pub(crate) fn push_char(s: &mut String, c: char)
    ensures
        final(s)@ == old(s)@.push(c),
{
    s.push(c);
}

/// Splits `s` into its words, as `s.split_whitespace()` does.
pub fn split_whitespace(s: &str) -> (words: Vec<String>)
    ensures
        string_views(words@) == split_words(s@),
{
    let mut words: Vec<String> = Vec::new();
    let mut current = String::new();
    let mut in_word = false;
    for c in it: s.chars()
        invariant
            it.seq() == s@,
            0 <= it.index() <= s@.len(),
            in_word == (it.index() > 0 && !is_white_space(s@[it.index() - 1])),
            !in_word ==> current@ == Seq::<char>::empty(),
            split_words(s@.take(it.index() as int)) == if in_word {
                string_views(words@).push(current@)
            } else {
                string_views(words@)
            },
    {
        let ghost i = it.index() as int;
        let ghost next = s@.take(i + 1);
        proof {
            assert(c == s@[i]);
            assert(next.drop_last() =~= s@.take(i));
            assert(next.last() == c);
            if i >= 1 {
                assert(next[next.len() - 2] == s@[i - 1]);
            }
        }
        if is_whitespace(c) {
            if in_word {
                let ghost before = words@;
                words.push(current);
                current = String::new();
                proof {
                    assert(string_views(words@) =~= string_views(before).push(
                        string_views(words@).last(),
                    ));
                }
            }
            in_word = false;
        } else {
            let ghost old_current = current@;
            push_char(&mut current, c);
            proof {
                let before = split_words(s@.take(i));
                if in_word {
                    assert(before.drop_last() =~= string_views(words@));
                } else {
                    assert(current@ =~= seq![c]);
                }
            }
            in_word = true;
        }
    }
    proof {
        assert(s@.take(s@.len() as int) =~= s@);
    }
    if in_word {
        let ghost before = words@;
        words.push(current);
        proof {
            assert(string_views(words@) =~= string_views(before).push(string_views(words@).last()));
        }
    }
    words
}

/// The words of a text are non-empty and hold no white space, and taken
/// together they are the text with its white space removed.
pub proof fn law_split_words_partition(s: Seq<char>)
    ensures
        forall|k: int| 0 <= k < split_words(s).len() ==> (#[trigger] split_words(s)[k]).len() > 0,
        forall|k: int, j: int|
            0 <= k < split_words(s).len() && 0 <= j < split_words(s)[k].len() ==> !is_white_space(
                #[trigger] split_words(s)[k][j],
            ),
        split_words(s).flatten() == s.filter(|c: char| !is_white_space(c)),
        s.len() > 0 && !is_white_space(s.last()) ==> split_words(s).len() > 0,
    decreases s.len(),
{
    reveal_with_fuel(Seq::filter, 1);
    broadcast use Seq::lemma_flatten_push;
    if s.len() > 0 {
        let t = s.drop_last();
        law_split_words_partition(t);
        let before = split_words(t);
        let c = s.last();
        if is_white_space(c) {
        } else if s.len() >= 2 && !is_white_space(s[s.len() - 2]) {
            assert(t.last() == s[s.len() - 2]);
            let lastw = before.last();
            assert(before.drop_last().push(lastw) =~= before);
            assert(before.flatten() =~= before.drop_last().flatten() + lastw);
            let now = before.drop_last().push(lastw.push(c));
            assert(now.flatten() =~= before.drop_last().flatten() + lastw.push(c));
            assert forall|k: int, j: int|
                0 <= k < now.len() && 0 <= j < now[k].len() implies !is_white_space(
                #[trigger] now[k][j],
            ) by {
                if k == now.len() - 1 && j == lastw.len() {
                } else if k == now.len() - 1 {
                    assert(now[k][j] == before[before.len() - 1][j]);
                } else {
                    assert(now[k][j] == before[k][j]);
                }
            }
        } else {
            assert forall|k: int, j: int|
                0 <= k < before.push(seq![c]).len() && 0 <= j < before.push(seq![c])[k].len()
                implies !is_white_space(#[trigger] before.push(seq![c])[k][j]) by {
                if k < before.len() {
                    assert(before.push(seq![c])[k][j] == before[k][j]);
                }
            }
        }
    }
}

/// The ASCII digit for `d` (meaningful for `d < 10`).
pub open spec fn digit_char(d: nat) -> char {
    (d + 48) as char
}

/// Decimal rendering of a natural number, most significant digit first,
/// without leading zeros.
pub open spec fn decimal_nat(n: nat) -> Seq<char>
    decreases n,
{
    if n < 10 {
        seq![digit_char(n)]
    } else {
        decimal_nat(n / 10).push(digit_char(n % 10))
    }
}

/// Decimal rendering of an integer as `Display` prints it: a leading `-`
/// for negative values, then the digits of the magnitude.
pub open spec fn decimal_int(i: int) -> Seq<char> {
    if i < 0 {
        seq!['-'] + decimal_nat((-i) as nat)
    } else {
        decimal_nat(i as nat)
    }
}

fn digit_str(d: u64) -> (s: &'static str)
    requires
        d < 10,
    ensures
        s@ == seq![digit_char(d as nat)],
{
    match d {
        0 => { proof { reveal_strlit("0"); } "0" },
        1 => { proof { reveal_strlit("1"); } "1" },
        2 => { proof { reveal_strlit("2"); } "2" },
        3 => { proof { reveal_strlit("3"); } "3" },
        4 => { proof { reveal_strlit("4"); } "4" },
        5 => { proof { reveal_strlit("5"); } "5" },
        6 => { proof { reveal_strlit("6"); } "6" },
        7 => { proof { reveal_strlit("7"); } "7" },
        8 => { proof { reveal_strlit("8"); } "8" },
        _ => { proof { reveal_strlit("9"); } "9" },
    }
}

fn push_decimal(out: &mut String, n: u64)
    ensures
        final(out)@ == old(out)@ + decimal_nat(n as nat),
    decreases n,
{
    let ghost start = out@;
    if n >= 10 {
        push_decimal(out, n / 10);
    }
    out.append(digit_str(n % 10));
    proof {
        if n >= 10 {
            assert(out@ =~= start + decimal_nat(n as nat));
        } else {
            assert(out@ =~= start + decimal_nat(n as nat));
        }
    }
}

/// Renders `i` in decimal, exactly as `i.to_string()` does.
pub fn decimal_string(i: i64) -> (s: String)
    ensures
        s@ == decimal_int(i as int),
{
    let mut s = String::new();
    if i < 0 {
        proof { reveal_strlit("-"); }
        s.append("-");
        let magnitude: u64 = ((-(i + 1)) as u64) + 1;
        push_decimal(&mut s, magnitude);
    } else {
        push_decimal(&mut s, i as u64);
    }
    s
}

/// A decimal rendering is non-empty, consists of ASCII digits, and has a
/// single digit exactly for the numbers below ten.
pub proof fn lemma_decimal_nat_shape(n: nat)
    ensures
        decimal_nat(n).len() >= 1,
        forall|i: int| 0 <= i < decimal_nat(n).len() ==> is_ascii_digit(#[trigger] decimal_nat(n)[i]),
        decimal_nat(n).len() == 1 <==> n < 10,
    decreases n,
{
    if n >= 10 {
        lemma_decimal_nat_shape(n / 10);
    }
}

/// Different numbers have different decimal renderings.
pub proof fn lemma_decimal_nat_injective(a: nat, b: nat)
    requires
        decimal_nat(a) == decimal_nat(b),
    ensures
        a == b,
    decreases a,
{
    lemma_decimal_nat_shape(a);
    lemma_decimal_nat_shape(b);
    if a < 10 {
        assert(b < 10);
        assert(decimal_nat(a)[0] == digit_char(a));
        assert(decimal_nat(b)[0] == digit_char(b));
        assert(((a + 48) as char) as int == a + 48);
        assert(((b + 48) as char) as int == b + 48);
    } else {
        let da = decimal_nat(a);
        let db = decimal_nat(b);
        assert(da.drop_last() =~= decimal_nat(a / 10));
        assert(db.drop_last() =~= decimal_nat(b / 10));
        lemma_decimal_nat_injective(a / 10, b / 10);
        assert(da.last() == db.last());
        assert(((a % 10 + 48) as char) as int == a % 10 + 48);
        assert(((b % 10 + 48) as char) as int == b % 10 + 48);
        assert(a % 10 == b % 10);
        assert(a == 10 * (a / 10) + a % 10);
        assert(b == 10 * (b / 10) + b % 10);
    }
}

/// A rendered integer starts with a digit, or with `-` exactly when it is
/// negative; after the first character all characters are digits.
pub proof fn lemma_decimal_int_shape(i: int)
    ensures
        decimal_int(i).len() >= 1,
        (decimal_int(i)[0] == '-') == (i < 0),
        i >= 0 ==> is_ascii_digit(decimal_int(i)[0]),
        forall|k: int| 1 <= k < decimal_int(i).len() ==> is_ascii_digit(#[trigger] decimal_int(i)[k]),
{
    if i < 0 {
        lemma_decimal_nat_shape((-i) as nat);
        assert forall|k: int| 1 <= k < decimal_int(i).len() implies is_ascii_digit(
            #[trigger] decimal_int(i)[k],
        ) by {
            assert(decimal_int(i)[k] == decimal_nat((-i) as nat)[k - 1]);
        }
    } else {
        lemma_decimal_nat_shape(i as nat);
    }
}

/// Different integers have different decimal renderings.
pub proof fn lemma_decimal_int_injective(a: int, b: int)
    requires
        decimal_int(a) == decimal_int(b),
    ensures
        a == b,
{
    lemma_decimal_int_shape(a);
    lemma_decimal_int_shape(b);
    if a < 0 {
        assert(decimal_int(a).drop_first() =~= decimal_nat((-a) as nat));
        assert(decimal_int(b).drop_first() =~= decimal_nat((-b) as nat));
        lemma_decimal_nat_injective((-a) as nat, (-b) as nat);
    } else {
        lemma_decimal_nat_injective(a as nat, b as nat);
    }
}

/// The number that a string of decimal digits denotes, most significant
/// digit first: each digit `c` counts for `c - '0'`.
pub open spec fn digits_value(s: Seq<char>) -> int
    decreases s.len(),
{
    if s.len() == 0 {
        0
    } else {
        10 * digits_value(s.drop_last()) + (s.last() as int - '0' as int)
    }
}

proof fn lemma_decimal_nat_value(n: nat)
    ensures
        digits_value(decimal_nat(n)) == n,
        decimal_nat(n)[0] == '0' <==> n == 0,
    decreases n,
{
    let s = decimal_nat(n);
    if n < 10 {
        assert(((n + 48) as char) as int == n + 48);
        assert(s.drop_last() =~= Seq::<char>::empty());
        assert(s.last() as int == n + 48);
        assert(digits_value(s.drop_last()) == 0);
        assert('0' as int == 48);
        assert(digits_value(s) == n);
    } else {
        assert((((n % 10) + 48) as char) as int == (n % 10) + 48);
        lemma_decimal_nat_value(n / 10);
        lemma_decimal_nat_shape(n / 10);
        assert(s.drop_last() =~= decimal_nat(n / 10));
        assert(s.last() as int == (n % 10) + 48);
        assert(digits_value(s) == 10 * (n / 10) + n % 10);
        assert(s[0] == decimal_nat(n / 10)[0]);
    }
}

/// The decimal rendering of an integer denotes it: the digits of a
/// non-negative `i`, read most significant first, give back `i`, with no
/// leading zero unless `i` is 0; a negative `i` is `-` followed by the
/// digits of `-i`. So `LIF-123` names issue 123, never another issue.
pub proof fn law_decimal_rendering_denotes_value(i: int)
    ensures
        i >= 0 ==> digits_value(decimal_int(i)) == i,
        i >= 0 ==> forall|k: int|
            0 <= k < decimal_int(i).len() ==> '0' <= #[trigger] decimal_int(i)[k] && decimal_int(
                i,
            )[k] <= '9',
        i > 0 ==> decimal_int(i)[0] != '0',
        i == 0 ==> decimal_int(i) == seq!['0'],
        i < 0 ==> decimal_int(i)[0] == '-' && digits_value(decimal_int(i).drop_first()) == -i,
        i < 0 ==> decimal_int(i).drop_first()[0] != '0',
{
    lemma_decimal_int_shape(i);
    if i < 0 {
        lemma_decimal_nat_value((-i) as nat);
        assert(decimal_int(i).drop_first() =~= decimal_nat((-i) as nat));
    } else {
        lemma_decimal_nat_value(i as nat);
        if i == 0 {
            assert(decimal_int(i) =~= seq!['0']);
        }
    }
}

/// The character that `\\` followed by `c` stands for in stored text:
/// `\\n` a line feed, `\\t` a tab, `\\r` a carriage return.
pub open spec fn escape_target(c: char) -> Option<char> {
    if c == 'n' {
        Some('\n')
    } else if c == 't' {
        Some('\t')
    } else if c == 'r' {
        Some('\r')
    } else {
        None
    }
}

/// Text with every escape sequence `\\n`, `\\t`, `\\r` replaced by the
/// character it stands for; every other character, a lone backslash
/// included, is kept. A backslash never escapes another backslash, so the
/// sequences do not overlap.
pub open spec fn unescaped(s: Seq<char>) -> Seq<char>
    decreases s.len(),
{
    if s.len() == 0 {
        seq![]
    } else if s.len() >= 2 && s[s.len() - 2] == '\\' && escape_target(s.last()) is Some {
        unescaped(s.take(s.len() - 2)).push(escape_target(s.last())->0)
    } else {
        unescaped(s.drop_last()).push(s.last())
    }
}

/// Replaces the escape sequences `\\n`, `\\t` and `\\r` that clients send
/// for line breaks and tabs by the characters they stand for.
pub fn unescape_text(s: &str) -> (out: String)
    ensures
        out@ == unescaped(s@),
{
    let mut out = String::new();
    let mut pending = false;
    for c in it: s.chars()
        invariant
            it.seq() == s@,
            0 <= it.index() <= s@.len(),
            pending == (it.index() > 0 && s@[it.index() - 1] == '\\'),
            pending ==> unescaped(s@.take(it.index() as int)).len() > 0 && out@ == unescaped(
                s@.take(it.index() as int),
            ).drop_last() && unescaped(s@.take(it.index() as int)).last() == '\\',
            !pending ==> out@ == unescaped(s@.take(it.index() as int)),
    {
        let ghost i = it.index() as int;
        let ghost next = s@.take(i + 1);
        proof {
            assert(c == s@[i]);
            assert(next.drop_last() =~= s@.take(i));
            assert(next.last() == c);
            if i >= 1 {
                assert(next[next.len() - 2] == s@[i - 1]);
                assert(next.take(next.len() - 2) =~= s@.take(i - 1));
                assert(s@.take(i).drop_last() =~= s@.take(i - 1));
                assert(s@.take(i).last() == s@[i - 1]);
            }
        }
        if pending && (c == 'n' || c == 't' || c == 'r') {
            let ghost before = out@;
            let target = if c == 'n' {
                '\n'
            } else if c == 't' {
                '\t'
            } else {
                '\r'
            };
            push_char(&mut out, target);
            pending = false;
            proof {
                assert(unescaped(s@.take(i)) == unescaped(s@.take(i - 1)).push('\\'));
                assert(unescaped(s@.take(i)).drop_last() =~= unescaped(s@.take(i - 1)));
            }
        } else if c == '\\' {
            if pending {
                push_char(&mut out, '\\');
                proof {
                    assert(out@ =~= unescaped(s@.take(i)));
                }
            }
            pending = true;
            proof {
                assert(unescaped(next) == unescaped(s@.take(i)).push('\\'));
                assert(unescaped(next).drop_last() =~= unescaped(s@.take(i)));
            }
        } else {
            if pending {
                push_char(&mut out, '\\');
                proof {
                    assert(out@ =~= unescaped(s@.take(i)));
                }
            }
            push_char(&mut out, c);
            pending = false;
        }
    }
    proof {
        assert(s@.take(s@.len() as int) =~= s@);
    }
    if pending {
        push_char(&mut out, '\\');
        proof {
            assert(out@ =~= unescaped(s@));
        }
    }
    out
}

/// Text without backslashes is stored as it is.
pub proof fn law_unescaped_without_backslash(s: Seq<char>)
    requires
        forall|i: int| 0 <= i < s.len() ==> s[i] != '\\',
    ensures
        unescaped(s) == s,
    decreases s.len(),
{
    if s.len() > 0 {
        law_unescaped_without_backslash(s.drop_last());
        assert(s.drop_last().push(s.last()) =~= s);
    }
}

/// Compares two string slices character by character.
pub fn str_eq(a: &str, b: &str) -> (eq: bool)
    ensures
        eq == (a@ == b@),
{
    let n: usize = a.unicode_len();
    if n != b.unicode_len() {
        return false;
    }
    let mut i: usize = 0;
    while i < n
        invariant
            n == a@.len(),
            n == b@.len(),
            i <= n,
            forall|j: int| 0 <= j < i ==> a@[j] == b@[j],
        decreases n - i,
    {
        if a.get_char(i) != b.get_char(i) {
            return false;
        }
        i = i + 1;
    }
    assert(a@ =~= b@);
    true
}

} // verus!
