//! Reading the model's answer, and hiding secrets in error messages that
//! are kept in the session history.
use vstd::prelude::*;
use crate::text::{
    all_digits, chars_of, contains_chars, contains_seq, digit_value, digits_value,
    is_digit, is_ws, lower_seq, lowercase_chars, parse_usize, parse_usize_spec, skip_chars,
    starts_with, string_of, take_chars, trim, trim_chars, trim_end, trim_start, unsigned_body,
};

verus! {

/// `c` names one of the four options.
pub open spec fn is_choice(c: char) -> bool {
    '1' <= c && c <= '4'
}

/// The option named by the first of `1`..`4` in `s`, if any.
pub open spec fn first_choice(s: Seq<char>) -> Option<usize>
    decreases s.len(),
{
    if s.len() == 0 {
        None
    } else if is_choice(s[0]) {
        Some(digit_value(s[0]) as usize)
    } else {
        first_choice(s.drop_first())
    }
}

/// The first option named in `a + b`: the first one in `a`, else the first in `b`.
pub proof fn lemma_first_choice_concat(a: Seq<char>, b: Seq<char>)
    ensures
        first_choice(a + b) == (if first_choice(a) is Some { first_choice(a) } else { first_choice(b) }),
    decreases a.len(),
{
    if a.len() > 0 {
        assert((a + b).drop_first() =~= a.drop_first() + b);
        lemma_first_choice_concat(a.drop_first(), b);
    } else {
        assert(a + b =~= b);
    }
}

/// A text that names no option.
proof fn lemma_no_choice(s: Seq<char>)
    requires
        forall|i: int| 0 <= i < s.len() ==> !is_choice(#[trigger] s[i]),
    ensures
        first_choice(s) is None,
    decreases s.len(),
{
    if s.len() > 0 {
        assert(!is_choice(s[0]));
        lemma_no_choice(s.drop_first());
    }
}

/// Whitespace names no option, so trimming keeps the first option named.
proof fn lemma_trim_keeps_choice(s: Seq<char>)
    ensures
        first_choice(trim(s)) == first_choice(s),
{
    lemma_trim_start_keeps_choice(s);
    lemma_trim_end_keeps_choice(trim_start(s));
}

proof fn lemma_trim_start_keeps_choice(s: Seq<char>)
    ensures
        first_choice(trim_start(s)) == first_choice(s),
    decreases s.len(),
{
    if s.len() > 0 && is_ws(s[0]) {
        lemma_trim_start_keeps_choice(s.drop_first());
    }
}

proof fn lemma_trim_end_keeps_choice(s: Seq<char>)
    ensures
        first_choice(trim_end(s)) == first_choice(s),
    decreases s.len(),
{
    if s.len() > 0 && is_ws(s.last()) {
        lemma_trim_end_keeps_choice(s.drop_last());
        assert(s =~= s.drop_last() + seq![s.last()]);
        lemma_first_choice_concat(s.drop_last(), seq![s.last()]);
        assert(first_choice(seq![s.last()]) is None) by {
            lemma_no_choice(seq![s.last()]);
        }
    }
}

/// Digits whose value is zero are all `0`.
proof fn lemma_zero_digits(d: Seq<char>)
    requires
        all_digits(d),
        digits_value(d) == 0,
    ensures
        forall|i: int| 0 <= i < d.len() ==> #[trigger] d[i] == '0',
    decreases d.len(),
{
    if d.len() > 0 {
        let p = d.drop_last();
        assert(all_digits(p));
        crate::text::lemma_digits_value_nonneg(p);
        lemma_zero_digits(p);
        assert forall|i: int| 0 <= i < d.len() implies #[trigger] d[i] == '0' by {
            if i < d.len() - 1 {
                assert(d[i] == p[i]);
            }
        }
    }
}

/// When a text reads as a number from 1 to 4, that number is also the
/// first option it names.
proof fn lemma_number_is_first_choice(s: Seq<char>)
    requires
        parse_usize_spec(s) matches Some(n) && 1 <= n <= 4,
    ensures
        first_choice(s) == parse_usize_spec(s),
{
    let d = unsigned_body(s);
    let p = d.drop_last();
    assert(all_digits(p));
    crate::text::lemma_digits_value_nonneg(p);
    assert(is_digit(d.last()));
    assert(digits_value(p) == 0);
    lemma_zero_digits(p);
    assert(forall|i: int| 0 <= i < p.len() ==> !is_choice(#[trigger] p[i]));
    lemma_no_choice(p);
    assert(d =~= p + seq![d.last()]);
    lemma_first_choice_concat(p, seq![d.last()]);
    if s.len() > 0 && s[0] == '+' {
        assert(s =~= seq!['+'] + d);
        lemma_first_choice_concat(seq!['+'], d);
    }
}

/// The first prefix that may stand before the answer.
pub const ANSWER_PREFIX_WIDE: &'static str = "回答：";

/// The second prefix that may stand before the answer.
pub const ANSWER_PREFIX_NARROW: &'static str = "回答:";

/// The option (1 to 4) that the model's reply names.
///
/// A reply that is just the number is read as the number; one that starts
/// with "回答：" or "回答:" as the number after it; otherwise the first digit
/// from 1 to 4 in it is taken. All three agree with taking the first digit
/// from 1 to 4, which is what the contract states.
pub fn parse_answer(s: &str) -> (r: Option<usize>)
    ensures
        r == first_choice(s@),
        r matches Some(n) ==> 1 <= n <= 4,
{
    let t = trim_chars(&chars_of(s));
    proof {
        lemma_trim_keeps_choice(s@);
    }
    match parse_usize(&t) {
        Some(n) => {
            if 1 <= n && n <= 4 {
                proof {
                    lemma_number_is_first_choice(t@);
                }
                return Some(n);
            }
        },
        None => {},
    }
    let prefixes: [&str; 2] = [ANSWER_PREFIX_WIDE, ANSWER_PREFIX_NARROW];
    let mut k: usize = 0;
    while k < 2
        invariant
            k <= 2,
            first_choice(t@) == first_choice(s@),
            prefixes@ == seq![ANSWER_PREFIX_WIDE, ANSWER_PREFIX_NARROW],
        decreases 2 - k,
    {
        let prefix = chars_of(prefixes[k]);
        if starts_with(&t, &prefix) {
            let rest = trim_chars(&skip_chars(&t, prefix.len()));
            match parse_usize(&rest) {
                Some(n) => {
                    if 1 <= n && n <= 4 {
                        proof {
                            reveal_strlit("回答：");
                            reveal_strlit("回答:");
                            lemma_number_is_first_choice(rest@);
                            lemma_trim_keeps_choice(t@.skip(prefix@.len() as int));
                            assert(t@ =~= prefix@ + t@.skip(prefix@.len() as int));
                            assert(forall|i: int| 0 <= i < prefix@.len() ==> !is_choice(#[trigger] prefix@[i]));
                            lemma_no_choice(prefix@);
                            lemma_first_choice_concat(prefix@, t@.skip(prefix@.len() as int));
                        }
                        return Some(n);
                    }
                },
                None => {},
            }
        }
        k = k + 1;
    }
    let mut i: usize = 0;
    proof {
        assert(t@.skip(0) =~= t@);
    }
    while i < t.len()
        invariant
            i <= t@.len(),
            first_choice(t@) == first_choice(s@),
            first_choice(t@) == first_choice(t@.skip(i as int)),
        decreases t@.len() - i,
    {
        let c = t[i];
        proof {
            assert(t@.skip(i as int).drop_first() =~= t@.skip(i + 1));
        }
        if '1' <= c && c <= '4' {
            let n: usize = (c as u32 - '0' as u32) as usize;
            return Some(n);
        }
        i = i + 1;
    }
    None
}

/// The message kept when an error message may hold a secret.
pub const REDACTED_MESSAGE: &'static str = "请求失败，敏感信息已隐藏";

/// The most characters of an error message that are kept.
pub const MAX_KEPT_MESSAGE_CHARS: usize = 240;

/// The error message as it is kept: a fixed message where the text (in
/// ASCII lower case) mentions an API key, a token or a cookie, else its
/// first 240 characters.
pub open spec fn redacted(message: Seq<char>) -> Seq<char> {
    let lower = lower_seq(message);
    if contains_seq(lower, "api key"@) || contains_seq(lower, "token"@) || contains_seq(lower, "cookie"@) {
        REDACTED_MESSAGE@
    } else if message.len() <= 240 {
        message
    } else {
        message.take(240)
    }
}

/// Hides an error message that may hold a secret, and shortens the others.
pub fn redact_error(message: &str) -> (r: String)
    ensures
        r@ == redacted(message@),
{
    let chars = chars_of(message);
    let lower = lowercase_chars(&chars);
    if contains_chars(&lower, &chars_of("api key")) || contains_chars(&lower, &chars_of("token"))
        || contains_chars(&lower, &chars_of("cookie")) {
        String::from_str(REDACTED_MESSAGE)
    } else if chars.len() <= MAX_KEPT_MESSAGE_CHARS {
        string_of(&chars)
    } else {
        string_of(&take_chars(&chars, MAX_KEPT_MESSAGE_CHARS))
    }
}

} // verus!
