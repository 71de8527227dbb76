use vstd::prelude::*;

use crate::text::{chars_of, string_of};

verus! {

/// `s` with every occurrence of the non-empty pattern `pat` removed, scanning
/// from the left and skipping over each match, as `str::replace(pat, "")` does.
pub open spec fn remove_all(s: Seq<char>, pat: Seq<char>) -> Seq<char>
    decreases s.len(),
{
    if s.len() == 0 || pat.len() == 0 {
        s
    } else if pat.is_prefix_of(s) {
        remove_all(s.skip(pat.len() as int), pat)
    } else {
        seq![s[0]] + remove_all(s.skip(1), pat)
    }
}

/// The standardised form of a phone number: brackets and dashes dropped, then
/// the Ukrainian country code `+38` dropped.
pub open spec fn standard_phone(s: Seq<char>) -> Seq<char> {
    remove_all(remove_all(remove_all(remove_all(s, seq!['(']), seq![')']), seq!['-']), seq!['+', '3', '8'])
}

/// Removing a pattern never brings in a character that was not there.
pub proof fn lemma_remove_all_keeps_absent(s: Seq<char>, pat: Seq<char>, c: char)
    requires
        !s.contains(c),
    ensures
        !remove_all(s, pat).contains(c),
    decreases s.len(),
{
    if s.len() == 0 || pat.len() == 0 {
    } else if pat.is_prefix_of(s) {
        lemma_remove_all_keeps_absent(s.skip(pat.len() as int), pat, c);
    } else {
        lemma_remove_all_keeps_absent(s.skip(1), pat, c);
        let r = seq![s[0]] + remove_all(s.skip(1), pat);
        if r.contains(c) {
            let k = choose|k: int| 0 <= k < r.len() && r[k] == c;
            if k > 0 {
                assert(remove_all(s.skip(1), pat)[k - 1] == c);
            }
        }
    }
}

/// Removing a one-character pattern leaves no occurrence of that character.
pub proof fn lemma_remove_all_single(s: Seq<char>, c: char)
    ensures
        !remove_all(s, seq![c]).contains(c),
    decreases s.len(),
{
    let pat = seq![c];
    if s.len() == 0 {
    } else if pat.is_prefix_of(s) {
        lemma_remove_all_single(s.skip(1), c);
    } else {
        lemma_remove_all_single(s.skip(1), c);
        assert(s[0] != c);
        let r = seq![s[0]] + remove_all(s.skip(1), pat);
        if r.contains(c) {
            let k = choose|k: int| 0 <= k < r.len() && r[k] == c;
            assert(remove_all(s.skip(1), pat)[k - 1] == c);
        }
    }
}

/// A pattern whose first character does not occur in `s` is removed nowhere.
pub proof fn lemma_remove_all_absent(s: Seq<char>, pat: Seq<char>)
    requires
        pat.len() > 0,
        !s.contains(pat[0]),
    ensures
        remove_all(s, pat) == s,
    decreases s.len(),
{
    if s.len() == 0 {
    } else {
        assert(!pat.is_prefix_of(s)) by {
            assert(s[0] != pat[0]);
        }
        assert forall|k: int| 0 <= k < s.skip(1).len() implies s.skip(1)[k] != pat[0] by {
            assert(s[k + 1] != pat[0]);
        }
        lemma_remove_all_absent(s.skip(1), pat);
        assert(seq![s[0]] + s.skip(1) == s);
    }
}

/// A standardised phone number holds no bracket and no dash.
pub proof fn lemma_standard_phone_has_no_separators(s: Seq<char>)
    ensures
        !standard_phone(s).contains('('),
        !standard_phone(s).contains(')'),
        !standard_phone(s).contains('-'),
{
    let s1 = remove_all(s, seq!['(']);
    let s2 = remove_all(s1, seq![')']);
    let s3 = remove_all(s2, seq!['-']);
    lemma_remove_all_single(s, '(');
    lemma_remove_all_keeps_absent(s1, seq![')'], '(');
    lemma_remove_all_keeps_absent(s2, seq!['-'], '(');
    lemma_remove_all_keeps_absent(s3, seq!['+', '3', '8'], '(');
    lemma_remove_all_single(s1, ')');
    lemma_remove_all_keeps_absent(s2, seq!['-'], ')');
    lemma_remove_all_keeps_absent(s3, seq!['+', '3', '8'], ')');
    lemma_remove_all_single(s2, '-');
    lemma_remove_all_keeps_absent(s3, seq!['+', '3', '8'], '-');
}

/// A number that already holds no bracket, dash or plus sign is left as it is.
pub proof fn lemma_standard_phone_keeps_plain(s: Seq<char>)
    requires
        !s.contains('('),
        !s.contains(')'),
        !s.contains('-'),
        !s.contains('+'),
    ensures
        standard_phone(s) == s,
{
    lemma_remove_all_absent(s, seq!['(']);
    lemma_remove_all_absent(s, seq![')']);
    lemma_remove_all_absent(s, seq!['-']);
    lemma_remove_all_absent(s, seq!['+', '3', '8']);
}

/// How many times `c` occurs in `s`.
pub open spec fn count_char(s: Seq<char>, c: char) -> nat
    decreases s.len(),
{
    if s.len() == 0 {
        0
    } else {
        (if s[0] == c { 1nat } else { 0nat }) + count_char(s.skip(1), c)
    }
}

/// Whether the country code `+38` occurs anywhere in `s`.
pub open spec fn has_country_code(s: Seq<char>) -> bool {
    exists|i: int|
        0 <= i && i + 3 <= s.len() && #[trigger] s[i] == '+' && s[i + 1] == '3' && s[i + 2] == '8'
}

proof fn lemma_count_zero(s: Seq<char>, c: char)
    ensures
        count_char(s, c) == 0 <==> !s.contains(c),
    decreases s.len(),
{
    if s.len() > 0 {
        lemma_count_zero(s.skip(1), c);
        if s.skip(1).contains(c) {
            let k = choose|k: int| 0 <= k < s.skip(1).len() && s.skip(1)[k] == c;
            assert(s[k + 1] == c);
        }
        if s.contains(c) && s[0] != c {
            let k = choose|k: int| 0 <= k < s.len() && s[k] == c;
            assert(s.skip(1)[k - 1] == c);
        }
    }
}

proof fn lemma_count_skip(s: Seq<char>, c: char, k: int)
    requires
        0 <= k <= s.len(),
    ensures
        count_char(s.skip(k), c) <= count_char(s, c),
    decreases k,
{
    if k > 0 {
        lemma_count_skip(s.skip(1), c, k - 1);
        assert(s.skip(1).skip(k - 1) =~= s.skip(k));
    } else {
        assert(s.skip(0) =~= s);
    }
}

/// Removing a pattern never adds occurrences of a character.
pub proof fn lemma_remove_all_count(s: Seq<char>, pat: Seq<char>, c: char)
    ensures
        count_char(remove_all(s, pat), c) <= count_char(s, c),
    decreases s.len(),
{
    if s.len() == 0 || pat.len() == 0 {
    } else if pat.is_prefix_of(s) {
        lemma_remove_all_count(s.skip(pat.len() as int), pat, c);
        lemma_count_skip(s, c, pat.len() as int);
    } else {
        lemma_remove_all_count(s.skip(1), pat, c);
        let r = seq![s[0]] + remove_all(s.skip(1), pat);
        assert(r.skip(1) =~= remove_all(s.skip(1), pat));
    }
}

/// With at most one `+` in `s`, removing `+38` leaves no `+38` behind.
proof fn lemma_remove_code_single_plus(s: Seq<char>)
    requires
        count_char(s, '+') <= 1,
    ensures
        !has_country_code(remove_all(s, seq!['+', '3', '8'])),
    decreases s.len(),
{
    let pat = seq!['+', '3', '8'];
    if s.len() == 0 {
    } else if pat.is_prefix_of(s) {
        assert(s[0] == pat[0]);
        lemma_count_zero(s.skip(1), '+');
        lemma_count_skip(s.skip(1), '+', 2);
        assert(s.skip(1).skip(2) =~= s.skip(3));
        lemma_count_zero(s.skip(3), '+');
        lemma_remove_all_keeps_absent(s.skip(3), pat, '+');
        let r = remove_all(s, pat);
        if has_country_code(r) {
            let i = choose|i: int|
                0 <= i && i + 3 <= r.len() && #[trigger] r[i] == '+' && r[i + 1] == '3' && r[i + 2]
                    == '8';
            assert(r.contains('+'));
        }
    } else {
        let rest = remove_all(s.skip(1), pat);
        let r = seq![s[0]] + rest;
        assert(r == remove_all(s, pat));
        if s[0] == '+' {
            lemma_count_zero(s.skip(1), '+');
            lemma_remove_all_absent(s.skip(1), pat);
            assert(r =~= s);
            if has_country_code(r) {
                let i = choose|i: int|
                    0 <= i && i + 3 <= r.len() && #[trigger] r[i] == '+' && r[i + 1] == '3' && r[i
                        + 2] == '8';
                if i > 0 {
                    assert(s.skip(1)[i - 1] == '+');
                } else {
                    assert(s.subrange(0, 3) =~= pat);
                }
            }
        } else {
            lemma_remove_code_single_plus(s.skip(1));
            if has_country_code(r) {
                let i = choose|i: int|
                    0 <= i && i + 3 <= r.len() && #[trigger] r[i] == '+' && r[i + 1] == '3' && r[i
                        + 2] == '8';
                assert(i > 0);
                assert(rest[i - 1] == '+' && rest[i] == '3' && rest[i + 1] == '8');
            }
        }
    }
}

/// A number with at most one `+` comes out with no country code `+38` left in
/// it, wherever brackets and dashes stood.
pub proof fn lemma_standard_phone_drops_country_code(s: Seq<char>)
    requires
        count_char(s, '+') <= 1,
    ensures
        !has_country_code(standard_phone(s)),
{
    let s1 = remove_all(s, seq!['(']);
    let s2 = remove_all(s1, seq![')']);
    let s3 = remove_all(s2, seq!['-']);
    lemma_remove_all_count(s, seq!['('], '+');
    lemma_remove_all_count(s1, seq![')'], '+');
    lemma_remove_all_count(s2, seq!['-'], '+');
    lemma_remove_code_single_plus(s3);
}

/// A compact number `+38` followed by the local number comes out as the
/// local number alone.
pub proof fn lemma_standard_phone_of_prefixed(local: Seq<char>)
    requires
        !local.contains('('),
        !local.contains(')'),
        !local.contains('-'),
        !local.contains('+'),
    ensures
        standard_phone(seq!['+', '3', '8'] + local) == local,
{
    let pat = seq!['+', '3', '8'];
    let s = pat + local;
    assert forall|c: char| c == '(' || c == ')' || c == '-' implies !s.contains(c) by {
        if s.contains(c) {
            let k = choose|k: int| 0 <= k < s.len() && s[k] == c;
            if k >= 3 {
                assert(local[k - 3] == c);
            }
        }
    }
    lemma_remove_all_absent(s, seq!['(']);
    lemma_remove_all_absent(s, seq![')']);
    lemma_remove_all_absent(s, seq!['-']);
    assert(pat.is_prefix_of(s)) by {
        assert(s.subrange(0, 3) =~= pat);
    }
    assert(s.skip(3) =~= local);
    lemma_remove_all_absent(local, pat);
}

/// Whether `pat` occurs in `s` starting at position `i`.
fn matches_at(s: &Vec<char>, i: usize, pat: &Vec<char>) -> (r: bool)
    requires
        i <= s@.len(),
    ensures
        r == pat@.is_prefix_of(s@.skip(i as int)),
{
    let n = s.len();
    let m = pat.len();
    if n - i < m {
        return false;
    }
    let mut j: usize = 0;
    while j < m
        invariant
            n == s@.len(),
            m == pat@.len(),
            i + m <= n,
            j <= m,
            forall|k: int| 0 <= k < j ==> pat@[k] == s@[i + k],
        decreases m - j,
    {
        if pat[j] != s[i + j] {
            assert(pat@[j as int] != s@.skip(i as int)[j as int]);
            return false;
        }
        j = j + 1;
    }
    assert(pat@ == s@.skip(i as int).subrange(0, m as int));
    true
}

/// `s` with every occurrence of `pat` removed (see [`remove_all`]).
pub fn remove_all_exec(s: &Vec<char>, pat: &Vec<char>) -> (r: Vec<char>)
    requires
        pat@.len() > 0,
    ensures
        r@ == remove_all(s@, pat@),
{
    let n = s.len();
    let m = pat.len();
    let mut out: Vec<char> = Vec::new();
    let mut i: usize = 0;
    assert(s@.skip(0) == s@);
    while i < n
        invariant
            n == s@.len(),
            m == pat@.len(),
            m > 0,
            i <= n,
            remove_all(s@, pat@) == out@ + remove_all(s@.skip(i as int), pat@),
        decreases n - i,
    {
        let rest = Ghost(s@.skip(i as int));
        if matches_at(s, i, pat) {
            assert(rest@.skip(m as int) == s@.skip(i + m));
            i = i + m;
        } else {
            let c = s[i];
            assert(rest@.skip(1) == s@.skip(i + 1));
            assert(remove_all(rest@, pat@) == seq![c] + remove_all(s@.skip(i + 1), pat@));
            assert(out@.push(c) + remove_all(s@.skip(i + 1), pat@)
                == out@ + (seq![c] + remove_all(s@.skip(i + 1), pat@)));
            out.push(c);
            i = i + 1;
        }
    }
    assert(s@.skip(i as int).len() == 0);
    assert(out@ + Seq::<char>::empty() == out@);
    out
}

/// Standardise a phone number for Asterisk (Ukrainian numbers): drop `(`, `)`
/// and `-`, then drop the country code `+38`, so `+38(050)-111-11-11`
/// becomes `0501111111`.
pub fn parse_phone(phone_number: &str) -> (r: String)
    ensures
        r@ == standard_phone(phone_number@),
        !r@.contains('('),
        !r@.contains(')'),
        !r@.contains('-'),
        !phone_number@.contains('(') && !phone_number@.contains(')') && !phone_number@.contains('-')
            && !phone_number@.contains('+') ==> r@ == phone_number@,
        count_char(phone_number@, '+') <= 1 ==> !has_country_code(r@),
        phone_number@.len() >= 3 && phone_number@.subrange(0, 3) == seq!['+', '3', '8']
            && !phone_number@.contains('(') && !phone_number@.contains(')')
            && !phone_number@.contains('-') && !phone_number@.skip(3).contains('+')
            ==> r@ == phone_number@.skip(3),
{
    proof {
        if count_char(phone_number@, '+') <= 1 {
            lemma_standard_phone_drops_country_code(phone_number@);
        }
        if phone_number@.len() >= 3 && phone_number@.subrange(0, 3) == seq!['+', '3', '8']
            && !phone_number@.contains('(') && !phone_number@.contains(')')
            && !phone_number@.contains('-') && !phone_number@.skip(3).contains('+') {
            let local = phone_number@.skip(3);
            assert(phone_number@ =~= seq!['+', '3', '8'] + local);
            assert forall|c: char| c == '(' || c == ')' || c == '-' implies !local.contains(c) by {
                if local.contains(c) {
                    let k = choose|k: int| 0 <= k < local.len() && local[k] == c;
                    assert(phone_number@[k + 3] == c);
                }
            }
            lemma_standard_phone_of_prefixed(local);
        }
        lemma_standard_phone_has_no_separators(phone_number@);
        if !phone_number@.contains('(') && !phone_number@.contains(')')
            && !phone_number@.contains('-') && !phone_number@.contains('+') {
            lemma_standard_phone_keeps_plain(phone_number@);
        }
    }
    let open_bracket = vec!['('];
    let close_bracket = vec![')'];
    let dash = vec!['-'];
    let country_code = vec!['+', '3', '8'];
    assert(open_bracket@ == seq!['(']);
    assert(close_bracket@ == seq![')']);
    assert(dash@ == seq!['-']);
    assert(country_code@ == seq!['+', '3', '8']);
    let s = chars_of(phone_number);
    let s = remove_all_exec(&s, &open_bracket);
    let s = remove_all_exec(&s, &close_bracket);
    let s = remove_all_exec(&s, &dash);
    let s = remove_all_exec(&s, &country_code);
    string_of(&s)
}

} // verus!
