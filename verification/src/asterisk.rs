use vstd::prelude::*;

use crate::config::AmiOperator;
use crate::phone::{parse_phone, standard_phone};

verus! {

/// The character of the decimal digit `d`.
pub open spec fn digit_char(d: nat) -> char {
    (48 + d) as char
}

/// The decimal notation of `n`, without leading zeros.
pub open spec fn decimal(n: nat) -> Seq<char>
    decreases n,
{
    if n < 10 {
        seq![digit_char(n)]
    } else {
        decimal(n / 10).push(digit_char(n % 10))
    }
}

/// Whether `c` is one of the digits `0` to `9`.
pub open spec fn is_digit(c: char) -> bool {
    48 <= c as int <= 57
}

/// The number that the digit string `s` stands for, read in base ten.
pub open spec fn digits_value(s: Seq<char>) -> int
    decreases s.len(),
{
    if s.len() == 0 {
        0
    } else {
        digits_value(s.drop_last()) * 10 + (s.last() as int - 48)
    }
}

/// `s` is the usual base-ten notation of `n`: one or more digits, no leading
/// zero, and read back as a number it gives `n`.
pub open spec fn is_decimal_notation(s: Seq<char>, n: nat) -> bool {
    &&& s.len() > 0
    &&& forall|i: int| 0 <= i < s.len() ==> is_digit(#[trigger] s[i])
    &&& (s.len() > 1 ==> s[0] != '0')
    &&& digits_value(s) == n
}

/// The decimal notation of `n` is made of digits, has no leading zero, and
/// reads back as `n`.
pub proof fn decimal_reads_back(n: nat)
    ensures
        is_decimal_notation(decimal(n), n),
        n > 0 ==> decimal(n)[0] != '0',
    decreases n,
{
    if n < 10 {
        let s = decimal(n);
        assert(s.drop_last() =~= Seq::<char>::empty());
        assert(digit_char(n) as int == 48 + n);
        assert(s.last() == digit_char(n));
        assert(digits_value(s.drop_last()) == 0);
        assert(digits_value(s) == n);
        assert(is_digit(s[0]));
    } else {
        decimal_reads_back(n / 10);
        let s = decimal(n);
        let d = digit_char(n % 10);
        assert(d as int == 48 + n % 10);
        assert(s.drop_last() =~= decimal(n / 10));
        assert(s[0] == decimal(n / 10)[0]);
        assert forall|i: int| 0 <= i < s.len() implies is_digit(#[trigger] s[i]) by {
            if i < s.len() - 1 {
                assert(s[i] == decimal(n / 10)[i]);
            }
        }
        assert(s.last() == d);
        assert(digits_value(s) == digits_value(decimal(n / 10)) * 10 + (n % 10));
        assert(n == (n / 10) * 10 + n % 10);
        assert(s.len() > 1);
        assert(n / 10 > 0);
    }
}

/// Appends the decimal notation of `n` to `out`.
pub fn push_decimal(out: &mut String, n: u32)
    ensures
        final(out)@ == old(out)@ + decimal(n as nat),
        is_decimal_notation(final(out)@.skip(old(out)@.len() as int), n as nat),
    decreases n,
{
    if n >= 10 {
        push_decimal(out, n / 10);
    }
    let d: u8 = (n % 10) as u8;
    let c: char = (48u8 + d) as char;
    assert(c == digit_char((n % 10) as nat));
    out.push(c);
    proof {
        decimal_reads_back(n as nat);
        assert(out@.skip(old(out)@.len() as int) =~= decimal(n as nat)) by {
            if n >= 10 {
                assert(old(out)@ + decimal(n as nat) == (old(out)@ + decimal((n / 10) as nat)).push(c));
            } else {
                assert(old(out)@ + decimal(n as nat) == old(out)@.push(c));
            }
        }
        if n >= 10 {
            assert(old(out)@ + decimal(n as nat) == (old(out)@ + decimal((n / 10) as nat)).push(c));
        } else {
            assert(old(out)@ + decimal(n as nat) == old(out)@.push(c));
        }
    }
}

/// An action to send to the Asterisk Manager Interface: its name and its
/// parameters, each a name and a value.
#[derive(Debug, PartialEq, Eq)]
pub struct AmiCommand {
    pub action: String,
    pub params: Vec<(String, String)>,
}

impl AmiCommand {
    /// The command's parameters as a sequence of (name, value) texts.
    pub open spec fn param_views(&self) -> Seq<(Seq<char>, Seq<char>)> {
        self.params@.map_values(|p: (String, String)| (p.0@, p.1@))
    }
}

/// The parameters of the `Originate` action that rings the operator's phone
/// and connects it to `phone` in the operator's dial-plan context.
pub open spec fn originate_params(phone: Seq<char>, operator_number: u32, context: Seq<char>) -> Seq<
    (Seq<char>, Seq<char>),
> {
    seq![
        ("Channel"@, "SIP/"@ + decimal(operator_number as nat)),
        ("Context"@, context),
        ("Exten"@, standard_phone(phone)),
        ("Priority"@, "1"@),
        ("Async"@, "true"@),
        ("CallerID"@, "Дежурный оператор"@),
    ]
}

/// The `Originate` parameters ring the operator's SIP phone, written as
/// `SIP/` and the operator's number in base ten, and dial in the operator's
/// own context, whatever the phone and the context are.
pub proof fn originate_rings_operator_in_own_context(phone: Seq<char>, operator_number: u32, context: Seq<char>)
    ensures
        originate_params(phone, operator_number, context).len() == 6,
        originate_params(phone, operator_number, context)[0].1.subrange(0, 4) == "SIP/"@,
        is_decimal_notation(
            originate_params(phone, operator_number, context)[0].1.skip(4),
            operator_number as nat,
        ),
        originate_params(phone, operator_number, context)[1] == ("Context"@, context),
{
    reveal_strlit("SIP/");
    decimal_reads_back(operator_number as nat);
    let channel = "SIP/"@ + decimal(operator_number as nat);
    assert(channel.subrange(0, 4) =~= "SIP/"@);
    assert(channel.skip(4) =~= decimal(operator_number as nat));
}

/// The AMI command that calls `phone_number` from the operator's phone: an
/// `Originate` action on the operator's SIP channel, dialling the standardised
/// number in the operator's context.
pub fn originate_command(phone_number: &str, ami_operator: &AmiOperator) -> (r: AmiCommand)
    ensures
        r.action@ == "Originate"@,
        r.param_views() == originate_params(
            phone_number@,
            ami_operator.operator_number,
            ami_operator.context@,
        ),
        r.params@.len() == 6,
        r.params@[0].0@ == "Channel"@,
        r.params@[0].1@.subrange(0, 4) == "SIP/"@,
        is_decimal_notation(r.params@[0].1@.skip(4), ami_operator.operator_number as nat),
        r.params@[1].0@ == "Context"@,
        r.params@[1].1@ == ami_operator.context@,
        r.params@[2].0@ == "Exten"@,
        r.params@[2].1@ == standard_phone(phone_number@),
        r.params@[3].0@ == "Priority"@ && r.params@[3].1@ == "1"@,
        r.params@[4].0@ == "Async"@ && r.params@[4].1@ == "true"@,
        r.params@[5].0@ == "CallerID"@ && r.params@[5].1@ == "Дежурный оператор"@,
{
    proof {
        reveal_strlit("SIP/");
    }
    let exten = parse_phone(phone_number);
    let mut channel = String::from_str("SIP/");
    push_decimal(&mut channel, ami_operator.operator_number);
    assert(channel@.subrange(0, 4) =~= "SIP/"@);
    let mut params: Vec<(String, String)> = Vec::new();
    params.push((String::from_str("Channel"), channel));
    params.push((String::from_str("Context"), ami_operator.context.clone()));
    params.push((String::from_str("Exten"), exten));
    params.push((String::from_str("Priority"), String::from_str("1")));
    params.push((String::from_str("Async"), String::from_str("true")));
    params.push((String::from_str("CallerID"), String::from_str("Дежурный оператор")));
    let r = AmiCommand { action: String::from_str("Originate"), params };
    assert(r.param_views() =~= originate_params(
        phone_number@,
        ami_operator.operator_number,
        ami_operator.context@,
    ));
    r
}

} // verus!
