//! Fan-out of a batch of rendered messages to the configured sinks, and the
//! address a remote notification sink is posted to. Delivery itself is the
//! sinks' business; this module fixes what each sink is to receive.

use vstd::prelude::*;
use vstd::string::StringExecFns;

verus! {

/// Plans one delivery sequence per sink: every sink is to receive every
/// message of the batch, in batch order, independently of the other sinks.
/// An empty batch plans an empty sequence for every sink, so no send
/// happens at all.
pub fn dispatch_plan(messages: &Vec<String>, n_sinks: usize) -> (plans: Vec<Vec<String>>)
    ensures
        plans@.len() == n_sinks,
        forall|s: int| 0 <= s < n_sinks ==> plans@[s]@ == messages@,
{
    let mut plans: Vec<Vec<String>> = Vec::new();
    let mut s: usize = 0;
    while s < n_sinks
        invariant
            s <= n_sinks,
            plans@.len() == s,
            forall|k: int| 0 <= k < s ==> plans@[k]@ == messages@,
        decreases n_sinks - s,
    {
        let mut one: Vec<String> = Vec::new();
        let mut j: usize = 0;
        while j < messages.len()
            invariant
                j <= messages@.len(),
                one@ == messages@.take(j as int),
            decreases messages@.len() - j,
        {
            one.push(messages[j].clone());
            proof {
                assert(one@ =~= messages@.take(j + 1 as int));
            }
            j += 1;
        }
        proof {
            assert(one@ =~= messages@);
        }
        plans.push(one);
        s += 1;
    }
    plans
}

/// The decimal digits of `n`, most significant first, without a sign or
/// leading zeros (a single zero for zero itself).
pub open spec fn spec_decimal(n: nat) -> Seq<char>
    decreases n,
{
    if n < 10 {
        seq![spec_digit_char(n)]
    } else {
        spec_decimal(n / 10) + seq![spec_digit_char(n % 10)]
    }
}

/// The character for one decimal digit.
pub open spec fn spec_digit_char(d: nat) -> char {
    if d == 0 {
        '0'
    } else if d == 1 {
        '1'
    } else if d == 2 {
        '2'
    } else if d == 3 {
        '3'
    } else if d == 4 {
        '4'
    } else if d == 5 {
        '5'
    } else if d == 6 {
        '6'
    } else if d == 7 {
        '7'
    } else if d == 8 {
        '8'
    } else {
        '9'
    }
}

/// The one-character string for a decimal digit.
fn digit_str(d: u32) -> (r: &'static str)
    requires
        d < 10,
    ensures
        r@ == seq![spec_digit_char(d as nat)],
{
    proof {
        reveal_strlit("0");
        reveal_strlit("1");
        reveal_strlit("2");
        reveal_strlit("3");
        reveal_strlit("4");
        reveal_strlit("5");
        reveal_strlit("6");
        reveal_strlit("7");
        reveal_strlit("8");
        reveal_strlit("9");
    }
    match d {
        0 => "0",
        1 => "1",
        2 => "2",
        3 => "3",
        4 => "4",
        5 => "5",
        6 => "6",
        7 => "7",
        8 => "8",
        _ => "9",
    }
}

/// Writes `n` in decimal.
pub fn decimal_string(n: u32) -> (r: String)
    ensures
        r@ == spec_decimal(n as nat),
{
    let mut rem: u32 = n;
    let mut s: String = String::new();
    while rem >= 10
        invariant
            spec_decimal(n as nat) == spec_decimal(rem as nat) + s@,
        decreases rem,
    {
        let d = digit_str(rem % 10);
        let prefixed = d.to_owned().concat(s.as_str());
        proof {
            assert(spec_decimal(rem as nat) + s@ =~= spec_decimal((rem / 10) as nat) + (seq![
                spec_digit_char((rem % 10) as nat),
            ] + s@));
        }
        s = prefixed;
        rem = rem / 10;
    }
    let d = digit_str(rem);
    let r = d.to_owned().concat(s.as_str());
    proof {
        assert(r@ =~= spec_decimal(n as nat));
    }
    r
}

/// The address the remote notification sink is posted to: the configured
/// host, then one path segment made of the configured topic prefix, a dash
/// and the station's number in decimal.
pub fn ntfy_topic_uri(host: &String, topic: &String, station_id: u32) -> (r: String)
    ensures
        r@ == host@ + seq!['/'] + topic@ + seq!['-'] + spec_decimal(station_id as nat),
{
    proof {
        reveal_strlit("/");
        reveal_strlit("-");
    }
    let mut r = host.clone();
    r.append("/");
    r.append(topic.as_str());
    r.append("-");
    let digits = decimal_string(station_id);
    r.append(digits.as_str());
    proof {
        assert(r@ =~= host@ + seq!['/'] + topic@ + seq!['-'] + spec_decimal(station_id as nat));
    }
    r
}

} // verus!
