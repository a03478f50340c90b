//! How a duration is written for people.

use vstd::prelude::*;

use crate::text::{decimal, push_decimal};

verus! {

/// One component of a written duration: a count and its unit, such as
/// `2 minute(s)`.
pub open spec fn unit_text(count: nat, unit: Seq<char>) -> Seq<char> {
    decimal(count) + unit
}

/// The counts that a duration of `s` seconds is written with, each with its
/// unit. Hours are taken while more than an hour remains, then minutes from
/// the rest while more than a minute remains, then the remaining seconds; a
/// unit whose threshold is not passed is left out. A duration of no more than
/// zero seconds has no component.
pub open spec fn duration_parts(s: int) -> Seq<(nat, Seq<char>)> {
    if s <= 0 {
        seq![]
    } else {
        let below_hour = s % 3600;
        let below_minute = below_hour % 60;
        (if s > 3600 {
            seq![((s / 3600) as nat, " hour(s)"@)]
        } else {
            seq![]
        }) + (if below_hour > 60 {
            seq![((below_hour / 60) as nat, " minute(s)"@)]
        } else {
            seq![]
        }) + (if below_minute > 0 {
            seq![(below_minute as nat, " second(s)"@)]
        } else {
            seq![]
        })
    }
}

/// The written components, in order.
pub open spec fn duration_texts(s: int) -> Seq<Seq<char>> {
    duration_parts(s).map_values(|p: (nat, Seq<char>)| unit_text(p.0, p.1))
}

/// Components separated by `", "`.
pub open spec fn comma_list(parts: Seq<Seq<char>>) -> Seq<char>
    decreases parts.len(),
{
    if parts.len() == 0 {
        seq![]
    } else if parts.len() == 1 {
        parts[0]
    } else {
        comma_list(parts.drop_last()) + ", "@ + parts.last()
    }
}

/// Components joined as `"a, b and c"`, or `"none"` when there is none.
pub open spec fn join_parts(parts: Seq<Seq<char>>) -> Seq<char> {
    if parts.len() == 0 {
        "none"@
    } else if parts.len() == 1 {
        parts[0]
    } else {
        comma_list(parts.drop_last()) + " and "@ + parts.last()
    }
}

/// How a duration of `s` seconds is written.
pub open spec fn format_duration_spec(s: int) -> Seq<char> {
    join_parts(duration_texts(s))
}

fn unit_string(count: u64, unit: &str) -> (r: String)
    ensures
        r@ == unit_text(count as nat, unit@),
{
    let mut r = String::new();
    push_decimal(&mut r, count);
    r.append(unit);
    r
}

/// Joins the components as `"a, b and c"`, or gives `"none"` for none.
fn join_strings(parts: &Vec<String>) -> (r: String)
    ensures
        r@ == join_parts(parts@.map_values(|p: String| p@)),
{
    let ghost texts = parts@.map_values(|p: String| p@);
    let n = parts.len();
    if n == 0 {
        return String::from_str("none");
    }
    let mut r = String::new();
    let mut i: usize = 0;
    while i + 1 < n
        invariant
            n == parts.len(),
            n >= 1,
            i + 1 <= n,
            texts == parts@.map_values(|p: String| p@),
            r@ == comma_list(texts.subrange(0, i as int)),
        decreases n - i,
    {
        if i > 0 {
            r.append(", ");
        }
        r.append(parts[i].as_str());
        proof {
            let next = texts.subrange(0, i + 1);
            assert(next.drop_last() =~= texts.subrange(0, i as int));
        }
        i = i + 1;
    }
    assert(texts.subrange(0, i as int) =~= texts.drop_last());
    if n > 1 {
        r.append(" and ");
    }
    r.append(parts[n - 1].as_str());
    r
}

/// Writes a duration of `seconds` seconds for people: hours, minutes and
/// seconds, each left out when its threshold is not passed, joined as
/// `"a, b and c"`; `"none"` when no component is left, as for zero or a
/// negative duration.
pub fn format_duration_human(seconds: i64) -> (r: String)
    ensures
        r@ == format_duration_spec(seconds as int),
{
    let mut parts: Vec<String> = Vec::new();
    if seconds > 0 {
        let s = seconds as u64;
        if s > 3600 {
            parts.push(unit_string(s / 3600, " hour(s)"));
        }
        let below_hour = s % 3600;
        if below_hour > 60 {
            parts.push(unit_string(below_hour / 60, " minute(s)"));
        }
        let below_minute = below_hour % 60;
        if below_minute > 0 {
            parts.push(unit_string(below_minute, " second(s)"));
        }
    }
    assert(parts@.map_values(|p: String| p@) =~= duration_texts(seconds as int));
    join_strings(&parts)
}

/// Every decimal writing has at least one digit.
pub proof fn lemma_decimal_nonempty(n: nat)
    ensures
        decimal(n).len() >= 1,
    decreases n,
{
    if n >= 10 {
        lemma_decimal_nonempty(n / 10);
    }
}

/// For every duration of zero or more seconds the written form is not empty
/// and each of its components counts more than zero of its unit; zero seconds
/// is written exactly `"none"`.
pub proof fn lemma_format_duration_well_formed(s: int)
    requires
        s >= 0,
    ensures
        format_duration_spec(s).len() > 0,
        forall|i: int| 0 <= i < duration_parts(s).len() ==> #[trigger] duration_parts(s)[i].0 > 0,
        s == 0 ==> format_duration_spec(s) == "none"@,
{
    reveal_strlit("none");
    let texts = duration_texts(s);
    if texts.len() > 0 {
        let p = duration_parts(s).last();
        lemma_decimal_nonempty(p.0);
        assert(texts.last() == unit_text(p.0, p.1));
    }
}

} // verus!
