//! What the control panel shows of the service's state: the countdown to
//! the next toast and the label of the test button.

use crate::text::{decimal, decimal_digits, join};
use vstd::prelude::*;
use vstd::string::StringExecFns;

verus! {

pub const MILLIS_PER_SECOND: u64 = 1000;

pub const SECONDS_PER_MINUTE: u64 = 60;

/// How close the next toast is.
#[derive(Debug, Clone, Copy, PartialEq, Eq, Structural)]
pub enum CountdownLevel {
    /// At most ten seconds are left.
    Urgent,
    /// At most thirty seconds are left.
    Soon,
    /// More than thirty seconds are left.
    Calm,
}

pub open spec fn level_of(seconds: nat) -> CountdownLevel {
    if seconds <= 10 {
        CountdownLevel::Urgent
    } else if seconds <= 30 {
        CountdownLevel::Soon
    } else {
        CountdownLevel::Calm
    }
}

/// A number below one hundred in two digits.
pub open spec fn two_digits(n: nat) -> Seq<char> {
    if n < 10 {
        "0"@ + decimal_digits(n)
    } else {
        decimal_digits(n)
    }
}

/// The countdown for a time left in whole seconds: minutes, a colon, and
/// the seconds in two digits; at zero the notice that the toast is on its
/// way.
pub open spec fn countdown_of(seconds: nat) -> Seq<char> {
    if seconds == 0 {
        "发送中..."@
    } else {
        decimal_digits(seconds / (SECONDS_PER_MINUTE as nat)) + ":"@ + two_digits(
            seconds % (SECONDS_PER_MINUTE as nat),
        )
    }
}

/// The label of the test button: during the cooldown it counts the seconds
/// that are left, rounded up past the whole second.
pub open spec fn test_label_of(remaining_millis: Option<nat>) -> Seq<char> {
    match remaining_millis {
        Some(millis) => "测试提示（"@ + decimal_digits(millis / (MILLIS_PER_SECOND as nat) + 1)
            + "s）"@,
        None => "测试提示"@,
    }
}

pub open spec fn millis_as_nat(t: Option<u64>) -> Option<nat> {
    match t {
        Some(t) => Some(t as nat),
        None => None,
    }
}

/// How close the next toast is, for a time left in milliseconds.
pub fn countdown_level(time_left_millis: u64) -> (r: CountdownLevel)
    ensures
        r == level_of((time_left_millis / MILLIS_PER_SECOND) as nat),
{
    let total_seconds = time_left_millis / MILLIS_PER_SECOND;
    if total_seconds <= 10 {
        CountdownLevel::Urgent
    } else if total_seconds <= 30 {
        CountdownLevel::Soon
    } else {
        CountdownLevel::Calm
    }
}

/// The countdown for a time left in milliseconds.
pub fn countdown_text(time_left_millis: u64) -> (r: String)
    ensures
        r@ == countdown_of((time_left_millis / MILLIS_PER_SECOND) as nat),
{
    let total_seconds = time_left_millis / MILLIS_PER_SECOND;
    if total_seconds == 0 {
        return "发送中...".to_owned();
    }
    let minutes = total_seconds / SECONDS_PER_MINUTE;
    let seconds = total_seconds % SECONDS_PER_MINUTE;
    let mut r = decimal(minutes);
    r.append(":");
    if seconds < 10 {
        r.append("0");
    }
    let digits = decimal(seconds);
    r.append(digits.as_str());
    r
}

/// The label of the test button, for what is left of the cooldown in
/// milliseconds.
pub fn test_button_label(remaining_millis: Option<u64>) -> (r: String)
    ensures
        r@ == test_label_of(millis_as_nat(remaining_millis)),
{
    match remaining_millis {
        Some(millis) => {
            let seconds = decimal(millis / MILLIS_PER_SECOND + 1);
            let mut r = join("测试提示（", seconds.as_str());
            r.append("s）");
            r
        },
        None => "测试提示".to_owned(),
    }
}

/// The entries of `list` whose places are not among `marked`, in their
/// order.
pub open spec fn unmarked(list: Seq<String>, marked: Seq<usize>) -> Seq<String>
    decreases list.len(),
{
    if list.len() == 0 {
        Seq::empty()
    } else {
        let front = unmarked(list.drop_last(), marked);
        if marked.contains((list.len() - 1) as usize) {
            front
        } else {
            front.push(list.last())
        }
    }
}

fn is_marked(marked: &[usize], place: usize) -> (r: bool)
    ensures
        r == marked@.contains(place),
{
    let mut k: usize = 0;
    while k < marked.len()
        invariant
            k <= marked@.len(),
            forall|j: int| 0 <= j < k ==> marked@[j] != place,
        decreases marked@.len() - k,
    {
        if marked[k] == place {
            return true;
        }
        k = k + 1;
    }
    false
}

/// Takes the entries at the places `marked` out of `list`; the others keep
/// their order.
pub fn remove_marked(list: &mut Vec<String>, marked: &[usize])
    ensures
        final(list)@ == unmarked(old(list)@, marked@),
{
    let mut kept: Vec<String> = Vec::new();
    let mut i: usize = 0;
    while i < list.len()
        invariant
            i <= list@.len(),
            list@ == old(list)@,
            kept@ == unmarked(list@.take(i as int), marked@),
        decreases list@.len() - i,
    {
        assert(list@.take(i + 1).drop_last() =~= list@.take(i as int));
        if !is_marked(marked, i) {
            kept.push(list[i].clone());
        }
        i = i + 1;
    }
    assert(list@.take(list@.len() as int) =~= list@);
    *list = kept;
}

/// Appends what was typed to `list` and empties the field, unless nothing
/// was typed. The answer says whether an entry was added.
pub fn add_entry(list: &mut Vec<String>, typed: &mut String) -> (added: bool)
    ensures
        added == (old(typed)@.len() > 0),
        added ==> final(list)@ == old(list)@.push(*old(typed)) && final(typed)@.len() == 0,
        !added ==> final(list)@ == old(list)@ && final(typed)@ == old(typed)@,
{
    if typed.as_str().is_empty() {
        return false;
    }
    let mut entry = String::new();
    std::mem::swap(typed, &mut entry);
    list.push(entry);
    true
}

} // verus!
