//! Rendering a whole run's output: the activity report and the optional
//! profile-count lines.

use vstd::prelude::*;

use crate::event::{format_events, spec_event_lines, Event};
use crate::text::{decimal_string, spec_decimal};

verus! {

/// The activity report for a feed: the events' lines in feed order, or a
/// single notice when the feed is empty.
pub fn render_report(user_name: &str, events: &Vec<Event>) -> (r: Vec<String>)
    ensures
        events@.len() == 0 ==> r.deep_view() == seq!["No Recent Activity For "@ + user_name@],
        events@.len() > 0 ==> r.deep_view() == spec_event_lines(events@),
{
    if events.len() == 0 {
        let notice = String::from_str("No Recent Activity For ").concat(user_name);
        let mut lines: Vec<String> = Vec::new();
        lines.push(notice);
        proof {
            assert(lines.deep_view() =~= seq!["No Recent Activity For "@ + user_name@]);
        }
        lines
    } else {
        format_events(events)
    }
}

/// The line reporting a user's follower count.
pub fn followers_line(user_name: &str, count: usize) -> (r: String)
    ensures
        r@ == user_name@ + "'s Followers Number: "@ + spec_decimal(count as nat),
{
    String::from_str(user_name).concat("'s Followers Number: ").concat(
        decimal_string(count).as_str(),
    )
}

/// The line reporting a user's public-gist count.
pub fn public_gists_line(user_name: &str, count: usize) -> (r: String)
    ensures
        r@ == user_name@ + "'s Public Gists Number: "@ + spec_decimal(count as nat),
{
    String::from_str(user_name).concat("'s Public Gists Number: ").concat(
        decimal_string(count).as_str(),
    )
}

} // verus!
