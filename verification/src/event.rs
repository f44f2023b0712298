//! The activity-event model and the mapping from one event to at most one
//! human-readable line.
//!
//! An event whose payload lacks a field its kind needs (a push without a
//! commit count, a create without a reference type, an issues event without
//! an action) yields no line rather than an error, so one malformed record
//! never aborts a whole report. Kinds the library does not recognize yield
//! no line either.

use vstd::prelude::*;

use crate::text::{capitalize_first_letter, decimal_string, spec_capitalized, spec_decimal};

verus! {

/// The kinds of activity event the library renders. `Unknown` stands for
/// any kind the provider may add later; it is tolerated, not fatal.
#[derive(Clone, Copy, Debug, PartialEq, Eq, Structural)]
pub enum EventKind {
    PullRequestOpened,
    Push,
    Create,
    Watch,
    Fork,
    IssuesAction,
    Unknown,
}

/// The variant-specific data attached to an event record. Each field is
/// present only for the kinds that use it.
#[derive(Clone, Debug)]
pub struct Payload {
    pub commit_count: Option<usize>,
    pub ref_type: Option<String>,
    pub action: Option<String>,
}

/// One unit of public user activity reported by the remote API.
#[derive(Clone, Debug)]
pub struct Event {
    pub repo_name: String,
    pub kind: EventKind,
    pub payload: Payload,
}

/// The kind a provider's event-type name denotes; any name outside the
/// closed enumeration is `Unknown`.
pub open spec fn spec_kind_of(s: Seq<char>) -> EventKind {
    if s == "PullRequestEvent"@ {
        EventKind::PullRequestOpened
    } else if s == "PushEvent"@ {
        EventKind::Push
    } else if s == "CreateEvent"@ {
        EventKind::Create
    } else if s == "WatchEvent"@ {
        EventKind::Watch
    } else if s == "ForkEvent"@ {
        EventKind::Fork
    } else if s == "IssuesEvent"@ {
        EventKind::IssuesAction
    } else {
        EventKind::Unknown
    }
}

/// Maps a provider's event-type name to the kind it denotes, tolerating
/// names the library does not recognize.
pub fn kind_of_name(kind_name: &str) -> (r: EventKind)
    ensures
        r == spec_kind_of(kind_name@),
{
    let name = String::from_str(kind_name);
    if name == String::from_str("PullRequestEvent") {
        EventKind::PullRequestOpened
    } else if name == String::from_str("PushEvent") {
        EventKind::Push
    } else if name == String::from_str("CreateEvent") {
        EventKind::Create
    } else if name == String::from_str("WatchEvent") {
        EventKind::Watch
    } else if name == String::from_str("ForkEvent") {
        EventKind::Fork
    } else if name == String::from_str("IssuesEvent") {
        EventKind::IssuesAction
    } else {
        EventKind::Unknown
    }
}

/// The line an event renders to, or `None` for an event that yields no line:
/// an unknown kind, or a payload missing the field its kind needs.
pub open spec fn spec_event_line(e: Event) -> Option<Seq<char>> {
    match e.kind {
        EventKind::PullRequestOpened => Some(" - Opened a pull request in "@ + e.repo_name@),
        EventKind::Push => match e.payload.commit_count {
            Some(n) => Some(
                " - Pushed "@ + spec_decimal(n as nat) + " commits to "@ + e.repo_name@ + "."@,
            ),
            None => None,
        },
        EventKind::Create => match e.payload.ref_type {
            Some(rt) => if rt@ == "repository"@ {
                Some(" - Created a repository named "@ + e.repo_name@)
            } else {
                Some(" - Created a "@ + rt@ + " in "@ + e.repo_name@)
            },
            None => None,
        },
        EventKind::Watch => Some(" - Starred "@ + e.repo_name@),
        EventKind::Fork => Some(" - Forked "@ + e.repo_name@),
        EventKind::IssuesAction => match e.payload.action {
            Some(a) => Some(" - "@ + spec_capitalized(a@) + " an issue in "@ + e.repo_name@),
            None => None,
        },
        EventKind::Unknown => None,
    }
}

/// Renders one event as its formatted line, or `None` for an event that
/// yields no line.
pub fn format_event(e: &Event) -> (r: Option<String>)
    ensures
        r.deep_view() == spec_event_line(*e),
{
    match &e.kind {
        EventKind::PullRequestOpened => {
            let line = String::from_str(" - Opened a pull request in ").concat(
                e.repo_name.as_str(),
            );
            Some(line)
        },
        EventKind::Push => {
            match &e.payload.commit_count {
                Some(n) => {
                    let count = decimal_string(*n);
                    let line = String::from_str(" - Pushed ").concat(count.as_str()).concat(
                        " commits to ",
                    ).concat(e.repo_name.as_str()).concat(".");
                    Some(line)
                },
                None => None,
            }
        },
        EventKind::Create => {
            match &e.payload.ref_type {
                Some(rt) => {
                    let repository = String::from_str("repository");
                    let line = if *rt == repository {
                        String::from_str(" - Created a repository named ").concat(
                            e.repo_name.as_str(),
                        )
                    } else {
                        String::from_str(" - Created a ").concat(rt.as_str()).concat(
                            " in ",
                        ).concat(e.repo_name.as_str())
                    };
                    Some(line)
                },
                None => None,
            }
        },
        EventKind::Watch => {
            let line = String::from_str(" - Starred ").concat(e.repo_name.as_str());
            Some(line)
        },
        EventKind::Fork => {
            let line = String::from_str(" - Forked ").concat(e.repo_name.as_str());
            Some(line)
        },
        EventKind::IssuesAction => {
            match &e.payload.action {
                Some(a) => {
                    let capitalized = capitalize_first_letter(a.as_str());
                    let line = String::from_str(" - ").concat(capitalized.as_str()).concat(
                        " an issue in ",
                    ).concat(e.repo_name.as_str());
                    Some(line)
                },
                None => None,
            }
        },
        EventKind::Unknown => None,
    }
}

/// The lines a whole feed renders to, in feed order, with the events that
/// yield no line left out.
pub open spec fn spec_event_lines(es: Seq<Event>) -> Seq<Seq<char>>
    decreases es.len(),
{
    if es.len() == 0 {
        Seq::<Seq<char>>::empty()
    } else {
        spec_event_lines(es.drop_last()) + match spec_event_line(es.last()) {
            Some(l) => seq![l],
            None => Seq::<Seq<char>>::empty(),
        }
    }
}

/// Renders a whole feed: one line per event that yields one, in feed order.
pub fn format_events(events: &Vec<Event>) -> (r: Vec<String>)
    ensures
        r.deep_view() == spec_event_lines(events@),
{
    let mut lines: Vec<String> = Vec::new();
    let mut i: usize = 0;
    while i < events.len()
        invariant
            i <= events.len(),
            lines.deep_view() == spec_event_lines(events@.take(i as int)),
        decreases events.len() - i,
    {
        match format_event(&events[i]) {
            Some(line) => {
                lines.push(line);
            },
            None => {},
        }
        proof {
            assert(events@.take(i + 1 as int).drop_last() =~= events@.take(i as int));
            assert(events@.take(i + 1 as int).last() == events@[i as int]);
            assert(lines.deep_view() =~= spec_event_lines(events@.take(i + 1 as int)));
        }
        i = i + 1;
    }
    proof {
        assert(events@.take(events@.len() as int) =~= events@);
    }
    lines
}

} // verus!
