//! The Note record: a single todo entry with an integer id, free-form title
//! and description, a one-way completion flag, and the local-time calendar
//! timestamp captured when it was constructed.

use vstd::prelude::*;
use vstd::string::StringExecFns;
use crate::digits::{dec_int, dec_pad2, dec_year};
use crate::digits::{render_i32, render_pad2, render_year};

verus! {

/// A local-time calendar timestamp held as plain fields.
#[derive(Clone, Copy, Debug)]
pub struct Timestamp {
    pub year: i32,
    pub month: u32,
    pub day: u32,
    pub hour: u32,
    pub minute: u32,
    pub second: u32,
}

impl Timestamp {
    /// The field ranges of a real calendar time of day.
    pub open spec fn wf(self) -> bool {
        &&& 1 <= self.month <= 12
        &&& 1 <= self.day <= 31
        &&& self.hour < 24
        &&& self.minute < 60
        &&& self.second < 60
    }

    /// Runtime check of the same field ranges.
    pub fn is_valid(&self) -> (r: bool)
        ensures
            r == self.wf(),
    {
        1 <= self.month && self.month <= 12 && 1 <= self.day && self.day <= 31
            && self.hour < 24 && self.minute < 60 && self.second < 60
    }
}

/// The hour on the twelve-hour clock for an hour of the day.
pub open spec fn spec_hour12(h: nat) -> nat {
    if h % 12 == 0 {
        12
    } else {
        h % 12
    }
}

/// The meridiem label for an hour of the day.
pub open spec fn spec_meridiem(h: nat) -> Seq<char> {
    if h < 12 {
        "AM"@
    } else {
        "PM"@
    }
}

/// The timestamp as it appears in a summary:
/// `day/month/year @ hour:minute:second AM|PM`, every field zero-padded
/// to two places but the year, which takes four.
pub open spec fn spec_render_time(t: Timestamp) -> Seq<char> {
    dec_pad2(t.day as nat) + seq!['/'] + dec_pad2(t.month as nat) + seq!['/']
        + dec_year(t.year as int) + " @ "@ + dec_pad2(spec_hour12(t.hour as nat)) + seq![':']
        + dec_pad2(t.minute as nat) + seq![':'] + dec_pad2(t.second as nat) + seq![' ']
        + spec_meridiem(t.hour as nat)
}

/// Renders a timestamp for a summary.
pub fn render_time(t: &Timestamp) -> (r: String)
    requires
        t.wf(),
    ensures
        r@ == spec_render_time(*t),
{
    let h12: u32 = if t.hour % 12 == 0 {
        12
    } else {
        t.hour % 12
    };
    let mut s = render_pad2(t.day);
    s.append("/");
    let month = render_pad2(t.month);
    s.append(month.as_str());
    s.append("/");
    let year = render_year(t.year);
    s.append(year.as_str());
    s.append(" @ ");
    let hour = render_pad2(h12);
    s.append(hour.as_str());
    s.append(":");
    let minute = render_pad2(t.minute);
    s.append(minute.as_str());
    s.append(":");
    let second = render_pad2(t.second);
    s.append(second.as_str());
    s.append(" ");
    if t.hour < 12 {
        s.append("AM");
    } else {
        s.append("PM");
    }
    proof {
        reveal_strlit("/");
        reveal_strlit(" @ ");
        reveal_strlit(":");
        reveal_strlit(" ");
        assert(s@ =~= spec_render_time(*t));
    }
    s
}

/// One persisted todo entry.
#[derive(Debug)]
pub struct Note {
    pub id: i32,
    pub title: String,
    pub description: String,
    pub completed: bool,
    pub created_on: Timestamp,
}

/// The mathematical content of a Note.
pub struct NoteView {
    pub id: int,
    pub title: Seq<char>,
    pub description: Seq<char>,
    pub completed: bool,
    pub created_on: Timestamp,
}

impl View for Note {
    type V = NoteView;

    open spec fn view(&self) -> NoteView {
        NoteView {
            id: self.id as int,
            title: self.title@,
            description: self.description@,
            completed: self.completed,
            created_on: self.created_on,
        }
    }
}

impl Clone for Note {
    fn clone(&self) -> (r: Self)
        ensures
            r@ == self@,
    {
        Note {
            id: self.id,
            title: self.title.clone(),
            description: self.description.clone(),
            completed: self.completed,
            created_on: self.created_on,
        }
    }
}

/// The status label of a summary.
pub open spec fn spec_status(completed: bool) -> Seq<char> {
    if completed {
        "Completed"@
    } else {
        "Pending"@
    }
}

/// The full multi-line summary of a note.
pub open spec fn spec_summarize(v: NoteView) -> Seq<char> {
    "ID: "@ + dec_int(v.id) + "\nTitle: "@ + v.title + "\nDescription: "@ + v.description
        + "\n[Status: "@ + spec_status(v.completed) + "]\n(Created on: "@
        + spec_render_time(v.created_on) + seq![')']
}

/// Relies on chrono's `Local::now` and the `Datelike`/`Timelike` accessors:
/// `month` is 1-12, `day` is 1-31, `hour` is 0-23, `minute` and `second`
/// are 0-59. Which moment comes back depends on the clock, so nothing more
/// is promised.
#[verifier::external_body]
fn now_timestamp() -> (r: Timestamp)
    ensures
        r.wf(),
{
    let t = chrono::Local::now();
    Timestamp {
        year: chrono::Datelike::year(&t),
        month: chrono::Datelike::month(&t),
        day: chrono::Datelike::day(&t),
        hour: chrono::Timelike::hour(&t),
        minute: chrono::Timelike::minute(&t),
        second: chrono::Timelike::second(&t),
    }
}

impl Note {
    /// A fresh note: empty title and description, not completed, id zero,
    /// stamped with the local time of construction.
    pub fn new() -> (r: Self)
        ensures
            r@.id == 0,
            r@.title == Seq::<char>::empty(),
            r@.description == Seq::<char>::empty(),
            r@.completed == false,
            r@.created_on.wf(),
    {
        Note {
            id: 0,
            title: String::new(),
            description: String::new(),
            completed: false,
            created_on: now_timestamp(),
        }
    }

    /// The same note with the given id.
    pub fn with_id(self, id: i32) -> (r: Self)
        ensures
            r@ == (NoteView { id: id as int, ..self@ }),
    {
        Note {
            id,
            title: self.title,
            description: self.description,
            completed: self.completed,
            created_on: self.created_on,
        }
    }

    /// The same note with the given title.
    pub fn with_title(self, title: String) -> (r: Self)
        ensures
            r@ == (NoteView { title: title@, ..self@ }),
    {
        Note {
            id: self.id,
            title,
            description: self.description,
            completed: self.completed,
            created_on: self.created_on,
        }
    }

    /// The same note with the given description.
    pub fn with_description(self, description: String) -> (r: Self)
        ensures
            r@ == (NoteView { description: description@, ..self@ }),
    {
        Note {
            id: self.id,
            title: self.title,
            description,
            completed: self.completed,
            created_on: self.created_on,
        }
    }

    /// Finishes the builder chain; never fails.
    pub fn create(self) -> (r: Result<Self, ()>)
        ensures
            r is Ok,
            r matches Ok(n) && n@ == self@,
    {
        Ok(
            Note {
                id: self.id,
                title: self.title,
                description: self.description,
                completed: self.completed,
                created_on: self.created_on,
            },
        )
    }

    /// The human-readable rendering of the note: id, title, description,
    /// status line, and creation time, one per line. A pure function of the
    /// note's fields.
    pub fn summarize(&self) -> (r: String)
        requires
            self@.created_on.wf(),
        ensures
            r@ == spec_summarize(self@),
    {
        let mut s = "ID: ".to_owned();
        let id = render_i32(self.id);
        s.append(id.as_str());
        s.append("\nTitle: ");
        s.append(self.title.as_str());
        s.append("\nDescription: ");
        s.append(self.description.as_str());
        s.append("\n[Status: ");
        if self.completed {
            s.append("Completed");
        } else {
            s.append("Pending");
        }
        s.append("]\n(Created on: ");
        let time = render_time(&self.created_on);
        s.append(time.as_str());
        s.append(")");
        proof {
            reveal_strlit("ID: ");
            reveal_strlit("\nTitle: ");
            reveal_strlit("\nDescription: ");
            reveal_strlit("\n[Status: ");
            reveal_strlit("Completed");
            reveal_strlit("Pending");
            reveal_strlit("]\n(Created on: ");
            reveal_strlit(")");
            assert(s@ =~= spec_summarize(self@));
        }
        s
    }
}

} // verus!
