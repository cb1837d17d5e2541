//! The engine's picture of a commit, as handed over by the backend.

use crate::git::time::CommitDate;
use crate::strutil::{spec_trim, trim_str};
use vstd::prelude::*;

verus! {

/// A commit of the history: identity, author and message, split into a
/// summary line and the remaining body lines.
#[derive(Debug)]
pub struct Commit {
    pub id: String,
    pub author: String,
    pub email: String,
    pub message_summary: String,
    pub message_body: Vec<String>,
    pub time: CommitDate,
}

/// Where an over-long summary line is cut: at the last space between
/// character 55 and character 70, or at 55 when that stretch has no space.
pub open spec fn split_scan(s: Seq<char>, i: int) -> int
    decreases i - 55,
{
    if i <= 55 || s[i] == ' ' {
        i
    } else {
        split_scan(s, i - 1)
    }
}

pub open spec fn spec_split_index(s: Seq<char>) -> int {
    split_scan(s, 70)
}

/// The character index an over-long summary is split at.
pub fn get_split_index(message_summary: &str) -> (i: usize)
    requires
        message_summary@.len() > 70,
    ensures
        i as int == spec_split_index(message_summary@),
        55 <= i <= 70,
{
    let ghost view = message_summary@;
    let mut i: usize = 70;
    let mut c = message_summary.get_char(70);
    while i > 55 && c != ' '
        invariant
            55 <= i <= 70,
            view.len() > 70,
            view == message_summary@,
            c == view[i as int],
            split_scan(view, 70) == split_scan(view, i as int),
        decreases i,
    {
        i = i - 1;
        c = message_summary.get_char(i);
    }
    i
}

/// Two commits that carry the same data, field for field.
pub open spec fn commit_like(a: Commit, b: Commit) -> bool {
    &&& a.id@ == b.id@
    &&& a.author@ == b.author@
    &&& a.email@ == b.email@
    &&& a.message_summary@ == b.message_summary@
    &&& a.message_body@ == b.message_body@
    &&& a.time == b.time
}

/// Two commit lists that carry the same data, entry for entry.
pub open spec fn commits_like(a: Seq<Commit>, b: Seq<Commit>) -> bool {
    a.len() == b.len() && forall|i: int| 0 <= i < a.len() ==> commit_like(#[trigger] a[i], b[i])
}

/// A fresh copy of each string in the list.
pub fn clone_strings(v: &Vec<String>) -> (r: Vec<String>)
    ensures
        r@ == v@,
{
    let mut r: Vec<String> = Vec::new();
    let mut i: usize = 0;
    while i < v.len()
        invariant
            0 <= i <= v@.len(),
            r@ == v@.take(i as int),
        decreases v@.len() - i,
    {
        r.push(v[i].clone());
        proof {
            assert(v@.take(i + 1 as int) =~= v@.take(i as int).push(v@[i as int]));
        }
        i = i + 1;
    }
    proof {
        assert(v@.take(v@.len() as int) =~= v@);
    }
    r
}

impl Clone for Commit {
    /// A copy carrying the same data.
    fn clone(&self) -> (res: Self)
        ensures
            commit_like(res, *self),
    {
        Commit {
            id: self.id.clone(),
            author: self.author.clone(),
            email: self.email.clone(),
            message_summary: self.message_summary.clone(),
            message_body: clone_strings(&self.message_body),
            time: self.time,
        }
    }
}

impl Commit {
    /// The empty commit a detail popup starts with.
    pub fn new() -> (c: Self)
        ensures
            c.id@.len() == 0,
            c.author@.len() == 0,
            c.email@.len() == 0,
            c.message_summary@.len() == 0,
            c.message_body@.len() == 0,
            c.time.seconds == 0,
    {
        Self {
            id: String::new(),
            author: String::new(),
            email: String::new(),
            message_summary: String::new(),
            message_body: Vec::new(),
            time: CommitDate::new(0, 0),
        }
    }

    /// Assemble a commit from the plain values the backend read.  A summary
    /// of more than 70 characters is cut at the split index; the cut-off
    /// part, trimmed, becomes the first body line.
    pub fn from_parts(
        id: String,
        author: String,
        email: String,
        message_summary: String,
        message_body: Vec<String>,
        time: CommitDate,
    ) -> (c: Self)
        ensures
            c.id == id,
            c.author == author,
            c.email == email,
            c.time == time,
            message_summary@.len() <= 70 ==> {
                &&& c.message_summary == message_summary
                &&& c.message_body == message_body
            },
            message_summary@.len() > 70 ==> {
                let split = spec_split_index(message_summary@);
                &&& c.message_summary@ == message_summary@.subrange(0, split)
                &&& c.message_body@.len() == message_body@.len() + 1
                &&& c.message_body@[0]@ == spec_trim(
                    message_summary@.subrange(split, message_summary@.len() as int),
                )
                &&& (forall|i: int|
                    1 <= i < c.message_body@.len() ==> c.message_body@[i] == message_body@[i - 1])
            },
    {
        let mut message_summary = message_summary;
        let mut message_body = message_body;
        let len = message_summary.as_str().unicode_len();
        if len > 70 {
            let index = get_split_index(message_summary.as_str());
            let tail = message_summary.as_str().substring_char(index, len);
            let body = trim_str(tail);
            let head = message_summary.as_str().substring_char(0, index).to_owned();
            message_summary = head;
            message_body.insert(0, body);
        }
        Self { id, author, email, message_summary, message_body, time }
    }

    pub fn id(&self) -> (r: &String)
        ensures
            r == &self.id,
    {
        &self.id
    }

    pub fn author(&self) -> (r: &String)
        ensures
            r == &self.author,
    {
        &self.author
    }

    pub fn email(&self) -> (r: &String)
        ensures
            r == &self.email,
    {
        &self.email
    }

    pub fn message_summary(&self) -> (r: &String)
        ensures
            r == &self.message_summary,
    {
        &self.message_summary
    }

    pub fn message_body(&self) -> (r: &Vec<String>)
        ensures
            r == &self.message_body,
    {
        &self.message_body
    }

    /// The first eight characters of the commit id.
    pub fn shorthand_id(&self) -> (r: String)
        requires
            self.id@.len() >= 8,
        ensures
            r@ == self.id@.subrange(0, 8),
    {
        self.id.as_str().substring_char(0, 8).to_owned()
    }

    pub fn time(&self) -> (r: &CommitDate)
        ensures
            r == &self.time,
    {
        &self.time
    }
}

} // verus!
