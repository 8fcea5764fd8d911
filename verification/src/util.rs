//! Start-up: the table of users from its file, and the attempts to reach
//! the store.

use vstd::prelude::*;
use crate::auth::Credentials;
use crate::auth::EntryView;

verus! {

/// Where the first `c` at or after `from` and before `to` stands in `s`;
/// `to` where there is none.
pub open spec fn char_at(s: Seq<char>, c: char, from: int, to: int) -> int
    decreases to - from,
{
    if from >= to {
        to
    } else if s[from] == c {
        from
    } else {
        char_at(s, c, from + 1, to)
    }
}

/// The user and the password on one line: what stands before the first
/// space, and what stands between the first space and the second. A line
/// without a space holds neither.
pub open spec fn entry_of(s: Seq<char>, from: int, to: int) -> Option<EntryView> {
    let user_end = char_at(s, ' ', from, to);
    if user_end >= to {
        None
    } else {
        Some((s.subrange(from, user_end), s.subrange(user_end + 1, char_at(s, ' ', user_end + 1, to))))
    }
}

/// Where the line that starts at `from` and is ended at `end` stops: before
/// the carriage return, where one stands directly before the line feed.
pub open spec fn line_stop(s: Seq<char>, from: int, end: int) -> int {
    if end < s.len() && from < end && s[end - 1] == '\r' {
        end - 1
    } else {
        end
    }
}

/// `rest` after `entry`, where there is a rest.
pub open spec fn after_entry(entry: EntryView, rest: Option<Seq<EntryView>>) -> Option<Seq<EntryView>> {
    match rest {
        Some(entries) => Some(seq![entry] + entries),
        None => None,
    }
}

/// The entries of the lines of `s` from `from` on, `None` where one of the
/// lines holds no entry. Lines end with a line feed or a carriage return
/// and a line feed; the last line need not end.
pub open spec fn entries_from(s: Seq<char>, from: int) -> Option<Seq<EntryView>>
    decreases s.len() + 1 - from,
    via entries_from_terminates
{
    if from < 0 || from >= s.len() {
        Some(Seq::empty())
    } else {
        let end = char_at(s, '\n', from, s.len() as int);
        match entry_of(s, from, line_stop(s, from, end)) {
            Some(entry) => after_entry(entry, entries_from(s, end + 1)),
            None => None,
        }
    }
}

/// A search never ends before it starts, nor after its bound.
proof fn lemma_char_at_bounds(s: Seq<char>, c: char, from: int, to: int)
    requires
        from <= to,
    ensures
        from <= char_at(s, c, from, to) <= to,
    decreases to - from,
{
    if from < to && s[from] != c {
        lemma_char_at_bounds(s, c, from + 1, to);
    }
}

#[via_fn]
proof fn entries_from_terminates(s: Seq<char>, from: int) {
    if 0 <= from < s.len() {
        lemma_char_at_bounds(s, '\n', from, s.len() as int);
    }
}

/// `rest` after `entries`, where there is a rest.
pub open spec fn after_entries(entries: Seq<EntryView>, rest: Option<Seq<EntryView>>) -> Option<
    Seq<EntryView>,
> {
    match rest {
        Some(more) => Some(entries + more),
        None => None,
    }
}

/// Finds the first `c` at or after `from` and before `to`.
fn find_char(text: &str, c: char, from: usize, to: usize) -> (r: usize)
    requires
        from <= to <= text@.len(),
    ensures
        r == char_at(text@, c, from as int, to as int),
        from <= r <= to,
{
    let mut i: usize = from;
    while i < to
        invariant
            from <= i <= to <= text@.len(),
            char_at(text@, c, from as int, to as int) == char_at(text@, c, i as int, to as int),
        decreases to - i,
    {
        if text.get_char(i) == c {
            return i;
        }
        i += 1;
    }
    i
}

/// The views of the table of users, where there is one.
pub open spec fn table_view(table: Option<Credentials>) -> Option<Seq<EntryView>> {
    match table {
        Some(t) => Some(t@),
        None => None,
    }
}

/// Reads the table of users from the content of its file: one user per
/// line, then a space, then the password. `None` where a line has no space.
pub fn load_authentification_data(content: &str) -> (r: Option<Credentials>)
    ensures
        table_view(r) == entries_from(content@, 0),
{
    let n: usize = content.unicode_len();
    let mut table = Credentials::new();
    let mut from: usize = 0;
    while from < n
        invariant
            n == content@.len(),
            from <= n,
            entries_from(content@, 0) == after_entries(table@, entries_from(content@, from as int)),
        decreases n - from,
    {
        let end = find_char(content, '\n', from, n);
        let stop: usize = if end < n && from < end && content.get_char(end - 1) == '\r' {
            end - 1
        } else {
            end
        };
        let user_end = find_char(content, ' ', from, stop);
        if user_end >= stop {
            return None;
        }
        let password_end = find_char(content, ' ', user_end + 1, stop);
        let user = String::from_str(content.substring_char(from, user_end));
        let password = String::from_str(content.substring_char(user_end + 1, password_end));
        let ghost before = table@;
        let ghost entry = (user@, password@);
        table.insert(user, password);
        proof {
            let rest = entries_from(content@, end + 1);
            assert(entries_from(content@, from as int) == after_entry(entry, rest));
            if rest is Some {
                assert(before + (seq![entry] + rest->0) =~= before.push(entry) + rest->0);
            }
        }
        from = if end < n {
            end + 1
        } else {
            n
        };
    }
    proof {
        assert(table@ + Seq::<EntryView>::empty() =~= table@);
    }
    Some(table)
}

/// How often the service tries to reach the store before it gives up.
pub const MAX_ATTEMPTS: u32 = 10;

/// What to do after an attempt to reach the store.
#[derive(Debug, Clone, Copy, PartialEq, Eq, Structural)]
pub enum ConnectStep {
    /// The store is reached.
    Connected,
    /// Wait a second and try again.
    Retry,
    /// Report the failure.
    GiveUp,
}

/// Decides what follows the attempt with the number `attempts`, counted
/// from one: a failed attempt is repeated until the last one has failed.
pub fn after_attempt(attempts: u32, connected: bool) -> (r: ConnectStep)
    ensures
        r == if connected {
            ConnectStep::Connected
        } else if attempts < MAX_ATTEMPTS {
            ConnectStep::Retry
        } else {
            ConnectStep::GiveUp
        },
{
    if connected {
        ConnectStep::Connected
    } else if attempts < MAX_ATTEMPTS {
        ConnectStep::Retry
    } else {
        ConnectStep::GiveUp
    }
}

} // verus!
