//! The collector: owner of the recording session. It serializes event
//! records into a streaming JSON array with correct comma placement and
//! document framing.
//!
//! The collector does not touch the file system itself: each operation
//! returns the exact text that the caller must append to the session's
//! output file, and the contracts pin that text down. A ghost sequence of
//! the events written so far models the stream's contents.

use vstd::prelude::*;
use crate::event::{profile_json, ProfileResult};

verus! {

/// One active recording, bound to exactly one output file.
#[derive(Debug)]
pub struct InstrumentationSession {
    pub name: String,
}

/// The fixed document preamble: written once when a session begins.
pub open spec fn header_text() -> Seq<char> {
    "{\"otherData\": {}, \"traceEvents\":["@
}

/// The fixed closing token: written once when the session ends. Only after
/// it is written is the file a single syntactically valid JSON document.
pub open spec fn footer_text() -> Seq<char> {
    "]}"@
}

/// The body of the trace array: the serialized events joined by single
/// commas, with no comma before the first and none after the last.
pub open spec fn joined(evs: Seq<Seq<char>>) -> Seq<char>
    decreases evs.len(),
{
    if evs.len() == 0 {
        Seq::empty()
    } else if evs.len() == 1 {
        evs[0]
    } else {
        joined(evs.drop_last()) + seq![','] + evs.last()
    }
}

/// The chunk appended to the stream for one event, given how many events
/// came before it: a separating comma for every event but the first.
pub open spec fn event_chunk(prior: nat, ev: Seq<char>) -> Seq<char> {
    if prior == 0 {
        ev
    } else {
        seq![','] + ev
    }
}

/// The concatenation of the chunks a session hands its caller for the
/// events `evs`, one `event_chunk` after the other, in order.
pub open spec fn chunks(evs: Seq<Seq<char>>) -> Seq<char>
    decreases evs.len(),
{
    if evs.len() == 0 {
        Seq::empty()
    } else {
        chunks(evs.drop_last()) + event_chunk((evs.len() - 1) as nat, evs.last())
    }
}

/// Law: appending the returned chunks one after the other reproduces the
/// array body exactly — the stream a caller's file accumulates is the
/// comma-joined sequence of its events.
pub proof fn lemma_chunks_join(evs: Seq<Seq<char>>)
    ensures
        chunks(evs) == joined(evs),
    decreases evs.len(),
{
    if evs.len() == 0 {
        assert(chunks(evs) =~= joined(evs));
    } else {
        lemma_chunks_join(evs.drop_last());
        assert(chunks(evs) =~= joined(evs));
    }
}

/// The complete document produced by a session that wrote exactly `evs`.
pub open spec fn document(evs: Seq<Seq<char>>) -> Seq<char> {
    header_text() + joined(evs) + footer_text()
}

/// Law: within a session's stream, the first event follows the preamble
/// with no separator, and each later event is preceded by exactly one
/// comma. Stated over the stream built from the first `n + 1` events: it
/// is the stream of the first `n` events, then the separator, then the
/// event itself.
pub proof fn lemma_comma_placement(evs: Seq<Seq<char>>, n: int)
    requires
        0 <= n < evs.len(),
    ensures
        joined(evs.take(n + 1)) == joined(evs.take(n)) + event_chunk(n as nat, evs[n]),
{
    let front = evs.take(n + 1);
    assert(front.drop_last() =~= evs.take(n));
    if n == 0 {
        assert(joined(evs.take(0)) =~= Seq::<char>::empty());
        assert(joined(front) =~= joined(evs.take(n)) + event_chunk(n as nat, evs[n]));
    }
}

/// The collector. At most one session is active at a time; while one is,
/// the ghost `written` sequence holds the serialized events appended to its
/// file so far, and `profile_count` counts them.
pub struct Instrumentor {
    current_session: Option<InstrumentationSession>,
    profile_count: usize,
    written: Ghost<Seq<Seq<char>>>,
}

impl Instrumentor {
    /// Whether a session is active.
    pub closed spec fn active(self) -> bool {
        self.current_session is Some
    }

    /// The active session's name (arbitrary while no session is active).
    pub closed spec fn session_name(self) -> Seq<char> {
        self.current_session->Some_0.name@
    }

    /// How many events the active session has written.
    pub closed spec fn count(self) -> nat {
        self.profile_count as nat
    }

    /// The serialized events the active session has written, in order.
    pub closed spec fn events(self) -> Seq<Seq<char>> {
        self.written@
    }

    /// The collector's invariant: the counter matches the number of events
    /// written, and both are reset while no session is active.
    pub open spec fn wf(self) -> bool {
        &&& self.count() == self.events().len()
        &&& !self.active() ==> self.count() == 0
    }

    /// A fresh collector: no session, nothing written.
    pub fn new() -> (r: Self)
        ensures
            r.wf(),
            !r.active(),
            r.events() == Seq::<Seq<char>>::empty(),
    {
        Instrumentor {
            current_session: None,
            profile_count: 0,
            written: Ghost(Seq::empty()),
        }
    }

    /// Whether a session is currently active. A caller that opens the
    /// output file itself must check this first, so that a second begin
    /// does not truncate a new file while the old session still records.
    pub fn session_active(&self) -> (r: bool)
        ensures
            r == self.active(),
    {
        self.current_session.is_some()
    }

    /// How many events the active session has written so far.
    pub fn event_count(&self) -> (r: usize)
        ensures
            r as nat == self.count(),
    {
        self.profile_count
    }

    /// Begins a recording session named `name`. `output_opened` says
    /// whether the caller could create the session's output file.
    ///
    /// A begin while a session is active is a silent no-op: the original
    /// session keeps recording and nothing is written. A begin whose file
    /// could not be opened is swallowed too: the collector stays without a
    /// session, and the failure is never surfaced. Otherwise the session
    /// becomes active and the returned text — the document preamble — must
    /// be appended to the freshly opened file.
    pub fn begin_session(&mut self, name: &str, output_opened: bool) -> (r: Option<String>)
        requires
            old(self).wf(),
        ensures
            final(self).wf(),
            old(self).active() ==> *final(self) == *old(self) && r is None,
            !old(self).active() && !output_opened ==> *final(self) == *old(self) && r is None,
            !old(self).active() && output_opened ==> {
                &&& final(self).active()
                &&& final(self).session_name() == name@
                &&& final(self).events() == Seq::<Seq<char>>::empty()
                &&& r is Some
                &&& r->Some_0@ == header_text()
            },
    {
        if self.current_session.is_some() {
            return None;
        }
        if !output_opened {
            return None;
        }
        self.current_session = Some(InstrumentationSession { name: name.to_owned() });
        self.profile_count = 0;
        self.written = Ghost(Seq::empty());
        Some(String::from_str("{\"otherData\": {}, \"traceEvents\":["))
    }

    /// Writes one event record. While no session is active the record is
    /// silently dropped and nothing changes. Otherwise the returned text —
    /// a separating comma for every event but the session's first, then the
    /// record as one JSON object — must be appended to the session's file,
    /// and the event counter advances.
    pub fn write_profile(&mut self, result: &ProfileResult) -> (r: Option<String>)
        requires
            old(self).wf(),
            old(self).active() ==> old(self).count() < usize::MAX,
        ensures
            final(self).wf(),
            !old(self).active() ==> *final(self) == *old(self) && r is None,
            old(self).active() ==> {
                &&& final(self).active()
                &&& final(self).session_name() == old(self).session_name()
                &&& final(self).events() == old(self).events().push(profile_json(*result))
                &&& final(self).count() == old(self).count() + 1
                &&& r is Some
                &&& r->Some_0@ == event_chunk(old(self).count(), profile_json(*result))
                &&& joined(final(self).events()) == joined(old(self).events()) + r->Some_0@
            },
    {
        if self.current_session.is_none() {
            return None;
        }
        let json = crate::event::format_profile(result);
        let chunk = if self.profile_count > 0 {
            let mut c = String::from_str(",");
            c.append(json.as_str());
            c
        } else {
            json
        };
        self.profile_count = self.profile_count + 1;
        proof {
            reveal_strlit(",");
            let evs = self.written@;
            let ev = profile_json(*result);
            assert(evs.push(ev).drop_last() =~= evs);
            assert(chunk@ =~= event_chunk(old(self).count(), ev));
            assert(joined(evs.push(ev)) =~= joined(evs) + chunk@);
        }
        self.written = Ghost(self.written@.push(profile_json(*result)));
        Some(chunk)
    }

    /// Ends the active session. With no active session this is a no-op:
    /// nothing changes and nothing is written. Otherwise the returned text
    /// — the closing token — must be appended to the session's file, which
    /// thereby becomes the complete document of the session's events, and
    /// the collector resets to "no session".
    pub fn end_session(&mut self) -> (r: Option<String>)
        requires
            old(self).wf(),
        ensures
            final(self).wf(),
            !old(self).active() ==> *final(self) == *old(self) && r is None,
            old(self).active() ==> {
                &&& !final(self).active()
                &&& final(self).events() == Seq::<Seq<char>>::empty()
                &&& r is Some
                &&& r->Some_0@ == footer_text()
                &&& header_text() + joined(old(self).events()) + r->Some_0@ == document(
                    old(self).events(),
                )
            },
    {
        if self.current_session.is_none() {
            return None;
        }
        self.current_session = None;
        self.profile_count = 0;
        self.written = Ghost(Seq::empty());
        Some(String::from_str("]}"))
    }
}

} // verus!
