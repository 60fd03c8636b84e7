//! Counters of what the gateway has done so far.

use crate::text::{decimal, push_decimal};
use vstd::prelude::*;
use vstd::string::StringExecFns;

verus! {

/// The successor of a counter, which starts again at zero after the
/// largest value.
pub open spec fn wrapping_next(n: usize) -> usize {
    if n == usize::MAX {
        0
    } else {
        (n + 1) as usize
    }
}

/// The predecessor of a counter, which goes to the largest value below zero.
pub open spec fn wrapping_prev(n: usize) -> usize {
    if n == 0 {
        usize::MAX
    } else {
        (n - 1) as usize
    }
}

/// The counters as a mathematical value.
pub struct Counters {
    pub active_connection_count: usize,
    pub total_connection_count: usize,
    pub mapping_query_count: usize,
    pub events_received: usize,
    pub messages_sent: usize,
}

impl Counters {
    /// Every counter at zero.
    pub open spec fn zero() -> Counters {
        Counters {
            active_connection_count: 0,
            total_connection_count: 0,
            mapping_query_count: 0,
            events_received: 0,
            messages_sent: 0,
        }
    }
}

/// The running counters of one gateway.
#[derive(Debug)]
pub struct Metrics {
    active_connection_count: usize,
    total_connection_count: usize,
    mapping_query_count: usize,
    events_received: usize,
    messages_sent: usize,
}

impl View for Metrics {
    type V = Counters;

    closed spec fn view(&self) -> Counters {
        Counters {
            active_connection_count: self.active_connection_count,
            total_connection_count: self.total_connection_count,
            mapping_query_count: self.mapping_query_count,
            events_received: self.events_received,
            messages_sent: self.messages_sent,
        }
    }
}

impl Metrics {
    pub fn new() -> (metrics: Metrics)
        ensures
            metrics@ == Counters::zero(),
    {
        Metrics {
            active_connection_count: 0,
            total_connection_count: 0,
            mapping_query_count: 0,
            events_received: 0,
            messages_sent: 0,
        }
    }

    #[inline]
    pub fn active_connection_count(&self) -> (count: usize)
        ensures
            count == self@.active_connection_count,
    {
        self.active_connection_count
    }

    #[inline]
    pub fn total_connection_count(&self) -> (count: usize)
        ensures
            count == self@.total_connection_count,
    {
        self.total_connection_count
    }

    #[inline]
    pub fn mapping_query_count(&self) -> (count: usize)
        ensures
            count == self@.mapping_query_count,
    {
        self.mapping_query_count
    }

    #[inline]
    pub fn events_received(&self) -> (count: usize)
        ensures
            count == self@.events_received,
    {
        self.events_received
    }

    #[inline]
    pub fn messages_sent(&self) -> (count: usize)
        ensures
            count == self@.messages_sent,
    {
        self.messages_sent
    }

    /// Counts a connection that was opened.
    #[inline]
    pub fn add_connection(&mut self)
        ensures
            final(self)@ == (Counters {
                total_connection_count: wrapping_next(old(self)@.total_connection_count),
                active_connection_count: wrapping_next(old(self)@.active_connection_count),
                ..old(self)@
            }),
    {
        self.total_connection_count = self.total_connection_count.wrapping_add(1);
        self.active_connection_count = self.active_connection_count.wrapping_add(1);
    }

    /// Counts a connection that was closed.
    #[inline]
    pub fn remove_connection(&mut self)
        ensures
            final(self)@ == (Counters {
                active_connection_count: wrapping_prev(old(self)@.active_connection_count),
                ..old(self)@
            }),
    {
        self.active_connection_count = self.active_connection_count.wrapping_sub(1);
    }

    /// Counts a query for a storage mapping.
    #[inline]
    pub fn add_mapping_query(&mut self)
        ensures
            final(self)@ == (Counters {
                mapping_query_count: wrapping_next(old(self)@.mapping_query_count),
                ..old(self)@
            }),
    {
        self.mapping_query_count = self.mapping_query_count.wrapping_add(1);
    }

    /// Counts an event that was received.
    #[inline]
    pub fn add_event(&mut self)
        ensures
            final(self)@ == (Counters {
                events_received: wrapping_next(old(self)@.events_received),
                ..old(self)@
            }),
    {
        self.events_received = self.events_received.wrapping_add(1);
    }

    /// Counts a message that was sent to a client.
    #[inline]
    pub fn add_message(&mut self)
        ensures
            final(self)@ == (Counters {
                messages_sent: wrapping_next(old(self)@.messages_sent),
                ..old(self)@
            }),
    {
        self.messages_sent = self.messages_sent.wrapping_add(1);
    }
}

/// A snapshot of the counters, together with the number of users that have
/// a connection open.
#[derive(Debug)]
pub struct SerializeMetrics {
    pub active_connection_count: usize,
    pub active_user_count: usize,
    pub total_connection_count: usize,
    pub mapping_query_count: usize,
    pub events_received: usize,
    pub messages_sent: usize,
}

/// One line of the report: the name of a counter, a space, its value in
/// decimal, and a line feed.
pub open spec fn report_line(name: Seq<char>, value: usize) -> Seq<char> {
    name + " "@ + decimal(value as nat) + "\n"@
}

impl SerializeMetrics {
    #[inline]
    pub fn new(metrics: &Metrics, active_user_count: usize) -> (snapshot: SerializeMetrics)
        ensures
            snapshot.active_connection_count == metrics@.active_connection_count,
            snapshot.active_user_count == active_user_count,
            snapshot.total_connection_count == metrics@.total_connection_count,
            snapshot.mapping_query_count == metrics@.mapping_query_count,
            snapshot.events_received == metrics@.events_received,
            snapshot.messages_sent == metrics@.messages_sent,
    {
        SerializeMetrics {
            active_connection_count: metrics.active_connection_count(),
            active_user_count,
            total_connection_count: metrics.total_connection_count(),
            mapping_query_count: metrics.mapping_query_count(),
            events_received: metrics.events_received(),
            messages_sent: metrics.messages_sent(),
        }
    }

    /// The text of the report, one line for each counter.
    pub open spec fn report(&self) -> Seq<char> {
        report_line("active_connection_count"@, self.active_connection_count) + report_line(
            "active_user_count"@,
            self.active_user_count,
        ) + report_line("total_connection_count"@, self.total_connection_count) + report_line(
            "mapping_query_count"@,
            self.mapping_query_count,
        ) + report_line("events_received"@, self.events_received) + report_line(
            "messages_sent"@,
            self.messages_sent,
        )
    }

    /// Renders the report that the metrics endpoint serves.
    pub fn render(&self) -> (text: String)
        ensures
            text@ == self.report(),
    {
        let mut out = String::new();
        push_line(&mut out, "active_connection_count", self.active_connection_count);
        push_line(&mut out, "active_user_count", self.active_user_count);
        push_line(&mut out, "total_connection_count", self.total_connection_count);
        push_line(&mut out, "mapping_query_count", self.mapping_query_count);
        push_line(&mut out, "events_received", self.events_received);
        push_line(&mut out, "messages_sent", self.messages_sent);
        assert(out@ =~= self.report());
        out
    }
}

fn push_line(out: &mut String, name: &str, value: usize)
    ensures
        final(out)@ == old(out)@ + report_line(name@, value),
{
    out.append(name);
    out.append(" ");
    push_decimal(out, value as u64);
    out.append("\n");
    assert(out@ =~= old(out)@ + report_line(name@, value));
}

} // verus!
