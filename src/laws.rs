use vstd::prelude::*;
use vstd::utf8::*;

use crate::address::Address;
use crate::coordinator::{log_entry, next, tag_line, ActionView, CoordinatorView, EventView};
use crate::server::ServerView;

verus! {

/// The state after a sequence of events, taken in order.
pub open spec fn run(s: CoordinatorView, es: Seq<EventView>) -> CoordinatorView
    decreases es.len(),
{
    if es.len() == 0 {
        s
    } else {
        next(run(s, es.drop_last()), es.last()).0
    }
}

/// The actions asked for along a sequence of events, one per event.
pub open spec fn run_actions(s: CoordinatorView, es: Seq<EventView>) -> Seq<ActionView>
    decreases es.len(),
{
    if es.len() == 0 {
        Seq::empty()
    } else {
        run_actions(s, es.drop_last()).push(next(run(s, es.drop_last()), es.last()).1)
    }
}

/// A registration command for each record, in order.
pub open spec fn registrations(rs: Seq<ServerView>) -> Seq<EventView> {
    rs.map_values(|r: ServerView| EventView::Register(r))
}

/// A notification command for each text, in order.
pub open spec fn notifications(ts: Seq<Seq<char>>) -> Seq<EventView> {
    ts.map_values(|t: Seq<char>| EventView::Notify(t))
}

/// Registering records appends them to the store in the order submitted,
/// without reordering or deduplication, and touches nothing else.
pub proof fn registrations_append_in_order(s: CoordinatorView, rs: Seq<ServerView>)
    requires
        !s.stopped,
    ensures
        run(s, registrations(rs)) == (CoordinatorView { servers: s.servers + rs, ..s }),
        run_actions(s, registrations(rs)) == Seq::new(rs.len(), |i: int| ActionView::Idle),
    decreases rs.len(),
{
    if rs.len() == 0 {
        assert(s.servers + rs =~= s.servers);
        assert(run_actions(s, registrations(rs)) =~= Seq::new(rs.len(), |i: int| ActionView::Idle));
    } else {
        let init = rs.drop_last();
        registrations_append_in_order(s, init);
        assert(registrations(rs).drop_last() =~= registrations(init));
        assert(s.servers + init.push(rs.last()) =~= (s.servers + init).push(rs.last()));
        assert(init.push(rs.last()) =~= rs);
        assert(run_actions(s, registrations(rs)) =~= Seq::new(rs.len(), |i: int| ActionView::Idle));
    }
}

/// Each notification sends the UTF-8 bytes of its text to the remote
/// endpoint, exactly once and in command order, and changes no state.
pub proof fn notifications_send_each_once(s: CoordinatorView, ts: Seq<Seq<char>>)
    requires
        !s.stopped,
    ensures
        run(s, notifications(ts)) == s,
        run_actions(s, notifications(ts)) == ts.map_values(
            |t: Seq<char>| ActionView::Send(encode_utf8(t), s.remote),
        ),
    decreases ts.len(),
{
    let sends = ts.map_values(|t: Seq<char>| ActionView::Send(encode_utf8(t), s.remote));
    if ts.len() == 0 {
        assert(run_actions(s, notifications(ts)) =~= sends);
    } else {
        let init = ts.drop_last();
        notifications_send_each_once(s, init);
        assert(notifications(ts).drop_last() =~= notifications(init));
        assert(run_actions(s, notifications(ts)) =~= sends);
    }
}

/// A datagram with a well-formed UTF-8 payload `p` from `src` keeps the log
/// as it was and appends an entry that starts with a line tagging `src` and
/// holding the text whose UTF-8 bytes are exactly `p`.
pub proof fn received_text_is_appended(s: CoordinatorView, p: Seq<u8>, src: Address)
    requires
        !s.stopped,
        valid_utf8(p),
    ensures
        ({
            let (t, a) = next(s, EventView::Received(p, src));
            let tag = tag_line(src, decode_utf8(p));
            &&& a == ActionView::Publish
            &&& t.log == s.log + log_entry(src, decode_utf8(p), s.servers)
            &&& t.log.subrange(0, s.log.len() as int) == s.log
            &&& t.log.subrange(s.log.len() as int, (s.log.len() + tag.len()) as int) == tag
            &&& encode_utf8(decode_utf8(p)) == p
            &&& t.servers == s.servers
        }),
{
    let t = next(s, EventView::Received(p, src)).0;
    let tag = tag_line(src, decode_utf8(p));
    assert(t.log.subrange(0, s.log.len() as int) =~= s.log);
    assert(t.log.subrange(s.log.len() as int, (s.log.len() + tag.len()) as int) =~= tag);
    decode_utf8_encode_utf8(p);
}

/// A datagram whose payload is not well-formed UTF-8 changes nothing.
pub proof fn malformed_datagram_changes_nothing(s: CoordinatorView, p: Seq<u8>, src: Address)
    requires
        !valid_utf8(p),
    ensures
        next(s, EventView::Received(p, src)).0 == s,
{
}

/// The log only grows: whatever the events, the old log is a prefix of the new one.
pub proof fn log_only_grows(s: CoordinatorView, es: Seq<EventView>)
    ensures
        s.log.len() <= run(s, es).log.len(),
        run(s, es).log.subrange(0, s.log.len() as int) == s.log,
    decreases es.len(),
{
    if es.len() > 0 {
        log_only_grows(s, es.drop_last());
        let m = run(s, es.drop_last());
        let t = run(s, es);
        assert(t.log.subrange(0, m.log.len() as int) =~= m.log);
        assert(t.log.subrange(0, s.log.len() as int) =~= m.log.subrange(0, s.log.len() as int));
    }
}

/// Once the command channel is closed the coordinator stops at once and,
/// whatever comes after, changes neither its store nor its log and asks for
/// no send: every later action is a stop.
pub proof fn closing_stops_for_good(s: CoordinatorView, es: Seq<EventView>)
    requires
        !s.stopped,
    ensures
        ({
            let (t, a) = next(s, EventView::Closed);
            &&& a == ActionView::Stop
            &&& t == (CoordinatorView { stopped: true, ..s })
            &&& run(t, es) == t
            &&& run_actions(t, es) == Seq::new(es.len(), |i: int| ActionView::Stop)
        }),
    decreases es.len(),
{
    let t = next(s, EventView::Closed).0;
    if es.len() == 0 {
        assert(run_actions(t, es) =~= Seq::new(es.len(), |i: int| ActionView::Stop));
    } else {
        closing_stops_for_good(s, es.drop_last());
        assert(run_actions(t, es) =~= Seq::new(es.len(), |i: int| ActionView::Stop));
    }
}

} // verus!
