//! Properties of the window stack and of the protocol, proved over the
//! same spec functions that the handlers' contracts use.
use vstd::prelude::*;

use crate::commands::{Command, HostUpdate, NodeId, Payload, Point, SubWindowDesc, Target};
use crate::dialog::Dialog;
use crate::proxy::{data_after_notice, updates_sent};
use crate::host::{change_notice, close_sent, SubWindowHost};
use crate::manager::{
    after_close, after_create, after_host_update, after_raise, close_outcome, create_outcome,
    dragged_position, entry_of, has_window, ids_distinct, index_of, move_outcome, window_ids,
    StackEntry,
};

verus! {

/// In a stack without repeated ids, the entry at `i` is the one `index_of` finds.
pub proof fn lemma_index_of<T>(s: Seq<StackEntry<T>>, i: int)
    requires
        ids_distinct(s),
        0 <= i < s.len(),
    ensures
        has_window(s, s[i].host.id),
        index_of(s, s[i].host.id) == i,
{
    let id = s[i].host.id;
    assert(has_window(s, id));
    let j = index_of(s, id);
    assert(0 <= j < s.len() && s[j].host.id == id);
    if j != i {
        assert(s[j].host.id != s[i].host.id);
    }
}

/// The stack after `es` are created one after the other on top of `s`.
pub open spec fn after_creates<T>(s: Seq<StackEntry<T>>, es: Seq<StackEntry<T>>) -> Seq<StackEntry<T>>
    decreases es.len(),
{
    if es.len() == 0 {
        s
    } else {
        after_create(after_creates(s, es.drop_last()), es.last())
    }
}

/// A create never makes two live windows share an id.
pub proof fn lemma_create_keeps_ids_distinct<T>(s: Seq<StackEntry<T>>, e: StackEntry<T>)
    requires
        ids_distinct(s),
    ensures
        ids_distinct(after_create(s, e)),
{
    if !has_window(s, e.host.id) {
        let t = s.push(e);
        assert forall|i: int, j: int| 0 <= i < t.len() && 0 <= j < t.len() && i != j
            implies t[i].host.id != t[j].host.id by {
            if i == s.len() {
                assert(t[j] == s[j]);
            } else if j == s.len() {
                assert(t[i] == s[i]);
            } else {
                assert(t[i] == s[i] && t[j] == s[j]);
            }
        }
    }
}

/// Uniqueness: whatever windows are created, in whatever order, all live
/// window ids stay pairwise distinct.
pub proof fn law_unique_ids<T>(s: Seq<StackEntry<T>>, es: Seq<StackEntry<T>>)
    requires
        ids_distinct(s),
    ensures
        ids_distinct(after_creates(s, es)),
    decreases es.len(),
{
    if es.len() > 0 {
        law_unique_ids(s, es.drop_last());
        lemma_create_keeps_ids_distinct(after_creates(s, es.drop_last()), es.last());
    }
}

/// Z-order: windows created as `a`, `b`, `c` stand in that order, `c` in
/// front; raising `a` then gives `b`, `c`, `a`.
pub proof fn law_z_order<T>(s: Seq<StackEntry<T>>, a: StackEntry<T>, b: StackEntry<T>, c: StackEntry<T>)
    requires
        ids_distinct(s),
        !has_window(s, a.host.id),
        !has_window(s, b.host.id),
        !has_window(s, c.host.id),
        a.host.id != b.host.id,
        a.host.id != c.host.id,
        b.host.id != c.host.id,
    ensures
        window_ids(after_create(after_create(after_create(s, a), b), c))
            == window_ids(s) + seq![a.host.id, b.host.id, c.host.id],
        window_ids(after_raise(after_create(after_create(after_create(s, a), b), c), a.host.id))
            == window_ids(s) + seq![b.host.id, c.host.id, a.host.id],
{
    let s1 = s.push(a);
    assert(!has_window(s1, b.host.id)) by {
        if has_window(s1, b.host.id) {
            let i = choose|i: int| 0 <= i < s1.len() && s1[i].host.id == b.host.id;
            assert(i < s.len() ==> s1[i] == s[i]);
        }
    }
    let s2 = s1.push(b);
    assert(!has_window(s2, c.host.id)) by {
        if has_window(s2, c.host.id) {
            let i = choose|i: int| 0 <= i < s2.len() && s2[i].host.id == c.host.id;
            assert(i < s.len() ==> s2[i] == s[i]);
        }
    }
    let s3 = s2.push(c);
    assert(after_create(s, a) == s1);
    assert(after_create(s1, b) == s2);
    assert(after_create(s2, c) == s3);
    assert(window_ids(s3) =~= window_ids(s) + seq![a.host.id, b.host.id, c.host.id]);
    lemma_create_keeps_ids_distinct(s, a);
    lemma_create_keeps_ids_distinct(s1, b);
    lemma_create_keeps_ids_distinct(s2, c);
    let n = s.len() as int;
    assert(s3[n] == a);
    lemma_index_of(s3, n);
    let r = s3.remove(n).push(s3[n]);
    assert(after_raise(s3, a.host.id) == r);
    assert(window_ids(r) =~= window_ids(s) + seq![b.host.id, c.host.id, a.host.id]);
}

/// Single-use create: of two handlers that both receive one create payload,
/// the one that takes it first adds the window, and the other, seeing the
/// payload spent, changes nothing.
pub proof fn law_single_use_create<T>(
    first: Seq<StackEntry<T>>,
    second: Seq<StackEntry<T>>,
    d: SubWindowDesc<T>,
)
    requires
        !has_window(first, d.host.id),
    ensures
        create_outcome(first, Some(d)) == first.push(entry_of(d)),
        create_outcome(second, None) == second,
{
}

/// Single-use move: only the handler that takes a move payload first moves
/// the window, in place; the other sees the payload spent and changes nothing.
pub proof fn law_single_use_move<T>(
    first: Seq<StackEntry<T>>,
    second: Seq<StackEntry<T>>,
    id: NodeId,
    to: Point,
    origin: Point,
)
    requires
        ids_distinct(first),
        has_window(first, id),
    ensures
        window_ids(move_outcome(first, Some((id, to)), origin)) == window_ids(first),
        move_outcome(first, Some((id, to)), origin)[index_of(first, id)].position
            == Some(dragged_position(to, origin)),
        move_outcome(second, None, origin) == second,
{
    let t = move_outcome(first, Some((id, to)), origin);
    assert(window_ids(t) =~= window_ids(first));
}

/// Single-use close: the handler that takes a close payload first removes
/// the window; the other sees the payload spent and changes nothing.
pub proof fn law_single_use_close<T>(
    first: Seq<StackEntry<T>>,
    second: Seq<StackEntry<T>>,
    id: NodeId,
)
    requires
        ids_distinct(first),
        has_window(first, id),
    ensures
        close_outcome(first, Some(Some(id))).len() == first.len() - 1,
        !has_window(close_outcome(first, Some(Some(id))), id),
        close_outcome(second, None) == second,
{
    lemma_close_removes(first, id);
}

/// Closing `id` leaves it absent and keeps the other ids distinct.
pub proof fn lemma_close_removes<T>(s: Seq<StackEntry<T>>, id: NodeId)
    requires
        ids_distinct(s),
    ensures
        !has_window(after_close(s, id), id),
        ids_distinct(after_close(s, id)),
{
    if has_window(s, id) {
        let i = index_of(s, id);
        let t = s.remove(i);
        assert forall|a: int| 0 <= a < t.len() implies t[a] == s[if a < i { a } else { a + 1 }] by {}
        if has_window(t, id) {
            let k = choose|k: int| 0 <= k < t.len() && t[k].host.id == id;
            let k0 = if k < i { k } else { k + 1 };
            assert(t[k] == s[k0]);
            assert(s[k0].host.id == s[i].host.id);
        }
        assert forall|a: int, b: int| 0 <= a < t.len() && 0 <= b < t.len() && a != b
            implies t[a].host.id != t[b].host.id by {
            let a0 = if a < i { a } else { a + 1 };
            let b0 = if b < i { b } else { b + 1 };
            assert(t[a] == s[a0] && t[b] == s[b0]);
        }
    }
}

/// Close idempotence: closing the same id twice changes the stack once.
pub proof fn law_close_idempotent<T>(s: Seq<StackEntry<T>>, id: NodeId)
    requires
        ids_distinct(s),
    ensures
        after_close(after_close(s, id), id) == after_close(s, id),
{
    lemma_close_removes(s, id);
}

/// Bubble resolution: a close request that content inside the window at `i`
/// sent up is resolved by that window's host into a close of that window
/// alone; every other window, the root among them, stays in place.
pub proof fn law_bubble_resolution<T>(
    s: Seq<StackEntry<T>>,
    i: int,
    before: Seq<Command<T>>,
    after: Seq<Command<T>>,
)
    requires
        ids_distinct(s),
        0 <= i < s.len(),
        close_sent(s[i].host, before, after),
    ensures
        close_outcome(s, after[before.len() as int].payload->CloseWindow_0@) == s.remove(i),
{
    lemma_index_of(s, i);
}

/// Scoped cleanup: the request a torn-down dialog sends removes its window
/// from the stack.
pub proof fn law_scoped_cleanup<T>(d: Dialog, s: Seq<StackEntry<T>>)
    requires
        ids_distinct(s),
        d.attached,
        d.sub_window_host is Some,
    ensures
        !has_window(close_outcome(s, Some(d.sub_window_host)), d.sub_window_host->Some_0),
{
    lemma_close_removes(s, d.sub_window_host->Some_0);
}

/// The stack after each host of `hosts` received `update`, in order.
pub open spec fn after_host_updates<T>(
    s: Seq<StackEntry<T>>,
    hosts: Seq<NodeId>,
    update: HostUpdate<T>,
) -> Seq<StackEntry<T>>
    decreases hosts.len(),
{
    if hosts.len() == 0 {
        s
    } else {
        after_host_update(after_host_updates(s, hosts.drop_last(), update), hosts.last(), update)
    }
}

/// An update for `h` changes the data of `h`'s entry alone, and no id.
pub proof fn lemma_host_update<T>(s: Seq<StackEntry<T>>, h: NodeId, update: HostUpdate<T>, d: T)
    requires
        ids_distinct(s),
        update.data == Some(d),
    ensures
        after_host_update(s, h, update).len() == s.len(),
        forall|i: int| 0 <= i < s.len() ==> {
            let t = #[trigger] after_host_update(s, h, update)[i];
            &&& t.host.id == s[i].host.id
            &&& t.host.data == if s[i].host.id == h { d } else { s[i].host.data }
        },
{
    if has_window(s, h) {
        let k = index_of(s, h);
        assert forall|i: int| 0 <= i < s.len() && s[i].host.id == h implies i == k by {
            lemma_index_of(s, i);
        }
    }
}

/// Data round trip: once every host a proxy keeps open has received an
/// update carrying `d`, each of those windows holds `d`. Ids are untouched.
pub proof fn law_data_round_trip<T>(
    s: Seq<StackEntry<T>>,
    hosts: Seq<NodeId>,
    update: HostUpdate<T>,
    d: T,
)
    requires
        ids_distinct(s),
        update.data == Some(d),
    ensures
        window_ids(after_host_updates(s, hosts, update)) == window_ids(s),
        forall|i: int| 0 <= i < s.len() && hosts.contains(s[i].host.id)
            ==> (#[trigger] after_host_updates(s, hosts, update)[i]).host.data == d,
    decreases hosts.len(),
{
    if hosts.len() > 0 {
        let p = hosts.drop_last();
        law_data_round_trip(s, p, update, d);
        let t = after_host_updates(s, p, update);
        assert(window_ids(t) == window_ids(s));
        assert(t.len() == s.len()) by {
            assert(window_ids(t).len() == t.len());
        }
        assert forall|i: int| 0 <= i < t.len() implies t[i].host.id == s[i].host.id by {
            assert(window_ids(t)[i] == window_ids(s)[i]);
        }
        assert(ids_distinct(t));
        lemma_host_update(t, hosts.last(), update, d);
        let u = after_host_update(t, hosts.last(), update);
        assert(window_ids(u) =~= window_ids(s));
        assert forall|i: int| 0 <= i < s.len() && hosts.contains(s[i].host.id)
            implies (#[trigger] after_host_updates(s, hosts, update)[i]).host.data == d by {
            assert(after_host_updates(s, hosts, update) == u);
            if s[i].host.id != hosts.last() {
                let j = choose|j: int| 0 <= j < hosts.len() && hosts[j] == s[i].host.id;
                assert(p[j] == hosts[j]);
                assert(p.contains(s[i].host.id));
            }
        }
    }
}

/// The stack after the manager handled `cmds` in order, as far as they are
/// updates addressed to hosts; other commands leave it as it is here.
pub open spec fn after_routed_updates<T>(s: Seq<StackEntry<T>>, cmds: Seq<Command<T>>) -> Seq<StackEntry<T>>
    decreases cmds.len(),
{
    if cmds.len() == 0 {
        s
    } else {
        let t = after_routed_updates(s, cmds.drop_last());
        let c = cmds.last();
        if c.payload is PushToHost && c.target is Widget {
            after_host_update(t, c.target->Widget_0, c.payload->PushToHost_0)
        } else {
            t
        }
    }
}

/// Routing the first `k` of a proxy's updates is delivering to its first `k` hosts.
proof fn lemma_routed_prefix<T>(
    s: Seq<StackEntry<T>>,
    cmds: Seq<Command<T>>,
    hosts: Seq<NodeId>,
    update: HostUpdate<T>,
    k: int,
)
    requires
        cmds.len() == hosts.len(),
        forall|i: int| 0 <= i < cmds.len() ==> (#[trigger] cmds[i]).target == Target::Widget(hosts[i])
            && cmds[i].payload == Payload::<T>::PushToHost(update),
        0 <= k <= cmds.len(),
    ensures
        after_routed_updates(s, cmds.subrange(0, k)) == after_host_updates(s, hosts.subrange(0, k), update),
    decreases k,
{
    if k > 0 {
        lemma_routed_prefix(s, cmds, hosts, update, k - 1);
        assert(cmds.subrange(0, k).drop_last() =~= cmds.subrange(0, k - 1));
        assert(hosts.subrange(0, k).drop_last() =~= hosts.subrange(0, k - 1));
        assert(cmds.subrange(0, k).last() == cmds[k - 1]);
    }
}

/// Data round trip, from the proxy's side: when the proxy's data became `d`,
/// the updates it sends for its hosts, once the manager has routed them, leave
/// every one of those windows holding `d`.
pub proof fn law_proxy_change_reaches_hosts<T>(
    s: Seq<StackEntry<T>>,
    before: Seq<Command<T>>,
    after: Seq<Command<T>>,
    hosts: Seq<NodeId>,
    d: T,
    env_changed: bool,
)
    requires
        ids_distinct(s),
        updates_sent(before, after, hosts, Some(d), env_changed),
    ensures
        forall|i: int| 0 <= i < s.len() && hosts.contains(s[i].host.id)
            ==> (#[trigger] after_routed_updates(s, after.subrange(before.len() as int, after.len() as int))[i]).host.data == d,
{
    let cmds = after.subrange(before.len() as int, after.len() as int);
    let update = HostUpdate { data: Some(d), env_changed };
    assert forall|i: int| 0 <= i < cmds.len() implies (#[trigger] cmds[i]).target == Target::Widget(hosts[i])
        && cmds[i].payload == Payload::<T>::PushToHost(update) by {
        assert(cmds[i] == after[before.len() + i]);
    }
    lemma_routed_prefix(s, cmds, hosts, update, cmds.len() as int);
    assert(cmds.subrange(0, cmds.len() as int) =~= cmds);
    assert(hosts.subrange(0, hosts.len() as int) =~= hosts);
    law_data_round_trip(s, hosts, update, d);
}

/// Data round trip, from a window's side: the notice a host sends once its
/// content changed its data goes to the host's proxy and makes that data the
/// proxy's; the updates the proxy then sends for its hosts, once the manager
/// has routed them, leave every one of those windows holding that data.
pub proof fn law_window_change_reaches_all<T>(
    host: SubWindowHost<T>,
    proxy_data: T,
    s: Seq<StackEntry<T>>,
    before: Seq<Command<T>>,
    after: Seq<Command<T>>,
    hosts: Seq<NodeId>,
    env_changed: bool,
)
    requires
        ids_distinct(s),
        updates_sent(
            before,
            after,
            hosts,
            Some(data_after_notice(change_notice(host).payload, proxy_data)),
            env_changed,
        ),
    ensures
        change_notice(host).target == Target::Widget(host.proxy_id),
        data_after_notice(change_notice(host).payload, proxy_data) == host.data,
        forall|i: int| 0 <= i < s.len() && hosts.contains(s[i].host.id)
            ==> (#[trigger] after_routed_updates(s, after.subrange(before.len() as int, after.len() as int))[i]).host.data
                == host.data,
{
    law_proxy_change_reaches_hosts(s, before, after, hosts, host.data, env_changed);
}

} // verus!
