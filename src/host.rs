//! The host of one window: it holds the window's private copy of the shared
//! data and bridges it to and from the proxy that owns the window.
use vstd::prelude::*;

use crate::commands::{
    close_request, is_close_request, is_disconnect, Command, HostUpdate, NodeId, Payload,
    SingleUse, Target,
};
use crate::data::{duplicate, same, value_semantics};

verus! {

pub struct SubWindowHost<T> {
    pub manager: NodeId,
    pub id: NodeId,
    pub proxy_id: NodeId,
    pub data: T,
}

/// `cmd` hands the data `data` up to the proxy `proxy`.
pub open spec fn is_data_to_proxy<T>(cmd: Command<T>, proxy: NodeId, data: T) -> bool {
    &&& cmd.target == Target::Widget(proxy)
    &&& cmd.payload == Payload::<T>::PushToProxy(data)
}

/// The notice by which `host` hands its data up to its proxy.
pub open spec fn change_notice<T>(host: SubWindowHost<T>) -> Command<T> {
    Command { target: Target::Widget(host.proxy_id), payload: Payload::PushToProxy(host.data) }
}

/// What a host did with a command: whether it handled it, and whether its
/// content must be refreshed because its data was replaced.
#[derive(Clone, Copy, Debug, PartialEq, Eq, Structural)]
pub struct HostEventOutcome {
    pub handled: bool,
    pub refresh: bool,
}

/// The data a host holds after it receives `update`.
pub open spec fn data_after_update<T>(data: T, update: HostUpdate<T>) -> T {
    match update.data {
        Some(d) => d,
        None => data,
    }
}

/// What `outbox` holds once `host` has resolved a close notification: the close
/// request for its own window, then the notice to its proxy.
pub open spec fn close_sent<T>(host: SubWindowHost<T>, before: Seq<Command<T>>, after: Seq<Command<T>>) -> bool {
    &&& after.len() == before.len() + 2
    &&& after.subrange(0, before.len() as int) == before
    &&& is_close_request(after[before.len() as int], host.manager, host.id)
    &&& is_disconnect(after[before.len() + 1int], host.proxy_id, host.id)
}

impl<T: Clone + PartialEq> SubWindowHost<T> {
    pub fn new(manager: NodeId, id: NodeId, proxy_id: NodeId, data: T) -> (r: SubWindowHost<T>)
        ensures
            r == (SubWindowHost { manager, id, proxy_id, data }),
    {
        SubWindowHost { manager, id, proxy_id, data }
    }

    pub fn id(&self) -> (r: NodeId)
        ensures
            r == self.id,
    {
        self.id
    }

    /// Takes in an update sent by the proxy; returns whether the content must
    /// be refreshed. The environment part is accepted and not applied.
    pub fn receive_update(&mut self, update: &HostUpdate<T>) -> (refresh: bool)
        requires
            value_semantics::<T>(),
        ensures
            final(self).data == data_after_update(old(self).data, *update),
            final(self).manager == old(self).manager,
            final(self).id == old(self).id,
            final(self).proxy_id == old(self).proxy_id,
            refresh == (update.data is Some),
    {
        match &update.data {
            Some(d) => {
                self.data = duplicate(d);
                true
            },
            None => false,
        }
    }

    /// Resolves a close notification that bubbled up from the content: the
    /// window to close is this one.
    pub fn close_requested(
        &self,
        payload: &mut SingleUse<Option<NodeId>>,
        outbox: &mut Vec<Command<T>>,
    ) -> (handled: bool)
        ensures
            handled == (old(payload)@ is Some),
            final(payload)@ == None::<Option<NodeId>>,
            handled ==> close_sent(*self, old(outbox)@, final(outbox)@),
            !handled ==> final(outbox)@ == old(outbox)@,
    {
        let ghost before = outbox@;
        match payload.take() {
            Some(_) => {
                outbox.push(close_request(self.manager, self.id));
                outbox.push(
                    Command { target: Target::Widget(self.proxy_id), payload: Payload::HostDisconnected(self.id) },
                );
                assert(outbox@.subrange(0, before.len() as int) =~= before);
                true
            },
            None => false,
        }
    }

    /// Called after the content handled an ordinary event, with the data as it
    /// was before: a change made by the content is handed up to the proxy.
    pub fn after_child_event(&self, before: &T, outbox: &mut Vec<Command<T>>) -> (sent: bool)
        requires
            value_semantics::<T>(),
        ensures
            sent == (*before != self.data),
            sent ==> final(outbox)@ == old(outbox)@.push(change_notice(*self)),
            !sent ==> final(outbox)@ == old(outbox)@,
    {
        if !same(before, &self.data) {
            outbox.push(Command { target: Target::Widget(self.proxy_id), payload: Payload::PushToProxy(duplicate(&self.data)) });
            true
        } else {
            false
        }
    }

    /// Handles a command that reached this host: a close notification from
    /// the content, or an update from the proxy. Anything else is left for the
    /// content. The outcome says whether the command was handled, and whether
    /// the content must be refreshed because an update replaced the data.
    pub fn event(&mut self, cmd: &mut Command<T>, outbox: &mut Vec<Command<T>>) -> (r: HostEventOutcome)
        requires
            value_semantics::<T>(),
        ensures
            final(self).manager == old(self).manager,
            final(self).id == old(self).id,
            final(self).proxy_id == old(self).proxy_id,
            r.refresh == (old(cmd).payload is PushToHost && old(cmd).payload->PushToHost_0.data is Some),
            match old(cmd).payload {
                Payload::CloseWindow(p) => if old(cmd).target == Target::Auto {
                    &&& r.handled == (p@ is Some)
                    &&& final(cmd).target == old(cmd).target
                    &&& final(cmd).payload is CloseWindow
                    &&& final(cmd).payload->CloseWindow_0@ is None
                    &&& *final(self) == *old(self)
                    &&& r.handled ==> close_sent(*old(self), old(outbox)@, final(outbox)@)
                    &&& !r.handled ==> final(outbox)@ == old(outbox)@
                } else {
                    &&& !r.handled
                    &&& *final(cmd) == *old(cmd)
                    &&& *final(self) == *old(self)
                    &&& final(outbox)@ == old(outbox)@
                },
                Payload::PushToHost(u) => {
                    &&& r.handled
                    &&& *final(cmd) == *old(cmd)
                    &&& final(self).data == data_after_update(old(self).data, u)
                    &&& final(outbox)@ == old(outbox)@
                },
                _ => {
                    &&& !r.handled
                    &&& *final(cmd) == *old(cmd)
                    &&& *final(self) == *old(self)
                    &&& final(outbox)@ == old(outbox)@
                },
            },
    {
        let target = cmd.target;
        match &mut cmd.payload {
            Payload::CloseWindow(p) => {
                let handled = if target == Target::Auto {
                    self.close_requested(p, outbox)
                } else {
                    false
                };
                HostEventOutcome { handled, refresh: false }
            },
            Payload::PushToHost(u) => {
                let refresh = self.receive_update(u);
                HostEventOutcome { handled: true, refresh }
            },
            _ => HostEventOutcome { handled: false, refresh: false },
        }
    }
}

} // verus!
