//! The anchor in the main tree through which user code opens windows, and
//! which keeps every window it opened in step with its data.
use vstd::prelude::*;

use crate::commands::{
    is_host_update, submit_host_update, Command, NodeId, Payload, SingleUse, StackChildPosition,
    SubWindowDesc, Target,
};
use crate::data::{duplicate, same, value_semantics};
use crate::host::SubWindowHost;
use crate::manager::SubWindowManagerId;

verus! {

/// How a window is shown; fixed once the window exists.
#[derive(Clone, Debug)]
pub struct SubWindowConfig {
    pub position: StackChildPosition,
    pub title: Option<String>,
    pub modal: bool,
}

impl SubWindowConfig {
    /// Placed to fit, untitled, not modal.
    pub fn new() -> (r: SubWindowConfig)
        ensures
            r.position == StackChildPosition::Fit,
            r.title is None,
            !r.modal,
    {
        SubWindowConfig { position: StackChildPosition::Fit, title: None, modal: false }
    }

    pub fn set_position(&mut self, position: StackChildPosition)
        ensures
            final(self).position == position,
            final(self).title == old(self).title,
            final(self).modal == old(self).modal,
    {
        self.position = position;
    }

    pub fn set_title(&mut self, title: String)
        ensures
            final(self).position == old(self).position,
            final(self).title == Some(title),
            final(self).modal == old(self).modal,
    {
        self.title = Some(title);
    }

    pub fn set_modal(&mut self, modal: bool)
        ensures
            final(self).position == old(self).position,
            final(self).title == old(self).title,
            final(self).modal == modal,
    {
        self.modal = modal;
    }

    pub fn position(self, position: StackChildPosition) -> (r: SubWindowConfig)
        ensures
            r.position == position,
            r.title == self.title,
            r.modal == self.modal,
    {
        let mut c = self;
        c.set_position(position);
        c
    }

    pub fn title(self, title: String) -> (r: SubWindowConfig)
        ensures
            r.position == self.position,
            r.title == Some(title),
            r.modal == self.modal,
    {
        let mut c = self;
        c.set_title(title);
        c
    }

    pub fn modal(self, modal: bool) -> (r: SubWindowConfig)
        ensures
            r.position == self.position,
            r.title == self.title,
            r.modal == modal,
    {
        let mut c = self;
        c.set_modal(modal);
        c
    }
}

/// `cmd` asks `manager` to open the window `host` with the given placement.
pub open spec fn is_create_request<T>(
    cmd: Command<T>,
    manager: NodeId,
    host: SubWindowHost<T>,
    position: StackChildPosition,
    modal: bool,
) -> bool {
    &&& cmd.target == Target::Widget(manager)
    &&& cmd.payload is CreateWindow
    &&& cmd.payload->CreateWindow_0@ == Some(SubWindowDesc { host, position, modal })
}

/// What `outbox` holds once a window `host_id` was requested for `proxy_id`:
/// the create request, then the notice that registers the window with its proxy.
pub open spec fn window_requested<T>(
    before: Seq<Command<T>>,
    after: Seq<Command<T>>,
    manager: NodeId,
    proxy_id: NodeId,
    host_id: NodeId,
    data: T,
    config: SubWindowConfig,
) -> bool {
    &&& after.len() == before.len() + 2
    &&& after.subrange(0, before.len() as int) == before
    &&& is_create_request(
        after[before.len() as int],
        manager,
        SubWindowHost { manager, id: host_id, proxy_id, data },
        config.position,
        config.modal,
    )
    &&& after[before.len() + 1int] == Command::<T> {
        target: Target::Widget(proxy_id),
        payload: Payload::HostConnected(host_id),
    }
}

/// Requests a new window `host_id` owned by `proxy_id`, showing `data`: a
/// create command for the manager, then the registration with the proxy.
pub fn add_window<T: Clone + PartialEq>(
    manager: SubWindowManagerId,
    proxy_id: NodeId,
    host_id: NodeId,
    data: &T,
    config: &SubWindowConfig,
    outbox: &mut Vec<Command<T>>,
)
    requires
        value_semantics::<T>(),
    ensures
        window_requested(old(outbox)@, final(outbox)@, manager.0, proxy_id, host_id, *data, *config),
{
    let ghost before = outbox@;
    let host = SubWindowHost::new(manager.0, host_id, proxy_id, duplicate(data));
    let desc = SubWindowDesc { host, position: config.position, modal: config.modal };
    outbox.push(Command { target: Target::Widget(manager.0), payload: Payload::CreateWindow(SingleUse::new(desc)) });
    outbox.push(Command { target: Target::Widget(proxy_id), payload: Payload::HostConnected(host_id) });
    assert(outbox@.subrange(0, before.len() as int) =~= before);
}

/// A cheap handle through which content opens and closes windows.
#[derive(Clone, Copy, Debug)]
pub struct SubWindowLauncher {
    pub manager: SubWindowManagerId,
    pub proxy_id: NodeId,
}

/// `cmd` is the notification by which content asks to close the window it is in.
pub open spec fn is_close_notification<T>(cmd: Command<T>) -> bool {
    &&& cmd.target == Target::Auto
    &&& cmd.payload is CloseWindow
    &&& cmd.payload->CloseWindow_0@ == Some(None::<NodeId>)
}

impl SubWindowLauncher {
    fn new(manager: SubWindowManagerId, proxy_id: NodeId) -> (r: SubWindowLauncher)
        ensures
            r.manager == manager,
            r.proxy_id == proxy_id,
    {
        SubWindowLauncher { manager, proxy_id }
    }

    /// Requests a window `host_id` owned by this launcher's proxy.
    pub fn add_window<T: Clone + PartialEq>(
        &self,
        host_id: NodeId,
        data: &T,
        config: &SubWindowConfig,
        outbox: &mut Vec<Command<T>>,
    )
        requires
            value_semantics::<T>(),
        ensures
            window_requested(old(outbox)@, final(outbox)@, self.manager.0, self.proxy_id, host_id, *data, *config),
    {
        add_window(self.manager, self.proxy_id, host_id, data, config, outbox);
    }

    /// Asks to close the window the caller is in. The caller does not know
    /// that window's id, so the request bubbles up to the nearest host.
    pub fn close_window<T>(&self, outbox: &mut Vec<Command<T>>)
        ensures
            final(outbox)@.len() == old(outbox)@.len() + 1,
            final(outbox)@.subrange(0, old(outbox)@.len() as int) == old(outbox)@,
            is_close_notification(final(outbox)@.last()),
    {
        let ghost before = outbox@;
        outbox.push(Command { target: Target::Auto, payload: Payload::CloseWindow(SingleUse::new(None)) });
        assert(outbox@.subrange(0, before.len() as int) =~= before);
    }
}

/// `s` with every occurrence of `id` taken out, the rest in order.
pub open spec fn without(s: Seq<NodeId>, id: NodeId) -> Seq<NodeId>
    decreases s.len(),
{
    if s.len() == 0 {
        s
    } else if s.last() == id {
        without(s.drop_last(), id)
    } else {
        without(s.drop_last(), id).push(s.last())
    }
}

/// `after` is `before` followed by one update for each host of `hosts`, in order.
pub open spec fn updates_sent<T>(
    before: Seq<Command<T>>,
    after: Seq<Command<T>>,
    hosts: Seq<NodeId>,
    data: Option<T>,
    env_changed: bool,
) -> bool {
    &&& after.len() == before.len() + hosts.len()
    &&& after.subrange(0, before.len() as int) == before
    &&& forall|i: int|
        0 <= i < hosts.len() ==> is_host_update(#[trigger] after[before.len() + i], hosts[i], data, env_changed)
}

/// The data a proxy holds after it handled `payload`: the data a window
/// handed up, or what it held before.
pub open spec fn data_after_notice<T>(payload: Payload<T>, data: T) -> T {
    match payload {
        Payload::PushToProxy(d) => d,
        _ => data,
    }
}

pub struct SubWindowProxy {
    pub manager: SubWindowManagerId,
    pub id: NodeId,
    /// The hosts of the windows this proxy opened that are still open.
    pub sub_window_hosts: Vec<NodeId>,
}

impl SubWindowProxy {
    pub fn new(manager: SubWindowManagerId, id: NodeId) -> (r: SubWindowProxy)
        ensures
            r.manager == manager,
            r.id == id,
            r.sub_window_hosts@.len() == 0,
    {
        SubWindowProxy { manager, id, sub_window_hosts: Vec::new() }
    }

    pub fn launcher(&self) -> (r: SubWindowLauncher)
        ensures
            r.manager == self.manager,
            r.proxy_id == self.id,
    {
        SubWindowLauncher::new(self.manager, self.id)
    }

    pub fn id(&self) -> (r: NodeId)
        ensures
            r == self.id,
    {
        self.id
    }

    /// Stops tracking the host `host_id`.
    pub fn disconnect(&mut self, host_id: NodeId)
        ensures
            final(self).manager == old(self).manager,
            final(self).id == old(self).id,
            final(self).sub_window_hosts@ == without(old(self).sub_window_hosts@, host_id),
    {
        let mut kept: Vec<NodeId> = Vec::new();
        let mut i: usize = 0;
        while i < self.sub_window_hosts.len()
            invariant
                i <= self.sub_window_hosts@.len(),
                kept@ == without(self.sub_window_hosts@.subrange(0, i as int), host_id),
            decreases self.sub_window_hosts@.len() - i,
        {
            let h = self.sub_window_hosts[i];
            assert(self.sub_window_hosts@.subrange(0, i + 1).drop_last()
                =~= self.sub_window_hosts@.subrange(0, i as int));
            if h != host_id {
                kept.push(h);
            }
            i += 1;
        }
        assert(self.sub_window_hosts@.subrange(0, i as int) =~= self.sub_window_hosts@);
        self.sub_window_hosts = kept;
    }

    /// Handles the protocol commands addressed to a proxy: registration and
    /// removal of its hosts, and data handed up by one of them. Anything else
    /// is left for the content.
    pub fn event<T: Clone + PartialEq>(&mut self, cmd: &Command<T>, data: &mut T) -> (handled: bool)
        requires
            value_semantics::<T>(),
        ensures
            final(self).manager == old(self).manager,
            final(self).id == old(self).id,
            *final(data) == data_after_notice(cmd.payload, *old(data)),
            match cmd.payload {
                Payload::HostConnected(h) => handled
                    && final(self).sub_window_hosts@ == old(self).sub_window_hosts@.push(h)
                    && *final(data) == *old(data),
                Payload::HostDisconnected(h) => handled
                    && final(self).sub_window_hosts@ == without(old(self).sub_window_hosts@, h)
                    && *final(data) == *old(data),
                Payload::PushToProxy(d) => handled
                    && final(self).sub_window_hosts@ == old(self).sub_window_hosts@
                    && *final(data) == d,
                _ => !handled
                    && final(self).sub_window_hosts@ == old(self).sub_window_hosts@
                    && *final(data) == *old(data),
            },
    {
        match &cmd.payload {
            Payload::HostConnected(h) => {
                self.sub_window_hosts.push(*h);
                true
            },
            Payload::HostDisconnected(h) => {
                self.disconnect(*h);
                true
            },
            Payload::PushToProxy(d) => {
                *data = duplicate(d);
                true
            },
            _ => false,
        }
    }

    /// The update cycle: when the data or the environment changed, every
    /// window this proxy keeps open gets an update.
    pub fn update<T: Clone + PartialEq>(
        &self,
        old_data: &T,
        data: &T,
        env_changed: bool,
        outbox: &mut Vec<Command<T>>,
    )
        requires
            value_semantics::<T>(),
        ensures
            if env_changed || *old_data != *data {
                updates_sent(
                    old(outbox)@,
                    final(outbox)@,
                    self.sub_window_hosts@,
                    if *old_data != *data { Some(*data) } else { None },
                    env_changed,
                )
            } else {
                final(outbox)@ == old(outbox)@
            },
    {
        let data_changed = !same(old_data, data);
        if env_changed || data_changed {
            let ghost before = outbox@;
            let ghost sent = if data_changed { Some(*data) } else { None };
            let mut i: usize = 0;
            while i < self.sub_window_hosts.len()
                invariant
                    value_semantics::<T>(),
                    sent == if data_changed { Some(*data) } else { None },
                    i <= self.sub_window_hosts@.len(),
                    outbox@.len() == before.len() + i,
                    outbox@.subrange(0, before.len() as int) == before,
                    forall|k: int|
                        0 <= k < i ==> is_host_update(
                            #[trigger] outbox@[before.len() + k],
                            self.sub_window_hosts@[k],
                            sent,
                            env_changed,
                        ),
                decreases self.sub_window_hosts@.len() - i,
            {
                let c = submit_host_update(data, data_changed, env_changed, self.sub_window_hosts[i]);
                outbox.push(c);
                assert(outbox@.subrange(0, before.len() as int) =~= before);
                assert forall|k: int| 0 <= k < i + 1 implies is_host_update(
                    #[trigger] outbox@[before.len() + k],
                    self.sub_window_hosts@[k],
                    sent,
                    env_changed,
                ) by {
                    if k < i {
                    }
                }
                i += 1;
            }
        }
    }
}

} // verus!
