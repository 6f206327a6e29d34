//! A dialog: a proxy that opens exactly one window when it joins the tree,
//! and closes that window when it is torn down.
use vstd::prelude::*;

use crate::commands::{
    close_request, is_close_request, is_host_update, submit_host_update, Command, NodeId, Payload,
    StackChildPosition,
};
use crate::data::{duplicate, same, value_semantics};
use crate::manager::SubWindowManagerId;
use crate::proxy::{add_window, window_requested, SubWindowConfig};

verus! {

pub struct Dialog {
    pub manager: SubWindowManagerId,
    pub id: NodeId,
    /// The host of the dialog's window while that window is open.
    pub sub_window_host: Option<NodeId>,
    /// Whether the dialog has joined the tree (and so opened its window).
    pub attached: bool,
    pub window_config: SubWindowConfig,
}

impl Dialog {
    pub fn new(manager: SubWindowManagerId, id: NodeId) -> (r: Dialog)
        ensures
            r.manager == manager,
            r.id == id,
            r.sub_window_host is None,
            !r.attached,
            r.window_config.position == StackChildPosition::Fit,
            r.window_config.title is None,
            !r.window_config.modal,
    {
        Dialog { manager, id, sub_window_host: None, attached: false, window_config: SubWindowConfig::new() }
    }

    pub fn position(self, position: StackChildPosition) -> (r: Dialog)
        ensures
            r.manager == self.manager,
            r.id == self.id,
            r.sub_window_host == self.sub_window_host,
            r.attached == self.attached,
            r.window_config.position == position,
            r.window_config.title == self.window_config.title,
            r.window_config.modal == self.window_config.modal,
    {
        let mut d = self;
        d.window_config.set_position(position);
        d
    }

    pub fn title(self, title: String) -> (r: Dialog)
        ensures
            r.manager == self.manager,
            r.id == self.id,
            r.sub_window_host == self.sub_window_host,
            r.attached == self.attached,
            r.window_config.position == self.window_config.position,
            r.window_config.title == Some(title),
            r.window_config.modal == self.window_config.modal,
    {
        let mut d = self;
        d.window_config.set_title(title);
        d
    }

    pub fn modal(self, modal: bool) -> (r: Dialog)
        ensures
            r.manager == self.manager,
            r.id == self.id,
            r.sub_window_host == self.sub_window_host,
            r.attached == self.attached,
            r.window_config.position == self.window_config.position,
            r.window_config.title == self.window_config.title,
            r.window_config.modal == modal,
    {
        let mut d = self;
        d.window_config.set_modal(modal);
        d
    }

    pub fn id(&self) -> (r: NodeId)
        ensures
            r == self.id,
    {
        self.id
    }

    /// Joins the tree: opens the dialog's one window, hosted by `host_id` and
    /// showing `data`, and records it. A second call does nothing.
    pub fn attach<T: Clone + PartialEq>(
        &mut self,
        host_id: NodeId,
        data: &T,
        outbox: &mut Vec<Command<T>>,
    )
        requires
            value_semantics::<T>(),
        ensures
            final(self).manager == old(self).manager,
            final(self).id == old(self).id,
            final(self).window_config == old(self).window_config,
            final(self).attached,
            old(self).attached ==> final(self).sub_window_host == old(self).sub_window_host
                && final(outbox)@ == old(outbox)@,
            !old(self).attached ==> final(self).sub_window_host == Some(host_id)
                && window_requested(
                    old(outbox)@,
                    final(outbox)@,
                    old(self).manager.0,
                    old(self).id,
                    host_id,
                    *data,
                    old(self).window_config,
                ),
    {
        if !self.attached {
            self.attached = true;
            self.sub_window_host = Some(host_id);
            add_window(self.manager, self.id, host_id, data, &self.window_config, outbox);
        }
    }

    /// Handles the protocol commands addressed to the dialog: the notice that
    /// its window closed, and data handed up by that window.
    pub fn event<T: Clone + PartialEq>(&mut self, cmd: &Command<T>, data: &mut T) -> (handled: bool)
        requires
            value_semantics::<T>(),
        ensures
            final(self).manager == old(self).manager,
            final(self).id == old(self).id,
            final(self).attached == old(self).attached,
            final(self).window_config == old(self).window_config,
            match cmd.payload {
                Payload::HostDisconnected(h) => handled == (old(self).sub_window_host == Some(h))
                    && final(self).sub_window_host == (if handled { None } else { old(self).sub_window_host })
                    && *final(data) == *old(data),
                Payload::PushToProxy(d) => handled
                    && final(self).sub_window_host == old(self).sub_window_host
                    && *final(data) == d,
                _ => !handled
                    && final(self).sub_window_host == old(self).sub_window_host
                    && *final(data) == *old(data),
            },
    {
        match &cmd.payload {
            Payload::HostDisconnected(h) => {
                if self.sub_window_host == Some(*h) {
                    self.sub_window_host = None;
                    true
                } else {
                    false
                }
            },
            Payload::PushToProxy(d) => {
                *data = duplicate(d);
                true
            },
            _ => false,
        }
    }

    /// The update cycle: while the window is open and the data or the
    /// environment changed, the window gets an update.
    pub fn update<T: Clone + PartialEq>(&self, old_data: &T, data: &T, env_changed: bool) -> (r: Option<Command<T>>)
        requires
            value_semantics::<T>(),
        ensures
            match r {
                Some(c) => self.sub_window_host is Some
                    && (env_changed || *old_data != *data)
                    && is_host_update(
                        c,
                        self.sub_window_host->Some_0,
                        if *old_data != *data { Some(*data) } else { None },
                        env_changed,
                    ),
                None => self.sub_window_host is None || (!env_changed && *old_data == *data),
            },
    {
        match self.sub_window_host {
            Some(h) => {
                let data_changed = !same(old_data, data);
                if env_changed || data_changed {
                    Some(submit_host_update(data, data_changed, env_changed, h))
                } else {
                    None
                }
            },
            None => None,
        }
    }

    /// What the dialog sends as it is torn down: the close request for its
    /// window while that window is open, nothing otherwise.
    pub fn close_on_drop<T>(&self) -> (r: Option<Command<T>>)
        ensures
            match r {
                Some(c) => self.attached && self.sub_window_host is Some
                    && is_close_request(c, self.manager.0, self.sub_window_host->Some_0),
                None => !self.attached || self.sub_window_host is None,
            },
    {
        if self.attached {
            match self.sub_window_host {
                Some(h) => Some(close_request(self.manager.0, h)),
                None => None,
            }
        } else {
            None
        }
    }
}

} // verus!
