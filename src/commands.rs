//! The command protocol: identifiers, single-use payloads, addressed commands.
use vstd::prelude::*;

use crate::data::{duplicate, value_semantics};
use crate::host::SubWindowHost;

verus! {

/// An opaque, stable identifier of a node (window host, proxy, dialog or manager).
#[derive(Clone, Copy, Debug, PartialEq, Eq, Structural)]
pub struct NodeId {
    pub raw: u64,
}

/// A point in window coordinates, in logical pixels.
#[derive(Clone, Copy, Debug, PartialEq, Eq, Structural)]
pub struct Point {
    pub x: i32,
    pub y: i32,
}

/// Where a window stands inside the stack.
#[derive(Clone, Copy, Debug, PartialEq, Eq, Structural)]
pub enum StackChildPosition {
    /// Offsets from the stack's edges; an absent offset leaves that edge free.
    Fixed { top: Option<i64>, left: Option<i64>, right: Option<i64>, bottom: Option<i64> },
    /// Placed by the stack's own layout policy to fit the available area.
    Fit,
}

impl StackChildPosition {
    /// A fixed position with only the top and left offsets set.
    pub fn at(top: i64, left: i64) -> (r: StackChildPosition)
        ensures
            r == (StackChildPosition::Fixed {
                top: Some(top),
                left: Some(left),
                right: None,
                bottom: None,
            }),
    {
        StackChildPosition::Fixed { top: Some(top), left: Some(left), right: None, bottom: None }
    }
}

/// Where a command goes: to one node, or up the tree to the nearest
/// ancestor that handles it (a notification).
#[derive(Clone, Copy, Debug, PartialEq, Eq, Structural)]
pub enum Target {
    Widget(NodeId),
    Auto,
}

/// A payload that yields its contents to at most one consumer.
pub struct SingleUse<P> {
    slot: Option<P>,
}

impl<P> View for SingleUse<P> {
    type V = Option<P>;

    closed spec fn view(&self) -> Option<P> {
        self.slot
    }
}

impl<P> SingleUse<P> {
    pub fn new(value: P) -> (r: SingleUse<P>)
        ensures
            r@ == Some(value),
    {
        SingleUse { slot: Some(value) }
    }

    /// Hands out the contents to the first caller; every later caller gets `None`.
    pub fn take(&mut self) -> (r: Option<P>)
        ensures
            r == old(self)@,
            final(self)@ == None::<P>,
    {
        self.slot.take()
    }

    pub fn is_taken(&self) -> (r: bool)
        ensures
            r == (self@ is None),
    {
        self.slot.is_none()
    }
}

/// What a create command carries: the window's host, fully built, and its
/// place in the stack.
pub struct SubWindowDesc<T> {
    pub host: SubWindowHost<T>,
    pub position: StackChildPosition,
    pub modal: bool,
}

/// What flows from a proxy down to a host: new data if it changed, and
/// whether the ambient environment changed (accepted, not yet applied).
pub struct HostUpdate<T> {
    pub data: Option<T>,
    pub env_changed: bool,
}

/// The selectors of the protocol with their payloads.
pub enum Payload<T> {
    CreateWindow(SingleUse<SubWindowDesc<T>>),
    MoveWindow(SingleUse<(NodeId, Point)>),
    CloseWindow(SingleUse<Option<NodeId>>),
    RaiseWindow(NodeId),
    PushToProxy(T),
    PushToHost(HostUpdate<T>),
    HostConnected(NodeId),
    HostDisconnected(NodeId),
}

/// An addressed command.
pub struct Command<T> {
    pub target: Target,
    pub payload: Payload<T>,
}

/// `cmd` asks the manager `manager` to close the window `id`.
pub open spec fn is_close_request<T>(cmd: Command<T>, manager: NodeId, id: NodeId) -> bool {
    &&& cmd.target == Target::Widget(manager)
    &&& cmd.payload is CloseWindow
    &&& cmd.payload->CloseWindow_0@ == Some(Some(id))
}

/// `cmd` tells the node `to` that the window `id` went away.
pub open spec fn is_disconnect<T>(cmd: Command<T>, to: NodeId, id: NodeId) -> bool {
    &&& cmd.target == Target::Widget(to)
    &&& cmd.payload == Payload::<T>::HostDisconnected(id)
}

/// `cmd` carries an update for the host `host` with the given data part.
pub open spec fn is_host_update<T>(
    cmd: Command<T>,
    host: NodeId,
    data: Option<T>,
    env_changed: bool,
) -> bool {
    &&& cmd.target == Target::Widget(host)
    &&& cmd.payload is PushToHost
    &&& cmd.payload->PushToHost_0.data == data
    &&& cmd.payload->PushToHost_0.env_changed == env_changed
}

/// A close request addressed to `manager` for the window `id`.
pub fn close_request<T>(manager: NodeId, id: NodeId) -> (r: Command<T>)
    ensures
        is_close_request(r, manager, id),
{
    Command { target: Target::Widget(manager), payload: Payload::CloseWindow(SingleUse::new(Some(id))) }
}

/// Builds the update a proxy sends to one of its hosts: a copy of the data
/// when it changed, and the environment flag.
pub fn submit_host_update<T: Clone + PartialEq>(
    data: &T,
    data_changed: bool,
    env_changed: bool,
    host_id: NodeId,
) -> (r: Command<T>)
    requires
        value_semantics::<T>(),
    ensures
        is_host_update(
            r,
            host_id,
            if data_changed { Some(*data) } else { None },
            env_changed,
        ),
{
    let update = HostUpdate {
        data: if data_changed { Some(duplicate(data)) } else { None },
        env_changed,
    };
    Command { target: Target::Widget(host_id), payload: Payload::PushToHost(update) }
}

} // verus!
