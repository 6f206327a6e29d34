//! The manager: sole owner of the z-ordered stack of windows and router of
//! the commands that change it.
use vstd::prelude::*;

use crate::commands::{
    submit_host_update, is_host_update, Command, HostUpdate, NodeId, Payload, Point, SingleUse,
    StackChildPosition, SubWindowDesc, Target,
};
use crate::data::{duplicate, same, value_semantics};
use crate::host::{data_after_update, SubWindowHost};

verus! {

/// The identifier of a manager, handed to every node that talks to it.
#[derive(Clone, Copy, Debug, PartialEq, Eq, Structural)]
pub struct SubWindowManagerId(pub NodeId);

impl SubWindowManagerId {
    pub fn widget_id(&self) -> (r: NodeId)
        ensures
            r == self.0,
    {
        self.0
    }
}

/// One live window: its host and its place. The order of the entries in the
/// stack is the z-order, the last one frontmost.
pub struct StackEntry<T> {
    pub host: SubWindowHost<T>,
    /// `None` for the root window, which fills the whole stack.
    pub position: Option<StackChildPosition>,
    pub modal: bool,
}

pub struct SubWindowManager<T> {
    pub id: NodeId,
    pub stack: Vec<StackEntry<T>>,
    pub root_host_id: NodeId,
}

/// The window ids of a stack, back to front.
pub open spec fn window_ids<T>(s: Seq<StackEntry<T>>) -> Seq<NodeId> {
    s.map_values(|e: StackEntry<T>| e.host.id)
}

pub open spec fn has_window<T>(s: Seq<StackEntry<T>>, id: NodeId) -> bool {
    exists|i: int| 0 <= i < s.len() && s[i].host.id == id
}

/// No two entries of the stack share a window id.
pub open spec fn ids_distinct<T>(s: Seq<StackEntry<T>>) -> bool {
    forall|i: int, j: int|
        0 <= i < s.len() && 0 <= j < s.len() && i != j ==> s[i].host.id != s[j].host.id
}

/// Where the window `id` stands in the stack (meaningful when it is there).
pub open spec fn index_of<T>(s: Seq<StackEntry<T>>, id: NodeId) -> int {
    choose|i: int| 0 <= i < s.len() && s[i].host.id == id
}

pub open spec fn entry_of<T>(d: SubWindowDesc<T>) -> StackEntry<T> {
    StackEntry { host: d.host, position: Some(d.position), modal: d.modal }
}

/// The stack after a create: the new entry goes in front, unless its id is live.
pub open spec fn after_create<T>(s: Seq<StackEntry<T>>, e: StackEntry<T>) -> Seq<StackEntry<T>> {
    if has_window(s, e.host.id) {
        s
    } else {
        s.push(e)
    }
}

/// The stack after a create command whose payload yielded `p`.
pub open spec fn create_outcome<T>(s: Seq<StackEntry<T>>, p: Option<SubWindowDesc<T>>) -> Seq<StackEntry<T>> {
    match p {
        Some(d) => after_create(s, entry_of(d)),
        None => s,
    }
}

/// The stack after a move command whose payload yielded `p`.
pub open spec fn move_outcome<T>(s: Seq<StackEntry<T>>, p: Option<(NodeId, Point)>, origin: Point) -> Seq<StackEntry<T>> {
    match p {
        Some((id, to)) => after_move(s, id, dragged_position(to, origin)),
        None => s,
    }
}

/// The stack after a close command whose payload yielded `p`.
pub open spec fn close_outcome<T>(s: Seq<StackEntry<T>>, p: Option<Option<NodeId>>) -> Seq<StackEntry<T>> {
    match p {
        Some(Some(id)) => after_close(s, id),
        _ => s,
    }
}

/// The stack after a close: the entry of `id` is gone; an absent id changes nothing.
pub open spec fn after_close<T>(s: Seq<StackEntry<T>>, id: NodeId) -> Seq<StackEntry<T>> {
    if has_window(s, id) {
        s.remove(index_of(s, id))
    } else {
        s
    }
}

/// The stack after a raise: the entry of `id` moves to the front, the others
/// keep their order.
pub open spec fn after_raise<T>(s: Seq<StackEntry<T>>, id: NodeId) -> Seq<StackEntry<T>> {
    if has_window(s, id) {
        s.remove(index_of(s, id)).push(s[index_of(s, id)])
    } else {
        s
    }
}

/// The stack after a move: the entry of `id` gets the new position in place.
pub open spec fn after_move<T>(
    s: Seq<StackEntry<T>>,
    id: NodeId,
    p: StackChildPosition,
) -> Seq<StackEntry<T>> {
    if has_window(s, id) {
        let i = index_of(s, id);
        s.update(i, StackEntry { host: s[i].host, position: Some(p), modal: s[i].modal })
    } else {
        s
    }
}

/// The position a window gets when dragged to `to` (window coordinates), for
/// a stack whose own origin is at `origin`.
pub open spec fn dragged_position(to: Point, origin: Point) -> StackChildPosition {
    StackChildPosition::Fixed {
        top: Some((to.y - origin.y) as i64),
        left: Some((to.x - origin.x) as i64),
        right: None,
        bottom: None,
    }
}

/// The stack after the host `id` received `update`.
pub open spec fn after_host_update<T>(
    s: Seq<StackEntry<T>>,
    id: NodeId,
    update: HostUpdate<T>,
) -> Seq<StackEntry<T>> {
    if has_window(s, id) {
        let i = index_of(s, id);
        let h = s[i].host;
        s.update(i, StackEntry {
            host: SubWindowHost { data: data_after_update(h.data, update), ..h },
            position: s[i].position,
            modal: s[i].modal,
        })
    } else {
        s
    }
}

/// The entry of the root window, whose proxy is the manager itself.
pub open spec fn root_entry<T>(manager: NodeId, root_host_id: NodeId, data: T) -> StackEntry<T> {
    StackEntry {
        host: SubWindowHost { manager, id: root_host_id, proxy_id: manager, data },
        position: None,
        modal: false,
    }
}

/// After handling `before`, the command holds `after`: a single-use payload
/// is spent, any other payload is left as it was.
pub open spec fn spent<T>(before: Payload<T>, after: Payload<T>) -> bool {
    match before {
        Payload::CreateWindow(_) => after is CreateWindow && after->CreateWindow_0@ is None,
        Payload::MoveWindow(_) => after is MoveWindow && after->MoveWindow_0@ is None,
        Payload::CloseWindow(_) => after is CloseWindow && after->CloseWindow_0@ is None,
        _ => after == before,
    }
}

impl<T: Clone + PartialEq> SubWindowManager<T> {
    pub open spec fn wf(&self) -> bool {
        ids_distinct(self.stack@)
    }

    /// A manager with an empty stack; the root window is added by `attach`.
    pub fn new(id: NodeId, root_host_id: NodeId) -> (r: SubWindowManager<T>)
        ensures
            r.wf(),
            r.id == id,
            r.root_host_id == root_host_id,
            r.stack@.len() == 0,
    {
        SubWindowManager { id, stack: Vec::new(), root_host_id }
    }

    pub fn manager_id(&self) -> (r: SubWindowManagerId)
        ensures
            r.0 == self.id,
    {
        SubWindowManagerId(self.id)
    }

    pub fn id(&self) -> (r: NodeId)
        ensures
            r == self.id,
    {
        self.id
    }

    /// Where the window `id` stands in the stack, if it is live.
    pub fn find(&self, id: NodeId) -> (r: Option<usize>)
        requires
            self.wf(),
        ensures
            match r {
                Some(i) => has_window(self.stack@, id) && i == index_of(self.stack@, id)
                    && i < self.stack@.len() && self.stack@[i as int].host.id == id,
                None => !has_window(self.stack@, id),
            },
    {
        let mut i: usize = 0;
        while i < self.stack.len()
            invariant
                self.wf(),
                i <= self.stack@.len(),
                forall|k: int| 0 <= k < i ==> self.stack@[k].host.id != id,
            decreases self.stack@.len() - i,
        {
            if self.stack[i].host.id == id {
                assert(has_window(self.stack@, id));
                let ghost j = index_of(self.stack@, id);
                assert(self.stack@[j].host.id == id);
                proof {
                    if j != i as int {
                        assert(self.stack@[j].host.id != self.stack@[i as int].host.id);
                    }
                }
                return Some(i);
            }
            i += 1;
        }
        None
    }

    /// Adds the window a create command carries, unless the payload was
    /// already taken elsewhere.
    pub fn handle_create(&mut self, payload: &mut SingleUse<SubWindowDesc<T>>) -> (handled: bool)
        requires
            old(self).wf(),
        ensures
            final(self).wf(),
            final(self).id == old(self).id,
            final(self).root_host_id == old(self).root_host_id,
            final(payload)@ is None,
            handled == (old(payload)@ is Some),
            final(self).stack@ == create_outcome(old(self).stack@, old(payload)@),
    {
        match payload.take() {
            Some(desc) => {
                let ghost e = entry_of(desc);
                if self.find(desc.host.id).is_none() {
                    let entry = StackEntry { host: desc.host, position: Some(desc.position), modal: desc.modal };
                    self.stack.push(entry);
                    assert(self.stack@ =~= after_create(old(self).stack@, e));
                }
                true
            },
            None => false,
        }
    }

    /// Moves a window to the point a drag command carries, given in window
    /// coordinates; `origin` is where the stack itself stands in them.
    pub fn handle_move(&mut self, payload: &mut SingleUse<(NodeId, Point)>, origin: Point) -> (handled: bool)
        requires
            old(self).wf(),
        ensures
            final(self).wf(),
            final(self).id == old(self).id,
            final(self).root_host_id == old(self).root_host_id,
            final(payload)@ is None,
            handled == (old(payload)@ is Some),
            final(self).stack@ == move_outcome(old(self).stack@, old(payload)@, origin),
    {
        match payload.take() {
            Some((id, to)) => {
                let top = to.y as i64 - origin.y as i64;
                let left = to.x as i64 - origin.x as i64;
                let position = StackChildPosition::Fixed { top: Some(top), left: Some(left), right: None, bottom: None };
                match self.find(id) {
                    Some(i) => {
                        let ghost s = self.stack@;
                        let mut entry = self.stack.remove(i);
                        entry.position = Some(position);
                        self.stack.insert(i, entry);
                        assert(self.stack@ =~= after_move(s, id, dragged_position(to, origin)));
                        assert forall|a: int, b: int|
                            0 <= a < self.stack@.len() && 0 <= b < self.stack@.len() && a != b
                            implies self.stack@[a].host.id != self.stack@[b].host.id by {
                            assert(self.stack@[a].host.id == s[a].host.id);
                            assert(self.stack@[b].host.id == s[b].host.id);
                        }
                    },
                    None => {},
                }
                true
            },
            None => false,
        }
    }

    /// Removes the window a close command names; an absent id is ignored.
    pub fn handle_close(&mut self, payload: &mut SingleUse<Option<NodeId>>) -> (handled: bool)
        requires
            old(self).wf(),
        ensures
            final(self).wf(),
            final(self).id == old(self).id,
            final(self).root_host_id == old(self).root_host_id,
            final(payload)@ is None,
            handled == (old(payload)@ matches Some(Some(_))),
            final(self).stack@ == close_outcome(old(self).stack@, old(payload)@),
    {
        match payload.take() {
            Some(Some(id)) => {
                match self.find(id) {
                    Some(i) => {
                        let ghost s = self.stack@;
                        let _gone = self.stack.remove(i);
                        assert(self.stack@ =~= after_close(s, id));
                        assert forall|a: int, b: int|
                            0 <= a < self.stack@.len() && 0 <= b < self.stack@.len() && a != b
                            implies self.stack@[a].host.id != self.stack@[b].host.id by {
                            let a0 = if a < i { a } else { a + 1 };
                            let b0 = if b < i { b } else { b + 1 };
                            assert(self.stack@[a] == s[a0]);
                            assert(self.stack@[b] == s[b0]);
                        }
                    },
                    None => {},
                }
                true
            },
            _ => false,
        }
    }

    /// Brings a window to the front; the others keep their order.
    pub fn handle_raise(&mut self, id: NodeId)
        requires
            old(self).wf(),
        ensures
            final(self).wf(),
            final(self).id == old(self).id,
            final(self).root_host_id == old(self).root_host_id,
            final(self).stack@ == after_raise(old(self).stack@, id),
    {
        match self.find(id) {
            Some(i) => {
                let ghost s = self.stack@;
                let entry = self.stack.remove(i);
                self.stack.push(entry);
                assert(self.stack@ =~= after_raise(s, id));
                let ghost n = s.len() - 1int;
                assert forall|a: int, b: int|
                    0 <= a < self.stack@.len() && 0 <= b < self.stack@.len() && a != b
                    implies self.stack@[a].host.id != self.stack@[b].host.id by {
                    let a0 = if a == n { i as int } else if a < i { a } else { a + 1 };
                    let b0 = if b == n { i as int } else if b < i { b } else { b + 1 };
                    assert(self.stack@[a] == s[a0]);
                    assert(self.stack@[b] == s[b0]);
                }
            },
            None => {},
        }
    }

    /// Hands an update to the host of the window `id`, if it is live.
    pub fn deliver_to_host(&mut self, id: NodeId, update: &HostUpdate<T>) -> (delivered: bool)
        requires
            old(self).wf(),
            value_semantics::<T>(),
        ensures
            final(self).wf(),
            final(self).id == old(self).id,
            final(self).root_host_id == old(self).root_host_id,
            delivered == has_window(old(self).stack@, id),
            final(self).stack@ == after_host_update(old(self).stack@, id, *update),
    {
        match self.find(id) {
            Some(i) => {
                let ghost s = self.stack@;
                let mut entry = self.stack.remove(i);
                let _refresh = entry.host.receive_update(update);
                self.stack.insert(i, entry);
                assert(self.stack@ =~= after_host_update(s, id, *update));
                assert forall|a: int, b: int|
                    0 <= a < self.stack@.len() && 0 <= b < self.stack@.len() && a != b
                    implies self.stack@[a].host.id != self.stack@[b].host.id by {
                    assert(self.stack@[a].host.id == s[a].host.id);
                    assert(self.stack@[b].host.id == s[b].host.id);
                }
                true
            },
            None => false,
        }
    }

    /// Handles one command. Commands that change the stack spend their
    /// single-use payload; data handed up by the root window, addressed to the
    /// manager itself, replaces `data`;
    /// an update addressed to a window's host is routed to it. Anything else
    /// is left unhandled.
    pub fn event(&mut self, cmd: &mut Command<T>, data: &mut T, origin: Point) -> (handled: bool)
        requires
            old(self).wf(),
            value_semantics::<T>(),
        ensures
            final(self).wf(),
            final(self).id == old(self).id,
            final(self).root_host_id == old(self).root_host_id,
            final(cmd).target == old(cmd).target,
            spent(old(cmd).payload, final(cmd).payload),
            match old(cmd).payload {
                Payload::PushToProxy(d) => *final(data)
                    == if old(cmd).target == Target::Widget(old(self).id) { d } else { *old(data) },
                _ => *final(data) == *old(data),
            },
            match old(cmd).payload {
                Payload::CreateWindow(p) => handled == (p@ is Some)
                    && final(self).stack@ == create_outcome(old(self).stack@, p@),
                Payload::MoveWindow(p) => handled == (p@ is Some)
                    && final(self).stack@ == move_outcome(old(self).stack@, p@, origin),
                Payload::CloseWindow(p) => handled == (p@ matches Some(Some(_)))
                    && final(self).stack@ == close_outcome(old(self).stack@, p@),
                Payload::RaiseWindow(id) => handled
                    && final(self).stack@ == after_raise(old(self).stack@, id),
                Payload::PushToProxy(_) => handled == (old(cmd).target == Target::Widget(old(self).id))
                    && final(self).stack@ == old(self).stack@,
                Payload::PushToHost(u) => match old(cmd).target {
                    Target::Widget(h) => handled == has_window(old(self).stack@, h)
                        && final(self).stack@ == after_host_update(old(self).stack@, h, u),
                    Target::Auto => !handled && final(self).stack@ == old(self).stack@,
                },
                _ => !handled && final(self).stack@ == old(self).stack@,
            },
    {
        let target = cmd.target;
        match &mut cmd.payload {
            Payload::CreateWindow(p) => self.handle_create(p),
            Payload::MoveWindow(p) => self.handle_move(p, origin),
            Payload::CloseWindow(p) => self.handle_close(p),
            Payload::RaiseWindow(id) => {
                self.handle_raise(*id);
                true
            },
            Payload::PushToProxy(d) => {
                if target == Target::Widget(self.id) {
                    *data = duplicate(d);
                    true
                } else {
                    false
                }
            },
            Payload::PushToHost(u) => match target {
                Target::Widget(h) => self.deliver_to_host(h, u),
                Target::Auto => false,
            },
            _ => false,
        }
    }

    /// Adds the root window, whose proxy is the manager itself, when the
    /// manager joins the tree. Happens once: a live root id is left alone.
    pub fn attach(&mut self, data: &T)
        requires
            old(self).wf(),
            value_semantics::<T>(),
        ensures
            final(self).wf(),
            final(self).id == old(self).id,
            final(self).root_host_id == old(self).root_host_id,
            final(self).stack@ == after_create(
                old(self).stack@,
                root_entry(old(self).id, old(self).root_host_id, *data),
            ),
    {
        if self.find(self.root_host_id).is_none() {
            let host = SubWindowHost::new(self.id, self.root_host_id, self.id, duplicate(data));
            self.stack.push(StackEntry { host, position: None, modal: false });
            assert(self.stack@ =~= after_create(
                old(self).stack@,
                root_entry(old(self).id, old(self).root_host_id, *data),
            ));
        }
    }

    /// The update cycle: when the data or the environment changed, the root
    /// window gets an update. The data compared is the main tree's, whatever
    /// the type the stack's hosts carry.
    pub fn update<D: Clone + PartialEq>(&self, old_data: &D, data: &D, env_changed: bool) -> (r: Option<Command<D>>)
        requires
            value_semantics::<D>(),
        ensures
            match r {
                Some(c) => (env_changed || *old_data != *data) && is_host_update(
                    c,
                    self.root_host_id,
                    if *old_data != *data { Some(*data) } else { None },
                    env_changed,
                ),
                None => !env_changed && *old_data == *data,
            },
    {
        let data_changed = !same(old_data, data);
        if env_changed || data_changed {
            Some(submit_host_update(data, data_changed, env_changed, self.root_host_id))
        } else {
            None
        }
    }
}

} // verus!
