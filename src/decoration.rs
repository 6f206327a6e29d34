//! The chrome around a window's content: a title bar that raises the window
//! when pressed, drags it, and closes it from its close button.
use vstd::prelude::*;

use crate::commands::{Command, NodeId, Payload, Point, SingleUse, Target};
use crate::manager::SubWindowManagerId;
use crate::proxy::{is_close_notification, SubWindowConfig};

verus! {

/// The mouse events the decoration reacts to. `pos` is relative to the
/// window's own origin (the top left corner of its decoration), `window_pos`
/// to the host surface.
#[derive(Clone, Copy, Debug, PartialEq, Eq, Structural)]
pub enum MouseEvent {
    Down { pos: Point, window_pos: Point },
    Up { window_pos: Point },
    Move { window_pos: Point },
}

/// Where a drag moves the window's origin: the pointer, less the point of
/// the window at which it was grabbed, so that this point stays under the
/// pointer; `None` when that falls outside the coordinate range.
pub open spec fn drag_target(window_pos: Point, grab: Point) -> Option<Point> {
    let x = window_pos.x - grab.x;
    let y = window_pos.y - grab.y;
    if i32::MIN <= x <= i32::MAX && i32::MIN <= y <= i32::MAX {
        Some(Point { x: x as i32, y: y as i32 })
    } else {
        None
    }
}

/// `cmd` asks `manager` to move the window `host_id` to `to`.
pub open spec fn is_move_request<T>(cmd: Command<T>, manager: NodeId, host_id: NodeId, to: Point) -> bool {
    &&& cmd.target == Target::Widget(manager)
    &&& cmd.payload is MoveWindow
    &&& cmd.payload->MoveWindow_0@ == Some((host_id, to))
}

/// The drag controller of a title bar.
pub struct SubWindowTitlebar {
    pub manager: SubWindowManagerId,
    pub host_id: NodeId,
    pub drag: bool,
    /// Where the window was grabbed, relative to the window's origin.
    pub drag_pos: Point,
}

impl SubWindowTitlebar {
    pub fn new(manager: SubWindowManagerId, host_id: NodeId) -> (r: SubWindowTitlebar)
        ensures
            r.manager == manager,
            r.host_id == host_id,
            !r.drag,
            r.drag_pos == (Point { x: 0, y: 0 }),
    {
        SubWindowTitlebar { manager, host_id, drag: false, drag_pos: Point { x: 0, y: 0 } }
    }

    /// A press starts a drag, a release ends it; each move while dragging
    /// asks the manager to move the window under the pointer.
    pub fn event<T>(&mut self, ev: MouseEvent, outbox: &mut Vec<Command<T>>)
        ensures
            final(self).manager == old(self).manager,
            final(self).host_id == old(self).host_id,
            match ev {
                MouseEvent::Down { pos, .. } => final(self).drag && final(self).drag_pos == pos
                    && final(outbox)@ == old(outbox)@,
                MouseEvent::Up { .. } => !final(self).drag && final(self).drag_pos == old(self).drag_pos
                    && final(outbox)@ == old(outbox)@,
                MouseEvent::Move { window_pos } => {
                    &&& final(self).drag == old(self).drag
                    &&& final(self).drag_pos == old(self).drag_pos
                    &&& if old(self).drag && drag_target(window_pos, old(self).drag_pos) is Some {
                        &&& final(outbox)@.len() == old(outbox)@.len() + 1
                        &&& final(outbox)@.drop_last() == old(outbox)@
                        &&& is_move_request(
                            final(outbox)@.last(),
                            old(self).manager.0,
                            old(self).host_id,
                            drag_target(window_pos, old(self).drag_pos)->Some_0,
                        )
                    } else {
                        final(outbox)@ == old(outbox)@
                    }
                },
            },
    {
        match ev {
            MouseEvent::Down { pos, .. } => {
                self.drag = true;
                self.drag_pos = pos;
            },
            MouseEvent::Up { .. } => {
                self.drag = false;
            },
            MouseEvent::Move { window_pos } => {
                if self.drag {
                    let x = window_pos.x as i64 - self.drag_pos.x as i64;
                    let y = window_pos.y as i64 - self.drag_pos.y as i64;
                    if i32::MIN as i64 <= x && x <= i32::MAX as i64 && i32::MIN as i64 <= y && y <= i32::MAX as i64 {
                        let to = Point { x: x as i32, y: y as i32 };
                        let ghost before = outbox@;
                        outbox.push(Command {
                            target: Target::Widget(self.manager.0),
                            payload: Payload::MoveWindow(SingleUse::new((self.host_id, to))),
                        });
                        assert(outbox@.drop_last() =~= before);
                    }
                }
            },
        }
    }
}

/// The decoration of one window.
pub struct SubWindow {
    pub manager: SubWindowManagerId,
    pub host_id: NodeId,
    /// Present when the window has a title.
    pub titlebar: Option<SubWindowTitlebar>,
    pub title: Option<String>,
    /// One pixel around a titled window, none around an untitled one.
    pub border_width: u32,
}

impl SubWindow {
    pub fn new(config: &SubWindowConfig, manager: SubWindowManagerId, host_id: NodeId) -> (r: SubWindow)
        ensures
            r.manager == manager,
            r.host_id == host_id,
            r.title == config.title,
            r.titlebar is Some == config.title is Some,
            r.titlebar is Some ==> r.titlebar->Some_0.manager == manager
                && r.titlebar->Some_0.host_id == host_id
                && !r.titlebar->Some_0.drag,
            r.border_width == (if config.title is Some { 1u32 } else { 0u32 }),
    {
        match &config.title {
            Some(t) => SubWindow {
                manager,
                host_id,
                titlebar: Some(SubWindowTitlebar::new(manager, host_id)),
                title: Some(t.clone()),
                border_width: 1,
            },
            None => SubWindow { manager, host_id, titlebar: None, title: None, border_width: 0 },
        }
    }

    /// A mouse event over the window. A press anywhere first raises the
    /// window. With a title bar, the title bar then sees the event when the
    /// pointer is over it (`over_titlebar`) or while it is dragging.
    pub fn event<T>(&mut self, ev: MouseEvent, over_titlebar: bool, outbox: &mut Vec<Command<T>>)
        requires
            old(self).titlebar is Some ==> old(self).titlebar->Some_0.manager == old(self).manager
                && old(self).titlebar->Some_0.host_id == old(self).host_id,
        ensures
            final(self).manager == old(self).manager,
            final(self).host_id == old(self).host_id,
            final(self).title == old(self).title,
            final(self).border_width == old(self).border_width,
            final(self).titlebar is Some == old(self).titlebar is Some,
            final(self).titlebar is Some ==> final(self).titlebar->Some_0.manager == old(self).manager
                && final(self).titlebar->Some_0.host_id == old(self).host_id,
            ev is Down ==> {
                &&& final(outbox)@.len() == old(outbox)@.len() + 1
                &&& final(outbox)@.drop_last() == old(outbox)@
                &&& final(outbox)@.last() == Command::<T> {
                    target: Target::Widget(old(self).manager.0),
                    payload: Payload::RaiseWindow(old(self).host_id),
                }
            },
            old(self).titlebar is None && !(ev is Down) ==> final(outbox)@ == old(outbox)@,
            old(self).titlebar is Some ==> {
                let tb = old(self).titlebar->Some_0;
                let nb = final(self).titlebar->Some_0;
                let delivered = over_titlebar || tb.drag;
                match ev {
                    MouseEvent::Down { pos, .. } => {
                        &&& nb.drag == delivered
                        &&& nb.drag_pos == if delivered { pos } else { tb.drag_pos }
                    },
                    MouseEvent::Up { .. } => {
                        &&& final(outbox)@ == old(outbox)@
                        &&& nb.drag == (tb.drag && !delivered)
                        &&& nb.drag_pos == tb.drag_pos
                    },
                    MouseEvent::Move { window_pos } => {
                        &&& nb.drag == tb.drag
                        &&& nb.drag_pos == tb.drag_pos
                        &&& if tb.drag && drag_target(window_pos, tb.drag_pos) is Some {
                            &&& final(outbox)@.len() == old(outbox)@.len() + 1
                            &&& final(outbox)@.drop_last() == old(outbox)@
                            &&& is_move_request(
                                final(outbox)@.last(),
                                old(self).manager.0,
                                old(self).host_id,
                                drag_target(window_pos, tb.drag_pos)->Some_0,
                            )
                        } else {
                            final(outbox)@ == old(outbox)@
                        }
                    },
                }
            },
    {
        if let MouseEvent::Down { .. } = ev {
            let ghost before = outbox@;
            outbox.push(Command {
                target: Target::Widget(self.manager.0),
                payload: Payload::RaiseWindow(self.host_id),
            });
            assert(outbox@.drop_last() =~= before);
        }
        match &mut self.titlebar {
            Some(titlebar) => {
                if over_titlebar || titlebar.drag {
                    titlebar.event(ev, outbox);
                }
            },
            None => {},
        }
    }

    /// The title bar's close button: asks, by notification, to close the
    /// window this decoration belongs to.
    pub fn close_clicked<T>(&self, outbox: &mut Vec<Command<T>>)
        ensures
            final(outbox)@.len() == old(outbox)@.len() + 1,
            final(outbox)@.drop_last() == old(outbox)@,
            is_close_notification(final(outbox)@.last()),
    {
        let ghost before = outbox@;
        outbox.push(Command { target: Target::Auto, payload: Payload::CloseWindow(SingleUse::new(None)) });
        assert(outbox@.drop_last() =~= before);
    }
}

} // verus!
