//! Which action callback an event calls for.

use vstd::prelude::*;
use crate::entity::Entity;
use crate::tree::Tree;

verus! {

/// What event handling reads and changes: the entity whose handlers run,
/// the entities under the pointer and with keyboard focus, and the tree.
pub struct EventContext<'a> {
    /// The entity whose handlers are running.
    pub current: Entity,
    /// The entity under the pointer.
    pub hovered: Entity,
    /// The entity with keyboard focus.
    pub focused: Entity,
    /// The tree the entities live in.
    pub tree: &'a Tree,
}

impl<'a> EventContext<'a> {
    /// Returns the entity whose handlers are running.
    pub fn current(&self) -> (r: Entity)
        ensures
            r == self.current,
    {
        self.current
    }

    /// Gives keyboard focus to the current entity.
    pub fn focus(&mut self)
        ensures
            final(self).focused == old(self).current,
            final(self).current == old(self).current,
            final(self).hovered == old(self).hovered,
            final(self).tree == old(self).tree,
    {
        self.focused = self.current;
    }
}

/// The callbacks a view can carry, one for each kind of action.
#[derive(Clone, Copy, Debug, PartialEq, Eq, Structural)]
pub enum ActionsEvent {
    /// Called when the view was pressed.
    OnPress,
    /// Called when a press of the view begins.
    OnPressDown,
    /// Called when the pointer comes to rest on the view.
    OnHover,
    /// Called when the pointer leaves the view.
    OnHoverOut,
    /// Called when the pointer enters the bounds of the view.
    OnOver,
    /// Called when the pointer leaves the bounds of the view.
    OnOverOut,
    /// Called when the pointer moves within the bounds of the view.
    OnMouseMove,
    /// Called when a mouse button goes down on the view.
    OnMouseDown,
    /// Called when a mouse button goes up on the view.
    OnMouseUp,
    /// Called when the view gains keyboard focus.
    OnFocusIn,
    /// Called when the view loses keyboard focus.
    OnFocusOut,
    /// Called when layout changed the size or position of the view.
    OnGeoChanged,
}

/// The window events that action callbacks react to.
#[derive(Clone, Copy, Debug, PartialEq, Eq, Structural)]
pub enum WindowEvent {
    /// A press was completed, by the mouse or by the keyboard.
    Press { mouse: bool },
    /// A press has begun, by the mouse or by the keyboard.
    PressDown { mouse: bool },
    /// The pointer came to rest on the target.
    MouseEnter,
    /// The pointer left the target.
    MouseLeave,
    /// The pointer entered the bounds of the target.
    MouseOver,
    /// The pointer left the bounds of the target.
    MouseOut,
    /// The pointer moved.
    MouseMove,
    /// A mouse button went down.
    MouseDown,
    /// A mouse button went up.
    MouseUp,
    /// The target gained keyboard focus.
    FocusIn,
    /// The target lost keyboard focus.
    FocusOut,
    /// Layout changed the size or position of the target.
    GeometryChanged,
    /// Any other event.
    Other,
}

/// Which action callbacks a view carries: one flag for each kind of action,
/// set once a callback of that kind was registered.
#[derive(Clone, Copy, Debug, PartialEq, Eq, Structural)]
pub struct ActionsModel {
    pub on_press: bool,
    pub on_press_down: bool,
    pub on_hover: bool,
    pub on_hover_out: bool,
    pub on_over: bool,
    pub on_over_out: bool,
    pub on_mouse_move: bool,
    pub on_mouse_down: bool,
    pub on_mouse_up: bool,
    pub on_focus_in: bool,
    pub on_focus_out: bool,
    pub on_geo_changed: bool,
}

impl ActionsModel {
    /// Whether the view carries the callback for `action`.
    pub open spec fn has(self, action: ActionsEvent) -> bool {
        match action {
            ActionsEvent::OnPress => self.on_press,
            ActionsEvent::OnPressDown => self.on_press_down,
            ActionsEvent::OnHover => self.on_hover,
            ActionsEvent::OnHoverOut => self.on_hover_out,
            ActionsEvent::OnOver => self.on_over,
            ActionsEvent::OnOverOut => self.on_over_out,
            ActionsEvent::OnMouseMove => self.on_mouse_move,
            ActionsEvent::OnMouseDown => self.on_mouse_down,
            ActionsEvent::OnMouseUp => self.on_mouse_up,
            ActionsEvent::OnFocusIn => self.on_focus_in,
            ActionsEvent::OnFocusOut => self.on_focus_out,
            ActionsEvent::OnGeoChanged => self.on_geo_changed,
        }
    }

    /// Whether a press reaches the current entity: the entity under the
    /// pointer, or the focused one for a press by keyboard, is the current
    /// entity or one of its descendants.
    pub open spec fn press_reaches(cx: EventContext, mouse: bool) -> bool {
        let over = if mouse {
            cx.hovered
        } else {
            cx.focused
        };
        cx.current == over || (!over.spec_is_null() && cx.tree.in_subtree(
            over.spec_index(),
            cx.current.spec_index(),
        ))
    }

    /// The action that `event`, sent to `target`, calls for on the current
    /// entity, whether or not the view carries a callback for it.
    pub open spec fn action_for(cx: EventContext, event: WindowEvent, target: Entity) -> Option<
        ActionsEvent,
    > {
        match event {
            WindowEvent::Press { mouse } => if Self::press_reaches(cx, mouse) {
                Some(ActionsEvent::OnPress)
            } else {
                None
            },
            WindowEvent::PressDown { mouse } => if Self::press_reaches(cx, mouse) {
                Some(ActionsEvent::OnPressDown)
            } else {
                None
            },
            WindowEvent::MouseEnter => if target == cx.current {
                Some(ActionsEvent::OnHover)
            } else {
                None
            },
            WindowEvent::MouseLeave => if target == cx.current {
                Some(ActionsEvent::OnHoverOut)
            } else {
                None
            },
            WindowEvent::MouseOver => Some(ActionsEvent::OnOver),
            WindowEvent::MouseOut => if target == cx.current {
                Some(ActionsEvent::OnOverOut)
            } else {
                None
            },
            WindowEvent::MouseMove => Some(ActionsEvent::OnMouseMove),
            WindowEvent::MouseDown => Some(ActionsEvent::OnMouseDown),
            WindowEvent::MouseUp => Some(ActionsEvent::OnMouseUp),
            WindowEvent::FocusIn => Some(ActionsEvent::OnFocusIn),
            WindowEvent::FocusOut => Some(ActionsEvent::OnFocusOut),
            WindowEvent::GeometryChanged => if target == cx.current {
                Some(ActionsEvent::OnGeoChanged)
            } else {
                None
            },
            WindowEvent::Other => None,
        }
    }

    /// The callback to call for `event`: the action it calls for, where the
    /// view carries a callback for that action.
    pub open spec fn callback_for(
        self,
        cx: EventContext,
        event: WindowEvent,
        target: Entity,
    ) -> Option<ActionsEvent> {
        match Self::action_for(cx, event, target) {
            Some(action) => if self.has(action) {
                Some(action)
            } else {
                None
            },
            None => None,
        }
    }

    /// Creates the model of a view without callbacks.
    pub fn new() -> (r: Self)
        ensures
            forall|action: ActionsEvent| !r.has(action),
    {
        Self {
            on_press: false,
            on_press_down: false,
            on_hover: false,
            on_hover_out: false,
            on_over: false,
            on_over_out: false,
            on_mouse_move: false,
            on_mouse_down: false,
            on_mouse_up: false,
            on_focus_in: false,
            on_focus_out: false,
            on_geo_changed: false,
        }
    }

    /// Records that the view now carries the callback for `action`.
    pub fn register(&mut self, action: ActionsEvent)
        ensures
            forall|other: ActionsEvent|
                final(self).has(other) == (other == action || old(self).has(other)),
    {
        match action {
            ActionsEvent::OnPress => {
                self.on_press = true;
            },
            ActionsEvent::OnPressDown => {
                self.on_press_down = true;
            },
            ActionsEvent::OnHover => {
                self.on_hover = true;
            },
            ActionsEvent::OnHoverOut => {
                self.on_hover_out = true;
            },
            ActionsEvent::OnOver => {
                self.on_over = true;
            },
            ActionsEvent::OnOverOut => {
                self.on_over_out = true;
            },
            ActionsEvent::OnMouseMove => {
                self.on_mouse_move = true;
            },
            ActionsEvent::OnMouseDown => {
                self.on_mouse_down = true;
            },
            ActionsEvent::OnMouseUp => {
                self.on_mouse_up = true;
            },
            ActionsEvent::OnFocusIn => {
                self.on_focus_in = true;
            },
            ActionsEvent::OnFocusOut => {
                self.on_focus_out = true;
            },
            ActionsEvent::OnGeoChanged => {
                self.on_geo_changed = true;
            },
        }
    }

    /// Returns true if a press reaches the current entity.
    fn press_reaches_current(cx: &EventContext, mouse: bool) -> (r: bool)
        requires
            cx.tree.wf(),
        ensures
            r == Self::press_reaches(*cx, mouse),
    {
        let over = if mouse {
            cx.hovered
        } else {
            cx.focused
        };
        cx.current == over || cx.tree.is_descendant_of(over, cx.current)
    }

    /// Decides which callback of the view `event` calls, if any. The caller
    /// runs the callback.
    pub fn event(&self, cx: &EventContext, event: WindowEvent, target: Entity) -> (r: Option<
        ActionsEvent,
    >)
        requires
            cx.tree.wf(),
        ensures
            r == self.callback_for(*cx, event, target),
    {
        match event {
            WindowEvent::Press { mouse } => {
                if !Self::press_reaches_current(cx, mouse) {
                    return None;
                }
                if self.on_press {
                    return Some(ActionsEvent::OnPress);
                }
            },
            WindowEvent::PressDown { mouse } => {
                if !Self::press_reaches_current(cx, mouse) {
                    return None;
                }
                if self.on_press_down {
                    return Some(ActionsEvent::OnPressDown);
                }
            },
            WindowEvent::MouseEnter => {
                if target == cx.current && self.on_hover {
                    return Some(ActionsEvent::OnHover);
                }
            },
            WindowEvent::MouseLeave => {
                if target == cx.current && self.on_hover_out {
                    return Some(ActionsEvent::OnHoverOut);
                }
            },
            WindowEvent::MouseOver => {
                if self.on_over {
                    return Some(ActionsEvent::OnOver);
                }
            },
            WindowEvent::MouseOut => {
                if target == cx.current && self.on_over_out {
                    return Some(ActionsEvent::OnOverOut);
                }
            },
            WindowEvent::MouseMove => {
                if self.on_mouse_move {
                    return Some(ActionsEvent::OnMouseMove);
                }
            },
            WindowEvent::MouseDown => {
                if self.on_mouse_down {
                    return Some(ActionsEvent::OnMouseDown);
                }
            },
            WindowEvent::MouseUp => {
                if self.on_mouse_up {
                    return Some(ActionsEvent::OnMouseUp);
                }
            },
            WindowEvent::FocusIn => {
                if self.on_focus_in {
                    return Some(ActionsEvent::OnFocusIn);
                }
            },
            WindowEvent::FocusOut => {
                if self.on_focus_out {
                    return Some(ActionsEvent::OnFocusOut);
                }
            },
            WindowEvent::GeometryChanged => {
                if target == cx.current && self.on_geo_changed {
                    return Some(ActionsEvent::OnGeoChanged);
                }
            },
            WindowEvent::Other => {},
        }
        None
    }
}

/// What an action callback is handed: the context of the event and the
/// entity the callback was registered on.
pub struct EventHandle<'a, 'b> {
    /// The context of the event.
    pub cx: &'a mut EventContext<'b>,
    /// The entity the callback was registered on.
    pub entity: Entity,
}

impl<'a, 'b> EventHandle<'a, 'b> {
    /// Wraps the context for the entity whose handlers are running. What
    /// is done through the handle is done to the context.
    pub fn new(cx: &'a mut EventContext<'b>) -> (r: Self)
        ensures
            r.entity == old(cx).current,
            *r.cx == *old(cx),
            *final(cx) == *final(r.cx),
    {
        let entity = cx.current();
        Self { cx, entity }
    }

    /// Returns the entity the callback was registered on.
    pub fn current(&self) -> (r: Entity)
        ensures
            r == self.entity,
    {
        self.entity
    }

    /// Gives keyboard focus to the current entity of the context.
    pub fn focus(&mut self)
        ensures
            final(self).entity == old(self).entity,
            *final(self).cx == (EventContext { focused: old(self).cx.current, ..*old(self).cx }),
            *final(final(self).cx) == *final(old(self).cx),
    {
        self.cx.focus()
    }
}

} // verus!
