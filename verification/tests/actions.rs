use vizia_scene::actions::{ActionsEvent, ActionsModel, EventContext, EventHandle, WindowEvent};
use vizia_scene::entity::Entity;
use vizia_scene::tree::Tree;

fn e(index: u32) -> Entity {
    Entity::new(index, 0)
}

/// root -> [1 -> [2], 3]
fn sample() -> Tree {
    let mut tree = Tree::new();
    assert_eq!(tree.add(e(1), Entity::root()), Ok(()));
    assert_eq!(tree.add(e(2), e(1)), Ok(()));
    assert_eq!(tree.add(e(3), Entity::root()), Ok(()));
    tree
}

fn all_actions() -> [ActionsEvent; 12] {
    [
        ActionsEvent::OnPress,
        ActionsEvent::OnPressDown,
        ActionsEvent::OnHover,
        ActionsEvent::OnHoverOut,
        ActionsEvent::OnOver,
        ActionsEvent::OnOverOut,
        ActionsEvent::OnMouseMove,
        ActionsEvent::OnMouseDown,
        ActionsEvent::OnMouseUp,
        ActionsEvent::OnFocusIn,
        ActionsEvent::OnFocusOut,
        ActionsEvent::OnGeoChanged,
    ]
}

fn full_model() -> ActionsModel {
    let mut model = ActionsModel::new();
    for action in all_actions() {
        model.register(action);
    }
    model
}

#[test]
fn new_model_calls_nothing() {
    let tree = sample();
    let cx = EventContext { current: e(1), hovered: e(1), focused: e(1), tree: &tree };
    let model = ActionsModel::new();
    for event in [
        WindowEvent::Press { mouse: true },
        WindowEvent::PressDown { mouse: false },
        WindowEvent::MouseEnter,
        WindowEvent::MouseOver,
        WindowEvent::MouseMove,
        WindowEvent::FocusIn,
        WindowEvent::GeometryChanged,
    ] {
        assert_eq!(model.event(&cx, event, e(1)), None);
    }
}

#[test]
fn register_sets_one_callback() {
    let mut model = ActionsModel::new();
    model.register(ActionsEvent::OnHover);
    assert!(model.on_hover);
    assert!(!model.on_press && !model.on_hover_out && !model.on_geo_changed);
    model.register(ActionsEvent::OnGeoChanged);
    assert!(model.on_hover && model.on_geo_changed);
}

#[test]
fn press_reaches_the_entity_and_its_ancestors() {
    let tree = sample();
    let model = full_model();
    let on_child = EventContext { current: e(1), hovered: e(2), focused: e(3), tree: &tree };
    assert_eq!(model.event(&on_child, WindowEvent::Press { mouse: true }, e(2)), Some(ActionsEvent::OnPress));
    assert_eq!(model.event(&on_child, WindowEvent::Press { mouse: false }, e(2)), None);
    assert_eq!(
        model.event(&on_child, WindowEvent::PressDown { mouse: true }, e(2)),
        Some(ActionsEvent::OnPressDown)
    );
    let on_self = EventContext { current: e(3), hovered: e(2), focused: e(3), tree: &tree };
    assert_eq!(model.event(&on_self, WindowEvent::Press { mouse: false }, e(3)), Some(ActionsEvent::OnPress));
    assert_eq!(model.event(&on_self, WindowEvent::PressDown { mouse: true }, e(3)), None);
    let nowhere = EventContext { current: e(1), hovered: Entity::null(), focused: Entity::null(), tree: &tree };
    assert_eq!(model.event(&nowhere, WindowEvent::Press { mouse: true }, e(1)), None);
}

#[test]
fn targeted_events_need_the_current_entity_as_target() {
    let tree = sample();
    let model = full_model();
    let cx = EventContext { current: e(1), hovered: e(1), focused: e(1), tree: &tree };
    for (event, action) in [
        (WindowEvent::MouseEnter, ActionsEvent::OnHover),
        (WindowEvent::MouseLeave, ActionsEvent::OnHoverOut),
        (WindowEvent::MouseOut, ActionsEvent::OnOverOut),
        (WindowEvent::GeometryChanged, ActionsEvent::OnGeoChanged),
    ] {
        assert_eq!(model.event(&cx, event, e(1)), Some(action));
        assert_eq!(model.event(&cx, event, e(2)), None);
    }
}

#[test]
fn untargeted_events_call_their_callback() {
    let tree = sample();
    let model = full_model();
    let cx = EventContext { current: e(1), hovered: e(3), focused: e(3), tree: &tree };
    for (event, action) in [
        (WindowEvent::MouseOver, ActionsEvent::OnOver),
        (WindowEvent::MouseMove, ActionsEvent::OnMouseMove),
        (WindowEvent::MouseDown, ActionsEvent::OnMouseDown),
        (WindowEvent::MouseUp, ActionsEvent::OnMouseUp),
        (WindowEvent::FocusIn, ActionsEvent::OnFocusIn),
        (WindowEvent::FocusOut, ActionsEvent::OnFocusOut),
    ] {
        assert_eq!(model.event(&cx, event, e(2)), Some(action));
    }
    assert_eq!(model.event(&cx, WindowEvent::Other, e(1)), None);
}

#[test]
fn only_registered_callbacks_are_called() {
    let tree = sample();
    let cx = EventContext { current: e(1), hovered: e(1), focused: e(1), tree: &tree };
    let mut model = ActionsModel::new();
    model.register(ActionsEvent::OnPress);
    assert_eq!(model.event(&cx, WindowEvent::Press { mouse: true }, e(1)), Some(ActionsEvent::OnPress));
    assert_eq!(model.event(&cx, WindowEvent::PressDown { mouse: true }, e(1)), None);
    assert_eq!(model.event(&cx, WindowEvent::MouseOver, e(1)), None);
}

#[test]
fn handle_keeps_the_current_entity_and_moves_focus() {
    let tree = sample();
    let mut cx = EventContext { current: e(2), hovered: e(1), focused: e(3), tree: &tree };
    assert_eq!(cx.current(), e(2));
    {
        let mut handle = EventHandle::new(&mut cx);
        assert_eq!(handle.current(), e(2));
        handle.focus();
        assert_eq!(handle.current(), e(2));
    }
    assert_eq!(cx.focused, e(2));
    assert_eq!(cx.hovered, e(1));
    assert_eq!(cx.current, e(2));
}
