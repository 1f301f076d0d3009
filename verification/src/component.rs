//! Plain values that name components, items and input events.

use vstd::prelude::*;

verus! {

/// A component instance as the runtime sees it: the address of its pinned
/// per-instance block and the address of its dispatch table.
#[derive(Clone, Copy, Debug, PartialEq, Eq, Structural)]
pub struct ComponentRc {
    pub instance: usize,
    pub vtable: usize,
}

/// One item of a component tree, named by the tree's root and the item's
/// position in the child enumeration rather than by an owning pointer.
#[derive(Clone, Copy, Debug, PartialEq, Eq, Structural)]
pub struct ItemRc {
    pub component: ComponentRc,
    pub index: usize,
}

/// A window-relative position in physical pixels.
#[derive(Clone, Copy, Debug, PartialEq, Eq, Structural)]
pub struct Point {
    pub x: i32,
    pub y: i32,
}

/// The set of modifier keys that are held, one bit each.
#[derive(Clone, Copy, Debug, PartialEq, Eq, Structural)]
pub struct KeyboardModifiers(pub u32);

/// A key event as the windowing system reports it.
#[derive(Clone, Copy, Debug, PartialEq, Eq, Structural)]
pub enum KeyEvent {
    KeyPressed { code: u32, modifiers: KeyboardModifiers },
    KeyReleased { code: u32, modifiers: KeyboardModifiers },
    CharacterInput { unicode_scalar: u32, modifiers: KeyboardModifiers },
}

/// The kind of a pointer event.
#[derive(Clone, Copy, Debug, PartialEq, Eq, Structural)]
pub enum MouseEventType {
    /// A button was pressed.
    MousePressed,
    /// A button was released.
    MouseReleased,
    /// The pointer moved.
    MouseMoved,
}

/// The root of the tree in which a handler or a dispatch entry point runs.
/// It is lent for one dispatch call and never kept.
#[derive(Clone, Copy, Debug, PartialEq, Eq, Structural)]
pub struct EvaluationContext {
    pub component: ComponentRc,
}

impl EvaluationContext {
    /// The context of the tree rooted at `component`.
    pub fn for_root_component(component: ComponentRc) -> (ctx: Self)
        ensures
            ctx.component == component,
    {
        EvaluationContext { component }
    }

    /// The context in which `item` is processed: that of the item's own root,
    /// so that an item of a popup is evaluated against the popup.
    pub fn for_item(item: &ItemRc) -> (ctx: Self)
        ensures
            ctx.component == item.component,
    {
        EvaluationContext { component: item.component }
    }
}

} // verus!
