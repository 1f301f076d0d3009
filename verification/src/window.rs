//! The event-routing state of one window.

use crate::component::{
    ComponentRc, EvaluationContext, ItemRc, KeyEvent, KeyboardModifiers, MouseEventType, Point,
};
use vstd::prelude::*;

verus! {

/// What a window asks of its collaborators: a notification to dispatch to an
/// item through its component's table, or work for the graphics backend.
#[derive(Clone, Copy, Debug, PartialEq, Eq, Structural)]
pub enum WindowAction {
    /// The item lost the keyboard focus.
    FocusOut(ItemRc),
    /// The item gained the keyboard focus.
    FocusIn(ItemRc),
    /// The window gained the focus while the item was its focus item.
    WindowFocusReceived(ItemRc),
    /// The window lost the focus while the item was its focus item.
    WindowFocusLost(ItemRc),
    /// A key event for the item.
    Key(ItemRc, KeyEvent),
    /// The backend is to drop what it caches for the item.
    Evict(ItemRc),
    /// The platform window is to take this size, in physical pixels.
    Resize(u32, u32),
    /// A pointer event at a position in physical pixels, to be hit-tested
    /// against the tree on screen and passed to the item that is found.
    Mouse(Point, MouseEventType),
    /// The windowing system is to schedule a rendering of the window.
    RequestRedraw,
    /// The backend is to render the items now.
    Draw,
}

impl WindowAction {
    /// The item that the action is dispatched to; `None` for work that goes
    /// to the platform or the backend as a whole, and for a pointer event,
    /// whose target the hit test has yet to find.
    pub open spec fn target_item(self) -> Option<ItemRc> {
        match self {
            WindowAction::FocusOut(item) => Some(item),
            WindowAction::FocusIn(item) => Some(item),
            WindowAction::WindowFocusReceived(item) => Some(item),
            WindowAction::WindowFocusLost(item) => Some(item),
            WindowAction::Key(item, _) => Some(item),
            WindowAction::Evict(item) => Some(item),
            WindowAction::Resize(_, _) => None,
            WindowAction::Mouse(_, _) => None,
            WindowAction::RequestRedraw => None,
            WindowAction::Draw => None,
        }
    }

    /// The item that the action is dispatched to, if it goes to one.
    pub fn target(&self) -> (item: Option<ItemRc>)
        ensures
            item == self.target_item(),
    {
        match self {
            WindowAction::FocusOut(item) => Some(*item),
            WindowAction::FocusIn(item) => Some(*item),
            WindowAction::WindowFocusReceived(item) => Some(*item),
            WindowAction::WindowFocusLost(item) => Some(*item),
            WindowAction::Key(item, _) => Some(*item),
            WindowAction::Evict(item) => Some(*item),
            WindowAction::Resize(_, _) => None,
            WindowAction::Mouse(_, _) => None,
            WindowAction::RequestRedraw => None,
            WindowAction::Draw => None,
        }
    }

    /// The context in which the action is dispatched: that of the root of
    /// the tree which holds the target item, so that an item of a popup is
    /// processed against the popup and not against the window's root.
    pub fn context(&self) -> (ctx: Option<EvaluationContext>)
        ensures
            ctx == match self.target_item() {
                Some(item) => Some(EvaluationContext { component: item.component }),
                None => None,
            },
    {
        match self.target() {
            Some(item) => Some(EvaluationContext::for_item(&item)),
            None => None,
        }
    }
}

/// What the platform's event loop delivers to a mapped window.
#[derive(Clone, Copy, Debug, PartialEq, Eq, Structural)]
pub enum WindowEvent {
    /// A key was pressed or released, or a character was entered.
    Key(KeyEvent),
    /// The pointer was pressed, released or moved at a position in physical
    /// pixels.
    Mouse(Point, MouseEventType),
    /// The window gained (`true`) or lost (`false`) the focus.
    Focus(bool),
    /// The set of held modifier keys changed.
    ModifiersChanged(KeyboardModifiers),
    /// The platform changed the window's size, in physical pixels.
    Resized(u32, u32),
    /// The platform asks for the contents to be drawn.
    RedrawRequested,
}

/// One eviction for each item of `items`, in order.
pub open spec fn evictions(items: Seq<ItemRc>) -> Seq<WindowAction> {
    Seq::new(items.len(), |i: int| WindowAction::Evict(items[i]))
}

/// The state of a window as contracts speak of it.
pub struct WindowModel {
    /// The root component that the window observes, without owning it.
    pub component: Option<ComponentRc>,
    /// Whether a platform window is on screen.
    pub mapped: bool,
    /// The window's size in physical pixels.
    pub size: (u32, u32),
    /// The modifier keys that are held.
    pub modifiers: KeyboardModifiers,
    /// The item that receives key events.
    pub focus_item: Option<ItemRc>,
    /// The popup that is shown, with its anchor. There is at most one.
    pub popup: Option<(ComponentRc, Point)>,
    /// The property that follows the text cursor's blinking.
    pub cursor_blink: Option<usize>,
    /// The actions asked for so far and not yet collected, oldest first.
    pub actions: Seq<WindowAction>,
}

impl WindowModel {
    /// A window that was just created: unmapped, bound to nothing.
    pub open spec fn initial() -> WindowModel {
        WindowModel {
            component: None,
            mapped: false,
            size: (0u32, 0u32),
            modifiers: KeyboardModifiers(0),
            focus_item: None,
            popup: None,
            cursor_blink: None,
            actions: Seq::empty(),
        }
    }

    /// The window with `action` added to what it asks for.
    pub open spec fn ask(self, action: WindowAction) -> WindowModel {
        WindowModel { actions: self.actions.push(action), ..self }
    }

    /// The window bound to the root `component`; nothing else changes.
    pub open spec fn set_component(self, component: ComponentRc) -> WindowModel {
        WindowModel { component: Some(component), ..self }
    }

    /// The window on screen. Where the root declares a size, the window takes
    /// it and asks the platform for it.
    pub open spec fn map_window(self, root_size: Option<(u32, u32)>) -> WindowModel {
        match root_size {
            Some((width, height)) => WindowModel {
                mapped: true,
                size: (width, height),
                ..self
            }.ask(WindowAction::Resize(width, height)),
            None => WindowModel { mapped: true, ..self },
        }
    }

    /// The window off screen; it keeps its state and can be mapped again.
    pub open spec fn unmap_window(self) -> WindowModel {
        WindowModel { mapped: false, ..self }
    }

    /// The window after the root's declared size changed: the platform window
    /// follows it.
    pub open spec fn root_resized(self, width: u32, height: u32) -> WindowModel {
        WindowModel { size: (width, height), ..self }.ask(WindowAction::Resize(width, height))
    }

    /// The window after the platform gave it a new width.
    pub open spec fn set_width(self, width: u32) -> WindowModel {
        WindowModel { size: (width, self.size.1), ..self }
    }

    /// The window after the platform gave it a new height.
    pub open spec fn set_height(self, height: u32) -> WindowModel {
        WindowModel { size: (self.size.0, height), ..self }
    }

    /// The window after a redraw was requested of the windowing system.
    pub open spec fn request_redraw(self) -> WindowModel {
        self.ask(WindowAction::RequestRedraw)
    }

    /// The window after it was told to draw its items.
    pub open spec fn draw(self) -> WindowModel {
        self.ask(WindowAction::Draw)
    }

    /// The window after a pointer event: it is passed on for the hit test,
    /// with its position and kind as they came.
    pub open spec fn process_mouse_input(self, pos: Point, what: MouseEventType) -> WindowModel {
        self.ask(WindowAction::Mouse(pos, what))
    }

    /// The window after a key event: it goes to the focus item, and is
    /// dropped where no item has the focus.
    pub open spec fn process_key_input(self, event: KeyEvent) -> WindowModel {
        match self.focus_item {
            Some(item) => self.ask(WindowAction::Key(item, event)),
            None => self,
        }
    }

    /// The window after the focus moved to `item`: the item that had it is
    /// told first that it lost it, then `item` that it gained it.
    pub open spec fn set_focus_item(self, item: ItemRc) -> WindowModel {
        let cleared = match self.focus_item {
            Some(previous) => self.ask(WindowAction::FocusOut(previous)),
            None => self,
        };
        WindowModel { focus_item: Some(item), ..cleared }.ask(WindowAction::FocusIn(item))
    }

    /// The window after it gained or lost the focus: the focus item is told,
    /// and keeps the focus within the window.
    pub open spec fn set_focus(self, have_focus: bool) -> WindowModel {
        match self.focus_item {
            Some(item) => if have_focus {
                self.ask(WindowAction::WindowFocusReceived(item))
            } else {
                self.ask(WindowAction::WindowFocusLost(item))
            },
            None => self,
        }
    }

    /// The window showing `popup` at `position`, in place of any popup that
    /// was shown. Focus and size do not change.
    pub open spec fn show_popup(self, popup: ComponentRc, position: Point) -> WindowModel {
        WindowModel { popup: Some((popup, position)), ..self }
    }

    /// The window with no popup.
    pub open spec fn close_popup(self) -> WindowModel {
        WindowModel { popup: None, ..self }
    }

    /// The window after the items of `items` were given up: one eviction is
    /// asked for each, in order.
    pub open spec fn free_graphics_resources(self, items: Seq<ItemRc>) -> WindowModel {
        WindowModel { actions: self.actions + evictions(items), ..self }
    }

    /// The window with the blink binding installed on the property `prop`.
    pub open spec fn set_cursor_blink_binding(self, prop: usize) -> WindowModel {
        WindowModel { cursor_blink: Some(prop), ..self }
    }

    /// The window with `modifiers` as the held modifier keys.
    pub open spec fn set_current_keyboard_modifiers(
        self,
        modifiers: KeyboardModifiers,
    ) -> WindowModel {
        WindowModel { modifiers, ..self }
    }

    /// The window with nothing left to collect.
    pub open spec fn collected(self) -> WindowModel {
        WindowModel { actions: Seq::empty(), ..self }
    }

    /// The window after one event of the platform.
    pub open spec fn handle_event(self, event: WindowEvent) -> WindowModel {
        match event {
            WindowEvent::Key(key) => self.process_key_input(key),
            WindowEvent::Mouse(pos, what) => self.process_mouse_input(pos, what),
            WindowEvent::Focus(have_focus) => self.set_focus(have_focus),
            WindowEvent::ModifiersChanged(modifiers) => self.set_current_keyboard_modifiers(
                modifiers,
            ),
            WindowEvent::Resized(width, height) => self.set_width(width).set_height(height),
            WindowEvent::RedrawRequested => self.draw(),
        }
    }

    /// The window after the events of `events`, in order.
    pub open spec fn handle_events(self, events: Seq<WindowEvent>) -> WindowModel
        decreases events.len(),
    {
        if events.len() == 0 {
            self
        } else {
            self.handle_events(events.drop_last()).handle_event(events.last())
        }
    }

    /// The window after a whole session: mapped, sized by the root where it
    /// declares a size, fed the events of `events`, and unmapped.
    pub open spec fn run(self, root_size: Option<(u32, u32)>, events: Seq<WindowEvent>) -> WindowModel {
        self.map_window(root_size).handle_events(events).unmap_window()
    }
}

/// What generated code and the event loop need of a window. Each operation
/// is fire-and-forget: none fails, and what it asks of the platform, the
/// backend or an item is added to the window's actions.
pub trait GenericWindow {
    /// The window's state.
    spec fn model(&self) -> WindowModel;

    /// Binds the window to the root `component`, for the events to come.
    fn set_component(&mut self, component: &ComponentRc)
        ensures
            final(self).model() == old(self).model().set_component(*component),
    ;

    /// Puts the window on screen, with the size that the root declares.
    fn map_window(&mut self, root_size: Option<(u32, u32)>)
        ensures
            final(self).model() == old(self).model().map_window(root_size),
    ;

    /// Takes the window off screen without destroying it.
    fn unmap_window(&mut self)
        ensures
            final(self).model() == old(self).model().unmap_window(),
    ;

    /// Follows a change of the size that the root declares.
    fn root_resized(&mut self, width: u32, height: u32)
        ensures
            final(self).model() == old(self).model().root_resized(width, height),
    ;

    /// Takes the width that the platform reports after a resize.
    fn set_width(&mut self, width: u32)
        ensures
            final(self).model() == old(self).model().set_width(width),
    ;

    /// Takes the height that the platform reports after a resize.
    fn set_height(&mut self, height: u32)
        ensures
            final(self).model() == old(self).model().set_height(height),
    ;

    /// The window's size in physical pixels.
    fn get_geometry(&self) -> (size: (u32, u32))
        ensures
            size == self.model().size,
    ;

    /// Asks the windowing system to render the window again.
    fn request_redraw(&mut self)
        ensures
            final(self).model() == old(self).model().request_redraw(),
    ;

    /// Draws the items of the window's component.
    fn draw(&mut self)
        ensures
            final(self).model() == old(self).model().draw(),
    ;

    /// Passes a pointer event at `pos`, in physical pixels, to the items of
    /// the tree on screen.
    fn process_mouse_input(&mut self, pos: Point, what: MouseEventType)
        ensures
            final(self).model() == old(self).model().process_mouse_input(pos, what),
    ;

    /// Passes a key event to the focus item; without one it is dropped.
    fn process_key_input(&mut self, event: &KeyEvent)
        ensures
            final(self).model() == old(self).model().process_key_input(*event),
    ;

    /// Gives up what the backend caches for `items`, before their memory is
    /// released.
    fn free_graphics_resources(&mut self, items: &[ItemRc])
        ensures
            final(self).model() == old(self).model().free_graphics_resources(items@),
    ;

    /// Installs the binding that follows the text cursor's blinking on `prop`.
    fn set_cursor_blink_binding(&mut self, prop: usize)
        ensures
            final(self).model() == old(self).model().set_cursor_blink_binding(prop),
    ;

    /// The modifier keys that are held.
    fn current_keyboard_modifiers(&self) -> (modifiers: KeyboardModifiers)
        ensures
            modifiers == self.model().modifiers,
    ;

    /// Sets the modifier keys that are held.
    fn set_current_keyboard_modifiers(&mut self, modifiers: KeyboardModifiers)
        ensures
            final(self).model() == old(self).model().set_current_keyboard_modifiers(modifiers),
    ;

    /// Moves the focus to `focus_item`, away from the item that had it.
    fn set_focus_item(&mut self, focus_item: &ItemRc)
        ensures
            final(self).model() == old(self).model().set_focus_item(*focus_item),
    ;

    /// Tells the focus item that the window gained or lost the focus.
    fn set_focus(&mut self, have_focus: bool)
        ensures
            final(self).model() == old(self).model().set_focus(have_focus),
    ;

    /// Shows `popup` at `position`, in place of any popup that is shown.
    fn show_popup(&mut self, popup: &ComponentRc, position: Point)
        ensures
            final(self).model() == old(self).model().show_popup(*popup, position),
    ;

    /// Closes the popup, if one is shown.
    fn close_popup(&mut self)
        ensures
            final(self).model() == old(self).model().close_popup(),
    ;

    /// Hands out the actions asked for since the last call, oldest first.
    fn take_actions(&mut self) -> (actions: Vec<WindowAction>)
        ensures
            actions@ == old(self).model().actions,
            final(self).model() == old(self).model().collected(),
    ;
}

/// The window's state, kept as plain values.
pub struct WindowController {
    component: Option<ComponentRc>,
    mapped: bool,
    size: (u32, u32),
    modifiers: KeyboardModifiers,
    focus_item: Option<ItemRc>,
    popup: Option<(ComponentRc, Point)>,
    cursor_blink: Option<usize>,
    actions: Vec<WindowAction>,
}

impl WindowController {
    /// A window that is unmapped and bound to nothing.
    pub fn new() -> (w: Self)
        ensures
            w.model() == WindowModel::initial(),
    {
        WindowController {
            component: None,
            mapped: false,
            size: (0, 0),
            modifiers: KeyboardModifiers(0),
            focus_item: None,
            popup: None,
            cursor_blink: None,
            actions: Vec::new(),
        }
    }

    /// The root component that the window observes.
    pub fn component(&self) -> (c: Option<ComponentRc>)
        ensures
            c == self.model().component,
    {
        self.component
    }

    /// Whether the window is on screen.
    pub fn is_mapped(&self) -> (b: bool)
        ensures
            b == self.model().mapped,
    {
        self.mapped
    }

    /// The item that receives key events.
    pub fn focus_item(&self) -> (item: Option<ItemRc>)
        ensures
            item == self.model().focus_item,
    {
        self.focus_item
    }

    /// The popup that is shown, with its anchor.
    pub fn popup(&self) -> (p: Option<(ComponentRc, Point)>)
        ensures
            p == self.model().popup,
    {
        self.popup
    }

    /// The property on which the blink binding is installed.
    pub fn cursor_blink_binding(&self) -> (prop: Option<usize>)
        ensures
            prop == self.model().cursor_blink,
    {
        self.cursor_blink
    }
}

impl GenericWindow for WindowController {
    closed spec fn model(&self) -> WindowModel {
        WindowModel {
            component: self.component,
            mapped: self.mapped,
            size: self.size,
            modifiers: self.modifiers,
            focus_item: self.focus_item,
            popup: self.popup,
            cursor_blink: self.cursor_blink,
            actions: self.actions@,
        }
    }

    fn set_component(&mut self, component: &ComponentRc) {
        self.component = Some(*component);
    }

    fn map_window(&mut self, root_size: Option<(u32, u32)>) {
        self.mapped = true;
        if let Some((width, height)) = root_size {
            self.size = (width, height);
            self.actions.push(WindowAction::Resize(width, height));
        }
    }

    fn unmap_window(&mut self) {
        self.mapped = false;
    }

    fn root_resized(&mut self, width: u32, height: u32) {
        self.size = (width, height);
        self.actions.push(WindowAction::Resize(width, height));
    }

    fn set_width(&mut self, width: u32) {
        self.size = (width, self.size.1);
    }

    fn set_height(&mut self, height: u32) {
        self.size = (self.size.0, height);
    }

    fn get_geometry(&self) -> (size: (u32, u32)) {
        self.size
    }

    fn request_redraw(&mut self) {
        self.actions.push(WindowAction::RequestRedraw);
    }

    fn draw(&mut self) {
        self.actions.push(WindowAction::Draw);
    }

    fn process_mouse_input(&mut self, pos: Point, what: MouseEventType) {
        self.actions.push(WindowAction::Mouse(pos, what));
    }

    fn process_key_input(&mut self, event: &KeyEvent) {
        if let Some(item) = self.focus_item {
            self.actions.push(WindowAction::Key(item, *event));
        }
    }

    fn free_graphics_resources(&mut self, items: &[ItemRc]) {
        let mut i: usize = 0;
        while i < items.len()
            invariant
                i <= items.len(),
                self.component == old(self).component,
                self.mapped == old(self).mapped,
                self.size == old(self).size,
                self.modifiers == old(self).modifiers,
                self.focus_item == old(self).focus_item,
                self.popup == old(self).popup,
                self.cursor_blink == old(self).cursor_blink,
                self.actions@ =~= old(self).actions@ + evictions(items@.take(i as int)),
            decreases items.len() - i,
        {
            self.actions.push(WindowAction::Evict(items[i]));
            proof {
                assert(evictions(items@.take(i + 1)) =~= evictions(items@.take(i as int)).push(
                    WindowAction::Evict(items@[i as int]),
                ));
            }
            i += 1;
        }
        proof {
            assert(items@.take(i as int) =~= items@);
        }
    }

    fn set_cursor_blink_binding(&mut self, prop: usize) {
        self.cursor_blink = Some(prop);
    }

    fn current_keyboard_modifiers(&self) -> (modifiers: KeyboardModifiers) {
        self.modifiers
    }

    fn set_current_keyboard_modifiers(&mut self, modifiers: KeyboardModifiers) {
        self.modifiers = modifiers;
    }

    fn set_focus_item(&mut self, focus_item: &ItemRc) {
        if let Some(previous) = self.focus_item {
            self.actions.push(WindowAction::FocusOut(previous));
        }
        self.focus_item = Some(*focus_item);
        self.actions.push(WindowAction::FocusIn(*focus_item));
    }

    fn set_focus(&mut self, have_focus: bool) {
        if let Some(item) = self.focus_item {
            if have_focus {
                self.actions.push(WindowAction::WindowFocusReceived(item));
            } else {
                self.actions.push(WindowAction::WindowFocusLost(item));
            }
        }
    }

    fn show_popup(&mut self, popup: &ComponentRc, position: Point) {
        self.popup = Some((*popup, position));
    }

    fn close_popup(&mut self) {
        self.popup = None;
    }

    fn take_actions(&mut self) -> (actions: Vec<WindowAction>) {
        let mut actions = Vec::new();
        std::mem::swap(&mut self.actions, &mut actions);
        actions
    }
}

/// The window as generated code and applications hold it.
pub struct ComponentWindow<W: GenericWindow>(pub W);

impl<W: GenericWindow> ComponentWindow<W> {
    /// The state of the window behind this handle.
    pub open spec fn model(&self) -> WindowModel {
        self.0.model()
    }

    /// A handle on the window implementation `window_impl`.
    pub fn new(window_impl: W) -> (w: Self)
        ensures
            w.0 == window_impl,
    {
        ComponentWindow(window_impl)
    }

    /// Runs one session of the window: maps it, with the size that the root
    /// declares, handles the events that the event loop delivered, in order,
    /// and unmaps it.
    pub fn run(&mut self, root_size: Option<(u32, u32)>, events: &[WindowEvent])
        ensures
            final(self).model() == old(self).model().run(root_size, events@),
    {
        self.0.map_window(root_size);
        let mut i: usize = 0;
        while i < events.len()
            invariant
                i <= events.len(),
                self.0.model() == old(self).0.model().map_window(root_size).handle_events(
                    events@.take(i as int),
                ),
            decreases events.len() - i,
        {
            proof {
                assert(events@.take(i + 1).drop_last() =~= events@.take(i as int));
            }
            self.handle_event(&events[i]);
            i += 1;
        }
        proof {
            assert(events@.take(i as int) =~= events@);
        }
        self.0.unmap_window();
    }

    /// Handles one event of the platform: a key event goes to the focus item,
    /// a focus change to the focus item too, a pointer event to the hit test,
    /// a new size and new modifiers are recorded, and a redraw request has
    /// the items drawn.
    pub fn handle_event(&mut self, event: &WindowEvent)
        ensures
            final(self).model() == old(self).model().handle_event(*event),
    {
        match event {
            WindowEvent::Key(key) => self.0.process_key_input(key),
            WindowEvent::Mouse(pos, what) => self.0.process_mouse_input(*pos, *what),
            WindowEvent::Focus(have_focus) => self.0.set_focus(*have_focus),
            WindowEvent::ModifiersChanged(modifiers) => self.0.set_current_keyboard_modifiers(
                *modifiers,
            ),
            WindowEvent::Resized(width, height) => {
                self.0.set_width(*width);
                self.0.set_height(*height);
            },
            WindowEvent::RedrawRequested => self.0.draw(),
        }
    }

    /// Called when a component and its items are destroyed, before their
    /// memory is released: the backend is asked to drop what it caches for
    /// each of `items`.
    pub fn free_graphics_resources(&mut self, items: &[ItemRc])
        ensures
            final(self).model() == old(self).model().free_graphics_resources(items@),
    {
        self.0.free_graphics_resources(items);
    }

    /// Installs the binding that follows the text cursor's blinking on `prop`.
    pub fn set_cursor_blink_binding(&mut self, prop: usize)
        ensures
            final(self).model() == old(self).model().set_cursor_blink_binding(prop),
    {
        self.0.set_cursor_blink_binding(prop);
    }

    /// Sets the modifier keys that are held.
    pub fn set_current_keyboard_modifiers(&mut self, modifiers: KeyboardModifiers)
        ensures
            final(self).model() == old(self).model().set_current_keyboard_modifiers(modifiers),
    {
        self.0.set_current_keyboard_modifiers(modifiers);
    }

    /// The modifier keys that are held.
    pub fn current_keyboard_modifiers(&self) -> (modifiers: KeyboardModifiers)
        ensures
            modifiers == self.model().modifiers,
    {
        self.0.current_keyboard_modifiers()
    }

    /// Passes a key event to the focus item; without one it is dropped.
    pub fn process_key_input(&mut self, event: &KeyEvent)
        ensures
            final(self).model() == old(self).model().process_key_input(*event),
    {
        self.0.process_key_input(event);
    }

    /// Clears the focus on the item that had it and makes `focus_item` the
    /// focus item, which receives the key events to come.
    pub fn set_focus_item(&mut self, focus_item: &ItemRc)
        ensures
            final(self).model() == old(self).model().set_focus_item(*focus_item),
    {
        self.0.set_focus_item(focus_item);
    }

    /// Binds the window to the root `component`, for the events to come.
    pub fn set_component(&mut self, component: &ComponentRc)
        ensures
            final(self).model() == old(self).model().set_component(*component),
    {
        self.0.set_component(component);
    }

    /// Shows `popup` at `position`, in place of any popup that is shown.
    pub fn show_popup(&mut self, popup: &ComponentRc, position: Point)
        ensures
            final(self).model() == old(self).model().show_popup(*popup, position),
    {
        self.0.show_popup(popup, position);
    }

    /// Closes the popup, if one is shown.
    pub fn close_popup(&mut self)
        ensures
            final(self).model() == old(self).model().close_popup(),
    {
        self.0.close_popup();
    }

    /// Hands out the actions asked for since the last call, oldest first.
    pub fn take_actions(&mut self) -> (actions: Vec<WindowAction>)
        ensures
            actions@ == old(self).model().actions,
            final(self).model() == old(self).model().collected(),
    {
        self.0.take_actions()
    }
}

/// Moving the focus from `a` to `b` tells `a` once that it lost the focus and
/// then `b` once that it gained it, and nothing else; `b` alone has the focus
/// afterwards.
pub proof fn focus_transfer(w: WindowModel, a: ItemRc, b: ItemRc)
    ensures
        w.set_focus_item(a).set_focus_item(b).actions == w.set_focus_item(a).actions + seq![
            WindowAction::FocusOut(a),
            WindowAction::FocusIn(b),
        ],
        w.set_focus_item(a).set_focus_item(b).focus_item == Some(b),
        w.set_focus_item(a).focus_item == Some(a),
{
    let first = w.set_focus_item(a);
    assert(first.set_focus_item(b).actions =~= first.actions + seq![
        WindowAction::FocusOut(a),
        WindowAction::FocusIn(b),
    ]);
}

/// Giving the focus to `b` in a window without a focus item tells `b` that
/// it gained the focus and tells no item that it lost it.
pub proof fn first_focus_has_no_loser(w: WindowModel, b: ItemRc)
    requires
        w.focus_item is None,
    ensures
        w.set_focus_item(b).actions == w.actions.push(WindowAction::FocusIn(b)),
{
}

/// Showing a popup twice leaves one popup, the second; neither call changes
/// the focus, the size or the root.
pub proof fn second_popup_replaces_first(
    w: WindowModel,
    first: ComponentRc,
    first_position: Point,
    second: ComponentRc,
    second_position: Point,
)
    ensures
        w.show_popup(first, first_position).show_popup(second, second_position).popup == Some(
            (second, second_position),
        ),
        w.show_popup(first, first_position).show_popup(second, second_position)
            == w.show_popup(second, second_position),
        w.show_popup(second, second_position) == (WindowModel {
            popup: Some((second, second_position)),
            ..w
        }),
{
}

/// Closing the popup of a window that shows none changes nothing.
pub proof fn close_without_popup(w: WindowModel)
    requires
        w.popup is None,
    ensures
        w.close_popup() == w,
{
}

/// A key event in a window without a focus item changes nothing: no action
/// is asked for.
pub proof fn key_without_focus_is_dropped(w: WindowModel, event: KeyEvent)
    requires
        w.focus_item is None,
    ensures
        w.process_key_input(event) == w,
{
}

} // verus!
