//! Pages, UI state, and the keyboard-driven state machine.

use vstd::prelude::*;

verus! {

/// The closed set of pages the viewer can show.
///
/// `Store` is the projects page and `FAQ` the contact page.
#[derive(Debug, Clone, Copy, PartialEq, Eq, Structural)]
pub enum Page {
    Home,
    Store,
    About,
    FAQ,
}

/// The mutable state of the viewer: which page is shown and how far it
/// is scrolled. `selected_item` is reserved for item-level selection and
/// is reset together with the scroll offset.
#[derive(Debug, Clone)]
pub struct UIState {
    pub current_page: Page,
    pub scroll_offset: usize,
    pub selected_item: usize,
}

impl UIState {
    /// The initial state: the home page, scrolled to the top.
    pub fn new() -> (s: Self)
        ensures
            s.current_page == Page::Home,
            s.scroll_offset == 0,
            s.selected_item == 0,
    {
        Self { current_page: Page::Home, scroll_offset: 0, selected_item: 0 }
    }

    /// Returns the view to the top of the current page.
    pub fn reset_scroll(&mut self)
        ensures
            final(self).current_page == old(self).current_page,
            final(self).scroll_offset == 0,
            final(self).selected_item == 0,
    {
        self.scroll_offset = 0;
        self.selected_item = 0;
    }
}

impl Default for UIState {
    fn default() -> (s: Self)
        ensures
            s.current_page == Page::Home,
            s.scroll_offset == 0,
            s.selected_item == 0,
    {
        Self::new()
    }
}

/// A keyboard event as the state machine sees it: the key code, with
/// ordinary characters carried in `Char`. Keys the viewer does not react
/// to arrive as `Other`.
#[derive(Debug, Clone, Copy, PartialEq, Eq, Structural)]
pub enum KeyInput {
    Char(char),
    Esc,
    HomeKey,
    Up,
    Down,
    PageUp,
    PageDown,
    Other,
}

/// Whether a key (with the control-modifier flag) requests quitting:
/// `q`, Escape, or Ctrl+C.
pub open spec fn spec_is_quit(key: KeyInput, ctrl: bool) -> bool {
    key == KeyInput::Char('q') || key == KeyInput::Esc || (ctrl && key == KeyInput::Char('c'))
}

/// The page a key switches to, if it is one of the four navigation keys.
pub open spec fn spec_nav_target(key: KeyInput) -> Option<Page> {
    if key == KeyInput::Char('h') || key == KeyInput::HomeKey {
        Some(Page::Home)
    } else if key == KeyInput::Char('a') {
        Some(Page::Store)
    } else if key == KeyInput::Char('s') {
        Some(Page::About)
    } else if key == KeyInput::Char('d') {
        Some(Page::FAQ)
    } else {
        None
    }
}

/// The state after one key, when that key does not quit: navigation keys
/// switch the page and reset the scroll; Up/Down move by one line and
/// PageUp/PageDown by ten, saturating at the ends of `usize`; every other
/// key leaves the state unchanged.
pub open spec fn spec_step(s: UIState, key: KeyInput, ctrl: bool) -> UIState {
    if spec_is_quit(key, ctrl) {
        s
    } else if spec_nav_target(key) is Some {
        UIState { current_page: spec_nav_target(key)->Some_0, scroll_offset: 0, selected_item: 0 }
    } else if key == KeyInput::Up {
        UIState { scroll_offset: if s.scroll_offset >= 1 { (s.scroll_offset - 1) as usize } else { 0 }, ..s }
    } else if key == KeyInput::Down {
        UIState { scroll_offset: if s.scroll_offset <= usize::MAX - 1 { (s.scroll_offset + 1) as usize } else { usize::MAX }, ..s }
    } else if key == KeyInput::PageUp {
        UIState { scroll_offset: if s.scroll_offset >= 10 { (s.scroll_offset - 10) as usize } else { 0 }, ..s }
    } else if key == KeyInput::PageDown {
        UIState { scroll_offset: if s.scroll_offset <= usize::MAX - 10 { (s.scroll_offset + 10) as usize } else { usize::MAX }, ..s }
    } else {
        s
    }
}

/// The state after a whole sequence of key events, none of which quits
/// the viewer.
pub open spec fn spec_run(s: UIState, inputs: Seq<(KeyInput, bool)>) -> UIState
    decreases inputs.len(),
{
    if inputs.len() == 0 {
        s
    } else {
        spec_run(spec_step(s, inputs[0].0, inputs[0].1), inputs.skip(1))
    }
}

/// Law: quitting changes nothing. From any state, `q`, Escape, or
/// Ctrl+C leaves the state exactly as it is; the main loop then stops
/// and nothing more is rendered.
pub proof fn lemma_quit_keeps_state(s: UIState, key: KeyInput, ctrl: bool)
    requires
        spec_is_quit(key, ctrl),
    ensures
        spec_step(s, key, ctrl) == s,
{
}

/// Law: switching pages resets the scroll. From any state, whatever the
/// scroll offset was, a navigation key yields offset zero and selects
/// its target page.
pub proof fn lemma_page_switch_resets_scroll(s: UIState, key: KeyInput, ctrl: bool)
    requires
        spec_nav_target(key) is Some,
    ensures
        spec_step(s, key, ctrl).scroll_offset == 0,
        spec_step(s, key, ctrl).current_page == spec_nav_target(key)->Some_0,
{
}

/// Law: the scroll offset never goes below zero, from any start and
/// under any sequence of inputs: Up and PageUp stop at the top.
pub proof fn lemma_scroll_lower_bound(s: UIState, inputs: Seq<(KeyInput, bool)>)
    ensures
        spec_run(s, inputs).scroll_offset >= 0,
{
}

impl UIState {
    /// Processes one key event. Returns `false` exactly when the key
    /// requests quitting (`q`, Escape, Ctrl+C); the state is then left
    /// unchanged and the caller stops the main loop. Otherwise the state
    /// steps as `spec_step` says and the caller keeps running.
    pub fn handle_key(&mut self, key: KeyInput, ctrl: bool) -> (keep_running: bool)
        ensures
            keep_running == !spec_is_quit(key, ctrl),
            *final(self) == spec_step(*old(self), key, ctrl),
    {
        match key {
            KeyInput::Char('q') | KeyInput::Esc => return false,
            KeyInput::Char('c') if ctrl => return false,
            KeyInput::Char('h') | KeyInput::HomeKey => {
                self.current_page = Page::Home;
                self.scroll_offset = 0;
                self.selected_item = 0;
            }
            KeyInput::Char('a') => {
                self.current_page = Page::Store;
                self.scroll_offset = 0;
                self.selected_item = 0;
            }
            KeyInput::Char('s') => {
                self.current_page = Page::About;
                self.scroll_offset = 0;
                self.selected_item = 0;
            }
            KeyInput::Char('d') => {
                self.current_page = Page::FAQ;
                self.scroll_offset = 0;
                self.selected_item = 0;
            }
            KeyInput::Up => {
                self.scroll_offset = if self.scroll_offset >= 1 { self.scroll_offset - 1 } else { 0 };
            }
            KeyInput::Down => {
                self.scroll_offset = if self.scroll_offset <= usize::MAX - 1 { self.scroll_offset + 1 } else { usize::MAX };
            }
            KeyInput::PageUp => {
                self.scroll_offset = if self.scroll_offset >= 10 { self.scroll_offset - 10 } else { 0 };
            }
            KeyInput::PageDown => {
                self.scroll_offset = if self.scroll_offset <= usize::MAX - 10 { self.scroll_offset + 10 } else { usize::MAX };
            }
            _ => {}
        }
        true
    }
}

} // verus!
