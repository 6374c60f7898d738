//! The orchestrator: the closed set of views, the active-tab cursor,
//! the quit flag, and the dispatch of one event per loop iteration.
//!
//! Global keys are checked first: quit keys and tab switching are never
//! shadowed by a view. A key not claimed globally goes to the view
//! whose tab slot equals the active tab; with none such, it is dropped.
//! Error events never touch the state — they are handed back to be
//! logged. The render loop, the event channel and the terminal live in
//! the surrounding binary.

use vstd::prelude::*;
use crate::input::{AppEvent, KeyCode, KeyEvent};
use crate::ui_containers::{ContainerCmd, ContainersUI};
use crate::ui_images::{ImageCmd, ImagesUI};
use crate::ui_networks::{NetworkCmd, NetworksUI};
use crate::ui_volumes::{VolumeCmd, VolumesUI};

verus! {

/// One view, as the orchestrator holds it: a closed choice over the
/// four resource kinds.
#[derive(Debug, PartialEq, Eq)]
pub enum UIComponent {
    Containers(ContainersUI),
    Images(ImagesUI),
    Networks(NetworksUI),
    Volumes(VolumesUI),
}

/// The engine work one dispatched key asks for, tagged with the view it
/// came from; the caller performs it and feeds the outcome back to that
/// view.
#[derive(Debug, PartialEq, Eq)]
pub enum Command {
    /// Nothing to do outside the orchestrator.
    Idle,
    /// Log this error report; the state is untouched.
    LogError(String),
    Containers(ContainerCmd),
    Images(ImageCmd),
    Networks(NetworkCmd),
    Volumes(VolumeCmd),
}

impl UIComponent {
    /// Every view keeps its own invariant.
    pub open spec fn inv(&self) -> bool {
        match self {
            UIComponent::Containers(ui) => ui.inv(),
            UIComponent::Images(ui) => ui.inv(),
            UIComponent::Networks(ui) => ui.inv(),
            UIComponent::Volumes(ui) => ui.inv(),
        }
    }

    /// The fixed tab slot of the view.
    pub open spec fn spec_tab(&self) -> nat {
        match self {
            UIComponent::Containers(ui) => ui.tab_num as nat,
            UIComponent::Images(ui) => ui.tab_num as nat,
            UIComponent::Networks(ui) => ui.tab_num as nat,
            UIComponent::Volumes(ui) => ui.tab_num as nat,
        }
    }

    /// The tab label of the view.
    pub open spec fn spec_name(&self) -> Seq<char> {
        match self {
            UIComponent::Containers(_) => "Containers"@,
            UIComponent::Images(_) => "Images"@,
            UIComponent::Networks(_) => "Networks"@,
            UIComponent::Volumes(_) => "Volumes"@,
        }
    }

    /// One key press dispatched to the view: the component afterwards,
    /// whether the key was consumed, and the work asked for, tagged
    /// with the view's kind.
    pub open spec fn spec_step(self, key: KeyCode) -> (UIComponent, bool, Command) {
        match self {
            UIComponent::Containers(ui) => {
                let (ui2, handled, cmd) = ui.spec_step(key);
                (UIComponent::Containers(ui2), handled, Command::Containers(cmd))
            },
            UIComponent::Images(ui) => {
                let (ui2, handled, cmd) = ui.spec_step(key);
                (UIComponent::Images(ui2), handled, Command::Images(cmd))
            },
            UIComponent::Networks(ui) => {
                let (ui2, handled, cmd) = ui.spec_step(key);
                (UIComponent::Networks(ui2), handled, Command::Networks(cmd))
            },
            UIComponent::Volumes(ui) => {
                let (ui2, handled, cmd) = ui.spec_step(key);
                (UIComponent::Volumes(ui2), handled, Command::Volumes(cmd))
            },
        }
    }

    /// The fixed tab slot.
    pub fn tab(&self) -> (r: usize)
        ensures
            r == self.spec_tab(),
    {
        match self {
            UIComponent::Containers(ui) => ui.tab(),
            UIComponent::Images(ui) => ui.tab(),
            UIComponent::Networks(ui) => ui.tab(),
            UIComponent::Volumes(ui) => ui.tab(),
        }
    }

    /// The tab label.
    pub fn name(&self) -> (r: &'static str)
        ensures
            r@ == self.spec_name(),
    {
        match self {
            UIComponent::Containers(ui) => ui.name(),
            UIComponent::Images(ui) => ui.name(),
            UIComponent::Networks(ui) => ui.name(),
            UIComponent::Volumes(ui) => ui.name(),
        }
    }

    /// The key legend of the view in its current state.
    pub open spec fn spec_help_line(&self) -> Seq<char> {
        match self {
            UIComponent::Containers(_) => "[Up/Down] Select   [S] Start/Stop   [L] Logs   [D] Delete   [R/F5] Refresh   [Q] Quit"@,
            UIComponent::Images(ui) => if ui.show_inspect_modal {
                "[Up/Down] Scroll   [I] Close"@
            } else {
                "[Up/Down] Select   [D] Delete   [P] Pull   [I] Inspect   [R/F5] Refresh   [Q] Quit"@
            },
            UIComponent::Networks(_) => "[Up/Down] Select   [C] Create   [D] Delete   [I] Inspect   [R/F5] Refresh   [Q] Quit"@,
            UIComponent::Volumes(_) => "[Up/Down] Select   [C] Create   [D] Delete   [I] Inspect   [R/F5] Refresh   [Q] Quit"@,
        }
    }

    /// The key legend, as text.
    pub fn render_help(&self) -> (r: &'static str)
        ensures
            r@ == self.spec_help_line(),
    {
        match self {
            UIComponent::Containers(_) => ContainersUI::render_help(),
            UIComponent::Images(ui) => ui.render_help(),
            UIComponent::Networks(_) => NetworksUI::render_help(),
            UIComponent::Volumes(_) => VolumesUI::render_help(),
        }
    }

    /// Dispatch one key press to the view; the transition is exactly
    /// `spec_step`.
    pub fn handle_input(&mut self, key: KeyCode) -> (r: (bool, Command))
        requires
            old(self).inv(),
        ensures
            final(self).inv(),
            (*final(self), r.0, r.1) == old(self).spec_step(key),
    {
        match self {
            UIComponent::Containers(ui) => {
                let (handled, cmd) = ui.handle_input(key);
                (handled, Command::Containers(cmd))
            },
            UIComponent::Images(ui) => {
                let (handled, cmd) = ui.handle_input(key);
                (handled, Command::Images(cmd))
            },
            UIComponent::Networks(ui) => {
                let (handled, cmd) = ui.handle_input(key);
                (handled, Command::Networks(cmd))
            },
            UIComponent::Volumes(ui) => {
                let (handled, cmd) = ui.handle_input(key);
                (handled, Command::Volumes(cmd))
            },
        }
    }
}

/// The next active tab under one key, over `n` tabs: `Right` advances
/// and `Left` retreats, both wrapping; other keys leave it alone.
pub open spec fn spec_next_tab(t: nat, n: nat, key: KeyCode) -> nat
    recommends
        n > 0,
{
    if key == KeyCode::Right {
        (((t + 1) as int) % (n as int)) as nat
    } else if key == KeyCode::Left {
        if t == 0 {
            (n - 1) as nat
        } else {
            (t - 1) as nat
        }
    } else {
        t
    }
}

/// The active tab after a whole sequence of tab keys.
pub open spec fn spec_tabs_after(t: nat, n: nat, keys: Seq<KeyCode>) -> nat
    decreases keys.len(),
{
    if keys.len() == 0 {
        t
    } else {
        spec_tabs_after(spec_next_tab(t, n, keys[0]), n, keys.drop_first())
    }
}

/// Tab switching never leaves the tab range and wraps at both ends:
/// after any sequence of keys the active tab stays below the tab count,
/// `Left` on the first tab lands on the last, and `Right` on the last
/// tab lands on the first.
pub proof fn lemma_tab_navigation(t: nat, n: nat, keys: Seq<KeyCode>)
    requires
        t < n,
    ensures
        spec_tabs_after(t, n, keys) < n,
        spec_next_tab(0, n, KeyCode::Left) == n - 1,
        spec_next_tab((n - 1) as nat, n, KeyCode::Right) == 0,
    decreases keys.len(),
{
    vstd::arithmetic::div_mod::lemma_mod_self_0(n as int);
    if keys.len() > 0 {
        lemma_tab_navigation(spec_next_tab(t, n, keys[0]), n, keys.drop_first());
    }
}

/// The orchestrator: the ordered views, the active-tab cursor over
/// them, and the quit flag that ends the event loop.
#[derive(Debug, PartialEq, Eq)]
pub struct App {
    pub active_tab: usize,
    pub should_quit: bool,
    pub components: Vec<UIComponent>,
}

impl App {
    /// The views sit at strictly increasing, contiguous tab slots
    /// starting at zero; the active tab always names one of them; every
    /// view keeps its own invariant.
    pub open spec fn inv(&self) -> bool {
        &&& self.components@.len() > 0
        &&& self.active_tab < self.components@.len()
        &&& forall|i: int|
            0 <= i < self.components@.len() ==> (#[trigger] self.components@[i]).spec_tab() == i
        &&& forall|i: int|
            0 <= i < self.components@.len() ==> (#[trigger] self.components@[i]).inv()
    }

    /// A fresh orchestrator: the four views bound to tabs in a fixed
    /// order — containers, images, networks, volumes — the first tab
    /// active, the quit flag clear.
    pub fn new() -> (r: App)
        ensures
            r.active_tab == 0,
            !r.should_quit,
            r.components@.len() == 4,
            r.components@[0] matches UIComponent::Containers(ui) && ui.tab_num == 0
                && ui.containers@.len() == 0 && ui.selected_index == 0,
            r.components@[1] matches UIComponent::Images(ui) && ui.tab_num == 1
                && ui.images@.len() == 0 && ui.selected_index == 0 && !ui.show_inspect_modal
                && ui.inspect_data is None && ui.inspect_scroll == 0,
            r.components@[2] matches UIComponent::Networks(ui) && ui.tab_num == 2
                && ui.networks@.len() == 0 && ui.selected_index == 0,
            r.components@[3] matches UIComponent::Volumes(ui) && ui.tab_num == 3
                && ui.volumes@.len() == 0 && ui.selected_index == 0,
            r.inv(),
    {
        let mut components: Vec<UIComponent> = Vec::new();
        components.push(UIComponent::Containers(ContainersUI::new(0)));
        components.push(UIComponent::Images(ImagesUI::new(1)));
        components.push(UIComponent::Networks(NetworksUI::new(2)));
        components.push(UIComponent::Volumes(VolumesUI::new(3)));
        App { active_tab: 0, should_quit: false, components }
    }

    /// The orchestrator after one global key: quit keys set the quit
    /// flag; `Left`/`Right` move the active tab with wrap-around; and
    /// whether the key was claimed globally.
    pub open spec fn spec_global_step(self, key: KeyEvent) -> (App, bool) {
        if key.code == KeyCode::Char('q') || (key.code == KeyCode::Char('c') && key.ctrl)
            || key.code == KeyCode::Esc {
            (App { should_quit: true, ..self }, true)
        } else if key.code == KeyCode::Right || key.code == KeyCode::Left {
            (
                App {
                    active_tab: spec_next_tab(
                        self.active_tab as nat,
                        self.components@.len(),
                        key.code,
                    ) as usize,
                    ..self
                },
                true,
            )
        } else {
            (self, false)
        }
    }

    /// Claim the keys every view must never shadow: quit and tab
    /// switching. Returns whether the key was claimed; the transition
    /// is exactly `spec_global_step`.
    pub fn handle_global_key_event(&mut self, key: KeyEvent) -> (r: bool)
        requires
            old(self).inv(),
        ensures
            final(self).inv(),
            (*final(self), r) == old(self).spec_global_step(key),
    {
        match key.code {
            KeyCode::Char('q') => {
                self.should_quit = true;
                true
            },
            KeyCode::Char('c') if key.ctrl => {
                self.should_quit = true;
                true
            },
            KeyCode::Esc => {
                self.should_quit = true;
                true
            },
            KeyCode::Right => {
                let n = self.components.len();
                assert(self.active_tab < n);
                self.active_tab = (self.active_tab + 1) % n;
                true
            },
            KeyCode::Left => {
                if self.active_tab == 0 {
                    self.active_tab = self.components.len() - 1;
                } else {
                    self.active_tab = self.active_tab - 1;
                }
                true
            },
            _ => false,
        }
    }

    /// The position of the view whose tab slot equals the active tab:
    /// the first such view, or `None` with none such.
    pub fn active_component_index(&self) -> (r: Option<usize>)
        ensures
            match r {
                Option::Some(i) => i < self.components@.len() && self.components@[
                    i as int
                ].spec_tab() == self.active_tab,
                Option::None => forall|j: int|
                    0 <= j < self.components@.len() ==> (#[trigger] self.components@[
                        j
                    ]).spec_tab() != self.active_tab,
            },
            self.inv() ==> r == Option::Some(self.active_tab),
    {
        proof {
            if self.inv() {
                assert(self.components@[self.active_tab as int].spec_tab() == self.active_tab);
            }
        }
        let mut j: usize = 0;
        #[verifier::loop_isolation(false)]
        while j < self.components.len()
            invariant
                j <= self.components@.len(),
                forall|k: int|
                    0 <= k < j ==> (#[trigger] self.components@[k]).spec_tab()
                        != self.active_tab,
            decreases self.components@.len() - j,
        {
            if self.components[j].tab() == self.active_tab {
                return Some(j);
            }
            j = j + 1;
        }
        None
    }

    /// One event dispatched: `after` is the orchestrator afterwards and
    /// `cmd` the work handed back to the caller.
    pub open spec fn spec_handle_event(self, event: AppEvent, after: App, cmd: Command) -> bool {
        match event {
            AppEvent::Key(key) => {
                let (app2, claimed) = self.spec_global_step(key);
                if claimed {
                    after == app2 && cmd == Command::Idle
                } else if self.active_tab < self.components@.len() {
                    let (c2, handled, vcmd) = self.components@[self.active_tab as int].spec_step(
                        key.code,
                    );
                    &&& after.active_tab == self.active_tab
                    &&& after.should_quit == self.should_quit
                    &&& after.components@ == self.components@.update(self.active_tab as int, c2)
                    &&& cmd == vcmd
                } else {
                    after == self && cmd == Command::Idle
                }
            },
            AppEvent::Error(msg) => after == self && cmd == Command::LogError(msg),
        }
    }

    /// Dispatch one event from the channel: global keys first, then the
    /// active view; error events only hand their report back to be
    /// logged. The transition is exactly `spec_handle_event`.
    pub fn handle_event(&mut self, event: AppEvent) -> (r: Command)
        requires
            old(self).inv(),
        ensures
            final(self).inv(),
            old(self).spec_handle_event(event, *final(self), r),
    {
        match event {
            AppEvent::Key(key) => {
                if self.handle_global_key_event(key) {
                    return Command::Idle;
                }
                match self.active_component_index() {
                    Some(i) => {
                        let ghost before = self.components@;
                        let mut component = self.components.remove(i);
                        let (_handled, cmd) = component.handle_input(key.code);
                        self.components.insert(i, component);
                        proof {
                            assert(self.components@ =~= before.update(
                                i as int,
                                self.components@[i as int],
                            ));
                        }
                        cmd
                    },
                    None => Command::Idle,
                }
            },
            AppEvent::Error(msg) => Command::LogError(msg),
        }
    }

    /// The tab labels, in tab order, for the tab bar.
    pub fn tab_titles(&self) -> (r: Vec<&'static str>)
        ensures
            r@.len() == self.components@.len(),
            forall|i: int| 0 <= i < r@.len() ==> r@[i]@ == self.components@[i].spec_name(),
    {
        let mut r: Vec<&'static str> = Vec::new();
        let mut i: usize = 0;
        while i < self.components.len()
            invariant
                i <= self.components@.len(),
                r@.len() == i,
                forall|k: int| 0 <= k < i ==> r@[k]@ == self.components@[k].spec_name(),
            decreases self.components@.len() - i,
        {
            r.push(self.components[i].name());
            i = i + 1;
        }
        r
    }

    /// The key legend under the frame: the active view's legend, or the
    /// global one with no view at the active tab.
    pub fn help_line(&self) -> (r: &'static str)
        requires
            self.inv(),
        ensures
            r@ == self.components@[self.active_tab as int].spec_help_line(),
    {
        match self.active_component_index() {
            Some(i) => self.components[i].render_help(),
            None => "[Left/Right] Switch Tab   [Q/Esc/Ctrl+C] Quit",
        }
    }
}

} // verus!
