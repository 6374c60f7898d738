//! The containers view: a flat list of container names with a cursor,
//! refreshed from the engine, with start/stop, logs and delete bound to
//! single keys. The view decides; the surrounding binary queries the
//! engine and draws.

use vstd::prelude::*;
use crate::docker::QueryError;
use crate::input::KeyCode;
use crate::selection::{
    clamp_selection, clamped_selection, selection_down, selection_up, selection_wf,
};
use crate::text::{contains_seq, dec_str, str_contains, u64_to_string};

verus! {

/// The engine work a key press on the containers view asks for; the
/// caller performs it and feeds the outcome back.
#[derive(Debug, PartialEq, Eq)]
pub enum ContainerCmd {
    /// Nothing to do outside the view.
    Idle,
    /// Query the container listing and hand it to `apply_refresh`.
    Refresh,
    /// Start or stop the named container, by its current status.
    Toggle(String),
    /// Show the logs of the named container.
    ShowLogs(String),
    /// Delete the named container.
    Delete(String),
}

/// The containers view: its fixed tab slot, the rows last listed, and
/// the cursor over them.
#[derive(Debug, PartialEq, Eq)]
pub struct ContainersUI {
    pub tab_num: usize,
    pub selected_index: usize,
    pub containers: Vec<String>,
}

impl ContainersUI {
    /// The cursor is in bounds whenever rows exist, and zero otherwise.
    pub open spec fn inv(&self) -> bool {
        selection_wf(self.selected_index as nat, self.containers@.len())
    }

    /// The name under the cursor, if any row exists.
    pub open spec fn spec_selected(&self) -> Option<String> {
        if self.selected_index < self.containers@.len() {
            Option::Some(self.containers@[self.selected_index as int])
        } else {
            Option::None
        }
    }

    /// One key press: the view afterwards, whether the key was
    /// consumed, and the engine work asked for.
    pub open spec fn spec_step(self, key: KeyCode) -> (ContainersUI, bool, ContainerCmd) {
        if key == KeyCode::Up {
            (
                ContainersUI {
                    selected_index: if self.selected_index > 0 {
                        (self.selected_index - 1) as usize
                    } else {
                        0
                    },
                    ..self
                },
                true,
                ContainerCmd::Idle,
            )
        } else if key == KeyCode::Down {
            (
                ContainersUI {
                    selected_index: if self.selected_index + 1 < self.containers@.len() {
                        (self.selected_index + 1) as usize
                    } else {
                        self.selected_index
                    },
                    ..self
                },
                true,
                ContainerCmd::Idle,
            )
        } else if key == KeyCode::Char('r') || key == KeyCode::F(5) {
            (self, true, ContainerCmd::Refresh)
        } else if key == KeyCode::Char('s') {
            (
                self,
                true,
                match self.spec_selected() {
                    Option::Some(n) => ContainerCmd::Toggle(n),
                    Option::None => ContainerCmd::Idle,
                },
            )
        } else if key == KeyCode::Char('l') {
            (
                self,
                true,
                match self.spec_selected() {
                    Option::Some(n) => ContainerCmd::ShowLogs(n),
                    Option::None => ContainerCmd::Idle,
                },
            )
        } else if key == KeyCode::Char('d') {
            (
                self,
                true,
                match self.spec_selected() {
                    Option::Some(n) => ContainerCmd::Delete(n),
                    Option::None => ContainerCmd::Idle,
                },
            )
        } else {
            (self, false, ContainerCmd::Idle)
        }
    }

    /// A fresh view bound to its tab slot, with no rows yet.
    pub fn new(tab_num: usize) -> (r: ContainersUI)
        ensures
            r.tab_num == tab_num,
            r.selected_index == 0,
            r.containers@.len() == 0,
            r.inv(),
    {
        ContainersUI { tab_num, selected_index: 0, containers: Vec::new() }
    }

    /// The tab label.
    pub fn name(&self) -> (r: &'static str)
        ensures
            r@ == "Containers"@,
    {
        "Containers"
    }

    /// The fixed tab slot.
    pub fn tab(&self) -> (r: usize)
        ensures
            r == self.tab_num,
    {
        self.tab_num
    }

    /// The name under the cursor, if any.
    pub fn get_selected_container(&self) -> (r: Option<&String>)
        ensures
            match r {
                Option::Some(s) => self.spec_selected() == Option::Some(*s),
                Option::None => self.spec_selected() is None,
            },
    {
        if self.selected_index < self.containers.len() {
            Some(&self.containers[self.selected_index])
        } else {
            None
        }
    }

    /// The view after a successful refresh: the listing replaces the
    /// rows wholesale, and the cursor is clamped to the new length.
    pub open spec fn spec_refreshed(self, items: Vec<String>) -> ContainersUI {
        ContainersUI {
            containers: items,
            selected_index: clamped_selection(self.selected_index as nat, items@.len()) as usize,
            ..self
        }
    }

    /// Take the outcome of a listing query: a successful listing
    /// replaces the rows wholesale and clamps the cursor; a failure
    /// leaves the view exactly as it was and is handed back.
    pub fn apply_refresh(&mut self, outcome: Result<Vec<String>, QueryError>) -> (r: Result<
        (),
        QueryError,
    >)
        requires
            old(self).inv(),
        ensures
            final(self).inv(),
            outcome matches Ok(items) ==> *final(self) == old(self).spec_refreshed(items)
                && r is Ok,
            outcome matches Err(e) ==> *final(self) == *old(self) && (r matches Err(e2) && e2
                == e),
    {
        match outcome {
            Ok(items) => {
                self.containers = items;
                self.selected_index = clamp_selection(self.selected_index, self.containers.len());
                Ok(())
            },
            Err(e) => Err(e),
        }
    }

    /// Decide on one key press: move the cursor, or ask the caller for
    /// engine work on the selected row. Returns whether the key was
    /// consumed, and the work to perform; the transition is exactly
    /// `spec_step`.
    pub fn handle_input(&mut self, key: KeyCode) -> (r: (bool, ContainerCmd))
        requires
            old(self).inv(),
        ensures
            final(self).inv(),
            (*final(self), r.0, r.1) == old(self).spec_step(key),
    {
        match key {
            KeyCode::Up => {
                self.selected_index = selection_up(self.selected_index);
                (true, ContainerCmd::Idle)
            },
            KeyCode::Down => {
                self.selected_index = selection_down(self.selected_index, self.containers.len());
                (true, ContainerCmd::Idle)
            },
            KeyCode::Char('r') | KeyCode::F(5) => (true, ContainerCmd::Refresh),
            KeyCode::Char('s') => {
                match self.get_selected_container() {
                    Some(name) => {
                        let n = name.clone();
                        (true, ContainerCmd::Toggle(n))
                    },
                    None => (true, ContainerCmd::Idle),
                }
            },
            KeyCode::Char('l') => {
                match self.get_selected_container() {
                    Some(name) => {
                        let n = name.clone();
                        (true, ContainerCmd::ShowLogs(n))
                    },
                    None => (true, ContainerCmd::Idle),
                }
            },
            KeyCode::Char('d') => {
                match self.get_selected_container() {
                    Some(name) => {
                        let n = name.clone();
                        (true, ContainerCmd::Delete(n))
                    },
                    None => (true, ContainerCmd::Idle),
                }
            },
            _ => (false, ContainerCmd::Idle),
        }
    }

    /// The list rows to draw: each name with whether it is the selected
    /// row.
    pub fn render_rows(&self) -> (r: Vec<(String, bool)>)
        ensures
            r@.len() == self.containers@.len(),
            forall|i: int|
                0 <= i < r@.len() ==> r@[i].0@ == self.containers@[i]@ && (r@[i].1 <==> i
                    == self.selected_index),
    {
        let mut r: Vec<(String, bool)> = Vec::new();
        let mut i: usize = 0;
        while i < self.containers.len()
            invariant
                i <= self.containers@.len(),
                r@.len() == i,
                forall|k: int|
                    0 <= k < i ==> r@[k].0@ == self.containers@[k]@ && (r@[k].1 <==> k
                        == self.selected_index),
            decreases self.containers@.len() - i,
        {
            r.push((self.containers[i].clone(), i == self.selected_index));
            i = i + 1;
        }
        r
    }

    /// The list title, with the row count: `"Containers (3)"`.
    pub fn render_title(&self) -> (r: String)
        ensures
            r@ == "Containers ("@ + dec_str(self.containers@.len()) + ")"@,
    {
        "Containers (".to_owned().concat(u64_to_string(self.containers.len() as u64).as_str())
            .concat(")")
    }

    /// The key legend shown under the view.
    pub fn render_help() -> (r: &'static str)
        ensures
            r@ == "[Up/Down] Select   [S] Start/Stop   [L] Logs   [D] Delete   [R/F5] Refresh   [Q] Quit"@,
    {
        "[Up/Down] Select   [S] Start/Stop   [L] Logs   [D] Delete   [R/F5] Refresh   [Q] Quit"
    }
}

/// After every refresh the cursor is strictly below the row count
/// whenever rows exist, and zero when the new listing is empty.
pub proof fn lemma_refresh_selection_in_bounds(v: ContainersUI, items: Vec<String>)
    ensures
        items@.len() > 0 ==> v.spec_refreshed(items).selected_index < items@.len(),
        items@.len() == 0 ==> v.spec_refreshed(items).selected_index == 0,
{
}

/// Refreshing twice in a row with an unchanged listing gives exactly
/// the view one refresh gives: the rows are identical and the cursor
/// does not move again.
pub proof fn lemma_refresh_idempotent(v: ContainersUI, items: Vec<String>)
    ensures
        v.spec_refreshed(items).spec_refreshed(items) == v.spec_refreshed(items),
{
}

/// Whether a status string reports a running container: the engine's
/// status lines contain `"Up"` while the container runs.
pub fn status_is_running(status: &String) -> (r: bool)
    ensures
        r == contains_seq(status@, "Up"@),
{
    str_contains(status.as_str(), "Up")
}

/// What the start/stop key does to the selected container: stop it when
/// its status reports it running, start it otherwise.
#[derive(Debug, PartialEq, Eq, Structural, Clone, Copy)]
pub enum ToggleAction {
    Start,
    Stop,
}

/// Decide the start/stop action from the container's current status.
pub fn toggle_action(status: &String) -> (r: ToggleAction)
    ensures
        r == ToggleAction::Stop <==> contains_seq(status@, "Up"@),
{
    if status_is_running(status) {
        ToggleAction::Stop
    } else {
        ToggleAction::Start
    }
}

} // verus!
