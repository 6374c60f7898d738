//! The networks view: a flat list of network names with a cursor,
//! refreshed from the engine, with create, delete and inspect bound to
//! single keys.

use vstd::prelude::*;
use crate::docker::QueryError;
use crate::input::KeyCode;
use crate::selection::{
    clamp_selection, clamped_selection, selection_down, selection_up, selection_wf,
};
use crate::text::{dec_str, u64_to_string};

verus! {

/// The engine work a key press on the networks view asks for.
#[derive(Debug, PartialEq, Eq)]
pub enum NetworkCmd {
    /// Nothing to do outside the view.
    Idle,
    /// Query the network listing and hand it to `apply_refresh`.
    Refresh,
    /// Delete the named network.
    Delete(String),
    /// Create a new network.
    Create,
    /// Inspect the named network.
    Inspect(String),
}

/// The networks view: its fixed tab slot, the rows last listed, and the
/// cursor over them.
#[derive(Debug, PartialEq, Eq)]
pub struct NetworksUI {
    pub tab_num: usize,
    pub selected_index: usize,
    pub networks: Vec<String>,
}

impl NetworksUI {
    /// The cursor is in bounds whenever rows exist, and zero otherwise.
    pub open spec fn inv(&self) -> bool {
        selection_wf(self.selected_index as nat, self.networks@.len())
    }

    /// The name under the cursor, if any row exists.
    pub open spec fn spec_selected(&self) -> Option<String> {
        if self.selected_index < self.networks@.len() {
            Option::Some(self.networks@[self.selected_index as int])
        } else {
            Option::None
        }
    }

    /// One key press: the view afterwards, whether the key was
    /// consumed, and the engine work asked for.
    pub open spec fn spec_step(self, key: KeyCode) -> (NetworksUI, bool, NetworkCmd) {
        if key == KeyCode::Up {
            (
                NetworksUI {
                    selected_index: if self.selected_index > 0 {
                        (self.selected_index - 1) as usize
                    } else {
                        0
                    },
                    ..self
                },
                true,
                NetworkCmd::Idle,
            )
        } else if key == KeyCode::Down {
            (
                NetworksUI {
                    selected_index: if self.selected_index + 1 < self.networks@.len() {
                        (self.selected_index + 1) as usize
                    } else {
                        self.selected_index
                    },
                    ..self
                },
                true,
                NetworkCmd::Idle,
            )
        } else if key == KeyCode::Char('r') || key == KeyCode::F(5) {
            (self, true, NetworkCmd::Refresh)
        } else if key == KeyCode::Char('d') {
            (
                self,
                true,
                match self.spec_selected() {
                    Option::Some(n) => NetworkCmd::Delete(n),
                    Option::None => NetworkCmd::Idle,
                },
            )
        } else if key == KeyCode::Char('c') {
            (self, true, NetworkCmd::Create)
        } else if key == KeyCode::Char('i') {
            (
                self,
                true,
                match self.spec_selected() {
                    Option::Some(n) => NetworkCmd::Inspect(n),
                    Option::None => NetworkCmd::Idle,
                },
            )
        } else {
            (self, false, NetworkCmd::Idle)
        }
    }

    /// A fresh view bound to its tab slot, with no rows yet.
    pub fn new(tab_num: usize) -> (r: NetworksUI)
        ensures
            r.tab_num == tab_num,
            r.selected_index == 0,
            r.networks@.len() == 0,
            r.inv(),
    {
        NetworksUI { tab_num, selected_index: 0, networks: Vec::new() }
    }

    /// The tab label.
    pub fn name(&self) -> (r: &'static str)
        ensures
            r@ == "Networks"@,
    {
        "Networks"
    }

    /// The fixed tab slot.
    pub fn tab(&self) -> (r: usize)
        ensures
            r == self.tab_num,
    {
        self.tab_num
    }

    /// The name under the cursor, if any.
    pub fn get_selected_network(&self) -> (r: Option<&String>)
        ensures
            match r {
                Option::Some(s) => self.spec_selected() == Option::Some(*s),
                Option::None => self.spec_selected() is None,
            },
    {
        if self.selected_index < self.networks.len() {
            Some(&self.networks[self.selected_index])
        } else {
            None
        }
    }

    /// The view after a successful refresh: the listing replaces the
    /// rows wholesale, and the cursor is clamped to the new length.
    pub open spec fn spec_refreshed(self, items: Vec<String>) -> NetworksUI {
        NetworksUI {
            networks: items,
            selected_index: clamped_selection(self.selected_index as nat, items@.len()) as usize,
            ..self
        }
    }

    /// Take the outcome of a listing query: a successful listing
    /// replaces the rows wholesale and clamps the cursor; a failure
    /// leaves the view exactly as it was and is handed back.
    pub fn apply_refresh(&mut self, outcome: Result<Vec<String>, QueryError>) -> (r: Result<
        (),
        QueryError,
    >)
        requires
            old(self).inv(),
        ensures
            final(self).inv(),
            outcome matches Ok(items) ==> *final(self) == old(self).spec_refreshed(items)
                && r is Ok,
            outcome matches Err(e) ==> *final(self) == *old(self) && (r matches Err(e2) && e2
                == e),
    {
        match outcome {
            Ok(items) => {
                self.networks = items;
                self.selected_index = clamp_selection(self.selected_index, self.networks.len());
                Ok(())
            },
            Err(e) => Err(e),
        }
    }

    /// Decide on one key press: move the cursor, or ask the caller for
    /// engine work. Returns whether the key was consumed, and the work
    /// to perform; the transition is exactly `spec_step`.
    pub fn handle_input(&mut self, key: KeyCode) -> (r: (bool, NetworkCmd))
        requires
            old(self).inv(),
        ensures
            final(self).inv(),
            (*final(self), r.0, r.1) == old(self).spec_step(key),
    {
        match key {
            KeyCode::Up => {
                self.selected_index = selection_up(self.selected_index);
                (true, NetworkCmd::Idle)
            },
            KeyCode::Down => {
                self.selected_index = selection_down(self.selected_index, self.networks.len());
                (true, NetworkCmd::Idle)
            },
            KeyCode::Char('r') | KeyCode::F(5) => (true, NetworkCmd::Refresh),
            KeyCode::Char('d') => {
                match self.get_selected_network() {
                    Some(name) => {
                        let n = name.clone();
                        (true, NetworkCmd::Delete(n))
                    },
                    None => (true, NetworkCmd::Idle),
                }
            },
            KeyCode::Char('c') => (true, NetworkCmd::Create),
            KeyCode::Char('i') => {
                match self.get_selected_network() {
                    Some(name) => {
                        let n = name.clone();
                        (true, NetworkCmd::Inspect(n))
                    },
                    None => (true, NetworkCmd::Idle),
                }
            },
            _ => (false, NetworkCmd::Idle),
        }
    }

    /// The list rows to draw: each name with whether it is the selected
    /// row.
    pub fn render_rows(&self) -> (r: Vec<(String, bool)>)
        ensures
            r@.len() == self.networks@.len(),
            forall|i: int|
                0 <= i < r@.len() ==> r@[i].0@ == self.networks@[i]@ && (r@[i].1 <==> i
                    == self.selected_index),
    {
        let mut r: Vec<(String, bool)> = Vec::new();
        let mut i: usize = 0;
        while i < self.networks.len()
            invariant
                i <= self.networks@.len(),
                r@.len() == i,
                forall|k: int|
                    0 <= k < i ==> r@[k].0@ == self.networks@[k]@ && (r@[k].1 <==> k
                        == self.selected_index),
            decreases self.networks@.len() - i,
        {
            r.push((self.networks[i].clone(), i == self.selected_index));
            i = i + 1;
        }
        r
    }

    /// The list title, with the row count: `"Networks (3)"`.
    pub fn render_title(&self) -> (r: String)
        ensures
            r@ == "Networks ("@ + dec_str(self.networks@.len()) + ")"@,
    {
        "Networks (".to_owned().concat(u64_to_string(self.networks.len() as u64).as_str())
            .concat(")")
    }

    /// The key legend shown under the view.
    pub fn render_help() -> (r: &'static str)
        ensures
            r@ == "[Up/Down] Select   [C] Create   [D] Delete   [I] Inspect   [R/F5] Refresh   [Q] Quit"@,
    {
        "[Up/Down] Select   [C] Create   [D] Delete   [I] Inspect   [R/F5] Refresh   [Q] Quit"
    }
}

/// After every refresh the cursor is strictly below the row count
/// whenever rows exist, and zero when the new listing is empty.
pub proof fn lemma_refresh_selection_in_bounds(v: NetworksUI, items: Vec<String>)
    ensures
        items@.len() > 0 ==> v.spec_refreshed(items).selected_index < items@.len(),
        items@.len() == 0 ==> v.spec_refreshed(items).selected_index == 0,
{
}

/// Refreshing twice in a row with an unchanged listing gives exactly
/// the view one refresh gives: the rows are identical and the cursor
/// does not move again.
pub proof fn lemma_refresh_idempotent(v: NetworksUI, items: Vec<String>)
    ensures
        v.spec_refreshed(items).spec_refreshed(items) == v.spec_refreshed(items),
{
}

} // verus!
