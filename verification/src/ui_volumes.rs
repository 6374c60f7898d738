//! The volumes view: a flat list of volume names with a cursor,
//! refreshed from the engine, with create, delete and inspect bound to
//! single keys.

use vstd::prelude::*;
use crate::docker::QueryError;
use crate::input::KeyCode;
use crate::selection::{
    clamp_selection, clamped_selection, selection_down, selection_up, selection_wf,
};
use crate::text::{dec_str, u64_to_string};

verus! {

/// The engine work a key press on the volumes view asks for.
#[derive(Debug, PartialEq, Eq)]
pub enum VolumeCmd {
    /// Nothing to do outside the view.
    Idle,
    /// Query the volume listing and hand it to `apply_refresh`.
    Refresh,
    /// Delete the named volume.
    Delete(String),
    /// Create a new volume.
    Create,
    /// Inspect the named volume.
    Inspect(String),
}

/// The volumes view: its fixed tab slot, the rows last listed, and the
/// cursor over them.
#[derive(Debug, PartialEq, Eq)]
pub struct VolumesUI {
    pub tab_num: usize,
    pub selected_index: usize,
    pub volumes: Vec<String>,
}

impl VolumesUI {
    /// The cursor is in bounds whenever rows exist, and zero otherwise.
    pub open spec fn inv(&self) -> bool {
        selection_wf(self.selected_index as nat, self.volumes@.len())
    }

    /// The name under the cursor, if any row exists.
    pub open spec fn spec_selected(&self) -> Option<String> {
        if self.selected_index < self.volumes@.len() {
            Option::Some(self.volumes@[self.selected_index as int])
        } else {
            Option::None
        }
    }

    /// One key press: the view afterwards, whether the key was
    /// consumed, and the engine work asked for.
    pub open spec fn spec_step(self, key: KeyCode) -> (VolumesUI, bool, VolumeCmd) {
        if key == KeyCode::Up {
            (
                VolumesUI {
                    selected_index: if self.selected_index > 0 {
                        (self.selected_index - 1) as usize
                    } else {
                        0
                    },
                    ..self
                },
                true,
                VolumeCmd::Idle,
            )
        } else if key == KeyCode::Down {
            (
                VolumesUI {
                    selected_index: if self.selected_index + 1 < self.volumes@.len() {
                        (self.selected_index + 1) as usize
                    } else {
                        self.selected_index
                    },
                    ..self
                },
                true,
                VolumeCmd::Idle,
            )
        } else if key == KeyCode::Char('r') || key == KeyCode::F(5) {
            (self, true, VolumeCmd::Refresh)
        } else if key == KeyCode::Char('d') {
            (
                self,
                true,
                match self.spec_selected() {
                    Option::Some(n) => VolumeCmd::Delete(n),
                    Option::None => VolumeCmd::Idle,
                },
            )
        } else if key == KeyCode::Char('c') {
            (self, true, VolumeCmd::Create)
        } else if key == KeyCode::Char('i') {
            (
                self,
                true,
                match self.spec_selected() {
                    Option::Some(n) => VolumeCmd::Inspect(n),
                    Option::None => VolumeCmd::Idle,
                },
            )
        } else {
            (self, false, VolumeCmd::Idle)
        }
    }

    /// A fresh view bound to its tab slot, with no rows yet.
    pub fn new(tab_num: usize) -> (r: VolumesUI)
        ensures
            r.tab_num == tab_num,
            r.selected_index == 0,
            r.volumes@.len() == 0,
            r.inv(),
    {
        VolumesUI { tab_num, selected_index: 0, volumes: Vec::new() }
    }

    /// The tab label.
    pub fn name(&self) -> (r: &'static str)
        ensures
            r@ == "Volumes"@,
    {
        "Volumes"
    }

    /// The fixed tab slot.
    pub fn tab(&self) -> (r: usize)
        ensures
            r == self.tab_num,
    {
        self.tab_num
    }

    /// The name under the cursor, if any.
    pub fn get_selected_volume(&self) -> (r: Option<&String>)
        ensures
            match r {
                Option::Some(s) => self.spec_selected() == Option::Some(*s),
                Option::None => self.spec_selected() is None,
            },
    {
        if self.selected_index < self.volumes.len() {
            Some(&self.volumes[self.selected_index])
        } else {
            None
        }
    }

    /// The view after a successful refresh: the listing replaces the
    /// rows wholesale, and the cursor is clamped to the new length.
    pub open spec fn spec_refreshed(self, items: Vec<String>) -> VolumesUI {
        VolumesUI {
            volumes: items,
            selected_index: clamped_selection(self.selected_index as nat, items@.len()) as usize,
            ..self
        }
    }

    /// Take the outcome of a listing query: a successful listing
    /// replaces the rows wholesale and clamps the cursor; a failure
    /// leaves the view exactly as it was and is handed back.
    pub fn apply_refresh(&mut self, outcome: Result<Vec<String>, QueryError>) -> (r: Result<
        (),
        QueryError,
    >)
        requires
            old(self).inv(),
        ensures
            final(self).inv(),
            outcome matches Ok(items) ==> *final(self) == old(self).spec_refreshed(items)
                && r is Ok,
            outcome matches Err(e) ==> *final(self) == *old(self) && (r matches Err(e2) && e2
                == e),
    {
        match outcome {
            Ok(items) => {
                self.volumes = items;
                self.selected_index = clamp_selection(self.selected_index, self.volumes.len());
                Ok(())
            },
            Err(e) => Err(e),
        }
    }

    /// Decide on one key press: move the cursor, or ask the caller for
    /// engine work. Returns whether the key was consumed, and the work
    /// to perform; the transition is exactly `spec_step`.
    pub fn handle_input(&mut self, key: KeyCode) -> (r: (bool, VolumeCmd))
        requires
            old(self).inv(),
        ensures
            final(self).inv(),
            (*final(self), r.0, r.1) == old(self).spec_step(key),
    {
        match key {
            KeyCode::Up => {
                self.selected_index = selection_up(self.selected_index);
                (true, VolumeCmd::Idle)
            },
            KeyCode::Down => {
                self.selected_index = selection_down(self.selected_index, self.volumes.len());
                (true, VolumeCmd::Idle)
            },
            KeyCode::Char('r') | KeyCode::F(5) => (true, VolumeCmd::Refresh),
            KeyCode::Char('d') => {
                match self.get_selected_volume() {
                    Some(name) => {
                        let n = name.clone();
                        (true, VolumeCmd::Delete(n))
                    },
                    None => (true, VolumeCmd::Idle),
                }
            },
            KeyCode::Char('c') => (true, VolumeCmd::Create),
            KeyCode::Char('i') => {
                match self.get_selected_volume() {
                    Some(name) => {
                        let n = name.clone();
                        (true, VolumeCmd::Inspect(n))
                    },
                    None => (true, VolumeCmd::Idle),
                }
            },
            _ => (false, VolumeCmd::Idle),
        }
    }

    /// The list rows to draw: each name with whether it is the selected
    /// row.
    pub fn render_rows(&self) -> (r: Vec<(String, bool)>)
        ensures
            r@.len() == self.volumes@.len(),
            forall|i: int|
                0 <= i < r@.len() ==> r@[i].0@ == self.volumes@[i]@ && (r@[i].1 <==> i
                    == self.selected_index),
    {
        let mut r: Vec<(String, bool)> = Vec::new();
        let mut i: usize = 0;
        while i < self.volumes.len()
            invariant
                i <= self.volumes@.len(),
                r@.len() == i,
                forall|k: int|
                    0 <= k < i ==> r@[k].0@ == self.volumes@[k]@ && (r@[k].1 <==> k
                        == self.selected_index),
            decreases self.volumes@.len() - i,
        {
            r.push((self.volumes[i].clone(), i == self.selected_index));
            i = i + 1;
        }
        r
    }

    /// The list title, with the row count: `"Volumes (3)"`.
    pub fn render_title(&self) -> (r: String)
        ensures
            r@ == "Volumes ("@ + dec_str(self.volumes@.len()) + ")"@,
    {
        "Volumes (".to_owned().concat(u64_to_string(self.volumes.len() as u64).as_str())
            .concat(")")
    }

    /// The key legend shown under the view.
    pub fn render_help() -> (r: &'static str)
        ensures
            r@ == "[Up/Down] Select   [C] Create   [D] Delete   [I] Inspect   [R/F5] Refresh   [Q] Quit"@,
    {
        "[Up/Down] Select   [C] Create   [D] Delete   [I] Inspect   [R/F5] Refresh   [Q] Quit"
    }
}

/// After every refresh the cursor is strictly below the row count
/// whenever rows exist, and zero when the new listing is empty.
pub proof fn lemma_refresh_selection_in_bounds(v: VolumesUI, items: Vec<String>)
    ensures
        items@.len() > 0 ==> v.spec_refreshed(items).selected_index < items@.len(),
        items@.len() == 0 ==> v.spec_refreshed(items).selected_index == 0,
{
}

/// Refreshing twice in a row with an unchanged listing gives exactly
/// the view one refresh gives: the rows are identical and the cursor
/// does not move again.
pub proof fn lemma_refresh_idempotent(v: VolumesUI, items: Vec<String>)
    ensures
        v.spec_refreshed(items).spec_refreshed(items) == v.spec_refreshed(items),
{
}

} // verus!
