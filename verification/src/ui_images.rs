//! The images view: a table of formatted image rows with a cursor, and
//! the inspect modal — a two-state machine. In the browsing state the
//! keys move the cursor and ask for engine work; opening the inspect
//! modal re-routes input to scrolling the formatted detail text until
//! the modal is closed.

use vstd::prelude::*;
use crate::docker::{ImageInfo, ImageInspectDetails, QueryError};
use crate::input::KeyCode;
use crate::selection::{
    clamp_selection, clamped_selection, selection_down, selection_up, selection_wf,
};
use crate::text::{dec_str, join_strings, joined, u64_to_string};

verus! {

/// The engine work a key press on the images view asks for.
#[derive(Debug, PartialEq, Eq)]
pub enum ImageCmd {
    /// Nothing to do outside the view.
    Idle,
    /// Query the image listing and hand it to `apply_refresh`.
    Refresh,
    /// Delete the image with this identifier.
    Delete(String),
    /// Pull the image with this repository tag.
    Pull(String),
    /// Fetch the inspect details of the image with this identifier and
    /// hand them to `apply_inspect_result`.
    Inspect(String),
}

/// The images view: its fixed tab slot, the formatted rows last listed,
/// the cursor over them, and the inspect modal state.
#[derive(Debug, PartialEq, Eq)]
pub struct ImagesUI {
    pub tab_num: usize,
    pub selected_index: usize,
    pub images: Vec<ImageInfo>,
    /// The modal is open; while the detail fetch is still out,
    /// `inspect_data` is `None` and the modal shows a loading line.
    pub show_inspect_modal: bool,
    pub inspect_data: Option<ImageInspectDetails>,
    /// How many leading detail lines are scrolled out of the modal.
    pub inspect_scroll: usize,
}

/// What the inspect modal shows: a loading placeholder until the detail
/// fetch lands, the formatted detail lines afterwards.
#[derive(Debug, PartialEq, Eq)]
pub enum InspectModalContent {
    Loading,
    Details(Vec<String>),
}

/// The detail lines of the inspect modal, in order: a basic-information
/// section, a configuration section whose optional parts appear only
/// when present, and a labels section only when labels exist.
pub open spec fn spec_inspect_lines(d: ImageInspectDetails) -> Seq<Seq<char>> {
    spec_basic_lines(d) + spec_config_lines(d) + spec_label_lines(d)
}

/// The basic-information section of the inspect modal.
pub open spec fn spec_basic_lines(d: ImageInspectDetails) -> Seq<Seq<char>> {
    seq![
        "Basic Information"@,
        ""@,
        "ID: "@ + d.id@,
        "Repository Tags: "@ + joined(d.repo_tags.deep_view(), ", "@),
        "Size: "@ + d.size_formatted@,
        "Created: "@ + d.created_formatted@,
        "Architecture: "@ + d.architecture@,
        "OS: "@ + d.os@,
        ""@,
    ]
}

/// The environment block: a heading, one indented line per variable,
/// and a blank line — only when any variables exist.
pub open spec fn spec_env_lines(d: ImageInspectDetails) -> Seq<Seq<char>> {
    if d.env@.len() > 0 {
        seq!["Environment Variables:"@] + d.env.deep_view().map_values(|e: Seq<char>| "  "@ + e)
            + seq![""@]
    } else {
        Seq::empty()
    }
}

/// The configuration section of the inspect modal.
pub open spec fn spec_config_lines(d: ImageInspectDetails) -> Seq<Seq<char>> {
    seq!["Configuration"@, ""@] + spec_env_lines(d) + (if d.exposed_ports@.len() > 0 {
        seq!["Exposed Ports: "@ + joined(d.exposed_ports.deep_view(), ", "@)]
    } else {
        Seq::empty()
    }) + (if d.working_dir@.len() > 0 {
        seq!["Working Directory: "@ + d.working_dir@]
    } else {
        Seq::empty()
    }) + (if d.entrypoint@.len() > 0 {
        seq!["Entrypoint: "@ + joined(d.entrypoint.deep_view(), " "@)]
    } else {
        Seq::empty()
    }) + (if d.cmd@.len() > 0 {
        seq!["Command: "@ + joined(d.cmd.deep_view(), " "@)]
    } else {
        Seq::empty()
    }) + seq![""@]
}

/// The labels section of the inspect modal: one `key: value` line per
/// label, under a heading — only when any labels exist.
pub open spec fn spec_label_lines(d: ImageInspectDetails) -> Seq<Seq<char>> {
    if d.labels@.len() > 0 {
        seq!["Labels"@, ""@] + d.labels.deep_view().map_values(
            |kv: (Seq<char>, Seq<char>)| kv.0 + ": "@ + kv.1,
        )
    } else {
        Seq::empty()
    }
}

/// Append one line.
fn push_line(lines: &mut Vec<String>, line: String)
    ensures
        final(lines).deep_view() == old(lines).deep_view().push(line@),
{
    let ghost before = lines.deep_view();
    lines.push(line);
    proof {
        assert(lines.deep_view() =~= before.push(line@));
    }
}

/// Append one line from a literal.
fn push_str_line(lines: &mut Vec<String>, line: &str)
    ensures
        final(lines).deep_view() == old(lines).deep_view().push(line@),
{
    push_line(lines, line.to_owned());
}

impl ImagesUI {
    /// The cursor is in bounds whenever rows exist and zero otherwise,
    /// and the modal scroll is zero until detail lines exist to scroll.
    pub open spec fn inv(&self) -> bool {
        &&& selection_wf(self.selected_index as nat, self.images@.len())
        &&& self.inspect_data is None ==> self.inspect_scroll == 0
    }

    /// The row under the cursor, if any row exists.
    pub open spec fn spec_selected(&self) -> Option<ImageInfo> {
        if self.selected_index < self.images@.len() {
            Option::Some(self.images@[self.selected_index as int])
        } else {
            Option::None
        }
    }

    /// One key press while the modal is open: close, or scroll the
    /// detail text, the scroll clamped so the last page stays visible.
    pub open spec fn spec_modal_step(self, key: KeyCode) -> ImagesUI {
        if key == KeyCode::Char('i') {
            ImagesUI {
                show_inspect_modal: false,
                inspect_data: Option::None,
                inspect_scroll: 0,
                ..self
            }
        } else if key == KeyCode::Up {
            ImagesUI {
                inspect_scroll: if self.inspect_scroll > 0 {
                    (self.inspect_scroll - 1) as usize
                } else {
                    0
                },
                ..self
            }
        } else if key == KeyCode::Down {
            ImagesUI {
                inspect_scroll: match self.inspect_data {
                    Option::Some(d) => if self.inspect_scroll + 10 < spec_inspect_lines(
                        d,
                    ).len() {
                        (self.inspect_scroll + 1) as usize
                    } else {
                        self.inspect_scroll
                    },
                    Option::None => self.inspect_scroll,
                },
                ..self
            }
        } else {
            self
        }
    }

    /// One key press: the view afterwards, whether the key was
    /// consumed, and the engine work asked for. With the modal open,
    /// every key is consumed by the modal.
    pub open spec fn spec_step(self, key: KeyCode) -> (ImagesUI, bool, ImageCmd) {
        if self.show_inspect_modal {
            (self.spec_modal_step(key), true, ImageCmd::Idle)
        } else if key == KeyCode::Up {
            (
                ImagesUI {
                    selected_index: if self.selected_index > 0 {
                        (self.selected_index - 1) as usize
                    } else {
                        0
                    },
                    ..self
                },
                true,
                ImageCmd::Idle,
            )
        } else if key == KeyCode::Down {
            (
                ImagesUI {
                    selected_index: if self.selected_index + 1 < self.images@.len() {
                        (self.selected_index + 1) as usize
                    } else {
                        self.selected_index
                    },
                    ..self
                },
                true,
                ImageCmd::Idle,
            )
        } else if key == KeyCode::Char('r') || key == KeyCode::F(5) {
            (self, true, ImageCmd::Refresh)
        } else if key == KeyCode::Char('d') {
            (
                self,
                true,
                match self.spec_selected() {
                    Option::Some(img) => ImageCmd::Delete(img.id),
                    Option::None => ImageCmd::Idle,
                },
            )
        } else if key == KeyCode::Char('p') {
            (
                self,
                true,
                match self.spec_selected() {
                    Option::Some(img) => ImageCmd::Pull(img.repo_tag),
                    Option::None => ImageCmd::Idle,
                },
            )
        } else if key == KeyCode::Char('i') {
            match self.spec_selected() {
                Option::Some(img) => (
                    ImagesUI {
                        show_inspect_modal: true,
                        inspect_data: Option::None,
                        inspect_scroll: 0,
                        ..self
                    },
                    true,
                    ImageCmd::Inspect(img.id),
                ),
                Option::None => (self, true, ImageCmd::Idle),
            }
        } else {
            (self, false, ImageCmd::Idle)
        }
    }

    /// A fresh view bound to its tab slot, with no rows and the modal
    /// closed.
    pub fn new(tab_num: usize) -> (r: ImagesUI)
        ensures
            r.tab_num == tab_num,
            r.selected_index == 0,
            r.images@.len() == 0,
            !r.show_inspect_modal,
            r.inspect_data is None,
            r.inspect_scroll == 0,
            r.inv(),
    {
        ImagesUI {
            tab_num,
            selected_index: 0,
            images: Vec::new(),
            show_inspect_modal: false,
            inspect_data: None,
            inspect_scroll: 0,
        }
    }

    /// The tab label.
    pub fn name(&self) -> (r: &'static str)
        ensures
            r@ == "Images"@,
    {
        "Images"
    }

    /// The fixed tab slot.
    pub fn tab(&self) -> (r: usize)
        ensures
            r == self.tab_num,
    {
        self.tab_num
    }

    /// The row under the cursor, if any.
    pub fn get_selected_image(&self) -> (r: Option<&ImageInfo>)
        ensures
            match r {
                Option::Some(img) => self.spec_selected() == Option::Some(*img),
                Option::None => self.spec_selected() is None,
            },
    {
        if self.selected_index < self.images.len() {
            Some(&self.images[self.selected_index])
        } else {
            None
        }
    }

    /// The view after a successful refresh: the listing replaces the
    /// rows wholesale, and the cursor is clamped to the new length;
    /// the modal state is untouched.
    pub open spec fn spec_refreshed(self, items: Vec<ImageInfo>) -> ImagesUI {
        ImagesUI {
            images: items,
            selected_index: clamped_selection(self.selected_index as nat, items@.len()) as usize,
            ..self
        }
    }

    /// Take the outcome of a listing query: a successful listing
    /// replaces the rows wholesale and clamps the cursor; a failure
    /// leaves the view exactly as it was and is handed back.
    pub fn apply_refresh(&mut self, outcome: Result<Vec<ImageInfo>, QueryError>) -> (r: Result<
        (),
        QueryError,
    >)
        requires
            old(self).inv(),
        ensures
            final(self).inv(),
            outcome matches Ok(items) ==> *final(self) == old(self).spec_refreshed(items)
                && r is Ok,
            outcome matches Err(e) ==> *final(self) == *old(self) && (r matches Err(e2) && e2
                == e),
    {
        match outcome {
            Ok(items) => {
                self.images = items;
                self.selected_index = clamp_selection(self.selected_index, self.images.len());
                Ok(())
            },
            Err(e) => Err(e),
        }
    }

    /// Open the inspect modal in its loading state; the caller fetches
    /// the details and hands the outcome to `apply_inspect_result`.
    pub fn open_inspect(&mut self)
        ensures
            *final(self) == (ImagesUI {
                show_inspect_modal: true,
                inspect_data: Option::None,
                inspect_scroll: 0,
                ..*old(self)
            }),
    {
        self.show_inspect_modal = true;
        self.inspect_data = None;
        self.inspect_scroll = 0;
    }

    /// Take the outcome of the detail fetch: details fill the open
    /// modal; a failure closes it again.
    pub fn apply_inspect_result(&mut self, outcome: Result<ImageInspectDetails, QueryError>)
        requires
            old(self).inv(),
        ensures
            final(self).inv(),
            outcome matches Ok(details) ==> *final(self) == (ImagesUI {
                inspect_data: Option::Some(details),
                ..*old(self)
            }),
            outcome is Err ==> *final(self) == (ImagesUI {
                show_inspect_modal: false,
                ..*old(self)
            }),
    {
        match outcome {
            Ok(details) => {
                self.inspect_data = Some(details);
            },
            Err(_) => {
                self.show_inspect_modal = false;
            },
        }
    }

    /// What the open modal shows.
    pub fn modal_content(&self) -> (r: InspectModalContent)
        ensures
            match self.inspect_data {
                Option::Some(d) => r matches InspectModalContent::Details(lines)
                    && lines.deep_view() == spec_inspect_lines(d),
                Option::None => r is Loading,
            },
    {
        match &self.inspect_data {
            Some(d) => InspectModalContent::Details(format_inspect_data(d)),
            None => InspectModalContent::Loading,
        }
    }

    /// Decide on one key press. With the modal open, keys scroll or
    /// close it; otherwise they move the cursor or ask for engine work.
    /// Returns whether the key was consumed, and the work to perform;
    /// the transition is exactly `spec_step`.
    pub fn handle_input(&mut self, key: KeyCode) -> (r: (bool, ImageCmd))
        requires
            old(self).inv(),
        ensures
            final(self).inv(),
            (*final(self), r.0, r.1) == old(self).spec_step(key),
    {
        if self.show_inspect_modal {
            match key {
                KeyCode::Char('i') => {
                    self.show_inspect_modal = false;
                    self.inspect_data = None;
                    self.inspect_scroll = 0;
                },
                KeyCode::Up => {
                    if self.inspect_scroll > 0 {
                        self.inspect_scroll = self.inspect_scroll - 1;
                    }
                },
                KeyCode::Down => {
                    match &self.inspect_data {
                        Some(d) => {
                            let total = format_inspect_data(d).len();
                            if total > 10 && self.inspect_scroll < total - 10 {
                                self.inspect_scroll = self.inspect_scroll + 1;
                            }
                        },
                        None => {},
                    }
                },
                _ => {},
            }
            return (true, ImageCmd::Idle);
        }
        match key {
            KeyCode::Up => {
                self.selected_index = selection_up(self.selected_index);
                (true, ImageCmd::Idle)
            },
            KeyCode::Down => {
                self.selected_index = selection_down(self.selected_index, self.images.len());
                (true, ImageCmd::Idle)
            },
            KeyCode::Char('r') | KeyCode::F(5) => (true, ImageCmd::Refresh),
            KeyCode::Char('d') => {
                match self.get_selected_image() {
                    Some(img) => {
                        let id = img.id.clone();
                        (true, ImageCmd::Delete(id))
                    },
                    None => (true, ImageCmd::Idle),
                }
            },
            KeyCode::Char('p') => {
                match self.get_selected_image() {
                    Some(img) => {
                        let tag = img.repo_tag.clone();
                        (true, ImageCmd::Pull(tag))
                    },
                    None => (true, ImageCmd::Idle),
                }
            },
            KeyCode::Char('i') => {
                let id: Option<String> = match self.get_selected_image() {
                    Some(img) => Some(img.id.clone()),
                    None => None,
                };
                match id {
                    Some(id) => {
                        self.open_inspect();
                        (true, ImageCmd::Inspect(id))
                    },
                    None => (true, ImageCmd::Idle),
                }
            },
            _ => (false, ImageCmd::Idle),
        }
    }

    /// The table rows to draw: the five formatted columns of each row,
    /// with whether it is the selected row.
    pub fn render_rows(&self) -> (r: Vec<(Vec<String>, bool)>)
        ensures
            r@.len() == self.images@.len(),
            forall|i: int|
                0 <= i < r@.len() ==> {
                    &&& (#[trigger] r@[i]).0.deep_view() =~= seq![
                        self.images@[i].repo_tag@,
                        self.images@[i].display_id@,
                        self.images@[i].size_formatted@,
                        self.images@[i].created_ago@,
                        self.images@[i].containers_count@,
                    ]
                    &&& (r@[i].1 <==> i == self.selected_index)
                },
    {
        let mut r: Vec<(Vec<String>, bool)> = Vec::new();
        let mut i: usize = 0;
        while i < self.images.len()
            invariant
                i <= self.images@.len(),
                r@.len() == i,
                forall|k: int|
                    0 <= k < i ==> {
                        &&& (#[trigger] r@[k]).0.deep_view() =~= seq![
                            self.images@[k].repo_tag@,
                            self.images@[k].display_id@,
                            self.images@[k].size_formatted@,
                            self.images@[k].created_ago@,
                            self.images@[k].containers_count@,
                        ]
                        &&& (r@[k].1 <==> k == self.selected_index)
                    },
            decreases self.images@.len() - i,
        {
            let img = &self.images[i];
            let mut cols: Vec<String> = Vec::new();
            cols.push(img.repo_tag.clone());
            cols.push(img.display_id.clone());
            cols.push(img.size_formatted.clone());
            cols.push(img.created_ago.clone());
            cols.push(img.containers_count.clone());
            proof {
                assert(cols.deep_view() =~= seq![
                    self.images@[i as int].repo_tag@,
                    self.images@[i as int].display_id@,
                    self.images@[i as int].size_formatted@,
                    self.images@[i as int].created_ago@,
                    self.images@[i as int].containers_count@,
                ]);
            }
            r.push((cols, i == self.selected_index));
            i = i + 1;
        }
        r
    }

    /// The table title, with the row count: `"Images (5)"`.
    pub fn render_title(&self) -> (r: String)
        ensures
            r@ == "Images ("@ + dec_str(self.images@.len()) + ")"@,
    {
        "Images (".to_owned().concat(u64_to_string(self.images.len() as u64).as_str()).concat(
            ")",
        )
    }

    /// The key legend shown under the view; scrolling and closing while
    /// the modal is open.
    pub fn render_help(&self) -> (r: &'static str)
        ensures
            self.show_inspect_modal ==> r@ == "[Up/Down] Scroll   [I] Close"@,
            !self.show_inspect_modal ==> r@
                == "[Up/Down] Select   [D] Delete   [P] Pull   [I] Inspect   [R/F5] Refresh   [Q] Quit"@,
    {
        if self.show_inspect_modal {
            "[Up/Down] Scroll   [I] Close"
        } else {
            "[Up/Down] Select   [D] Delete   [P] Pull   [I] Inspect   [R/F5] Refresh   [Q] Quit"
        }
    }
}

/// After every refresh the cursor is strictly below the row count
/// whenever rows exist, and zero when the new listing is empty.
pub proof fn lemma_refresh_selection_in_bounds(v: ImagesUI, items: Vec<ImageInfo>)
    ensures
        items@.len() > 0 ==> v.spec_refreshed(items).selected_index < items@.len(),
        items@.len() == 0 ==> v.spec_refreshed(items).selected_index == 0,
{
}

/// Refreshing twice in a row with an unchanged listing gives exactly
/// the view one refresh gives: the rows are identical and the cursor
/// does not move again.
pub proof fn lemma_refresh_idempotent(v: ImagesUI, items: Vec<ImageInfo>)
    ensures
        v.spec_refreshed(items).spec_refreshed(items) == v.spec_refreshed(items),
{
}

/// Whether an image can be pulled: an untagged image has nothing to
/// pull by.
pub fn can_pull(img: &ImageInfo) -> (r: bool)
    ensures
        r <==> img.repo_tag@ != "<none>:<none>"@,
{
    let untagged: String = "<none>:<none>".to_owned();
    !img.repo_tag.eq(&untagged)
}

/// The visible slice of the detail lines: at most `count` lines starting
/// after the first `scroll`.
pub fn visible_lines(lines: &Vec<String>, scroll: usize, count: usize) -> (r: Vec<String>)
    ensures
        scroll as int <= lines@.len() ==> r@.len() == vstd::math::min(
            count as int,
            lines@.len() - scroll,
        ),
        scroll as int > lines@.len() ==> r@.len() == 0,
        forall|k: int|
            0 <= k < r@.len() ==> r.deep_view()[k] == lines.deep_view()[scroll + k],
{
    let mut r: Vec<String> = Vec::new();
    if scroll >= lines.len() {
        return r;
    }
    let end: usize = if lines.len() - scroll < count {
        lines.len()
    } else {
        scroll + count
    };
    let mut i: usize = scroll;
    while i < end
        invariant
            scroll <= i <= end <= lines@.len(),
            r@.len() == i - scroll,
            forall|k: int| 0 <= k < r@.len() ==> r.deep_view()[k] == lines.deep_view()[scroll + k],
        decreases end - i,
    {
        let ghost before = r.deep_view();
        r.push(lines[i].clone());
        proof {
            assert(r.deep_view() =~= before.push(lines@[i as int]@));
            assert(lines.deep_view()[i as int] == lines@[i as int]@);
        }
        i = i + 1;
    }
    r
}

/// Format the inspect details into the modal's text lines.
#[verifier::rlimit(60)]
pub fn format_inspect_data(d: &ImageInspectDetails) -> (r: Vec<String>)
    ensures
        r.deep_view() == spec_inspect_lines(*d),
{
    let mut r: Vec<String> = Vec::new();

    push_str_line(&mut r, "Basic Information");
    push_str_line(&mut r, "");
    push_line(&mut r, "ID: ".to_owned().concat(d.id.as_str()));
    push_line(
        &mut r,
        "Repository Tags: ".to_owned().concat(
            join_strings(&d.repo_tags, ", ").as_str(),
        ),
    );
    push_line(&mut r, "Size: ".to_owned().concat(d.size_formatted.as_str()));
    push_line(&mut r, "Created: ".to_owned().concat(d.created_formatted.as_str()));
    push_line(&mut r, "Architecture: ".to_owned().concat(d.architecture.as_str()));
    push_line(&mut r, "OS: ".to_owned().concat(d.os.as_str()));
    push_str_line(&mut r, "");
    proof {
        assert(r.deep_view() =~~= spec_basic_lines(*d));
    }
    let ghost done_basic = r.deep_view();

    push_str_line(&mut r, "Configuration");
    push_str_line(&mut r, "");
    if d.env.len() > 0 {
        push_str_line(&mut r, "Environment Variables:");
        let ghost env_mapped = d.env.deep_view().map_values(|e: Seq<char>| "  "@ + e);
        let ghost before_env = r.deep_view();
        let mut i: usize = 0;
        while i < d.env.len()
            invariant
                i <= d.env@.len(),
                env_mapped == d.env.deep_view().map_values(|e: Seq<char>| "  "@ + e),
                env_mapped.len() == d.env@.len(),
                r.deep_view() == before_env + env_mapped.subrange(0, i as int),
            decreases d.env@.len() - i,
        {
            push_line(&mut r, "  ".to_owned().concat(d.env[i].as_str()));
            proof {
                assert(env_mapped[i as int] == "  "@ + d.env.deep_view()[i as int]);
                assert(d.env.deep_view()[i as int] == d.env@[i as int]@);
                assert(before_env + env_mapped.subrange(0, i + 1) =~= (before_env
                    + env_mapped.subrange(0, i as int)).push(env_mapped[i as int]));
            }
            i = i + 1;
        }
        proof {
            assert(env_mapped.subrange(0, d.env@.len() as int) =~= env_mapped);
        }
        push_str_line(&mut r, "");
    }
    proof {
        assert(r.deep_view() =~~= done_basic + seq!["Configuration"@, ""@] + spec_env_lines(*d));
    }
    let ghost done_env = r.deep_view();

    if d.exposed_ports.len() > 0 {
        push_line(
            &mut r,
            "Exposed Ports: ".to_owned().concat(
                join_strings(&d.exposed_ports, ", ").as_str(),
            ),
        );
    }
    if d.working_dir.as_str().unicode_len() > 0 {
        push_line(&mut r, "Working Directory: ".to_owned().concat(d.working_dir.as_str()));
    }
    if d.entrypoint.len() > 0 {
        push_line(
            &mut r,
            "Entrypoint: ".to_owned().concat(
                join_strings(&d.entrypoint, " ").as_str(),
            ),
        );
    }
    if d.cmd.len() > 0 {
        push_line(
            &mut r,
            "Command: ".to_owned().concat(join_strings(&d.cmd, " ").as_str()),
        );
    }
    push_str_line(&mut r, "");
    proof {
        assert(r.deep_view() =~~= done_basic + spec_config_lines(*d));
    }
    let ghost done_config = r.deep_view();

    if d.labels.len() > 0 {
        push_str_line(&mut r, "Labels");
        push_str_line(&mut r, "");
        let ghost label_mapped = d.labels.deep_view().map_values(
            |kv: (Seq<char>, Seq<char>)| kv.0 + ": "@ + kv.1,
        );
        let ghost before_labels = r.deep_view();
        let mut i: usize = 0;
        while i < d.labels.len()
            invariant
                i <= d.labels@.len(),
                label_mapped == d.labels.deep_view().map_values(
                    |kv: (Seq<char>, Seq<char>)| kv.0 + ": "@ + kv.1,
                ),
                label_mapped.len() == d.labels@.len(),
                r.deep_view() == before_labels + label_mapped.subrange(0, i as int),
            decreases d.labels@.len() - i,
        {
            let line = d.labels[i].0.clone().concat(": ").concat(d.labels[i].1.as_str());
            push_line(&mut r, line);
            proof {
                assert(d.labels.deep_view()[i as int] == d.labels@[i as int].deep_view());
                assert(label_mapped[i as int] == d.labels@[i as int].0@ + ": "@ + d.labels@[
                    i as int
                ].1@);
                assert(before_labels + label_mapped.subrange(0, i + 1) =~= (before_labels
                    + label_mapped.subrange(0, i as int)).push(label_mapped[i as int]));
            }
            i = i + 1;
        }
        proof {
            assert(label_mapped.subrange(0, d.labels@.len() as int) =~= label_mapped);
        }
    }
    proof {
        assert(r.deep_view() =~~= done_config + spec_label_lines(*d));
        assert(r.deep_view() =~~= spec_inspect_lines(*d));
    }
    r
}

} // verus!
