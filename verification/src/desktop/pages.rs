//! The pages of the desktop client: their names, what they hold, and the
//! file browser of the project page.

use crate::desktop::state::Page as PageId;
use crate::models::{FileInfo, FileListResponse};
use crate::order::{is_listing_order, listing_keys, listing_order};
use crate::text::{opt_str, owned, str_ends_with, strings_contain, strs};
use vstd::prelude::*;

verus! {

/// A page of the client.
pub trait Page {
    /// The name shown for the page.
    fn name(&self) -> &'static str;

    /// Called when the page is shown.
    fn on_navigate_to(&mut self) {
    }

    /// Called when another page is shown instead.
    fn on_navigate_from(&mut self) {
    }
}

/// The board of works.
pub struct WorkPage;

impl WorkPage {
    pub fn new() -> (p: Self) {
        WorkPage
    }
}

impl Page for WorkPage {
    fn name(&self) -> (n: &'static str)
        ensures
            n@ == "Board"@,
    {
        "Board"
    }
}

/// Mentions of the user.
pub struct MentionsPage;

impl MentionsPage {
    pub fn new() -> (p: Self) {
        MentionsPage
    }
}

impl Page for MentionsPage {
    fn name(&self) -> (n: &'static str)
        ensures
            n@ == "Mentions"@,
    {
        "Mentions"
    }
}

/// The projects of the server.
pub struct ProjectsPage;

impl ProjectsPage {
    pub fn new() -> (p: Self) {
        ProjectsPage
    }
}

impl Page for ProjectsPage {
    fn name(&self) -> (n: &'static str)
        ensures
            n@ == "Projects"@,
    {
        "Projects"
    }
}

/// The servers known to the client.
pub struct ServersPage;

impl ServersPage {
    pub fn new() -> (p: Self) {
        ServersPage
    }
}

impl Page for ServersPage {
    fn name(&self) -> (n: &'static str)
        ensures
            n@ == "Servers"@,
    {
        "Servers"
    }
}

/// The settings of the server.
pub struct SettingsPage;

impl SettingsPage {
    pub fn new() -> (p: Self) {
        SettingsPage
    }
}

impl Page for SettingsPage {
    fn name(&self) -> (n: &'static str)
        ensures
            n@ == "Settings"@,
    {
        "Settings"
    }
}

/// The teams of the server.
pub struct TeamsPage;

impl TeamsPage {
    pub fn new() -> (p: Self) {
        TeamsPage
    }
}

impl Page for TeamsPage {
    fn name(&self) -> (n: &'static str)
        ensures
            n@ == "Teams"@,
    {
        "Teams"
    }
}

/// The users of the server.
pub struct UsersPage;

impl UsersPage {
    pub fn new() -> (p: Self) {
        UsersPage
    }
}

impl Page for UsersPage {
    fn name(&self) -> (n: &'static str)
        ensures
            n@ == "Users"@,
    {
        "Users"
    }
}

/// The titles of the sample cards shown on the reference pages.
pub open spec fn reference_titles() -> Seq<Seq<char>> {
    seq![
        "Project Alpha"@,
        "Project Beta"@,
        "Project Gamma"@,
        "Project Delta"@,
        "Project Epsilon"@,
        "Project Zeta"@,
        "Project Eta"@,
        "Project Theta"@,
        "Project Iota"@,
        "Project Kappa"@,
        "Project Lambda"@,
        "Project Mu"@,
        "Project Nu"@,
        "Project Xi"@,
        "Project Omicron"@,
        "Project Pi"@,
        "Project Rho"@,
        "Project Sigma"@,
        "Project Tau"@,
        "Project Upsilon"@,
    ]
}

fn reference_card_titles() -> (v: Vec<String>)
    ensures
        strs(v@) == reference_titles(),
{
    let mut v: Vec<String> = Vec::new();
    v.push(owned("Project Alpha"));
    v.push(owned("Project Beta"));
    v.push(owned("Project Gamma"));
    v.push(owned("Project Delta"));
    v.push(owned("Project Epsilon"));
    v.push(owned("Project Zeta"));
    v.push(owned("Project Eta"));
    v.push(owned("Project Theta"));
    v.push(owned("Project Iota"));
    v.push(owned("Project Kappa"));
    v.push(owned("Project Lambda"));
    v.push(owned("Project Mu"));
    v.push(owned("Project Nu"));
    v.push(owned("Project Xi"));
    v.push(owned("Project Omicron"));
    v.push(owned("Project Pi"));
    v.push(owned("Project Rho"));
    v.push(owned("Project Sigma"));
    v.push(owned("Project Tau"));
    v.push(owned("Project Upsilon"));
    assert(strs(v@) =~= reference_titles());
    v
}

/// A reference page of the widgets the client uses.
pub struct UiReferencePage {
    pub ui_reference_card_titles: Vec<String>,
    pub ui_reference_form_text: String,
    pub ui_reference_form_dropdown: Option<String>,
    pub ui_reference_readme_content: String,
}

impl UiReferencePage {
    /// The sample cards, an empty form and no README.
    pub fn new() -> (p: Self)
        ensures
            strs(p.ui_reference_card_titles@) == reference_titles(),
            p.ui_reference_form_text@.len() == 0,
            p.ui_reference_form_dropdown is None,
            p.ui_reference_readme_content@.len() == 0,
    {
        UiReferencePage {
            ui_reference_card_titles: reference_card_titles(),
            ui_reference_form_text: String::new(),
            ui_reference_form_dropdown: None,
            ui_reference_readme_content: String::new(),
        }
    }
}

impl Page for UiReferencePage {
    fn name(&self) -> (n: &'static str)
        ensures
            n@ == "UI Reference"@,
    {
        "UI Reference"
    }
}

/// The text shown when no README could be read.
pub open spec fn readme_placeholder() -> Seq<char> {
    "# README.md not found\n\nCould not locate README.md file in the project directory."@
}

/// The README shown: the one read, else the placeholder.
pub fn readme_or_placeholder(found: Option<String>) -> (content: String)
    ensures
        content@ == match found {
            Some(c) => c@,
            None => readme_placeholder(),
        },
{
    match found {
        Some(c) => c,
        None => owned("# README.md not found\n\nCould not locate README.md file in the project directory."),
    }
}

/// A two-column reference page that shows the project's README.
pub struct UiTwoColumnMainContentPage {
    pub ui_reference_card_titles: Vec<String>,
    pub ui_reference_form_text: String,
    pub ui_reference_form_dropdown: Option<String>,
    pub ui_reference_readme_content: String,
}

impl UiTwoColumnMainContentPage {
    /// The sample cards, an empty form and the README content given (read
    /// by the caller from the project root).
    pub fn new(readme_content: String) -> (p: Self)
        ensures
            strs(p.ui_reference_card_titles@) == reference_titles(),
            p.ui_reference_form_text@.len() == 0,
            p.ui_reference_form_dropdown is None,
            p.ui_reference_readme_content@ == readme_content@,
    {
        UiTwoColumnMainContentPage {
            ui_reference_card_titles: reference_card_titles(),
            ui_reference_form_text: String::new(),
            ui_reference_form_dropdown: None,
            ui_reference_readme_content: readme_content,
        }
    }
}

impl Page for UiTwoColumnMainContentPage {
    fn name(&self) -> (n: &'static str)
        ensures
            n@ == "2 Column Main Content"@,
    {
        "2 Column Main Content"
    }
}

/// The page of one project.
pub struct ProjectDetailPage {
    project_id: i64,
}

/// The icon shown for a file, by its extension.
pub open spec fn file_icon_of(name: Seq<char>) -> Seq<char> {
    if crate::text::has_suffix(name, ".rs"@) {
        "🦀"@
    } else if crate::text::has_suffix(name, ".js"@) || crate::text::has_suffix(name, ".ts"@) {
        "📜"@
    } else if crate::text::has_suffix(name, ".json"@) {
        "📋"@
    } else if crate::text::has_suffix(name, ".md"@) {
        "📝"@
    } else if crate::text::has_suffix(name, ".yml"@) || crate::text::has_suffix(name, ".yaml"@) {
        "⚙️"@
    } else if crate::text::has_suffix(name, ".toml"@) {
        "🔧"@
    } else {
        "📄"@
    }
}

/// What `std::path::Path::parent` gives for a path, as text.
pub uninterp spec fn path_parent(path: Seq<char>) -> Option<Seq<char>>;

/// Calls `std::path::Path::parent`; the result is named `path_parent`, a
/// function of the path alone. The parent of text is text, so the lossy
/// conversion loses nothing.
#[verifier::external_body]
fn parent_of(path: &str) -> (r: Option<String>)
    ensures
        opt_str(r) == path_parent(path@),
{
    match std::path::Path::new(path).parent() {
        Some(p) => Some(p.to_string_lossy().into_owned()),
        None => None,
    }
}

/// The directory shown after going up from a directory whose parent is
/// `parent`: that parent, or the root (`None`) when there is none or it is
/// empty.
pub open spec fn directory_above(parent: Option<Seq<char>>) -> Option<Seq<char>> {
    match parent {
        Some(p) => if p.len() == 0 {
            None
        } else {
            Some(p)
        },
        None => None,
    }
}

/// The directory shown after going up, given the parent of the current one.
pub fn directory_above_parent(parent: Option<String>) -> (d: Option<String>)
    ensures
        opt_str(d) == directory_above(opt_str(parent)),
{
    match parent {
        Some(p) => if p.as_str().is_empty() {
            None
        } else {
            Some(p)
        },
        None => None,
    }
}

impl ProjectDetailPage {
    /// The page of the project with this ID.
    pub fn new(project_id: i64) -> (p: Self)
        ensures
            p.project_id() == project_id,
    {
        ProjectDetailPage { project_id }
    }

    /// The ID of the project shown.
    pub closed spec fn project_id(&self) -> i64 {
        self.project_id
    }

    /// The ID of the project shown.
    pub fn id(&self) -> (id: i64)
        ensures
            id == self.project_id(),
    {
        self.project_id
    }

    /// The page's entry in the navigation.
    pub fn page_id(&self) -> (p: PageId)
        ensures
            p == PageId::ProjectDetail(self.project_id()),
    {
        PageId::ProjectDetail(self.project_id)
    }

    /// The icon shown for a file, by its extension.
    pub fn get_file_icon(&self, filename: &str) -> (icon: &'static str)
        ensures
            icon@ == file_icon_of(filename@),
    {
        if str_ends_with(filename, ".rs") {
            "🦀"
        } else if str_ends_with(filename, ".js") || str_ends_with(filename, ".ts") {
            "📜"
        } else if str_ends_with(filename, ".json") {
            "📋"
        } else if str_ends_with(filename, ".md") {
            "📝"
        } else if str_ends_with(filename, ".yml") || str_ends_with(filename, ".yaml") {
            "⚙️"
        } else if str_ends_with(filename, ".toml") {
            "🔧"
        } else {
            "📄"
        }
    }

    /// The directory shown after going up from `current`.
    pub fn go_up_directory(&self, current: &str) -> (d: Option<String>)
        ensures
            opt_str(d) == directory_above(path_parent(current@)),
    {
        directory_above_parent(parent_of(current))
    }

    /// The rows of the file tree: the go-up row when a directory is open,
    /// then one row per entry in the order of `file_tree_order`
    /// (directories first, each kind by name).
    pub fn file_tree_rows(
        &self,
        files: &Vec<FileInfo>,
        current_directory: &Option<String>,
        expanded_folders: &Vec<String>,
    ) -> (rows: Vec<FileTreeRow>)
        ensures
            rows@.len() == files@.len() + go_up_rows(*current_directory),
            current_directory is Some ==> rows@[0] is GoUp,
            is_listing_order(
                file_keys(files@),
                Seq::new(files@.len(), |k: int| row_index(rows@[k + go_up_rows(*current_directory)]) as usize),
            ),
            forall|k: int|
                0 <= k < files@.len() ==> row_shows(
                    #[trigger] rows@[k + go_up_rows(*current_directory)],
                    files@,
                    strs(expanded_folders@),
                ),
    {
        let order = file_tree_order(files);
        let mut rows: Vec<FileTreeRow> = Vec::new();
        let off: usize = if current_directory.is_some() {
            rows.push(FileTreeRow::GoUp);
            1
        } else {
            0
        };
        let ghost ex = strs(expanded_folders@);
        let mut k: usize = 0;
        while k < order.len()
            invariant
                off as int == go_up_rows(*current_directory),
                ex == strs(expanded_folders@),
                is_listing_order(file_keys(files@), order@),
                k <= order@.len(),
                order@.len() == files@.len(),
                rows@.len() == off + k,
                current_directory is Some ==> rows@[0] is GoUp,
                forall|j: int| 0 <= j < k ==> row_index(#[trigger] rows@[j + off]) == order@[j] as int,
                forall|j: int| 0 <= j < k ==> row_shows(#[trigger] rows@[j + off], files@, ex),
            decreases order@.len() - k,
        {
            let i = order[k];
            let f = &files[i];
            let row = if f.is_directory {
                let expanded = strings_contain(expanded_folders, f.path.as_str());
                let mut label = owned(if expanded {
                    "📂"
                } else {
                    "📁"
                });
                label.append(" ");
                label.append(f.name.as_str());
                FileTreeRow::Directory { index: i, label, expanded }
            } else {
                let mut label = owned(self.get_file_icon(f.name.as_str()));
                label.append(" ");
                label.append(f.name.as_str());
                FileTreeRow::File { index: i, label }
            };
            rows.push(row);
            k = k + 1;
        }
        proof {
            let idx = Seq::new(files@.len(), |k: int| row_index(rows@[k + go_up_rows(*current_directory)]) as usize);
            assert(idx =~= order@);
        }
        rows
    }

    /// The heading of the file column.
    pub fn file_heading(&self, selected_file: Option<&str>) -> (h: String)
        ensures
            h@ == match selected_file {
                Some(p) => "File: "@ + p@,
                None => "Select a file to view"@,
            },
    {
        match selected_file {
            Some(p) => {
                let mut h = owned("File: ");
                h.append(p);
                h
            },
            None => owned("Select a file to view"),
        }
    }

    /// A file is shown as Markdown when its path ends in `.md`.
    pub fn is_markdown_file(&self, path: &str) -> (b: bool)
        ensures
            b == crate::text::has_suffix(path@, ".md"@),
    {
        str_ends_with(path, ".md")
    }
}

impl Page for ProjectDetailPage {
    fn name(&self) -> (n: &'static str)
        ensures
            n@ == "Project Details"@,
    {
        "Project Details"
    }
}

/// What the project page keeps about a project's commands: the saved
/// commands (`C`), the result of discovering commands (`D`) with the names
/// selected from it, the command selected and its executions (`X`).
pub struct CommandPanel<C, D, X> {
    pub saved_commands: Vec<C>,
    pub commands_fetch_attempted: bool,
    pub loading_commands: bool,
    pub discovery_results: Option<D>,
    pub selected_items: Vec<String>,
    pub show_discovery_form: bool,
    pub loading_discovery: bool,
    pub selected_command_id: Option<String>,
    pub executions: Vec<X>,
    pub loading_executions: bool,
}

/// `p` holds nothing about any project's commands.
pub open spec fn command_panel_cleared<C, D, X>(p: CommandPanel<C, D, X>) -> bool {
    &&& p.saved_commands@.len() == 0
    &&& !p.commands_fetch_attempted
    &&& !p.loading_commands
    &&& p.discovery_results is None
    &&& p.selected_items@.len() == 0
    &&& !p.show_discovery_form
    &&& !p.loading_discovery
    &&& p.selected_command_id is None
    &&& p.executions@.len() == 0
    &&& !p.loading_executions
}

impl<C, D, X> CommandPanel<C, D, X> {
    /// A panel holding nothing.
    pub fn new() -> (p: Self)
        ensures
            command_panel_cleared(p),
    {
        CommandPanel {
            saved_commands: Vec::new(),
            commands_fetch_attempted: false,
            loading_commands: false,
            discovery_results: None,
            selected_items: Vec::new(),
            show_discovery_form: false,
            loading_discovery: false,
            selected_command_id: None,
            executions: Vec::new(),
            loading_executions: false,
        }
    }

    /// Brings the panel up to date for the page of project `project_id`,
    /// given the project whose files are shown: when that is another
    /// project, everything about the previous project's commands is
    /// dropped. Returns whether the saved commands are to be fetched: when
    /// neither fetched nor loading.
    pub fn update_for_project(&mut self, shown_project: Option<i64>, project_id: i64) -> (fetch: bool)
        ensures
            shown_project != Some(project_id) ==> command_panel_cleared(*final(self)),
            shown_project == Some(project_id) ==> *final(self) == *old(self),
            fetch == (!final(self).commands_fetch_attempted && !final(self).loading_commands),
    {
        if shown_project != Some(project_id) {
            self.saved_commands = Vec::new();
            self.commands_fetch_attempted = false;
            self.loading_commands = false;
            self.discovery_results = None;
            self.selected_items = Vec::new();
            self.show_discovery_form = false;
            self.loading_discovery = false;
            self.selected_command_id = None;
            self.executions = Vec::new();
            self.loading_executions = false;
        }
        !self.commands_fetch_attempted && !self.loading_commands
    }
}

/// The key each file is listed by: whether it is a directory, and its name.
pub open spec fn file_keys(files: Seq<FileInfo>) -> Seq<(bool, Seq<char>)> {
    files.map_values(|f: FileInfo| (f.is_directory, f.name@))
}

/// The order in which the file tree shows `files`, as positions:
/// directories first, then files, each by name; entries with the same kind
/// and name keep their order.
pub fn file_tree_order(files: &Vec<FileInfo>) -> (order: Vec<usize>)
    ensures
        is_listing_order(file_keys(files@), order@),
{
    let mut keys: Vec<(bool, Vec<char>)> = Vec::new();
    let mut i: usize = 0;
    while i < files.len()
        invariant
            i <= files@.len(),
            listing_keys(keys@) == file_keys(files@).take(i as int),
        decreases files@.len() - i,
    {
        let f = &files[i];
        let ghost old_keys = keys@;
        let name = crate::text::chars_of(f.name.as_str());
        assert(name@ == f.name@);
        keys.push((f.is_directory, name));
        assert(listing_keys(keys@) =~= listing_keys(old_keys).push((f.is_directory, f.name@)));
        assert(file_keys(files@).take(i + 1) =~= file_keys(files@).take(i as int).push(file_keys(files@)[i as int]));
        i = i + 1;
    }
    assert(file_keys(files@).take(files@.len() as int) =~= file_keys(files@));
    listing_order(&keys)
}

/// A row of the file tree.
pub enum FileTreeRow {
    /// The "⬆ Go up.." row, shown when a directory is open.
    GoUp,
    /// A directory: its position among the files, its label, and whether it
    /// is expanded (a loading placeholder is then shown under it).
    Directory { index: usize, label: String, expanded: bool },
    /// A file: its position among the files and its label.
    File { index: usize, label: String },
}

/// The label of a file tree entry: a directory's open or closed folder icon
/// (open when its path is among the expanded folders), or a file's icon by
/// its extension, then a space and the name.
pub open spec fn entry_label(f: FileInfo, expanded: Seq<Seq<char>>) -> Seq<char> {
    if f.is_directory {
        (if expanded.contains(f.path@) {
            "📂"@
        } else {
            "📁"@
        }) + " "@ + f.name@
    } else {
        file_icon_of(f.name@) + " "@ + f.name@
    }
}

/// The position among the files that a row shows; none for the go-up row.
pub open spec fn row_index(r: FileTreeRow) -> int {
    match r {
        FileTreeRow::GoUp => -1,
        FileTreeRow::Directory { index, .. } => index as int,
        FileTreeRow::File { index, .. } => index as int,
    }
}

/// `r` shows the entry at its position among `files`: a directory row for a
/// directory, a file row for a file, with its label, and for a directory
/// whether it is expanded.
pub open spec fn row_shows(r: FileTreeRow, files: Seq<FileInfo>, expanded: Seq<Seq<char>>) -> bool {
    match r {
        FileTreeRow::GoUp => false,
        FileTreeRow::Directory { index, label, expanded: e } => {
            &&& index < files.len()
            &&& files[index as int].is_directory
            &&& label@ == entry_label(files[index as int], expanded)
            &&& e == expanded.contains(files[index as int].path@)
        },
        FileTreeRow::File { index, label } => {
            &&& index < files.len()
            &&& !files[index as int].is_directory
            &&& label@ == entry_label(files[index as int], expanded)
        },
    }
}

/// The number of rows before the entries: one go-up row when a directory is open.
pub open spec fn go_up_rows(current_directory: Option<String>) -> int {
    if current_directory is Some {
        1
    } else {
        0
    }
}

/// The file browser of the project page.
pub struct FileBrowser {
    /// The project whose files are shown.
    pub project_id: Option<i64>,
    pub selected_file_path: Option<String>,
    pub expanded_folders: Vec<String>,
    /// The directory shown; the root when none.
    pub current_directory_path: Option<String>,
    pub selected_branch: Option<String>,
    pub loading_file_list: bool,
    pub loading_file_content: bool,
    /// The last listing received, or why it failed; none while one is awaited.
    pub file_list_result: Option<Result<FileListResponse, String>>,
}

/// A listing of a project's files to request from the manager.
pub struct FileListRequest {
    pub project_id: i64,
    /// The directory listed; the root when none.
    pub path: Option<String>,
    pub git_branch: Option<String>,
}

impl FileBrowser {
    /// A browser showing no project.
    pub fn new() -> (b: Self)
        ensures
            b.project_id is None,
            b.selected_file_path is None,
            b.expanded_folders@.len() == 0,
            b.current_directory_path is None,
            b.selected_branch is None,
            !b.loading_file_list,
            !b.loading_file_content,
            b.file_list_result is None,
    {
        FileBrowser {
            project_id: None,
            selected_file_path: None,
            expanded_folders: Vec::new(),
            current_directory_path: None,
            selected_branch: None,
            loading_file_list: false,
            loading_file_content: false,
            file_list_result: None,
        }
    }

    /// Shows the files of a project. Switching to another project starts
    /// over at its root with nothing selected, expanded or loading; showing
    /// the same project again changes nothing. Returns whether it started
    /// over.
    pub fn enter_project(&mut self, project_id: i64) -> (reset: bool)
        ensures
            reset == (old(self).project_id != Some(project_id)),
            final(self).project_id == Some(project_id),
            reset ==> {
                &&& final(self).selected_file_path is None
                &&& final(self).expanded_folders@.len() == 0
                &&& final(self).current_directory_path is None
                &&& final(self).selected_branch is None
                &&& !final(self).loading_file_list
                &&& !final(self).loading_file_content
            },
            !reset ==> *final(self) == *old(self),
    {
        if self.project_id == Some(project_id) {
            return false;
        }
        self.project_id = Some(project_id);
        self.selected_file_path = None;
        self.expanded_folders = Vec::new();
        self.current_directory_path = None;
        self.selected_branch = None;
        self.loading_file_list = false;
        self.loading_file_content = false;
        true
    }

    /// Opens a directory.
    pub fn navigate_into(&mut self, directory_path: &str)
        ensures
            opt_str(final(self).current_directory_path) == Some(directory_path@),
            *final(self) == (FileBrowser { current_directory_path: final(self).current_directory_path, ..*old(self) }),
    {
        self.current_directory_path = Some(owned(directory_path));
    }

    /// Goes up from the directory shown to its parent, or to the root when
    /// it has none; at the root nothing changes. Returns whether the
    /// directory changed.
    pub fn go_up(&mut self) -> (moved: bool)
        ensures
            moved == (old(self).current_directory_path is Some),
            match old(self).current_directory_path {
                Some(d) => opt_str(final(self).current_directory_path) == directory_above(path_parent(d@)),
                None => final(self).current_directory_path is None,
            },
            *final(self) == (FileBrowser { current_directory_path: final(self).current_directory_path, ..*old(self) }),
    {
        match &self.current_directory_path {
            Some(d) => {
                let up = directory_above_parent(parent_of(d.as_str()));
                self.current_directory_path = up;
                true
            },
            None => false,
        }
    }

    /// Asks for the listing of the directory shown, while connected: the
    /// listing is then loading and the last one dropped, and the request is
    /// returned; while not connected nothing changes.
    pub fn load_file_list(&mut self, project_id: i64, connected: bool) -> (req: Option<FileListRequest>)
        ensures
            connected ==> {
                &&& req matches Some(r) && r.project_id == project_id && r.path == old(self).current_directory_path
                    && r.git_branch == old(self).selected_branch
                &&& *final(self) == (FileBrowser { loading_file_list: true, file_list_result: None, ..*old(self) })
            },
            !connected ==> req is None && *final(self) == *old(self),
    {
        if !connected {
            return None;
        }
        self.loading_file_list = true;
        self.file_list_result = None;
        let path = match &self.current_directory_path {
            Some(p) => Some(p.clone()),
            None => None,
        };
        let git_branch = match &self.selected_branch {
            Some(b) => Some(b.clone()),
            None => None,
        };
        Some(FileListRequest { project_id, path, git_branch })
    }

    /// Opens a directory: the listing shown is dropped and, while
    /// connected, that directory's listing is asked for.
    pub fn navigate_into_directory(&mut self, project_id: i64, directory_path: &str, connected: bool) -> (req: Option<
        FileListRequest,
    >)
        ensures
            opt_str(final(self).current_directory_path) == Some(directory_path@),
            final(self).file_list_result is None,
            final(self).loading_file_list == (old(self).loading_file_list || connected),
            final(self).project_id == old(self).project_id,
            final(self).selected_file_path == old(self).selected_file_path,
            final(self).selected_branch == old(self).selected_branch,
            connected ==> (req matches Some(r) && r.project_id == project_id && opt_str(r.path) == Some(directory_path@)
                && r.git_branch == old(self).selected_branch),
            !connected ==> req is None,
    {
        self.navigate_into(directory_path);
        self.file_list_result = None;
        self.load_file_list(project_id, connected)
    }

    /// Goes up from the directory shown (to its parent, or the root when it
    /// has none): the listing shown is dropped and, while connected, the new
    /// directory's listing is asked for. At the root nothing changes.
    pub fn go_up_directory(&mut self, project_id: i64, connected: bool) -> (req: Option<FileListRequest>)
        ensures
            match old(self).current_directory_path {
                Some(d) => {
                    &&& opt_str(final(self).current_directory_path) == directory_above(path_parent(d@))
                    &&& final(self).file_list_result is None
                    &&& final(self).loading_file_list == (old(self).loading_file_list || connected)
                    &&& final(self).project_id == old(self).project_id
                    &&& final(self).selected_file_path == old(self).selected_file_path
                    &&& final(self).selected_branch == old(self).selected_branch
                    &&& connected ==> (req matches Some(r) && r.project_id == project_id
                        && r.path == final(self).current_directory_path && r.git_branch == old(self).selected_branch)
                    &&& !connected ==> req is None
                },
                None => req is None && *final(self) == *old(self),
            },
    {
        if self.current_directory_path.is_none() {
            return None;
        }
        self.go_up();
        self.file_list_result = None;
        self.load_file_list(project_id, connected)
    }

    /// Selects a file to show.
    pub fn select_file(&mut self, path: &str)
        ensures
            opt_str(final(self).selected_file_path) == Some(path@),
            final(self).project_id == old(self).project_id,
            final(self).current_directory_path == old(self).current_directory_path,
    {
        self.selected_file_path = Some(owned(path));
    }
}

} // verus!
