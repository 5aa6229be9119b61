//! Services of the desktop client: the API service, the background task
//! runner, and the search filters of the users and teams pages.

use crate::desktop::state::ConnectionState;
use crate::models::{ApiKeyConfig, CreateWorkRequest, PermissionItem, Team, TeamItem, TeamListItem, UpdateApiKeysRequest, User, UserListItem};
use crate::text::{contains_seq, join_with, joined_with, lowercase, owned, str_contains, strs, to_lowercase};
use std::sync::Arc;
use vstd::prelude::*;

verus! {

/// Talks to the manager on behalf of the pages.
pub struct ApiService;

impl ApiService {
    pub fn new() -> (s: Self) {
        ApiService
    }

    /// Starts a refresh of data from the manager, only while connected:
    /// then the data is marked loading and `true` is returned, asking the
    /// caller to drop the last result and send the request; otherwise
    /// nothing changes.
    pub fn start_refresh(&self, connection: &ConnectionState, loading: &mut bool) -> (go: bool)
        ensures
            go == (*connection is Connected),
            *final(loading) == (*old(loading) || go),
    {
        match connection {
            ConnectionState::Connected => {
                *loading = true;
                true
            },
            _ => false,
        }
    }

    /// Starts refreshing the projects, only while connected (see
    /// `start_refresh`).
    pub fn refresh_projects(&self, connection: &ConnectionState, loading_projects: &mut bool) -> (go: bool)
        ensures
            go == (*connection is Connected),
            *final(loading_projects) == (*old(loading_projects) || go),
    {
        self.start_refresh(connection, loading_projects)
    }

    /// Starts creating a work from the form, only while connected: then the
    /// work is marked being created and the request returned, which starts
    /// the "llm-agent" session at once; otherwise nothing changes.
    pub fn create_work(
        &self,
        connection: &ConnectionState,
        creating_work: &mut bool,
        title: String,
        project_id: Option<i64>,
        model: Option<String>,
        git_branch: Option<String>,
    ) -> (req: Option<CreateWorkRequest>)
        ensures
            *connection is Connected ==> {
                &&& req matches Some(r) && r.title == title && r.project_id == project_id && r.model == model
                    && r.auto_start && (r.tool_name matches Some(t) && t@ == "llm-agent"@) && r.git_branch == git_branch
                &&& *final(creating_work)
            },
            !(*connection is Connected) ==> req is None && *final(creating_work) == *old(creating_work),
    {
        if !self.start_refresh(connection, creating_work) {
            return None;
        }
        Some(
            CreateWorkRequest {
                title,
                project_id,
                model,
                auto_start: true,
                tool_name: Some(owned("llm-agent")),
                git_branch,
            },
        )
    }
}

/// Applies the results of background requests to the client's state.
pub struct BackgroundTasks {
    api_service: Arc<ApiService>,
}

impl BackgroundTasks {
    /// A runner that refreshes data through `api_service`.
    pub fn new(api_service: Arc<ApiService>) -> (t: Self)
        ensures
            t.api_service() == api_service,
    {
        BackgroundTasks { api_service }
    }

    pub closed spec fn api_service(&self) -> Arc<ApiService> {
        self.api_service
    }
}

/// Whether the first key of that name is configured; not when none has it.
pub open spec fn key_is_configured(keys: Seq<ApiKeyConfig>, name: Seq<char>) -> bool
    decreases keys.len(),
{
    if keys.len() == 0 {
        false
    } else if keys[0].name@ == name {
        keys[0].is_configured
    } else {
        key_is_configured(keys.drop_first(), name)
    }
}

/// Whether the settings show the key of that name (such as "Grok API Key")
/// as configured.
pub fn api_key_configured(keys: &Vec<ApiKeyConfig>, name: &str) -> (b: bool)
    ensures
        b == key_is_configured(keys@, name@),
{
    let mut i: usize = 0;
    assert(keys@.skip(0) =~= keys@);
    while i < keys.len()
        invariant
            i <= keys@.len(),
            key_is_configured(keys@, name@) == key_is_configured(keys@.skip(i as int), name@),
        decreases keys@.len() - i,
    {
        assert(keys@.skip(i as int).drop_first() =~= keys@.skip(i + 1));
        if crate::text::str_eq(keys[i].name.as_str(), name) {
            return keys[i].is_configured;
        }
        i = i + 1;
    }
    false
}

/// The status shown beside a key's field.
pub fn key_status_label(configured: bool) -> (t: &'static str)
    ensures
        t@ == if configured {
            "✅ Configured"@
        } else {
            "❌ Not configured"@
        },
{
    if configured {
        "✅ Configured"
    } else {
        "❌ Not configured"
    }
}

/// A key typed in the settings: none when the field is empty.
pub open spec fn typed_key(input: Seq<char>) -> Option<Seq<char>> {
    if input.len() == 0 {
        None
    } else {
        Some(input)
    }
}

fn key_from_input(input: &str) -> (k: Option<String>)
    ensures
        crate::text::opt_str(k) == typed_key(input@),
{
    if input.is_empty() {
        None
    } else {
        Some(crate::text::owned(input))
    }
}

/// The request that saves the API keys typed in the settings; empty fields
/// leave their key unchanged.
pub fn api_keys_request(xai: &str, openai: &str, anthropic: &str) -> (r: UpdateApiKeysRequest)
    ensures
        crate::text::opt_str(r.xai_api_key) == typed_key(xai@),
        crate::text::opt_str(r.openai_api_key) == typed_key(openai@),
        crate::text::opt_str(r.anthropic_api_key) == typed_key(anthropic@),
        r.zai_api_key is None,
        r.zai_coding_plan is None,
{
    UpdateApiKeysRequest {
        xai_api_key: key_from_input(xai),
        openai_api_key: key_from_input(openai),
        anthropic_api_key: key_from_input(anthropic),
        zai_api_key: None,
        zai_coding_plan: None,
    }
}

/// A user as the filter sees it: ID, name, email and teams.
pub open spec fn user_view(u: UserListItem) -> (i64, String, String, Seq<TeamItem>) {
    (u.id, u.name, u.email, u.teams@)
}

/// A team as the filter sees it: ID, name, description and permissions.
pub open spec fn team_view(t: TeamListItem) -> (i64, String, Option<String>, Seq<PermissionItem>) {
    (t.id, t.name, t.description, t.permissions@)
}

/// The user matches the lower-cased query: it occurs in the lower-cased
/// name or email.
pub open spec fn user_matches(u: UserListItem, q: Seq<char>) -> bool {
    contains_seq(lowercase(u.name@), q) || contains_seq(lowercase(u.email@), q)
}

/// The team matches the lower-cased query: it occurs in the lower-cased
/// name or description.
pub open spec fn team_matches(t: TeamListItem, q: Seq<char>) -> bool {
    contains_seq(lowercase(t.name@), q) || (t.description matches Some(d) && contains_seq(lowercase(d@), q))
}

/// The users that match the lower-cased query, in order.
pub open spec fn users_matching(users: Seq<UserListItem>, q: Seq<char>) -> Seq<(i64, String, String, Seq<TeamItem>)>
    decreases users.len(),
{
    if users.len() == 0 {
        seq![]
    } else {
        let rest = users_matching(users.drop_last(), q);
        if q.len() == 0 || user_matches(users.last(), q) {
            rest.push(user_view(users.last()))
        } else {
            rest
        }
    }
}

/// The teams that match the lower-cased query, in order.
pub open spec fn teams_matching(teams: Seq<TeamListItem>, q: Seq<char>) -> Seq<(i64, String, Option<String>, Seq<PermissionItem>)>
    decreases teams.len(),
{
    if teams.len() == 0 {
        seq![]
    } else {
        let rest = teams_matching(teams.drop_last(), q);
        if q.len() == 0 || team_matches(teams.last(), q) {
            rest.push(team_view(teams.last()))
        } else {
            rest
        }
    }
}

fn copy_team_items(v: &Vec<TeamItem>) -> (r: Vec<TeamItem>)
    ensures
        r@ == v@,
{
    let mut r: Vec<TeamItem> = Vec::new();
    let mut i: usize = 0;
    while i < v.len()
        invariant
            i <= v@.len(),
            r@ == v@.take(i as int),
        decreases v@.len() - i,
    {
        let t = &v[i];
        r.push(TeamItem { id: t.id, name: t.name.clone() });
        assert(r@ =~= v@.take(i + 1));
        i = i + 1;
    }
    assert(v@.take(v@.len() as int) =~= v@);
    r
}

fn copy_permissions(v: &Vec<PermissionItem>) -> (r: Vec<PermissionItem>)
    ensures
        r@ == v@,
{
    let mut r: Vec<PermissionItem> = Vec::new();
    let mut i: usize = 0;
    while i < v.len()
        invariant
            i <= v@.len(),
            r@ == v@.take(i as int),
        decreases v@.len() - i,
    {
        let p = &v[i];
        r.push(
            PermissionItem {
                id: p.id,
                resource_type: p.resource_type.clone(),
                resource_id: p.resource_id,
                action: p.action.clone(),
            },
        );
        assert(r@ =~= v@.take(i + 1));
        i = i + 1;
    }
    assert(v@.take(v@.len() as int) =~= v@);
    r
}

fn copy_user(u: &UserListItem) -> (r: UserListItem)
    ensures
        user_view(r) == user_view(*u),
{
    UserListItem { id: u.id, name: u.name.clone(), email: u.email.clone(), teams: copy_team_items(&u.teams) }
}

fn copy_option_string(o: &Option<String>) -> (r: Option<String>)
    ensures
        r == *o,
{
    match o {
        Some(s) => Some(s.clone()),
        None => None,
    }
}

fn copy_team(t: &TeamListItem) -> (r: TeamListItem)
    ensures
        team_view(r) == team_view(*t),
{
    TeamListItem {
        id: t.id,
        name: t.name.clone(),
        description: copy_option_string(&t.description),
        permissions: copy_permissions(&t.permissions),
    }
}

fn lower_contains(text: &str, q: &str) -> (b: bool)
    ensures
        b == contains_seq(lowercase(text@), q@),
{
    let l = to_lowercase(text);
    str_contains(l.as_str(), q)
}

/// The users shown for a search: those whose name or email contains the
/// query, ignoring case; all of them for an empty query.
pub fn filter_users(users: &Vec<UserListItem>, query: &str) -> (shown: Vec<UserListItem>)
    ensures
        shown@.map_values(|u: UserListItem| user_view(u)) == users_matching(users@, lowercase(query@)),
{
    let q = to_lowercase(query);
    let qs = q.as_str();
    let empty = qs.is_empty();
    let mut shown: Vec<UserListItem> = Vec::new();
    let mut i: usize = 0;
    while i < users.len()
        invariant
            i <= users@.len(),
            qs@ == lowercase(query@),
            empty == (qs@.len() == 0),
            shown@.map_values(|u: UserListItem| user_view(u)) == users_matching(users@.take(i as int), qs@),
        decreases users@.len() - i,
    {
        proof {
            assert(users@.take(i + 1).drop_last() =~= users@.take(i as int));
            assert(users@.take(i + 1).last() == users@[i as int]);
        }
        let u = &users[i];
        if empty || lower_contains(u.name.as_str(), qs) || lower_contains(u.email.as_str(), qs) {
            let c = copy_user(u);
            let ghost before = shown@;
            shown.push(c);
            assert(shown@.map_values(|u: UserListItem| user_view(u)) =~= before.map_values(
                |u: UserListItem| user_view(u),
            ).push(user_view(users@[i as int])));
        }
        i = i + 1;
    }
    assert(users@.take(users@.len() as int) =~= users@);
    shown
}

/// The teams shown for a search: those whose name or description contains
/// the query, ignoring case; all of them for an empty query.
pub fn filter_teams(teams: &Vec<TeamListItem>, query: &str) -> (shown: Vec<TeamListItem>)
    ensures
        shown@.map_values(|t: TeamListItem| team_view(t)) == teams_matching(teams@, lowercase(query@)),
{
    let q = to_lowercase(query);
    let qs = q.as_str();
    let empty = qs.is_empty();
    let mut shown: Vec<TeamListItem> = Vec::new();
    let mut i: usize = 0;
    while i < teams.len()
        invariant
            i <= teams@.len(),
            qs@ == lowercase(query@),
            empty == (qs@.len() == 0),
            shown@.map_values(|t: TeamListItem| team_view(t)) == teams_matching(teams@.take(i as int), qs@),
        decreases teams@.len() - i,
    {
        proof {
            assert(teams@.take(i + 1).drop_last() =~= teams@.take(i as int));
            assert(teams@.take(i + 1).last() == teams@[i as int]);
        }
        let t = &teams[i];
        let in_description = match &t.description {
            Some(d) => lower_contains(d.as_str(), qs),
            None => false,
        };
        if empty || lower_contains(t.name.as_str(), qs) || in_description {
            let c = copy_team(t);
            let ghost before = shown@;
            shown.push(c);
            assert(shown@.map_values(|t: TeamListItem| team_view(t)) =~= before.map_values(
                |t: TeamListItem| team_view(t),
            ).push(team_view(teams@[i as int])));
        }
        i = i + 1;
    }
    assert(teams@.take(teams@.len() as int) =~= teams@);
    shown
}

/// The team names shown for a user: joined by ", ", or "No teams".
pub open spec fn teams_text_of(teams: Seq<TeamItem>) -> Seq<char> {
    if teams.len() == 0 {
        "No teams"@
    } else {
        joined_with(teams.map_values(|t: TeamItem| t.name@), ", "@)
    }
}

/// The team names shown for a user.
pub fn teams_text(teams: &Vec<TeamItem>) -> (t: String)
    ensures
        t@ == teams_text_of(teams@),
{
    if teams.len() == 0 {
        return owned("No teams");
    }
    let mut names: Vec<String> = Vec::new();
    let mut i: usize = 0;
    while i < teams.len()
        invariant
            i <= teams@.len(),
            strs(names@) == teams@.take(i as int).map_values(|t: TeamItem| t.name@),
        decreases teams@.len() - i,
    {
        let ghost before = names@;
        let n = teams[i].name.clone();
        assert(n@ == teams@[i as int].name@);
        names.push(n);
        assert(strs(names@) =~= strs(before).push(n@));
        assert(teams@.take(i + 1).map_values(|t: TeamItem| t.name@) =~= teams@.take(i as int).map_values(
            |t: TeamItem| t.name@,
        ).push(teams@[i as int].name@));
        i = i + 1;
    }
    assert(teams@.take(teams@.len() as int) =~= teams@);
    join_with(&names, ", ")
}

/// How a permission is shown: its resource type and action.
pub open spec fn permission_label(p: PermissionItem) -> Seq<char> {
    p.resource_type@ + ":"@ + p.action@
}

/// The permissions shown for a team: joined by ", ", or "No permissions".
pub open spec fn permissions_text_of(perms: Seq<PermissionItem>) -> Seq<char> {
    if perms.len() == 0 {
        "No permissions"@
    } else {
        joined_with(perms.map_values(|p: PermissionItem| permission_label(p)), ", "@)
    }
}

/// The permissions shown for a team.
pub fn permissions_text(perms: &Vec<PermissionItem>) -> (t: String)
    ensures
        t@ == permissions_text_of(perms@),
{
    if perms.len() == 0 {
        return owned("No permissions");
    }
    let mut labels: Vec<String> = Vec::new();
    let mut i: usize = 0;
    while i < perms.len()
        invariant
            i <= perms@.len(),
            strs(labels@) == perms@.take(i as int).map_values(|p: PermissionItem| permission_label(p)),
        decreases perms@.len() - i,
    {
        let ghost before = labels@;
        let mut l = perms[i].resource_type.clone();
        l.append(":");
        l.append(perms[i].action.as_str());
        assert(l@ == permission_label(perms@[i as int]));
        labels.push(l);
        assert(strs(labels@) =~= strs(before).push(l@));
        assert(perms@.take(i + 1).map_values(|p: PermissionItem| permission_label(p)) =~= perms@.take(
            i as int,
        ).map_values(|p: PermissionItem| permission_label(p)).push(permission_label(perms@[i as int])));
        i = i + 1;
    }
    assert(perms@.take(perms@.len() as int) =~= perms@);
    join_with(&labels, ", ")
}

/// The description shown for a team: "-" when it has none.
pub fn description_text(description: &Option<String>) -> (t: String)
    ensures
        t@ == match description {
            Some(d) => d@,
            None => "-"@,
        },
{
    match description {
        Some(d) => d.clone(),
        None => owned("-"),
    }
}

/// The user opened for editing from a row of the users table: its ID, name
/// and email, active, with nothing else known.
pub fn user_for_editing(item: &UserListItem) -> (u: User)
    ensures
        u.id == item.id,
        u.name == item.name,
        u.email == item.email,
        u.role is None,
        u.password_hash@.len() == 0,
        u.is_active,
        u.created_at == 0,
        u.updated_at == 0,
        u.last_login_at is None,
{
    User {
        id: item.id,
        name: item.name.clone(),
        email: item.email.clone(),
        role: None,
        password_hash: String::new(),
        is_active: true,
        created_at: 0,
        updated_at: 0,
        last_login_at: None,
    }
}

/// The position of the first team with this ID, if any.
pub fn team_position(teams: &Vec<Team>, id: i64) -> (p: Option<usize>)
    ensures
        match p {
            Some(i) => i < teams@.len() && teams@[i as int].id == id && forall|j: int| 0 <= j < i ==> (
            #[trigger] teams@[j]).id != id,
            None => forall|j: int| 0 <= j < teams@.len() ==> (#[trigger] teams@[j]).id != id,
        },
{
    let mut i: usize = 0;
    while i < teams.len()
        invariant
            i <= teams@.len(),
            forall|j: int| 0 <= j < i ==> (#[trigger] teams@[j]).id != id,
        decreases teams@.len() - i,
    {
        if teams[i].id == id {
            return Some(i);
        }
        i = i + 1;
    }
    None
}

/// With an empty query every user is shown.
pub proof fn lemma_empty_query_shows_all_users(users: Seq<UserListItem>)
    ensures
        users_matching(users, seq![]) == users.map_values(|u: UserListItem| user_view(u)),
    decreases users.len(),
{
    if users.len() > 0 {
        lemma_empty_query_shows_all_users(users.drop_last());
        assert(users.map_values(|u: UserListItem| user_view(u)) =~= users.drop_last().map_values(
            |u: UserListItem| user_view(u),
        ).push(user_view(users.last())));
    } else {
        assert(users.map_values(|u: UserListItem| user_view(u)) =~= seq![]);
    }
}

/// Every user shown for a non-empty query is a user of the list that
/// matches it.
pub proof fn lemma_shown_users_match(users: Seq<UserListItem>, q: Seq<char>, k: int)
    requires
        q.len() > 0,
        0 <= k < users_matching(users, q).len(),
    ensures
        exists|i: int| 0 <= i < users.len() && user_matches(#[trigger] users[i], q) && user_view(users[i])
            == users_matching(users, q)[k],
    decreases users.len(),
{
    let rest = users_matching(users.drop_last(), q);
    if k < rest.len() {
        lemma_shown_users_match(users.drop_last(), q, k);
        let i = choose|i: int| 0 <= i < users.drop_last().len() && user_matches(#[trigger] users.drop_last()[i], q)
            && user_view(users.drop_last()[i]) == rest[k];
        assert(users[i] == users.drop_last()[i]);
    } else {
        let i = users.len() - 1;
        assert(users[i] == users.last());
    }
}

/// With an empty query every team is shown.
pub proof fn lemma_empty_query_shows_all_teams(teams: Seq<TeamListItem>)
    ensures
        teams_matching(teams, seq![]) == teams.map_values(|t: TeamListItem| team_view(t)),
    decreases teams.len(),
{
    if teams.len() > 0 {
        lemma_empty_query_shows_all_teams(teams.drop_last());
        assert(teams.map_values(|t: TeamListItem| team_view(t)) =~= teams.drop_last().map_values(
            |t: TeamListItem| team_view(t),
        ).push(team_view(teams.last())));
    } else {
        assert(teams.map_values(|t: TeamListItem| team_view(t)) =~= seq![]);
    }
}

} // verus!
