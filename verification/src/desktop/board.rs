//! The board of works: the order works are listed in, the timeline of a
//! work's messages, and the names and descriptions shown on them.

use crate::documents::{copy_string, json_get, json_get_str, json_lookup, parse_json, json_document, JsonValue};
use crate::models::{AiSessionOutput, Project, SupportedModel, Work, WorkMessage};
use crate::order::{is_stable_order, stable_order};
use crate::text::{decimal_nat, opt_str, owned, str_eq, strs, u64_to_decimal};
use crate::tools::filesystem::ListFilesRequest;
use vstd::prelude::*;

verus! {

/// The creation times of the works.
pub open spec fn work_times(works: Seq<Work>) -> Seq<i64> {
    works.map_values(|w: Work| w.created_at)
}

fn created_times(works: &Vec<Work>) -> (keys: Vec<i64>)
    ensures
        keys@ == work_times(works@),
{
    let mut keys: Vec<i64> = Vec::new();
    let mut i: usize = 0;
    while i < works.len()
        invariant
            i <= works@.len(),
            keys@ == work_times(works@.take(i as int)),
        decreases works@.len() - i,
    {
        keys.push(works[i].created_at);
        assert(keys@ =~= work_times(works@.take(i + 1)));
        i = i + 1;
    }
    assert(works@.take(works@.len() as int) =~= works@);
    keys
}

/// The positions of the works in the order they are listed: newest first,
/// works created at the same time in their original order.
pub fn works_newest_first(works: &Vec<Work>) -> (order: Vec<usize>)
    ensures
        is_stable_order(work_times(works@), true, order@),
{
    let keys = created_times(works);
    stable_order(&keys, true)
}

/// An entry of a work's timeline.
#[derive(Debug, Clone, Copy, PartialEq, Eq, Structural)]
pub enum TimelineItem {
    /// The message at this position.
    Message(usize),
    /// The AI output at this position.
    Output(usize),
}

/// The times of the messages, then of the outputs.
pub open spec fn timeline_times(messages: Seq<WorkMessage>, outputs: Seq<AiSessionOutput>) -> Seq<i64> {
    messages.map_values(|m: WorkMessage| m.created_at) + outputs.map_values(|o: AiSessionOutput| o.created_at)
}

/// The position of an entry among the messages followed by the outputs.
pub open spec fn timeline_position(t: TimelineItem, message_count: nat) -> usize {
    match t {
        TimelineItem::Message(i) => i,
        TimelineItem::Output(j) => (message_count + j) as usize,
    }
}

/// The timeline of a work: its messages and AI outputs by time, earliest
/// first; at equal times, messages before outputs and each in its original
/// order.
pub fn timeline(messages: &Vec<WorkMessage>, outputs: &Vec<AiSessionOutput>) -> (items: Vec<TimelineItem>)
    requires
        messages@.len() + outputs@.len() <= usize::MAX,
    ensures
        is_stable_order(
            timeline_times(messages@, outputs@),
            false,
            items@.map_values(|t: TimelineItem| timeline_position(t, messages@.len())),
        ),
        forall|a: int| 0 <= a < items@.len() ==> match #[trigger] items@[a] {
            TimelineItem::Message(i) => i < messages@.len(),
            TimelineItem::Output(j) => j < outputs@.len(),
        },
{
    let n = messages.len();
    let mut keys: Vec<i64> = Vec::new();
    let mut i: usize = 0;
    while i < n
        invariant
            n == messages@.len(),
            i <= n,
            keys@ == messages@.take(i as int).map_values(|m: WorkMessage| m.created_at),
        decreases n - i,
    {
        keys.push(messages[i].created_at);
        assert(keys@ =~= messages@.take(i + 1).map_values(|m: WorkMessage| m.created_at));
        i = i + 1;
    }
    assert(messages@.take(n as int) =~= messages@);
    let mut j: usize = 0;
    while j < outputs.len()
        invariant
            n == messages@.len(),
            j <= outputs@.len(),
            keys@ == messages@.map_values(|m: WorkMessage| m.created_at) + outputs@.take(j as int).map_values(
                |o: AiSessionOutput| o.created_at,
            ),
        decreases outputs@.len() - j,
    {
        keys.push(outputs[j].created_at);
        assert(keys@ =~= messages@.map_values(|m: WorkMessage| m.created_at) + outputs@.take(j + 1).map_values(
            |o: AiSessionOutput| o.created_at,
        ));
        j = j + 1;
    }
    assert(outputs@.take(outputs@.len() as int) =~= outputs@);
    assert(keys@ == timeline_times(messages@, outputs@));
    let order = stable_order(&keys, false);
    let mut items: Vec<TimelineItem> = Vec::new();
    let mut a: usize = 0;
    while a < order.len()
        invariant
            n == messages@.len(),
            keys@ == timeline_times(messages@, outputs@),
            is_stable_order(keys@, false, order@),
            a <= order@.len(),
            items@.map_values(|t: TimelineItem| timeline_position(t, n as nat)) == order@.take(a as int),
            forall|b: int| 0 <= b < items@.len() ==> match #[trigger] items@[b] {
                TimelineItem::Message(i) => i < messages@.len(),
                TimelineItem::Output(j) => j < outputs@.len(),
            },
        decreases order@.len() - a,
    {
        let pos = order[a];
        assert(order@[a as int] < keys@.len());
        assert(keys@.len() == n + outputs@.len());
        let item = if pos < n {
            TimelineItem::Message(pos)
        } else {
            TimelineItem::Output(pos - n)
        };
        assert(timeline_position(item, n as nat) == pos);
        let ghost before = items@;
        items.push(item);
        assert(items@.map_values(|t: TimelineItem| timeline_position(t, n as nat)) =~= before.map_values(
            |t: TimelineItem| timeline_position(t, n as nat),
        ).push(pos));
        assert(order@.take(a + 1) =~= order@.take(a as int).push(pos));
        a = a + 1;
    }
    assert(order@.take(order@.len() as int) =~= order@);
    items
}

/// The name of the first model with this ID, if any.
pub open spec fn model_name(models: Seq<SupportedModel>, model_id: Seq<char>) -> Option<Seq<char>>
    decreases models.len(),
{
    if models.len() == 0 {
        None
    } else if models[0].model_id@ == model_id {
        Some(models[0].name@)
    } else {
        model_name(models.drop_first(), model_id)
    }
}

/// The name shown for a model: its name among the supported models, else
/// its ID.
pub fn model_display_name(model_id: &str, models: &Vec<SupportedModel>) -> (name: String)
    ensures
        name@ == match model_name(models@, model_id@) {
            Some(n) => n,
            None => model_id@,
        },
{
    let mut i: usize = 0;
    assert(models@.skip(0) =~= models@);
    while i < models.len()
        invariant
            i <= models@.len(),
            model_name(models@, model_id@) == model_name(models@.skip(i as int), model_id@),
        decreases models@.len() - i,
    {
        assert(models@.skip(i as int).drop_first() =~= models@.skip(i + 1));
        assert(models@.skip(i as int)[0] == models@[i as int]);
        if str_eq(models[i].model_id.as_str(), model_id) {
            return copy_string(&models[i].name);
        }
        i = i + 1;
    }
    assert(models@.skip(i as int) =~= seq![]);
    owned(model_id)
}

/// The name of the first project with this ID, if any.
pub open spec fn project_name_by_id(projects: Seq<Project>, id: i64) -> Option<Seq<char>>
    decreases projects.len(),
{
    if projects.len() == 0 {
        None
    } else if projects[0].id == id {
        Some(projects[0].name@)
    } else {
        project_name_by_id(projects.drop_first(), id)
    }
}

/// The name of the project a work is linked to, when it is known.
pub fn linked_project_name(project_id: i64, projects: &Vec<Project>) -> (name: Option<String>)
    ensures
        opt_str(name) == project_name_by_id(projects@, project_id),
{
    let mut i: usize = 0;
    assert(projects@.skip(0) =~= projects@);
    while i < projects.len()
        invariant
            i <= projects@.len(),
            project_name_by_id(projects@, project_id) == project_name_by_id(projects@.skip(i as int), project_id),
        decreases projects@.len() - i,
    {
        assert(projects@.skip(i as int).drop_first() =~= projects@.skip(i + 1));
        assert(projects@.skip(i as int)[0] == projects@[i as int]);
        if projects[i].id == project_id {
            return Some(copy_string(&projects[i].name));
        }
        i = i + 1;
    }
    assert(projects@.skip(i as int) =~= seq![]);
    None
}

/// The options of a file listing that are shown: recursive, hidden files,
/// a limit.
pub open spec fn listing_options(req: ListFilesRequest) -> Seq<Seq<char>> {
    (if req.recursive == Some(true) {
        seq!["recursive"@]
    } else {
        seq![]
    }) + (if req.include_hidden == Some(true) {
        seq!["include hidden"@]
    } else {
        seq![]
    }) + match req.max_files {
        Some(m) => seq!["max: "@ + decimal_nat(m as nat)],
        None => seq![],
    }
}

/// The options joined by ", ".
pub open spec fn joined_options(options: Seq<Seq<char>>) -> Seq<char>
    decreases options.len(),
{
    if options.len() == 0 {
        seq![]
    } else if options.len() == 1 {
        options[0]
    } else {
        options[0] + ", "@ + joined_options(options.drop_first())
    }
}

/// How a file listing requested by the AI is described.
pub open spec fn listing_description(req: ListFilesRequest) -> Seq<char> {
    "List files: "@ + req.path@ + if listing_options(req).len() == 0 {
        seq![]
    } else {
        " ("@ + joined_options(listing_options(req)) + ")"@
    }
}

/// How a file listing requested by the AI is described: the path, then the
/// options in brackets.
pub fn list_files_description(req: &ListFilesRequest) -> (d: String)
    ensures
        d@ == listing_description(*req),
{
    let mut options: Vec<String> = Vec::new();
    if req.recursive == Some(true) {
        options.push(owned("recursive"));
    }
    if req.include_hidden == Some(true) {
        options.push(owned("include hidden"));
    }
    if let Some(m) = req.max_files {
        let mut t = owned("max: ");
        let digits = u64_to_decimal(m as u64);
        t.append(digits.as_str());
        options.push(t);
    }
    assert(strs(options@) =~= listing_options(*req));
    let mut d = owned("List files: ");
    d.append(req.path.as_str());
    if options.len() > 0 {
        d.append(" (");
        let mut k: usize = 0;
        let ghost opts = strs(options@);
        while k < options.len()
            invariant
                opts == strs(options@),
                opts.len() > 0,
                k <= opts.len(),
                d@ == "List files: "@ + req.path@ + " ("@ + joined_options(opts.take(k as int)),
            decreases opts.len() - k,
        {
            proof {
                lemma_joined_push(opts.take(k as int), opts[k as int]);
                assert(opts.take(k as int).push(opts[k as int]) =~= opts.take(k + 1));
            }
            if k > 0 {
                d.append(", ");
            }
            d.append(options[k].as_str());
            k = k + 1;
        }
        assert(opts.take(opts.len() as int) =~= opts);
        d.append(")");
    }
    d
}

proof fn lemma_joined_push(options: Seq<Seq<char>>, last: Seq<char>)
    ensures
        joined_options(options.push(last)) == if options.len() == 0 {
            last
        } else {
            joined_options(options) + ", "@ + last
        },
    decreases options.len(),
{
    let pushed = options.push(last);
    if options.len() == 0 {
        assert(pushed.len() == 1);
    } else if options.len() == 1 {
        assert(pushed.drop_first() =~= seq![last]);
        assert(joined_options(seq![last]) == last);
        assert(joined_options(options) == options[0]);
        assert(joined_options(pushed) == pushed[0] + ", "@ + joined_options(pushed.drop_first()));
    } else {
        assert(pushed.drop_first() =~= options.drop_first().push(last));
        lemma_joined_push(options.drop_first(), last);
        assert(joined_options(pushed) == pushed[0] + ", "@ + joined_options(pushed.drop_first()));
        assert(joined_options(options) == options[0] + ", "@ + joined_options(options.drop_first()));
        assert(options[0] + ", "@ + (joined_options(options.drop_first()) + ", "@ + last) =~= options[0] + ", "@
            + joined_options(options.drop_first()) + ", "@ + last);
    }
}

/// The arguments of the `list_files` calls among an assistant reply's tool
/// calls, in order: calls whose function has that name and string
/// arguments.
pub open spec fn list_files_calls(calls: Seq<JsonValue>) -> Seq<Seq<char>>
    decreases calls.len(),
{
    if calls.len() == 0 {
        seq![]
    } else {
        let rest = list_files_calls(calls.drop_first());
        match json_get(calls[0], "function"@) {
            Some(f) => if json_get_str(f, "name"@) == Some("list_files"@) {
                match json_get_str(f, "arguments"@) {
                    Some(a) => seq![a] + rest,
                    None => rest,
                }
            } else {
                rest
            },
            None => rest,
        }
    }
}

/// The arguments of the `list_files` calls in a reply read as JSON with a
/// `tool_calls` array; none otherwise.
pub open spec fn list_files_arguments_of(reply: Result<JsonValue, String>) -> Seq<Seq<char>> {
    match reply {
        Ok(v) => match json_get(v, "tool_calls"@) {
            Some(JsonValue::Array(calls)) => list_files_calls(calls@),
            _ => seq![],
        },
        Err(_) => seq![],
    }
}

/// The arguments (JSON text) of the `list_files` calls in an assistant's
/// reply, in order.
pub fn list_files_arguments(content: &str) -> (args: Vec<String>)
    ensures
        strs(args@) == list_files_arguments_of(json_document(content@)),
{
    let mut args: Vec<String> = Vec::new();
    assert(strs(args@) =~= seq![]);
    let parsed = parse_json(content);
    if let Ok(v) = &parsed {
        if let Some(JsonValue::Array(calls)) = json_lookup(v, "tool_calls") {
            let mut i: usize = calls.len();
            assert(calls@.skip(i as int) =~= seq![]);
            while i > 0
                invariant
                    i <= calls@.len(),
                    strs(args@) == list_files_calls(calls@.skip(i as int)),
                decreases i,
            {
                i = i - 1;
                assert(calls@.skip(i as int).drop_first() =~= calls@.skip(i + 1));
                assert(calls@.skip(i as int)[0] == calls@[i as int]);
                if let Some(f) = json_lookup(&calls[i], "function") {
                    if let Some(JsonValue::String(name)) = json_lookup(f, "name") {
                        if str_eq(name.as_str(), "list_files") {
                            if let Some(JsonValue::String(a)) = json_lookup(f, "arguments") {
                                args.insert(0, copy_string(a));
                                assert(strs(args@) =~= list_files_calls(calls@.skip(i as int)));
                            }
                        }
                    }
                }
            }
            assert(calls@.skip(0) =~= calls@);
        }
    }
    args
}

/// The items present among `s`, in order.
pub open spec fn present<T>(s: Seq<Option<T>>) -> Seq<T>
    decreases s.len(),
{
    if s.len() == 0 {
        seq![]
    } else {
        match s[0] {
            Some(x) => seq![x] + present(s.drop_first()),
            None => present(s.drop_first()),
        }
    }
}

/// The list-files requests an output shows: none unless it is the
/// assistant's; else those its `list_files` calls parse to, in order; when
/// there are none, the reply itself when it parses as a list-files request;
/// none otherwise.
pub open spec fn shown_requests(
    assistant: bool,
    parsed_calls: Seq<Option<ListFilesRequest>>,
    direct: Option<ListFilesRequest>,
) -> Option<Seq<ListFilesRequest>> {
    if !assistant {
        None
    } else if present(parsed_calls).len() > 0 {
        Some(present(parsed_calls))
    } else {
        match direct {
            Some(r) => Some(seq![r]),
            None => None,
        }
    }
}

/// The list-files requests shown for an output with this role, given what
/// the arguments of its `list_files` calls parsed to (none for one that did
/// not parse) and what the whole reply parsed to as a list-files request.
pub fn list_files_requests(
    role: Option<&str>,
    parsed_calls: Vec<Option<ListFilesRequest>>,
    direct: Option<ListFilesRequest>,
) -> (requests: Option<Vec<ListFilesRequest>>)
    ensures
        match requests {
            Some(v) => shown_requests(role matches Some(x) && x@ == "assistant"@, parsed_calls@, direct) == Some(v@),
            None => shown_requests(role matches Some(x) && x@ == "assistant"@, parsed_calls@, direct) is None,
        },
{
    let assistant = match role {
        Some(x) => str_eq(x, "assistant"),
        None => false,
    };
    if !assistant {
        return None;
    }
    let ghost all = parsed_calls@;
    let mut calls = parsed_calls;
    let mut out: Vec<ListFilesRequest> = Vec::new();
    while calls.len() > 0
        invariant
            present(all) == out@ + present(calls@),
        decreases calls@.len(),
    {
        let ghost before = calls@;
        let c = calls.remove(0);
        assert(calls@ =~= before.drop_first());
        match c {
            Some(x) => {
                let ghost o = out@;
                out.push(x);
                assert(out@ + present(calls@) =~= o + (seq![x] + present(calls@)));
            },
            None => {},
        }
    }
    assert(out@ + present(calls@) =~= out@);
    if out.len() > 0 {
        Some(out)
    } else {
        match direct {
            Some(r) => {
                let mut v: Vec<ListFilesRequest> = Vec::new();
                v.push(r);
                assert(v@ =~= seq![r]);
                Some(v)
            },
            None => None,
        }
    }
}

} // verus!
