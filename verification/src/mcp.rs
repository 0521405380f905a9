//! Decisions of the JSON-RPC (MCP) tool server: its configuration, how each
//! request is routed, the history of messages still waiting for a memory
//! boundary, and the text each tool answers with.
use vstd::prelude::*;
use crate::table::KeyTable;
use crate::sdk::param_views;
use crate::text::{dec_seq, push_str, str_eq, u64_to_string, starts_with_seq,
    chars_of, has_prefix_at, to_uppercase, uppercase, ascii_only, ascii_upper_seq, join, join_seq, views};

verus! {

/// JSON-RPC error code for a line that is not a request.
pub const PARSE_ERROR: i32 = -32700;

/// JSON-RPC error code for an unknown method.
pub const METHOD_NOT_FOUND: i32 = -32601;

/// Server settings; each has a default when its variable is unset.
#[derive(Debug, Clone)]
pub struct McpConfig {
    pub base_url: String,
    pub group_id: String,
    pub user_id: String,
    pub api_key: String,
    pub retrieve_method: String,
}

pub open spec fn or_default(v: Option<String>, d: Seq<char>) -> Seq<char> {
    match v {
        Some(s) => s@,
        None => d,
    }
}

fn value_or(v: Option<String>, d: &str) -> (r: String)
    ensures
        r@ == or_default(v, d@),
{
    match v {
        Some(s) => s,
        None => d.to_owned(),
    }
}

impl McpConfig {
    /// The configuration from the values of `EVERMEMOS_BASE_URL`,
    /// `EVERMEMOS_GROUP_ID`, `EVERMEMOS_USER_ID`, `EVERMEMOS_API_KEY` and
    /// `EVERMEMOS_RETRIEVE_METHOD`, with their defaults.
    pub fn from_values(
        base_url: Option<String>,
        group_id: Option<String>,
        user_id: Option<String>,
        api_key: Option<String>,
        retrieve_method: Option<String>,
    ) -> (r: Self)
        ensures
            r.base_url@ == or_default(base_url, "http://localhost:8080"@),
            r.group_id@ == or_default(group_id, "default_group"@),
            r.user_id@ == or_default(user_id, "default_user"@),
            r.api_key@ == or_default(api_key, Seq::empty()),
            r.retrieve_method@ == or_default(retrieve_method, "hybrid"@),
    {
        proof {
            reveal_strlit("");
        }
        McpConfig {
            base_url: value_or(base_url, "http://localhost:8080"),
            group_id: value_or(group_id, "default_group"),
            user_id: value_or(user_id, "default_user"),
            api_key: value_or(api_key, ""),
            retrieve_method: value_or(retrieve_method, "hybrid"),
        }
    }

    /// True when requests carry a bearer token.
    pub fn sends_auth(&self) -> (r: bool)
        ensures
            r == (self.api_key@.len() > 0),
    {
        !self.api_key.as_str().is_empty()
    }
}

/// Key of the pending history of a conversation: `group::user`.
pub open spec fn pending_key_spec(group_id: Seq<char>, user_id: Seq<char>) -> Seq<char> {
    group_id + "::"@ + user_id
}

/// The pending-history key of the configured conversation.
pub fn pending_key(cfg: &McpConfig) -> (r: String)
    ensures
        r@ == pending_key_spec(cfg.group_id@, cfg.user_id@),
{
    let mut s = cfg.group_id.clone();
    push_str(&mut s, "::");
    push_str(&mut s, cfg.user_id.as_str());
    s
}

/// What the server does with a request.
#[derive(Debug, Clone, Copy, PartialEq, Eq, Structural)]
pub enum RpcRoute {
    /// Answer the handshake.
    Initialize,
    /// A notification: no answer.
    Notification,
    /// Answer with the tool list.
    ToolsList,
    /// Run a tool and answer with its text.
    ToolsCall,
    /// Unknown method: answer "method not found" unless it was a notification.
    Unknown { respond: bool },
}

/// The route of a request by its method and whether it carried an id.
pub open spec fn route_spec(method: Seq<char>, has_id: bool) -> RpcRoute {
    if method == "initialize"@ {
        RpcRoute::Initialize
    } else if starts_with_seq(method, "notifications/"@) {
        RpcRoute::Notification
    } else if method == "tools/list"@ {
        RpcRoute::ToolsList
    } else if method == "tools/call"@ {
        RpcRoute::ToolsCall
    } else {
        RpcRoute::Unknown { respond: has_id }
    }
}

/// Routes a JSON-RPC request.
pub fn route(method: &str, has_id: bool) -> (r: RpcRoute)
    ensures
        r == route_spec(method@, has_id),
{
    let v = chars_of(method);
    let p = chars_of("notifications/");
    assert(v@.skip(0) =~= v@);
    if str_eq(method, "initialize") {
        RpcRoute::Initialize
    } else if has_prefix_at(&v, 0, &p) {
        RpcRoute::Notification
    } else if str_eq(method, "tools/list") {
        RpcRoute::ToolsList
    } else if str_eq(method, "tools/call") {
        RpcRoute::ToolsCall
    } else {
        RpcRoute::Unknown { respond: has_id }
    }
}

/// A request is answered unless it is a notification (by method, or an
/// unknown method sent without an id).
pub proof fn law_notifications_are_never_answered(method: Seq<char>, has_id: bool)
    ensures
        starts_with_seq(method, "notifications/"@) && method != "initialize"@ ==> route_spec(
            method,
            has_id,
        ) == RpcRoute::Notification,
        route_spec(method, has_id) is Unknown ==> route_spec(method, has_id)->respond == has_id,
{
}

/// The tools every build advertises, in the order of `tools/list`, followed
/// by the behavior-history tools in a build that serves them.
pub open spec fn advertised_names(behavior_history: bool) -> Seq<Seq<char>> {
    seq!["search_memory"@, "add_memory"@, "get_profile"@, "add_conversation"@] + if behavior_history {
        seq!["add_behavior_history"@, "list_behavior_history"@, "get_behavior_history_stats"@]
    } else {
        Seq::empty()
    }
}

/// The arguments a tool's input schema marks as required.
pub open spec fn required_args(name: Seq<char>) -> Seq<Seq<char>> {
    if name == "search_memory"@ {
        seq!["query"@]
    } else if name == "add_memory"@ {
        seq!["content"@]
    } else if name == "add_conversation"@ {
        seq!["user_message"@, "assistant_message"@]
    } else if name == "add_behavior_history"@ {
        seq!["behavior_type"@]
    } else {
        Seq::empty()
    }
}

/// The tool names have pairwise different lengths, so no two are equal.
proof fn lemma_tool_name_lengths()
    ensures
        "search_memory"@.len() == 13,
        "add_memory"@.len() == 10,
        "get_profile"@.len() == 11,
        "add_conversation"@.len() == 16,
        "add_behavior_history"@.len() == 20,
        "list_behavior_history"@.len() == 21,
        "get_behavior_history_stats"@.len() == 26,
{
    reveal_strlit("search_memory");
    reveal_strlit("add_memory");
    reveal_strlit("get_profile");
    reveal_strlit("add_conversation");
    reveal_strlit("add_behavior_history");
    reveal_strlit("list_behavior_history");
    reveal_strlit("get_behavior_history_stats");
}

/// One entry of the tool list: the tool's name and its required arguments.
#[derive(Debug, Clone)]
pub struct ToolDescription {
    pub name: &'static str,
    pub required: Vec<&'static str>,
}

/// The entry a `tools/list` answer holds for the tool `name`.
pub open spec fn describes(d: ToolDescription, name: Seq<char>) -> bool {
    &&& d.name@ == name
    &&& d.required@.map_values(|a: &str| a@) == required_args(name)
}

fn describe(name: &'static str, required: Vec<&'static str>) -> (r: ToolDescription)
    requires
        required@.map_values(|a: &str| a@) == required_args(name@),
    ensures
        describes(r, name@),
{
    ToolDescription { name, required }
}

/// The tools a build announces on `tools/list`, in order, each with its
/// required arguments.
pub fn advertised_tools(behavior_history: bool) -> (r: Vec<ToolDescription>)
    ensures
        r@.len() == advertised_names(behavior_history).len(),
        forall|i: int|
            0 <= i < r@.len() ==> describes(#[trigger] r@[i], advertised_names(behavior_history)[i]),
{
    proof {
        lemma_tool_name_lengths();
    }
    let mut r: Vec<ToolDescription> = Vec::new();
    let mut q: Vec<&'static str> = Vec::new();
    q.push("query");
    assert(q@.map_values(|a: &str| a@) =~= seq!["query"@]);
    r.push(describe("search_memory", q));
    let mut c: Vec<&'static str> = Vec::new();
    c.push("content");
    assert(c@.map_values(|a: &str| a@) =~= seq!["content"@]);
    r.push(describe("add_memory", c));
    let g: Vec<&'static str> = Vec::new();
    assert(g@.map_values(|a: &str| a@) =~= Seq::<Seq<char>>::empty());
    r.push(describe("get_profile", g));
    let mut m: Vec<&'static str> = Vec::new();
    m.push("user_message");
    m.push("assistant_message");
    assert(m@.map_values(|a: &str| a@) =~= seq!["user_message"@, "assistant_message"@]);
    r.push(describe("add_conversation", m));
    if behavior_history {
        let mut b: Vec<&'static str> = Vec::new();
        b.push("behavior_type");
        assert(b@.map_values(|a: &str| a@) =~= seq!["behavior_type"@]);
        r.push(describe("add_behavior_history", b));
        let l: Vec<&'static str> = Vec::new();
        assert(l@.map_values(|a: &str| a@) =~= Seq::<Seq<char>>::empty());
        r.push(describe("list_behavior_history", l));
        let t: Vec<&'static str> = Vec::new();
        assert(t@.map_values(|a: &str| a@) =~= Seq::<Seq<char>>::empty());
        r.push(describe("get_behavior_history_stats", t));
    }
    r
}

/// The behavior-history tools, served by builds that include them.
#[derive(Debug, Clone, Copy, PartialEq, Eq, Structural)]
pub enum BehaviorTool {
    Add,
    List,
    Stats,
}

pub open spec fn behavior_tool_spec(name: Seq<char>) -> Option<BehaviorTool> {
    if name == "add_behavior_history"@ {
        Some(BehaviorTool::Add)
    } else if name == "list_behavior_history"@ {
        Some(BehaviorTool::List)
    } else if name == "get_behavior_history_stats"@ {
        Some(BehaviorTool::Stats)
    } else {
        None
    }
}

/// Which behavior-history tool a name selects, if any.
pub fn behavior_tool_named(name: &str) -> (r: Option<BehaviorTool>)
    ensures
        r == behavior_tool_spec(name@),
{
    if str_eq(name, "add_behavior_history") {
        Some(BehaviorTool::Add)
    } else if str_eq(name, "list_behavior_history") {
        Some(BehaviorTool::List)
    } else if str_eq(name, "get_behavior_history_stats") {
        Some(BehaviorTool::Stats)
    } else {
        None
    }
}

/// The handshake, the tool list and tool calls each reach their handler,
/// every `notifications/...` method is a notification, and any other
/// method is unknown, answered exactly when the request carried an id.
pub proof fn law_route_by_method(method: Seq<char>, has_id: bool)
    ensures
        method == "initialize"@ ==> route_spec(method, has_id) == RpcRoute::Initialize,
        method == "tools/list"@ ==> route_spec(method, has_id) == RpcRoute::ToolsList,
        method == "tools/call"@ ==> route_spec(method, has_id) == RpcRoute::ToolsCall,
        method.len() >= 14 && method.take(14) == "notifications/"@ ==> route_spec(method, has_id)
            == RpcRoute::Notification,
        !(method == "initialize"@ || method == "tools/list"@ || method == "tools/call"@ || (
        method.len() >= 14 && method.take(14) == "notifications/"@)) ==> route_spec(method, has_id)
            == (RpcRoute::Unknown { respond: has_id }),
{
    reveal_strlit("initialize");
    reveal_strlit("tools/list");
    reveal_strlit("tools/call");
    reveal_strlit("notifications/");
    assert("initialize"@[0] != "tools/list"@[0]);
    assert("tools/list"@[6] != "tools/call"@[6]);
    assert("notifications/"@.len() == 14 && "initialize"@.len() == 10);
}

/// The tool a `tools/call` names.
#[derive(Debug, Clone, Copy, PartialEq, Eq, Structural)]
pub enum Tool {
    SearchMemory,
    AddMemory,
    GetProfile,
    AddConversation,
    /// A behavior-history tool, in a build that serves them.
    BehaviorHistory(BehaviorTool),
    /// A behavior-history tool, in a build that does not serve them.
    BehaviorHistoryDisabled,
    /// No such tool.
    Unknown,
}

/// The tool a name selects in a build with or without the behavior-history
/// tools.
pub open spec fn tool_spec(name: Seq<char>, behavior_history: bool) -> Tool {
    if name == "search_memory"@ {
        Tool::SearchMemory
    } else if name == "add_memory"@ {
        Tool::AddMemory
    } else if name == "get_profile"@ {
        Tool::GetProfile
    } else if name == "add_conversation"@ {
        Tool::AddConversation
    } else if behavior_tool_spec(name) is Some {
        if behavior_history {
            Tool::BehaviorHistory(behavior_tool_spec(name)->0)
        } else {
            Tool::BehaviorHistoryDisabled
        }
    } else {
        Tool::Unknown
    }
}

/// The tool a name selects.
pub fn tool_named(name: &str, behavior_history: bool) -> (r: Tool)
    ensures
        r == tool_spec(name@, behavior_history),
{
    if str_eq(name, "search_memory") {
        Tool::SearchMemory
    } else if str_eq(name, "add_memory") {
        Tool::AddMemory
    } else if str_eq(name, "get_profile") {
        Tool::GetProfile
    } else if str_eq(name, "add_conversation") {
        Tool::AddConversation
    } else {
        match behavior_tool_named(name) {
            Some(b) => {
                if behavior_history {
                    Tool::BehaviorHistory(b)
                } else {
                    Tool::BehaviorHistoryDisabled
                }
            },
            None => Tool::Unknown,
        }
    }
}

/// A tool the build runs: neither unknown nor switched off.
pub open spec fn is_served(t: Tool) -> bool {
    t !is Unknown && t !is BehaviorHistoryDisabled
}

/// The tool list and the router agree: a build advertises exactly the
/// tools it serves, and a build without the behavior-history tools
/// advertises none of them.
pub proof fn law_advertised_tools_are_served(name: Seq<char>, behavior_history: bool)
    ensures
        advertised_names(behavior_history).contains(name) <==> is_served(
            tool_spec(name, behavior_history),
        ),
        !behavior_history ==> !(advertised_names(behavior_history).contains(name)
            && behavior_tool_spec(name) is Some),
{
    lemma_tool_name_lengths();
    let names = advertised_names(behavior_history);
    if is_served(tool_spec(name, behavior_history)) {
        if name == "search_memory"@ {
            assert(names[0] == name);
        } else if name == "add_memory"@ {
            assert(names[1] == name);
        } else if name == "get_profile"@ {
            assert(names[2] == name);
        } else if name == "add_conversation"@ {
            assert(names[3] == name);
        } else if name == "add_behavior_history"@ {
            assert(names[4] == name);
        } else if name == "list_behavior_history"@ {
            assert(names[5] == name);
        } else {
            assert(names[6] == name);
        }
    }
    if names.contains(name) {
        let i = choose|i: int| 0 <= i < names.len() && names[i] == name;
        assert(0 <= i < names.len());
    }
}

/// `"Unknown tool: " + name`.
pub fn unknown_tool_message(name: &str) -> (r: String)
    ensures
        r@ == "Unknown tool: "@ + name@,
{
    let mut s = "Unknown tool: ".to_owned();
    push_str(&mut s, name);
    s
}

/// `"Tool error: " + detail`.
pub fn tool_error_message(detail: &str) -> (r: String)
    ensures
        r@ == "Tool error: "@ + detail@,
{
    let mut s = "Tool error: ".to_owned();
    push_str(&mut s, detail);
    s
}

/// The memory server's verdict on a stored message.
pub open spec fn reply_effect<V>(
    h: Map<Seq<char>, Seq<V>>,
    key: Seq<char>,
    status: Option<Seq<char>>,
    message: V,
) -> Map<Seq<char>, Seq<V>> {
    if status == Some("accumulating"@) {
        h.insert(
            key,
            if h.contains_key(key) {
                h[key]
            } else {
                Seq::empty()
            }.push(message),
        )
    } else if status == Some("extracted"@) {
        h.remove(key)
    } else {
        h
    }
}

/// Messages sent for each conversation since its last memory boundary;
/// they go along with the next message as its history.
pub struct PendingHistory<V> {
    table: KeyTable<Vec<V>>,
}

impl<V> PendingHistory<V> {
    /// The histories by key.
    pub closed spec fn view(&self) -> Map<Seq<char>, Seq<V>> {
        self.table@.map_values(|v: Vec<V>| v@)
    }

    /// No conversation has pending messages.
    pub fn new() -> (r: Self)
        ensures
            r.view() == Map::<Seq<char>, Seq<V>>::empty(),
    {
        let r = PendingHistory { table: KeyTable::new() };
        assert(r.view() =~= Map::<Seq<char>, Seq<V>>::empty());
        r
    }

    /// The pending messages of `key` (none when it has no entry).
    pub fn history(&self, key: &str) -> (r: Option<&Vec<V>>)
        ensures
            match r {
                Some(v) => self.view().contains_key(key@) && v@ == self.view()[key@],
                None => !self.view().contains_key(key@),
            },
    {
        self.table.get(key)
    }

    /// Applies the server's verdict on a stored message: `accumulating`
    /// appends the message to the key's history, `extracted` clears it, and
    /// any other answer leaves every history as it was.
    pub fn after_reply(&mut self, key: &str, status: Option<&str>, message: V)
        ensures
            final(self).view() == reply_effect(
                old(self).view(),
                key@,
                match status {
                    Some(s) => Some(s@),
                    None => None,
                },
                message,
            ),
    {
        let ghost st = match status {
            Some(s) => Some(s@),
            None => None,
        };
        let ghost before = self.view();
        match status {
            Some(s) => {
                if str_eq(s, "accumulating") {
                    let mut list = take_list(&mut self.table, key);
                    let ghost l0 = list@;
                    list.push(message);
                    self.table.insert(key.to_owned(), list);
                    proof {
                        assert(self.view() =~= reply_effect(before, key@, st, message));
                    }
                    return;
                } else if str_eq(s, "extracted") {
                    self.table.remove(key);
                    assert(self.view() =~= reply_effect(before, key@, st, message));
                    return;
                }
            },
            None => {},
        }
        assert(self.view() =~= reply_effect(before, key@, st, message));
    }
}

/// Removes and returns the list under `key` (empty when there is none).
fn take_list<V>(t: &mut KeyTable<Vec<V>>, key: &str) -> (r: Vec<V>)
    ensures
        final(t)@ == old(t)@.remove(key@),
        r@ == (if old(t)@.contains_key(key@) {
            old(t)@[key@]@
        } else {
            Seq::empty()
        }),
{
    let r = t.take(key);
    match r {
        Some(v) => v,
        None => Vec::new(),
    }
}

/// What a search hit shows: its type, subject, content and rendered score.
#[derive(Debug, Clone)]
pub struct SearchHit {
    pub memory_type: Option<String>,
    pub subject: Option<String>,
    pub content: Option<String>,
    /// Already rendered, e.g. `" (score: 0.912)"`.
    pub score: Option<String>,
}

pub open spec fn opt_or(v: Option<String>, d: Seq<char>) -> Seq<char> {
    match v {
        Some(s) => s@,
        None => d,
    }
}

/// The lines shown for hit number `n` (counting from 1).
pub open spec fn hit_block(n: nat, h: SearchHit) -> Seq<char> {
    "["@ + dec_seq(n) + "] ["@ + opt_or(h.memory_type, "unknown"@) + "]"@ + opt_or(
        h.score,
        Seq::empty(),
    ) + "\n"@ + (if opt_or(h.subject, Seq::empty()).len() > 0 {
        "  Subject: "@ + opt_or(h.subject, Seq::empty()) + "\n"@
    } else {
        Seq::empty()
    }) + (if opt_or(h.content, Seq::empty()).len() > 0 {
        "  Content: "@ + opt_or(h.content, Seq::empty()) + "\n"@
    } else {
        Seq::empty()
    }) + "\n"@
}

pub open spec fn hit_blocks(hs: Seq<SearchHit>) -> Seq<char>
    decreases hs.len(),
{
    if hs.len() == 0 {
        Seq::empty()
    } else {
        hit_blocks(hs.drop_last()) + hit_block(hs.len(), hs.last())
    }
}

/// The answer of `search_memory` for the hits the server returned.
pub open spec fn search_answer_spec(hs: Seq<SearchHit>) -> Seq<char> {
    if hs.len() == 0 {
        "No relevant memories found."@
    } else {
        "Found "@ + dec_seq(hs.len()) + " memory item(s):\n\n"@ + hit_blocks(hs)
    }
}

fn opt_text(v: &Option<String>) -> (r: &str)
    ensures
        r@ == opt_or(*v, Seq::empty()),
{
    proof {
        reveal_strlit("");
    }
    match v {
        Some(s) => s.as_str(),
        None => "",
    }
}

/// Appends the block of hit number `n`.
fn push_hit(out: &mut String, n: u64, h: &SearchHit)
    ensures
        final(out)@ == old(out)@ + hit_block(n as nat, *h),
{
    push_str(out, "[");
    push_str(out, u64_to_string(n).as_str());
    push_str(out, "] [");
    let t = match &h.memory_type {
        Some(t) => t.as_str(),
        None => "unknown",
    };
    push_str(out, t);
    push_str(out, "]");
    push_str(out, opt_text(&h.score));
    push_str(out, "\n");
    let subject = opt_text(&h.subject);
    if !subject.is_empty() {
        push_str(out, "  Subject: ");
        push_str(out, subject);
        push_str(out, "\n");
    }
    let content = opt_text(&h.content);
    if !content.is_empty() {
        push_str(out, "  Content: ");
        push_str(out, content);
        push_str(out, "\n");
    }
    push_str(out, "\n");
}

/// Formats search hits for the model.
pub fn format_search_hits(hits: &Vec<SearchHit>) -> (r: String)
    requires
        hits@.len() < u64::MAX,
    ensures
        r@ == search_answer_spec(hits@),
{
    if hits.len() == 0 {
        return "No relevant memories found.".to_owned();
    }
    let mut out = "Found ".to_owned();
    push_str(&mut out, u64_to_string(hits.len() as u64).as_str());
    push_str(&mut out, " memory item(s):\n\n");
    let ghost head = out@;
    let mut i: usize = 0;
    while i < hits.len()
        invariant
            i <= hits@.len() < u64::MAX,
            out@ == head + hit_blocks(hits@.take(i as int)),
        decreases hits@.len() - i,
    {
        let ghost before = out@;
        push_hit(&mut out, (i + 1) as u64, &hits[i]);
        proof {
            assert(hits@.take(i + 1).drop_last() =~= hits@.take(i as int));
        }
        i = i + 1;
    }
    assert(hits@.take(hits@.len() as int) =~= hits@);
    out
}

/// The answer of `get_profile`: one bullet per non-empty content.
pub open spec fn profile_lines(cs: Seq<Option<String>>) -> Seq<char>
    decreases cs.len(),
{
    if cs.len() == 0 {
        Seq::empty()
    } else {
        profile_lines(cs.drop_last()) + (if opt_or(cs.last(), Seq::empty()).len() > 0 {
            "• "@ + opt_or(cs.last(), Seq::empty()) + "\n"@
        } else {
            Seq::empty()
        })
    }
}

pub open spec fn profile_answer_spec(memory_type: Seq<char>, cs: Seq<Option<String>>) -> Seq<char> {
    if cs.len() == 0 {
        "No "@ + memory_type + " stored yet."@
    } else {
        "User profile ("@ + dec_seq(cs.len()) + " entries):\n\n"@ + profile_lines(cs)
    }
}

/// Formats profile entries for the model.
pub fn format_profile(memory_type: &str, contents: &Vec<Option<String>>) -> (r: String)
    requires
        contents@.len() < u64::MAX,
    ensures
        r@ == profile_answer_spec(memory_type@, contents@),
{
    if contents.len() == 0 {
        let mut s = "No ".to_owned();
        push_str(&mut s, memory_type);
        push_str(&mut s, " stored yet.");
        return s;
    }
    let mut out = "User profile (".to_owned();
    push_str(&mut out, u64_to_string(contents.len() as u64).as_str());
    push_str(&mut out, " entries):\n\n");
    let ghost head = out@;
    let mut i: usize = 0;
    while i < contents.len()
        invariant
            i <= contents@.len(),
            out@ == head + profile_lines(contents@.take(i as int)),
        decreases contents@.len() - i,
    {
        let ghost before = out@;
        let c = opt_text(&contents[i]);
        if !c.is_empty() {
            push_str(&mut out, "• ");
            push_str(&mut out, c);
            push_str(&mut out, "\n");
        }
        proof {
            assert(contents@.take(i + 1).drop_last() =~= contents@.take(i as int));
            assert(out@ =~= before + (if opt_or(contents@[i as int], Seq::empty()).len() > 0 {
                "• "@ + opt_or(contents@[i as int], Seq::empty()) + "\n"@
            } else {
                Seq::empty()
            }));
        }
        i = i + 1;
    }
    assert(contents@.take(contents@.len() as int) =~= contents@);
    out
}

/// `Stored: "content"`.
pub fn stored_message(content: &str) -> (r: String)
    ensures
        r@ == "Stored: \""@ + content@ + "\""@,
{
    let mut s = "Stored: \"".to_owned();
    push_str(&mut s, content);
    push_str(&mut s, "\"");
    s
}

/// The answer after a conversation turn was stored: the sizes of the two
/// messages in bytes.
pub fn conversation_stored_message(user_msg: &str, assistant_msg: &str) -> (r: String)
    ensures
        r@ == "Stored conversation turn ("@ + dec_seq(user_msg.len() as nat) + " + "@
            + dec_seq(assistant_msg.len() as nat) + " chars)."@,
{
    let mut s = "Stored conversation turn (".to_owned();
    push_str(&mut s, u64_to_string(user_msg.len() as u64).as_str());
    push_str(&mut s, " + ");
    push_str(&mut s, u64_to_string(assistant_msg.len() as u64).as_str());
    push_str(&mut s, " chars).");
    s
}

/// Arguments of `add_conversation` after validation.
pub enum ConversationArgs {
    /// One of the two messages is missing or empty.
    Missing,
    /// Both messages, and the user's display name (`User` by default).
    Turn { user_msg: String, assistant_msg: String, user_name: String },
}

/// Validates `add_conversation` arguments.
pub fn conversation_args(
    user_msg: Option<&str>,
    assistant_msg: Option<&str>,
    user_name: Option<&str>,
) -> (r: ConversationArgs)
    ensures
        match r {
            ConversationArgs::Missing => (match user_msg {
                Some(u) => u@.len() == 0,
                None => true,
            }) || (match assistant_msg {
                Some(a) => a@.len() == 0,
                None => true,
            }),
            ConversationArgs::Turn { user_msg: u, assistant_msg: a, user_name: n } => (match user_msg {
                Some(u0) => u0@ == u@ && u@.len() > 0,
                None => false,
            }) && (match assistant_msg {
                Some(a0) => a0@ == a@ && a@.len() > 0,
                None => false,
            }) && n@ == (match user_name {
                Some(x) => x@,
                None => "User"@,
            }),
        },
{
    match (user_msg, assistant_msg) {
        (Some(u), Some(a)) => {
            if u.is_empty() || a.is_empty() {
                ConversationArgs::Missing
            } else {
                ConversationArgs::Turn {
                    user_msg: u.to_owned(),
                    assistant_msg: a.to_owned(),
                    user_name: match user_name {
                        Some(x) => x.to_owned(),
                        None => "User".to_owned(),
                    },
                }
            }
        },
        _ => ConversationArgs::Missing,
    }
}

/// `"Parse error: " + detail`, the answer to a line that is not a request.
pub fn parse_error_message(detail: &str) -> (r: String)
    ensures
        r@ == "Parse error: "@ + detail@,
{
    let mut s = "Parse error: ".to_owned();
    push_str(&mut s, detail);
    s
}

/// `"Method not found: " + method`.
pub fn method_not_found_message(method: &str) -> (r: String)
    ensures
        r@ == "Method not found: "@ + method@,
{
    let mut s = "Method not found: ".to_owned();
    push_str(&mut s, method);
    s
}

/// The answer of a behavior-history tool in this build.
pub fn behavior_history_disabled_message() -> (r: String)
    ensures
        r@ == "BehaviorHistory feature is disabled. Rebuild with --features behavior-history"@,
{
    "BehaviorHistory feature is disabled. Rebuild with --features behavior-history".to_owned()
}

/// The query of `search_memory`, or the answer when the query is missing:
/// the query, the configured group and user, `top_k` (5 by default) and the
/// retrieval method (the configured one by default), upper-cased.
pub fn search_request(cfg: &McpConfig, query: Option<&str>, top_k: Option<u64>, method: Option<&str>)
    -> (r: Result<Vec<(String, String)>, String>)
    ensures
        match r {
            Ok(params) => {
                &&& query.is_some() && query.unwrap()@.len() > 0
                &&& param_views(params@) == seq![
                    ("query"@, query.unwrap()@),
                    ("group_id"@, cfg.group_id@),
                    ("user_id"@, cfg.user_id@),
                    ("top_k"@, dec_seq(
                        (match top_k {
                            Some(k) => k,
                            None => 5,
                        }) as nat,
                    )),
                    ("retrieve_method"@, uppercase(
                        match method {
                            Some(m) => m@,
                            None => cfg.retrieve_method@,
                        },
                    )),
                ]
            },
            Err(msg) => {
                &&& (query.is_none() || query.unwrap()@.len() == 0)
                &&& msg@ == "Error: 'query' is required"@
            },
        },
        r matches Ok(params) ==> {
            let m = match method {
                Some(m) => m@,
                None => cfg.retrieve_method@,
            };
            ascii_only(m) ==> params@[4].1@ == ascii_upper_seq(m)
        },
{
    proof {
        reveal_strlit("");
    }
    let q = match query {
        Some(q) => q,
        None => "",
    };
    if q.is_empty() {
        return Err("Error: 'query' is required".to_owned());
    }
    let k = match top_k {
        Some(k) => k,
        None => 5,
    };
    let m = match method {
        Some(m) => to_uppercase(m),
        None => to_uppercase(cfg.retrieve_method.as_str()),
    };
    let mut params: Vec<(String, String)> = Vec::new();
    params.push(("query".to_owned(), q.to_owned()));
    params.push(("group_id".to_owned(), cfg.group_id.clone()));
    params.push(("user_id".to_owned(), cfg.user_id.clone()));
    params.push(("top_k".to_owned(), u64_to_string(k)));
    params.push(("retrieve_method".to_owned(), m));
    assert(param_views(params@) =~= seq![
        ("query"@, q@),
        ("group_id"@, cfg.group_id@),
        ("user_id"@, cfg.user_id@),
        ("top_k"@, dec_seq(k as nat)),
        ("retrieve_method"@, params@[4].1@),
    ]);
    Ok(params)
}

/// What `add_memory` stores: the content with its sender (`User` by
/// default) and role (`user` by default), or the answer when the content
/// is missing.
pub fn add_memory_request(content: Option<&str>, sender: Option<&str>, role: Option<&str>) -> (r:
    Result<(String, String, String), String>)
    ensures
        match r {
            Ok((c, s, ro)) => {
                &&& content.is_some() && c@ == content.unwrap()@ && c@.len() > 0
                &&& s@ == (match sender {
                    Some(x) => x@,
                    None => "User"@,
                })
                &&& ro@ == (match role {
                    Some(x) => x@,
                    None => "user"@,
                })
            },
            Err(msg) => {
                &&& (content.is_none() || content.unwrap()@.len() == 0)
                &&& msg@ == "Error: 'content' is required"@
            },
        },
{
    proof {
        reveal_strlit("");
    }
    let c = match content {
        Some(c) => c,
        None => "",
    };
    if c.is_empty() {
        return Err("Error: 'content' is required".to_owned());
    }
    let s = match sender {
        Some(x) => x.to_owned(),
        None => "User".to_owned(),
    };
    let ro = match role {
        Some(x) => x.to_owned(),
        None => "user".to_owned(),
    };
    Ok((c.to_owned(), s, ro))
}

/// The answer of `add_conversation` when a message is missing.
pub fn missing_conversation_message() -> (r: String)
    ensures
        r@ == "Error: 'user_message' and 'assistant_message' are required"@,
{
    "Error: 'user_message' and 'assistant_message' are required".to_owned()
}

/// The memory type `get_profile` asks for (`user_profile` by default) and
/// its query: the configured user and group, that type and a limit of 20.
pub fn profile_request(cfg: &McpConfig, memory_type: Option<&str>) -> (r: (String, Vec<(String, String)>))
    ensures
        r.0@ == (match memory_type {
            Some(t) => t@,
            None => "user_profile"@,
        }),
        param_views(r.1@) == seq![
            ("user_id"@, cfg.user_id@),
            ("group_id"@, cfg.group_id@),
            ("memory_type"@, r.0@),
            ("limit"@, "20"@),
        ],
{
    let t = match memory_type {
        Some(t) => t.to_owned(),
        None => "user_profile".to_owned(),
    };
    let mut params: Vec<(String, String)> = Vec::new();
    params.push(("user_id".to_owned(), cfg.user_id.clone()));
    params.push(("group_id".to_owned(), cfg.group_id.clone()));
    params.push(("memory_type".to_owned(), t.clone()));
    params.push(("limit".to_owned(), "20".to_owned()));
    assert(param_views(params@) =~= seq![
        ("user_id"@, cfg.user_id@),
        ("group_id"@, cfg.group_id@),
        ("memory_type"@, params@[2].1@),
        ("limit"@, "20"@),
    ]);
    (t, params)
}

/// The query of `list_behavior_history`: the configured user, the limit
/// (50 by default, at most 500), then the type and time bounds that are given.
pub fn behavior_list_params(
    cfg: &McpConfig,
    limit: Option<u64>,
    behavior_type: Option<&str>,
    start_time: Option<&str>,
    end_time: Option<&str>,
) -> (r: Vec<(String, String)>)
    ensures
        param_views(r@) == seq![
            ("user_id"@, cfg.user_id@),
            ("limit"@, dec_seq(
                (match limit {
                    Some(l) => if l < 500 {
                        l
                    } else {
                        500
                    },
                    None => 50,
                }) as nat,
            )),
        ] + opt_str_param("behavior_type"@, behavior_type) + opt_str_param("start_time"@, start_time)
            + opt_str_param("end_time"@, end_time),
{
    let l: u64 = match limit {
        Some(l) => if l < 500 {
            l
        } else {
            500
        },
        None => 50,
    };
    let mut params: Vec<(String, String)> = Vec::new();
    params.push(("user_id".to_owned(), cfg.user_id.clone()));
    params.push(("limit".to_owned(), u64_to_string(l)));
    let ghost head = param_views(params@);
    assert(head =~= seq![("user_id"@, cfg.user_id@), ("limit"@, dec_seq(l as nat))]);
    push_opt_str(&mut params, "behavior_type", behavior_type);
    push_opt_str(&mut params, "start_time", start_time);
    push_opt_str(&mut params, "end_time", end_time);
    assert(param_views(params@) =~= head + opt_str_param("behavior_type"@, behavior_type)
        + opt_str_param("start_time"@, start_time) + opt_str_param("end_time"@, end_time));
    params
}

/// A parameter present when its value is.
pub open spec fn opt_str_param(key: Seq<char>, value: Option<&str>) -> Seq<(Seq<char>, Seq<char>)> {
    match value {
        Some(v) => seq![(key, v@)],
        None => Seq::empty(),
    }
}

fn push_opt_str(params: &mut Vec<(String, String)>, key: &str, value: Option<&str>)
    ensures
        param_views(final(params)@) == param_views(old(params)@) + opt_str_param(key@, value),
{
    match value {
        Some(v) => {
            params.push((key.to_owned(), v.to_owned()));
        },
        None => {},
    }
    assert(param_views(final(params)@) =~= param_views(old(params)@) + opt_str_param(key@, value));
}

/// The types of a new behavior record, or the answer when there are none.
pub fn behavior_types(types: Vec<String>) -> (r: Result<Vec<String>, String>)
    ensures
        types@.len() > 0 ==> r == Ok::<Vec<String>, String>(types),
        types@.len() == 0 ==> (r matches Err(m) && m@
            == "Error: 'behavior_type' must be a non-empty string array"@),
{
    if types.len() == 0 {
        Err("Error: 'behavior_type' must be a non-empty string array".to_owned())
    } else {
        Ok(types)
    }
}

/// `Stored behavior history record: <id>`, `unknown` when the server gave none.
pub fn behavior_stored_message(id: Option<&str>) -> (r: String)
    ensures
        r@ == "Stored behavior history record: "@ + (match id {
            Some(i) => i@,
            None => "unknown"@,
        }),
{
    let mut s = "Stored behavior history record: ".to_owned();
    match id {
        Some(i) => push_str(&mut s, i),
        None => push_str(&mut s, "unknown"),
    }
    s
}

/// The statistics answer: the user, the record count and the type
/// breakdown as JSON text.
pub fn behavior_stats_message(user_id: &str, total: u64, breakdown_json: &str) -> (r: String)
    ensures
        r@ == "Behavior history stats for user="@ + user_id@ + ":\n- total_records: "@ + dec_seq(
            total as nat,
        ) + "\n- type_breakdown: "@ + breakdown_json@,
{
    let mut s = "Behavior history stats for user=".to_owned();
    push_str(&mut s, user_id);
    push_str(&mut s, ":\n- total_records: ");
    push_str(&mut s, u64_to_string(total).as_str());
    push_str(&mut s, "\n- type_breakdown: ");
    push_str(&mut s, breakdown_json);
    s
}

/// What a behavior record shows: its timestamp, its types (the string
/// ones, when the field is a list) and its event id.
#[derive(Debug, Clone)]
pub struct BehaviorRecordView {
    pub timestamp: Option<String>,
    pub behavior_type: Option<Vec<String>>,
    pub event_id: Option<String>,
}

/// `[n] ts`, then the types joined with `, ` and the event id, `-` for
/// anything missing.
pub open spec fn behavior_block(n: nat, b: BehaviorRecordView) -> Seq<char> {
    "["@ + dec_seq(n) + "] "@ + opt_or(b.timestamp, "-"@) + "\n  behavior_type: "@ + (match b.behavior_type {
        Some(ts) => join_seq(views(ts@), ", "@),
        None => "-"@,
    }) + "\n  event_id: "@ + opt_or(b.event_id, "-"@) + "\n\n"@
}

pub open spec fn behavior_blocks(bs: Seq<BehaviorRecordView>) -> Seq<char>
    decreases bs.len(),
{
    if bs.len() == 0 {
        Seq::empty()
    } else {
        behavior_blocks(bs.drop_last()) + behavior_block(bs.len(), bs.last())
    }
}

/// The answer of `list_behavior_history`.
pub open spec fn behavior_list_spec(bs: Seq<BehaviorRecordView>) -> Seq<char> {
    if bs.len() == 0 {
        "No behavior history records found."@
    } else {
        "Behavior history ("@ + dec_seq(bs.len()) + " records):\n\n"@ + behavior_blocks(bs)
    }
}

fn push_behavior(out: &mut String, n: u64, b: &BehaviorRecordView)
    ensures
        final(out)@ == old(out)@ + behavior_block(n as nat, *b),
{
    push_str(out, "[");
    push_str(out, u64_to_string(n).as_str());
    push_str(out, "] ");
    match &b.timestamp {
        Some(t) => push_str(out, t.as_str()),
        None => push_str(out, "-"),
    }
    push_str(out, "\n  behavior_type: ");
    match &b.behavior_type {
        Some(ts) => {
            let tags = join(ts, ", ");
            push_str(out, tags.as_str());
        },
        None => push_str(out, "-"),
    }
    push_str(out, "\n  event_id: ");
    match &b.event_id {
        Some(e) => push_str(out, e.as_str()),
        None => push_str(out, "-"),
    }
    push_str(out, "\n\n");
}

/// Formats behavior records for the model.
pub fn format_behavior_records(records: &Vec<BehaviorRecordView>) -> (r: String)
    requires
        records@.len() < u64::MAX,
    ensures
        r@ == behavior_list_spec(records@),
{
    if records.len() == 0 {
        return "No behavior history records found.".to_owned();
    }
    let mut out = "Behavior history (".to_owned();
    push_str(&mut out, u64_to_string(records.len() as u64).as_str());
    push_str(&mut out, " records):\n\n");
    let ghost head = out@;
    let mut i: usize = 0;
    while i < records.len()
        invariant
            i <= records@.len() < u64::MAX,
            out@ == head + behavior_blocks(records@.take(i as int)),
        decreases records@.len() - i,
    {
        let ghost before = out@;
        push_behavior(&mut out, (i + 1) as u64, &records[i]);
        proof {
            assert(records@.take(i + 1).drop_last() =~= records@.take(i as int));
        }
        i = i + 1;
    }
    assert(records@.take(records@.len() as int) =~= records@);
    out
}

} // verus!
