//! The plan of a memory search: which tables each memory type reads, how a
//! retrieved profile is shown, and the prompts and limits of the
//! multi-round (agentic) search.
use vstd::prelude::*;
use crate::memory::{fill_spec, fill_template, slot_views};
use crate::retrieval::{
    dedup_positions, kept_positions, numbered_lines, numbered_lines_spec, tokenise, tokenise_spec,
    MemoryType, RetrieveMethod,
};
use crate::text::{join, join_seq, views};

verus! {

/// System prompt of the sufficiency check.
pub const SUFFICIENCY_CHECK_SYSTEM: &'static str = r#"
You are an information sufficiency evaluator. Given a user's query and retrieved memory snippets, determine if the retrieved information is sufficient to answer the query.

Return a JSON object:
{
  "is_sufficient": boolean,
  "reasoning": "brief explanation",
  "missing_information": ["missing point 1", "missing point 2"]
}
"#;

/// User prompt of the sufficiency check (`{query}`, `{memories}`).
pub const SUFFICIENCY_CHECK_USER: &'static str = r#"
User query: {query}

Retrieved memories:
{memories}

Is the retrieved information sufficient to answer the query?
"#;

/// System prompt asking for refined queries.
pub const MULTI_QUERY_GENERATION_SYSTEM: &'static str = r#"
You are a query expansion specialist. Given an original query and what information is still missing, generate 2-3 refined search queries to find the missing information.

Return a JSON array of query strings:
["refined query 1", "refined query 2", "refined query 3"]
"#;

/// User prompt asking for refined queries (`{query}`, `{missing_info}`).
pub const MULTI_QUERY_GENERATION_USER: &'static str = r#"
Original query: {query}
Missing information: {missing_info}

Generate 2-3 refined search queries to find this missing information.
"#;

/// Results kept from the first round to judge whether they suffice.
pub const SUFFICIENCY_SAMPLE: usize = 5;

/// `top_k` of the first round of an agentic search.
pub const FIRST_ROUND_TOP_K: u32 = 20;

/// Refined queries run in the second round, at most.
pub const MAX_REFINED_QUERIES: usize = 3;

/// `top_k` of each refined query.
pub const REFINED_TOP_K: u32 = 50;

/// A table that keyword and vector search read.
#[derive(Debug, Clone, Copy, PartialEq, Eq, Structural)]
pub enum SearchTarget {
    Episodes,
    Foresight,
    EventLogs,
    /// The user's profile, shown as `profile`.
    Profile,
    /// The same profile, shown as `core_memory`.
    CoreMemory,
}

/// The table a memory type reads: episodes for `All`, and the profile
/// tables only when the search names a user.
pub open spec fn target_of(t: MemoryType, has_user: bool) -> Option<SearchTarget> {
    match t {
        MemoryType::EpisodicMemory | MemoryType::All => Some(SearchTarget::Episodes),
        MemoryType::ForesightRecord => Some(SearchTarget::Foresight),
        MemoryType::EventLogRecord => Some(SearchTarget::EventLogs),
        MemoryType::Profile => if has_user {
            Some(SearchTarget::Profile)
        } else {
            None
        },
        MemoryType::CoreMemory => if has_user {
            Some(SearchTarget::CoreMemory)
        } else {
            None
        },
    }
}

/// The tables read for the requested memory types, in request order.
pub open spec fn search_plan_spec(types: Seq<MemoryType>, has_user: bool) -> Seq<SearchTarget>
    decreases types.len(),
{
    if types.len() == 0 {
        Seq::empty()
    } else {
        search_plan_spec(types.drop_last(), has_user) + match target_of(types.last(), has_user) {
            Some(t) => seq![t],
            None => Seq::empty(),
        }
    }
}

fn target_for(t: MemoryType, has_user: bool) -> (r: Option<SearchTarget>)
    ensures
        r == target_of(t, has_user),
{
    match t {
        MemoryType::EpisodicMemory | MemoryType::All => Some(SearchTarget::Episodes),
        MemoryType::ForesightRecord => Some(SearchTarget::Foresight),
        MemoryType::EventLogRecord => Some(SearchTarget::EventLogs),
        MemoryType::Profile => if has_user {
            Some(SearchTarget::Profile)
        } else {
            None
        },
        MemoryType::CoreMemory => if has_user {
            Some(SearchTarget::CoreMemory)
        } else {
            None
        },
    }
}

/// The tables a keyword or vector search reads, one per requested type.
pub fn search_plan(types: &Vec<MemoryType>, has_user: bool) -> (r: Vec<SearchTarget>)
    ensures
        r@ == search_plan_spec(types@, has_user),
{
    let mut r: Vec<SearchTarget> = Vec::new();
    let mut i: usize = 0;
    while i < types.len()
        invariant
            i <= types@.len(),
            r@ == search_plan_spec(types@.take(i as int), has_user),
        decreases types@.len() - i,
    {
        proof {
            assert(types@.take(i + 1).drop_last() =~= types@.take(i as int));
        }
        match target_for(types[i], has_user) {
            Some(t) => {
                r.push(t);
                assert(r@ =~= search_plan_spec(types@.take(i + 1), has_user));
            },
            None => {
                assert(r@ =~= search_plan_spec(types@.take(i + 1), has_user));
            },
        }
        i = i + 1;
    }
    assert(types@.take(types@.len() as int) =~= types@);
    r
}

/// A search for profiles without a user reads no table.
pub proof fn law_profiles_need_a_user(types: Seq<MemoryType>)
    requires
        forall|i: int|
            0 <= i < types.len() ==> (#[trigger] types[i] == MemoryType::Profile || types[i]
                == MemoryType::CoreMemory),
    ensures
        search_plan_spec(types, false) == Seq::<SearchTarget>::empty(),
    decreases types.len(),
{
    if types.len() > 0 {
        assert forall|i: int| 0 <= i < types.drop_last().len() implies (
        #[trigger] types.drop_last()[i] == MemoryType::Profile || types.drop_last()[i]
            == MemoryType::CoreMemory) by {
            assert(types.drop_last()[i] == types[i]);
        }
        law_profiles_need_a_user(types.drop_last());
        assert(types.last() == types[types.len() - 1]);
    }
}

/// The `memory_type` label of results from a table.
pub fn target_label(t: SearchTarget) -> (r: &'static str)
    ensures
        r@ == (match t {
            SearchTarget::Episodes => "episodic_memory"@,
            SearchTarget::Foresight => "foresight_record"@,
            SearchTarget::EventLogs => "event_log_record"@,
            SearchTarget::Profile => "profile"@,
            SearchTarget::CoreMemory => "core_memory"@,
        }),
{
    match t {
        SearchTarget::Episodes => "episodic_memory",
        SearchTarget::Foresight => "foresight_record",
        SearchTarget::EventLogs => "event_log_record",
        SearchTarget::Profile => "profile",
        SearchTarget::CoreMemory => "core_memory",
    }
}

/// The method's name as a search answer reports it.
pub fn method_label(m: RetrieveMethod) -> (r: &'static str)
    ensures
        r@ == (match m {
            RetrieveMethod::Keyword => "Keyword"@,
            RetrieveMethod::Vector => "Vector"@,
            RetrieveMethod::Hybrid => "Hybrid"@,
            RetrieveMethod::Rrf => "Rrf"@,
            RetrieveMethod::Agentic => "Agentic"@,
        }),
{
    match m {
        RetrieveMethod::Keyword => "Keyword",
        RetrieveMethod::Vector => "Vector",
        RetrieveMethod::Hybrid => "Hybrid",
        RetrieveMethod::Rrf => "Rrf",
        RetrieveMethod::Agentic => "Agentic",
    }
}

/// The smaller of a count and a limit: how many ranked results are kept.
pub open spec fn kept_count(found: nat, limit: nat) -> nat {
    if found < limit {
        found
    } else {
        limit
    }
}

/// How many of `found` ranked results a search keeps under its `top_k`.
pub fn kept_results(found: usize, top_k: u32) -> (r: usize)
    ensures
        r == kept_count(found as nat, top_k as nat),
{
    if (found as u64) < (top_k as u64) {
        found
    } else {
        top_k as usize
    }
}

/// A keyword search: the tokenised query sent to every table it reads,
/// each asked for `top_k` results; the merged results are cut to `top_k`.
pub struct KeywordSearch {
    pub tokens: String,
    pub targets: Vec<SearchTarget>,
    pub top_k: u32,
}

/// The keyword search for a query: its tokens, the tables of the requested
/// memory types (profiles only for a user) and the request's `top_k`.
pub fn keyword_search_plan(query: &str, types: &Vec<MemoryType>, has_user: bool, top_k: u32) -> (r:
    KeywordSearch)
    ensures
        r.tokens@ == tokenise_spec(query@),
        r.targets@ == search_plan_spec(types@, has_user),
        r.top_k == top_k,
{
    KeywordSearch { tokens: tokenise(query), targets: search_plan(types, has_user), top_k }
}

/// Whether merged results are reranked: a real reranker and something to rank.
pub fn should_rerank(enabled: bool, merged: usize) -> (r: bool)
    ensures
        r == (enabled && merged > 0),
{
    enabled && merged > 0
}

/// A hybrid search that runs in a round of the agentic search.
pub struct HybridSearch {
    pub query: String,
    pub top_k: u32,
    pub rerank: bool,
}

/// The first round: the query with `top_k` 20, reranked.
pub fn first_round(query: &str) -> (r: HybridSearch)
    ensures
        r.query@ == query@,
        r.top_k == FIRST_ROUND_TOP_K,
        r.rerank,
{
    HybridSearch { query: query.to_owned(), top_k: FIRST_ROUND_TOP_K, rerank: true }
}

/// How many first-round results are judged for sufficiency: at most five.
pub fn sufficiency_sample(round_results: usize) -> (r: usize)
    ensures
        r == kept_count(round_results as nat, SUFFICIENCY_SAMPLE as nat),
{
    if round_results < SUFFICIENCY_SAMPLE {
        round_results
    } else {
        SUFFICIENCY_SAMPLE
    }
}

/// What the agentic search does after the sufficiency check.
pub enum AgenticStep {
    /// Answer with the first `keep` results of the judged sample, in order.
    Answer { keep: usize },
    /// Ask the model for refined queries with this prompt.
    Refine { prompt: String },
}

/// The step after the sufficiency check. A failed check (`None`) counts as
/// sufficient; then the judged sample is answered, cut to `top_k`.
/// Otherwise the model is asked for queries that find the missing points.
pub fn after_sufficiency(
    query: &str,
    sufficient: Option<bool>,
    missing: Option<Vec<String>>,
    sample: usize,
    top_k: u32,
) -> (r: AgenticStep)
    ensures
        sufficient != Some(false) ==> (r matches AgenticStep::Answer { keep } && keep
            == kept_count(sample as nat, top_k as nat)),
        sufficient == Some(false) ==> (r matches AgenticStep::Refine { prompt } && prompt@
            == fill_spec(
            MULTI_QUERY_GENERATION_USER@,
            seq![
                ("{query}"@, query@),
                ("{missing_info}"@, missing_text(missing)),
            ],
        )),
{
    match sufficient {
        Some(false) => {
            let ghost mv = missing_text(missing);
            let m = missing_info_text(missing);
            let prompt = refinement_prompt(query, m.as_str());
            assert(seq![("{query}"@, query@), ("{missing_info}"@, m@)] =~= seq![
                ("{query}"@, query@),
                ("{missing_info}"@, mv),
            ]);
            AgenticStep::Refine { prompt }
        },
        _ => AgenticStep::Answer { keep: kept_results(sample, top_k) },
    }
}

/// The second round: one hybrid search, not reranked, with `top_k` 50, for
/// each of the first three refined queries (none when the model gave none).
pub fn refined_searches(queries: Option<Vec<String>>) -> (r: Vec<HybridSearch>)
    ensures
        r@.len() == (match queries {
            Some(q) => kept_count(q@.len(), MAX_REFINED_QUERIES as nat),
            None => 0,
        }),
        forall|i: int|
            0 <= i < r@.len() ==> (#[trigger] r@[i]).query@ == queries.unwrap()@[i]@ && r@[i].top_k
                == REFINED_TOP_K && !r@[i].rerank,
{
    match queries {
        None => Vec::new(),
        Some(q) => {
            let kept = refined_queries(q);
            let mut r: Vec<HybridSearch> = Vec::new();
            let mut i: usize = 0;
            while i < kept.len()
                invariant
                    i <= kept@.len(),
                    r@.len() == i,
                    forall|j: int|
                        0 <= j < i ==> (#[trigger] r@[j]).query@ == kept@[j]@ && r@[j].top_k
                            == REFINED_TOP_K && !r@[j].rerank,
                decreases kept@.len() - i,
            {
                r.push(HybridSearch { query: kept[i].clone(), top_k: REFINED_TOP_K, rerank: false });
                i = i + 1;
            }
            r
        },
    }
}

/// The candidates of the final ranking: the positions, among the judged
/// sample followed by every second-round result, of the first item with
/// each id.
pub fn final_candidates(ids: &Vec<String>) -> (r: Vec<usize>)
    ensures
        r@ == kept_positions(views(ids@)),
        forall|a: int| 0 <= a < r@.len() ==> #[trigger] r@[a] < ids@.len(),
        forall|a: int, b: int| 0 <= a < b < r@.len() ==> #[trigger] r@[a] < #[trigger] r@[b],
        forall|a: int, b: int|
            0 <= a < r@.len() && 0 <= b < r@.len() && a != b ==> ids@[#[trigger] r@[a] as int]@
                != ids@[#[trigger] r@[b] as int]@,
{
    dedup_positions(ids)
}

/// The text a profile is found by: its life summary, else its structured
/// data as JSON text, else nothing.
pub fn profile_content(life_summary: Option<String>, profile_data_json: Option<String>) -> (r:
    String)
    ensures
        r@ == (match life_summary {
            Some(s) => s@,
            None => match profile_data_json {
                Some(d) => d@,
                None => Seq::empty(),
            },
        }),
{
    match life_summary {
        Some(s) => s,
        None => match profile_data_json {
            Some(d) => d,
            None => String::new(),
        },
    }
}

/// The missing points the model named, as one comma-separated line.
pub open spec fn missing_text(missing: Option<Vec<String>>) -> Seq<char> {
    match missing {
        Some(v) => join_seq(views(v@), ", "@),
        None => Seq::empty(),
    }
}

/// The missing points the model named, as one comma-separated line.
pub fn missing_info_text(missing: Option<Vec<String>>) -> (r: String)
    ensures
        r@ == missing_text(missing),
{
    match missing {
        Some(v) => join(&v, ", "),
        None => {
            let r = String::new();
            r
        },
    }
}

/// The refined queries that run: the first three the model proposed.
pub fn refined_queries(queries: Vec<String>) -> (r: Vec<String>)
    ensures
        r@ == queries@.take(
            if queries@.len() < MAX_REFINED_QUERIES {
                queries@.len() as int
            } else {
                MAX_REFINED_QUERIES as int
            },
        ),
{
    let mut q = queries;
    q.truncate(MAX_REFINED_QUERIES);
    q
}

/// The user prompt asking whether the retrieved memories answer the query:
/// the memories are numbered, one per line.
pub fn sufficiency_prompt(query: &str, contents: &Vec<String>) -> (r: String)
    requires
        contents@.len() < u64::MAX,
    ensures
        r@ == fill_spec(
            SUFFICIENCY_CHECK_USER@,
            seq![("{query}"@, query@), ("{memories}"@, numbered_lines_spec(views(contents@)))],
        ),
{
    let memories = numbered_lines(contents);
    let mut slots: Vec<(String, String)> = Vec::new();
    slots.push(("{query}".to_owned(), query.to_owned()));
    slots.push(("{memories}".to_owned(), memories));
    let r = fill_template(SUFFICIENCY_CHECK_USER, &slots);
    assert(slot_views(slots@) =~= seq![
        ("{query}"@, query@),
        ("{memories}"@, numbered_lines_spec(views(contents@))),
    ]);
    r
}

/// The user prompt asking for refined queries that find what is missing.
pub fn refinement_prompt(query: &str, missing: &str) -> (r: String)
    ensures
        r@ == fill_spec(
            MULTI_QUERY_GENERATION_USER@,
            seq![("{query}"@, query@), ("{missing_info}"@, missing@)],
        ),
{
    let mut slots: Vec<(String, String)> = Vec::new();
    slots.push(("{query}".to_owned(), query.to_owned()));
    slots.push(("{missing_info}".to_owned(), missing.to_owned()));
    let r = fill_template(MULTI_QUERY_GENERATION_USER, &slots);
    assert(slot_views(slots@) =~= seq![("{query}"@, query@), ("{missing_info}"@, missing@)]);
    r
}

} // verus!
