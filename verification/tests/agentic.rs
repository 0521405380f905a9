use evermemos_rs::agentic::{after_sufficiency, final_candidates, first_round, refined_searches, sufficiency_sample, AgenticStep};
use evermemos_rs::agentic::{
    method_label,
    missing_info_text, profile_content, refined_queries, refinement_prompt, search_plan,
    sufficiency_prompt, target_label, SearchTarget, FIRST_ROUND_TOP_K, MAX_REFINED_QUERIES,
    MULTI_QUERY_GENERATION_USER, REFINED_TOP_K, SUFFICIENCY_CHECK_USER, SUFFICIENCY_SAMPLE,
};
use evermemos_rs::retrieval::{MemoryType, RetrieveMethod};

#[test]
fn plan_maps_types_to_tables() {
    let types = vec![
        MemoryType::All,
        MemoryType::ForesightRecord,
        MemoryType::Profile,
        MemoryType::EventLogRecord,
        MemoryType::CoreMemory,
    ];
    assert_eq!(
        search_plan(&types, true),
        vec![
            SearchTarget::Episodes,
            SearchTarget::Foresight,
            SearchTarget::Profile,
            SearchTarget::EventLogs,
            SearchTarget::CoreMemory,
        ]
    );
    assert_eq!(
        search_plan(&types, false),
        vec![SearchTarget::Episodes, SearchTarget::Foresight, SearchTarget::EventLogs]
    );
    assert!(search_plan(&vec![MemoryType::Profile, MemoryType::CoreMemory], false).is_empty());
}

#[test]
fn labels() {
    assert_eq!(target_label(SearchTarget::Episodes), "episodic_memory");
    assert_eq!(target_label(SearchTarget::Foresight), "foresight_record");
    assert_eq!(target_label(SearchTarget::EventLogs), "event_log_record");
    assert_eq!(target_label(SearchTarget::Profile), "profile");
    assert_eq!(target_label(SearchTarget::CoreMemory), "core_memory");
}

#[test]
fn profile_text_prefers_the_summary() {
    assert_eq!(profile_content(Some("life".into()), Some("{}".into())), "life");
    assert_eq!(profile_content(None, Some("{\"a\":1}".into())), "{\"a\":1}");
    assert_eq!(profile_content(None, None), "");
}

#[test]
fn second_round_inputs() {
    assert_eq!(missing_info_text(Some(vec!["a".into(), "b".into()])), "a, b");
    assert_eq!(missing_info_text(None), "");
    let q: Vec<String> = (0..5).map(|i| format!("q{i}")).collect();
    assert_eq!(refined_queries(q), vec!["q0", "q1", "q2"]);
    assert_eq!(refined_queries(vec!["only".into()]), vec!["only"]);
    assert_eq!((SUFFICIENCY_SAMPLE, FIRST_ROUND_TOP_K, MAX_REFINED_QUERIES, REFINED_TOP_K), (5, 20, 3, 50));
}

#[test]
fn agentic_prompts() {
    let p = sufficiency_prompt("where?", &vec!["home".into(), "work".into()]);
    assert_eq!(
        p,
        SUFFICIENCY_CHECK_USER.replace("{query}", "where?").replace("{memories}", "1. home\n2. work")
    );
    let r = refinement_prompt("where?", "a, b");
    assert_eq!(r, MULTI_QUERY_GENERATION_USER.replace("{query}", "where?").replace("{missing_info}", "a, b"));
}

#[test]
fn method_labels() {
    assert_eq!(method_label(RetrieveMethod::Keyword), "Keyword");
    assert_eq!(method_label(RetrieveMethod::Vector), "Vector");
    assert_eq!(method_label(RetrieveMethod::Hybrid), "Hybrid");
    assert_eq!(method_label(RetrieveMethod::Rrf), "Rrf");
    assert_eq!(method_label(RetrieveMethod::Agentic), "Agentic");
}

#[test]
fn keyword_search_sends_tokens_to_each_table() {
    let k = evermemos_rs::agentic::keyword_search_plan(
        "The Cat",
        &vec![MemoryType::All, MemoryType::Profile],
        false,
        7,
    );
    assert_eq!(k.tokens, "cat");
    assert_eq!(k.targets, vec![SearchTarget::Episodes]);
    assert_eq!(k.top_k, 7);
    assert_eq!(evermemos_rs::agentic::kept_results(12, 10), 10);
    assert_eq!(evermemos_rs::agentic::kept_results(3, 10), 3);
    assert!(evermemos_rs::agentic::should_rerank(true, 1));
    assert!(!evermemos_rs::agentic::should_rerank(true, 0));
    assert!(!evermemos_rs::agentic::should_rerank(false, 4));
}

#[test]
fn agentic_rounds() {
    let f = first_round("q");
    assert_eq!((f.query.as_str(), f.top_k, f.rerank), ("q", 20, true));
    assert_eq!(sufficiency_sample(20), 5);
    assert_eq!(sufficiency_sample(2), 2);
    assert!(matches!(after_sufficiency("q", Some(true), None, 5, 3), AgenticStep::Answer { keep: 3 }));
    assert!(matches!(after_sufficiency("q", None, None, 4, 10), AgenticStep::Answer { keep: 4 }));
    match after_sufficiency("q", Some(false), Some(vec!["a".into(), "b".into()]), 5, 3) {
        AgenticStep::Refine { prompt } => assert_eq!(
            prompt,
            MULTI_QUERY_GENERATION_USER.replace("{query}", "q").replace("{missing_info}", "a, b")
        ),
        AgenticStep::Answer { .. } => panic!("expected a refinement"),
    }
    let subs = refined_searches(Some((0..5).map(|i| format!("r{i}")).collect()));
    assert_eq!(subs.len(), 3);
    assert!(subs.iter().all(|s| s.top_k == 50 && !s.rerank));
    assert_eq!(subs[2].query, "r2");
    assert!(refined_searches(None).is_empty());
    let ids: Vec<String> = vec!["a", "b", "a", "c"].into_iter().map(String::from).collect();
    assert_eq!(final_candidates(&ids), vec![0, 1, 3]);
}
