use evermemos_rs::retrieval::{
    dedup_positions, is_stop_word, numbered_lines, parse_memory_types, parse_retrieve_method,
    split_char, split_whitespace, tokenise, MemoryType, RetrieveMethod,
};

#[test]
fn tokenise_english_removes_stopwords() {
    let out = tokenise("the quick brown fox");
    assert!(!out.contains("the"), "'the' should be removed");
    assert!(out.contains("quick"));
    assert!(out.contains("brown"));
    assert!(out.contains("fox"));
}

#[test]
fn tokenise_english_lowercases() {
    let out = tokenise("Hello World");
    assert!(out.contains("hello"));
    assert!(out.contains("world"));
}

#[test]
fn tokenise_chinese_segments() {
    let out = tokenise("我爱北京");
    assert!(!out.is_empty());
    let tokens: Vec<&str> = out.split_whitespace().collect();
    assert!(tokens.len() >= 2, "Expected jieba to split '我爱北京', got: {out}");
}

#[test]
fn tokenise_empty_string() {
    assert_eq!(tokenise(""), "");
}

#[test]
fn tokenise_exact_english_output() {
    assert_eq!(tokenise("  The Cat  IS on the Mat "), "cat mat");
    assert_eq!(tokenise("a an the"), "");
}

#[test]
fn tokenise_chinese_drops_blank_tokens() {
    let out = tokenise("我爱 北京");
    assert!(!out.contains("  "));
    assert!(!out.starts_with(' '));
}

#[test]
fn stop_words_are_recognised() {
    assert!(is_stop_word("the"));
    assert!(is_stop_word("its"));
    assert!(!is_stop_word("The"));
    assert!(!is_stop_word("fox"));
}

#[test]
fn whitespace_split_skips_runs() {
    assert_eq!(split_whitespace("  a \t b\nc  "), vec!["a", "b", "c"]);
    assert!(split_whitespace("   ").is_empty());
}

#[test]
fn retrieve_method_parsing() {
    assert_eq!(parse_retrieve_method(None), RetrieveMethod::Vector);
    assert_eq!(parse_retrieve_method(Some("KEYWORD")), RetrieveMethod::Keyword);
    assert_eq!(parse_retrieve_method(Some("HYBRID")), RetrieveMethod::Hybrid);
    assert_eq!(parse_retrieve_method(Some("RRF")), RetrieveMethod::Rrf);
    assert_eq!(parse_retrieve_method(Some("AGENTIC")), RetrieveMethod::Agentic);
    assert_eq!(parse_retrieve_method(Some("keyword")), RetrieveMethod::Vector);
}

#[test]
fn memory_type_parsing() {
    assert_eq!(parse_memory_types(None), vec![MemoryType::All]);
    assert_eq!(
        parse_memory_types(Some("foresight_record, EVENT_LOG ,profile,CORE,other")),
        vec![
            MemoryType::ForesightRecord,
            MemoryType::EventLogRecord,
            MemoryType::Profile,
            MemoryType::CoreMemory,
            MemoryType::EpisodicMemory,
        ]
    );
    assert_eq!(parse_memory_types(Some("")), vec![MemoryType::EpisodicMemory]);
}

#[test]
fn split_char_keeps_empty_pieces() {
    assert_eq!(split_char("a,,b,", ','), vec!["a", "", "b", ""]);
    assert_eq!(split_char("", ','), vec![""]);
}

#[test]
fn dedup_keeps_first_occurrences() {
    let ids: Vec<String> = vec!["a", "b", "a", "c", "b"].into_iter().map(String::from).collect();
    assert_eq!(dedup_positions(&ids), vec![0, 1, 3]);
    assert!(dedup_positions(&Vec::new()).is_empty());
}

#[test]
fn numbered_lines_renders_one_per_line() {
    let c: Vec<String> = vec!["first".to_string(), "second".to_string()];
    assert_eq!(numbered_lines(&c), "1. first\n2. second");
    assert_eq!(numbered_lines(&Vec::new()), "");
}
