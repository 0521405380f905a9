use evermemos_rs::config::{
    rerank_base_url, rerank_enabled, NatsConfig, NoopReranker, RerankConfig, ServerConfig,
    SurrealConfig, TenantConfig, VectorizeConfig,
};

#[test]
fn defaults() {
    let s = ServerConfig::default();
    assert_eq!((s.host.as_str(), s.port), ("0.0.0.0", 8080));
    let t = TenantConfig::default();
    assert_eq!(t.org_header, "X-Organization-Id");
    assert_eq!(t.space_header, "X-Space-Id");
    let d = SurrealConfig::default();
    assert_eq!(d.endpoint, "rocksdb://./data/surreal");
    assert_eq!((d.ns.as_str(), d.db.as_str(), d.user.as_str(), d.pass.as_str()), ("evermem", "main", "root", "root"));
    let n = NatsConfig::default();
    assert_eq!(n.url, "nats://127.0.0.1:4222");
    assert_eq!(n.stream, "EVERMEM");
    assert_eq!(n.subject_memorize, "evermem.memorize");
    assert!(!n.enabled);
    let v = VectorizeConfig::with_api_key("k".into());
    assert_eq!(v.base_url, "https://api.openai.com/v1");
    assert_eq!(v.model, "text-embedding-3-small");
    assert_eq!((v.dimensions, v.batch_size), (1024, 10));
}

#[test]
fn reranking_needs_endpoint_and_model() {
    let mut c = RerankConfig::default();
    assert!(!rerank_enabled(&c));
    c.enabled = true;
    assert!(!rerank_enabled(&c));
    c.base_url = "http://r//".into();
    assert!(!rerank_enabled(&c));
    c.model = "m".into();
    assert!(rerank_enabled(&c));
    assert_eq!(rerank_base_url(&c), "http://r");
    assert!(!NoopReranker.is_enabled());
}
