//! Service settings and their defaults, and the rule that decides whether
//! results are reranked.
use vstd::prelude::*;
use crate::text::{strip_suffix_all, trim_end_matches};

verus! {

/// Embedding service settings.
#[derive(Debug, Clone)]
pub struct VectorizeConfig {
    pub base_url: String,
    pub api_key: String,
    pub model: String,
    pub dimensions: usize,
    pub batch_size: usize,
}

impl VectorizeConfig {
    /// The settings for an API key, with the default endpoint, model
    /// (`text-embedding-3-small`), 1024 dimensions and batches of 10.
    pub fn with_api_key(api_key: String) -> (r: Self)
        ensures
            r.base_url@ == "https://api.openai.com/v1"@,
            r.api_key == api_key,
            r.model@ == "text-embedding-3-small"@,
            r.dimensions == 1024,
            r.batch_size == 10,
    {
        VectorizeConfig {
            base_url: "https://api.openai.com/v1".to_owned(),
            api_key,
            model: "text-embedding-3-small".to_owned(),
            dimensions: 1024,
            batch_size: 10,
        }
    }
}

/// Reranking service settings.
#[derive(Debug, Clone)]
pub struct RerankConfig {
    pub base_url: String,
    pub api_key: String,
    pub model: String,
    /// Reranking is wanted (it also needs an endpoint and a model).
    pub enabled: bool,
}

impl Default for RerankConfig {
    /// Reranking off, with nothing configured.
    fn default() -> (r: Self)
        ensures
            r.base_url@ == Seq::<char>::empty(),
            r.api_key@ == Seq::<char>::empty(),
            r.model@ == Seq::<char>::empty(),
            !r.enabled,
    {
        RerankConfig {
            base_url: String::new(),
            api_key: String::new(),
            model: String::new(),
            enabled: false,
        }
    }
}

/// Whether a real reranker is built: it is enabled and has an endpoint and
/// a model; otherwise the no-op reranker stands in.
pub fn rerank_enabled(cfg: &RerankConfig) -> (r: bool)
    ensures
        r == (cfg.enabled && cfg.base_url@.len() > 0 && cfg.model@.len() > 0),
{
    cfg.enabled && !cfg.base_url.as_str().is_empty() && !cfg.model.as_str().is_empty()
}

/// The reranker's endpoint without trailing slashes.
pub fn rerank_base_url(cfg: &RerankConfig) -> (r: String)
    ensures
        r@ == strip_suffix_all(cfg.base_url@, "/"@),
{
    trim_end_matches(cfg.base_url.as_str(), "/")
}

/// The reranker used when none is configured: it leaves the retrieval
/// order as it is.
pub struct NoopReranker;

impl NoopReranker {
    /// The no-op reranker never reorders.
    pub fn is_enabled(&self) -> (r: bool)
        ensures
            !r,
    {
        false
    }
}

/// Database settings.
#[derive(Debug, Clone)]
pub struct SurrealConfig {
    /// e.g. `rocksdb://./data/surreal`, `ws://localhost:8000`, `mem://`.
    pub endpoint: String,
    pub ns: String,
    pub db: String,
    pub user: String,
    pub pass: String,
}

impl Default for SurrealConfig {
    /// A local database `evermem/main` with the root account.
    fn default() -> (r: Self)
        ensures
            r.endpoint@ == "rocksdb://./data/surreal"@,
            r.ns@ == "evermem"@,
            r.db@ == "main"@,
            r.user@ == "root"@,
            r.pass@ == "root"@,
    {
        SurrealConfig {
            endpoint: "rocksdb://./data/surreal".to_owned(),
            ns: "evermem".to_owned(),
            db: "main".to_owned(),
            user: "root".to_owned(),
            pass: "root".to_owned(),
        }
    }
}

/// Message queue settings.
#[derive(Debug, Clone)]
pub struct NatsConfig {
    pub url: String,
    pub stream: String,
    pub subject_memorize: String,
    /// Off: no queue connection is made.
    pub enabled: bool,
}

impl Default for NatsConfig {
    /// A local queue, switched off.
    fn default() -> (r: Self)
        ensures
            r.url@ == "nats://127.0.0.1:4222"@,
            r.stream@ == "EVERMEM"@,
            r.subject_memorize@ == "evermem.memorize"@,
            !r.enabled,
    {
        NatsConfig {
            url: "nats://127.0.0.1:4222".to_owned(),
            stream: "EVERMEM".to_owned(),
            subject_memorize: "evermem.memorize".to_owned(),
            enabled: false,
        }
    }
}

/// Listening address.
#[derive(Debug, Clone)]
pub struct ServerConfig {
    pub host: String,
    pub port: u16,
}

impl Default for ServerConfig {
    /// Every interface, port 8080.
    fn default() -> (r: Self)
        ensures
            r.host@ == "0.0.0.0"@,
            r.port == 8080,
    {
        ServerConfig { host: "0.0.0.0".to_owned(), port: 8080 }
    }
}

/// Headers that carry the tenant.
#[derive(Debug, Clone)]
pub struct TenantConfig {
    pub org_header: String,
    pub space_header: String,
}

impl Default for TenantConfig {
    /// `X-Organization-Id` and `X-Space-Id`.
    fn default() -> (r: Self)
        ensures
            r.org_header@ == "X-Organization-Id"@,
            r.space_header@ == "X-Space-Id"@,
    {
        TenantConfig {
            org_header: "X-Organization-Id".to_owned(),
            space_header: "X-Space-Id".to_owned(),
        }
    }
}

} // verus!
