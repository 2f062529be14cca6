//! Where semantic memories are kept.

use crate::text::{optional_text, same_text};
use vstd::prelude::*;

verus! {

/// The storage settings.
#[derive(Debug)]
pub struct StorageConfig {
    /// The name of the backend.
    pub backend: String,
    /// Where the memory-api gateway is.
    pub http_url: Option<String>,
    /// The environment variable that holds its token.
    pub http_token_env: Option<String>,
}

/// Where semantic memories are kept.
#[derive(Debug)]
pub enum SemanticBackend {
    /// In the local database.
    Sqlite,
    /// At the memory-api gateway.
    Http { url: String, token_env: String },
}

/// What a backend holds.
pub enum BackendView {
    Sqlite,
    Http { url: Seq<char>, token_env: Seq<char> },
}

impl View for SemanticBackend {
    type V = BackendView;

    open spec fn view(&self) -> BackendView {
        match *self {
            SemanticBackend::Sqlite => BackendView::Sqlite,
            SemanticBackend::Http { url, token_env } => BackendView::Http {
                url: url@,
                token_env: token_env@,
            },
        }
    }
}

/// The backend that the settings ask for: the gateway if they name it and say where it is and
/// where its token is, the local database otherwise.
pub open spec fn chosen_backend(
    backend: Seq<char>,
    url: Option<Seq<char>>,
    token_env: Option<Seq<char>>,
) -> BackendView {
    match (url, token_env) {
        (Some(url), Some(token_env)) if backend == "http"@ => BackendView::Http { url, token_env },
        _ => BackendView::Sqlite,
    }
}

impl StorageConfig {
    /// When `backend` is "http" and `http_url`/`http_token_env` are set, semantic memories go to
    /// the memory-api gateway. Otherwise they stay in the local database, with all other stores.
    pub fn semantic_backend(&self) -> (r: SemanticBackend)
        ensures
            r@ == chosen_backend(
                self.backend@,
                optional_text(self.http_url),
                optional_text(self.http_token_env),
            ),
    {
        if same_text(self.backend.as_str(), "http") {
            match (&self.http_url, &self.http_token_env) {
                (Some(url), Some(token_env)) => {
                    return SemanticBackend::Http {
                        url: url.clone(),
                        token_env: token_env.clone(),
                    };
                },
                _ => {},
            }
        }
        SemanticBackend::Sqlite
    }
}

impl SemanticBackend {
    /// What is used when a client for the gateway was tried: without one, the local database.
    pub fn with_client(self, created: bool) -> (r: SemanticBackend)
        ensures
            r@ == if created {
                self@
            } else {
                BackendView::Sqlite
            },
    {
        if created {
            self
        } else {
            SemanticBackend::Sqlite
        }
    }
}

} // verus!
