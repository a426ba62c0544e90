//! Choosing the diagnostics that are published for a file.

use crate::config::{Config, Warnings};
use crate::server::ServerState;
use lsp_types::Url;
use vstd::prelude::*;

verus! {

/// The diagnostics that compilation recorded for one file. `D` is one diagnostic as
/// the client understands it.
#[derive(Debug)]
pub struct Diagnostics<D> {
    pub warnings: Vec<D>,
    pub errors: Vec<D>,
}

/// Where the diagnostics of a file are to be taken from.
#[derive(Clone, Copy, Debug, PartialEq, Eq, Structural)]
pub enum DiagnosticsSource {
    /// From the session's record for the file.
    Recorded,
    /// From the file's parsed tokens, one warning each.
    ParsedTokens,
    /// From the file's typed tokens, one warning each.
    TypedTokens,
}

/// What was taken from the source that the settings named.
#[derive(Debug)]
pub enum Gathered<D> {
    /// The session's record for the file, or `None` where it has none.
    Recorded(Option<Diagnostics<D>>),
    /// The warnings made from the file's tokens.
    TokenWarnings(Vec<D>),
}

/// One publication to the client: the diagnostics now valid for a document. They
/// replace whatever the client showed for it before.
#[derive(Debug)]
pub struct Publication<D> {
    pub uri: Url,
    pub diagnostics: Vec<D>,
    pub version: Option<i32>,
}

/// The source that the settings name.
pub open spec fn source_for(config: Config) -> DiagnosticsSource {
    match config.debug.show_collected_tokens_as_warnings {
        Warnings::Default => DiagnosticsSource::Recorded,
        Warnings::Parsed => DiagnosticsSource::ParsedTokens,
        Warnings::Typed => DiagnosticsSource::TypedTokens,
    }
}

/// Of a file's record, what the settings let through: the warnings if warnings are
/// visible, then the errors if errors are visible.
pub open spec fn visible<D>(config: Config, warnings: Seq<D>, errors: Seq<D>) -> Seq<D> {
    (if config.diagnostic.show_warnings {
        warnings
    } else {
        Seq::empty()
    }) + (if config.diagnostic.show_errors {
        errors
    } else {
        Seq::empty()
    })
}

/// The diagnostics to publish. Warnings made from tokens are published as they are;
/// a record is published as far as it is visible; no record gives the empty list.
pub open spec fn to_publish<D>(config: Config, gathered: Gathered<D>) -> Seq<D> {
    match gathered {
        Gathered::TokenWarnings(warnings) => warnings@,
        Gathered::Recorded(Some(record)) => visible(config, record.warnings@, record.errors@),
        Gathered::Recorded(None) => Seq::empty(),
    }
}

impl<S> ServerState<S> {
    /// Where the diagnostics of a file are to be taken from under the server's
    /// settings.
    pub fn diagnostics_source(&self) -> (source: DiagnosticsSource)
        ensures
            source == source_for(self.config),
    {
        match self.config.debug.show_collected_tokens_as_warnings {
            Warnings::Default => DiagnosticsSource::Recorded,
            Warnings::Parsed => DiagnosticsSource::ParsedTokens,
            Warnings::Typed => DiagnosticsSource::TypedTokens,
        }
    }

    /// The diagnostics to publish for a file, from what was gathered for it.
    pub fn diagnostics<D>(&self, gathered: Gathered<D>) -> (published: Vec<D>)
        ensures
            published@ == to_publish(self.config, gathered),
            gathered is Recorded && gathered->Recorded_0 is None ==> published@.len() == 0,
    {
        match gathered {
            Gathered::TokenWarnings(warnings) => warnings,
            Gathered::Recorded(None) => Vec::new(),
            Gathered::Recorded(Some(record)) => {
                let Diagnostics { mut warnings, mut errors } = record;
                let mut published: Vec<D> = Vec::new();
                if self.config.diagnostic.show_warnings {
                    published.append(&mut warnings);
                }
                if self.config.diagnostic.show_errors {
                    published.append(&mut errors);
                }
                published
            },
        }
    }

    /// The publication for the document at `workspace_uri`. There always is one: an
    /// empty list of diagnostics is published too, since it is what clears the
    /// diagnostics that the client showed before.
    pub fn publish_diagnostics<D>(&self, workspace_uri: Url, gathered: Gathered<D>) -> (publication:
        Publication<D>)
        ensures
            publication.uri == workspace_uri,
            publication.diagnostics@ == to_publish(self.config, gathered),
            publication.version is None,
    {
        Publication { uri: workspace_uri, diagnostics: self.diagnostics(gathered), version: None }
    }
}

} // verus!
