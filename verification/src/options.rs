//! The options of a run: what to read, how to render, where to deliver.

use crate::text::owned;
use vstd::prelude::*;
use vstd::string::*;

verus! {

/// Delivery into a directory: one file per dashboard.
#[derive(Clone, Debug)]
pub struct GenerateArguments {
    pub output: String,
}

/// Delivery by upload to a Grafana server.
#[derive(Clone, Debug)]
pub struct AddArguments {
    pub url: String,
    pub token: String,
    pub folder: i64,
}

/// The two ways of delivering the translated dashboards.
#[derive(Clone, Debug)]
pub enum Command {
    Generate(GenerateArguments),
    Add(AddArguments),
}

/// The options of one run.
#[derive(Clone, Debug)]
pub struct ApplicationArguments {
    /// Path of the content pack to read.
    pub input: String,
    /// Name of the Grafana data source that every panel queries.
    pub datasource: String,
    /// Base URL of the Graylog server for links back to the search, if any.
    pub graylog_url: Option<String>,
    pub command: Command,
}

/// What the translation reads of the options.
pub struct RenderOptions {
    pub datasource: Seq<char>,
    pub graylog_url: Option<Seq<char>>,
}

impl View for ApplicationArguments {
    type V = RenderOptions;

    open spec fn view(&self) -> RenderOptions {
        RenderOptions {
            datasource: self.datasource@,
            graylog_url: match self.graylog_url {
                Some(url) => Some(url@),
                None => None,
            },
        }
    }
}

/// The import endpoint below a Grafana base URL.
pub open spec fn endpoint_text(url: Seq<char>) -> Seq<char> {
    url + "/api/dashboards/db/"@
}

/// The value of the `Authorization` header for a bearer token.
pub open spec fn authorization_text(token: Seq<char>) -> Seq<char> {
    "Bearer"@ + " "@ + token
}

impl AddArguments {
    /// The URL that dashboards are posted to.
    pub fn endpoint(&self) -> (r: String)
        ensures
            r@ == endpoint_text(self.url@),
    {
        self.url.clone().concat("/api/dashboards/db/")
    }

    /// The value of the `Authorization` header of an upload.
    pub fn authorization(&self) -> (r: String)
        ensures
            r@ == authorization_text(self.token@),
    {
        owned("Bearer").concat(" ").concat(self.token.as_str())
    }
}

} // verus!
