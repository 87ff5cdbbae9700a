//! The command-line surface, as plain data, and its validation.
//!
//! Argument parsing itself happens outside the library; the parsed flags
//! arrive here as plain values.  The rules that follow from them — which
//! flag combinations are rejected, whether a browser is opened, and what
//! the run configuration looks like — are decided here.

use vstd::prelude::*;

verus! {

/// The parsed command line.
#[derive(Debug, Clone)]
pub struct Cli {
    pub path: String,
    /// Parse the most recently modified log of a directory.
    pub latest: bool,
    /// The output directory.
    pub out: String,
    /// Delete the output directory when it already exists.
    pub overwrite: bool,
    /// Fail the run on unrecognized log lines.
    pub strict: bool,
    /// Fail the run on log lines without a compile id.
    pub strict_compile_id: bool,
    /// Do not open a browser at the end.
    pub no_browser: bool,
    /// Markup injected verbatim at the top of the report.
    pub custom_header_html: String,
    /// Be more chatty.
    pub verbose: bool,
    /// Render as plain text for easier diffing.
    pub plain_text: bool,
    /// Export specific logs.
    pub export: bool,
    /// Provenance-tracking highlighting.
    pub inductor_provenance: bool,
    /// Parse every rank and build a unified report.
    pub all_ranks_html: bool,
    /// Serve the output directory over HTTP.
    pub serve: bool,
    /// The port to serve on; scanned for when absent.
    pub port: Option<u16>,
}

/// Why a command line is rejected before any work starts.
#[derive(Debug, Clone, Copy, PartialEq, Eq, Structural)]
pub enum CliError {
    LatestWithAllRanks,
}

/// The run configuration consumed by the core.
#[derive(Debug, Clone)]
pub struct RunConfig {
    pub strict: bool,
    pub strict_compile_id: bool,
    pub custom_header_html: String,
    pub verbose: bool,
    pub plain_text: bool,
    pub export: bool,
    pub inductor_provenance: bool,
}

impl Cli {
    /// Rejects flag combinations that cannot be served together: the
    /// latest-log shortcut cannot drive a multi-rank run.
    pub fn validate(&self) -> (r: Result<(), CliError>)
        ensures
            r is Ok <==> !(self.all_ranks_html && self.latest),
            r matches Err(e) ==> e == CliError::LatestWithAllRanks,
    {
        if self.all_ranks_html && self.latest {
            Err(CliError::LatestWithAllRanks)
        } else {
            Ok(())
        }
    }

    /// Whether a browser is opened at the end: serving the output
    /// implies not opening one.
    pub fn open_browser(&self) -> (r: bool)
        ensures
            r == (!self.no_browser && !self.serve),
    {
        !self.no_browser && !self.serve
    }

    /// The run configuration these flags ask for.
    pub fn run_config(&self) -> (r: RunConfig)
        ensures
            r.strict == self.strict,
            r.strict_compile_id == self.strict_compile_id,
            r.custom_header_html@ == self.custom_header_html@,
            r.verbose == self.verbose,
            r.plain_text == self.plain_text,
            r.export == self.export,
            r.inductor_provenance == self.inductor_provenance,
    {
        RunConfig {
            strict: self.strict,
            strict_compile_id: self.strict_compile_id,
            custom_header_html: self.custom_header_html.clone(),
            verbose: self.verbose,
            plain_text: self.plain_text,
            export: self.export,
            inductor_provenance: self.inductor_provenance,
        }
    }
}

} // verus!
