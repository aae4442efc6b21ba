//! What the proxy and its surroundings report: the derived status of the
//! proxy, and the facts found when looking for or installing its runtime.

use vstd::prelude::*;
use vstd::string::*;
use crate::config::DEFAULT_PORT;
use crate::text::{copy_opt_text, copy_texts, decimal_string, decimal_text, opt_text, texts};

verus! {

/// What every endpoint of the proxy begins with; the port follows.
pub const ENDPOINT_PREFIX: &'static str = "http://localhost:";

/// A snapshot of the proxy: whether its process is alive, where it listens,
/// the address to reach it at, and whether a credential exists. It is
/// derived on demand and never stored.
#[derive(Debug, PartialEq, Eq)]
pub struct CopilotStatus {
    pub running: bool,
    pub port: u16,
    pub endpoint: String,
    pub authenticated: bool,
}

/// A status with its text as a character sequence.
pub struct StatusView {
    pub running: bool,
    pub port: u16,
    pub endpoint: Seq<char>,
    pub authenticated: bool,
}

impl View for CopilotStatus {
    type V = StatusView;

    open spec fn view(&self) -> StatusView {
        StatusView {
            running: self.running,
            port: self.port,
            endpoint: self.endpoint@,
            authenticated: self.authenticated,
        }
    }
}

/// The address of a proxy that listens on `port`.
pub open spec fn endpoint_text(port: u16) -> Seq<char> {
    ENDPOINT_PREFIX@ + decimal_text(port as nat)
}

/// The status of a proxy on `port`, with the endpoint that belongs to it.
pub open spec fn status_of(running: bool, port: u16, authenticated: bool) -> StatusView {
    StatusView { running, port, endpoint: endpoint_text(port), authenticated }
}

/// Writes the address of a proxy that listens on `port`.
pub fn endpoint_for(port: u16) -> (endpoint: String)
    ensures
        endpoint@ == endpoint_text(port),
{
    let mut endpoint = ENDPOINT_PREFIX.to_owned();
    let digits = decimal_string(port);
    endpoint.append(digits.as_str());
    endpoint
}

impl CopilotStatus {
    /// The status of a proxy on `port`.
    pub fn derive(running: bool, port: u16, authenticated: bool) -> (status: Self)
        ensures
            status@ == status_of(running, port, authenticated),
    {
        CopilotStatus { running, port, endpoint: endpoint_for(port), authenticated }
    }
}

impl Clone for CopilotStatus {
    fn clone(&self) -> (copy: Self)
        ensures
            copy@ == self@,
    {
        CopilotStatus {
            running: self.running,
            port: self.port,
            endpoint: self.endpoint.clone(),
            authenticated: self.authenticated,
        }
    }
}

impl Default for CopilotStatus {
    fn default() -> (status: Self)
        ensures
            status@ == status_of(false, DEFAULT_PORT, false),
    {
        CopilotStatus::derive(false, DEFAULT_PORT, false)
    }
}

/// The endpoint of the default port, written out.
pub proof fn lemma_default_endpoint()
    ensures
        endpoint_text(DEFAULT_PORT) == "http://localhost:4141"@,
{
    reveal_strlit("http://localhost:");
    reveal_strlit("http://localhost:4141");
    reveal_with_fuel(decimal_text, 5);
    assert(decimal_text(4141) =~= seq!['4', '1', '4', '1']);
    assert(endpoint_text(DEFAULT_PORT) =~= "http://localhost:4141"@);
}

/// What a search for the proxy's runtime found: whether the proxy is
/// installed and in which version, the binaries that were found, and every
/// path that was looked at.
#[derive(Debug, PartialEq, Eq)]
pub struct CopilotApiDetection {
    pub installed: bool,
    pub version: Option<String>,
    pub copilot_bin: Option<String>,
    pub npx_bin: Option<String>,
    pub npm_bin: Option<String>,
    pub node_bin: Option<String>,
    pub node_version: Option<String>,
    pub bunx_bin: Option<String>,
    pub node_available: bool,
    pub checked_node_paths: Vec<String>,
    pub checked_copilot_paths: Vec<String>,
}

/// A detection with its texts as character sequences.
pub struct DetectionView {
    pub installed: bool,
    pub version: Option<Seq<char>>,
    pub copilot_bin: Option<Seq<char>>,
    pub npx_bin: Option<Seq<char>>,
    pub npm_bin: Option<Seq<char>>,
    pub node_bin: Option<Seq<char>>,
    pub node_version: Option<Seq<char>>,
    pub bunx_bin: Option<Seq<char>>,
    pub node_available: bool,
    pub checked_node_paths: Seq<Seq<char>>,
    pub checked_copilot_paths: Seq<Seq<char>>,
}

impl View for CopilotApiDetection {
    type V = DetectionView;

    open spec fn view(&self) -> DetectionView {
        DetectionView {
            installed: self.installed,
            version: opt_text(self.version),
            copilot_bin: opt_text(self.copilot_bin),
            npx_bin: opt_text(self.npx_bin),
            npm_bin: opt_text(self.npm_bin),
            node_bin: opt_text(self.node_bin),
            node_version: opt_text(self.node_version),
            bunx_bin: opt_text(self.bunx_bin),
            node_available: self.node_available,
            checked_node_paths: texts(self.checked_node_paths@),
            checked_copilot_paths: texts(self.checked_copilot_paths@),
        }
    }
}

impl Clone for CopilotApiDetection {
    fn clone(&self) -> (copy: Self)
        ensures
            copy@ == self@,
    {
        CopilotApiDetection {
            installed: self.installed,
            version: copy_opt_text(&self.version),
            copilot_bin: copy_opt_text(&self.copilot_bin),
            npx_bin: copy_opt_text(&self.npx_bin),
            npm_bin: copy_opt_text(&self.npm_bin),
            node_bin: copy_opt_text(&self.node_bin),
            node_version: copy_opt_text(&self.node_version),
            bunx_bin: copy_opt_text(&self.bunx_bin),
            node_available: self.node_available,
            checked_node_paths: copy_texts(&self.checked_node_paths),
            checked_copilot_paths: copy_texts(&self.checked_copilot_paths),
        }
    }
}

/// How an installation of the proxy's runtime ended.
#[derive(Debug, PartialEq, Eq)]
pub struct CopilotApiInstallResult {
    pub success: bool,
    pub message: String,
    pub version: Option<String>,
}

/// An installation result with its texts as character sequences.
pub struct InstallResultView {
    pub success: bool,
    pub message: Seq<char>,
    pub version: Option<Seq<char>>,
}

impl View for CopilotApiInstallResult {
    type V = InstallResultView;

    open spec fn view(&self) -> InstallResultView {
        InstallResultView {
            success: self.success,
            message: self.message@,
            version: opt_text(self.version),
        }
    }
}

impl Clone for CopilotApiInstallResult {
    fn clone(&self) -> (copy: Self)
        ensures
            copy@ == self@,
    {
        CopilotApiInstallResult {
            success: self.success,
            message: self.message.clone(),
            version: copy_opt_text(&self.version),
        }
    }
}

} // verus!
