//! The commands that lopxy is started with, as plain values.

use vstd::prelude::*;

verus! {

/// The port of the web manager where none is given.
pub const DEFAULT_WEB_MANAGER_PORT: u32 = 8283;

/// The port of the proxy where none is given.
pub const DEFAULT_PROXY_PORT: u32 = 7237;

pub struct LopxyArgs {
    pub command: LopxyCommand,
}

pub enum LopxyCommand {
    /// Start all lopxy services.
    Start(StartArgs),
    /// Stop all lopxy services.
    Stop(StopArgs),
    /// List all proxy items.
    List(ListArgs),
    /// Add a proxy item.
    Add(AddArgs),
    /// Remove a proxy item.
    Remove(RemoveArgs),
    /// Modify a proxy item.
    Modify(ModifyArgs),
    /// Enable the lopxy proxy.
    Enable,
    /// Disable the lopxy proxy.
    Disable,
    /// Get the status of the lopxy server.
    Status,
    /// Open the web manager page in a browser.
    Manager,
}

pub struct StartArgs {
    pub web_manager_port: u32,
    pub proxy_port: u32,
    /// Whether lopxy moves to the background.
    pub daemon: bool,
}

pub struct StopArgs {}

pub struct ListArgs {}

pub struct AddArgs {
    pub resource_url: String,
    pub proxy_resource_url: String,
    /// The MIME type of the target, used for `file` targets only.
    pub content_type: String,
}

pub struct RemoveArgs {
    pub resource_url: String,
}

pub struct ModifyArgs {
    pub resource_url: String,
    pub proxy_resource_url: String,
    /// The MIME type of the target, used for `file` targets only.
    pub content_type: String,
}

impl StartArgs {
    /// The start arguments where none are given: the default ports, in the
    /// foreground.
    pub fn new() -> (res: StartArgs)
        ensures
            res.web_manager_port == DEFAULT_WEB_MANAGER_PORT,
            res.proxy_port == DEFAULT_PROXY_PORT,
            !res.daemon,
    {
        StartArgs { web_manager_port: DEFAULT_WEB_MANAGER_PORT, proxy_port: DEFAULT_PROXY_PORT, daemon: false }
    }
}

} // verus!
