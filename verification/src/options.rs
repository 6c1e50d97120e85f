//! The configuration bag consumed by the command builder: every launch
//! parameter of the MCP server binary, held as plain values.

use vstd::prelude::*;

verus! {

/// Which GraphQL mutations the MCP server lets clients run. Rendered on the
/// command line as the value of `--allow-mutations`.
#[derive(Clone, Copy, PartialEq, Eq, Structural, Debug)]
pub enum MutationMode {
    /// No mutations may be run.
    Disabled,
    /// Only explicitly listed mutations may be run.
    Explicit,
    /// Every mutation may be run.
    All,
}

impl MutationMode {
    /// The value token this mode contributes after `--allow-mutations`.
    pub open spec fn value_name_spec(self) -> Seq<char> {
        match self {
            MutationMode::Disabled => "none"@,
            MutationMode::Explicit => "explicit"@,
            MutationMode::All => "all"@,
        }
    }

    /// The command-line spelling of this mode.
    pub fn value_name(&self) -> (s: &'static str)
        ensures
            s@ == self.value_name_spec(),
    {
        match self {
            MutationMode::Disabled => "none",
            MutationMode::Explicit => "explicit",
            MutationMode::All => "all",
        }
    }
}

/// Launch parameters of the MCP server binary. All fields are read-only
/// inputs: the bag is consumed once to build the argument list and never
/// mutated afterwards. Paths are carried as opaque strings; validating them
/// is the producer's responsibility.
pub struct McpServerOpts {
    /// Port the server's HTTP endpoint listens on.
    pub port: u16,
    /// Address the server's HTTP endpoint binds to.
    pub address: String,
    /// Optional directory the server runs in.
    pub directory: Option<String>,
    /// Optional operation-collection identifier.
    pub collection: Option<String>,
    /// Which mutations clients may run.
    pub allow_mutations: MutationMode,
    /// Whether schema introspection is enabled.
    pub introspection: bool,
    /// Paths of operation files; expands to one `--operations` flag followed
    /// by every path.
    pub operations: Vec<String>,
    /// Header strings; each expands to its own `--header <value>` pair.
    pub headers: Vec<String>,
    /// Optional persisted-query manifest path.
    pub manifest: Option<String>,
    /// Fetch the persisted-query manifest from uplink.
    pub uplink_manifest: bool,
    /// Alias of `uplink_manifest`: either flag requests the uplink manifest.
    pub uplink: bool,
    /// Optional custom-scalars configuration path.
    pub custom_scalars_config: Option<String>,
    /// Omit type descriptions from the schema exposed to clients.
    pub disable_type_description: bool,
    /// Omit schema descriptions from the schema exposed to clients.
    pub disable_schema_description: bool,
    /// Enable links into the explorer UI.
    pub explorer: bool,
}

} // verus!
