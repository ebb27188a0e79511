//! Security policy for WebAssembly agent execution: which WASM features an
//! agent may use, which system access it has, and which host functions it
//! may import.

use vstd::prelude::*;
use crate::base::MaxImportFunctions;
use crate::text::HostFunctionName;

verus! {

broadcast use vstd::string::group_string_axioms;

/// Whether a feature is switched on.
#[derive(Debug, Clone, Copy, PartialEq, Eq, Structural)]
pub enum FeatureState {
    /// The feature is enabled.
    Enabled,
    /// The feature is disabled.
    Disabled,
}

/// WebAssembly features that can be enabled or disabled.
#[derive(Debug, Clone, Copy, PartialEq, Eq, Structural)]
pub struct WasmFeatures {
    /// SIMD instructions.
    pub simd: FeatureState,
    /// Reference types (anyref, funcref).
    pub reference_types: FeatureState,
    /// Bulk memory operations.
    pub bulk_memory: FeatureState,
    /// Threading support.
    pub threads: FeatureState,
}

impl WasmFeatures {
    /// Every advanced feature disabled.
    pub open spec fn strict_features() -> WasmFeatures {
        WasmFeatures {
            simd: FeatureState::Disabled,
            reference_types: FeatureState::Disabled,
            bulk_memory: FeatureState::Disabled,
            threads: FeatureState::Disabled,
        }
    }

    /// Every feature enabled.
    pub open spec fn relaxed_features() -> WasmFeatures {
        WasmFeatures {
            simd: FeatureState::Enabled,
            reference_types: FeatureState::Enabled,
            bulk_memory: FeatureState::Enabled,
            threads: FeatureState::Enabled,
        }
    }

    /// The common features enabled, threads disabled.
    pub open spec fn development_features() -> WasmFeatures {
        WasmFeatures {
            simd: FeatureState::Enabled,
            reference_types: FeatureState::Enabled,
            bulk_memory: FeatureState::Enabled,
            threads: FeatureState::Disabled,
        }
    }

    /// Strict security: all advanced features disabled.
    pub fn strict() -> (f: Self)
        ensures
            f == Self::strict_features(),
    {
        WasmFeatures {
            simd: FeatureState::Disabled,
            reference_types: FeatureState::Disabled,
            bulk_memory: FeatureState::Disabled,
            threads: FeatureState::Disabled,
        }
    }

    /// Relaxed security: all features enabled.
    pub fn relaxed() -> (f: Self)
        ensures
            f == Self::relaxed_features(),
    {
        WasmFeatures {
            simd: FeatureState::Enabled,
            reference_types: FeatureState::Enabled,
            bulk_memory: FeatureState::Enabled,
            threads: FeatureState::Enabled,
        }
    }

    /// Development: the common features enabled, threads kept disabled.
    pub fn development() -> (f: Self)
        ensures
            f == Self::development_features(),
    {
        WasmFeatures {
            simd: FeatureState::Enabled,
            reference_types: FeatureState::Enabled,
            bulk_memory: FeatureState::Enabled,
            threads: FeatureState::Disabled,
        }
    }
}

impl Default for WasmFeatures {
    /// The strict feature set.
    fn default() -> (f: Self)
        ensures
            f == Self::strict_features(),
    {
        Self::strict()
    }
}

/// System access granted to agents.
#[derive(Debug, Clone, Copy, PartialEq, Eq, Structural)]
pub struct AccessPermissions {
    /// Network access (HTTP, TCP, ...).
    pub network: bool,
    /// Filesystem access (reading and writing files).
    pub filesystem: bool,
}

impl AccessPermissions {
    /// No external access.
    pub fn none() -> (p: Self)
        ensures
            !p.network,
            !p.filesystem,
    {
        AccessPermissions { network: false, filesystem: false }
    }

    /// Network access only.
    pub fn network_only() -> (p: Self)
        ensures
            p.network,
            !p.filesystem,
    {
        AccessPermissions { network: true, filesystem: false }
    }

    /// Full system access.
    pub fn full() -> (p: Self)
        ensures
            p.network,
            p.filesystem,
    {
        AccessPermissions { network: true, filesystem: true }
    }
}

impl Default for AccessPermissions {
    /// No external access.
    fn default() -> (p: Self)
        ensures
            !p.network,
            !p.filesystem,
    {
        Self::none()
    }
}

/// Security policy: WASM feature restrictions and permissions.
#[derive(Debug, Clone)]
pub struct SecurityPolicy {
    /// WebAssembly features.
    pub wasm_features: WasmFeatures,
    /// System access.
    pub access_permissions: AccessPermissions,
    /// Whether fuel-based metering is on.
    pub enable_fuel_metering: bool,
    /// Largest number of import functions allowed.
    pub max_import_functions: MaxImportFunctions,
    /// Host functions that agents may import.
    pub allowed_host_functions: Vec<HostFunctionName>,
}

/// The first consistency rule that a policy breaks, with its message; `None`
/// for a consistent policy.
pub open spec fn policy_violation(
    features: WasmFeatures,
    access: AccessPermissions,
    fuel_metering: bool,
    max_imports: u32,
    host_function_count: nat,
) -> Option<Seq<char>> {
    if !fuel_metering && features.threads == FeatureState::Enabled {
        Some("Fuel metering must be enabled when threads are allowed"@)
    } else if access.filesystem && host_function_count == 0 {
        Some("Filesystem access requires at least one allowed host function"@)
    } else if max_imports == 0 {
        Some("At least one import function must be allowed"@)
    } else {
        None
    }
}

/// A host function name made from a text that is known to be accepted.
fn host_function(name: &str) -> (h: HostFunctionName)
    requires
        1 <= name@.len() <= 100,
    ensures
        h@ == name@,
{
    match HostFunctionName::try_new(name.to_string()) {
        Ok(h) => h,
        Err(_) => vstd::pervasive::unreached(),
    }
}

impl SecurityPolicy {
    /// The names of the allowed host functions, in order.
    pub open spec fn host_names(&self) -> Seq<Seq<char>> {
        self.allowed_host_functions@.map_values(|h: HostFunctionName| h@)
    }

    /// The first consistency rule that this policy breaks.
    pub open spec fn violation(&self) -> Option<Seq<char>> {
        policy_violation(
            self.wasm_features,
            self.access_permissions,
            self.enable_fuel_metering,
            self.max_import_functions@,
            self.allowed_host_functions@.len(),
        )
    }

    /// Whether SIMD is disabled.
    pub fn disable_simd(&self) -> (b: bool)
        ensures
            b == (self.wasm_features.simd == FeatureState::Disabled),
    {
        self.wasm_features.simd == FeatureState::Disabled
    }

    /// Whether reference types are disabled.
    pub fn disable_reference_types(&self) -> (b: bool)
        ensures
            b == (self.wasm_features.reference_types == FeatureState::Disabled),
    {
        self.wasm_features.reference_types == FeatureState::Disabled
    }

    /// Whether bulk memory operations are disabled.
    pub fn disable_bulk_memory(&self) -> (b: bool)
        ensures
            b == (self.wasm_features.bulk_memory == FeatureState::Disabled),
    {
        self.wasm_features.bulk_memory == FeatureState::Disabled
    }

    /// Whether threads are disabled.
    pub fn disable_threads(&self) -> (b: bool)
        ensures
            b == (self.wasm_features.threads == FeatureState::Disabled),
    {
        self.wasm_features.threads == FeatureState::Disabled
    }

    /// Whether network access is allowed.
    pub fn allow_network_access(&self) -> (b: bool)
        ensures
            b == self.access_permissions.network,
    {
        self.access_permissions.network
    }

    /// Whether filesystem access is allowed.
    pub fn allow_filesystem_access(&self) -> (b: bool)
        ensures
            b == self.access_permissions.filesystem,
    {
        self.access_permissions.filesystem
    }

    /// A strict policy with minimal permissions: no advanced features, no
    /// system access, five imports, and only logging and the clock.
    pub fn strict() -> (p: Self)
        ensures
            p.wasm_features == WasmFeatures::strict_features(),
            !p.access_permissions.network && !p.access_permissions.filesystem,
            p.enable_fuel_metering,
            p.max_import_functions@ == 5,
            p.host_names() == seq!["log"@, "get_time"@],
            p.violation() is None,
    {
        proof {
            reveal_strlit("log");
            reveal_strlit("get_time");
        }
        let mut names: Vec<HostFunctionName> = Vec::new();
        names.push(host_function("log"));
        names.push(host_function("get_time"));
        let max = match MaxImportFunctions::try_new(5) {
            Ok(m) => m,
            Err(_) => MaxImportFunctions::default(),
        };
        let p = SecurityPolicy {
            wasm_features: WasmFeatures::strict(),
            access_permissions: AccessPermissions::none(),
            enable_fuel_metering: true,
            max_import_functions: max,
            allowed_host_functions: names,
        };
        assert(p.host_names() =~= seq!["log"@, "get_time"@]);
        p
    }

    /// A relaxed policy for trusted environments: every feature, network
    /// access, twenty imports, and messaging and HTTP host functions.
    pub fn relaxed() -> (p: Self)
        ensures
            p.wasm_features == WasmFeatures::relaxed_features(),
            p.access_permissions.network && !p.access_permissions.filesystem,
            p.enable_fuel_metering,
            p.max_import_functions@ == 20,
            p.host_names() == seq![
                "log"@,
                "get_time"@,
                "send_message"@,
                "receive_message"@,
                "http_request"@,
                "http_response"@,
            ],
            p.violation() is None,
    {
        proof {
            reveal_strlit("log");
            reveal_strlit("get_time");
            reveal_strlit("send_message");
            reveal_strlit("receive_message");
            reveal_strlit("http_request");
            reveal_strlit("http_response");
        }
        let mut names: Vec<HostFunctionName> = Vec::new();
        names.push(host_function("log"));
        names.push(host_function("get_time"));
        names.push(host_function("send_message"));
        names.push(host_function("receive_message"));
        names.push(host_function("http_request"));
        names.push(host_function("http_response"));
        let max = match MaxImportFunctions::try_new(20) {
            Ok(m) => m,
            Err(_) => MaxImportFunctions::default(),
        };
        let p = SecurityPolicy {
            wasm_features: WasmFeatures::relaxed(),
            access_permissions: AccessPermissions::network_only(),
            enable_fuel_metering: true,
            max_import_functions: max,
            allowed_host_functions: names,
        };
        assert(p.host_names() =~= seq![
            "log"@,
            "get_time"@,
            "send_message"@,
            "receive_message"@,
            "http_request"@,
            "http_response"@,
        ]);
        p
    }

    /// Whether a host function is allowed: its name is a valid host
    /// function name and one of the allowed ones.
    pub fn is_function_allowed(&self, function_name: &str) -> (b: bool)
        ensures
            b == (HostFunctionName::accepts(function_name@) && self.host_names().contains(
                function_name@,
            )),
    {
        let name = match HostFunctionName::try_new(function_name.to_string()) {
            Ok(name) => name,
            Err(_) => {
                return false;
            },
        };
        let n = self.allowed_host_functions.len();
        for i in 0..n
            invariant
                n == self.allowed_host_functions@.len(),
                name@ == function_name@,
                HostFunctionName::accepts(function_name@),
                forall|j: int| 0 <= j < i ==> self.host_names()[j] != function_name@,
        {
            if self.allowed_host_functions[i].same(&name) {
                assert(self.host_names()[i as int] == function_name@);
                return true;
            }
        }
        proof {
            if self.host_names().contains(function_name@) {
                let j = choose|j: int|
                    0 <= j < self.host_names().len() && self.host_names()[j] == function_name@;
                assert(self.host_names()[j] != function_name@);
            }
        }
        false
    }

    /// Checks the policy for consistency: threads need fuel metering,
    /// filesystem access needs a host function, and at least one import
    /// must be allowed.
    pub fn validate(&self) -> (r: Result<(), String>)
        ensures
            match r {
                Ok(()) => self.violation() is None,
                Err(message) => self.violation() == Some(message@),
            },
    {
        if !self.enable_fuel_metering && self.wasm_features.threads == FeatureState::Enabled {
            return Err(String::from_str("Fuel metering must be enabled when threads are allowed"));
        }
        if self.access_permissions.filesystem && self.allowed_host_functions.len() == 0 {
            return Err(
                String::from_str("Filesystem access requires at least one allowed host function"),
            );
        }
        if self.max_import_functions.into_inner() == 0 {
            return Err(String::from_str("At least one import function must be allowed"));
        }
        Ok(())
    }
}

impl Default for SecurityPolicy {
    /// The default policy: strict features, no system access, fuel metering,
    /// ten imports, and the logging, clock and messaging host functions.
    fn default() -> (p: Self)
        ensures
            p.wasm_features == WasmFeatures::strict_features(),
            !p.access_permissions.network && !p.access_permissions.filesystem,
            p.enable_fuel_metering,
            p.max_import_functions@ == 10,
            p.host_names() == seq!["log"@, "get_time"@, "send_message"@, "receive_message"@],
            p.violation() is None,
    {
        proof {
            reveal_strlit("log");
            reveal_strlit("get_time");
            reveal_strlit("send_message");
            reveal_strlit("receive_message");
        }
        let mut names: Vec<HostFunctionName> = Vec::new();
        names.push(host_function("log"));
        names.push(host_function("get_time"));
        names.push(host_function("send_message"));
        names.push(host_function("receive_message"));
        let p = SecurityPolicy {
            wasm_features: WasmFeatures::default(),
            access_permissions: AccessPermissions::default(),
            enable_fuel_metering: true,
            max_import_functions: MaxImportFunctions::default(),
            allowed_host_functions: names,
        };
        assert(p.host_names() =~= seq![
            "log"@,
            "get_time"@,
            "send_message"@,
            "receive_message"@,
        ]);
        p
    }
}

} // verus!
