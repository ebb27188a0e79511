use caxton::base::MaxImportFunctions;
use caxton::security::{AccessPermissions, FeatureState, SecurityPolicy, WasmFeatures};

#[test]
fn test_default_security_policy() {
    let policy = SecurityPolicy::default();
    assert!(policy.disable_simd());
    assert!(policy.disable_reference_types());
    assert!(policy.disable_bulk_memory());
    assert!(policy.disable_threads());
    assert!(policy.enable_fuel_metering);
    assert!(!policy.allow_network_access());
    assert!(!policy.allow_filesystem_access());
    assert_eq!(policy.max_import_functions.into_inner(), 10);
    assert_eq!(policy.allowed_host_functions.len(), 4);
}

#[test]
fn test_strict_security_policy() {
    let policy = SecurityPolicy::strict();
    assert!(policy.disable_simd());
    assert!(policy.disable_reference_types());
    assert!(policy.disable_bulk_memory());
    assert!(policy.disable_threads());
    assert!(policy.enable_fuel_metering);
    assert!(!policy.allow_network_access());
    assert!(!policy.allow_filesystem_access());
    assert_eq!(policy.max_import_functions.into_inner(), 5);
    assert_eq!(policy.allowed_host_functions.len(), 2);
}

#[test]
fn test_relaxed_security_policy() {
    let policy = SecurityPolicy::relaxed();
    assert!(!policy.disable_simd());
    assert!(!policy.disable_reference_types());
    assert!(!policy.disable_bulk_memory());
    assert!(!policy.disable_threads());
    assert!(policy.enable_fuel_metering);
    assert!(policy.allow_network_access());
    assert!(!policy.allow_filesystem_access());
    assert_eq!(policy.max_import_functions.into_inner(), 20);
    assert_eq!(policy.allowed_host_functions.len(), 6);
}

#[test]
fn test_is_function_allowed() {
    let policy = SecurityPolicy::default();
    assert!(policy.is_function_allowed("log"));
    assert!(policy.is_function_allowed("get_time"));
    assert!(policy.is_function_allowed("send_message"));
    assert!(!policy.is_function_allowed("unknown_function"));
    assert!(!policy.is_function_allowed("file_read"));
}

#[test]
fn test_validate_valid_policy() {
    let policy = SecurityPolicy::default();
    assert!(policy.validate().is_ok());
}

#[test]
fn test_validate_invalid_policy_threads_without_fuel() {
    let policy = SecurityPolicy {
        enable_fuel_metering: false,
        wasm_features: WasmFeatures {
            threads: FeatureState::Enabled,
            ..WasmFeatures::default()
        },
        ..Default::default()
    };
    assert!(policy.validate().is_err());
}

#[test]
fn test_validate_invalid_policy_filesystem_no_functions() {
    let policy = SecurityPolicy {
        access_permissions: AccessPermissions {
            filesystem: true,
            ..AccessPermissions::default()
        },
        allowed_host_functions: vec![],
        ..Default::default()
    };
    assert!(policy.validate().is_err());
}

#[test]
fn test_validate_invalid_policy_zero_imports() {
    let policy = SecurityPolicy {
        max_import_functions: MaxImportFunctions::try_new(1).unwrap(),
        ..Default::default()
    };
    assert!(policy.validate().is_ok());
}

#[test]
fn validation_messages_name_the_broken_rule() {
    let threads = SecurityPolicy {
        enable_fuel_metering: false,
        wasm_features: WasmFeatures::relaxed(),
        ..Default::default()
    };
    assert_eq!(
        threads.validate().unwrap_err(),
        "Fuel metering must be enabled when threads are allowed"
    );
    let filesystem = SecurityPolicy {
        access_permissions: AccessPermissions::full(),
        allowed_host_functions: vec![],
        ..Default::default()
    };
    assert_eq!(
        filesystem.validate().unwrap_err(),
        "Filesystem access requires at least one allowed host function"
    );
}

#[test]
fn presets_and_permissions_are_as_documented() {
    let dev = WasmFeatures::development();
    assert_eq!(dev.simd, FeatureState::Enabled);
    assert_eq!(dev.threads, FeatureState::Disabled);
    assert_eq!(WasmFeatures::strict(), WasmFeatures::default());
    let net = AccessPermissions::network_only();
    assert!(net.network && !net.filesystem);
    let none = AccessPermissions::none();
    assert!(!none.network && !none.filesystem);
    let relaxed = SecurityPolicy::relaxed();
    assert!(relaxed.is_function_allowed("http_request"));
    assert!(!SecurityPolicy::strict().is_function_allowed("send_message"));
    assert!(!relaxed.is_function_allowed(""));
}
