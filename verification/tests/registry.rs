use cb_signer::error::SignerModuleError;
use cb_signer::registry::{jwt_auth, ModuleRegistry};
use cb_signer::types::{Jwt, ModuleId};

fn module(name: &str) -> ModuleId {
    ModuleId(name.to_string())
}

fn jwt(token: &str) -> Jwt {
    Jwt(token.to_string())
}

#[test]
fn new_registry_is_empty() {
    let registry = ModuleRegistry::new();
    assert!(registry.is_empty());
    assert_eq!(registry.module_of(&jwt("token")), None);
}

#[test]
fn registered_module_is_found_by_its_token() {
    let mut registry = ModuleRegistry::new();
    registry.register(module("mev"), jwt("token-a"));
    registry.register(module("preconf"), jwt("token-b"));
    assert!(!registry.is_empty());
    assert_eq!(registry.module_of(&jwt("token-a")), Some(module("mev")));
    assert_eq!(registry.module_of(&jwt("token-b")), Some(module("preconf")));
    assert_eq!(registry.module_of(&jwt("token-c")), None);
    assert_eq!(registry.module_of(&jwt("mev")), None);
}

#[test]
fn a_new_token_replaces_the_old_one_of_a_module() {
    let mut registry = ModuleRegistry::new();
    registry.register(module("mev"), jwt("old"));
    registry.register(module("mev"), jwt("new"));
    assert_eq!(registry.module_of(&jwt("old")), None);
    assert_eq!(registry.module_of(&jwt("new")), Some(module("mev")));
}

#[test]
fn a_token_names_one_module_only() {
    let mut registry = ModuleRegistry::new();
    registry.register(module("first"), jwt("shared"));
    registry.register(module("other"), jwt("kept"));
    registry.register(module("second"), jwt("shared"));
    assert_eq!(registry.module_of(&jwt("shared")), Some(module("second")));
    assert_eq!(registry.module_of(&jwt("kept")), Some(module("other")));
}

#[test]
fn inserting_can_shrink_the_registry() {
    let mut registry = ModuleRegistry::new();
    registry.register(module("a"), jwt("1"));
    registry.register(module("b"), jwt("2"));
    registry.register(module("a"), jwt("2"));
    assert_eq!(registry.module_of(&jwt("1")), None);
    assert_eq!(registry.module_of(&jwt("2")), Some(module("a")));
}

#[test]
fn jwt_auth_resolves_a_known_token() {
    let mut registry = ModuleRegistry::new();
    registry.register(module("mev"), jwt("token"));
    assert_eq!(jwt_auth(&registry, Some(&jwt("token"))), Ok(module("mev")));
}

#[test]
fn jwt_auth_refuses_an_unknown_token() {
    let mut registry = ModuleRegistry::new();
    registry.register(module("mev"), jwt("token"));
    assert_eq!(jwt_auth(&registry, Some(&jwt("nekot"))), Err(SignerModuleError::Unauthorized));
    assert_eq!(jwt_auth(&registry, Some(&jwt(""))), Err(SignerModuleError::Unauthorized));
}

#[test]
fn jwt_auth_refuses_a_missing_token() {
    let mut registry = ModuleRegistry::new();
    registry.register(module("mev"), jwt("token"));
    assert_eq!(jwt_auth(&registry, None), Err(SignerModuleError::Unauthorized));
    assert_eq!(jwt_auth(&ModuleRegistry::new(), None), Err(SignerModuleError::Unauthorized));
}
