use mu_pi::base::{Guid, Status};
use mu_pi::variable_policy::state::{deinit_engine, init_engine, VariablePolicyState};
use mu_pi::variable_policy::{LockPolicyType, SetVariableVerdict, VarStateLock, VariablePolicyEntry};

fn namespace() -> Guid {
    Guid::from_fields(0xf955ba2d, 0x4a2c, 0x480c, 0xbf, 0xd1, &[0x3c, 0xc5, 0x22, 0x61, 0x5, 0x92])
}

fn raw_policy(name: &str, max_size: u32, lock: LockPolicyType) -> Vec<u8> {
    VariablePolicyEntry::new(0, max_size, 0, 0, lock, namespace(), Some(String::from(name))).to_raw()
}

#[test]
fn new_engine_is_enabled_and_unlocked() {
    let state = VariablePolicyState::new();
    assert!(state.is_enabled());
    assert!(!state.is_interface_locked());
    assert_eq!(state.dump(0), (Status::Success, 0, vec![]));
}

#[test]
fn policies_are_registered_once() {
    let mut state = VariablePolicyState::new();
    let first = raw_policy("First", 8, LockPolicyType::NoLock);
    let second = raw_policy("Second", 8, LockPolicyType::LockNow);
    assert_eq!(state.register_policy(&first), Status::Success);
    assert_eq!(state.register_policy(&second), Status::Success);
    // a policy for the same variable, with other constraints
    assert_eq!(state.register_policy(&raw_policy("First", 16, LockPolicyType::LockNow)), Status::AlreadyStarted);
    // a raw form that does not parse
    assert_eq!(state.register_policy(&first[..10]), Status::InvalidParameter);
    assert_eq!(state.register_policy(&raw_policy("First", 0, LockPolicyType::NoLock)), Status::InvalidParameter);

    let mut expected = first.clone();
    expected.extend_from_slice(&second);
    assert_eq!(state.dump(1000), (Status::Success, expected.len() as u32, expected));
}

#[test]
fn dump_needs_room_for_the_policies() {
    let mut state = VariablePolicyState::new();
    let first = raw_policy("First", 8, LockPolicyType::NoLock);
    assert_eq!(state.register_policy(&first), Status::Success);
    let size = first.len() as u32;
    assert_eq!(size, 44 + 12);
    assert_eq!(state.dump(0), (Status::BufferTooSmall, size, vec![]));
    assert_eq!(state.dump(size - 1), (Status::BufferTooSmall, size, vec![]));
    assert_eq!(state.dump(size), (Status::Success, size, first.clone()));
    assert_eq!(state.dump(u32::MAX), (Status::Success, size, first));
}

#[test]
fn locked_engine_is_write_protected() {
    let mut state = VariablePolicyState::new();
    assert_eq!(state.register_policy(&raw_policy("First", 8, LockPolicyType::NoLock)), Status::Success);
    assert_eq!(state.lock(), Status::Success);
    assert!(state.is_interface_locked());
    assert_eq!(state.lock(), Status::WriteProtected);
    assert!(state.is_interface_locked());
    assert_eq!(state.register_policy(&raw_policy("Second", 8, LockPolicyType::NoLock)), Status::WriteProtected);
    // write protection comes before the look at the raw form
    assert_eq!(state.register_policy(&[]), Status::WriteProtected);
    assert_eq!(state.disable(), Status::WriteProtected);
    assert!(state.is_enabled());
    assert_eq!(state.dump(1000).2, raw_policy("First", 8, LockPolicyType::NoLock));
}

#[test]
fn disabled_engine_allows_every_write() {
    let mut state = VariablePolicyState::new();
    assert_eq!(state.register_policy(&raw_policy("First", 8, LockPolicyType::LockNow)), Status::Success);
    let name = String::from("First");
    assert!(matches!(state.check_set_variable(&name, &namespace(), 0, 4), SetVariableVerdict::Decided(false)));
    assert_eq!(state.disable(), Status::Success);
    assert!(!state.is_enabled());
    assert!(matches!(state.check_set_variable(&name, &namespace(), 0, 4), SetVariableVerdict::Decided(true)));
    assert!(matches!(state.check_set_variable(&name, &namespace(), 0, 400), SetVariableVerdict::Decided(true)));
    assert_eq!(state.disable(), Status::AlreadyStarted);
    assert!(!state.is_enabled());
    // a disabled engine can still be locked, and is then disabled for good
    assert_eq!(state.lock(), Status::Success);
    assert_eq!(state.disable(), Status::AlreadyStarted);
    assert!(!state.is_enabled());
}

#[test]
fn enabled_engine_asks_the_policies() {
    let mut state = VariablePolicyState::new();
    assert_eq!(state.register_policy(&raw_policy("Created", 8, LockPolicyType::LockOnCreate)), Status::Success);
    let lock = LockPolicyType::LockOnVarState(VarStateLock { namespace: namespace(), name: String::from("State"), value: 1 });
    assert_eq!(state.register_policy(&raw_policy("Locked", 8, lock)), Status::Success);
    assert!(matches!(
        state.check_set_variable(&String::from("Created"), &namespace(), 0, 4),
        SetVariableVerdict::IfNotFound
    ));
    match state.check_set_variable(&String::from("Locked"), &namespace(), 0, 4) {
        SetVariableVerdict::IfNotLockedBy(var_state) => {
            assert_eq!(var_state.name, "State");
            assert_eq!(var_state.value, 1);
        }
        _ => panic!("expected the state variable to decide"),
    }
    assert!(matches!(
        state.check_set_variable(&String::from("Free"), &namespace(), 0, 4),
        SetVariableVerdict::Decided(true)
    ));
}

#[test]
fn engine_is_started_and_stopped() {
    let mut engine: Option<VariablePolicyState> = None;
    assert_eq!(deinit_engine(&mut engine), Status::NotReady);
    assert!(engine.is_none());
    assert_eq!(init_engine(&mut engine), Status::Success);
    assert!(engine.is_some());
    assert_eq!(engine.as_mut().unwrap().lock(), Status::Success);
    // a second start keeps the state
    assert_eq!(init_engine(&mut engine), Status::AlreadyStarted);
    assert!(engine.as_ref().unwrap().is_interface_locked());
    assert_eq!(deinit_engine(&mut engine), Status::Success);
    assert!(engine.is_none());
    // a new start forgets the lock
    assert_eq!(init_engine(&mut engine), Status::Success);
    assert!(!engine.as_ref().unwrap().is_interface_locked());
}
