//! The state of the variable policy engine: the policies that were
//! registered, and whether the engine is locked or disabled.

use crate::base::{Guid, Status};
use crate::variable_policy::{
    holds_duplicate, parse_policy, raw_policies, set_variable_verdict, SetVariableVerdict,
    VariablePolicyEntry, VariablePolicyList, VariablePolicyModel, VerdictModel,
};
use vstd::prelude::*;

verus! {

/// The state of the variable policy engine.
#[derive(Debug)]
pub struct VariablePolicyState {
    policy_list: VariablePolicyList,
    interface_locked: bool,
    protection_disabled: bool,
}

/// What a [`VariablePolicyState`] holds, as a mathematical value.
pub struct StateModel {
    /// The policies that were registered, in their order.
    pub policies: Seq<VariablePolicyModel>,
    /// No policy can be registered any more, and the engine cannot be
    /// disabled.
    pub interface_locked: bool,
    /// The policies are not enforced.
    pub protection_disabled: bool,
}

impl View for VariablePolicyState {
    type V = StateModel;

    closed spec fn view(&self) -> StateModel {
        StateModel {
            policies: self.policy_list@,
            interface_locked: self.interface_locked,
            protection_disabled: self.protection_disabled,
        }
    }
}

/// The state of an engine that may not have been started yet.
pub open spec fn engine_view(engine: Option<VariablePolicyState>) -> Option<StateModel> {
    match engine {
        Some(state) => Some(state@),
        None => None,
    }
}

/// The status of the registration of the policy with the raw form `raw`,
/// and the policies after it.
///
/// A locked engine is write protected. A raw form that does not parse is
/// an invalid parameter. A policy for the very variables of a policy of the
/// engine has already been started. Any other policy is added.
pub open spec fn registration(state: StateModel, raw: Seq<u8>) -> (Status, Seq<VariablePolicyModel>) {
    if state.interface_locked {
        (Status::WriteProtected, state.policies)
    } else {
        match parse_policy(raw) {
            Err(e) => (e, state.policies),
            Ok(policy) => if holds_duplicate(state.policies, policy) {
                (Status::AlreadyStarted, state.policies)
            } else {
                (Status::Success, state.policies.push(policy))
            },
        }
    }
}

/// The number of bytes of the raw form of the policies, cut to 32 bits.
pub open spec fn dump_size(policies: Seq<VariablePolicyModel>) -> u32 {
    (raw_policies(policies, policies.len() as int).len() % 0x1_0000_0000) as u32
}

impl VariablePolicyState {
    /// The state of an engine that was just started: without policies,
    /// neither locked nor disabled.
    pub fn new() -> (state: Self)
        ensures
            state@.policies.len() == 0,
            !state@.interface_locked,
            !state@.protection_disabled,
    {
        VariablePolicyState {
            policy_list: VariablePolicyList::new(),
            interface_locked: false,
            protection_disabled: false,
        }
    }

    /// Registers the policy with the raw form at the start of `raw`.
    pub fn register_policy(&mut self, raw: &[u8]) -> (status: Status)
        ensures
            status == registration(old(self)@, raw@).0,
            final(self)@.policies == registration(old(self)@, raw@).1,
            final(self)@.interface_locked == old(self)@.interface_locked,
            final(self)@.protection_disabled == old(self)@.protection_disabled,
    {
        if self.interface_locked {
            return Status::WriteProtected;
        }
        // First, we need to turn the raw data into an entry.
        match VariablePolicyEntry::from_raw(raw) {
            Ok(new_policy) => {
                if self.policy_list.add_policy(new_policy) {
                    Status::Success
                } else {
                    Status::AlreadyStarted
                }
            },
            Err(err_status) => err_status,
        }
    }

    /// Tells what decides whether the variable may be written with
    /// `data_size` bytes of data and the given attributes. A disabled
    /// engine allows every write.
    pub fn check_set_variable(
        &self,
        variable_name: &String,
        vendor_guid: &Guid,
        attributes: u32,
        data_size: usize,
    ) -> (verdict: SetVariableVerdict<'_>)
        ensures
            verdict@ == if self@.protection_disabled {
                VerdictModel::Decided(true)
            } else {
                set_variable_verdict(
                    self@.policies,
                    variable_name@,
                    *vendor_guid,
                    attributes,
                    data_size as int,
                )
            },
    {
        if self.protection_disabled {
            return SetVariableVerdict::Decided(true);
        }
        self.policy_list.check_set_variable(variable_name, vendor_guid, attributes, data_size)
    }

    /// Disables the enforcement of the policies. An engine that is disabled
    /// has already been started; a locked engine is write protected.
    pub fn disable(&mut self) -> (status: Status)
        ensures
            status == if old(self)@.protection_disabled {
                Status::AlreadyStarted
            } else if old(self)@.interface_locked {
                Status::WriteProtected
            } else {
                Status::Success
            },
            final(self)@.protection_disabled == (old(self)@.protection_disabled || status
                == Status::Success),
            final(self)@.interface_locked == old(self)@.interface_locked,
            final(self)@.policies == old(self)@.policies,
    {
        if self.protection_disabled {
            return Status::AlreadyStarted;
        }
        if self.interface_locked {
            return Status::WriteProtected;
        }
        self.protection_disabled = true;
        Status::Success
    }

    /// Writes the policies in their raw form for a caller that has room for
    /// `capacity` bytes. Where the room does not suffice, the buffer is too
    /// small and nothing is written. With the status comes the size of the
    /// raw form, cut to 32 bits.
    pub fn dump(&self, capacity: u32) -> (r: (Status, u32, Vec<u8>))
        ensures
            r.1 == dump_size(self@.policies),
            capacity < raw_policies(self@.policies, self@.policies.len() as int).len() ==> r.0
                == Status::BufferTooSmall && r.2@.len() == 0,
            capacity >= raw_policies(self@.policies, self@.policies.len() as int).len() ==> r.0
                == Status::Success && r.2@ == raw_policies(
                self@.policies,
                self@.policies.len() as int,
            ),
    {
        // First, we need to serialize the policy list.
        let policy_buffer = self.policy_list.to_raw();
        let size: u32 = (policy_buffer.len() as u64 % 0x1_0000_0000) as u32;
        if (capacity as usize) < policy_buffer.len() {
            (Status::BufferTooSmall, size, Vec::new())
        } else {
            (Status::Success, size, policy_buffer)
        }
    }

    /// Tells whether the policies are enforced.
    pub fn is_enabled(&self) -> (enabled: bool)
        ensures
            enabled == !self@.protection_disabled,
    {
        !self.protection_disabled
    }

    /// Locks the engine. A locked engine is write protected.
    pub fn lock(&mut self) -> (status: Status)
        ensures
            status == if old(self)@.interface_locked {
                Status::WriteProtected
            } else {
                Status::Success
            },
            final(self)@.interface_locked,
            final(self)@.protection_disabled == old(self)@.protection_disabled,
            final(self)@.policies == old(self)@.policies,
    {
        if self.interface_locked {
            Status::WriteProtected
        } else {
            self.interface_locked = true;
            Status::Success
        }
    }

    /// Tells whether the engine is locked.
    pub fn is_interface_locked(&self) -> (locked: bool)
        ensures
            locked == self@.interface_locked,
    {
        self.interface_locked
    }
}

/// Starts the engine: an engine that has been started has already been
/// started and keeps its state.
pub fn init_engine(engine: &mut Option<VariablePolicyState>) -> (status: Status)
    ensures
        status == if *old(engine) is Some {
            Status::AlreadyStarted
        } else {
            Status::Success
        },
        *final(engine) is Some,
        *old(engine) is Some ==> *final(engine) == *old(engine),
        *old(engine) is None ==> {
            &&& (*final(engine))->0@.policies.len() == 0
            &&& !(*final(engine))->0@.interface_locked
            &&& !(*final(engine))->0@.protection_disabled
        },
{
    if engine.is_some() {
        Status::AlreadyStarted
    } else {
        *engine = Some(VariablePolicyState::new());
        Status::Success
    }
}

/// Stops the engine and forgets its state: an engine that has not been
/// started is not ready.
pub fn deinit_engine(engine: &mut Option<VariablePolicyState>) -> (status: Status)
    ensures
        status == if *old(engine) is Some {
            Status::Success
        } else {
            Status::NotReady
        },
        *final(engine) is None,
{
    if engine.is_some() {
        *engine = None;
        Status::Success
    } else {
        Status::NotReady
    }
}

} // verus!
