//! Variable policies: which UEFI variables may be written, and how.
//!
//! A policy names the variables that it governs by a namespace and, within
//! the namespace, by a name in which `#` stands for any decimal digit; a
//! policy without a name governs the whole namespace. Where several policies
//! match a variable, the one with the fewest wildcards decides.

pub mod raw_lock_policy_type;
pub mod state;

use crate::base::{Guid, Status};
use crate::bytes::{le_u128, le_u16, le_u32, read_u16, read_u32};
use vstd::prelude::*;

verus! {

/// What locks the variables of a policy against writes.
#[derive(Debug)]
pub enum LockPolicyType {
    /// Nothing does.
    NoLock,
    /// They are locked from the start.
    LockNow,
    /// A variable is locked once it exists.
    LockOnCreate,
    /// They are locked while a state variable holds a value.
    LockOnVarState(VarStateLock),
}

/// The state variable of a lock, and the value at which it locks.
#[derive(Debug)]
pub struct VarStateLock {
    pub namespace: Guid,
    pub name: String,
    pub value: u8,
}

/// A variable policy.
#[derive(Debug)]
pub struct VariablePolicyEntry {
    pub min_size: u32,
    pub max_size: u32,
    pub attr_must_have: u32,
    pub attr_cant_have: u32,
    pub lock_policy_type: LockPolicyType,
    pub namespace: Guid,
    pub name: Option<String>,
}

/// A list of variable policies, in the order in which they were added.
#[derive(Debug)]
pub struct VariablePolicyList {
    inner: Vec<VariablePolicyEntry>,
}

/// What a [`LockPolicyType`] holds, as a mathematical value.
pub enum LockPolicyModel {
    NoLock,
    LockNow,
    LockOnCreate,
    LockOnVarState { namespace: Guid, name: Seq<char>, value: u8 },
}

/// What a [`VariablePolicyEntry`] holds, as a mathematical value.
pub struct VariablePolicyModel {
    pub min_size: u32,
    pub max_size: u32,
    pub attr_must_have: u32,
    pub attr_cant_have: u32,
    pub lock_policy_type: LockPolicyModel,
    pub namespace: Guid,
    pub name: Option<Seq<char>>,
}

impl View for LockPolicyType {
    type V = LockPolicyModel;

    open spec fn view(&self) -> LockPolicyModel {
        match self {
            LockPolicyType::NoLock => LockPolicyModel::NoLock,
            LockPolicyType::LockNow => LockPolicyModel::LockNow,
            LockPolicyType::LockOnCreate => LockPolicyModel::LockOnCreate,
            LockPolicyType::LockOnVarState(var_state) => LockPolicyModel::LockOnVarState {
                namespace: var_state.namespace,
                name: var_state.name@,
                value: var_state.value,
            },
        }
    }
}

impl View for VariablePolicyEntry {
    type V = VariablePolicyModel;

    open spec fn view(&self) -> VariablePolicyModel {
        VariablePolicyModel {
            min_size: self.min_size,
            max_size: self.max_size,
            attr_must_have: self.attr_must_have,
            attr_cant_have: self.attr_cant_have,
            lock_policy_type: self.lock_policy_type@,
            namespace: self.namespace,
            name: name_view(self.name),
        }
    }
}

impl View for VariablePolicyList {
    type V = Seq<VariablePolicyModel>;

    open spec fn view(&self) -> Seq<VariablePolicyModel> {
        self.entries().map_values(|entry: VariablePolicyEntry| entry@)
    }
}

/// The revision of the raw form of a policy that the crate reads and writes.
pub const RAW_ENTRY_REVISION: u32 = 0x0001_0000;

/// The minimum size of a policy that sets none.
pub const NO_MIN_SIZE: u32 = 0;

/// The maximum size of a policy that sets none.
pub const NO_MAX_SIZE: u32 = 0xffff_ffff;

/// The required attributes of a policy that requires none.
pub const NO_MUST_ATTR: u32 = 0;

/// The forbidden attributes of a policy that forbids none.
pub const NO_CANT_ATTR: u32 = 0;

/// The priority of a match without wildcards: the highest.
pub const MATCH_PRIORITY_EXACT: u8 = 0;

/// The highest priority.
pub const MATCH_PRIORITY_MAX: u8 = MATCH_PRIORITY_EXACT;

/// The lowest priority: that of a policy for a whole namespace.
pub const MATCH_PRIORITY_MIN: u8 = 0xff;

/// The wildcard of a policy name, which stands for any decimal digit.
pub const WILDCARD: char = '#';

/// The character is a decimal digit.
pub open spec fn is_digit(c: char) -> bool {
    0x30 <= c as u32 <= 0x39
}

/// A character of a policy name matches a character of a variable name: the
/// wildcard matches a digit, any other character matches itself.
pub open spec fn char_matches(pattern: char, c: char) -> bool {
    if pattern == WILDCARD {
        is_digit(c)
    } else {
        pattern == c
    }
}

/// A policy name matches a variable name: they have the same length, and
/// each character of the one matches its character of the other.
pub open spec fn name_matches(pattern: Seq<char>, name: Seq<char>) -> bool {
    pattern.len() == name.len() && forall|i: int|
        0 <= i < pattern.len() ==> char_matches(#[trigger] pattern[i], name[i])
}

/// The number of wildcards among the first `n` characters of a policy name.
pub open spec fn wildcard_count(pattern: Seq<char>, n: int) -> nat
    decreases n,
{
    if n <= 0 {
        0
    } else if pattern[n - 1] == WILDCARD {
        wildcard_count(pattern, n - 1) + 1
    } else {
        wildcard_count(pattern, n - 1)
    }
}

/// The priority of a match with a policy name: the number of its wildcards,
/// and the lowest priority where they are more than that.
pub open spec fn name_priority(pattern: Seq<char>) -> u8 {
    if wildcard_count(pattern, pattern.len() as int) >= MATCH_PRIORITY_MIN {
        MATCH_PRIORITY_MIN
    } else {
        wildcard_count(pattern, pattern.len() as int) as u8
    }
}

/// The characters of an optional name.
pub open spec fn name_view(name: Option<String>) -> Option<Seq<char>> {
    match name {
        Some(name) => Some(name@),
        None => None,
    }
}

/// The characters of an optional borrowed name.
pub open spec fn name_ref_view(name: Option<&String>) -> Option<Seq<char>> {
    match name {
        Some(name) => Some(name@),
        None => None,
    }
}

impl VariablePolicyModel {
    /// The priority with which the policy matches a variable, if it does.
    ///
    /// A policy matches the variables of its namespace only. Without a
    /// variable name, the match is with the namespace: a policy for the
    /// whole namespace matches exactly, and no other policy matches. With a
    /// variable name, a policy for the whole namespace matches with the
    /// lowest priority, and a policy with a name matches where its name
    /// does, with the priority of the name.
    pub open spec fn eval_match(self, variable_name: Option<Seq<char>>, vendor_guid: Guid) -> Option<
        u8,
    > {
        if self.namespace != vendor_guid {
            None
        } else {
            match (variable_name, self.name) {
                (None, None) => Some(MATCH_PRIORITY_EXACT),
                (None, Some(_)) => None,
                (Some(_), None) => Some(MATCH_PRIORITY_MIN),
                (Some(variable_name), Some(name)) => if name_matches(name, variable_name) {
                    Some(name_priority(name))
                } else {
                    None
                },
            }
        }
    }

    /// The policy is one that can be enforced: a lock on a state variable
    /// names the variable, the maximum size is not zero, and the name of
    /// the policy, where it has one, is not empty and has no more wildcards
    /// than the lowest priority counts.
    pub open spec fn is_valid(self) -> bool {
        &&& match self.lock_policy_type {
            LockPolicyModel::LockOnVarState { name, .. } => name.len() >= 1,
            _ => true,
        }
        &&& self.max_size != 0
        &&& match self.name {
            Some(name) => name.len() >= 1 && wildcard_count(name, name.len() as int)
                <= MATCH_PRIORITY_MIN,
            None => true,
        }
    }
}

impl VariablePolicyEntry {
    /// A policy with the given constraints for the variables of `namespace`
    /// that `name` matches, or for the whole namespace where `name` is
    /// `None`.
    pub fn new(
        min_size: u32,
        max_size: u32,
        attr_must_have: u32,
        attr_cant_have: u32,
        lock_policy_type: LockPolicyType,
        namespace: Guid,
        name: Option<String>,
    ) -> (entry: Self)
        ensures
            entry.min_size == min_size,
            entry.max_size == max_size,
            entry.attr_must_have == attr_must_have,
            entry.attr_cant_have == attr_cant_have,
            entry.lock_policy_type == lock_policy_type,
            entry.namespace == namespace,
            entry.name == name,
    {
        VariablePolicyEntry {
            min_size,
            max_size,
            attr_must_have,
            attr_cant_have,
            lock_policy_type,
            namespace,
            name,
        }
    }

    /// Tells whether the policy is one that can be enforced.
    pub fn is_valid(&self) -> (r: bool)
        ensures
            r == self@.is_valid(),
    {
        // If the lock type is StateVar, string must not be empty.
        if let LockPolicyType::LockOnVarState(var_state) = &self.lock_policy_type {
            if var_state.name.as_str().unicode_len() < 1 {
                return false;
            }
        }
        // Check for a valid MAX value.
        if self.max_size == 0 {
            return false;
        }
        // If a var_name is provided, validate it.
        if let Some(var_name) = &self.name {
            let chars = chars_of(var_name.as_str());
            // Make sure the string is at least one character.
            if chars.len() < 1 {
                return false;
            }
            // Make sure there aren't too many wildcards.
            if count_wildcards(&chars) > MATCH_PRIORITY_MIN as usize {
                return false;
            }
        }
        true
    }

    /// Writes the lock of the policy in its raw form, and tells the number
    /// that stands for its type.
    fn lock_to_raw(&self) -> (r: (u8, Vec<u8>))
        ensures
            r.0 == raw_lock_type(self@.lock_policy_type),
            r.1@ == raw_lock(self@.lock_policy_type),
    {
        let mut lock: Vec<u8> = Vec::new();
        let lock_type: u8 = match &self.lock_policy_type {
            LockPolicyType::NoLock => raw_lock_policy_type::NO_LOCK,
            LockPolicyType::LockNow => raw_lock_policy_type::LOCK_NOW,
            LockPolicyType::LockOnCreate => raw_lock_policy_type::LOCK_ON_CREATE,
            LockPolicyType::LockOnVarState(var_state) => {
                push_le(&mut lock, var_state.namespace.value, 16);
                lock.push(var_state.value);
                lock.push(0);
                push_name(&mut lock, var_state.name.as_str());
                raw_lock_policy_type::LOCK_ON_VAR_STATE
            },
        };
        assert(lock@ =~= raw_lock(self@.lock_policy_type));
        (lock_type, lock)
    }

    /// Writes the name of the policy in its raw form.
    fn name_to_raw(&self) -> (name: Vec<u8>)
        ensures
            name@ == raw_policy_name(self@.name),
    {
        let mut name: Vec<u8> = Vec::new();
        if let Some(var_name) = &self.name {
            push_name(&mut name, var_name.as_str());
        }
        assert(name@ =~= raw_policy_name(self@.name));
        name
    }

    /// Writes the fixed part of the raw form of the policy, with the given
    /// size, offset of the name and lock type.
    fn header_to_raw(&self, size: u128, name_offset: u128, lock_type: u8) -> (header: Vec<u8>)
        ensures
            header@ == le_bytes(RAW_ENTRY_REVISION as int, 4) + le_bytes(size as int, 2) + le_bytes(
                name_offset as int,
                2,
            ) + le_bytes(self@.namespace.value as int, 16) + le_bytes(self@.min_size as int, 4)
                + le_bytes(self@.max_size as int, 4) + le_bytes(self@.attr_must_have as int, 4)
                + le_bytes(self@.attr_cant_have as int, 4) + seq![lock_type, 0u8, 0u8, 0u8],
    {
        let mut header: Vec<u8> = Vec::new();
        push_le(&mut header, RAW_ENTRY_REVISION as u128, 4);
        push_le(&mut header, size, 2);
        push_le(&mut header, name_offset, 2);
        push_le(&mut header, self.namespace.value, 16);
        push_le(&mut header, self.min_size as u128, 4);
        push_le(&mut header, self.max_size as u128, 4);
        push_le(&mut header, self.attr_must_have as u128, 4);
        push_le(&mut header, self.attr_cant_have as u128, 4);
        let ghost fields = header@;
        header.push(lock_type);
        header.push(0);
        header.push(0);
        header.push(0);
        assert(header@ =~= fields + seq![lock_type, 0u8, 0u8, 0u8]);
        header
    }

    /// Writes the policy in its raw form.
    pub fn to_raw(&self) -> (raw: Vec<u8>)
        ensures
            raw@ == raw_policy(self@),
    {
        // The lock and the name come first, for the sake of their sizes.
        let (lock_type, mut lock) = self.lock_to_raw();
        let mut name = self.name_to_raw();
        let name_offset: u128 = RAW_VARIABLE_POLICY_ENTRY_SIZE as u128 + lock.len() as u128;
        let buffer_size: u128 = name_offset + name.len() as u128;
        // Start by setting all of the header data.
        let mut raw_buffer = self.header_to_raw(
            buffer_size % 0x1_0000,
            name_offset % 0x1_0000,
            lock_type,
        );
        // Now the VarStateLock, if set, and the name string, if provided.
        raw_buffer.append(&mut lock);
        raw_buffer.append(&mut name);
        raw_buffer
    }

    /// Reads a policy from its raw form at the start of `buffer`.
    ///
    /// Whatever is wrong with the raw form, it is an invalid parameter.
    pub fn from_raw(buffer: &[u8]) -> (r: Result<VariablePolicyEntry, Status>)
        ensures
            policy_result_view(r) == parse_policy(buffer@),
    {
        if buffer.len() < RAW_VARIABLE_POLICY_ENTRY_SIZE {
            return Err(Status::InvalidParameter);
        }
        let header = read_raw_header(buffer);
        let size = header.size as usize;
        let offset_to_name = header.offset_to_name as usize;
        // Sanitize some quick values.
        if header.version != RAW_ENTRY_REVISION || size < RAW_VARIABLE_POLICY_ENTRY_SIZE || size
            > buffer.len() || size < offset_to_name {
            return Err(Status::InvalidParameter);
        }
        // Check for the valid list of lock policies.
        if !raw_lock_policy_type::is_valid(header.lock_policy_type) {
            return Err(Status::InvalidParameter);
        }
        let lock_policy_type = if header.lock_policy_type == raw_lock_policy_type::NO_LOCK {
            LockPolicyType::NoLock
        } else if header.lock_policy_type == raw_lock_policy_type::LOCK_NOW {
            LockPolicyType::LockNow
        } else if header.lock_policy_type == raw_lock_policy_type::LOCK_ON_CREATE {
            LockPolicyType::LockOnCreate
        } else {
            // If the policy type is VARIABLE_POLICY_TYPE_LOCK_ON_VAR_STATE, make sure that the matching state variable Name
            // terminates before the OffsetToName for the matching policy variable Name.
            let state_name_start = RAW_VARIABLE_POLICY_ENTRY_SIZE + RAW_VAR_STATE_LOCK_SIZE;
            let state_name = match read_string(buffer, state_name_start, offset_to_name) {
                Some(state_name) => state_name,
                None => {
                    return Err(Status::InvalidParameter);
                },
            };
            LockPolicyType::LockOnVarState(
                VarStateLock {
                    namespace: Guid::read(buffer, RAW_VARIABLE_POLICY_ENTRY_SIZE),
                    value: buffer[RAW_VARIABLE_POLICY_ENTRY_SIZE + 16],
                    name: decode_utf16_lossy(&state_name),
                },
            )
        };
        // Make sure that OffsetToName is exactly sizeof(VARIABLE_POLICY_ENTRY) if not VarState.
        if header.lock_policy_type != raw_lock_policy_type::LOCK_ON_VAR_STATE && offset_to_name
            != RAW_VARIABLE_POLICY_ENTRY_SIZE {
            return Err(Status::InvalidParameter);
        }
        // Check to make sure that the name has a terminating character
        // before the end of the structure.
        let name = if size != offset_to_name {
            match read_string(buffer, offset_to_name, size) {
                Some(name) => Some(decode_utf16_lossy(&name)),
                None => {
                    return Err(Status::InvalidParameter);
                },
            }
        } else {
            None
        };
        let new_policy = VariablePolicyEntry {
            min_size: header.min_size,
            max_size: header.max_size,
            attr_must_have: header.attr_must_have,
            attr_cant_have: header.attr_cant_have,
            lock_policy_type,
            namespace: header.namespace,
            name,
        };
        if new_policy.is_valid() {
            Ok(new_policy)
        } else {
            Err(Status::InvalidParameter)
        }
    }

    /// Tells whether the policy matches a variable, and with which priority.
    /// The lower the number, the higher the priority.
    pub fn eval_match(&self, variable_name_option: Option<&String>, vendor_guid: &Guid) -> (r:
        Option<u8>)
        ensures
            r == self@.eval_match(name_ref_view(variable_name_option), *vendor_guid),
    {
        // If the namespaces don't match, we're done here.
        if self.namespace != *vendor_guid {
            return None;
        }
        // If the variable_name_option is None, there are only two options...
        // Either it's a perfect match agains a namespace-wildcard policy, or it's a complete failure.
        let variable_name = match variable_name_option {
            None => {
                return if self.name.is_none() {
                    Some(MATCH_PRIORITY_EXACT)
                } else {
                    None
                };
            },
            Some(variable_name) => variable_name,
        };
        // If there is a string, process further. Otherwise, we're done here.
        let name_string = match &self.name {
            None => {
                return Some(MATCH_PRIORITY_MIN);
            },
            Some(name_string) => name_string,
        };
        let left_chars = chars_of(name_string.as_str());
        let right_chars = chars_of(variable_name.as_str());
        if left_chars.len() != right_chars.len() {
            return None;
        }
        // We can now assume they match and keep going until they don't.
        let mut match_priority: u8 = MATCH_PRIORITY_EXACT;
        let mut i: usize = 0;
        while i < left_chars.len()
            invariant
                i <= left_chars.len() == right_chars.len(),
                self.namespace == *vendor_guid,
                self.name == Some(*name_string),
                variable_name_option == Some(variable_name),
                left_chars@ == name_string@,
                right_chars@ == variable_name@,
                forall|j: int| 0 <= j < i ==> char_matches(#[trigger] left_chars@[j], right_chars@[j]),
                match_priority == if wildcard_count(left_chars@, i as int) >= MATCH_PRIORITY_MIN {
                    MATCH_PRIORITY_MIN
                } else {
                    wildcard_count(left_chars@, i as int) as u8
                },
            decreases left_chars.len() - i,
        {
            let left_char = left_chars[i];
            let right_char = right_chars[i];
            // If they're not equal, need to check for '#' and digits.
            if left_char != right_char || left_char == WILDCARD {
                // If this is a valid wildcard, increment the match priority.
                if left_char == WILDCARD && is_ascii_digit(right_char) {
                    if match_priority < MATCH_PRIORITY_MIN {
                        match_priority = match_priority + 1;
                    }
                } else {
                    // Otherwise, we've failed to match.
                    assert(!char_matches(name_string@[i as int], variable_name@[i as int]));

                    return None;
                }
            }
            i = i + 1;
        }
        Some(match_priority)
    }
}

/// The number of bytes of the fixed part of the raw form of a policy.
pub const RAW_VARIABLE_POLICY_ENTRY_SIZE: usize = 44;

/// The number of bytes of the fixed part of the raw form of a lock on a
/// state variable.
pub const RAW_VAR_STATE_LOCK_SIZE: usize = 18;

/// The fixed part of the raw form of a policy. Behind it come the lock on a
/// state variable, where the policy has one, and the name of the policy.
#[derive(Debug, Clone, Copy)]
pub struct RawVariablePolicyEntry {
    pub version: u32,
    pub size: u16,
    pub offset_to_name: u16,
    pub namespace: Guid,
    pub min_size: u32,
    pub max_size: u32,
    pub attr_must_have: u32,
    pub attr_cant_have: u32,
    pub lock_policy_type: u8,
    pub padding_3: [u8; 3],
}

/// The `n` bytes that spell a number, least significant byte first.
pub open spec fn le_bytes(value: int, n: nat) -> Seq<u8>
    decreases n,
{
    if n == 0 {
        Seq::empty()
    } else {
        seq![(value % 0x100) as u8] + le_bytes(value / 0x100, (n - 1) as nat)
    }
}

/// The UTF-16 code units that spell a character: the character itself, or
/// the two surrogates of a character beyond the basic plane.
pub open spec fn char_units(c: char) -> Seq<u16> {
    if (c as u32) < 0x1_0000 {
        seq![c as u32 as u16]
    } else {
        seq![
            (0xD800 + (c as u32 - 0x1_0000) / 0x400) as u16,
            (0xDC00 + (c as u32 - 0x1_0000) % 0x400) as u16,
        ]
    }
}

/// The raw form of the first `n` characters of a name: their UTF-16 code
/// units, each least significant byte first.
pub open spec fn name_bytes(name: Seq<char>, n: int) -> Seq<u8>
    decreases n,
{
    if n <= 0 {
        Seq::empty()
    } else {
        let units = char_units(name[n - 1]);
        let head = name_bytes(name, n - 1) + le_bytes(units[0] as int, 2);
        if units.len() == 1 {
            head
        } else {
            head + le_bytes(units[1] as int, 2)
        }
    }
}

/// The raw form of a name: its characters and the terminating zero.
pub open spec fn raw_name(name: Seq<char>) -> Seq<u8> {
    name_bytes(name, name.len() as int) + seq![0u8, 0u8]
}

/// The number that stands for a lock policy type in the raw form.
pub open spec fn raw_lock_type(lock: LockPolicyModel) -> u8 {
    match lock {
        LockPolicyModel::NoLock => raw_lock_policy_type::NO_LOCK,
        LockPolicyModel::LockNow => raw_lock_policy_type::LOCK_NOW,
        LockPolicyModel::LockOnCreate => raw_lock_policy_type::LOCK_ON_CREATE,
        LockPolicyModel::LockOnVarState { .. } => raw_lock_policy_type::LOCK_ON_VAR_STATE,
    }
}

/// The raw form of the lock of a policy: of a lock on a state variable the
/// namespace, the value, a zero byte and the name, of any other lock
/// nothing.
pub open spec fn raw_lock(lock: LockPolicyModel) -> Seq<u8> {
    match lock {
        LockPolicyModel::LockOnVarState { namespace, name, value } => le_bytes(
            namespace.value as int,
            16,
        ) + seq![value, 0u8] + raw_name(name),
        _ => Seq::empty(),
    }
}

/// The raw form of the name of a policy.
pub open spec fn raw_policy_name(name: Option<Seq<char>>) -> Seq<u8> {
    match name {
        Some(name) => raw_name(name),
        None => Seq::empty(),
    }
}

/// The raw form of a policy: the fixed part, the lock and the name. The
/// size and the offset of the name are stored cut to 16 bits.
pub open spec fn raw_policy(policy: VariablePolicyModel) -> Seq<u8> {
    let lock = raw_lock(policy.lock_policy_type);
    let name = raw_policy_name(policy.name);
    let name_offset = RAW_VARIABLE_POLICY_ENTRY_SIZE + lock.len();
    let size = name_offset + name.len();
    le_bytes(RAW_ENTRY_REVISION as int, 4) + le_bytes(size % 0x1_0000, 2) + le_bytes(
        name_offset % 0x1_0000,
        2,
    ) + le_bytes(policy.namespace.value as int, 16) + le_bytes(policy.min_size as int, 4)
        + le_bytes(policy.max_size as int, 4) + le_bytes(policy.attr_must_have as int, 4)
        + le_bytes(policy.attr_cant_have as int, 4) + seq![
        raw_lock_type(policy.lock_policy_type),
        0u8,
        0u8,
        0u8,
    ] + lock + name
}

/// The raw forms of the first `n` policies of a list, one behind the other.
pub open spec fn raw_policies(policies: Seq<VariablePolicyModel>, n: int) -> Seq<u8>
    decreases n,
{
    if n <= 0 {
        Seq::empty()
    } else {
        raw_policies(policies, n - 1) + raw_policy(policies[n - 1])
    }
}

/// Appends the `n` bytes that spell `value`, least significant byte first.
fn push_le(buffer: &mut Vec<u8>, value: u128, n: usize)
    ensures
        final(buffer)@ == old(buffer)@ + le_bytes(value as int, n as nat),
{
    let mut rest: u128 = value;
    let mut i: usize = 0;
    assert(buffer@ + le_bytes(rest as int, n as nat) =~= old(buffer)@ + le_bytes(
        value as int,
        n as nat,
    ));
    while i < n
        invariant
            i <= n,
            buffer@ + le_bytes(rest as int, (n - i) as nat) == old(buffer)@ + le_bytes(
                value as int,
                n as nat,
            ),
        decreases n - i,
    {
        let ghost before = buffer@;
        buffer.push((rest % 0x100) as u8);
        assert(before + le_bytes(rest as int, (n - i) as nat) =~= buffer@ + le_bytes(
            rest as int / 0x100,
            (n - i - 1) as nat,
        ));
        rest = rest / 0x100;
        i = i + 1;
    }
    assert(buffer@ + le_bytes(rest as int, 0) =~= buffer@);
}

/// The number of a character.
fn code_point(c: char) -> (code: u32)
    ensures
        code == c as u32,
        code <= 0x10_FFFF,
{
    c as u32
}

/// Appends the raw form of a name.
fn push_name(buffer: &mut Vec<u8>, name: &str)
    ensures
        final(buffer)@ == old(buffer)@ + raw_name(name@),
{
    let chars = chars_of(name);
    let mut i: usize = 0;
    assert(buffer@ =~= old(buffer)@ + name_bytes(chars@, 0));
    while i < chars.len()
        invariant
            i <= chars.len(),
            buffer@ == old(buffer)@ + name_bytes(chars@, i as int),
        decreases chars.len() - i,
    {
        let ghost before = buffer@;
        let ghost units = char_units(chars@[i as int]);
        let code: u32 = code_point(chars[i]);
        if code < 0x1_0000 {
            push_le(buffer, code as u128, 2);
            assert(units.len() == 1 && units[0] == code);
            assert(buffer@ == before + le_bytes(units[0] as int, 2));
        } else {
            let high: u32 = 0xD800 + (code - 0x1_0000) / 0x400;
            let low: u32 = 0xDC00 + (code - 0x1_0000) % 0x400;
            push_le(buffer, high as u128, 2);
            push_le(buffer, low as u128, 2);
            assert(units.len() == 2 && units[0] == high && units[1] == low);
            assert(buffer@ == before + le_bytes(units[0] as int, 2) + le_bytes(units[1] as int, 2));
        }
        assert(name_bytes(chars@, i + 1) == if units.len() == 1 {
            name_bytes(chars@, i as int) + le_bytes(units[0] as int, 2)
        } else {
            name_bytes(chars@, i as int) + le_bytes(units[0] as int, 2) + le_bytes(
                units[1] as int,
                2,
            )
        });
        assert(buffer@ =~= old(buffer)@ + name_bytes(chars@, i + 1));
        i = i + 1;
    }
    // Set the terminating NULL.
    buffer.push(0);
    buffer.push(0);
    assert(buffer@ =~= old(buffer)@ + raw_name(name@));
}

/// The UTF-16 code unit at `off`.
pub open spec fn unit_at(buf: Seq<u8>, off: int) -> u16 {
    le_u16(buf, off) as u16
}

/// The bytes from `start` to `end` hold a string: a whole number of code
/// units, of which the last is zero and no other is.
pub open spec fn holds_string(buf: Seq<u8>, start: int, end: int) -> bool {
    &&& start + 2 <= end
    &&& (end - start) % 2 == 0
    &&& unit_at(buf, end - 2) == 0
    &&& forall|i: int| 0 <= i < (end - start) / 2 - 1 ==> #[trigger] unit_at(buf, start + 2 * i) != 0
}

/// The code units of the string that the bytes from `start` to `end` hold,
/// without the terminating zero.
pub open spec fn string_units(buf: Seq<u8>, start: int, end: int) -> Seq<u16> {
    Seq::new(((end - start) / 2 - 1) as nat, |i: int| unit_at(buf, start + 2 * i))
}

/// The characters that `String::from_utf16_lossy` decodes a sequence of
/// UTF-16 code units to.
pub uninterp spec fn utf16_lossy(units: Seq<u16>) -> Seq<char>;

/// The fixed part of the raw form of a policy at the start of `buf`.
pub open spec fn raw_header_of(buf: Seq<u8>) -> RawVariablePolicyEntry
    recommends
        buf.len() >= RAW_VARIABLE_POLICY_ENTRY_SIZE,
{
    RawVariablePolicyEntry {
        version: le_u32(buf, 0) as u32,
        size: le_u16(buf, 4) as u16,
        offset_to_name: le_u16(buf, 6) as u16,
        namespace: Guid { value: le_u128(buf, 8) as u128 },
        min_size: le_u32(buf, 24) as u32,
        max_size: le_u32(buf, 28) as u32,
        attr_must_have: le_u32(buf, 32) as u32,
        attr_cant_have: le_u32(buf, 36) as u32,
        lock_policy_type: buf[40],
        padding_3: [buf[41], buf[42], buf[43]],
    }
}

/// The raw form at the start of `buf` is laid out as a policy: the revision
/// is the one that the crate reads, the policy holds its fixed part and
/// lies in the buffer, the lock policy type is a known one, a lock on a
/// state variable is followed by the name of that variable, which ends
/// where the name of the policy starts, any other lock is followed by the
/// name of the policy at once, and the name of the policy, where there is
/// one, ends with the policy.
pub open spec fn raw_layout_is_sound(buf: Seq<u8>) -> bool {
    let header = raw_header_of(buf);
    &&& buf.len() >= RAW_VARIABLE_POLICY_ENTRY_SIZE
    &&& header.version == RAW_ENTRY_REVISION
    &&& RAW_VARIABLE_POLICY_ENTRY_SIZE <= header.size <= buf.len()
    &&& header.offset_to_name <= header.size
    &&& header.lock_policy_type <= raw_lock_policy_type::LOCK_ON_VAR_STATE
    &&& if header.lock_policy_type == raw_lock_policy_type::LOCK_ON_VAR_STATE {
        holds_string(
            buf,
            RAW_VARIABLE_POLICY_ENTRY_SIZE + RAW_VAR_STATE_LOCK_SIZE,
            header.offset_to_name as int,
        )
    } else {
        header.offset_to_name == RAW_VARIABLE_POLICY_ENTRY_SIZE
    }
    &&& header.size != header.offset_to_name ==> holds_string(
        buf,
        header.offset_to_name as int,
        header.size as int,
    )
}

/// The policy that a raw form of sound layout stands for.
pub open spec fn raw_policy_model(buf: Seq<u8>) -> VariablePolicyModel {
    let header = raw_header_of(buf);
    VariablePolicyModel {
        min_size: header.min_size,
        max_size: header.max_size,
        attr_must_have: header.attr_must_have,
        attr_cant_have: header.attr_cant_have,
        lock_policy_type: if header.lock_policy_type == raw_lock_policy_type::NO_LOCK {
            LockPolicyModel::NoLock
        } else if header.lock_policy_type == raw_lock_policy_type::LOCK_NOW {
            LockPolicyModel::LockNow
        } else if header.lock_policy_type == raw_lock_policy_type::LOCK_ON_CREATE {
            LockPolicyModel::LockOnCreate
        } else {
            LockPolicyModel::LockOnVarState {
                namespace: Guid { value: le_u128(buf, RAW_VARIABLE_POLICY_ENTRY_SIZE as int) as u128 },
                name: utf16_lossy(
                    string_units(
                        buf,
                        RAW_VARIABLE_POLICY_ENTRY_SIZE + RAW_VAR_STATE_LOCK_SIZE,
                        header.offset_to_name as int,
                    ),
                ),
                value: buf[RAW_VARIABLE_POLICY_ENTRY_SIZE + 16],
            }
        },
        namespace: header.namespace,
        name: if header.size != header.offset_to_name {
            Some(utf16_lossy(string_units(buf, header.offset_to_name as int, header.size as int)))
        } else {
            None
        },
    }
}

/// The policy whose raw form lies at the start of `buf`: the layout of the
/// raw form is sound, and the policy is one that can be enforced.
pub open spec fn parse_policy(buf: Seq<u8>) -> Result<VariablePolicyModel, Status> {
    if raw_layout_is_sound(buf) && raw_policy_model(buf).is_valid() {
        Ok(raw_policy_model(buf))
    } else {
        Err(Status::InvalidParameter)
    }
}

/// The model of what a parse returned.
pub open spec fn policy_result_view(r: Result<VariablePolicyEntry, Status>) -> Result<
    VariablePolicyModel,
    Status,
> {
    match r {
        Ok(policy) => Ok(policy@),
        Err(e) => Err(e),
    }
}

/// Reads the fixed part of the raw form of a policy.
pub fn read_raw_header(buffer: &[u8]) -> (header: RawVariablePolicyEntry)
    requires
        RAW_VARIABLE_POLICY_ENTRY_SIZE <= buffer.len(),
    ensures
        header.version == raw_header_of(buffer@).version,
        header.size == raw_header_of(buffer@).size,
        header.offset_to_name == raw_header_of(buffer@).offset_to_name,
        header.namespace == raw_header_of(buffer@).namespace,
        header.min_size == raw_header_of(buffer@).min_size,
        header.max_size == raw_header_of(buffer@).max_size,
        header.attr_must_have == raw_header_of(buffer@).attr_must_have,
        header.attr_cant_have == raw_header_of(buffer@).attr_cant_have,
        header.lock_policy_type == raw_header_of(buffer@).lock_policy_type,
        header.padding_3@ == buffer@.subrange(41, 44),
{
    let padding_3: [u8; 3] = [buffer[41], buffer[42], buffer[43]];
    assert(padding_3@ =~= buffer@.subrange(41, 44));
    RawVariablePolicyEntry {
        version: read_u32(buffer, 0),
        size: read_u16(buffer, 4),
        offset_to_name: read_u16(buffer, 6),
        namespace: Guid::read(buffer, 8),
        min_size: read_u32(buffer, 24),
        max_size: read_u32(buffer, 28),
        attr_must_have: read_u32(buffer, 32),
        attr_cant_have: read_u32(buffer, 36),
        lock_policy_type: buffer[40],
        padding_3,
    }
}

/// Reads the string that the bytes from `start` to `end` hold, if they hold
/// one.
fn read_string(buffer: &[u8], start: usize, end: usize) -> (r: Option<Vec<u16>>)
    requires
        end <= buffer.len(),
    ensures
        r is Some <==> holds_string(buffer@, start as int, end as int),
        r is Some ==> r->0@ == string_units(buffer@, start as int, end as int),
{
    if end < 2 || start > end - 2 || (end - start) % 2 != 0 {
        return None;
    }
    let count: usize = (end - start) / 2 - 1;
    let mut units: Vec<u16> = Vec::new();
    let mut i: usize = 0;
    while i < count
        invariant
            i <= count,
            start + 2 <= end <= buffer.len(),
            (end - start) % 2 == 0,
            count == (end - start) / 2 - 1,
            units@.len() == i,
            forall|j: int| 0 <= j < i ==> units@[j] == #[trigger] unit_at(buffer@, start + 2 * j),
            forall|j: int| 0 <= j < i ==> #[trigger] unit_at(buffer@, start + 2 * j) != 0,
        decreases count - i,
    {
        let unit = read_u16(buffer, start + 2 * i);
        if unit == 0 {
            assert(unit_at(buffer@, start + 2 * i) == 0);
            return None;
        }
        units.push(unit);
        i = i + 1;
    }
    if read_u16(buffer, end - 2) != 0 {
        return None;
    }
    assert(units@ =~= string_units(buffer@, start as int, end as int));
    Some(units)
}

/// Decodes UTF-16 code units with `String::from_utf16_lossy` of the standard
/// library, which replaces what is no valid UTF-16 by the replacement
/// character.
#[verifier::external_body]
fn decode_utf16_lossy(units: &Vec<u16>) -> (s: String)
    ensures
        s@ == utf16_lossy(units@),
{
    String::from_utf16_lossy(units)
}

/// The index of the best match among the first `n` policies of a list: of
/// the policies that match, the first of those with the highest priority.
pub open spec fn best_match_index(
    entries: Seq<VariablePolicyModel>,
    variable_name: Option<Seq<char>>,
    vendor_guid: Guid,
    n: int,
) -> Option<int>
    decreases n,
{
    if n <= 0 {
        None
    } else {
        let before = best_match_index(entries, variable_name, vendor_guid, n - 1);
        match entries[n - 1].eval_match(variable_name, vendor_guid) {
            None => before,
            Some(priority) => match before {
                None => Some(n - 1),
                Some(j) => if priority < entries[j].eval_match(variable_name, vendor_guid)->0 {
                    Some(n - 1)
                } else {
                    before
                },
            },
        }
    }
}

/// The best match among the first `n` policies is a policy that matches, no
/// policy among them matches with a higher priority, and none before it
/// matches with the same priority. There is none only where no policy
/// matches.
pub proof fn lemma_best_match(
    entries: Seq<VariablePolicyModel>,
    variable_name: Option<Seq<char>>,
    vendor_guid: Guid,
    n: int,
)
    requires
        0 <= n <= entries.len(),
    ensures
        match best_match_index(entries, variable_name, vendor_guid, n) {
            None => forall|k: int|
                0 <= k < n ==> (#[trigger] entries[k]).eval_match(variable_name, vendor_guid)
                    is None,
            Some(j) => {
                &&& 0 <= j < n
                &&& entries[j].eval_match(variable_name, vendor_guid) is Some
                &&& forall|k: int|
                    0 <= k < n && (#[trigger] entries[k]).eval_match(variable_name, vendor_guid)
                        is Some ==> {
                        &&& entries[k].eval_match(variable_name, vendor_guid)->0
                            >= entries[j].eval_match(variable_name, vendor_guid)->0
                        &&& k < j ==> entries[k].eval_match(variable_name, vendor_guid)->0
                            > entries[j].eval_match(variable_name, vendor_guid)->0
                    }
            },
        },
    decreases n,
{
    if n > 0 {
        lemma_best_match(entries, variable_name, vendor_guid, n - 1);
    }
}

/// A list holds a policy for the very variables of `policy`: one that
/// matches the name and the namespace of `policy` with the priority of an
/// exact match.
pub open spec fn holds_duplicate(entries: Seq<VariablePolicyModel>, policy: VariablePolicyModel) -> bool {
    match best_match_index(entries, policy.name, policy.namespace, entries.len() as int) {
        Some(j) => entries[j].eval_match(policy.name, policy.namespace) == Some(
            MATCH_PRIORITY_EXACT,
        ),
        None => false,
    }
}

/// A list holds a duplicate of a policy exactly where one of its policies
/// matches the name and the namespace of the policy exactly.
pub proof fn lemma_duplicate(entries: Seq<VariablePolicyModel>, policy: VariablePolicyModel)
    ensures
        holds_duplicate(entries, policy) <==> exists|k: int|
            0 <= k < entries.len() && (#[trigger] entries[k]).eval_match(
                policy.name,
                policy.namespace,
            ) == Some(MATCH_PRIORITY_EXACT),
{
    lemma_best_match(entries, policy.name, policy.namespace, entries.len() as int);
}

impl VariablePolicyList {
    /// The policies of the list, in the order in which they were added.
    pub closed spec fn entries(&self) -> Seq<VariablePolicyEntry> {
        self.inner@
    }

    /// A list without policies.
    pub fn new() -> (list: Self)
        ensures
            list@.len() == 0,
    {
        let list = VariablePolicyList { inner: Vec::new() };
        assert(list@ =~= Seq::<VariablePolicyModel>::empty());
        list
    }

    /// Adds a policy to the list, unless the list holds a policy for the
    /// very same variables. Tells whether the policy was added.
    pub fn add_policy(&mut self, policy: VariablePolicyEntry) -> (added: bool)
        ensures
            added == !holds_duplicate(old(self)@, policy@),
            final(self)@ == if added {
                old(self)@.push(policy@)
            } else {
                old(self)@
            },
    {
        // Make sure that there are no duplicates of this policy.
        let duplicate = {
            let (match_policy, match_priority) = self.get_best_match(
                policy.name.as_ref(),
                &policy.namespace,
            );
            // If there was a match and the match_priority is exact, we have a duplicate.
            match_policy.is_some() && match_priority == MATCH_PRIORITY_EXACT
        };
        if duplicate {
            false
        } else {
            // Otherwise, add it to the list and let's move on.
            self.inner.push(policy);
            assert(self@ =~= old(self)@.push(policy@));
            true
        }
    }

    /// Writes the policies of the list in their raw form, one behind the
    /// other.
    pub fn to_raw(&self) -> (raw: Vec<u8>)
        ensures
            raw@ == raw_policies(self@, self@.len() as int),
    {
        let mut output_buffer: Vec<u8> = Vec::new();
        let mut i: usize = 0;
        while i < self.inner.len()
            invariant
                i <= self.inner.len(),
                output_buffer@ == raw_policies(self@, i as int),
            decreases self.inner.len() - i,
        {
            let mut next = self.inner[i].to_raw();
            assert(self@[i as int] == self.inner[i as int]@);
            output_buffer.append(&mut next);
            i = i + 1;
        }
        output_buffer
    }

    /// Finds the policy that governs a variable: of the policies that match
    /// the variable, the first of those with the highest priority. Returns
    /// the policy with the priority of its match, or no policy and the
    /// lowest priority.
    pub fn get_best_match(&self, variable_name_option: Option<&String>, vendor_guid: &Guid) -> (r: (
        Option<&VariablePolicyEntry>,
        u8,
    ))
        ensures
            match best_match_index(
                self@,
                name_ref_view(variable_name_option),
                *vendor_guid,
                self@.len() as int,
            ) {
                None => r.0 is None && r.1 == MATCH_PRIORITY_MIN,
                Some(j) => r.0 == Some(&self.entries()[j]) && Some(r.1) == self@[j].eval_match(
                    name_ref_view(variable_name_option),
                    *vendor_guid,
                ),
            },
    {
        let mut match_priority = MATCH_PRIORITY_MIN;
        let mut current_match: Option<&VariablePolicyEntry> = None;
        let ghost name = name_ref_view(variable_name_option);
        let mut i: usize = 0;
        while i < self.inner.len()
            invariant
                i <= self.inner.len(),
                name == name_ref_view(variable_name_option),
                match best_match_index(self@, name, *vendor_guid, i as int) {
                    None => current_match is None && match_priority == MATCH_PRIORITY_MIN,
                    Some(j) => 0 <= j < i && current_match == Some(&self.entries()[j]) && Some(
                        match_priority,
                    ) == self@[j].eval_match(name, *vendor_guid),
                },
            decreases self.inner.len() - i,
        {
            let next_policy = &self.inner[i];
            assert(self@[i as int] == next_policy@);
            if let Some(policy_priority) = next_policy.eval_match(variable_name_option, vendor_guid) {
                if current_match.is_none() || policy_priority < match_priority {
                    current_match = Some(next_policy);
                    match_priority = policy_priority;
                }
            }
            i = i + 1;
        }
        (current_match, match_priority)
    }
}

/// The attribute of a write that appends to a variable.
pub const VARIABLE_APPEND_WRITE: u32 = 0x0000_0040;

/// What decides whether a variable may be written.
#[derive(Debug)]
pub enum SetVariableVerdict<'a> {
    /// The policies decide by themselves: the write is allowed, or it is
    /// not.
    Decided(bool),
    /// The write is allowed if the variable does not exist yet.
    IfNotFound,
    /// The write is allowed unless the state variable of the lock holds the
    /// value of the lock.
    IfNotLockedBy(&'a VarStateLock),
}

/// What a [`SetVariableVerdict`] holds, as a mathematical value.
pub enum VerdictModel {
    Decided(bool),
    IfNotFound,
    IfNotLockedBy { namespace: Guid, name: Seq<char>, value: u8 },
}

impl<'a> View for SetVariableVerdict<'a> {
    type V = VerdictModel;

    open spec fn view(&self) -> VerdictModel {
        match self {
            SetVariableVerdict::Decided(allowed) => VerdictModel::Decided(*allowed),
            SetVariableVerdict::IfNotFound => VerdictModel::IfNotFound,
            SetVariableVerdict::IfNotLockedBy(var_state) => VerdictModel::IfNotLockedBy {
                namespace: var_state.namespace,
                name: var_state.name@,
                value: var_state.value,
            },
        }
    }
}

/// A write of `data_size` bytes with the given attributes deletes the
/// variable: it holds no data and does not append.
pub open spec fn is_deletion(attributes: u32, data_size: int) -> bool {
    data_size == 0 && attributes & VARIABLE_APPEND_WRITE == 0
}

/// A write of `data_size` bytes with the given attributes keeps the size
/// and attribute constraints of a policy. A minimum or maximum size of zero
/// constrains nothing.
pub open spec fn constraints_hold(policy: VariablePolicyModel, attributes: u32, data_size: int) -> bool {
    &&& !(policy.min_size > 0 && data_size < policy.min_size)
    &&& !(policy.max_size > 0 && data_size > policy.max_size)
    &&& policy.attr_must_have & attributes == policy.attr_must_have
    &&& policy.attr_cant_have & attributes == 0
}

/// What decides whether a variable may be written.
///
/// A variable that no policy governs may be written. Else the policy that
/// governs it decides: a write that does not delete the variable has to
/// keep the size and attribute constraints of the policy, and then the lock
/// of the policy decides.
pub open spec fn set_variable_verdict(
    entries: Seq<VariablePolicyModel>,
    variable_name: Seq<char>,
    vendor_guid: Guid,
    attributes: u32,
    data_size: int,
) -> VerdictModel {
    match best_match_index(entries, Some(variable_name), vendor_guid, entries.len() as int) {
        None => VerdictModel::Decided(true),
        Some(j) => if !is_deletion(attributes, data_size) && !constraints_hold(
            entries[j],
            attributes,
            data_size,
        ) {
            VerdictModel::Decided(false)
        } else {
            match entries[j].lock_policy_type {
                LockPolicyModel::NoLock => VerdictModel::Decided(true),
                LockPolicyModel::LockNow => VerdictModel::Decided(false),
                LockPolicyModel::LockOnCreate => VerdictModel::IfNotFound,
                LockPolicyModel::LockOnVarState { namespace, name, value } => VerdictModel::IfNotLockedBy {
                    namespace,
                    name,
                    value,
                },
            }
        },
    }
}

/// Tells whether a variable that is locked once it exists may be written,
/// given the outcome of reading it: only where the variable was not found.
pub fn lock_on_create_allows(lookup: &Result<(Vec<u8>, u32), Status>) -> (allowed: bool)
    ensures
        allowed == (*lookup == Err::<(Vec<u8>, u32), Status>(Status::NotFound)),
{
    match lookup {
        Ok(_) => false,
        Err(err_status) => *err_status == Status::NotFound,
    }
}

/// Tells whether a variable that a state variable locks may be written,
/// given the outcome of reading the state variable: where the state
/// variable was not found, and where it was read and does not hold the one
/// byte that is the value of the lock.
pub fn lock_on_var_state_allows(var_state: &VarStateLock, lookup: &Result<(Vec<u8>, u32), Status>) -> (allowed:
    bool)
    ensures
        allowed == match *lookup {
            Ok((var_data, _)) => !(var_data@.len() == 1 && var_data@[0] == var_state.value),
            Err(err_status) => err_status == Status::NotFound,
        },
{
    match lookup {
        Ok((var_data, _)) => !(var_data.len() == 1 && var_data[0] == var_state.value),
        Err(err_status) => *err_status == Status::NotFound,
    }
}

impl VariablePolicyList {
    /// Tells what decides whether the variable may be written with
    /// `data_size` bytes of data and the given attributes.
    pub fn check_set_variable(
        &self,
        variable_name: &String,
        vendor_guid: &Guid,
        attributes: u32,
        data_size: usize,
    ) -> (verdict: SetVariableVerdict<'_>)
        ensures
            verdict@ == set_variable_verdict(
                self@,
                variable_name@,
                *vendor_guid,
                attributes,
                data_size as int,
            ),
    {
        // Step one: figure out if we have a policy that controls this variable.
        let (match_policy, _) = self.get_best_match(Some(variable_name), vendor_guid);
        // Only matters if we have a matching policy.
        let matched_policy = match match_policy {
            None => {
                return SetVariableVerdict::Decided(true);
            },
            Some(matched_policy) => matched_policy,
        };
        proof {
            lemma_best_match(self@, Some(variable_name@), *vendor_guid, self@.len() as int);
        }
        // Determine whether this is a delete operation.
        // If so, it will affect which tests are applied.
        let is_del = data_size == 0 && (attributes & VARIABLE_APPEND_WRITE) == 0;
        // Only enforce size and attribute constraints when updating data, not deleting.
        if !is_del {
            // Check for size constraints.
            if (matched_policy.min_size > 0 && data_size < matched_policy.min_size as usize) || (
            matched_policy.max_size > 0 && data_size > matched_policy.max_size as usize) {
                return SetVariableVerdict::Decided(false);
            }
            // Check for attribute constraints.
            if (matched_policy.attr_must_have & attributes) != matched_policy.attr_must_have || (
            matched_policy.attr_cant_have & attributes) != 0 {
                return SetVariableVerdict::Decided(false);
            }
        }
        // Evaluate lock policy.
        match &matched_policy.lock_policy_type {
            LockPolicyType::NoLock => SetVariableVerdict::Decided(true),
            LockPolicyType::LockNow => SetVariableVerdict::Decided(false),
            LockPolicyType::LockOnCreate => SetVariableVerdict::IfNotFound,
            LockPolicyType::LockOnVarState(var_state) => SetVariableVerdict::IfNotLockedBy(var_state),
        }
    }
}

/// Tells whether the character is a decimal digit.
fn is_ascii_digit(c: char) -> (r: bool)
    ensures
        r == is_digit(c),
{
    let code = code_point(c);
    0x30 <= code && code <= 0x39
}

/// The characters of a string.
fn chars_of(s: &str) -> (chars: Vec<char>)
    ensures
        chars@ == s@,
{
    let mut chars: Vec<char> = Vec::new();
    for c in it: s.chars()
        invariant
            it.seq() == s@,
            chars@ == it.seq().subrange(0, it.index() as int),
    {
        chars.push(c);
        assert(chars@ =~= it.seq().subrange(0, it.index() + 1));
    }
    assert(chars@ =~= s@);
    chars
}

/// Counts the wildcards of a policy name.
fn count_wildcards(chars: &Vec<char>) -> (count: usize)
    ensures
        count == wildcard_count(chars@, chars@.len() as int),
{
    let mut count: usize = 0;
    let mut i: usize = 0;
    while i < chars.len()
        invariant
            i <= chars.len(),
            count == wildcard_count(chars@, i as int),
            count <= i,
        decreases chars.len() - i,
    {
        if chars[i] == WILDCARD {
            count = count + 1;
        }
        i = i + 1;
    }
    count
}

} // verus!
