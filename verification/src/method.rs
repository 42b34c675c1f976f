//! The closed set of method kinds an entry point may have, each tagged as
//! lifecycle (triggered by host-runtime events) or callable (addressed by a
//! caller-visible message).

use vstd::prelude::*;

verus! {

/// The kind of entry point, fixed by which annotation was used.
#[derive(Copy, Clone, Debug, PartialEq, Eq, Structural)]
pub enum MethodType {
    Init,
    PreUpgrade,
    PostUpgrade,
    Update,
    Query,
    Heartbeat,
    InspectMessage,
    OnLowWasmMemory,
}

impl MethodType {
    /// A lifecycle kind is triggered by the host runtime rather than by a
    /// caller-addressed message; it can neither return a caller-visible value
    /// nor reject a message.
    pub open spec fn spec_is_lifecycle(&self) -> bool {
        match self {
            MethodType::Update | MethodType::Query => false,
            _ => true,
        }
    }

    pub fn is_lifecycle(&self) -> (r: bool)
        ensures
            r == self.spec_is_lifecycle(),
    {
        match self {
            MethodType::Init
            | MethodType::PreUpgrade
            | MethodType::PostUpgrade
            | MethodType::Heartbeat
            | MethodType::InspectMessage
            | MethodType::OnLowWasmMemory => true,
            MethodType::Update | MethodType::Query => false,
        }
    }

    /// The kind's display name, used in diagnostics and in export symbols.
    pub open spec fn spec_name(&self) -> Seq<char> {
        match self {
            MethodType::Init => "init"@,
            MethodType::PreUpgrade => "pre_upgrade"@,
            MethodType::PostUpgrade => "post_upgrade"@,
            MethodType::Update => "update"@,
            MethodType::Query => "query"@,
            MethodType::Heartbeat => "heartbeat"@,
            MethodType::InspectMessage => "inspect_message"@,
            MethodType::OnLowWasmMemory => "on_low_wasm_memory"@,
        }
    }

    pub fn name(&self) -> (r: &'static str)
        ensures
            r@ == self.spec_name(),
    {
        match self {
            MethodType::Init => "init",
            MethodType::PreUpgrade => "pre_upgrade",
            MethodType::PostUpgrade => "post_upgrade",
            MethodType::Update => "update",
            MethodType::Query => "query",
            MethodType::Heartbeat => "heartbeat",
            MethodType::InspectMessage => "inspect_message",
            MethodType::OnLowWasmMemory => "on_low_wasm_memory",
        }
    }
}

} // verus!
