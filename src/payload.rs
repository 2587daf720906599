use crate::principal::Principal;
use vstd::prelude::*;

verus! {

/// How code goes into a canister.
#[derive(Debug, Clone, Copy, PartialEq, Eq, Structural)]
pub enum InstallMode {
    /// Install into an empty canister; refused where code is present.
    Install,
    /// Overwrite whatever code is present.
    Reinstall,
    /// Run the state-preserving upgrade of the present code.
    Upgrade,
}

/// The argument of `install_code` and `upgrade_code`.
#[derive(Debug, Clone, PartialEq, Eq)]
pub struct CanisterInstall {
    pub mode: InstallMode,
    pub canister_id: Principal,
    /// The whole module image.
    pub wasm_module: Vec<u8>,
    /// The already encoded argument of the module's initializer.
    pub arg: Vec<u8>,
}

/// The settings of a new canister. Only the controllers are ever set here;
/// the numeric fields stay absent so that the platform's defaults apply.
#[derive(Debug, Clone, PartialEq, Eq)]
pub struct CanisterSettings {
    pub controllers: Option<Vec<Principal>>,
    pub compute_allocation: Option<u64>,
    pub memory_allocation: Option<u64>,
    pub freezing_threshold: Option<u64>,
}

/// The argument of `provisional_create_canister_with_cycles`.
#[derive(Debug, Clone, PartialEq, Eq)]
pub struct ProvisionalCreate {
    pub cycles: Option<u64>,
    pub settings: CanisterSettings,
}

/// The argument of `stop_canister` and `delete_canister`.
#[derive(Debug, Clone, PartialEq, Eq)]
pub struct CanisterIdArg {
    pub canister_id: Principal,
}

/// The typed argument of one call to the management service.
#[derive(Debug, Clone, PartialEq, Eq)]
pub enum Payload {
    Install(CanisterInstall),
    Create(CanisterSettings),
    ProvisionalCreate(ProvisionalCreate),
    Target(CanisterIdArg),
}

/// The shape that the reply of a call decodes to.
#[derive(Debug, Clone, Copy, PartialEq, Eq, Structural)]
pub enum ResultShape {
    /// No value.
    Unit,
    /// A record that holds the id of a new canister.
    CreateResult,
    /// A bare principal.
    Principal,
}

/// A reply, decoded in the shape that its call expects.
#[derive(Debug, Clone, PartialEq, Eq)]
pub enum Reply {
    Unit,
    Created(Principal),
    Echoed(Principal),
}

/// Why bytes did not decode.
#[derive(Debug, Clone, Copy, PartialEq, Eq, Structural)]
pub enum DecodeError {
    /// The type tags of the bytes are not those of the expected shape.
    SchemaMismatch,
    /// The bytes end early.
    Truncated,
}

/// The cycles that a payload itself asks to attach.
pub open spec fn attached_cycles(p: Payload) -> Option<u64> {
    match p {
        Payload::ProvisionalCreate(c) => c.cycles,
        _ => None,
    }
}

/// Settings that name at most the controllers.
pub open spec fn default_settings(s: CanisterSettings, controllers: Option<Vec<Principal>>) -> bool {
    &&& s.controllers == controllers
    &&& s.compute_allocation is None
    &&& s.memory_allocation is None
    &&& s.freezing_threshold is None
}

/// The shape of a decoded reply.
pub open spec fn shape_of(r: Reply) -> ResultShape {
    match r {
        Reply::Unit => ResultShape::Unit,
        Reply::Created(_) => ResultShape::CreateResult,
        Reply::Echoed(_) => ResultShape::Principal,
    }
}

impl CanisterSettings {
    /// Settings with the given controllers and nothing else.
    pub fn with_controllers(controllers: Option<Vec<Principal>>) -> (r: CanisterSettings)
        ensures
            default_settings(r, controllers),
    {
        CanisterSettings {
            controllers,
            compute_allocation: None,
            memory_allocation: None,
            freezing_threshold: None,
        }
    }
}

impl Reply {
    /// The shape of this reply.
    pub fn shape(&self) -> (r: ResultShape)
        ensures
            r == shape_of(*self),
    {
        match self {
            Reply::Unit => ResultShape::Unit,
            Reply::Created(_) => ResultShape::CreateResult,
            Reply::Echoed(_) => ResultShape::Principal,
        }
    }
}

} // verus!
