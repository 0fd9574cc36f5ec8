//! Rule actions and their numeric engine encoding.

use vstd::prelude::*;

verus! {

/// Engine code for a terminating block action.
pub const ACTION_CODE_BLOCK: u32 = 0x1001;

/// Engine code for a terminating permit action.
pub const ACTION_CODE_PERMIT: u32 = 0x1002;

/// Engine code for a terminating callout action.
pub const ACTION_CODE_CALLOUT: u32 = 0x5003;

/// What a rule does when its conditions match.
#[derive(Clone, Copy, Debug, PartialEq, Eq, Structural)]
pub enum WfpAction {
    Permit,
    Block,
    Callout,
}

impl WfpAction {
    /// The numeric code under which the engine stores this action.
    pub open spec fn spec_to_fwpm(self) -> u32 {
        match self {
            WfpAction::Permit => ACTION_CODE_PERMIT,
            WfpAction::Block => ACTION_CODE_BLOCK,
            WfpAction::Callout => ACTION_CODE_CALLOUT,
        }
    }

    #[verifier::when_used_as_spec(spec_to_fwpm)]
    pub fn to_fwpm(self) -> (code: u32)
        ensures
            code == self.spec_to_fwpm(),
    {
        match self {
            WfpAction::Permit => ACTION_CODE_PERMIT,
            WfpAction::Block => ACTION_CODE_BLOCK,
            WfpAction::Callout => ACTION_CODE_CALLOUT,
        }
    }

    /// The display label of this action.
    pub open spec fn spec_str(self) -> Seq<char> {
        match self {
            WfpAction::Permit => "Permit"@,
            WfpAction::Block => "Block"@,
            WfpAction::Callout => "Callout"@,
        }
    }

    pub fn as_str(self) -> (s: &'static str)
        ensures
            s@ == self.spec_str(),
    {
        match self {
            WfpAction::Permit => "Permit",
            WfpAction::Block => "Block",
            WfpAction::Callout => "Callout",
        }
    }
}

/// The action a stored numeric code stands for. Codes this tool never
/// writes are read back as callout actions.
pub open spec fn spec_action_of_code(code: u32) -> WfpAction {
    if code == ACTION_CODE_PERMIT {
        WfpAction::Permit
    } else if code == ACTION_CODE_BLOCK {
        WfpAction::Block
    } else {
        WfpAction::Callout
    }
}

#[verifier::when_used_as_spec(spec_action_of_code)]
pub fn action_of_code(code: u32) -> (a: WfpAction)
    ensures
        a == spec_action_of_code(code),
{
    if code == ACTION_CODE_PERMIT {
        WfpAction::Permit
    } else if code == ACTION_CODE_BLOCK {
        WfpAction::Block
    } else {
        WfpAction::Callout
    }
}

/// Decoding a stored action code recovers the action that produced it.
pub proof fn lemma_action_code_round_trip(a: WfpAction)
    ensures
        spec_action_of_code(a.spec_to_fwpm()) == a,
{
}

} // verus!
