use vstd::prelude::*;

verus! {

/// What the plugin announces to its host besides the contract type: the display
/// asset shown for it.
pub struct Registration {
    pub logo: String,
}

impl Registration {
    /// A registration names an asset at all.
    pub open spec fn wf(&self) -> bool {
        self.logo@.len() > 0
    }
}

/// The registration entry of the bonded staker contract.
pub fn registration() -> (r: Registration)
    ensures
        r.logo@ == "logo.png"@,
        r.wf(),
{
    proof {
        reveal_strlit("logo.png");
    }
    Registration { logo: String::from_str("logo.png") }
}

} // verus!
