//! The switch that selects the token strategy at start-up.

use vstd::prelude::*;
use vstd::string::StringSliceAdditionalSpecFns;
use vstd::utf8::encode_utf8_decode_utf8;

verus! {

/// Which token strategy the process runs with. Read once, never changed.
#[derive(Clone, Copy, Debug, PartialEq, Eq, Structural)]
pub enum AuthMode {
    /// RSA key pair: public half from a key-set endpoint, private half from a file.
    Asymmetric,
    /// One secret shared by signer and verifier.
    Symmetric,
}

/// The mode that a setting names: `asymmetric` or `symmetric`, to the
/// letter, and nothing else.
pub open spec fn named_mode(name: Seq<char>) -> Option<AuthMode> {
    if name == "asymmetric"@ {
        Some(AuthMode::Asymmetric)
    } else if name == "symmetric"@ {
        Some(AuthMode::Symmetric)
    } else {
        None
    }
}

/// Whether two string slices hold the same characters.
fn same_text(left: &str, right: &str) -> (same: bool)
    ensures
        same == (left@ == right@),
{
    let left_bytes = left.as_bytes();
    let right_bytes = right.as_bytes();
    if left_bytes.len() != right_bytes.len() {
        return false;
    }
    let mut i: usize = 0;
    while i < left_bytes.len()
        invariant
            i <= left_bytes.len(),
            left_bytes.len() == right_bytes.len(),
            left_bytes@ == left.spec_bytes(),
            right_bytes@ == right.spec_bytes(),
            forall|j: int| 0 <= j < i ==> left_bytes@[j] == right_bytes@[j],
        decreases left_bytes.len() - i,
    {
        if left_bytes[i] != right_bytes[i] {
            return false;
        }
        i += 1;
    }
    proof {
        assert(left_bytes@ =~= right_bytes@);
        encode_utf8_decode_utf8(left@);
        encode_utf8_decode_utf8(right@);
    }
    true
}

impl AuthMode {
    /// The mode that the setting `name` names, if it names one; see
    /// [`named_mode`].
    pub fn from_name(name: &str) -> (mode: Option<AuthMode>)
        ensures
            mode == named_mode(name@),
    {
        if same_text(name, "asymmetric") {
            Some(AuthMode::Asymmetric)
        } else if same_text(name, "symmetric") {
            Some(AuthMode::Symmetric)
        } else {
            None
        }
    }

    /// The name of the mode, as a setting spells it.
    pub fn name(&self) -> (name: &'static str)
        ensures
            named_mode(name@) == Some(*self),
    {
        proof {
            reveal_strlit("asymmetric");
            reveal_strlit("symmetric");
        }
        match self {
            AuthMode::Asymmetric => "asymmetric",
            AuthMode::Symmetric => {
                assert("symmetric"@.len() != "asymmetric"@.len());
                "symmetric"
            },
        }
    }
}

} // verus!
