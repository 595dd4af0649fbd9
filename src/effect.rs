use vstd::prelude::*;

verus! {

/// The update rule applied to a point on each iteration, resolved once per call.
#[derive(Clone, Copy, Debug, PartialEq, Eq, Structural)]
pub enum Effect {
    QuadraticDefault,
    PhaseKickback,
    QuantumTunneling,
    Superposition,
    PauliX,
    PauliY,
    Hadamard,
    /// The phase is carried as the bit pattern of an IEEE-754 double; the library never reads it.
    PhaseShift(u64),
}

/// Why an effect name could not be resolved.
#[derive(Clone, Debug, PartialEq, Eq)]
pub enum EffectError {
    /// The named effect needs a parameter that was not given; holds the effect's name.
    MissingParameter(String),
}

/// The effect that `name` selects, given the phase (if any) that came with it.
/// Unknown names fall back to the classic quadratic map; `None` means the name
/// selects the phase shift but no phase was given.
pub open spec fn effect_of(name: Seq<char>, phase_bits: Option<u64>) -> Option<Effect> {
    if name == "phase_kickback"@ {
        Some(Effect::PhaseKickback)
    } else if name == "quantum_tunneling"@ {
        Some(Effect::QuantumTunneling)
    } else if name == "superposition"@ {
        Some(Effect::Superposition)
    } else if name == "pauli_x"@ {
        Some(Effect::PauliX)
    } else if name == "pauli_y"@ {
        Some(Effect::PauliY)
    } else if name == "hadamard"@ {
        Some(Effect::Hadamard)
    } else if name == "phase_shift"@ {
        match phase_bits {
            Some(p) => Some(Effect::PhaseShift(p)),
            None => None,
        }
    } else {
        Some(Effect::QuadraticDefault)
    }
}

fn same_text(a: &String, b: &str) -> (r: bool)
    ensures
        r == (a@ == b@),
{
    let owned = b.to_owned();
    *a == owned
}

/// Resolves an effect name, and the phase that may come with it, into an [`Effect`].
/// Names match exactly and case-sensitively; any name outside the known set selects
/// the classic quadratic map. `"phase_shift"` without a phase is an error.
pub fn resolve_effect(name: &str, phase_bits: Option<u64>) -> (r: Result<Effect, EffectError>)
    ensures
        match effect_of(name@, phase_bits) {
            Some(e) => r == Ok::<Effect, EffectError>(e),
            None => r matches Err(EffectError::MissingParameter(g)) && g@ == "phase_shift"@,
        },
        r is Err <==> (name@ == "phase_shift"@ && phase_bits is None),
{
    proof {
        reveal_strlit("phase_kickback");
        reveal_strlit("quantum_tunneling");
        reveal_strlit("superposition");
        reveal_strlit("pauli_x");
        reveal_strlit("pauli_y");
        reveal_strlit("hadamard");
        reveal_strlit("phase_shift");
        assert("phase_shift"@.len() == 11);
        assert("phase_kickback"@.len() == 14);
        assert("quantum_tunneling"@.len() == 17);
        assert("superposition"@.len() == 13);
        assert("pauli_x"@.len() == 7);
        assert("pauli_y"@.len() == 7);
        assert("hadamard"@.len() == 8);
    }
    let n = name.to_owned();
    if same_text(&n, "phase_kickback") {
        Ok(Effect::PhaseKickback)
    } else if same_text(&n, "quantum_tunneling") {
        Ok(Effect::QuantumTunneling)
    } else if same_text(&n, "superposition") {
        Ok(Effect::Superposition)
    } else if same_text(&n, "pauli_x") {
        Ok(Effect::PauliX)
    } else if same_text(&n, "pauli_y") {
        Ok(Effect::PauliY)
    } else if same_text(&n, "hadamard") {
        Ok(Effect::Hadamard)
    } else if same_text(&n, "phase_shift") {
        match phase_bits {
            Some(p) => Ok(Effect::PhaseShift(p)),
            None => Err(EffectError::MissingParameter("phase_shift".to_owned())),
        }
    } else {
        Ok(Effect::QuadraticDefault)
    }
}

} // verus!
