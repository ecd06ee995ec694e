//! The gamma ramp a game installs through `IDirectDrawGammaControl`: stored
//! in the shared state and reported back, with the identity ramp standing in
//! until one is set.

use vstd::prelude::*;
use crate::state::DDrawState;
use crate::ddraw::DDrawError;

verus! {

/// Entry `k` of the identity ramp: channel value `i = k / 3` spread over 16
/// bits as `i << 8 | i`.
pub open spec fn identity_entry(k: int) -> u16 {
    ((k / 3) * 257) as u16
}

/// The identity ramp: 256 entries of three 16-bit channels.
pub fn identity_ramp() -> (r: [u16; 768])
    ensures
        forall|k: int| 0 <= k < 768 ==> #[trigger] r@[k] == identity_entry(k),
{
    let mut ramp = [0u16; 768];
    let mut i: usize = 0;
    while i < 256
        invariant
            i <= 256,
            ramp@.len() == 768,
            forall|k: int| 0 <= k < 3 * i ==> #[trigger] ramp@[k] == identity_entry(k),
        decreases 256 - i,
    {
        let b = i as u16;
        let v: u16 = (b << 8) | b;
        assert(v == b * 257) by (bit_vector)
            requires
                b < 256,
                v == (b << 8) | b,
        ;
        ramp[i * 3] = v;
        ramp[i * 3 + 1] = v;
        ramp[i * 3 + 2] = v;
        assert forall|k: int| 0 <= k < 3 * (i + 1) implies #[trigger] ramp@[k] == identity_entry(k) by {
            if k >= 3 * i {
                assert(k / 3 == i as int);
            }
        }
        i = i + 1;
    }
    ramp
}

/// Stores an installed gamma ramp.
pub fn set_ramp(st: &mut DDrawState, ramp: &[u16; 768])
    ensures
        final(st).gamma_ramp == Some(*ramp),
        *final(st) == (DDrawState { gamma_ramp: Some(*ramp), ..*old(st) }),
{
    st.gamma_ramp = Some(*ramp);
}

/// The ramp `get_ramp_identity_filled` reports for a state.
pub open spec fn reported_ramp(st: &DDrawState, r: [u16; 768]) -> bool {
    match st.gamma_ramp {
        Some(g) => r == g,
        None => forall|k: int| 0 <= k < 768 ==> #[trigger] r@[k] == identity_entry(k),
    }
}

/// The installed ramp, or the identity ramp when none was set.
pub fn get_ramp_identity_filled(st: &DDrawState) -> (r: [u16; 768])
    ensures
        reported_ramp(st, r),
{
    let ramp = identity_ramp();
    match st.gamma_ramp {
        Some(g) => g,
        None => ramp,
    }
}

/// What was set is what is read back: after `set_ramp` with `ramp`, the
/// reported ramp is `ramp`.
pub proof fn lemma_get_after_set(before: DDrawState, ramp: [u16; 768], r: [u16; 768])
    requires
        reported_ramp(&DDrawState { gamma_ramp: Some(ramp), ..before }, r),
    ensures
        r == ramp,
{
}

/// `IDirectDrawGammaControl::GetGammaRamp`: refuses a missing ramp buffer
/// (`has_buffer` false); otherwise the ramp to copy into it, word for word
/// (`get_ramp_identity_filled`).
pub fn get_gamma_ramp(st: &DDrawState, has_buffer: bool) -> (r: Result<[u16; 768], DDrawError>)
    ensures
        !has_buffer ==> r == Err::<[u16; 768], DDrawError>(DDrawError::InvalidArg),
        has_buffer ==> (r matches Ok(g) && reported_ramp(st, g)),
{
    if !has_buffer {
        return Err(DDrawError::InvalidArg);
    }
    Ok(get_ramp_identity_filled(st))
}

/// `IDirectDrawGammaControl::SetGammaRamp`: refuses a missing ramp;
/// otherwise stores its 768 words as they are.
pub fn set_gamma_ramp(st: &mut DDrawState, ramp: Option<&[u16; 768]>) -> (r: Result<(), DDrawError>)
    ensures
        ramp is None ==> r == Err::<(), DDrawError>(DDrawError::InvalidArg) && *final(st) == *old(st),
        ramp matches Some(g) ==> r is Ok && *final(st) == (DDrawState { gamma_ramp: Some(*g), ..*old(st) }),
{
    match ramp {
        None => Err(DDrawError::InvalidArg),
        Some(g) => {
            set_ramp(st, g);
            Ok(())
        },
    }
}

} // verus!
