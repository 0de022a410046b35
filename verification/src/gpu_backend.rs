//! Whether the GPU backend of the visual effects can be used: it is set up
//! on first use, given up for good when set-up or a render fails, and can be
//! switched off from the environment.

use crate::text::{ascii_lower, chars_of, to_ascii_lower};
use vstd::prelude::*;

verus! {

/// Why the GPU backend is not used.
#[derive(Debug, Clone, Copy, PartialEq, Eq, Structural)]
pub enum GpuDisableReason {
    /// The environment asked for it.
    ForcedByEnv,
    /// No device could be set up.
    InitFailed,
    /// A render failed.
    RenderFailed,
}

/// The state of the GPU backend.
#[derive(Debug, Clone, Copy, PartialEq, Eq, Structural)]
pub enum GpuAvailability {
    /// Nothing was tried yet.
    Uninitialized,
    /// A device is set up.
    Available,
    /// The backend was given up.
    Unavailable(GpuDisableReason),
}

/// What is to be done before a render.
#[derive(Debug, Clone, Copy, PartialEq, Eq, Structural)]
pub enum InitPlan {
    /// A device is set up: render.
    Ready,
    /// The backend is not used: fall back.
    Refused(GpuDisableReason),
    /// Set up a device and report how it went.
    Create,
}

/// Whether the characters spell a flag that is switched on: `1`, or `true`
/// in any mix of upper and lower case.
pub open spec fn spells_on(v: Seq<char>) -> bool {
    v == seq!['1'] || (v.len() == 4 && ascii_lower(v[0]) == 't' && ascii_lower(v[1]) == 'r'
        && ascii_lower(v[2]) == 'u' && ascii_lower(v[3]) == 'e')
}

/// Whether an environment variable with the given value, if it is set at
/// all, switches a flag on.
pub fn flag_is_set(value: Option<&str>) -> (r: bool)
    ensures
        r == (value matches Some(v) && spells_on(v@)),
{
    match value {
        Some(v) => {
            let chars = chars_of(v);
            if chars.len() == 1 {
                let on = chars[0] == '1';
                assert(on == (chars@ =~= seq!['1']));
                on
            } else if chars.len() == 4 {
                to_ascii_lower(chars[0]) == 't' && to_ascii_lower(chars[1]) == 'r'
                    && to_ascii_lower(chars[2]) == 'u' && to_ascii_lower(chars[3]) == 'e'
            } else {
                false
            }
        },
        None => false,
    }
}

impl GpuAvailability {
    /// What a request to render finds: a device that is set up is ready; a
    /// backend that was given up stays refused as failed set-up; else the
    /// environment may refuse, and if it does not, a device is to be set up.
    pub open spec fn plan(self, force_fail: bool) -> InitPlan {
        match self {
            GpuAvailability::Available => InitPlan::Ready,
            GpuAvailability::Unavailable(_) => InitPlan::Refused(GpuDisableReason::InitFailed),
            GpuAvailability::Uninitialized => if force_fail {
                InitPlan::Refused(GpuDisableReason::ForcedByEnv)
            } else {
                InitPlan::Create
            },
        }
    }

    /// The state after a request to render was planned: a refusal by the
    /// environment gives the backend up.
    pub open spec fn planned(self, force_fail: bool) -> GpuAvailability {
        if self == GpuAvailability::Uninitialized && force_fail {
            GpuAvailability::Unavailable(GpuDisableReason::ForcedByEnv)
        } else {
            self
        }
    }

    /// The state in which nothing was tried yet.
    pub fn new() -> (s: GpuAvailability)
        ensures
            s == GpuAvailability::Uninitialized,
    {
        GpuAvailability::Uninitialized
    }

    /// Whether the backend was given up.
    pub fn is_disabled(&self) -> (r: bool)
        ensures
            r == (*self is Unavailable),
    {
        match self {
            GpuAvailability::Unavailable(_) => true,
            _ => false,
        }
    }

    /// Whether a device is set up.
    pub fn is_available(&self) -> (r: bool)
        ensures
            r == (*self == GpuAvailability::Available),
    {
        match self {
            GpuAvailability::Available => true,
            _ => false,
        }
    }

    /// Gives the backend up.
    pub fn disable(&mut self, reason: GpuDisableReason)
        ensures
            *final(self) == GpuAvailability::Unavailable(reason),
    {
        *self = GpuAvailability::Unavailable(reason);
    }

    /// Plans a request to render. `force_fail` says whether the
    /// environment asks for set-up to fail.
    pub fn plan_init(&mut self, force_fail: bool) -> (p: InitPlan)
        ensures
            p == old(self).plan(force_fail),
            *final(self) == old(self).planned(force_fail),
    {
        match *self {
            GpuAvailability::Available => InitPlan::Ready,
            GpuAvailability::Unavailable(_) => InitPlan::Refused(GpuDisableReason::InitFailed),
            GpuAvailability::Uninitialized => {
                if force_fail {
                    self.disable(GpuDisableReason::ForcedByEnv);
                    InitPlan::Refused(GpuDisableReason::ForcedByEnv)
                } else {
                    InitPlan::Create
                }
            },
        }
    }

    /// Takes note of how setting up a device went: with a device the
    /// backend is available, without one it is given up.
    pub fn finish_init(&mut self, created: bool) -> (r: Result<(), GpuDisableReason>)
        ensures
            created ==> r.is_ok() && *final(self) == GpuAvailability::Available,
            !created ==> r == Err::<(), GpuDisableReason>(GpuDisableReason::InitFailed)
                && *final(self) == GpuAvailability::Unavailable(GpuDisableReason::InitFailed),
    {
        if created {
            *self = GpuAvailability::Available;
            Ok(())
        } else {
            self.disable(GpuDisableReason::InitFailed);
            Err(GpuDisableReason::InitFailed)
        }
    }

    /// Takes note of how a render went: a failed render gives the backend
    /// up.
    pub fn finish_render(&mut self, rendered: bool) -> (r: Result<(), GpuDisableReason>)
        ensures
            rendered ==> r.is_ok() && *final(self) == *old(self),
            !rendered ==> r == Err::<(), GpuDisableReason>(GpuDisableReason::RenderFailed)
                && *final(self) == GpuAvailability::Unavailable(GpuDisableReason::RenderFailed),
    {
        if rendered {
            Ok(())
        } else {
            self.disable(GpuDisableReason::RenderFailed);
            Err(GpuDisableReason::RenderFailed)
        }
    }
}

impl Default for GpuAvailability {
    fn default() -> (s: GpuAvailability)
        ensures
            s == GpuAvailability::Uninitialized,
    {
        GpuAvailability::new()
    }
}

/// The number of items that a buffer of the device is made for when `n`
/// are asked for: at least one.
pub open spec fn at_least_one(n: usize) -> usize {
    if n < 1 {
        1
    } else {
        n
    }
}

/// The capacity that a buffer of the device grows to when `wanted` items
/// are to fit: `None` where it is large enough as it is.
pub fn grown_capacity(capacity: usize, wanted: usize) -> (r: Option<usize>)
    ensures
        r == if at_least_one(wanted) > capacity {
            Some(at_least_one(wanted))
        } else {
            None
        },
{
    let wanted = if wanted < 1 {
        1
    } else {
        wanted
    };
    if wanted > capacity {
        Some(wanted)
    } else {
        None
    }
}

/// The number of groups of `divisor` that cover `value`: the quotient,
/// rounded up.
pub fn div_ceil(value: u32, divisor: u32) -> (r: u32)
    requires
        divisor > 0,
    ensures
        (r as int - 1) * divisor < value <= r as int * divisor,
{
    let q = value / divisor;
    let rest = value % divisor;
    proof {
        vstd::arithmetic::div_mod::lemma_fundamental_div_mod(value as int, divisor as int);
        assert(q as int * divisor == divisor as int * q) by (nonlinear_arith);
        assert((q as int + 1) * divisor == q as int * divisor + divisor) by (nonlinear_arith);
        assert((q as int - 1) * divisor == q as int * divisor - divisor) by (nonlinear_arith);
    }
    if rest != 0 {
        assert(q < u32::MAX) by {
            if q == u32::MAX {
                assert(q as int * divisor >= q) by (nonlinear_arith)
                    requires
                        divisor >= 1,
                        q >= 0,
                ;
            }
        }
        q + 1
    } else {
        q
    }
}

} // verus!
