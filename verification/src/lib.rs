//! A free-standing, verified camera-control library.
//!
//! The crate models a 3D camera over exact fixed-point scalars: vector and
//! matrix primitives, a color model, a per-frame camera-update controller
//! driven by sampled input, and a recorded 2D drawing surface. Every
//! executable function carries a contract that pins its result down.

use vstd::prelude::*;

pub mod camera3d;
pub mod colors;
pub mod controller;
pub mod fixed;
pub mod matrix;
pub mod twod;
pub mod vector3;
pub mod window;

verus! {

/// The error this library reports: a short, static description of what
/// went wrong.
#[derive(Clone, Copy, Debug)]
pub struct DonkeyError(pub &'static str);

impl DonkeyError {
    /// The stored description.
    pub fn message(&self) -> (m: &'static str)
        ensures
            m == self.0,
    {
        self.0
    }
}

/// The byte strings that can cross a C string boundary: those without an
/// interior NUL byte.
pub open spec fn nul_free(s: Seq<u8>) -> bool {
    forall|j: int| 0 <= j < s.len() ==> s[j] != 0
}

/// Accepts exactly the NUL-free byte strings. Text-taking entry points
/// run this check and surface the failure as a typed error instead of
/// aborting.
pub fn check_no_nul(bytes: &[u8]) -> (r: Result<(), DonkeyError>)
    ensures
        r is Ok <==> nul_free(bytes@),
{
    let n = bytes.len();
    let mut i: usize = 0;
    while i < n
        invariant
            0 <= i <= n,
            n == bytes@.len(),
            forall|j: int| 0 <= j < i ==> bytes@[j] != 0,
        decreases n - i,
    {
        if bytes[i] == 0 {
            return Err(DonkeyError("NulError"));
        }
        i = i + 1;
    }
    Ok(())
}

/// Which subset of input channels affects the camera, and whether rotation
/// is anchored around the camera itself or around its target.
#[derive(Clone, Copy, Debug, PartialEq, Eq, Structural)]
pub enum CameraMode {
    /// Controlled by the caller: the update controller applies no
    /// mode-specific behaviour beyond the shared key handling.
    Custom,
    /// Free fly: pan, vertical movement and zoom are all available.
    Free,
    /// Orbit around the target at a fixed angular speed; zoom supported.
    Orbital,
    /// First person: movement in the horizontal plane, view locked.
    FirstPerson,
    /// Third person: like first person, but rotating around the target.
    ThirdPerson,
}

} // verus!
