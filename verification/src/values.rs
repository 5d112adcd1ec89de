//! Plain value types shared across the library: namespaced identifiers,
//! integer block/chunk coordinates, and bit-pattern carriers for the
//! floating-point positions and headings that the wire protocol uses.
use vstd::prelude::*;

verus! {

use vstd::string::StringExecFns;

/// A namespaced identifier, e.g. `minecraft:grass_block`.
pub struct Id {
    pub namespace: String,
    pub path: String,
}

impl View for Id {
    type V = (Seq<char>, Seq<char>);

    open spec fn view(&self) -> (Seq<char>, Seq<char>) {
        (self.namespace@, self.path@)
    }
}

impl Id {
    pub fn new(namespace: String, path: String) -> (r: Id)
        ensures
            r@ == (namespace@, path@),
    {
        Id { namespace, path }
    }

    pub fn constant(namespace: &str, path: &str) -> (r: Id)
        ensures
            r@ == (namespace@, path@),
    {
        Id { namespace: String::from_str(namespace), path: String::from_str(path) }
    }
}

impl Clone for Id {
    fn clone(&self) -> (r: Id)
        ensures
            r == *self,
    {
        Id { namespace: self.namespace.clone(), path: self.path.clone() }
    }
}

impl PartialEq for Id {
    fn eq(&self, other: &Id) -> (r: bool)
        ensures
            r == (self@ == other@),
    {
        self.namespace == other.namespace && self.path == other.path
    }
}

impl vstd::std_specs::cmp::PartialEqSpecImpl for Id {
    open spec fn obeys_eq_spec() -> bool {
        true
    }

    open spec fn eq_spec(&self, other: &Id) -> bool {
        self@ == other@
    }
}

/// A block position or block offset in world coordinates.
#[derive(Clone, Copy, PartialEq, Eq, Structural, Debug)]
pub struct Vec3i {
    pub x: i32,
    pub y: i32,
    pub z: i32,
}

impl Vec3i {
    pub fn new(x: i32, y: i32, z: i32) -> (r: Vec3i)
        ensures
            r == (Vec3i { x, y, z }),
    {
        Vec3i { x, y, z }
    }
}

/// A position local to a chunk section, each axis in `[0, 16)` when valid.
#[derive(Clone, Copy, PartialEq, Eq, Structural, Debug)]
pub struct UVec3 {
    pub x: usize,
    pub y: usize,
    pub z: usize,
}

impl UVec3 {
    pub fn new(x: usize, y: usize, z: usize) -> (r: UVec3)
        ensures
            r == (UVec3 { x, y, z }),
    {
        UVec3 { x, y, z }
    }
}

/// A chunk coordinate: the (x, z) index of a 16-block column.
#[derive(Clone, Copy, PartialEq, Eq, Structural, Debug)]
pub struct Vec2i {
    pub x: i32,
    pub z: i32,
}

impl Vec2i {
    pub fn new(x: i32, z: i32) -> (r: Vec2i)
        ensures
            r == (Vec2i { x, z }),
    {
        Vec2i { x, z }
    }
}

/// A double-precision position, carried as IEEE-754 bit patterns so that
/// the verified state machines can store and compare it exactly without
/// floating-point arithmetic.
#[derive(Clone, Copy, PartialEq, Eq, Structural, Debug)]
pub struct Vec3d {
    pub x_bits: u64,
    pub y_bits: u64,
    pub z_bits: u64,
}

impl Vec3d {
    pub fn new(x_bits: u64, y_bits: u64, z_bits: u64) -> (r: Vec3d)
        ensures
            r == (Vec3d { x_bits, y_bits, z_bits }),
    {
        Vec3d { x_bits, y_bits, z_bits }
    }

    /// The all-zero-bits origin (0.0, 0.0, 0.0).
    pub fn origin() -> (r: Vec3d)
        ensures
            r == (Vec3d { x_bits: 0u64, y_bits: 0u64, z_bits: 0u64 }),
    {
        Vec3d { x_bits: 0, y_bits: 0, z_bits: 0 }
    }
}

/// Floor division by 16: the chunk or section coordinate of a world
/// coordinate.
pub fn floor_div_16(v: i32) -> (r: i32)
    ensures
        r as int == (v as int) / 16,
{
    proof {
        vstd::arithmetic::div_mod::lemma_div_is_ordered(-0x8000_0000, v as int, 16);
        vstd::arithmetic::div_mod::lemma_div_is_ordered(v as int, 0x7fff_ffff, 16);
    }
    match v.checked_div_euclid(16) {
        Some(q) => q,
        None => {
            proof {
                assert(false);
            }
            0
        }
    }
}

/// Euclidean remainder by 16: the in-chunk offset of a world coordinate.
pub fn rem_euclid_16(v: i32) -> (r: i32)
    ensures
        r as int == (v as int) % 16,
        0 <= r < 16,
{
    match v.checked_rem_euclid(16) {
        Some(q) => q,
        None => {
            proof {
                assert(false);
            }
            0
        }
    }
}

/// A single-precision (yaw, pitch) heading, carried as bit patterns.
#[derive(Clone, Copy, PartialEq, Eq, Structural, Debug)]
pub struct Vec2f {
    pub x_bits: u32,
    pub y_bits: u32,
}

impl Vec2f {
    pub fn new(x_bits: u32, y_bits: u32) -> (r: Vec2f)
        ensures
            r == (Vec2f { x_bits, y_bits }),
    {
        Vec2f { x_bits, y_bits }
    }

    /// The all-zero-bits heading (0.0, 0.0).
    pub fn zero() -> (r: Vec2f)
        ensures
            r == (Vec2f { x_bits: 0u32, y_bits: 0u32 }),
    {
        Vec2f { x_bits: 0, y_bits: 0 }
    }
}

} // verus!
