//! Compressed volumetric flow storage and the scoped edit session.
//!
//! A [`FlowField`] keeps one half-precision [`Texel`] per grid cell, in a
//! flat array in row-major order (`index = x + size.x * (y + size.y * z)`).
//! The array length always equals `size.x * size.y * size.z`; it is never
//! resized in place — only wholesale reconstruction replaces it.
//!
//! Mutation happens only through a [`FlowFieldGuard`], the edit session:
//! opening a session decompresses every texel into a full-precision scratch
//! buffer, all reads and writes act on that buffer, and releasing the
//! session recompresses the buffer into the field. The session owns the
//! field for its whole lifetime, so no code path can observe the field
//! between decompression and the flush, and no two sessions can be open on
//! one field at a time.

use vstd::prelude::*;

use crate::codec::Texel;
use crate::codec::compress;
use crate::codec::compress_texel;
use crate::codec::decompress;
use crate::codec::decompress_texel;
use crate::codec::lemma_zero_round_trip;
use crate::generator::FlowFieldGenerator;
use crate::vector::Float3;
use crate::vector::FlowVector;
use crate::vector::HALF_F32;
use crate::vector::TWO_F32;
use crate::vector::add_bits;
use crate::vector::div_bits;
use crate::vector::sub_bits;
use vstd::arithmetic::div_mod::lemma_fundamental_div_mod;
use vstd::arithmetic::div_mod::lemma_fundamental_div_mod_converse;
use vstd::arithmetic::div_mod::lemma_multiply_divide_lt;

verus! {

/// Names the plugin that installs this module's systems into the
/// application shell; the wiring itself lives outside the verified core.
pub struct FlowFieldPlugin;

/// A triple of non-negative integers: grid extents or a grid coordinate.
#[derive(Clone, Copy, PartialEq, Eq, Structural, Debug)]
pub struct UInt3 {
    /// First axis.
    pub x: u32,
    /// Second axis.
    pub y: u32,
    /// Third axis.
    pub z: u32,
}

/// The number of grid cells of a grid with extents `size`.
pub open spec fn texel_count(size: UInt3) -> int {
    size.x as int * size.y as int * size.z as int
}

/// Whether `coords` lies inside a grid with extents `size`.
pub open spec fn in_bounds(size: UInt3, coords: UInt3) -> bool {
    coords.x < size.x && coords.y < size.y && coords.z < size.z
}

/// The canonical row-major flat index of `coords` in a grid with extents
/// `size`.
pub open spec fn spec_index(size: UInt3, coords: UInt3) -> int {
    coords.x + size.x as int * (coords.y + size.y as int * coords.z as int)
}

/// An in-bounds coordinate's row-major index lies inside the texel array.
pub proof fn lemma_index_in_range(size: UInt3, coords: UInt3)
    requires
        in_bounds(size, coords),
    ensures
        0 <= spec_index(size, coords) < texel_count(size),
{
    let cx = coords.x as int;
    let cy = coords.y as int;
    let cz = coords.z as int;
    let sx = size.x as int;
    let sy = size.y as int;
    let sz = size.z as int;
    assert(cx + sx * (cy + sy * cz) < sx * sy * sz) by (nonlinear_arith)
        requires
            0 <= cx < sx,
            0 <= cy < sy,
            0 <= cz < sz,
    ;
    assert(0 <= sx * (cy + sy * cz)) by (nonlinear_arith)
        requires
            0 <= sx && 0 <= cy && 0 <= sy && 0 <= cz,
    ;
}

/// Computes the row-major flat index of `coords`.
fn coords_to_index(size: UInt3, coords: UInt3) -> (r: usize)
    requires
        in_bounds(size, coords),
        texel_count(size) <= u32::MAX,
    ensures
        r == spec_index(size, coords),
{
    proof {
        lemma_index_in_range(size, coords);
        assert((coords.y as int + size.y as int * coords.z as int) < (size.y as int
            * size.z as int)) by (nonlinear_arith)
            requires
                coords.y < size.y,
                coords.z < size.z,
                0 <= coords.y as int,
                0 <= coords.z as int,
                1 <= size.y as int,
        ;
        assert(size.y as int * size.z as int <= size.x as int * size.y as int * size.z as int)
            by (nonlinear_arith)
            requires
                1 <= size.x as int,
                0 <= size.y as int,
                0 <= size.z as int,
        ;
    }
    let inner: usize = coords.y as usize + size.y as usize * coords.z as usize;
    assert(spec_index(size, coords) == coords.x as int + size.x as int * inner as int)
        by (nonlinear_arith)
        requires
            inner as int == coords.y as int + size.y as int * coords.z as int,
    ;
    assert(size.x as int * inner as int <= spec_index(size, coords));
    coords.x as usize + size.x as usize * inner
}

/// The single-precision bit pattern of the value of the unsigned integer
/// `n` (rounded to nearest for integers above the mantissa range).
pub uninterp spec fn float_of_uint(n: u32) -> u32;

/// Relies on `bevy_math::UVec3::as_vec3`: converts each unsigned
/// component to single precision.
#[verifier::external_body]
pub(crate) fn uint3_to_float(v: UInt3) -> (r: Float3)
    ensures
        r.x == float_of_uint(v.x),
        r.y == float_of_uint(v.y),
        r.z == float_of_uint(v.z),
{
    let a = bevy_math::UVec3::new(v.x, v.y, v.z).as_vec3().to_array();
    Float3 { x: a[0].to_bits(), y: a[1].to_bits(), z: a[2].to_bits() }
}

/// The centered world-space sample position of the cell `coords` in a
/// grid with extents `size`: per axis, `coords + 0.5 - size / 2`, in
/// grid units under single-precision arithmetic.
pub open spec fn spec_center_position(size: UInt3, coords: UInt3) -> Float3 {
    Float3 {
        x: sub_bits(
            add_bits(float_of_uint(coords.x), HALF_F32),
            div_bits(float_of_uint(size.x), TWO_F32),
        ),
        y: sub_bits(
            add_bits(float_of_uint(coords.y), HALF_F32),
            div_bits(float_of_uint(size.y), TWO_F32),
        ),
        z: sub_bits(
            add_bits(float_of_uint(coords.z), HALF_F32),
            div_bits(float_of_uint(size.z), TWO_F32),
        ),
    }
}

/// Computes the centered world-space sample position of `coords`.
pub fn center_position(size: UInt3, coords: UInt3) -> (r: Float3)
    ensures
        r == spec_center_position(size, coords),
{
    let cf = uint3_to_float(coords);
    let sf = uint3_to_float(size);
    let shifted = FlowVector { x: cf.x, y: cf.y, z: cf.z, w: 0u32 }.add(
        FlowVector { x: HALF_F32, y: HALF_F32, z: HALF_F32, w: 0u32 },
    );
    let half_size = FlowVector { x: sf.x, y: sf.y, z: sf.z, w: 0u32 }.div(TWO_F32);
    let pos = shifted.sub(half_size);
    Float3 { x: pos.x, y: pos.y, z: pos.z }
}

/// The grid coordinate whose row-major flat index is `k`.
pub open spec fn spec_coords_of(size: UInt3, k: int) -> UInt3 {
    UInt3 {
        x: (k % (size.x as int)) as u32,
        y: ((k / (size.x as int)) % (size.y as int)) as u32,
        z: ((k / (size.x as int)) / (size.y as int)) as u32,
    }
}

/// Decoding a coordinate's row-major index returns that coordinate.
pub proof fn lemma_coords_of_index(size: UInt3, coords: UInt3)
    requires
        in_bounds(size, coords),
    ensures
        spec_coords_of(size, spec_index(size, coords)) == coords,
{
    let sx = size.x as int;
    let sy = size.y as int;
    let cx = coords.x as int;
    let cy = coords.y as int;
    let cz = coords.z as int;
    let q = cy + sy * cz;
    let k = spec_index(size, coords);
    assert(k == q * sx + cx) by (nonlinear_arith)
        requires
            k == cx + sx * q,
    ;
    assert(0 <= q) by (nonlinear_arith)
        requires
            q == cy + sy * cz,
            0 <= cy && 0 <= sy && 0 <= cz,
    ;
    lemma_fundamental_div_mod_converse(k, sx, q, cx);
    assert(q == cz * sy + cy) by (nonlinear_arith)
        requires
            q == cy + sy * cz,
    ;
    lemma_fundamental_div_mod_converse(q, sy, cz, cy);
}

/// Compressed volumetric storage: fixed grid extents and one compressed
/// texel per cell, in row-major order.
///
/// The texel array always holds exactly `size.x * size.y * size.z`
/// entries; every construction path establishes this and nothing resizes
/// it in place. Do not build the struct literally — use [`FlowField::zeroed`]
/// or [`FlowField::from_gen`].
pub struct FlowField {
    /// Optional descriptive label; purely informational.
    pub label: Option<String>,
    /// Grid extents.
    pub size: UInt3,
    /// One compressed texel per grid cell, row-major.
    pub texels: Vec<Texel>,
}

impl FlowField {
    /// The storage invariant: one texel per grid cell, and few enough
    /// cells that every flat index fits the grid arithmetic.
    pub open spec fn wf(self) -> bool {
        &&& self.texels@.len() == texel_count(self.size)
        &&& texel_count(self.size) <= u32::MAX
    }

    /// Allocates a field of the given extents with every texel encoding
    /// the zero vector. A zero extent on any axis yields an empty array.
    pub fn zeroed(size: UInt3) -> (f: FlowField)
        requires
            texel_count(size) <= u32::MAX,
        ensures
            f.wf(),
            f.size == size,
            f.label is None,
            forall|i: int|
                0 <= i < f.texels@.len() ==> f.texels@[i] == compress(FlowVector::spec_zero()),
    {
        let n: usize = if size.x == 0 || size.y == 0 || size.z == 0 {
            0
        } else {
            assert(size.x as int * (size.y as int * size.z as int) <= u32::MAX)
                by (nonlinear_arith)
                requires
                    size.x as int * size.y as int * size.z as int <= u32::MAX,
                    1 <= size.x as int,
                    1 <= size.y as int,
                    1 <= size.z as int,
            ;
            assert(size.y as int * size.z as int <= u32::MAX) by (nonlinear_arith)
                requires
                    size.x as int * (size.y as int * size.z as int) <= u32::MAX,
                    1 <= size.x as int,
                    0 <= size.y as int * size.z as int,
            ;
            (size.x as usize) * ((size.y as usize) * (size.z as usize))
        };
        assert(n == texel_count(size)) by (nonlinear_arith)
            requires
                size.x == 0 || size.y == 0 || size.z == 0 ==> n == 0,
                !(size.x == 0 || size.y == 0 || size.z == 0) ==> n == size.x as int * (
                size.y as int * size.z as int),
        ;
        let zero_texel = Texel { x: 0u16, y: 0u16, z: 0u16, w: 0u16 };
        proof {
            lemma_zero_round_trip();
        }
        let mut texels: Vec<Texel> = Vec::new();
        let mut i: usize = 0;
        while i < n
            invariant
                i <= n,
                texels@.len() == i,
                zero_texel == compress(FlowVector::spec_zero()),
                forall|j: int| 0 <= j < i ==> texels@[j] == compress(FlowVector::spec_zero()),
            decreases n - i,
        {
            texels.push(zero_texel);
            i = i + 1;
        }
        FlowField { label: None, size, texels }
    }

    /// Builds a field of the given extents filled from `generator`:
    /// equivalent to [`FlowField::zeroed`] followed by a full-field
    /// generator fill through one edit session.
    pub fn from_gen<G: FlowFieldGenerator>(size: UInt3, generator: G) -> (f: FlowField)
        requires
            texel_count(size) <= u32::MAX,
        ensures
            f.wf(),
            f.size == size,
            f.label is None,
            forall|c: UInt3|
                in_bounds(size, c) ==> f.texels@[spec_index(size, c)] == compress(
                    generator.spec_generate(spec_center_position(size, c)),
                ),
    {
        let field = FlowField::zeroed(size);
        let mut guard = field.modify();
        guard.fill_from_gen(&generator);
        let f = guard.release();
        proof {
            assert forall|c: UInt3| in_bounds(size, c) implies f.texels@[spec_index(size, c)]
                == compress(generator.spec_generate(spec_center_position(size, c))) by {
                lemma_index_in_range(size, c);
            }
        }
        f
    }

    /// Returns this field carrying the given descriptive label.
    pub fn with_label(self, label: String) -> (f: FlowField)
        ensures
            f.label == Some(label),
            f.size == self.size,
            f.texels == self.texels,
    {
        FlowField { label: Some(label), size: self.size, texels: self.texels }
    }

    /// The field's descriptive label, if one was set.
    pub fn label(&self) -> (r: &Option<String>)
        ensures
            r == &self.label,
    {
        &self.label
    }

    /// The field's grid extents.
    pub fn size(&self) -> (r: UInt3)
        ensures
            r == self.size,
    {
        self.size
    }

    /// Opens the edit session over this field: decompresses every texel
    /// into a full-precision scratch buffer and hands ownership of the
    /// field to the returned guard. The field is unavailable until
    /// [`FlowFieldGuard::release`] recompresses the buffer and returns it,
    /// so exclusive access and flush-on-release hold on every path.
    pub fn modify(self) -> (g: FlowFieldGuard)
        requires
            self.wf(),
        ensures
            g.wf(),
            g.size == self.size,
            g.label == self.label,
            g.scratch@.len() == self.texels@.len(),
            forall|i: int|
                0 <= i < self.texels@.len() ==> g.scratch@[i] == decompress(self.texels@[i]),
    {
        let mut scratch: Vec<FlowVector> = Vec::new();
        let mut i: usize = 0;
        while i < self.texels.len()
            invariant
                i <= self.texels@.len(),
                scratch@.len() == i,
                forall|j: int|
                    0 <= j < i ==> scratch@[j] == decompress(self.texels@[j]),
            decreases self.texels@.len() - i,
        {
            scratch.push(decompress_texel(self.texels[i]));
            i = i + 1;
        }
        FlowFieldGuard { label: self.label, size: self.size, scratch }
    }
}

/// The edit session: exclusive, decompressed access to one field's
/// storage.
///
/// The guard owns the field's identity and a full-precision scratch
/// buffer; all reads and writes act on the buffer. Releasing the guard
/// recompresses the buffer into a fresh [`FlowField`] — since the guard
/// holds the only copy of the field, the flush cannot be skipped on any
/// path that yields the field back, and no second session can exist
/// concurrently.
pub struct FlowFieldGuard {
    /// The owned field's label, carried through to the release.
    pub label: Option<String>,
    /// The owned field's grid extents.
    pub size: UInt3,
    /// Full-precision scratch buffer, one flow vector per grid cell,
    /// row-major.
    pub scratch: Vec<FlowVector>,
}

impl FlowFieldGuard {
    /// The session invariant: one scratch entry per grid cell.
    pub open spec fn wf(self) -> bool {
        &&& self.scratch@.len() == texel_count(self.size)
        &&& texel_count(self.size) <= u32::MAX
    }

    /// The value the session holds at `coords`.
    pub open spec fn spec_get(self, coords: UInt3) -> FlowVector {
        self.scratch@[spec_index(self.size, coords)]
    }

    /// Reads the flow vector at `coords` from the scratch buffer.
    pub fn get(&self, coords: UInt3) -> (r: FlowVector)
        requires
            self.wf(),
            in_bounds(self.size, coords),
        ensures
            r == self.spec_get(coords),
    {
        proof {
            lemma_index_in_range(self.size, coords);
        }
        let index = coords_to_index(self.size, coords);
        self.scratch[index]
    }

    /// Borrows the flow vector at `coords` in the scratch buffer for
    /// mutation in place.
    pub fn get_mut(&mut self, coords: UInt3) -> (r: &mut FlowVector)
        requires
            old(self).wf(),
            in_bounds(old(self).size, coords),
        ensures
            *r == old(self).spec_get(coords),
            final(self).size == old(self).size,
            final(self).label == old(self).label,
            final(self).scratch@ == old(self).scratch@.update(
                spec_index(old(self).size, coords),
                *final(r),
            ),
            final(self).wf(),
    {
        proof {
            lemma_index_in_range(self.size, coords);
        }
        let index = coords_to_index(self.size, coords);
        &mut self.scratch[index]
    }

    /// Stores `value` at `coords` in the scratch buffer.
    pub fn set(&mut self, coords: UInt3, value: FlowVector)
        requires
            old(self).wf(),
            in_bounds(old(self).size, coords),
        ensures
            final(self).size == old(self).size,
            final(self).label == old(self).label,
            final(self).scratch@ == old(self).scratch@.update(
                spec_index(old(self).size, coords),
                value,
            ),
            final(self).wf(),
    {
        proof {
            lemma_index_in_range(self.size, coords);
        }
        let index = coords_to_index(self.size, coords);
        self.scratch[index] = value;
    }

    /// Fills every cell of the session from `generator`: visits each
    /// grid coordinate exactly once, samples the generator at the cell's
    /// centered world-space position and stores the result.
    pub fn fill_from_gen<G: FlowFieldGenerator>(&mut self, generator: &G)
        requires
            old(self).wf(),
        ensures
            final(self).wf(),
            final(self).size == old(self).size,
            final(self).label == old(self).label,
            forall|c: UInt3|
                in_bounds(old(self).size, c) ==> final(self).scratch@[spec_index(
                    old(self).size,
                    c,
                )] == generator.spec_generate(spec_center_position(old(self).size, c)),
    {
        let n = self.scratch.len();
        let mut k: usize = 0;
        while k < n
            invariant
                self.wf(),
                k <= n,
                n == self.scratch@.len(),
                self.size == old(self).size,
                self.label == old(self).label,
                forall|j: int|
                    0 <= j < k ==> self.scratch@[j] == generator.spec_generate(
                        spec_center_position(self.size, spec_coords_of(self.size, j)),
                    ),
            decreases n - k,
        {
            let size = self.size;
            proof {
                assert(size.x as int >= 1 && size.y as int >= 1 && size.z as int >= 1)
                    by (nonlinear_arith)
                    requires
                        size.x as int * size.y as int * size.z as int > k as int,
                        k as int >= 0,
                ;
            }
            let sx = size.x as usize;
            let sy = size.y as usize;
            let cx = k % sx;
            let t = k / sx;
            let cy = t % sy;
            let cz = t / sy;
            proof {
                assert(size.x as int * size.y as int * size.z as int == size.x as int * (
                size.y as int * size.z as int)) by (nonlinear_arith);
                lemma_multiply_divide_lt(k as int, size.x as int, size.y as int * size.z as int);
                lemma_multiply_divide_lt(t as int, size.y as int, size.z as int);
            }
            let coords = UInt3 { x: cx as u32, y: cy as u32, z: cz as u32 };
            proof {
                lemma_fundamental_div_mod(k as int, size.x as int);
                lemma_fundamental_div_mod(t as int, size.y as int);
                assert(spec_index(size, coords) == k as int) by (nonlinear_arith)
                    requires
                        k as int == size.x as int * t as int + cx as int,
                        t as int == size.y as int * cz as int + cy as int,
                        coords.x == cx as int && coords.y == cy as int && coords.z == cz as int,
                        spec_index(size, coords) == coords.x + size.x as int * (coords.y
                            + size.y as int * coords.z as int),
                ;
                assert(coords == spec_coords_of(size, k as int));
            }
            let pos = center_position(size, coords);
            let value = generator.generate(pos);
            self.set(coords, value);
            k = k + 1;
        }
        proof {
            assert forall|c: UInt3| in_bounds(old(self).size, c) implies self.scratch@[spec_index(
                old(self).size,
                c,
            )] == generator.spec_generate(spec_center_position(old(self).size, c)) by {
                lemma_index_in_range(old(self).size, c);
                lemma_coords_of_index(old(self).size, c);
            }
        }
    }

    /// Releases the session: recompresses the scratch buffer and yields
    /// the field back. This is the only way to recover the field, so the
    /// flush happens on every path on which the field is seen again.
    pub fn release(self) -> (f: FlowField)
        requires
            self.wf(),
        ensures
            f.wf(),
            f.size == self.size,
            f.label == self.label,
            f.texels@.len() == self.scratch@.len(),
            forall|i: int|
                0 <= i < self.scratch@.len() ==> f.texels@[i] == compress(self.scratch@[i]),
    {
        let mut texels: Vec<Texel> = Vec::new();
        let mut i: usize = 0;
        while i < self.scratch.len()
            invariant
                i <= self.scratch@.len(),
                texels@.len() == i,
                forall|j: int|
                    0 <= j < i ==> texels@[j] == compress(self.scratch@[j]),
            decreases self.scratch@.len() - i,
        {
            texels.push(compress_texel(self.scratch[i]));
            i = i + 1;
        }
        FlowField { label: self.label, size: self.size, texels }
    }
}

/// Within one edit session, a stored value is read back exactly: the
/// scratch buffer is full precision, so no rounding happens before the
/// flush. `scratch` is any session buffer of the right length; the update
/// and the read are what `set` and `get` state in their contracts.
pub proof fn lemma_set_then_get(
    scratch: Seq<FlowVector>,
    size: UInt3,
    coords: UInt3,
    value: FlowVector,
)
    requires
        scratch.len() == texel_count(size),
        in_bounds(size, coords),
    ensures
        scratch.update(spec_index(size, coords), value)[spec_index(size, coords)] == value,
{
    lemma_index_in_range(size, coords);
}

/// A store disturbs no other cell of the same session.
pub proof fn lemma_set_preserves_others(
    scratch: Seq<FlowVector>,
    size: UInt3,
    coords: UInt3,
    other: UInt3,
    value: FlowVector,
)
    requires
        scratch.len() == texel_count(size),
        in_bounds(size, coords),
        in_bounds(size, other),
        spec_index(size, other) != spec_index(size, coords),
    ensures
        scratch.update(spec_index(size, coords), value)[spec_index(size, other)]
            == scratch[spec_index(size, other)],
{
    lemma_index_in_range(size, coords);
    lemma_index_in_range(size, other);
}

/// Flushing a session and reopening one reads back exactly the
/// compressed-then-decompressed value of what the session held: the
/// original value within the rounding of the half-precision format, for
/// every channel independently.
///
/// `texels` is what the release writes back, `reopened` what the next
/// session decompresses, both stated as their contracts state them.
pub proof fn lemma_flush_then_reopen(
    scratch: Seq<FlowVector>,
    texels: Seq<Texel>,
    reopened: Seq<FlowVector>,
    i: int,
)
    requires
        texels.len() == scratch.len(),
        forall|j: int| 0 <= j < scratch.len() ==> texels[j] == compress(scratch[j]),
        reopened.len() == texels.len(),
        forall|j: int| 0 <= j < texels.len() ==> reopened[j] == decompress(texels[j]),
        0 <= i < scratch.len(),
    ensures
        reopened[i] == decompress(compress(scratch[i])),
{
}

/// A zero-filled field reads back as the zero vector at every cell of the
/// next session: the zero pattern survives compression and decompression
/// exactly.
pub proof fn lemma_zeroed_reads_zero(texels: Seq<Texel>, reopened: Seq<FlowVector>, i: int)
    requires
        forall|j: int| 0 <= j < texels.len() ==> texels[j] == compress(FlowVector::spec_zero()),
        reopened.len() == texels.len(),
        forall|j: int| 0 <= j < texels.len() ==> reopened[j] == decompress(texels[j]),
        0 <= i < texels.len(),
    ensures
        reopened[i] == FlowVector::spec_zero(),
{
    lemma_zero_round_trip();
}

/// A field filled from a uniform generator reads back, at every in-range
/// coordinate of the next session, exactly the compressed-then-
/// decompressed fill value: the value within half-precision rounding.
///
/// `texels` is what `from_gen` with a uniform generator ensures (a
/// uniform generator's output is its fixed value at every position);
/// `reopened` is what the next session decompresses.
pub proof fn lemma_uniform_fill_reads_value(
    texels: Seq<Texel>,
    reopened: Seq<FlowVector>,
    size: UInt3,
    coords: UInt3,
    value: FlowVector,
)
    requires
        texels.len() == texel_count(size),
        forall|c: UInt3|
            in_bounds(size, c) ==> texels[spec_index(size, c)] == compress(value),
        reopened.len() == texels.len(),
        forall|j: int| 0 <= j < texels.len() ==> reopened[j] == decompress(texels[j]),
        in_bounds(size, coords),
    ensures
        reopened[spec_index(size, coords)] == decompress(compress(value)),
{
    lemma_index_in_range(size, coords);
}

} // verus!
