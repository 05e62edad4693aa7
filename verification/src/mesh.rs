//! Triangle meshes and the count of what a set of them holds.

use vstd::prelude::*;
use crate::geometry::{Point, Rectangle};
use crate::transformation::Transformation;

verus! {

/// A vertex of a mesh that is filled with one colour per vertex.
#[derive(Clone, Copy, Debug, PartialEq, Eq, Structural)]
pub struct SolidVertex2D {
    /// Where the vertex lies, before the mesh's transformation.
    pub position: Point,
    /// The colour, as packed RGBA.
    pub color: u32,
}

/// A linear gradient between two colours.
#[derive(Clone, Copy, Debug, PartialEq, Eq, Structural)]
pub struct LinearGradient {
    /// The angle of the gradient, in thousandths of a radian.
    pub angle: i32,
    /// The colour that the gradient starts with, as packed RGBA.
    pub start: u32,
    /// The colour that the gradient ends with, as packed RGBA.
    pub end: u32,
    /// The region that the gradient spans.
    pub bounds: Rectangle,
}

/// A vertex of a mesh that is filled with a linear gradient.
#[derive(Clone, Copy, Debug, PartialEq, Eq, Structural)]
pub struct GradientVertex2D {
    /// Where the vertex lies, before the mesh's transformation.
    pub position: Point,
    /// The gradient that the vertex takes its colour from.
    pub gradient: LinearGradient,
}

/// A vertex buffer and the index buffer that makes triangles of it.
#[derive(Clone, Debug, PartialEq, Eq)]
pub struct Indexed<T> {
    pub vertices: Vec<T>,
    /// Offsets into `vertices`, three to a triangle.
    pub indices: Vec<u32>,
}

impl<T> Indexed<T> {
    /// Every index names a vertex that is there.
    pub open spec fn well_formed(&self) -> bool {
        forall|i: int| 0 <= i < self.indices@.len() ==> (#[trigger] self.indices@[i]) < self.vertices@.len()
    }

    /// Checks that every index names a vertex that is there.
    pub fn is_well_formed(&self) -> (ok: bool)
        ensures
            ok == self.well_formed(),
    {
        let count: usize = self.vertices.len();
        let mut i: usize = 0;
        while i < self.indices.len()
            invariant
                i <= self.indices@.len(),
                count == self.vertices@.len(),
                forall|j: int| 0 <= j < i ==> (#[trigger] self.indices@[j]) < count,
            decreases self.indices@.len() - i,
        {
            if self.indices[i] as usize >= count {
                return false;
            }
            i = i + 1;
        }
        true
    }
}

/// A batch of triangles as it is handed to the GPU: buffers that the frame's
/// draw output owns, the transformation of their vertices and the region
/// outside which nothing of them shows.
#[derive(Clone, Copy, Debug)]
#[allow(inconsistent_fields)]
pub enum Mesh<'a> {
    /// A mesh of triangles with a solid color.
    Solid {
        /// The transformation for the vertices of the mesh.
        transformation: Transformation,
        /// The vertex and index buffers of the mesh.
        buffers: &'a Indexed<SolidVertex2D>,
        /// The clipping bounds of the mesh.
        clip_bounds: Rectangle,
    },
    /// A mesh of triangles with a gradient color.
    Gradient {
        /// The transformation for the vertices of the mesh.
        transformation: Transformation,
        /// The vertex and index buffers of the mesh.
        buffers: &'a Indexed<GradientVertex2D>,
        /// The clipping bounds of the mesh.
        clip_bounds: Rectangle,
    },
}

impl<'a> Mesh<'a> {
    /// The number of vertices in the mesh's vertex buffer.
    pub open spec fn vertex_count(self) -> nat {
        match self {
            Mesh::Solid { buffers, .. } => buffers.vertices@.len(),
            Mesh::Gradient { buffers, .. } => buffers.vertices@.len(),
        }
    }

    /// The mesh's index buffer.
    pub open spec fn index_seq(self) -> Seq<u32> {
        match self {
            Mesh::Solid { buffers, .. } => buffers.indices@,
            Mesh::Gradient { buffers, .. } => buffers.indices@,
        }
    }

    /// Every index of the mesh names one of its vertices.
    pub open spec fn well_formed(self) -> bool {
        forall|i: int| 0 <= i < self.index_seq().len() ==> (#[trigger] self.index_seq()[i]) < self.vertex_count()
    }

    /// The transformation of the mesh.
    pub open spec fn spec_transformation(&self) -> Transformation {
        match self {
            Mesh::Solid { transformation, .. } => *transformation,
            Mesh::Gradient { transformation, .. } => *transformation,
        }
    }

    /// The clip bounds of the mesh.
    pub open spec fn spec_clip_bounds(&self) -> Rectangle {
        match self {
            Mesh::Solid { clip_bounds, .. } => *clip_bounds,
            Mesh::Gradient { clip_bounds, .. } => *clip_bounds,
        }
    }

    /// Returns the transformation of the mesh.
    #[verifier::when_used_as_spec(spec_transformation)]
    pub fn transformation(&self) -> (t: Transformation)
        ensures
            t == self.spec_transformation(),
    {
        match self {
            Mesh::Solid { transformation, .. } => *transformation,
            Mesh::Gradient { transformation, .. } => *transformation,
        }
    }

    /// Returns the indices of the mesh.
    pub fn indices(&self) -> (indices: &[u32])
        ensures
            indices@ == self.index_seq(),
    {
        match self {
            Mesh::Solid { buffers, .. } => buffers.indices.as_slice(),
            Mesh::Gradient { buffers, .. } => buffers.indices.as_slice(),
        }
    }

    /// Returns the clip bounds of the mesh.
    #[verifier::when_used_as_spec(spec_clip_bounds)]
    pub fn clip_bounds(&self) -> (bounds: Rectangle)
        ensures
            bounds == self.spec_clip_bounds(),
    {
        match self {
            Mesh::Solid { clip_bounds, .. } => *clip_bounds,
            Mesh::Gradient { clip_bounds, .. } => *clip_bounds,
        }
    }
}

/// What a set of meshes holds, as unbounded numbers.
pub struct Tally {
    pub solid_vertices: nat,
    pub solids: nat,
    pub gradient_vertices: nat,
    pub gradients: nat,
    pub indices: nat,
}

impl Tally {
    /// The count of no mesh.
    pub open spec fn zero() -> Tally {
        Tally { solid_vertices: 0, solids: 0, gradient_vertices: 0, gradients: 0, indices: 0 }
    }

    /// What one mesh adds to a count.
    pub open spec fn of(mesh: Mesh) -> Tally {
        match mesh {
            Mesh::Solid { buffers, .. } => Tally {
                solid_vertices: buffers.vertices@.len(),
                solids: 1,
                gradient_vertices: 0,
                gradients: 0,
                indices: buffers.indices@.len(),
            },
            Mesh::Gradient { buffers, .. } => Tally {
                solid_vertices: 0,
                solids: 0,
                gradient_vertices: buffers.vertices@.len(),
                gradients: 1,
                indices: buffers.indices@.len(),
            },
        }
    }

    /// The sum of two counts, number by number.
    pub open spec fn plus(self, other: Tally) -> Tally {
        Tally {
            solid_vertices: self.solid_vertices + other.solid_vertices,
            solids: self.solids + other.solids,
            gradient_vertices: self.gradient_vertices + other.gradient_vertices,
            gradients: self.gradients + other.gradients,
            indices: self.indices + other.indices,
        }
    }

    /// Whether each of the five numbers fits a `usize`.
    pub open spec fn fits(self) -> bool {
        &&& self.solid_vertices <= usize::MAX
        &&& self.solids <= usize::MAX
        &&& self.gradient_vertices <= usize::MAX
        &&& self.gradients <= usize::MAX
        &&& self.indices <= usize::MAX
    }

    /// Whether no number of `self` is above the same number of `other`.
    pub open spec fn at_most(self, other: Tally) -> bool {
        &&& self.solid_vertices <= other.solid_vertices
        &&& self.solids <= other.solids
        &&& self.gradient_vertices <= other.gradient_vertices
        &&& self.gradients <= other.gradients
        &&& self.indices <= other.indices
    }

    /// The sum, over the meshes of the sequence, of what each one adds.
    pub open spec fn sum(meshes: Seq<Mesh>) -> Tally
        decreases meshes.len(),
    {
        if meshes.len() == 0 {
            Tally::zero()
        } else {
            Tally::sum(meshes.drop_last()).plus(Tally::of(meshes.last()))
        }
    }
}

/// The result of counting the attributes of a set of meshes.
#[derive(Clone, Copy, Debug, PartialEq, Eq, Structural)]
pub struct AttributeCount {
    /// The total amount of solid vertices.
    pub solid_vertices: usize,
    /// The total amount of solid meshes.
    pub solids: usize,
    /// The total amount of gradient vertices.
    pub gradient_vertices: usize,
    /// The total amount of gradient meshes.
    pub gradients: usize,
    /// The total amount of indices.
    pub indices: usize,
}

impl View for AttributeCount {
    type V = Tally;

    open spec fn view(&self) -> Tally {
        Tally {
            solid_vertices: self.solid_vertices as nat,
            solids: self.solids as nat,
            gradient_vertices: self.gradient_vertices as nat,
            gradients: self.gradients as nat,
            indices: self.indices as nat,
        }
    }
}

impl Default for AttributeCount {
    fn default() -> (count: AttributeCount)
        ensures
            count@ == Tally::zero(),
    {
        AttributeCount { solid_vertices: 0, solids: 0, gradient_vertices: 0, gradients: 0, indices: 0 }
    }
}

impl AttributeCount {
    /// Whether no mesh was counted.
    pub fn is_empty(&self) -> (empty: bool)
        ensures
            empty == (self.solids == 0 && self.gradients == 0),
    {
        self.solids == 0 && self.gradients == 0
    }

    /// The count with `mesh` added, unless one of its numbers would leave the
    /// range of `usize`.
    pub fn with(self, mesh: &Mesh) -> (count: Option<AttributeCount>)
        ensures
            count is Some <==> self@.plus(Tally::of(*mesh)).fits(),
            count matches Some(c) ==> c@ == self@.plus(Tally::of(*mesh)),
    {
        match mesh {
            Mesh::Solid { buffers, .. } => {
                let solids: Option<usize> = self.solids.checked_add(1);
                let vertices: Option<usize> = self.solid_vertices.checked_add(buffers.vertices.len());
                let indices: Option<usize> = self.indices.checked_add(buffers.indices.len());
                match (solids, vertices, indices) {
                    (Some(solids), Some(solid_vertices), Some(indices)) => Some(
                        AttributeCount {
                            solid_vertices,
                            solids,
                            gradient_vertices: self.gradient_vertices,
                            gradients: self.gradients,
                            indices,
                        },
                    ),
                    _ => None,
                }
            },
            Mesh::Gradient { buffers, .. } => {
                let gradients: Option<usize> = self.gradients.checked_add(1);
                let vertices: Option<usize> = self.gradient_vertices.checked_add(
                    buffers.vertices.len(),
                );
                let indices: Option<usize> = self.indices.checked_add(buffers.indices.len());
                match (gradients, vertices, indices) {
                    (Some(gradients), Some(gradient_vertices), Some(indices)) => Some(
                        AttributeCount {
                            solid_vertices: self.solid_vertices,
                            solids: self.solids,
                            gradient_vertices,
                            gradients,
                            indices,
                        },
                    ),
                    _ => None,
                }
            },
        }
    }
}

/// The count of a sequence of meshes never falls when the sequence is
/// extended: the count of a prefix is at most the count of the whole.
pub proof fn lemma_sum_of_prefix(meshes: Seq<Mesh>, k: int)
    requires
        0 <= k <= meshes.len(),
    ensures
        Tally::sum(meshes.take(k)).at_most(Tally::sum(meshes)),
    decreases meshes.len(),
{
    if k == meshes.len() {
        assert(meshes.take(k) =~= meshes);
    } else {
        lemma_sum_of_prefix(meshes.drop_last(), k);
        assert(meshes.drop_last().take(k) =~= meshes.take(k));
    }
}

/// Counting is additive: the count of two sequences laid end to end is the
/// sum of their counts.
pub proof fn lemma_sum_of_concat(front: Seq<Mesh>, back: Seq<Mesh>)
    ensures
        Tally::sum(front + back) == Tally::sum(front).plus(Tally::sum(back)),
    decreases back.len(),
{
    if back.len() == 0 {
        assert(front + back =~= front);
    } else {
        lemma_sum_of_concat(front, back.drop_last());
        assert((front + back).drop_last() =~= front + back.drop_last());
        assert((front + back).last() == back.last());
    }
}

/// In every count the two kinds of mesh add up to the number of meshes.
pub proof fn lemma_sum_counts_every_mesh(meshes: Seq<Mesh>)
    ensures
        Tally::sum(meshes).solids + Tally::sum(meshes).gradients == meshes.len(),
    decreases meshes.len(),
{
    if meshes.len() > 0 {
        lemma_sum_counts_every_mesh(meshes.drop_last());
    }
}

/// Returns the total number of vertices and of indices of all the meshes, by
/// kind, where each total fits a `usize`, and `None` where one does not.
pub fn checked_attribute_count_of<'a>(meshes: &'a [Mesh<'a>]) -> (count: Option<AttributeCount>)
    ensures
        count is Some <==> Tally::sum(meshes@).fits(),
        count matches Some(c) ==> c@ == Tally::sum(meshes@),
{
    let mut count: AttributeCount = AttributeCount::default();
    let mut i: usize = 0;
    while i < meshes.len()
        invariant
            i <= meshes@.len(),
            count@ == Tally::sum(meshes@.take(i as int)),
        decreases meshes@.len() - i,
    {
        proof {
            assert(meshes@.take(i + 1).drop_last() =~= meshes@.take(i as int));
            lemma_sum_of_prefix(meshes@, i + 1);
        }
        match count.with(&meshes[i]) {
            Some(next) => {
                count = next;
            },
            None => {
                return None;
            },
        }
        i = i + 1;
    }
    proof {
        assert(meshes@.take(i as int) =~= meshes@);
    }
    Some(count)
}

/// Returns the number of total vertices & total indices of all the meshes.
///
/// The totals are exact, so each of them has to fit a `usize`; where that is
/// not known beforehand, [`checked_attribute_count_of`] finds out.
pub fn attribute_count_of<'a>(meshes: &'a [Mesh<'a>]) -> (count: AttributeCount)
    requires
        Tally::sum(meshes@).fits(),
    ensures
        count@ == Tally::sum(meshes@),
{
    let mut count: AttributeCount = AttributeCount::default();
    let mut i: usize = 0;
    while i < meshes.len()
        invariant
            i <= meshes@.len(),
            count@ == Tally::sum(meshes@.take(i as int)),
            Tally::sum(meshes@).fits(),
        decreases meshes@.len() - i,
    {
        proof {
            assert(meshes@.take(i + 1).drop_last() =~= meshes@.take(i as int));
            lemma_sum_of_prefix(meshes@, i + 1);
        }
        match &meshes[i] {
            Mesh::Solid { buffers, .. } => {
                count.solids = count.solids + 1;
                count.solid_vertices = count.solid_vertices + buffers.vertices.len();
                count.indices = count.indices + buffers.indices.len();
            },
            Mesh::Gradient { buffers, .. } => {
                count.gradients = count.gradients + 1;
                count.gradient_vertices = count.gradient_vertices + buffers.vertices.len();
                count.indices = count.indices + buffers.indices.len();
            },
        }
        i = i + 1;
    }
    proof {
        assert(meshes@.take(i as int) =~= meshes@);
    }
    count
}

} // verus!
