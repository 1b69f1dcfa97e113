//! Mesh geometry checks and ownership of a mesh's device resources.
use vstd::prelude::*;

verus! {

/// Largest index count one indexed draw call can cover (`i32::MAX`).
pub const MAX_DRAW_COUNT: usize = 0x7fff_ffff;

/// Why geometry cannot become a GPU mesh.
#[derive(Clone, Copy, Debug, PartialEq, Eq, Structural)]
pub enum MeshError {
    /// More indices than one draw call can cover.
    TooManyIndices,
    /// The index count is not a multiple of three.
    PartialTriangle,
    /// The index at `position`, the first such, names no vertex.
    IndexOutOfRange { position: usize },
}

/// Every index names one of `vertex_count` vertices.
pub open spec fn indices_in_range(vertex_count: int, indices: Seq<u32>) -> bool {
    forall|k: int| 0 <= k < indices.len() ==> #[trigger] indices[k] < vertex_count
}

/// Checks that `indices` form whole triangles over `vertex_count` vertices
/// and fit one draw call; on success returns the draw count. The checks run
/// in this order: size, whole triangles, then each index from the first.
pub fn check_geometry(vertex_count: usize, indices: &Vec<u32>) -> (r: Result<i32, MeshError>)
    ensures
        indices@.len() > MAX_DRAW_COUNT ==> r == Err::<i32, MeshError>(MeshError::TooManyIndices),
        indices@.len() <= MAX_DRAW_COUNT && indices@.len() % 3 != 0 ==> r == Err::<i32, MeshError>(
            MeshError::PartialTriangle,
        ),
        r.is_ok() <==> indices@.len() <= MAX_DRAW_COUNT && indices@.len() % 3 == 0
            && indices_in_range(vertex_count as int, indices@),
        r.is_ok() ==> r == Ok::<i32, MeshError>(indices@.len() as i32),
        indices@.len() <= MAX_DRAW_COUNT && indices@.len() % 3 == 0 && !indices_in_range(
            vertex_count as int,
            indices@,
        ) ==> r matches Err(MeshError::IndexOutOfRange { .. }),
        r matches Err(MeshError::IndexOutOfRange { position }) ==> {
            &&& indices@.len() <= MAX_DRAW_COUNT
            &&& indices@.len() % 3 == 0
            &&& position < indices@.len()
            &&& indices@[position as int] >= vertex_count
            &&& indices_in_range(vertex_count as int, indices@.take(position as int))
        },
{
    if indices.len() > MAX_DRAW_COUNT {
        return Err(MeshError::TooManyIndices);
    }
    if indices.len() % 3 != 0 {
        return Err(MeshError::PartialTriangle);
    }
    let mut k: usize = 0;
    while k < indices.len()
        invariant
            k <= indices@.len(),
            indices@.len() <= MAX_DRAW_COUNT,
            indices@.len() % 3 == 0,
            indices_in_range(vertex_count as int, indices@.take(k as int)),
        decreases indices@.len() - k,
    {
        if indices[k] as usize >= vertex_count {
            return Err(MeshError::IndexOutOfRange { position: k });
        }
        assert(indices@.take(k as int + 1) =~= indices@.take(k as int).push(indices@[k as int]));
        k = k + 1;
    }
    assert(indices@.take(k as int) =~= indices@);
    Ok(indices.len() as i32)
}

/// Flattens triangular faces into an index sequence, three indices per
/// face in face order.
pub fn flatten_faces(faces: &Vec<(u32, u32, u32)>) -> (r: Vec<u32>)
    ensures
        r@.len() == 3 * faces@.len(),
        forall|f: int|
            0 <= f < faces@.len() ==> {
                &&& r@[3 * f] == (#[trigger] faces@[f]).0
                &&& r@[3 * f + 1] == faces@[f].1
                &&& r@[3 * f + 2] == faces@[f].2
            },
{
    let mut r: Vec<u32> = Vec::new();
    let mut f: usize = 0;
    while f < faces.len()
        invariant
            f <= faces@.len(),
            r@.len() == 3 * f,
            forall|g: int|
                0 <= g < f ==> {
                    &&& r@[3 * g] == (#[trigger] faces@[g]).0
                    &&& r@[3 * g + 1] == faces@[g].1
                    &&& r@[3 * g + 2] == faces@[g].2
                },
        decreases faces@.len() - f,
    {
        let (a, b, c) = faces[f];
        r.push(a);
        r.push(b);
        r.push(c);
        f = f + 1;
    }
    r
}

/// The three device resources of a mesh: vertex-layout object, vertex
/// buffer and index buffer. A name of 0 stands for a resource that was
/// never created; the device ignores its deletion.
#[derive(Clone, Copy, Debug, PartialEq, Eq, Structural)]
pub struct GpuHandles {
    pub vertex_array: u32,
    pub vertex_buffer: u32,
    pub index_buffer: u32,
}

/// What a GPU mesh holds: its resources while it owns them, and the number
/// of indices it draws.
#[derive(Clone, Copy, Debug, PartialEq, Eq, Structural)]
pub struct GpuMeshState {
    pub live: Option<GpuHandles>,
    pub index_count: i32,
}

/// The state after a release: nothing is owned any more.
pub open spec fn released(s: GpuMeshState) -> GpuMeshState {
    GpuMeshState { live: None, ..s }
}

/// Sole owner of one mesh's device resources. They are handed out for
/// deletion exactly once, and a released mesh offers nothing to draw.
pub struct GpuMesh {
    live: Option<GpuHandles>,
    index_count: i32,
}

impl View for GpuMesh {
    type V = GpuMeshState;

    closed spec fn view(&self) -> GpuMeshState {
        GpuMeshState { live: self.live, index_count: self.index_count }
    }
}

impl GpuMesh {
    /// Takes ownership of freshly created resources that hold
    /// `index_count` indices (a count from `check_geometry`).
    pub fn new(handles: GpuHandles, index_count: i32) -> (r: GpuMesh)
        requires
            index_count >= 0,
        ensures
            r@ == (GpuMeshState { live: Some(handles), index_count }),
    {
        GpuMesh { live: Some(handles), index_count }
    }

    pub fn state(&self) -> (r: GpuMeshState)
        ensures
            r == self@,
    {
        GpuMeshState { live: self.live, index_count: self.index_count }
    }

    /// What one draw binds and covers: the vertex-layout object and the
    /// full index count; nothing once the resources are released.
    pub fn draw_call(&self) -> (r: Option<(u32, i32)>)
        ensures
            r == match self@.live {
                Some(h) => Some((h.vertex_array, self@.index_count)),
                None => None::<(u32, i32)>,
            },
    {
        match self.live {
            Some(h) => Some((h.vertex_array, self.index_count)),
            None => None,
        }
    }

    /// Gives up the resources for deletion. The first call returns them,
    /// every later call returns `None`, so none is deleted twice.
    pub fn release(&mut self) -> (r: Option<GpuHandles>)
        ensures
            r == old(self)@.live,
            final(self)@ == released(old(self)@),
    {
        let r = self.live;
        self.live = None;
        r
    }
}

/// Releasing twice hands out the resources of a mesh once: a released
/// mesh stays released and has nothing more to give.
pub proof fn lemma_release_idempotent(s: GpuMeshState)
    ensures
        released(released(s)) == released(s),
        released(s).live == None::<GpuHandles>,
        released(s).index_count == s.index_count,
{
}

} // verus!
