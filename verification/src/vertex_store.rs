use vstd::prelude::*;

verus! {

/// A single vertex record: position, flag, texture coordinates, and four
/// bytes that hold either a color or a normal, plus alpha; which of the two
/// is meant is not encoded in the record.
#[derive(Clone, Copy, Debug)]
pub struct Vertex {
    /// x, y, z.
    pub pos: [i16; 3],
    pub flag: u16,
    /// u, v.
    pub uv: [i16; 2],
    /// r, g, b — or nx, ny, nz.
    pub rgb_or_norm: [u8; 3],
    pub alpha: u8,
}

/// The ordered vertex records of a model, append-only during parse.
pub struct VertexStore {
    pub m_verticies: Vec<Vertex>,
}

impl VertexStore {
    /// Creates an empty vertex store.
    pub fn new() -> (r: VertexStore)
        ensures
            r.m_verticies@.len() == 0,
    {
        VertexStore { m_verticies: Vec::new() }
    }

    /// Appends one vertex.
    pub fn add(&mut self, v: Vertex)
        ensures
            final(self).m_verticies@ == old(self).m_verticies@.push(v),
    {
        self.m_verticies.push(v);
    }

    /// The vertices, in the order they were read.
    pub fn verticies(&self) -> (r: &Vec<Vertex>)
        ensures
            r@ == self.m_verticies@,
    {
        &self.m_verticies
    }
}

} // verus!
