use vstd::prelude::*;

verus! {

/// Which texture a mesh is drawn with.
#[derive(Clone, Copy, Debug, PartialEq, Eq, Structural)]
pub enum TextureSource {
    /// The object's own texture.
    Own,
    /// The shared plain white texture, so that the object shows its vertex
    /// colours.
    Fallback,
}

/// One draw call of the mesh pass.
#[derive(Clone, Copy, Debug, PartialEq, Eq, Structural)]
pub struct DrawCall {
    /// The index of the scene object (and of its vertex buffer).
    pub object: usize,
    /// The number of vertices to draw, as the draw command takes it.
    pub vertex_count: u32,
    pub texture: TextureSource,
}

/// The texture an object is drawn with.
pub open spec fn texture_for(has_texture: bool) -> TextureSource {
    if has_texture {
        TextureSource::Own
    } else {
        TextureSource::Fallback
    }
}

/// The draw call of object `i`.
pub open spec fn draw_call_for(i: int, has_texture: bool, buffer_len: usize) -> DrawCall {
    DrawCall { object: i as usize, vertex_count: buffer_len as u32, texture: texture_for(has_texture) }
}

/// The draw calls of the mesh pass: objects are paired with vertex buffers
/// in order, as far as both lists go; each pair is drawn once, with all the
/// vertices of its buffer (the count taken as a `u32`), and with the
/// object's own texture or, when it has none, the fallback.
pub fn plan_mesh_draws(has_texture: &Vec<bool>, buffer_lens: &Vec<usize>) -> (calls: Vec<DrawCall>)
    ensures
        calls.len() == if has_texture.len() <= buffer_lens.len() {
            has_texture.len()
        } else {
            buffer_lens.len()
        },
        forall|i: int|
            0 <= i < calls.len() ==> #[trigger] calls@[i] == draw_call_for(
                i,
                has_texture@[i],
                buffer_lens@[i],
            ),
{
    let n = if has_texture.len() <= buffer_lens.len() {
        has_texture.len()
    } else {
        buffer_lens.len()
    };
    let mut calls: Vec<DrawCall> = Vec::new();
    let mut i: usize = 0;
    while i < n
        invariant
            i <= n,
            n <= has_texture.len(),
            n <= buffer_lens.len(),
            calls.len() == i,
            forall|j: int|
                0 <= j < i ==> #[trigger] calls@[j] == draw_call_for(
                    j,
                    has_texture@[j],
                    buffer_lens@[j],
                ),
        decreases n - i,
    {
        let texture = if has_texture[i] {
            TextureSource::Own
        } else {
            TextureSource::Fallback
        };
        calls.push(DrawCall { object: i, vertex_count: buffer_lens[i] as u32, texture });
        i = i + 1;
    }
    calls
}

/// Each planned draw call draws its own object, with that object's own
/// texture exactly when it has one, and all the vertices of its buffer: the
/// count is the buffer's length modulo 2^32, so the length itself whenever
/// it fits in 32 bits.
pub proof fn lemma_draw_call_draws_whole_buffer(i: int, has_texture: bool, buffer_len: usize)
    requires
        0 <= i <= usize::MAX,
    ensures
        draw_call_for(i, has_texture, buffer_len).object == i,
        (draw_call_for(i, has_texture, buffer_len).texture == TextureSource::Own) <==> has_texture,
        draw_call_for(i, has_texture, buffer_len).vertex_count as int == buffer_len as int
            % 0x1_0000_0000,
        buffer_len < 0x1_0000_0000 ==> draw_call_for(i, has_texture, buffer_len).vertex_count
            == buffer_len,
{
    let v = draw_call_for(i, has_texture, buffer_len).vertex_count;
    assert(v == buffer_len as u32);
    assert((buffer_len as u32) as int == buffer_len as int % 0x1_0000_0000) by (bit_vector);
}

} // verus!
