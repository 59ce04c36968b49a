//! The batched quad renderer: frame state, the quad-to-vertex expansion with
//! its overflow policy, the static index buffer and the texture slot table.
use vstd::prelude::*;

use crate::math::{Vector2, Vector4};

verus! {

/// Number of texture slots (and sampler units) a renderer multiplexes.
pub const MAX_TEXTURES: u32 = 32;

/// An RGBA color, eight bits per channel (255 is full intensity).
#[derive(Debug, Clone, Copy, PartialEq, Eq)]
pub struct Color {
    pub red: u8,
    pub green: u8,
    pub blue: u8,
    pub alpha: u8,
}

/// The color as a vector, red first.
pub open spec fn color_vec(c: Color) -> Vector4<u8> {
    Vector4 { x: c.red, y: c.green, z: c.blue, w: c.alpha }
}

impl Color {
    /// A color from its four channels.
    pub fn new(red: u8, green: u8, blue: u8, alpha: u8) -> (r: Color)
        ensures
            r == (Color { red, green, blue, alpha }),
    {
        Color { red, green, blue, alpha }
    }

    /// The color as a vector: red, green, blue, alpha.
    pub fn to_vec(&self) -> (r: Vector4<u8>)
        ensures
            r == color_vec(*self),
    {
        Vector4 { x: self.red, y: self.green, z: self.blue, w: self.alpha }
    }
}

/// One vertex as the GPU pipeline reads it: position, texture coordinate,
/// color and the texture slot that selects the sampler.
#[derive(Debug, PartialEq, Eq)]
pub struct Vertex2D {
    pub position: Vector2<i64>,
    pub uv: Vector2<u8>,
    pub color: Vector4<u8>,
    pub texture: u32,
}

/// The logical input of one quad draw: top-left corner, size, color and
/// texture slot.
#[derive(Debug, PartialEq, Eq)]
pub struct QuadRecord {
    pub x: i32,
    pub y: i32,
    pub width: i32,
    pub height: i32,
    pub color: Vector4<u8>,
    pub texture: u32,
}

/// A vertex at `(x, y)` with texture coordinate `(u, v)`.
pub open spec fn corner(x: int, y: int, u: u8, v: u8, color: Vector4<u8>, texture: u32) -> Vertex2D {
    Vertex2D {
        position: Vector2 { x: x as i64, y: y as i64 },
        uv: Vector2 { x: u, y: v },
        color,
        texture,
    }
}

/// The four vertices of a quad, in the order top-right, bottom-right,
/// bottom-left, top-left, with texture coordinates (1,0), (1,1), (0,1), (0,0).
pub open spec fn quad_vertices(q: QuadRecord) -> Seq<Vertex2D> {
    let x = q.x as int;
    let y = q.y as int;
    let w = q.width as int;
    let h = q.height as int;
    seq![
        corner(x + w, y, 1, 0, q.color, q.texture),
        corner(x + w, y + h, 1, 1, q.color, q.texture),
        corner(x, y + h, 0, 1, q.color, q.texture),
        corner(x, y, 0, 0, q.color, q.texture),
    ]
}

/// The six indices of quad `k` start at `6 * k` and are
/// `4k, 4k+1, 4k+2, 4k, 4k+3, 4k+2`: two triangles over its four vertices.
pub open spec fn quad_indices_at(s: Seq<u32>, k: int) -> bool {
    &&& s[6 * k] as int == 4 * k
    &&& s[6 * k + 1] as int == 4 * k + 1
    &&& s[6 * k + 2] as int == 4 * k + 2
    &&& s[6 * k + 3] as int == 4 * k
    &&& s[6 * k + 4] as int == 4 * k + 3
    &&& s[6 * k + 5] as int == 4 * k + 2
}

/// `s` is the index buffer for `capacity` quads.
pub open spec fn is_index_buffer(s: Seq<u32>, capacity: nat) -> bool {
    &&& s.len() == 6 * capacity
    &&& forall|k: int| 0 <= k < capacity ==> #[trigger] quad_indices_at(s, k)
}

/// Builds the index buffer for `max_quads` quads.
fn build_indices(max_quads: usize) -> (r: Vec<u32>)
    requires
        max_quads as int * 4 <= u32::MAX as int + 1,
        max_quads as int * 6 <= usize::MAX as int,
    ensures
        is_index_buffer(r@, max_quads as nat),
{
    let mut indices: Vec<u32> = Vec::with_capacity(max_quads * 6);
    let mut i: usize = 0;
    while i < max_quads
        invariant
            i <= max_quads,
            max_quads as int * 4 <= u32::MAX as int + 1,
            indices@.len() == 6 * i,
            forall|k: int| 0 <= k < i ==> #[trigger] quad_indices_at(indices@, k),
        decreases max_quads - i,
    {
        let base: u32 = (i * 4) as u32;
        let ghost before = indices@;
        indices.push(base);
        indices.push(base + 1);
        indices.push(base + 2);
        indices.push(base);
        indices.push(base + 3);
        indices.push(base + 2);
        assert(indices@ == before + seq![base, (base + 1) as u32, (base + 2) as u32, base, (base + 3) as u32, (base + 2) as u32]);
        assert forall|k: int| 0 <= k < i + 1 implies #[trigger] quad_indices_at(indices@, k) by {
            if k < i {
                assert(quad_indices_at(before, k));
            }
        }
        i = i + 1;
    }
    indices
}

/// Upload pixel format of a texture, chosen from the decoded channel count.
#[derive(Debug, Clone, Copy, PartialEq, Eq, Structural)]
pub enum PixelFormat {
    Red,
    Rg,
    Rgb,
    Rgba,
}

/// The pixel format for an image with `components` channels per pixel:
/// one is single-channel, two dual-channel, three RGB, four RGBA, and any
/// other count falls back to RGB.
pub fn pixel_format(components: i32) -> (r: PixelFormat)
    ensures
        components == 1 ==> r == PixelFormat::Red,
        components == 2 ==> r == PixelFormat::Rg,
        components == 3 ==> r == PixelFormat::Rgb,
        components == 4 ==> r == PixelFormat::Rgba,
        !(1 <= components <= 4) ==> r == PixelFormat::Rgb,
{
    match components {
        1 => PixelFormat::Red,
        2 => PixelFormat::Rg,
        3 => PixelFormat::Rgb,
        4 => PixelFormat::Rgba,
        _ => PixelFormat::Rgb,
    }
}

/// The vertex list and quad counter after one draw call, given the list and
/// counter before it: below capacity the quad's four vertices are appended
/// and the counter goes up by one; at capacity nothing changes.
pub open spec fn drawn(vertices: Seq<Vertex2D>, quads: nat, capacity: nat, q: QuadRecord) -> (Seq<Vertex2D>, nat) {
    if quads < capacity {
        (vertices + quad_vertices(q), quads + 1)
    } else {
        (vertices, quads)
    }
}

/// The slot id that a texture load returns when `count` slots are in use:
/// the next free slot, or slot 0 once all are taken.
pub open spec fn slot_for_load(count: nat) -> nat {
    if count < MAX_TEXTURES {
        count
    } else {
        0
    }
}

/// The number of slots in use after a texture load, given the number before.
pub open spec fn count_after_load(count: nat) -> nat {
    if count < MAX_TEXTURES {
        count + 1
    } else {
        count
    }
}

/// A texture bound to a texture unit for the draw.
#[derive(Debug, Clone, Copy, PartialEq, Eq)]
pub struct TextureBinding {
    pub unit: u32,
    pub texture: u32,
}

/// The bindings for a slot table: each occupied slot to the unit of the same
/// number, in ascending slot order; empty slots are skipped.
pub open spec fn bindings_of(slots: Seq<Option<u32>>) -> Seq<TextureBinding>
    decreases slots.len(),
{
    if slots.len() == 0 {
        seq![]
    } else {
        let rest = bindings_of(slots.drop_last());
        match slots.last() {
            Some(t) => rest.push(TextureBinding { unit: (slots.len() - 1) as u32, texture: t }),
            None => rest,
        }
    }
}

/// What one frame submits to the GPU: the vertex data to upload at offset 0,
/// the textures to bind (each before the draw), and the number of indices
/// that the single indexed draw covers.
pub struct DrawCall<'a> {
    pub vertices: &'a [Vertex2D],
    pub textures: Vec<TextureBinding>,
    pub index_count: usize,
}

/// Batch renderer state: the per-frame vertex list and quad counter, the
/// static index buffer, and the texture slot table (GPU texture names).
pub struct Renderer2D {
    vertices: Vec<Vertex2D>,
    indices: Vec<u32>,
    textures: Vec<Option<u32>>,
    quads_to_draw: u32,
    max_quads: u32,
    next_texture_slot: u32,
    viewport_width: u32,
    viewport_height: u32,
}

impl Renderer2D {
    /// The vertices gathered in the current frame.
    pub closed spec fn vertex_list(&self) -> Seq<Vertex2D> {
        self.vertices@
    }

    /// Quads accepted in the current frame.
    pub closed spec fn quad_count(&self) -> nat {
        self.quads_to_draw as nat
    }

    /// Maximum quads per frame.
    pub closed spec fn capacity(&self) -> nat {
        self.max_quads as nat
    }

    /// The static index buffer.
    pub closed spec fn index_buffer(&self) -> Seq<u32> {
        self.indices@
    }

    /// The texture slot table; `None` is an empty slot.
    pub closed spec fn texture_slots(&self) -> Seq<Option<u32>> {
        self.textures@
    }

    /// Number of occupied texture slots.
    pub closed spec fn texture_count(&self) -> nat {
        self.next_texture_slot as nat
    }

    /// Viewport width and height in pixels.
    pub closed spec fn viewport(&self) -> (u32, u32) {
        (self.viewport_width, self.viewport_height)
    }

    /// The renderer's invariant: the counter within capacity, four vertices
    /// per accepted quad, the index buffer intact, and the occupied texture
    /// slots being exactly the first `texture_count()`.
    pub closed spec fn wf(&self) -> bool {
        &&& self.max_quads as int * 4 <= u32::MAX as int + 1
        &&& self.max_quads as int * 6 <= usize::MAX as int
        &&& self.quads_to_draw <= self.max_quads
        &&& self.vertices@.len() == 4 * self.quads_to_draw
        &&& is_index_buffer(self.indices@, self.max_quads as nat)
        &&& self.textures@.len() == MAX_TEXTURES
        &&& self.next_texture_slot <= MAX_TEXTURES
        &&& forall|i: int|
            0 <= i < MAX_TEXTURES ==> (#[trigger] self.textures@[i] is Some <==> i
                < self.next_texture_slot)
    }

    /// The texture table has 32 slots, of which exactly the first
    /// `texture_count()` are occupied: slots are taken in order and never
    /// freed.
    pub proof fn lemma_slots_filled_in_order(&self)
        requires
            self.wf(),
        ensures
            self.texture_slots().len() == MAX_TEXTURES,
            self.texture_count() <= MAX_TEXTURES,
            forall|i: int|
                0 <= i < MAX_TEXTURES ==> (#[trigger] self.texture_slots()[i] is Some <==> i
                    < self.texture_count()),
    {
    }

    /// Everything but the frame state (vertex list and quad counter) agrees.
    pub open spec fn same_setup(&self, other: &Renderer2D) -> bool {
        &&& self.capacity() == other.capacity()
        &&& self.index_buffer() == other.index_buffer()
        &&& self.texture_slots() == other.texture_slots()
        &&& self.texture_count() == other.texture_count()
        &&& self.viewport() == other.viewport()
    }

    /// Everything but the texture table agrees.
    pub open spec fn same_frame(&self, other: &Renderer2D) -> bool {
        &&& self.vertex_list() == other.vertex_list()
        &&& self.quad_count() == other.quad_count()
        &&& self.capacity() == other.capacity()
        &&& self.index_buffer() == other.index_buffer()
        &&& self.viewport() == other.viewport()
    }

    /// A renderer for up to `max_quads` quads per frame over a viewport of
    /// `window_width` x `window_height` pixels, with an empty frame, the
    /// index buffer built and all texture slots empty.
    pub fn new(max_quads: usize, window_width: u32, window_height: u32) -> (r: Renderer2D)
        requires
            max_quads as int * 4 <= u32::MAX as int + 1,
            max_quads as int * 6 <= usize::MAX as int,
        ensures
            r.wf(),
            r.capacity() == max_quads,
            r.vertex_list() == Seq::<Vertex2D>::empty(),
            r.quad_count() == 0,
            is_index_buffer(r.index_buffer(), max_quads as nat),
            r.texture_slots() == Seq::new(MAX_TEXTURES as nat, |i: int| None::<u32>),
            r.texture_count() == 0,
            r.viewport() == (window_width, window_height),
    {
        let indices = build_indices(max_quads);
        let mut textures: Vec<Option<u32>> = Vec::with_capacity(MAX_TEXTURES as usize);
        let mut i: u32 = 0;
        while i < MAX_TEXTURES
            invariant
                i <= MAX_TEXTURES,
                textures@ == Seq::new(i as nat, |j: int| None::<u32>),
            decreases MAX_TEXTURES - i,
        {
            textures.push(None);
            i = i + 1;
        }
        Renderer2D {
            vertices: Vec::new(),
            indices,
            textures,
            quads_to_draw: 0,
            max_quads: max_quads as u32,
            next_texture_slot: 0,
            viewport_width: window_width,
            viewport_height: window_height,
        }
    }

    /// Starts a frame: the quad counter goes to zero and the vertex list is
    /// emptied, whatever the previous frame held.
    pub fn begin(&mut self)
        requires
            old(self).wf(),
        ensures
            final(self).wf(),
            final(self).same_setup(old(self)),
            final(self).quad_count() == 0,
            final(self).vertex_list() == Seq::<Vertex2D>::empty(),
    {
        self.quads_to_draw = 0;
        self.vertices.clear();
    }

    /// Appends the four vertices of one quad when the frame is below
    /// capacity; otherwise does nothing.
    fn push_quad(&mut self, x: i32, y: i32, width: i32, height: i32, color: &Vector4<u8>, texture_id: u32)
        requires
            old(self).wf(),
        ensures
            final(self).wf(),
            final(self).same_setup(old(self)),
            (final(self).vertex_list(), final(self).quad_count()) == drawn(
                old(self).vertex_list(),
                old(self).quad_count(),
                old(self).capacity(),
                (QuadRecord { x, y, width, height, color: *color, texture: texture_id }),
            ),
    {
        if self.quads_to_draw >= self.max_quads {
            return;
        }
        self.quads_to_draw = self.quads_to_draw + 1;
        let right: i64 = x as i64 + width as i64;
        let bottom: i64 = y as i64 + height as i64;
        let left: i64 = x as i64;
        let top: i64 = y as i64;
        let ghost before = self.vertices@;
        self.vertices.push(
            Vertex2D {
                position: Vector2 { x: right, y: top },
                uv: Vector2 { x: 1, y: 0 },
                color: color.clone(),
                texture: texture_id,
            },
        );
        self.vertices.push(
            Vertex2D {
                position: Vector2 { x: right, y: bottom },
                uv: Vector2 { x: 1, y: 1 },
                color: color.clone(),
                texture: texture_id,
            },
        );
        self.vertices.push(
            Vertex2D {
                position: Vector2 { x: left, y: bottom },
                uv: Vector2 { x: 0, y: 1 },
                color: color.clone(),
                texture: texture_id,
            },
        );
        self.vertices.push(
            Vertex2D {
                position: Vector2 { x: left, y: top },
                uv: Vector2 { x: 0, y: 0 },
                color: color.clone(),
                texture: texture_id,
            },
        );
        assert(self.vertices@ =~= before + quad_vertices(
            QuadRecord { x, y, width, height, color: *color, texture: texture_id },
        ));
    }

    /// Draws a quad given as position, size and color vectors; see `draw_quad`.
    pub fn draw_quad_v(&mut self, position: &Vector2<i32>, size: &Vector2<i32>, color: &Vector4<u8>, texture_id: u32)
        requires
            old(self).wf(),
        ensures
            final(self).wf(),
            final(self).same_setup(old(self)),
            (final(self).vertex_list(), final(self).quad_count()) == drawn(
                old(self).vertex_list(),
                old(self).quad_count(),
                old(self).capacity(),
                (QuadRecord {
                    x: position.x,
                    y: position.y,
                    width: size.x,
                    height: size.y,
                    color: *color,
                    texture: texture_id,
                }),
            ),
    {
        self.push_quad(position.x, position.y, size.x, size.y, color, texture_id);
    }

    /// Draws the quad with top-left corner `(x, y)` and the given size,
    /// color and texture slot. Below capacity its four vertices are appended
    /// (top-right, bottom-right, bottom-left, top-left); at capacity the call
    /// is dropped without error.
    pub fn draw_quad(&mut self, x: i32, y: i32, width: i32, height: i32, color: &Color, texture_id: u32)
        requires
            old(self).wf(),
        ensures
            final(self).wf(),
            final(self).same_setup(old(self)),
            (final(self).vertex_list(), final(self).quad_count()) == drawn(
                old(self).vertex_list(),
                old(self).quad_count(),
                old(self).capacity(),
                (QuadRecord { x, y, width, height, color: color_vec(*color), texture: texture_id }),
            ),
    {
        let c = color.to_vec();
        self.push_quad(x, y, width, height, &c, texture_id);
    }

    /// Puts a texture into the next free slot and returns that slot's id.
    /// `create_texture` makes the GPU texture and returns its name; it is
    /// called only when a slot is free. Once all slots are taken, nothing is
    /// created and slot 0 is returned.
    pub fn load_texture<F: FnOnce() -> u32>(&mut self, create_texture: F) -> (slot: u32)
        requires
            old(self).wf(),
            old(self).texture_count() < MAX_TEXTURES ==> create_texture.requires(()),
        ensures
            final(self).wf(),
            final(self).same_frame(old(self)),
            slot == slot_for_load(old(self).texture_count()),
            final(self).texture_count() == count_after_load(old(self).texture_count()),
            old(self).texture_count() < MAX_TEXTURES ==> {
                &&& final(self).texture_slots()[slot as int] is Some
                &&& create_texture.ensures((), final(self).texture_slots()[slot as int]->0)
                &&& final(self).texture_slots() == old(self).texture_slots().update(
                    slot as int,
                    final(self).texture_slots()[slot as int],
                )
            },
            old(self).texture_count() >= MAX_TEXTURES ==> final(self).texture_slots()
                == old(self).texture_slots(),
    {
        if self.next_texture_slot < MAX_TEXTURES {
            let texture = create_texture();
            let slot = self.next_texture_slot;
            self.textures[slot as usize] = Some(texture);
            self.next_texture_slot = slot + 1;
            slot
        } else {
            0
        }
    }

    /// Describes the frame's submission: the gathered vertices, every
    /// occupied texture slot bound to its own unit in ascending order, and a
    /// draw of six indices per accepted quad. The frame state is left as it
    /// is; the next `begin` resets it.
    pub fn end(&self) -> (r: DrawCall)
        requires
            self.wf(),
        ensures
            r.vertices@ == self.vertex_list(),
            r.textures@ == bindings_of(self.texture_slots()),
            r.index_count == 6 * self.quad_count(),
    {
        let mut textures: Vec<TextureBinding> = Vec::new();
        let mut i: usize = 0;
        while i < self.textures.len()
            invariant
                self.wf(),
                i <= self.textures@.len(),
                textures@ == bindings_of(self.textures@.take(i as int)),
            decreases self.textures@.len() - i,
        {
            assert(self.textures@.take(i as int + 1).drop_last() =~= self.textures@.take(i as int));
            if let Some(texture) = self.textures[i] {
                textures.push(TextureBinding { unit: i as u32, texture });
            }
            i = i + 1;
        }
        assert(self.textures@.take(i as int) =~= self.textures@);
        DrawCall {
            vertices: self.vertices.as_slice(),
            textures,
            index_count: self.quads_to_draw as usize * 6,
        }
    }

    /// The vertices gathered in the current frame.
    pub fn vertices(&self) -> (r: &[Vertex2D])
        ensures
            r@ == self.vertex_list(),
    {
        self.vertices.as_slice()
    }

    /// The static index buffer, to be uploaded once.
    pub fn indices(&self) -> (r: &[u32])
        ensures
            r@ == self.index_buffer(),
    {
        self.indices.as_slice()
    }

    /// Quads accepted in the current frame.
    pub fn quads_to_draw(&self) -> (r: u32)
        ensures
            r == self.quad_count(),
    {
        self.quads_to_draw
    }

    /// Maximum quads per frame.
    pub fn max_quads(&self) -> (r: u32)
        ensures
            r == self.capacity(),
    {
        self.max_quads
    }

    /// The GPU texture name held in `slot`, if any.
    pub fn texture(&self, slot: u32) -> (r: Option<u32>)
        requires
            self.wf(),
        ensures
            slot < MAX_TEXTURES ==> r == self.texture_slots()[slot as int],
            slot >= MAX_TEXTURES ==> r is None,
    {
        if slot < MAX_TEXTURES {
            self.textures[slot as usize]
        } else {
            None
        }
    }

    /// Viewport width and height in pixels.
    pub fn viewport_size(&self) -> (r: (u32, u32))
        ensures
            r == self.viewport(),
    {
        (self.viewport_width, self.viewport_height)
    }
}

} // verus!
