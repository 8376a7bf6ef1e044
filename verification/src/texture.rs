//! Texture bookkeeping shared by the render backends: texture ids handed out
//! in order, the size check before a texture's contents are replaced, the
//! growth of the shader-resource descriptor heap, and the layout of a
//! texture upload whose rows are padded to the GPU's pitch alignment.
use vstd::prelude::*;

verus! {

/// Bytes per pixel of the RGBA8 textures the backends create.
pub const BYTES_PER_PIXEL: u32 = 4;

/// Alignment, in bytes, of each row of a texture upload buffer.
pub const TEXTURE_DATA_PITCH_ALIGNMENT: u32 = 256;

/// Width and height of a texture, in pixels.
#[derive(Clone, Copy, Debug, PartialEq, Eq, Structural)]
pub struct TextureSize {
    pub width: u32,
    pub height: u32,
}

/// The error of a texture replacement whose image does not have the size
/// the texture was created with.
#[derive(Clone, Copy, Debug, PartialEq, Eq, Structural)]
pub struct TextureSizeMismatch {
    pub expected: TextureSize,
    pub given: TextureSize,
}

/// Where a new texture goes: its id, the byte offset of its descriptor from
/// the start of the descriptor heap, and, when the heap had to grow first,
/// how many descriptors were copied over from the old heap.
#[derive(Clone, Copy, Debug, PartialEq, Eq, Structural)]
pub struct TextureSlot {
    pub id: usize,
    pub descriptor_offset: u32,
    pub copied_descriptors: Option<u32>,
}

/// The textures of a render backend, by id, with the number of descriptors
/// that the shader-resource heap holds.
pub struct TextureRegistry {
    sizes: Vec<TextureSize>,
    descriptor_capacity: u32,
}

impl TextureRegistry {
    /// The sizes of the textures, indexed by texture id.
    pub closed spec fn spec_sizes(&self) -> Seq<TextureSize> {
        self.sizes@
    }

    /// The number of descriptors the heap holds.
    pub closed spec fn spec_capacity(&self) -> nat {
        self.descriptor_capacity as nat
    }

    /// No textures, and a heap of `descriptor_capacity` descriptors.
    pub fn new(descriptor_capacity: u32) -> (r: Self)
        ensures
            r.spec_sizes() == Seq::<TextureSize>::empty(),
            r.spec_capacity() == descriptor_capacity,
    {
        TextureRegistry { sizes: Vec::new(), descriptor_capacity }
    }

    /// The number of textures.
    pub fn len(&self) -> (r: usize)
        ensures
            r == self.spec_sizes().len(),
    {
        self.sizes.len()
    }

    /// The number of descriptors the heap holds.
    pub fn descriptor_capacity(&self) -> (r: u32)
        ensures
            r == self.spec_capacity(),
    {
        self.descriptor_capacity
    }

    /// The size of the texture `id`.
    pub fn size(&self, id: usize) -> (r: TextureSize)
        requires
            id < self.spec_sizes().len(),
        ensures
            r == self.spec_sizes()[id as int],
    {
        self.sizes[id]
    }

    /// Makes room for one more descriptor: when the heap holds no more
    /// descriptors than there are textures, it doubles, and the result is
    /// the number of descriptors to copy from the old heap (all of them).
    /// Otherwise nothing changes and the result is `None`.
    pub fn grow_descriptors(&mut self) -> (r: Option<u32>)
        requires
            old(self).spec_capacity() <= old(self).spec_sizes().len() ==> 2 * old(self).spec_capacity()
                <= u32::MAX,
        ensures
            final(self).spec_sizes() == old(self).spec_sizes(),
            old(self).spec_capacity() <= old(self).spec_sizes().len() ==> {
                &&& final(self).spec_capacity() == 2 * old(self).spec_capacity()
                &&& r == Some(old(self).spec_capacity() as u32)
            },
            old(self).spec_capacity() > old(self).spec_sizes().len() ==> {
                &&& final(self).spec_capacity() == old(self).spec_capacity()
                &&& r == None::<u32>
            },
    {
        let old_capacity = self.descriptor_capacity;
        if (old_capacity as usize) <= self.sizes.len() {
            self.descriptor_capacity = old_capacity * 2;
            Some(old_capacity)
        } else {
            None
        }
    }

    /// Records a new texture of the given size; its id is the number of
    /// textures before it.
    pub fn register(&mut self, width: u32, height: u32) -> (id: usize)
        ensures
            id == old(self).spec_sizes().len(),
            final(self).spec_sizes() == old(self).spec_sizes().push(
                TextureSize { width, height },
            ),
            final(self).spec_capacity() == old(self).spec_capacity(),
    {
        let id = self.sizes.len();
        self.sizes.push(TextureSize { width, height });
        id
    }

    /// Places a new texture: grows the descriptor heap if it is full, gives
    /// the texture the next id, and puts its descriptor `increment` bytes
    /// after the previous texture's.
    pub fn allocate(&mut self, width: u32, height: u32, increment: u32) -> (r: TextureSlot)
        requires
            old(self).spec_capacity() <= old(self).spec_sizes().len() ==> 2 * old(self).spec_capacity()
                <= u32::MAX,
            old(self).spec_sizes().len() <= u32::MAX,
            old(self).spec_sizes().len() * increment <= u32::MAX,
        ensures
            r.id == old(self).spec_sizes().len(),
            r.descriptor_offset == old(self).spec_sizes().len() * increment,
            final(self).spec_sizes() == old(self).spec_sizes().push(
                TextureSize { width, height },
            ),
            old(self).spec_capacity() <= old(self).spec_sizes().len() ==> {
                &&& final(self).spec_capacity() == 2 * old(self).spec_capacity()
                &&& r.copied_descriptors == Some(old(self).spec_capacity() as u32)
            },
            old(self).spec_capacity() > old(self).spec_sizes().len() ==> {
                &&& final(self).spec_capacity() == old(self).spec_capacity()
                &&& r.copied_descriptors == None::<u32>
            },
    {
        let copied = self.grow_descriptors();
        let index = self.sizes.len();
        let index32 = index as u32;
        let descriptor_offset = descriptor_offset(index32, increment);
        let id = self.register(width, height);
        TextureSlot { id, descriptor_offset, copied_descriptors: copied }
    }

    /// Checks that an image of `width` by `height` can replace the contents
    /// of the texture `id`: it must have the size the texture was created
    /// with.
    pub fn check_replacement(&self, id: usize, width: u32, height: u32) -> (r: Result<
        (),
        TextureSizeMismatch,
    >)
        requires
            id < self.spec_sizes().len(),
        ensures
            r is Ok <==> (self.spec_sizes()[id as int] == TextureSize { width, height }),
            r matches Err(e) ==> e == (TextureSizeMismatch {
                expected: self.spec_sizes()[id as int],
                given: TextureSize { width, height },
            }),
    {
        let expected = self.sizes[id];
        if expected.width != width || expected.height != height {
            Err(TextureSizeMismatch { expected, given: TextureSize { width, height } })
        } else {
            Ok(())
        }
    }
}

/// The byte offset of the descriptor of texture `index` in a heap whose
/// descriptors are `increment` bytes apart.
pub fn descriptor_offset(index: u32, increment: u32) -> (r: u32)
    requires
        index * increment <= u32::MAX,
    ensures
        r == index * increment,
{
    index * increment
}

/// `x` rounded up to a multiple of `a`.
pub open spec fn align_up(x: int, a: int) -> int {
    (x + a - 1) / a * a
}

/// The layout of an upload buffer for a texture: the bytes of one row of
/// pixels, the pitch the rows are placed at, and the buffer's total size.
#[derive(Clone, Copy, Debug, PartialEq, Eq, Structural)]
pub struct UploadLayout {
    pub row_size: u32,
    pub pitch: u32,
    pub size: u32,
}

/// The upload layout of a `width` by `height` RGBA8 texture: rows of
/// `4 * width` bytes at a pitch rounded up to 256 bytes.
pub fn upload_layout(width: u32, height: u32) -> (r: UploadLayout)
    requires
        width * BYTES_PER_PIXEL + TEXTURE_DATA_PITCH_ALIGNMENT - 1 <= u32::MAX,
        height * align_up(width * BYTES_PER_PIXEL, TEXTURE_DATA_PITCH_ALIGNMENT as int) <= u32::MAX,
    ensures
        r.row_size == width * BYTES_PER_PIXEL,
        r.pitch == align_up(width * BYTES_PER_PIXEL, TEXTURE_DATA_PITCH_ALIGNMENT as int),
        r.size == height * r.pitch,
        r.row_size <= r.pitch < r.row_size + TEXTURE_DATA_PITCH_ALIGNMENT,
        r.pitch % TEXTURE_DATA_PITCH_ALIGNMENT == 0,
{
    let row_size = width * BYTES_PER_PIXEL;
    let align = TEXTURE_DATA_PITCH_ALIGNMENT;
    let pitch = (row_size + (align - 1)) / align * align;
    let size = height * pitch;
    UploadLayout { row_size, pitch, size }
}

/// The byte at offset `i` of an upload buffer whose rows of `row` bytes sit
/// at a pitch of `pitch` bytes: the pixel data of that row, or padding.
pub open spec fn upload_byte(data: Seq<u8>, row: int, pitch: int, i: int) -> u8 {
    if i % pitch < row {
        data[(i / pitch) * row + i % pitch]
    } else {
        0
    }
}

/// Lays the pixel rows of `data` out at the pitch `pitch`: row `y` starts at
/// byte `y * pitch`, and the bytes after a row up to the next are zero.
pub fn pitched_upload(data: &[u8], row_size: u32, pitch: u32, height: u32) -> (out: Vec<u8>)
    requires
        row_size <= pitch,
        height * pitch <= usize::MAX,
        height * row_size <= data@.len(),
    ensures
        out@.len() == height * pitch,
        forall|i: int| 0 <= i < out@.len() ==> #[trigger] out@[i] == upload_byte(
            data@,
            row_size as int,
            pitch as int,
            i,
        ),
{
    let data_len = data.len();
    let mut out: Vec<u8> = Vec::new();
    let mut y: u32 = 0;
    while y < height
        invariant
            y <= height,
            row_size <= pitch,
            height * pitch <= usize::MAX,
            height * row_size <= data@.len(),
            data_len == data@.len(),
            out@.len() == y * pitch,
            forall|i: int| 0 <= i < out@.len() ==> #[trigger] out@[i] == upload_byte(
                data@,
                row_size as int,
                pitch as int,
                i,
            ),
        decreases height - y,
    {
        assert((y + 1) * pitch <= height * pitch) by (nonlinear_arith)
            requires
                y < height,
        ;
        assert((y + 1) * row_size <= height * row_size) by (nonlinear_arith)
            requires
                y < height,
        ;
        assert(y * row_size <= (y + 1) * row_size) by (nonlinear_arith);
        let start: usize = (y as usize) * (row_size as usize);
        let mut x: u32 = 0;
        while x < pitch
            invariant
                y < height,
                x <= pitch,
                row_size <= pitch,
                (y + 1) * pitch <= usize::MAX,
                (y + 1) * row_size <= data@.len(),
                data_len == data@.len(),
                start == y * row_size,
                out@.len() == y * pitch + x,
                forall|i: int| 0 <= i < out@.len() ==> #[trigger] out@[i] == upload_byte(
                    data@,
                    row_size as int,
                    pitch as int,
                    i,
                ),
            decreases pitch - x,
        {
            let ghost k: int = y * pitch + x;
            proof {
                vstd::arithmetic::div_mod::lemma_fundamental_div_mod_converse(
                    k,
                    pitch as int,
                    y as int,
                    x as int,
                );
                assert(y * pitch + x < (y + 1) * pitch) by (nonlinear_arith)
                    requires
                        x < pitch,
                ;
            }
            if x < row_size {
                assert(y * row_size + x < (y + 1) * row_size) by (nonlinear_arith)
                    requires
                        x < row_size,
                ;
                out.push(data[start + (x as usize)]);
            } else {
                out.push(0u8);
            }
            x = x + 1;
        }
        assert((y + 1) * pitch == y * pitch + pitch) by (nonlinear_arith);
        y = y + 1;
    }
    out
}

/// Each row of pixel data lands at its pitched offset: byte `x` of row `y`
/// of the image is byte `y * pitch + x` of the upload buffer.
pub proof fn lemma_upload_rows_in_place(data: Seq<u8>, row: int, pitch: int, y: int, x: int)
    requires
        0 <= x < row <= pitch,
        0 <= y,
    ensures
        upload_byte(data, row, pitch, y * pitch + x) == data[y * row + x],
{
    vstd::arithmetic::div_mod::lemma_fundamental_div_mod_converse(y * pitch + x, pitch, y, x);
}

/// The bytes between the end of a row and the next pitch boundary are zero.
pub proof fn lemma_upload_padding_zero(data: Seq<u8>, row: int, pitch: int, y: int, x: int)
    requires
        0 <= row <= x < pitch,
        0 <= y,
    ensures
        upload_byte(data, row, pitch, y * pitch + x) == 0,
{
    vstd::arithmetic::div_mod::lemma_fundamental_div_mod_converse(y * pitch + x, pitch, y, x);
}

/// A texture's contents can always be replaced by an image of the size it
/// was created with: after `register(width, height)` hands out `id`, the
/// size on record for `id` is `width` by `height`, so the replacement check
/// for that size passes.
pub proof fn lemma_registered_size_accepted(sizes: Seq<TextureSize>, width: u32, height: u32)
    ensures
        ({
            let after = sizes.push(TextureSize { width, height });
            &&& sizes.len() < after.len()
            &&& after[sizes.len() as int] == TextureSize { width, height }
            &&& forall|id: int| 0 <= id < sizes.len() ==> after[id] == sizes[id]
        }),
{
}

} // verus!
