//! The camera uniform: the per-frame data that shaders read, and the plan
//! by which it reaches the GPU.
//!
//! Every number of the uniform is held as the bit pattern of an IEEE 754
//! binary32 value.

use vstd::prelude::*;
use vstd::slice::slice_to_vec;

verus! {

/// The bit pattern of the number one.
pub const ONE: u32 = 0x3f80_0000;

/// The size of the uniform in bytes: four words of position and sixteen of
/// matrix, tightly packed.
pub const UNIFORM_SIZE: u64 = 80;

/// Byte `k` of a word, counted from the least significant one.
pub open spec fn byte_of(word: u32, k: int) -> u8 {
    if k == 0 {
        (word & 0xff) as u8
    } else if k == 1 {
        ((word >> 8) & 0xff) as u8
    } else if k == 2 {
        ((word >> 16) & 0xff) as u8
    } else {
        ((word >> 24) & 0xff) as u8
    }
}

/// The bytes of a sequence of words laid out one word after the other, each
/// word with its least significant byte first, or last if `big_endian`.
pub open spec fn encode(words: Seq<u32>, big_endian: bool) -> Seq<u8> {
    Seq::new(
        4 * words.len(),
        |i: int|
            byte_of(
                words[i / 4],
                if big_endian {
                    3 - i % 4
                } else {
                    i % 4
                },
            ),
    )
}

/// `bytes` is the layout of `words` in memory, in one of the two byte
/// orders that a machine can have.
pub open spec fn in_memory_order(bytes: Seq<u8>, words: Seq<u32>) -> bool {
    bytes == encode(words, false) || bytes == encode(words, true)
}

/// Calls `bytemuck::cast_slice` from words to bytes, which hands back the
/// memory of the words as it lies: four bytes for each word, in the byte
/// order of the machine. From `u32` to `u8` the cast cannot fail.
#[verifier::external_body]
fn words_as_bytes(words: &[u32]) -> (bytes: &[u8])
    ensures
        in_memory_order(bytes@, words@),
{
    bytemuck::cast_slice(words)
}

/// The camera data that shaders read: the position of the eye in
/// homogeneous coordinates, and the combined view-projection matrix, column
/// after column.
#[derive(Clone, Copy, Debug, PartialEq, Eq)]
pub struct UniformData {
    pub view_position: [u32; 4],
    pub view_proj: [u32; 16],
}

/// The identity matrix: one on the diagonal, zero elsewhere.
pub open spec fn identity() -> Seq<u32> {
    Seq::new(
        16,
        |i: int|
            if i % 5 == 0 {
                ONE
            } else {
                0u32
            },
    )
}

impl UniformData {
    /// The twenty words of the uniform in buffer order.
    pub open spec fn words(self) -> Seq<u32> {
        self.view_position@ + self.view_proj@
    }

    /// The data before any camera was seen: a zero position and the
    /// identity matrix.
    pub fn new() -> (data: UniformData)
        ensures
            data.view_position@ == seq![0u32, 0u32, 0u32, 0u32],
            data.view_proj@ == identity(),
    {
        let data = UniformData {
            view_position: [0, 0, 0, 0],
            view_proj: [ONE, 0, 0, 0, 0, ONE, 0, 0, 0, 0, ONE, 0, 0, 0, 0, ONE],
        };
        assert(data.view_position@ =~= seq![0u32, 0u32, 0u32, 0u32]);
        assert(data.view_proj@ =~= identity());
        data
    }

    /// The bytes of the uniform as a GPU buffer holds them.
    pub fn bytes(&self) -> (bytes: Vec<u8>)
        ensures
            in_memory_order(bytes@, self.words()),
            bytes@.len() == UNIFORM_SIZE,
    {
        let mut words: Vec<u32> = Vec::new();
        words.extend_from_slice(self.view_position.as_slice());
        words.extend_from_slice(self.view_proj.as_slice());
        assert(words@ =~= self.words());
        slice_to_vec(words_as_bytes(words.as_slice()))
    }
}

/// The usages that the framework asks of a buffer.
#[derive(Clone, Copy, Debug, PartialEq, Eq, Structural)]
pub struct BufferUsage {
    pub copy_src: bool,
    pub copy_dst: bool,
    pub uniform: bool,
}

/// A buffer for the host to create, filled with `contents`.
#[derive(Debug)]
pub struct BufferInit {
    pub label: &'static str,
    pub contents: Vec<u8>,
    pub usage: BufferUsage,
}

/// A copy from one buffer to another for the host to record.
#[derive(Clone, Copy, Debug, PartialEq, Eq, Structural)]
pub struct BufferCopy {
    pub source_offset: u64,
    pub destination_offset: u64,
    pub size: u64,
}

/// One update of a buffer: the staging buffer to create, the buffer to
/// copy into, and the copy from the one into the other to record.
#[derive(Debug)]
pub struct StagedCopy<'a, B> {
    pub staging: BufferInit,
    pub destination: &'a B,
    pub copy: BufferCopy,
}

impl UniformData {
    /// `init` describes the long-lived uniform buffer for this data: a
    /// buffer that holds the data, can be bound as a uniform and can be
    /// copied into.
    pub open spec fn is_buffer_init(self, init: BufferInit) -> bool {
        &&& init.label@ == "Camera Buffer"@
        &&& in_memory_order(init.contents@, self.words())
        &&& init.usage == BufferUsage { copy_src: false, copy_dst: true, uniform: true }
    }

    /// `staged` describes one update of the buffer `destination` with this
    /// data: a staging buffer that holds the data and can be copied from,
    /// and the copy of the whole uniform from its start to the start of
    /// `destination`.
    pub open spec fn is_update<B>(self, staged: StagedCopy<B>, destination: B) -> bool {
        &&& *staged.destination == destination
        &&& staged.staging.label@ == "Camera Update Buffer"@
        &&& in_memory_order(staged.staging.contents@, self.words())
        &&& staged.staging.usage == BufferUsage { copy_src: true, copy_dst: false, uniform: false }
        &&& staged.copy == BufferCopy {
            source_offset: 0,
            destination_offset: 0,
            size: UNIFORM_SIZE,
        }
        &&& staged.staging.contents@.len() == staged.copy.size
    }

    /// Describes the long-lived uniform buffer for this data.
    pub fn buffer_init(&self) -> (init: BufferInit)
        ensures
            self.is_buffer_init(init),
            init.contents@.len() == UNIFORM_SIZE,
    {
        BufferInit {
            label: "Camera Buffer",
            contents: self.bytes(),
            usage: BufferUsage { copy_src: false, copy_dst: true, uniform: true },
        }
    }
}

/// The camera uniform: the data on the CPU side and the GPU buffer `B`
/// that backs it.
pub struct CameraUniform<B> {
    data: UniformData,
    buffer: B,
}

impl<B> CameraUniform<B> {
    /// The data on the CPU side.
    pub closed spec fn spec_data(&self) -> UniformData {
        self.data
    }

    /// The GPU buffer that backs the uniform.
    pub closed spec fn spec_buffer(&self) -> B {
        self.buffer
    }

    /// Takes over the uniform buffer that the host created from
    /// `UniformData::new().buffer_init()`.
    pub fn new(buffer: B) -> (uniform: CameraUniform<B>)
        ensures
            uniform.spec_data().view_position@ == seq![0u32, 0u32, 0u32, 0u32],
            uniform.spec_data().view_proj@ == identity(),
            uniform.spec_buffer() == buffer,
    {
        CameraUniform { data: UniformData::new(), buffer }
    }

    /// The data on the CPU side.
    #[verifier::when_used_as_spec(spec_data)]
    pub fn data(&self) -> (data: UniformData)
        ensures
            data == self.spec_data(),
    {
        self.data
    }

    /// The GPU buffer that backs the uniform.
    pub fn buffer(&self) -> (buffer: &B)
        ensures
            *buffer == self.spec_buffer(),
    {
        &self.buffer
    }

    /// Takes the camera of the frame: the position of the eye, promoted to
    /// homogeneous coordinates with a last coordinate of one, and the
    /// product of the projection matrix and the view matrix, in this order.
    pub fn update_view_proj(&mut self, position: [u32; 3], view_proj: [u32; 16])
        ensures
            final(self).spec_data().view_position@ == seq![
                position@[0],
                position@[1],
                position@[2],
                ONE,
            ],
            final(self).spec_data().view_proj == view_proj,
            final(self).spec_buffer() == old(self).spec_buffer(),
    {
        self.data.view_position = [position[0], position[1], position[2], ONE];
        self.data.view_proj = view_proj;
        assert(self.data.view_position@ =~= seq![position@[0], position@[1], position@[2], ONE]);
    }

    /// Plans the update of the GPU buffer with the current data: exactly one
    /// copy of the whole uniform, from the start of a fresh staging buffer to
    /// the start of the uniform buffer of `self`. The host records the copy
    /// on the encoder of the frame before that frame's render pass.
    pub fn update_buffer(&self) -> (staged: StagedCopy<'_, B>)
        ensures
            self.spec_data().is_update(staged, self.spec_buffer()),
    {
        StagedCopy {
            destination: &self.buffer,
            staging: BufferInit {
                label: "Camera Update Buffer",
                contents: self.data.bytes(),
                usage: BufferUsage { copy_src: true, copy_dst: false, uniform: false },
            },
            copy: BufferCopy { source_offset: 0, destination_offset: 0, size: UNIFORM_SIZE },
        }
    }
}

} // verus!
