use vstd::prelude::*;

use crate::bytes::{native_encoding, words_as_bytes};

verus! {

/// Camera data handed to the screen shader as a uniform: the size of the
/// screen texture, the buffer width in pixels used for scanline wrapping, and
/// one word of padding so that the uniform is 16 bytes long.
#[derive(Clone, Copy)]
pub struct CameraUniform {
    screen: [u32; 2],
    buffer_width: u32,
    pad: u32,
}

impl View for CameraUniform {
    /// The four words in the order the shader reads them:
    /// screen width, screen height, buffer width, padding.
    type V = Seq<u32>;

    closed spec fn view(&self) -> Seq<u32> {
        seq![self.screen@[0], self.screen@[1], self.buffer_width, self.pad]
    }
}

impl CameraUniform {
    /// Builds the camera data for a screen of `width` x `height` pixels and a
    /// buffer `buffer_width` pixels wide. Each size is stored as a `u32`; a
    /// size above `u32::MAX` keeps its low 32 bits, as a cast does.
    pub fn new(size: (usize, usize), buffer_width: usize) -> (res: Self)
        ensures
            res@ == seq![size.0 as u32, size.1 as u32, buffer_width as u32, 0u32],
    {
        let (width, height) = size;
        let res = CameraUniform {
            screen: [width as u32, height as u32],
            buffer_width: buffer_width as u32,
            pad: 0,
        };
        assert(res@ =~= seq![size.0 as u32, size.1 as u32, buffer_width as u32, 0u32]);
        res
    }

    /// The four words of the uniform, in shader order.
    pub fn words(&self) -> (w: Vec<u32>)
        ensures
            w@ == self@,
    {
        let w = vec![self.screen[0], self.screen[1], self.buffer_width, self.pad];
        assert(w@ =~= self@);
        w
    }

    /// The bytes written into the uniform buffer: the words in the machine's
    /// byte order.
    pub fn as_bytes(&self) -> (b: Vec<u8>)
        ensures
            native_encoding(self@, b@),
            b@.len() == 16,
    {
        let w = self.words();
        words_as_bytes(w.as_slice())
    }

    /// The initial contents of the camera buffer for a square screen of
    /// `size` pixels: the camera of `new((size, size), size)`, as bytes.
    pub fn buffer_contents(size: usize) -> (b: Vec<u8>)
        ensures
            native_encoding(seq![size as u32, size as u32, size as u32, 0u32], b@),
    {
        let camera = Self::new((size, size), size);
        camera.as_bytes()
    }
}

/// Data handed to the viewport shader as a uniform.
#[derive(Clone, Copy)]
pub struct ViewportDataUniform {
    blue: u32,
}

impl View for ViewportDataUniform {
    /// The single word the shader reads: the blue channel value.
    type V = u32;

    closed spec fn view(&self) -> u32 {
        self.blue
    }
}

impl ViewportDataUniform {
    /// The viewport data the shader is given: a blue value of 63.
    pub fn new() -> (res: Self)
        ensures
            res@ == 63,
    {
        ViewportDataUniform { blue: 63 }
    }

    /// The words of the uniform, in shader order.
    pub fn words(&self) -> (w: Vec<u32>)
        ensures
            w@ == seq![self@],
    {
        let w = vec![self.blue];
        assert(w@ =~= seq![self@]);
        w
    }

    /// The bytes written into the uniform buffer.
    pub fn as_bytes(&self) -> (b: Vec<u8>)
        ensures
            native_encoding(seq![self@], b@),
            b@.len() == 4,
    {
        let w = self.words();
        words_as_bytes(w.as_slice())
    }

    /// The initial contents of the viewport buffer: the data of `new()`, as bytes.
    pub fn buffer_contents() -> (b: Vec<u8>)
        ensures
            native_encoding(seq![63u32], b@),
    {
        Self::new().as_bytes()
    }
}

} // verus!
