//! Textures that show video, and the store that holds them.
use vstd::prelude::*;

verus! {

/// The width of the video in pixels.
pub const VIDEO_WIDTH: u32 = 640;

/// The height of the video in pixels.
pub const VIDEO_HEIGHT: u32 = 480;

/// A texture and its bytes.
#[derive(Debug)]
pub struct Texture {
    pub width: u32,
    pub height: u32,
    pub data: Vec<u8>,
}

/// The mathematical value of a [`Texture`].
#[verifier::ext_equal]
pub struct TextureView {
    pub width: u32,
    pub height: u32,
    pub data: Seq<u8>,
}

impl View for Texture {
    type V = TextureView;

    open spec fn view(&self) -> TextureView {
        TextureView { width: self.width, height: self.height, data: self.data@ }
    }
}

impl TextureView {
    /// The texture holds four bytes per pixel, and each pixel is `pixel`.
    pub open spec fn is_filled(self, pixel: Seq<u8>) -> bool {
        &&& self.data.len() == self.width * self.height * 4
        &&& forall|i: int| 0 <= i < self.data.len() ==> #[trigger] self.data[i] == pixel[i % 4]
    }
}

/// The colour of a texture that has not shown a frame yet: opaque black.
pub open spec fn opaque_black() -> Seq<u8> {
    seq![0u8, 0u8, 0u8, 255u8]
}

impl Texture {
    /// Makes a texture of four bytes per pixel whose pixels are all `pixel`.
    pub fn filled(width: u32, height: u32, pixel: [u8; 4]) -> (r: Texture)
        requires
            width * height * 4 <= usize::MAX,
        ensures
            r.width == width,
            r.height == height,
            r@.is_filled(pixel@),
    {
        assert(width * height <= usize::MAX);
        assert(0 <= width * height) by (nonlinear_arith)
            requires
                0 <= width,
                0 <= height,
        ;
        let count: usize = (width as usize) * (height as usize);
        let mut data: Vec<u8> = Vec::new();
        let mut n: usize = 0;
        while n < count
            invariant
                n <= count,
                count * 4 <= usize::MAX,
                data@.len() == n * 4,
                forall|i: int| 0 <= i < data@.len() ==> #[trigger] data@[i] == pixel@[i % 4],
            decreases count - n,
        {
            data.push(pixel[0]);
            data.push(pixel[1]);
            data.push(pixel[2]);
            data.push(pixel[3]);
            n += 1;
        }
        Texture { width, height, data }
    }

    /// Makes the texture that shows the video: its size, all opaque black.
    pub fn blank_video() -> (r: Texture)
        ensures
            r.width == VIDEO_WIDTH,
            r.height == VIDEO_HEIGHT,
            r@.is_filled(opaque_black()),
    {
        let pixel: [u8; 4] = [0, 0, 0, 255];
        assert(pixel@ =~= opaque_black());
        Texture::filled(VIDEO_WIDTH, VIDEO_HEIGHT, pixel)
    }
}

/// The textures by their handles. A handle whose slot is empty, or that lies beyond the slots,
/// leads to no texture.
#[derive(Debug)]
pub struct VideoImages {
    pub slots: Vec<Option<Texture>>,
}

/// The texture in a slot.
pub open spec fn texture_of(slot: Option<Texture>) -> Option<TextureView> {
    match slot {
        Some(texture) => Some(texture@),
        None => None,
    }
}

impl View for VideoImages {
    type V = Seq<Option<TextureView>>;

    open spec fn view(&self) -> Seq<Option<TextureView>> {
        self.slots@.map_values(|slot: Option<Texture>| texture_of(slot))
    }
}

/// The texture that a handle leads to.
pub open spec fn lookup(images: Seq<Option<TextureView>>, handle: usize) -> Option<TextureView> {
    if handle < images.len() {
        images[handle as int]
    } else {
        None
    }
}

/// A frame that does not fit a texture: how many bytes were expected and how many came.
#[derive(Clone, Copy, Debug, PartialEq, Eq, Structural)]
pub struct SizeMismatch {
    pub expected: usize,
    pub got: usize,
}

/// A texture counts by its own size and bytes, and a store by its slots: nothing in either is left
/// out or changed.
pub proof fn law_textures_count_by_their_bytes(texture: Texture, images: VideoImages, i: int)
    ensures
        texture@.width == texture.width,
        texture@.height == texture.height,
        texture@.data == texture.data@,
        images@.len() == images.slots@.len(),
        0 <= i < images.slots@.len() ==> match images.slots@[i] {
            Some(held) => images@[i] == Some(held@),
            None => images@[i] is None,
        },
{
}

/// A filled texture holds exactly its pixels, and the four bytes of each are those of the pixel
/// that it was filled with.
pub proof fn law_filled_textures_repeat_their_pixel(
    texture: TextureView,
    pixel: Seq<u8>,
    n: int,
    c: int,
)
    requires
        texture.is_filled(pixel),
    ensures
        texture.data.len() == texture.width * texture.height * 4,
        0 <= n < texture.width * texture.height && 0 <= c < 4 ==> texture.data[n * 4 + c]
            == pixel[c],
        opaque_black() == seq![0u8, 0u8, 0u8, 255u8],
{
    if 0 <= n < texture.width * texture.height && 0 <= c < 4 {
        assert((n * 4 + c) % 4 == c);
    }
}

} // verus!
