//! Independently owned image values.
//!
//! An image is created directly, never reached from the root handle, and
//! destroyed individually: destroying one image cannot affect any other, and
//! consuming it on destruction makes a second destruction or a later use
//! impossible to write. Pixel content is a byte buffer of exactly
//! `width * height * channel_count` bytes; metadata is a keyed store of text
//! values.

use vstd::prelude::*;

use crate::bytes::bytes_clone;
use crate::kvstore::keys_unique;
use crate::kvstore::kv_find;
use crate::kvstore::kv_lookup;
use crate::kvstore::kv_set;
use crate::codec::decode_all;
use crate::text::c_content;
use crate::text::MarshalError;
use crate::text::contains_nul;
use crate::text::to_foreign;

verus! {

/// How a pixel channel is stored.
#[derive(Clone, Copy, Debug, PartialEq, Eq, Structural)]
pub enum ImageChannelType {
    /// One byte per channel.
    BYTE,
    /// Two bytes per channel.
    SHORT,
    /// Four bytes per channel, floating point.
    FLOAT,
}

/// The raw value each channel type crosses the boundary as.
pub open spec fn channel_type_to_raw_spec(t: ImageChannelType) -> u32 {
    match t {
        ImageChannelType::BYTE => 0,
        ImageChannelType::SHORT => 1,
        ImageChannelType::FLOAT => 2,
    }
}

impl ImageChannelType {
    /// Encodes the channel type for the foreign side.
    pub fn to_raw(&self) -> (r: u32)
        ensures
            r == channel_type_to_raw_spec(*self),
    {
        match self {
            ImageChannelType::BYTE => 0,
            ImageChannelType::SHORT => 1,
            ImageChannelType::FLOAT => 2,
        }
    }

    /// Decodes a raw foreign value; an unrecognized value is reported rather
    /// than aborted on, since the foreign value space may grow.
    pub fn from_raw(v: u32) -> (r: Option<ImageChannelType>)
        ensures
            r == if v == 0 {
                Some(ImageChannelType::BYTE)
            } else if v == 1 {
                Some(ImageChannelType::SHORT)
            } else if v == 2 {
                Some(ImageChannelType::FLOAT)
            } else {
                None::<ImageChannelType>
            },
    {
        match v {
            0 => Some(ImageChannelType::BYTE),
            1 => Some(ImageChannelType::SHORT),
            2 => Some(ImageChannelType::FLOAT),
            _ => None,
        }
    }
}

/// A file format an image can be encoded in.
#[derive(Clone, Copy, Debug, PartialEq, Eq, Structural)]
pub enum ImageFormat {
    /// Portable network graphics.
    PNG,
    /// JPEG.
    JPEG,
    /// Tagged image file format.
    TIF,
    /// Raw dump.
    DMP,
}

impl ImageFormat {
    /// Encodes the format for the foreign side.
    pub fn to_raw(&self) -> (r: u32)
        ensures
            r == match *self {
                ImageFormat::PNG => 0u32,
                ImageFormat::JPEG => 1u32,
                ImageFormat::TIF => 2u32,
                ImageFormat::DMP => 3u32,
            },
    {
        match self {
            ImageFormat::PNG => 0,
            ImageFormat::JPEG => 1,
            ImageFormat::TIF => 2,
            ImageFormat::DMP => 3,
        }
    }
}

/// An independently owned image: shape, pixel content, and metadata.
pub struct Image {
    width: u32,
    height: u32,
    channel_count: u32,
    channel_type: ImageChannelType,
    content: Vec<u8>,
    metadata: Vec<(Vec<u8>, Vec<u8>)>,
}

/// Image equality as the foreign comparison defines it: same shape, same
/// channel type, same pixel content; metadata does not take part.
pub open spec fn image_eq(a: Image, b: Image) -> bool {
    &&& a.width_view() == b.width_view()
    &&& a.height_view() == b.height_view()
    &&& a.channels() == b.channels()
    &&& a.channel_type_view() == b.channel_type_view()
    &&& a.content_view() == b.content_view()
}

impl Image {
    /// The width in pixels.
    pub closed spec fn width_view(&self) -> u32 {
        self.width
    }

    /// The height in pixels.
    pub closed spec fn height_view(&self) -> u32 {
        self.height
    }

    /// The number of channels per pixel.
    pub closed spec fn channels(&self) -> u32 {
        self.channel_count
    }

    /// The channel type.
    pub closed spec fn channel_type_view(&self) -> ImageChannelType {
        self.channel_type
    }

    /// The pixel content bytes.
    pub closed spec fn content_view(&self) -> Seq<u8> {
        self.content@
    }

    /// The metadata value under a key, if any.
    pub closed spec fn metadata_view(&self, key: Seq<u8>) -> Option<Vec<u8>> {
        kv_lookup(self.metadata@, key)
    }

    /// The metadata keys, in store order.
    pub closed spec fn metadata_keys(&self) -> Seq<Seq<u8>> {
        self.metadata@.map_values(|e: (Vec<u8>, Vec<u8>)| e.0@)
    }

    /// The metadata entries as stored.
    pub closed spec fn metadata_entries(&self) -> Seq<(Vec<u8>, Vec<u8>)> {
        self.metadata@
    }

    /// The content buffer covers the shape byte for byte, and metadata keys
    /// are distinct.
    pub open spec fn wf(&self) -> bool {
        &&& self.content_view().len() == self.width_view() * self.height_view()
            * self.channels()
        &&& keys_unique(self.metadata_entries())
    }

    /// Creates an image of the given shape with zeroed content. Construction
    /// fails — the foreign factory reports null — when the shape's byte size
    /// does not fit the machine.
    pub fn new_params(
        width: u32,
        height: u32,
        channel_count: u32,
        channel_type: ImageChannelType,
    ) -> (r: Option<Image>)
        ensures
            match r {
                Some(img) => {
                    &&& img.width_view() == width
                    &&& img.height_view() == height
                    &&& img.channels() == channel_count
                    &&& img.channel_type_view() == channel_type
                    &&& img.content_view().len() == width * height * channel_count
                    &&& forall|j: int| 0 <= j < img.content_view().len() ==> img.content_view()[j] == 0
                    &&& img.wf()
                },
                None => width * height * channel_count > usize::MAX,
            },
    {
        let n: usize = if width == 0 || height == 0 || channel_count == 0 {
            proof {
                assert(width * height * channel_count == 0) by (nonlinear_arith)
                    requires
                        width == 0 || height == 0 || channel_count == 0,
                ;
            }
            0
        } else {
            let wh = match (width as u64).checked_mul(height as u64) {
                Some(n) => n,
                None => {
                    proof {
                        assert(width * height * channel_count >= width * height) by (nonlinear_arith)
                            requires
                                channel_count >= 1,
                                width >= 0,
                                height >= 0,
                        ;
                    }
                    return None;
                },
            };
            let n64 = match wh.checked_mul(channel_count as u64) {
                Some(n) => n,
                None => {
                    return None;
                },
            };
            if n64 > usize::MAX as u64 {
                return None;
            }
            n64 as usize
        };
        let mut content: Vec<u8> = Vec::new();
        while content.len() < n
            invariant
                content@.len() <= n,
                forall|j: int| 0 <= j < content@.len() ==> content@[j] == 0,
            decreases n - content@.len(),
        {
            content.push(0);
        }
        Some(Image { width, height, channel_count, channel_type, content, metadata: Vec::new() })
    }

    /// Creates an empty placeholder image.
    pub fn new_empty() -> (r: Option<Image>)
        ensures
            match r {
                Some(img) => {
                    &&& img.width_view() == 0
                    &&& img.height_view() == 0
                    &&& img.channels() == 0
                    &&& img.content_view().len() == 0
                    &&& img.wf()
                },
                None => false,
            },
    {
        Some(
            Image {
                width: 0,
                height: 0,
                channel_count: 0,
                channel_type: ImageChannelType::BYTE,
                content: Vec::new(),
                metadata: Vec::new(),
            },
        )
    }

    /// The width in pixels.
    pub fn get_width(&self) -> (r: u32)
        ensures
            r == self.width_view(),
    {
        self.width
    }

    /// The height in pixels.
    pub fn get_height(&self) -> (r: u32)
        ensures
            r == self.height_view(),
    {
        self.height
    }

    /// The number of channels per pixel.
    pub fn get_channel_count(&self) -> (r: u32)
        ensures
            r == self.channels(),
    {
        self.channel_count
    }

    /// The channel type.
    pub fn channel_type(&self) -> (r: ImageChannelType)
        ensures
            r == self.channel_type_view(),
    {
        self.channel_type
    }

    /// Replaces the pixel content. The foreign side reads exactly the image's
    /// byte size from the caller's buffer, so the buffer must have it.
    pub fn set_content(&mut self, data: &[u8])
        requires
            data@.len() == old(self).content_view().len(),
        ensures
            final(self).content_view() == data@,
            final(self).width_view() == old(self).width_view(),
            final(self).height_view() == old(self).height_view(),
            final(self).channels() == old(self).channels(),
            final(self).channel_type_view() == old(self).channel_type_view(),
            forall|k: Seq<u8>| final(self).metadata_view(k) == old(self).metadata_view(k),
            final(self).metadata_keys() == old(self).metadata_keys(),
            old(self).wf() ==> final(self).wf(),
    {
        self.content = bytes_clone(data);
    }

    /// Copies the pixel content out; the image keeps its own buffer.
    pub fn get_content(&self) -> (r: Vec<u8>)
        ensures
            r@ == self.content_view(),
    {
        bytes_clone(self.content.as_slice())
    }

    /// Whether two images hold the same pixels in the same shape, as the
    /// foreign comparison defines it; metadata does not take part.
    pub fn equals(&self, other: &Image) -> (r: bool)
        ensures
            r == image_eq(*self, *other),
    {
        self.width == other.width && self.height == other.height && self.channel_count
            == other.channel_count && self.channel_type.to_raw() == other.channel_type.to_raw()
            && crate::bytes::bytes_eq(self.content.as_slice(), other.content.as_slice())
    }

    /// Stores a metadata value under a key; key or value embedding the
    /// terminator byte cannot cross the boundary and is rejected with nothing
    /// changed.
    pub fn set_metadata(&mut self, key: &[u8], value: &[u8]) -> (r: Result<(), MarshalError>)
        ensures
            match r {
                Ok(()) => {
                    &&& !contains_nul(key@) && !contains_nul(value@)
                    &&& (exists|t: Vec<u8>|
                        final(self).metadata_view(key@) == Some(t) && t@ == value@)
                    &&& forall|k2: Seq<u8>|
                        k2 != key@ ==> final(self).metadata_view(k2) == old(self).metadata_view(k2)
                },
                Err(e) => e == MarshalError::EmbeddedTerminator && (contains_nul(key@)
                    || contains_nul(value@)) && *final(self) == *old(self),
            },
            final(self).width_view() == old(self).width_view(),
            final(self).height_view() == old(self).height_view(),
            final(self).channels() == old(self).channels(),
            final(self).channel_type_view() == old(self).channel_type_view(),
            final(self).content_view() == old(self).content_view(),
            old(self).wf() ==> final(self).wf(),
    {
        if let Err(e) = to_foreign(key) {
            return Err(e);
        }
        if let Err(e) = to_foreign(value) {
            return Err(e);
        }
        let owned = bytes_clone(value);
        let ghost t = owned;
        kv_set(&mut self.metadata, key, owned);
        proof {
            assert(final(self).metadata_view(key@) == Some(t) && t@ == value@);
        }
        Ok(())
    }

    /// Reads the metadata value under a key: a copy of the stored bytes, or
    /// nothing for an unset key; a key embedding the terminator byte is
    /// rejected.
    pub fn get_metadata(&self, key: &[u8]) -> (r: Result<Option<Vec<u8>>, MarshalError>)
        ensures
            match r {
                Ok(Some(v)) => exists|t: Vec<u8>|
                    self.metadata_view(key@) == Some(t) && v@ == t@,
                Ok(None) => self.metadata_view(key@) is None,
                Err(e) => e == MarshalError::EmbeddedTerminator && contains_nul(key@),
            },
    {
        if let Err(e) = to_foreign(key) {
            return Err(e);
        }
        match kv_find(&self.metadata, key) {
            None => Ok(None),
            Some(i) => Ok(Some(bytes_clone(self.metadata[i].1.as_slice()))),
        }
    }

    /// All metadata keys, copied into host-owned text; the foreign key array
    /// behind them is the store itself, which stays put.
    pub fn all_metadata(&self) -> (r: Vec<Vec<u8>>)
        ensures
            r@.len() == self.metadata_keys().len(),
            forall|i: int| 0 <= i < r@.len() ==> r@[i]@ == self.metadata_keys()[i],
    {
        let mut r: Vec<Vec<u8>> = Vec::new();
        let mut i: usize = 0;
        while i < self.metadata.len()
            invariant
                i <= self.metadata@.len(),
                r@.len() == i,
                forall|j: int| 0 <= j < i ==> r@[j]@ == self.metadata_keys()[j],
            decreases self.metadata@.len() - i,
        {
            r.push(bytes_clone(self.metadata[i].0.as_slice()));
            i += 1;
        }
        r
    }

    /// The channel bytes of one pixel: `channel_count` bytes starting at
    /// `(y * width + x) * channel_count`. A position outside the image yields
    /// nothing; normalizing the bytes into values is the host layer's
    /// floating-point arithmetic.
    pub fn pixel_at(&self, x: u32, y: u32) -> (r: Option<Vec<u8>>)
        requires
            self.wf(),
        ensures
            match r {
                Some(p) => {
                    &&& x < self.width_view() && y < self.height_view()
                    &&& p@ == self.content_view().subrange(
                        (y * self.width_view() + x) * self.channels(),
                        (y * self.width_view() + x) * self.channels() + self.channels(),
                    )
                },
                None => x >= self.width_view() || y >= self.height_view(),
            },
    {
        if x >= self.width || y >= self.height {
            return None;
        }
        proof {
            assert((y as int) * (self.width as int) + (x as int) < 0x10000000000000000) by (nonlinear_arith)
                requires
                    y < 0x100000000,
                    self.width < 0x100000000,
                    x < 0x100000000,
                    y >= 0,
                    x >= 0,
                    self.width >= 0,
            ;
            assert((y * self.width + x) * self.channel_count + self.channel_count <= self.width
                * self.height * self.channel_count) by (nonlinear_arith)
                requires
                    x < self.width,
                    y < self.height,
                    x >= 0,
                    y >= 0,
                    self.channel_count >= 0,
                    self.width >= 0,
                    self.height >= 0,
            ;
            assert((y * self.width + x) * self.channel_count + self.channel_count
                <= self.content_view().len());
        }
        let offset: u64 = (y as u64) * (self.width as u64) + (x as u64);
        let total: usize = self.content.len();
        proof {
            assert(offset == y * self.width + x);
            assert(offset * self.channel_count == (y * self.width + x) * self.channel_count)
                by (nonlinear_arith)
                requires
                    offset == y * self.width + x,
            ;
            assert(offset * self.channel_count + self.channel_count <= total);
        }
        let start64: u64 = offset * (self.channel_count as u64);
        let start = start64 as usize;
        let end = start + self.channel_count as usize;
        Some(bytes_clone(&self.content.as_slice()[start..end]))
    }

    /// Decodes the foreign list of supported format names: a counted,
    /// foreign-owned string array that is read copy-only, so no release is
    /// owed.
    pub fn supported_formats(raw: &Vec<Vec<u8>>) -> (r: Vec<Vec<u8>>)
        ensures
            r@.len() == raw@.len(),
            forall|i: int| 0 <= i < r@.len() ==> r@[i]@ == c_content(raw@[i]@),
    {
        decode_all(raw)
    }

    /// Destroys the image. Taking the value makes the destruction happen at
    /// most once and forbids any later use; no other image is affected, since
    /// independently owned values share nothing.
    pub fn delete(self) {
    }
}

/// Two images built from identical pixel content of identical shape compare
/// equal, whatever their metadata.
pub proof fn lemma_identical_images_equal(a: Image, b: Image)
    requires
        a.width_view() == b.width_view(),
        a.height_view() == b.height_view(),
        a.channels() == b.channels(),
        a.channel_type_view() == b.channel_type_view(),
        a.content_view() == b.content_view(),
    ensures
        image_eq(a, b),
{
}

/// Image equality is reflexive: an image held against itself shows no
/// difference.
pub proof fn lemma_image_eq_reflexive(a: Image)
    ensures
        image_eq(a, a),
{
}

} // verus!
