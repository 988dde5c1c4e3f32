//! Cursors of a theme and their images.
//!
//! The images of a theme are loaded by the backend. What is kept here is what
//! the backend read: the measures of each image and its pixels, four bytes
//! for each pixel. The wrappers borrow from the theme, so none of them
//! outlives it.
use vstd::prelude::*;

verus! {

/// One image of a cursor as the backend loaded it.
pub struct XCursorImageData {
    width: u32,
    height: u32,
    hotspot_x: u32,
    hotspot_y: u32,
    delay: u32,
    buffer: Vec<u8>,
}

/// Number of bytes that the pixels of an image of the given measures take.
pub open spec fn buffer_len(width: u32, height: u32) -> int {
    width * height * 4
}

impl XCursorImageData {
    #[verifier::type_invariant]
    spec fn sized(&self) -> bool {
        self.buffer@.len() == buffer_len(self.width, self.height)
    }

    /// Width of the image in pixels.
    pub closed spec fn width(&self) -> u32 {
        self.width
    }

    /// Height of the image in pixels.
    pub closed spec fn height(&self) -> u32 {
        self.height
    }

    /// Horizontal position of the hotspot in the image.
    pub closed spec fn hotspot_x(&self) -> u32 {
        self.hotspot_x
    }

    /// Vertical position of the hotspot in the image.
    pub closed spec fn hotspot_y(&self) -> u32 {
        self.hotspot_y
    }

    /// Time for which the image is shown in an animation, in milliseconds.
    pub closed spec fn delay(&self) -> u32 {
        self.delay
    }

    /// The pixels, row after row.
    pub closed spec fn buffer(&self) -> Seq<u8> {
        self.buffer@
    }

    /// The image with the given measures and pixels, or nothing if `buffer`
    /// does not hold four bytes for each pixel.
    pub fn new(
        width: u32,
        height: u32,
        hotspot_x: u32,
        hotspot_y: u32,
        delay: u32,
        buffer: Vec<u8>,
    ) -> (image: Option<XCursorImageData>)
        ensures
            image is Some <==> buffer@.len() == buffer_len(width, height),
            image matches Some(i) ==> {
                &&& i.width() == width
                &&& i.height() == height
                &&& i.hotspot_x() == hotspot_x
                &&& i.hotspot_y() == hotspot_y
                &&& i.delay() == delay
                &&& i.buffer() == buffer@
            },
    {
        assert(width * height <= 0xffff_ffff * 0xffff_ffff) by (nonlinear_arith)
            requires
                width <= 0xffff_ffff,
                height <= 0xffff_ffff,
        ;
        let pixels: u128 = (width as u128) * (height as u128);
        let bytes: u128 = pixels * 4;
        if buffer.len() as u128 == bytes {
            Some(XCursorImageData { width, height, hotspot_x, hotspot_y, delay, buffer })
        } else {
            None
        }
    }
}

/// An image of a cursor.
pub struct XCursorImage<'image> {
    image: &'image XCursorImageData,
}

impl<'image> View for XCursorImage<'image> {
    type V = XCursorImageData;

    closed spec fn view(&self) -> XCursorImageData {
        *self.image
    }
}

impl<'image> XCursorImage<'image> {
    /// The wrapper of `image`.
    pub fn new(image: &'image XCursorImageData) -> (wrapper: Self)
        ensures
            wrapper@ == *image,
    {
        XCursorImage { image }
    }

    /// Width and height of the image in pixels.
    pub fn size(&self) -> (size: (u32, u32))
        ensures
            size == (self@.width(), self@.height()),
    {
        (self.image.width, self.image.height)
    }

    /// Position of the hotspot in the image, horizontal and vertical.
    pub fn hotspots(&self) -> (hotspots: (u32, u32))
        ensures
            hotspots == (self@.hotspot_x(), self@.hotspot_y()),
    {
        (self.image.hotspot_x, self.image.hotspot_y)
    }

    /// Time for which the image is shown in an animation, in milliseconds.
    pub fn delay(&self) -> (delay: u32)
        ensures
            delay == self@.delay(),
    {
        self.image.delay
    }

    /// The pixels of the image, four bytes for each, row after row.
    pub fn pixels(&self) -> (pixels: &'image [u8])
        ensures
            pixels@ == self@.buffer(),
            pixels@.len() == buffer_len(self@.width(), self@.height()),
    {
        proof {
            use_type_invariant(self.image);
        }
        self.image.buffer.as_slice()
    }
}

/// One cursor of a theme as the backend loaded it: its handle, its name and
/// its images, more than one for an animated cursor.
pub struct XCursorData {
    xcursor: usize,
    name: Vec<u8>,
    images: Vec<XCursorImageData>,
}

impl XCursorData {
    /// Handle of the cursor.
    pub closed spec fn xcursor(&self) -> usize {
        self.xcursor
    }

    /// Name of the cursor, as bytes.
    pub closed spec fn name(&self) -> Seq<u8> {
        self.name@
    }

    /// The images of the cursor.
    pub closed spec fn images(&self) -> Seq<XCursorImageData> {
        self.images@
    }

    /// The cursor with the given handle, name and images.
    pub fn new(xcursor: usize, name: Vec<u8>, images: Vec<XCursorImageData>) -> (cursor:
        XCursorData)
        ensures
            cursor.xcursor() == xcursor,
            cursor.name() == name@,
            cursor.images() == images@,
    {
        XCursorData { xcursor, name, images }
    }

    /// True if the cursor has the name `name`.
    pub fn is_named(&self, name: &[u8]) -> (same: bool)
        ensures
            same == (self.name() == name@),
    {
        if self.name.len() != name.len() {
            return false;
        }
        let mut i: usize = 0;
        while i < name.len()
            invariant
                i <= name.len(),
                self.name@.len() == name@.len(),
                forall|j: int| 0 <= j < i ==> self.name@[j] == name@[j],
            decreases name.len() - i,
        {
            if self.name[i] != name[i] {
                return false;
            }
            i += 1;
        }
        assert(self.name@ =~= name@);
        true
    }
}

/// A cursor of a theme.
pub struct XCursor<'cursor> {
    xcursor: &'cursor XCursorData,
}

impl<'cursor> View for XCursor<'cursor> {
    type V = XCursorData;

    closed spec fn view(&self) -> XCursorData {
        *self.xcursor
    }
}

impl<'cursor> XCursor<'cursor> {
    /// The wrapper of `xcursor`.
    pub fn new(xcursor: &'cursor XCursorData) -> (wrapper: Self)
        ensures
            wrapper@ == *xcursor,
    {
        XCursor { xcursor }
    }

    /// Handle of the cursor.
    pub fn to_ptr(&self) -> (xcursor: usize)
        ensures
            xcursor == self@.xcursor(),
    {
        self.xcursor.xcursor
    }

    /// Name of the cursor, as bytes.
    pub fn name(&self) -> (name: &'cursor [u8])
        ensures
            name@ == self@.name(),
    {
        self.xcursor.name.as_slice()
    }

    /// The images of the cursor, in the order in which an animation shows
    /// them.
    pub fn images(&self) -> (images: Vec<XCursorImage<'cursor>>)
        ensures
            images@.len() == self@.images().len(),
            forall|i: int| 0 <= i < images@.len() ==> (#[trigger] images@[i])@ == self@.images()[i],
    {
        let mut images: Vec<XCursorImage<'cursor>> = Vec::new();
        let mut i: usize = 0;
        while i < self.xcursor.images.len()
            invariant
                i <= self.xcursor.images.len(),
                images@.len() == i,
                forall|j: int| 0 <= j < i ==> (#[trigger] images@[j])@ == self.xcursor.images@[j],
            decreases self.xcursor.images.len() - i,
        {
            images.push(XCursorImage::new(&self.xcursor.images[i]));
            i += 1;
        }
        images
    }
}

} // verus!
