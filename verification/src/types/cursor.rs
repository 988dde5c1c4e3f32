//! The cursor: where a pointer is on the outputs and what it looks like.
//!
//! The backend moves the cursor and draws it. The wrapper records what the
//! backend was asked and what it answered, so that it can say at any time
//! where the cursor is, which image it shows, which layout bounds it and
//! which devices drive it. Positions and amounts are the bit patterns of
//! IEEE 754 doubles, as in the events of a pointer.
use std::cell::RefCell;
use std::rc::Rc;
use vstd::prelude::*;
use crate::types::input_device::InputDevice;
use crate::types::output::{OutputHandle, OutputLayout};
use crate::types::pointer::PointerHandle;
use crate::types::xcursor::XCursorImage;

verus! {

/// `std::cell::RefCell`, of which nothing is claimed: a cursor only keeps
/// such a cell and hands it out again.
#[verifier::external_type_specification]
#[verifier::external_body]
#[verifier::reject_recursive_types(T)]
pub struct ExRefCell<T: ?Sized>(RefCell<T>);

/// The image that a cursor shows.
pub struct CursorImage {
    /// The pixels, row after row.
    pub pixels: Vec<u8>,
    /// Number of pixels from one row to the next.
    pub stride: i32,
    /// Width in pixels.
    pub width: u32,
    /// Height in pixels.
    pub height: u32,
    /// Horizontal position of the hotspot in the image.
    pub hotspot_x: i32,
    /// Vertical position of the hotspot in the image.
    pub hotspot_y: i32,
    /// Scale at which the image was drawn.
    pub scale: u32,
}

/// The measures of the image that a cursor shows, with the pixels as a
/// sequence of bytes.
pub struct CursorImageView {
    pub pixels: Seq<u8>,
    pub stride: i32,
    pub width: u32,
    pub height: u32,
    pub hotspot_x: i32,
    pub hotspot_y: i32,
    pub scale: u32,
}

impl View for CursorImage {
    type V = CursorImageView;

    open spec fn view(&self) -> CursorImageView {
        CursorImageView {
            pixels: self.pixels@,
            stride: self.stride,
            width: self.width,
            height: self.height,
            hotspot_x: self.hotspot_x,
            hotspot_y: self.hotspot_y,
            scale: self.scale,
        }
    }
}

/// The number `value` read as a signed number of as many bits: itself below
/// two to the thirty-first, and two to the thirty-second less from there on.
pub open spec fn reinterpret(value: u32) -> i32 {
    if value < 0x8000_0000 {
        value as i32
    } else {
        (value - 0x1_0000_0000) as i32
    }
}

/// The image that a cursor shows after it was given `image` of a theme: the
/// pixels of that image, with its width and height, with one row following
/// the other without a gap, with its hotspot, and at scale one.
pub open spec fn theme_image(image: XCursorImage) -> CursorImageView {
    CursorImageView {
        pixels: image@.buffer(),
        stride: reinterpret(image@.width()),
        width: image@.width(),
        height: image@.height(),
        hotspot_x: reinterpret(image@.hotspot_x()),
        hotspot_y: reinterpret(image@.hotspot_y()),
        scale: 1,
    }
}

/// The devices that drive a cursor after `device` was attached: as before if
/// it was attached already, else with `device` behind the others.
pub open spec fn driven_by(devices: Seq<usize>, device: usize) -> Seq<usize> {
    if devices.contains(device) {
        devices
    } else {
        devices.push(device)
    }
}

/// A cursor of the backend.
pub struct Cursor {
    cursor: usize,
    layout: Option<Rc<RefCell<OutputLayout>>>,
    x: u64,
    y: u64,
    image: Option<CursorImage>,
    output: Option<OutputHandle>,
    devices: Vec<usize>,
}

impl Cursor {
    /// Handle of the cursor.
    pub closed spec fn spec_to_ptr(&self) -> usize {
        self.cursor
    }

    /// Where the cursor is, horizontally and vertically.
    pub closed spec fn spec_coords(&self) -> (u64, u64) {
        (self.x, self.y)
    }

    /// The layout that bounds the cursor, if one is attached.
    pub closed spec fn spec_output_layout(&self) -> Option<Rc<RefCell<OutputLayout>>> {
        self.layout
    }

    /// The image that the cursor shows, if it was given one.
    pub closed spec fn spec_image(&self) -> Option<CursorImageView> {
        match self.image {
            Some(image) => Some(image@),
            None => None,
        }
    }

    /// The output that the cursor is restricted to, if it is restricted.
    pub closed spec fn spec_mapped_output(&self) -> Option<OutputHandle> {
        self.output
    }

    /// Handles of the devices that drive the cursor.
    pub closed spec fn spec_input_devices(&self) -> Seq<usize> {
        self.devices@
    }

    /// True if all but the position is the same in `self` and in `other`.
    pub open spec fn same_but_coords(&self, other: &Cursor) -> bool {
        &&& self.spec_to_ptr() == other.spec_to_ptr()
        &&& self.spec_output_layout() == other.spec_output_layout()
        &&& self.spec_image() == other.spec_image()
        &&& self.spec_mapped_output() == other.spec_mapped_output()
        &&& self.spec_input_devices() == other.spec_input_devices()
    }

    /// The cursor after the backend answered `accepted` to a move to the
    /// position `x`, `y`.
    pub closed spec fn warped(self, x: u64, y: u64, accepted: bool) -> Cursor {
        if accepted {
            Cursor { x, y, ..self }
        } else {
            self
        }
    }

    /// The cursor after `layout` was attached to it.
    pub closed spec fn with_output_layout(self, layout: Rc<RefCell<OutputLayout>>) -> Cursor {
        Cursor { layout: Some(layout), ..self }
    }

    /// Wraps the cursor that the backend made at the position `x`, `y`.
    /// There is no cursor if the backend could not make one and handed out
    /// the null handle. A new cursor shows no image, is bound by no layout,
    /// restricted to no output and driven by no device.
    pub fn new(cursor: usize, x: u64, y: u64) -> (made: Option<Cursor>)
        ensures
            made is Some <==> cursor != 0,
            made matches Some(c) ==> {
                &&& c.spec_to_ptr() == cursor
                &&& c.spec_coords() == (x, y)
                &&& c.spec_output_layout() is None
                &&& c.spec_image() is None
                &&& c.spec_mapped_output() is None
                &&& c.spec_input_devices() == Seq::<usize>::empty()
            },
    {
        if cursor == 0 {
            None
        } else {
            Some(
                Cursor {
                    cursor,
                    layout: None,
                    x,
                    y,
                    image: None,
                    output: None,
                    devices: Vec::new(),
                },
            )
        }
    }

    /// Handle of the cursor.
    #[verifier::when_used_as_spec(spec_to_ptr)]
    pub fn to_ptr(&self) -> (cursor: usize)
        ensures
            cursor == self.spec_to_ptr(),
    {
        self.cursor
    }

    /// Where the cursor is, horizontally and vertically.
    #[verifier::when_used_as_spec(spec_coords)]
    pub fn coords(&self) -> (coords: (u64, u64))
        ensures
            coords == self.spec_coords(),
    {
        (self.x, self.y)
    }

    /// Records a move of the cursor to the position `x`, `y`, which the
    /// backend was asked for on behalf of `dev`, or of no device in
    /// particular. `accepted` is the answer of the backend, which refuses a
    /// position outside of what bounds the cursor. An accepted move puts the
    /// cursor there; a refused one leaves it where it was. Returns the
    /// answer.
    pub fn warp(&mut self, dev: Option<InputDevice>, x: u64, y: u64, accepted: bool) -> (moved:
        bool)
        ensures
            moved == accepted,
            *final(self) == old(self).warped(x, y, accepted),
            final(self).spec_coords() == if accepted {
                (x, y)
            } else {
                old(self).spec_coords()
            },
            final(self).same_but_coords(old(self)),
    {
        if accepted {
            self.x = x;
            self.y = y;
        }
        accepted
    }

    /// Attaches an output layout to the cursor, in the place of the one that
    /// was attached before, if any. The layout specifies the boundaries of
    /// the cursor, i.e where it can go.
    pub fn attach_output_layout(&mut self, layout: Rc<RefCell<OutputLayout>>)
        ensures
            *final(self) == old(self).with_output_layout(layout),
            final(self).spec_output_layout() == Some(layout),
            final(self).spec_to_ptr() == old(self).spec_to_ptr(),
            final(self).spec_coords() == old(self).spec_coords(),
            final(self).spec_image() == old(self).spec_image(),
            final(self).spec_mapped_output() == old(self).spec_mapped_output(),
            final(self).spec_input_devices() == old(self).spec_input_devices(),
    {
        self.layout = Some(layout);
    }

    /// Records a move of the cursor by the amounts `delta_x` and `delta_y`,
    /// which the backend was asked for on behalf of `dev`. The backend adds
    /// the amounts and keeps the cursor within its bounds; `landed` is where
    /// it says the cursor is now.
    pub fn move_to(&mut self, dev: &InputDevice, delta_x: u64, delta_y: u64, landed: (u64, u64))
        ensures
            final(self).spec_coords() == landed,
            final(self).same_but_coords(old(self)),
    {
        self.x = landed.0;
        self.y = landed.1;
    }

    /// The layout that bounds the cursor, if one is attached.
    pub fn output_layout(&self) -> (layout: &Option<Rc<RefCell<OutputLayout>>>)
        ensures
            *layout == self.spec_output_layout(),
    {
        &self.layout
    }

    /// The image that the cursor shows, if it was given one.
    pub fn image(&self) -> (image: &Option<CursorImage>)
        ensures
            self.spec_image() == match *image {
                Some(i) => Some(i@),
                None => None,
            },
    {
        &self.image
    }

    /// The output that the cursor is restricted to, if it is restricted.
    pub fn mapped_output(&self) -> (output: Option<OutputHandle>)
        ensures
            output == self.spec_mapped_output(),
    {
        self.output
    }

    /// Handles of the devices that drive the cursor, in the order in which
    /// they were attached.
    pub fn input_devices(&self) -> (devices: &[usize])
        ensures
            devices@ == self.spec_input_devices(),
    {
        self.devices.as_slice()
    }

    /// Gives the cursor the image that it shows from now on.
    pub fn set_image(
        &mut self,
        pixels: &[u8],
        stride: i32,
        width: u32,
        height: u32,
        hotspot_x: i32,
        hotspot_y: i32,
        scale: u32,
    )
        ensures
            final(self).spec_image() == Some(
                CursorImageView {
                    pixels: pixels@,
                    stride,
                    width,
                    height,
                    hotspot_x,
                    hotspot_y,
                    scale,
                },
            ),
            final(self).spec_to_ptr() == old(self).spec_to_ptr(),
            final(self).spec_coords() == old(self).spec_coords(),
            final(self).spec_output_layout() == old(self).spec_output_layout(),
            final(self).spec_mapped_output() == old(self).spec_mapped_output(),
            final(self).spec_input_devices() == old(self).spec_input_devices(),
    {
        let mut copy: Vec<u8> = Vec::new();
        let mut i: usize = 0;
        while i < pixels.len()
            invariant
                i <= pixels.len(),
                copy@ == pixels@.subrange(0, i as int),
            decreases pixels.len() - i,
        {
            copy.push(pixels[i]);
            assert(copy@ =~= pixels@.subrange(0, i + 1));
            i += 1;
        }
        assert(copy@ =~= pixels@);
        self.image = Some(
            CursorImage { pixels: copy, stride, width, height, hotspot_x, hotspot_y, scale },
        );
    }

    /// Gives the cursor an image of a theme to show: the pixels of that
    /// image, with its width and height, with one row following the other
    /// without a gap, with its hotspot, and at scale one.
    pub fn set_xcursor_image(&mut self, image: &XCursorImage)
        ensures
            final(self).spec_image() == Some(theme_image(*image)),
            final(self).spec_to_ptr() == old(self).spec_to_ptr(),
            final(self).spec_coords() == old(self).spec_coords(),
            final(self).spec_output_layout() == old(self).spec_output_layout(),
            final(self).spec_mapped_output() == old(self).spec_mapped_output(),
            final(self).spec_input_devices() == old(self).spec_input_devices(),
    {
        let size = image.size();
        let hotspots = image.hotspots();
        self.set_image(
            image.pixels(),
            to_signed(size.0),
            size.0,
            size.1,
            to_signed(hotspots.0),
            to_signed(hotspots.1),
            1u32,
        )
    }

    /// Restricts the cursor to one output, or lifts the restriction where
    /// there is no output.
    pub fn map_to_output(&mut self, output: Option<&mut OutputHandle>)
        ensures
            final(self).spec_mapped_output() == match output {
                Some(handle) => Some(*handle),
                None => None,
            },
            final(self).spec_to_ptr() == old(self).spec_to_ptr(),
            final(self).spec_coords() == old(self).spec_coords(),
            final(self).spec_output_layout() == old(self).spec_output_layout(),
            final(self).spec_image() == old(self).spec_image(),
            final(self).spec_input_devices() == old(self).spec_input_devices(),
    {
        self.output = match output {
            Some(handle) => Some(*handle),
            None => None,
        };
    }

    /// Binds a pointer to the cursor, so that its motion drives the cursor.
    /// A pointer that is bound already stays bound once.
    pub fn attach_input_device(&mut self, input: &mut PointerHandle)
        ensures
            *final(input) == *old(input),
            final(self).spec_input_devices() == driven_by(
                old(self).spec_input_devices(),
                old(input).spec_input_device(),
            ),
            final(self).spec_to_ptr() == old(self).spec_to_ptr(),
            final(self).spec_coords() == old(self).spec_coords(),
            final(self).spec_output_layout() == old(self).spec_output_layout(),
            final(self).spec_image() == old(self).spec_image(),
            final(self).spec_mapped_output() == old(self).spec_mapped_output(),
    {
        let device = input.input_device();
        let mut i: usize = 0;
        while i < self.devices.len()
            invariant
                i <= self.devices.len(),
                self.devices@ == old(self).devices@,
                device == old(input).spec_input_device(),
                forall|j: int| 0 <= j < i ==> self.devices@[j] != device,
            decreases self.devices.len() - i,
        {
            if self.devices[i] == device {
                assert(self.devices@[i as int] == device);
                return ;
            }
            i += 1;
        }
        self.devices.push(device);
    }
}

/// A move that the backend accepted puts the cursor where it was asked to
/// go, so that `coords` right after `warp` gives that position; a refused
/// move leaves the cursor as it was. Nothing but the position changes.
pub proof fn lemma_warp_then_coords(cursor: Cursor, x: u64, y: u64)
    ensures
        cursor.warped(x, y, true).spec_coords() == (x, y),
        cursor.warped(x, y, true).same_but_coords(&cursor),
        cursor.warped(x, y, false) == cursor,
{
}

/// A cursor has one layout at most: attaching a second layout puts it in the
/// place of the first, as if the first had never been attached.
pub proof fn lemma_layout_is_replaced(
    cursor: Cursor,
    first: Rc<RefCell<OutputLayout>>,
    second: Rc<RefCell<OutputLayout>>,
)
    ensures
        cursor.with_output_layout(first).spec_output_layout() == Some(first),
        cursor.with_output_layout(first).with_output_layout(second).spec_output_layout() == Some(
            second,
        ),
        cursor.with_output_layout(first).with_output_layout(second) == cursor.with_output_layout(
            second,
        ),
{
}

/// Reads `value` as a signed number of as many bits.
pub fn to_signed(value: u32) -> (signed: i32)
    ensures
        signed == reinterpret(value),
{
    if value < 0x8000_0000 {
        value as i32
    } else {
        ((value - 0x8000_0000) as i32) - 0x7fff_ffff - 1
    }
}

} // verus!
