use std::cell::RefCell;
use std::rc::Rc;
use wlroots::types::cursor::{to_signed, Cursor};
use wlroots::types::input_device::InputDevice;
use wlroots::types::output::{OutputHandle, OutputLayout};
use wlroots::types::pointer::PointerHandle;
use wlroots::types::xcursor::{XCursorImage, XCursorImageData};

fn cursor() -> Cursor {
    Cursor::new(0x5000, 100.0f64.to_bits(), 100.0f64.to_bits())
        .expect("a cursor for a handle that is not null")
}

#[test]
fn no_cursor_for_the_null_handle() {
    assert!(Cursor::new(0, 0, 0).is_none());
    assert!(Cursor::new(0, 100.0f64.to_bits(), 100.0f64.to_bits()).is_none());
}

#[test]
fn new_cursor_is_where_the_backend_made_it() {
    let cursor = cursor();
    assert_eq!(cursor.to_ptr(), 0x5000);
    assert_eq!(cursor.coords(), (100.0f64.to_bits(), 100.0f64.to_bits()));
    let other = Cursor::new(1, 2.5f64.to_bits(), (-1.0f64).to_bits()).unwrap();
    assert_eq!(other.coords(), (2.5f64.to_bits(), (-1.0f64).to_bits()));
    assert!(cursor.output_layout().is_none());
    assert!(cursor.image().is_none());
    assert!(cursor.mapped_output().is_none());
    assert!(cursor.input_devices().is_empty());
}

#[test]
fn accepted_warp_is_where_coords_are() {
    let mut cursor = cursor();
    let (x, y) = (12.5f64, -3.0f64);
    assert!(cursor.warp(None, x.to_bits(), y.to_bits(), true));
    let (cx, cy) = cursor.coords();
    assert_eq!((f64::from_bits(cx), f64::from_bits(cy)), (12.5, -3.0));
}

#[test]
fn refused_warp_leaves_the_cursor() {
    let mut cursor = cursor();
    assert!(cursor.warp(Some(InputDevice::from_ptr(0x77)), 1.0f64.to_bits(), 2.0f64.to_bits(), true));
    assert!(!cursor.warp(None, 100.0f64.to_bits(), 200.0f64.to_bits(), false));
    let (cx, cy) = cursor.coords();
    assert_eq!((f64::from_bits(cx), f64::from_bits(cy)), (1.0, 2.0));
}

#[test]
fn move_to_lands_where_the_backend_says() {
    let mut cursor = cursor();
    cursor.warp(None, 10.0f64.to_bits(), 10.0f64.to_bits(), true);
    let device = InputDevice::from_ptr(0x77);
    cursor.move_to(&device, 5.0f64.to_bits(), 500.0f64.to_bits(), (15.0f64.to_bits(), 99.0f64.to_bits()));
    let (cx, cy) = cursor.coords();
    assert_eq!((f64::from_bits(cx), f64::from_bits(cy)), (15.0, 99.0));
}

#[test]
fn second_layout_replaces_the_first() {
    let first = Rc::new(RefCell::new(OutputLayout::new(0x100).unwrap()));
    let second = Rc::new(RefCell::new(OutputLayout::new(0x200).unwrap()));
    let mut cursor = cursor();
    cursor.attach_output_layout(first.clone());
    assert_eq!(Rc::strong_count(&first), 2);
    cursor.attach_output_layout(second.clone());
    let attached = cursor.output_layout().as_ref().expect("a layout is attached");
    assert!(Rc::ptr_eq(attached, &second));
    assert_eq!(attached.borrow().to_ptr(), 0x200);
    assert_eq!(Rc::strong_count(&first), 1);
    assert_eq!(first.borrow().to_ptr(), 0x100);
}

#[test]
fn layout_is_shared_between_cursors() {
    let layout = Rc::new(RefCell::new(OutputLayout::new(0x100).unwrap()));
    let mut one = cursor();
    let mut two = Cursor::new(0x6000, 0, 0).unwrap();
    one.attach_output_layout(layout.clone());
    two.attach_output_layout(layout.clone());
    assert_eq!(Rc::strong_count(&layout), 3);
    drop(one);
    assert_eq!(Rc::strong_count(&layout), 2);
    assert!(Rc::ptr_eq(two.output_layout().as_ref().unwrap(), &layout));
}

#[test]
fn no_layout_for_the_null_handle() {
    assert!(OutputLayout::new(0).is_none());
}

#[test]
fn set_image_records_the_image() {
    let mut cursor = cursor();
    let pixels: Vec<u8> = (0u8..16).collect();
    cursor.set_image(&pixels, 2, 2, 2, 1, 0, 3);
    let image = cursor.image().as_ref().expect("an image was set");
    assert_eq!(image.pixels, pixels);
    assert_eq!(image.stride, 2);
    assert_eq!(image.width, 2);
    assert_eq!(image.height, 2);
    assert_eq!(image.hotspot_x, 1);
    assert_eq!(image.hotspot_y, 0);
    assert_eq!(image.scale, 3);
}

#[test]
fn set_xcursor_image_takes_the_size_of_the_image() {
    let data = XCursorImageData::new(3, 2, 1, 2, 50, vec![9u8; 24]).unwrap();
    let image = XCursorImage::new(&data);
    let mut cursor = cursor();
    cursor.set_xcursor_image(&image);
    let shown = cursor.image().as_ref().expect("an image was set");
    assert_eq!(shown.pixels, vec![9u8; 24]);
    assert_eq!(shown.stride, 3);
    assert_eq!(shown.width, 3);
    assert_eq!(shown.height, 2);
    assert_eq!(shown.hotspot_x, 1);
    assert_eq!(shown.hotspot_y, 2);
    assert_eq!(shown.scale, 1);
}

#[test]
fn set_xcursor_image_is_set_image_of_its_parts() {
    let pixels: Vec<u8> = (0..24 * 32 * 4).map(|i| (i % 251) as u8).collect();
    let data = XCursorImageData::new(24, 32, 4, 5, 0, pixels.clone()).unwrap();
    let image = XCursorImage::new(&data);
    let mut by_image = cursor();
    by_image.set_xcursor_image(&image);
    let mut by_parts = cursor();
    by_parts.set_image(image.pixels(), 24, 24, 32, 4, 5, 1);
    let shown = by_image.image().as_ref().expect("an image was set");
    let expected = by_parts.image().as_ref().expect("an image was set");
    assert_eq!(shown.pixels, expected.pixels);
    assert_eq!(shown.pixels.len(), 24 * 32 * 4);
    assert_eq!(
        (shown.stride, shown.width, shown.height, shown.hotspot_x, shown.hotspot_y, shown.scale),
        (24, 24, 32, 4, 5, 1)
    );
}

#[test]
fn to_signed_wraps_at_two_to_the_thirty_first() {
    assert_eq!(to_signed(0), 0);
    assert_eq!(to_signed(0x7fff_ffff), i32::MAX);
    assert_eq!(to_signed(0x8000_0000), i32::MIN);
    assert_eq!(to_signed(0xffff_ffff), -1);
}

#[test]
fn map_to_output_restricts_and_lifts() {
    let mut cursor = cursor();
    let mut output = OutputHandle::from_ptr(0x900);
    cursor.map_to_output(Some(&mut output));
    assert_eq!(cursor.mapped_output(), Some(OutputHandle::from_ptr(0x900)));
    cursor.map_to_output(None);
    assert_eq!(cursor.mapped_output(), None);
}

#[test]
fn attach_input_device_binds_once() {
    let mut cursor = cursor();
    let mut mouse = PointerHandle::from_ptr(0x77);
    let mut pad = PointerHandle::from_ptr(0x88);
    cursor.attach_input_device(&mut mouse);
    cursor.attach_input_device(&mut pad);
    cursor.attach_input_device(&mut mouse);
    assert_eq!(cursor.input_devices(), &[0x77usize, 0x88][..]);
    assert_eq!(mouse.input_device(), 0x77);
}
