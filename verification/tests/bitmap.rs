use std::ops::Deref;
use subtitle_rect::convert::{c_int_to_u32, c_int_to_usize, u32_to_c_int, usize_to_c_int};
use subtitle_rect::{plane_len, Bitmap, BitmapMut, Rect, RectMut, SubtitleRect, Type, PLANES};

#[test]
fn width_round_trips_at_the_boundaries() {
    for value in [0u32, 1, 2, 0x7fff_ffff, 0x8000_0000, u32::MAX - 1, u32::MAX] {
        let mut raw = SubtitleRect::new(Type::Bitmap);
        let mut bitmap = BitmapMut::wrap(&mut raw);
        bitmap.set_width(value);
        assert_eq!(bitmap.width(), value);
    }
}

#[test]
fn height_round_trips_at_the_boundaries() {
    for value in [0u32, 1, 720, 0x7fff_ffff, 0x8000_0000, u32::MAX] {
        let mut raw = SubtitleRect::new(Type::Bitmap);
        let mut bitmap = BitmapMut::wrap(&mut raw);
        bitmap.set_height(value);
        assert_eq!(bitmap.height(), value);
    }
}

#[test]
fn width_is_stored_in_two_s_complement() {
    let mut raw = SubtitleRect::new(Type::Bitmap);
    let mut bitmap = BitmapMut::wrap(&mut raw);
    bitmap.set_width(u32::MAX);
    assert_eq!(bitmap.as_ptr().w, -1);
    bitmap.set_width(0x8000_0000);
    assert_eq!(bitmap.as_ptr().w, i32::MIN);
    bitmap.set_width(1920);
    assert_eq!(bitmap.as_ptr().w, 1920);
    bitmap.release();
    assert_eq!(raw.w, 1920);
}

#[test]
fn position_and_colors_round_trip_in_range() {
    for value in [0usize, 1, 255, 0x7fff_ffff] {
        let mut raw = SubtitleRect::new(Type::Bitmap);
        let mut bitmap = BitmapMut::wrap(&mut raw);
        bitmap.set_x(value);
        bitmap.set_y(value);
        bitmap.set_colors(value);
        assert_eq!(bitmap.x(), value);
        assert_eq!(bitmap.y(), value);
        assert_eq!(bitmap.colors(), value);
    }
}

#[test]
fn position_keeps_the_low_32_bits() {
    let mut raw = SubtitleRect::new(Type::Bitmap);
    let mut bitmap = BitmapMut::wrap(&mut raw);
    bitmap.set_x(0x8000_0000);
    assert_eq!(bitmap.as_ptr().x, i32::MIN);
    assert_eq!(bitmap.x(), usize::MAX - 0x7fff_ffff);
    bitmap.set_y(0xffff_ffff);
    assert_eq!(bitmap.as_ptr().y, -1);
    assert_eq!(bitmap.y(), usize::MAX);
    bitmap.set_colors(usize::MAX);
    assert_eq!(bitmap.as_ptr().nb_colors, -1);
    assert_eq!(bitmap.colors(), usize::MAX);
    bitmap.set_x(usize::MAX - 4);
    assert_eq!(bitmap.as_ptr().x, -5);
}

#[test]
fn each_setter_writes_its_own_field_only() {
    let mut raw = SubtitleRect::new(Type::Bitmap);
    raw.flags = 1;
    raw.linesize = [8, 0, 0, 0];
    let mut bitmap = BitmapMut::wrap(&mut raw);
    bitmap.set_x(10);
    bitmap.set_y(20);
    bitmap.set_width(30);
    bitmap.set_height(40);
    bitmap.set_colors(50);
    bitmap.release();
    assert_eq!((raw.x, raw.y, raw.w, raw.h, raw.nb_colors), (10, 20, 30, 40, 50));
    assert_eq!(raw.type_, Type::Bitmap);
    assert_eq!(raw.flags, 1);
    assert_eq!(raw.linesize, [8, 0, 0, 0]);
    assert!(raw.text.is_none());
    assert!(raw.ass.is_none());
}

#[test]
fn mutable_bitmap_reads_through_its_read_only_view() {
    let mut raw = SubtitleRect::new(Type::Bitmap);
    raw.x = 3;
    raw.y = 4;
    raw.w = 5;
    raw.h = 6;
    raw.nb_colors = 7;
    let mut bitmap = BitmapMut::wrap(&mut raw);
    {
        let read_only: &Bitmap = bitmap.deref();
        assert_eq!(read_only.x(), 3);
        assert_eq!(read_only.y(), 4);
        assert_eq!(read_only.width(), 5);
        assert_eq!(read_only.height(), 6);
        assert_eq!(read_only.colors(), 7);
    }
    bitmap.set_width(55);
    let read_only: &Bitmap = &*bitmap;
    assert_eq!(read_only.width(), 55);
    assert_eq!(read_only.as_ptr().w, 55);
}

#[test]
fn read_only_bitmap_reads_every_field() {
    let mut raw = SubtitleRect::new(Type::Bitmap);
    raw.x = 100;
    raw.y = 200;
    raw.w = 640;
    raw.h = 48;
    raw.nb_colors = 16;
    match Rect::wrap(&raw) {
        Rect::Bitmap(bitmap) => {
            assert_eq!(bitmap.x(), 100);
            assert_eq!(bitmap.y(), 200);
            assert_eq!(bitmap.width(), 640);
            assert_eq!(bitmap.height(), 48);
            assert_eq!(bitmap.colors(), 16);
        }
        _ => panic!("a bitmap rectangle must wrap as a bitmap view"),
    }
}

#[test]
fn negative_fields_read_as_large_unsigned_values() {
    let mut raw = SubtitleRect::new(Type::Bitmap);
    raw.x = -1;
    raw.y = i32::MIN;
    raw.w = -1;
    raw.h = i32::MIN;
    raw.nb_colors = -2;
    let bitmap = Bitmap::wrap(&raw);
    assert_eq!(bitmap.x(), usize::MAX);
    assert_eq!(bitmap.y(), usize::MAX - 0x7fff_ffff);
    assert_eq!(bitmap.width(), u32::MAX);
    assert_eq!(bitmap.height(), 0x8000_0000);
    assert_eq!(bitmap.colors(), usize::MAX - 1);
}

#[test]
fn planes_and_strides_are_read_by_index() {
    let mut raw = SubtitleRect::new(Type::Bitmap);
    raw.w = 2;
    raw.h = 2;
    raw.nb_colors = 1;
    raw.data[0] = vec![0, 0, 9, 9, 0, 0, 9, 9];
    raw.data[1] = vec![0xff, 0x80, 0x40, 0x20];
    raw.linesize = [4, 0, 0, 0];
    let bitmap = Bitmap::wrap(&raw);
    assert_eq!(bitmap.plane(0), Some(&[0u8, 0, 9, 9, 0, 0, 9, 9][..]));
    assert_eq!(bitmap.plane(1), Some(&[0xffu8, 0x80, 0x40, 0x20][..]));
    assert_eq!(bitmap.plane(2), Some(&[][..]));
    assert_eq!(bitmap.plane(3), Some(&[][..]));
    assert_eq!(bitmap.stride(0), Some(4));
    assert_eq!(bitmap.stride(3), Some(0));
}

#[test]
fn planes_past_the_last_are_absent() {
    let raw = SubtitleRect::new(Type::Bitmap);
    let bitmap = Bitmap::wrap(&raw);
    assert_eq!(PLANES, 4);
    assert_eq!(bitmap.plane(PLANES), None);
    assert_eq!(bitmap.stride(PLANES), None);
    assert_eq!(bitmap.plane(usize::MAX), None);
    assert_eq!(bitmap.stride(usize::MAX), None);
}

#[test]
fn mutable_bitmap_leaves_planes_alone() {
    let mut raw = SubtitleRect::new(Type::Bitmap);
    raw.data[0] = vec![1, 2, 3];
    raw.linesize = [3, 0, 0, 0];
    match RectMut::wrap(&mut raw) {
        RectMut::Bitmap(mut bitmap) => {
            bitmap.set_width(3);
            bitmap.set_height(1);
            assert_eq!(bitmap.plane(0), Some(&[1u8, 2, 3][..]));
            assert_eq!(bitmap.stride(0), Some(3));
        }
        _ => panic!("a bitmap rectangle must wrap as a bitmap view"),
    }
    assert_eq!(raw.data[0], vec![1, 2, 3]);
}

#[test]
fn narrowing_keeps_the_low_32_bits() {
    assert_eq!(usize_to_c_int(0), 0);
    assert_eq!(usize_to_c_int(0x7fff_ffff), i32::MAX);
    assert_eq!(usize_to_c_int(0x8000_0000), i32::MIN);
    assert_eq!(usize_to_c_int(0xffff_ffff), -1);
    assert_eq!(usize_to_c_int(usize::MAX), -1);
    assert_eq!(u32_to_c_int(0), 0);
    assert_eq!(u32_to_c_int(1), 1);
    assert_eq!(u32_to_c_int(0x8000_0001), i32::MIN + 1);
    assert_eq!(u32_to_c_int(u32::MAX), -1);
}

#[test]
fn widening_counts_negative_fields_down_from_the_top() {
    assert_eq!(c_int_to_u32(0), 0);
    assert_eq!(c_int_to_u32(i32::MAX), 0x7fff_ffff);
    assert_eq!(c_int_to_u32(-1), u32::MAX);
    assert_eq!(c_int_to_u32(i32::MIN), 0x8000_0000);
    assert_eq!(c_int_to_usize(0), 0);
    assert_eq!(c_int_to_usize(i32::MAX), 0x7fff_ffff);
    assert_eq!(c_int_to_usize(-1), usize::MAX);
    assert_eq!(c_int_to_usize(-2), usize::MAX - 1);
    assert_eq!(c_int_to_usize(i32::MIN), usize::MAX - 0x7fff_ffff);
    assert_eq!(c_int_to_usize(-7), -7i32 as usize);
}

#[test]
fn plane_length_is_rows_times_linesize() {
    assert_eq!(plane_len(4, 2), Some(8));
    assert_eq!(plane_len(1920, 1080), Some(1920 * 1080));
    assert_eq!(plane_len(4, 256), Some(1024));
    assert_eq!(plane_len(1, 1), Some(1));
}

#[test]
fn plane_length_of_nothing_is_zero() {
    assert_eq!(plane_len(0, 10), Some(0));
    assert_eq!(plane_len(10, 0), Some(0));
    assert_eq!(plane_len(-4, 10), Some(0));
    assert_eq!(plane_len(4, -10), Some(0));
    assert_eq!(plane_len(i32::MIN, i32::MIN), Some(0));
}

#[test]
fn plane_length_at_the_largest_fields() {
    let largest = (i32::MAX as u64) * (i32::MAX as u64);
    let expected = if largest <= usize::MAX as u64 { Some(largest as usize) } else { None };
    assert_eq!(plane_len(i32::MAX, i32::MAX), expected);
}
