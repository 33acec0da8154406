use lab03::gpu::{pick_surface_format, texel_copy_layout, SurfaceSize, TexelLayout};

#[test]
fn surface_new_clamps_to_one() {
    let s = SurfaceSize::new(1024, 720);
    assert_eq!(s, SurfaceSize { width: 1024, height: 720, is_configured: true });
    let z = SurfaceSize::new(0, 0);
    assert_eq!(z, SurfaceSize { width: 1, height: 1, is_configured: true });
    let h = SurfaceSize::new(5, 0);
    assert_eq!((h.width, h.height), (5, 1));
}

#[test]
fn surface_resize_positive_takes_size() {
    let mut s = SurfaceSize { width: 10, height: 20, is_configured: false };
    assert!(s.resize(800, 600));
    assert_eq!(s, SurfaceSize { width: 800, height: 600, is_configured: true });
}

#[test]
fn surface_resize_zero_keeps_size() {
    let mut s = SurfaceSize::new(800, 600);
    assert!(!s.resize(0, 600));
    assert!(!s.resize(800, 0));
    assert!(!s.resize(0, 0));
    assert_eq!(s, SurfaceSize { width: 800, height: 600, is_configured: true });
}

#[test]
fn surface_resize_idempotent() {
    let mut a = SurfaceSize::new(3, 4);
    a.resize(30, 40);
    let once = a;
    a.resize(30, 40);
    assert_eq!(a, once);
}

#[test]
fn pick_first_srgb_format() {
    assert_eq!(pick_surface_format(&vec![false, true, true]), 1);
    assert_eq!(pick_surface_format(&vec![true, false]), 0);
    assert_eq!(pick_surface_format(&vec![false, false, false]), 0);
    assert_eq!(pick_surface_format(&vec![false, false, true]), 2);
}

#[test]
fn texel_layout_for_rgba8() {
    assert_eq!(texel_copy_layout(64, 64), TexelLayout { offset: 0, bytes_per_row: 256, rows_per_image: 64 });
    assert_eq!(texel_copy_layout(3, 7), TexelLayout { offset: 0, bytes_per_row: 12, rows_per_image: 7 });
}
