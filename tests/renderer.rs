use bgf::graphics::{
    pixel_format, Color, PixelFormat, Renderer2D, TextureBinding, Vertex2D, MAX_TEXTURES,
};
use bgf::math::{Matrix4, Vector2, Vector4};

fn white() -> Color {
    Color::new(255, 255, 255, 255)
}

fn vertex(x: i64, y: i64, u: u8, v: u8, color: &Color, texture: u32) -> Vertex2D {
    Vertex2D {
        position: Vector2 { x, y },
        uv: Vector2 { x: u, y: v },
        color: color.to_vec(),
        texture,
    }
}

#[test]
fn single_white_quad_at_origin() {
    let mut r = Renderer2D::new(1, 1280, 720);
    r.begin();
    r.draw_quad(0, 0, 10, 10, &white(), 0);
    let w = white();
    let expected = vec![
        vertex(10, 0, 1, 0, &w, 0),
        vertex(10, 10, 1, 1, &w, 0),
        vertex(0, 10, 0, 1, &w, 0),
        vertex(0, 0, 0, 0, &w, 0),
    ];
    assert_eq!(r.vertices(), expected.as_slice());
    let call = r.end();
    assert_eq!(call.index_count, 6);
    assert_eq!(call.vertices.len(), 4);
}

#[test]
fn third_quad_is_dropped_at_capacity_two() {
    let mut r = Renderer2D::new(2, 800, 600);
    r.begin();
    let w = white();
    r.draw_quad(0, 0, 1, 1, &w, 0);
    r.draw_quad(10, 20, 3, 4, &w, 0);
    r.draw_quad(100, 100, 5, 5, &w, 0);
    assert_eq!(r.vertices().len(), 8);
    assert_eq!(r.quads_to_draw(), 2);
    assert_eq!(r.vertices()[4], vertex(13, 20, 1, 0, &w, 0));
    assert_eq!(r.vertices()[7], vertex(10, 20, 0, 0, &w, 0));
    assert_eq!(r.end().index_count, 12);
}

#[test]
fn quads_keep_call_order_and_corners() {
    let mut r = Renderer2D::new(3, 100, 100);
    r.begin();
    let red = Color::new(255, 0, 0, 255);
    let blue = Color::new(0, 0, 255, 128);
    r.draw_quad(-5, 7, 20, 30, &red, 1);
    r.draw_quad(1, 2, 3, 4, &blue, 2);
    let v = r.vertices();
    assert_eq!(v.len(), 8);
    assert_eq!(v[0], vertex(15, 7, 1, 0, &red, 1));
    assert_eq!(v[1], vertex(15, 37, 1, 1, &red, 1));
    assert_eq!(v[2], vertex(-5, 37, 0, 1, &red, 1));
    assert_eq!(v[3], vertex(-5, 7, 0, 0, &red, 1));
    assert_eq!(v[4], vertex(4, 2, 1, 0, &blue, 2));
    assert_eq!(v[5], vertex(4, 6, 1, 1, &blue, 2));
    assert_eq!(v[6], vertex(1, 6, 0, 1, &blue, 2));
    assert_eq!(v[7], vertex(1, 2, 0, 0, &blue, 2));
}

#[test]
fn vector_overload_matches_scalar_form() {
    let mut a = Renderer2D::new(1, 100, 100);
    let mut b = Renderer2D::new(1, 100, 100);
    a.begin();
    b.begin();
    let c = Color::new(1, 2, 3, 4);
    a.draw_quad(3, 4, 5, 6, &c, 9);
    b.draw_quad_v(&Vector2 { x: 3, y: 4 }, &Vector2 { x: 5, y: 6 }, &c.to_vec(), 9);
    assert_eq!(a.vertices(), b.vertices());
}

#[test]
fn extreme_coordinates_do_not_overflow() {
    let mut r = Renderer2D::new(1, 100, 100);
    r.begin();
    r.draw_quad(i32::MAX, i32::MIN, i32::MAX, i32::MIN, &white(), 0);
    let v = r.vertices();
    assert_eq!(v[0].position, Vector2 { x: 2 * i32::MAX as i64, y: i32::MIN as i64 });
    assert_eq!(v[1].position, Vector2 { x: 2 * i32::MAX as i64, y: 2 * i32::MIN as i64 });
}

#[test]
fn many_calls_past_capacity() {
    let mut r = Renderer2D::new(4, 100, 100);
    r.begin();
    for i in 0..10 {
        r.draw_quad(i, i, 1, 1, &white(), 0);
        assert!(r.quads_to_draw() <= 4);
    }
    assert_eq!(r.vertices().len(), 16);
    assert_eq!(r.quads_to_draw(), 4);
    assert_eq!(r.end().index_count, 24);
}

#[test]
fn zero_capacity_draws_nothing() {
    let mut r = Renderer2D::new(0, 100, 100);
    r.begin();
    r.draw_quad(0, 0, 1, 1, &white(), 0);
    assert!(r.vertices().is_empty());
    assert!(r.indices().is_empty());
    assert_eq!(r.end().index_count, 0);
}

#[test]
fn index_buffer_pattern() {
    let r = Renderer2D::new(3, 100, 100);
    assert_eq!(
        r.indices(),
        &[0, 1, 2, 0, 3, 2, 4, 5, 6, 4, 7, 6, 8, 9, 10, 8, 11, 10][..]
    );
    assert_eq!(r.max_quads(), 3);
}

#[test]
fn index_buffer_pattern_large() {
    let c: usize = 1000;
    let r = Renderer2D::new(c, 100, 100);
    let idx = r.indices();
    assert_eq!(idx.len(), 6 * c);
    for k in 0..c as u32 {
        let s = &idx[6 * k as usize..6 * k as usize + 6];
        assert_eq!(s, &[4 * k, 4 * k + 1, 4 * k + 2, 4 * k, 4 * k + 3, 4 * k + 2][..]);
    }
}

#[test]
fn texture_slots_fill_in_order_then_alias_to_zero() {
    let mut r = Renderer2D::new(1, 100, 100);
    for i in 0..32u32 {
        let slot = r.load_texture(|| 1000 + i);
        assert_eq!(slot, i);
    }
    let mut called = false;
    let slot = r.load_texture(|| {
        called = true;
        5000
    });
    assert_eq!(slot, 0);
    assert!(!called);
    assert_eq!(r.texture(0), Some(1000));
    assert_eq!(r.texture(31), Some(1031));
    assert_eq!(r.texture(32), None);
    assert_eq!(MAX_TEXTURES, 32);
}

#[test]
fn end_binds_occupied_slots_ascending() {
    let mut r = Renderer2D::new(1, 100, 100);
    assert!(r.end().textures.is_empty());
    r.load_texture(|| 11);
    r.load_texture(|| 22);
    r.load_texture(|| 33);
    r.begin();
    let call = r.end();
    assert_eq!(
        call.textures,
        vec![
            TextureBinding { unit: 0, texture: 11 },
            TextureBinding { unit: 1, texture: 22 },
            TextureBinding { unit: 2, texture: 33 },
        ]
    );
    assert_eq!(r.texture(3), None);
}

#[test]
fn begin_resets_previous_frame() {
    let mut r = Renderer2D::new(2, 100, 100);
    r.begin();
    r.draw_quad(0, 0, 1, 1, &white(), 0);
    r.draw_quad(0, 0, 1, 1, &white(), 0);
    r.draw_quad(0, 0, 1, 1, &white(), 0);
    r.end();
    r.begin();
    assert_eq!(r.quads_to_draw(), 0);
    assert!(r.vertices().is_empty());
    r.draw_quad(2, 3, 1, 1, &white(), 0);
    assert_eq!(r.vertices().len(), 4);
    assert_eq!(r.vertices()[3].position, Vector2 { x: 2, y: 3 });
}

#[test]
fn end_leaves_frame_state() {
    let mut r = Renderer2D::new(2, 100, 100);
    r.begin();
    r.draw_quad(0, 0, 1, 1, &white(), 0);
    assert_eq!(r.end().index_count, 6);
    assert_eq!(r.end().index_count, 6);
    assert_eq!(r.quads_to_draw(), 1);
}

#[test]
fn viewport_is_kept() {
    let r = Renderer2D::new(1, 1280, 720);
    assert_eq!(r.viewport_size(), (1280, 720));
}

#[test]
fn pixel_format_by_channel_count() {
    assert_eq!(pixel_format(1), PixelFormat::Red);
    assert_eq!(pixel_format(2), PixelFormat::Rg);
    assert_eq!(pixel_format(3), PixelFormat::Rgb);
    assert_eq!(pixel_format(4), PixelFormat::Rgba);
    assert_eq!(pixel_format(0), PixelFormat::Rgb);
    assert_eq!(pixel_format(7), PixelFormat::Rgb);
}

#[test]
fn color_to_vec_keeps_channel_order() {
    let c = Color::new(1, 2, 3, 4);
    assert_eq!(c.to_vec(), Vector4 { x: 1, y: 2, z: 3, w: 4 });
}

#[test]
fn vector_from_scalar_and_clone() {
    let v = Vector4::from_scalar(7i32);
    assert_eq!(v, Vector4 { x: 7, y: 7, z: 7, w: 7 });
    assert_eq!(v.clone(), v);
    let p = Vector2 { x: 1u8, y: 2u8 };
    assert_eq!(p.clone(), p);
}

#[test]
fn matrix_new_puts_b_on_diagonal() {
    let m = Matrix4::new(0, 1);
    assert_eq!(
        m.as_ptr(),
        &[1, 0, 0, 0, 0, 1, 0, 0, 0, 0, 1, 0, 0, 0, 0, 1][..]
    );
    let m = Matrix4::new(5u8, 9u8);
    let e = m.as_ptr();
    for i in 0..16 {
        assert_eq!(e[i], if i / 4 == i % 4 { 9 } else { 5 });
    }
}
