use editimg::host::{Host, ScalarOp};
use editimg::protocol::{HostMsg, RhaiMsg, Input};
use image::GenericImageView;

fn base_image(w: u32, h: u32) -> image::DynamicImage {
    let mut img = image::RgbImage::new(w, h);
    for y in 0..h {
        for x in 0..w {
            let r = (x * 37 + y * 11) as u8;
            let g = (x * 5 + 1) as u8;
            let b = (y * 7 + 2) as u8;
            img.put_pixel(x, y, image::Rgb([r, g, b]));
        }
    }
    image::DynamicImage::ImageRgb8(img)
}

fn key_input(name: &str) -> Input {
    Input {
        is_click: false,
        key: name.to_string(),
        u: 0,
        v: 0,
        x: 0,
        y: 0,
        shift: false,
        control: false,
        alt: false,
        nummod: false,
        capsmod: false,
    }
}

#[test]
fn test_scenario_create_crop_show() {
    let base = base_image(8, 8);
    let probe = base.get_pixel(3, 3);
    let mut host = Host::new(base);
    assert_eq!(host.store_len(), 1);

    host.push_request(HostMsg::Create(10, 10));
    let out = host.step(512, 512);
    assert_eq!(out.replies, vec![RhaiMsg::Int(1)]);
    assert_eq!(host.store_len(), 2);

    host.push_request(HostMsg::Crop(0, -1, 0, 0, 5, 5));
    let out = host.step(512, 512);
    assert_eq!(out.replies, vec![RhaiMsg::Int(2)]);
    assert_eq!(host.store_len(), 3);
    // buffer 0 is unchanged
    assert_eq!(host.image_at(0).dimensions(), (8, 8));
    assert_eq!(host.image_at(0).get_pixel(3, 3), probe);
    // the appended buffer is the cut-out
    assert_eq!(host.image_at(2).dimensions(), (5, 5));

    // degenerate rectangle: no mutation, the source index is the reply
    host.push_request(HostMsg::Crop(0, -1, 5, 5, 5, 5));
    let out = host.step(512, 512);
    assert_eq!(out.replies, vec![RhaiMsg::Int(0)]);
    assert_eq!(host.store_len(), 3);

    host.push_request(HostMsg::Show(2));
    let out = host.step(512, 512);
    assert_eq!(out.replies, vec![RhaiMsg::Int(2)]);
    assert!(out.redraw);
}

#[test]
fn test_negative_destination_appends() {
    let mut host = Host::new(base_image(4, 4));
    host.push_request(HostMsg::FlipH(0, -1));
    let out = host.step(512, 512);
    assert_eq!(out.replies, vec![RhaiMsg::Int(1)]);
    assert_eq!(host.store_len(), 2);
    assert!(!out.redraw);
}

#[test]
fn test_nonnegative_destination_overwrites() {
    let mut host = Host::new(base_image(3, 2));
    host.push_request(HostMsg::Create(3, 2));
    host.step(512, 512);
    assert_eq!(host.store_len(), 2);

    // destination 5 clamps to the last slot, 1
    host.push_request(HostMsg::Rot90(0, 5));
    let out = host.step(512, 512);
    assert_eq!(out.replies, vec![RhaiMsg::Int(1)]);
    assert_eq!(host.store_len(), 2);
    assert_eq!(host.image_at(1).dimensions(), (2, 3));
    assert!(!out.redraw);

    // overwriting the shown slot flags a redraw
    host.push_request(HostMsg::FlipV(1, 0));
    let out = host.step(512, 512);
    assert_eq!(out.replies, vec![RhaiMsg::Int(0)]);
    assert!(out.redraw);
}

#[test]
fn test_crop_corner_order_irrelevant() {
    let mut h1 = Host::new(base_image(6, 6));
    let mut h2 = Host::new(base_image(6, 6));
    h1.push_request(HostMsg::Crop(0, -1, 1, 1, 4, 3));
    h2.push_request(HostMsg::Crop(0, -1, 4, 3, 1, 1));
    let o1 = h1.step(512, 512);
    let o2 = h2.step(512, 512);
    assert_eq!(o1.replies, o2.replies);
    let a = h1.image_at(1);
    let b = h2.image_at(1);
    assert_eq!(a.dimensions(), (3, 2));
    assert_eq!(a.dimensions(), b.dimensions());
    for y in 0..2 {
        for x in 0..3 {
            assert_eq!(a.get_pixel(x, y), b.get_pixel(x, y));
        }
    }
}

#[test]
fn test_crop_extracts_region() {
    let base = base_image(2, 2);
    let want = base.get_pixel(1, 0);
    let mut host = Host::new(base);
    host.push_request(HostMsg::Crop(0, -1, 1, 0, 2, 1));
    let out = host.step(512, 512);
    assert_eq!(out.replies, vec![RhaiMsg::Int(1)]);
    assert_eq!(host.image_at(1).dimensions(), (1, 1));
    assert_eq!(host.image_at(1).get_pixel(0, 0), want);
}

#[test]
fn test_repeat_without_prior_command_is_noop() {
    let mut host = Host::new(base_image(4, 4));
    host.push_request(HostMsg::Repeat);
    let out = host.step(512, 512);
    assert!(out.replies.is_empty());
    assert!(!out.die && !out.redraw && !out.cleared);
    assert!(out.save.is_none() && out.apply.is_none());
    assert_eq!(host.store_len(), 1);
    // the queue is empty again: the next tick does nothing
    let out = host.step(512, 512);
    assert!(out.replies.is_empty());
    assert_eq!(host.store_len(), 1);
}

#[test]
fn test_repeat_reexecutes_last_command() {
    let mut host = Host::new(base_image(4, 4));
    host.push_request(HostMsg::Create(2, 2));
    let out = host.step(512, 512);
    assert_eq!(out.replies, vec![RhaiMsg::Int(1)]);
    assert_eq!(host.store_len(), 2);

    // one repeat: create runs again, without answering the repeat call
    host.push_request(HostMsg::Repeat);
    let out = host.step(512, 512);
    assert!(out.replies.is_empty());
    let out = host.step(512, 512);
    assert!(out.replies.is_empty());
    assert_eq!(host.store_len(), 3);
    assert_eq!(host.image_at(2).dimensions(), (2, 2));
}

#[test]
fn test_repeat_twice_reexecutes_twice() {
    let mut host = Host::new(base_image(4, 4));
    host.push_request(HostMsg::Create(2, 2));
    host.step(512, 512);
    assert_eq!(host.store_len(), 2);

    // two consecutive repeats re-run create twice, never repeat itself
    host.push_request(HostMsg::Repeat);
    host.push_request(HostMsg::Repeat);
    for _ in 0..4 {
        let out = host.step(512, 512);
        assert!(out.replies.is_empty());
    }
    assert_eq!(host.store_len(), 4);
    // the queue is drained: one more tick changes nothing
    let out = host.step(512, 512);
    assert!(out.replies.is_empty());
    assert_eq!(host.store_len(), 4);
}

#[test]
fn test_queries_do_not_become_repeat_snapshot() {
    let mut host = Host::new(base_image(4, 4));
    host.push_request(HostMsg::Create(2, 2));
    host.step(512, 512);
    assert_eq!(host.store_len(), 2);
    // a pure query in between must not overwrite the snapshot
    host.push_request(HostMsg::Shown);
    let out = host.step(512, 512);
    assert_eq!(out.replies, vec![RhaiMsg::Int(0)]);
    host.push_request(HostMsg::Repeat);
    host.step(512, 512);
    host.step(512, 512);
    // create ran again, not shown
    assert_eq!(host.store_len(), 3);
}

#[test]
fn test_input_events_delivered_in_order() {
    let mut host = Host::new(base_image(4, 4));
    let e1 = key_input("a");
    let e2 = key_input("b");
    let e3 = key_input("c");
    host.push_input(e1.clone());
    host.push_input(e2.clone());
    host.push_input(e3.clone());
    for _ in 0..3 {
        host.push_request(HostMsg::GetInputEvent);
    }
    let out = host.step(512, 512);
    assert_eq!(out.replies, vec![RhaiMsg::Input(e1)]);
    let out = host.step(512, 512);
    assert_eq!(out.replies, vec![RhaiMsg::Input(e2)]);
    let out = host.step(512, 512);
    assert_eq!(out.replies, vec![RhaiMsg::Input(e3)]);
}

#[test]
fn test_input_call_waits_for_event() {
    let mut host = Host::new(base_image(4, 4));
    host.push_request(HostMsg::GetInputEvent);
    // no event yet: the call stays pending, unanswered
    let out = host.step(512, 512);
    assert!(out.replies.is_empty());
    let out = host.step(512, 512);
    assert!(out.replies.is_empty());
    // the event arrives: the same pending call consumes it
    let ev = key_input("escape");
    host.push_input(ev.clone());
    let out = host.step(512, 512);
    assert_eq!(out.replies, vec![RhaiMsg::Input(ev)]);
}

#[test]
fn test_show_next_walks_full_cycle() {
    let mut host = Host::new(base_image(4, 4));
    host.push_request(HostMsg::Create(2, 2));
    host.push_request(HostMsg::Create(2, 2));
    host.step(512, 512);
    host.step(512, 512);
    assert_eq!(host.store_len(), 3);
    assert_eq!(host.shown_slot(), 0);

    let mut seen = Vec::new();
    for _ in 0..3 {
        host.push_request(HostMsg::ShowNext);
        let out = host.step(512, 512);
        seen.push(out.replies[0].clone());
    }
    assert_eq!(seen, vec![RhaiMsg::Int(1), RhaiMsg::Int(2), RhaiMsg::Int(0)]);
    assert_eq!(host.shown_slot(), 0);
}

#[test]
fn test_show_prev_wraps() {
    let mut host = Host::new(base_image(4, 4));
    host.push_request(HostMsg::Create(2, 2));
    host.step(512, 512);
    host.push_request(HostMsg::ShowPrev);
    let out = host.step(512, 512);
    assert_eq!(out.replies, vec![RhaiMsg::Int(1)]);
    assert!(out.redraw);
    assert_eq!(host.shown_slot(), 1);
}

#[test]
fn test_show_clamps_index() {
    let mut host = Host::new(base_image(4, 4));
    host.push_request(HostMsg::Create(2, 2));
    host.step(512, 512);
    host.push_request(HostMsg::Show(99));
    let out = host.step(512, 512);
    assert_eq!(out.replies, vec![RhaiMsg::Int(1)]);
    host.push_request(HostMsg::Show(-7));
    let out = host.step(512, 512);
    assert_eq!(out.replies, vec![RhaiMsg::Int(0)]);
}

#[test]
fn test_show_same_slot_no_redraw() {
    let mut host = Host::new(base_image(4, 4));
    host.push_request(HostMsg::Show(0));
    let out = host.step(512, 512);
    assert_eq!(out.replies, vec![RhaiMsg::Int(0)]);
    assert!(!out.redraw);
}

#[test]
fn test_get_wh_replies_with_both() {
    let mut host = Host::new(base_image(4, 4));
    host.push_request(HostMsg::GetWH);
    let out = host.step(640, 480);
    assert_eq!(out.replies, vec![RhaiMsg::Int(640), RhaiMsg::Int(480)]);
}

#[test]
fn test_kill_dies_with_acknowledgment() {
    let mut host = Host::new(base_image(4, 4));
    host.push_request(HostMsg::Kill);
    let out = host.step(512, 512);
    assert!(out.die);
    assert_eq!(out.replies, vec![RhaiMsg::Killed]);
}

#[test]
fn test_save_resolves_slot() {
    let mut host = Host::new(base_image(4, 4));
    host.push_request(HostMsg::Save(5, "out.png".to_string()));
    let out = host.step(512, 512);
    let save = out.save.expect("save action");
    assert_eq!(save.slot, 0);
    assert_eq!(save.path, "out.png");
    assert!(out.replies.is_empty());
}

#[test]
fn test_rects_buffered_and_taken() {
    let mut host = Host::new(base_image(4, 4));
    let ruv = editimg::protocol::RectUV { px: 1, py: 2, qx: 3, qy: 4 };
    let rxy = editimg::protocol::RectXY { px: 5, py: 6, qx: 7, qy: 8 };
    host.push_request(HostMsg::DrawRectUV(ruv));
    host.push_request(HostMsg::DrawRectXY(rxy));
    host.step(512, 512);
    host.step(512, 512);
    let (uv, xy) = host.take_rects();
    assert_eq!(uv, vec![ruv]);
    assert_eq!(xy, vec![rxy]);
    let (uv, xy) = host.take_rects();
    assert!(uv.is_empty() && xy.is_empty());

    host.push_request(HostMsg::ClearRects);
    let out = host.step(512, 512);
    assert!(out.cleared);
}

#[test]
fn test_blur_hands_out_pending_work() {
    let mut host = Host::new(base_image(4, 4));
    let sigma = (1.5f64).to_bits();
    host.push_request(HostMsg::Blur(0, -1, sigma));
    let out = host.step(512, 512);
    assert!(out.replies.is_empty());
    let apply = out.apply.expect("pending work");
    assert_eq!(apply.src_slot, 0);
    assert_eq!(apply.dst, -1);
    assert_eq!(apply.op, ScalarOp::Blur(sigma));
    assert!(apply.reply_wanted);

    // the loop applies the blur and hands the buffer back
    let blurred = host.image_at(apply.src_slot).blur(1.5);
    let (idx, redraw) = host.finish_apply(apply.dst, blurred);
    assert_eq!(idx, 1);
    assert!(!redraw);
    assert_eq!(host.store_len(), 2);
}

#[test]
fn test_scalar_ops_carry_their_payload() {
    let mut host = Host::new(base_image(4, 4));
    let sigma = (0.7f64).to_bits();
    host.push_request(HostMsg::Unsharpen(0, 0, sigma, 3));
    let out = host.step(512, 512);
    assert_eq!(out.apply.expect("pending work").op, ScalarOp::Unsharpen(sigma, 3));

    let k = [(0.5f64).to_bits(); 9];
    host.push_request(HostMsg::Filter3x3(0, -1, k));
    let out = host.step(512, 512);
    assert_eq!(out.apply.expect("pending work").op, ScalarOp::Filter3x3(k));

    let c = (10.0f64).to_bits();
    host.push_request(HostMsg::AdjustContrast(0, -1, c));
    let out = host.step(512, 512);
    assert_eq!(out.apply.expect("pending work").op, ScalarOp::AdjustContrast(c));
}

#[test]
fn test_finish_apply_overwrite_flags_redraw() {
    let mut host = Host::new(base_image(4, 4));
    let img = base_image(2, 2);
    let (idx, redraw) = host.finish_apply(0, img);
    assert_eq!(idx, 0);
    assert!(redraw);
    assert_eq!(host.store_len(), 1);
    assert_eq!(host.image_at(0).dimensions(), (2, 2));
}

#[test]
fn test_copy_reports_fit() {
    let mut host = Host::new(base_image(8, 8));
    host.push_request(HostMsg::Create(4, 4));
    host.step(512, 512);

    // the 4x4 buffer fits into the 8x8 one at (2, 2)
    host.push_request(HostMsg::Copy(1, 0, 2, 2));
    let out = host.step(512, 512);
    assert_eq!(out.replies, vec![RhaiMsg::Int(1)]);
    assert!(out.redraw);
    // a created buffer is black, and it was copied over the base pixels
    assert_eq!(host.image_at(0).get_pixel(2, 2), image::Rgba([0, 0, 0, 255]));

    // it does not fit at (6, 6)
    host.push_request(HostMsg::Copy(1, 0, 6, 6));
    let out = host.step(512, 512);
    assert_eq!(out.replies, vec![RhaiMsg::Int(0)]);
}

#[test]
fn test_flips_and_rotations_move_pixels() {
    let base = base_image(2, 1);
    let a = base.get_pixel(0, 0);
    let b = base.get_pixel(1, 0);
    assert_ne!(a, b);

    let mut host = Host::new(base);
    host.push_request(HostMsg::FlipH(0, -1));
    host.step(512, 512);
    assert_eq!(host.image_at(1).get_pixel(0, 0), b);
    assert_eq!(host.image_at(1).get_pixel(1, 0), a);

    host.push_request(HostMsg::Rot180(0, -1));
    host.step(512, 512);
    assert_eq!(host.image_at(2).get_pixel(0, 0), b);
    assert_eq!(host.image_at(2).get_pixel(1, 0), a);

    host.push_request(HostMsg::Rot90(0, -1));
    host.step(512, 512);
    assert_eq!(host.image_at(3).dimensions(), (1, 2));

    host.push_request(HostMsg::Rot270(0, -1));
    host.step(512, 512);
    assert_eq!(host.image_at(4).dimensions(), (1, 2));

    let tall = base_image(1, 2);
    let top = tall.get_pixel(0, 0);
    let bottom = tall.get_pixel(0, 1);
    let mut host = Host::new(tall);
    host.push_request(HostMsg::FlipV(0, -1));
    host.step(512, 512);
    assert_eq!(host.image_at(1).get_pixel(0, 0), bottom);
    assert_eq!(host.image_at(1).get_pixel(0, 1), top);
}

#[test]
fn test_invert_and_grayscale_change_pixels() {
    let base = base_image(2, 2);
    let p = base.get_pixel(1, 1);
    let mut host = Host::new(base);

    host.push_request(HostMsg::Invert(0, -1));
    host.step(512, 512);
    let q = host.image_at(1).get_pixel(1, 1);
    assert_eq!(q[0], 255 - p[0]);
    assert_eq!(q[1], 255 - p[1]);
    assert_eq!(q[2], 255 - p[2]);

    host.push_request(HostMsg::Grayscale(0, -1));
    host.step(512, 512);
    let g = host.image_at(2).get_pixel(0, 0);
    assert_eq!(g[0], g[1]);
    assert_eq!(g[1], g[2]);
}

#[test]
fn test_brighten_and_huerotate_change_pixels() {
    let mut img = image::RgbImage::new(1, 1);
    img.put_pixel(0, 0, image::Rgb([200, 0, 0]));
    let mut host = Host::new(image::DynamicImage::ImageRgb8(img));

    host.push_request(HostMsg::Brighten(0, -1, 40));
    host.step(512, 512);
    let p = host.image_at(1).get_pixel(0, 0);
    assert_eq!(p[0], 240);
    assert_eq!(p[1], 40);

    host.push_request(HostMsg::Huerotate(0, -1, 180));
    host.step(512, 512);
    let p = host.image_at(2).get_pixel(0, 0);
    assert_ne!(p, image::Rgba([200, 0, 0, 255]));
}

#[test]
fn test_resize_family_changes_dimensions() {
    let mut host = Host::new(base_image(8, 4));

    host.push_request(HostMsg::ResizeExact(0, -1, 5, 6, editimg::protocol::FilterKind::Nearest));
    host.step(512, 512);
    assert_eq!(host.image_at(1).dimensions(), (5, 6));

    // resize preserves the aspect ratio within the bounds
    host.push_request(HostMsg::Resize(0, -1, 4, 4, editimg::protocol::FilterKind::Triangle));
    host.step(512, 512);
    assert_eq!(host.image_at(2).dimensions(), (4, 2));

    host.push_request(HostMsg::ResizeFill(0, -1, 4, 4, editimg::protocol::FilterKind::Nearest));
    host.step(512, 512);
    assert_eq!(host.image_at(3).dimensions(), (4, 4));

    host.push_request(HostMsg::Thumbnail(0, -1, 4, 4));
    host.step(512, 512);
    assert_eq!(host.image_at(4).dimensions(), (4, 2));

    host.push_request(HostMsg::ThumbnailExact(0, -1, 3, 3));
    host.step(512, 512);
    assert_eq!(host.image_at(5).dimensions(), (3, 3));

    // dimensions clamp at zero instead of going negative
    host.push_request(HostMsg::ResizeExact(0, -1, -5, 6, editimg::protocol::FilterKind::Nearest));
    host.step(512, 512);
    assert_eq!(host.store_len(), 7);
}

#[test]
fn test_create_makes_black_buffer() {
    let mut host = Host::new(base_image(4, 4));
    host.push_request(HostMsg::Create(10, 7));
    let out = host.step(512, 512);
    assert_eq!(out.replies, vec![RhaiMsg::Int(1)]);
    assert_eq!(host.image_at(1).dimensions(), (10, 7));
    assert_eq!(host.image_at(1).get_pixel(9, 6), image::Rgba([0, 0, 0, 255]));
}

#[test]
fn test_timer_measures_without_panicking() {
    let mut t = editimg::timer::Timer::new();
    let first = t.elapsed();
    t.checkpoint();
    let second = t.elapsed();
    assert!(first <= u128::MAX && second <= u128::MAX);
}
