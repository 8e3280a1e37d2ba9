use foamshot::foam_outputs::{FoamOutput, OutputEvent};
use foamshot::render;

fn sized_output(w: i32, h: i32) -> FoamOutput {
    let mut o = FoamOutput::new(0);
    o.apply_output_event(OutputEvent::PhysicalSize { width: w, height: h });
    o
}

// One channel dimmed by the translucent overlay, as the renderer computes it.
fn dim(c: u8, t: u8) -> u8 {
    ((c as u32 * 179 + t as u32 * 77) / 256) as u8
}

#[test]
fn clean_canvas_is_zero_filled() {
    let v = render::render_clean(2, 2);
    assert_eq!(v, vec![0u8; 16]);
}

#[test]
fn clean_attach_replaces_buffer() {
    let mut o = sized_output(2, 2);
    o.clean_attach();
    assert_eq!(o.base_buffer, Some(vec![0u8; 16]));
}

#[test]
fn no_freeze_pattern_draws_frame_over_black() {
    let mut o = sized_output(3, 3);
    o.no_freeze_attach();
    let v = o.base_buffer.as_ref().unwrap();
    assert_eq!(v.len(), 36);
    for py in 0..3usize {
        for px in 0..3usize {
            let i = (py * 3 + px) * 4;
            if px == 1 && py == 1 {
                assert_eq!(&v[i..i + 4], &[0, 0, 0, 0]);
            } else {
                assert_eq!(&v[i..i + 4], &[64, 64, 64, 255]);
            }
        }
    }
}

#[test]
fn freeze_attach_keeps_snapshot_under_frame() {
    let mut o = sized_output(3, 3);
    let snap: Vec<u8> = (0u8..36).collect();
    o.freeze_attach(&snap);
    let v = o.base_buffer.as_ref().unwrap();
    // Interior pixel (1, 1): the snapshot shows through.
    assert_eq!(&v[16..20], &snap[16..20]);
    // A border pixel carries the frame color.
    assert_eq!(&v[0..4], &[64, 64, 64, 255]);
}

#[test]
fn overlay_dims_everything_outside_selection() {
    // 4x3 canvas, frozen onto a uniform snapshot, selection covering the
    // pixels (1,1) and (2,1): those stay untouched, every other pixel is
    // dimmed exactly once.
    let mut o = sized_output(4, 3);
    o.new_subrect(1, 1, 2, 1);
    let snap = vec![100u8; 48];
    o.update_select_subrect(&snap, true);
    let v = o.base_buffer.as_ref().unwrap();
    assert_eq!(v.len(), 48);
    let dimmed = [dim(100, 204), dim(100, 204), dim(100, 204), dim(100, 255)];
    for py in 0..3i32 {
        for px in 0..4i32 {
            let i = ((py * 4 + px) * 4) as usize;
            let selected = py == 1 && (px == 1 || px == 2);
            if selected {
                assert_eq!(&v[i..i + 4], &[100, 100, 100, 100], "pixel ({px},{py})");
            } else {
                assert_eq!(&v[i..i + 4], &dimmed, "pixel ({px},{py})");
            }
        }
    }
    // The redraw observed the selection.
    assert_eq!(o.old_subrect, o.subrect);
}

#[test]
fn overlay_without_selection_dims_uniformly() {
    let mut o = sized_output(2, 2);
    let snap = vec![200u8; 16];
    o.update_select_subrect(&snap, true);
    let v = o.base_buffer.as_ref().unwrap();
    let dimmed = [dim(200, 204), dim(200, 204), dim(200, 204), dim(200, 255)];
    for p in 0..4usize {
        assert_eq!(&v[p * 4..p * 4 + 4], &dimmed);
    }
}

#[test]
fn overlay_unfrozen_dims_black() {
    let mut o = sized_output(2, 1);
    o.new_subrect(0, 0, 1, 1);
    let unused = Vec::new();
    o.update_select_subrect(&unused, false);
    let v = o.base_buffer.as_ref().unwrap();
    // Selected pixel: black, untouched.
    assert_eq!(&v[0..4], &[0, 0, 0, 0]);
    // Unselected pixel: black dimmed once.
    assert_eq!(&v[4..8], &[dim(0, 204), dim(0, 204), dim(0, 204), dim(0, 255)]);
}

#[test]
fn dim_values_are_exact() {
    // The translucent light gray at weight 77/256 over black and over white.
    assert_eq!(dim(0, 204), 61);
    assert_eq!(dim(0, 255), 76);
    assert_eq!(dim(255, 204), 239);
    assert_eq!(dim(255, 255), 255);
}

#[test]
fn selection_clipped_by_canvas_edges() {
    // A selection reaching outside the canvas dims only what the canvas
    // holds; pixels under the selection's in-bounds part stay clear.
    let mut o = sized_output(2, 2);
    o.new_subrect(1, 0, 5, 5);
    let snap = vec![10u8; 16];
    o.update_select_subrect(&snap, true);
    let v = o.base_buffer.as_ref().unwrap();
    let dimmed = [dim(10, 204), dim(10, 204), dim(10, 204), dim(10, 255)];
    // (0,0) and (0,1) dimmed; (1,0) and (1,1) inside the selection.
    assert_eq!(&v[0..4], &dimmed);
    assert_eq!(&v[8..12], &dimmed);
    assert_eq!(&v[4..8], &[10, 10, 10, 10]);
    assert_eq!(&v[12..16], &[10, 10, 10, 10]);
}
