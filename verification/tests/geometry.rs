use foamshot::foam_outputs::{FoamOutput, OutputEvent, SubRect};

#[test]
fn fresh_output_is_zeroed() {
    let o = FoamOutput::new(7);
    assert_eq!(o.id, 7);
    assert_eq!(o.name, "unnamed");
    assert_eq!(o.width, 0);
    assert_eq!(o.height, 0);
    assert_eq!(o.global_x, 0);
    assert_eq!(o.global_y, 0);
    assert_eq!(o.scale, 1);
    assert!(o.base_buffer.is_none());
    assert!(o.current_canvas.is_none());
    assert!(o.subrect.is_none());
    assert!(o.old_subrect.is_none());
}

#[test]
fn subrect_new_keeps_fields() {
    let r = SubRect::new(2, -5, 9, 30, 40);
    assert_eq!(r.monitor_id, 2);
    assert_eq!(r.relative_min_x, -5);
    assert_eq!(r.relative_min_y, 9);
    assert_eq!(r.width, 30);
    assert_eq!(r.height, 40);
}

#[test]
fn new_subrect_valid_sets_selection() {
    let mut o = FoamOutput::new(3);
    o.new_subrect(10, 20, 30, 40);
    assert_eq!(
        o.subrect,
        Some(SubRect { monitor_id: 3, relative_min_x: 10, relative_min_y: 20, width: 30, height: 40 })
    );
}

#[test]
fn new_subrect_nonpositive_clears_selection() {
    let mut o = FoamOutput::new(3);
    o.new_subrect(10, 20, 30, 40);
    o.new_subrect(10, 20, 0, 40);
    assert_eq!(o.subrect, None);
    o.new_subrect(10, 20, 30, -1);
    assert_eq!(o.subrect, None);
    o.new_subrect(10, 20, -7, -1);
    assert_eq!(o.subrect, None);
}

#[test]
fn convert_pos_round_trip() {
    let mut a = FoamOutput::new(0);
    let mut b = FoamOutput::new(1);
    a.global_x = -300;
    a.global_y = 12;
    b.global_x = 1920;
    b.global_y = -80;
    let (bx, by) = FoamOutput::convert_pos_to_surface(&a, &b, 444, -17);
    let (ax, ay) = FoamOutput::convert_pos_to_surface(&b, &a, bx, by);
    assert_eq!((ax, ay), (444, -17));
}

#[test]
fn convert_pos_concrete() {
    let a = FoamOutput::new(0);
    let mut b = FoamOutput::new(1);
    b.global_x = 1920;
    b.global_y = 0;
    // A point at local (10, 20) on the right-hand display sits at global
    // (1930, 20), which is (1930, 20) in the left display's local space.
    let (dx, dy) = FoamOutput::convert_pos_to_surface(&b, &a, 10, 20);
    assert_eq!((dx, dy), (1930, 20));
}

#[test]
fn dirty_first_selection_then_stable() {
    let mut o = FoamOutput::new(0);
    o.new_subrect(1, 2, 3, 4);
    assert!(o.is_dirty());
    // No change in between: the second check reports "not dirty".
    assert!(!o.is_dirty());
    assert!(!o.is_dirty());
}

#[test]
fn dirty_on_changed_rectangle() {
    let mut o = FoamOutput::new(0);
    o.new_subrect(1, 2, 3, 4);
    assert!(o.is_dirty());
    o.new_subrect(1, 2, 3, 5);
    assert!(o.is_dirty());
    assert!(!o.is_dirty());
}

#[test]
fn selection_cleared_is_not_dirty() {
    // A vanished selection changes the tracker's state but asks for no
    // redraw: dirtiness demands a live selection.
    let mut o = FoamOutput::new(0);
    o.new_subrect(1, 2, 3, 4);
    assert!(o.is_dirty());
    o.new_subrect(1, 2, 0, 0);
    assert!(o.is_subrect_changed());
    assert!(!o.is_dirty());
}

#[test]
fn apply_output_events() {
    let mut o = FoamOutput::new(0);
    o.apply_output_event(OutputEvent::LogicalPosition { x: 1920, y: -5 });
    assert_eq!((o.global_x, o.global_y), (1920, -5));
    o.apply_output_event(OutputEvent::LogicalSize { width: 960, height: 540 });
    assert_eq!((o.logical_width, o.logical_height), (960, 540));
    o.apply_output_event(OutputEvent::PhysicalSize { width: 1920, height: 1080 });
    assert_eq!((o.width, o.height), (1920, 1080));
    o.apply_output_event(OutputEvent::Scale { factor: 2 });
    assert_eq!(o.scale, 2);
    o.apply_output_event(OutputEvent::Name { name: String::from("DP-1") });
    assert_eq!(o.name, "DP-1");
    o.apply_output_event(OutputEvent::Description { description: String::from("left") });
    assert_eq!(o.name, "DP-1");
}

#[test]
fn store_canvas_keeps_bytes() {
    let mut o = FoamOutput::new(0);
    o.apply_output_event(OutputEvent::PhysicalSize { width: 2, height: 1 });
    let bytes = vec![1u8, 2, 3, 4, 5, 6, 7, 8];
    o.store_canvas(bytes.clone());
    assert_eq!(o.current_canvas, Some(bytes));
}
