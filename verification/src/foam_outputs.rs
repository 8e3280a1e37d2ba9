//! Geometry model: one physical display, its placement in the virtual
//! desktop, its frozen snapshot, its attached render buffer and its current
//! selection rectangle.

use vstd::prelude::*;
use vstd::string::StringExecFns;

use crate::render;
use crate::render::{bidx, buf_len, opt_view, overlay_at, pattern_byte, valid_dims};

verus! {

/// A selection rectangle in one output's local surface coordinate space.
///
/// Two rectangles are equal iff all five fields match.
#[derive(Clone, Copy, Debug, PartialEq, Eq, Structural)]
pub struct SubRect {
    /// Id of the output that owns this rectangle.
    pub monitor_id: usize,
    /// Top-left corner, x, relative to the owning output.
    pub relative_min_x: i32,
    /// Top-left corner, y, relative to the owning output.
    pub relative_min_y: i32,
    pub width: i32,
    pub height: i32,
}

impl SubRect {
    pub fn new(id: usize, x: i32, y: i32, w: i32, h: i32) -> (r: Self)
        ensures
            r == (SubRect {
                monitor_id: id,
                relative_min_x: x,
                relative_min_y: y,
                width: w,
                height: h,
            }),
    {
        Self { monitor_id: id, relative_min_x: x, relative_min_y: y, width: w, height: h }
    }
}

/// A geometry update delivered by the display protocol for one output.
pub enum OutputEvent {
    /// Top-left corner in virtual-desktop coordinates.
    LogicalPosition { x: i32, y: i32 },
    /// Compositor-scaled size.
    LogicalSize { width: i32, height: i32 },
    /// Physical pixel size of the display's buffer.
    PhysicalSize { width: i32, height: i32 },
    /// Scale factor.
    Scale { factor: i32 },
    /// Human-readable name.
    Name { name: String },
    /// Human-readable description; carries no state the model keeps.
    Description { description: String },
}

/// One physical display and its capture, render and selection state.
pub struct FoamOutput {
    /// Stable integer id, assigned at discovery.
    pub id: usize,
    /// Display name; `"unnamed"` until the protocol delivers one.
    pub name: String,
    /// Physical buffer width in pixels.
    pub width: i32,
    /// Physical buffer height in pixels.
    pub height: i32,
    /// Top-left corner, x, in virtual-desktop coordinates.
    pub global_x: i32,
    /// Top-left corner, y, in virtual-desktop coordinates.
    pub global_y: i32,
    pub logical_width: i32,
    pub logical_height: i32,
    pub scale: i32,
    /// The pixel buffer currently attached to the display surface; replaced
    /// wholesale on every redraw, never written in place after attach.
    pub base_buffer: Option<Vec<u8>>,
    /// The most recent frozen snapshot; `None` until the first capture.
    pub current_canvas: Option<Vec<u8>>,
    /// The active selection rectangle.
    pub subrect: Option<SubRect>,
    /// The selection rectangle as of the last dirtiness check or redraw.
    pub old_subrect: Option<SubRect>,
}

impl FoamOutput {
    /// Byte length of this output's canvases.
    pub open spec fn buf_len(self) -> int {
        buf_len(self.width as int, self.height as int)
    }

    /// The output has a geometry a canvas can be allocated for.
    pub open spec fn wf(self) -> bool {
        valid_dims(self.width as int, self.height as int)
    }

    /// `post` is `pre` with a freshly attached buffer `c` and, unless stated
    /// otherwise by the caller, every other field unchanged.
    pub open spec fn attached(pre: FoamOutput, post: FoamOutput, c: Seq<u8>) -> bool {
        &&& post == (FoamOutput { base_buffer: post.base_buffer, ..pre })
        &&& post.base_buffer matches Some(b) && b@ == c
        &&& c.len() == pre.buf_len()
    }

    /// `post` is `pre` with the zero-filled placeholder attached.
    pub open spec fn clean_attached(pre: FoamOutput, post: FoamOutput) -> bool {
        exists|c: Seq<u8>|
            #[trigger] Self::attached(pre, post, c) && forall|i: int| 0 <= i < c.len() ==> c[i] == 0u8
    }

    /// `post` is `pre` with the unfrozen pattern attached: black with the
    /// decorative frame.
    pub open spec fn no_freeze_attached(pre: FoamOutput, post: FoamOutput) -> bool {
        exists|c: Seq<u8>|
            #[trigger] Self::attached(pre, post, c) && forall|px: int, py: int, ch: int|
                0 <= px < pre.width && 0 <= py < pre.height && 0 <= ch < 4 ==> c[bidx(
                    pre.width as int,
                    px,
                    py,
                    ch,
                )] == pattern_byte(None, pre.width as int, pre.height as int, px, py, ch)
    }

    /// `post` is `pre` with the frozen snapshot `base` attached under the
    /// decorative frame.
    pub open spec fn freeze_attached(pre: FoamOutput, post: FoamOutput, base: Seq<u8>) -> bool {
        exists|c: Seq<u8>|
            #[trigger] Self::attached(pre, post, c) && forall|px: int, py: int, ch: int|
                0 <= px < pre.width && 0 <= py < pre.height && 0 <= ch < 4 ==> c[bidx(
                    pre.width as int,
                    px,
                    py,
                    ch,
                )] == pattern_byte(Some(base), pre.width as int, pre.height as int, px, py, ch)
    }

    /// `post` is `pre` with the selection overlay attached and the selection
    /// snapshotted into `old_subrect`: the base layer (`base` when frozen,
    /// black otherwise) clear inside `pre.subrect` and dimmed once everywhere
    /// else.
    pub open spec fn overlay_attached(
        pre: FoamOutput,
        post: FoamOutput,
        base: Option<Seq<u8>>,
    ) -> bool {
        exists|c: Seq<u8>|
            Self::attached(
                FoamOutput { old_subrect: pre.subrect, ..pre },
                post,
                c,
            ) && forall|px: int, py: int, ch: int|
                0 <= px < pre.width && 0 <= py < pre.height && 0 <= ch < 4 ==> c[#[trigger] bidx(
                    pre.width as int,
                    px,
                    py,
                    ch,
                )] == overlay_at(pre.subrect, base, pre.width as int, px, py, ch)
    }

    /// An output as discovery first sees it: the given id, scale 1, the
    /// placeholder name, and everything else zeroed.
    pub open spec fn is_fresh(self, id: usize) -> bool {
        &&& self == (FoamOutput {
            id,
            name: self.name,
            width: 0,
            height: 0,
            global_x: 0,
            global_y: 0,
            logical_width: 0,
            logical_height: 0,
            scale: 1,
            base_buffer: None,
            current_canvas: None,
            subrect: None,
            old_subrect: None,
        })
        &&& self.name@ == "unnamed"@
    }

    /// An otherwise-zeroed output with the given id.
    pub fn new(id: usize) -> (r: Self)
        ensures
            r.is_fresh(id),
    {
        Self {
            id,
            name: String::from_str("unnamed"),
            width: 0,
            height: 0,
            global_x: 0,
            global_y: 0,
            logical_width: 0,
            logical_height: 0,
            scale: 1,
            base_buffer: None,
            current_canvas: None,
            subrect: None,
            old_subrect: None,
        }
    }

    /// Maps a point in `src_output`'s local surface space to
    /// `target_output`'s local surface space via shared virtual-desktop
    /// coordinates.
    pub fn convert_pos_to_surface(
        src_output: &FoamOutput,
        target_output: &FoamOutput,
        surface_x: i64,
        surface_y: i64,
    ) -> (r: (i64, i64))
        requires
            i64::MIN <= src_output.global_x + surface_x <= i64::MAX,
            i64::MIN <= src_output.global_y + surface_y <= i64::MAX,
            i64::MIN <= src_output.global_x + surface_x - target_output.global_x <= i64::MAX,
            i64::MIN <= src_output.global_y + surface_y - target_output.global_y <= i64::MAX,
        ensures
            r.0 == src_output.global_x + surface_x - target_output.global_x,
            r.1 == src_output.global_y + surface_y - target_output.global_y,
    {
        let global_x = src_output.global_x as i64 + surface_x;
        let global_y = src_output.global_y as i64 + surface_y;
        let dst_x = global_x - target_output.global_x as i64;
        let dst_y = global_y - target_output.global_y as i64;
        (dst_x, dst_y)
    }

    /// What one local-to-local hop computes, on one axis.
    pub open spec fn convert_spec(src_global: int, target_global: int, pos: int) -> int {
        src_global + pos - target_global
    }

    /// Mapping a point from output `a`'s space into output `b`'s space and
    /// back returns the original point, on each axis.
    pub proof fn lemma_convert_round_trip(a_global: int, b_global: int, pos: int)
        ensures
            Self::convert_spec(b_global, a_global, Self::convert_spec(a_global, b_global, pos))
                == pos,
    {
    }

    /// Sets the selection to the given rectangle when it has positive area,
    /// else clears it: an invalid rectangle collapses to "no selection".
    pub fn new_subrect(&mut self, x: i32, y: i32, w: i32, h: i32)
        ensures
            *final(self) == (FoamOutput {
                subrect: if w > 0 && h > 0 {
                    Some(
                        SubRect {
                            monitor_id: old(self).id,
                            relative_min_x: x,
                            relative_min_y: y,
                            width: w,
                            height: h,
                        },
                    )
                } else {
                    None
                },
                ..*old(self)
            }),
    {
        if w <= 0 || h <= 0 {
            self.subrect = None;
        } else {
            let id = self.id;
            self.subrect = Some(SubRect::new(id, x, y, w, h));
        }
    }

    /// The output after one geometry update delivered by the display
    /// protocol.
    pub open spec fn applied_event(pre: FoamOutput, event: OutputEvent) -> FoamOutput {
        match event {
            OutputEvent::LogicalPosition { x, y } => FoamOutput {
                global_x: x,
                global_y: y,
                ..pre
            },
            OutputEvent::LogicalSize { width, height } => FoamOutput {
                logical_width: width,
                logical_height: height,
                ..pre
            },
            OutputEvent::PhysicalSize { width, height } => FoamOutput { width, height, ..pre },
            OutputEvent::Scale { factor } => FoamOutput { scale: factor, ..pre },
            OutputEvent::Name { name } => FoamOutput { name, ..pre },
            OutputEvent::Description { .. } => pre,
        }
    }

    /// Applies one geometry update delivered by the display protocol.
    pub fn apply_output_event(&mut self, event: OutputEvent)
        ensures
            *final(self) == Self::applied_event(*old(self), event),
    {
        match event {
            OutputEvent::LogicalPosition { x, y } => {
                self.global_x = x;
                self.global_y = y;
            },
            OutputEvent::LogicalSize { width, height } => {
                self.logical_width = width;
                self.logical_height = height;
            },
            OutputEvent::PhysicalSize { width, height } => {
                self.width = width;
                self.height = height;
            },
            OutputEvent::Scale { factor } => {
                self.scale = factor;
            },
            OutputEvent::Name { name } => {
                self.name = name;
            },
            OutputEvent::Description { .. } => {},
        }
    }

    /// Stores captured pixels as the frozen snapshot.
    pub fn store_canvas(&mut self, canvas: Vec<u8>)
        requires
            canvas.len() == old(self).buf_len(),
        ensures
            *final(self) == (FoamOutput { current_canvas: Some(canvas), ..*old(self) }),
    {
        self.current_canvas = Some(canvas);
    }

    /// Whether a selection rectangle exists.
    pub fn has_subrect(&self) -> (b: bool)
        ensures
            b == self.subrect is Some,
    {
        self.subrect.is_some()
    }

    /// Whether the selection differs from the one last observed.
    pub open spec fn subrect_changed(self) -> bool {
        match self.old_subrect {
            Some(o) => self.subrect != Some(o),
            None => true,
        }
    }

    /// True if no selection was observed before, or the selection differs
    /// field-wise from the observed one.
    pub fn is_subrect_changed(&self) -> (b: bool)
        ensures
            b == self.subrect_changed(),
    {
        match &self.old_subrect {
            Some(o) => match &self.subrect {
                Some(s) => !(s.monitor_id == o.monitor_id && s.relative_min_x == o.relative_min_x
                    && s.relative_min_y == o.relative_min_y && s.width == o.width && s.height
                    == o.height),
                None => true,
            },
            None => true,
        }
    }

    /// Whether a redraw is needed: a selection exists and changed since the
    /// last check.
    pub open spec fn dirty(self) -> bool {
        self.subrect is Some && self.subrect_changed()
    }

    /// The state after a dirtiness check: the current selection has been
    /// snapshotted into `old_subrect`.
    pub open spec fn observed(self) -> FoamOutput {
        FoamOutput { old_subrect: self.subrect, ..self }
    }

    /// Reports whether a redraw is needed and snapshots the current selection
    /// as observed, so a repeated check without an intervening change reports
    /// "not dirty".
    pub fn is_dirty(&mut self) -> (b: bool)
        ensures
            b == old(self).dirty(),
            *final(self) == old(self).observed(),
    {
        let b = self.has_subrect() && self.is_subrect_changed();
        self.old_subrect = self.subrect;
        b
    }

    /// A dirtiness check right after another one reports "not dirty": the
    /// first check observed the selection, and nothing changed in between.
    pub proof fn lemma_dirty_stable(o: FoamOutput)
        ensures
            !o.observed().dirty(),
    {
    }

    /// The first check after the selection changes to a different rectangle
    /// (fresh, or different field-wise from the observed one) reports dirty.
    pub proof fn lemma_dirty_detects_change(o: FoamOutput, r: SubRect)
        requires
            o.subrect != Some(r),
        ensures
            (FoamOutput { subrect: Some(r), ..o.observed() }).dirty(),
    {
    }

    /// Attaches the zero-filled placeholder as a fresh buffer.
    pub fn clean_attach(&mut self)
        requires
            old(self).wf(),
        ensures
            Self::clean_attached(*old(self), *final(self)),
    {
        let c = render::render_clean(self.width, self.height);
        proof {
            let pre = *old(self);
            assert(Self::attached(pre, FoamOutput { base_buffer: Some(c), ..pre }, c@));
        }
        self.base_buffer = Some(c);
    }

    /// Attaches the unfrozen decorative pattern as a fresh buffer.
    pub fn no_freeze_attach(&mut self)
        requires
            old(self).wf(),
        ensures
            Self::no_freeze_attached(*old(self), *final(self)),
    {
        let c = render::render_pattern(self.width, self.height, None);
        proof {
            let pre = *old(self);
            assert(Self::attached(pre, FoamOutput { base_buffer: Some(c), ..pre }, c@));
        }
        self.base_buffer = Some(c);
    }

    /// Attaches the frozen snapshot under the decorative pattern as a fresh
    /// buffer.
    pub fn freeze_attach(&mut self, base_canvas: &Vec<u8>)
        requires
            old(self).wf(),
            base_canvas.len() == old(self).buf_len(),
        ensures
            Self::freeze_attached(*old(self), *final(self), base_canvas@),
    {
        let c = render::render_pattern(self.width, self.height, Some(base_canvas));
        proof {
            let pre = *old(self);
            assert(Self::attached(pre, FoamOutput { base_buffer: Some(c), ..pre }, c@));
        }
        self.base_buffer = Some(c);
    }

    /// Observes the current selection and attaches the selection overlay as a
    /// fresh buffer: when frozen the snapshot `base_canvas` stays clear inside
    /// the selection and is dimmed once everywhere else; when not frozen the
    /// same overlay is drawn over black.
    pub fn update_select_subrect(&mut self, base_canvas: &Vec<u8>, freeze: bool)
        requires
            old(self).wf(),
            freeze ==> base_canvas.len() == old(self).buf_len(),
        ensures
            Self::overlay_attached(
                *old(self),
                *final(self),
                if freeze {
                    Some(base_canvas@)
                } else {
                    None
                },
            ),
    {
        self.old_subrect = self.subrect;
        let base: Option<&Vec<u8>> = if freeze {
            Some(base_canvas)
        } else {
            None
        };
        let c = render::render_overlay(self.width, self.height, base, &self.subrect);
        proof {
            let pre = *old(self);
            let mid = FoamOutput { old_subrect: pre.subrect, ..pre };
            assert(Self::attached(mid, FoamOutput { base_buffer: Some(c), ..mid }, c@));
            assert(opt_view(base) == (if freeze { Some(base_canvas@) } else { None::<Seq<u8>> }));
        }
        self.base_buffer = Some(c);
    }
}

} // verus!
