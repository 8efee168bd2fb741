use vstd::prelude::*;

use crate::geometry::Rectangle;

verus! {

/// Space between the monitor's left edge and the preview panel.
pub const MARGIN: i64 = 16;

/// Space around each workspace preview.
pub const PADDING: i64 = 8;

/// How many times smaller a preview is than the monitor.
pub const SCALE: i64 = 8;

/// A box placed inside its parent: the offset of its top left corner and
/// its size.
#[derive(Clone, Copy, Debug, PartialEq, Eq, Structural)]
pub struct Placement {
    pub x: i64,
    pub y: i64,
    pub width: i64,
    pub height: i64,
}

/// `a / b` rounded toward zero, as integer division does.
pub open spec fn div_toward_zero(a: int, b: int) -> int {
    if a >= 0 {
        a / b
    } else {
        -((-a) / b)
    }
}

fn div_trunc(a: i64, b: i64) -> (r: i64)
    requires
        b > 0,
        a > i64::MIN,
    ensures
        r == div_toward_zero(a as int, b as int),
{
    if a >= 0 {
        a / b
    } else {
        -((-a) / b)
    }
}

/// The size of one workspace preview on a monitor `width` by `height`.
pub open spec fn preview_size(width: int, height: int) -> (int, int) {
    (div_toward_zero(width, SCALE as int) + 2 * PADDING, div_toward_zero(height, SCALE as int) + 2
        * PADDING)
}

/// The panel of workspace previews shown on one monitor: the panel's place
/// on the screen, each preview's place in the panel, and the frame that
/// marks the active workspace.
#[derive(Debug)]
pub struct WsPreviewMonitor {
    pub rect: Placement,
    pub previews: Vec<Placement>,
    pub active: Placement,
    pub monitor: Rectangle,
}

/// The layout of the previews of `count` workspaces on a monitor at `x`,
/// `y` of the given size: a column of previews one eighth of the monitor's
/// size with a padding around each, centred vertically at a margin from the
/// monitor's left edge.
pub open spec fn is_layout(x: int, y: int, width: int, height: int, count: int, m: WsPreviewMonitor) -> bool {
    let (pw, ph) = preview_size(width, height);
    let panel_height = (ph + PADDING) * count + PADDING;
    &&& m.rect == Placement {
        x: (x + MARGIN) as i64,
        y: (y + div_toward_zero(height - panel_height, 2)) as i64,
        width: (pw + 2 * PADDING) as i64,
        height: panel_height as i64,
    }
    &&& m.previews@.len() == count
    &&& forall|i: int|
        0 <= i < count ==> #[trigger] m.previews@[i] == (Placement {
            x: PADDING as i64,
            y: ((ph + PADDING) * i + PADDING) as i64,
            width: pw as i64,
            height: ph as i64,
        })
    &&& m.monitor.left == x && m.monitor.top == y
    &&& m.monitor.right == x + width && m.monitor.bottom == y + height
}

/// Where the active frame stands after the active workspace became `index`:
/// on that workspace's preview, where there is one; else where it was.
pub open spec fn is_active_moved(before: Placement, previews: Seq<Placement>, index: int, after: Placement) -> bool {
    if 0 <= index < previews.len() {
        after == (Placement { x: previews[index].x, y: previews[index].y, ..before })
    } else {
        after == before
    }
}

impl WsPreviewMonitor {
    /// Lays out the previews of `count` workspaces on the monitor at `x`,
    /// `y` of size `width` by `height`, with the frame on `active_workspace`.
    pub fn new(x: i32, y: i32, width: i32, height: i32, active_workspace: i32, count: u32) -> (r:
        WsPreviewMonitor)
        requires
            width >= 0,
            height >= 0,
        ensures
            is_layout(x as int, y as int, width as int, height as int, count as int, r),
            is_active_moved(
                Placement {
                    x: 0,
                    y: 0,
                    width: preview_size(width as int, height as int).0 as i64,
                    height: preview_size(width as int, height as int).1 as i64,
                },
                r.previews@,
                active_workspace as int,
                r.active,
            ),
    {
        let preview_w = div_trunc(width as i64, SCALE) + PADDING * 2;
        let preview_h = div_trunc(height as i64, SCALE) + PADDING * 2;
        let rect_w = preview_w + PADDING * 2;
        assert(height as i64 / SCALE <= 0x1000_0000);
        assert((preview_h + PADDING) * (count as i64) <= 0x1100_0000 * 0x1_0000_0000) by (nonlinear_arith)
            requires
                0 <= preview_h + PADDING <= 0x1100_0000,
                0 <= count <= 0xFFFF_FFFF,
        ;
        let rect_h = (preview_h + PADDING) * (count as i64) + PADDING;
        let rect = Placement {
            x: x as i64 + MARGIN,
            y: y as i64 + div_trunc(height as i64 - rect_h, 2),
            width: rect_w,
            height: rect_h,
        };
        let mut previews: Vec<Placement> = Vec::new();
        let mut i: u32 = 0;
        while i < count
            invariant
                0 <= i <= count,
                preview_w == preview_size(width as int, height as int).0,
                preview_h == preview_size(width as int, height as int).1,
                0 <= preview_h + PADDING <= 0x1100_0000,
                previews@.len() == i,
                forall|j: int|
                    0 <= j < i ==> #[trigger] previews@[j] == (Placement {
                        x: PADDING,
                        y: ((preview_h + PADDING) * j + PADDING) as i64,
                        width: preview_w,
                        height: preview_h,
                    }),
            decreases count - i,
        {
            assert((preview_h + PADDING) * (i as i64) <= 0x1100_0000 * 0x1_0000_0000) by (nonlinear_arith)
                requires
                    0 <= preview_h + PADDING <= 0x1100_0000,
                    0 <= i <= 0xFFFF_FFFF,
            ;
            previews.push(Placement {
                x: PADDING,
                y: (preview_h + PADDING) * (i as i64) + PADDING,
                width: preview_w,
                height: preview_h,
            });
            i += 1;
        }
        let monitor = Rectangle::from_frame(x, y, width, height);
        let mut this = WsPreviewMonitor {
            rect,
            previews,
            active: Placement { x: 0, y: 0, width: preview_w, height: preview_h },
            monitor,
        };
        this.update_workspace(active_workspace);
        this
    }

    /// Moves the frame onto the preview of workspace `active_workspace`,
    /// where there is one.
    pub fn update_workspace(&mut self, active_workspace: i32)
        ensures
            final(self).rect == old(self).rect,
            final(self).previews@ == old(self).previews@,
            final(self).monitor == old(self).monitor,
            is_active_moved(old(self).active, old(self).previews@, active_workspace as int, final(self).active),
    {
        if active_workspace >= 0 && (active_workspace as usize) < self.previews.len() {
            let preview = self.previews[active_workspace as usize];
            self.active = Placement { x: preview.x, y: preview.y, ..self.active };
        }
    }

    /// Where the miniature of a window or background with the given frame
    /// stands in a preview, or `None` where it lies wholly off this
    /// monitor.
    pub fn window_placement(&self, frame: &Rectangle) -> (r: Option<Placement>)
        requires
            self.monitor.wf(),
            frame.wf(),
            i32::MIN <= self.monitor.left <= i32::MAX,
            i32::MIN <= self.monitor.top <= i32::MAX,
            i32::MIN <= frame.left <= i32::MAX,
            i32::MIN <= frame.top <= i32::MAX,
            frame.right - frame.left <= i32::MAX,
            frame.bottom - frame.top <= i32::MAX,
        ensures
            self.monitor.spec_horizontally_disjoint(*frame) || self.monitor.spec_vertically_disjoint(*frame)
                ==> r is None,
            !(self.monitor.spec_horizontally_disjoint(*frame) || self.monitor.spec_vertically_disjoint(*frame))
                ==> r == Some(Placement {
                    x: (div_toward_zero(frame.left - self.monitor.left, SCALE as int) + PADDING) as i64,
                    y: (div_toward_zero(frame.top - self.monitor.top, SCALE as int) + PADDING) as i64,
                    width: div_toward_zero(frame.right - frame.left, SCALE as int) as i64,
                    height: div_toward_zero(frame.bottom - frame.top, SCALE as int) as i64,
                }),
    {
        if self.monitor.horizontally_disjoint(frame) || self.monitor.vertically_disjoint(frame) {
            return None;
        }
        Some(Placement {
            x: div_trunc(frame.left - self.monitor.left, SCALE) + PADDING,
            y: div_trunc(frame.top - self.monitor.top, SCALE) + PADDING,
            width: div_trunc(frame.right - frame.left, SCALE),
            height: div_trunc(frame.bottom - frame.top, SCALE),
        })
    }
}

} // verus!
