//! Per-pass render statistics, aggregated into a frame report.

use vstd::prelude::*;
use crate::framework::geometry_buffer::DrawCallStatistics;

verus! {

/// Saturates a count at the `usize` range.
pub open spec fn sat_usize(x: int) -> int {
    if x > usize::MAX {
        usize::MAX as int
    } else if x < 0 {
        0
    } else {
        x
    }
}

/// Statistics of one render pass: how many draw calls were issued and
/// how many triangles they submitted. Counts saturate instead of
/// wrapping.
#[derive(Clone, Copy, Debug, PartialEq, Eq, Structural)]
pub struct RenderPassStatistics {
    pub draw_calls: usize,
    pub triangles_rendered: usize,
}

impl RenderPassStatistics {
    /// An empty record.
    pub fn new() -> (r: RenderPassStatistics)
        ensures
            r.draw_calls == 0,
            r.triangles_rendered == 0,
    {
        RenderPassStatistics { draw_calls: 0, triangles_rendered: 0 }
    }

    /// Accounts one draw call.
    pub fn add_draw_call(&mut self, d: DrawCallStatistics)
        ensures
            final(self).draw_calls as int == sat_usize(old(self).draw_calls + 1),
            final(self).triangles_rendered as int == sat_usize(
                old(self).triangles_rendered + d.triangles,
            ),
    {
        if self.draw_calls < usize::MAX {
            self.draw_calls = self.draw_calls + 1;
        }
        if d.triangles <= usize::MAX - self.triangles_rendered {
            self.triangles_rendered = self.triangles_rendered + d.triangles;
        } else {
            self.triangles_rendered = usize::MAX;
        }
    }

    /// Merges another pass's statistics into this record.
    pub fn add_pass(&mut self, o: RenderPassStatistics)
        ensures
            final(self).draw_calls as int == sat_usize(old(self).draw_calls + o.draw_calls),
            final(self).triangles_rendered as int == sat_usize(
                old(self).triangles_rendered + o.triangles_rendered,
            ),
    {
        if o.draw_calls <= usize::MAX - self.draw_calls {
            self.draw_calls = self.draw_calls + o.draw_calls;
        } else {
            self.draw_calls = usize::MAX;
        }
        if o.triangles_rendered <= usize::MAX - self.triangles_rendered {
            self.triangles_rendered = self.triangles_rendered + o.triangles_rendered;
        } else {
            self.triangles_rendered = usize::MAX;
        }
    }
}

} // verus!
