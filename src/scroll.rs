//! Wheel-driven scrolling of a list panel inside a clipping viewport.
//!
//! The offset of a list is the pixel distance by which its content is pushed
//! up: it is always between `-max_scroll` and 0, where `max_scroll` is how far
//! the content overflows the viewport at the time of the event.
use vstd::prelude::*;

verus! {

/// Pixels scrolled for one line of a line-unit wheel event.
pub const LINE_SCROLL_PIXELS: i64 = 20;

/// What a wheel event's magnitude counts.
#[derive(Clone, Copy, Debug, PartialEq, Eq, Structural)]
pub enum ScrollUnit {
    Line,
    Pixel,
}

/// One wheel event: positive `y` scrolls up, negative `y` down.
#[derive(Clone, Copy, Debug, PartialEq, Eq, Structural)]
pub struct WheelEvent {
    pub unit: ScrollUnit,
    pub y: i32,
}

/// What one step of scrolling sees: the event, and the heights that layout
/// gave the list's content and its viewport at that time.
#[derive(Clone, Copy, Debug, PartialEq, Eq, Structural)]
pub struct ScrollInput {
    pub event: WheelEvent,
    pub content_height: u32,
    pub viewport_height: u32,
}

/// How far the content can scroll: its overflow of the viewport, or 0.
pub open spec fn max_scroll_of(content_height: int, viewport_height: int) -> int {
    if content_height > viewport_height {
        content_height - viewport_height
    } else {
        0
    }
}

/// Pixels that one event moves the content: a line counts
/// [`LINE_SCROLL_PIXELS`], a pixel counts as itself.
pub open spec fn delta_of(event: WheelEvent) -> int {
    match event.unit {
        ScrollUnit::Line => event.y * LINE_SCROLL_PIXELS,
        ScrollUnit::Pixel => event.y as int,
    }
}

/// `v` brought into `[lo, hi]`.
pub open spec fn clamp(v: int, lo: int, hi: int) -> int {
    if v < lo {
        lo
    } else if v > hi {
        hi
    } else {
        v
    }
}

/// The offset after one step from `offset`.
pub open spec fn scroll_step(offset: int, input: ScrollInput) -> int {
    clamp(
        offset + delta_of(input.event),
        -max_scroll_of(input.content_height as int, input.viewport_height as int),
        0,
    )
}

/// The offset after the steps of `inputs`, in order, from `offset`.
pub open spec fn replay(offset: int, inputs: Seq<ScrollInput>) -> int
    decreases inputs.len(),
{
    if inputs.len() == 0 {
        offset
    } else {
        scroll_step(replay(offset, inputs.drop_last()), inputs.last())
    }
}

/// How far content of `content_height` pixels can scroll inside a viewport of
/// `viewport_height` pixels.
pub fn max_scroll(content_height: u32, viewport_height: u32) -> (r: u32)
    ensures
        r == max_scroll_of(content_height as int, viewport_height as int),
{
    if content_height > viewport_height {
        content_height - viewport_height
    } else {
        0
    }
}

/// The pixel delta of one wheel event.
pub fn scroll_delta(event: &WheelEvent) -> (r: i64)
    ensures
        r == delta_of(*event),
{
    match event.unit {
        ScrollUnit::Line => event.y as i64 * LINE_SCROLL_PIXELS,
        ScrollUnit::Pixel => event.y as i64,
    }
}

/// The scroll state of one list panel.
#[derive(Clone, Copy, Debug, PartialEq, Eq, Structural)]
pub struct ScrollingList {
    position: i64,
}

impl ScrollingList {
    /// The current offset, in pixels.
    pub closed spec fn offset(&self) -> int {
        self.position as int
    }

    /// A list that is not scrolled.
    pub fn new() -> (r: ScrollingList)
        ensures
            r.offset() == 0,
    {
        ScrollingList { position: 0 }
    }

    /// The current offset, in pixels: the top offset at which the list's
    /// content is drawn.
    pub fn position(&self) -> (r: i64)
        ensures
            r == self.offset(),
    {
        self.position
    }

    /// Applies one wheel event, with the heights that layout gives now, and
    /// returns the new offset.
    pub fn apply(&mut self, input: &ScrollInput) -> (r: i64)
        ensures
            final(self).offset() == scroll_step(old(self).offset(), *input),
            r == final(self).offset(),
    {
        let max = max_scroll(input.content_height, input.viewport_height) as i128;
        let moved = self.position as i128 + scroll_delta(&input.event) as i128;
        let clamped = if moved < -max {
            -max
        } else if moved > 0 {
            0
        } else {
            moved
        };
        self.position = clamped as i64;
        self.position
    }
}

impl Default for ScrollingList {
    fn default() -> (r: ScrollingList)
        ensures
            r.offset() == 0,
    {
        ScrollingList::new()
    }
}

/// A scrollable list together with the heights that layout gave, this frame,
/// to its content and to the viewport that clips it.
#[derive(Clone, Copy, Debug, PartialEq, Eq, Structural)]
pub struct ScrollPanel {
    pub list: ScrollingList,
    pub content_height: u32,
    pub viewport_height: u32,
}

/// The steps that `events` make on a list with the given heights.
pub open spec fn inputs_of(events: Seq<WheelEvent>, content_height: u32, viewport_height: u32) -> Seq<
    ScrollInput,
> {
    events.map_values(
        |e: WheelEvent| ScrollInput { event: e, content_height, viewport_height },
    )
}

/// Applies the frame's wheel events, in order, to every panel, each with its
/// own heights. Returns nothing: the new offsets stand in the panels.
pub fn mouse_scrolling(events: &[WheelEvent], panels: &mut Vec<ScrollPanel>)
    ensures
        final(panels)@.len() == old(panels)@.len(),
        forall|j: int|
            0 <= j < old(panels)@.len() ==> {
                let p = #[trigger] old(panels)@[j];
                let q = final(panels)@[j];
                &&& q.content_height == p.content_height
                &&& q.viewport_height == p.viewport_height
                &&& q.list.offset() == replay(
                    p.list.offset(),
                    inputs_of(events@, p.content_height, p.viewport_height),
                )
            },
{
    let mut i: usize = 0;
    while i < events.len()
        invariant
            i <= events@.len(),
            panels@.len() == old(panels)@.len(),
            forall|j: int|
                0 <= j < old(panels)@.len() ==> {
                    let p = #[trigger] old(panels)@[j];
                    let q = panels@[j];
                    &&& q.content_height == p.content_height
                    &&& q.viewport_height == p.viewport_height
                    &&& q.list.offset() == replay(
                        p.list.offset(),
                        inputs_of(events@.take(i as int), p.content_height, p.viewport_height),
                    )
                },
        decreases events@.len() - i,
    {
        let event = events[i];
        let ghost done = events@.take(i as int);
        proof {
            assert(events@.take(i + 1) =~= done.push(event));
            assert forall|c: u32, v: u32|
                #![trigger inputs_of(events@.take(i + 1), c, v)]
                inputs_of(events@.take(i + 1), c, v) =~= inputs_of(done, c, v).push(
                    ScrollInput { event, content_height: c, viewport_height: v },
                ) by {}
        }
        let mut k: usize = 0;
        while k < panels.len()
            invariant
                k <= panels@.len(),
                i < events@.len(),
                event == events@[i as int],
                done == events@.take(i as int),
                panels@.len() == old(panels)@.len(),
                forall|c: u32, v: u32|
                    #![trigger inputs_of(events@.take(i + 1), c, v)]
                    inputs_of(events@.take(i + 1), c, v) == inputs_of(done, c, v).push(
                        ScrollInput { event, content_height: c, viewport_height: v },
                    ),
                forall|j: int|
                    0 <= j < old(panels)@.len() ==> {
                        let p = #[trigger] old(panels)@[j];
                        let q = panels@[j];
                        &&& q.content_height == p.content_height
                        &&& q.viewport_height == p.viewport_height
                        &&& q.list.offset() == replay(
                            p.list.offset(),
                            inputs_of(
                                if j < k {
                                    events@.take(i + 1)
                                } else {
                                    done
                                },
                                p.content_height,
                                p.viewport_height,
                            ),
                        )
                    },
            decreases panels@.len() - k,
        {
            let mut panel = panels[k];
            let input = ScrollInput {
                event,
                content_height: panel.content_height,
                viewport_height: panel.viewport_height,
            };
            panel.list.apply(&input);
            panels.set(k, panel);
            proof {
                let p = old(panels)@[k as int];
                let steps = inputs_of(events@.take(i + 1), p.content_height, p.viewport_height);
                assert(steps.drop_last() =~= inputs_of(done, p.content_height, p.viewport_height));
            }
            k = k + 1;
        }
        i = i + 1;
    }
    assert(events@.take(i as int) =~= events@);
}

/// Whatever the offset before, after every step of a sequence of wheel events
/// the offset lies in `[-max_scroll, 0]`, where `max_scroll` comes from the
/// heights that layout gave at that step.
pub proof fn replay_stays_in_bounds(offset: int, inputs: Seq<ScrollInput>)
    ensures
        forall|k: int|
            0 < k <= inputs.len() ==> -max_scroll_of(
                inputs[k - 1].content_height as int,
                inputs[k - 1].viewport_height as int,
            ) <= #[trigger] replay(offset, inputs.take(k)) <= 0,
{
    assert forall|k: int| 0 < k <= inputs.len() implies -max_scroll_of(
        inputs[k - 1].content_height as int,
        inputs[k - 1].viewport_height as int,
    ) <= #[trigger] replay(offset, inputs.take(k)) <= 0 by {
        assert(inputs.take(k).last() == inputs[k - 1]);
    }
}

} // verus!
