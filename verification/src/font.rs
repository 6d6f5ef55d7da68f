//! The font-size setting: nine steps from 15 to 23 pixels, shown as a
//! slider of eight segments.
use vstd::prelude::*;

verus! {

/// Index of the highest step.
pub const MAX_FONT_STEP: usize = 8;

/// Font size in pixels of a step; an unknown step means the standard size.
pub open spec fn size_of_step(index: int) -> int {
    if 0 <= index <= 8 {
        15 + index
    } else {
        16
    }
}

/// Step of a font size (rounded to whole pixels); an unknown size means
/// the standard step.
pub open spec fn step_of_size(size: int) -> int {
    if 15 <= size <= 23 {
        size - 15
    } else {
        1
    }
}

/// Font size in pixels that choosing slider step `index` sets: a step past
/// the end counts as the last step.
pub open spec fn chosen_step_size(index: int) -> int {
    size_of_step(if index > 8 { 8 } else { index })
}

/// Font size in pixels for a step index.
pub fn font_size_from_index(index: i32) -> (size: u32)
    ensures
        size == size_of_step(index as int),
{
    match index {
        0 => 15,
        1 => 16,
        2 => 17,
        3 => 18,
        4 => 19,
        5 => 20,
        6 => 21,
        7 => 22,
        8 => 23,
        _ => 16,
    }
}

/// Step index for a font size, given as its value rounded to whole pixels.
pub fn font_index_from_size(rounded_size: i32) -> (index: i32)
    ensures
        index == step_of_size(rounded_size as int),
{
    match rounded_size {
        15 => 0,
        16 => 1,
        17 => 2,
        18 => 3,
        19 => 4,
        20 => 5,
        21 => 6,
        22 => 7,
        23 => 8,
        _ => 1,
    }
}

/// The step the slider shows for the current font size (rounded to whole
/// pixels).
pub fn current_font_size_index(rounded_size: i32) -> (index: usize)
    ensures
        index == step_of_size(rounded_size as int),
        index <= MAX_FONT_STEP,
{
    font_index_from_size(rounded_size) as usize
}

/// The font size in pixels that choosing a slider step sets; a step past
/// the end counts as the last step.
pub fn font_size_for_step(index: usize) -> (size: u32)
    ensures
        size == chosen_step_size(index as int),
        15 <= size <= 23,
{
    let clamped: i32 = if index > MAX_FONT_STEP {
        8
    } else {
        index as i32
    };
    font_size_from_index(clamped)
}

/// Every step maps to a size that maps back to the same step.
pub proof fn law_step_size_roundtrip(index: int)
    requires
        0 <= index <= 8,
    ensures
        step_of_size(size_of_step(index)) == index,
{
}

/// Every size from 15 to 23 pixels maps to a step that maps back to it.
pub proof fn law_size_step_roundtrip(size: int)
    requires
        15 <= size <= 23,
    ensures
        size_of_step(step_of_size(size)) == size,
{
}

/// Where the thumb of the slider sits on a segment.
#[derive(Clone, Copy, Debug, PartialEq, Eq, Structural)]
pub enum ThumbPlacement {
    Hidden,
    Start,
    End,
}

/// How one segment of the slider is drawn.
#[derive(Clone, Copy, Debug, PartialEq, Eq, Structural)]
pub struct FontSizeStepStyle {
    /// The segment lies before the current step.
    pub filled: bool,
    /// The tick at the start of the segment is highlighted.
    pub tick_active: bool,
    /// For the last segment, whether its closing tick is highlighted.
    pub end_tick_active: Option<bool>,
    pub thumb: ThumbPlacement,
}

/// The drawing of segment `step` of `total`, with the thumb on `current`.
pub open spec fn step_style(step: int, total: int, current: int) -> FontSizeStepStyle {
    FontSizeStepStyle {
        filled: step < current,
        tick_active: step <= current,
        end_tick_active: if step + 1 == total {
            Some(step + 1 <= current)
        } else {
            None
        },
        thumb: if step == current {
            ThumbPlacement::Start
        } else if current == total && step + 1 == total {
            ThumbPlacement::End
        } else {
            ThumbPlacement::Hidden
        },
    }
}

/// How segment `step_index` of a slider with `total_steps` segments is
/// drawn when the thumb is on tick `current_index`.
pub fn font_size_step_style(step_index: usize, total_steps: usize, current_index: usize) -> (s:
    FontSizeStepStyle)
    ensures
        s == step_style(step_index as int, total_steps as int, current_index as int),
{
    let is_last = total_steps > 0 && step_index == total_steps - 1;
    let end_tick_active = if is_last {
        Some(step_index < current_index)
    } else {
        None
    };
    let thumb = if step_index == current_index {
        ThumbPlacement::Start
    } else if current_index == total_steps && is_last {
        ThumbPlacement::End
    } else {
        ThumbPlacement::Hidden
    };
    FontSizeStepStyle {
        filled: step_index < current_index,
        tick_active: step_index <= current_index,
        end_tick_active,
        thumb,
    }
}

/// On a slider with at least one segment and the thumb on one of its
/// ticks, exactly one segment draws the thumb: the segment that starts at
/// the current tick, or the last segment when the thumb is on the end tick.
pub proof fn law_single_thumb(total: int, current: int)
    requires
        total > 0,
        0 <= current <= total,
    ensures
        forall|step: int|
            0 <= step < total ==> ((#[trigger] step_style(step, total, current)).thumb
                != ThumbPlacement::Hidden <==> step == if current < total {
                current
            } else {
                total - 1
            }),
{
}


/// The nine steps grow by one pixel each, from 15 to 23 pixels; any other
/// step means the standard 16 pixels, and a slider choice past the end
/// means 23 pixels. Sizes 15 to 23 give their distance from 15 as the step;
/// any other size gives the standard step 1.
pub proof fn law_steps_are_one_pixel_apart(i: int, j: int, size: int)
    ensures
        0 <= i <= 8 ==> size_of_step(i) == 15 + i,
        0 <= i < j <= 8 ==> size_of_step(i) < size_of_step(j),
        !(0 <= i <= 8) ==> size_of_step(i) == 16,
        i > 8 ==> chosen_step_size(i) == 23,
        0 <= i <= 8 ==> chosen_step_size(i) == 15 + i,
        15 <= size <= 23 ==> step_of_size(size) == size - 15,
        !(15 <= size <= 23) ==> step_of_size(size) == 1,
{
}

/// A segment is filled exactly when it lies before the thumb's tick; its
/// start tick is highlighted exactly when it does not lie after the thumb,
/// so a highlighted tick belongs to a filled segment or to the one the
/// thumb starts. Only the last segment has a closing tick, highlighted
/// exactly when the thumb sits at or past the slider's end.
pub proof fn law_segment_colours(step: int, total: int, current: int)
    ensures
        step_style(step, total, current).filled <==> step < current,
        step_style(step, total, current).tick_active <==> step <= current,
        step_style(step, total, current).tick_active ==> (step_style(step, total, current).filled
            || step_style(step, total, current).thumb == ThumbPlacement::Start),
        step_style(step, total, current).end_tick_active is Some <==> step == total - 1,
        step == total - 1 ==> (step_style(step, total, current).end_tick_active == Some(
            total <= current,
        )),
        step_style(step, total, current).thumb == ThumbPlacement::Start <==> step == current,
        step_style(step, total, current).thumb == ThumbPlacement::End <==> (step != current
            && current == total && step == total - 1),
{
}

} // verus!
