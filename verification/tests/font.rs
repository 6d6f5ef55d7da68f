use weixin_ui::font::{
    current_font_size_index, font_index_from_size, font_size_for_step, font_size_from_index,
    font_size_step_style, ThumbPlacement,
};

#[test]
fn sizes_of_steps() {
    assert_eq!(font_size_from_index(0), 15);
    assert_eq!(font_size_from_index(1), 16);
    assert_eq!(font_size_from_index(8), 23);
    assert_eq!(font_size_from_index(9), 16);
    assert_eq!(font_size_from_index(-1), 16);
}

#[test]
fn steps_of_sizes() {
    assert_eq!(font_index_from_size(15), 0);
    assert_eq!(font_index_from_size(16), 1);
    assert_eq!(font_index_from_size(23), 8);
    assert_eq!(font_index_from_size(14), 1);
    assert_eq!(font_index_from_size(40), 1);
    assert_eq!(current_font_size_index(20), 5);
}

#[test]
fn step_size_roundtrip() {
    for i in 0..=8 {
        assert_eq!(font_index_from_size(font_size_from_index(i) as i32), i);
    }
    for s in 15..=23 {
        assert_eq!(font_size_from_index(font_index_from_size(s)) as i32, s);
    }
}

#[test]
fn step_past_the_end_is_the_last_step() {
    assert_eq!(font_size_for_step(3), 18);
    assert_eq!(font_size_for_step(8), 23);
    assert_eq!(font_size_for_step(9), 23);
    assert_eq!(font_size_for_step(100), 23);
}

#[test]
fn exactly_one_segment_draws_the_thumb() {
    let total = 8;
    for current in 0..=total {
        let with_thumb: Vec<usize> = (0..total)
            .filter(|&step| font_size_step_style(step, total, current).thumb != ThumbPlacement::Hidden)
            .collect();
        let expected = if current < total { current } else { total - 1 };
        assert_eq!(with_thumb, vec![expected]);
    }
}

#[test]
fn thumb_on_end_tick() {
    let s = font_size_step_style(7, 8, 8);
    assert_eq!(s.thumb, ThumbPlacement::End);
    assert_eq!(s.end_tick_active, Some(true));
    assert!(s.filled);
    let s = font_size_step_style(3, 8, 3);
    assert_eq!(s.thumb, ThumbPlacement::Start);
    assert!(!s.filled);
    assert!(s.tick_active);
    assert_eq!(s.end_tick_active, None);
    let s = font_size_step_style(7, 8, 2);
    assert_eq!(s.end_tick_active, Some(false));
    assert!(!s.tick_active);
}

#[test]
fn steps_past_the_slider_are_plain_segments() {
    let s = font_size_step_style(9, 8, 3);
    assert_eq!(s.thumb, ThumbPlacement::Hidden);
    assert_eq!(s.end_tick_active, None);
    assert!(!s.filled);
    assert!(!s.tick_active);
    let s = font_size_step_style(usize::MAX, usize::MAX, usize::MAX);
    assert_eq!(s.thumb, ThumbPlacement::Start);
    assert_eq!(s.end_tick_active, None);
    let s = font_size_step_style(0, 0, 0);
    assert_eq!(s.thumb, ThumbPlacement::Start);
    assert_eq!(s.end_tick_active, None);
}
