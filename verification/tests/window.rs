use grafx::window::{next_step, LoopEvent};
use grafx::WindowDetails;

#[test]
fn window_details_keep_title_and_size() {
    let d = WindowDetails::new("Text Test", 800, 480);
    assert_eq!(d.getTitle(), "Text Test");
    assert_eq!(d.getWidth(), 800);
    assert_eq!(d.getHeight(), 480);
}

#[test]
fn window_details_take_an_empty_title_and_any_size() {
    let d = WindowDetails::new("", -1, i32::MAX);
    assert_eq!(d.getTitle(), "");
    assert_eq!((d.getWidth(), d.getHeight()), (-1, i32::MAX));
}

#[test]
fn a_destroyed_loop_does_nothing_more() {
    let s = next_step(LoopEvent::LoopDestroyed);
    assert_eq!((s.dispose, s.exit, s.resize, s.frame), (false, false, None, false));
}

#[test]
fn a_close_request_disposes_and_stops_after_one_more_frame() {
    let s = next_step(LoopEvent::CloseRequested);
    assert_eq!((s.dispose, s.exit, s.resize, s.frame), (true, true, None, true));
}

#[test]
fn a_new_size_is_passed_on_before_the_frame() {
    let s = next_step(LoopEvent::Resized { width: 1024, height: 768 });
    assert_eq!((s.dispose, s.exit, s.resize, s.frame), (false, false, Some((1024, 768)), true));
}

#[test]
fn an_extent_beyond_the_signed_range_keeps_its_bits() {
    let s = next_step(LoopEvent::Resized { width: u32::MAX, height: 0x8000_0000 });
    assert_eq!(s.resize, Some((-1, i32::MIN)));
    let t = next_step(LoopEvent::Resized { width: 0x7fff_ffff, height: 0 });
    assert_eq!(t.resize, Some((i32::MAX, 0)));
}

#[test]
fn any_other_event_draws_a_frame() {
    let s = next_step(LoopEvent::Other);
    assert_eq!((s.dispose, s.exit, s.resize, s.frame), (false, false, None, true));
}
