use sdl2_ttf::font::Font;
use sdl2_ttf::handle::Handle;
use sdl2_ttf::stream::StreamOwnership;
use sdl2_ttf::subsystem::SubsystemState;

#[test]
fn init_from_uninitialized_succeeds_when_native_call_does() {
    let st = SubsystemState::Uninitialized;
    assert!(st.init_calls_native());
    let (st, ok) = st.init(true);
    assert!(ok);
    assert_eq!(st, SubsystemState::Initialized);
    assert!(st.was_inited());
}

#[test]
fn init_from_uninitialized_fails_when_native_call_does() {
    let st = SubsystemState::Uninitialized;
    let (st, ok) = st.init(false);
    assert!(!ok);
    assert_eq!(st, SubsystemState::Uninitialized);
    assert!(!st.was_inited());
}

#[test]
fn repeated_init_is_idempotent() {
    let (st, ok) = SubsystemState::Uninitialized.init(true);
    assert!(ok);
    // A second request performs no native call, reports success, and the
    // subsystem stays initialized, whatever a native call would have said.
    assert!(!st.init_calls_native());
    let (st, ok) = st.init(false);
    assert!(ok);
    assert!(st.was_inited());
    let (st, ok) = st.init(true);
    assert!(ok);
    assert!(st.was_inited());
}

#[test]
fn quit_uninitializes_from_any_state() {
    assert_eq!(SubsystemState::Initialized.quit(), SubsystemState::Uninitialized);
    assert_eq!(SubsystemState::Uninitialized.quit(), SubsystemState::Uninitialized);
}

#[test]
fn owning_handle_releases_while_initialized() {
    let mut h = Handle::from_native(0x1000, String::new()).unwrap();
    assert!(h.owned());
    assert_eq!(h.raw(), 0x1000);
    assert!(h.close(SubsystemState::Initialized));
    assert!(!h.owned());
}

#[test]
fn close_releases_at_most_once() {
    let mut h = Handle::from_native(0x1000, String::new()).unwrap();
    assert!(h.close(SubsystemState::Initialized));
    // The handle no longer owns the resource: a second destruction decides
    // no release, so the resource can never be freed twice.
    assert!(!h.close(SubsystemState::Initialized));
}

#[test]
fn release_is_skipped_after_shutdown() {
    // Bring the subsystem up, create an owning handle, shut the subsystem
    // down, then destroy the handle: the release is skipped and nothing is
    // touched after shutdown.
    let (st, ok) = SubsystemState::Uninitialized.init(true);
    assert!(ok);
    let mut h = Handle::from_native(0x2000, String::new()).unwrap();
    assert!(h.owned());
    let st = st.quit();
    assert!(!h.close(st));
    assert!(!h.owned());
}

#[test]
fn borrowed_handle_never_releases() {
    let mut h = Handle::borrowed(0x3000);
    assert!(!h.owned());
    assert_eq!(h.raw(), 0x3000);
    assert!(!h.close(SubsystemState::Initialized));
    assert!(!h.close(SubsystemState::Uninitialized));
}

#[test]
fn stream_ownership_translates_to_the_native_flag() {
    assert_eq!(StreamOwnership::CallerCloses.to_freesrc(), 0);
    assert_eq!(StreamOwnership::NativeCloses.to_freesrc(), 1);
    assert!(StreamOwnership::CallerCloses.caller_closes());
    assert!(!StreamOwnership::NativeCloses.caller_closes());
}

#[test]
fn font_close_is_guarded_like_a_handle() {
    let mut f = Font::from_native(0x4000, String::new()).unwrap();
    assert!(f.owned());
    assert_eq!(f.raw(), 0x4000);
    assert!(!f.close(SubsystemState::Uninitialized));
    // Ownership is gone after the first destruction, even a skipped one.
    assert!(!f.close(SubsystemState::Initialized));
}
