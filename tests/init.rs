use os_timer::callback::Callback;
use os_timer::timer::Timer;

/// A handle as the native layer would return it.
const NATIVE_HANDLE: usize = 0x7f00_1000;
/// An address as a boxed closure would have it.
const BOXED_CLOSURE: usize = 0x5a5a_0010;

fn cb() {}

#[test]
fn apple_init_plain_fn() {
    let mut timer = Timer::uninit();

    let closure: usize = BOXED_CLOSURE;

    assert!(timer.init(Callback::plain(cb as fn() as usize), NATIVE_HANDLE));
    let ptr = timer.handle();
    assert_ne!(ptr, 0);
    assert!(timer.storage().is_none());

    assert!(!timer.init(Callback::closure(closure), NATIVE_HANDLE + 8));
    assert_ne!(ptr, 0);
    assert_eq!(ptr, timer.handle());
    assert!(timer.storage().is_none());
}

#[test]
fn apple_init_closure() {
    let mut timer = Timer::uninit();

    let closure: usize = BOXED_CLOSURE;

    assert!(timer.init(Callback::closure(closure), NATIVE_HANDLE));
    let ptr = timer.handle();
    assert_ne!(ptr, 0);
    assert!(timer.storage().is_some());

    assert!(!timer.init(Callback::plain(cb as fn() as usize), NATIVE_HANDLE + 8));
    assert_ne!(ptr, 0);
    assert_eq!(ptr, timer.handle());
    assert!(timer.storage().is_some());
}

#[test]
fn posix_init_plain_fn() {
    let mut timer = Timer::uninit();

    let closure: usize = BOXED_CLOSURE;

    assert!(timer.init(Callback::plain(cb as fn() as usize), NATIVE_HANDLE));
    let ptr = timer.handle();
    assert_ne!(ptr, 0);
    assert!(timer.storage().is_none());

    assert!(!timer.init(Callback::closure(closure), NATIVE_HANDLE + 8));
    assert_ne!(ptr, 0);
    assert_eq!(ptr, timer.handle());
    assert!(timer.storage().is_none());
}

#[test]
fn posix_init_closure() {
    let mut timer = Timer::uninit();

    let closure: usize = BOXED_CLOSURE;

    assert!(timer.init(Callback::closure(closure), NATIVE_HANDLE));
    let ptr = timer.handle();
    assert_ne!(ptr, 0);
    assert!(timer.storage().is_some());

    assert!(!timer.init(Callback::plain(cb as fn() as usize), NATIVE_HANDLE + 8));
    assert_ne!(ptr, 0);
    assert_eq!(ptr, timer.handle());
    assert!(timer.storage().is_some());
}

#[test]
fn win32_init_plain_fn() {
    let mut timer = Timer::uninit();

    let closure: usize = BOXED_CLOSURE;

    assert!(timer.init(Callback::plain(cb as fn() as usize), NATIVE_HANDLE));
    let ptr = timer.handle();
    assert_ne!(ptr, 0);
    assert!(timer.storage().is_none());

    assert!(!timer.init(Callback::closure(closure), NATIVE_HANDLE + 8));
    assert_ne!(ptr, 0);
    assert_eq!(ptr, timer.handle());
    assert!(timer.storage().is_none());
}

#[test]
fn win32_init_closure() {
    let mut timer = Timer::uninit();

    let closure: usize = BOXED_CLOSURE;

    assert!(timer.init(Callback::closure(closure), NATIVE_HANDLE));
    let ptr = timer.handle();
    assert_ne!(ptr, 0);
    assert!(timer.storage().is_some());

    assert!(!timer.init(Callback::plain(cb as fn() as usize), NATIVE_HANDLE + 8));
    assert_ne!(ptr, 0);
    assert_eq!(ptr, timer.handle());
    assert!(timer.storage().is_some());
}
