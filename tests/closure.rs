use ffi_closure::cc::{AsExtern, Cdecl, Release, Rust, System, Trampoline, C};
use ffi_closure::Closure;
use std::cell::Cell;

struct DropCounter<'a> {
    drops: &'a Cell<u32>,
}

impl Drop for DropCounter<'_> {
    fn drop(&mut self) {
        self.drops.set(self.drops.get() + 1);
    }
}

fn assert_send<T: Send>(_: &T) {}

fn assert_sync<T: Sync>(_: &T) {}

fn square_with_context(x: u32, _: &()) -> u32 {
    x * x
}

#[test]
fn capture_square_gives_nine() {
    let mut sq: Closure<_, _, _> = Closure::new(|x: u32| x * x);
    assert_eq!(sq.call((3,)), 9);
}

#[test]
fn import_square_with_empty_context_gives_nine() {
    let mut sq: Closure<_, _, fn(())> = Closure::from_extern(square_with_context, (), None);
    assert_eq!(sq.call((3,)), 9);
    assert!(!sq.has_destructor());
}

#[test]
fn counter_called_ten_times_and_freed_once() {
    let count = Cell::new(0u32);
    let drops = Cell::new(0u32);
    {
        let guard = DropCounter { drops: &drops };
        let counter = &count;
        let mut inc: Closure<_, _, _> = Closure::new(move || {
            let _ = &guard;
            counter.set(counter.get() + 1);
        });
        for _ in 0..10 {
            inc.call(());
        }
        assert_eq!(count.get(), 10);
        assert_eq!(drops.get(), 0);
    }
    assert_eq!(drops.get(), 1);
}

#[test]
fn captured_closure_round_trip() {
    let offset = 7i64;
    let mut add: Closure<_, _, _> = Closure::new(|a: i64, b: i64| a - b + offset);
    assert_eq!(add.call((10, 4)), 13);
    assert_eq!(add.call((-3, 2)), 2);
}

#[test]
fn exported_parts_match_a_call() {
    let mut cube: Closure<_, _, _> = Closure::new(|x: u64| x * x * x);
    let direct = {
        let (code, user_data) = cube.as_extern_parts();
        code.invoke((5,), user_data)
    };
    assert_eq!(direct, 125);
    assert_eq!(cube.call((5,)), direct);
}

#[test]
fn exported_parts_adopted_again_match_a_call() {
    let mut sub: Closure<_, _, _> = Closure::new(|a: i32, b: i32| a - b);
    let expected = sub.call((9, 4));
    let (code, user_data) = sub.as_extern_parts();
    let forward = |a: i32, b: i32, g: &&_| code.invoke((a, b), *g);
    let mut adopted: Closure<_, _, fn(&_)> = Closure::from_extern(forward, user_data, None);
    assert_eq!(adopted.call((9, 4)), expected);
    assert_eq!(expected, 5);
}

#[test]
fn destructor_runs_once_on_explicit_destroy() {
    let released = Cell::new(0u32);
    let code = |x: u32, ctx: &u32| x + *ctx;
    let destructor = |ctx: u32| released.set(released.get() + ctx);
    let mut c: Closure<_, _, _> = Closure::from_extern(code, 5u32, Some(destructor));
    assert!(c.has_destructor());
    assert_eq!(*c.user_data(), 5);
    assert_eq!(c.call((37,)), 42);
    assert!(c.destroy());
    assert_eq!(released.get(), 5);
    assert!(!c.has_destructor());
    assert!(!c.destroy());
    assert_eq!(released.get(), 5);
    drop(c);
    assert_eq!(released.get(), 5);
}

#[test]
fn destructor_runs_once_when_dropped() {
    let released = Cell::new(0u32);
    {
        let code = |ctx: &u32| *ctx;
        let destructor = |_: u32| released.set(released.get() + 1);
        let mut c: Closure<_, _, _> = Closure::from_extern(code, 3u32, Some(destructor));
        assert_eq!(c.call(()), 3);
        assert_eq!(released.get(), 0);
    }
    assert_eq!(released.get(), 1);
}

#[test]
fn no_destructor_never_tears_down() {
    let code = |x: u8, ctx: &u8| x.wrapping_add(*ctx);
    let mut c: Closure<_, _, fn(u8)> = Closure::from_extern(code, 2u8, None);
    assert!(!c.has_destructor());
    assert!(!c.destroy());
    assert_eq!(*c.user_data(), 2);
    assert_eq!(c.call((40,)), 42);
}

#[test]
fn captured_state_freed_by_destroy() {
    let drops = Cell::new(0u32);
    let guard = DropCounter { drops: &drops };
    let mut c: Closure<_, _, _> = Closure::new(move |x: u32| {
        let _ = &guard;
        x + 1
    });
    assert!(c.has_destructor());
    assert_eq!(c.call((1,)), 2);
    assert!(c.destroy());
    assert_eq!(drops.get(), 1);
    assert!(!c.destroy());
    drop(c);
    assert_eq!(drops.get(), 1);
}

#[test]
fn arity_zero() {
    let mut c: Closure<_, _, _> = Closure::new(|| 17u8);
    assert_eq!(c.call(()), 17);
    let mut e: Closure<_, _, fn(u8)> = Closure::from_extern(|ctx: &u8| *ctx * 2, 21u8, None);
    assert_eq!(e.call(()), 42);
}

#[test]
fn arity_three_keeps_order() {
    let mut c: Closure<_, _, _> = Closure::new(|a: u32, b: u32, d: u32| a * 100 + b * 10 + d);
    assert_eq!(c.call((1, 2, 3)), 123);
    let code = |a: u32, b: u32, ctx: &u32| a * 100 + b * 10 + *ctx;
    let mut e: Closure<_, _, fn(u32)> = Closure::from_extern(code, 9u32, None);
    assert_eq!(e.call((4, 5)), 459);
}

#[test]
fn arity_fourteen_keeps_order() {
    let mut c: Closure<_, _, _> = Closure::new(
        |a: u8,
         b: u8,
         c: u8,
         d: u8,
         e: u8,
         f: u8,
         g: u8,
         h: u8,
         i: u8,
         j: u8,
         k: u8,
         l: u8,
         m: u8,
         n: u8| vec![a, b, c, d, e, f, g, h, i, j, k, l, m, n],
    );
    let out = c.call((1, 2, 3, 4, 5, 6, 7, 8, 9, 10, 11, 12, 13, 14));
    assert_eq!(out, (1..=14).collect::<Vec<u8>>());
    assert!(c.destroy());
}

#[test]
fn arity_fourteen_context_last() {
    let code = |a: u8,
                b: u8,
                c: u8,
                d: u8,
                e: u8,
                f: u8,
                g: u8,
                h: u8,
                i: u8,
                j: u8,
                k: u8,
                l: u8,
                m: u8,
                n: u8,
                ctx: &u8| vec![a, b, c, d, e, f, g, h, i, j, k, l, m, n, *ctx];
    let mut e: Closure<_, _, fn(u8)> = Closure::from_extern(code, 15u8, None);
    let out = e.call((1, 2, 3, 4, 5, 6, 7, 8, 9, 10, 11, 12, 13, 14));
    assert_eq!(out, (1..=15).collect::<Vec<u8>>());
}

#[test]
fn queries_report_the_parts() {
    let c: Closure<_, _, _> = Closure::new(|x: i16| -x);
    assert_eq!(*c.fn_ptr(), Trampoline);
    assert_eq!(c.user_data()(5), -5);
    let (code, user_data) = c.as_extern_parts();
    assert_eq!(*code, Trampoline);
    assert_eq!(user_data(-8), 8);
}

#[test]
fn calling_conventions_are_type_tags() {
    let mut a: Closure<_, _, Release, Rust> = Closure::new(|x: u32| x + 1);
    let mut b: Closure<_, _, Release, System> = Closure::new(|x: u32| x + 2);
    let mut d: Closure<_, _, Release, Cdecl> = Closure::new(|x: u32| x + 3);
    let mut e: Closure<_, _, Release, C> = Closure::new(|x: u32| x + 4);
    assert_eq!(a.call((1,)), 2);
    assert_eq!(b.call((1,)), 3);
    assert_eq!(d.call((1,)), 4);
    assert_eq!(e.call((1,)), 5);
}

#[test]
fn thread_safety_follows_the_parts() {
    let c: Closure<_, _, _> = Closure::new(|x: u32| x * 2);
    assert_send(&c);
    assert_sync(&c);
}
