use ffi_closure::cc::AsExtern;
use ffi_closure::Closure;

fn square(x: u32, _: &()) -> u32 {
    x * x
}

#[test]
fn export() {
    let sq: Closure<_, _, _> = Closure::new(|x: u32| x * x);
    let (f, user_data) = sq.as_extern_parts();
    let res = f.invoke((3,), user_data);
    assert_eq!(res, 9)
}

#[test]
fn import() {
    let mut sq: Closure<_, _, fn(())> = Closure::from_extern(square, (), None);
    assert_eq!(sq.call((3,)), 9);
}
