use hudhook::util::{out_param, try_out_err_blob, try_out_param, try_out_ptr};

#[test]
fn out_param_returns_what_the_call_left() {
    let v: u32 = out_param(|x: &mut u32| *x = 42);
    assert_eq!(v, 42);
    let untouched: u32 = out_param(|_x: &mut u32| {});
    assert_eq!(untouched, 0);
}

#[test]
fn try_out_param_passes_values_and_errors() {
    let ok: Result<u32, i32> = try_out_param(|x: &mut u32| -> Result<(), i32> {
        *x = 7;
        Ok(())
    });
    assert_eq!(ok, Ok(7));
    let err: Result<u32, i32> = try_out_param(|x: &mut u32| -> Result<(), i32> {
        *x = 7;
        Err(-1)
    });
    assert_eq!(err, Err(-1));
}

#[test]
fn try_out_ptr_unwraps_the_filled_pointer() {
    let ok: Result<String, i32> = try_out_ptr(|x: &mut Option<String>| -> Result<(), i32> {
        *x = Some(String::from("device"));
        Ok(())
    });
    assert_eq!(ok, Ok(String::from("device")));
    let err: Result<String, i32> =
        try_out_ptr(|_x: &mut Option<String>| -> Result<(), i32> { Err(5) });
    assert_eq!(err, Err(5));
}

#[test]
fn try_out_err_blob_returns_the_blob_on_error() {
    let ok: Result<u8, (i32, String)> =
        try_out_err_blob(|a: &mut Option<u8>, _b: &mut Option<String>| -> Result<(), i32> {
            *a = Some(1);
            Ok(())
        });
    assert_eq!(ok, Ok(1));
    let err: Result<u8, (i32, String)> =
        try_out_err_blob(|_a: &mut Option<u8>, b: &mut Option<String>| -> Result<(), i32> {
            *b = Some(String::from("compile error"));
            Err(-2)
        });
    assert_eq!(err, Err((-2, String::from("compile error"))));
}

#[test]
fn out_param_starts_from_the_default() {
    let v: u32 = out_param(|x: &mut u32| *x += 7);
    assert_eq!(v, 7);
    let p: Result<u8, i32> = try_out_ptr(|x: &mut Option<u8>| -> Result<(), i32> {
        assert!(x.is_none());
        *x = Some(3);
        Ok(())
    });
    assert_eq!(p, Ok(3));
}
