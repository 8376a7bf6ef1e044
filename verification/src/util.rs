//! Helpers for fallible system interfaces that return values through
//! out-parameters.
use vstd::prelude::*;

verus! {

/// Runs `f` on a default-initialized out-parameter and returns the value it
/// leaves there, or the error it returns.
pub fn try_out_param<T, F, E, O>(mut f: F) -> (r: Result<T, E>)
    where
        T: Default,
        F: FnMut(&mut T) -> Result<O, E>,
    requires
        forall|t: &mut T| call_ensures(T::default, (), *t) ==> call_requires(f, (t,)),
    ensures
        r matches Ok(v) ==> exists|t: &mut T, o: O|
            call_ensures(T::default, (), *t) && mut_ref_future(t) == v && call_ensures(f, (t,), Ok::<O, E>(o)),
        r matches Err(e) ==> exists|t: &mut T| call_ensures(T::default, (), *t) && call_ensures(f, (t,), Err::<O, E>(e)),
{
    let mut t: T = T::default();
    match f(&mut t) {
        Ok(_) => Ok(t),
        Err(e) => Err(e),
    }
}

/// Runs `f` on an empty pointer out-parameter and returns the value it
/// leaves there, or the error it returns. `f` must fill the out-parameter
/// whenever it succeeds.
pub fn try_out_ptr<T, F, E, O>(mut f: F) -> (r: Result<T, E>)
    where
        F: FnMut(&mut Option<T>) -> Result<O, E>,
    requires
        forall|t: &mut Option<T>| *t == None::<T> ==> call_requires(f, (t,)),
        forall|t: &mut Option<T>, o: O|
            *t == None::<T> && #[trigger] call_ensures(f, (t,), Ok::<O, E>(o)) ==> mut_ref_future(t) is Some,
    ensures
        r matches Ok(v) ==> exists|t: &mut Option<T>, o: O|
            *t == None::<T> && mut_ref_future(t) == Some(v) && call_ensures(f, (t,), Ok::<O, E>(o)),
        r matches Err(e) ==> exists|t: &mut Option<T>| *t == None::<T> && call_ensures(f, (t,), Err::<O, E>(e)),
{
    let mut t: Option<T> = None;
    match f(&mut t) {
        Ok(_) => Ok(t.unwrap()),
        Err(e) => Err(e),
    }
}

/// Runs `f` on an empty pointer out-parameter and an empty error
/// out-parameter: returns the value left in the first on success, or the
/// error with the value left in the second. `f` must fill the first
/// out-parameter when it succeeds and the second when it fails.
pub fn try_out_err_blob<T1, T2, F, E, O>(mut f: F) -> (r: Result<T1, (E, T2)>)
    where
        F: FnMut(&mut Option<T1>, &mut Option<T2>) -> Result<O, E>,
    requires
        forall|t1: &mut Option<T1>, t2: &mut Option<T2>|
            *t1 == None::<T1> && *t2 == None::<T2> ==> call_requires(f, (t1, t2)),
        forall|t1: &mut Option<T1>, t2: &mut Option<T2>, res: Result<O, E>|
            *t1 == None::<T1> && *t2 == None::<T2> && #[trigger] call_ensures(f, (t1, t2), res)
                ==> (res is Ok ==> mut_ref_future(t1) is Some) && (res is Err ==> mut_ref_future(t2) is Some),
    ensures
        r matches Ok(v) ==> exists|t1: &mut Option<T1>, t2: &mut Option<T2>, o: O|
            *t1 == None::<T1> && *t2 == None::<T2> && mut_ref_future(t1) == Some(v)
                && call_ensures(f, (t1, t2), Ok::<O, E>(o)),
        r matches Err((e, b)) ==> exists|t1: &mut Option<T1>, t2: &mut Option<T2>, res: Result<O, E>|
            *t1 == None::<T1> && *t2 == None::<T2> && mut_ref_future(t2) == Some(b)
                && call_ensures(f, (t1, t2), res) && res == Err::<O, E>(e),
{
    let mut t1: Option<T1> = None;
    let mut t2: Option<T2> = None;
    match f(&mut t1, &mut t2) {
        Ok(_) => Ok(t1.unwrap()),
        Err(e) => {
            let b = t2.unwrap();
            Err((e, b))
        },
    }
}

/// Runs `f` on a default-initialized out-parameter and returns the value it
/// leaves there.
pub fn out_param<T: Default, F>(f: F) -> (r: T)
    where
        F: FnOnce(&mut T),
    requires
        forall|t: &mut T| call_ensures(T::default, (), *t) ==> call_requires(f, (t,)),
    ensures
        exists|t: &mut T| call_ensures(T::default, (), *t) && mut_ref_future(t) == r && call_ensures(f, (t,), ()),
{
    let mut val: T = T::default();
    f(&mut val);
    val
}

} // verus!
