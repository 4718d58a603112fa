//! Laws that tie the register operations together.

use vstd::prelude::*;

use crate::interface::{reads, writes, RegisterInterface};
use crate::register::Register;

verus! {

/// Round trip: once a write of `value` has succeeded, a read that succeeds
/// next returns `value`.
pub proof fn write_then_read<I, R, A>(before: &I, value: R, between: &I, after: &I, got: R) where
    I: RegisterInterface<R, A>,
    R: Register<Address = A>,

    requires
        writes::<I, R, A>(before, value, between, Ok(())),
        reads::<I, R, A>(between, after, Ok(got)),
    ensures
        got == value,
{
}

/// A read, `f` on the value read, and a write of the changed value, in this
/// order, make an outcome that `edit(f)` allows: `edit` admits every outcome
/// of that sequence, as its own contract admits no other.
pub proof fn read_transform_write_is_edit<I, R, A, F>(
    before: &I,
    f: F,
    between: &I,
    read_value: R,
    written: R,
    after: &I,
    r: Result<(), <I as RegisterInterface<R, A>>::Error>,
) where I: RegisterInterface<R, A>, R: Register<Address = A>, F: FnOnce(&mut R)
    requires
        reads::<I, R, A>(before, between, Ok(read_value)),
        exists|m: &mut R| *m == read_value && *final(m) == written && f.ensures((m,), ()),
        writes::<I, R, A>(between, written, after, r),
    ensures
        (exists|e: <I as RegisterInterface<R, A>>::Error|
            reads::<I, R, A>(before, after, Err(e)) && r == Err::<(), _>(e))
        || (exists|mid: I, m: &mut R|
            {
                &&& reads::<I, R, A>(before, &mid, Ok(*m))
                &&& f.ensures((m,), ())
                &&& writes::<I, R, A>(&mid, *final(m), after, r)
            }),
{
    let m = choose|m: &mut R| *m == read_value && *final(m) == written && f.ensures((m,), ());
    assert(reads::<I, R, A>(before, between, Ok(*m)));
}

/// Short circuit: where no read can succeed, an edit reports the error of its
/// failed read and leaves what that read left; `f` never ran and nothing was
/// written.
pub proof fn failed_read_ends_edit<I, R, A, F>(
    before: &I,
    f: F,
    after: &I,
    r: Result<(), <I as RegisterInterface<R, A>>::Error>,
) where I: RegisterInterface<R, A>, R: Register<Address = A>, F: FnOnce(&mut R)
    requires
        (exists|e: <I as RegisterInterface<R, A>>::Error|
            reads::<I, R, A>(before, after, Err(e)) && r == Err::<(), _>(e))
        || (exists|mid: I, m: &mut R|
            {
                &&& reads::<I, R, A>(before, &mid, Ok(*m))
                &&& f.ensures((m,), ())
                &&& writes::<I, R, A>(&mid, *final(m), after, r)
            }),
        forall|mid: I, v: R| !before.read_step(&mid, Ok(v)),
    ensures
        exists|e: <I as RegisterInterface<R, A>>::Error|
            reads::<I, R, A>(before, after, Err(e)) && r == Err::<(), _>(e),
        after.stored() == before.stored(),
{
}

/// After an edit that succeeded, the device holds what `f` made of the value
/// it held before.
pub proof fn edit_stores_transformed<I, R, A, F>(
    before: &I,
    f: F,
    after: &I,
    r: Result<(), <I as RegisterInterface<R, A>>::Error>,
) where I: RegisterInterface<R, A>, R: Register<Address = A>, F: FnOnce(&mut R)
    requires
        (exists|e: <I as RegisterInterface<R, A>>::Error|
            reads::<I, R, A>(before, after, Err(e)) && r == Err::<(), _>(e))
        || (exists|mid: I, m: &mut R|
            {
                &&& reads::<I, R, A>(before, &mid, Ok(*m))
                &&& f.ensures((m,), ())
                &&& writes::<I, R, A>(&mid, *final(m), after, r)
            }),
        r is Ok,
    ensures
        exists|m: &mut R|
            *m == before.stored() && f.ensures((m,), ()) && after.stored() == *final(m),
{
}

} // verus!
