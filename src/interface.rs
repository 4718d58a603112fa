//! The transport contract and the operations derived from it.

use vstd::prelude::*;

use crate::register::{EditableRegister, ReadableRegister, Register, WritableRegister};

verus! {

/// How a transport reads and writes the registers of address type `A`.
///
/// A transport implements this once, generically over the registers it serves.
/// Its two methods are not bound by the permission tags: code that uses a
/// transport calls `read`, `write` and `edit` instead.
pub trait RegisterInterface<R, A>: Sized where R: Register<Address = A> {
    /// The error a raw read or write reports.
    type Error;

    /// The value the device holds at `R`'s address, as seen through this transport.
    ///
    /// A verified transport must define it to report success: the contracts of
    /// `read_register` and `write_register` speak of it, and with this default
    /// neither a successful read nor a successful write can be proved.
    open spec fn stored(&self) -> R {
        arbitrary()
    }

    /// Whether one raw read may take the transport from `self` to `after`,
    /// reporting `r`.
    ///
    /// With this default, any outcome of a read is admitted.
    open spec fn read_step(&self, after: &Self, r: Result<R, Self::Error>) -> bool {
        true
    }

    /// Whether one raw write of `value` may take the transport from `self` to
    /// `after`, reporting `r`.
    ///
    /// With this default, any outcome of a write is admitted.
    open spec fn write_step(&self, value: R, after: &Self, r: Result<(), Self::Error>) -> bool {
        true
    }

    /// Reads the register from the device.
    ///
    /// A value read is the one stored at call time; reading leaves it in place.
    fn read_register(&mut self) -> (r: Result<R, Self::Error>)
        ensures
            old(self).read_step(final(self), r),
            r matches Ok(v) ==> v == old(self).stored(),
            final(self).stored() == old(self).stored(),
    ;

    /// Writes the register to the device, replacing what it held.
    fn write_register(&mut self, register: &R) -> (r: Result<(), Self::Error>)
        ensures
            old(self).write_step(*register, final(self), r),
            r is Ok ==> final(self).stored() == *register,
    ;
}

/// One raw read, from `before` to `after`, reporting `r`: a value read is the
/// stored one, and the stored value stays.
pub open spec fn reads<I, R, A>(
    before: &I,
    after: &I,
    r: Result<R, <I as RegisterInterface<R, A>>::Error>,
) -> bool where I: RegisterInterface<R, A>, R: Register<Address = A> {
    &&& before.read_step(after, r)
    &&& r matches Ok(v) ==> v == before.stored()
    &&& after.stored() == before.stored()
}

/// One raw write of `value`, from `before` to `after`, reporting `r`: once it
/// succeeds, `value` is the stored value.
pub open spec fn writes<I, R, A>(
    before: &I,
    value: R,
    after: &I,
    r: Result<(), <I as RegisterInterface<R, A>>::Error>,
) -> bool where I: RegisterInterface<R, A>, R: Register<Address = A> {
    &&& before.write_step(value, after, r)
    &&& r is Ok ==> after.stored() == value
}

/// The step of an edit between its read and its write: the value to write,
/// or the read's error.
///
/// On an error `f` is not called. On a value, `f` changes it in place and the
/// changed value is returned.
pub fn apply_edit<R, E, F>(read: Result<R, E>, f: F) -> (next: Result<R, E>) where
    F: FnOnce(&mut R),

    requires
        read matches Ok(v) ==> forall|m: &mut R| *m == v ==> f.requires((m,)),
    ensures
        read matches Err(e) ==> next == Err::<R, E>(e),
        read matches Ok(v) ==> exists|m: &mut R|
            *m == v && f.ensures((m,), ()) && next == Ok::<R, E>(*final(m)),
{
    match read {
        Ok(v) => {
            let mut val = v;
            f(&mut val);
            Ok(val)
        },
        Err(e) => Err(e),
    }
}

/// Reading a register, for the registers that permit it.
pub trait ReadRegister<R, A>: RegisterInterface<R, A> where R: ReadableRegister<Address = A> {
    /// Reads the register: one raw read, its result unchanged.
    fn read(&mut self) -> (r: Result<R, <Self as RegisterInterface<R, A>>::Error>)
        ensures
            reads::<Self, R, A>(old(self), final(self), r),
    ;
}

/// Writing a register, for the registers that permit it.
pub trait WriteRegister<R, A>: RegisterInterface<R, A> where R: WritableRegister<Address = A> {
    /// Writes the register: one raw write of `register`, its result unchanged.
    fn write(&mut self, register: R) -> (r: Result<(), <Self as RegisterInterface<R, A>>::Error>)
        ensures
            writes::<Self, R, A>(old(self), register, final(self), r),
    ;
}

/// Read-modify-write of a register, for the registers that permit it.
///
/// Useful where a register keeps reserved bits: only what was read is written
/// back, as changed by the caller.
pub trait EditRegister<R, A>: RegisterInterface<R, A> where R: EditableRegister<Address = A> {
    /// Edits the register: one raw read, `f` on the value read, one raw write
    /// of the changed value, whose result is reported.
    ///
    /// A failed read ends the edit: its error is reported, `f` never runs and
    /// nothing is written.
    fn edit<F>(&mut self, f: F) -> (r: Result<(), <Self as RegisterInterface<R, A>>::Error>) where
        F: FnOnce(&mut R),

        requires
            forall|m: &mut R| *m == old(self).stored() ==> f.requires((m,)),
        ensures
            (exists|e: <Self as RegisterInterface<R, A>>::Error|
                reads::<Self, R, A>(old(self), final(self), Err(e)) && r == Err::<(), _>(e))
            || (exists|mid: Self, m: &mut R|
                {
                    &&& reads::<Self, R, A>(old(self), &mid, Ok(*m))
                    &&& f.ensures((m,), ())
                    &&& writes::<Self, R, A>(&mid, *final(m), final(self), r)
                }),
    ;
}

impl<I, R, A> ReadRegister<R, A> for I where
    R: ReadableRegister<Address = A>,
    I: RegisterInterface<R, A>,
 {
    fn read(&mut self) -> (r: Result<R, <Self as RegisterInterface<R, A>>::Error>) {
        self.read_register()
    }
}

impl<I, R, A> WriteRegister<R, A> for I where
    R: WritableRegister<Address = A>,
    I: RegisterInterface<R, A>,
 {
    fn write(&mut self, register: R) -> (r: Result<(), <Self as RegisterInterface<R, A>>::Error>) {
        self.write_register(&register)
    }
}

impl<I, R, A> EditRegister<R, A> for I where
    R: EditableRegister<Address = A>,
    I: RegisterInterface<R, A>,
 {
    fn edit<F>(&mut self, f: F) -> (r: Result<(), <Self as RegisterInterface<R, A>>::Error>) where
        F: FnOnce(&mut R),
     {
        let ghost before = *self;
        let read = self.read_register();
        let ghost mid = *self;
        let ghost read_value = read;
        match apply_edit(read, f) {
            Ok(val) => {
                let r = self.write_register(&val);
                proof {
                    let m = choose|m: &mut R|
                        *m == read_value->Ok_0 && f.ensures((m,), ()) && val == *final(m);
                    assert(reads::<Self, R, A>(&before, &mid, Ok(*m)));
                    assert(writes::<Self, R, A>(&mid, *final(m), self, r));
                }
                r
            },
            Err(e) => {
                assert(reads::<Self, R, A>(&before, self, Err(e)));
                Err(e)
            },
        }
    }
}

} // verus!
