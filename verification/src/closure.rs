//! Callables of fixed arity, zero to ten values.
//!
//! A slot stores a closure behind the trait [`Callback`], one instance of the
//! trait per arity: `Callback<()>`, `Callback<(V,)>`, `Callback<(V, V)>` and
//! so on. A closure enters through one of the adapters `Closure0` to
//! `Closure10`, whose constructor demands that the closure accept every
//! argument: the values come from the host, and the registry cannot choose
//! them.
//!
//! The call of the closure itself, in `run_0` to `run_10`, is taken on trust:
//! it says of the call what a closure's own contract says of it. Everything
//! around it is proved.
use core::marker::PhantomData;
use vstd::prelude::*;

verus! {

/// Something that can be run on an argument tuple of type `Args`, any number
/// of times, with exclusive access for the length of each run.
pub trait Callback<Args>: Send {
    /// What one run on `args` establishes: for a closure, its own
    /// postcondition on exactly these arguments.
    spec fn runs(&self, args: Args) -> bool;

    /// Runs the callable once on `args`.
    fn call(&mut self, args: Args)
        ensures
            old(self).runs(args),
    ;
}

/// A closure without arguments that may always be called.
pub struct Closure0<F: FnMut()> {
    f: F,
}

impl<F: FnMut()> Closure0<F> {
    #[verifier::type_invariant]
    spec fn total(self) -> bool {
        call_requires(self.f, ())
    }

    /// The closure held.
    pub closed spec fn func(self) -> F {
        self.f
    }

    /// Wraps `f`, which must accept every argument.
    pub fn new(f: F) -> (c: Self)
        requires
            call_requires(f, ()),
        ensures
            c.func() == f,
    {
        Closure0 { f }
    }
}

/// `FnMut::call_mut` on the closure held: one call, on the arguments in the
/// order given. After it the closure's postcondition holds of these arguments,
/// and the closure, whatever it has changed in what it captured, still accepts
/// every argument.
#[verifier::external_body]
fn run_0<F: FnMut()>(c: &mut Closure0<F>)
    requires
        call_requires(old(c).func(), ()),
    ensures
        call_ensures(old(c).func(), (), ()),
        call_requires(final(c).func(), ()),
{
    (c.f)()
}

impl<F: FnMut() + Send> Callback<()> for Closure0<F> {
    open spec fn runs(&self, args: ()) -> bool {
        call_ensures(self.func(), args, ())
    }

    fn call(&mut self, args: ()) {
        proof {
            use_type_invariant(&*self);
        }
        run_0(self);
    }
}

/// A closure of one argument that accepts every value.
pub struct Closure1<V, F: FnMut(V)> {
    f: F,
    _v: PhantomData<V>,
}

impl<V, F: FnMut(V)> Closure1<V, F> {
    #[verifier::type_invariant]
    spec fn total(self) -> bool {
        forall|v0: V| call_requires(self.f, (v0,))
    }

    /// The closure held.
    pub closed spec fn func(self) -> F {
        self.f
    }

    /// Wraps `f`, which must accept every argument.
    pub fn new(f: F) -> (c: Self)
        requires
            forall|v0: V| call_requires(f, (v0,)),
        ensures
            c.func() == f,
    {
        Closure1 { f, _v: PhantomData }
    }
}

/// `FnMut::call_mut` on the closure held: one call, on the arguments in the
/// order given. After it the closure's postcondition holds of these arguments,
/// and the closure, whatever it has changed in what it captured, still accepts
/// every argument.
#[verifier::external_body]
fn run_1<V, F: FnMut(V)>(c: &mut Closure1<V, F>, a0: V)
    requires
        call_requires(old(c).func(), (a0,)),
    ensures
        call_ensures(old(c).func(), (a0,), ()),
        forall|v0: V| call_requires(final(c).func(), (v0,)),
{
    (c.f)(a0)
}

impl<V: Send, F: FnMut(V) + Send> Callback<(V,)> for Closure1<V, F> {
    open spec fn runs(&self, args: (V,)) -> bool {
        call_ensures(self.func(), args, ())
    }

    fn call(&mut self, args: (V,)) {
        proof {
            use_type_invariant(&*self);
        }
        run_1(self, args.0);
    }
}

/// A closure of two arguments that accepts every two values.
pub struct Closure2<V, F: FnMut(V, V)> {
    f: F,
    _v: PhantomData<V>,
}

impl<V, F: FnMut(V, V)> Closure2<V, F> {
    #[verifier::type_invariant]
    spec fn total(self) -> bool {
        forall|v0: V, v1: V| call_requires(self.f, (v0, v1))
    }

    /// The closure held.
    pub closed spec fn func(self) -> F {
        self.f
    }

    /// Wraps `f`, which must accept every argument.
    pub fn new(f: F) -> (c: Self)
        requires
            forall|v0: V, v1: V| call_requires(f, (v0, v1)),
        ensures
            c.func() == f,
    {
        Closure2 { f, _v: PhantomData }
    }
}

/// `FnMut::call_mut` on the closure held: one call, on the arguments in the
/// order given. After it the closure's postcondition holds of these arguments,
/// and the closure, whatever it has changed in what it captured, still accepts
/// every argument.
#[verifier::external_body]
fn run_2<V, F: FnMut(V, V)>(c: &mut Closure2<V, F>, a0: V, a1: V)
    requires
        call_requires(old(c).func(), (a0, a1)),
    ensures
        call_ensures(old(c).func(), (a0, a1), ()),
        forall|v0: V, v1: V| call_requires(final(c).func(), (v0, v1)),
{
    (c.f)(a0, a1)
}

impl<V: Send, F: FnMut(V, V) + Send> Callback<(V, V)> for Closure2<V, F> {
    open spec fn runs(&self, args: (V, V)) -> bool {
        call_ensures(self.func(), args, ())
    }

    fn call(&mut self, args: (V, V)) {
        proof {
            use_type_invariant(&*self);
        }
        run_2(self, args.0, args.1);
    }
}

/// A closure of three arguments that accepts every three values.
pub struct Closure3<V, F: FnMut(V, V, V)> {
    f: F,
    _v: PhantomData<V>,
}

impl<V, F: FnMut(V, V, V)> Closure3<V, F> {
    #[verifier::type_invariant]
    spec fn total(self) -> bool {
        forall|v0: V, v1: V, v2: V| call_requires(self.f, (v0, v1, v2))
    }

    /// The closure held.
    pub closed spec fn func(self) -> F {
        self.f
    }

    /// Wraps `f`, which must accept every argument.
    pub fn new(f: F) -> (c: Self)
        requires
            forall|v0: V, v1: V, v2: V| call_requires(f, (v0, v1, v2)),
        ensures
            c.func() == f,
    {
        Closure3 { f, _v: PhantomData }
    }
}

/// `FnMut::call_mut` on the closure held: one call, on the arguments in the
/// order given. After it the closure's postcondition holds of these arguments,
/// and the closure, whatever it has changed in what it captured, still accepts
/// every argument.
#[verifier::external_body]
fn run_3<V, F: FnMut(V, V, V)>(c: &mut Closure3<V, F>, a0: V, a1: V, a2: V)
    requires
        call_requires(old(c).func(), (a0, a1, a2)),
    ensures
        call_ensures(old(c).func(), (a0, a1, a2), ()),
        forall|v0: V, v1: V, v2: V| call_requires(final(c).func(), (v0, v1, v2)),
{
    (c.f)(a0, a1, a2)
}

impl<V: Send, F: FnMut(V, V, V) + Send> Callback<(V, V, V)> for Closure3<V, F> {
    open spec fn runs(&self, args: (V, V, V)) -> bool {
        call_ensures(self.func(), args, ())
    }

    fn call(&mut self, args: (V, V, V)) {
        proof {
            use_type_invariant(&*self);
        }
        run_3(self, args.0, args.1, args.2);
    }
}

/// A closure of four arguments that accepts every four values.
pub struct Closure4<V, F: FnMut(V, V, V, V)> {
    f: F,
    _v: PhantomData<V>,
}

impl<V, F: FnMut(V, V, V, V)> Closure4<V, F> {
    #[verifier::type_invariant]
    spec fn total(self) -> bool {
        forall|v0: V, v1: V, v2: V, v3: V| call_requires(self.f, (v0, v1, v2, v3))
    }

    /// The closure held.
    pub closed spec fn func(self) -> F {
        self.f
    }

    /// Wraps `f`, which must accept every argument.
    pub fn new(f: F) -> (c: Self)
        requires
            forall|v0: V, v1: V, v2: V, v3: V| call_requires(f, (v0, v1, v2, v3)),
        ensures
            c.func() == f,
    {
        Closure4 { f, _v: PhantomData }
    }
}

/// `FnMut::call_mut` on the closure held: one call, on the arguments in the
/// order given. After it the closure's postcondition holds of these arguments,
/// and the closure, whatever it has changed in what it captured, still accepts
/// every argument.
#[verifier::external_body]
fn run_4<V, F: FnMut(V, V, V, V)>(c: &mut Closure4<V, F>, a0: V, a1: V, a2: V, a3: V)
    requires
        call_requires(old(c).func(), (a0, a1, a2, a3)),
    ensures
        call_ensures(old(c).func(), (a0, a1, a2, a3), ()),
        forall|v0: V, v1: V, v2: V, v3: V| call_requires(final(c).func(), (v0, v1, v2, v3)),
{
    (c.f)(a0, a1, a2, a3)
}

impl<V: Send, F: FnMut(V, V, V, V) + Send> Callback<(V, V, V, V)> for Closure4<V, F> {
    open spec fn runs(&self, args: (V, V, V, V)) -> bool {
        call_ensures(self.func(), args, ())
    }

    fn call(&mut self, args: (V, V, V, V)) {
        proof {
            use_type_invariant(&*self);
        }
        run_4(self, args.0, args.1, args.2, args.3);
    }
}

/// A closure of five arguments that accepts every five values.
pub struct Closure5<V, F: FnMut(V, V, V, V, V)> {
    f: F,
    _v: PhantomData<V>,
}

impl<V, F: FnMut(V, V, V, V, V)> Closure5<V, F> {
    #[verifier::type_invariant]
    spec fn total(self) -> bool {
        forall|v0: V, v1: V, v2: V, v3: V, v4: V| call_requires(self.f, (v0, v1, v2, v3, v4))
    }

    /// The closure held.
    pub closed spec fn func(self) -> F {
        self.f
    }

    /// Wraps `f`, which must accept every argument.
    pub fn new(f: F) -> (c: Self)
        requires
            forall|v0: V, v1: V, v2: V, v3: V, v4: V| call_requires(f, (v0, v1, v2, v3, v4)),
        ensures
            c.func() == f,
    {
        Closure5 { f, _v: PhantomData }
    }
}

/// `FnMut::call_mut` on the closure held: one call, on the arguments in the
/// order given. After it the closure's postcondition holds of these arguments,
/// and the closure, whatever it has changed in what it captured, still accepts
/// every argument.
#[verifier::external_body]
fn run_5<V, F: FnMut(V, V, V, V, V)>(c: &mut Closure5<V, F>, a0: V, a1: V, a2: V, a3: V, a4: V)
    requires
        call_requires(old(c).func(), (a0, a1, a2, a3, a4)),
    ensures
        call_ensures(old(c).func(), (a0, a1, a2, a3, a4), ()),
        forall|v0: V, v1: V, v2: V, v3: V, v4: V|
            call_requires(final(c).func(), (v0, v1, v2, v3, v4)),
{
    (c.f)(a0, a1, a2, a3, a4)
}

impl<V: Send, F: FnMut(V, V, V, V, V) + Send> Callback<(V, V, V, V, V)> for Closure5<V, F> {
    open spec fn runs(&self, args: (V, V, V, V, V)) -> bool {
        call_ensures(self.func(), args, ())
    }

    fn call(&mut self, args: (V, V, V, V, V)) {
        proof {
            use_type_invariant(&*self);
        }
        run_5(self, args.0, args.1, args.2, args.3, args.4);
    }
}

/// A closure of six arguments that accepts every six values.
pub struct Closure6<V, F: FnMut(V, V, V, V, V, V)> {
    f: F,
    _v: PhantomData<V>,
}

impl<V, F: FnMut(V, V, V, V, V, V)> Closure6<V, F> {
    #[verifier::type_invariant]
    spec fn total(self) -> bool {
        forall|v0: V, v1: V, v2: V, v3: V, v4: V, v5: V|
            call_requires(self.f, (v0, v1, v2, v3, v4, v5))
    }

    /// The closure held.
    pub closed spec fn func(self) -> F {
        self.f
    }

    /// Wraps `f`, which must accept every argument.
    pub fn new(f: F) -> (c: Self)
        requires
            forall|v0: V, v1: V, v2: V, v3: V, v4: V, v5: V|
                call_requires(f, (v0, v1, v2, v3, v4, v5)),
        ensures
            c.func() == f,
    {
        Closure6 { f, _v: PhantomData }
    }
}

/// `FnMut::call_mut` on the closure held: one call, on the arguments in the
/// order given. After it the closure's postcondition holds of these arguments,
/// and the closure, whatever it has changed in what it captured, still accepts
/// every argument.
#[verifier::external_body]
fn run_6<V, F: FnMut(V, V, V, V, V, V)>(
    c: &mut Closure6<V, F>,
    a0: V,
    a1: V,
    a2: V,
    a3: V,
    a4: V,
    a5: V,
)
    requires
        call_requires(old(c).func(), (a0, a1, a2, a3, a4, a5)),
    ensures
        call_ensures(old(c).func(), (a0, a1, a2, a3, a4, a5), ()),
        forall|v0: V, v1: V, v2: V, v3: V, v4: V, v5: V|
            call_requires(final(c).func(), (v0, v1, v2, v3, v4, v5)),
{
    (c.f)(a0, a1, a2, a3, a4, a5)
}

impl<V: Send, F: FnMut(V, V, V, V, V, V) + Send> Callback<(V, V, V, V, V, V)> for Closure6<V, F> {
    open spec fn runs(&self, args: (V, V, V, V, V, V)) -> bool {
        call_ensures(self.func(), args, ())
    }

    fn call(&mut self, args: (V, V, V, V, V, V)) {
        proof {
            use_type_invariant(&*self);
        }
        run_6(self, args.0, args.1, args.2, args.3, args.4, args.5);
    }
}

/// A closure of seven arguments that accepts every seven values.
pub struct Closure7<V, F: FnMut(V, V, V, V, V, V, V)> {
    f: F,
    _v: PhantomData<V>,
}

impl<V, F: FnMut(V, V, V, V, V, V, V)> Closure7<V, F> {
    #[verifier::type_invariant]
    spec fn total(self) -> bool {
        forall|v0: V, v1: V, v2: V, v3: V, v4: V, v5: V, v6: V|
            call_requires(self.f, (v0, v1, v2, v3, v4, v5, v6))
    }

    /// The closure held.
    pub closed spec fn func(self) -> F {
        self.f
    }

    /// Wraps `f`, which must accept every argument.
    pub fn new(f: F) -> (c: Self)
        requires
            forall|v0: V, v1: V, v2: V, v3: V, v4: V, v5: V, v6: V|
                call_requires(f, (v0, v1, v2, v3, v4, v5, v6)),
        ensures
            c.func() == f,
    {
        Closure7 { f, _v: PhantomData }
    }
}

/// `FnMut::call_mut` on the closure held: one call, on the arguments in the
/// order given. After it the closure's postcondition holds of these arguments,
/// and the closure, whatever it has changed in what it captured, still accepts
/// every argument.
#[verifier::external_body]
fn run_7<V, F: FnMut(V, V, V, V, V, V, V)>(
    c: &mut Closure7<V, F>,
    a0: V,
    a1: V,
    a2: V,
    a3: V,
    a4: V,
    a5: V,
    a6: V,
)
    requires
        call_requires(old(c).func(), (a0, a1, a2, a3, a4, a5, a6)),
    ensures
        call_ensures(old(c).func(), (a0, a1, a2, a3, a4, a5, a6), ()),
        forall|v0: V, v1: V, v2: V, v3: V, v4: V, v5: V, v6: V|
            call_requires(final(c).func(), (v0, v1, v2, v3, v4, v5, v6)),
{
    (c.f)(a0, a1, a2, a3, a4, a5, a6)
}

impl<V: Send, F: FnMut(V, V, V, V, V, V, V) + Send> Callback<
    (V, V, V, V, V, V, V),
> for Closure7<V, F> {
    open spec fn runs(&self, args: (V, V, V, V, V, V, V)) -> bool {
        call_ensures(self.func(), args, ())
    }

    fn call(&mut self, args: (V, V, V, V, V, V, V)) {
        proof {
            use_type_invariant(&*self);
        }
        run_7(self, args.0, args.1, args.2, args.3, args.4, args.5, args.6);
    }
}

/// A closure of eight arguments that accepts every eight values.
pub struct Closure8<V, F: FnMut(V, V, V, V, V, V, V, V)> {
    f: F,
    _v: PhantomData<V>,
}

impl<V, F: FnMut(V, V, V, V, V, V, V, V)> Closure8<V, F> {
    #[verifier::type_invariant]
    spec fn total(self) -> bool {
        forall|v0: V, v1: V, v2: V, v3: V, v4: V, v5: V, v6: V, v7: V|
            call_requires(self.f, (v0, v1, v2, v3, v4, v5, v6, v7))
    }

    /// The closure held.
    pub closed spec fn func(self) -> F {
        self.f
    }

    /// Wraps `f`, which must accept every argument.
    pub fn new(f: F) -> (c: Self)
        requires
            forall|v0: V, v1: V, v2: V, v3: V, v4: V, v5: V, v6: V, v7: V|
                call_requires(f, (v0, v1, v2, v3, v4, v5, v6, v7)),
        ensures
            c.func() == f,
    {
        Closure8 { f, _v: PhantomData }
    }
}

/// `FnMut::call_mut` on the closure held: one call, on the arguments in the
/// order given. After it the closure's postcondition holds of these arguments,
/// and the closure, whatever it has changed in what it captured, still accepts
/// every argument.
#[verifier::external_body]
fn run_8<V, F: FnMut(V, V, V, V, V, V, V, V)>(
    c: &mut Closure8<V, F>,
    a0: V,
    a1: V,
    a2: V,
    a3: V,
    a4: V,
    a5: V,
    a6: V,
    a7: V,
)
    requires
        call_requires(old(c).func(), (a0, a1, a2, a3, a4, a5, a6, a7)),
    ensures
        call_ensures(old(c).func(), (a0, a1, a2, a3, a4, a5, a6, a7), ()),
        forall|v0: V, v1: V, v2: V, v3: V, v4: V, v5: V, v6: V, v7: V|
            call_requires(final(c).func(), (v0, v1, v2, v3, v4, v5, v6, v7)),
{
    (c.f)(a0, a1, a2, a3, a4, a5, a6, a7)
}

impl<V: Send, F: FnMut(V, V, V, V, V, V, V, V) + Send> Callback<
    (V, V, V, V, V, V, V, V),
> for Closure8<V, F> {
    open spec fn runs(&self, args: (V, V, V, V, V, V, V, V)) -> bool {
        call_ensures(self.func(), args, ())
    }

    fn call(&mut self, args: (V, V, V, V, V, V, V, V)) {
        proof {
            use_type_invariant(&*self);
        }
        run_8(self, args.0, args.1, args.2, args.3, args.4, args.5, args.6, args.7);
    }
}

/// A closure of nine arguments that accepts every nine values.
pub struct Closure9<V, F: FnMut(V, V, V, V, V, V, V, V, V)> {
    f: F,
    _v: PhantomData<V>,
}

impl<V, F: FnMut(V, V, V, V, V, V, V, V, V)> Closure9<V, F> {
    #[verifier::type_invariant]
    spec fn total(self) -> bool {
        forall|v0: V, v1: V, v2: V, v3: V, v4: V, v5: V, v6: V, v7: V, v8: V|
            call_requires(self.f, (v0, v1, v2, v3, v4, v5, v6, v7, v8))
    }

    /// The closure held.
    pub closed spec fn func(self) -> F {
        self.f
    }

    /// Wraps `f`, which must accept every argument.
    pub fn new(f: F) -> (c: Self)
        requires
            forall|v0: V, v1: V, v2: V, v3: V, v4: V, v5: V, v6: V, v7: V, v8: V|
                call_requires(f, (v0, v1, v2, v3, v4, v5, v6, v7, v8)),
        ensures
            c.func() == f,
    {
        Closure9 { f, _v: PhantomData }
    }
}

/// `FnMut::call_mut` on the closure held: one call, on the arguments in the
/// order given. After it the closure's postcondition holds of these arguments,
/// and the closure, whatever it has changed in what it captured, still accepts
/// every argument.
#[verifier::external_body]
fn run_9<V, F: FnMut(V, V, V, V, V, V, V, V, V)>(
    c: &mut Closure9<V, F>,
    a0: V,
    a1: V,
    a2: V,
    a3: V,
    a4: V,
    a5: V,
    a6: V,
    a7: V,
    a8: V,
)
    requires
        call_requires(old(c).func(), (a0, a1, a2, a3, a4, a5, a6, a7, a8)),
    ensures
        call_ensures(old(c).func(), (a0, a1, a2, a3, a4, a5, a6, a7, a8), ()),
        forall|v0: V, v1: V, v2: V, v3: V, v4: V, v5: V, v6: V, v7: V, v8: V|
            call_requires(final(c).func(), (v0, v1, v2, v3, v4, v5, v6, v7, v8)),
{
    (c.f)(a0, a1, a2, a3, a4, a5, a6, a7, a8)
}

impl<V: Send, F: FnMut(V, V, V, V, V, V, V, V, V) + Send> Callback<
    (V, V, V, V, V, V, V, V, V),
> for Closure9<V, F> {
    open spec fn runs(&self, args: (V, V, V, V, V, V, V, V, V)) -> bool {
        call_ensures(self.func(), args, ())
    }

    fn call(&mut self, args: (V, V, V, V, V, V, V, V, V)) {
        proof {
            use_type_invariant(&*self);
        }
        run_9(self, args.0, args.1, args.2, args.3, args.4, args.5, args.6, args.7, args.8);
    }
}

/// A closure of ten arguments that accepts every ten values.
pub struct Closure10<V, F: FnMut(V, V, V, V, V, V, V, V, V, V)> {
    f: F,
    _v: PhantomData<V>,
}

impl<V, F: FnMut(V, V, V, V, V, V, V, V, V, V)> Closure10<V, F> {
    #[verifier::type_invariant]
    spec fn total(self) -> bool {
        forall|v0: V, v1: V, v2: V, v3: V, v4: V, v5: V, v6: V, v7: V, v8: V, v9: V|
            call_requires(self.f, (v0, v1, v2, v3, v4, v5, v6, v7, v8, v9))
    }

    /// The closure held.
    pub closed spec fn func(self) -> F {
        self.f
    }

    /// Wraps `f`, which must accept every argument.
    pub fn new(f: F) -> (c: Self)
        requires
            forall|v0: V, v1: V, v2: V, v3: V, v4: V, v5: V, v6: V, v7: V, v8: V, v9: V|
                call_requires(f, (v0, v1, v2, v3, v4, v5, v6, v7, v8, v9)),
        ensures
            c.func() == f,
    {
        Closure10 { f, _v: PhantomData }
    }
}

/// `FnMut::call_mut` on the closure held: one call, on the arguments in the
/// order given. After it the closure's postcondition holds of these arguments,
/// and the closure, whatever it has changed in what it captured, still accepts
/// every argument.
#[verifier::external_body]
fn run_10<V, F: FnMut(V, V, V, V, V, V, V, V, V, V)>(
    c: &mut Closure10<V, F>,
    a0: V,
    a1: V,
    a2: V,
    a3: V,
    a4: V,
    a5: V,
    a6: V,
    a7: V,
    a8: V,
    a9: V,
)
    requires
        call_requires(old(c).func(), (a0, a1, a2, a3, a4, a5, a6, a7, a8, a9)),
    ensures
        call_ensures(old(c).func(), (a0, a1, a2, a3, a4, a5, a6, a7, a8, a9), ()),
        forall|v0: V, v1: V, v2: V, v3: V, v4: V, v5: V, v6: V, v7: V, v8: V, v9: V|
            call_requires(final(c).func(), (v0, v1, v2, v3, v4, v5, v6, v7, v8, v9)),
{
    (c.f)(a0, a1, a2, a3, a4, a5, a6, a7, a8, a9)
}

impl<V: Send, F: FnMut(V, V, V, V, V, V, V, V, V, V) + Send> Callback<
    (V, V, V, V, V, V, V, V, V, V),
> for Closure10<V, F> {
    open spec fn runs(&self, args: (V, V, V, V, V, V, V, V, V, V)) -> bool {
        call_ensures(self.func(), args, ())
    }

    fn call(&mut self, args: (V, V, V, V, V, V, V, V, V, V)) {
        proof {
            use_type_invariant(&*self);
        }
        run_10(
            self,
            args.0,
            args.1,
            args.2,
            args.3,
            args.4,
            args.5,
            args.6,
            args.7,
            args.8,
            args.9,
        );
    }
}

} // verus!
