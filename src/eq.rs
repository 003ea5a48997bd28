use vstd::prelude::*;

use crate::parser::Parser;
use crate::response::Response;
use vstd::std_specs::cmp::PartialEqSpec;

verus! {

/// The mode marker of a combinator that carries a diagnostic constructor:
/// on a failed comparison, the held function is called to build the error.
pub struct OrElse<Res, Diag>(Res, std::marker::PhantomData<Diag>);

impl<Res: Fn() -> Diag, Diag> OrElse<Res, Diag> {
    /// The held diagnostic constructor.
    pub closed spec fn constructor(&self) -> Res {
        self.0
    }

    /// The constructor may be called, and always builds the same diagnostic.
    pub open spec fn ready(&self) -> bool {
        &&& self.constructor().requires(())
        &&& forall|a: Diag, b: Diag|
            #![trigger self.constructor().ensures((), a), self.constructor().ensures((), b)]
            self.constructor().ensures((), a) && self.constructor().ensures((), b) ==> a == b
    }

    /// The diagnostic the constructor builds.
    pub open spec fn diagnostic(&self) -> Diag {
        choose|e: Diag| self.constructor().ensures((), e)
    }
}

/// A parser that checks the inner parser's value against a reference value.
///
/// `Mod` is `()` for silent failure or `OrElse` for a diagnostic on failure;
/// `I` is `false` to keep values equal to the reference and `true` to keep
/// those that differ from it.
#[must_use]
pub struct Eq<Par, Val, Mod, const I: bool> {
    parser: Par,
    value: Val,
    mode: Mod,
}

/// A parser that keeps the inner parser's values that differ from a reference value.
pub type Ne<Par, Val, Mod> = Eq<Par, Val, Mod, true>;

/// A parser that checks equality with a value, building an error on failure.
pub type EqOrElse<Par, Val, Res, Diag> = Eq<Par, Val, OrElse<Res, Diag>, false>;

/// A parser that checks inequality with a value, building an error on failure.
pub type NeOrElse<Par, Val, Res, Diag> = Eq<Par, Val, OrElse<Res, Diag>, true>;

impl<Par, Val, Mod, const I: bool> Eq<Par, Val, Mod, I> {
    /// The wrapped parser.
    pub closed spec fn inner(&self) -> Par {
        self.parser
    }

    /// The value that parsed values are compared with.
    pub closed spec fn reference(&self) -> Val {
        self.value
    }

    /// The mode marker.
    pub closed spec fn mode(&self) -> Mod {
        self.mode
    }
}

impl<Par: Parser, Val, Mod, const I: bool> Eq<Par, Val, Mod, I> where Par::Value: PartialEq<Val> {
    /// Whether a parsed value passes the comparison: equal to the reference,
    /// or, when `I` is set, different from it.
    pub open spec fn accepts(&self, v: Par::Value) -> bool {
        if I {
            !v.eq_spec(&self.reference())
        } else {
            v.eq_spec(&self.reference())
        }
    }

    /// What the comparison needs: the inner parser can run and `==` on
    /// parsed values follows its specification.
    pub open spec fn compare_ready(&self) -> bool {
        &&& self.inner().ready()
        &&& <Par::Value as PartialEqSpec<Val>>::obeys_eq_spec()
    }
}

impl<Par, Val, const I: bool> Eq<Par, Val, (), I> {
    /// A combinator over `parser` and `value` that fails silently.
    pub fn new(parser: Par, value: Val) -> (r: Self)
        where
            Par: Parser,
            Par::Value: PartialEq<Val>,
        ensures
            r.inner() == parser,
            r.reference() == value,
    {
        Self { parser, value, mode: () }
    }

    /// Attaches a diagnostic constructor, called when the comparison fails.
    /// The inner parser, reference value and direction are kept.
    pub fn or_else<Res, Diag>(self, f: Res) -> (r: Eq<Par, Val, OrElse<Res, Diag>, I>)
        where
            Res: Fn() -> Diag,
        ensures
            r.inner() == self.inner(),
            r.reference() == self.reference(),
            r.mode().constructor() == f,
    {
        Eq { parser: self.parser, value: self.value, mode: OrElse(f, std::marker::PhantomData) }
    }
}

impl<Par, Val, Mod> Eq<Par, Val, Mod, false> {
    /// Turns an equality check into an inequality check.
    /// The inner parser, reference value and mode are kept.
    pub fn not(self) -> (r: Ne<Par, Val, Mod>)
        ensures
            r.inner() == self.inner(),
            r.reference() == self.reference(),
            r.mode() == self.mode(),
    {
        Eq { parser: self.parser, value: self.value, mode: self.mode }
    }
}

impl<Par: Parser, Val> Parser for Eq<Par, Val, (), false> where Par::Value: PartialEq<Val> {
    type Input = Par::Input;
    type Value = Par::Value;
    type Error = Par::Error;

    open spec fn ready(&self) -> bool {
        self.compare_ready()
    }

    open spec fn spec_parse(&self, input: Par::Input) -> (Par::Input, Response<Par::Value, Par::Error>) {
        let (after, r) = self.inner().spec_parse(input);
        (after, r.filtered(|v: Par::Value| self.accepts(v)))
    }

    fn parse_stream(&self, input: &mut Par::Input) -> (r: Response<Par::Value, Par::Error>) {
        let value = &self.value;
        let keep = |v: &Par::Value| -> (b: bool)
            requires
                <Par::Value as PartialEqSpec<Val>>::obeys_eq_spec(),
            ensures
                b == v.eq_spec(value),
        {
            *v == *value
        };
        self.parser.parse_stream(input).filter_response(keep)
    }
}

impl<Par: Parser, Val> Parser for Eq<Par, Val, (), true> where Par::Value: PartialEq<Val> {
    type Input = Par::Input;
    type Value = Par::Value;
    type Error = Par::Error;

    open spec fn ready(&self) -> bool {
        self.compare_ready()
    }

    open spec fn spec_parse(&self, input: Par::Input) -> (Par::Input, Response<Par::Value, Par::Error>) {
        let (after, r) = self.inner().spec_parse(input);
        (after, r.filtered(|v: Par::Value| self.accepts(v)))
    }

    fn parse_stream(&self, input: &mut Par::Input) -> (r: Response<Par::Value, Par::Error>) {
        let value = &self.value;
        let keep = |v: &Par::Value| -> (b: bool)
            requires
                <Par::Value as PartialEqSpec<Val>>::obeys_eq_spec(),
            ensures
                b == !v.eq_spec(value),
        {
            *v != *value
        };
        self.parser.parse_stream(input).filter_response(keep)
    }
}

impl<Par, Val, Res, Diag> Parser for Eq<Par, Val, OrElse<Res, Diag>, false> where
    Par: Parser<Error = Diag>,
    Par::Value: PartialEq<Val>,
    Res: Fn() -> Diag,
{
    type Input = Par::Input;
    type Value = Par::Value;
    type Error = Par::Error;

    open spec fn ready(&self) -> bool {
        self.compare_ready() && self.mode().ready()
    }

    open spec fn spec_parse(&self, input: Par::Input) -> (Par::Input, Response<Par::Value, Par::Error>) {
        let (after, r) = self.inner().spec_parse(input);
        (after, r.filtered_or(|v: Par::Value| self.accepts(v), self.mode().diagnostic()))
    }

    fn parse_stream(&self, input: &mut Par::Input) -> (r: Response<Par::Value, Par::Error>) {
        let value = &self.value;
        let keep = |v: &Par::Value| -> (b: bool)
            requires
                <Par::Value as PartialEqSpec<Val>>::obeys_eq_spec(),
            ensures
                b == v.eq_spec(value),
        {
            *v == *value
        };
        self.parser.parse_stream(input).filter_response_or_else(keep, &self.mode.0)
    }
}

impl<Par, Val, Res, Diag> Parser for Eq<Par, Val, OrElse<Res, Diag>, true> where
    Par: Parser<Error = Diag>,
    Par::Value: PartialEq<Val>,
    Res: Fn() -> Diag,
{
    type Input = Par::Input;
    type Value = Par::Value;
    type Error = Par::Error;

    open spec fn ready(&self) -> bool {
        self.compare_ready() && self.mode().ready()
    }

    open spec fn spec_parse(&self, input: Par::Input) -> (Par::Input, Response<Par::Value, Par::Error>) {
        let (after, r) = self.inner().spec_parse(input);
        (after, r.filtered_or(|v: Par::Value| self.accepts(v), self.mode().diagnostic()))
    }

    fn parse_stream(&self, input: &mut Par::Input) -> (r: Response<Par::Value, Par::Error>) {
        let value = &self.value;
        let keep = |v: &Par::Value| -> (b: bool)
            requires
                <Par::Value as PartialEqSpec<Val>>::obeys_eq_spec(),
            ensures
                b == !v.eq_spec(value),
        {
            *v != *value
        };
        self.parser.parse_stream(input).filter_response_or_else(keep, &self.mode.0)
    }
}

/// Over an inner parse that succeeds with `v`, an equality check succeeds,
/// passing `v` on, exactly when `v` equals the reference, and an inequality
/// check over the same parser and reference exactly when it differs.
pub proof fn lemma_success_iff_comparison<Par: Parser, Val>(
    eq: Eq<Par, Val, (), false>,
    ne: Eq<Par, Val, (), true>,
    input: Par::Input,
    v: Par::Value,
) where Par::Value: PartialEq<Val>
    requires
        eq.inner().spec_parse(input).1 == Response::<Par::Value, Par::Error>::Success(v),
        ne.inner() == eq.inner(),
        ne.reference() == eq.reference(),
    ensures
        eq.spec_parse(input).1 is Success <==> v.eq_spec(&eq.reference()),
        ne.spec_parse(input).1 is Success <==> !v.eq_spec(&eq.reference()),
        eq.spec_parse(input).1 is Success ==> eq.spec_parse(input).1 == Response::<Par::Value, Par::Error>::Success(v),
        ne.spec_parse(input).1 is Success ==> ne.spec_parse(input).1 == Response::<Par::Value, Par::Error>::Success(v),
        !(eq.spec_parse(input).1 is Success) ==> eq.spec_parse(input).1 is Failure,
        !(ne.spec_parse(input).1 is Success) ==> ne.spec_parse(input).1 is Failure,
{
}

/// When the inner parser fails on its own, every variant of the check fails
/// in the same way, with the same stream state, as the inner parser.
pub proof fn lemma_structural_failure_passes_through<Par: Parser, Val, Res: Fn() -> Par::Error>(
    p: Par,
    eq: Eq<Par, Val, (), false>,
    ne: Eq<Par, Val, (), true>,
    eq_or: Eq<Par, Val, OrElse<Res, Par::Error>, false>,
    ne_or: Eq<Par, Val, OrElse<Res, Par::Error>, true>,
    input: Par::Input,
) where Par::Value: PartialEq<Val>
    requires
        !(p.spec_parse(input).1 is Success),
        eq.inner() == p,
        ne.inner() == p,
        eq_or.inner() == p,
        ne_or.inner() == p,
    ensures
        eq.spec_parse(input) == p.spec_parse(input),
        ne.spec_parse(input) == p.spec_parse(input),
        eq_or.spec_parse(input) == p.spec_parse(input),
        ne_or.spec_parse(input) == p.spec_parse(input),
{
}

/// With a diagnostic constructor attached, a failed comparison gives a
/// failure carrying the constructor's diagnostic, and a passed one gives the
/// inner success unchanged.
pub proof fn lemma_diagnostic_on_failed_comparison<Par: Parser, Val, Res: Fn() -> Par::Error>(
    eq_or: Eq<Par, Val, OrElse<Res, Par::Error>, false>,
    ne_or: Eq<Par, Val, OrElse<Res, Par::Error>, true>,
    input: Par::Input,
    v: Par::Value,
) where Par::Value: PartialEq<Val>
    requires
        eq_or.inner().spec_parse(input).1 == Response::<Par::Value, Par::Error>::Success(v),
        ne_or.inner().spec_parse(input).1 == Response::<Par::Value, Par::Error>::Success(v),
    ensures
        eq_or.spec_parse(input).1 == (if v.eq_spec(&eq_or.reference()) {
            Response::<Par::Value, Par::Error>::Success(v)
        } else {
            Response::<Par::Value, Par::Error>::Error(eq_or.mode().diagnostic())
        }),
        ne_or.spec_parse(input).1 == (if !v.eq_spec(&ne_or.reference()) {
            Response::<Par::Value, Par::Error>::Success(v)
        } else {
            Response::<Par::Value, Par::Error>::Error(ne_or.mode().diagnostic())
        }),
{
}

/// Attaching a diagnostic constructor keeps the check's outcome, but for a
/// failed comparison, which now carries the constructor's diagnostic in
/// place of the silent failure.
pub proof fn lemma_or_else_carries_diagnostic<Par: Parser, Val, Res: Fn() -> Par::Error>(
    eq: Eq<Par, Val, (), false>,
    eq_or: Eq<Par, Val, OrElse<Res, Par::Error>, false>,
    ne: Eq<Par, Val, (), true>,
    ne_or: Eq<Par, Val, OrElse<Res, Par::Error>, true>,
    input: Par::Input,
) where Par::Value: PartialEq<Val>
    requires
        eq_or.inner() == eq.inner(),
        eq_or.reference() == eq.reference(),
        ne_or.inner() == ne.inner(),
        ne_or.reference() == ne.reference(),
        eq_or.mode().constructor() == ne_or.mode().constructor(),
    ensures
        eq_or.spec_parse(input).0 == eq.spec_parse(input).0,
        ne_or.spec_parse(input).0 == ne.spec_parse(input).0,
        eq_or.spec_parse(input).1 == (if eq.inner().spec_parse(input).1 is Success
            && eq.spec_parse(input).1 is Failure {
            Response::<Par::Value, Par::Error>::Error(eq_or.mode().diagnostic())
        } else {
            eq.spec_parse(input).1
        }),
        ne_or.spec_parse(input).1 == (if ne.inner().spec_parse(input).1 is Success
            && ne.spec_parse(input).1 is Failure {
            Response::<Par::Value, Par::Error>::Error(ne_or.mode().diagnostic())
        } else {
            ne.spec_parse(input).1
        }),
{
}

/// Negating an equality check gives the inequality check over the same
/// parser and reference: over an inner success with `v`, it fails where the
/// equality check passes and passes `v` on where the equality check fails.
pub proof fn lemma_not_inverts<Par: Parser, Val>(
    eq: Eq<Par, Val, (), false>,
    ne: Eq<Par, Val, (), true>,
    input: Par::Input,
    v: Par::Value,
) where Par::Value: PartialEq<Val>
    requires
        eq.inner().spec_parse(input).1 == Response::<Par::Value, Par::Error>::Success(v),
        ne.inner() == eq.inner(),
        ne.reference() == eq.reference(),
        ne.mode() == eq.mode(),
    ensures
        eq.spec_parse(input).1 is Success ==> ne.spec_parse(input).1 is Failure,
        !(eq.spec_parse(input).1 is Success) ==> ne.spec_parse(input).1 == Response::<Par::Value, Par::Error>::Success(v),
        ne.spec_parse(input).0 == eq.spec_parse(input).0,
{
}

/// Negating an equality check that carries a diagnostic constructor keeps
/// the constructor: where the equality check passes `v` on, the negated
/// check fails with the same diagnostic, and where the equality check fails,
/// the negated check passes `v` on.
pub proof fn lemma_not_inverts_keeps_diagnostic<Par: Parser, Val, Res: Fn() -> Par::Error>(
    eq_or: Eq<Par, Val, OrElse<Res, Par::Error>, false>,
    ne_or: Eq<Par, Val, OrElse<Res, Par::Error>, true>,
    input: Par::Input,
    v: Par::Value,
) where Par::Value: PartialEq<Val>
    requires
        eq_or.inner().spec_parse(input).1 == Response::<Par::Value, Par::Error>::Success(v),
        ne_or.inner() == eq_or.inner(),
        ne_or.reference() == eq_or.reference(),
        ne_or.mode() == eq_or.mode(),
    ensures
        eq_or.spec_parse(input).1 is Success ==> ne_or.spec_parse(input).1 == Response::<Par::Value, Par::Error>::Error(eq_or.mode().diagnostic()),
        !(eq_or.spec_parse(input).1 is Success) ==> ne_or.spec_parse(input).1 == Response::<Par::Value, Par::Error>::Success(v),
        ne_or.spec_parse(input).0 == eq_or.spec_parse(input).0,
{
}

/// Whatever the comparison gives, every variant of the check leaves the
/// stream where the inner parser alone leaves it.
pub proof fn lemma_stream_as_inner<Par: Parser, Val, Res: Fn() -> Par::Error>(
    eq: Eq<Par, Val, (), false>,
    ne: Eq<Par, Val, (), true>,
    eq_or: Eq<Par, Val, OrElse<Res, Par::Error>, false>,
    ne_or: Eq<Par, Val, OrElse<Res, Par::Error>, true>,
    input: Par::Input,
) where Par::Value: PartialEq<Val>
    ensures
        eq.spec_parse(input).0 == eq.inner().spec_parse(input).0,
        ne.spec_parse(input).0 == ne.inner().spec_parse(input).0,
        eq_or.spec_parse(input).0 == eq_or.inner().spec_parse(input).0,
        ne_or.spec_parse(input).0 == ne_or.inner().spec_parse(input).0,
{
}

} // verus!
