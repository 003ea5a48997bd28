use vstd::prelude::*;

verus! {

/// The outcome of one parse attempt.
///
/// A parse either succeeds with a value, fails silently (no payload),
/// or fails carrying a diagnostic value.
#[derive(Debug, PartialEq, Eq)]
pub enum Response<V, E> {
    Success(V),
    Failure,
    Error(E),
}

impl<V, E> Response<V, E> {
    /// The response narrowed by `keep`: a success whose value `keep` rejects
    /// becomes a silent failure; everything else stays as it is.
    pub open spec fn filtered(self, keep: spec_fn(V) -> bool) -> Self {
        match self {
            Response::Success(v) => if keep(v) {
                self
            } else {
                Response::Failure
            },
            _ => self,
        }
    }

    /// The response narrowed by `keep`: a success whose value `keep` rejects
    /// becomes a failure carrying `diagnostic`; everything else stays as it is.
    pub open spec fn filtered_or(self, keep: spec_fn(V) -> bool, diagnostic: E) -> Self {
        match self {
            Response::Success(v) => if keep(v) {
                self
            } else {
                Response::Error(diagnostic)
            },
            _ => self,
        }
    }

    pub fn is_success(&self) -> (r: bool)
        ensures
            r == (self is Success),
    {
        match self {
            Response::Success(_) => true,
            _ => false,
        }
    }

    /// Narrows a success by `pred`, failing silently when `pred` rejects its value.
    /// A failure is passed on unchanged and `pred` is not called.
    pub fn filter_response<F: Fn(&V) -> bool>(self, pred: F) -> (r: Self)
        requires
            self matches Response::Success(v) ==> pred.requires((&v,)),
        ensures
            match self {
                Response::Success(v) => {
                    ||| (pred.ensures((&v,), true) && r == self)
                    ||| (pred.ensures((&v,), false) && r == Response::<V, E>::Failure)
                },
                _ => r == self,
            },
    {
        match self {
            Response::Success(v) => {
                if pred(&v) {
                    Response::Success(v)
                } else {
                    Response::Failure
                }
            },
            other => other,
        }
    }

    /// Narrows a success by `pred`; when `pred` rejects its value, `make_error`
    /// is called once and its result becomes the failure's diagnostic.
    /// A failure is passed on unchanged and neither function is called.
    pub fn filter_response_or_else<F: Fn(&V) -> bool, R: Fn() -> E>(self, pred: F, make_error: &R) -> (r: Self)
        requires
            self matches Response::Success(v) ==> pred.requires((&v,)),
            make_error.requires(()),
        ensures
            match self {
                Response::Success(v) => {
                    ||| (pred.ensures((&v,), true) && r == self)
                    ||| (pred.ensures((&v,), false) && exists|e: E| make_error.ensures((), e) && r == Response::<V, E>::Error(e))
                },
                _ => r == self,
            },
    {
        match self {
            Response::Success(v) => {
                if pred(&v) {
                    Response::Success(v)
                } else {
                    Response::Error(make_error())
                }
            },
            other => other,
        }
    }
}

} // verus!
