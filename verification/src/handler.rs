//! The extraction and dispatch protocols: how a typed value is pulled out
//! of an event plus shared state, and how a function over extracted values
//! becomes one uniform `(event, state) -> response` callable.

use vstd::prelude::*;

use crate::interaction::{Interaction, InteractionView};
use crate::response::{IntoResponse, Response, ResponseView};

verus! {

/// A type that knows how to be extracted from an interaction event plus
/// shared state. Extractors may read the event but must hand it back
/// unchanged: cloning is the sanctioned way to take data out of it.
pub trait FromRequest<S>: Sized {
    /// What a failed extraction hands back; it must itself convert to a
    /// response.
    type Rejection: IntoResponse;

    /// The relation between the event and state handed in and the outcome
    /// handed back.
    spec fn extracted(req: InteractionView, state: S, r: Result<Self, Self::Rejection>) -> bool;

    fn from_request(req: &mut Interaction, state: &S) -> (r: Result<Self, Self::Rejection>)
        ensures
            *final(req) == *old(req),
            Self::extracted(old(req)@, *state, r),
    ;
}

/// A function whose parameters are all extractors, lifted into one uniform
/// dispatch: extract each parameter in declaration order, stop at the first
/// failure and convert it to a response, otherwise invoke the function and
/// convert its result. Implemented for functions of up to fifteen parameters;
/// the composition rule is the same at every arity, only the tuple size
/// changes.
pub trait Handler<S, R, A>: Sized {
    /// What dispatch asks of the underlying function: it must accept every
    /// argument tuple its extractors could produce.
    spec fn callable(self, req: InteractionView, state: S) -> bool;

    /// The relation between the event and state handed in and the response
    /// handed back.
    spec fn dispatches(self, req: InteractionView, state: S, r: ResponseView) -> bool;

    fn call(self, req: Interaction, state: S) -> (r: Response)
        requires
            self.callable(req@, state),
        ensures
            self.dispatches(req@, state, r@),
    ;
}

impl<S, F, R> Handler<S, R, ()> for F where F: Fn() -> R, R: IntoResponse {
    /// A handler of arity zero skips extraction and is invoked directly;
    /// neither relation reads the event.
    open spec fn callable(self, req: InteractionView, state: S) -> bool {
        call_requires(self, ())
    }

    open spec fn dispatches(self, req: InteractionView, state: S, r: ResponseView) -> bool {
        exists|ret: R| #[trigger] call_ensures(self, (), ret) && r == ret.spec_response()
    }

    fn call(self, req: Interaction, state: S) -> (r: Response) {
        (self)().into_response()
    }
}

impl<S, F, R, T1> Handler<S, R, (T1,)> for F where
    F: Fn(T1) -> R,
    R: IntoResponse,
    T1: FromRequest<S>,
 {
    open spec fn callable(self, req: InteractionView, state: S) -> bool {
        forall|v1: T1| call_requires(self, (v1,))
    }

    open spec fn dispatches(self, req: InteractionView, state: S, r: ResponseView) -> bool {
        exists|x1: Result<T1, T1::Rejection>|
            {
                &&& #[trigger] T1::extracted(req, state, x1)
                &&& match x1 {
                    Err(e1) => r == e1.spec_response(),
                    Ok(v1) => exists|ret: R|
                        #[trigger] call_ensures(self, (v1,), ret) && r == ret.spec_response(),
                }
            }
    }

    fn call(self, req: Interaction, state: S) -> (r: Response) {
        let mut req = req;
        let v1 = match T1::from_request(&mut req, &state) {
            Ok(v) => v,
            Err(rej) => {
                return rej.into_response();
            },
        };
        (self)(v1).into_response()
    }
}

impl<S, F, R, T1, T2> Handler<S, R, (T1, T2)> for F where
    F: Fn(T1, T2) -> R,
    R: IntoResponse,
    T1: FromRequest<S>,
    T2: FromRequest<S>,
 {
    open spec fn callable(self, req: InteractionView, state: S) -> bool {
        forall|v1: T1, v2: T2| call_requires(self, (v1, v2))
    }

    open spec fn dispatches(self, req: InteractionView, state: S, r: ResponseView) -> bool {
        exists|x1: Result<T1, T1::Rejection>|
            {
                &&& #[trigger] T1::extracted(req, state, x1)
                &&& match x1 {
                    Err(e1) => r == e1.spec_response(),
                    Ok(v1) => exists|x2: Result<T2, T2::Rejection>|
                        {
                            &&& #[trigger] T2::extracted(req, state, x2)
                            &&& match x2 {
                                Err(e2) => r == e2.spec_response(),
                                Ok(v2) => exists|ret: R|
                                    #[trigger] call_ensures(self, (v1, v2), ret) && r
                                        == ret.spec_response(),
                            }
                        },
                }
            }
    }

    fn call(self, req: Interaction, state: S) -> (r: Response) {
        let mut req = req;
        let v1 = match T1::from_request(&mut req, &state) {
            Ok(v) => v,
            Err(rej) => {
                return rej.into_response();
            },
        };
        let v2 = match T2::from_request(&mut req, &state) {
            Ok(v) => v,
            Err(rej) => {
                return rej.into_response();
            },
        };
        (self)(v1, v2).into_response()
    }
}

impl<S, F, R, T1, T2, T3> Handler<S, R, (T1, T2, T3)> for F where
    F: Fn(T1, T2, T3) -> R,
    R: IntoResponse,
    T1: FromRequest<S>,
    T2: FromRequest<S>,
    T3: FromRequest<S>,
 {
    open spec fn callable(self, req: InteractionView, state: S) -> bool {
        forall|v1: T1, v2: T2, v3: T3| call_requires(self, (v1, v2, v3))
    }

    open spec fn dispatches(self, req: InteractionView, state: S, r: ResponseView) -> bool {
        exists|x1: Result<T1, T1::Rejection>|
            {
                &&& #[trigger] T1::extracted(req, state, x1)
                &&& match x1 {
                    Err(e1) => r == e1.spec_response(),
                    Ok(v1) => exists|x2: Result<T2, T2::Rejection>|
                        {
                            &&& #[trigger] T2::extracted(req, state, x2)
                            &&& match x2 {
                                Err(e2) => r == e2.spec_response(),
                                Ok(v2) => exists|x3: Result<T3, T3::Rejection>|
                                    {
                                        &&& #[trigger] T3::extracted(req, state, x3)
                                        &&& match x3 {
                                            Err(e3) => r == e3.spec_response(),
                                            Ok(v3) => exists|ret: R|
                                                #[trigger] call_ensures(self, (v1, v2, v3), ret)
                                                    && r == ret.spec_response(),
                                        }
                                    },
                            }
                        },
                }
            }
    }

    fn call(self, req: Interaction, state: S) -> (r: Response) {
        let mut req = req;
        let v1 = match T1::from_request(&mut req, &state) {
            Ok(v) => v,
            Err(rej) => {
                return rej.into_response();
            },
        };
        let v2 = match T2::from_request(&mut req, &state) {
            Ok(v) => v,
            Err(rej) => {
                return rej.into_response();
            },
        };
        let v3 = match T3::from_request(&mut req, &state) {
            Ok(v) => v,
            Err(rej) => {
                return rej.into_response();
            },
        };
        (self)(v1, v2, v3).into_response()
    }
}

impl<S, F, R, T1, T2, T3, T4> Handler<S, R, (T1, T2, T3, T4,)> for F where
    F: Fn(T1, T2, T3, T4) -> R,
    R: IntoResponse,
    T1: FromRequest<S>,
    T2: FromRequest<S>,
    T3: FromRequest<S>,
    T4: FromRequest<S>,
 {
    open spec fn callable(self, req: InteractionView, state: S) -> bool {
        forall|v1: T1, v2: T2, v3: T3, v4: T4| call_requires(self, (v1, v2, v3, v4,))
    }

    open spec fn dispatches(self, req: InteractionView, state: S, r: ResponseView) -> bool {
        exists|x1: Result<T1, T1::Rejection>|
        {
            &&& #[trigger] T1::extracted(req, state, x1)
            &&& match x1 {
                Err(e1) => r == e1.spec_response(),
                Ok(v1) => exists|x2: Result<T2, T2::Rejection>|
                    {
                        &&& #[trigger] T2::extracted(req, state, x2)
                        &&& match x2 {
                            Err(e2) => r == e2.spec_response(),
                            Ok(v2) => exists|x3: Result<T3, T3::Rejection>|
                                {
                                    &&& #[trigger] T3::extracted(req, state, x3)
                                    &&& match x3 {
                                        Err(e3) => r == e3.spec_response(),
                                        Ok(v3) => exists|x4: Result<T4, T4::Rejection>|
                                            {
                                                &&& #[trigger] T4::extracted(req, state, x4)
                                                &&& match x4 {
                                                    Err(e4) => r == e4.spec_response(),
                                                    Ok(v4) => exists|ret: R|
                                                        #[trigger] call_ensures(self, (v1, v2, v3, v4,), ret) && r == ret.spec_response(),
                                                }
                                            },
                                    }
                                },
                        }
                    },
            }
        }
    }

    fn call(self, req: Interaction, state: S) -> (r: Response) {
        let mut req = req;
        let v1 = match T1::from_request(&mut req, &state) {
            Ok(v) => v,
            Err(rej) => {
                return rej.into_response();
            },
        };
        let v2 = match T2::from_request(&mut req, &state) {
            Ok(v) => v,
            Err(rej) => {
                return rej.into_response();
            },
        };
        let v3 = match T3::from_request(&mut req, &state) {
            Ok(v) => v,
            Err(rej) => {
                return rej.into_response();
            },
        };
        let v4 = match T4::from_request(&mut req, &state) {
            Ok(v) => v,
            Err(rej) => {
                return rej.into_response();
            },
        };
        (self)(v1, v2, v3, v4).into_response()
    }
}

impl<S, F, R, T1, T2, T3, T4, T5> Handler<S, R, (T1, T2, T3, T4, T5,)> for F where
    F: Fn(T1, T2, T3, T4, T5) -> R,
    R: IntoResponse,
    T1: FromRequest<S>,
    T2: FromRequest<S>,
    T3: FromRequest<S>,
    T4: FromRequest<S>,
    T5: FromRequest<S>,
 {
    open spec fn callable(self, req: InteractionView, state: S) -> bool {
        forall|v1: T1, v2: T2, v3: T3, v4: T4, v5: T5| call_requires(self, (v1, v2, v3, v4, v5,))
    }

    open spec fn dispatches(self, req: InteractionView, state: S, r: ResponseView) -> bool {
        exists|x1: Result<T1, T1::Rejection>|
        {
            &&& #[trigger] T1::extracted(req, state, x1)
            &&& match x1 {
                Err(e1) => r == e1.spec_response(),
                Ok(v1) => exists|x2: Result<T2, T2::Rejection>|
                    {
                        &&& #[trigger] T2::extracted(req, state, x2)
                        &&& match x2 {
                            Err(e2) => r == e2.spec_response(),
                            Ok(v2) => exists|x3: Result<T3, T3::Rejection>|
                                {
                                    &&& #[trigger] T3::extracted(req, state, x3)
                                    &&& match x3 {
                                        Err(e3) => r == e3.spec_response(),
                                        Ok(v3) => exists|x4: Result<T4, T4::Rejection>|
                                            {
                                                &&& #[trigger] T4::extracted(req, state, x4)
                                                &&& match x4 {
                                                    Err(e4) => r == e4.spec_response(),
                                                    Ok(v4) => exists|x5: Result<T5, T5::Rejection>|
                                                        {
                                                            &&& #[trigger] T5::extracted(req, state, x5)
                                                            &&& match x5 {
                                                                Err(e5) => r == e5.spec_response(),
                                                                Ok(v5) => exists|ret: R|
                                                                    #[trigger] call_ensures(self, (v1, v2, v3, v4, v5,), ret) && r == ret.spec_response(),
                                                            }
                                                        },
                                                }
                                            },
                                    }
                                },
                        }
                    },
            }
        }
    }

    fn call(self, req: Interaction, state: S) -> (r: Response) {
        let mut req = req;
        let v1 = match T1::from_request(&mut req, &state) {
            Ok(v) => v,
            Err(rej) => {
                return rej.into_response();
            },
        };
        let v2 = match T2::from_request(&mut req, &state) {
            Ok(v) => v,
            Err(rej) => {
                return rej.into_response();
            },
        };
        let v3 = match T3::from_request(&mut req, &state) {
            Ok(v) => v,
            Err(rej) => {
                return rej.into_response();
            },
        };
        let v4 = match T4::from_request(&mut req, &state) {
            Ok(v) => v,
            Err(rej) => {
                return rej.into_response();
            },
        };
        let v5 = match T5::from_request(&mut req, &state) {
            Ok(v) => v,
            Err(rej) => {
                return rej.into_response();
            },
        };
        (self)(v1, v2, v3, v4, v5).into_response()
    }
}

impl<S, F, R, T1, T2, T3, T4, T5, T6> Handler<S, R, (T1, T2, T3, T4, T5, T6,)> for F where
    F: Fn(T1, T2, T3, T4, T5, T6) -> R,
    R: IntoResponse,
    T1: FromRequest<S>,
    T2: FromRequest<S>,
    T3: FromRequest<S>,
    T4: FromRequest<S>,
    T5: FromRequest<S>,
    T6: FromRequest<S>,
 {
    open spec fn callable(self, req: InteractionView, state: S) -> bool {
        forall|v1: T1, v2: T2, v3: T3, v4: T4, v5: T5, v6: T6| call_requires(self, (v1, v2, v3, v4, v5, v6,))
    }

    open spec fn dispatches(self, req: InteractionView, state: S, r: ResponseView) -> bool {
        exists|x1: Result<T1, T1::Rejection>|
        {
            &&& #[trigger] T1::extracted(req, state, x1)
            &&& match x1 {
                Err(e1) => r == e1.spec_response(),
                Ok(v1) => exists|x2: Result<T2, T2::Rejection>|
                    {
                        &&& #[trigger] T2::extracted(req, state, x2)
                        &&& match x2 {
                            Err(e2) => r == e2.spec_response(),
                            Ok(v2) => exists|x3: Result<T3, T3::Rejection>|
                                {
                                    &&& #[trigger] T3::extracted(req, state, x3)
                                    &&& match x3 {
                                        Err(e3) => r == e3.spec_response(),
                                        Ok(v3) => exists|x4: Result<T4, T4::Rejection>|
                                            {
                                                &&& #[trigger] T4::extracted(req, state, x4)
                                                &&& match x4 {
                                                    Err(e4) => r == e4.spec_response(),
                                                    Ok(v4) => exists|x5: Result<T5, T5::Rejection>|
                                                        {
                                                            &&& #[trigger] T5::extracted(req, state, x5)
                                                            &&& match x5 {
                                                                Err(e5) => r == e5.spec_response(),
                                                                Ok(v5) => exists|x6: Result<T6, T6::Rejection>|
                                                                    {
                                                                        &&& #[trigger] T6::extracted(req, state, x6)
                                                                        &&& match x6 {
                                                                            Err(e6) => r == e6.spec_response(),
                                                                            Ok(v6) => exists|ret: R|
                                                                                #[trigger] call_ensures(self, (v1, v2, v3, v4, v5, v6,), ret) && r == ret.spec_response(),
                                                                        }
                                                                    },
                                                            }
                                                        },
                                                }
                                            },
                                    }
                                },
                        }
                    },
            }
        }
    }

    fn call(self, req: Interaction, state: S) -> (r: Response) {
        let mut req = req;
        let v1 = match T1::from_request(&mut req, &state) {
            Ok(v) => v,
            Err(rej) => {
                return rej.into_response();
            },
        };
        let v2 = match T2::from_request(&mut req, &state) {
            Ok(v) => v,
            Err(rej) => {
                return rej.into_response();
            },
        };
        let v3 = match T3::from_request(&mut req, &state) {
            Ok(v) => v,
            Err(rej) => {
                return rej.into_response();
            },
        };
        let v4 = match T4::from_request(&mut req, &state) {
            Ok(v) => v,
            Err(rej) => {
                return rej.into_response();
            },
        };
        let v5 = match T5::from_request(&mut req, &state) {
            Ok(v) => v,
            Err(rej) => {
                return rej.into_response();
            },
        };
        let v6 = match T6::from_request(&mut req, &state) {
            Ok(v) => v,
            Err(rej) => {
                return rej.into_response();
            },
        };
        (self)(v1, v2, v3, v4, v5, v6).into_response()
    }
}

impl<S, F, R, T1, T2, T3, T4, T5, T6, T7> Handler<S, R, (T1, T2, T3, T4, T5, T6, T7,)> for F where
    F: Fn(T1, T2, T3, T4, T5, T6, T7) -> R,
    R: IntoResponse,
    T1: FromRequest<S>,
    T2: FromRequest<S>,
    T3: FromRequest<S>,
    T4: FromRequest<S>,
    T5: FromRequest<S>,
    T6: FromRequest<S>,
    T7: FromRequest<S>,
 {
    open spec fn callable(self, req: InteractionView, state: S) -> bool {
        forall|v1: T1, v2: T2, v3: T3, v4: T4, v5: T5, v6: T6, v7: T7| call_requires(self, (v1, v2, v3, v4, v5, v6, v7,))
    }

    open spec fn dispatches(self, req: InteractionView, state: S, r: ResponseView) -> bool {
        exists|x1: Result<T1, T1::Rejection>|
        {
            &&& #[trigger] T1::extracted(req, state, x1)
            &&& match x1 {
                Err(e1) => r == e1.spec_response(),
                Ok(v1) => exists|x2: Result<T2, T2::Rejection>|
                    {
                        &&& #[trigger] T2::extracted(req, state, x2)
                        &&& match x2 {
                            Err(e2) => r == e2.spec_response(),
                            Ok(v2) => exists|x3: Result<T3, T3::Rejection>|
                                {
                                    &&& #[trigger] T3::extracted(req, state, x3)
                                    &&& match x3 {
                                        Err(e3) => r == e3.spec_response(),
                                        Ok(v3) => exists|x4: Result<T4, T4::Rejection>|
                                            {
                                                &&& #[trigger] T4::extracted(req, state, x4)
                                                &&& match x4 {
                                                    Err(e4) => r == e4.spec_response(),
                                                    Ok(v4) => exists|x5: Result<T5, T5::Rejection>|
                                                        {
                                                            &&& #[trigger] T5::extracted(req, state, x5)
                                                            &&& match x5 {
                                                                Err(e5) => r == e5.spec_response(),
                                                                Ok(v5) => exists|x6: Result<T6, T6::Rejection>|
                                                                    {
                                                                        &&& #[trigger] T6::extracted(req, state, x6)
                                                                        &&& match x6 {
                                                                            Err(e6) => r == e6.spec_response(),
                                                                            Ok(v6) => exists|x7: Result<T7, T7::Rejection>|
                                                                                {
                                                                                    &&& #[trigger] T7::extracted(req, state, x7)
                                                                                    &&& match x7 {
                                                                                        Err(e7) => r == e7.spec_response(),
                                                                                        Ok(v7) => exists|ret: R|
                                                                                            #[trigger] call_ensures(self, (v1, v2, v3, v4, v5, v6, v7,), ret) && r == ret.spec_response(),
                                                                                    }
                                                                                },
                                                                        }
                                                                    },
                                                            }
                                                        },
                                                }
                                            },
                                    }
                                },
                        }
                    },
            }
        }
    }

    fn call(self, req: Interaction, state: S) -> (r: Response) {
        let mut req = req;
        let v1 = match T1::from_request(&mut req, &state) {
            Ok(v) => v,
            Err(rej) => {
                return rej.into_response();
            },
        };
        let v2 = match T2::from_request(&mut req, &state) {
            Ok(v) => v,
            Err(rej) => {
                return rej.into_response();
            },
        };
        let v3 = match T3::from_request(&mut req, &state) {
            Ok(v) => v,
            Err(rej) => {
                return rej.into_response();
            },
        };
        let v4 = match T4::from_request(&mut req, &state) {
            Ok(v) => v,
            Err(rej) => {
                return rej.into_response();
            },
        };
        let v5 = match T5::from_request(&mut req, &state) {
            Ok(v) => v,
            Err(rej) => {
                return rej.into_response();
            },
        };
        let v6 = match T6::from_request(&mut req, &state) {
            Ok(v) => v,
            Err(rej) => {
                return rej.into_response();
            },
        };
        let v7 = match T7::from_request(&mut req, &state) {
            Ok(v) => v,
            Err(rej) => {
                return rej.into_response();
            },
        };
        (self)(v1, v2, v3, v4, v5, v6, v7).into_response()
    }
}

impl<S, F, R, T1, T2, T3, T4, T5, T6, T7, T8> Handler<S, R, (T1, T2, T3, T4, T5, T6, T7, T8,)> for F where
    F: Fn(T1, T2, T3, T4, T5, T6, T7, T8) -> R,
    R: IntoResponse,
    T1: FromRequest<S>,
    T2: FromRequest<S>,
    T3: FromRequest<S>,
    T4: FromRequest<S>,
    T5: FromRequest<S>,
    T6: FromRequest<S>,
    T7: FromRequest<S>,
    T8: FromRequest<S>,
 {
    open spec fn callable(self, req: InteractionView, state: S) -> bool {
        forall|v1: T1, v2: T2, v3: T3, v4: T4, v5: T5, v6: T6, v7: T7, v8: T8| call_requires(self, (v1, v2, v3, v4, v5, v6, v7, v8,))
    }

    open spec fn dispatches(self, req: InteractionView, state: S, r: ResponseView) -> bool {
        exists|x1: Result<T1, T1::Rejection>|
        {
            &&& #[trigger] T1::extracted(req, state, x1)
            &&& match x1 {
                Err(e1) => r == e1.spec_response(),
                Ok(v1) => exists|x2: Result<T2, T2::Rejection>|
                    {
                        &&& #[trigger] T2::extracted(req, state, x2)
                        &&& match x2 {
                            Err(e2) => r == e2.spec_response(),
                            Ok(v2) => exists|x3: Result<T3, T3::Rejection>|
                                {
                                    &&& #[trigger] T3::extracted(req, state, x3)
                                    &&& match x3 {
                                        Err(e3) => r == e3.spec_response(),
                                        Ok(v3) => exists|x4: Result<T4, T4::Rejection>|
                                            {
                                                &&& #[trigger] T4::extracted(req, state, x4)
                                                &&& match x4 {
                                                    Err(e4) => r == e4.spec_response(),
                                                    Ok(v4) => exists|x5: Result<T5, T5::Rejection>|
                                                        {
                                                            &&& #[trigger] T5::extracted(req, state, x5)
                                                            &&& match x5 {
                                                                Err(e5) => r == e5.spec_response(),
                                                                Ok(v5) => exists|x6: Result<T6, T6::Rejection>|
                                                                    {
                                                                        &&& #[trigger] T6::extracted(req, state, x6)
                                                                        &&& match x6 {
                                                                            Err(e6) => r == e6.spec_response(),
                                                                            Ok(v6) => exists|x7: Result<T7, T7::Rejection>|
                                                                                {
                                                                                    &&& #[trigger] T7::extracted(req, state, x7)
                                                                                    &&& match x7 {
                                                                                        Err(e7) => r == e7.spec_response(),
                                                                                        Ok(v7) => exists|x8: Result<T8, T8::Rejection>|
                                                                                            {
                                                                                                &&& #[trigger] T8::extracted(req, state, x8)
                                                                                                &&& match x8 {
                                                                                                    Err(e8) => r == e8.spec_response(),
                                                                                                    Ok(v8) => exists|ret: R|
                                                                                                        #[trigger] call_ensures(self, (v1, v2, v3, v4, v5, v6, v7, v8,), ret) && r == ret.spec_response(),
                                                                                                }
                                                                                            },
                                                                                    }
                                                                                },
                                                                        }
                                                                    },
                                                            }
                                                        },
                                                }
                                            },
                                    }
                                },
                        }
                    },
            }
        }
    }

    fn call(self, req: Interaction, state: S) -> (r: Response) {
        let mut req = req;
        let v1 = match T1::from_request(&mut req, &state) {
            Ok(v) => v,
            Err(rej) => {
                return rej.into_response();
            },
        };
        let v2 = match T2::from_request(&mut req, &state) {
            Ok(v) => v,
            Err(rej) => {
                return rej.into_response();
            },
        };
        let v3 = match T3::from_request(&mut req, &state) {
            Ok(v) => v,
            Err(rej) => {
                return rej.into_response();
            },
        };
        let v4 = match T4::from_request(&mut req, &state) {
            Ok(v) => v,
            Err(rej) => {
                return rej.into_response();
            },
        };
        let v5 = match T5::from_request(&mut req, &state) {
            Ok(v) => v,
            Err(rej) => {
                return rej.into_response();
            },
        };
        let v6 = match T6::from_request(&mut req, &state) {
            Ok(v) => v,
            Err(rej) => {
                return rej.into_response();
            },
        };
        let v7 = match T7::from_request(&mut req, &state) {
            Ok(v) => v,
            Err(rej) => {
                return rej.into_response();
            },
        };
        let v8 = match T8::from_request(&mut req, &state) {
            Ok(v) => v,
            Err(rej) => {
                return rej.into_response();
            },
        };
        (self)(v1, v2, v3, v4, v5, v6, v7, v8).into_response()
    }
}

impl<S, F, R, T1, T2, T3, T4, T5, T6, T7, T8, T9> Handler<S, R, (T1, T2, T3, T4, T5, T6, T7, T8, T9,)> for F where
    F: Fn(T1, T2, T3, T4, T5, T6, T7, T8, T9) -> R,
    R: IntoResponse,
    T1: FromRequest<S>,
    T2: FromRequest<S>,
    T3: FromRequest<S>,
    T4: FromRequest<S>,
    T5: FromRequest<S>,
    T6: FromRequest<S>,
    T7: FromRequest<S>,
    T8: FromRequest<S>,
    T9: FromRequest<S>,
 {
    open spec fn callable(self, req: InteractionView, state: S) -> bool {
        forall|v1: T1, v2: T2, v3: T3, v4: T4, v5: T5, v6: T6, v7: T7, v8: T8, v9: T9| call_requires(self, (v1, v2, v3, v4, v5, v6, v7, v8, v9,))
    }

    open spec fn dispatches(self, req: InteractionView, state: S, r: ResponseView) -> bool {
        exists|x1: Result<T1, T1::Rejection>|
        {
            &&& #[trigger] T1::extracted(req, state, x1)
            &&& match x1 {
                Err(e1) => r == e1.spec_response(),
                Ok(v1) => exists|x2: Result<T2, T2::Rejection>|
                    {
                        &&& #[trigger] T2::extracted(req, state, x2)
                        &&& match x2 {
                            Err(e2) => r == e2.spec_response(),
                            Ok(v2) => exists|x3: Result<T3, T3::Rejection>|
                                {
                                    &&& #[trigger] T3::extracted(req, state, x3)
                                    &&& match x3 {
                                        Err(e3) => r == e3.spec_response(),
                                        Ok(v3) => exists|x4: Result<T4, T4::Rejection>|
                                            {
                                                &&& #[trigger] T4::extracted(req, state, x4)
                                                &&& match x4 {
                                                    Err(e4) => r == e4.spec_response(),
                                                    Ok(v4) => exists|x5: Result<T5, T5::Rejection>|
                                                        {
                                                            &&& #[trigger] T5::extracted(req, state, x5)
                                                            &&& match x5 {
                                                                Err(e5) => r == e5.spec_response(),
                                                                Ok(v5) => exists|x6: Result<T6, T6::Rejection>|
                                                                    {
                                                                        &&& #[trigger] T6::extracted(req, state, x6)
                                                                        &&& match x6 {
                                                                            Err(e6) => r == e6.spec_response(),
                                                                            Ok(v6) => exists|x7: Result<T7, T7::Rejection>|
                                                                                {
                                                                                    &&& #[trigger] T7::extracted(req, state, x7)
                                                                                    &&& match x7 {
                                                                                        Err(e7) => r == e7.spec_response(),
                                                                                        Ok(v7) => exists|x8: Result<T8, T8::Rejection>|
                                                                                            {
                                                                                                &&& #[trigger] T8::extracted(req, state, x8)
                                                                                                &&& match x8 {
                                                                                                    Err(e8) => r == e8.spec_response(),
                                                                                                    Ok(v8) => exists|x9: Result<T9, T9::Rejection>|
                                                                                                        {
                                                                                                            &&& #[trigger] T9::extracted(req, state, x9)
                                                                                                            &&& match x9 {
                                                                                                                Err(e9) => r == e9.spec_response(),
                                                                                                                Ok(v9) => exists|ret: R|
                                                                                                                    #[trigger] call_ensures(self, (v1, v2, v3, v4, v5, v6, v7, v8, v9,), ret) && r == ret.spec_response(),
                                                                                                            }
                                                                                                        },
                                                                                                }
                                                                                            },
                                                                                    }
                                                                                },
                                                                        }
                                                                    },
                                                            }
                                                        },
                                                }
                                            },
                                    }
                                },
                        }
                    },
            }
        }
    }

    fn call(self, req: Interaction, state: S) -> (r: Response) {
        let mut req = req;
        let v1 = match T1::from_request(&mut req, &state) {
            Ok(v) => v,
            Err(rej) => {
                return rej.into_response();
            },
        };
        let v2 = match T2::from_request(&mut req, &state) {
            Ok(v) => v,
            Err(rej) => {
                return rej.into_response();
            },
        };
        let v3 = match T3::from_request(&mut req, &state) {
            Ok(v) => v,
            Err(rej) => {
                return rej.into_response();
            },
        };
        let v4 = match T4::from_request(&mut req, &state) {
            Ok(v) => v,
            Err(rej) => {
                return rej.into_response();
            },
        };
        let v5 = match T5::from_request(&mut req, &state) {
            Ok(v) => v,
            Err(rej) => {
                return rej.into_response();
            },
        };
        let v6 = match T6::from_request(&mut req, &state) {
            Ok(v) => v,
            Err(rej) => {
                return rej.into_response();
            },
        };
        let v7 = match T7::from_request(&mut req, &state) {
            Ok(v) => v,
            Err(rej) => {
                return rej.into_response();
            },
        };
        let v8 = match T8::from_request(&mut req, &state) {
            Ok(v) => v,
            Err(rej) => {
                return rej.into_response();
            },
        };
        let v9 = match T9::from_request(&mut req, &state) {
            Ok(v) => v,
            Err(rej) => {
                return rej.into_response();
            },
        };
        (self)(v1, v2, v3, v4, v5, v6, v7, v8, v9).into_response()
    }
}

impl<S, F, R, T1, T2, T3, T4, T5, T6, T7, T8, T9, T10> Handler<S, R, (T1, T2, T3, T4, T5, T6, T7, T8, T9, T10,)> for F where
    F: Fn(T1, T2, T3, T4, T5, T6, T7, T8, T9, T10) -> R,
    R: IntoResponse,
    T1: FromRequest<S>,
    T2: FromRequest<S>,
    T3: FromRequest<S>,
    T4: FromRequest<S>,
    T5: FromRequest<S>,
    T6: FromRequest<S>,
    T7: FromRequest<S>,
    T8: FromRequest<S>,
    T9: FromRequest<S>,
    T10: FromRequest<S>,
 {
    open spec fn callable(self, req: InteractionView, state: S) -> bool {
        forall|v1: T1, v2: T2, v3: T3, v4: T4, v5: T5, v6: T6, v7: T7, v8: T8, v9: T9, v10: T10| call_requires(self, (v1, v2, v3, v4, v5, v6, v7, v8, v9, v10,))
    }

    open spec fn dispatches(self, req: InteractionView, state: S, r: ResponseView) -> bool {
        exists|x1: Result<T1, T1::Rejection>|
        {
            &&& #[trigger] T1::extracted(req, state, x1)
            &&& match x1 {
                Err(e1) => r == e1.spec_response(),
                Ok(v1) => exists|x2: Result<T2, T2::Rejection>|
                    {
                        &&& #[trigger] T2::extracted(req, state, x2)
                        &&& match x2 {
                            Err(e2) => r == e2.spec_response(),
                            Ok(v2) => exists|x3: Result<T3, T3::Rejection>|
                                {
                                    &&& #[trigger] T3::extracted(req, state, x3)
                                    &&& match x3 {
                                        Err(e3) => r == e3.spec_response(),
                                        Ok(v3) => exists|x4: Result<T4, T4::Rejection>|
                                            {
                                                &&& #[trigger] T4::extracted(req, state, x4)
                                                &&& match x4 {
                                                    Err(e4) => r == e4.spec_response(),
                                                    Ok(v4) => exists|x5: Result<T5, T5::Rejection>|
                                                        {
                                                            &&& #[trigger] T5::extracted(req, state, x5)
                                                            &&& match x5 {
                                                                Err(e5) => r == e5.spec_response(),
                                                                Ok(v5) => exists|x6: Result<T6, T6::Rejection>|
                                                                    {
                                                                        &&& #[trigger] T6::extracted(req, state, x6)
                                                                        &&& match x6 {
                                                                            Err(e6) => r == e6.spec_response(),
                                                                            Ok(v6) => exists|x7: Result<T7, T7::Rejection>|
                                                                                {
                                                                                    &&& #[trigger] T7::extracted(req, state, x7)
                                                                                    &&& match x7 {
                                                                                        Err(e7) => r == e7.spec_response(),
                                                                                        Ok(v7) => exists|x8: Result<T8, T8::Rejection>|
                                                                                            {
                                                                                                &&& #[trigger] T8::extracted(req, state, x8)
                                                                                                &&& match x8 {
                                                                                                    Err(e8) => r == e8.spec_response(),
                                                                                                    Ok(v8) => exists|x9: Result<T9, T9::Rejection>|
                                                                                                        {
                                                                                                            &&& #[trigger] T9::extracted(req, state, x9)
                                                                                                            &&& match x9 {
                                                                                                                Err(e9) => r == e9.spec_response(),
                                                                                                                Ok(v9) => exists|x10: Result<T10, T10::Rejection>|
                                                                                                                    {
                                                                                                                        &&& #[trigger] T10::extracted(req, state, x10)
                                                                                                                        &&& match x10 {
                                                                                                                            Err(e10) => r == e10.spec_response(),
                                                                                                                            Ok(v10) => exists|ret: R|
                                                                                                                                #[trigger] call_ensures(self, (v1, v2, v3, v4, v5, v6, v7, v8, v9, v10,), ret) && r == ret.spec_response(),
                                                                                                                        }
                                                                                                                    },
                                                                                                            }
                                                                                                        },
                                                                                                }
                                                                                            },
                                                                                    }
                                                                                },
                                                                        }
                                                                    },
                                                            }
                                                        },
                                                }
                                            },
                                    }
                                },
                        }
                    },
            }
        }
    }

    fn call(self, req: Interaction, state: S) -> (r: Response) {
        let mut req = req;
        let v1 = match T1::from_request(&mut req, &state) {
            Ok(v) => v,
            Err(rej) => {
                return rej.into_response();
            },
        };
        let v2 = match T2::from_request(&mut req, &state) {
            Ok(v) => v,
            Err(rej) => {
                return rej.into_response();
            },
        };
        let v3 = match T3::from_request(&mut req, &state) {
            Ok(v) => v,
            Err(rej) => {
                return rej.into_response();
            },
        };
        let v4 = match T4::from_request(&mut req, &state) {
            Ok(v) => v,
            Err(rej) => {
                return rej.into_response();
            },
        };
        let v5 = match T5::from_request(&mut req, &state) {
            Ok(v) => v,
            Err(rej) => {
                return rej.into_response();
            },
        };
        let v6 = match T6::from_request(&mut req, &state) {
            Ok(v) => v,
            Err(rej) => {
                return rej.into_response();
            },
        };
        let v7 = match T7::from_request(&mut req, &state) {
            Ok(v) => v,
            Err(rej) => {
                return rej.into_response();
            },
        };
        let v8 = match T8::from_request(&mut req, &state) {
            Ok(v) => v,
            Err(rej) => {
                return rej.into_response();
            },
        };
        let v9 = match T9::from_request(&mut req, &state) {
            Ok(v) => v,
            Err(rej) => {
                return rej.into_response();
            },
        };
        let v10 = match T10::from_request(&mut req, &state) {
            Ok(v) => v,
            Err(rej) => {
                return rej.into_response();
            },
        };
        (self)(v1, v2, v3, v4, v5, v6, v7, v8, v9, v10).into_response()
    }
}

impl<S, F, R, T1, T2, T3, T4, T5, T6, T7, T8, T9, T10, T11> Handler<S, R, (T1, T2, T3, T4, T5, T6, T7, T8, T9, T10, T11,)> for F where
    F: Fn(T1, T2, T3, T4, T5, T6, T7, T8, T9, T10, T11) -> R,
    R: IntoResponse,
    T1: FromRequest<S>,
    T2: FromRequest<S>,
    T3: FromRequest<S>,
    T4: FromRequest<S>,
    T5: FromRequest<S>,
    T6: FromRequest<S>,
    T7: FromRequest<S>,
    T8: FromRequest<S>,
    T9: FromRequest<S>,
    T10: FromRequest<S>,
    T11: FromRequest<S>,
 {
    open spec fn callable(self, req: InteractionView, state: S) -> bool {
        forall|v1: T1, v2: T2, v3: T3, v4: T4, v5: T5, v6: T6, v7: T7, v8: T8, v9: T9, v10: T10, v11: T11| call_requires(self, (v1, v2, v3, v4, v5, v6, v7, v8, v9, v10, v11,))
    }

    open spec fn dispatches(self, req: InteractionView, state: S, r: ResponseView) -> bool {
        exists|x1: Result<T1, T1::Rejection>|
        {
            &&& #[trigger] T1::extracted(req, state, x1)
            &&& match x1 {
                Err(e1) => r == e1.spec_response(),
                Ok(v1) => exists|x2: Result<T2, T2::Rejection>|
                    {
                        &&& #[trigger] T2::extracted(req, state, x2)
                        &&& match x2 {
                            Err(e2) => r == e2.spec_response(),
                            Ok(v2) => exists|x3: Result<T3, T3::Rejection>|
                                {
                                    &&& #[trigger] T3::extracted(req, state, x3)
                                    &&& match x3 {
                                        Err(e3) => r == e3.spec_response(),
                                        Ok(v3) => exists|x4: Result<T4, T4::Rejection>|
                                            {
                                                &&& #[trigger] T4::extracted(req, state, x4)
                                                &&& match x4 {
                                                    Err(e4) => r == e4.spec_response(),
                                                    Ok(v4) => exists|x5: Result<T5, T5::Rejection>|
                                                        {
                                                            &&& #[trigger] T5::extracted(req, state, x5)
                                                            &&& match x5 {
                                                                Err(e5) => r == e5.spec_response(),
                                                                Ok(v5) => exists|x6: Result<T6, T6::Rejection>|
                                                                    {
                                                                        &&& #[trigger] T6::extracted(req, state, x6)
                                                                        &&& match x6 {
                                                                            Err(e6) => r == e6.spec_response(),
                                                                            Ok(v6) => exists|x7: Result<T7, T7::Rejection>|
                                                                                {
                                                                                    &&& #[trigger] T7::extracted(req, state, x7)
                                                                                    &&& match x7 {
                                                                                        Err(e7) => r == e7.spec_response(),
                                                                                        Ok(v7) => exists|x8: Result<T8, T8::Rejection>|
                                                                                            {
                                                                                                &&& #[trigger] T8::extracted(req, state, x8)
                                                                                                &&& match x8 {
                                                                                                    Err(e8) => r == e8.spec_response(),
                                                                                                    Ok(v8) => exists|x9: Result<T9, T9::Rejection>|
                                                                                                        {
                                                                                                            &&& #[trigger] T9::extracted(req, state, x9)
                                                                                                            &&& match x9 {
                                                                                                                Err(e9) => r == e9.spec_response(),
                                                                                                                Ok(v9) => exists|x10: Result<T10, T10::Rejection>|
                                                                                                                    {
                                                                                                                        &&& #[trigger] T10::extracted(req, state, x10)
                                                                                                                        &&& match x10 {
                                                                                                                            Err(e10) => r == e10.spec_response(),
                                                                                                                            Ok(v10) => exists|x11: Result<T11, T11::Rejection>|
                                                                                                                                {
                                                                                                                                    &&& #[trigger] T11::extracted(req, state, x11)
                                                                                                                                    &&& match x11 {
                                                                                                                                        Err(e11) => r == e11.spec_response(),
                                                                                                                                        Ok(v11) => exists|ret: R|
                                                                                                                                            #[trigger] call_ensures(self, (v1, v2, v3, v4, v5, v6, v7, v8, v9, v10, v11,), ret) && r == ret.spec_response(),
                                                                                                                                    }
                                                                                                                                },
                                                                                                                        }
                                                                                                                    },
                                                                                                            }
                                                                                                        },
                                                                                                }
                                                                                            },
                                                                                    }
                                                                                },
                                                                        }
                                                                    },
                                                            }
                                                        },
                                                }
                                            },
                                    }
                                },
                        }
                    },
            }
        }
    }

    fn call(self, req: Interaction, state: S) -> (r: Response) {
        let mut req = req;
        let v1 = match T1::from_request(&mut req, &state) {
            Ok(v) => v,
            Err(rej) => {
                return rej.into_response();
            },
        };
        let v2 = match T2::from_request(&mut req, &state) {
            Ok(v) => v,
            Err(rej) => {
                return rej.into_response();
            },
        };
        let v3 = match T3::from_request(&mut req, &state) {
            Ok(v) => v,
            Err(rej) => {
                return rej.into_response();
            },
        };
        let v4 = match T4::from_request(&mut req, &state) {
            Ok(v) => v,
            Err(rej) => {
                return rej.into_response();
            },
        };
        let v5 = match T5::from_request(&mut req, &state) {
            Ok(v) => v,
            Err(rej) => {
                return rej.into_response();
            },
        };
        let v6 = match T6::from_request(&mut req, &state) {
            Ok(v) => v,
            Err(rej) => {
                return rej.into_response();
            },
        };
        let v7 = match T7::from_request(&mut req, &state) {
            Ok(v) => v,
            Err(rej) => {
                return rej.into_response();
            },
        };
        let v8 = match T8::from_request(&mut req, &state) {
            Ok(v) => v,
            Err(rej) => {
                return rej.into_response();
            },
        };
        let v9 = match T9::from_request(&mut req, &state) {
            Ok(v) => v,
            Err(rej) => {
                return rej.into_response();
            },
        };
        let v10 = match T10::from_request(&mut req, &state) {
            Ok(v) => v,
            Err(rej) => {
                return rej.into_response();
            },
        };
        let v11 = match T11::from_request(&mut req, &state) {
            Ok(v) => v,
            Err(rej) => {
                return rej.into_response();
            },
        };
        (self)(v1, v2, v3, v4, v5, v6, v7, v8, v9, v10, v11).into_response()
    }
}

impl<S, F, R, T1, T2, T3, T4, T5, T6, T7, T8, T9, T10, T11, T12> Handler<S, R, (T1, T2, T3, T4, T5, T6, T7, T8, T9, T10, T11, T12,)> for F where
    F: Fn(T1, T2, T3, T4, T5, T6, T7, T8, T9, T10, T11, T12) -> R,
    R: IntoResponse,
    T1: FromRequest<S>,
    T2: FromRequest<S>,
    T3: FromRequest<S>,
    T4: FromRequest<S>,
    T5: FromRequest<S>,
    T6: FromRequest<S>,
    T7: FromRequest<S>,
    T8: FromRequest<S>,
    T9: FromRequest<S>,
    T10: FromRequest<S>,
    T11: FromRequest<S>,
    T12: FromRequest<S>,
 {
    open spec fn callable(self, req: InteractionView, state: S) -> bool {
        forall|v1: T1, v2: T2, v3: T3, v4: T4, v5: T5, v6: T6, v7: T7, v8: T8, v9: T9, v10: T10, v11: T11, v12: T12| call_requires(self, (v1, v2, v3, v4, v5, v6, v7, v8, v9, v10, v11, v12,))
    }

    open spec fn dispatches(self, req: InteractionView, state: S, r: ResponseView) -> bool {
        exists|x1: Result<T1, T1::Rejection>|
        {
            &&& #[trigger] T1::extracted(req, state, x1)
            &&& match x1 {
                Err(e1) => r == e1.spec_response(),
                Ok(v1) => exists|x2: Result<T2, T2::Rejection>|
                    {
                        &&& #[trigger] T2::extracted(req, state, x2)
                        &&& match x2 {
                            Err(e2) => r == e2.spec_response(),
                            Ok(v2) => exists|x3: Result<T3, T3::Rejection>|
                                {
                                    &&& #[trigger] T3::extracted(req, state, x3)
                                    &&& match x3 {
                                        Err(e3) => r == e3.spec_response(),
                                        Ok(v3) => exists|x4: Result<T4, T4::Rejection>|
                                            {
                                                &&& #[trigger] T4::extracted(req, state, x4)
                                                &&& match x4 {
                                                    Err(e4) => r == e4.spec_response(),
                                                    Ok(v4) => exists|x5: Result<T5, T5::Rejection>|
                                                        {
                                                            &&& #[trigger] T5::extracted(req, state, x5)
                                                            &&& match x5 {
                                                                Err(e5) => r == e5.spec_response(),
                                                                Ok(v5) => exists|x6: Result<T6, T6::Rejection>|
                                                                    {
                                                                        &&& #[trigger] T6::extracted(req, state, x6)
                                                                        &&& match x6 {
                                                                            Err(e6) => r == e6.spec_response(),
                                                                            Ok(v6) => exists|x7: Result<T7, T7::Rejection>|
                                                                                {
                                                                                    &&& #[trigger] T7::extracted(req, state, x7)
                                                                                    &&& match x7 {
                                                                                        Err(e7) => r == e7.spec_response(),
                                                                                        Ok(v7) => exists|x8: Result<T8, T8::Rejection>|
                                                                                            {
                                                                                                &&& #[trigger] T8::extracted(req, state, x8)
                                                                                                &&& match x8 {
                                                                                                    Err(e8) => r == e8.spec_response(),
                                                                                                    Ok(v8) => exists|x9: Result<T9, T9::Rejection>|
                                                                                                        {
                                                                                                            &&& #[trigger] T9::extracted(req, state, x9)
                                                                                                            &&& match x9 {
                                                                                                                Err(e9) => r == e9.spec_response(),
                                                                                                                Ok(v9) => exists|x10: Result<T10, T10::Rejection>|
                                                                                                                    {
                                                                                                                        &&& #[trigger] T10::extracted(req, state, x10)
                                                                                                                        &&& match x10 {
                                                                                                                            Err(e10) => r == e10.spec_response(),
                                                                                                                            Ok(v10) => exists|x11: Result<T11, T11::Rejection>|
                                                                                                                                {
                                                                                                                                    &&& #[trigger] T11::extracted(req, state, x11)
                                                                                                                                    &&& match x11 {
                                                                                                                                        Err(e11) => r == e11.spec_response(),
                                                                                                                                        Ok(v11) => exists|x12: Result<T12, T12::Rejection>|
                                                                                                                                            {
                                                                                                                                                &&& #[trigger] T12::extracted(req, state, x12)
                                                                                                                                                &&& match x12 {
                                                                                                                                                    Err(e12) => r == e12.spec_response(),
                                                                                                                                                    Ok(v12) => exists|ret: R|
                                                                                                                                                        #[trigger] call_ensures(self, (v1, v2, v3, v4, v5, v6, v7, v8, v9, v10, v11, v12,), ret) && r == ret.spec_response(),
                                                                                                                                                }
                                                                                                                                            },
                                                                                                                                    }
                                                                                                                                },
                                                                                                                        }
                                                                                                                    },
                                                                                                            }
                                                                                                        },
                                                                                                }
                                                                                            },
                                                                                    }
                                                                                },
                                                                        }
                                                                    },
                                                            }
                                                        },
                                                }
                                            },
                                    }
                                },
                        }
                    },
            }
        }
    }

    fn call(self, req: Interaction, state: S) -> (r: Response) {
        let mut req = req;
        let v1 = match T1::from_request(&mut req, &state) {
            Ok(v) => v,
            Err(rej) => {
                return rej.into_response();
            },
        };
        let v2 = match T2::from_request(&mut req, &state) {
            Ok(v) => v,
            Err(rej) => {
                return rej.into_response();
            },
        };
        let v3 = match T3::from_request(&mut req, &state) {
            Ok(v) => v,
            Err(rej) => {
                return rej.into_response();
            },
        };
        let v4 = match T4::from_request(&mut req, &state) {
            Ok(v) => v,
            Err(rej) => {
                return rej.into_response();
            },
        };
        let v5 = match T5::from_request(&mut req, &state) {
            Ok(v) => v,
            Err(rej) => {
                return rej.into_response();
            },
        };
        let v6 = match T6::from_request(&mut req, &state) {
            Ok(v) => v,
            Err(rej) => {
                return rej.into_response();
            },
        };
        let v7 = match T7::from_request(&mut req, &state) {
            Ok(v) => v,
            Err(rej) => {
                return rej.into_response();
            },
        };
        let v8 = match T8::from_request(&mut req, &state) {
            Ok(v) => v,
            Err(rej) => {
                return rej.into_response();
            },
        };
        let v9 = match T9::from_request(&mut req, &state) {
            Ok(v) => v,
            Err(rej) => {
                return rej.into_response();
            },
        };
        let v10 = match T10::from_request(&mut req, &state) {
            Ok(v) => v,
            Err(rej) => {
                return rej.into_response();
            },
        };
        let v11 = match T11::from_request(&mut req, &state) {
            Ok(v) => v,
            Err(rej) => {
                return rej.into_response();
            },
        };
        let v12 = match T12::from_request(&mut req, &state) {
            Ok(v) => v,
            Err(rej) => {
                return rej.into_response();
            },
        };
        (self)(v1, v2, v3, v4, v5, v6, v7, v8, v9, v10, v11, v12).into_response()
    }
}

impl<S, F, R, T1, T2, T3, T4, T5, T6, T7, T8, T9, T10, T11, T12, T13> Handler<S, R, (T1, T2, T3, T4, T5, T6, T7, T8, T9, T10, T11, T12, T13,)> for F where
    F: Fn(T1, T2, T3, T4, T5, T6, T7, T8, T9, T10, T11, T12, T13) -> R,
    R: IntoResponse,
    T1: FromRequest<S>,
    T2: FromRequest<S>,
    T3: FromRequest<S>,
    T4: FromRequest<S>,
    T5: FromRequest<S>,
    T6: FromRequest<S>,
    T7: FromRequest<S>,
    T8: FromRequest<S>,
    T9: FromRequest<S>,
    T10: FromRequest<S>,
    T11: FromRequest<S>,
    T12: FromRequest<S>,
    T13: FromRequest<S>,
 {
    open spec fn callable(self, req: InteractionView, state: S) -> bool {
        forall|v1: T1, v2: T2, v3: T3, v4: T4, v5: T5, v6: T6, v7: T7, v8: T8, v9: T9, v10: T10, v11: T11, v12: T12, v13: T13| call_requires(self, (v1, v2, v3, v4, v5, v6, v7, v8, v9, v10, v11, v12, v13,))
    }

    open spec fn dispatches(self, req: InteractionView, state: S, r: ResponseView) -> bool {
        exists|x1: Result<T1, T1::Rejection>|
        {
            &&& #[trigger] T1::extracted(req, state, x1)
            &&& match x1 {
                Err(e1) => r == e1.spec_response(),
                Ok(v1) => exists|x2: Result<T2, T2::Rejection>|
                    {
                        &&& #[trigger] T2::extracted(req, state, x2)
                        &&& match x2 {
                            Err(e2) => r == e2.spec_response(),
                            Ok(v2) => exists|x3: Result<T3, T3::Rejection>|
                                {
                                    &&& #[trigger] T3::extracted(req, state, x3)
                                    &&& match x3 {
                                        Err(e3) => r == e3.spec_response(),
                                        Ok(v3) => exists|x4: Result<T4, T4::Rejection>|
                                            {
                                                &&& #[trigger] T4::extracted(req, state, x4)
                                                &&& match x4 {
                                                    Err(e4) => r == e4.spec_response(),
                                                    Ok(v4) => exists|x5: Result<T5, T5::Rejection>|
                                                        {
                                                            &&& #[trigger] T5::extracted(req, state, x5)
                                                            &&& match x5 {
                                                                Err(e5) => r == e5.spec_response(),
                                                                Ok(v5) => exists|x6: Result<T6, T6::Rejection>|
                                                                    {
                                                                        &&& #[trigger] T6::extracted(req, state, x6)
                                                                        &&& match x6 {
                                                                            Err(e6) => r == e6.spec_response(),
                                                                            Ok(v6) => exists|x7: Result<T7, T7::Rejection>|
                                                                                {
                                                                                    &&& #[trigger] T7::extracted(req, state, x7)
                                                                                    &&& match x7 {
                                                                                        Err(e7) => r == e7.spec_response(),
                                                                                        Ok(v7) => exists|x8: Result<T8, T8::Rejection>|
                                                                                            {
                                                                                                &&& #[trigger] T8::extracted(req, state, x8)
                                                                                                &&& match x8 {
                                                                                                    Err(e8) => r == e8.spec_response(),
                                                                                                    Ok(v8) => exists|x9: Result<T9, T9::Rejection>|
                                                                                                        {
                                                                                                            &&& #[trigger] T9::extracted(req, state, x9)
                                                                                                            &&& match x9 {
                                                                                                                Err(e9) => r == e9.spec_response(),
                                                                                                                Ok(v9) => exists|x10: Result<T10, T10::Rejection>|
                                                                                                                    {
                                                                                                                        &&& #[trigger] T10::extracted(req, state, x10)
                                                                                                                        &&& match x10 {
                                                                                                                            Err(e10) => r == e10.spec_response(),
                                                                                                                            Ok(v10) => exists|x11: Result<T11, T11::Rejection>|
                                                                                                                                {
                                                                                                                                    &&& #[trigger] T11::extracted(req, state, x11)
                                                                                                                                    &&& match x11 {
                                                                                                                                        Err(e11) => r == e11.spec_response(),
                                                                                                                                        Ok(v11) => exists|x12: Result<T12, T12::Rejection>|
                                                                                                                                            {
                                                                                                                                                &&& #[trigger] T12::extracted(req, state, x12)
                                                                                                                                                &&& match x12 {
                                                                                                                                                    Err(e12) => r == e12.spec_response(),
                                                                                                                                                    Ok(v12) => exists|x13: Result<T13, T13::Rejection>|
                                                                                                                                                        {
                                                                                                                                                            &&& #[trigger] T13::extracted(req, state, x13)
                                                                                                                                                            &&& match x13 {
                                                                                                                                                                Err(e13) => r == e13.spec_response(),
                                                                                                                                                                Ok(v13) => exists|ret: R|
                                                                                                                                                                    #[trigger] call_ensures(self, (v1, v2, v3, v4, v5, v6, v7, v8, v9, v10, v11, v12, v13,), ret) && r == ret.spec_response(),
                                                                                                                                                            }
                                                                                                                                                        },
                                                                                                                                                }
                                                                                                                                            },
                                                                                                                                    }
                                                                                                                                },
                                                                                                                        }
                                                                                                                    },
                                                                                                            }
                                                                                                        },
                                                                                                }
                                                                                            },
                                                                                    }
                                                                                },
                                                                        }
                                                                    },
                                                            }
                                                        },
                                                }
                                            },
                                    }
                                },
                        }
                    },
            }
        }
    }

    fn call(self, req: Interaction, state: S) -> (r: Response) {
        let mut req = req;
        let v1 = match T1::from_request(&mut req, &state) {
            Ok(v) => v,
            Err(rej) => {
                return rej.into_response();
            },
        };
        let v2 = match T2::from_request(&mut req, &state) {
            Ok(v) => v,
            Err(rej) => {
                return rej.into_response();
            },
        };
        let v3 = match T3::from_request(&mut req, &state) {
            Ok(v) => v,
            Err(rej) => {
                return rej.into_response();
            },
        };
        let v4 = match T4::from_request(&mut req, &state) {
            Ok(v) => v,
            Err(rej) => {
                return rej.into_response();
            },
        };
        let v5 = match T5::from_request(&mut req, &state) {
            Ok(v) => v,
            Err(rej) => {
                return rej.into_response();
            },
        };
        let v6 = match T6::from_request(&mut req, &state) {
            Ok(v) => v,
            Err(rej) => {
                return rej.into_response();
            },
        };
        let v7 = match T7::from_request(&mut req, &state) {
            Ok(v) => v,
            Err(rej) => {
                return rej.into_response();
            },
        };
        let v8 = match T8::from_request(&mut req, &state) {
            Ok(v) => v,
            Err(rej) => {
                return rej.into_response();
            },
        };
        let v9 = match T9::from_request(&mut req, &state) {
            Ok(v) => v,
            Err(rej) => {
                return rej.into_response();
            },
        };
        let v10 = match T10::from_request(&mut req, &state) {
            Ok(v) => v,
            Err(rej) => {
                return rej.into_response();
            },
        };
        let v11 = match T11::from_request(&mut req, &state) {
            Ok(v) => v,
            Err(rej) => {
                return rej.into_response();
            },
        };
        let v12 = match T12::from_request(&mut req, &state) {
            Ok(v) => v,
            Err(rej) => {
                return rej.into_response();
            },
        };
        let v13 = match T13::from_request(&mut req, &state) {
            Ok(v) => v,
            Err(rej) => {
                return rej.into_response();
            },
        };
        (self)(v1, v2, v3, v4, v5, v6, v7, v8, v9, v10, v11, v12, v13).into_response()
    }
}

impl<S, F, R, T1, T2, T3, T4, T5, T6, T7, T8, T9, T10, T11, T12, T13, T14> Handler<S, R, (T1, T2, T3, T4, T5, T6, T7, T8, T9, T10, T11, T12, T13, T14,)> for F where
    F: Fn(T1, T2, T3, T4, T5, T6, T7, T8, T9, T10, T11, T12, T13, T14) -> R,
    R: IntoResponse,
    T1: FromRequest<S>,
    T2: FromRequest<S>,
    T3: FromRequest<S>,
    T4: FromRequest<S>,
    T5: FromRequest<S>,
    T6: FromRequest<S>,
    T7: FromRequest<S>,
    T8: FromRequest<S>,
    T9: FromRequest<S>,
    T10: FromRequest<S>,
    T11: FromRequest<S>,
    T12: FromRequest<S>,
    T13: FromRequest<S>,
    T14: FromRequest<S>,
 {
    open spec fn callable(self, req: InteractionView, state: S) -> bool {
        forall|v1: T1, v2: T2, v3: T3, v4: T4, v5: T5, v6: T6, v7: T7, v8: T8, v9: T9, v10: T10, v11: T11, v12: T12, v13: T13, v14: T14| call_requires(self, (v1, v2, v3, v4, v5, v6, v7, v8, v9, v10, v11, v12, v13, v14,))
    }

    open spec fn dispatches(self, req: InteractionView, state: S, r: ResponseView) -> bool {
        exists|x1: Result<T1, T1::Rejection>|
        {
            &&& #[trigger] T1::extracted(req, state, x1)
            &&& match x1 {
                Err(e1) => r == e1.spec_response(),
                Ok(v1) => exists|x2: Result<T2, T2::Rejection>|
                    {
                        &&& #[trigger] T2::extracted(req, state, x2)
                        &&& match x2 {
                            Err(e2) => r == e2.spec_response(),
                            Ok(v2) => exists|x3: Result<T3, T3::Rejection>|
                                {
                                    &&& #[trigger] T3::extracted(req, state, x3)
                                    &&& match x3 {
                                        Err(e3) => r == e3.spec_response(),
                                        Ok(v3) => exists|x4: Result<T4, T4::Rejection>|
                                            {
                                                &&& #[trigger] T4::extracted(req, state, x4)
                                                &&& match x4 {
                                                    Err(e4) => r == e4.spec_response(),
                                                    Ok(v4) => exists|x5: Result<T5, T5::Rejection>|
                                                        {
                                                            &&& #[trigger] T5::extracted(req, state, x5)
                                                            &&& match x5 {
                                                                Err(e5) => r == e5.spec_response(),
                                                                Ok(v5) => exists|x6: Result<T6, T6::Rejection>|
                                                                    {
                                                                        &&& #[trigger] T6::extracted(req, state, x6)
                                                                        &&& match x6 {
                                                                            Err(e6) => r == e6.spec_response(),
                                                                            Ok(v6) => exists|x7: Result<T7, T7::Rejection>|
                                                                                {
                                                                                    &&& #[trigger] T7::extracted(req, state, x7)
                                                                                    &&& match x7 {
                                                                                        Err(e7) => r == e7.spec_response(),
                                                                                        Ok(v7) => exists|x8: Result<T8, T8::Rejection>|
                                                                                            {
                                                                                                &&& #[trigger] T8::extracted(req, state, x8)
                                                                                                &&& match x8 {
                                                                                                    Err(e8) => r == e8.spec_response(),
                                                                                                    Ok(v8) => exists|x9: Result<T9, T9::Rejection>|
                                                                                                        {
                                                                                                            &&& #[trigger] T9::extracted(req, state, x9)
                                                                                                            &&& match x9 {
                                                                                                                Err(e9) => r == e9.spec_response(),
                                                                                                                Ok(v9) => exists|x10: Result<T10, T10::Rejection>|
                                                                                                                    {
                                                                                                                        &&& #[trigger] T10::extracted(req, state, x10)
                                                                                                                        &&& match x10 {
                                                                                                                            Err(e10) => r == e10.spec_response(),
                                                                                                                            Ok(v10) => exists|x11: Result<T11, T11::Rejection>|
                                                                                                                                {
                                                                                                                                    &&& #[trigger] T11::extracted(req, state, x11)
                                                                                                                                    &&& match x11 {
                                                                                                                                        Err(e11) => r == e11.spec_response(),
                                                                                                                                        Ok(v11) => exists|x12: Result<T12, T12::Rejection>|
                                                                                                                                            {
                                                                                                                                                &&& #[trigger] T12::extracted(req, state, x12)
                                                                                                                                                &&& match x12 {
                                                                                                                                                    Err(e12) => r == e12.spec_response(),
                                                                                                                                                    Ok(v12) => exists|x13: Result<T13, T13::Rejection>|
                                                                                                                                                        {
                                                                                                                                                            &&& #[trigger] T13::extracted(req, state, x13)
                                                                                                                                                            &&& match x13 {
                                                                                                                                                                Err(e13) => r == e13.spec_response(),
                                                                                                                                                                Ok(v13) => exists|x14: Result<T14, T14::Rejection>|
                                                                                                                                                                    {
                                                                                                                                                                        &&& #[trigger] T14::extracted(req, state, x14)
                                                                                                                                                                        &&& match x14 {
                                                                                                                                                                            Err(e14) => r == e14.spec_response(),
                                                                                                                                                                            Ok(v14) => exists|ret: R|
                                                                                                                                                                                #[trigger] call_ensures(self, (v1, v2, v3, v4, v5, v6, v7, v8, v9, v10, v11, v12, v13, v14,), ret) && r == ret.spec_response(),
                                                                                                                                                                        }
                                                                                                                                                                    },
                                                                                                                                                            }
                                                                                                                                                        },
                                                                                                                                                }
                                                                                                                                            },
                                                                                                                                    }
                                                                                                                                },
                                                                                                                        }
                                                                                                                    },
                                                                                                            }
                                                                                                        },
                                                                                                }
                                                                                            },
                                                                                    }
                                                                                },
                                                                        }
                                                                    },
                                                            }
                                                        },
                                                }
                                            },
                                    }
                                },
                        }
                    },
            }
        }
    }

    fn call(self, req: Interaction, state: S) -> (r: Response) {
        let mut req = req;
        let v1 = match T1::from_request(&mut req, &state) {
            Ok(v) => v,
            Err(rej) => {
                return rej.into_response();
            },
        };
        let v2 = match T2::from_request(&mut req, &state) {
            Ok(v) => v,
            Err(rej) => {
                return rej.into_response();
            },
        };
        let v3 = match T3::from_request(&mut req, &state) {
            Ok(v) => v,
            Err(rej) => {
                return rej.into_response();
            },
        };
        let v4 = match T4::from_request(&mut req, &state) {
            Ok(v) => v,
            Err(rej) => {
                return rej.into_response();
            },
        };
        let v5 = match T5::from_request(&mut req, &state) {
            Ok(v) => v,
            Err(rej) => {
                return rej.into_response();
            },
        };
        let v6 = match T6::from_request(&mut req, &state) {
            Ok(v) => v,
            Err(rej) => {
                return rej.into_response();
            },
        };
        let v7 = match T7::from_request(&mut req, &state) {
            Ok(v) => v,
            Err(rej) => {
                return rej.into_response();
            },
        };
        let v8 = match T8::from_request(&mut req, &state) {
            Ok(v) => v,
            Err(rej) => {
                return rej.into_response();
            },
        };
        let v9 = match T9::from_request(&mut req, &state) {
            Ok(v) => v,
            Err(rej) => {
                return rej.into_response();
            },
        };
        let v10 = match T10::from_request(&mut req, &state) {
            Ok(v) => v,
            Err(rej) => {
                return rej.into_response();
            },
        };
        let v11 = match T11::from_request(&mut req, &state) {
            Ok(v) => v,
            Err(rej) => {
                return rej.into_response();
            },
        };
        let v12 = match T12::from_request(&mut req, &state) {
            Ok(v) => v,
            Err(rej) => {
                return rej.into_response();
            },
        };
        let v13 = match T13::from_request(&mut req, &state) {
            Ok(v) => v,
            Err(rej) => {
                return rej.into_response();
            },
        };
        let v14 = match T14::from_request(&mut req, &state) {
            Ok(v) => v,
            Err(rej) => {
                return rej.into_response();
            },
        };
        (self)(v1, v2, v3, v4, v5, v6, v7, v8, v9, v10, v11, v12, v13, v14).into_response()
    }
}

impl<S, F, R, T1, T2, T3, T4, T5, T6, T7, T8, T9, T10, T11, T12, T13, T14, T15> Handler<S, R, (T1, T2, T3, T4, T5, T6, T7, T8, T9, T10, T11, T12, T13, T14, T15,)> for F where
    F: Fn(T1, T2, T3, T4, T5, T6, T7, T8, T9, T10, T11, T12, T13, T14, T15) -> R,
    R: IntoResponse,
    T1: FromRequest<S>,
    T2: FromRequest<S>,
    T3: FromRequest<S>,
    T4: FromRequest<S>,
    T5: FromRequest<S>,
    T6: FromRequest<S>,
    T7: FromRequest<S>,
    T8: FromRequest<S>,
    T9: FromRequest<S>,
    T10: FromRequest<S>,
    T11: FromRequest<S>,
    T12: FromRequest<S>,
    T13: FromRequest<S>,
    T14: FromRequest<S>,
    T15: FromRequest<S>,
 {
    open spec fn callable(self, req: InteractionView, state: S) -> bool {
        forall|v1: T1, v2: T2, v3: T3, v4: T4, v5: T5, v6: T6, v7: T7, v8: T8, v9: T9, v10: T10, v11: T11, v12: T12, v13: T13, v14: T14, v15: T15| call_requires(self, (v1, v2, v3, v4, v5, v6, v7, v8, v9, v10, v11, v12, v13, v14, v15,))
    }

    open spec fn dispatches(self, req: InteractionView, state: S, r: ResponseView) -> bool {
        exists|x1: Result<T1, T1::Rejection>|
        {
            &&& #[trigger] T1::extracted(req, state, x1)
            &&& match x1 {
                Err(e1) => r == e1.spec_response(),
                Ok(v1) => exists|x2: Result<T2, T2::Rejection>|
                    {
                        &&& #[trigger] T2::extracted(req, state, x2)
                        &&& match x2 {
                            Err(e2) => r == e2.spec_response(),
                            Ok(v2) => exists|x3: Result<T3, T3::Rejection>|
                                {
                                    &&& #[trigger] T3::extracted(req, state, x3)
                                    &&& match x3 {
                                        Err(e3) => r == e3.spec_response(),
                                        Ok(v3) => exists|x4: Result<T4, T4::Rejection>|
                                            {
                                                &&& #[trigger] T4::extracted(req, state, x4)
                                                &&& match x4 {
                                                    Err(e4) => r == e4.spec_response(),
                                                    Ok(v4) => exists|x5: Result<T5, T5::Rejection>|
                                                        {
                                                            &&& #[trigger] T5::extracted(req, state, x5)
                                                            &&& match x5 {
                                                                Err(e5) => r == e5.spec_response(),
                                                                Ok(v5) => exists|x6: Result<T6, T6::Rejection>|
                                                                    {
                                                                        &&& #[trigger] T6::extracted(req, state, x6)
                                                                        &&& match x6 {
                                                                            Err(e6) => r == e6.spec_response(),
                                                                            Ok(v6) => exists|x7: Result<T7, T7::Rejection>|
                                                                                {
                                                                                    &&& #[trigger] T7::extracted(req, state, x7)
                                                                                    &&& match x7 {
                                                                                        Err(e7) => r == e7.spec_response(),
                                                                                        Ok(v7) => exists|x8: Result<T8, T8::Rejection>|
                                                                                            {
                                                                                                &&& #[trigger] T8::extracted(req, state, x8)
                                                                                                &&& match x8 {
                                                                                                    Err(e8) => r == e8.spec_response(),
                                                                                                    Ok(v8) => exists|x9: Result<T9, T9::Rejection>|
                                                                                                        {
                                                                                                            &&& #[trigger] T9::extracted(req, state, x9)
                                                                                                            &&& match x9 {
                                                                                                                Err(e9) => r == e9.spec_response(),
                                                                                                                Ok(v9) => exists|x10: Result<T10, T10::Rejection>|
                                                                                                                    {
                                                                                                                        &&& #[trigger] T10::extracted(req, state, x10)
                                                                                                                        &&& match x10 {
                                                                                                                            Err(e10) => r == e10.spec_response(),
                                                                                                                            Ok(v10) => exists|x11: Result<T11, T11::Rejection>|
                                                                                                                                {
                                                                                                                                    &&& #[trigger] T11::extracted(req, state, x11)
                                                                                                                                    &&& match x11 {
                                                                                                                                        Err(e11) => r == e11.spec_response(),
                                                                                                                                        Ok(v11) => exists|x12: Result<T12, T12::Rejection>|
                                                                                                                                            {
                                                                                                                                                &&& #[trigger] T12::extracted(req, state, x12)
                                                                                                                                                &&& match x12 {
                                                                                                                                                    Err(e12) => r == e12.spec_response(),
                                                                                                                                                    Ok(v12) => exists|x13: Result<T13, T13::Rejection>|
                                                                                                                                                        {
                                                                                                                                                            &&& #[trigger] T13::extracted(req, state, x13)
                                                                                                                                                            &&& match x13 {
                                                                                                                                                                Err(e13) => r == e13.spec_response(),
                                                                                                                                                                Ok(v13) => exists|x14: Result<T14, T14::Rejection>|
                                                                                                                                                                    {
                                                                                                                                                                        &&& #[trigger] T14::extracted(req, state, x14)
                                                                                                                                                                        &&& match x14 {
                                                                                                                                                                            Err(e14) => r == e14.spec_response(),
                                                                                                                                                                            Ok(v14) => exists|x15: Result<T15, T15::Rejection>|
                                                                                                                                                                                {
                                                                                                                                                                                    &&& #[trigger] T15::extracted(req, state, x15)
                                                                                                                                                                                    &&& match x15 {
                                                                                                                                                                                        Err(e15) => r == e15.spec_response(),
                                                                                                                                                                                        Ok(v15) => exists|ret: R|
                                                                                                                                                                                            #[trigger] call_ensures(self, (v1, v2, v3, v4, v5, v6, v7, v8, v9, v10, v11, v12, v13, v14, v15,), ret) && r == ret.spec_response(),
                                                                                                                                                                                    }
                                                                                                                                                                                },
                                                                                                                                                                        }
                                                                                                                                                                    },
                                                                                                                                                            }
                                                                                                                                                        },
                                                                                                                                                }
                                                                                                                                            },
                                                                                                                                    }
                                                                                                                                },
                                                                                                                        }
                                                                                                                    },
                                                                                                            }
                                                                                                        },
                                                                                                }
                                                                                            },
                                                                                    }
                                                                                },
                                                                        }
                                                                    },
                                                            }
                                                        },
                                                }
                                            },
                                    }
                                },
                        }
                    },
            }
        }
    }

    fn call(self, req: Interaction, state: S) -> (r: Response) {
        let mut req = req;
        let v1 = match T1::from_request(&mut req, &state) {
            Ok(v) => v,
            Err(rej) => {
                return rej.into_response();
            },
        };
        let v2 = match T2::from_request(&mut req, &state) {
            Ok(v) => v,
            Err(rej) => {
                return rej.into_response();
            },
        };
        let v3 = match T3::from_request(&mut req, &state) {
            Ok(v) => v,
            Err(rej) => {
                return rej.into_response();
            },
        };
        let v4 = match T4::from_request(&mut req, &state) {
            Ok(v) => v,
            Err(rej) => {
                return rej.into_response();
            },
        };
        let v5 = match T5::from_request(&mut req, &state) {
            Ok(v) => v,
            Err(rej) => {
                return rej.into_response();
            },
        };
        let v6 = match T6::from_request(&mut req, &state) {
            Ok(v) => v,
            Err(rej) => {
                return rej.into_response();
            },
        };
        let v7 = match T7::from_request(&mut req, &state) {
            Ok(v) => v,
            Err(rej) => {
                return rej.into_response();
            },
        };
        let v8 = match T8::from_request(&mut req, &state) {
            Ok(v) => v,
            Err(rej) => {
                return rej.into_response();
            },
        };
        let v9 = match T9::from_request(&mut req, &state) {
            Ok(v) => v,
            Err(rej) => {
                return rej.into_response();
            },
        };
        let v10 = match T10::from_request(&mut req, &state) {
            Ok(v) => v,
            Err(rej) => {
                return rej.into_response();
            },
        };
        let v11 = match T11::from_request(&mut req, &state) {
            Ok(v) => v,
            Err(rej) => {
                return rej.into_response();
            },
        };
        let v12 = match T12::from_request(&mut req, &state) {
            Ok(v) => v,
            Err(rej) => {
                return rej.into_response();
            },
        };
        let v13 = match T13::from_request(&mut req, &state) {
            Ok(v) => v,
            Err(rej) => {
                return rej.into_response();
            },
        };
        let v14 = match T14::from_request(&mut req, &state) {
            Ok(v) => v,
            Err(rej) => {
                return rej.into_response();
            },
        };
        let v15 = match T15::from_request(&mut req, &state) {
            Ok(v) => v,
            Err(rej) => {
                return rej.into_response();
            },
        };
        (self)(v1, v2, v3, v4, v5, v6, v7, v8, v9, v10, v11, v12, v13, v14, v15).into_response()
    }
}

/// A tuple of extractors is itself an extractor: each element is extracted
/// in order, and the first failure is converted to a response eagerly,
/// unifying the elements' different rejection types.
impl<S, T1> FromRequest<S> for (T1,) where
    T1: FromRequest<S>,
 {
    type Rejection = Response;

    open spec fn extracted(
        req: InteractionView,
        state: S,
        r: Result<Self, Response>,
    ) -> bool {
        exists|x1: Result<T1, T1::Rejection>|
        {
            &&& #[trigger] T1::extracted(req, state, x1)
            &&& match x1 {
                Err(e1) => r matches Err(resp) && resp@ == e1.spec_response(),
                Ok(v1) => r matches Ok(t) && t.0 == v1,
            }
        }
    }

    fn from_request(req: &mut Interaction, state: &S) -> (r: Result<Self, Response>) {
        let v1 = match T1::from_request(req, state) {
            Ok(v) => v,
            Err(rej) => {
                return Err(rej.into_response());
            },
        };
        Ok((v1,))
    }
}

/// A tuple of extractors is itself an extractor: each element is extracted
/// in order, and the first failure is converted to a response eagerly,
/// unifying the elements' different rejection types.
impl<S, T1, T2> FromRequest<S> for (T1, T2,) where
    T1: FromRequest<S>,
    T2: FromRequest<S>,
 {
    type Rejection = Response;

    open spec fn extracted(
        req: InteractionView,
        state: S,
        r: Result<Self, Response>,
    ) -> bool {
        exists|x1: Result<T1, T1::Rejection>|
        {
            &&& #[trigger] T1::extracted(req, state, x1)
            &&& match x1 {
                Err(e1) => r matches Err(resp) && resp@ == e1.spec_response(),
                Ok(v1) => exists|x2: Result<T2, T2::Rejection>|
                    {
                        &&& #[trigger] T2::extracted(req, state, x2)
                        &&& match x2 {
                            Err(e2) => r matches Err(resp) && resp@ == e2.spec_response(),
                            Ok(v2) => r matches Ok(t) && t.0 == v1 && t.1 == v2,
                        }
                    },
            }
        }
    }

    fn from_request(req: &mut Interaction, state: &S) -> (r: Result<Self, Response>) {
        let v1 = match T1::from_request(req, state) {
            Ok(v) => v,
            Err(rej) => {
                return Err(rej.into_response());
            },
        };
        let v2 = match T2::from_request(req, state) {
            Ok(v) => v,
            Err(rej) => {
                return Err(rej.into_response());
            },
        };
        Ok((v1, v2,))
    }
}

/// A tuple of extractors is itself an extractor: each element is extracted
/// in order, and the first failure is converted to a response eagerly,
/// unifying the elements' different rejection types.
impl<S, T1, T2, T3> FromRequest<S> for (T1, T2, T3,) where
    T1: FromRequest<S>,
    T2: FromRequest<S>,
    T3: FromRequest<S>,
 {
    type Rejection = Response;

    open spec fn extracted(
        req: InteractionView,
        state: S,
        r: Result<Self, Response>,
    ) -> bool {
        exists|x1: Result<T1, T1::Rejection>|
        {
            &&& #[trigger] T1::extracted(req, state, x1)
            &&& match x1 {
                Err(e1) => r matches Err(resp) && resp@ == e1.spec_response(),
                Ok(v1) => exists|x2: Result<T2, T2::Rejection>|
                    {
                        &&& #[trigger] T2::extracted(req, state, x2)
                        &&& match x2 {
                            Err(e2) => r matches Err(resp) && resp@ == e2.spec_response(),
                            Ok(v2) => exists|x3: Result<T3, T3::Rejection>|
                                {
                                    &&& #[trigger] T3::extracted(req, state, x3)
                                    &&& match x3 {
                                        Err(e3) => r matches Err(resp) && resp@ == e3.spec_response(),
                                        Ok(v3) => r matches Ok(t) && t.0 == v1 && t.1 == v2 && t.2 == v3,
                                    }
                                },
                        }
                    },
            }
        }
    }

    fn from_request(req: &mut Interaction, state: &S) -> (r: Result<Self, Response>) {
        let v1 = match T1::from_request(req, state) {
            Ok(v) => v,
            Err(rej) => {
                return Err(rej.into_response());
            },
        };
        let v2 = match T2::from_request(req, state) {
            Ok(v) => v,
            Err(rej) => {
                return Err(rej.into_response());
            },
        };
        let v3 = match T3::from_request(req, state) {
            Ok(v) => v,
            Err(rej) => {
                return Err(rej.into_response());
            },
        };
        Ok((v1, v2, v3,))
    }
}

/// The registration product of [`make`]: a handler bound behind one uniform
/// event-plus-state entry point.
pub struct HandlerFunction<H> {
    pub handler: H,
}

impl<H: Copy> HandlerFunction<H> {
    /// Run one dispatch of the bound handler.
    pub fn run<S, R, A>(&self, req: Interaction, state: S) -> (r: Response) where
        H: Handler<S, R, A>,

        requires
            self.handler.callable(req@, state),
        ensures
            self.handler.dispatches(req@, state, r@),
    {
        self.handler.call(req, state)
    }
}

/// Lift a handler function into the uniform `(event, state) -> response`
/// callable it is registered as.
pub fn make<H: Copy>(handler: H) -> (r: HandlerFunction<H>)
    ensures
        r.handler == handler,
{
    HandlerFunction { handler }
}

} // verus!
