//! Combinators over `Result` and `Option`: chaining, mapping and looking at
//! the value on the way.
use vstd::prelude::*;

verus! {


/// Chains a step that may fail (or give nothing) after a value.
pub trait Monad<A, B> where Self: Sized {
    type Out;

    fn bind<F: FnOnce(A) -> Self::Out>(self, f: F) -> Self::Out
        requires
            forall|a: A| f.requires((a,)),
    ;
}

/// Maps the value inside.
pub trait Functor<A, B> {
    type Out;

    fn fmap<F: FnOnce(A) -> B>(self, f: F) -> Self::Out
        requires
            forall|a: A| f.requires((a,)),
    ;
}

/// Maps both sides of a two-sided value.
pub trait BiFunctor<A1, A2, B1, B2> {
    type Out;

    fn bi_map<F1: FnOnce(A1) -> B1, F2: FnOnce(A2) -> B2>(self, f1: F1, f2: F2) -> Self::Out
        requires
            forall|a: A1| f1.requires((a,)),
            forall|a: A2| f2.requires((a,)),
    ;
}

impl<A, B, E> Monad<A, B> for Result<A, E> {
    type Out = Result<B, E>;

    /// Runs `f` on a success; a failure passes through.
    fn bind<F: FnOnce(A) -> Result<B, E>>(self, f: F) -> (r: Result<B, E>)
        ensures
            match self {
                Ok(a) => f.ensures((a,), r),
                Err(e) => r == Err::<B, E>(e),
            },
    {
        match self {
            Ok(a) => f(a),
            Err(e) => Err(e),
        }
    }
}

impl<A, B> Monad<A, B> for Option<A> {
    type Out = Option<B>;

    /// Runs `f` on a value; nothing passes through.
    fn bind<F: FnOnce(A) -> Option<B>>(self, f: F) -> (r: Option<B>)
        ensures
            match self {
                Some(a) => f.ensures((a,), r),
                None => r is None,
            },
    {
        match self {
            Some(a) => f(a),
            None => None,
        }
    }
}

impl<A, B, E> Functor<A, B> for Result<A, E> {
    type Out = Result<B, E>;

    /// Maps a success; a failure passes through.
    fn fmap<F: FnOnce(A) -> B>(self, f: F) -> (r: Result<B, E>)
        ensures
            match self {
                Ok(a) => r matches Ok(b) && f.ensures((a,), b),
                Err(e) => r == Err::<B, E>(e),
            },
    {
        match self {
            Ok(a) => Ok(f(a)),
            Err(e) => Err(e),
        }
    }
}

impl<A, B> Functor<A, B> for Option<A> {
    type Out = Option<B>;

    /// Maps a value; nothing passes through.
    fn fmap<F: FnOnce(A) -> B>(self, f: F) -> (r: Option<B>)
        ensures
            match self {
                Some(a) => r matches Some(b) && f.ensures((a,), b),
                None => r is None,
            },
    {
        match self {
            Some(a) => Some(f(a)),
            None => None,
        }
    }
}

/// Runs an action on the value and passes the value on unchanged.
pub trait Tap<T> where Self: Sized {
    fn tap<F: FnOnce(&T)>(self, action: F) -> Self
        requires
            forall|t: &T| action.requires((t,)),
    ;
}

impl<T, E> Tap<T> for Result<T, E> {
    /// Runs the action on a success; the result is unchanged.
    fn tap<F: FnOnce(&T)>(self, action: F) -> (r: Self)
        ensures
            r == self,
            self matches Ok(v) ==> action.ensures((&v,), ()),
    {
        match self {
            Ok(v) => {
                action(&v);
                Ok(v)
            },
            Err(e) => Err(e),
        }
    }
}

impl<T> Tap<T> for Option<T> {
    /// Runs the action on a value; the option is unchanged.
    fn tap<F: FnOnce(&T)>(self, action: F) -> (r: Self)
        ensures
            r == self,
            self matches Some(v) ==> action.ensures((&v,), ()),
    {
        match self {
            Some(v) => {
                action(&v);
                Some(v)
            },
            None => None,
        }
    }
}


/// Runs an action that may change the value, and passes the value on.
pub trait TapMut<T> where Self: Sized {
    fn tap_mut<F: FnMut(&mut T)>(self, action: F) -> Self
        requires
            forall|t: &mut T| action.requires((t,)),
    ;
}

impl<T, E> TapMut<T> for Result<T, E> {
    /// Runs the action on a success and passes on the value as the action
    /// left it; a failure passes through.
    fn tap_mut<F: FnMut(&mut T)>(self, action: F) -> (r: Self)
        ensures
            match self {
                Ok(v) => exists|m: &mut T|
                    #![trigger action.ensures((m,), ())]
                    *m == v && r == Ok::<T, E>(*final(m)) && action.ensures((m,), ()),
                Err(e) => r == Err::<T, E>(e),
            },
    {
        let mut action = action;
        match self {
            Ok(v) => {
                let mut v = v;
                action(&mut v);
                Ok(v)
            },
            Err(e) => Err(e),
        }
    }
}

impl<T> TapMut<T> for Option<T> {
    /// Runs the action on a value and passes on the value as the action left
    /// it; nothing passes through.
    fn tap_mut<F: FnMut(&mut T)>(self, action: F) -> (r: Self)
        ensures
            match self {
                Some(v) => exists|m: &mut T|
                    #![trigger action.ensures((m,), ())]
                    *m == v && r == Some(*final(m)) && action.ensures((m,), ()),
                None => r is None,
            },
    {
        let mut action = action;
        match self {
            Some(v) => {
                let mut v = v;
                action(&mut v);
                Some(v)
            },
            None => None,
        }
    }
}

} // verus!
