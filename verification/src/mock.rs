//! The stand-ins used to run the collaboration actions against a test
//! server: an authenticator that lets everyone in, numeric session IDs, and
//! a type-erased error.
use vstd::prelude::*;

use crate::numbers::{IntErrorKind, parse_unsigned, parse_unsigned_exec};
use crate::paths::chars_eq;
use crate::text::chars_of;

verus! {

/// An error carrying only a message. No caller can ask an [`AnyError`] for
/// it back: it has no [`Downcast`] impl.
#[derive(Debug, Clone)]
pub struct StrError {
    message: String,
}

impl StrError {
    /// The error's message.
    pub fn message(&self) -> (r: &String)
        ensures
            r@ == self.view_message(),
    {
        &self.message
    }

    /// The abstract message of the error.
    pub closed spec fn view_message(&self) -> Seq<char> {
        self.message@
    }
}

/// The error returned when no default directory for remote projects was
/// configured.
#[derive(Debug, Clone, Copy, PartialEq, Eq, Structural)]
pub struct NoDefaultDirForRemoteProjectsError;

impl NoDefaultDirForRemoteProjectsError {
    /// The message shown to the user.
    pub fn message(&self) -> (r: &'static str)
        ensures
            r@ == "no default directory for remote projects configured"@,
    {
        "no default directory for remote projects configured"
    }
}

/// An error whose concrete type is one of the errors this module knows.
#[derive(Debug, Clone)]
pub enum AnyError {
    /// An error carrying only a message.
    Str(StrError),
    /// No default directory for remote projects was configured.
    NoDefaultDir(NoDefaultDirForRemoteProjectsError),
}

/// The error types an [`AnyError`] can hold, and can be recovered from it.
pub trait Downcast: Sized {
    /// The value of this type an [`AnyError`] holds, if it holds one.
    spec fn spec_from_any(err: AnyError) -> Option<Self>;

    /// Wraps the value into an [`AnyError`].
    fn into_any(self) -> (r: AnyError)
        ensures
            Self::spec_from_any(r) == Some(self);

    /// The value of this type `err` holds, if it holds one.
    fn downcast_from(err: &AnyError) -> (r: Option<&Self>)
        ensures
            match r {
                Some(v) => Self::spec_from_any(*err) == Some(*v),
                None => Self::spec_from_any(*err) is None,
            };
}

impl Downcast for NoDefaultDirForRemoteProjectsError {
    open spec fn spec_from_any(err: AnyError) -> Option<NoDefaultDirForRemoteProjectsError> {
        match err {
            AnyError::NoDefaultDir(e) => Some(e),
            _ => None,
        }
    }

    fn into_any(self) -> (r: AnyError) {
        AnyError::NoDefaultDir(self)
    }

    fn downcast_from(err: &AnyError) -> (r: Option<&NoDefaultDirForRemoteProjectsError>) {
        match err {
            AnyError::NoDefaultDir(e) => Some(e),
            _ => None,
        }
    }
}

impl AnyError {
    /// The error of type `T` this one holds, if it holds one.
    pub fn downcast_ref<T: Downcast>(&self) -> (r: Option<&T>)
        ensures
            match r {
                Some(v) => T::spec_from_any(*self) == Some(*v),
                None => T::spec_from_any(*self) is None,
            },
    {
        T::downcast_from(self)
    }

    /// An error carrying only the message `s`; it cannot be downcast to
    /// any error type.
    pub fn from_str(s: &str) -> (r: AnyError)
        ensures
            r matches AnyError::Str(e) && e.view_message() == s@,
            any_message(r) == s@,
            NoDefaultDirForRemoteProjectsError::spec_from_any(r) is None,
    {
        AnyError::Str(StrError { message: String::from_str(s) })
    }

    /// Wraps `err`.
    pub fn new<E: Downcast>(err: E) -> (r: AnyError)
        ensures
            E::spec_from_any(r) == Some(err),
    {
        err.into_any()
    }

    /// The message shown to the user.
    pub fn message(&self) -> (r: String)
        ensures
            r@ == any_message(*self),
    {
        match self {
            AnyError::Str(e) => e.message.clone(),
            AnyError::NoDefaultDir(e) => String::from_str(e.message()),
        }
    }
}

/// Wrapping an error and asking for its type back gives exactly that error
/// back: whatever `AnyError::new(err)` returns, `downcast_ref::<E>` on it can
/// only return `err`.
pub proof fn lemma_downcast_after_new<E: Downcast>(err: E, wrapped: AnyError, found: E)
    requires
        E::spec_from_any(wrapped) == Some(err),
        E::spec_from_any(wrapped) == Some(found),
    ensures
        found == err,
{
}

/// Only the missing-directory error can be had back from an error: an
/// error can be downcast to it exactly when it holds one, and a message
/// error can be downcast to no type at all (no other type has a
/// [`Downcast`] impl).
pub proof fn lemma_downcast_one_type(err: AnyError)
    ensures
        NoDefaultDirForRemoteProjectsError::spec_from_any(err) is Some <==> err is NoDefaultDir,
        err is Str ==> NoDefaultDirForRemoteProjectsError::spec_from_any(err) is None,
{
}

/// The message of an error, as [`AnyError::message`] gives it.
pub open spec fn any_message(err: AnyError) -> Seq<char> {
    match err {
        AnyError::Str(e) => e.view_message(),
        AnyError::NoDefaultDir(_) => "no default directory for remote projects configured"@,
    }
}

/// Two errors are equal when their messages are.
impl PartialEq for AnyError {
    fn eq(&self, other: &AnyError) -> (r: bool) {
        let a = chars_of(self.message().as_str());
        let b = chars_of(other.message().as_str());
        chars_eq(&a, &b)
    }
}

impl vstd::std_specs::cmp::PartialEqSpecImpl for AnyError {
    open spec fn obeys_eq_spec() -> bool {
        true
    }

    open spec fn eq_spec(&self, other: &AnyError) -> bool {
        any_message(*self) == any_message(*other)
    }
}

/// A type with no values: the error of an operation that cannot fail.
#[derive(Debug, PartialEq, Eq)]
pub struct Never(core::convert::Infallible);

/// The authenticator of the test server: it lets every peer in.
#[derive(Debug, Clone, Copy, Default)]
pub struct Authenticator;

impl Authenticator {
    /// Authenticates a peer: always succeeds.
    pub fn authenticate<I>(&self, _infos: &I) -> (r: Result<(), Never>)
        ensures
            r is Ok,
    {
        Ok(())
    }
}

/// The authenticator of the mock editor: it lets every peer in.
#[derive(Debug, Clone, Copy, Default)]
pub struct MockAuthenticator;

impl MockAuthenticator {
    /// Authenticates a peer: always succeeds.
    pub fn authenticate<I>(&self, _infos: &I) -> (r: Result<(), Never>)
        ensures
            r is Ok,
    {
        Ok(())
    }
}

/// The parameters of the mock editor's sessions.
#[derive(Debug, Clone, Copy, Default)]
pub struct MockParams;

/// The ID of a session on the test server: a number.
#[derive(Debug, Clone, Copy, PartialEq, Eq, Structural)]
pub struct SessionId(pub u64);

impl SessionId {
    /// Reads a session ID written in decimal.
    pub fn from_str(s: &str) -> (r: Result<SessionId, IntErrorKind>)
        ensures
            match parse_unsigned(s@, u64::MAX as nat) {
                Ok(v) => r == Ok::<SessionId, IntErrorKind>(SessionId(v as u64)),
                Err(e) => r == Err::<SessionId, IntErrorKind>(e),
            },
    {
        let cs = chars_of(s);
        match parse_unsigned_exec(cs.as_slice(), u64::MAX) {
            Ok(v) => Ok(SessionId(v)),
            Err(e) => Err(e),
        }
    }
}

}
