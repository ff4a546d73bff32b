//! The items of `core` and of tokio that this crate uses without a proof.
//!
//! Verus takes every declaration in this file on trust. None of them claims
//! anything about what the named function returns or does: the types are
//! opaque handles (but for `Poll`, whose two variants are visible), and the
//! functions are only made callable.
use vstd::prelude::*;
use core::pin::Pin;
use core::task::{Context, Poll, Waker};
use tokio::runtime::{Handle, TryCurrentError};

verus! {

/// `core::task::Waker`, the handle by which a task asks to be polled again.
/// Nothing inside it is visible to proofs.
#[verifier::external_type_specification]
#[verifier::external_body]
pub struct ExWaker(Waker);

/// `core::task::Context`, which carries the waker of the task being polled.
/// Nothing inside it is visible to proofs.
#[verifier::external_type_specification]
#[verifier::external_body]
pub struct ExContext<'a>(Context<'a>);

/// `core::pin::Pin`. Nothing inside it is visible to proofs.
#[verifier::external_type_specification]
#[verifier::external_body]
#[verifier::reject_recursive_types(Ptr)]
pub struct ExPin<Ptr>(Pin<Ptr>);

/// `core::task::Poll`, with its variants `Ready(T)` and `Pending` as `core`
/// declares them.
#[verifier::external_type_specification]
#[verifier::reject_recursive_types(T)]
pub struct ExPoll<T>(Poll<T>);

/// `tokio::runtime::Handle`, a counted reference to a runtime. Nothing inside
/// it is visible to proofs.
#[verifier::external_type_specification]
#[verifier::external_body]
pub struct ExHandle(Handle);

/// `tokio::runtime::TryCurrentError`, the reason why no runtime was found.
/// Nothing inside it is visible to proofs.
#[verifier::external_type_specification]
#[verifier::external_body]
pub struct ExTryCurrentError(TryCurrentError);

/// `Context::waker` hands out the waker that the context was made with.
/// Nothing is claimed of it.
pub assume_specification<'a>[ Context::<'a>::waker ](cx: &Context<'a>) -> (waker: &'a Waker);

/// `Waker::wake_by_ref` asks the scheduler to poll the waker's task again.
/// It returns nothing, and its effect on the scheduler is outside of what a
/// contract here can speak of, so nothing is claimed.
pub assume_specification[ Waker::wake_by_ref ](waker: &Waker);

/// `Handle::try_current` returns `Ok` with a handle when a tokio runtime has
/// been entered on the calling thread and an error otherwise; it never panics.
/// The answer depends on the thread's state, so nothing is claimed of it.
pub assume_specification[ Handle::try_current ]() -> (found: Result<Handle, TryCurrentError>);

} // verus!
