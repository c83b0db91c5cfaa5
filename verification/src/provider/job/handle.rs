//! Job handles and the identity of the provider that issued them.
//!
//! Every provider numbers its handles from the same starting point, so a
//! number alone cannot say whose handle it is: provider A's first handle and
//! provider B's first handle would be the same value, and B would act on its
//! own job when given A's. A handle therefore carries the identity of the
//! registry that issued it, and a registry refuses any handle that does not
//! carry its own identity, before it looks anything up, changes anything, or
//! lets anything reach CUPS.
//!
//! Both identities are allocated by checked increment. Neither ever wraps, so
//! no identity is ever issued twice from one counter; running out is an
//! explicit error, not a silent collision.

use vstd::prelude::*;
use vstd::string::*;

use crate::provider::error::{ErrorView, ProviderError, ProviderResult};
use crate::text::{self, decimal};

verus! {

/// The value of a fresh identity counter. It starts at 1 so 0 is never issued.
pub const FIRST_ISSUER: u64 = 1;

/// The error once identities have run out.
pub open spec fn identities_exhausted() -> ErrorView {
    ErrorView::InternalContractViolation { detail: "provider identities exhausted"@ }
}

/// The error once a provider's handles have run out.
pub open spec fn handles_exhausted() -> ErrorView {
    ErrorView::InternalContractViolation { detail: "job handles exhausted for this provider"@ }
}

/// Whether `counter` has an identity to hand out.
pub open spec fn can_allocate(counter: u64) -> bool {
    0 < counter < u64::MAX
}

/// `counter` after one request for an identity. It never passes `u64::MAX`.
pub open spec fn advanced(counter: u64) -> u64 {
    if counter < u64::MAX {
        (counter + 1) as u64
    } else {
        counter
    }
}

/// Identity of one job registry, in practice of one provider instance.
///
/// Unique among those taken from one counter. Deliberately deterministic
/// rather than random: uniqueness is guaranteed, not likely.
#[derive(Clone, Copy, Debug, PartialEq, Eq, Hash, PartialOrd, Ord, Structural)]
pub struct IssuerId {
    number: u64,
}

impl View for IssuerId {
    type V = u64;

    closed spec fn view(&self) -> u64 {
        self.number
    }
}

impl IssuerId {
    /// Take the next unused identity.
    pub fn allocate(counter: &mut u64) -> (identity: ProviderResult<Self>)
        ensures
            *final(counter) == advanced(*old(counter)),
            identity is Ok == can_allocate(*old(counter)),
            identity matches Ok(taken) ==> taken@ == *old(counter),
            identity matches Err(refusal) ==> refusal@ == identities_exhausted(),
    {
        match allocate_from(counter) {
            Ok(number) => Ok(IssuerId { number }),
            Err(refusal) => Err(refusal),
        }
    }
}

/// Hand out the counter's current value and advance it, never past
/// `u64::MAX`. Once the last value is gone, every later call fails.
pub fn allocate_from(counter: &mut u64) -> (number: ProviderResult<u64>)
    ensures
        *final(counter) == advanced(*old(counter)),
        number is Ok == can_allocate(*old(counter)),
        number matches Ok(taken) ==> taken == *old(counter),
        number matches Err(refusal) ==> refusal@ == identities_exhausted(),
{
    let current: u64 = *counter;
    match current.checked_add(1) {
        Some(next) => {
            *counter = next;
            if current != 0 {
                return Ok(current);
            }
        },
        None => {},
    }
    Err(
        ProviderError::InternalContractViolation {
            detail: "provider identities exhausted".to_string(),
        },
    )
}

/// This provider's name for one requested job, allocated before anything is
/// sent to CUPS.
///
/// It exists so a job can be followed even when the scheduler's answer never
/// reached the caller: a create that times out after dispatch still has a
/// handle, and the job id it eventually produces is recorded against it.
///
/// A handle is valid only for the provider that issued it, and that provider
/// is part of the handle: any other provider rejects it as
/// [`ProviderError::UnknownJobHandle`]. It is opaque: its parts cannot be
/// chosen, it is not a pointer, and it does not survive the provider. Persist
/// the [`ProviderJobId`](super::types::ProviderJobId) instead.
#[derive(Clone, Copy, Debug, PartialEq, Eq, Hash, PartialOrd, Ord, Structural)]
pub struct ProviderJobHandle {
    issuer: IssuerId,
    local: u64,
}

impl ProviderJobHandle {
    /// The identity this handle carries.
    pub closed spec fn issuer(self) -> IssuerId {
        self.issuer
    }

    /// The number of this handle among its issuer's.
    pub closed spec fn number(self) -> u64 {
        self.local
    }

    /// The handle that `issuer` gives the number `number`.
    pub closed spec fn of(issuer: IssuerId, number: u64) -> ProviderJobHandle {
        ProviderJobHandle { issuer, local: number }
    }

    /// How a handle reads in diagnostics.
    pub open spec fn shown(self) -> Seq<char> {
        "job-handle-"@ + text::decimal_chars(self.issuer()@ as nat) + "."@ + text::decimal_chars(
            self.number() as nat,
        )
    }

    pub fn issued_by(&self) -> (issuer: IssuerId)
        ensures
            issuer == self.issuer(),
    {
        self.issuer
    }

    /// The number of this handle among its issuer's.
    pub fn local(&self) -> (number: u64)
        ensures
            number == self.number(),
    {
        self.local
    }

    /// How a handle reads in diagnostics.
    pub fn text(&self) -> (shown: String)
        ensures
            shown@ == self.shown(),
    {
        "job-handle-".to_string().concat(decimal(self.issuer.number).as_str()).concat(".").concat(
            decimal(self.local).as_str(),
        )
    }
}

/// A handle is its issuer and its number, nothing else: handles of different
/// issuers differ, and so do handles with different numbers.
pub proof fn law_handle_is_issuer_and_number(handle: ProviderJobHandle, other: ProviderJobHandle)
    ensures
        handle == other <==> handle.issuer() == other.issuer() && handle.number()
            == other.number(),
        handle == ProviderJobHandle::of(handle.issuer(), handle.number()),
{
}

/// Building a handle and reading its parts agree.
pub proof fn lemma_handle_of(issuer: IssuerId, number: u64)
    ensures
        ProviderJobHandle::of(issuer, number).issuer() == issuer,
        ProviderJobHandle::of(issuer, number).number() == number,
{
}

/// Issues handles for one registry.
#[derive(Debug)]
pub struct HandleIssuer {
    issuer: IssuerId,
    /// The last local number issued; 0 before the first.
    last_local: u64,
}

impl HandleIssuer {
    /// The identity that its handles carry.
    pub closed spec fn identity(self) -> IssuerId {
        self.issuer
    }

    /// The last number issued; 0 before the first.
    pub closed spec fn last(self) -> u64 {
        self.last_local
    }

    pub fn new(counter: &mut u64) -> (created: ProviderResult<Self>)
        ensures
            *final(counter) == advanced(*old(counter)),
            created is Ok == can_allocate(*old(counter)),
            created matches Ok(handles) ==> handles.identity()@ == *old(counter) && handles.last()
                == 0,
            created matches Err(refusal) ==> refusal@ == identities_exhausted(),
    {
        HandleIssuer::starting_after(counter, 0)
    }

    pub fn issuer(&self) -> (issuer: IssuerId)
        ensures
            issuer == self.identity(),
    {
        self.issuer
    }

    /// The next handle, or an error once local numbers run out. Never
    /// reuses a number.
    pub fn next(&mut self) -> (issued: ProviderResult<ProviderJobHandle>)
        ensures
            final(self).identity() == old(self).identity(),
            issued is Ok == (old(self).last() < u64::MAX),
            issued matches Ok(handle) ==> {
                &&& final(self).last() == old(self).last() + 1
                &&& handle == ProviderJobHandle::of(old(self).identity(), final(self).last())
            },
            issued matches Err(refusal) ==> {
                &&& final(self).last() == old(self).last()
                &&& refusal@ == handles_exhausted()
            },
    {
        match self.last_local.checked_add(1) {
            Some(local) => {
                self.last_local = local;
                Ok(ProviderJobHandle { issuer: self.issuer, local })
            },
            None => Err(
                ProviderError::InternalContractViolation {
                    detail: "job handles exhausted for this provider".to_string(),
                },
            ),
        }
    }

    /// An issuer whose numbers go on after `last_local`.
    pub fn starting_after(counter: &mut u64, last_local: u64) -> (created: ProviderResult<Self>)
        ensures
            *final(counter) == advanced(*old(counter)),
            created is Ok == can_allocate(*old(counter)),
            created matches Ok(handles) ==> handles.identity()@ == *old(counter) && handles.last()
                == last_local,
            created matches Err(refusal) ==> refusal@ == identities_exhausted(),
    {
        match IssuerId::allocate(counter) {
            Ok(issuer) => Ok(HandleIssuer { issuer, last_local }),
            Err(refusal) => Err(refusal),
        }
    }
}

/// Identities taken one after the other from one counter differ, whatever was
/// taken in between.
pub proof fn law_identities_never_repeat(earlier: u64, later: u64)
    requires
        can_allocate(earlier),
        later >= advanced(earlier),
    ensures
        later != earlier,
        advanced(later) >= advanced(earlier),
{
}

/// An identity is handed out as it stands and the next is one more, from 1 up to
/// the last but one; zero is never handed out, and at the end nothing is.
pub proof fn law_identities_count_up(counter: u64)
    ensures
        can_allocate(counter) <==> 1 <= counter <= 18_446_744_073_709_551_614,
        counter < u64::MAX ==> advanced(counter) == counter + 1,
        advanced(u64::MAX) == u64::MAX,
        can_allocate(FIRST_ISSUER),
        FIRST_ISSUER == 1,
        identities_exhausted() is InternalContractViolation,
        handles_exhausted() is InternalContractViolation,
{
}

/// A handle reads by its issuer and its number, so that handles of one issuer
/// that read the same are the same.
pub proof fn law_handles_read_by_their_parts(handle: ProviderJobHandle, other: ProviderJobHandle)
    requires
        handle.issuer() == other.issuer(),
        handle.shown() == other.shown(),
    ensures
        handle == other,
{
    let head = "job-handle-"@ + text::decimal_chars(handle.issuer()@ as nat) + "."@;
    let mine = text::decimal_chars(handle.number() as nat);
    let theirs = text::decimal_chars(other.number() as nat);
    assert(handle.shown() == head + mine);
    assert(other.shown() == head + theirs);
    assert((head + mine).skip(head.len() as int) =~= mine);
    assert((head + theirs).skip(head.len() as int) =~= theirs);
    text::law_decimal_is_unambiguous(handle.number() as nat, other.number() as nat);
    law_handle_is_issuer_and_number(handle, other);
}

} // verus!
