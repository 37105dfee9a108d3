//! The page-size ceiling of a listing request.

use vstd::prelude::*;
use vstd::std_specs::convert::TryFromSpecImpl;

verus! {

/// The largest page size that the store serves in one listing request.
pub const MAX_LIST_LIMIT: u64 = 1000;

/// A page size that the store accepts: at most [`MAX_LIST_LIMIT`]. Zero asks
/// for the store's own default.
#[derive(Clone, Copy, Debug)]
pub struct ListLimit(usize);

/// The value that was refused as a [`ListLimit`].
#[derive(Clone, Copy, Debug, PartialEq, Eq, Structural)]
pub struct LimitError {
    /// The rejected value.
    pub value: u64,
}

/// Whether `value` may stand as a page size.
pub open spec fn accepted(value: nat) -> bool {
    value <= MAX_LIST_LIMIT
}

/// What the conversion of `value` gives: the limit that holds it, or the
/// error that carries it back.
pub open spec fn checked(value: nat) -> Result<ListLimit, LimitError> {
    if accepted(value) {
        Ok(ListLimit::holding(value))
    } else {
        Err(LimitError { value: value as u64 })
    }
}

impl ListLimit {
    /// The page size as a number.
    pub closed spec fn value(self) -> nat {
        self.0 as nat
    }

    /// The limit that holds `n`.
    pub closed spec fn holding(n: nat) -> ListLimit {
        ListLimit(n as usize)
    }

    #[verifier::type_invariant]
    spec fn within_ceiling(self) -> bool {
        self.0 <= MAX_LIST_LIMIT
    }

    /// The page size as a number.
    pub fn get(self) -> (n: usize)
        ensures
            n == self.value(),
            accepted(self.value()),
    {
        proof {
            use_type_invariant(&self);
        }
        self.0
    }

    /// A limit holds the number it was made of.
    pub broadcast proof fn lemma_holding_value(n: nat)
        requires
            accepted(n),
        ensures
            #[trigger] Self::holding(n).value() == n,
    {
    }

    fn checked_from(value: u64) -> (r: Result<ListLimit, LimitError>)
        ensures
            r == checked(value as nat),
    {
        if value > MAX_LIST_LIMIT {
            Err(LimitError { value })
        } else {
            Ok(ListLimit(value as usize))
        }
    }
}

impl TryFrom<u64> for ListLimit {
    type Error = LimitError;

    /// Accepts `value` exactly when it is at most [`MAX_LIST_LIMIT`].
    fn try_from(value: u64) -> (r: Result<ListLimit, LimitError>)
        ensures
            r is Ok <==> value <= MAX_LIST_LIMIT,
            r matches Ok(limit) ==> limit.value() == value,
            r matches Err(e) ==> e.value == value,
    {
        ListLimit::checked_from(value)
    }
}

impl TryFromSpecImpl<u64> for ListLimit {
    open spec fn obeys_try_from_spec() -> bool {
        true
    }

    open spec fn try_from_spec(value: u64) -> Result<ListLimit, LimitError> {
        checked(value as nat)
    }
}

impl TryFrom<u32> for ListLimit {
    type Error = LimitError;

    /// Accepts `value` exactly when it is at most [`MAX_LIST_LIMIT`].
    fn try_from(value: u32) -> (r: Result<ListLimit, LimitError>)
        ensures
            r is Ok <==> value <= MAX_LIST_LIMIT,
            r matches Ok(limit) ==> limit.value() == value,
            r matches Err(e) ==> e.value == value,
    {
        ListLimit::checked_from(value as u64)
    }
}

impl TryFromSpecImpl<u32> for ListLimit {
    open spec fn obeys_try_from_spec() -> bool {
        true
    }

    open spec fn try_from_spec(value: u32) -> Result<ListLimit, LimitError> {
        checked(value as nat)
    }
}

impl TryFrom<u16> for ListLimit {
    type Error = LimitError;

    /// Accepts `value` exactly when it is at most [`MAX_LIST_LIMIT`].
    fn try_from(value: u16) -> (r: Result<ListLimit, LimitError>)
        ensures
            r is Ok <==> value <= MAX_LIST_LIMIT,
            r matches Ok(limit) ==> limit.value() == value,
            r matches Err(e) ==> e.value == value,
    {
        ListLimit::checked_from(value as u64)
    }
}

impl TryFromSpecImpl<u16> for ListLimit {
    open spec fn obeys_try_from_spec() -> bool {
        true
    }

    open spec fn try_from_spec(value: u16) -> Result<ListLimit, LimitError> {
        checked(value as nat)
    }
}

impl TryFrom<usize> for ListLimit {
    type Error = LimitError;

    /// Accepts `value` exactly when it is at most [`MAX_LIST_LIMIT`].
    fn try_from(value: usize) -> (r: Result<ListLimit, LimitError>)
        ensures
            r is Ok <==> value <= MAX_LIST_LIMIT,
            r matches Ok(limit) ==> limit.value() == value,
            r matches Err(e) ==> e.value == value,
    {
        ListLimit::checked_from(value as u64)
    }
}

impl TryFromSpecImpl<usize> for ListLimit {
    open spec fn obeys_try_from_spec() -> bool {
        true
    }

    open spec fn try_from_spec(value: usize) -> Result<ListLimit, LimitError> {
        checked(value as nat)
    }
}

} // verus!
