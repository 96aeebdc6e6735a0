use vstd::prelude::*;

verus! {

/// An opaque, verifiable principal reference (an account or contract
/// address), usable both as a data value and as an authentication subject.
/// The surrounding execution environment resolves its own address
/// representation to the numeric identifier held here.
#[derive(Clone, Copy, PartialEq, Eq, Structural, Debug)]
pub struct Identity {
    /// The environment-assigned numeric identifier of this principal.
    pub id: u64,
}

impl View for Identity {
    type V = u64;

    open spec fn view(&self) -> u64 {
        self.id
    }
}

impl Identity {
    pub fn new(id: u64) -> (r: Identity)
        ensures
            r@ == id,
    {
        Identity { id }
    }
}

/// Evidence accompanying a call that the execution environment has
/// cryptographically established the caller acted on behalf of `subject`.
/// Authentication is modelled as this explicit precondition object rather
/// than inferred from ambient context: an operation that demands proof from
/// identity `x` accepts the call exactly when `subject` equals `x`.
#[derive(Clone, Copy, PartialEq, Eq, Structural, Debug)]
pub struct AuthProof {
    /// The identity that the environment verified as having authorized
    /// the call carrying this proof.
    pub subject: Identity,
}

impl AuthProof {
    /// True when this proof authorizes a call demanded of `claimed`.
    pub open spec fn authorizes(self, claimed: Identity) -> bool {
        self.subject@ == claimed@
    }
}

/// Which singleton configuration value a read found absent.
#[derive(Clone, Copy, PartialEq, Eq, Structural, Debug)]
pub enum MissingValue {
    /// The administrative owner was never stored.
    Owner,
    /// The reward system address was never stored.
    RewardSystem,
}

/// The failure outcomes of the contract surface. Every error is fatal for
/// the triggering transaction: the caller observes the named failure and no
/// state written by the failed operation.
#[derive(Clone, Copy, PartialEq, Eq, Structural, Debug)]
pub enum Error {
    /// `initialize` was called on an already-initialized instance.
    AlreadyInitialized,
    /// `get_owner` or `get_reward_system` was called before initialization;
    /// the payload says which value was missing, giving the two cases
    /// distinct messages.
    NotInitialized(MissingValue),
    /// `initialize` was called without a valid authorization proof from the
    /// claimed owner.
    AuthenticationFailed,
}

impl Error {
    /// The diagnostic message of this error, one distinct message per
    /// failure, suitable for surfacing as a transaction abort reason.
    pub fn message(&self) -> (r: &'static str)
        ensures
            *self == Error::AlreadyInitialized ==> r@ == "Contract already initialized"@,
            *self == Error::NotInitialized(MissingValue::Owner) ==> r@ == "Owner not set"@,
            *self == Error::NotInitialized(MissingValue::RewardSystem) ==> r@
                == "Reward system not set"@,
            *self == Error::AuthenticationFailed ==> r@ == "Authentication failed"@,
    {
        match self {
            Error::AlreadyInitialized => "Contract already initialized",
            Error::NotInitialized(MissingValue::Owner) => "Owner not set",
            Error::NotInitialized(MissingValue::RewardSystem) => "Reward system not set",
            Error::AuthenticationFailed => "Authentication failed",
        }
    }
}

/// The identifier held by each identity of an optional identity value, for
/// stating contracts about stored singletons.
pub open spec fn id_of_opt(o: Option<Identity>) -> Option<u64> {
    match o {
        Some(i) => Some(i@),
        None => None,
    }
}

/// The identifier held by a successful identity result, for stating
/// contracts about reads that can fail.
pub open spec fn id_of_result(r: Result<Identity, Error>) -> Result<u64, Error> {
    match r {
        Ok(i) => Ok(i@),
        Err(e) => Err(e),
    }
}

} // verus!
