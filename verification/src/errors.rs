use vstd::prelude::*;

verus! {

/// Marker error: the race was lost by the wrapped operation because the user
/// requested an interrupt before the operation finished.  It carries no data;
/// its identity is the information.
#[derive(Debug, Clone, Copy, PartialEq, Eq, Structural)]
pub struct KeyboardInterrupt;

impl KeyboardInterrupt {
    /// A human-readable description of this error.
    pub fn message(&self) -> (r: &'static str)
        ensures
            r@ == "keyboard interrupt"@,
    {
        "keyboard interrupt"
    }
}

/// A fault in the interrupt-subscription mechanism itself: the signal source
/// could not be registered or read.  Deliberately distinct from
/// [`KeyboardInterrupt`]: it says the mechanism is broken, not that an
/// interrupt occurred, so a caller can treat the two differently.
#[derive(Debug, Clone)]
pub struct IoError {
    message: String,
}

impl IoError {
    /// The description of the underlying subscription failure.
    pub closed spec fn spec_message(self) -> Seq<char> {
        self.message@
    }

    /// Wrap a subscription failure, described by `message`.
    pub fn new(message: String) -> (r: IoError)
        ensures
            r.spec_message() == message@,
    {
        IoError { message }
    }

    /// A human-readable description of this error.
    pub fn message(&self) -> (r: &String)
        ensures
            r@ == self.spec_message(),
    {
        &self.message
    }
}

/// The unified error type of a race.  Every way a race can fail is one
/// variant, so a caller can distinguish "my operation failed", "the user
/// asked to stop" and "the interrupt mechanism itself is broken".
pub enum RaceError<N> {
    /// The wrapped operation's own native failure, carried through unchanged.
    Native(N),
    /// An interrupt was requested before the operation finished.
    Interrupt(KeyboardInterrupt),
    /// The interrupt subscription itself failed.
    Subscription(IoError),
}

impl<N> From<KeyboardInterrupt> for RaceError<N> {
    /// An interrupt request converts into the unified error type.
    fn from(e: KeyboardInterrupt) -> (r: RaceError<N>) {
        RaceError::Interrupt(e)
    }
}

impl<N> vstd::std_specs::convert::FromSpecImpl<KeyboardInterrupt> for RaceError<N> {
    open spec fn obeys_from_spec() -> bool {
        true
    }

    open spec fn from_spec(e: KeyboardInterrupt) -> RaceError<N> {
        RaceError::Interrupt(e)
    }
}

impl<N> From<IoError> for RaceError<N> {
    /// A subscription fault converts into the unified error type.
    fn from(e: IoError) -> (r: RaceError<N>) {
        RaceError::Subscription(e)
    }
}

impl<N> vstd::std_specs::convert::FromSpecImpl<IoError> for RaceError<N> {
    open spec fn obeys_from_spec() -> bool {
        true
    }

    open spec fn from_spec(e: IoError) -> RaceError<N> {
        RaceError::Subscription(e)
    }
}

} // verus!
