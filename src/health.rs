use vstd::prelude::*;

verus! {

/// The reply a live dependency gives to the liveness command.
pub open spec fn liveness_token() -> Seq<char> {
    "PONG"@
}

/// The confirmation carried by a healthy status.
pub open spec fn healthy_message() -> Seq<char> {
    "HELLO THERE!"@
}

/// The cause carried by an unhealthy status when the dependency answered something else.
pub open spec fn unexpected_reply_cause() -> Seq<char> {
    "Failed to ping Redis"@
}

/// What came of the one round trip to the dependency.
pub enum RoundTrip {
    /// No connection could be taken from the pool; the text describes why.
    AcquireFailed(String),
    /// A connection was taken but the command failed; the text describes why.
    CommandFailed(String),
    /// The dependency answered with this reply.
    Replied(String),
}

/// Model of a [`RoundTrip`].
pub enum RoundTripView {
    AcquireFailed { cause: Seq<char> },
    CommandFailed { cause: Seq<char> },
    Replied { reply: Seq<char> },
}

impl View for RoundTrip {
    type V = RoundTripView;

    open spec fn view(&self) -> RoundTripView {
        match self {
            RoundTrip::AcquireFailed(c) => RoundTripView::AcquireFailed { cause: c@ },
            RoundTrip::CommandFailed(c) => RoundTripView::CommandFailed { cause: c@ },
            RoundTrip::Replied(r) => RoundTripView::Replied { reply: r@ },
        }
    }
}

/// Whether the dependency is reachable and responsive.
pub enum HealthStatus {
    /// It answered with the liveness token; the text is a fixed confirmation.
    Healthy(String),
    /// It did not; the text says why.
    Unhealthy(String),
}

/// Model of a [`HealthStatus`].
pub enum HealthView {
    Healthy { message: Seq<char> },
    Unhealthy { cause: Seq<char> },
}

impl View for HealthStatus {
    type V = HealthView;

    open spec fn view(&self) -> HealthView {
        match self {
            HealthStatus::Healthy(m) => HealthView::Healthy { message: m@ },
            HealthStatus::Unhealthy(c) => HealthView::Unhealthy { cause: c@ },
        }
    }
}

/// The status that a round trip amounts to.
pub open spec fn health_of(round_trip: RoundTripView) -> HealthView {
    match round_trip {
        RoundTripView::AcquireFailed { cause } => HealthView::Unhealthy { cause },
        RoundTripView::CommandFailed { cause } => HealthView::Unhealthy { cause },
        RoundTripView::Replied { reply } => if reply == liveness_token() {
            HealthView::Healthy { message: healthy_message() }
        } else {
            HealthView::Unhealthy { cause: unexpected_reply_cause() }
        },
    }
}

/// Maps the outcome of the round trip to a health status: healthy exactly when the
/// dependency replied with the liveness token.
pub fn assess_round_trip(round_trip: RoundTrip) -> (r: HealthStatus)
    ensures
        r@ == health_of(round_trip@),
{
    match round_trip {
        RoundTrip::AcquireFailed(cause) => HealthStatus::Unhealthy(cause),
        RoundTrip::CommandFailed(cause) => HealthStatus::Unhealthy(cause),
        RoundTrip::Replied(reply) => {
            if reply == "PONG".to_owned() {
                HealthStatus::Healthy("HELLO THERE!".to_owned())
            } else {
                HealthStatus::Unhealthy("Failed to ping Redis".to_owned())
            }
        },
    }
}

impl HealthStatus {
    /// Whether the status is healthy.
    pub fn is_healthy(&self) -> (r: bool)
        ensures
            r == (self@ is Healthy),
    {
        match self {
            HealthStatus::Healthy(_) => true,
            HealthStatus::Unhealthy(_) => false,
        }
    }
}

/// The probe reports healthy if and only if the dependency replied, and its reply is the
/// liveness token; any other reply, a failed command or a failed acquisition is unhealthy.
pub proof fn lemma_healthy_iff_token(round_trip: RoundTripView)
    ensures
        health_of(round_trip) is Healthy <==> (round_trip is Replied && round_trip->Replied_reply
            == liveness_token()),
        !(round_trip is Replied) ==> health_of(round_trip) is Unhealthy,
{
}

} // verus!
