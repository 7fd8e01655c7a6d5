//! Subscription and consumption state for inbound notifications.
//!
//! Per session, each notification source is either unsubscribed or
//! subscribed; subscribing is idempotent at the session level. Inbound
//! events are buffered in arrival order, with no reordering and no
//! deduplication. A single-shot take consumes exactly one event; beginning
//! consumption with nothing subscribed is a usage error and fails fast.

use vstd::prelude::*;

use crate::registry::Endpoint;
use crate::registry::spec_can_notify;

verus! {

/// The notification sources a session can subscribe to.
#[derive(Clone, Copy, PartialEq, Eq, Structural, Debug)]
pub enum NotificationSource {
    GNSS,
    CameraControl,
    Remote,
}

/// One inbound notification: the full UUID of the characteristic it came
/// from, and its raw payload bytes.
#[derive(Clone, PartialEq, Eq, Debug)]
pub struct NotificationEvent {
    pub characteristic: u128,
    pub payload: Vec<u8>,
}

/// Errors of notification consumption.
#[derive(Clone, Copy, PartialEq, Eq, Structural, Debug)]
pub enum NotificationError {
    /// Consumption began while no source was subscribed: a usage error,
    /// surfaced immediately instead of waiting forever.
    NothingSubscribed,
}

/// The endpoint a source's notifications arrive on, where the protocol
/// defines one. The camera-control domain has no implemented subscription
/// endpoint; subscribing to it succeeds without a transport action.
pub open spec fn spec_source_endpoint(source: NotificationSource) -> Option<Endpoint> {
    match source {
        NotificationSource::GNSS => Some(Endpoint::GnssInfo),
        NotificationSource::Remote => Some(Endpoint::RemoteInfo),
        NotificationSource::CameraControl => None,
    }
}

/// Computes the endpoint a source's notifications arrive on, without
/// touching any state: the caller can perform the transport subscription
/// first and record its success afterwards.
pub fn source_endpoint(source: NotificationSource) -> (r: Option<Endpoint>)
    ensures
        r == spec_source_endpoint(source),
        r is Some ==> spec_can_notify(r->Some_0),
{
    match source {
        NotificationSource::GNSS => Some(Endpoint::GnssInfo),
        NotificationSource::Remote => Some(Endpoint::RemoteInfo),
        NotificationSource::CameraControl => None,
    }
}

/// Per-session subscription state, plus the buffer of events the transport
/// has delivered and no consumer has taken yet.
pub struct NotificationManager {
    pub gnss_subscribed: bool,
    pub remote_subscribed: bool,
    pub pending: Vec<NotificationEvent>,
}

impl NotificationManager {
    /// The source holds a live transport subscription.
    pub open spec fn spec_is_subscribed(self, source: NotificationSource) -> bool {
        match source {
            NotificationSource::GNSS => self.gnss_subscribed,
            NotificationSource::Remote => self.remote_subscribed,
            NotificationSource::CameraControl => false,
        }
    }

    /// Some source holds a live transport subscription.
    pub open spec fn spec_any_subscribed(self) -> bool {
        self.gnss_subscribed || self.remote_subscribed
    }

    /// A fresh manager: nothing subscribed, nothing buffered.
    pub fn new() -> (m: NotificationManager)
        ensures
            !m.gnss_subscribed,
            !m.remote_subscribed,
            m.pending@ == Seq::<NotificationEvent>::empty(),
    {
        NotificationManager { gnss_subscribed: false, remote_subscribed: false, pending: Vec::new() }
    }

    /// Exposes whether some source is subscribed.
    pub fn any_subscribed(&self) -> (r: bool)
        ensures
            r == self.spec_any_subscribed(),
    {
        self.gnss_subscribed || self.remote_subscribed
    }

    /// Exposes whether one source is subscribed.
    pub fn is_subscribed(&self, source: NotificationSource) -> (r: bool)
        ensures
            r == self.spec_is_subscribed(source),
    {
        match source {
            NotificationSource::GNSS => self.gnss_subscribed,
            NotificationSource::Remote => self.remote_subscribed,
            NotificationSource::CameraControl => false,
        }
    }

    /// Subscribes a source and says which endpoint the transport must now
    /// be subscribed to, if any.
    ///
    /// Law: subscribing is idempotent — on an already-subscribed source the
    /// call succeeds, changes nothing, and asks no transport action. Every
    /// endpoint handed out carries the notify capability.
    pub fn subscribe(&mut self, source: NotificationSource) -> (action: Option<Endpoint>)
        ensures
            final(self).spec_is_subscribed(source) == (spec_source_endpoint(source) is Some),
            old(self).spec_is_subscribed(source) ==> action is None && *final(self) == *old(self),
            spec_source_endpoint(source) is None ==> action is None && *final(self) == *old(self),
            (!old(self).spec_is_subscribed(source) && spec_source_endpoint(source) is Some)
                ==> action == spec_source_endpoint(source),
            action is Some ==> spec_can_notify(action->Some_0),
            final(self).pending@ == old(self).pending@,
            forall|other: NotificationSource|
                other != source ==> final(self).spec_is_subscribed(other) == old(
                    self,
                ).spec_is_subscribed(other),
    {
        match source {
            NotificationSource::GNSS => {
                if self.gnss_subscribed {
                    None
                } else {
                    self.gnss_subscribed = true;
                    Some(Endpoint::GnssInfo)
                }
            },
            NotificationSource::Remote => {
                if self.remote_subscribed {
                    None
                } else {
                    self.remote_subscribed = true;
                    Some(Endpoint::RemoteInfo)
                }
            },
            NotificationSource::CameraControl => None,
        }
    }

    /// Records one inbound event at the back of the buffer. Events keep
    /// their arrival order: no reordering, no deduplication.
    pub fn deliver(&mut self, event: NotificationEvent)
        ensures
            final(self).pending@ == old(self).pending@.push(event),
            final(self).gnss_subscribed == old(self).gnss_subscribed,
            final(self).remote_subscribed == old(self).remote_subscribed,
    {
        self.pending.push(event);
    }

    /// Takes exactly one buffered event, oldest first.
    ///
    /// Fails fast when no source is subscribed. Returns `Ok(None)` when
    /// sources are subscribed but nothing is buffered yet: the caller must
    /// then wait on the transport and `deliver` what arrives. Never
    /// consumes more than one event.
    pub fn take_single(&mut self) -> (r: Result<Option<NotificationEvent>, NotificationError>)
        ensures
            r is Err <==> !old(self).spec_any_subscribed(),
            r is Err ==> r == Err::<Option<NotificationEvent>, NotificationError>(
                NotificationError::NothingSubscribed,
            ) && *final(self) == *old(self),
            (r is Ok && old(self).pending@.len() == 0) ==> r->Ok_0 is None && *final(self) == *old(
                self,
            ),
            (r is Ok && old(self).pending@.len() > 0) ==> r->Ok_0 == Some(old(self).pending@[0])
                && final(self).pending@ == old(self).pending@.drop_first(),
            final(self).gnss_subscribed == old(self).gnss_subscribed,
            final(self).remote_subscribed == old(self).remote_subscribed,
    {
        if !(self.gnss_subscribed || self.remote_subscribed) {
            return Err(NotificationError::NothingSubscribed);
        }
        if self.pending.len() == 0 {
            return Ok(None);
        }
        let event = self.pending.remove(0);
        proof {
            assert(self.pending@ =~= old(self).pending@.drop_first());
        }
        Ok(Some(event))
    }
}

/// Law: a single-shot take consumes exactly the oldest buffered event —
/// every later event stays in the buffer, in its original position minus
/// one, untouched.
pub proof fn lemma_take_single_preserves_rest(
    before: Seq<NotificationEvent>,
    after: Seq<NotificationEvent>,
)
    requires
        before.len() > 0,
        after == before.drop_first(),
    ensures
        after.len() == before.len() - 1,
        forall|i: int| 0 <= i < after.len() ==> after[i] == before[i + 1],
{
}

} // verus!
