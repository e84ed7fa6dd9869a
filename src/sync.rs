use vstd::prelude::*;

use std::sync::RwLock;

use crate::error::DataAvailabilityError;

verus! {

#[verifier::external_type_specification]
#[verifier::external_body]
#[verifier::reject_recursive_types(T)]
pub struct ExRwLock<T: ?Sized>(RwLock<T>);

/// Relies on `RwLock::new`: a lock that is not poisoned, holding `v`.
#[verifier::external_body]
fn new_lock(v: u64) -> (r: RwLock<u64>) {
    RwLock::new(v)
}

/// Relies on `RwLock::read`: the value, or `None` where the lock is poisoned.
/// Other holders of the lock may write at any time, so nothing is known of
/// the value.
#[verifier::external_body]
fn read_lock(l: &RwLock<u64>) -> (r: Option<u64>) {
    l.read().ok().map(|g| *g)
}

/// Relies on `RwLock::write`: stores `v` under exclusive access, and answers
/// `false` where the lock is poisoned.
#[verifier::external_body]
fn write_lock(l: &RwLock<u64>, v: u64) -> (r: bool) {
    match l.write() {
        Ok(mut g) => {
            *g = v;
            true
        },
        Err(_) => false,
    }
}

/// An event of the header subscription.
#[derive(Debug, Clone, Copy, PartialEq, Eq, Structural)]
pub enum HeaderEvent {
    /// A new head was announced at this height.
    Header(u64),
    /// One event could not be read.
    Failed,
    /// The event stream ended.
    Closed,
}

/// What the subscription loop does for one event.
#[derive(Debug, Clone, Copy, PartialEq, Eq, Structural)]
pub enum SubscriptionStep {
    /// Overwrite the sync target with this height and go on.
    Store(u64),
    /// Drop this event and go on.
    Skip,
    /// Leave the loop.
    Stop,
}

/// The step that the subscription loop takes on an event: a header's height
/// overwrites the sync target, a failed event is dropped, and the end of the
/// stream ends the loop.
pub open spec fn step_of(event: HeaderEvent) -> SubscriptionStep {
    match event {
        HeaderEvent::Header(h) => SubscriptionStep::Store(h),
        HeaderEvent::Failed => SubscriptionStep::Skip,
        HeaderEvent::Closed => SubscriptionStep::Stop,
    }
}

/// Decides what the subscription loop does with one event.
pub fn subscription_step(event: HeaderEvent) -> (r: SubscriptionStep)
    ensures
        r == step_of(event),
{
    match event {
        HeaderEvent::Header(h) => SubscriptionStep::Store(h),
        HeaderEvent::Failed => SubscriptionStep::Skip,
        HeaderEvent::Closed => SubscriptionStep::Stop,
    }
}

/// The latest chain height known to the client, shared between one writer
/// (the subscription loop) and any number of readers.
pub struct SyncTargetCache {
    target: RwLock<u64>,
}

pub open spec fn is_sync_target_error(e: DataAvailabilityError, operation: Seq<char>) -> bool {
    e matches DataAvailabilityError::SyncTargetError(op, _) && op@ == operation
}

impl SyncTargetCache {
    /// A cache that holds height `0`.
    pub fn new() -> (r: SyncTargetCache) {
        SyncTargetCache { target: new_lock(0) }
    }

    /// The cached height; a poisoned lock gives `SyncTargetError("reading", ..)`.
    pub fn read(&self) -> (r: Result<u64, DataAvailabilityError>)
        ensures
            r matches Err(e) ==> is_sync_target_error(e, "reading"@),
    {
        match read_lock(&self.target) {
            Some(h) => Ok(h),
            None => Err(
                DataAvailabilityError::SyncTargetError(
                    "reading".to_owned(),
                    "Could not read sync target".to_owned(),
                ),
            ),
        }
    }

    /// Overwrites the cached height; a poisoned lock gives
    /// `SyncTargetError("writing", ..)`.
    pub fn write(&self, height: u64) -> (r: Result<(), DataAvailabilityError>)
        ensures
            r matches Err(e) ==> is_sync_target_error(e, "writing"@),
    {
        if write_lock(&self.target, height) {
            Ok(())
        } else {
            Err(
                DataAvailabilityError::SyncTargetError(
                    "writing".to_owned(),
                    "Could not write sync target".to_owned(),
                ),
            )
        }
    }

    /// Handles one subscription event: stores a header's height, and answers
    /// whether the loop goes on. A failed event or a failed write ends only
    /// the handling of that event; the end of the stream ends the loop.
    pub fn apply_event(&self, event: HeaderEvent) -> (r: bool)
        ensures
            r <==> !(event is Closed),
    {
        match subscription_step(event) {
            SubscriptionStep::Store(h) => {
                let _ = self.write(h);
                true
            },
            SubscriptionStep::Skip => true,
            SubscriptionStep::Stop => false,
        }
    }
}

} // verus!
