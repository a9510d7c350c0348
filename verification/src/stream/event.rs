//! Update events and the channels they travel on.
use crate::services::product::model::{NewProduct, Product};
use vstd::prelude::*;

verus! {

/// A change to the catalog.
#[derive(Debug, PartialEq)]
pub enum Update {
    /// A product to be created.
    NewProduct(NewProduct),
    /// A stored product to be overwritten.
    UpdateProduct(Product),
}

impl Clone for Update {
    fn clone(&self) -> (copy: Self)
        ensures
            copy == *self,
    {
        match self {
            Update::NewProduct(product) => Update::NewProduct(product.clone()),
            Update::UpdateProduct(product) => Update::UpdateProduct(product.clone()),
        }
    }
}

/// A queue of updates, known to the store by its name.
#[derive(Debug, PartialEq, Eq, Structural)]
pub enum StreamChannel {
    ProductUpdates,
}

impl Clone for StreamChannel {
    fn clone(&self) -> (copy: Self)
        ensures
            copy == *self,
    {
        match self {
            StreamChannel::ProductUpdates => StreamChannel::ProductUpdates,
        }
    }
}

impl Copy for StreamChannel {

}

impl StreamChannel {
    /// The channel on which a given update travels.
    pub open spec fn of(update: Update) -> StreamChannel {
        match update {
            Update::NewProduct(_) => StreamChannel::ProductUpdates,
            Update::UpdateProduct(_) => StreamChannel::ProductUpdates,
        }
    }

    /// The name under which the store keeps the channel's queue.
    pub open spec fn spec_name(self) -> Seq<char> {
        match self {
            StreamChannel::ProductUpdates => "product_updates"@,
        }
    }

    /// The channel on which `update` travels.
    pub fn from_update(update: &Update) -> (channel: Self)
        ensures
            channel == Self::of(*update),
    {
        match update {
            Update::NewProduct(_) => StreamChannel::ProductUpdates,
            Update::UpdateProduct(_) => StreamChannel::ProductUpdates,
        }
    }

    /// The name under which the store keeps the channel's queue.
    pub fn name(self) -> (name: &'static str)
        ensures
            name@ == self.spec_name(),
    {
        match self {
            StreamChannel::ProductUpdates => "product_updates",
        }
    }
}

/// An update on its way through the queue, with the number of times its
/// application has failed so far.
#[derive(Debug, PartialEq)]
pub struct UpdateStreamEvent {
    pub update: Update,
    pub attempt_count: usize,
}

impl Clone for UpdateStreamEvent {
    fn clone(&self) -> (copy: Self)
        ensures
            copy == *self,
    {
        UpdateStreamEvent { update: self.update.clone(), attempt_count: self.attempt_count }
    }
}

impl UpdateStreamEvent {
    /// An event that has not been tried yet.
    pub open spec fn fresh(update: Update) -> UpdateStreamEvent {
        UpdateStreamEvent { update, attempt_count: 0 }
    }

    /// Wraps `update` for its first trip through the queue.
    pub fn new(update: Update) -> (event: Self)
        ensures
            event == Self::fresh(update),
    {
        UpdateStreamEvent { update, attempt_count: 0 }
    }
}

/// `Duration::clone` of std: a `Duration` is `Copy`, so the clone is the
/// value itself.
pub assume_specification[ <std::time::Duration as Clone>::clone ](
    duration: &std::time::Duration,
) -> (copy: std::time::Duration)
    ensures
        copy == *duration,
;

/// When a client of the stream looks for work.
#[derive(Debug, PartialEq)]
pub enum StreamMode {
    /// Whenever it is told that there is some.
    OnEvent,
    /// At a fixed interval.
    OnSchedule(std::time::Duration),
}

impl Clone for StreamMode {
    fn clone(&self) -> (copy: Self)
        ensures
            copy == *self,
    {
        match self {
            StreamMode::OnEvent => StreamMode::OnEvent,
            StreamMode::OnSchedule(interval) => StreamMode::OnSchedule(interval.clone()),
        }
    }
}

/// How a client reaches the store and when it looks for work.
#[derive(Debug, PartialEq)]
pub struct Client {
    pub mode: StreamMode,
    pub connection_addr: String,
}

impl Clone for Client {
    fn clone(&self) -> (copy: Self)
        ensures
            copy == *self,
    {
        Client { mode: self.mode.clone(), connection_addr: self.connection_addr.clone() }
    }
}

} // verus!
