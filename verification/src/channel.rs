//! Trusted declarations for the request channels. The standard in-process
//! channel carries the request messages between a window and its host
//! shell; the core only creates the pair and stores the sending halves, so
//! nothing beyond the types and the constructor is assumed here.

use vstd::prelude::*;

verus! {

/// The sending half of a standard in-process channel.
#[verifier::external_type_specification]
#[verifier::external_body]
#[verifier::reject_recursive_types(T)]
pub struct ExSender<T>(std::sync::mpsc::Sender<T>);

/// The receiving half of a standard in-process channel.
#[verifier::external_type_specification]
#[verifier::external_body]
#[verifier::reject_recursive_types(T)]
pub struct ExReceiver<T>(std::sync::mpsc::Receiver<T>);

/// Relies on std::sync::mpsc::channel: creates a connected sender/receiver
/// pair. Which values later travel through it is host-shell behaviour, so
/// nothing is assumed of the pair.
pub assume_specification<T>[ std::sync::mpsc::channel::<T> ]() -> (r: (
    std::sync::mpsc::Sender<T>,
    std::sync::mpsc::Receiver<T>,
));

} // verus!
