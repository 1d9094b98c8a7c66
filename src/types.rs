//! The payload type carried by the broker's topics.

use vstd::prelude::*;

verus! {

/// A payload as the broker stores it: the text of one JSON value.
pub type TopicType = String;

} // verus!
