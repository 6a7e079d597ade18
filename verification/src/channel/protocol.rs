//! The protocol trait that every message type of a channel implements, and
//! the feature check a channel makes before it sends a message.

use vstd::prelude::*;
use crate::channel::id::ChannelId;
use crate::channel::error::ChannelError;
use crate::text::{contains_str};

verus! {

/// A message type carried by a channel.
pub trait Protocol {
    /// The name of the method this message stands for.
    fn method_name(&self) -> &'static str;

    /// Whether this message is a request, as opposed to a response.
    fn is_request(&self) -> bool;

    /// The features that the channel must have negotiated to carry this
    /// message; none by default.
    fn required_features(&self) -> (r: &'static [&'static str])
        default_ensures
            r@.len() == 0,
    {
        &[]
    }
}

/// Whether `features` holds a string with the characters of `f`.
pub open spec fn has_feature(features: Seq<String>, f: Seq<char>) -> bool {
    exists|i: int| 0 <= i < features.len() && #[trigger] features[i]@ == f
}

/// Checks that every feature in `required` was negotiated. On the first
/// one missing, the error names it, the method and the channel.
pub fn validate_features(
    channel_id: ChannelId,
    negotiated: &Vec<String>,
    required: &[&str],
    method: &str,
) -> (r: Result<(), ChannelError>)
    ensures
        r is Ok <==> forall|k: int| 0 <= k < required@.len() ==> has_feature(
            negotiated@,
            #[trigger] required@[k]@,
        ),
        r matches Err(e) ==> exists|k: int|
            {
                &&& 0 <= k < required@.len()
                &&& !has_feature(negotiated@, #[trigger] required@[k]@)
                &&& forall|j: int| 0 <= j < k ==> has_feature(negotiated@, #[trigger] required@[j]@)
                &&& e matches ChannelError::FeatureNotSupported { channel_id: c, feature, method: m }
                &&& c == channel_id
                &&& feature@ == required@[k]@
                &&& m@ == method@
            },
{
    let mut i: usize = 0;
    while i < required.len()
        invariant
            i <= required@.len(),
            forall|j: int| 0 <= j < i ==> has_feature(negotiated@, #[trigger] required@[j]@),
        decreases required@.len() - i,
    {
        let f = required[i];
        if !contains_str(negotiated, f) {
            return Err(
                ChannelError::FeatureNotSupported {
                    channel_id,
                    feature: f.to_string(),
                    method: method.to_string(),
                },
            );
        }
        i = i + 1;
    }
    Ok(())
}

} // verus!
