//! Well-known host-guest socket service GUIDs.

use vstd::prelude::*;

verus! {

/// Wildcard: matches any service.
pub const WILDCARD: &'static str = "00000000-0000-0000-0000-000000000000";

/// Parent partition (the host).
pub const PARENT: &'static str = "a42e7cda-d03f-480c-9cc2-a4de20abb878";

/// The agent service.
pub const AGENT: &'static str = "aaaaaaaa-aaaa-aaaa-aaaa-aaaaaaaaaaaa";

} // verus!
