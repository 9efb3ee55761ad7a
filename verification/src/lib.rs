//! A configuration-driven host health checker.
//!
//! The library models monitorable targets (currently HTTP endpoints with
//! optional expectations on the response status code and body), validates
//! their construction, and classifies what one probe of a target observed
//! into a health outcome. Performing the network request itself, reading
//! the configuration document, and reporting are left to the surrounding
//! program; the decision logic here is verified.

use vstd::prelude::*;

pub mod host;
pub mod monitor;
pub mod pattern;

verus! {

/// The suffix that makes "host" agree in number with `count`:
/// empty for exactly one, `"s"` otherwise.
pub fn plural_suffix(count: usize) -> (r: &'static str)
    ensures
        r@ == if count == 1 {
            Seq::<char>::empty()
        } else {
            seq!['s']
        },
{
    if count == 1 {
        proof {
            reveal_strlit("");
        }
        ""
    } else {
        proof {
            reveal_strlit("s");
        }
        "s"
    }
}

} // verus!
