//! The rows of the database and what the server asks of it.

pub mod group;
pub mod identity;
pub mod password;
pub mod user;

use vstd::prelude::*;

verus! {

/// Whether a reply is one row of a table that meets a condition, or nothing
/// where no row meets it.
pub open spec fn one_of<R>(rows: Seq<R>, wanted: spec_fn(R) -> bool, reply: Option<R>) -> bool {
    match reply {
        Some(row) => rows.contains(row) && wanted(row),
        None => forall|row: R| #[trigger] rows.contains(row) ==> !wanted(row),
    }
}

/// Whether a reply is every row of a table that meets a condition, in whatever
/// order.
pub open spec fn all_of<R>(rows: Seq<R>, wanted: spec_fn(R) -> bool, reply: Seq<R>) -> bool {
    reply.to_multiset() == rows.filter(wanted).to_multiset()
}

} // verus!
