//! Session identifiers: how one is written in the table, and where a new one
//! comes from.

use vstd::prelude::*;

verus! {

/// The text under which the identifier `id` is kept in the table: what
/// `tower_sessions_core::session::Id(id)` displays.
pub uninterp spec fn id_text(id: i128) -> Seq<char>;

/// The `Display` of `tower_sessions_core::session::Id`. Believed, not
/// proved: the text depends on the number alone (it is the unpadded URL-safe
/// base64 of the number's sixteen bytes, the least significant first), and is
/// what [`id_text`] names.
#[verifier::external_body]
pub(crate) fn render_id(id: i128) -> (text: String)
    ensures
        text@ == id_text(id),
{
    tower_sessions_core::session::Id(id).to_string()
}

/// `tower_sessions_core::session::Id::default()`: an identifier drawn from
/// the thread's random number generator. Nothing is claimed of the number.
/// The call takes no argument; it fails only where the system gives the
/// thread no entropy to start from.
#[verifier::external_body]
pub(crate) fn random_id() -> i128 {
    tower_sessions_core::session::Id::default().0
}

} // verus!
