//! Client-side data model for a ground-station scheduling API.
//!
//! The heart of the crate is a tolerant wire-format decoding layer: codecs
//! that turn the API's inconsistent JSON envelope shapes (hypermedia link
//! maps, mixed string/numeric timestamps, CIDR address ranges, paginated
//! wrappers) into strongly typed records without letting one malformed
//! sub-element poison a whole response.

use vstd::prelude::*;

pub mod account;
pub mod band;
pub mod digits;
pub mod error;
pub mod gateway_licenses;
pub mod pagination;
pub mod satellite;
pub mod satellite_configuration;
pub mod site;
pub mod task;
pub mod task_override;
pub mod utils;
pub mod wire;

use crate::utils::links::LinkMap;

verus! {

/// The capability shared by every record that carries hypermedia links:
/// its link map can be read and replaced in place.
///
/// Envelope unwrapping depends on this capability to re-attach the link
/// map it extracts from wire packaging to the payload it returns.
pub trait Hateoas: Sized + DeepView {
    /// The link map of an abstract record value.
    spec fn spec_links(m: Self::V) -> Map<Seq<char>, Seq<char>>;

    /// The abstract record value with its link map replaced and every
    /// other part unchanged.
    spec fn spec_with_links(m: Self::V, links: Map<Seq<char>, Seq<char>>) -> Self::V;

    /// Replacing the link map stores exactly the given map.
    proof fn lemma_with_links(m: Self::V, links: Map<Seq<char>, Seq<char>>)
        ensures
            Self::spec_links(Self::spec_with_links(m, links)) == links,
    ;

    /// Reads the record's link map.
    fn get_links(&self) -> (r: &LinkMap)
        ensures
            r@ == Self::spec_links(self.deep_view()),
    ;

    /// Replaces the record's link map.
    fn set_links(&mut self, links: LinkMap)
        ensures
            final(self).deep_view() == Self::spec_with_links(old(self).deep_view(), links@),
    ;
}

} // verus!
