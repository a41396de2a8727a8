//! From described items to the listing of a surface.

use crate::ast::{IntermediatePublicItem, PathSegment};
use crate::public_item::{item_views, path_view, PublicItem, PublicItemView};
use crate::render::token_stream;
use crate::signature::{item_tokens, segment_names};
use crate::sort::{sort, sorted_items};
use vstd::prelude::*;

verus! {

/// What a caller may ask of a listing.
#[derive(Clone, Copy, Debug)]
#[non_exhaustive]
pub struct Options {
    /// Whether the listing is to hold the items of blanket implementations,
    /// such as `impl<T> Any for T`. They are left out by default: they tell
    /// little about the surface of one library. Whoever collects the items
    /// of a surface is the one to heed this.
    pub with_blanket_implementations: bool,
    /// Whether the listing is to be in ascending order. It is by default.
    pub sorted: bool,
}

impl Default for Options {
    fn default() -> (options: Self)
        ensures
            !options.with_blanket_implementations,
            options.sorted,
    {
        Options { with_blanket_implementations: false, sorted: true }
    }
}

/// The public item that a described item is listed as: the names of its
/// path, and its canonical signature.
pub open spec fn listed(item: &IntermediatePublicItem) -> PublicItemView {
    PublicItemView { path: segment_names(item.path@), tokens: item_tokens(item) }
}

/// The public items that described items are listed as, in the order
/// given.
pub open spec fn listing(items: Seq<IntermediatePublicItem>) -> Seq<PublicItemView> {
    Seq::new(items.len(), |i: int| listed(&items[i]))
}

/// Wraps the path and the rendered signature of an item into a public
/// item.
pub fn public_item(item: &IntermediatePublicItem) -> (listed_item: PublicItem)
    ensures
        listed_item@ == listed(item),
{
    let mut path: Vec<String> = Vec::new();
    let mut i: usize = 0;
    while i < item.path.len()
        invariant
            i <= item.path.len(),
            path_view(path@) == segment_names(item.path@).take(i as int),
        decreases item.path.len() - i,
    {
        let ghost before = path@;
        let name = item.path[i].name.clone();
        path.push(name);
        proof {
            assert(path_view(path@) =~= path_view(before).push(name@));
        }
        i += 1;
    }
    proof {
        assert(segment_names(item.path@).take(i as int) =~= segment_names(item.path@));
    }
    PublicItem { path, tokens: token_stream(item) }
}

/// Lists the public items of a surface: one for each described item, in
/// ascending order if the options ask for that, else in the order given.
pub fn public_api(items: &Vec<IntermediatePublicItem>, options: Options) -> (api: Vec<PublicItem>)
    ensures
        item_views(api@) == if options.sorted {
            sorted_items(listing(items@))
        } else {
            listing(items@)
        },
{
    let mut api: Vec<PublicItem> = Vec::new();
    let mut i: usize = 0;
    while i < items.len()
        invariant
            i <= items.len(),
            item_views(api@) == listing(items@).take(i as int),
        decreases items.len() - i,
    {
        let ghost before = api@;
        let item = public_item(&items[i]);
        api.push(item);
        proof {
            assert(item_views(api@) =~= item_views(before).push(item@));
        }
        i += 1;
    }
    proof {
        assert(listing(items@).take(i as int) =~= listing(items@));
    }
    if options.sorted {
        sort(api)
    } else {
        api
    }
}

} // verus!
