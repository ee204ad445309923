//! The map in which one pass over the board stages the sources it will
//! write, so that every read of the pass sees the board as it was before.

use crate::wetness::WetnessSource;
use bevy::utils::HashMap;
use vstd::prelude::*;

verus! {

/// The staged sources of one pass, by the index of the cell they are for.
/// It holds a `bevy::utils::HashMap`, which is not verified here.
#[verifier::external_body]
pub struct SourceChanges {
    map: HashMap<usize, WetnessSource>,
}

/// What a `SourceChanges` holds: the staged source of each cell that has
/// one.
pub uninterp spec fn staged(changes: SourceChanges) -> Map<usize, WetnessSource>;

/// `HashMap::default` of `bevy::utils` (hashbrown's map with a fixed
/// hasher): trusted to give a map that holds nothing.
#[verifier::external_body]
pub(crate) fn new_changes() -> (fresh: SourceChanges)
    ensures
        forall|tile: usize| !staged(fresh).contains_key(tile),
{
    SourceChanges { map: HashMap::default() }
}

/// `HashMap::insert` of hashbrown: trusted to leave the map holding `source`
/// for `tile` and everything else it held for other cells.
#[verifier::external_body]
pub(crate) fn stage(changes: &mut SourceChanges, tile: usize, source: WetnessSource)
    ensures
        staged(*final(changes)) == staged(*old(changes)).insert(tile, source),
{
    changes.map.insert(tile, source);
}

/// `HashMap::iter` of hashbrown: trusted to hand out every entry of the
/// map, and nothing that the map does not hold. The order is the map's
/// own and nothing is claimed of it.
#[verifier::external_body]
pub(crate) fn staged_entries(changes: &SourceChanges) -> (entries: Vec<(usize, WetnessSource)>)
    ensures
        forall|i: int|
            0 <= i < entries@.len() ==> staged(*changes).contains_pair(
                (#[trigger] entries@[i]).0,
                entries@[i].1,
            ),
        forall|tile: usize|
            staged(*changes).contains_key(tile) ==> exists|i: int|
                0 <= i < entries@.len() && (#[trigger] entries@[i]).0 == tile,
{
    changes.map.iter().map(|(tile, source)| (*tile, *source)).collect()
}

} // verus!
