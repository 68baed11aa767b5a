use vstd::prelude::*;

use crate::error::{reported_or, take_error, MetalKitError};

verus! {

/// The items of `items` that are present, in their order.
pub open spec fn present_items<T>(items: Seq<Option<T>>) -> Seq<T>
    decreases items.len(),
{
    if items.len() == 0 {
        Seq::empty()
    } else {
        let rest = present_items(items.drop_last());
        match items.last() {
            Some(item) => rest.push(item),
            None => rest,
        }
    }
}

/// Appending a present item keeps it; appending a missing item changes
/// nothing; nothing is kept of an empty list.
pub proof fn lemma_present_items_push<T>(items: Seq<Option<T>>, item: Option<T>)
    ensures
        present_items(Seq::<Option<T>>::empty()) == Seq::<T>::empty(),
        item matches Some(x) ==> present_items(items.push(item)) == present_items(items).push(x),
        item is None ==> present_items(items.push(item)) == present_items(items),
{
    assert(items.push(item).drop_last() =~= items);
    assert(items.push(item).last() == item);
}

/// The kept items are exactly what `filter_map` keeps when it unwraps each
/// item: every present item, in its order, and nothing else.
pub proof fn lemma_present_items_is_filter_map<T>(items: Seq<Option<T>>)
    ensures
        present_items(items) == items.filter_map(|o: Option<T>| o),
    decreases items.len(),
{
    if items.len() > 0 {
        lemma_present_items_is_filter_map(items.drop_last());
        let f = |o: Option<T>| o;
        match items.last() {
            Some(x) => {
                assert(present_items(items.drop_last()).push(x) =~= items.drop_last().filter_map(f)
                    + seq![x]);
            },
            None => {},
        }
    }
}

/// As many items are kept as there are present items.
pub proof fn lemma_present_items_len<T>(items: Seq<Option<T>>)
    ensures
        present_items(items).len() == items.filter(|o: Option<T>| o is Some).len(),
    decreases items.len(),
{
    let pred = |o: Option<T>| o is Some;
    if items.len() == 0 {
        reveal(Seq::filter);
    } else {
        let rest = items.drop_last();
        lemma_present_items_len(rest);
        assert(rest.push(items.last()) =~= items);
        rest.lemma_filter_push(items.last(), pred);
    }
}

/// Keeps the items that are present, in their order: what the bridge hands
/// back for a list of objects, some of which may be missing.
pub fn filter_present<T>(items: Vec<Option<T>>) -> (present: Vec<T>)
    ensures
        present@ == present_items(items@),
        present@ == items@.filter_map(|o: Option<T>| o),
        present@.len() == items@.filter(|o: Option<T>| o is Some).len(),
{
    proof {
        lemma_present_items_is_filter_map(items@);
        lemma_present_items_len(items@);
    }
    let ghost all = items@;
    let mut present: Vec<T> = Vec::new();
    for item in it: items.into_iter()
        invariant
            it.seq() == all,
            present@ == present_items(all.take(it.index() as int)),
    {
        let ghost i = it.index() as int;
        assert(all.take(i + 1).drop_last() =~= all.take(i));
        assert(all.take(i + 1).last() == item);
        match item {
            Some(x) => present.push(x),
            None => {},
        }
    }
    assert(all.take(all.len() as int) =~= all);
    present
}

/// The `MTKMesh` objects made from an `MDLAsset`, beside the `MDLMesh`
/// objects they were made from.
#[derive(Debug, Clone)]
pub struct MeshAssetConversion<M, S> {
    pub meshes: Vec<M>,
    pub source_meshes: Vec<S>,
}

/// The fallback message of a failed conversion of an asset into meshes.
pub open spec fn mesh_asset_failure() -> Seq<char> {
    "failed to create MTKMesh objects from MDLAsset"@
}

impl<M, S> MeshAssetConversion<M, S> {
    /// Builds the outcome of converting an asset into meshes from what the
    /// bridge handed back: for a result, the meshes and source meshes at each
    /// index (missing ones are dropped); else the reported error.
    pub fn from_bridge_result(
        result: Option<(Vec<Option<M>>, Vec<Option<S>>)>,
        message: Option<String>,
    ) -> (conversion: Result<Self, MetalKitError>)
        ensures
            result is None ==> (conversion matches Err(err) && err@ == reported_or(
                message,
                mesh_asset_failure(),
            )),
            result matches Some(r) ==> (conversion matches Ok(c) && c.meshes@ == present_items(r.0@)
                && c.source_meshes@ == present_items(r.1@)),
    {
        match result {
            Some((meshes, source_meshes)) => Ok(
                MeshAssetConversion {
                    meshes: filter_present(meshes),
                    source_meshes: filter_present(source_meshes),
                },
            ),
            None => Err(take_error(message, "failed to create MTKMesh objects from MDLAsset")),
        }
    }
}

} // verus!
