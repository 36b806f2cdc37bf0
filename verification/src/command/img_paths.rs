//! Picking a wallpaper among the configured paths.
//!
//! The file system is read by the application: for each configured path it
//! hands over a `PathKind` that says whether the path is a file, a directory
//! (with the paths of its direct entries), or neither.

use rand::seq::IndexedRandom;
use vstd::prelude::*;

verus! {

/// What the file system says about a configured wallpaper path.
#[derive(Debug)]
pub enum PathKind {
    /// A readable file: it is the wallpaper itself.
    File,
    /// A directory, with the paths of its direct entries (its subtree is not
    /// walked).
    Dir(Vec<String>),
    /// Neither a file nor a directory: the path is used as it is.
    Other,
}

/// `img` may be the wallpaper picked for `path` of kind `kind`: an entry of
/// the directory, or else the path itself.
pub open spec fn resolves_to(path: Seq<char>, kind: PathKind, img: Seq<char>) -> bool {
    match kind {
        PathKind::Dir(entries) => exists|j: int| 0 <= j < entries.len() && #[trigger] entries@[j]@ == img,
        _ => img == path,
    }
}

/// A directory of kind `kind` is not empty.
pub open spec fn has_candidates(kind: PathKind) -> bool {
    kind matches PathKind::Dir(entries) ==> entries.len() > 0
}

/// Calls `rand::seq::IndexedRandom::choose` on `items` with the thread-local
/// generator of `rand::rng()`.
///
/// The result is `None` exactly when `items` is empty, and otherwise one of
/// its elements; which one is left open, as it rests on chance.
#[verifier::external_body]
fn choose_one(items: &[usize]) -> (r: Option<&usize>)
    ensures
        items@.len() == 0 <==> r is None,
        r matches Some(x) ==> items@.contains(*x),
{
    let mut rng = rand::rng();
    items.choose(&mut rng)
}

/// The indices `0..len`, in order.
fn index_list(len: usize) -> (r: Vec<usize>)
    ensures
        r@.len() == len,
        forall|i: int| 0 <= i < len ==> r@[i] == i,
{
    let mut r: Vec<usize> = Vec::new();
    let mut i: usize = 0;
    while i < len
        invariant
            i <= len,
            r@.len() == i,
            forall|k: int| 0 <= k < i ==> r@[k] == k,
        decreases len - i,
    {
        r.push(i);
        i = i + 1;
    }
    r
}

/// A random index below `len`.
fn random_index(len: usize) -> (r: usize)
    requires
        len > 0,
    ensures
        r < len,
{
    let rand_index = index_list(len);
    match choose_one(rand_index.as_slice()) {
        Some(i) => *i,
        None => 0,
    }
}

/// The wallpaper for `path` of kind `kind` when the draw among a
/// directory's entries gave `drawn`: that entry for a directory, else the
/// path itself.
pub open spec fn resolved_with(path: Seq<char>, kind: PathKind, drawn: int) -> Seq<char> {
    match kind {
        PathKind::Dir(entries) => entries@[drawn]@,
        _ => path,
    }
}

/// A draw `drawn` is one that can be made for `kind`: an index of an entry
/// when `kind` is a directory.
pub open spec fn draw_fits(kind: PathKind, drawn: int) -> bool {
    kind matches PathKind::Dir(entries) ==> 0 <= drawn < entries.len()
}

/// Every entry of a directory can come out: the draw of index `j` gives
/// entry `j`, and what a draw gives is always one the path resolves to.
pub proof fn law_every_entry_can_be_drawn(path: Seq<char>, kind: PathKind, j: int)
    requires
        draw_fits(kind, j),
    ensures
        kind matches PathKind::Dir(entries) ==> resolved_with(path, kind, j) == entries@[j]@,
        resolves_to(path, kind, resolved_with(path, kind, j)),
{
}

/// The wallpaper for one configured path, once the draw among a directory's
/// entries has given `drawn`.
pub fn resolve_with_draw(path: &str, kind: &PathKind, drawn: usize) -> (r: String)
    requires
        draw_fits(*kind, drawn as int),
    ensures
        r@ == resolved_with(path@, *kind, drawn as int),
{
    match kind {
        PathKind::Dir(imgs) => {
            let img = imgs[drawn].clone();
            img
        },
        _ => path.to_owned(),
    }
}

/// The wallpaper for one configured path: the path itself when it is a file
/// or neither a file nor a directory, a random direct entry when it is a
/// directory.
pub fn random_img_single_path(path: &str, kind: &PathKind) -> (r: String)
    requires
        has_candidates(*kind),
    ensures
        resolves_to(path@, *kind, r@),
{
    let drawn = match kind {
        PathKind::Dir(imgs) => random_index(imgs.len()),
        _ => 0,
    };
    let img = resolve_with_draw(path, kind, drawn);
    proof {
        law_every_entry_can_be_drawn(path@, *kind, drawn as int);
    }
    img
}

/// The wallpaper picked among `paths` when the draw for each path gave
/// `entry_draws` and the draw among the paths gave `path_draw`.
pub open spec fn wallpaper_with_draws(
    paths: Seq<(String, PathKind)>,
    entry_draws: Seq<usize>,
    path_draw: int,
) -> Seq<char> {
    resolved_with(paths[path_draw].0@, paths[path_draw].1, entry_draws[path_draw] as int)
}

/// Every configured path can supply the wallpaper: when the draw among the
/// paths gives index `i`, the wallpaper is one that path `i` resolves to.
pub proof fn law_every_path_can_supply(
    paths: Seq<(String, PathKind)>,
    entry_draws: Seq<usize>,
    i: int,
)
    requires
        0 <= i < paths.len(),
        entry_draws.len() == paths.len(),
        draw_fits(paths[i].1, entry_draws[i] as int),
    ensures
        resolves_to(paths[i].0@, paths[i].1, wallpaper_with_draws(paths, entry_draws, i)),
        wallpaper_with_draws(paths, entry_draws, i) == resolved_with(
            paths[i].0@,
            paths[i].1,
            entry_draws[i] as int,
        ),
{
    law_every_entry_can_be_drawn(paths[i].0@, paths[i].1, entry_draws[i] as int);
}

/// Picks a wallpaper for each configured path with the draws `entry_draws`,
/// then the one of path `path_draw`.
pub fn random_img_with_draws(
    paths: &Vec<(String, PathKind)>,
    entry_draws: &Vec<usize>,
    path_draw: usize,
) -> (r: String)
    requires
        path_draw < paths.len(),
        entry_draws.len() == paths.len(),
        forall|i: int| 0 <= i < paths.len() ==> draw_fits(#[trigger] paths@[i].1, entry_draws@[i] as int),
    ensures
        r@ == wallpaper_with_draws(paths@, entry_draws@, path_draw as int),
{
    let mut rando_paths: Vec<String> = Vec::new();
    let mut k: usize = 0;
    while k < paths.len()
        invariant
            k <= paths.len(),
            entry_draws.len() == paths.len(),
            rando_paths@.len() == k,
            forall|i: int| 0 <= i < paths.len() ==> draw_fits(#[trigger] paths@[i].1, entry_draws@[i] as int),
            forall|i: int|
                0 <= i < k ==> #[trigger] rando_paths@[i]@ == resolved_with(
                    paths@[i].0@,
                    paths@[i].1,
                    entry_draws@[i] as int,
                ),
        decreases paths.len() - k,
    {
        let img = resolve_with_draw(paths[k].0.as_str(), &paths[k].1, entry_draws[k]);
        rando_paths.push(img);
        k = k + 1;
    }
    rando_paths[path_draw].clone()
}

/// Picks a wallpaper for each configured path, then one of those at random.
pub fn random_img(paths: &Vec<(String, PathKind)>) -> (r: String)
    requires
        paths.len() > 0,
        forall|i: int| 0 <= i < paths.len() ==> has_candidates(#[trigger] paths@[i].1),
    ensures
        exists|i: int| 0 <= i < paths.len() && resolves_to(#[trigger] paths@[i].0@, paths@[i].1, r@),
{
    let mut entry_draws: Vec<usize> = Vec::new();
    let mut k: usize = 0;
    while k < paths.len()
        invariant
            k <= paths.len(),
            entry_draws@.len() == k,
            forall|i: int| 0 <= i < paths.len() ==> has_candidates(#[trigger] paths@[i].1),
            forall|i: int| 0 <= i < k ==> draw_fits(#[trigger] paths@[i].1, entry_draws@[i] as int),
        decreases paths.len() - k,
    {
        let drawn = match &paths[k].1 {
            PathKind::Dir(imgs) => random_index(imgs.len()),
            _ => 0,
        };
        entry_draws.push(drawn);
        k = k + 1;
    }
    let i = random_index(paths.len());
    let img = random_img_with_draws(paths, &entry_draws, i);
    proof {
        law_every_path_can_supply(paths@, entry_draws@, i as int);
    }
    img
}

} // verus!
