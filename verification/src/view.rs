//! Which camera views keep a mist render phase from one frame to the next.
//!
//! Entities are held by their 64-bit identifiers; a retained view is the
//! triple (main entity, optional auxiliary entity, subview index) by which the
//! renderer keys its per-view render phases.

use vstd::prelude::*;

verus! {

/// A render-world view as the renderer keys its phases.
#[derive(Clone, Copy, PartialEq, Eq, Structural, Hash, Debug)]
pub struct ViewKey {
    pub main_entity: u64,
    pub auxiliary_entity: Option<u64>,
    pub subview_index: u32,
}

/// A 2D camera of the main world at extraction time.
#[derive(Clone, Copy, PartialEq, Eq, Structural, Debug)]
pub struct CameraState {
    pub entity: u64,
    pub is_active: bool,
}

/// The view that a camera renders itself: no auxiliary entity, first subview.
pub open spec fn primary_view(camera: u64) -> ViewKey {
    ViewKey { main_entity: camera, auxiliary_entity: None, subview_index: 0 }
}

/// The views that keep a mist phase: the primary view of each active camera,
/// each once, in camera order.
pub open spec fn live_view_seq(cameras: Seq<CameraState>) -> Seq<ViewKey>
    decreases cameras.len(),
{
    if cameras.len() == 0 {
        Seq::empty()
    } else {
        let rest = live_view_seq(cameras.drop_last());
        let camera = cameras.last();
        if camera.is_active && !rest.contains(primary_view(camera.entity)) {
            rest.push(primary_view(camera.entity))
        } else {
            rest
        }
    }
}

/// The mist phases after extraction, given the views that had one before: every
/// live view gets a phase (a fresh one, or its old one prepared for the new
/// frame) and every other phase is dropped.
pub open spec fn phases_after_extraction(before: Set<ViewKey>, cameras: Seq<CameraState>) -> Set<
    ViewKey,
> {
    before.union(live_view_seq(cameras).to_set()).filter(
        |view: ViewKey| live_view_seq(cameras).contains(view),
    )
}

impl ViewKey {
    /// The primary view of `camera`.
    pub fn primary(camera: u64) -> (view: Self)
        ensures
            view == primary_view(camera),
            view.main_entity == camera,
            view.auxiliary_entity == None::<u64>,
            view.subview_index == 0,
    {
        ViewKey { main_entity: camera, auxiliary_entity: None, subview_index: 0 }
    }
}

/// The views whose mist phase is kept this frame: the primary views of the
/// active cameras.
pub fn live_views(cameras: &Vec<CameraState>) -> (live: Vec<ViewKey>)
    ensures
        live@ == live_view_seq(cameras@),
        forall|view: ViewKey|
            #[trigger] live@.contains(view) <==> exists|i: int|
                0 <= i < cameras@.len() && (#[trigger] cameras@[i]).is_active && view.main_entity
                    == cameras@[i].entity && view.auxiliary_entity == None::<u64>
                    && view.subview_index == 0,
        live@.no_duplicates(),
{
    let mut live: Vec<ViewKey> = Vec::new();
    let mut i: usize = 0;
    while i < cameras.len()
        invariant
            i <= cameras.len(),
            live@ == live_view_seq(cameras@.take(i as int)),
        decreases cameras.len() - i,
    {
        assert(cameras@.take(i + 1).drop_last() =~= cameras@.take(i as int));
        let camera = cameras[i];
        if camera.is_active {
            let view = ViewKey::primary(camera.entity);
            if !is_live(&live, &view) {
                live.push(view);
            }
        }
        i = i + 1;
    }
    assert(cameras@.take(cameras.len() as int) =~= cameras@);
    proof {
        assert forall|view: ViewKey|
            #[trigger] live@.contains(view) <==> exists|i: int|
                0 <= i < cameras@.len() && (#[trigger] cameras@[i]).is_active && view.main_entity
                    == cameras@[i].entity && view.auxiliary_entity == None::<u64>
                    && view.subview_index == 0 by {
            live_views_keep_main_view_of_active_cameras(cameras@, view);
        }
        live_views_are_active_camera_views(cameras@, primary_view(0));
    }
    live
}

/// Whether `view` is one of the `live` views, that is, whether its phase is kept.
pub fn is_live(live: &Vec<ViewKey>, view: &ViewKey) -> (kept: bool)
    ensures
        kept == live@.contains(*view),
{
    let mut i: usize = 0;
    while i < live.len()
        invariant
            i <= live.len(),
            forall|j: int| 0 <= j < i ==> live@[j] != *view,
        decreases live.len() - i,
    {
        if live[i] == *view {
            return true;
        }
        i = i + 1;
    }
    false
}

proof fn lemma_push_contains(s: Seq<ViewKey>, x: ViewKey, key: ViewKey)
    ensures
        s.push(x).contains(key) <==> (s.contains(key) || key == x),
{
    if s.push(x).contains(key) {
        let i = choose|i: int| 0 <= i < s.push(x).len() && s.push(x)[i] == key;
        if i < s.len() {
            assert(s[i] == key);
        }
    }
    if s.contains(key) {
        let i = choose|i: int| 0 <= i < s.len() && s[i] == key;
        assert(s.push(x)[i] == key);
    }
    if key == x {
        assert(s.push(x)[s.len() as int] == key);
    }
}

/// A view is live exactly when it is the primary view of some active camera,
/// and no view is listed twice.
pub proof fn live_views_are_active_camera_views(cameras: Seq<CameraState>, view: ViewKey)
    ensures
        live_view_seq(cameras).contains(view) <==> exists|i: int|
            0 <= i < cameras.len() && (#[trigger] cameras[i]).is_active && view == primary_view(
                cameras[i].entity,
            ),
        live_view_seq(cameras).no_duplicates(),
    decreases cameras.len(),
{
    if cameras.len() > 0 {
        let init = cameras.drop_last();
        let last = cameras.last();
        let rest = live_view_seq(init);
        live_views_are_active_camera_views(init, view);
        live_views_are_active_camera_views(init, primary_view(last.entity));
        lemma_push_contains(rest, primary_view(last.entity), view);
        if exists|i: int|
            0 <= i < cameras.len() && (#[trigger] cameras[i]).is_active && view == primary_view(
                cameras[i].entity,
            ) {
            let i = choose|i: int|
                0 <= i < cameras.len() && (#[trigger] cameras[i]).is_active && view
                    == primary_view(cameras[i].entity);
            if i < cameras.len() - 1 {
                assert(init[i] == cameras[i]);
            }
        }
        if exists|i: int|
            0 <= i < init.len() && (#[trigger] init[i]).is_active && view == primary_view(
                init[i].entity,
            ) {
            let i = choose|i: int|
                0 <= i < init.len() && (#[trigger] init[i]).is_active && view == primary_view(
                    init[i].entity,
                );
            assert(cameras[i] == init[i]);
        }
        if last.is_active && view == primary_view(last.entity) {
            assert(cameras[cameras.len() - 1] == last);
        }
        if last.is_active && !rest.contains(primary_view(last.entity)) {
            let pushed = rest.push(primary_view(last.entity));
            assert forall|a: int, b: int|
                0 <= a < pushed.len() && 0 <= b < pushed.len() && a != b implies pushed[a]
                != pushed[b] by {
                if a < rest.len() && b == rest.len() {
                    assert(rest[a] != primary_view(last.entity));
                }
                if b < rest.len() && a == rest.len() {
                    assert(rest[b] != primary_view(last.entity));
                }
            }
        }
    }
}

/// After extraction the views that own a mist phase are exactly the live
/// views, whatever views owned one before: phases of inactive or removed
/// cameras, and of views other than a camera's primary view, are dropped.
pub proof fn extraction_keeps_phases_of_live_views_only(
    before: Set<ViewKey>,
    cameras: Seq<CameraState>,
)
    ensures
        phases_after_extraction(before, cameras) == live_view_seq(cameras).to_set(),
{
    assert(phases_after_extraction(before, cameras) =~= live_view_seq(cameras).to_set());
}

/// The view kept for an active camera is its main view: the camera itself,
/// no auxiliary entity, the first subview (index 0). A view is live exactly
/// when some active camera is its main entity and it has no auxiliary entity
/// and subview index 0.
pub proof fn live_views_keep_main_view_of_active_cameras(cameras: Seq<CameraState>, view: ViewKey)
    ensures
        live_view_seq(cameras).contains(view) <==> exists|i: int|
            0 <= i < cameras.len() && (#[trigger] cameras[i]).is_active && view.main_entity
                == cameras[i].entity && view.auxiliary_entity == None::<u64>
                && view.subview_index == 0,
{
    live_views_are_active_camera_views(cameras, view);
    if exists|i: int|
        0 <= i < cameras.len() && (#[trigger] cameras[i]).is_active && view.main_entity
            == cameras[i].entity && view.auxiliary_entity == None::<u64> && view.subview_index
            == 0 {
        let i = choose|i: int|
            0 <= i < cameras.len() && (#[trigger] cameras[i]).is_active && view.main_entity
                == cameras[i].entity && view.auxiliary_entity == None::<u64>
                && view.subview_index == 0;
        assert(view == primary_view(cameras[i].entity));
    }
    if exists|i: int|
        0 <= i < cameras.len() && (#[trigger] cameras[i]).is_active && view == primary_view(
            cameras[i].entity,
        ) {
        let i = choose|i: int|
            0 <= i < cameras.len() && (#[trigger] cameras[i]).is_active && view == primary_view(
                cameras[i].entity,
            );
        assert(view.main_entity == cameras[i].entity);
    }
}

} // verus!
