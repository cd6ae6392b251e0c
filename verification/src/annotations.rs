//! Temporal and bounding-box annotations: reading them, storing them and
//! deleting them. Annotations are the only records that are ever removed.

use vstd::prelude::*;
use vstd::string::StringExecFns;
use crate::database::{Database, DatabaseView};
use crate::error::{Entity, StoreError};
use crate::invariants::{has_video, user_ref_ok};
use crate::lookup::{find_box, find_temporal, find_user, find_video, has_box, has_temporal};
use crate::models::{
    BoundingBoxAnnotation,
    SaveBboxAnnotationRequest,
    SaveTemporalAnnotationRequest,
    TemporalAnnotation,
};

verus! {

/// The two kinds of annotation.
#[derive(Clone, Copy, Debug, PartialEq, Eq, Structural)]
pub enum AnnotationKind {
    Temporal,
    BoundingBox,
}

/// The kind that a name stands for: `temporal` or `bbox`.
pub open spec fn kind_named(name: Seq<char>) -> Option<AnnotationKind> {
    if name == "temporal"@ {
        Some(AnnotationKind::Temporal)
    } else if name == "bbox"@ {
        Some(AnnotationKind::BoundingBox)
    } else {
        None
    }
}

/// The kind that a name stands for.
pub fn parse_kind(name: &String) -> (r: Option<AnnotationKind>)
    ensures
        r == kind_named(name@),
{
    if *name == String::from_str("temporal") {
        Some(AnnotationKind::Temporal)
    } else if *name == String::from_str("bbox") {
        Some(AnnotationKind::BoundingBox)
    } else {
        None
    }
}

/// The temporal annotations of one video, in the order of the table.
pub open spec fn temporal_of(temporal: Seq<TemporalAnnotation>, video_id: i64) -> Seq<
    TemporalAnnotation,
> {
    temporal.filter(|a: TemporalAnnotation| a.video_id == video_id)
}

/// The bounding boxes of one video, in the order of the table.
pub open spec fn boxes_of(boxes: Seq<BoundingBoxAnnotation>, video_id: i64) -> Seq<
    BoundingBoxAnnotation,
> {
    boxes.filter(|b: BoundingBoxAnnotation| b.video_id == video_id)
}

/// Whether the span of a request is acceptable: it ends after it starts, in
/// seconds, and does not end on an earlier frame than it starts on.
pub open spec fn span_acceptable(req: SaveTemporalAnnotationRequest) -> bool {
    req.end_time.spec_gt(req.start_time) && req.end_frame >= req.start_frame
}

/// Whether the box of a request is acceptable: positive width and height.
pub open spec fn box_acceptable(req: SaveBboxAnnotationRequest) -> bool {
    req.width.spec_is_positive() && req.height.spec_is_positive()
}

/// Why a temporal annotation is refused, if it is: a span that is not
/// acceptable, a video or a creator that does not exist, or no identifier
/// left. The first reason that applies, in this order, is the one reported.
pub open spec fn temporal_refusal(
    db: DatabaseView,
    req: SaveTemporalAnnotationRequest,
    user_id: Option<i64>,
) -> Option<StoreError> {
    if !span_acceptable(req) {
        Some(StoreError::InvalidRange)
    } else if !has_video(db.videos, req.video_id) {
        Some(StoreError::NotFound(Entity::Video))
    } else if !user_ref_ok(db.users, user_id) {
        Some(StoreError::NotFound(Entity::User))
    } else if db.next_temporal_id >= i64::MAX {
        Some(StoreError::StorageFailure)
    } else {
        None
    }
}

/// Why a bounding box is refused, if it is: a box that is not acceptable, a
/// video or a creator that does not exist, or no identifier left. The first
/// reason that applies, in this order, is the one reported.
pub open spec fn bbox_refusal(
    db: DatabaseView,
    req: SaveBboxAnnotationRequest,
    user_id: Option<i64>,
) -> Option<StoreError> {
    if !box_acceptable(req) {
        Some(StoreError::InvalidGeometry)
    } else if !has_video(db.videos, req.video_id) {
        Some(StoreError::NotFound(Entity::Video))
    } else if !user_ref_ok(db.users, user_id) {
        Some(StoreError::NotFound(Entity::User))
    } else if db.next_box_id >= i64::MAX {
        Some(StoreError::StorageFailure)
    } else {
        None
    }
}

/// The row that a request becomes.
pub open spec fn temporal_row(
    req: SaveTemporalAnnotationRequest,
    user_id: Option<i64>,
    id: i64,
    now: i64,
) -> TemporalAnnotation {
    TemporalAnnotation {
        annotation_id: id,
        video_id: req.video_id,
        start_time: req.start_time,
        end_time: req.end_time,
        start_frame: req.start_frame,
        end_frame: req.end_frame,
        label: req.label,
        created_by: user_id,
        created_at: now,
    }
}

/// The row that a request becomes.
pub open spec fn bbox_row(req: SaveBboxAnnotationRequest, user_id: Option<i64>, id: i64, now: i64) -> BoundingBoxAnnotation {
    BoundingBoxAnnotation {
        bbox_id: id,
        video_id: req.video_id,
        frame_index: req.frame_index,
        x: req.x,
        y: req.y,
        width: req.width,
        height: req.height,
        part_label: req.part_label,
        created_by: user_id,
        created_at: now,
    }
}

/// What one more element does to a filtered sequence.
pub proof fn lemma_filter_push<A>(s: Seq<A>, x: A, pred: spec_fn(A) -> bool)
    ensures
        s.push(x).filter(pred) == if pred(x) {
            s.filter(pred).push(x)
        } else {
            s.filter(pred)
        },
{
    reveal(Seq::filter);
    assert(s.push(x).drop_last() =~= s);
}

fn creator_exists(db: &Database, user_id: Option<i64>) -> (r: bool)
    ensures
        r == user_ref_ok(db@.users, user_id),
{
    match user_id {
        Some(id) => find_user(db.users(), id).is_some(),
        None => true,
    }
}

/// The annotations of a video: first the time spans, then the boxes, each
/// in the order in which they were stored.
pub fn get_annotations(db: &Database, video_id: i64) -> (r: Result<
    (Vec<TemporalAnnotation>, Vec<BoundingBoxAnnotation>),
    StoreError,
>)
    ensures
        !has_video(db@.videos, video_id) ==> r == Err::<
            (Vec<TemporalAnnotation>, Vec<BoundingBoxAnnotation>),
            StoreError,
        >(StoreError::NotFound(Entity::Video)),
        has_video(db@.videos, video_id) ==> (r matches Ok(lists) && lists.0@ == temporal_of(
            db@.temporal,
            video_id,
        ) && lists.1@ == boxes_of(db@.boxes, video_id)),
{
    if find_video(db.videos(), video_id).is_none() {
        return Err(StoreError::NotFound(Entity::Video));
    }
    let temporal = db.temporal_annotations();
    let boxes = db.bbox_annotations();
    let mut spans: Vec<TemporalAnnotation> = Vec::new();
    let mut i: usize = 0;
    proof {
        reveal(Seq::filter);
    }
    while i < temporal.len()
        invariant
            i <= temporal.len(),
            spans@ == temporal_of(temporal@.take(i as int), video_id),
        decreases temporal.len() - i,
    {
        proof {
            lemma_filter_push(
                temporal@.take(i as int),
                temporal@[i as int],
                |a: TemporalAnnotation| a.video_id == video_id,
            );
            assert(temporal@.take(i as int).push(temporal@[i as int]) =~= temporal@.take(i + 1));
        }
        if temporal[i].video_id == video_id {
            spans.push(temporal[i].clone());
        }
        i = i + 1;
    }
    assert(temporal@.take(temporal.len() as int) =~= temporal@);
    let mut found: Vec<BoundingBoxAnnotation> = Vec::new();
    let mut j: usize = 0;
    while j < boxes.len()
        invariant
            j <= boxes.len(),
            found@ == boxes_of(boxes@.take(j as int), video_id),
        decreases boxes.len() - j,
    {
        proof {
            lemma_filter_push(
                boxes@.take(j as int),
                boxes@[j as int],
                |b: BoundingBoxAnnotation| b.video_id == video_id,
            );
            assert(boxes@.take(j as int).push(boxes@[j as int]) =~= boxes@.take(j + 1));
        }
        if boxes[j].video_id == video_id {
            found.push(boxes[j].clone());
        }
        j = j + 1;
    }
    assert(boxes@.take(boxes.len() as int) =~= boxes@);
    Ok((spans, found))
}

/// Stores a time span on a video.
///
/// Succeeds exactly when [`temporal_refusal`] finds no reason against it:
/// the new row is appended under the next identifier and returned. A span
/// that is refused is reported with that reason and nothing is written.
pub fn save_temporal_annotation(
    db: &mut Database,
    request: SaveTemporalAnnotationRequest,
    user_id: Option<i64>,
    now: i64,
) -> (r: Result<TemporalAnnotation, StoreError>)
    requires
        old(db)@.wf(),
    ensures
        final(db)@.wf(),
        match temporal_refusal(old(db)@, request, user_id) {
            Some(e) => r == Err::<TemporalAnnotation, StoreError>(e) && final(db)@ == old(db)@,
            None => {
                let row = temporal_row(request, user_id, old(db)@.next_temporal_id, now);
                &&& r == Ok::<TemporalAnnotation, StoreError>(row)
                &&& final(db)@ == (DatabaseView {
                    temporal: old(db)@.temporal.push(row),
                    next_temporal_id: (old(db)@.next_temporal_id + 1) as i64,
                    ..old(db)@
                })
            },
        },
{
    if !(request.end_time.gt(request.start_time) && request.end_frame >= request.start_frame) {
        return Err(StoreError::InvalidRange);
    }
    if find_video(db.videos(), request.video_id).is_none() {
        return Err(StoreError::NotFound(Entity::Video));
    }
    if !creator_exists(db, user_id) {
        return Err(StoreError::NotFound(Entity::User));
    }
    if db.next_temporal_id() == i64::MAX {
        return Err(StoreError::StorageFailure);
    }
    let row = TemporalAnnotation {
        annotation_id: db.next_temporal_id(),
        video_id: request.video_id,
        start_time: request.start_time,
        end_time: request.end_time,
        start_frame: request.start_frame,
        end_frame: request.end_frame,
        label: request.label,
        created_by: user_id,
        created_at: now,
    };
    let stored = row.clone();
    db.append_temporal(stored);
    Ok(row)
}

/// Stores a bounding box on a frame of a video.
///
/// Succeeds exactly when [`bbox_refusal`] finds no reason against it: the
/// new row is appended under the next identifier and returned. A box that
/// is refused is reported with that reason and nothing is written.
pub fn save_bbox_annotation(
    db: &mut Database,
    request: SaveBboxAnnotationRequest,
    user_id: Option<i64>,
    now: i64,
) -> (r: Result<BoundingBoxAnnotation, StoreError>)
    requires
        old(db)@.wf(),
    ensures
        final(db)@.wf(),
        match bbox_refusal(old(db)@, request, user_id) {
            Some(e) => r == Err::<BoundingBoxAnnotation, StoreError>(e) && final(db)@ == old(
                db,
            )@,
            None => {
                let row = bbox_row(request, user_id, old(db)@.next_box_id, now);
                &&& r == Ok::<BoundingBoxAnnotation, StoreError>(row)
                &&& final(db)@ == (DatabaseView {
                    boxes: old(db)@.boxes.push(row),
                    next_box_id: (old(db)@.next_box_id + 1) as i64,
                    ..old(db)@
                })
            },
        },
{
    if !(request.width.is_positive() && request.height.is_positive()) {
        return Err(StoreError::InvalidGeometry);
    }
    if find_video(db.videos(), request.video_id).is_none() {
        return Err(StoreError::NotFound(Entity::Video));
    }
    if !creator_exists(db, user_id) {
        return Err(StoreError::NotFound(Entity::User));
    }
    if db.next_box_id() == i64::MAX {
        return Err(StoreError::StorageFailure);
    }
    let row = BoundingBoxAnnotation {
        bbox_id: db.next_box_id(),
        video_id: request.video_id,
        frame_index: request.frame_index,
        x: request.x,
        y: request.y,
        width: request.width,
        height: request.height,
        part_label: request.part_label,
        created_by: user_id,
        created_at: now,
    };
    let stored = row.clone();
    db.append_box(stored);
    Ok(row)
}

/// What deleting an annotation answers and does: an unknown kind and an
/// unknown identifier are refused and nothing changes; otherwise the row with
/// that identifier leaves its table and every other row stays where it was.
pub open spec fn deletion(
    before: DatabaseView,
    after: DatabaseView,
    r: Result<(), StoreError>,
    kind: Option<AnnotationKind>,
    id: i64,
) -> bool {
    match kind {
        None => r == Err::<(), StoreError>(StoreError::UnknownAnnotationKind) && after == before,
        Some(AnnotationKind::Temporal) => {
            &&& !has_temporal(before.temporal, id) ==> r == Err::<(), StoreError>(
                StoreError::NotFound(Entity::Annotation),
            ) && after == before
            &&& forall|at: int|
                0 <= at < before.temporal.len() && (#[trigger] before.temporal[at]).annotation_id
                    == id ==> r is Ok && after == (DatabaseView {
                    temporal: before.temporal.remove(at),
                    ..before
                })
        },
        Some(AnnotationKind::BoundingBox) => {
            &&& !has_box(before.boxes, id) ==> r == Err::<(), StoreError>(
                StoreError::NotFound(Entity::Annotation),
            ) && after == before
            &&& forall|at: int|
                0 <= at < before.boxes.len() && (#[trigger] before.boxes[at]).bbox_id == id ==> r
                    is Ok && after == (DatabaseView { boxes: before.boxes.remove(at), ..before })
        },
    }
}

/// Deletes the annotation of the given kind with the given identifier. The
/// deletion is permanent.
pub fn delete(db: &mut Database, kind: AnnotationKind, annotation_id: i64) -> (r: Result<
    (),
    StoreError,
>)
    requires
        old(db)@.wf(),
    ensures
        final(db)@.wf(),
        deletion(old(db)@, final(db)@, r, Some(kind), annotation_id),
{
    match kind {
        AnnotationKind::Temporal => {
            match find_temporal(db.temporal_annotations(), annotation_id) {
                Some(at) => {
                    db.remove_temporal(at);
                    Ok(())
                },
                None => Err(StoreError::NotFound(Entity::Annotation)),
            }
        },
        AnnotationKind::BoundingBox => {
            match find_box(db.bbox_annotations(), annotation_id) {
                Some(at) => {
                    db.remove_box(at);
                    Ok(())
                },
                None => Err(StoreError::NotFound(Entity::Annotation)),
            }
        },
    }
}

/// Deletes an annotation. `annotation_type` names the table: `temporal` or
/// `bbox`. The deletion is permanent.
pub fn delete_annotation(db: &mut Database, annotation_type: String, annotation_id: i64) -> (r:
    Result<(), StoreError>)
    requires
        old(db)@.wf(),
    ensures
        final(db)@.wf(),
        deletion(old(db)@, final(db)@, r, kind_named(annotation_type@), annotation_id),
{
    match parse_kind(&annotation_type) {
        Some(kind) => delete(db, kind, annotation_id),
        None => Err(StoreError::UnknownAnnotationKind),
    }
}

} // verus!
