use fall_detection::annotations::{
    delete, delete_annotation, get_annotations, parse_kind, save_bbox_annotation,
    save_temporal_annotation, AnnotationKind,
};
use fall_detection::database::{Config, Database};
use fall_detection::double::Double;
use fall_detection::error::{Entity, ErrorKind, StoreError};
use fall_detection::models::{SaveBboxAnnotationRequest, SaveTemporalAnnotationRequest, VideoImport};
use fall_detection::videos::upload_videos;

fn d(x: f64) -> Double {
    Double::from_bits(x.to_bits())
}

fn store() -> Database {
    let mut db = Database::blank(Config { lockout_threshold: 3, lockout_seconds: 60, hash_cost: 4 })
        .unwrap();
    db.seed_admin("h".to_string(), 0).unwrap();
    let files = vec![
        VideoImport { path: "v1.mp4".to_string(), metadata: None },
        VideoImport { path: "v2.mp4".to_string(), metadata: None },
    ];
    upload_videos(&mut db, files, None, 0).unwrap();
    db
}

fn span(video_id: i64, start: f64, end: f64, first: i64, last: i64) -> SaveTemporalAnnotationRequest {
    SaveTemporalAnnotationRequest {
        video_id,
        start_time: d(start),
        end_time: d(end),
        start_frame: first,
        end_frame: last,
        label: "fall".to_string(),
    }
}

fn rect(video_id: i64, width: f64, height: f64) -> SaveBboxAnnotationRequest {
    SaveBboxAnnotationRequest {
        video_id,
        frame_index: 3,
        x: d(0.25),
        y: d(-1.0),
        width: d(width),
        height: d(height),
        part_label: "head".to_string(),
    }
}

#[test]
fn span_that_ends_before_it_starts_is_refused_and_not_stored() {
    let mut db = store();
    let r = save_temporal_annotation(&mut db, span(1, 2.0, 1.0, 0, 10), None, 5);
    assert_eq!(r, Err(StoreError::InvalidRange));
    assert_eq!(StoreError::InvalidRange.kind(), ErrorKind::InvalidInput);
    assert!(db.temporal_annotations().is_empty());
    let (spans, boxes) = get_annotations(&db, 1).expect("the video exists");
    assert!(spans.is_empty());
    assert!(boxes.is_empty());
    assert_eq!(db.next_temporal_id(), 1);
}

#[test]
fn spans_are_refused_for_each_reason() {
    let mut db = store();
    let cases = vec![
        (span(1, 1.0, 1.0, 0, 10), StoreError::InvalidRange),
        (span(1, 0.0, -0.0, 0, 10), StoreError::InvalidRange),
        (span(1, f64::NAN, 1.0, 0, 10), StoreError::InvalidRange),
        (span(1, 1.0, f64::NAN, 0, 10), StoreError::InvalidRange),
        (span(1, 1.0, 2.0, 10, 9), StoreError::InvalidRange),
        (span(9, 2.0, 1.0, 0, 10), StoreError::InvalidRange),
        (span(9, 1.0, 2.0, 0, 10), StoreError::NotFound(Entity::Video)),
    ];
    for (req, expected) in cases {
        assert_eq!(save_temporal_annotation(&mut db, req, None, 5), Err(expected));
    }
    assert_eq!(
        save_temporal_annotation(&mut db, span(1, 1.0, 2.0, 0, 10), Some(8), 5),
        Err(StoreError::NotFound(Entity::User))
    );
    assert!(db.temporal_annotations().is_empty());
}

#[test]
fn acceptable_span_is_stored_and_returned() {
    let mut db = store();
    let saved = save_temporal_annotation(&mut db, span(2, 1.5, 4.0, 45, 120), Some(1), 77).unwrap();
    assert_eq!(saved.annotation_id, 1);
    assert_eq!(saved.video_id, 2);
    assert_eq!(saved.start_time, d(1.5));
    assert_eq!(saved.end_time, d(4.0));
    assert_eq!(saved.start_frame, 45);
    assert_eq!(saved.end_frame, 120);
    assert_eq!(saved.label, "fall");
    assert_eq!(saved.created_by, Some(1));
    assert_eq!(saved.created_at, 77);
    assert_eq!(db.temporal_annotations().len(), 1);
    assert_eq!(db.temporal_annotations()[0], saved);
    let same_frame = save_temporal_annotation(&mut db, span(2, -3.0, -2.0, 7, 7), None, 78).unwrap();
    assert_eq!(same_frame.annotation_id, 2);
    assert_eq!(same_frame.created_by, None);
    for a in db.temporal_annotations().iter() {
        assert!(f64::from_bits(a.end_time.to_bits()) > f64::from_bits(a.start_time.to_bits()));
        assert!(a.end_frame >= a.start_frame);
    }
}

#[test]
fn boxes_need_positive_width_and_height() {
    let mut db = store();
    for (w, h) in [(0.0, 1.0), (1.0, 0.0), (-1.0, 1.0), (1.0, -0.5), (f64::NAN, 1.0), (-0.0, 2.0)] {
        let r = save_bbox_annotation(&mut db, rect(1, w, h), None, 1);
        assert_eq!(r, Err(StoreError::InvalidGeometry));
    }
    assert_eq!(StoreError::InvalidGeometry.kind(), ErrorKind::InvalidInput);
    assert_eq!(
        save_bbox_annotation(&mut db, rect(7, 1.0, 1.0), None, 1),
        Err(StoreError::NotFound(Entity::Video))
    );
    assert_eq!(
        save_bbox_annotation(&mut db, rect(1, 1.0, 1.0), Some(7), 1),
        Err(StoreError::NotFound(Entity::User))
    );
    assert!(db.bbox_annotations().is_empty());
    let saved = save_bbox_annotation(&mut db, rect(1, 0.5, 5e-324), Some(1), 9).unwrap();
    assert_eq!(saved.bbox_id, 1);
    assert_eq!(saved.video_id, 1);
    assert_eq!(saved.frame_index, 3);
    assert_eq!(saved.x, d(0.25));
    assert_eq!(saved.y, d(-1.0));
    assert_eq!(saved.width, d(0.5));
    assert_eq!(saved.height, d(5e-324));
    assert_eq!(saved.part_label, "head");
    assert_eq!(saved.created_by, Some(1));
    assert_eq!(saved.created_at, 9);
    assert_eq!(db.bbox_annotations()[0], saved);
    for b in db.bbox_annotations().iter() {
        assert!(f64::from_bits(b.width.to_bits()) > 0.0);
        assert!(f64::from_bits(b.height.to_bits()) > 0.0);
    }
}

#[test]
fn annotations_are_listed_per_video_in_order() {
    let mut db = store();
    save_temporal_annotation(&mut db, span(1, 0.0, 1.0, 0, 1), None, 1).unwrap();
    save_temporal_annotation(&mut db, span(2, 0.0, 2.0, 0, 2), None, 2).unwrap();
    save_temporal_annotation(&mut db, span(1, 0.0, 3.0, 0, 3), None, 3).unwrap();
    save_bbox_annotation(&mut db, rect(2, 1.0, 1.0), None, 4).unwrap();
    save_bbox_annotation(&mut db, rect(1, 2.0, 2.0), None, 5).unwrap();
    let (spans, boxes) = get_annotations(&db, 1).unwrap();
    let ids: Vec<i64> = spans.iter().map(|a| a.annotation_id).collect();
    assert_eq!(ids, vec![1, 3]);
    assert_eq!(boxes.len(), 1);
    assert_eq!(boxes[0].bbox_id, 2);
    let (spans, boxes) = get_annotations(&db, 2).unwrap();
    assert_eq!(spans.len(), 1);
    assert_eq!(spans[0].annotation_id, 2);
    assert_eq!(boxes[0].bbox_id, 1);
    assert_eq!(get_annotations(&db, 3), Err(StoreError::NotFound(Entity::Video)));
}

#[test]
fn deletion_is_permanent_and_identifiers_are_not_reused() {
    let mut db = store();
    save_temporal_annotation(&mut db, span(1, 0.0, 1.0, 0, 1), None, 1).unwrap();
    save_temporal_annotation(&mut db, span(1, 0.0, 2.0, 0, 2), None, 2).unwrap();
    save_temporal_annotation(&mut db, span(1, 0.0, 3.0, 0, 3), None, 3).unwrap();
    save_bbox_annotation(&mut db, rect(1, 1.0, 1.0), None, 4).unwrap();
    assert_eq!(delete_annotation(&mut db, "temporal".to_string(), 2), Ok(()));
    let ids: Vec<i64> = db.temporal_annotations().iter().map(|a| a.annotation_id).collect();
    assert_eq!(ids, vec![1, 3]);
    assert_eq!(db.bbox_annotations().len(), 1);
    assert_eq!(
        delete_annotation(&mut db, "temporal".to_string(), 2),
        Err(StoreError::NotFound(Entity::Annotation))
    );
    assert_eq!(delete_annotation(&mut db, "bbox".to_string(), 1), Ok(()));
    assert!(db.bbox_annotations().is_empty());
    assert_eq!(
        delete(&mut db, AnnotationKind::BoundingBox, 1),
        Err(StoreError::NotFound(Entity::Annotation))
    );
    assert_eq!(delete(&mut db, AnnotationKind::Temporal, 3), Ok(()));
    let next = save_temporal_annotation(&mut db, span(1, 0.0, 1.0, 0, 1), None, 9).unwrap();
    assert_eq!(next.annotation_id, 4);
    assert!(db.into_tables().check());
}

#[test]
fn unknown_kind_is_refused() {
    let mut db = store();
    save_temporal_annotation(&mut db, span(1, 0.0, 1.0, 0, 1), None, 1).unwrap();
    let r = delete_annotation(&mut db, "Temporal".to_string(), 1);
    assert_eq!(r, Err(StoreError::UnknownAnnotationKind));
    assert_eq!(StoreError::UnknownAnnotationKind.kind(), ErrorKind::InvalidInput);
    assert_eq!(db.temporal_annotations().len(), 1);
    assert_eq!(parse_kind(&"temporal".to_string()), Some(AnnotationKind::Temporal));
    assert_eq!(parse_kind(&"bbox".to_string()), Some(AnnotationKind::BoundingBox));
    assert_eq!(parse_kind(&"".to_string()), None);
}

#[test]
fn annotation_identifiers_can_run_out() {
    let mut tables = store().into_tables();
    tables.next_temporal_id = i64::MAX;
    tables.next_box_id = i64::MAX;
    let mut db = Database::restore(tables).unwrap();
    assert_eq!(
        save_temporal_annotation(&mut db, span(1, 0.0, 1.0, 0, 1), None, 1),
        Err(StoreError::StorageFailure)
    );
    assert_eq!(
        save_bbox_annotation(&mut db, rect(1, 1.0, 1.0), None, 1),
        Err(StoreError::StorageFailure)
    );
}

#[test]
fn restore_refuses_annotations_that_break_the_rules() {
    let mut db = store();
    save_temporal_annotation(&mut db, span(1, 0.0, 1.0, 0, 1), None, 1).unwrap();
    save_bbox_annotation(&mut db, rect(1, 1.0, 1.0), None, 1).unwrap();
    let mut t = db.into_tables();
    assert!(t.check());
    t.temporal[0].end_time = d(0.0);
    assert!(!t.check());
    t.temporal[0].end_time = d(1.0);
    t.temporal[0].end_frame = -1;
    assert!(!t.check());
    t.temporal[0].end_frame = 1;
    t.temporal[0].video_id = 3;
    assert!(!t.check());
    t.temporal[0].video_id = 1;
    t.boxes[0].height = d(0.0);
    assert!(!t.check());
    t.boxes[0].height = d(1.0);
    t.boxes[0].created_by = Some(4);
    assert!(!t.check());
    t.boxes[0].created_by = Some(1);
    assert!(t.check());
}
