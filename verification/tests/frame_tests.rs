use savant_core::frame::{
    FrameError, FrameTransformation, Object, PyFrameTransformation, PyVideoFrameContent,
    VideoFrame,
};

/// A frame with three detected objects, as the object-query tests expect:
/// ids 0, 1, 2; the latter two created by `test2`; only the last labelled
/// `test2`.
fn gen_frame() -> VideoFrame {
    let mut frame = VideoFrame::new(
        "cam1".to_string(),
        "30/1".to_string(),
        1280,
        720,
        PyVideoFrameContent::none(),
        None,
        Some(true),
        0,
        None,
        None,
    );
    frame.add_object(Object::new(0, "test".to_string(), "test".to_string()));
    frame.add_object(Object::new(1, "test2".to_string(), "test".to_string()));
    frame.add_object(Object::new(2, "test2".to_string(), "test2".to_string()));
    frame
}

#[test]
fn test_access_objects_by_id() {
    let t = gen_frame();
    let objects = t.access_objects_by_id(vec![0, 1]);
    assert_eq!(objects.len(), 2);
    assert_eq!(objects[0].id, 0);
    assert_eq!(objects[1].id, 1);
}

#[test]
fn test_access_objects() {
    let t = gen_frame();
    let objects = t.access_objects(false, None, None);
    assert_eq!(objects.len(), 3);

    let t = gen_frame();
    let objects = t.access_objects(true, None, None);
    assert!(objects.is_empty());

    let t = gen_frame();
    let objects = t.access_objects(false, Some("abc".to_string()), None);
    assert!(objects.is_empty());

    let t = gen_frame();
    let objects = t.access_objects(true, Some("abc".to_string()), None);
    assert_eq!(objects.len(), 3);

    let t = gen_frame();
    let objects = t.access_objects(false, Some("test2".to_string()), None);
    assert_eq!(objects.len(), 2);
    assert_eq!(objects[0].id, 1);
    assert_eq!(objects[1].id, 2);

    let t = gen_frame();
    let objects = t.access_objects(true, Some("test2".to_string()), None);
    assert_eq!(objects.len(), 1);
    assert_eq!(objects[0].id, 0);

    let t = gen_frame();
    let objects = t.access_objects(false, Some("test2".to_string()), Some("test2".to_string()));
    assert_eq!(objects.len(), 1);
    assert_eq!(objects[0].id, 2);

    let t = gen_frame();
    let objects = t.access_objects(true, Some("test2".to_string()), Some("test2".to_string()));
    assert_eq!(objects.len(), 2);
    assert_eq!(objects[0].id, 0);
    assert_eq!(objects[1].id, 1);
}

#[test]
fn test_objects_by_id() {
    let t = gen_frame();
    let objects = t.access_objects_by_id(vec![0, 1]);
    assert_eq!(objects.len(), 2);
    assert_eq!(objects[0].id, 0);
    assert_eq!(objects[1].id, 1);
}

#[test]
fn test_delete_objects_by_ids() {
    let mut t = gen_frame();
    t.delete_objects_by_ids(vec![0, 1]);
    let objects = t.access_objects(false, None, None);
    assert_eq!(objects.len(), 1);
    assert_eq!(objects[0].id, 2);
}

#[test]
fn test_delete_objects() {
    let mut t = gen_frame();
    t.delete_objects(false, None, None);
    let objects = t.access_objects(false, None, None);
    assert!(objects.is_empty());

    let mut t = gen_frame();
    t.delete_objects(true, None, None);
    let objects = t.access_objects(false, None, None);
    assert_eq!(objects.len(), 3);

    let mut t = gen_frame();
    t.delete_objects(false, Some("test2".to_string()), None);
    let objects = t.access_objects(false, None, None);
    assert_eq!(objects.len(), 1);
    assert_eq!(objects[0].id, 0);

    let mut t = gen_frame();
    t.delete_objects(true, Some("test2".to_string()), None);
    let objects = t.access_objects(false, None, None);
    assert_eq!(objects.len(), 2);
    assert_eq!(objects[0].id, 1);
    assert_eq!(objects[1].id, 2);

    let mut t = gen_frame();
    t.delete_objects(false, Some("test2".to_string()), Some("test2".to_string()));
    let objects = t.access_objects(false, None, None);
    assert_eq!(objects.len(), 2);
    assert_eq!(objects[0].id, 0);
    assert_eq!(objects[1].id, 1);

    let mut t = gen_frame();
    t.delete_objects(true, Some("test2".to_string()), Some("test2".to_string()));
    let objects = t.access_objects(false, None, None);
    assert_eq!(objects.len(), 1);
    assert_eq!(objects[0].id, 2);
}

#[test]
fn test_get_object() {
    let t = gen_frame();
    let o = t.get_object(1).unwrap();
    assert_eq!(o.id, 1);
    assert_eq!(o.creator, "test2");
    assert!(t.get_object(7).is_none());
}

#[test]
fn test_snapshot_restore() {
    let mut t = gen_frame();
    t.snapshot();
    t.clear_objects();
    assert!(t.access_objects(false, None, None).is_empty());
    t.restore();
    let objects = t.access_objects(false, None, None);
    assert_eq!(objects.len(), 3);
    assert_eq!(objects[0].id, 0);
}

#[test]
fn test_frame_getters_and_setters() {
    let mut t = gen_frame();
    assert_eq!(t.get_source_id(), "cam1");
    t.set_source_id("cam2".to_string());
    assert_eq!(t.get_source_id(), "cam2");

    assert_eq!(t.get_framerate(), "30/1");
    t.set_framerate("25/1".to_string());
    assert_eq!(t.get_framerate(), "25/1");

    assert_eq!(t.get_width(), 1280);
    t.set_width(640);
    assert_eq!(t.get_width(), 640);

    assert_eq!(t.get_height(), 720);
    t.set_height(360);
    assert_eq!(t.get_height(), 360);

    assert_eq!(t.get_pts(), 0);
    t.set_pts(33);
    assert_eq!(t.get_pts(), 33);

    assert!(t.get_dts().is_none());
    t.set_dts(Some(11));
    assert_eq!(t.get_dts(), Some(11));

    assert!(t.get_duration().is_none());
    t.set_duration(Some(40));
    assert_eq!(t.get_duration(), Some(40));

    assert!(t.get_codec().is_none());
    t.set_codec(Some("h264".to_string()));
    assert_eq!(t.get_codec(), Some("h264".to_string()));

    assert_eq!(t.get_keyframe(), Some(true));
    t.set_keyframe(None);
    assert!(t.get_keyframe().is_none());

    assert!(!t.to_message().meta.is_eos);
}

#[test]
fn test_frame_transformations() {
    let mut t = gen_frame();
    assert!(t.get_transformations().is_empty());
    t.add_transformation(PyFrameTransformation::initial_size(1280, 720));
    t.add_transformation(PyFrameTransformation::scale(640, 360));
    t.add_transformation(PyFrameTransformation::padding(1, 2, 3, 4));
    let ts = t.get_transformations();
    assert_eq!(ts.len(), 3);
    assert!(ts[0].is_initial_size());
    assert_eq!(ts[0].as_initial_size(), Some((1280, 720)));
    assert!(ts[1].is_scale());
    assert_eq!(ts[1].as_scale(), Some((640, 360)));
    assert!(ts[2].is_padding());
    assert_eq!(ts[2].as_padding(), Some((1, 2, 3, 4)));
    assert!(ts[0].as_scale().is_none());
    assert!(PyFrameTransformation::none().is_none());
    assert_eq!(
        PyFrameTransformation::new(FrameTransformation::Scale(2, 3)).as_scale(),
        Some((2, 3))
    );
    t.clear_transformations();
    assert!(t.get_transformations().is_empty());
}

#[test]
fn test_frame_content_accessors() {
    let c = PyVideoFrameContent::internal(vec![1, 2, 3]);
    assert!(c.is_internal());
    assert!(!c.is_external());
    assert!(!c.is_none());
    assert_eq!(c.get_data().unwrap(), vec![1, 2, 3]);
    assert_eq!(c.get_method(), Err(FrameError::NotStoredExternally));
    assert_eq!(c.get_location(), Err(FrameError::NotStoredExternally));

    let c = PyVideoFrameContent::external("s3".to_string(), Some("bucket/key".to_string()));
    assert!(c.is_external());
    assert_eq!(c.get_method().unwrap(), "s3");
    assert_eq!(c.get_location().unwrap(), Some("bucket/key".to_string()));
    assert_eq!(c.get_data(), Err(FrameError::NotStoredInternally));

    let c = PyVideoFrameContent::none();
    assert!(c.is_none());

    let mut t = gen_frame();
    assert!(t.get_content().is_none());
    t.set_content(PyVideoFrameContent::internal(vec![9]));
    assert!(t.get_content().is_internal());
    assert_eq!(t.get_content().get_data().unwrap(), vec![9]);
}
