use v_ayylmao::picture::{Picture, PictureState, ProtocolError, SurfaceStatus};

#[test]
fn render_before_begin_fails() {
    let mut p = Picture::new();
    assert_eq!(p.render_picture(1), Err(ProtocolError::NoOpenPicture));
    assert_eq!(p.end_picture(), Err(ProtocolError::NoOpenPicture));
    assert_eq!(p.state(), PictureState::Idle);
    assert_eq!(p.status(), SurfaceStatus::Idle);
    assert!(p.buffers().is_empty());
}

#[test]
fn end_twice_fails() {
    let mut p = Picture::new();
    assert_eq!(p.begin_picture(7), Ok(()));
    assert_eq!(p.status(), SurfaceStatus::InProgress);
    for b in [10, 11, 12, 13, 14] {
        assert_eq!(p.render_picture(b), Ok(()));
    }
    assert_eq!(p.end_picture(), Ok(()));
    assert_eq!(p.status(), SurfaceStatus::Ready);
    assert_eq!(p.end_picture(), Err(ProtocolError::NoOpenPicture));
    assert_eq!(p.status(), SurfaceStatus::Ready);
    assert_eq!(p.buffers(), &vec![10, 11, 12, 13, 14]);
    assert_eq!(p.surface(), 7);
}

#[test]
fn one_picture_at_a_time() {
    let mut p = Picture::new();
    assert_eq!(p.begin_picture(1), Ok(()));
    assert_eq!(p.begin_picture(2), Err(ProtocolError::PictureAlreadyOpen));
    assert_eq!(p.surface(), 1);
    assert_eq!(p.end_picture(), Err(ProtocolError::NothingSubmitted));
    assert_eq!(p.state(), PictureState::Open);
    assert_eq!(p.render_picture(5), Ok(()));
    assert_eq!(p.begin_picture(2), Err(ProtocolError::PictureAlreadyOpen));
    assert_eq!(p.end_picture(), Ok(()));
    assert_eq!(p.begin_picture(2), Ok(()));
    assert!(p.buffers().is_empty());
    assert_eq!(p.surface(), 2);
}

#[test]
fn abort_on_driver_error() {
    let mut p = Picture::new();
    assert_eq!(p.abort(), Err(ProtocolError::NoOpenPicture));
    p.begin_picture(3).unwrap();
    p.render_picture(1).unwrap();
    assert_eq!(p.abort(), Ok(()));
    assert_eq!(p.state(), PictureState::Aborted);
    assert_eq!(p.status(), SurfaceStatus::Failed);
    assert_eq!(p.render_picture(2), Err(ProtocolError::NoOpenPicture));
    assert_eq!(p.end_picture(), Err(ProtocolError::NoOpenPicture));
    assert_eq!(p.begin_picture(3), Ok(()));
}

#[test]
fn buffers_are_consumed_once() {
    let mut p = Picture::new();
    p.begin_picture(1).unwrap();
    assert_eq!(p.render_picture(10), Ok(()));
    assert_eq!(p.render_picture(10), Err(ProtocolError::BufferAlreadySubmitted));
    assert_eq!(p.buffers(), &vec![10]);
    assert_eq!(p.render_picture(11), Ok(()));
    p.end_picture().unwrap();
    p.begin_picture(1).unwrap();
    assert_eq!(p.render_picture(11), Err(ProtocolError::BufferAlreadySubmitted));
    assert_eq!(p.render_picture(12), Ok(()));
    assert_eq!(p.buffers(), &vec![12]);
}
