use v_ayylmao::resources::{ResourceError, ResourceKind, ResourceTable};

#[test]
fn destroying_context_destroys_its_buffers() {
    let mut t = ResourceTable::new();
    let d = t.open_display();
    let cfg = t.create(ResourceKind::Config, d).unwrap();
    let ctx = t.create(ResourceKind::Context, cfg).unwrap();
    let buf = t.create(ResourceKind::Buffer, ctx).unwrap();
    let surf = t.create(ResourceKind::Surface, ctx).unwrap();
    let free_surf = t.create(ResourceKind::Surface, d).unwrap();
    assert!(t.is_live(buf));
    assert_eq!(t.destroy(ctx), Ok(()));
    assert!(!t.is_live(ctx));
    assert!(!t.is_live(buf));
    assert!(!t.is_live(surf));
    assert!(t.is_live(cfg));
    assert!(t.is_live(d));
    assert!(t.is_live(free_surf));
    assert_eq!(t.create(ResourceKind::Buffer, ctx), Err(ResourceError::InvalidHandle));
    assert_eq!(t.destroy(buf), Err(ResourceError::InvalidHandle));
    assert_eq!(t.destroy(ctx), Err(ResourceError::InvalidHandle));
}

#[test]
fn destroying_display_destroys_everything_below() {
    let mut t = ResourceTable::new();
    let d1 = t.open_display();
    let d2 = t.open_display();
    let cfg = t.create(ResourceKind::Config, d1).unwrap();
    let ctx = t.create(ResourceKind::Context, cfg).unwrap();
    let buf = t.create(ResourceKind::Buffer, ctx).unwrap();
    let other = t.create(ResourceKind::Config, d2).unwrap();
    assert_eq!(t.destroy(d1), Ok(()));
    for id in [d1, cfg, ctx, buf] {
        assert!(!t.is_live(id));
    }
    assert!(t.is_live(d2));
    assert!(t.is_live(other));
    assert_eq!(t.kind(buf), Some(ResourceKind::Buffer));
    assert_eq!(t.kind(99), None);
}

#[test]
fn owners_must_fit() {
    let mut t = ResourceTable::new();
    let d = t.open_display();
    assert_eq!(t.create(ResourceKind::Context, d), Err(ResourceError::WrongOwner));
    assert_eq!(t.create(ResourceKind::Buffer, d), Err(ResourceError::WrongOwner));
    assert_eq!(t.create(ResourceKind::Display, d), Err(ResourceError::WrongOwner));
    assert_eq!(t.create(ResourceKind::Config, 5), Err(ResourceError::InvalidHandle));
    let cfg = t.create(ResourceKind::Config, d).unwrap();
    assert_eq!(t.create(ResourceKind::Surface, cfg), Err(ResourceError::WrongOwner));
    assert_eq!(t.destroy(42), Err(ResourceError::InvalidHandle));
}
