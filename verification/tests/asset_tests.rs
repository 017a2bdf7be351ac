use tilescene::asset::DeferredAsset;
use tilescene::errors::GameError;
use tilescene::geom::ImageDims;

#[test]
fn producer_runs_once_and_the_value_is_cached() {
    let mut asset: DeferredAsset<ImageDims> = DeferredAsset::new();
    assert!(asset.needs_production());
    assert!(!asset.is_ready());

    // First frame: the producer runs (exactly because production is
    // needed) and succeeds.
    let mut producer_runs = 0;
    let dims = ImageDims { w: 320, h: 48 };
    if asset.needs_production() {
        producer_runs += 1;
        asset.poll(Some(Ok(dims)));
    } else {
        asset.poll(None);
    }

    // Many further frames: the producer is never needed again and every
    // consumer sees the same cached value.
    for _ in 0..10 {
        if asset.needs_production() {
            producer_runs += 1;
            asset.poll(Some(Ok(dims)));
        } else {
            asset.poll(None);
        }
        assert!(asset.is_ready());
        assert_eq!(*asset.value(), dims);
    }
    assert_eq!(producer_runs, 1);
    assert_eq!(asset.error(), None);
}

#[test]
fn failure_is_terminal_and_surfaced_every_frame() {
    let mut asset: DeferredAsset<ImageDims> = DeferredAsset::new();
    asset.poll(Some(Err(GameError::AssetLoad)));
    for _ in 0..5 {
        assert!(!asset.needs_production());
        assert!(!asset.is_ready());
        assert_eq!(asset.error(), Some(GameError::AssetLoad));
        asset.poll(None);
    }
}

#[test]
fn pending_outlives_frames_without_an_outcome() {
    let mut asset: DeferredAsset<ImageDims> = DeferredAsset::new();
    for _ in 0..3 {
        // A genuinely asynchronous backend may have no outcome yet: the
        // asset stays pending and production stays wanted.
        asset.poll(None);
        assert!(asset.needs_production());
        assert!(!asset.is_ready());
        assert_eq!(asset.error(), None);
    }
    asset.poll(Some(Ok(ImageDims { w: 1, h: 1 })));
    assert!(asset.is_ready());
}

#[test]
fn render_failure_is_kept_apart_from_load_failure() {
    let mut asset: DeferredAsset<ImageDims> = DeferredAsset::new();
    asset.poll(Some(Err(GameError::AssetRender)));
    assert_eq!(asset.error(), Some(GameError::AssetRender));
}
