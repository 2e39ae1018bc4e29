use orderbot::image_cache::{asset_path, get_cached_image, AssetCacheStore, AssetError, AssetRepo};
use orderbot::platform::ChatPlatform;

fn repo_with_start() -> AssetRepo {
    let mut repo = AssetRepo::new();
    repo.add(String::from("start.png"), vec![10, 20, 30]);
    repo.add(String::from("order/task.png"), vec![40]);
    repo
}

#[test]
fn asset_paths_follow_the_layout() {
    assert_eq!(asset_path("", "start"), "start.png");
    assert_eq!(asset_path("order", "task"), "order/task.png");
    assert_eq!(asset_path("test", "channel"), "test/channel.png");
}

#[test]
fn resolving_twice_uploads_once_and_returns_the_same_handle() {
    let repo = repo_with_start();
    let mut cache = AssetCacheStore::new();
    let mut platform = ChatPlatform::new();

    let first = get_cached_image(&mut cache, &repo, &mut platform, "", "start")
        .expect("the file exists");
    assert_eq!(platform.upload_count(), 1);

    let second = get_cached_image(&mut cache, &repo, &mut platform, "", "start")
        .expect("the cache holds it");
    assert_eq!(platform.upload_count(), 1);
    assert_eq!(first, second);
    assert_eq!(first.file_reference, vec![10, 20, 30]);
}

#[test]
fn a_hit_reads_the_store_not_the_platform() {
    let repo = repo_with_start();
    let mut cache = AssetCacheStore::new();
    let mut platform = ChatPlatform::new();

    get_cached_image(&mut cache, &repo, &mut platform, "", "start").unwrap();
    let entry = cache.get("start").expect("memoized");
    assert_eq!(entry.name, "start");
    assert_eq!(entry.subfolder, "");
    assert_eq!(entry.file_reference, vec![10, 20, 30]);
    assert!(cache.get("task").is_none());
}

#[test]
fn distinct_names_upload_separately() {
    let repo = repo_with_start();
    let mut cache = AssetCacheStore::new();
    let mut platform = ChatPlatform::new();

    let a = get_cached_image(&mut cache, &repo, &mut platform, "", "start").unwrap();
    let b = get_cached_image(&mut cache, &repo, &mut platform, "order", "task").unwrap();
    assert_eq!(platform.upload_count(), 2);
    assert_ne!(a.file_id, b.file_id);
}

#[test]
fn a_missing_file_is_an_error_and_changes_nothing() {
    let repo = repo_with_start();
    let mut cache = AssetCacheStore::new();
    let mut platform = ChatPlatform::new();

    let r = get_cached_image(&mut cache, &repo, &mut platform, "", "absent");
    assert_eq!(r, Err(AssetError::MissingFile));
    assert_eq!(platform.upload_count(), 0);
    assert!(cache.get("absent").is_none());
}
