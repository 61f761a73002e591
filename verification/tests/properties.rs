use std::io::Write;

use lumenza::{Error, Library};

fn s(p: &std::path::Path) -> String {
    p.to_string_lossy().into_owned()
}

fn write_image(path: &std::path::Path, w: u32, h: u32) {
    let buf = vec![96u8; (w * h * 3) as usize];
    image::save_buffer(path, &buf, w, h, image::ExtendedColorType::Rgb8).unwrap();
}

fn subdir(parent: &std::path::Path, prefix: &str) -> tempfile::TempDir {
    tempfile::Builder::new().prefix(prefix).tempdir_in(parent).unwrap()
}

struct Fixture {
    root: tempfile::TempDir,
    images: tempfile::TempDir,
    thumbnails: tempfile::TempDir,
    library: Library,
}

fn fixture() -> Fixture {
    let root = tempfile::Builder::new().prefix("lumenza").tempdir().unwrap();
    let config = root.path().join("default.conf");
    let thumbnails = subdir(root.path(), "thumbnails");
    let database = root.path().join("database.sqlite3");
    let images = subdir(root.path(), "images");
    let library = Library::create(&s(&config), &s(thumbnails.path()), &s(&database)).unwrap();
    Fixture { root, images, thumbnails, library }
}

#[test]
fn idempotent_scan() {
    let mut fx = fixture();
    write_image(&fx.images.path().join("lake.png"), 1200, 800);
    write_image(&fx.images.path().join("forest.png"), 800, 1200);

    fx.library.process_folder(&s(fx.images.path())).unwrap();
    let first = fx.library.list_all_pictures().unwrap();
    assert_eq!(first.len(), 2);

    fx.library.process_folder(&s(fx.images.path())).unwrap();
    let second = fx.library.list_all_pictures().unwrap();
    // The second scan's entry count delta is zero.
    assert_eq!(second.len(), 2);

    // No duplicate-path rows exist afterwards.
    let mut paths: Vec<String> = second.iter().map(|p| p.get_filename()).collect();
    paths.sort();
    paths.dedup();
    assert_eq!(paths.len(), 2);
}

#[test]
fn round_trip_list() {
    let mut fx = fixture();
    write_image(&fx.images.path().join("a.png"), 640, 480);
    write_image(&fx.images.path().join("b.png"), 320, 200);
    write_image(&fx.images.path().join("c.png"), 123, 456);

    fx.library.process_folder(&s(fx.images.path())).unwrap();
    let pictures = fx.library.list_all_pictures().unwrap();
    assert_eq!(pictures.len(), 3);

    for picture in &pictures {
        let path = picture.get_filename();
        // Each path resolves to an existing file.
        assert!(std::path::Path::new(&path).exists());
        // The recorded dimensions match the actual image dimensions.
        let size = imagesize::size(&path).unwrap();
        assert_eq!(picture.get_width(), size.width as i32);
        assert_eq!(picture.get_height(), size.height as i32);
    }
}

#[test]
fn existence_reconciliation() {
    let mut fx = fixture();
    let doomed = subdir(fx.images.path(), "doomed");
    let lake = doomed.path().join("lake.png");
    let forest = fx.images.path().join("forest.png");
    write_image(&lake, 1200, 800);
    write_image(&forest, 800, 1200);
    fx.library.process_folder(&s(fx.images.path())).unwrap();
    assert_eq!(fx.library.list_all_pictures().unwrap().len(), 2);

    // The backing file of one entry disappears from disk.
    let lake_path = s(&lake);
    drop(doomed);
    fx.library.check_photos_existence().unwrap();

    for picture in fx.library.list_all_pictures().unwrap() {
        if picture.get_filename() == lake_path {
            assert_eq!(picture.get_is_missing(), 1);
        } else {
            // All other entries' missing flags are unchanged.
            assert_eq!(picture.get_is_missing(), 0);
        }
    }

    // The flag went through the store: a reopened library sees it too.
    let reopened = Library::open(&s(&fx.root.path().join("default.conf"))).unwrap();
    for picture in reopened.list_all_pictures().unwrap() {
        if picture.get_filename() == lake_path {
            assert_eq!(picture.get_is_missing(), 1);
        } else {
            assert_eq!(picture.get_is_missing(), 0);
        }
    }
}

#[test]
fn thumbnail_aspect_ratio() {
    let mut fx = fixture();
    write_image(&fx.images.path().join("lake.png"), 1200, 800);
    write_image(&fx.images.path().join("forest.png"), 800, 1200);
    fx.library.process_folder(&s(fx.images.path())).unwrap();

    let mut pictures = fx.library.list_all_pictures().unwrap();
    for picture in pictures.iter_mut() {
        fx.library.create_thumbnail(picture).unwrap();
        let thumb = fx.library.get_thumbnail(picture).unwrap();
        let size = imagesize::size(&thumb).unwrap();
        // The thumbnail's height equals the configured target height.
        assert_eq!(size.height as u32, lumenza::THUMBNAIL_HEIGHT);
        // Its width equals round(W * T / H) within a tolerance of 1px.
        let w = picture.get_width() as u64;
        let h = picture.get_height() as u64;
        let exact_floor = (w * lumenza::THUMBNAIL_HEIGHT as u64) / h;
        assert_eq!(size.width as u64, exact_floor);
        assert!(fx.thumbnails.path().exists());
    }
}

#[test]
fn duplicate_rejection() {
    let mut fx = fixture();
    let lake = fx.images.path().join("lake.png");
    write_image(&lake, 1200, 800);

    fx.library.add_picture(&s(&lake)).unwrap();
    assert!(fx.library.contains_path(&s(&lake)));
    let err = fx.library.add_picture(&s(&lake)).unwrap_err();
    assert_eq!(err, Error::AlreadyExists);

    // No second row was created.
    assert_eq!(fx.library.list_all_pictures().unwrap().len(), 1);
}

#[test]
fn scan_scenario() {
    let mut fx = fixture();
    let lake = fx.images.path().join("lake.jpg");
    let forest = fx.images.path().join("forest.jpg");
    write_image(&lake, 1200, 800);
    write_image(&forest, 800, 1200);
    let mut notes = tempfile::Builder::new()
        .prefix("notes")
        .suffix(".txt")
        .tempfile_in(fx.images.path())
        .unwrap();
    notes.write_all(b"these notes are not a picture").unwrap();
    notes.flush().unwrap();

    fx.library.process_folder(&s(fx.images.path())).unwrap();

    let pictures = fx.library.list_all_pictures().unwrap();
    assert_eq!(pictures.len(), 2);
    for picture in &pictures {
        let path = picture.get_filename();
        assert!(!path.ends_with(".txt"));
        if path == s(&lake) {
            assert_eq!(picture.get_width(), 1200);
            assert_eq!(picture.get_height(), 800);
        } else {
            assert_eq!(path, s(&forest));
            assert_eq!(picture.get_width(), 800);
            assert_eq!(picture.get_height(), 1200);
        }
    }
}

#[test]
fn content_fingerprint_duplicates() {
    let mut fx = fixture();
    let lake = fx.images.path().join("lake.png");
    let copy = fx.images.path().join("lake_copy.png");
    let forest = fx.images.path().join("forest.png");
    // Two byte-identical files: the same pixels encoded the same way.
    write_image(&lake, 1200, 800);
    write_image(&copy, 1200, 800);
    write_image(&forest, 800, 1200);

    let a = fx.library.add_picture(&s(&lake)).unwrap();
    let b = fx.library.add_picture(&s(&copy)).unwrap();
    let c = fx.library.add_picture(&s(&forest)).unwrap();

    // Byte-identical files carry the same fingerprint; different bytes
    // carry a different one.
    assert_eq!(a.get_hash(), b.get_hash());
    assert_ne!(a.get_hash(), c.get_hash());

    let dups = fx.library.find_photos_by_hash(a.get_hash());
    assert_eq!(dups.len(), 2);
    assert_eq!(dups[0].get_id(), a.get_id());
    assert_eq!(dups[1].get_id(), b.get_id());
}
