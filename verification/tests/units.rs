use std::io::Write;

use lumenza::config::Config;
use lumenza::filesystem::Filesystem;
use lumenza::{Error, Library, Photo};

fn s(p: &std::path::Path) -> String {
    p.to_string_lossy().into_owned()
}

fn write_image(path: &std::path::Path, w: u32, h: u32) {
    let buf = vec![64u8; (w * h * 3) as usize];
    image::save_buffer(path, &buf, w, h, image::ExtendedColorType::Rgb8).unwrap();
}

fn subdir(parent: &std::path::Path, prefix: &str) -> tempfile::TempDir {
    tempfile::Builder::new().prefix(prefix).tempdir_in(parent).unwrap()
}

fn write_bytes(dir: &std::path::Path, prefix: &str, suffix: &str, bytes: &[u8])
    -> tempfile::NamedTempFile {
    let mut file = tempfile::Builder::new()
        .prefix(prefix)
        .suffix(suffix)
        .tempfile_in(dir)
        .unwrap();
    file.write_all(bytes).unwrap();
    file.flush().unwrap();
    file
}

struct Fixture {
    root: tempfile::TempDir,
    thumbnails: tempfile::TempDir,
    library: Library,
}

fn fixture() -> Fixture {
    let root = tempfile::Builder::new().prefix("lumenza").tempdir().unwrap();
    let config = root.path().join("default.conf");
    let thumbnails = subdir(root.path(), "thumbnails");
    let database = root.path().join("database.sqlite3");
    let library = Library::create(&s(&config), &s(thumbnails.path()), &s(&database)).unwrap();
    Fixture { root, thumbnails, library }
}

#[test]
fn photo_defaults_and_setters() {
    let mut photo = Photo::new();
    assert_eq!(photo.get_id(), 0);
    assert_eq!(photo.get_filename(), String::new());
    assert_eq!(photo.get_thumbnail_name(), String::new());
    assert_eq!(photo.get_width(), 0);
    assert_eq!(photo.get_height(), 0);
    assert_eq!(photo.get_hash(), 0);
    assert_eq!(photo.get_is_missing(), 0);
    photo.set_is_missing(1);
    assert_eq!(photo.get_is_missing(), 1);
}

#[test]
fn filesystem_getters() {
    let fs = Filesystem::new(
        &"/t/thumbs".to_string(),
        &"/t/pics".to_string(),
        &"/t/db.sqlite3".to_string(),
    );
    assert_eq!(fs.get_pictures_path(), "/t/pics".to_string());
    assert_eq!(fs.get_thumbnails_path(), "/t/thumbs".to_string());
    assert_eq!(fs.get_database_path(), "/t/db.sqlite3".to_string());
}

#[test]
fn config_round_trip() {
    let dir = tempfile::Builder::new().prefix("lumenza").tempdir().unwrap();
    let path = dir.path().join("settings.conf");
    let folders = vec!["/t/one".to_string(), "/t/two".to_string()];
    let config = Config::new(
        &s(&path),
        &folders,
        &"/t/thumbs".to_string(),
        &"/t/db.sqlite3".to_string(),
    )
    .unwrap();
    assert_eq!(config.get_pictures_path(), folders);
    assert_eq!(config.get_thumbnails_path(), "/t/thumbs".to_string());
    assert_eq!(config.get_database_path(), "/t/db.sqlite3".to_string());

    let reread = Config::open(&s(&path)).unwrap();
    assert_eq!(reread.get_pictures_path(), folders);
    assert_eq!(reread.get_thumbnails_path(), "/t/thumbs".to_string());
    assert_eq!(reread.get_database_path(), "/t/db.sqlite3".to_string());
}

#[test]
fn config_add_folder_persists() {
    let dir = tempfile::Builder::new().prefix("lumenza").tempdir().unwrap();
    let path = dir.path().join("settings.conf");
    let mut config = Config::new(
        &s(&path),
        &Vec::new(),
        &"/t/thumbs".to_string(),
        &"/t/db.sqlite3".to_string(),
    )
    .unwrap();
    config.add_folder(&"/t/added".to_string()).unwrap();
    let reread = Config::open(&s(&path)).unwrap();
    assert_eq!(reread.get_pictures_path(), vec!["/t/added".to_string()]);
}

#[test]
fn sql_schema_text() {
    let schema = lumenza::sql::sql_schema();
    assert!(schema.contains("CREATE TABLE IF NOT EXISTS photos"));
}

#[test]
fn error_messages() {
    assert_eq!(Error::NotFound.message(), "path or entry not found");
    assert_eq!(Error::AlreadyExists.message(), "picture already in library");
}

#[test]
fn add_missing_file_is_not_found() {
    let mut fx = fixture();
    let ghost_path = fx.root.path().join("nowhere.png");
    let err = fx.library.add_picture(&s(&ghost_path)).unwrap_err();
    assert_eq!(err, Error::NotFound);
}

#[test]
fn add_directory_is_rejected() {
    let mut fx = fixture();
    let folder = subdir(fx.root.path(), "some_folder");
    let err = fx.library.add_picture(&s(folder.path())).unwrap_err();
    assert_eq!(err, Error::IsADirectory);
}

#[test]
fn add_text_file_is_not_an_image() {
    let mut fx = fixture();
    let fake = write_bytes(fx.root.path(), "fake", ".png", b"this is certainly not a png");
    let err = fx.library.add_picture(&s(fake.path())).unwrap_err();
    assert_eq!(err, Error::NotAnImage);
}

#[test]
fn undecodable_image_fails_thumbnailing() {
    let mut fx = fixture();
    // A PNG signature followed by garbage: classified as an image, but
    // not decodable.
    let mut bytes = vec![0x89u8, 0x50, 0x4E, 0x47, 0x0D, 0x0A, 0x1A, 0x0A];
    bytes.extend_from_slice(&[0u8; 64]);
    let broken = write_bytes(fx.root.path(), "broken", ".png", &bytes);

    let mut photo = fx.library.add_picture(&s(broken.path())).unwrap();
    let err = fx.library.create_thumbnail(&mut photo).unwrap_err();
    assert_eq!(err, Error::ImageDecodeError);
}

#[test]
fn missing_thumbnail_folder_is_io_error() {
    let dir = tempfile::Builder::new().prefix("lumenza").tempdir().unwrap();
    let config = dir.path().join("default.conf");
    let thumbnails = dir.path().join("never_created");
    let database = dir.path().join("database.sqlite3");
    let mut library = Library::create(&s(&config), &s(&thumbnails), &s(&database)).unwrap();

    let lake = dir.path().join("lake.png");
    write_image(&lake, 64, 48);
    let mut photo = library.add_picture(&s(&lake)).unwrap();
    let err = library.create_thumbnail(&mut photo).unwrap_err();
    assert_eq!(err, Error::IoError);
}

#[test]
fn unreachable_database_is_storage_error() {
    let dir = tempfile::Builder::new().prefix("lumenza").tempdir().unwrap();
    let config = dir.path().join("default.conf");
    let thumbnails = dir.path().join("thumbnails");
    let database = dir.path().join("no_such_folder").join("database.sqlite3");
    let err = Library::create(&s(&config), &s(&thumbnails), &s(&database)).unwrap_err();
    assert_eq!(err, Error::StorageError);
}

#[test]
fn get_and_delete_by_id() {
    let mut fx = fixture();
    let lake = fx.root.path().join("lake.png");
    write_image(&lake, 64, 48);
    let inserted = fx.library.add_picture(&s(&lake)).unwrap();

    let found = fx.library.get_photo_from_id(inserted.get_id()).unwrap();
    assert_eq!(found.get_filename(), s(&lake));
    assert_eq!(fx.library.get_photo_from_id(9999).unwrap_err(), Error::NotFound);

    fx.library.delete_photo_by_id(inserted.get_id()).unwrap();
    assert_eq!(fx.library.list_all_pictures().unwrap().len(), 0);
    assert_eq!(fx.library.delete_photo_by_id(inserted.get_id()).unwrap_err(), Error::NotFound);

    // The deletion went through the store as well.
    let reopened = Library::open(&s(&fx.root.path().join("default.conf"))).unwrap();
    assert_eq!(reopened.list_all_pictures().unwrap().len(), 0);
}

#[test]
fn ids_are_not_reused_after_reopen() {
    let mut fx = fixture();
    let lake = fx.root.path().join("lake.png");
    let forest = fx.root.path().join("forest.png");
    write_image(&lake, 64, 48);
    write_image(&forest, 48, 64);
    let first = fx.library.add_picture(&s(&lake)).unwrap();
    let second = fx.library.add_picture(&s(&forest)).unwrap();
    assert_eq!(first.get_id(), 1);
    assert_eq!(second.get_id(), 2);

    // Delete the highest-id entry, reopen, insert: the freed id must
    // not be handed out again.
    fx.library.delete_photo_by_id(second.get_id()).unwrap();
    let mut reopened = Library::open(&s(&fx.root.path().join("default.conf"))).unwrap();
    let replacement = fx.root.path().join("meadow.png");
    write_image(&replacement, 32, 32);
    let third = reopened.add_picture(&s(&replacement)).unwrap();
    assert_eq!(third.get_id(), 3);
}

#[test]
fn photo_rename_and_own_thumbnail() {
    let mut photo = Photo::new();
    photo.set_filename(&"/t/moved.png".to_string()).unwrap();
    assert_eq!(photo.get_filename(), "/t/moved.png".to_string());
    photo.set_thumbnail(&"client-made.webp".to_string());
    assert_eq!(photo.get_thumbnail_name(), "client-made.webp".to_string());
}

#[test]
fn config_rows_interpretation() {
    let rows = vec![
        ("folder".to_string(), "/t/one".to_string()),
        ("ignored".to_string(), "/t/junk".to_string()),
        ("thumbnails".to_string(), "/t/old_thumbs".to_string()),
        ("folder".to_string(), "/t/two".to_string()),
        ("thumbnails".to_string(), "/t/thumbs".to_string()),
        ("database".to_string(), "/t/db.sqlite3".to_string()),
    ];
    let config = lumenza::config::config_from_rows(&"/t/settings.conf".to_string(), &rows);
    assert_eq!(config.get_pictures_path(), vec!["/t/one".to_string(), "/t/two".to_string()]);
    assert_eq!(config.get_thumbnails_path(), "/t/thumbs".to_string());
    assert_eq!(config.get_database_path(), "/t/db.sqlite3".to_string());
}

#[test]
fn hidden_folders_are_skipped() {
    let mut fx = fixture();
    let images = subdir(fx.root.path(), "images");
    let hidden = subdir(images.path(), ".cache");
    write_image(&images.path().join("lake.png"), 64, 48);
    write_image(&hidden.path().join("ignored.png"), 64, 48);

    fx.library.process_folder(&s(images.path())).unwrap();
    let pictures = fx.library.list_all_pictures().unwrap();
    assert_eq!(pictures.len(), 1);
    assert!(pictures[0].get_filename().ends_with("lake.png"));
}

#[test]
fn scan_new_photos_covers_all_folders() {
    let mut fx = fixture();
    let one = subdir(fx.root.path(), "one");
    let two = subdir(fx.root.path(), "two");
    write_image(&one.path().join("a.png"), 64, 48);
    write_image(&two.path().join("b.png"), 32, 24);

    // Register both folders, then scan them again in one sweep.
    fx.library.process_folder(&s(one.path())).unwrap();
    fx.library.process_folder(&s(two.path())).unwrap();
    write_image(&two.path().join("c.png"), 16, 12);
    assert!(fx.library.scan_new_photos().unwrap());
    assert_eq!(fx.library.list_all_pictures().unwrap().len(), 3);
}

#[test]
fn scan_root_must_be_a_directory() {
    let mut fx = fixture();
    let lake = fx.root.path().join("lake.png");
    write_image(&lake, 64, 48);
    // Scanning a plain file, or a path that does not exist, is refused.
    assert_eq!(fx.library.process_folder(&s(&lake)).unwrap_err(), Error::NotFound);
    let ghost_folder = fx.root.path().join("no_such_folder");
    assert_eq!(fx.library.process_folder(&s(&ghost_folder)).unwrap_err(), Error::NotFound);
}

#[test]
fn generate_thumbnail_by_id() {
    let mut fx = fixture();
    let lake = fx.root.path().join("lake.png");
    write_image(&lake, 650, 325);
    let inserted = fx.library.add_picture(&s(&lake)).unwrap();

    let name = fx.library.generate_thumbnail(inserted.get_id()).unwrap();
    assert_eq!(name.len(), 36);
    let recorded = fx.library.get_photo_from_id(inserted.get_id()).unwrap();
    assert_eq!(recorded.get_thumbnail_name(), name);
    assert_eq!(fx.library.generate_thumbnail(9999).unwrap_err(), Error::NotFound);

    // The reference went through the store as well.
    let reopened = Library::open(&s(&fx.root.path().join("default.conf"))).unwrap();
    let kept = reopened.get_photo_from_id(inserted.get_id()).unwrap();
    assert_eq!(kept.get_thumbnail_name(), name);
}

#[test]
fn generate_all_thumbnails_records_names() {
    let mut fx = fixture();
    let images = subdir(fx.root.path(), "images");
    write_image(&images.path().join("lake.png"), 64, 48);
    write_image(&images.path().join("forest.png"), 48, 64);
    fx.library.process_folder(&s(images.path())).unwrap();

    fx.library.generate_all_thumbnails().unwrap();
    assert!(fx.thumbnails.path().exists());
    for picture in fx.library.list_all_pictures().unwrap() {
        assert_eq!(picture.get_thumbnail_name().len(), 36);
        let full = fx.library.get_thumbnail(&picture).unwrap();
        assert!(std::path::Path::new(&full).exists());
    }
}
