use lumenza::Library;

fn s(p: &std::path::Path) -> String {
    p.to_string_lossy().into_owned()
}

fn write_png(path: &std::path::Path, w: u32, h: u32) {
    let buf = vec![128u8; (w * h * 3) as usize];
    image::save_buffer(path, &buf, w, h, image::ExtendedColorType::Rgb8).unwrap();
}

fn subdir(parent: &std::path::Path, prefix: &str) -> tempfile::TempDir {
    tempfile::Builder::new().prefix(prefix).tempdir_in(parent).unwrap()
}

#[test]
fn insert_picture() {
    let dir = tempfile::Builder::new().prefix("lumenza").tempdir().unwrap();

    let config = dir.path().join("default.conf");
    let thumbnails = dir.path().join("thumbnails/");
    let database = dir.path().join("database.sqlite3");

    let mut library = Library::create(&s(&config), &s(&thumbnails), &s(&database)).unwrap();

    let images = subdir(dir.path(), "images");
    let file = images.path().join("lake.png");
    write_png(&file, 1200, 800);

    library.add_picture(&s(&file)).unwrap();
}

#[test]
fn scan_folder() {
    let dir = tempfile::Builder::new().prefix("lumenza").tempdir().unwrap();

    let config = dir.path().join("default.conf");
    let thumbnails = dir.path().join("thumbnails/");
    let database = dir.path().join("database.sqlite3");

    let mut library_new = Library::create(&s(&config), &s(&thumbnails), &s(&database)).unwrap();

    let images = subdir(dir.path(), "images");
    write_png(&images.path().join("lake.png"), 1200, 800);
    write_png(&images.path().join("forest.png"), 800, 1200);

    let res = library_new.process_folder(&s(images.path())).unwrap();

    assert_eq!(res, ());
}

#[test]
fn open_library() {
    let dir = tempfile::Builder::new().prefix("lumenza").tempdir().unwrap();

    let config = dir.path().join("default.conf");
    let thumbnails = dir.path().join("thumbnails/");
    let database = dir.path().join("database.sqlite3");

    Library::create(&s(&config), &s(&thumbnails), &s(&database)).unwrap();

    // The test here is making sure we can open the library at all.
    Library::open(&s(&config)).unwrap();
}

#[test]
fn list_all_pictures() {
    let dir = tempfile::Builder::new().prefix("lumenza").tempdir().unwrap();

    let config = dir.path().join("default.conf");
    let thumbnails = dir.path().join("thumbnails/");
    let database = dir.path().join("database.sqlite3");

    let mut library = Library::create(&s(&config), &s(&thumbnails), &s(&database)).unwrap();

    let images = subdir(dir.path(), "images");
    write_png(&images.path().join("lake.png"), 1200, 800);
    write_png(&images.path().join("forest.png"), 800, 1200);

    library.process_folder(&s(images.path())).unwrap();

    let pictures = library.list_all_pictures().unwrap();

    // There are two pictures placed in the images folder, hence the 2.
    assert_eq!(2, pictures.len());
}
