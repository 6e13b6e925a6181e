use vtbox::fsutil::{filename, join_path, pretty_size, u64_to_dec};

#[test]
fn test_filename() {
    let path = "/home/user/Downloads/filename.ext";
    let name = filename(path).unwrap();
    assert_eq!("filename.ext", name);

    let path = "filename.ext";
    let name = filename(path).unwrap();
    assert_eq!("filename.ext", name);

    assert!(filename("").is_none());
}

#[test]
fn test_filename_edges() {
    assert_eq!(filename("a/").unwrap(), "a");
    assert_eq!(filename("dir/sub/x.bin").unwrap(), "x.bin");
    assert!(filename("/").is_none());
    assert!(filename("..").is_none());
    assert!(filename("a/..").is_none());
    assert!(filename(".").is_none());
}

#[test]
fn test_pretty_size() {
    let size = pretty_size(1024 * 1024 * 1024);
    assert_eq!(size, "1.00G");

    let size = pretty_size(1024 * 1024);
    assert_eq!(size, "1M");

    let size = pretty_size(1024);
    assert_eq!(size, "1K");
}

#[test]
fn test_pretty_size_buckets() {
    assert_eq!(pretty_size(0), "0K");
    assert_eq!(pretty_size(512), "0K");
    assert_eq!(pretty_size(1023), "0K");
    assert_eq!(pretty_size(2048), "2K");
    assert_eq!(pretty_size(1024 * 1024 - 1), "1023K");
    assert_eq!(pretty_size(5 * 1024 * 1024), "5M");
    assert_eq!(pretty_size(1024 * 1024 * 1024 - 1), "1023M");
    // one and a half gibibytes, exactly
    assert_eq!(pretty_size(1610612736), "1.50G");
    // just under two gibibytes rounds up to the next whole number
    assert_eq!(pretty_size(2147483647), "2.00G");
}

#[test]
fn test_u64_to_dec() {
    assert_eq!(u64_to_dec(0), "0");
    assert_eq!(u64_to_dec(7), "7");
    assert_eq!(u64_to_dec(1234567890), "1234567890");
    assert_eq!(u64_to_dec(u64::MAX), "18446744073709551615");
}

#[test]
fn test_join_path() {
    assert_eq!(join_path("dir", "file.bin"), "dir/file.bin");
    assert_eq!(join_path("test_models/", "ggml-tiny.bin"), "test_models//ggml-tiny.bin");
}
