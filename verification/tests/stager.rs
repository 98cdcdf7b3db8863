use cargo_sysroot::error::BuildError;
use cargo_sysroot::locator::host_triple_from_libdir;
use cargo_sysroot::stager::{host_tools_dest, host_tools_dest_parent, staging_up_to_date};

#[test]
fn staging_is_up_to_date_only_when_strictly_newer() {
    assert!(staging_up_to_date(Some(200), 100));
    assert!(!staging_up_to_date(Some(100), 100));
    assert!(!staging_up_to_date(Some(50), 100));
    assert!(!staging_up_to_date(None, 100));
}

#[test]
fn host_tools_land_under_the_host_triple() {
    assert_eq!(
        host_tools_dest("out", "x86_64-unknown-linux-gnu"),
        "out/lib/rustlib/x86_64-unknown-linux-gnu"
    );
    assert_eq!(host_tools_dest_parent("out"), "out/lib/rustlib");
}

#[test]
fn host_triple_is_the_libdir_parent_stem() {
    assert_eq!(
        host_triple_from_libdir("/tc/lib/rustlib/x86_64-unknown-linux-gnu/lib").unwrap(),
        "x86_64-unknown-linux-gnu"
    );
}

#[test]
fn host_triple_of_an_unparsable_libdir_is_refused() {
    match host_triple_from_libdir("plain") {
        Err(e) => {
            assert!(matches!(e, BuildError::HostTripleParse));
            assert_eq!(e.message(), "Error parsing host target triple");
        }
        Ok(t) => panic!("expected an error, got {}", t),
    }
}
