use astrorust::probe::{
    file_exists, is_binary_from_metadata, probe_artifact, report_of_probe, ProbeReport,
};
use astrorust::sources::{
    artifact_local_path, bsp_base_url, bsp_url, build_artifact_url, get_tai_utc_data, tai_utc_path,
    tai_utc_url,
};

#[test]
fn leap_second_endpoint_and_path() {
    assert_eq!(tai_utc_url(), "https://maia.usno.navy.mil/ser7/tai-utc.dat");
    assert_eq!(tai_utc_path(), "data/tai-utc.dat");
}

#[test]
fn kernel_url_is_base_plus_name() {
    assert_eq!(
        bsp_url("de405.bsp"),
        "https://ssd.jpl.nasa.gov/ftp/eph/planets/bsp/de405.bsp"
    );
    assert_eq!(bsp_url(""), bsp_base_url());
}

#[test]
fn generic_url_join_concatenates() {
    assert_eq!(
        build_artifact_url("https://example.invalid/base/", "file.dat"),
        "https://example.invalid/base/file.dat"
    );
}

#[test]
fn local_path_is_data_dir_plus_name() {
    assert_eq!(artifact_local_path("big.bsp"), "data/big.bsp");
    assert_eq!(artifact_local_path("tai-utc.dat"), tai_utc_path());
}

#[test]
fn forced_update_always_asks_for_a_fetch() {
    assert!(get_tai_utc_data(true));
}

#[test]
fn missing_table_asks_for_a_fetch() {
    // The table's fixed path does not exist where the tests run, so the
    // probe finds nothing and a fetch is called for.
    assert_eq!(probe_artifact(tai_utc_path()), ProbeReport::Absent);
    assert!(get_tai_utc_data(false));
}

#[test]
fn probe_reports_classify_raw_answers() {
    assert_eq!(report_of_probe(Ok(true)), ProbeReport::Present);
    assert_eq!(report_of_probe(Ok(false)), ProbeReport::Absent);
    assert_eq!(report_of_probe(Err(())), ProbeReport::Unknown);
}

#[test]
fn absent_file_does_not_exist() {
    assert!(!file_exists("data/definitely-absent-artifact.bsp"));
}

#[test]
fn metadata_answers_classify_binary() {
    assert!(is_binary_from_metadata(Some(true)));
    assert!(!is_binary_from_metadata(Some(false)));
    assert!(is_binary_from_metadata(None));
}

#[test]
fn present_path_exists() {
    // The filesystem root is the one path sure to be present.
    assert!(file_exists("/"));
    assert_eq!(probe_artifact("/"), ProbeReport::Present);
}
