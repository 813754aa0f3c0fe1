use influxdb::status_is_client_error;

#[test]
fn client_error_band_is_four_hundreds() {
    assert!(!status_is_client_error(399));
    assert!(status_is_client_error(400));
    assert!(status_is_client_error(404));
    assert!(status_is_client_error(499));
    assert!(!status_is_client_error(500));
    assert!(!status_is_client_error(204));
}
