use pentaxctl::decimal::u64_to_dec;
use pentaxctl::endpoints::{
    make_info_url, make_iso_body, make_params_url, make_photo_url, make_shoot_finish_url,
    make_shoot_start_url,
};

#[test]
fn decimal_rendering() {
    assert_eq!(u64_to_dec(0), "0");
    assert_eq!(u64_to_dec(7), "7");
    assert_eq!(u64_to_dec(10), "10");
    assert_eq!(u64_to_dec(1600), "1600");
    assert_eq!(u64_to_dec(102400), "102400");
    assert_eq!(u64_to_dec(18446744073709551615), "18446744073709551615");
}

#[test]
fn iso_body_encodes_name_and_value() {
    assert_eq!(make_iso_body(1600), "sv=1600");
    assert_eq!(make_iso_body(0), "sv=0");
    assert_eq!(make_iso_body(100), "sv=100");
}

#[test]
fn urls_compose_from_the_address() {
    assert_eq!(make_info_url("192.168.0.1"), "http://192.168.0.1/v1/photos/latest/info");
    assert_eq!(make_params_url("192.168.0.1"), "http://192.168.0.1/v1/params/camera");
    assert_eq!(make_shoot_start_url("cam:8080"), "http://cam:8080/v1/camera/shoot/start");
    assert_eq!(make_shoot_finish_url("cam:8080"), "http://cam:8080/v1/camera/shoot/finish");
    assert_eq!(
        make_photo_url("192.168.0.1", "100", "IMG01.DNG"),
        "http://192.168.0.1/v1/photos/100/IMG01.DNG",
    );
}
