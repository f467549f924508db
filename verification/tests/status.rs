use backend_health::status::is_success_status;

#[test]
fn success_statuses_are_200_to_299() {
    let mut code: u16 = 200;
    while code < 300 {
        assert!(is_success_status(code), "status {code}");
        code += 1;
    }
}

#[test]
fn other_status_codes_are_no_success() {
    let mut code: u16 = 100;
    while code < 1000 {
        if !(200..300).contains(&code) {
            assert!(!is_success_status(code), "status {code}");
        }
        code += 1;
    }
}

#[test]
fn success_boundaries() {
    assert!(!is_success_status(199));
    assert!(is_success_status(200));
    assert!(is_success_status(204));
    assert!(is_success_status(299));
    assert!(!is_success_status(300));
}

#[test]
fn common_failures_are_no_success() {
    assert!(!is_success_status(301));
    assert!(!is_success_status(404));
    assert!(!is_success_status(500));
    assert!(!is_success_status(503));
}

#[test]
fn numbers_that_are_no_status_code_are_no_success() {
    assert!(!is_success_status(0));
    assert!(!is_success_status(20));
    assert!(!is_success_status(99));
    assert!(!is_success_status(1000));
    assert!(!is_success_status(2000));
    assert!(!is_success_status(u16::MAX));
}

#[test]
fn agrees_with_the_http_client_on_every_code_it_accepts() {
    let mut code: u16 = 0;
    loop {
        let expected = match reqwest::StatusCode::from_u16(code) {
            Ok(status) => status.is_success(),
            Err(_) => false,
        };
        assert_eq!(is_success_status(code), expected, "status {code}");
        if code == u16::MAX {
            break;
        }
        code += 1;
    }
}
