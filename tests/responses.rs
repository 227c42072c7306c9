use car_lookup::catalog::{Car, CarList};
use car_lookup::response::{
    build_failure_response, build_success_response, car_body, error_body, handle_request,
};

#[test]
fn build_success_response_test() {
    let test_car = Car {
        name: String::from("test_car"),
        price: 100_000,
    };
    let result = build_success_response(&test_car);
    assert_eq!(200, result.status);
    assert_eq!("application/json", result.content_type);
    assert_eq!(
        "{\"name\":\"test_car\",\"price\":100000}",
        result.body.to_ascii_lowercase()
    )
}

#[test]
fn build_failure_response_test() {
    let result = build_failure_response("test error message");
    assert_eq!(400, result.status);
    assert_eq!("application/json", result.content_type);
    assert_eq!(
        "{\"error\":\"test error message\"}",
        result.body.to_ascii_lowercase()
    )
}

#[test]
fn car_body_frames_name_then_price() {
    assert_eq!(car_body("\"x\"", 12), "{\"name\":\"x\",\"price\":12}");
    assert_eq!(car_body("\"x\"", 0), "{\"name\":\"x\",\"price\":0}");
    assert_eq!(car_body("\"x\"", -5), "{\"name\":\"x\",\"price\":-5}");
    assert_eq!(
        car_body("\"y\"", i32::MIN),
        "{\"name\":\"y\",\"price\":-2147483648}"
    );
    assert_eq!(
        car_body("\"y\"", i32::MAX),
        "{\"name\":\"y\",\"price\":2147483647}"
    );
}

#[test]
fn error_body_frames_the_message() {
    assert_eq!(error_body("\"oops\""), "{\"error\":\"oops\"}");
    assert_eq!(error_body("\"\""), "{\"error\":\"\"}");
}

#[test]
fn bodies_escape_json_strings() {
    let quoted = build_failure_response("say \"hi\"\\\n");
    assert_eq!(quoted.body, "{\"error\":\"say \\\"hi\\\"\\\\\\n\"}");
    let car = Car {
        name: String::from("a\"b"),
        price: -7,
    };
    let reply = build_success_response(&car);
    assert_eq!(reply.body, "{\"name\":\"a\\\"b\",\"price\":-7}");
    let plain = build_success_response(&Car {
        name: String::from("Émile"),
        price: 3,
    });
    assert_eq!(plain.body, "{\"name\":\"Émile\",\"price\":3}");
}

#[test]
fn request_for_a_known_car() {
    let cars = CarList::new();
    let reply = handle_request(Some("ferrari"), &cars);
    assert_eq!(reply.status, 200);
    assert_eq!(reply.content_type, "application/json");
    assert_eq!(reply.body, "{\"name\":\"ferrari\",\"price\":340000}");
}

#[test]
fn request_for_an_unknown_car() {
    let cars = CarList::new();
    let reply = handle_request(Some("bugatti"), &cars);
    assert_eq!(reply.status, 400);
    assert_eq!(reply.content_type, "application/json");
    assert_eq!(reply.body, "{\"error\":\"No car found for the given name\"}");
}

#[test]
fn request_without_a_car_name() {
    let cars = CarList::new();
    let reply = handle_request(None, &cars);
    assert_eq!(reply.status, 400);
    assert_eq!(reply.content_type, "application/json");
    assert_eq!(reply.body, "{\"error\":\"No car name provided\"}");
}
