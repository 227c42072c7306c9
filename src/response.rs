use vstd::prelude::*;
use vstd::string::StringExecFns;

use crate::catalog::{find_car, lookup_request, requested_name, Car, CarList};
use crate::json::{decimal_text, json_integer, json_string, json_string_of};

verus! {

/// A response to a lookup request: status code, content type and body.
pub struct ApiResponse {
    pub status: u16,
    pub content_type: String,
    pub body: String,
}

/// The content type of every response.
pub open spec fn json_content_type() -> Seq<char> {
    "application/json"@
}

/// The body that reports a car: an object with its name, then its price.
pub open spec fn success_body(car: (Seq<char>, i32)) -> Seq<char> {
    "{\"name\":"@ + json_string_of(car.0) + ",\"price\":"@ + decimal_text(car.1 as int) + "}"@
}

/// The body that reports a failure: an object with the message as `error`.
pub open spec fn failure_body(message: Seq<char>) -> Seq<char> {
    "{\"error\":"@ + json_string_of(message) + "}"@
}

/// The object that reports a car, around its name already written as a
/// JSON string literal: `name` first, then `price`, with no whitespace.
pub fn car_body(quoted_name: &str, price: i32) -> (r: String)
    ensures
        r@ == "{\"name\":"@ + quoted_name@ + ",\"price\":"@ + decimal_text(price as int) + "}"@,
{
    let price_text = json_integer(price);
    let mut body = String::from_str("{\"name\":");
    body.append(quoted_name);
    body.append(",\"price\":");
    body.append(price_text.as_str());
    body.append("}");
    body
}

/// The object that reports a failure, around its message already written
/// as a JSON string literal.
pub fn error_body(quoted_message: &str) -> (r: String)
    ensures
        r@ == "{\"error\":"@ + quoted_message@ + "}"@,
{
    let mut body = String::from_str("{\"error\":");
    body.append(quoted_message);
    body.append("}");
    body
}

/// Builds the response that reports `car`: status 200 and a JSON object
/// with its name and price.
pub fn build_success_response(car: &Car) -> (r: ApiResponse)
    ensures
        r.status == 200,
        r.content_type@ == json_content_type(),
        r.body@ == success_body(car@),
{
    let name = json_string(car.name.as_str());
    let body = car_body(name.as_str(), car.price);
    ApiResponse { status: 200, content_type: String::from_str("application/json"), body }
}

/// Builds the response that reports a failure: status 400 and a JSON object
/// whose `error` is `error_message`.
pub fn build_failure_response(error_message: &str) -> (r: ApiResponse)
    ensures
        r.status == 400,
        r.content_type@ == json_content_type(),
        r.body@ == failure_body(error_message@),
{
    let message = json_string(error_message);
    let body = error_body(message.as_str());
    ApiResponse { status: 400, content_type: String::from_str("application/json"), body }
}

/// Answers a request that may carry a car name: 200 with the first car of
/// that name, or 400 with the message of the reason there is none.
pub fn handle_request(car_name: Option<&str>, car_list: &CarList) -> (r: ApiResponse)
    ensures
        r.content_type@ == json_content_type(),
        match lookup_request(car_list@, requested_name(car_name)) {
            Ok(c) => r.status == 200 && r.body@ == success_body(c),
            Err(e) => r.status == 400 && r.body@ == failure_body(e.text()),
        },
{
    match find_car(car_name, car_list) {
        Ok(car) => build_success_response(car),
        Err(e) => build_failure_response(e.message()),
    }
}

} // verus!
