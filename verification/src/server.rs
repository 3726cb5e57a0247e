//! What the HTTP interface answers. The routes themselves, and the bodies
//! as JSON, belong to the program around this library; what is decided
//! here is which requests are turned away, what is asked of the lights, and
//! what the answer says.

use crate::error::TrainError;
use crate::leds::{valid_led, LED_COUNT};
use crate::text::{decimal, push_decimal};
use vstd::prelude::*;

verus! {

/// One light as the interface reports it. The state of a light is not
/// tracked, so `state` is always `"unknown"`.
#[derive(Debug)]
pub struct LedResponse {
    pub led: u8,
    pub state: String,
}

/// The body of a request to blink a light.
#[derive(Debug)]
pub struct BlinkRequest {
    pub frequency_ms: u64,
}

/// The body of an answer to a request that was carried out.
#[derive(Debug)]
pub struct StatusResponse {
    pub status: String,
    pub message: String,
}

/// The status that turns a request away.
#[derive(Debug, Clone, Copy, PartialEq, Eq, Structural)]
pub enum HttpStatus {
    /// 400: the body asks for something that cannot be done.
    BadRequest,
    /// 404: the path names no light.
    NotFound,
    /// 500: the lights could not be driven.
    InternalServerError,
}

impl HttpStatus {
    /// The numeric status code.
    pub fn code(self) -> (code: u16)
        ensures
            code == (match self {
                HttpStatus::BadRequest => 400u16,
                HttpStatus::NotFound => 404u16,
                HttpStatus::InternalServerError => 500u16,
            }),
    {
        match self {
            HttpStatus::BadRequest => 400,
            HttpStatus::NotFound => 404,
            HttpStatus::InternalServerError => 500,
        }
    }
}

/// What a request that passed its checks asks of the lights.
#[derive(Debug, Clone, Copy, PartialEq, Eq, Structural)]
pub enum LedRequest {
    On { led: u8 },
    Off { led: u8 },
    Blink { led: u8, frequency_ms: u64 },
    AllOff,
}

impl LedRequest {
    /// What the answer says once the request was carried out.
    pub open spec fn message(self) -> Seq<char> {
        match self {
            LedRequest::On { led } => "LED "@ + decimal(led as nat) + " turned on"@,
            LedRequest::Off { led } => "LED "@ + decimal(led as nat) + " turned off"@,
            LedRequest::Blink { led, frequency_ms } => "LED "@ + decimal(led as nat)
                + " blinking at "@ + decimal(frequency_ms as nat) + "ms interval"@,
            LedRequest::AllOff => "All LEDs turned off and blinking cancelled"@,
        }
    }
}

/// The answer to a request for the root path.
pub fn root() -> (response: StatusResponse)
    ensures
        response.status@ == "ok"@,
        response.message@ == "Train Set Control API - LED Control Only"@,
{
    StatusResponse {
        status: String::from_str("ok"),
        message: String::from_str("Train Set Control API - LED Control Only"),
    }
}

/// The list of all lights, 1 to 24 in order, each with the state
/// `"unknown"`.
pub fn get_all_leds() -> (leds: Vec<LedResponse>)
    ensures
        leds.len() == LED_COUNT,
        forall|i: int|
            0 <= i < leds.len() ==> (#[trigger] leds[i]).led == i + 1 && leds[i].state@
                == "unknown"@,
{
    let mut leds: Vec<LedResponse> = Vec::new();
    let mut led: u8 = 1;
    while led <= LED_COUNT
        invariant
            1 <= led <= LED_COUNT + 1,
            leds.len() == led - 1,
            forall|i: int|
                0 <= i < leds.len() ==> (#[trigger] leds[i]).led == i + 1 && leds[i].state@
                    == "unknown"@,
        decreases LED_COUNT + 1 - led,
    {
        leds.push(LedResponse { led, state: String::from_str("unknown") });
        led = led + 1;
    }
    leds
}

/// One light, with the state `"unknown"`; `NotFound` where `led` names no
/// light.
pub fn get_led(led: u8) -> (r: Result<LedResponse, HttpStatus>)
    ensures
        match r {
            Ok(response) => valid_led(led) && response.led == led && response.state@
                == "unknown"@,
            Err(status) => !valid_led(led) && status == HttpStatus::NotFound,
        },
{
    if led < 1 || led > LED_COUNT {
        return Err(HttpStatus::NotFound);
    }
    Ok(LedResponse { led, state: String::from_str("unknown") })
}

/// A request to turn light `led` on; `NotFound` where `led` names no light.
pub fn set_led_on(led: u8) -> (r: Result<LedRequest, HttpStatus>)
    ensures
        match r {
            Ok(request) => valid_led(led) && request == (LedRequest::On { led }),
            Err(status) => !valid_led(led) && status == HttpStatus::NotFound,
        },
{
    if led < 1 || led > LED_COUNT {
        return Err(HttpStatus::NotFound);
    }
    Ok(LedRequest::On { led })
}

/// A request to turn light `led` off; `NotFound` where `led` names no
/// light.
pub fn set_led_off(led: u8) -> (r: Result<LedRequest, HttpStatus>)
    ensures
        match r {
            Ok(request) => valid_led(led) && request == (LedRequest::Off { led }),
            Err(status) => !valid_led(led) && status == HttpStatus::NotFound,
        },
{
    if led < 1 || led > LED_COUNT {
        return Err(HttpStatus::NotFound);
    }
    Ok(LedRequest::Off { led })
}

/// A request to blink light `led`; `NotFound` where `led` names no light,
/// else `BadRequest` where the period is zero.
pub fn set_led_blink(led: u8, request: &BlinkRequest) -> (r: Result<LedRequest, HttpStatus>)
    ensures
        match r {
            Ok(accepted) => valid_led(led) && request.frequency_ms > 0 && accepted == (
            LedRequest::Blink { led, frequency_ms: request.frequency_ms }),
            Err(status) => status == (if !valid_led(led) {
                HttpStatus::NotFound
            } else {
                HttpStatus::BadRequest
            }) && (!valid_led(led) || request.frequency_ms == 0),
        },
{
    if led < 1 || led > LED_COUNT {
        return Err(HttpStatus::NotFound);
    }
    if request.frequency_ms == 0 {
        return Err(HttpStatus::BadRequest);
    }
    Ok(LedRequest::Blink { led, frequency_ms: request.frequency_ms })
}

/// A request to put the whole board out.
pub fn set_all_leds_off() -> (request: LedRequest)
    ensures
        request == LedRequest::AllOff,
{
    LedRequest::AllOff
}

/// The answer to `request` once the lights have been asked: the status
/// `"ok"` with a message that says what was done, or
/// `InternalServerError` where the lights answered with an error.
pub fn reply(request: LedRequest, outcome: Result<(), TrainError>) -> (r: Result<
    StatusResponse,
    HttpStatus,
>)
    ensures
        match r {
            Ok(response) => outcome is Ok && response.status@ == "ok"@ && response.message@
                == request.message(),
            Err(status) => outcome is Err && status == HttpStatus::InternalServerError,
        },
{
    if outcome.is_err() {
        return Err(HttpStatus::InternalServerError);
    }
    let message = match request {
        LedRequest::On { led } => {
            let mut message = String::from_str("LED ");
            push_decimal(&mut message, led as u64);
            message.append(" turned on");
            message
        },
        LedRequest::Off { led } => {
            let mut message = String::from_str("LED ");
            push_decimal(&mut message, led as u64);
            message.append(" turned off");
            message
        },
        LedRequest::Blink { led, frequency_ms } => {
            let mut message = String::from_str("LED ");
            push_decimal(&mut message, led as u64);
            message.append(" blinking at ");
            push_decimal(&mut message, frequency_ms);
            message.append("ms interval");
            message
        },
        LedRequest::AllOff => String::from_str("All LEDs turned off and blinking cancelled"),
    };
    Ok(StatusResponse { status: String::from_str("ok"), message })
}

} // verus!
