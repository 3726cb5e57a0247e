//! The errors of the light controller and the text each one reads as.

use vstd::prelude::*;

verus! {

/// What can go wrong while driving the lights.
#[derive(Debug)]
pub enum TrainError {
    /// The hardware interface failed.
    Hardware(String),
    /// An I2C transfer failed.
    I2C(String),
    /// A GPIO line or the GPIO chip could not be used.
    GPIO(String),
    /// The caller passed a value that is out of range.
    InvalidParameter(String),
    /// The device is missing or does not answer.
    DeviceNotFound,
    /// The operation is not available.
    NotSupported,
}

/// A [`TrainError`] with each message as a sequence of characters.
pub enum TrainErrorView {
    Hardware(Seq<char>),
    I2C(Seq<char>),
    GPIO(Seq<char>),
    InvalidParameter(Seq<char>),
    DeviceNotFound,
    NotSupported,
}

impl View for TrainError {
    type V = TrainErrorView;

    open spec fn view(&self) -> TrainErrorView {
        match self {
            TrainError::Hardware(detail) => TrainErrorView::Hardware(detail@),
            TrainError::I2C(detail) => TrainErrorView::I2C(detail@),
            TrainError::GPIO(detail) => TrainErrorView::GPIO(detail@),
            TrainError::InvalidParameter(detail) => TrainErrorView::InvalidParameter(detail@),
            TrainError::DeviceNotFound => TrainErrorView::DeviceNotFound,
            TrainError::NotSupported => TrainErrorView::NotSupported,
        }
    }
}

impl TrainErrorView {
    /// The line of text that reports this error.
    pub open spec fn text(self) -> Seq<char> {
        match self {
            TrainErrorView::Hardware(detail) => "Hardware interface error: "@ + detail,
            TrainErrorView::I2C(detail) => "I2C communication error: "@ + detail,
            TrainErrorView::GPIO(detail) => "GPIO error: "@ + detail,
            TrainErrorView::InvalidParameter(detail) => "Invalid parameter: "@ + detail,
            TrainErrorView::DeviceNotFound => "Device not found or not responding"@,
            TrainErrorView::NotSupported => "Operation not supported"@,
        }
    }
}

impl TrainError {
    /// The line of text that reports this error.
    pub fn to_string(&self) -> (line: String)
        ensures
            line@ == self@.text(),
    {
        match self {
            TrainError::Hardware(detail) => {
                String::from_str("Hardware interface error: ").concat(detail.as_str())
            },
            TrainError::I2C(detail) => {
                String::from_str("I2C communication error: ").concat(detail.as_str())
            },
            TrainError::GPIO(detail) => String::from_str("GPIO error: ").concat(detail.as_str()),
            TrainError::InvalidParameter(detail) => {
                String::from_str("Invalid parameter: ").concat(detail.as_str())
            },
            TrainError::DeviceNotFound => String::from_str("Device not found or not responding"),
            TrainError::NotSupported => String::from_str("Operation not supported"),
        }
    }
}

/// The error type of the `gpio_cdev` crate. Its contents stay hidden: the
/// library only turns such an error into text.
#[verifier::external_type_specification]
#[verifier::external_body]
pub struct ExGpioError(gpio_cdev::Error);

impl From<gpio_cdev::Error> for TrainError {
    /// A failure of the GPIO character device becomes a GPIO error that
    /// carries the failure's own description.
    fn from(err: gpio_cdev::Error) -> (e: TrainError)
        ensures
            e is GPIO,
    {
        TrainError::GPIO(err.to_string())
    }
}

impl vstd::std_specs::convert::FromSpecImpl<gpio_cdev::Error> for TrainError {
    /// The description is whatever `gpio_cdev` prints for the failure, which
    /// no spec function fixes: `from` promises the variant and nothing else.
    open spec fn obeys_from_spec() -> bool {
        false
    }

    open spec fn from_spec(err: gpio_cdev::Error) -> TrainError {
        TrainError::GPIO(arbitrary())
    }
}

} // verus!
