//! What the user is told when the camera cannot be started, and when a second,
//! less demanding request for any camera is worth making.
use vstd::prelude::*;
use vstd::string::*;

use wasm_bindgen::JsValue;

use crate::text::{text_equals, text_of};

verus! {

/// A value of the JavaScript engine, held by handle.
#[verifier::external_type_specification]
#[verifier::external_body]
pub struct ExJsValue(wasm_bindgen::JsValue);

pub const NOT_ALLOWED_MESSAGE: &'static str =
    "Camera access was denied. In Safari, open Page Settings, set Camera to Allow, then reload.";

pub const NOT_FOUND_MESSAGE: &'static str = "No camera was found on this device.";

pub const NOT_READABLE_MESSAGE: &'static str =
    "The camera is already in use by another app or browser tab.";

pub const OVERCONSTRAINED_MESSAGE: &'static str =
    "The requested camera is unavailable on this device.";

pub const GENERIC_CAMERA_MESSAGE: &'static str = "The browser could not start the camera.";

/// Shown when the page has no browser window to ask for a camera.
pub const NO_WINDOW_MESSAGE: &'static str = "No browser window is available.";

/// Shown when the video element that displays the camera is not there yet.
pub const VIDEO_NOT_READY_MESSAGE: &'static str = "The camera view is not ready.";

/// The message for a camera error: the error itself when it is a plain string;
/// otherwise a known error name gets its own explanation, and any other error its
/// own message, or a generic one when it has none.
pub open spec fn camera_error_text(
    direct: Option<Seq<char>>,
    name: Seq<char>,
    message: Seq<char>,
) -> Seq<char> {
    match direct {
        Some(text) => text,
        None => if name == "NotAllowedError"@ {
            NOT_ALLOWED_MESSAGE@
        } else if name == "NotFoundError"@ {
            NOT_FOUND_MESSAGE@
        } else if name == "NotReadableError"@ {
            NOT_READABLE_MESSAGE@
        } else if name == "OverconstrainedError"@ {
            OVERCONSTRAINED_MESSAGE@
        } else if message.len() > 0 {
            message
        } else {
            GENERIC_CAMERA_MESSAGE@
        },
    }
}

/// The message for a camera error, from what the error value offered: its text when
/// it is a string (`direct`), else its `name` and `message` properties (empty when
/// missing).
pub fn camera_error_message(direct: Option<String>, name: &str, message: String) -> (text: String)
    ensures
        text@ == camera_error_text(text_of(direct), name@, message@),
{
    if let Some(text) = direct {
        return text;
    }
    if text_equals(name, "NotAllowedError") {
        String::from_str(NOT_ALLOWED_MESSAGE)
    } else if text_equals(name, "NotFoundError") {
        String::from_str(NOT_FOUND_MESSAGE)
    } else if text_equals(name, "NotReadableError") {
        String::from_str(NOT_READABLE_MESSAGE)
    } else if text_equals(name, "OverconstrainedError") {
        String::from_str(OVERCONSTRAINED_MESSAGE)
    } else if !message.as_str().is_empty() {
        message
    } else {
        String::from_str(GENERIC_CAMERA_MESSAGE)
    }
}

/// A request for the rear camera that failed because no such camera exists is
/// retried with any camera.
pub fn should_retry_with_any_camera(error_name: &str) -> (retry: bool)
    ensures
        retry == (error_name@ == "NotFoundError"@ || error_name@ == "OverconstrainedError"@),
{
    text_equals(error_name, "NotFoundError") || text_equals(error_name, "OverconstrainedError")
}

/// `JsValue::as_string`: the text of the value when it is a JavaScript string.
/// Nothing is stated: the handle's contents live in the JavaScript engine.
#[verifier::external_body]
fn js_text(value: &JsValue) -> Option<String> {
    value.as_string()
}

/// What reading one property of a JavaScript value gave back, with the key it was
/// read under.
pub struct PropertyRead {
    pub key: String,
    pub outcome: Result<JsValue, JsValue>,
}

/// `js_sys::Reflect::get`: reads the property `key` of `target`; the outcome is the
/// property's value, or the exception raised while reading it. Stated: the read
/// carries the key it was handed. Nothing is stated of the outcome: the object lives
/// in the JavaScript engine.
#[verifier::external_body]
fn js_property(target: &JsValue, key: &str) -> (read: PropertyRead)
    ensures
        read.key@ == key@,
{
    PropertyRead { key: key.to_string(), outcome: js_sys::Reflect::get(target, &JsValue::from_str(key)) }
}

/// The text a property read gave: the string itself, or the empty text when the read
/// failed (`None`) or the property was not a string (`None` as well).
pub fn text_or_empty(read: Option<String>) -> (text: String)
    ensures
        text@ == match read {
            Some(t) => t@,
            None => Seq::<char>::empty(),
        },
{
    match read {
        Some(text) => text,
        None => String::new(),
    }
}

/// The text of one property of a JavaScript value, with the key it was read under;
/// the text is empty when the property could not be read or was not a string.
pub struct PropertyText {
    pub key: String,
    pub text: String,
}

/// Reads the property `key` of `value` as text: `text_or_empty` of the property's
/// string, `None` when the read failed or the property was not a string.
fn property_text(value: &JsValue, key: &str) -> (read: PropertyText)
    ensures
        read.key@ == key@,
{
    let read = js_property(value, key);
    let text = match read.outcome {
        Ok(property) => js_text(&property),
        Err(_) => None,
    };
    PropertyText { key: read.key, text: text_or_empty(text) }
}

/// The error's name, from a read of its `name` property.
pub fn error_name(read: PropertyText) -> (name: String)
    requires
        read.key@ == "name"@,
    ensures
        name@ == read.text@,
{
    read.text
}

/// The message for a camera error from what was read of it: its own text when it is
/// a string (`direct`), and the reads of its `name` and `message` properties.
pub fn camera_error_message_from(
    direct: Option<String>,
    name: PropertyText,
    message: PropertyText,
) -> (text: String)
    requires
        name.key@ == "name"@,
        message.key@ == "message"@,
    ensures
        text@ == camera_error_text(text_of(direct), name.text@, message.text@),
{
    camera_error_message(direct, name.text.as_str(), message.text)
}

/// The `name` property of an error raised by the browser, empty when it cannot be
/// read or is not a string. The property is read under the key `name` (checked by
/// `error_name`); nothing is stated of its text, which lives in the JavaScript engine.
pub fn camera_error_name(value: &JsValue) -> String {
    error_name(property_text(value, "name"))
}

/// The message to show for an error raised while starting the camera: the error's own
/// text, and its `name` and `message` properties, are read from the JavaScript engine
/// (the keys are checked by `camera_error_message_from`) and mapped by
/// `camera_error_text`. Nothing is stated of what the engine answers.
pub fn js_error(value: JsValue) -> String {
    let direct = js_text(&value);
    let name = property_text(&value, "name");
    let message = property_text(&value, "message");
    camera_error_message_from(direct, name, message)
}

} // verus!
