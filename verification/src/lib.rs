//! Host-side support for the Ultraleap SIR 170 ("Rigel") stereo camera: the
//! USB control request that asks the device for its factory calibration, and
//! the codec for the calibration record that the device answers with.
//!
//! Capture itself is not offered yet: a `Rigel` keeps the frame callback it
//! is given, and `get_rigel`, `open` and `close` report that they are not yet
//! implemented.

use vstd::prelude::*;

pub mod calib;
pub mod usb;
pub mod usb_info;
pub mod wire;

verus! {

/// What the functions of this crate return.
pub type Result<T> = std::result::Result<T, Error>;

/// An error with the details that its maker gave.
#[derive(Debug)]
pub struct Error {
    details: String,
}

impl View for Error {
    type V = Seq<char>;

    /// The details of the error.
    closed spec fn view(&self) -> Seq<char> {
        self.details@
    }
}

impl Error {
    /// An error with the given details.
    pub fn new(details: String) -> (error: Self)
        ensures
            error@ == details@,
    {
        Self { details: details }
    }

    /// The details of the error.
    pub fn to_string(self: &Self) -> (details: String)
        ensures
            details@ == self@,
    {
        self.details.clone()
    }
}

/// A handle on one camera, with the callback that is to receive its frames.
pub struct Rigel<Cb> where Cb: Fn(&[u8]) -> () {
    callback_fn: Option<Cb>,
}

/// Finds the first connected camera. Not yet implemented: always an error
/// that says so.
pub fn get_rigel<Cb>() -> (result: Result<Rigel<Cb>>) where Cb: Fn(&[u8]) -> ()
    ensures
        result matches Err(error) && error@ == "get_rigel not yet implemented."@,
{
    Err(Error::new("get_rigel not yet implemented.".to_string()))
}

impl<Cb> Rigel<Cb> where Cb: Fn(&[u8]) -> () {
    /// The callback that frames are handed to, if one was set.
    pub closed spec fn callback(&self) -> Option<Cb> {
        self.callback_fn
    }

    /// Sets the callback that frames are handed to, in place of any earlier one.
    pub fn set_callback(&mut self, callback_fn: Cb)
        ensures
            final(self).callback() == Some(callback_fn),
    {
        self.callback_fn = Some(callback_fn);
    }

    /// Starts capture. Not yet implemented: always an error that says so,
    /// and the handle is left as it was.
    pub fn open(&mut self) -> (result: Result<()>)
        ensures
            result matches Err(error) && error@ == "open() not yet implemented."@,
            *final(self) == *old(self),
    {
        Err(Error::new("open() not yet implemented.".to_string()))
    }

    /// Stops capture. Not yet implemented: always an error that says so,
    /// and the handle is left as it was.
    pub fn close(&mut self) -> (result: Result<()>)
        ensures
            result matches Err(error) && error@ == "close() not yet implemented."@,
            *final(self) == *old(self),
    {
        Err(Error::new("close() not yet implemented.".to_string()))
    }
}

} // verus!
