//! From what a clipboard read brought to an RGBA image, or to the reason why
//! there is none.

use crate::raster::{holds_image, Raster, RgbaImage};
use vstd::prelude::*;
use vstd::std_specs::convert::FromSpecImpl;

verus! {

/// Why the clipboard gave no usable image.
#[derive(Debug, Clone, Copy, PartialEq, Eq, Structural)]
pub enum Error {
    /// The clipboard holds no image.
    NoImageContent,
    /// The clipboard's content could not be turned into an RGBA image.
    RgbaConversionError,
    /// A dimension of the image does not fit the pixel coordinate range.
    SizeConversionError,
    /// Another party holds the clipboard.
    Occupied,
    /// The platform offers no clipboard.
    NotSupported,
    /// Any other failure of the clipboard.
    Unknown,
}

impl Error {
    /// The text shown to the user for this error.
    pub open spec fn message_text(self) -> Seq<char> {
        match self {
            Error::NoImageContent => "No image content available in clipboard"@,
            Error::RgbaConversionError => "Unable to convert clipboard contents to proper image format"@,
            Error::SizeConversionError => "Unable to determine size during image conversion"@,
            Error::Occupied => "Clipboard is occupied by another process"@,
            Error::NotSupported => "Clipboard is not supported"@,
            Error::Unknown => "Unknown clipboard error"@,
        }
    }

    /// The error for a clipboard that was opened and then gave no image, by
    /// the kind of the failure.
    pub open spec fn of(failure: Failure) -> Error {
        match failure {
            Failure::ContentNotAvailable => Error::NoImageContent,
            Failure::ClipboardOccupied => Error::Occupied,
            Failure::ConversionFailure => Error::RgbaConversionError,
            Failure::ClipboardNotSupported => Error::NotSupported,
            Failure::Other => Error::Unknown,
        }
    }

    /// The error for a fault. A clipboard that could not be opened counts as
    /// occupied, whatever the kind of the failure; a failed read has the
    /// error of its kind.
    pub open spec fn of_fault(fault: Fault) -> Error {
        match fault {
            Fault::Open(_) => Error::Occupied,
            Fault::Read(failure) => Error::of(failure),
        }
    }

    /// The text shown to the user for this error.
    pub fn message(&self) -> (text: String)
        ensures
            text@ == self.message_text(),
    {
        match self {
            Error::NoImageContent => "No image content available in clipboard".to_owned(),
            Error::RgbaConversionError => "Unable to convert clipboard contents to proper image format".to_owned(),
            Error::SizeConversionError => "Unable to determine size during image conversion".to_owned(),
            Error::Occupied => "Clipboard is occupied by another process".to_owned(),
            Error::NotSupported => "Clipboard is not supported".to_owned(),
            Error::Unknown => "Unknown clipboard error".to_owned(),
        }
    }
}

/// The kind of a failure, as the clipboard service reports it.
#[derive(Debug, Clone, Copy, PartialEq, Eq, Structural)]
pub enum Failure {
    /// The clipboard is empty, or what it holds is no image.
    ContentNotAvailable,
    /// The clipboard is not supported on this system.
    ClipboardNotSupported,
    /// The clipboard is held by another party.
    ClipboardOccupied,
    /// The content could not be converted to an image.
    ConversionFailure,
    /// A failure of no other kind.
    Other,
}

impl From<Failure> for Error {
    fn from(failure: Failure) -> (error: Error) {
        match failure {
            Failure::ContentNotAvailable => Error::NoImageContent,
            Failure::ClipboardOccupied => Error::Occupied,
            Failure::ConversionFailure => Error::RgbaConversionError,
            Failure::ClipboardNotSupported => Error::NotSupported,
            Failure::Other => Error::Unknown,
        }
    }
}

impl FromSpecImpl<Failure> for Error {
    open spec fn obeys_from_spec() -> bool {
        true
    }

    open spec fn from_spec(failure: Failure) -> Error {
        Error::of(failure)
    }
}

/// Where the way to an image on the clipboard ended, and with what kind of
/// failure.
#[derive(Debug, Clone, Copy, PartialEq, Eq, Structural)]
pub enum Fault {
    /// No handle to the clipboard could be opened; nothing was read.
    Open(Failure),
    /// The clipboard was opened, and asking it for an image failed.
    Read(Failure),
}

impl From<Fault> for Error {
    fn from(fault: Fault) -> (error: Error) {
        match fault {
            Fault::Open(_) => Error::Occupied,
            Fault::Read(failure) => Error::from(failure),
        }
    }
}

impl FromSpecImpl<Fault> for Error {
    open spec fn obeys_from_spec() -> bool {
        true
    }

    open spec fn from_spec(fault: Fault) -> Error {
        Error::of_fault(fault)
    }
}

/// An image as the clipboard hands it out: dimensions in platform integers
/// and the bytes of its pixels, four per pixel, row by row.
#[derive(Debug)]
pub struct ImageData {
    pub width: usize,
    pub height: usize,
    pub bytes: Vec<u8>,
}

impl ImageData {
    /// A dimension does not fit the pixel coordinate range.
    pub open spec fn oversized(self) -> bool {
        self.width > u32::MAX || self.height > u32::MAX
    }

    /// The bytes are not exactly those of `width * height` pixels, or the
    /// platform cannot count the bytes of one row.
    pub open spec fn malformed(self) -> bool {
        !holds_image(self.width as int, self.height as int, self.bytes@.len() as int)
    }
}

/// Why `reading` gives no image, if it gives none: the clipboard could not
/// be opened, the read failed, a dimension is too large, or the bytes are not
/// those of the pixels.
pub open spec fn rejection(reading: Result<ImageData, Fault>) -> Option<Error> {
    match reading {
        Err(fault) => Some(Error::of_fault(fault)),
        Ok(data) => if data.oversized() {
            Some(Error::SizeConversionError)
        } else if data.malformed() {
            Some(Error::RgbaConversionError)
        } else {
            None
        },
    }
}

/// Turns what one attempt to read the clipboard brought into an RGBA image.
/// The image has the dimensions and the bytes of the reading, and its buffer
/// holds exactly four bytes per pixel; an attempt that cannot give such an
/// image is refused with the error of its cause.
pub fn get_image(reading: Result<ImageData, Fault>) -> (result: Result<RgbaImage, Error>)
    ensures
        match rejection(reading) {
            Some(error) => result == Err::<RgbaImage, Error>(error),
            None => result is Ok && result->Ok_0@ == (Raster {
                width: reading->Ok_0.width as nat,
                height: reading->Ok_0.height as nat,
                data: reading->Ok_0.bytes@,
            }) && result->Ok_0@.well_formed(),
        },
{
    match reading {
        Err(fault) => Err(Error::from(fault)),
        Ok(data) => {
            let width = match u32::try_from(data.width) {
                Ok(width) => width,
                Err(_) => return Err(Error::SizeConversionError),
            };
            let height = match u32::try_from(data.height) {
                Ok(height) => height,
                Err(_) => return Err(Error::SizeConversionError),
            };
            match RgbaImage::from_raw(width, height, data.bytes) {
                Some(image) => Ok(image),
                None => Err(Error::RgbaConversionError),
            }
        },
    }
}

/// Each way in which the clipboard can fail to give an image has one named
/// error, and a reading is accepted only if none of them applies. A clipboard
/// that could not be opened is reported as occupied for every kind of failure.
pub proof fn lemma_failures_are_classified(reading: Result<ImageData, Fault>)
    ensures
        reading matches Err(Fault::Open(_)) ==> rejection(reading) == Some(Error::Occupied),
        reading == Err::<ImageData, Fault>(Fault::Read(Failure::ContentNotAvailable))
            ==> rejection(reading) == Some(Error::NoImageContent),
        reading == Err::<ImageData, Fault>(Fault::Read(Failure::ClipboardOccupied)) ==> rejection(
            reading,
        ) == Some(Error::Occupied),
        reading == Err::<ImageData, Fault>(Fault::Read(Failure::ClipboardNotSupported))
            ==> rejection(reading) == Some(Error::NotSupported),
        reading == Err::<ImageData, Fault>(Fault::Read(Failure::ConversionFailure)) ==> rejection(
            reading,
        ) == Some(Error::RgbaConversionError),
        reading == Err::<ImageData, Fault>(Fault::Read(Failure::Other)) ==> rejection(reading)
            == Some(Error::Unknown),
        reading is Ok && reading->Ok_0.oversized() ==> rejection(reading) == Some(
            Error::SizeConversionError,
        ),
        reading is Ok && !reading->Ok_0.oversized() && reading->Ok_0.malformed() ==> rejection(
            reading,
        ) == Some(Error::RgbaConversionError),
        rejection(reading) is None <==> reading is Ok && !reading->Ok_0.oversized()
            && !reading->Ok_0.malformed(),
{
}

} // verus!
