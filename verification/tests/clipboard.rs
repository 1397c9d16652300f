use clipview::clipboard::{get_image, Error, Failure, Fault, ImageData};
use clipview::raster::RgbaImage;

fn reading(width: usize, height: usize, bytes: Vec<u8>) -> Result<ImageData, Fault> {
    Ok(ImageData { width, height, bytes })
}

#[test]
fn image_keeps_dimensions_and_bytes() {
    let bytes: Vec<u8> = (0u8..24).collect();
    let image = get_image(reading(3, 2, bytes)).unwrap();
    assert_eq!(image.width(), 3);
    assert_eq!(image.height(), 2);
    let pixels = image.pixels();
    assert_eq!(pixels.len(), 6);
    assert_eq!(pixels[0], [0, 1, 2, 3]);
    assert_eq!(pixels[1], [4, 5, 6, 7]);
    assert_eq!(pixels[3], [12, 13, 14, 15]);
    assert_eq!(pixels[5], [20, 21, 22, 23]);
}

#[test]
fn empty_image_is_accepted() {
    let image = get_image(reading(0, 0, Vec::new())).unwrap();
    assert_eq!(image.width(), 0);
    assert_eq!(image.height(), 0);
    assert!(image.pixels().is_empty());
}

#[test]
fn image_without_rows_keeps_its_width() {
    let image = get_image(reading(5, 0, Vec::new())).unwrap();
    assert_eq!(image.width(), 5);
    assert_eq!(image.height(), 0);
    assert!(image.pixels().is_empty());
}

#[test]
fn no_image_content_is_reported() {
    let error = get_image(Err(Fault::Read(Failure::ContentNotAvailable))).err();
    assert_eq!(error, Some(Error::NoImageContent));
    assert_eq!(
        Error::NoImageContent.message(),
        "No image content available in clipboard"
    );
}

#[test]
fn occupied_clipboard_is_reported() {
    let error = get_image(Err(Fault::Read(Failure::ClipboardOccupied))).err();
    assert_eq!(error, Some(Error::Occupied));
}

#[test]
fn unsupported_clipboard_is_reported() {
    let error = get_image(Err(Fault::Read(Failure::ClipboardNotSupported))).err();
    assert_eq!(error, Some(Error::NotSupported));
}

#[test]
fn conversion_failure_is_reported() {
    let error = get_image(Err(Fault::Read(Failure::ConversionFailure))).err();
    assert_eq!(error, Some(Error::RgbaConversionError));
}

#[test]
fn other_failures_are_unknown() {
    let error = get_image(Err(Fault::Read(Failure::Other))).err();
    assert_eq!(error, Some(Error::Unknown));
}

#[test]
fn each_failure_has_its_error() {
    assert_eq!(Error::from(Failure::ContentNotAvailable), Error::NoImageContent);
    assert_eq!(Error::from(Failure::ClipboardOccupied), Error::Occupied);
    assert_eq!(Error::from(Failure::ConversionFailure), Error::RgbaConversionError);
    assert_eq!(Error::from(Failure::ClipboardNotSupported), Error::NotSupported);
    assert_eq!(Error::from(Failure::Other), Error::Unknown);
}

#[test]
fn clipboard_that_does_not_open_is_occupied() {
    for kind in [
        Failure::ContentNotAvailable,
        Failure::ClipboardNotSupported,
        Failure::ClipboardOccupied,
        Failure::ConversionFailure,
        Failure::Other,
    ] {
        assert_eq!(get_image(Err(Fault::Open(kind))).err(), Some(Error::Occupied));
        assert_eq!(Error::from(Fault::Open(kind)), Error::Occupied);
    }
    assert_eq!(
        Error::Occupied.message(),
        "Clipboard is occupied by another process"
    );
}

#[test]
fn failed_read_has_the_error_of_its_kind() {
    assert_eq!(
        Error::from(Fault::Read(Failure::ContentNotAvailable)),
        Error::NoImageContent
    );
    assert_eq!(Error::from(Fault::Read(Failure::ClipboardOccupied)), Error::Occupied);
    assert_eq!(
        Error::from(Fault::Read(Failure::ConversionFailure)),
        Error::RgbaConversionError
    );
    assert_eq!(
        Error::from(Fault::Read(Failure::ClipboardNotSupported)),
        Error::NotSupported
    );
    assert_eq!(Error::from(Fault::Read(Failure::Other)), Error::Unknown);
}

#[test]
fn short_buffer_is_malformed() {
    let error = get_image(reading(2, 2, vec![0; 15])).err();
    assert_eq!(error, Some(Error::RgbaConversionError));
}

#[test]
fn long_buffer_is_malformed() {
    let error = get_image(reading(2, 2, vec![0; 17])).err();
    assert_eq!(error, Some(Error::RgbaConversionError));
}

#[test]
fn bytes_without_dimensions_are_malformed() {
    let error = get_image(reading(0, 7, vec![0; 4])).err();
    assert_eq!(error, Some(Error::RgbaConversionError));
}

#[test]
fn oversized_width_is_a_size_error() {
    let width = u32::MAX as usize + 1;
    let error = get_image(reading(width, 1, Vec::new())).err();
    assert_eq!(error, Some(Error::SizeConversionError));
}

#[test]
fn oversized_height_is_a_size_error() {
    let height = u32::MAX as usize + 1;
    let error = get_image(reading(0, height, Vec::new())).err();
    assert_eq!(error, Some(Error::SizeConversionError));
}

#[test]
fn size_is_checked_before_the_bytes() {
    let width = u32::MAX as usize + 1;
    let error = get_image(reading(width, 1, vec![0; 3])).err();
    assert_eq!(error, Some(Error::SizeConversionError));
}

#[test]
fn largest_width_that_fits_is_not_a_size_error() {
    let error = get_image(reading(u32::MAX as usize, 1, vec![0; 8])).err();
    assert_eq!(error, Some(Error::RgbaConversionError));
}

#[test]
fn clipboard_messages() {
    assert_eq!(
        Error::RgbaConversionError.message(),
        "Unable to convert clipboard contents to proper image format"
    );
    assert_eq!(
        Error::SizeConversionError.message(),
        "Unable to determine size during image conversion"
    );
    assert_eq!(Error::Occupied.message(), "Clipboard is occupied by another process");
    assert_eq!(Error::NotSupported.message(), "Clipboard is not supported");
    assert_eq!(Error::Unknown.message(), "Unknown clipboard error");
}

#[test]
fn from_raw_wants_four_bytes_per_pixel() {
    assert!(RgbaImage::from_raw(2, 3, vec![9; 24]).is_some());
    assert!(RgbaImage::from_raw(2, 3, vec![9; 23]).is_none());
    assert!(RgbaImage::from_raw(2, 3, vec![9; 25]).is_none());
    assert!(RgbaImage::from_raw(0, 0, vec![9; 1]).is_none());
    assert!(RgbaImage::from_raw(u32::MAX, u32::MAX, vec![9; 16]).is_none());
}

#[test]
fn row_must_fit_the_platform_word() {
    let width: u32 = 0x4000_0000;
    let fits = 4 * (width as u64) <= usize::MAX as u64;
    assert_eq!(RgbaImage::from_raw(width, 0, Vec::new()).is_some(), fits);
    let refused = get_image(reading(width as usize, 0, Vec::new())).err();
    assert_eq!(refused.is_none(), fits);
    if !fits {
        assert_eq!(refused, Some(Error::RgbaConversionError));
    }
}

#[test]
fn from_raw_keeps_what_it_is_given() {
    let image = RgbaImage::from_raw(1, 2, vec![1, 2, 3, 4, 5, 6, 7, 8]).unwrap();
    assert_eq!(image.width(), 1);
    assert_eq!(image.height(), 2);
    assert_eq!(image.pixels(), vec![[1, 2, 3, 4], [5, 6, 7, 8]]);
}
