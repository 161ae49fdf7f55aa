use media_toc::image_surface::{rgb_to_bgrx, surface_data_from_decoding, ImageSurface};

fn png_of(width: u32, height: u32, pixels: Vec<u8>) -> Vec<u8> {
    let image = image::RgbImage::from_raw(width, height, pixels).unwrap();
    let mut bytes = std::io::Cursor::new(Vec::new());
    image::DynamicImage::ImageRgb8(image)
        .write_to(&mut bytes, image::ImageOutputFormat::Png)
        .unwrap();
    bytes.into_inner()
}

#[test]
fn rgb_pixels_become_bgrx() {
    assert_eq!(
        vec![3, 2, 1, 0, 6, 5, 4, 0],
        rgb_to_bgrx(&[1, 2, 3, 4, 5, 6])
    );
    assert!(rgb_to_bgrx(&[]).is_empty());
}

#[test]
fn decoded_png_is_aligned() {
    let png = png_of(2, 1, vec![10, 20, 30, 40, 50, 60]);
    let image = ImageSurface::create_from_uknown(&png).unwrap();
    assert_eq!(2, image.width);
    assert_eq!(1, image.height);
    assert_eq!(8, image.stride);
    assert_eq!(vec![30, 20, 10, 0, 60, 50, 40, 0], image.data);
}

#[test]
fn garbage_is_refused() {
    let err = ImageSurface::create_from_uknown(&[1, 2, 3, 4]).unwrap_err();
    assert!(err.starts_with("Error loading image: "));
}

#[test]
fn non_rgb_image_is_refused() {
    let gray = image::GrayImage::from_raw(1, 1, vec![7]).unwrap();
    let mut bytes = std::io::Cursor::new(Vec::new());
    image::DynamicImage::ImageLuma8(gray)
        .write_to(&mut bytes, image::ImageOutputFormat::Png)
        .unwrap();
    let err = ImageSurface::create_from_uknown(&bytes.into_inner()).unwrap_err();
    assert_eq!("Error converting image to raw RGB", err);
}

#[test]
fn decoding_results_are_laid_out() {
    let image = surface_data_from_decoding(Ok(Some((1, 2, vec![1, 2, 3, 4, 5, 6])))).unwrap();
    assert_eq!((1, 2, 4), (image.width, image.height, image.stride));
    assert_eq!(vec![3, 2, 1, 0, 6, 5, 4, 0], image.data);
    assert_eq!(
        "Error loading image: oops",
        surface_data_from_decoding(Err("oops".to_owned())).unwrap_err()
    );
    assert_eq!(
        "Error converting image to raw RGB",
        surface_data_from_decoding(Ok(None)).unwrap_err()
    );
    // the pixels do not match the dimensions
    assert_eq!(
        "Error converting image to raw RGB",
        surface_data_from_decoding(Ok(Some((2, 2, vec![1, 2, 3])))).unwrap_err()
    );
}
