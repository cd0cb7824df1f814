use quality_ladder::codec::{decode_layer, encode_layer};
use quality_ladder::error::{CodecCause, Error};
use quality_ladder::ladder::{accept_layer, generate_layer, generate_layers, QualityLadder};
use quality_ladder::quality::quality_values;
use quality_ladder::raster::{ColorModel, Image};

fn gray_square() -> Image {
    Image::from_raw(2, 2, ColorModel::Gray, vec![128; 4]).unwrap()
}

fn rgb_patches() -> Image {
    let data = vec![200, 10, 10, 10, 200, 10, 10, 10, 200, 0, 0, 0, 255, 255, 255, 90, 90, 90];
    Image::from_raw(3, 2, ColorModel::Rgb, data).unwrap()
}

fn flat(width: u32, height: u32, level: u8) -> Image {
    let data = vec![level; (width * height * 4) as usize];
    Image::from_raw(width, height, ColorModel::Rgba, data).unwrap()
}

#[test]
fn a_layer_is_one_round_trip_of_the_source() {
    let layer = generate_layer(&rgb_patches(), 50).unwrap();
    let by_hand = decode_layer(encode_layer(&rgb_patches(), 50).unwrap()).unwrap();
    assert_eq!(layer.dimensions(), (3, 2));
    assert_eq!(layer.color(), ColorModel::Rgb);
    assert_eq!(layer.as_raw(), by_hand.as_raw());
    assert_ne!(layer.as_raw(), rgb_patches().as_raw());
}

#[test]
fn ladder_has_the_requested_length_and_the_source_size() {
    for count in [1usize, 2, 5, 7, 100] {
        let ladder = generate_layers(&rgb_patches(), count).unwrap();
        assert_eq!(ladder.len(), count);
        assert_eq!(ladder.dimensions(), (3, 2));
        for i in 0..count {
            assert_eq!(ladder.layer(i).dimensions(), (3, 2));
        }
    }
}

#[test]
fn layers_come_from_the_source_at_ascending_qualities() {
    let source = rgb_patches();
    let ladder = generate_layers(&source, 5).unwrap();
    let qualities = quality_values(5).unwrap();
    for i in 0..5 {
        let alone = generate_layer(&source, qualities[i]).unwrap();
        assert_eq!(ladder.layer(i).as_raw(), alone.as_raw());
    }
    assert_ne!(ladder.layer(0).as_raw(), ladder.layer(4).as_raw());
}

#[test]
fn single_layer_ladder_is_the_source_at_quality_zero() {
    let source = rgb_patches();
    let ladder = generate_layers(&source, 1).unwrap();
    assert_eq!(ladder.len(), 1);
    let alone = generate_layer(&source, 0).unwrap();
    assert_eq!(ladder.layer(0).as_raw(), alone.as_raw());
}

#[test]
fn uniform_gray_gives_five_uniform_layers() {
    let ladder = generate_layers(&gray_square(), 5).unwrap();
    assert_eq!(ladder.len(), 5);
    for i in 0..5 {
        let layer = ladder.layer(i);
        assert_eq!(layer.dimensions(), (2, 2));
        let first = layer.pixel(0, 0);
        for y in 0..2 {
            for x in 0..2 {
                assert_eq!(layer.pixel(x, y), first);
            }
        }
    }
}

#[test]
fn invalid_counts_are_rejected_before_the_codec_runs() {
    // A picture without pixels fails every layer, so an error about the
    // count shows that no layer was begun.
    let empty = Image::from_raw(0, 3, ColorModel::Gray, vec![]).unwrap();
    assert!(matches!(generate_layers(&empty, 1), Err(Error::CodecFailure { .. })));
    assert!(matches!(generate_layers(&empty, 0), Err(Error::InvalidLayerCount { count: 0 })));
    assert!(matches!(generate_layers(&empty, 101), Err(Error::InvalidLayerCount { count: 101 })));
    assert!(matches!(
        generate_layers(&gray_square(), 0),
        Err(Error::InvalidLayerCount { count: 0 })
    ));
    assert!(matches!(
        generate_layers(&gray_square(), 101),
        Err(Error::InvalidLayerCount { count: 101 })
    ));
}

#[test]
fn a_picture_without_pixels_is_refused() {
    let empty = Image::from_raw(0, 3, ColorModel::Gray, vec![]).unwrap();
    assert!(matches!(
        generate_layer(&empty, 40),
        Err(Error::CodecFailure { quality: 40, cause: CodecCause::OutOfRange { width: 0, height: 3 } })
    ));
    assert!(matches!(
        generate_layers(&empty, 4),
        Err(Error::CodecFailure { quality: 0, cause: CodecCause::OutOfRange { width: 0, height: 3 } })
    ));
    let flat = Image::from_raw(3, 0, ColorModel::Rgb, vec![]).unwrap();
    assert!(matches!(
        generate_layer(&flat, 7),
        Err(Error::CodecFailure { quality: 7, cause: CodecCause::OutOfRange { width: 3, height: 0 } })
    ));
}

#[test]
fn a_picture_too_large_for_the_codec_is_refused() {
    let wide = Image::from_raw(65537, 1, ColorModel::Gray, vec![9; 65537]).unwrap();
    assert!(matches!(
        generate_layer(&wide, 50),
        Err(Error::CodecFailure {
            quality: 50,
            cause: CodecCause::OutOfRange { width: 65537, height: 1 }
        })
    ));
    assert!(matches!(
        generate_layers(&wide, 2),
        Err(Error::CodecFailure {
            quality: 0,
            cause: CodecCause::OutOfRange { width: 65537, height: 1 }
        })
    ));
    let tall = Image::from_raw(1, 65529, ColorModel::Gray, vec![9; 65529]).unwrap();
    assert!(matches!(
        generate_layer(&tall, 50),
        Err(Error::CodecFailure {
            quality: 50,
            cause: CodecCause::OutOfRange { width: 1, height: 65529 }
        })
    ));
}

#[test]
fn the_largest_pictures_go_through() {
    let tall = Image::from_raw(1, 65528, ColorModel::Gray, vec![9; 65528]).unwrap();
    let layer = generate_layer(&tall, 50).unwrap();
    assert_eq!(layer.dimensions(), (1, 65528));
    assert_eq!(layer.color(), ColorModel::Gray);
    let wide = Image::from_raw(65528, 1, ColorModel::Rgb, vec![9; 65528 * 3]).unwrap();
    let layer = generate_layer(&wide, 50).unwrap();
    assert_eq!(layer.dimensions(), (65528, 1));
    assert_eq!(layer.color(), ColorModel::Rgb);
}

#[test]
fn layers_keep_the_colour_model_of_the_stream() {
    let gray = generate_layers(&gray_square(), 3).unwrap();
    let colour = generate_layers(&rgb_patches(), 3).unwrap();
    for i in 0..3 {
        assert_eq!(gray.layer(i).color(), ColorModel::Gray);
        assert_eq!(colour.layer(i).color(), ColorModel::Rgb);
    }
}

#[test]
fn accept_layer_takes_the_expected_size() {
    let layer = accept_layer(3, 2, 10, Ok(flat(3, 2, 7))).unwrap();
    assert_eq!(layer.dimensions(), (3, 2));
    assert_eq!(layer.color(), ColorModel::Rgba);
    assert_eq!(layer.as_raw(), flat(3, 2, 7).as_raw());
}

#[test]
fn accept_layer_reports_another_size() {
    assert!(matches!(
        accept_layer(3, 2, 10, Ok(flat(2, 3, 7))),
        Err(Error::CodecFailure { quality: 10, cause: CodecCause::Resized { width: 2, height: 3 } })
    ));
    assert!(matches!(
        accept_layer(3, 2, 99, Ok(flat(3, 3, 7))),
        Err(Error::CodecFailure { quality: 99, cause: CodecCause::Resized { width: 3, height: 3 } })
    ));
}

#[test]
fn accept_layer_hands_on_the_decoder_s_error() {
    let refused = image::ImageError::FormatError("no frame".to_string());
    match accept_layer(3, 2, 33, Err(refused)) {
        Err(Error::CodecFailure {
            quality: 33,
            cause: CodecCause::Decode(image::ImageError::FormatError(text)),
        }) => assert_eq!(text, "no frame"),
        other => panic!("unexpected {:?}", other.map(|layer| layer.dimensions())),
    }
    assert!(matches!(
        accept_layer(3, 2, 0, Err(image::ImageError::DimensionError)),
        Err(Error::CodecFailure {
            quality: 0,
            cause: CodecCause::Decode(image::ImageError::DimensionError)
        })
    ));
}

#[test]
fn from_layers_keeps_the_order() {
    let ladder = QualityLadder::from_layers(vec![flat(2, 2, 1), flat(2, 2, 2), flat(2, 2, 3)]).unwrap();
    assert_eq!(ladder.len(), 3);
    assert_eq!(ladder.dimensions(), (2, 2));
    assert_eq!(ladder.layer(0).as_raw(), flat(2, 2, 1).as_raw());
    assert_eq!(ladder.layer(2).as_raw(), flat(2, 2, 3).as_raw());
    let layers = ladder.into_layers();
    assert_eq!(layers.len(), 3);
    assert_eq!(layers[1].as_raw(), flat(2, 2, 2).as_raw());
}

#[test]
fn from_layers_refuses_an_invalid_number() {
    assert!(matches!(
        QualityLadder::from_layers(Vec::new()),
        Err(Error::InvalidLayerCount { count: 0 })
    ));
    let mut many: Vec<Image> = Vec::new();
    for _ in 0..101 {
        many.push(flat(1, 1, 0));
    }
    assert!(matches!(
        QualityLadder::from_layers(many),
        Err(Error::InvalidLayerCount { count: 101 })
    ));
}

#[test]
fn from_layers_reports_the_first_other_size() {
    let layers = vec![flat(2, 2, 1), flat(2, 2, 2), flat(2, 3, 3), flat(4, 4, 4)];
    assert!(matches!(
        QualityLadder::from_layers(layers),
        Err(Error::DimensionMismatch { expected: (2, 2), found: (2, 3) })
    ));
}
