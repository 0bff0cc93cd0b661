use mirage::{
    BlurOperation, BrightenOperation, CropOperation, FractalOperation, FromArgumentBuilder,
    GenerateOperation, GrayScaleOperation, InvertOperation, OpenFileOperation, RotateOperation,
    RotationAngle, WriteFileOperation,
};
use std::str::FromStr;

fn texts(words: &[&str]) -> Vec<String> {
    words.iter().map(|w| w.to_string()).collect()
}

#[test]
fn rotation_angle_reads_the_three_angles() {
    assert_eq!(RotationAngle::from_str("90"), Ok(RotationAngle::R90));
    assert_eq!(RotationAngle::from_str("180"), Ok(RotationAngle::R180));
    assert_eq!(RotationAngle::from_str("270"), Ok(RotationAngle::R270));
    assert_eq!("270".parse::<RotationAngle>(), Ok(RotationAngle::R270));
}

#[test]
fn rotation_angle_refuses_any_other_text() {
    for text in ["", "0", "45", "360", "+90", "090", "90 ", "ninety", "-90"] {
        assert_eq!(RotationAngle::from_str(text), Err("not supported"), "text {:?}", text);
    }
}

#[test]
fn expected_arguments_counts() {
    assert_eq!(BlurOperation::expected_arguments_count(), 1);
    assert_eq!(BrightenOperation::expected_arguments_count(), 1);
    assert_eq!(CropOperation::expected_arguments_count(), 4);
    assert_eq!(RotateOperation::expected_arguments_count(), 1);
    assert_eq!(InvertOperation::expected_arguments_count(), 0);
    assert_eq!(GrayScaleOperation::expected_arguments_count(), 0);
    assert_eq!(GenerateOperation::expected_arguments_count(), 3);
    assert_eq!(FractalOperation::expected_arguments_count(), 0);
    assert_eq!(OpenFileOperation::expected_arguments_count(), 0);
    assert_eq!(WriteFileOperation::expected_arguments_count(), 1);
}

#[test]
fn blur_keeps_the_text_of_sigma() {
    let op = BlurOperation::init_from_arg(texts(&["2.5"])).unwrap();
    assert_eq!(op.sigma(), "2.5");
    assert_eq!(op.sigma().parse::<f32>(), Ok(2.5));
    let op = BlurOperation::init_from_arg(texts(&["-1e-2", "ignored"])).unwrap();
    assert_eq!(op.sigma(), "-1e-2");
}

#[test]
fn blur_without_sigma_is_refused() {
    assert_eq!(BlurOperation::init_from_arg(texts(&[])), Err("sigma is missing"));
}

#[test]
fn blur_with_a_sigma_that_is_no_number_is_refused() {
    assert_eq!(BlurOperation::init_from_arg(texts(&["abc"])), Err("sigma is not a valid f32"));
    assert_eq!(BlurOperation::init_from_arg(texts(&[""])), Err("sigma is not a valid f32"));
    assert_eq!(BlurOperation::init_from_arg(texts(&["1,5"])), Err("sigma is not a valid f32"));
}

#[test]
fn blur_with_a_sigma_that_names_no_number_is_refused() {
    for text in ["NaN", "nan", "-nan", "inf", "+inf", "-inf", "infinity", "Infinity", "-INFINITY"] {
        assert_eq!(
            BlurOperation::init_from_arg(texts(&[text])),
            Err("sigma is not a valid f32"),
            "text {:?}",
            text
        );
    }
}

#[test]
fn brighten_reads_its_number() {
    assert_eq!(BrightenOperation::init_from_arg(texts(&["10"])).unwrap().value(), 10);
    assert_eq!(BrightenOperation::init_from_arg(texts(&["-40"])).unwrap().value(), -40);
    assert_eq!(BrightenOperation::init_from_arg(texts(&["+7", "9"])).unwrap().value(), 7);
    assert_eq!(
        BrightenOperation::init_from_arg(texts(&["-2147483648"])).unwrap().value(),
        i32::MIN
    );
}

#[test]
fn brighten_without_number_is_refused() {
    assert_eq!(BrightenOperation::init_from_arg(texts(&[])), Err("brightness is missing"));
}

#[test]
fn brighten_with_a_text_that_is_no_integer_is_refused() {
    for text in ["1.5", "ten", "", "2147483648"] {
        assert_eq!(
            BrightenOperation::init_from_arg(texts(&[text])),
            Err("brightness is not a valid i32"),
            "text {:?}",
            text
        );
    }
}

#[test]
fn crop_reads_corner_then_size() {
    let op = CropOperation::init_from_arg(texts(&["1", "2", "3", "4"])).unwrap();
    assert_eq!((op.x(), op.y(), op.width(), op.height()), (1, 2, 3, 4));
    let op = CropOperation::init_from_arg(texts(&["0", "4294967295", "+5", "006", "7"])).unwrap();
    assert_eq!((op.x(), op.y(), op.width(), op.height()), (0, u32::MAX, 5, 6));
}

#[test]
fn crop_with_fewer_than_four_arguments_is_refused() {
    for words in [vec![], vec!["1"], vec!["1", "2", "3"], vec!["a", "b", "c"]] {
        assert_eq!(
            CropOperation::init_from_arg(texts(&words)),
            Err("x y width height parameters are missing"),
            "{:?}",
            words
        );
    }
}

#[test]
fn crop_names_the_first_argument_that_is_no_number() {
    assert_eq!(CropOperation::init_from_arg(texts(&["a", "b", "c", "d"])), Err("x is not a u32"));
    assert_eq!(CropOperation::init_from_arg(texts(&["-1", "2", "3", "4"])), Err("x is not a u32"));
    assert_eq!(CropOperation::init_from_arg(texts(&["1", "b", "c", "d"])), Err("y is not a u32"));
    assert_eq!(
        CropOperation::init_from_arg(texts(&["1", "2", "4294967296", "d"])),
        Err("width is not a u32")
    );
    assert_eq!(
        CropOperation::init_from_arg(texts(&["1", "2", "3", ""])),
        Err("height is not a u32")
    );
}

#[test]
fn rotate_reads_its_angle() {
    assert_eq!(
        RotateOperation::init_from_arg(texts(&["90"])).unwrap().rotation_angle(),
        RotationAngle::R90
    );
    assert_eq!(
        RotateOperation::init_from_arg(texts(&["180", "x"])).unwrap().rotation_angle(),
        RotationAngle::R180
    );
    assert_eq!(
        RotateOperation::init_from_arg(texts(&["270"])).unwrap().rotation_angle(),
        RotationAngle::R270
    );
}

#[test]
fn rotate_without_angle_is_refused() {
    assert_eq!(RotateOperation::init_from_arg(texts(&[])), Err("rotation is missing"));
}

#[test]
fn rotate_with_another_angle_is_refused() {
    assert_eq!(RotateOperation::init_from_arg(texts(&["45"])), Err("rotation is not 90|180|270"));
    assert_eq!(RotateOperation::init_from_arg(texts(&["360"])), Err("rotation is not 90|180|270"));
}

#[test]
fn operations_without_arguments_are_always_built() {
    assert!(InvertOperation::init_from_arg(texts(&[])).is_ok());
    assert!(InvertOperation::init_from_arg(texts(&["x", "y"])).is_ok());
    assert!(GrayScaleOperation::init_from_arg(texts(&[])).is_ok());
    assert!(GrayScaleOperation::init_from_arg(texts(&["x"])).is_ok());
    assert!(FractalOperation::init_from_arg(texts(&[])).is_ok());
    assert!(FractalOperation::init_from_arg(texts(&["x"])).is_ok());
}

#[test]
fn generate_reads_red_green_blue() {
    let op = GenerateOperation::init_from_arg(texts(&["10", "20", "30"])).unwrap();
    assert_eq!((op.red(), op.green(), op.blue()), (10, 20, 30));
    let op = GenerateOperation::init_from_arg(texts(&["0", "255", "+7", "9"])).unwrap();
    assert_eq!((op.red(), op.green(), op.blue()), (0, 255, 7));
}

#[test]
fn generate_with_fewer_than_three_arguments_is_refused() {
    assert_eq!(GenerateOperation::init_from_arg(texts(&[])), Err("r g b parameters are missing"));
    assert_eq!(
        GenerateOperation::init_from_arg(texts(&["1"])),
        Err("r g b parameters are missing")
    );
    assert_eq!(
        GenerateOperation::init_from_arg(texts(&["1", "2"])),
        Err("r g b parameters are missing")
    );
}

#[test]
fn generate_names_the_first_argument_that_is_no_byte() {
    assert_eq!(GenerateOperation::init_from_arg(texts(&["256", "x", "y"])), Err("r is not a u8"));
    assert_eq!(GenerateOperation::init_from_arg(texts(&["-1", "2", "3"])), Err("r is not a u8"));
    assert_eq!(GenerateOperation::init_from_arg(texts(&["1", "x", "y"])), Err("g is not a u8"));
    assert_eq!(GenerateOperation::init_from_arg(texts(&["1", "2", "300"])), Err("b is not a u8"));
}

#[test]
fn open_file_keeps_its_path() {
    let op = OpenFileOperation::init_from_arg(texts(&["in.png"])).unwrap();
    assert_eq!(op.infile(), "in.png");
    let op = OpenFileOperation::init_from_arg(texts(&["dir/a b.jpg", "more"])).unwrap();
    assert_eq!(op.infile(), "dir/a b.jpg");
}

#[test]
fn open_file_without_path_is_refused() {
    assert_eq!(OpenFileOperation::init_from_arg(texts(&[])), Err("input parameters are missing"));
}

#[test]
fn write_file_keeps_its_path() {
    let op = WriteFileOperation::init_from_arg(texts(&["out/deep/x.png"])).unwrap();
    assert_eq!(op.outfile(), "out/deep/x.png");
}

#[test]
fn write_file_without_path_is_refused() {
    assert_eq!(
        WriteFileOperation::init_from_arg(texts(&[])),
        Err("output parameters are missing")
    );
}
