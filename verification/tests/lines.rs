use mirage::{InputSource, Pipeline, PipelineError, RotationAngle, Transform};

/// What a line asks for, written out: the input, the transforms, the output;
/// or the message of the error, if it has one.
type Reading = Result<(String, Vec<String>, String), Option<String>>;

fn taken(args: &mut Vec<String>, count: usize) -> Vec<String> {
    let count = count.min(args.len());
    args.drain(..count).collect()
}

/// Reads a line one token after the other, with the parsers of the standard
/// library.
fn read_by_hand(mut args: Vec<String>) -> Reading {
    if args.is_empty() {
        return Err(None);
    }
    let mut input: Option<String> = None;
    let mut output: Option<String> = None;
    let mut transforms: Vec<String> = Vec::new();
    while !args.is_empty() {
        let word = args.remove(0);
        match word.as_str() {
            "blur" => {
                let rest = taken(&mut args, 1);
                if rest.is_empty() {
                    return Err(Some("sigma is missing".to_string()));
                }
                let named = rest[0].chars().any(|c| "infatyINFATY".contains(c));
                if named || rest[0].parse::<f32>().is_err() {
                    return Err(Some("sigma is not a valid f32".to_string()));
                }
                transforms.push(format!("blur {}", rest[0]));
            }
            "brighten" => {
                let rest = taken(&mut args, 1);
                if rest.is_empty() {
                    return Err(Some("brightness is missing".to_string()));
                }
                match rest[0].parse::<i32>() {
                    Ok(value) => transforms.push(format!("brighten {}", value)),
                    Err(_) => return Err(Some("brightness is not a valid i32".to_string())),
                }
            }
            "crop" => {
                let rest = taken(&mut args, 4);
                if rest.len() < 4 {
                    return Err(Some("x y width height parameters are missing".to_string()));
                }
                let mut numbers = Vec::new();
                for (text, name) in rest.iter().zip(["x", "y", "width", "height"]) {
                    match text.parse::<u32>() {
                        Ok(number) => numbers.push(number),
                        Err(_) => return Err(Some(format!("{} is not a u32", name))),
                    }
                }
                transforms.push(format!("crop {:?}", numbers));
            }
            "rotate" => {
                let rest = taken(&mut args, 1);
                if rest.is_empty() {
                    return Err(Some("rotation is missing".to_string()));
                }
                match rest[0].as_str() {
                    "90" | "180" | "270" => transforms.push(format!("rotate {}", rest[0])),
                    _ => return Err(Some("rotation is not 90|180|270".to_string())),
                }
            }
            "invert" => transforms.push("invert".to_string()),
            "grayscale" => transforms.push("grayscale".to_string()),
            "fractal" => {
                if input.is_some() {
                    return Err(Some("can't have more than one input operation".to_string()));
                }
                input = Some("fractal".to_string());
            }
            "generate" => {
                if input.is_some() {
                    return Err(Some("can't have more than one input operation".to_string()));
                }
                let rest = taken(&mut args, 3);
                if rest.len() < 3 {
                    return Err(Some("r g b parameters are missing".to_string()));
                }
                let mut bytes = Vec::new();
                for (text, name) in rest.iter().zip(["r", "g", "b"]) {
                    match text.parse::<u8>() {
                        Ok(byte) => bytes.push(byte),
                        Err(_) => return Err(Some(format!("{} is not a u8", name))),
                    }
                }
                input = Some(format!("generate {:?}", bytes));
            }
            other => {
                if input.is_none() {
                    input = Some(format!("file {}", other));
                } else if args.is_empty() {
                    output = Some(other.to_string());
                } else {
                    return Err(None);
                }
            }
        }
    }
    match (input, output) {
        (None, _) => Err(Some("No Input File".to_string())),
        (Some(_), None) => Err(Some("No Output File".to_string())),
        (Some(input), Some(output)) => Ok((input, transforms, output)),
    }
}

fn written_out(result: Result<Pipeline, PipelineError>) -> Reading {
    match result {
        Err(error) => Err(error.message().map(|m| m.to_string())),
        Ok(pipeline) => {
            let input = match &pipeline.input {
                InputSource::File(op) => format!("file {}", op.infile()),
                InputSource::Fractal(_) => "fractal".to_string(),
                InputSource::Generate(op) => {
                    format!("generate {:?}", vec![op.red(), op.green(), op.blue()])
                }
            };
            let transforms = pipeline
                .transforms
                .iter()
                .map(|t| match t {
                    Transform::Blur(op) => format!("blur {}", op.sigma()),
                    Transform::Brighten(op) => format!("brighten {}", op.value()),
                    Transform::Crop(op) => {
                        format!("crop {:?}", vec![op.x(), op.y(), op.width(), op.height()])
                    }
                    Transform::Rotate(op) => match op.rotation_angle() {
                        RotationAngle::R90 => "rotate 90".to_string(),
                        RotationAngle::R180 => "rotate 180".to_string(),
                        RotationAngle::R270 => "rotate 270".to_string(),
                    },
                    Transform::Invert(_) => "invert".to_string(),
                    Transform::GrayScale(_) => "grayscale".to_string(),
                })
                .collect();
            Ok((input, transforms, pipeline.output.outfile().to_string()))
        }
    }
}

const WORDS: [&str; 18] = [
    "blur",
    "brighten",
    "crop",
    "rotate",
    "invert",
    "grayscale",
    "fractal",
    "generate",
    "in.png",
    "out.png",
    "7",
    "2.5",
    "90",
    "-40",
    "abc",
    "300",
    "NaN",
    "inf",
];

fn lines_of(length: usize) -> Vec<Vec<String>> {
    let mut lines: Vec<Vec<String>> = vec![Vec::new()];
    for _ in 0..length {
        let mut longer = Vec::new();
        for line in &lines {
            for word in WORDS {
                let mut next = line.clone();
                next.push(word.to_string());
                longer.push(next);
            }
        }
        lines = longer;
    }
    lines
}

#[test]
fn every_line_of_up_to_four_words_is_read_as_by_hand() {
    let mut good = 0;
    for length in 0..=4 {
        for line in lines_of(length) {
            let expected = read_by_hand(line.clone());
            if expected.is_ok() {
                good += 1;
            }
            assert_eq!(written_out(Pipeline::from_args(line.clone())), expected, "{:?}", line);
        }
    }
    assert!(good > 1000);
}

#[test]
fn longer_lines_are_read_as_by_hand() {
    let mut state: u64 = 12345;
    let mut good = 0;
    for _ in 0..60000 {
        let mut line = Vec::new();
        state = state.wrapping_mul(6364136223846793005).wrapping_add(1442695040888963407);
        let length = 5 + (state >> 60) as usize;
        for _ in 0..length {
            state = state.wrapping_mul(6364136223846793005).wrapping_add(1442695040888963407);
            line.push(WORDS[(state >> 33) as usize % WORDS.len()].to_string());
        }
        let expected = read_by_hand(line.clone());
        if expected.is_ok() {
            good += 1;
        }
        assert_eq!(written_out(Pipeline::from_args(line.clone())), expected, "{:?}", line);
    }
    assert!(good > 0);
}

#[test]
fn the_output_of_every_pipeline_is_its_last_word() {
    for length in 1..=4 {
        for line in lines_of(length) {
            if let Ok(pipeline) = Pipeline::from_args(line.clone()) {
                assert_eq!(pipeline.output.outfile(), line[line.len() - 1]);
                assert!(line.len() >= 2);
            }
        }
    }
}
