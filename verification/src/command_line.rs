//! Reading the tokens of a command line into a pipeline.

use crate::builder::{built_as, FromArgumentBuilder};
use crate::endpoints::{
    FractalOperation, GenerateOperation, OpenFileOperation, WriteFileOperation,
};
use crate::pipeline::{
    transform_views, InputModel, InputSource, Pipeline, PipelineModel, Transform, TransformModel,
};
use crate::text::token_is;
use crate::transforms::{
    BlurOperation, BrightenOperation, CropOperation, GrayScaleOperation, InvertOperation,
    RotateOperation,
};
use vstd::prelude::*;

verus! {

/// Why a command line is no pipeline.
#[derive(Debug, Clone, Copy, PartialEq, Eq)]
pub enum PipelineError {
    /// There is no token at all.
    Empty,
    /// An operation refused its arguments, with its message.
    Argument(&'static str),
    /// A second operation that makes an image.
    SecondInput,
    /// A token that is no keyword, after the input and before the last
    /// token.
    StrayToken,
    /// No operation makes an image.
    MissingInput,
    /// No operation takes the result.
    MissingOutput,
}

impl PipelineError {
    /// Whether an operation refused its arguments.
    pub fn is_argument_error(&self) -> (b: bool)
        ensures
            b == (self is Argument),
    {
        match self {
            PipelineError::Argument(_) => true,
            _ => false,
        }
    }

    /// Whether the line as a whole is wrong: it lacks an end, has two
    /// inputs, or holds a token that has no place.
    pub fn is_structural_error(&self) -> (b: bool)
        ensures
            b == !(self is Argument),
    {
        !self.is_argument_error()
    }

    /// The message that goes with the error, where it has one.
    pub fn message(&self) -> (text: Option<&'static str>)
        ensures
            text == match self {
                PipelineError::Empty => None,
                PipelineError::Argument(e) => Some(*e),
                PipelineError::SecondInput => Some("can't have more than one input operation"),
                PipelineError::StrayToken => None,
                PipelineError::MissingInput => Some("No Input File"),
                PipelineError::MissingOutput => Some("No Output File"),
            },
    {
        match self {
            PipelineError::Empty => None,
            PipelineError::Argument(e) => Some(*e),
            PipelineError::SecondInput => Some("can't have more than one input operation"),
            PipelineError::StrayToken => None,
            PipelineError::MissingInput => Some("No Input File"),
            PipelineError::MissingOutput => Some("No Output File"),
        }
    }
}

/// What the tokens read so far have given.
pub struct Collected {
    pub input: Option<InputModel>,
    pub transforms: Seq<TransformModel>,
    pub output: Option<Seq<char>>,
}

/// Whether `word` is the keyword of an operation that changes an image.
pub open spec fn is_transform_keyword(word: Seq<char>) -> bool {
    word == "blur"@ || word == "brighten"@ || word == "crop"@ || word == "rotate"@ || word
        == "invert"@ || word == "grayscale"@
}

/// Whether `word` is the keyword of an operation that makes an image.
pub open spec fn is_input_keyword(word: Seq<char>) -> bool {
    word == "fractal"@ || word == "generate"@
}

/// The number of arguments that the keyword `word` takes.
pub open spec fn keyword_arity(word: Seq<char>) -> nat {
    if word == "blur"@ {
        BlurOperation::arity()
    } else if word == "brighten"@ {
        BrightenOperation::arity()
    } else if word == "crop"@ {
        CropOperation::arity()
    } else if word == "rotate"@ {
        RotateOperation::arity()
    } else if word == "invert"@ {
        InvertOperation::arity()
    } else if word == "grayscale"@ {
        GrayScaleOperation::arity()
    } else if word == "fractal"@ {
        FractalOperation::arity()
    } else if word == "generate"@ {
        GenerateOperation::arity()
    } else {
        0
    }
}

/// The arguments of the keyword at `pos`: the tokens that follow it, as many
/// as the keyword takes or as are left.
pub open spec fn arguments_at(tokens: Seq<Seq<char>>, pos: int) -> Seq<Seq<char>> {
    let first = pos + 1;
    let wanted = first + keyword_arity(tokens[pos]);
    if wanted <= tokens.len() {
        tokens.subrange(first, wanted)
    } else {
        tokens.subrange(first, tokens.len() as int)
    }
}

/// The operation that the transform keyword `word` builds from `args`.
pub open spec fn transform_from(word: Seq<char>, args: Seq<Seq<char>>) -> Result<
    TransformModel,
    &'static str,
> {
    if word == "blur"@ {
        match BlurOperation::built_from(args) {
            Ok(sigma) => Ok(TransformModel::Blur(sigma)),
            Err(e) => Err(e),
        }
    } else if word == "brighten"@ {
        match BrightenOperation::built_from(args) {
            Ok(value) => Ok(TransformModel::Brighten(value)),
            Err(e) => Err(e),
        }
    } else if word == "crop"@ {
        match CropOperation::built_from(args) {
            Ok(rectangle) => Ok(TransformModel::Crop(rectangle)),
            Err(e) => Err(e),
        }
    } else if word == "rotate"@ {
        match RotateOperation::built_from(args) {
            Ok(angle) => Ok(TransformModel::Rotate(angle)),
            Err(e) => Err(e),
        }
    } else if word == "invert"@ {
        match InvertOperation::built_from(args) {
            Ok(_) => Ok(TransformModel::Invert),
            Err(e) => Err(e),
        }
    } else {
        match GrayScaleOperation::built_from(args) {
            Ok(_) => Ok(TransformModel::GrayScale),
            Err(e) => Err(e),
        }
    }
}

/// The operation that the input keyword `word` builds from `args`.
pub open spec fn input_from(word: Seq<char>, args: Seq<Seq<char>>) -> Result<
    InputModel,
    &'static str,
> {
    if word == "fractal"@ {
        match FractalOperation::built_from(args) {
            Ok(_) => Ok(InputModel::Fractal),
            Err(e) => Err(e),
        }
    } else {
        match GenerateOperation::built_from(args) {
            Ok(color) => Ok(InputModel::Generate(color)),
            Err(e) => Err(e),
        }
    }
}

/// What reading `tokens` from `pos` on adds to `so_far`. A transform keyword
/// takes its arguments and adds its operation. An input keyword does the
/// same for the input, once. Any other token is the path of the input file
/// if there is no input yet, else the path of the output file if it is the
/// last token, else an error.
pub open spec fn scan(tokens: Seq<Seq<char>>, pos: int, so_far: Collected) -> Result<
    Collected,
    PipelineError,
>
    decreases tokens.len() - pos,
{
    if pos < 0 || pos >= tokens.len() {
        Ok(so_far)
    } else {
        let word = tokens[pos];
        let args = arguments_at(tokens, pos);
        let next = pos + 1 + args.len();
        if is_transform_keyword(word) {
            match transform_from(word, args) {
                Ok(t) => scan(
                    tokens,
                    next,
                    Collected { transforms: so_far.transforms.push(t), ..so_far },
                ),
                Err(e) => Err(PipelineError::Argument(e)),
            }
        } else if is_input_keyword(word) {
            if so_far.input is Some {
                Err(PipelineError::SecondInput)
            } else {
                match input_from(word, args) {
                    Ok(i) => scan(tokens, next, Collected { input: Some(i), ..so_far }),
                    Err(e) => Err(PipelineError::Argument(e)),
                }
            }
        } else if so_far.input is None {
            scan(tokens, pos + 1, Collected { input: Some(InputModel::File(word)), ..so_far })
        } else if pos + 1 == tokens.len() {
            scan(tokens, pos + 1, Collected { output: Some(word), ..so_far })
        } else {
            Err(PipelineError::StrayToken)
        }
    }
}

/// The pipeline that `tokens` ask for, or why they ask for none.
pub open spec fn parsed(tokens: Seq<Seq<char>>) -> Result<PipelineModel, PipelineError> {
    if tokens.len() == 0 {
        Err(PipelineError::Empty)
    } else {
        match scan(
            tokens,
            0,
            Collected { input: None, transforms: Seq::empty(), output: None },
        ) {
            Err(e) => Err(e),
            Ok(all) => match (all.input, all.output) {
                (None, _) => Err(PipelineError::MissingInput),
                (Some(_), None) => Err(PipelineError::MissingOutput),
                (Some(input), Some(output)) => Ok(
                    PipelineModel { input, transforms: all.transforms, output },
                ),
            },
        }
    }
}

/// Reading the tokens from `pos` on leaves the output as it was or makes the
/// last token the output.
proof fn lemma_scan_output(tokens: Seq<Seq<char>>, pos: int, so_far: Collected)
    requires
        0 <= pos <= tokens.len(),
    ensures
        scan(tokens, pos, so_far) matches Ok(all) ==> all.output == so_far.output || (tokens.len()
            > 0 && all.output == Some(tokens.last())),
    decreases tokens.len() - pos,
{
    if pos < tokens.len() {
        let word = tokens[pos];
        let args = arguments_at(tokens, pos);
        let next = pos + 1 + args.len();
        if is_transform_keyword(word) {
            if let Ok(t) = transform_from(word, args) {
                lemma_scan_output(
                    tokens,
                    next,
                    Collected { transforms: so_far.transforms.push(t), ..so_far },
                );
            }
        } else if is_input_keyword(word) {
            if so_far.input is None {
                if let Ok(i) = input_from(word, args) {
                    lemma_scan_output(tokens, next, Collected { input: Some(i), ..so_far });
                }
            }
        } else if so_far.input is None {
            lemma_scan_output(
                tokens,
                pos + 1,
                Collected { input: Some(InputModel::File(word)), ..so_far },
            );
        } else if pos + 1 == tokens.len() {
            lemma_scan_output(tokens, pos + 1, Collected { output: Some(word), ..so_far });
        }
    }
}

/// The output of a pipeline is the last token of its line.
pub proof fn lemma_output_is_last_token(tokens: Seq<Seq<char>>)
    ensures
        parsed(tokens) matches Ok(pipeline) ==> pipeline.output == tokens.last(),
{
    lemma_scan_output(
        tokens,
        0,
        Collected { input: None, transforms: Seq::empty(), output: None },
    );
}

/// The view of the input that may have been read.
spec fn input_view(input: Option<InputSource>) -> Option<InputModel> {
    match input {
        Some(source) => Some(source@),
        None => None,
    }
}

/// The view of the output that may have been read.
spec fn output_view(output: Option<WriteFileOperation>) -> Option<Seq<char>> {
    match output {
        Some(op) => Some(op@),
        None => None,
    }
}

/// Copies of the arguments of the keyword at `pos`, which takes `arity` of
/// them.
fn arguments_of(args: &Vec<String>, pos: usize, arity: usize) -> (out: Vec<String>)
    requires
        pos < args.len(),
        arity == keyword_arity(args.deep_view()[pos as int]),
    ensures
        out.deep_view() == arguments_at(args.deep_view(), pos as int),
        pos + 1 + out.len() <= args.len(),
{
    let left = args.len() - pos - 1;
    let count = if arity <= left {
        arity
    } else {
        left
    };
    let mut out: Vec<String> = Vec::new();
    let mut i: usize = 0;
    while i < count
        invariant
            i <= count,
            pos + 1 + count <= args.len(),
            out.len() == i,
            forall|k: int| 0 <= k < i ==> out@[k]@ == args@[pos + 1 + k]@,
        decreases count - i,
    {
        out.push(args[pos + 1 + i].clone());
        i += 1;
    }
    assert(out.deep_view() =~= arguments_at(args.deep_view(), pos as int));
    out
}

impl Pipeline {
    /// Reads the tokens of a command line, from left to right.
    pub fn from_args(args: Vec<String>) -> (r: Result<Pipeline, PipelineError>)
        ensures
            built_as(r, parsed(args.deep_view())),
    {
        if args.len() == 0 {
            return Err(PipelineError::Empty);
        }
        let ghost tokens = args.deep_view();
        let mut input: Option<InputSource> = None;
        let mut output: Option<WriteFileOperation> = None;
        let mut transforms: Vec<Transform> = Vec::new();
        let mut pos: usize = 0;
        assert(transform_views(transforms@) =~= Seq::empty());
        while pos < args.len()
            invariant
                pos <= args.len(),
                tokens == args.deep_view(),
                scan(tokens, 0, Collected { input: None, transforms: Seq::empty(), output: None })
                    == scan(
                    tokens,
                    pos as int,
                    Collected {
                        input: input_view(input),
                        transforms: transform_views(transforms@),
                        output: output_view(output),
                    },
                ),
            decreases args.len() - pos,
        {
            let ghost before = transform_views(transforms@);
            let word = args[pos].as_str();
            assert(word@ == tokens[pos as int]);
            let mut used: usize = 0;
            if token_is(word, "blur") {
                let ops_args = arguments_of(&args, pos, BlurOperation::expected_arguments_count());
                used = ops_args.len();
                match BlurOperation::init_from_arg(ops_args) {
                    Ok(op) => transforms.push(Transform::Blur(op)),
                    Err(e) => {
                        return Err(PipelineError::Argument(e));
                    },
                }
            } else if token_is(word, "brighten") {
                let ops_args = arguments_of(
                    &args,
                    pos,
                    BrightenOperation::expected_arguments_count(),
                );
                used = ops_args.len();
                match BrightenOperation::init_from_arg(ops_args) {
                    Ok(op) => transforms.push(Transform::Brighten(op)),
                    Err(e) => {
                        return Err(PipelineError::Argument(e));
                    },
                }
            } else if token_is(word, "crop") {
                let ops_args = arguments_of(&args, pos, CropOperation::expected_arguments_count());
                used = ops_args.len();
                match CropOperation::init_from_arg(ops_args) {
                    Ok(op) => transforms.push(Transform::Crop(op)),
                    Err(e) => {
                        return Err(PipelineError::Argument(e));
                    },
                }
            } else if token_is(word, "rotate") {
                let ops_args = arguments_of(
                    &args,
                    pos,
                    RotateOperation::expected_arguments_count(),
                );
                used = ops_args.len();
                match RotateOperation::init_from_arg(ops_args) {
                    Ok(op) => transforms.push(Transform::Rotate(op)),
                    Err(e) => {
                        return Err(PipelineError::Argument(e));
                    },
                }
            } else if token_is(word, "invert") {
                let ops_args = arguments_of(
                    &args,
                    pos,
                    InvertOperation::expected_arguments_count(),
                );
                used = ops_args.len();
                match InvertOperation::init_from_arg(ops_args) {
                    Ok(op) => transforms.push(Transform::Invert(op)),
                    Err(e) => {
                        return Err(PipelineError::Argument(e));
                    },
                }
            } else if token_is(word, "grayscale") {
                let ops_args = arguments_of(
                    &args,
                    pos,
                    GrayScaleOperation::expected_arguments_count(),
                );
                used = ops_args.len();
                match GrayScaleOperation::init_from_arg(ops_args) {
                    Ok(op) => transforms.push(Transform::GrayScale(op)),
                    Err(e) => {
                        return Err(PipelineError::Argument(e));
                    },
                }
            } else if token_is(word, "fractal") {
                if input.is_some() {
                    return Err(PipelineError::SecondInput);
                }
                let ops_args = arguments_of(
                    &args,
                    pos,
                    FractalOperation::expected_arguments_count(),
                );
                used = ops_args.len();
                match FractalOperation::init_from_arg(ops_args) {
                    Ok(op) => input = Some(InputSource::Fractal(op)),
                    Err(e) => {
                        return Err(PipelineError::Argument(e));
                    },
                }
            } else if token_is(word, "generate") {
                if input.is_some() {
                    return Err(PipelineError::SecondInput);
                }
                let ops_args = arguments_of(
                    &args,
                    pos,
                    GenerateOperation::expected_arguments_count(),
                );
                used = ops_args.len();
                match GenerateOperation::init_from_arg(ops_args) {
                    Ok(op) => input = Some(InputSource::Generate(op)),
                    Err(e) => {
                        return Err(PipelineError::Argument(e));
                    },
                }
            } else if input.is_none() {
                let mut path: Vec<String> = Vec::new();
                path.push(args[pos].clone());
                match OpenFileOperation::init_from_arg(path) {
                    Ok(op) => input = Some(InputSource::File(op)),
                    Err(e) => {
                        return Err(PipelineError::Argument(e));
                    },
                }
            } else if pos + 1 == args.len() {
                let mut path: Vec<String> = Vec::new();
                path.push(args[pos].clone());
                match WriteFileOperation::init_from_arg(path) {
                    Ok(op) => output = Some(op),
                    Err(e) => {
                        return Err(PipelineError::Argument(e));
                    },
                }
            } else {
                return Err(PipelineError::StrayToken);
            }
            proof {
                if transforms@.len() > before.len() {
                    assert(transform_views(transforms@) =~= before.push(transforms@.last()@));
                }
            }
            pos = pos + 1 + used;
        }
        match (input, output) {
            (None, _) => Err(PipelineError::MissingInput),
            (Some(_), None) => Err(PipelineError::MissingOutput),
            (Some(input), Some(output)) => Ok(Pipeline { input, transforms, output }),
        }
    }
}

} // verus!
