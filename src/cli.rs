//! Subcommands, their arguments, and the errors met while reading them.
use vstd::prelude::*;

use crate::picture::Color;
use crate::number::{parsed_in_range, Number};

verus! {

/// The quarter turns an image can be rotated by.
#[derive(Clone, Copy, Debug, PartialEq, Eq, Structural)]
pub enum Rotation {
    Quarter,
    Half,
    ThreeQuarters,
}

/// An operation with its arguments read and checked.
#[derive(Clone, Debug, PartialEq)]
pub enum Command {
    /// The amount is left as text: it is a floating-point number, read by the caller.
    Blur { amount: String, input: String, output: String },
    Brighten { amount: i32, input: String, output: String },
    Crop { x: u32, y: u32, width: u32, height: u32, input: String, output: String },
    Fractal { output: String },
    Generate { width: u32, height: u32, color: Color, output: String },
    Grayscale { input: String, output: String },
    Invert { input: String, output: String },
    Rotate { rotation: Rotation, input: String, output: String },
}

/// What a [`Command`] holds, with its texts as character sequences.
pub ghost enum CommandView {
    Blur { amount: Seq<char>, input: Seq<char>, output: Seq<char> },
    Brighten { amount: i32, input: Seq<char>, output: Seq<char> },
    Crop {
        x: u32,
        y: u32,
        width: u32,
        height: u32,
        input: Seq<char>,
        output: Seq<char>,
    },
    Fractal { output: Seq<char> },
    Generate { width: u32, height: u32, color: Color, output: Seq<char> },
    Grayscale { input: Seq<char>, output: Seq<char> },
    Invert { input: Seq<char>, output: Seq<char> },
    Rotate { rotation: Rotation, input: Seq<char>, output: Seq<char> },
}

impl View for Command {
    type V = CommandView;

    open spec fn view(&self) -> CommandView {
        match self {
            Command::Blur { amount, input, output } => CommandView::Blur {
                amount: amount@,
                input: input@,
                output: output@,
            },
            Command::Brighten { amount, input, output } => CommandView::Brighten {
                amount: *amount,
                input: input@,
                output: output@,
            },
            Command::Crop { x, y, width, height, input, output } => CommandView::Crop {
                x: *x,
                y: *y,
                width: *width,
                height: *height,
                input: input@,
                output: output@,
            },
            Command::Fractal { output } => CommandView::Fractal { output: output@ },
            Command::Generate { width, height, color, output } => CommandView::Generate {
                width: *width,
                height: *height,
                color: *color,
                output: output@,
            },
            Command::Grayscale { input, output } => CommandView::Grayscale {
                input: input@,
                output: output@,
            },
            Command::Invert { input, output } => CommandView::Invert {
                input: input@,
                output: output@,
            },
            Command::Rotate { rotation, input, output } => CommandView::Rotate {
                rotation: *rotation,
                input: input@,
                output: output@,
            },
        }
    }
}

/// Why a command line was not accepted.
#[derive(Clone, Debug, PartialEq, Eq)]
pub enum CliError {
    /// A subcommand got a number of arguments other than the one it takes.
    InvalidArguments { subcommand: String, expected: usize, received: usize },
    /// An argument that should be a number of the property's type is not one.
    InvalidNumber { subcommand: String, property: String },
    /// No subcommand, `help`, or a token that names no subcommand.
    Usage,
}

/// What a [`CliError`] holds, with its texts as character sequences.
pub ghost enum ErrorView {
    InvalidArguments { subcommand: Seq<char>, expected: nat, received: nat },
    InvalidNumber { subcommand: Seq<char>, property: Seq<char> },
    Usage,
}

impl View for CliError {
    type V = ErrorView;

    open spec fn view(&self) -> ErrorView {
        match self {
            CliError::InvalidArguments { subcommand, expected, received } => {
                ErrorView::InvalidArguments {
                    subcommand: subcommand@,
                    expected: *expected as nat,
                    received: *received as nat,
                }
            },
            CliError::InvalidNumber { subcommand, property } => ErrorView::InvalidNumber {
                subcommand: subcommand@,
                property: property@,
            },
            CliError::Usage => ErrorView::Usage,
        }
    }
}

/// The texts of a list of arguments.
pub open spec fn texts(args: Seq<String>) -> Seq<Seq<char>> {
    Seq::new(args.len(), |i: int| args[i]@)
}

/// The outcome of an arity check: a list is accepted when it is non-empty and
/// holds exactly `expected` arguments.
pub open spec fn arity_check(subcommand: Seq<char>, expected: nat, received: nat) -> Result<
    (),
    ErrorView,
> {
    if received == 0 || received != expected {
        Err(ErrorView::InvalidArguments { subcommand, expected, received })
    } else {
        Ok(())
    }
}

/// Checks that `subcommand` was given exactly `expected_length` arguments, and
/// at least one.
pub fn check_for_invalid_args(args: &Vec<String>, subcommand: &str, expected_length: usize) -> (r:
    Result<(), CliError>)
    ensures
        match (r, arity_check(subcommand@, expected_length as nat, args@.len())) {
            (Ok(()), Ok(())) => true,
            (Err(e), Err(v)) => e@ == v,
            _ => false,
        },
{
    if args.len() == 0 || args.len() != expected_length {
        Err(CliError::InvalidArguments {
            subcommand: subcommand.to_owned(),
            expected: expected_length,
            received: args.len(),
        })
    } else {
        Ok(())
    }
}

/// The value that the text of property `property` of `subcommand` gives in a
/// type whose literals are signed as `signed` says and whose values run from
/// `lo` to `hi`, or the error that names both.
pub open spec fn number_of(
    subcommand: Seq<char>,
    property: Seq<char>,
    text: Seq<char>,
    signed: bool,
    lo: int,
    hi: int,
) -> Result<int, ErrorView> {
    match parsed_in_range(text, signed, lo, hi) {
        Some(v) => Ok(v),
        None => Err(ErrorView::InvalidNumber { subcommand, property }),
    }
}

/// Reads property `property` of `subcommand` from `num_str` as a number of type `T`.
pub fn parse_number<T: Number>(subcommand: &str, property: &str, num_str: String) -> (r: Result<
    T,
    CliError,
>)
    ensures
        match (r, number_of(subcommand@, property@, num_str@, T::signed(), T::lowest(), T::highest())) {
            (Ok(n), Ok(v)) => n.value() == v,
            (Err(e), Err(v)) => e@ == v,
            _ => false,
        },
{
    match T::from_literal(num_str.as_str()) {
        Some(n) => Ok(n),
        None => Err(
            CliError::InvalidNumber { subcommand: subcommand.to_owned(), property: property.to_owned() },
        ),
    }
}

/// The outcome of reading a command, as views.
pub open spec fn outcome(r: Result<Command, CliError>) -> Result<CommandView, ErrorView> {
    match r {
        Ok(c) => Ok(c@),
        Err(e) => Err(e@),
    }
}

/// Whether two texts are the same, character by character.
fn same_text(a: &str, b: &str) -> (r: bool)
    ensures
        r == (a@ == b@),
{
    let n = a.unicode_len();
    if n != b.unicode_len() {
        return false;
    }
    let mut i: usize = 0;
    while i < n
        invariant
            n == a@.len(),
            n == b@.len(),
            i <= n,
            forall|j: int| 0 <= j < i ==> a@[j] == b@[j],
        decreases n - i,
    {
        if a.get_char(i) != b.get_char(i) {
            return false;
        }
        i = i + 1;
    }
    proof {
        assert(a@ =~= b@);
    }
    true
}

/// The argument list of `blur`: amount, input path, output path.
pub open spec fn blur_spec(a: Seq<Seq<char>>) -> Result<CommandView, ErrorView> {
    match arity_check("blur"@, 3, a.len()) {
        Err(e) => Err(e),
        Ok(()) => Ok(CommandView::Blur { amount: a[0], input: a[1], output: a[2] }),
    }
}

/// Reads the arguments of `blur`. The amount is kept as text.
pub fn blur(args: &Vec<String>) -> (r: Result<Command, CliError>)
    ensures
        outcome(r) == blur_spec(texts(args@)),
{
    match check_for_invalid_args(args, "blur", 3) {
        Err(e) => Err(e),
        Ok(()) => Ok(
            Command::Blur { amount: args[0].clone(), input: args[1].clone(), output: args[2].clone() },
        ),
    }
}

/// The argument list of `brighten`: a signed amount, input path, output path.
pub open spec fn brighten_spec(a: Seq<Seq<char>>) -> Result<CommandView, ErrorView> {
    match arity_check("brighten"@, 3, a.len()) {
        Err(e) => Err(e),
        Ok(()) => match number_of(
            "brighten"@,
            "amount"@,
            a[0],
            true,
            i32::MIN as int,
            i32::MAX as int,
        ) {
            Err(e) => Err(e),
            Ok(amount) => Ok(
                CommandView::Brighten { amount: amount as i32, input: a[1], output: a[2] },
            ),
        },
    }
}

/// Reads the arguments of `brighten`.
pub fn brighten(args: &Vec<String>) -> (r: Result<Command, CliError>)
    ensures
        outcome(r) == brighten_spec(texts(args@)),
{
    match check_for_invalid_args(args, "brighten", 3) {
        Err(e) => Err(e),
        Ok(()) => match parse_number::<i32>("brighten", "amount", args[0].clone()) {
            Err(e) => Err(e),
            Ok(amount) => Ok(
                Command::Brighten { amount, input: args[1].clone(), output: args[2].clone() },
            ),
        },
    }
}

/// A property of `subcommand` that holds an unsigned 32-bit number.
pub open spec fn u32_of(subcommand: Seq<char>, property: Seq<char>, text: Seq<char>) -> Result<
    int,
    ErrorView,
> {
    number_of(subcommand, property, text, false, 0, u32::MAX as int)
}

/// A property of `subcommand` that holds an 8-bit colour channel.
pub open spec fn u8_of(subcommand: Seq<char>, property: Seq<char>, text: Seq<char>) -> Result<
    int,
    ErrorView,
> {
    number_of(subcommand, property, text, false, 0, u8::MAX as int)
}

/// The argument list of `crop`: x, y, width, height, input path, output path.
pub open spec fn crop_spec(a: Seq<Seq<char>>) -> Result<CommandView, ErrorView> {
    match arity_check("crop"@, 6, a.len()) {
        Err(e) => Err(e),
        Ok(()) => match u32_of("crop"@, "x"@, a[0]) {
            Err(e) => Err(e),
            Ok(x) => match u32_of("crop"@, "y"@, a[1]) {
                Err(e) => Err(e),
                Ok(y) => match u32_of("crop"@, "width"@, a[2]) {
                    Err(e) => Err(e),
                    Ok(width) => match u32_of("crop"@, "height"@, a[3]) {
                        Err(e) => Err(e),
                        Ok(height) => Ok(
                            CommandView::Crop {
                                x: x as u32,
                                y: y as u32,
                                width: width as u32,
                                height: height as u32,
                                input: a[4],
                                output: a[5],
                            },
                        ),
                    },
                },
            },
        },
    }
}

/// Reads the arguments of `crop`, the numbers in the order x, y, width, height.
pub fn crop(args: &Vec<String>) -> (r: Result<Command, CliError>)
    ensures
        outcome(r) == crop_spec(texts(args@)),
{
    if let Err(e) = check_for_invalid_args(args, "crop", 6) {
        return Err(e);
    }
    let x = match parse_number::<u32>("crop", "x", args[0].clone()) {
        Ok(v) => v,
        Err(e) => return Err(e),
    };
    let y = match parse_number::<u32>("crop", "y", args[1].clone()) {
        Ok(v) => v,
        Err(e) => return Err(e),
    };
    let width = match parse_number::<u32>("crop", "width", args[2].clone()) {
        Ok(v) => v,
        Err(e) => return Err(e),
    };
    let height = match parse_number::<u32>("crop", "height", args[3].clone()) {
        Ok(v) => v,
        Err(e) => return Err(e),
    };
    Ok(Command::Crop { x, y, width, height, input: args[4].clone(), output: args[5].clone() })
}

/// The argument list of `fractal`: output path.
pub open spec fn fractal_spec(a: Seq<Seq<char>>) -> Result<CommandView, ErrorView> {
    match arity_check("fractal"@, 1, a.len()) {
        Err(e) => Err(e),
        Ok(()) => Ok(CommandView::Fractal { output: a[0] }),
    }
}

/// Reads the arguments of `fractal`.
pub fn fractal(args: &Vec<String>) -> (r: Result<Command, CliError>)
    ensures
        outcome(r) == fractal_spec(texts(args@)),
{
    match check_for_invalid_args(args, "fractal", 1) {
        Err(e) => Err(e),
        Ok(()) => Ok(Command::Fractal { output: args[0].clone() }),
    }
}

/// The argument list of `generate`: width, height, red, green, blue, output path.
pub open spec fn generate_spec(a: Seq<Seq<char>>) -> Result<CommandView, ErrorView> {
    match arity_check("generate"@, 6, a.len()) {
        Err(e) => Err(e),
        Ok(()) => match u32_of("generate"@, "width"@, a[0]) {
            Err(e) => Err(e),
            Ok(width) => match u32_of("generate"@, "height"@, a[1]) {
                Err(e) => Err(e),
                Ok(height) => match u8_of("generate"@, "red"@, a[2]) {
                    Err(e) => Err(e),
                    Ok(red) => match u8_of("generate"@, "green"@, a[3]) {
                        Err(e) => Err(e),
                        Ok(green) => match u8_of("generate"@, "blue"@, a[4]) {
                            Err(e) => Err(e),
                            Ok(blue) => Ok(
                                CommandView::Generate {
                                    width: width as u32,
                                    height: height as u32,
                                    color: Color { red: red as u8, green: green as u8, blue: blue as u8 },
                                    output: a[5],
                                },
                            ),
                        },
                    },
                },
            },
        },
    }
}

/// Reads the arguments of `generate`.
pub fn generate(args: &Vec<String>) -> (r: Result<Command, CliError>)
    ensures
        outcome(r) == generate_spec(texts(args@)),
{
    if let Err(e) = check_for_invalid_args(args, "generate", 6) {
        return Err(e);
    }
    let width = match parse_number::<u32>("generate", "width", args[0].clone()) {
        Ok(v) => v,
        Err(e) => return Err(e),
    };
    let height = match parse_number::<u32>("generate", "height", args[1].clone()) {
        Ok(v) => v,
        Err(e) => return Err(e),
    };
    let red = match parse_number::<u8>("generate", "red", args[2].clone()) {
        Ok(v) => v,
        Err(e) => return Err(e),
    };
    let green = match parse_number::<u8>("generate", "green", args[3].clone()) {
        Ok(v) => v,
        Err(e) => return Err(e),
    };
    let blue = match parse_number::<u8>("generate", "blue", args[4].clone()) {
        Ok(v) => v,
        Err(e) => return Err(e),
    };
    Ok(Command::Generate { width, height, color: Color { red, green, blue }, output: args[5].clone() })
}

/// The argument list of `grayscale`: input path, output path.
pub open spec fn grayscale_spec(a: Seq<Seq<char>>) -> Result<CommandView, ErrorView> {
    match arity_check("grayscale"@, 2, a.len()) {
        Err(e) => Err(e),
        Ok(()) => Ok(CommandView::Grayscale { input: a[0], output: a[1] }),
    }
}

/// Reads the arguments of `grayscale`.
pub fn grayscale(args: &Vec<String>) -> (r: Result<Command, CliError>)
    ensures
        outcome(r) == grayscale_spec(texts(args@)),
{
    match check_for_invalid_args(args, "grayscale", 2) {
        Err(e) => Err(e),
        Ok(()) => Ok(Command::Grayscale { input: args[0].clone(), output: args[1].clone() }),
    }
}

/// The argument list of `invert`: input path, output path.
pub open spec fn invert_spec(a: Seq<Seq<char>>) -> Result<CommandView, ErrorView> {
    match arity_check("invert"@, 2, a.len()) {
        Err(e) => Err(e),
        Ok(()) => Ok(CommandView::Invert { input: a[0], output: a[1] }),
    }
}

/// Reads the arguments of `invert`.
pub fn invert(args: &Vec<String>) -> (r: Result<Command, CliError>)
    ensures
        outcome(r) == invert_spec(texts(args@)),
{
    match check_for_invalid_args(args, "invert", 2) {
        Err(e) => Err(e),
        Ok(()) => Ok(Command::Invert { input: args[0].clone(), output: args[1].clone() }),
    }
}

/// The rotation an amount names: `180` and `270` as written, anything else a quarter turn.
pub open spec fn rotation_of(amount: Seq<char>) -> Rotation {
    if amount == "180"@ {
        Rotation::Half
    } else if amount == "270"@ {
        Rotation::ThreeQuarters
    } else {
        Rotation::Quarter
    }
}

/// The argument list of `rotate`: amount, input path, output path.
pub open spec fn rotate_spec(a: Seq<Seq<char>>) -> Result<CommandView, ErrorView> {
    match arity_check("rotate"@, 3, a.len()) {
        Err(e) => Err(e),
        Ok(()) => Ok(
            CommandView::Rotate { rotation: rotation_of(a[0]), input: a[1], output: a[2] },
        ),
    }
}

/// Reads the arguments of `rotate`.
pub fn rotate(args: &Vec<String>) -> (r: Result<Command, CliError>)
    ensures
        outcome(r) == rotate_spec(texts(args@)),
{
    if let Err(e) = check_for_invalid_args(args, "rotate", 3) {
        return Err(e);
    }
    let amount = args[0].as_str();
    let rotation = if same_text(amount, "180") {
        Rotation::Half
    } else if same_text(amount, "270") {
        Rotation::ThreeQuarters
    } else {
        Rotation::Quarter
    };
    Ok(Command::Rotate { rotation, input: args[1].clone(), output: args[2].clone() })
}

/// A command line without the program name: a subcommand token, then its
/// arguments. `help`, an unknown token and an empty line all ask for the usage text.
pub open spec fn run_spec(a: Seq<Seq<char>>) -> Result<CommandView, ErrorView> {
    if a.len() == 0 {
        Err(ErrorView::Usage)
    } else {
        let token = a[0];
        let rest = a.drop_first();
        if token == "blur"@ {
            blur_spec(rest)
        } else if token == "brighten"@ {
            brighten_spec(rest)
        } else if token == "crop"@ {
            crop_spec(rest)
        } else if token == "fractal"@ {
            fractal_spec(rest)
        } else if token == "grayscale"@ {
            grayscale_spec(rest)
        } else if token == "invert"@ {
            invert_spec(rest)
        } else {
            Err(ErrorView::Usage)
        }
    }
}

/// Picks the subcommand that the first argument names and reads its arguments.
pub fn run(args: &Vec<String>) -> (r: Result<Command, CliError>)
    ensures
        outcome(r) == run_spec(texts(args@)),
{
    if args.len() == 0 {
        return Err(CliError::Usage);
    }
    let mut rest: Vec<String> = Vec::new();
    let mut i: usize = 1;
    while i < args.len()
        invariant
            1 <= i <= args@.len(),
            rest@.len() == i - 1,
            forall|j: int| 0 <= j < rest@.len() ==> (#[trigger] rest@[j])@ == args@[j + 1]@,
        decreases args@.len() - i,
    {
        rest.push(args[i].clone());
        i = i + 1;
    }
    proof {
        assert(texts(rest@) =~= texts(args@).drop_first());
    }
    let token = args[0].as_str();
    if same_text(token, "blur") {
        blur(&rest)
    } else if same_text(token, "brighten") {
        brighten(&rest)
    } else if same_text(token, "crop") {
        crop(&rest)
    } else if same_text(token, "fractal") {
        fractal(&rest)
    } else if same_text(token, "grayscale") {
        grayscale(&rest)
    } else if same_text(token, "invert") {
        invert(&rest)
    } else {
        Err(CliError::Usage)
    }
}

/// The number of arguments that each subcommand reachable from [`run`] takes.
pub open spec fn routed_arity(token: Seq<char>) -> Option<nat> {
    if token == "blur"@ || token == "brighten"@ {
        Some(3)
    } else if token == "crop"@ {
        Some(6)
    } else if token == "fractal"@ {
        Some(1)
    } else if token == "grayscale"@ || token == "invert"@ {
        Some(2)
    } else {
        None
    }
}

/// A subcommand given a number of arguments other than the one it takes is
/// refused with an arity error that names it with both counts, before any of
/// its arguments is read.
pub proof fn arity_mismatch_is_refused(a: Seq<Seq<char>>)
    requires
        a.len() > 0,
        routed_arity(a[0]) is Some,
        a.len() - 1 != routed_arity(a[0])->0,
    ensures
        run_spec(a) == Err::<CommandView, ErrorView>(
            ErrorView::InvalidArguments {
                subcommand: a[0],
                expected: routed_arity(a[0])->0,
                received: (a.len() - 1) as nat,
            },
        ),
{
}

/// A token that names no subcommand asks for the usage text, whatever follows it.
pub proof fn unknown_token_asks_for_usage(a: Seq<Seq<char>>)
    requires
        a.len() > 0,
        routed_arity(a[0]) is None,
    ensures
        run_spec(a) == Err::<CommandView, ErrorView>(ErrorView::Usage),
{
}

} // verus!
