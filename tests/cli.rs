use image_utils::picture::Color;
use image_utils::cli::{
    blur, brighten, check_for_invalid_args, crop, fractal, generate, grayscale, invert,
    parse_number, rotate, run, CliError, Command, Rotation,
};

fn strings(items: &[&str]) -> Vec<String> {
    items.iter().map(|s| s.to_string()).collect()
}

fn number_error(subcommand: &str, property: &str) -> CliError {
    CliError::InvalidNumber { subcommand: subcommand.to_string(), property: property.to_string() }
}

fn arity_error(subcommand: &str, expected: usize, received: usize) -> CliError {
    CliError::InvalidArguments { subcommand: subcommand.to_string(), expected, received }
}

#[test]
fn parse_number_names_subcommand_and_property() {
    let r = parse_number::<u32>("crop", "x", "abc".to_string());
    assert_eq!(r, Err(number_error("crop", "x")));
}

#[test]
fn parse_number_reads_unsigned() {
    assert_eq!(parse_number::<u32>("crop", "x", "42".to_string()), Ok(42));
    assert_eq!(parse_number::<u32>("crop", "x", "+42".to_string()), Ok(42));
    assert_eq!(parse_number::<u32>("crop", "x", "0007".to_string()), Ok(7));
    assert_eq!(parse_number::<u32>("crop", "x", "4294967295".to_string()), Ok(u32::MAX));
}

#[test]
fn parse_number_rejects_bad_unsigned() {
    for text in ["", "+", "-1", "4294967296", "12a", " 1", "1.5", "99999999999999999999"] {
        assert_eq!(parse_number::<u32>("crop", "width", text.to_string()), Err(number_error("crop", "width")), "{}", text);
    }
}

#[test]
fn parse_number_reads_signed() {
    assert_eq!(parse_number::<i32>("brighten", "amount", "-20".to_string()), Ok(-20));
    assert_eq!(parse_number::<i32>("brighten", "amount", "+20".to_string()), Ok(20));
    assert_eq!(parse_number::<i32>("brighten", "amount", "-2147483648".to_string()), Ok(i32::MIN));
    assert_eq!(parse_number::<i32>("brighten", "amount", "2147483647".to_string()), Ok(i32::MAX));
    for text in ["-", "2147483648", "-2147483649", "--1", "-+1", "ten"] {
        assert_eq!(parse_number::<i32>("brighten", "amount", text.to_string()), Err(number_error("brighten", "amount")), "{}", text);
    }
}

#[test]
fn parse_number_reads_channel() {
    assert_eq!(parse_number::<u8>("generate", "red", "255".to_string()), Ok(255));
    assert_eq!(parse_number::<u8>("generate", "red", "0".to_string()), Ok(0));
    assert_eq!(parse_number::<u8>("generate", "red", "256".to_string()), Err(number_error("generate", "red")));
}

#[test]
fn parse_number_agrees_with_std() {
    for text in ["0", "1", "+9", "-9", "65535", "4294967295", "4294967296", "x", "", "-0", "+-1"] {
        let ours = parse_number::<u32>("p", "q", text.to_string()).ok();
        assert_eq!(ours, text.parse::<u32>().ok(), "{}", text);
        let ours = parse_number::<i32>("p", "q", text.to_string()).ok();
        assert_eq!(ours, text.parse::<i32>().ok(), "{}", text);
        let ours = parse_number::<u8>("p", "q", text.to_string()).ok();
        assert_eq!(ours, text.parse::<u8>().ok(), "{}", text);
    }
}

#[test]
fn arity_check_counts_exactly() {
    assert_eq!(check_for_invalid_args(&strings(&["a", "b"]), "invert", 2), Ok(()));
    assert_eq!(check_for_invalid_args(&strings(&["a"]), "invert", 2), Err(arity_error("invert", 2, 1)));
    assert_eq!(check_for_invalid_args(&strings(&["a", "b", "c"]), "invert", 2), Err(arity_error("invert", 2, 3)));
    assert_eq!(check_for_invalid_args(&strings(&[]), "invert", 2), Err(arity_error("invert", 2, 0)));
    assert_eq!(check_for_invalid_args(&strings(&[]), "none", 0), Err(arity_error("none", 0, 0)));
}

#[test]
fn wrong_arity_is_refused_for_every_subcommand() {
    let table = [("blur", 3), ("brighten", 3), ("crop", 6), ("fractal", 1), ("grayscale", 2), ("invert", 2)];
    for (name, arity) in table {
        for count in 0..9usize {
            if count == arity {
                continue;
            }
            let mut line = vec![name.to_string()];
            for i in 0..count {
                line.push(format!("not-a-number-{}", i));
            }
            assert_eq!(run(&line), Err(arity_error(name, arity, count)), "{} {}", name, count);
        }
    }
}

#[test]
fn help_and_unknown_tokens_ask_for_usage() {
    assert_eq!(run(&strings(&["help"])), Err(CliError::Usage));
    assert_eq!(run(&strings(&["rotate45", "in.png", "out.png"])), Err(CliError::Usage));
    assert_eq!(run(&strings(&["rotate", "90", "in.png", "out.png"])), Err(CliError::Usage));
    assert_eq!(run(&strings(&["generate", "1", "1", "0", "0", "0", "out.png"])), Err(CliError::Usage));
    assert_eq!(run(&strings(&["Blur", "2", "in.png", "out.png"])), Err(CliError::Usage));
    assert_eq!(run(&strings(&[])), Err(CliError::Usage));
}

#[test]
fn run_reads_blur() {
    let r = run(&strings(&["blur", "2.5", "in.png", "out.png"]));
    assert_eq!(
        r,
        Ok(Command::Blur { amount: "2.5".to_string(), input: "in.png".to_string(), output: "out.png".to_string() })
    );
}

#[test]
fn run_reads_each_subcommand() {
    assert_eq!(
        run(&strings(&["brighten", "-10", "a.png", "b.png"])),
        Ok(Command::Brighten { amount: -10, input: "a.png".to_string(), output: "b.png".to_string() })
    );
    assert_eq!(
        run(&strings(&["crop", "0", "1", "640", "480", "a.png", "b.png"])),
        Ok(Command::Crop { x: 0, y: 1, width: 640, height: 480, input: "a.png".to_string(), output: "b.png".to_string() })
    );
    assert_eq!(run(&strings(&["fractal", "f.png"])), Ok(Command::Fractal { output: "f.png".to_string() }));
    assert_eq!(
        run(&strings(&["grayscale", "a.png", "b.png"])),
        Ok(Command::Grayscale { input: "a.png".to_string(), output: "b.png".to_string() })
    );
    assert_eq!(
        run(&strings(&["invert", "a.png", "b.png"])),
        Ok(Command::Invert { input: "a.png".to_string(), output: "b.png".to_string() })
    );
}

#[test]
fn crop_names_the_first_bad_property() {
    assert_eq!(crop(&strings(&["1", "b", "c", "4", "a.png", "b.png"])), Err(number_error("crop", "y")));
    assert_eq!(crop(&strings(&["1", "2", "3", "-4", "a.png", "b.png"])), Err(number_error("crop", "height")));
    assert_eq!(run(&strings(&["crop", "abc", "0", "1", "1", "a.png", "b.png"])), Err(number_error("crop", "x")));
}

#[test]
fn brighten_rejects_bad_amount() {
    assert_eq!(brighten(&strings(&["lots", "a.png", "b.png"])), Err(number_error("brighten", "amount")));
}

#[test]
fn handlers_check_arity_first() {
    assert_eq!(blur(&strings(&["abc", "a.png"])), Err(arity_error("blur", 3, 2)));
    assert_eq!(brighten(&strings(&["abc"])), Err(arity_error("brighten", 3, 1)));
    assert_eq!(fractal(&strings(&[])), Err(arity_error("fractal", 1, 0)));
    assert_eq!(grayscale(&strings(&["a", "b", "c"])), Err(arity_error("grayscale", 2, 3)));
    assert_eq!(invert(&strings(&["a"])), Err(arity_error("invert", 2, 1)));
    assert_eq!(generate(&strings(&["x"])), Err(arity_error("generate", 6, 1)));
    assert_eq!(rotate(&strings(&["x"])), Err(arity_error("rotate", 3, 1)));
}

#[test]
fn generate_reads_size_and_colour() {
    assert_eq!(
        generate(&strings(&["640", "480", "10", "20", "30", "g.png"])),
        Ok(Command::Generate { width: 640, height: 480, color: Color { red: 10, green: 20, blue: 30 }, output: "g.png".to_string() })
    );
    assert_eq!(generate(&strings(&["640", "480", "10", "300", "30", "g.png"])), Err(number_error("generate", "green")));
    assert_eq!(generate(&strings(&["640", "-1", "10", "20", "30", "g.png"])), Err(number_error("generate", "height")));
}

#[test]
fn rotate_reads_the_turn() {
    let turn = |amount: &str| match rotate(&strings(&[amount, "a.png", "b.png"])) {
        Ok(Command::Rotate { rotation, .. }) => rotation,
        other => panic!("{:?}", other),
    };
    assert_eq!(turn("90"), Rotation::Quarter);
    assert_eq!(turn("180"), Rotation::Half);
    assert_eq!(turn("270"), Rotation::ThreeQuarters);
    assert_eq!(turn("45"), Rotation::Quarter);
    assert_eq!(turn("1800"), Rotation::Quarter);
}
