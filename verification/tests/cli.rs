use ec_cli::cli::{
    default_year_at, first_monday_of_november, quest_year, validate_day, validate_part,
    validate_year, Cli, Commands,
};

fn cli(command: Commands) -> Cli {
    Cli { command, debug: false, quiet: false }
}

#[test]
fn years_from_2024_to_2030_are_valid() {
    assert_eq!(validate_year(2024), Ok(()));
    assert_eq!(validate_year(2030), Ok(()));
    assert_eq!(
        validate_year(2023),
        Err("Invalid year: 2023 (must be between 2024-2030)".to_string())
    );
    assert_eq!(
        validate_year(2031),
        Err("Invalid year: 2031 (must be between 2024-2030)".to_string())
    );
    assert_eq!(
        validate_year(-5),
        Err("Invalid year: -5 (must be between 2024-2030)".to_string())
    );
    assert_eq!(
        validate_year(i32::MIN),
        Err("Invalid year: -2147483648 (must be between 2024-2030)".to_string())
    );
}

#[test]
fn days_from_1_to_20_are_valid() {
    assert_eq!(validate_day(1), Ok(()));
    assert_eq!(validate_day(20), Ok(()));
    assert_eq!(validate_day(0), Err("Invalid day: 0 (must be 1-20)".to_string()));
    assert_eq!(validate_day(21), Err("Invalid day: 21 (must be 1-20)".to_string()));
}

#[test]
fn parts_from_1_to_3_are_valid() {
    assert_eq!(validate_part(1), Ok(()));
    assert_eq!(validate_part(3), Ok(()));
    assert_eq!(validate_part(0), Err("Invalid part: 0 (must be 1-3)".to_string()));
    assert_eq!(validate_part(4), Err("Invalid part: 4 (must be 1-3)".to_string()));
}

#[test]
fn validate_accepts_commands_in_range() {
    let fetch = Commands::Fetch {
        year: 2024,
        day: 5,
        part: 2,
        description_only: false,
        input_only: true,
    };
    assert_eq!(cli(fetch).validate(), Ok(()));
    assert_eq!(cli(Commands::Read { year: 2030, day: 20, width: Some(100) }).validate(), Ok(()));
    let submit = Commands::Submit { year: 2025, day: 1, part: 3, answer: "42".to_string() };
    assert_eq!(cli(submit).validate(), Ok(()));
}

#[test]
fn validate_reports_the_first_argument_out_of_range() {
    let fetch = Commands::Fetch {
        year: 1999,
        day: 0,
        part: 9,
        description_only: false,
        input_only: false,
    };
    assert_eq!(
        cli(fetch).validate(),
        Err("Invalid year: 1999 (must be between 2024-2030)".to_string())
    );
    let fetch = Commands::Fetch {
        year: 2024,
        day: 0,
        part: 9,
        description_only: false,
        input_only: false,
    };
    assert_eq!(cli(fetch).validate(), Err("Invalid day: 0 (must be 1-20)".to_string()));
    let submit = Commands::Submit { year: 2024, day: 3, part: 9, answer: String::new() };
    assert_eq!(cli(submit).validate(), Err("Invalid part: 9 (must be 1-3)".to_string()));
    assert_eq!(
        cli(Commands::Read { year: 2024, day: 33, width: None }).validate(),
        Err("Invalid day: 33 (must be 1-20)".to_string())
    );
}

#[test]
fn first_monday_of_november_by_the_calendar() {
    assert_eq!(first_monday_of_november(2024), Some(4));
    assert_eq!(first_monday_of_november(2025), Some(3));
    assert_eq!(first_monday_of_november(2026), Some(2));
    assert_eq!(first_monday_of_november(2027), Some(1));
    assert_eq!(first_monday_of_november(2021), Some(1));
    assert_eq!(first_monday_of_november(2022), Some(7));
    assert_eq!(first_monday_of_november(2023), Some(6));
    assert_eq!(first_monday_of_november(i32::MAX), None);
    assert_eq!(first_monday_of_november(i32::MIN), None);
}

#[test]
fn season_opens_at_eleven_at_night_on_the_first_monday() {
    assert_eq!(quest_year(2024, 11, 4, 22, 4), 2023);
    assert_eq!(quest_year(2024, 11, 4, 23, 4), 2024);
    assert_eq!(quest_year(2024, 11, 5, 0, 4), 2024);
    assert_eq!(quest_year(2024, 11, 3, 23, 4), 2023);
    assert_eq!(quest_year(2024, 12, 1, 0, 4), 2024);
    assert_eq!(quest_year(2024, 1, 31, 23, 4), 2023);
}

#[test]
fn default_year_at_a_moment() {
    assert_eq!(default_year_at(2024, 11, 4, 22), Some(2023));
    assert_eq!(default_year_at(2024, 11, 4, 23), Some(2024));
    assert_eq!(default_year_at(2024, 11, 5, 0), Some(2024));
    assert_eq!(default_year_at(2025, 11, 3, 22), Some(2024));
    assert_eq!(default_year_at(2025, 11, 3, 23), Some(2025));
    assert_eq!(default_year_at(2025, 6, 15, 12), Some(2024));
    assert_eq!(default_year_at(i32::MIN, 6, 15, 12), None);
    assert_eq!(default_year_at(i32::MAX, 6, 15, 12), None);
}
