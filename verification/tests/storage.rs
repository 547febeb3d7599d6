use ec_cli::storage::{Location, Storage};

fn names(parts: &[&str]) -> Vec<String> {
    parts.iter().map(|part| part.to_string()).collect()
}

#[test]
fn storage_defaults_to_the_data_directory() {
    let storage = Storage::new(None);
    assert_eq!(storage.inputs_dir(2024), names(&["data", "2024", "inputs"]));
    assert_eq!(storage.samples_dir(2024), names(&["data", "2024", "samples"]));
    assert_eq!(storage.descriptions_dir(2025), names(&["data", "2025", "descriptions"]));
}

#[test]
fn storage_under_a_base_path() {
    let storage = Storage::new(Some("/tmp/quests".to_string()));
    assert_eq!(storage.inputs_dir(2024), names(&["/tmp/quests", "2024", "inputs"]));
    assert_eq!(
        storage.input_file(2024, 3, 2),
        Location::Default {
            directory: names(&["/tmp/quests", "2024", "inputs"]),
            file_name: "3-2.txt".to_string()
        }
    );
    assert_eq!(
        storage.description_file(2024, 13),
        Location::Default {
            directory: names(&["/tmp/quests", "2024", "descriptions"]),
            file_name: "13.html".to_string()
        }
    );
    assert_eq!(
        storage.sample_target(2026, 20, 1),
        Location::Default {
            directory: names(&["/tmp/quests", "2026", "samples"]),
            file_name: "20-1.txt".to_string()
        }
    );
}

#[test]
fn storage_writes_to_the_default_places() {
    let storage = Storage::new(None);
    assert_eq!(storage.input_target(2024, 3, 2), storage.input_file(2024, 3, 2));
    assert_eq!(storage.description_target(2024, 3), storage.description_file(2024, 3));
}

#[test]
fn storage_writes_to_the_chosen_paths() {
    let storage = Storage::new(None)
        .with_description_path("notes/today.html".to_string())
        .with_input_path("in.txt".to_string());
    assert_eq!(storage.input_target(2024, 3, 2), Location::Custom("in.txt".to_string()));
    assert_eq!(
        storage.description_target(2024, 3),
        Location::Custom("notes/today.html".to_string())
    );
    // Reading goes by the default layout all the same.
    assert_eq!(
        storage.input_file(2024, 3, 2),
        Location::Default {
            directory: names(&["data", "2024", "inputs"]),
            file_name: "3-2.txt".to_string()
        }
    );
    assert_eq!(
        storage.description_file(2024, 3),
        Location::Default {
            directory: names(&["data", "2024", "descriptions"]),
            file_name: "3.html".to_string()
        }
    );
}

#[test]
fn storage_paths_are_chosen_one_by_one() {
    let storage = Storage::new(Some("base".to_string())).with_input_path("in.txt".to_string());
    assert_eq!(storage.input_target(2024, 1, 1), Location::Custom("in.txt".to_string()));
    assert_eq!(storage.description_target(2024, 1), storage.description_file(2024, 1));
    let storage = Storage::new(Some("base".to_string()))
        .with_description_path("a.html".to_string())
        .with_description_path("b.html".to_string());
    assert_eq!(storage.description_target(2024, 1), Location::Custom("b.html".to_string()));
    assert_eq!(storage.input_target(2024, 1, 1), storage.input_file(2024, 1, 1));
}

#[test]
fn storage_keeps_samples_and_their_answers_side_by_side() {
    let storage = Storage::new(None);
    assert_eq!(
        storage.sample_target(2024, 2, 3),
        Location::Default {
            directory: names(&["data", "2024", "samples"]),
            file_name: "2-3.txt".to_string()
        }
    );
    assert_eq!(
        storage.sample_answer_target(2024, 2, 3),
        Location::Default {
            directory: names(&["data", "2024", "samples"]),
            file_name: "2-3-answer.txt".to_string()
        }
    );
    let storage = storage
        .with_sample_path("sample.txt".to_string())
        .with_sample_answer_path("answer.txt".to_string());
    assert_eq!(storage.sample_target(2024, 2, 3), Location::Custom("sample.txt".to_string()));
    assert_eq!(
        storage.sample_answer_target(2024, 2, 3),
        Location::Custom("answer.txt".to_string())
    );
    assert_eq!(storage.input_target(2024, 2, 3), storage.input_file(2024, 2, 3));
}
