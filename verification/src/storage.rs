//! Where puzzle files are kept. The library names the places; reading and
//! writing them is left to the caller.

use vstd::prelude::*;
use vstd::string::StringExecFns;
use crate::models::text_of;
use crate::text::{decimal, decimal_text};

verus! {

/// The place of a file: a path that the user chose, or a file in a
/// directory under the base path, the directory given by its components.
#[derive(Debug, Clone, PartialEq, Eq)]
pub enum Location {
    Custom(String),
    Default { directory: Vec<String>, file_name: String },
}

/// A location by the characters of its names.
pub enum LocationView {
    Custom(Seq<char>),
    Default { directory: Seq<Seq<char>>, file_name: Seq<char> },
}

impl View for Location {
    type V = LocationView;

    open spec fn view(&self) -> LocationView {
        match *self {
            Location::Custom(path) => LocationView::Custom(path@),
            Location::Default { directory, file_name } => LocationView::Default {
                directory: Seq::new(directory@.len(), |i: int| directory@[i]@),
                file_name: file_name@,
            },
        }
    }
}

/// The layout of the puzzle files under a base path.
pub struct Storage {
    base_path: String,
    description_path: Option<String>,
    input_path: Option<String>,
    sample_path: Option<String>,
    sample_answer_path: Option<String>,
}

/// The directory of one kind of file for `year`: the base path, the year,
/// the name of the kind.
pub open spec fn year_directory(base: Seq<char>, year: int, kind: Seq<char>) -> Seq<Seq<char>> {
    seq![base, decimal_text(year), kind]
}

/// The name of the file of one part of a day: `<day>-<part>.txt`.
pub open spec fn part_file_name(day: int, part: int) -> Seq<char> {
    decimal_text(day) + "-"@ + decimal_text(part) + ".txt"@
}

/// The name of the file of the expected answer to the sample of one part
/// of a day: `<day>-<part>-answer.txt`.
pub open spec fn answer_file_name(day: int, part: int) -> Seq<char> {
    decimal_text(day) + "-"@ + decimal_text(part) + "-answer.txt"@
}

/// The name of the description of a day: `<day>.html`.
pub open spec fn description_file_name(day: int) -> Seq<char> {
    decimal_text(day) + ".html"@
}

/// The place that a chosen path, or else a file in a directory, names.
pub open spec fn place(
    custom: Option<Seq<char>>,
    directory: Seq<Seq<char>>,
    file_name: Seq<char>,
) -> LocationView {
    match custom {
        Some(path) => LocationView::Custom(path),
        None => LocationView::Default { directory, file_name },
    }
}

/// Writes the name of the file of one part of a day.
fn part_file(day: i32, part: i32) -> (name: String)
    ensures
        name@ == part_file_name(day as int, part as int),
{
    let mut name = decimal(day as i64);
    name.append("-");
    name.append(decimal(part as i64).as_str());
    name.append(".txt");
    name
}

/// Writes the name of the file of the expected answer of one part of a day.
fn answer_file(day: i32, part: i32) -> (name: String)
    ensures
        name@ == answer_file_name(day as int, part as int),
{
    let mut name = decimal(day as i64);
    name.append("-");
    name.append(decimal(part as i64).as_str());
    name.append("-answer.txt");
    name
}

/// Writes the name of the description of a day.
fn description_file(day: i32) -> (name: String)
    ensures
        name@ == description_file_name(day as int),
{
    let mut name = decimal(day as i64);
    name.append(".html");
    name
}

impl Storage {
    /// The base path.
    pub closed spec fn base(&self) -> Seq<char> {
        self.base_path@
    }

    /// The path chosen for descriptions, if one was.
    pub closed spec fn description_override(&self) -> Option<Seq<char>> {
        text_of(self.description_path)
    }

    /// The path chosen for inputs, if one was.
    pub closed spec fn input_override(&self) -> Option<Seq<char>> {
        text_of(self.input_path)
    }

    /// The path chosen for samples, if one was.
    pub closed spec fn sample_override(&self) -> Option<Seq<char>> {
        text_of(self.sample_path)
    }

    /// The path chosen for the expected answers to samples, if one was.
    pub closed spec fn sample_answer_override(&self) -> Option<Seq<char>> {
        text_of(self.sample_answer_path)
    }

    /// A layout under `base_path`, or under `data` where none is given.
    pub fn new(base_path: Option<String>) -> (storage: Storage)
        ensures
            storage.base() == (match base_path {
                Some(path) => path@,
                None => "data"@,
            }),
            storage.description_override() is None,
            storage.input_override() is None,
            storage.sample_override() is None,
            storage.sample_answer_override() is None,
    {
        let base_path = match base_path {
            Some(path) => path,
            None => String::from_str("data"),
        };
        Storage {
            base_path,
            description_path: None,
            input_path: None,
            sample_path: None,
            sample_answer_path: None,
        }
    }

    /// The same layout, with descriptions kept at `path`.
    pub fn with_description_path(self, path: String) -> (storage: Storage)
        ensures
            storage.base() == self.base(),
            storage.description_override() == Some(path@),
            storage.input_override() == self.input_override(),
            storage.sample_override() == self.sample_override(),
            storage.sample_answer_override() == self.sample_answer_override(),
    {
        let mut storage = self;
        storage.description_path = Some(path);
        storage
    }

    /// The same layout, with inputs kept at `path`.
    pub fn with_input_path(self, path: String) -> (storage: Storage)
        ensures
            storage.base() == self.base(),
            storage.description_override() == self.description_override(),
            storage.input_override() == Some(path@),
            storage.sample_override() == self.sample_override(),
            storage.sample_answer_override() == self.sample_answer_override(),
    {
        let mut storage = self;
        storage.input_path = Some(path);
        storage
    }

    /// The same layout, with samples kept at `path`.
    pub fn with_sample_path(self, path: String) -> (storage: Storage)
        ensures
            storage.base() == self.base(),
            storage.description_override() == self.description_override(),
            storage.input_override() == self.input_override(),
            storage.sample_override() == Some(path@),
            storage.sample_answer_override() == self.sample_answer_override(),
    {
        let mut storage = self;
        storage.sample_path = Some(path);
        storage
    }

    /// The same layout, with the expected answers to samples kept at
    /// `path`.
    pub fn with_sample_answer_path(self, path: String) -> (storage: Storage)
        ensures
            storage.base() == self.base(),
            storage.description_override() == self.description_override(),
            storage.input_override() == self.input_override(),
            storage.sample_override() == self.sample_override(),
            storage.sample_answer_override() == Some(path@),
    {
        let mut storage = self;
        storage.sample_answer_path = Some(path);
        storage
    }

    /// The directory of one kind of file for `year`.
    fn year_dir(&self, year: i32, kind: &str) -> (directory: Vec<String>)
        ensures
            Seq::new(directory@.len(), |i: int| directory@[i]@) == year_directory(
                self.base(),
                year as int,
                kind@,
            ),
    {
        let mut directory: Vec<String> = Vec::new();
        directory.push(self.base_path.clone());
        directory.push(decimal(year as i64));
        directory.push(String::from_str(kind));
        assert(Seq::new(directory@.len(), |i: int| directory@[i]@) =~= year_directory(
            self.base(),
            year as int,
            kind@,
        ));
        directory
    }

    /// The directory of the inputs of `year`.
    pub fn inputs_dir(&self, year: i32) -> (directory: Vec<String>)
        ensures
            Seq::new(directory@.len(), |i: int| directory@[i]@) == year_directory(
                self.base(),
                year as int,
                "inputs"@,
            ),
    {
        self.year_dir(year, "inputs")
    }

    /// The directory of the samples of `year`.
    pub fn samples_dir(&self, year: i32) -> (directory: Vec<String>)
        ensures
            Seq::new(directory@.len(), |i: int| directory@[i]@) == year_directory(
                self.base(),
                year as int,
                "samples"@,
            ),
    {
        self.year_dir(year, "samples")
    }

    /// The directory of the descriptions of `year`.
    pub fn descriptions_dir(&self, year: i32) -> (directory: Vec<String>)
        ensures
            Seq::new(directory@.len(), |i: int| directory@[i]@) == year_directory(
                self.base(),
                year as int,
                "descriptions"@,
            ),
    {
        self.year_dir(year, "descriptions")
    }

    /// Where the input of a part is read: always in the inputs directory.
    pub fn input_file(&self, year: i32, day: i32, part: i32) -> (location: Location)
        ensures
            location@ == place(
                None,
                year_directory(self.base(), year as int, "inputs"@),
                part_file_name(day as int, part as int),
            ),
    {
        Location::Default { directory: self.inputs_dir(year), file_name: part_file(day, part) }
    }

    /// Where the input of a part is written: at the path chosen for inputs,
    /// or else in the inputs directory.
    pub fn input_target(&self, year: i32, day: i32, part: i32) -> (location: Location)
        ensures
            location@ == place(
                self.input_override(),
                year_directory(self.base(), year as int, "inputs"@),
                part_file_name(day as int, part as int),
            ),
    {
        match &self.input_path {
            Some(path) => Location::Custom(path.clone()),
            None => self.input_file(year, day, part),
        }
    }

    /// Where the sample of a part is written: at the path chosen for
    /// samples, or else in the samples directory.
    pub fn sample_target(&self, year: i32, day: i32, part: i32) -> (location: Location)
        ensures
            location@ == place(
                self.sample_override(),
                year_directory(self.base(), year as int, "samples"@),
                part_file_name(day as int, part as int),
            ),
    {
        match &self.sample_path {
            Some(path) => Location::Custom(path.clone()),
            None => Location::Default {
                directory: self.samples_dir(year),
                file_name: part_file(day, part),
            },
        }
    }

    /// Where the expected answer to the sample of a part is written: at the
    /// path chosen for it, or else beside the sample.
    pub fn sample_answer_target(&self, year: i32, day: i32, part: i32) -> (location: Location)
        ensures
            location@ == place(
                self.sample_answer_override(),
                year_directory(self.base(), year as int, "samples"@),
                answer_file_name(day as int, part as int),
            ),
    {
        match &self.sample_answer_path {
            Some(path) => Location::Custom(path.clone()),
            None => Location::Default {
                directory: self.samples_dir(year),
                file_name: answer_file(day, part),
            },
        }
    }

    /// Where the description of a day is read: always in the descriptions
    /// directory.
    pub fn description_file(&self, year: i32, day: i32) -> (location: Location)
        ensures
            location@ == place(
                None,
                year_directory(self.base(), year as int, "descriptions"@),
                description_file_name(day as int),
            ),
    {
        Location::Default {
            directory: self.descriptions_dir(year),
            file_name: description_file(day),
        }
    }

    /// Where the description of a day is written: at the path chosen for
    /// descriptions, or else in the descriptions directory.
    pub fn description_target(&self, year: i32, day: i32) -> (location: Location)
        ensures
            location@ == place(
                self.description_override(),
                year_directory(self.base(), year as int, "descriptions"@),
                description_file_name(day as int),
            ),
    {
        match &self.description_path {
            Some(path) => Location::Custom(path.clone()),
            None => self.description_file(year, day),
        }
    }
}

} // verus!
