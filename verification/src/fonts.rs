//! The font families an invoice can be printed in, and the files that hold
//! their faces.

use vstd::prelude::*;

verus! {

/// A family of the Liberation fonts.
#[derive(Clone, Copy, Debug, PartialEq, Eq)]
pub enum Liberation {
    Mono,
    Sans,
    Serif,
}

impl Liberation {
    /// The family's name, as it begins the name of each of its font files.
    pub open spec fn name(self) -> Seq<char> {
        match self {
            Liberation::Mono => "LiberationMono"@,
            Liberation::Sans => "LiberationSans"@,
            Liberation::Serif => "LiberationSerif"@,
        }
    }

    /// The names of the family's four font files: the regular face, the
    /// bold, the italic and the bold italic one, in this order.
    pub open spec fn file_names(self) -> Seq<Seq<char>> {
        seq![
            self.name() + "-Regular.ttf"@,
            self.name() + "-Bold.ttf"@,
            self.name() + "-Italic.ttf"@,
            self.name() + "-BoldItalic.ttf"@,
        ]
    }

    /// The family's name.
    pub fn value(&self) -> (name: &'static str)
        ensures
            name@ == self.name(),
    {
        match self {
            Liberation::Mono => "LiberationMono",
            Liberation::Sans => "LiberationSans",
            Liberation::Serif => "LiberationSerif",
        }
    }

    /// The font file of one face: the family's name followed by `suffix`.
    fn face_file(&self, suffix: &str) -> (file: String)
        ensures
            file@ == self.name() + suffix@,
    {
        let mut file = String::from_str(self.value());
        file.append(suffix);
        file
    }

    /// The names of the family's font files: regular, bold, italic and bold
    /// italic, in this order.
    pub fn variations(&self) -> (files: [String; 4])
        ensures
            files@.len() == 4,
            files@.map_values(|file: String| file@) == self.file_names(),
            files[0]@ == self.name() + "-Regular.ttf"@,
            files[1]@ == self.name() + "-Bold.ttf"@,
            files[2]@ == self.name() + "-Italic.ttf"@,
            files[3]@ == self.name() + "-BoldItalic.ttf"@,
    {
        let files = [
            self.face_file("-Regular.ttf"),
            self.face_file("-Bold.ttf"),
            self.face_file("-Italic.ttf"),
            self.face_file("-BoldItalic.ttf"),
        ];
        assert(files@.map_values(|file: String| file@) =~= self.file_names());
        files
    }
}

} // verus!
