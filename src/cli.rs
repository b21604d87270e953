//! The paths the program works with.
use vstd::prelude::*;

verus! {

/// The input audio file, the silent video written first, and the final video.
pub struct Args {
    input_path: String,
    temp_path: String,
    output_path: String,
}

impl Args {
    pub closed spec fn input_spec(&self) -> Seq<char> {
        self.input_path@
    }

    pub closed spec fn temp_spec(&self) -> Seq<char> {
        self.temp_path@
    }

    pub closed spec fn output_spec(&self) -> Seq<char> {
        self.output_path@
    }

    pub fn new(input_path: String, temp_path: String, output_path: String) -> (r: Args)
        ensures
            r.input_spec() == input_path@,
            r.temp_spec() == temp_path@,
            r.output_spec() == output_path@,
    {
        Args { input_path, temp_path, output_path }
    }

    /// Path of the audio input (mp3, webm, ...).
    pub fn input_path(&self) -> (r: &str)
        ensures
            r@ == self.input_spec(),
    {
        self.input_path.as_str()
    }

    /// Path of the silent video written before muxing.
    pub fn temp_path(&self) -> (r: &str)
        ensures
            r@ == self.temp_spec(),
    {
        self.temp_path.as_str()
    }

    /// Path of the final video.
    pub fn output_path(&self) -> (r: &str)
        ensures
            r@ == self.output_spec(),
    {
        self.output_path.as_str()
    }
}

} // verus!
