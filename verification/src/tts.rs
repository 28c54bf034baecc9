//! What speech synthesis is asked to do: which program, which voice, where
//! the audio goes, and whether a text is worth speaking at all.
use vstd::prelude::*;
use crate::text::{blank, is_blank, is_white_space, lemma_blank_iff_all_whitespace};

verus! {

/// The abstract value of a speech engine.
pub struct TtsView {
    pub executable: Seq<char>,
    pub voice_path: Seq<char>,
    pub output_path: Seq<char>,
}

/// The program that turns text into speech, its voice model and the file it
/// writes.
#[derive(Debug, Clone)]
pub struct TtsEngine {
    executable: String,
    voice_path: String,
    output_path: String,
}

impl View for TtsEngine {
    type V = TtsView;

    closed spec fn view(&self) -> TtsView {
        TtsView {
            executable: self.executable@,
            voice_path: self.voice_path@,
            output_path: self.output_path@,
        }
    }
}

impl TtsEngine {
    /// An engine that runs `executable` with the given voice, writing to
    /// `output_path`.
    pub fn new(executable: String, voice_path: String, output_path: String) -> (r: TtsEngine)
        ensures
            r@ == (TtsView {
                executable: executable@,
                voice_path: voice_path@,
                output_path: output_path@,
            }),
    {
        TtsEngine { executable, voice_path, output_path }
    }

    /// The program to run.
    pub fn executable(&self) -> (r: &String)
        ensures
            r@ == self@.executable,
    {
        &self.executable
    }

    /// The voice model.
    pub fn voice_path(&self) -> (r: &String)
        ensures
            r@ == self@.voice_path,
    {
        &self.voice_path
    }

    /// The audio file that is written and then played.
    pub fn output_path(&self) -> (r: &String)
        ensures
            r@ == self@.output_path,
    {
        &self.output_path
    }

    /// Whether `text` is to be spoken: a text of nothing but whitespace is
    /// not.
    pub fn should_speak(text: &str) -> (r: bool)
        ensures
            r == !blank(text@),
            r <==> exists|k: int| 0 <= k < text@.len() && !is_white_space(#[trigger] text@[k]),
    {
        proof {
            lemma_blank_iff_all_whitespace(text@);
        }
        !is_blank(text)
    }

    /// The arguments the program is run with:
    /// `--model <voice> --output_file <output>`.
    pub fn synthesis_args(&self) -> (r: Vec<String>)
        ensures
            r@.len() == 4,
            r@[0]@ == "--model"@,
            r@[1]@ == self@.voice_path,
            r@[2]@ == "--output_file"@,
            r@[3]@ == self@.output_path,
    {
        let mut r: Vec<String> = Vec::new();
        r.push("--model".to_owned());
        r.push(self.voice_path.clone());
        r.push("--output_file".to_owned());
        r.push(self.output_path.clone());
        r
    }
}

} // verus!
