//! What the control plane knows of a model.

pub mod calls;
pub mod chat;
pub mod generator;
pub mod stage;

use vstd::prelude::*;

use crate::text;

verus! {

/// One generated token.
#[derive(Debug)]
pub struct Token {
    /// The id in the vocabulary.
    pub id: u32,
    /// The decoded fragment of text.
    pub text: Option<String>,
    /// Whether the stream of tokens ends here.
    pub is_end_of_stream: bool,
}

impl Token {
    /// The text of the token, or its id where there is none.
    pub open spec fn spec_text(&self) -> Seq<char> {
        match self.text {
            Some(text) => text@,
            None => "<token "@ + text::decimal(self.id as nat) + ">"@,
        }
    }

    /// The text of the token, or its id where there is none.
    pub fn to_string(&self) -> (res: String)
        ensures
            res@ == self.spec_text(),
    {
        match &self.text {
            Some(text) => text.clone(),
            None => {
                let id = text::decimal_text(self.id as u128);
                "<token ".to_owned().concat(id.as_str()).concat(">")
            },
        }
    }
}

/// A transformer stage detached from the mutable model/session owner. It owns
/// the activation `X` and the master's request-local cache `C`, so it can safely
/// await a remote worker while the engine prepares or executes another request.
/// `E` executes layers.
#[derive(Debug)]
pub struct PipelineStageJob<X, C, E> {
    pub x: X,
    pub cache: C,
    pub executors: Vec<E>,
    /// The layers to run: name, position, block number.
    pub batch: Vec<(String, usize, usize)>,
    /// Whether one executor runs the whole batch remotely.
    pub remote_batch: bool,
}

/// What a stage leaves behind.
#[derive(Debug)]
pub struct PipelineStageOutput<X, C> {
    pub x: X,
    pub cache: C,
}

} // verus!
