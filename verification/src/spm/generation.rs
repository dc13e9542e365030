//! The token loop of a single request.

use vstd::prelude::*;

use crate::models::Token;

verus! {

/// What the token loop does with a token.
#[derive(Debug)]
pub enum GenerationStep {
    /// Hand this text to the reader and go on.
    Stream { text: String },
    /// The model ended the stream.
    Stop,
    /// The model failed; the reader gets no end mark.
    Fail { cause: String },
}

/// The token loop as its contracts see it.
#[verifier::ext_equal]
pub struct GenerationView {
    pub prompt: Seq<char>,
    /// How many tokens may be generated.
    pub limit: nat,
    /// How many tokens have been streamed.
    pub position: nat,
    /// The model ended the stream.
    pub stopped: bool,
    /// The model failed.
    pub failed: bool,
}

impl GenerationView {
    /// The loop asks for another token.
    pub open spec fn is_running(self) -> bool {
        !self.stopped && !self.failed && self.position < self.limit
    }

    /// The loop after the next token, or after the model failed to give one.
    pub open spec fn after(self, outcome: Result<Token, String>) -> Self {
        match outcome {
            Ok(token) => if token.is_end_of_stream {
                GenerationView { stopped: true, ..self }
            } else {
                GenerationView { position: self.position + 1, ..self }
            },
            Err(_) => GenerationView { failed: true, ..self },
        }
    }
}

/// Generates one request: the prompt, then up to `sample_len` tokens, then an
/// empty text as the end mark.
#[derive(Debug)]
pub struct GenerationLoop {
    prompt: String,
    sample_len: usize,
    index: usize,
    stopped: bool,
    failed: bool,
}

impl View for GenerationLoop {
    type V = GenerationView;

    closed spec fn view(&self) -> GenerationView {
        GenerationView {
            prompt: self.prompt@,
            limit: self.sample_len as nat,
            position: self.index as nat,
            stopped: self.stopped,
            failed: self.failed,
        }
    }
}

impl GenerationLoop {
    /// A loop at its beginning.
    pub fn new(prompt: String, sample_len: usize) -> (res: Self)
        ensures
            res@ == (GenerationView {
                prompt: prompt@,
                limit: sample_len as nat,
                position: 0,
                stopped: false,
                failed: false,
            }),
    {
        GenerationLoop { prompt, sample_len, index: 0, stopped: false, failed: false }
    }

    /// What the reader gets before any token: the prompt.
    pub fn opening(&self) -> (res: &str)
        ensures
            res@ == self@.prompt,
    {
        self.prompt.as_str()
    }

    /// The index of the token to generate next, or `None` where the loop is over.
    pub fn next_index(&self) -> (res: Option<usize>)
        ensures
            match res {
                Some(index) => self@.is_running() && index == self@.position,
                None => !self@.is_running(),
            },
    {
        if !self.stopped && !self.failed && self.index < self.sample_len {
            Some(self.index)
        } else {
            None
        }
    }

    /// Takes the outcome of generating the token that `next_index` asked for.
    pub fn on_token(&mut self, outcome: Result<Token, String>) -> (res: GenerationStep)
        requires
            old(self)@.is_running(),
        ensures
            final(self)@ == old(self)@.after(outcome),
            match outcome {
                Ok(token) => if token.is_end_of_stream {
                    res == GenerationStep::Stop
                } else {
                    res matches GenerationStep::Stream { text } && text@ == token.spec_text()
                },
                Err(cause) => res == (GenerationStep::Fail { cause }),
            },
    {
        match outcome {
            Ok(token) => {
                if token.is_end_of_stream {
                    self.stopped = true;
                    GenerationStep::Stop
                } else {
                    self.index = self.index + 1;
                    GenerationStep::Stream { text: token.to_string() }
                }
            },
            Err(cause) => {
                self.failed = true;
                GenerationStep::Fail { cause }
            },
        }
    }

    /// What the reader gets after the last token: the empty text, unless the loop
    /// still runs or the model failed.
    pub fn closing(&self) -> (res: Option<&'static str>)
        ensures
            match res {
                Some(text) => text@.len() == 0 && !self@.is_running() && !self@.failed,
                None => self@.is_running() || self@.failed,
            },
    {
        proof {
            reveal_strlit("");
        }
        if self.failed || (!self.stopped && self.index < self.sample_len) {
            None
        } else {
            Some("")
        }
    }
}

/// The texts that a loop in state `v` hands to the reader when the model yields
/// `outcomes`.
pub open spec fn streamed(v: GenerationView, outcomes: Seq<Result<Token, String>>) -> Seq<
    Seq<char>,
>
    decreases outcomes.len(),
{
    if v.is_running() && outcomes.len() > 0 {
        let rest = streamed(v.after(outcomes[0]), outcomes.skip(1));
        match outcomes[0] {
            Ok(token) => if token.is_end_of_stream {
                rest
            } else {
                seq![token.spec_text()] + rest
            },
            Err(_) => rest,
        }
    } else {
        Seq::empty()
    }
}

/// The state of the loop after `outcomes`.
pub open spec fn after_all(v: GenerationView, outcomes: Seq<Result<Token, String>>) -> GenerationView
    decreases outcomes.len(),
{
    if v.is_running() && outcomes.len() > 0 {
        after_all(v.after(outcomes[0]), outcomes.skip(1))
    } else {
        v
    }
}

/// `outcomes` starts with `n` tokens that do not end the stream.
pub open spec fn starts_with_tokens(outcomes: Seq<Result<Token, String>>, n: nat) -> bool {
    &&& n <= outcomes.len()
    &&& forall|i: int|
        0 <= i < n ==> (#[trigger] outcomes[i]) is Ok && !outcomes[i]->Ok_0.is_end_of_stream
}

/// The texts of the first `n` tokens of `outcomes`.
pub open spec fn token_texts(outcomes: Seq<Result<Token, String>>, n: nat) -> Seq<Seq<char>> {
    Seq::new(n, |i: int| outcomes[i]->Ok_0.spec_text())
}

/// A request streams exactly the tokens before the first one that ends the stream
/// or fails, as many as the limit allows, in order, each as its text. The loop is
/// then over, and it failed only if the model failed within the limit.
pub proof fn generation_streams_a_prefix(
    v: GenerationView,
    outcomes: Seq<Result<Token, String>>,
    n: nat,
)
    requires
        !v.stopped,
        !v.failed,
        starts_with_tokens(outcomes, n),
        v.position + n <= v.limit,
        v.position + n == v.limit || (n < outcomes.len() && (outcomes[n as int] is Err
            || outcomes[n as int]->Ok_0.is_end_of_stream)),
    ensures
        streamed(v, outcomes) == token_texts(outcomes, n),
        !after_all(v, outcomes).is_running(),
        after_all(v, outcomes).position == v.position + n,
        after_all(v, outcomes).failed <==> v.position + n < v.limit && outcomes[n as int] is Err,
    decreases n,
{
    if n > 0 {
        let rest = outcomes.skip(1);
        assert(starts_with_tokens(rest, (n - 1) as nat)) by {
            assert forall|i: int| 0 <= i < n - 1 implies (#[trigger] rest[i]) is Ok
                && !rest[i]->Ok_0.is_end_of_stream by {
                assert(rest[i] == outcomes[i + 1]);
            }
        }
        assert(outcomes[0] is Ok);
        generation_streams_a_prefix(v.after(outcomes[0]), rest, (n - 1) as nat);
        assert(token_texts(outcomes, n) =~= seq![outcomes[0]->Ok_0.spec_text()] + token_texts(
            rest,
            (n - 1) as nat,
        ));
    } else {
        assert(token_texts(outcomes, 0) =~= Seq::empty());
        if v.is_running() {
            let w = v.after(outcomes[0]);
            assert(!w.is_running());
            assert(streamed(w, outcomes.skip(1)) =~= Seq::empty());
            assert(after_all(w, outcomes.skip(1)) == w);
        }
    }
}

/// What a terminal prints for one streamed text: the end mark becomes a line
/// break.
pub fn terminal_text(data: &str) -> (res: String)
    ensures
        res@ == if data@.len() == 0 {
            "\n"@
        } else {
            data@
        },
{
    if data.is_empty() {
        "\n".to_owned()
    } else {
        data.to_owned()
    }
}

} // verus!
