use vstd::prelude::*;
use crate::history::string_views;

verus! {

pub struct ConfigView {
    pub preamble: Seq<char>,
    pub anthropic_api_key: Seq<char>,
    pub model_options: Seq<Seq<char>>,
    pub model: Seq<char>,
}

/// What the agent is built from: the system preamble, the provider credential,
/// the models one may choose from and the one chosen.
pub struct Config {
    preamble: String,
    anthropic_api_key: String,
    model_options: Vec<String>,
    model: String,
}

impl View for Config {
    type V = ConfigView;

    closed spec fn view(&self) -> ConfigView {
        ConfigView {
            preamble: self.preamble@,
            anthropic_api_key: self.anthropic_api_key@,
            model_options: string_views(self.model_options@),
            model: self.model@,
        }
    }
}

impl Config {
    /// The selected model is always one of the options.
    #[verifier::type_invariant]
    spec fn well_formed(&self) -> bool {
        string_views(self.model_options@).contains(self.model@)
    }

    pub fn new(
        preamble: String,
        anthropic_api_key: String,
        model_options: Vec<String>,
        model: String,
    ) -> (r: Config)
        requires
            string_views(model_options@).contains(model@),
        ensures
            r@ == (ConfigView {
                preamble: preamble@,
                anthropic_api_key: anthropic_api_key@,
                model_options: string_views(model_options@),
                model: model@,
            }),
    {
        Config { preamble, anthropic_api_key, model_options, model }
    }

    /// A configuration whose selected model is the first of the options.
    pub fn with_default_model(
        preamble: String,
        anthropic_api_key: String,
        model_options: Vec<String>,
    ) -> (r: Config)
        requires
            model_options@.len() > 0,
        ensures
            r@ == (ConfigView {
                preamble: preamble@,
                anthropic_api_key: anthropic_api_key@,
                model_options: string_views(model_options@),
                model: model_options@[0]@,
            }),
    {
        let model = model_options[0].clone();
        assert(string_views(model_options@)[0] == model@);
        Config::new(preamble, anthropic_api_key, model_options, model)
    }

    pub fn preamble(&self) -> (r: &str)
        ensures
            r@ == self@.preamble,
    {
        self.preamble.as_str()
    }

    pub fn anthropic_api_key(&self) -> (r: &str)
        ensures
            r@ == self@.anthropic_api_key,
    {
        self.anthropic_api_key.as_str()
    }

    pub fn model(&self) -> (r: &str)
        ensures
            r@ == self@.model,
            self@.model_options.contains(r@),
    {
        proof {
            use_type_invariant(self);
        }
        self.model.as_str()
    }

    pub fn set_model(&mut self, model: String)
        requires
            old(self)@.model_options.contains(model@),
        ensures
            final(self)@ == (ConfigView { model: model@, ..old(self)@ }),
    {
        self.model = model;
    }

    pub fn model_options(&self) -> (r: &[String])
        ensures
            string_views(r@) == self@.model_options,
    {
        self.model_options.as_slice()
    }
}

} // verus!
