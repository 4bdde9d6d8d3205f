//! The application configuration: model settings and named custom
//! prompts.  Reading the configuration file lives outside this library;
//! looking a prompt up is decided here.

use vstd::prelude::*;

use crate::text_util::str_eq;

verus! {

/// Configuration for the model integration
#[derive(Debug, Clone)]
pub struct OllamaConfig {
    /// The default model to use for requests
    pub model: String,
    /// Optional system prompt to guide the model's behavior
    pub system_prompt: Option<String>,
}

/// The first prompt stored under a name, if any.
pub open spec fn prompt_lookup(prompts: Seq<(String, String)>, name: Seq<char>) -> Option<
    Seq<char>,
>
    decreases prompts.len(),
{
    if prompts.len() == 0 {
        None
    } else if prompts[0].0@ == name {
        Some(prompts[0].1@)
    } else {
        prompt_lookup(prompts.drop_first(), name)
    }
}

/// A name that matches no entry looks up to nothing, skipping any
/// non-matching prefix.
proof fn lemma_prompt_lookup_skip(prompts: Seq<(String, String)>, name: Seq<char>, i: int)
    requires
        0 <= i <= prompts.len(),
        forall|j: int| 0 <= j < i ==> (#[trigger] prompts[j]).0@ != name,
    ensures
        prompt_lookup(prompts, name) == prompt_lookup(prompts.skip(i), name),
    decreases i,
{
    if i == 0 {
        assert(prompts.skip(0) =~= prompts);
    } else {
        assert(prompts[0].0@ != name);
        let rest = prompts.drop_first();
        assert forall|j: int| 0 <= j < i - 1 implies (#[trigger] rest[j]).0@ != name by {
            assert(rest[j] == prompts[j + 1]);
        }
        lemma_prompt_lookup_skip(rest, name, i - 1);
        assert(prompt_lookup(prompts, name) == prompt_lookup(rest, name));
        assert(rest.skip(i - 1) =~= prompts.skip(i));
    }
}

/// The main configuration structure
#[derive(Debug, Clone)]
pub struct Config {
    /// Model-specific configuration
    pub ollama: OllamaConfig,
    /// Custom prompts that can be referenced by name
    pub custom_prompts: Vec<(String, String)>,
}

impl Config {
    /// Get a custom prompt by name
    pub fn get_custom_prompt(&self, name: &str) -> (prompt: Option<&String>)
        ensures
            match prompt {
                Some(text) => prompt_lookup(self.custom_prompts@, name@) == Some(text@),
                None => prompt_lookup(self.custom_prompts@, name@) is None,
            },
    {
        let mut i: usize = 0;
        while i < self.custom_prompts.len()
            invariant
                0 <= i <= self.custom_prompts@.len(),
                forall|j: int| 0 <= j < i ==> (#[trigger] self.custom_prompts@[j]).0@ != name@,
            decreases self.custom_prompts@.len() - i,
        {
            if str_eq(self.custom_prompts[i].0.as_str(), name) {
                proof {
                    lemma_prompt_lookup_skip(self.custom_prompts@, name@, i as int);
                    assert(self.custom_prompts@.skip(i as int)[0] == self.custom_prompts@[
                        i as int]);
                }
                return Some(&self.custom_prompts[i].1);
            }
            i += 1;
        }
        proof {
            lemma_prompt_lookup_skip(self.custom_prompts@, name@, i as int);
            assert(self.custom_prompts@.skip(i as int) =~= Seq::<(String, String)>::empty());
        }
        None
    }
}

} // verus!
