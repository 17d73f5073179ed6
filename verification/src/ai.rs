//! Choice of text-generation provider.
//!
//! The service itself is an external collaborator; here lives only the
//! provider selection and how a provider name from the user is read.

use vstd::prelude::*;
use vstd::string::StrSliceExecFns;

verus! {

/// Which text-generation service the application talks to.
#[derive(Clone, Copy, Debug, PartialEq, Eq, Structural)]
pub enum AIProvider {
    OpenAI,
    Anthropic,
}

impl core::default::Default for AIProvider {
    /// The provider used when none was configured.
    fn default() -> (p: AIProvider)
        ensures
            p == AIProvider::OpenAI,
    {
        AIProvider::OpenAI
    }
}

/// Whether two characters are the same letter up to ASCII case.
pub open spec fn same_letter_ci(a: char, b: char) -> bool {
    let ua = a as u32;
    let ub = b as u32;
    ua == ub || (65 <= ua <= 90 && ua + 32 == ub) || (65 <= ub <= 90 && ub + 32 == ua)
}

/// Whether two strings are equal up to ASCII case.
pub open spec fn eq_ignore_ascii_case(s: Seq<char>, t: Seq<char>) -> bool {
    s.len() == t.len() && forall|i: int| 0 <= i < s.len() ==> same_letter_ci(s[i], t[i])
}

/// The provider a user-supplied name selects: `anthropic` in any ASCII
/// case means Anthropic, anything else falls back to OpenAI.
pub open spec fn provider_of_name(name: Seq<char>) -> AIProvider {
    if eq_ignore_ascii_case(name, "anthropic"@) {
        AIProvider::Anthropic
    } else {
        AIProvider::OpenAI
    }
}

/// Whether two characters are the same letter up to ASCII case.
fn same_letter_ci_exec(a: char, b: char) -> (r: bool)
    ensures
        r == same_letter_ci(a, b),
{
    let ua = a as u32;
    let ub = b as u32;
    ua == ub || (65 <= ua && ua <= 90 && ua + 32 == ub) || (65 <= ub && ub <= 90 && ub + 32 == ua)
}

/// Whether two strings are equal up to ASCII case.
fn eq_ignore_ascii_case_exec(s: &str, t: &str) -> (r: bool)
    ensures
        r == eq_ignore_ascii_case(s@, t@),
{
    let n = s.unicode_len();
    if n != t.unicode_len() {
        return false;
    }
    let mut k: usize = 0;
    while k < n
        invariant
            n == s@.len(),
            n == t@.len(),
            k <= n,
            forall|i: int| 0 <= i < k ==> same_letter_ci(s@[i], t@[i]),
        decreases n - k,
    {
        if !same_letter_ci_exec(s.get_char(k), t.get_char(k)) {
            return false;
        }
        k = k + 1;
    }
    true
}

impl AIProvider {
    /// Read a provider from a user-supplied name, case-insensitively:
    /// `anthropic` selects Anthropic, anything else OpenAI.
    pub fn from_name(name: &str) -> (p: AIProvider)
        ensures
            p == provider_of_name(name@),
    {
        if eq_ignore_ascii_case_exec(name, "anthropic") {
            AIProvider::Anthropic
        } else {
            AIProvider::OpenAI
        }
    }
}

} // verus!
