//! Lexicon content: sections of `key` / `value` items, with a user override
//! taking precedence over the content built into the application.

use vstd::prelude::*;

verus! {

#[derive(Debug, Clone)]
pub struct ContentItem {
    pub key: String,
    pub value: String,
}

#[derive(Debug, Clone)]
pub struct ContentSection {
    pub section: String,
    pub items: Vec<ContentItem>,
}

/// Picks the content to show: the user's override file when it was found and
/// parsed, else the built-in content when it parsed, else nothing.
pub fn select_content(
    user_override: Option<Vec<ContentSection>>,
    embedded: Option<Vec<ContentSection>>,
) -> (r: Vec<ContentSection>)
    ensures
        match user_override {
            Some(o) => r == o,
            None => match embedded {
                Some(e) => r == e,
                None => r@.len() == 0,
            },
        },
{
    match user_override {
        Some(o) => o,
        None => match embedded {
            Some(e) => e,
            None => Vec::new(),
        },
    }
}

} // verus!
