//! The descriptive fields an external catalog lookup yields for a title,
//! and the catalog languages a lookup can be made in. The lookup itself is
//! an outside collaborator; these are the values it produces and the exact
//! strings each language selects.

use vstd::prelude::*;

verus! {

/// The descriptive fields a catalog lookup returns for one title.
#[derive(Clone, Debug, PartialEq)]
pub struct DLSiteInfo {
    pub title: String,
    pub circle: String,
    pub scenario: Vec<String>,
    pub illustration: Vec<String>,
    pub category: Vec<String>,
    pub tags: Vec<String>,
    pub description: Vec<String>,
}

/// A catalog language.
#[derive(Clone, Copy, Debug, PartialEq, Eq, Structural)]
pub enum Language {
    EnUs,
    ZhCn,
    JaJp,
}

impl Language {
    /// The locale code the catalog expects for this language.
    pub fn as_lang_code(&self) -> (r: &str)
        ensures
            self is EnUs ==> r@ == "en_US"@,
            self is ZhCn ==> r@ == "zh_CN"@,
            self is JaJp ==> r@ == "ja_JP"@,
    {
        match self {
            Language::EnUs => "en_US",
            Language::ZhCn => "zh_CN",
            Language::JaJp => "ja_JP",
        }
    }

    /// The row label under which the catalog lists scenario credits in this
    /// language.
    pub fn tag_scenario(&self) -> (r: &str)
        ensures
            self is EnUs ==> r@ == "Scenario"@,
            self is ZhCn ==> r@ == "\u{5267}\u{60c5}"@,
            self is JaJp ==> r@ == "\u{30b7}\u{30ca}\u{30ea}\u{30aa}"@,
    {
        match self {
            Language::EnUs => "Scenario",
            Language::ZhCn => "\u{5267}\u{60c5}",
            Language::JaJp => "\u{30b7}\u{30ca}\u{30ea}\u{30aa}",
        }
    }

    /// The row label under which the catalog lists illustration credits in
    /// this language.
    pub fn tag_illustration(&self) -> (r: &str)
        ensures
            self is EnUs ==> r@ == "Illustration"@,
            self is ZhCn ==> r@ == "\u{63d2}\u{753b}"@,
            self is JaJp ==> r@ == "\u{30a4}\u{30e9}\u{30b9}\u{30c8}"@,
    {
        match self {
            Language::EnUs => "Illustration",
            Language::ZhCn => "\u{63d2}\u{753b}",
            Language::JaJp => "\u{30a4}\u{30e9}\u{30b9}\u{30c8}",
        }
    }
}

} // verus!
